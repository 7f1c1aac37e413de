//! Text handling shared by the parsers and the formatters.
//!
//! Every function here works on the characters of a string: specifications
//! speak of `Seq<char>`, the view of `str` and `String`.

use vstd::prelude::*;

verus! {

// ---------------------------------------------------------------------------
// Trusted: operations of the standard library.
// ---------------------------------------------------------------------------

/// `String::push` appends one character.
pub assume_specification[ String::push ](s: &mut String, c: char)
    ensures
        final(s)@ == old(s)@.push(c),
;

/// Comparison of two string slices with `==`, which is true exactly when the
/// two hold the same characters.
#[verifier::external_body]
pub(crate) fn same_text(a: &str, b: &str) -> (r: bool)
    ensures
        r == (a@ == b@),
{
    a == b
}

/// What `FromUtf8Error` says of bytes that are not valid UTF-8.
pub uninterp spec fn utf8_failure(bytes: Seq<u8>) -> Seq<char>;

/// What `String::from_utf8_lossy` makes of bytes.
pub uninterp spec fn lossy_text(bytes: Seq<u8>) -> Seq<char>;

/// What the `Debug` form of a string slice is.
pub uninterp spec fn debug_text(s: Seq<char>) -> Seq<char>;

/// The `Debug` form of a string slice: the text between double quotes, with
/// escapes. Which characters are escaped, and how, is not stated.
#[verifier::external_body]
pub(crate) fn quoted(s: &str) -> (r: String)
    ensures
        r@ == debug_text(s@),
{
    format!("{s:?}")
}

/// `String::from_utf8`: the characters that the bytes encode where they are
/// valid UTF-8, and otherwise the words of its error.
#[verifier::external_body]
pub(crate) fn utf8_text(bytes: Vec<u8>) -> (r: Result<String, String>)
    ensures
        r is Ok <==> vstd::utf8::valid_utf8(bytes@),
        r matches Ok(s) ==> s@ == vstd::utf8::decode_utf8(bytes@),
        r matches Err(e) ==> e@ == utf8_failure(bytes@),
{
    String::from_utf8(bytes).map_err(|e| e.to_string())
}

/// `String::from_utf8_lossy`: the characters that the bytes encode. Bytes that
/// are not valid UTF-8 give some text that depends on them alone; what stands
/// in it for the invalid parts is not stated.
#[verifier::external_body]
pub(crate) fn lossy(bytes: &Vec<u8>) -> (r: String)
    ensures
        r@ == lossy_text(bytes@),
        vstd::utf8::valid_utf8(bytes@) ==> r@ == vstd::utf8::decode_utf8(bytes@),
{
    String::from_utf8_lossy(bytes).into_owned()
}

// ---------------------------------------------------------------------------
// Model.
// ---------------------------------------------------------------------------

/// The texts of a list of strings.
pub open spec fn texts(v: Seq<String>) -> Seq<Seq<char>> {
    Seq::new(v.len(), |i: int| v[i]@)
}

/// The text of an optional string.
pub open spec fn opt_text(o: Option<String>) -> Option<Seq<char>> {
    match o {
        Some(s) => Some(s@),
        None => None,
    }
}

/// The text of an optional string slice.
pub open spec fn opt_str(o: Option<&str>) -> Option<Seq<char>> {
    match o {
        Some(s) => Some(s@),
        None => None,
    }
}

/// The Unicode `White_Space` property.
pub open spec fn is_space(c: char) -> bool {
    ||| 0x09 <= c as int <= 0x0d
    ||| c as int == 0x20
    ||| c as int == 0x85
    ||| c as int == 0xa0
    ||| c as int == 0x1680
    ||| 0x2000 <= c as int <= 0x200a
    ||| c as int == 0x2028
    ||| c as int == 0x2029
    ||| c as int == 0x202f
    ||| c as int == 0x205f
    ||| c as int == 0x3000
}

/// `s` without its leading white space.
pub open spec fn trim_start_of(s: Seq<char>) -> Seq<char>
    decreases s.len(),
{
    if s.len() > 0 && is_space(s[0]) {
        trim_start_of(s.skip(1))
    } else {
        s
    }
}

/// `s` without its trailing white space.
pub open spec fn trim_end_of(s: Seq<char>) -> Seq<char>
    decreases s.len(),
{
    if s.len() > 0 && is_space(s.last()) {
        trim_end_of(s.drop_last())
    } else {
        s
    }
}

/// `s` without white space at either end.
pub open spec fn trim_of(s: Seq<char>) -> Seq<char> {
    trim_end_of(trim_start_of(s))
}

/// How many characters stand before the first line feed, or the whole length.
pub open spec fn line_len(s: Seq<char>) -> nat
    decreases s.len(),
{
    if s.len() == 0 || s[0] == '\n' {
        0
    } else {
        1 + line_len(s.skip(1))
    }
}

/// A terminated line without the carriage return before its line feed.
pub open spec fn strip_cr(s: Seq<char>) -> Seq<char> {
    if s.len() > 0 && s.last() == '\r' {
        s.drop_last()
    } else {
        s
    }
}

/// The lines of `s`, without their terminators (`\n` or `\r\n`). The last
/// terminator is optional.
pub open spec fn lines_of(s: Seq<char>) -> Seq<Seq<char>>
    decreases s.len(),
{
    if s.len() == 0 {
        seq![]
    } else if line_len(s) >= s.len() {
        seq![s]
    } else {
        seq![strip_cr(s.take(line_len(s) as int))] + lines_of(s.skip(line_len(s) as int + 1))
    }
}

/// How many characters stand before the first white space, or the whole length.
pub open spec fn word_len(s: Seq<char>) -> nat
    decreases s.len(),
{
    if s.len() == 0 || is_space(s[0]) {
        0
    } else {
        1 + word_len(s.skip(1))
    }
}

/// The maximal runs of `s` that hold no white space, in order.
pub open spec fn words_of(s: Seq<char>) -> Seq<Seq<char>>
    decreases s.len(),
{
    if s.len() == 0 {
        seq![]
    } else if is_space(s[0]) {
        words_of(s.skip(1))
    } else if word_len(s) == 0 || word_len(s) >= s.len() {
        seq![s]
    } else {
        seq![s.take(word_len(s) as int)] + words_of(s.skip(word_len(s) as int))
    }
}

/// `needle` stands in `hay` at index `i`.
pub open spec fn occurs_at(hay: Seq<char>, needle: Seq<char>, i: int) -> bool {
    0 <= i && i + needle.len() <= hay.len() && hay.subrange(i, i + needle.len()) == needle
}

/// The first index at or after `from` at which `needle` stands in `hay`.
pub open spec fn find_from(hay: Seq<char>, needle: Seq<char>, from: nat) -> Option<nat>
    decreases hay.len() + 1 - from,
{
    if from + needle.len() > hay.len() {
        None
    } else if occurs_at(hay, needle, from as int) {
        Some(from)
    } else {
        find_from(hay, needle, from + 1)
    }
}

/// The first index at which `needle` stands in `hay`.
pub open spec fn find_in(hay: Seq<char>, needle: Seq<char>) -> Option<nat> {
    find_from(hay, needle, 0)
}

/// `s` begins with `prefix`.
pub open spec fn has_prefix(s: Seq<char>, prefix: Seq<char>) -> bool {
    prefix.len() <= s.len() && s.take(prefix.len() as int) == prefix
}

pub open spec fn is_digit(c: char) -> bool {
    '0' as int <= c as int <= '9' as int
}

/// Every character of `s` is an ASCII digit.
pub open spec fn all_digits(s: Seq<char>) -> bool {
    forall|i: int| 0 <= i < s.len() ==> is_digit(#[trigger] s[i])
}

/// The number that a run of digits denotes in base ten.
pub open spec fn digits_value(s: Seq<char>) -> nat
    decreases s.len(),
{
    if s.len() == 0 {
        0
    } else {
        digits_value(s.drop_last()) * 10 + (s.last() as int - '0' as int) as nat
    }
}

/// The digits of an unsigned number text: an optional `+` in front of them is
/// dropped.
pub open spec fn unsigned_digits(s: Seq<char>) -> Seq<char> {
    if s.len() > 0 && s[0] == '+' {
        s.skip(1)
    } else {
        s
    }
}

/// The `u64` that `s` denotes: an optional `+`, then at least one digit, and
/// nothing else, with a value that fits.
pub open spec fn u64_of(s: Seq<char>) -> Option<u64> {
    let d = unsigned_digits(s);
    if d.len() > 0 && all_digits(d) && digits_value(d) <= u64::MAX {
        Some(digits_value(d) as u64)
    } else {
        None
    }
}

pub open spec fn digit_char(d: nat) -> char {
    (d + '0' as nat) as char
}

/// The decimal numeral of `n`, without leading zeros.
pub open spec fn decimal(n: nat) -> Seq<char>
    decreases n,
{
    if n < 10 {
        seq![digit_char(n)]
    } else {
        decimal(n / 10).push(digit_char(n % 10))
    }
}

/// The decimal numeral of `n`, with a minus sign where it is negative.
pub open spec fn signed_decimal(n: int) -> Seq<char> {
    if n < 0 {
        seq!['-'] + decimal((-n) as nat)
    } else {
        decimal(n as nat)
    }
}

/// `n` copies of `c`.
pub open spec fn repeated(c: char, n: nat) -> Seq<char> {
    Seq::new(n, |i: int| c)
}

/// `s` followed by as many blanks as it lacks to `width`.
pub open spec fn padded_right(s: Seq<char>, width: nat) -> Seq<char> {
    if s.len() < width {
        s + repeated(' ', (width - s.len()) as nat)
    } else {
        s
    }
}

/// `s` after as many blanks as it lacks to `width`.
pub open spec fn padded_left(s: Seq<char>, width: nat) -> Seq<char> {
    if s.len() < width {
        repeated(' ', (width - s.len()) as nat) + s
    } else {
        s
    }
}

/// An ASCII letter in lower case; any other character unchanged.
pub open spec fn ascii_lower(c: char) -> char {
    if 'A' as int <= c as int <= 'Z' as int {
        (c as int + 32) as char
    } else {
        c
    }
}

/// The two texts differ at most in the case of ASCII letters.
pub open spec fn same_ignoring_case(a: Seq<char>, b: Seq<char>) -> bool {
    &&& a.len() == b.len()
    &&& forall|i: int| 0 <= i < a.len() ==> ascii_lower(#[trigger] a[i]) == ascii_lower(b[i])
}

// ---------------------------------------------------------------------------
// Executable functions.
// ---------------------------------------------------------------------------

/// The characters of a string.
pub fn chars_of(s: &str) -> (r: Vec<char>)
    ensures
        r@ == s@,
{
    let mut v: Vec<char> = Vec::new();
    for c in it: s.chars()
        invariant
            v@ == it.seq().take(it.index() as int),
            it.seq() == s@,
    {
        v.push(c);
    }
    v
}

/// The string made of the characters `v[from..to]`.
pub fn string_between(v: &Vec<char>, from: usize, to: usize) -> (r: String)
    requires
        from <= to <= v@.len(),
    ensures
        r@ == v@.subrange(from as int, to as int),
{
    let mut out = String::new();
    let mut i: usize = from;
    while i < to
        invariant
            from <= i <= to <= v@.len(),
            out@ == v@.subrange(from as int, i as int),
        decreases to - i,
    {
        out.push(v[i]);
        i += 1;
    }
    out
}

pub fn cat2(a: &str, b: &str) -> (r: String)
    ensures
        r@ == a@ + b@,
{
    let mut s: String = a.to_owned();
    s.append(b);
    s
}

pub fn cat3(a: &str, b: &str, c: &str) -> (r: String)
    ensures
        r@ == a@ + b@ + c@,
{
    let mut s = cat2(a, b);
    s.append(c);
    s
}

pub fn cat4(a: &str, b: &str, c: &str, d: &str) -> (r: String)
    ensures
        r@ == a@ + b@ + c@ + d@,
{
    let mut s = cat3(a, b, c);
    s.append(d);
    s
}

pub fn cat5(a: &str, b: &str, c: &str, d: &str, e: &str) -> (r: String)
    ensures
        r@ == a@ + b@ + c@ + d@ + e@,
{
    let mut s = cat4(a, b, c, d);
    s.append(e);
    s
}

/// Whether `c` has the Unicode `White_Space` property.
pub fn space(c: char) -> (r: bool)
    ensures
        r == is_space(c),
{
    let n: u32 = c as u32;
    (0x09 <= n && n <= 0x0d) || n == 0x20 || n == 0x85 || n == 0xa0 || n == 0x1680 || (0x2000 <= n
        && n <= 0x200a) || n == 0x2028 || n == 0x2029 || n == 0x202f || n == 0x205f || n == 0x3000
}

fn start_index(v: &Vec<char>) -> (i: usize)
    ensures
        i <= v@.len(),
        v@.skip(i as int) == trim_start_of(v@),
{
    let mut i: usize = 0;
    assert(v@.skip(0) =~= v@);
    while i < v.len() && space(v[i])
        invariant
            i <= v@.len(),
            trim_start_of(v@.skip(i as int)) == trim_start_of(v@),
        decreases v@.len() - i,
    {
        assert(v@.skip(i as int).skip(1) =~= v@.skip(i + 1));
        assert(v@.skip(i as int)[0] == v@[i as int]);
        i += 1;
    }
    proof {
        if i < v@.len() {
            assert(v@.skip(i as int)[0] == v@[i as int]);
        }
    }
    i
}

fn end_index(v: &Vec<char>, from: usize) -> (j: usize)
    requires
        from <= v@.len(),
    ensures
        from <= j <= v@.len(),
        v@.subrange(from as int, j as int) == trim_end_of(v@.skip(from as int)),
{
    let mut j: usize = v.len();
    assert(v@.subrange(from as int, j as int) =~= v@.skip(from as int));
    while j > from && space(v[j - 1])
        invariant
            from <= j <= v@.len(),
            trim_end_of(v@.subrange(from as int, j as int)) == trim_end_of(v@.skip(from as int)),
        decreases j,
    {
        assert(v@.subrange(from as int, j as int).drop_last() =~= v@.subrange(
            from as int,
            j - 1,
        ));
        assert(v@.subrange(from as int, j as int).last() == v@[j - 1]);
        j -= 1;
    }
    proof {
        if j > from {
            assert(v@.subrange(from as int, j as int).last() == v@[j - 1]);
        }
    }
    j
}

/// `s` without white space at either end.
pub fn trim(s: &str) -> (r: String)
    ensures
        r@ == trim_of(s@),
{
    let v = chars_of(s);
    let i = start_index(&v);
    let j = end_index(&v, i);
    string_between(&v, i, j)
}

/// `s` without trailing white space.
pub fn trim_end(s: &str) -> (r: String)
    ensures
        r@ == trim_end_of(s@),
{
    let v = chars_of(s);
    let j = end_index(&v, 0);
    assert(v@.skip(0) =~= v@);
    string_between(&v, 0, j)
}

/// The lines of `s`, without their terminators.
pub fn lines(s: &str) -> (r: Vec<String>)
    ensures
        texts(r@) == lines_of(s@),
{
    let v = chars_of(s);
    let mut out: Vec<String> = Vec::new();
    let mut i: usize = 0;
    assert(v@.skip(0) =~= v@);
    assert(texts(out@) + lines_of(v@) =~= lines_of(v@));
    while i < v.len()
        invariant
            i <= v@.len(),
            v@ == s@,
            texts(out@) + lines_of(v@.skip(i as int)) == lines_of(s@),
        decreases v@.len() - i,
    {
        let ghost rest = v@.skip(i as int);
        let mut j: usize = i;
        assert(v@.skip(j as int) =~= rest);
        while j < v.len() && v[j] != '\n'
            invariant
                i <= j <= v@.len(),
                rest == v@.skip(i as int),
                line_len(rest) == (j - i) + line_len(v@.skip(j as int)),
            decreases v@.len() - j,
        {
            assert(v@.skip(j as int)[0] == v@[j as int]);
            assert(v@.skip(j as int).skip(1) =~= v@.skip(j + 1));
            j += 1;
        }
        proof {
            if j < v@.len() {
                assert(v@.skip(j as int)[0] == v@[j as int]);
            }
            assert(line_len(rest) == j - i);
        }
        let ghost before = texts(out@);
        if j < v.len() {
            let mut end: usize = j;
            assert(rest.take(j - i) =~= v@.subrange(i as int, j as int));
            if end > i && v[end - 1] == '\r' {
                assert(rest.take(j - i).last() == v@[j - 1]);
                end -= 1;
            } else {
                assert(j > i ==> rest.take(j - i).last() == v@[j - 1]);
            }
            out.push(string_between(&v, i, end));
            proof {
                assert(strip_cr(rest.take(j - i)) =~= v@.subrange(i as int, end as int));
                assert(rest.skip(j - i + 1) =~= v@.skip(j + 1));
                assert(texts(out@) =~= before.push(v@.subrange(i as int, end as int)));
                assert(before + (seq![strip_cr(rest.take(j - i))] + lines_of(v@.skip(j + 1)))
                    =~= texts(out@) + lines_of(v@.skip(j + 1)));
            }
            i = j + 1;
        } else {
            out.push(string_between(&v, i, j));
            proof {
                assert(rest =~= v@.subrange(i as int, j as int));
                assert(texts(out@) =~= before.push(rest));
                assert(v@.skip(j as int) =~= Seq::<char>::empty());
                assert(lines_of(rest) == seq![rest]);
                assert(before + seq![rest] =~= texts(out@) + lines_of(v@.skip(j as int)));
            }
            i = j;
        }
    }
    proof {
        assert(v@.skip(i as int) =~= Seq::<char>::empty());
        assert(texts(out@) + lines_of(v@.skip(i as int)) =~= texts(out@));
    }
    out
}

/// The maximal runs of `s` that hold no white space, in order.
pub fn words(s: &str) -> (r: Vec<String>)
    ensures
        texts(r@) == words_of(s@),
{
    let v = chars_of(s);
    let mut out: Vec<String> = Vec::new();
    let mut i: usize = 0;
    assert(v@.skip(0) =~= v@);
    assert(texts(out@) + words_of(v@) =~= words_of(v@));
    while i < v.len()
        invariant
            i <= v@.len(),
            v@ == s@,
            texts(out@) + words_of(v@.skip(i as int)) == words_of(s@),
        decreases v@.len() - i,
    {
        let ghost rest = v@.skip(i as int);
        assert(rest[0] == v@[i as int]);
        if space(v[i]) {
            assert(rest.skip(1) =~= v@.skip(i + 1));
            i += 1;
        } else {
            let mut j: usize = i;
            assert(v@.skip(j as int) =~= rest);
            while j < v.len() && !space(v[j])
                invariant
                    i <= j <= v@.len(),
                    rest == v@.skip(i as int),
                    word_len(rest) == (j - i) + word_len(v@.skip(j as int)),
                decreases v@.len() - j,
            {
                assert(v@.skip(j as int)[0] == v@[j as int]);
                assert(v@.skip(j as int).skip(1) =~= v@.skip(j + 1));
                j += 1;
            }
            proof {
                if j < v@.len() {
                    assert(v@.skip(j as int)[0] == v@[j as int]);
                }
                assert(word_len(rest) == j - i);
                assert(word_len(rest) > 0);
            }
            let ghost before = texts(out@);
            out.push(string_between(&v, i, j));
            proof {
                let word = v@.subrange(i as int, j as int);
                assert(rest.take(j - i) =~= word);
                assert(texts(out@) =~= before.push(word));
                assert(rest.skip(j - i) =~= v@.skip(j as int));
                if j < v@.len() {
                    assert(before + (seq![word] + words_of(v@.skip(j as int))) =~= texts(out@)
                        + words_of(v@.skip(j as int)));
                } else {
                    assert(rest =~= word);
                    assert(v@.skip(j as int) =~= Seq::<char>::empty());
                    assert(before + seq![word] =~= texts(out@) + words_of(v@.skip(j as int)));
                }
            }
            i = j;
        }
    }
    proof {
        assert(v@.skip(i as int) =~= Seq::<char>::empty());
        assert(texts(out@) + words_of(v@.skip(i as int)) =~= texts(out@));
    }
    out
}

fn occurs(hay: &Vec<char>, needle: &Vec<char>, i: usize) -> (r: bool)
    requires
        i + needle@.len() <= hay@.len(),
    ensures
        r == occurs_at(hay@, needle@, i as int),
{
    let hay_len: usize = hay.len();
    let mut k: usize = 0;
    while k < needle.len()
        invariant
            k <= needle@.len(),
            i + needle@.len() <= hay@.len(),
            hay_len == hay@.len(),
            forall|m: int| 0 <= m < k ==> hay@[i + m] == #[trigger] needle@[m],
        decreases needle@.len() - k,
    {
        if hay[i + k] != needle[k] {
            proof {
                assert(hay@.subrange(i as int, i + needle@.len())[k as int] != needle@[k as int]);
            }
            return false;
        }
        k += 1;
    }
    assert(hay@.subrange(i as int, i + needle@.len()) =~= needle@);
    true
}

fn find_chars(hay: &Vec<char>, needle: &Vec<char>, from: usize) -> (r: Option<usize>)
    requires
        from <= hay@.len(),
    ensures
        match r {
            Some(i) => find_from(hay@, needle@, from as nat) == Some(i as nat) && i
                + needle@.len() <= hay@.len(),
            None => find_from(hay@, needle@, from as nat) is None,
        },
{
    let n: usize = needle.len();
    let hay_len: usize = hay.len();
    let mut i: usize = from;
    while n <= hay_len - i
        invariant
            n == needle@.len(),
            hay_len == hay@.len(),
            i <= hay_len,
            find_from(hay@, needle@, i as nat) == find_from(hay@, needle@, from as nat),
        decreases hay@.len() + 1 - i,
    {
        if occurs(hay, needle, i) {
            return Some(i);
        }
        proof {
            if n == 0 {
                assert(hay@.subrange(i as int, i as int) =~= needle@);
            }
        }
        i += 1;
    }
    None
}

/// Whether `needle` stands somewhere in `hay`.
pub fn contains(hay: &str, needle: &str) -> (r: bool)
    ensures
        r == find_in(hay@, needle@) is Some,
{
    let h = chars_of(hay);
    let n = chars_of(needle);
    find_chars(&h, &n, 0).is_some()
}

/// The text between the first `open` and the first `close` after it.
pub fn between(s: &str, open: &str, close: &str) -> (r: Option<String>)
    ensures
        opt_text(r) == between_of(s@, open@, close@),
{
    let v = chars_of(s);
    let o = chars_of(open);
    let c = chars_of(close);
    match find_chars(&v, &o, 0) {
        None => None,
        Some(i) => {
            assert(i + o@.len() <= v.len());
            let start: usize = i + o.len();
            match find_chars(&v, &c, start) {
                None => None,
                Some(j) => {
                    proof {
                        lemma_find_bounds(v@, c@, start as nat);
                    }
                    Some(string_between(&v, start, j))
                },
            }
        },
    }
}

/// The text between the first `open` and the first `close` after it.
pub open spec fn between_of(s: Seq<char>, open: Seq<char>, close: Seq<char>) -> Option<Seq<char>> {
    match find_in(s, open) {
        None => None,
        Some(i) => match find_from(s, close, i + open.len()) {
            None => None,
            Some(j) => Some(s.subrange((i + open.len()) as int, j as int)),
        },
    }
}

/// What `find_from` finds stands at or after its start, and fits.
pub proof fn lemma_find_bounds(hay: Seq<char>, needle: Seq<char>, from: nat)
    ensures
        find_from(hay, needle, from) matches Some(i) ==> from <= i && occurs_at(
            hay,
            needle,
            i as int,
        ),
    decreases hay.len() + 1 - from,
{
    if from + needle.len() > hay.len() {
    } else if occurs_at(hay, needle, from as int) {
    } else {
        lemma_find_bounds(hay, needle, from + 1);
    }
}

/// What follows `prefix` in `s`, where `s` begins with it.
pub fn strip_prefix(s: &str, prefix: &str) -> (r: Option<String>)
    ensures
        opt_text(r) == if has_prefix(s@, prefix@) {
            Some(s@.skip(prefix@.len() as int))
        } else {
            None
        },
{
    let v = chars_of(s);
    let p = chars_of(prefix);
    if p.len() <= v.len() {
        assert(v@.subrange(0, p@.len() as int) =~= v@.take(p@.len() as int));
        if occurs(&v, &p, 0) {
            assert(v@.subrange(p@.len() as int, v@.len() as int) =~= v@.skip(p@.len() as int));
            return Some(string_between(&v, p.len(), v.len()));
        }
    }
    None
}

/// The `u64` that `s` denotes in base ten.
pub fn parse_u64(s: &str) -> (r: Option<u64>)
    ensures
        r == u64_of(s@),
{
    let v = chars_of(s);
    let start: usize = if v.len() > 0 && v[0] == '+' { 1 } else { 0 };
    let ghost d = unsigned_digits(s@);
    assert(d =~= v@.skip(start as int));
    if start == v.len() {
        return None;
    }
    let mut n: u64 = 0;
    let mut i: usize = start;
    assert(d.take(0) =~= Seq::<char>::empty());
    while i < v.len()
        invariant
            start <= i <= v@.len(),
            d == v@.skip(start as int),
            d == unsigned_digits(s@),
            n == digits_value(d.take(i - start)),
            forall|k: int| 0 <= k < i - start ==> is_digit(#[trigger] d[k]),
        decreases v@.len() - i,
    {
        let c = v[i];
        assert(d[i - start] == c);
        if !('0' <= c && c <= '9') {
            assert(!is_digit(d[i - start]));
            return None;
        }
        let digit: u64 = (c as u32 - '0' as u32) as u64;
        proof {
            assert(d.take(i - start + 1).drop_last() =~= d.take(i - start));
            assert(digits_value(d.take(i - start + 1)) == n * 10 + digit);
            lemma_digits_grow(d, i - start + 1);
        }
        if n > (u64::MAX - digit) / 10 {
            return None;
        }
        n = n * 10 + digit;
        i += 1;
    }
    assert(d.take(v@.len() - start) =~= d);
    Some(n)
}

proof fn lemma_digits_grow(d: Seq<char>, n: int)
    requires
        0 <= n <= d.len(),
    ensures
        digits_value(d.take(n)) <= digits_value(d),
    decreases d.len() - n,
{
    if n < d.len() {
        assert(d.take(n + 1).drop_last() =~= d.take(n));
        lemma_digits_grow(d, n + 1);
    } else {
        assert(d.take(n) =~= d);
    }
}

/// The decimal numeral of `n`.
pub fn decimal_text(n: u128) -> (r: String)
    ensures
        r@ == decimal(n as nat),
    decreases n,
{
    if n < 10 {
        let mut s = String::new();
        s.push(digit(n as u8));
        assert(s@ =~= seq![digit_char(n as nat)]);
        s
    } else {
        let mut s = decimal_text(n / 10);
        s.push(digit((n % 10) as u8));
        s
    }
}

fn digit(d: u8) -> (c: char)
    requires
        d < 10,
    ensures
        c == digit_char(d as nat),
{
    (d + 48) as char
}

/// The decimal numeral of `n`, signed where it is negative.
pub fn signed_text(n: i128) -> (r: String)
    requires
        n > i128::MIN,
    ensures
        r@ == signed_decimal(n as int),
{
    if n < 0 {
        let d = decimal_text((-n) as u128);
        let mut s = String::new();
        s.push('-');
        s.append(d.as_str());
        assert(s@ =~= seq!['-'] + decimal((-n) as nat));
        s
    } else {
        decimal_text(n as u128)
    }
}

/// `n` copies of `c`.
pub fn repeat(c: char, n: usize) -> (r: String)
    ensures
        r@ == repeated(c, n as nat),
{
    let mut s = String::new();
    let mut i: usize = 0;
    while i < n
        invariant
            i <= n,
            s@ == repeated(c, i as nat),
        decreases n - i,
    {
        s.push(c);
        assert(s@ =~= repeated(c, (i + 1) as nat));
        i += 1;
    }
    s
}

/// `s` padded on the right with blanks to `width` characters.
pub fn pad_right(s: &str, width: usize) -> (r: String)
    ensures
        r@ == padded_right(s@, width as nat),
{
    let len: usize = s.unicode_len();
    if len < width {
        let blanks = repeat(' ', width - len);
        cat2(s, blanks.as_str())
    } else {
        s.to_owned()
    }
}

/// `s` padded on the left with blanks to `width` characters.
pub fn pad_left(s: &str, width: usize) -> (r: String)
    ensures
        r@ == padded_left(s@, width as nat),
{
    let len: usize = s.unicode_len();
    if len < width {
        let blanks = repeat(' ', width - len);
        cat2(blanks.as_str(), s)
    } else {
        s.to_owned()
    }
}

fn lower(c: char) -> (r: char)
    ensures
        r == ascii_lower(c),
{
    if 'A' <= c && c <= 'Z' {
        (c as u8 + 32) as char
    } else {
        c
    }
}

/// Whether the two texts differ at most in the case of ASCII letters.
pub fn eq_ignore_ascii_case(a: &str, b: &str) -> (r: bool)
    ensures
        r == same_ignoring_case(a@, b@),
{
    let x = chars_of(a);
    let y = chars_of(b);
    if x.len() != y.len() {
        return false;
    }
    let mut i: usize = 0;
    while i < x.len()
        invariant
            i <= x@.len(),
            x@.len() == y@.len(),
            x@ == a@,
            y@ == b@,
            forall|k: int| 0 <= k < i ==> ascii_lower(#[trigger] x@[k]) == ascii_lower(y@[k]),
        decreases x@.len() - i,
    {
        if lower(x[i]) != lower(y[i]) {
            assert(ascii_lower(a@[i as int]) != ascii_lower(b@[i as int]));
            return false;
        }
        i += 1;
    }
    true
}

// ---------------------------------------------------------------------------
// Laws.
// ---------------------------------------------------------------------------

/// Every character is white space.
pub open spec fn all_space(s: Seq<char>) -> bool {
    forall|i: int| 0 <= i < s.len() ==> is_space(#[trigger] s[i])
}

/// Trimming takes away the white space around a text, and nothing else.
pub proof fn trimming_takes_only_the_space_around(
    before: Seq<char>,
    body: Seq<char>,
    behind: Seq<char>,
)
    requires
        all_space(before),
        all_space(behind),
        body.len() > 0 ==> !is_space(body[0]) && !is_space(body.last()),
    ensures
        trim_of(before + body + behind) == body,
    decreases before.len() + behind.len(),
{
    let s = before + body + behind;
    if before.len() > 0 {
        assert(s[0] == before[0]);
        assert(s.skip(1) =~= before.skip(1) + body + behind);
        assert forall|i: int| 0 <= i < before.skip(1).len() implies is_space(
            #[trigger] before.skip(1)[i],
        ) by {
            assert(before.skip(1)[i] == before[i + 1]);
        }
        trimming_takes_only_the_space_around(before.skip(1), body, behind);
    } else if body.len() == 0 {
        assert(s =~= behind);
        if behind.len() > 0 {
            assert(s.skip(1) =~= before + body + behind.skip(1));
            assert forall|i: int| 0 <= i < behind.skip(1).len() implies is_space(
                #[trigger] behind.skip(1)[i],
            ) by {
                assert(behind.skip(1)[i] == behind[i + 1]);
            }
            assert(is_space(behind[0]));
            trimming_takes_only_the_space_around(before, body, behind.skip(1));
        } else {
            assert(trim_of(s) =~= body);
        }
    } else {
        assert(s[0] == body[0]);
        assert(trim_start_of(s) == s);
        if behind.len() > 0 {
            assert(s.last() == behind.last());
            assert(s.drop_last() =~= before + body + behind.drop_last());
            assert(is_space(behind[behind.len() - 1]));
            assert forall|i: int| 0 <= i < behind.drop_last().len() implies is_space(
                #[trigger] behind.drop_last()[i],
            ) by {
                assert(behind.drop_last()[i] == behind[i]);
            }
            let t = before + body + behind.drop_last();
            assert(t[0] == body[0]);
            assert(trim_start_of(t) == t);
            trimming_takes_only_the_space_around(before, body, behind.drop_last());
        } else {
            assert(s =~= body);
        }
    }
}

/// Some lines, each with a line feed behind it.
pub open spec fn terminated(lines: Seq<Seq<char>>) -> Seq<char>
    decreases lines.len(),
{
    if lines.len() == 0 {
        seq![]
    } else {
        lines[0].push('\n') + terminated(lines.skip(1))
    }
}

proof fn lemma_line_len(line: Seq<char>, rest: Seq<char>)
    requires
        !line.contains('\n'),
    ensures
        line_len(line.push('\n') + rest) == line.len(),
    decreases line.len(),
{
    let s = line.push('\n') + rest;
    if line.len() > 0 {
        let tail = line.skip(1);
        assert(line.contains(line[0]));
        assert forall|i: int| 0 <= i < tail.len() implies tail[i] != '\n' by {
            assert(line.contains(line[i + 1]));
        }
        lemma_line_len(tail, rest);
        assert(s.skip(1) =~= tail.push('\n') + rest);
    }
}

/// A text falls apart into exactly the lines that it was made of, as long as
/// none holds a line feed or ends in a carriage return.
pub proof fn lines_are_read_back(lines: Seq<Seq<char>>)
    requires
        forall|i: int|
            0 <= i < lines.len() ==> !(#[trigger] lines[i]).contains('\n') && (lines[i].len() > 0
                ==> lines[i].last() != '\r'),
    ensures
        lines_of(terminated(lines)) == lines,
    decreases lines.len(),
{
    if lines.len() > 0 {
        let rest = terminated(lines.skip(1));
        let s = lines[0].push('\n') + rest;
        let n = lines[0].len() as int;
        assert forall|i: int| 0 <= i < lines.skip(1).len() implies !(
        #[trigger] lines.skip(1)[i]).contains('\n') && (lines.skip(1)[i].len() > 0
            ==> lines.skip(1)[i].last() != '\r') by {
            assert(lines.skip(1)[i] == lines[i + 1]);
        }
        lines_are_read_back(lines.skip(1));
        lemma_line_len(lines[0], rest);
        assert(s.take(n) =~= lines[0]);
        assert(s.skip(n + 1) =~= rest);
        assert(lines_of(s) =~= seq![lines[0]] + lines.skip(1));
        assert(seq![lines[0]] + lines.skip(1) =~= lines);
    } else {
        assert(lines_of(terminated(lines)) =~= lines);
    }
}

/// Some words, each with a blank behind it.
pub open spec fn spaced(words: Seq<Seq<char>>) -> Seq<char>
    decreases words.len(),
{
    if words.len() == 0 {
        seq![]
    } else {
        words[0].push(' ') + spaced(words.skip(1))
    }
}

/// No character is white space.
pub open spec fn no_space(s: Seq<char>) -> bool {
    forall|i: int| 0 <= i < s.len() ==> !is_space(#[trigger] s[i])
}

proof fn lemma_word_len(word: Seq<char>, rest: Seq<char>)
    requires
        no_space(word),
    ensures
        word_len(word.push(' ') + rest) == word.len(),
    decreases word.len(),
{
    let s = word.push(' ') + rest;
    if word.len() > 0 {
        let tail = word.skip(1);
        assert(s[0] == word[0]);
        assert forall|i: int| 0 <= i < tail.len() implies !is_space(#[trigger] tail[i]) by {
            assert(tail[i] == word[i + 1]);
        }
        lemma_word_len(tail, rest);
        assert(s.skip(1) =~= tail.push(' ') + rest);
    } else {
        assert(s[0] == ' ');
    }
}

/// A line falls apart into exactly the words that it was made of.
pub proof fn words_are_read_back(words: Seq<Seq<char>>)
    requires
        forall|i: int|
            0 <= i < words.len() ==> (#[trigger] words[i]).len() > 0 && no_space(words[i]),
    ensures
        words_of(spaced(words)) == words,
    decreases words.len(),
{
    if words.len() > 0 {
        let rest = spaced(words.skip(1));
        let s = words[0].push(' ') + rest;
        let n = words[0].len() as int;
        assert forall|i: int| 0 <= i < words.skip(1).len() implies (
        #[trigger] words.skip(1)[i]).len() > 0 && no_space(words.skip(1)[i]) by {
            assert(words.skip(1)[i] == words[i + 1]);
        }
        words_are_read_back(words.skip(1));
        lemma_word_len(words[0], rest);
        assert(s[0] == words[0][0]);
        assert(s.take(n) =~= words[0]);
        assert(s.skip(n)[0] == ' ');
        assert(s.skip(n).skip(1) =~= rest);
        assert(words_of(s.skip(n)) == words_of(rest));
        assert(words_of(s) =~= seq![words[0]] + words.skip(1));
        assert(seq![words[0]] + words.skip(1) =~= words);
    } else {
        assert(words_of(spaced(words)) =~= words);
    }
}

proof fn lemma_digits(n: nat)
    ensures
        decimal(n).len() > 0,
        all_digits(decimal(n)),
        digits_value(decimal(n)) == n,
    decreases n,
{
    if n < 10 {
        reveal_with_fuel(digits_value, 2);
        assert(decimal(n).drop_last() =~= Seq::<char>::empty());
    } else {
        lemma_digits(n / 10);
        assert(decimal(n).drop_last() =~= decimal(n / 10));
        assert forall|i: int| 0 <= i < decimal(n).len() implies is_digit(
            #[trigger] decimal(n)[i],
        ) by {
            if i < decimal(n / 10).len() {
                assert(decimal(n)[i] == decimal(n / 10)[i]);
            }
        }
    }
}

/// A number that was written is read back, and so two numbers that are written
/// alike are the same.
pub proof fn a_written_number_is_read_back(n: u64)
    ensures
        u64_of(decimal(n as nat)) == Some(n),
        signed_decimal(n as int) == decimal(n as nat),
        n > 0 ==> signed_decimal(-(n as int)) == seq!['-'] + decimal(n as nat),
{
    lemma_digits(n as nat);
    let d = decimal(n as nat);
    assert(is_digit(d[0]));
    assert(unsigned_digits(d) == d);
}

/// What is found is the first place where the needle stands, and nothing is
/// found exactly where it stands nowhere.
pub proof fn the_first_place_is_found(hay: Seq<char>, needle: Seq<char>, from: nat)
    ensures
        find_from(hay, needle, from) matches Some(i) ==> {
            &&& from <= i
            &&& i + needle.len() <= hay.len()
            &&& hay.subrange(i as int, (i + needle.len()) as int) == needle
            &&& forall|k: int|
                from <= k < i ==> #[trigger] hay.subrange(k, k + needle.len()) != needle
        },
        find_from(hay, needle, from) is None ==> forall|k: int|
            from <= k && k + needle.len() <= hay.len() ==> #[trigger] hay.subrange(
                k,
                k + needle.len(),
            ) != needle,
    decreases hay.len() + 1 - from,
{
    if from + needle.len() > hay.len() {
    } else if occurs_at(hay, needle, from as int) {
    } else {
        the_first_place_is_found(hay, needle, from + 1);
    }
}

/// A text that is padded is as wide as was asked for, or as wide as it was,
/// and stands at the left or at the right of the blanks.
pub proof fn padding_keeps_the_text(s: Seq<char>, width: nat)
    ensures
        padded_right(s, width).len() == if s.len() < width {
            width
        } else {
            s.len()
        },
        padded_left(s, width).len() == padded_right(s, width).len(),
        padded_right(s, width).take(s.len() as int) == s,
        padded_left(s, width).skip(padded_left(s, width).len() - s.len()) == s,
        all_space(padded_right(s, width).skip(s.len() as int)),
        all_space(padded_left(s, width).take(padded_left(s, width).len() - s.len())),
{
    assert(padded_right(s, width).take(s.len() as int) =~= s);
    assert(padded_left(s, width).skip(padded_left(s, width).len() - s.len()) =~= s);
}

/// A line that ends in a carriage return and a line feed ends before both.
pub proof fn a_carriage_return_belongs_to_the_line_end(line: Seq<char>)
    ensures
        strip_cr(line.push('\r')) == line,
        line.len() > 0 && line.last() != '\r' ==> strip_cr(line) == line,
        strip_cr(Seq::<char>::empty()).len() == 0,
{
    assert(line.push('\r').drop_last() =~= line);
}

/// Blanks, tabs and line ends are white space; letters, digits and everything
/// else that can be seen in a plain text are not.
pub proof fn what_can_be_seen_is_no_space(c: char)
    ensures
        is_space(' ') && is_space('\t') && is_space('\n') && is_space('\r'),
        0x21 <= c as int <= 0x7e ==> !is_space(c),
        (c as int) < 0x80 && is_space(c) ==> c == ' ' || 0x09 <= c as int <= 0x0d,
{
}

/// Letters are the same in both cases, and nothing else is.
pub proof fn only_the_case_is_ignored(a: Seq<char>, b: Seq<char>)
    ensures
        same_ignoring_case(a, a),
        same_ignoring_case(a, b) ==> same_ignoring_case(b, a) && a.len() == b.len(),
        ascii_lower('A') == 'a' && ascii_lower('Z') == 'z',
        forall|c: char|
            !('A' as int <= c as int <= 'Z' as int) ==> #[trigger] ascii_lower(c) == c,
{
}

/// A word ends at the first white space, or with the text.
pub proof fn a_word_ends_at_white_space(word: Seq<char>, space: char, rest: Seq<char>)
    requires
        no_space(word),
        is_space(space),
    ensures
        word_len(word) == word.len(),
        word_len(word.push(space) + rest) == word.len(),
    decreases word.len(),
{
    let s = word.push(space) + rest;
    if word.len() > 0 {
        assert(!is_space(word[0]));
        assert(s[0] == word[0]);
        assert forall|i: int| 0 <= i < word.skip(1).len() implies !is_space(
            #[trigger] word.skip(1)[i],
        ) by {
            assert(word.skip(1)[i] == word[i + 1]);
        }
        a_word_ends_at_white_space(word.skip(1), space, rest);
        assert(s.skip(1) =~= word.skip(1).push(space) + rest);
    } else {
        assert(s[0] == space);
    }
}

/// A plus sign in front of a number is no part of its digits.
pub proof fn a_plus_sign_is_no_digit(digits: Seq<char>)
    requires
        digits.len() > 0,
        digits[0] != '+',
    ensures
        unsigned_digits(seq!['+'] + digits) == digits,
        unsigned_digits(digits) == digits,
{
    assert((seq!['+'] + digits).skip(1) =~= digits);
}

} // verus!
