//! Paths as texts.

use vstd::prelude::*;

use crate::text;

verus! {

/// The path of `name` in the directory `base`.
pub open spec fn joined(base: Seq<char>, name: Seq<char>) -> Seq<char> {
    if base.len() == 0 || base.last() == '/' {
        base + name
    } else {
        base + "/"@ + name
    }
}

/// The directory part of a path: everything up to its last slash, which is
/// part of it.
pub open spec fn directory_of(path: Seq<char>) -> Seq<char>
    decreases path.len(),
{
    if path.len() == 0 || path.last() == '/' {
        path
    } else {
        directory_of(path.drop_last())
    }
}

/// The path of `name` in the directory `base`.
pub fn join(base: &str, name: &str) -> (r: String)
    ensures
        r@ == joined(base@, name@),
{
    let chars = text::chars_of(base);
    if chars.len() == 0 || chars[chars.len() - 1] == '/' {
        text::cat2(base, name)
    } else {
        text::cat3(base, "/", name)
    }
}

/// The path of `name` in the directory of another file.
pub fn beside(path: &str, name: &str) -> (r: String)
    ensures
        r@ == directory_of(path@) + name@,
{
    let chars = text::chars_of(path);
    let mut n: usize = chars.len();
    assert(chars@.take(n as int) =~= chars@);
    while n > 0 && chars[n - 1] != '/'
        invariant
            n <= chars@.len(),
            directory_of(path@) == directory_of(chars@.take(n as int)),
        decreases n,
    {
        assert(chars@.take(n as int).drop_last() =~= chars@.take(n - 1));
        n -= 1;
    }
    let directory = text::string_between(&chars, 0, n);
    assert(directory@ =~= chars@.take(n as int));
    text::cat2(directory.as_str(), name)
}

/// A file that is named beside another one lies in the same directory.
pub proof fn what_lies_beside_shares_the_directory(path: Seq<char>, name: Seq<char>)
    requires
        !name.contains('/'),
    ensures
        directory_of(directory_of(path) + name) == directory_of(path),
    decreases path.len() + name.len(),
{
    let whole = directory_of(path) + name;
    if name.len() > 0 {
        assert(name.contains(name.last()));
        assert forall|i: int| 0 <= i < name.drop_last().len() implies name.drop_last()[i]
            != '/' by {
            assert(name.contains(name[i]));
        }
        what_lies_beside_shares_the_directory(path, name.drop_last());
        assert(whole.drop_last() =~= directory_of(path) + name.drop_last());
    } else {
        assert(whole =~= directory_of(path));
        a_directory_is_its_own_directory(path);
    }
}

proof fn a_directory_is_its_own_directory(path: Seq<char>)
    ensures
        directory_of(directory_of(path)) == directory_of(path),
    decreases path.len(),
{
    if path.len() > 0 && path.last() != '/' {
        a_directory_is_its_own_directory(path.drop_last());
    }
}

/// A file that is joined to a directory lies in it, and so a file beside it
/// is joined to the same directory.
pub proof fn a_joined_file_lies_in_its_directory(
    base: Seq<char>,
    name: Seq<char>,
    other: Seq<char>,
)
    requires
        !name.contains('/'),
    ensures
        directory_of(joined(base, name)) + other == joined(base, other),
{
    let directory = if base.len() == 0 || base.last() == '/' {
        base
    } else {
        base + "/"@
    };
    reveal_strlit("/");
    assert(directory.len() > 0 ==> directory.last() == '/');
    assert(directory_of(directory) == directory);
    what_lies_beside_shares_the_directory(directory, name);
}

} // verus!
