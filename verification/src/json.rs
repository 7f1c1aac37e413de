//! JSON documents, as far as their fields are read here.
//!
//! A document is parsed by `serde_json`. What stands at a JSON pointer of it
//! is read as a [`JsonNode`]; the fields that a caller asks for are collected
//! in [`Fields`], and everything that is decided about them is decided there.

use serde_json::Value;
use vstd::prelude::*;

use crate::text;

verus! {

/// One value of a document. Of a number it holds what its two readings give,
/// the bits of the double and the unsigned integer, whether it was written as
/// an integer, and how it is printed. Of an array it holds the length.
#[derive(Debug)]
pub enum JsonNode {
    Null,
    Bool(bool),
    Number { double: Option<u64>, integer: Option<u64>, whole: bool, shown: String },
    Text(String),
    Array(usize),
    Object,
}

/// One value of a document, as a mathematical value.
#[verifier::ext_equal]
pub enum NodeView {
    Null,
    Bool(bool),
    Number { double: Option<u64>, integer: Option<u64>, whole: bool, shown: Seq<char> },
    Text(Seq<char>),
    Array(nat),
    Object,
}

impl View for JsonNode {
    type V = NodeView;

    open spec fn view(&self) -> NodeView {
        match *self {
            JsonNode::Null => NodeView::Null,
            JsonNode::Bool(b) => NodeView::Bool(b),
            JsonNode::Number { double, integer, whole, shown } => NodeView::Number {
                double,
                integer,
                whole,
                shown: shown@,
            },
            JsonNode::Text(s) => NodeView::Text(s@),
            JsonNode::Array(n) => NodeView::Array(n as nat),
            JsonNode::Object => NodeView::Object,
        }
    }
}

impl Clone for JsonNode {
    fn clone(&self) -> (r: Self)
        ensures
            r == *self,
    {
        match self {
            JsonNode::Null => JsonNode::Null,
            JsonNode::Bool(b) => JsonNode::Bool(*b),
            JsonNode::Number { double, integer, whole, shown } => JsonNode::Number {
                double: *double,
                integer: *integer,
                whole: *whole,
                shown: shown.clone(),
            },
            JsonNode::Text(s) => JsonNode::Text(s.clone()),
            JsonNode::Array(n) => JsonNode::Array(*n),
            JsonNode::Object => JsonNode::Object,
        }
    }
}

// ---------------------------------------------------------------------------
// Trusted: serde_json.
// ---------------------------------------------------------------------------

#[verifier::external_type_specification]
#[verifier::external_body]
pub struct ExValue(Value);

/// What a parsed document holds: for each JSON pointer that leads somewhere in
/// it, the value there.
pub uninterp spec fn contents(value: Value) -> Map<Seq<char>, NodeView>;

/// What `serde_json::from_str` makes of a text: the contents of the document,
/// or the words of the error.
pub uninterp spec fn parsed(text: Seq<char>) -> Result<Map<Seq<char>, NodeView>, Seq<char>>;

/// `serde_json::from_str` for a `Value`. Which texts are documents, what they
/// hold, and what is said of those that are not, depends on the text alone.
#[verifier::external_body]
fn parse(source: &str) -> (r: Result<Value, String>)
    ensures
        match r {
            Ok(value) => parsed(source@) == Ok::<_, Seq<char>>(contents(value)),
            Err(e) => parsed(source@) == Err::<Map<Seq<char>, NodeView>, _>(e@),
        },
{
    serde_json::from_str(source).map_err(|e| e.to_string())
}

/// `Value::pointer`, with the value that it finds taken apart: a number by
/// `as_f64`, `as_u64`, `is_f64` and `to_string`, an array by its length. It
/// finds what the contents have at the pointer.
#[verifier::external_body]
fn node_at(value: &Value, pointer: &str) -> (r: Option<JsonNode>)
    ensures
        match r {
            Some(node) => contents(*value).contains_key(pointer@) && contents(*value)[pointer@]
                == node@,
            None => !contents(*value).contains_key(pointer@),
        },
{
    value.pointer(pointer).map(|node| match node {
        Value::Null => JsonNode::Null,
        Value::Bool(b) => JsonNode::Bool(*b),
        Value::Number(n) => JsonNode::Number {
            double: n.as_f64().map(|d| d.to_bits()),
            integer: n.as_u64(),
            whole: !n.is_f64(),
            shown: n.to_string(),
        },
        Value::String(s) => JsonNode::Text(s.clone()),
        Value::Array(items) => JsonNode::Array(items.len()),
        Value::Object(_) => JsonNode::Object,
    })
}

// ---------------------------------------------------------------------------
// Fields.
// ---------------------------------------------------------------------------

/// Some fields of a document, each with the pointer that it was read from.
#[derive(Debug)]
pub struct Fields {
    pub entries: Vec<(String, Option<JsonNode>)>,
}

/// The value at a pointer, if there is one.
pub open spec fn found(nodes: Map<Seq<char>, NodeView>, pointer: Seq<char>) -> Option<NodeView> {
    if nodes.contains_key(pointer) {
        Some(nodes[pointer])
    } else {
        None
    }
}

pub open spec fn opt_node(node: Option<JsonNode>) -> Option<NodeView> {
    match node {
        Some(n) => Some(n@),
        None => None,
    }
}

/// The pointer is the first of its kind at the index `i`.
pub open spec fn first_at(
    entries: Seq<(String, Option<JsonNode>)>,
    pointer: Seq<char>,
    i: int,
) -> bool {
    &&& 0 <= i < entries.len()
    &&& entries[i].0@ == pointer
    &&& forall|k: int| 0 <= k < i ==> (#[trigger] entries[k]).0@ != pointer
}

/// The first entry of a pointer, looked for from the front.
pub open spec fn entry_of(
    entries: Seq<(String, Option<JsonNode>)>,
    pointer: Seq<char>,
) -> Option<NodeView>
    decreases entries.len(),
{
    if entries.len() == 0 {
        None
    } else if entries[0].0@ == pointer {
        opt_node(entries[0].1)
    } else {
        entry_of(entries.skip(1), pointer)
    }
}

proof fn lemma_entry_at(entries: Seq<(String, Option<JsonNode>)>, pointer: Seq<char>, i: int)
    requires
        first_at(entries, pointer, i),
    ensures
        entry_of(entries, pointer) == opt_node(entries[i].1),
    decreases i,
{
    if i > 0 {
        assert(entries[0].0@ != pointer);
        assert forall|k: int| 0 <= k < i - 1 implies (#[trigger] entries.skip(1)[k]).0@
            != pointer by {
            assert(entries[k + 1].0@ != pointer);
        }
        lemma_entry_at(entries.skip(1), pointer, i - 1);
    }
}

proof fn lemma_no_entry(entries: Seq<(String, Option<JsonNode>)>, pointer: Seq<char>)
    requires
        forall|k: int| 0 <= k < entries.len() ==> (#[trigger] entries[k]).0@ != pointer,
    ensures
        entry_of(entries, pointer) is None,
    decreases entries.len(),
{
    if entries.len() > 0 {
        assert(entries[0].0@ != pointer);
        assert forall|k: int| 0 <= k < entries.skip(1).len() implies (#[trigger] entries.skip(
            1,
        )[k]).0@ != pointer by {
            assert(entries[k + 1].0@ != pointer);
        }
        lemma_no_entry(entries.skip(1), pointer);
    }
}

/// The fields say of each of these pointers what the document has there.
pub open spec fn agree(
    fields: Fields,
    nodes: Map<Seq<char>, NodeView>,
    pointers: Seq<&str>,
) -> bool {
    forall|i: int|
        0 <= i < pointers.len() ==> fields.at(#[trigger] pointers[i]@) == found(
            nodes,
            pointers[i]@,
        )
}

impl Fields {
    /// What the fields say of a pointer.
    pub open spec fn at(&self, pointer: Seq<char>) -> Option<NodeView> {
        entry_of(self.entries@, pointer)
    }

    /// The value at a pointer: the entry of that name, the first where there
    /// are several.
    pub fn get(&self, pointer: &str) -> (r: Option<JsonNode>)
        ensures
            opt_node(r) == self.at(pointer@),
    {
        let mut i: usize = 0;
        while i < self.entries.len()
            invariant
                i <= self.entries@.len(),
                forall|k: int| 0 <= k < i ==> (#[trigger] self.entries@[k]).0@ != pointer@,
            decreases self.entries@.len() - i,
        {
            if text::same_text(self.entries[i].0.as_str(), pointer) {
                proof {
                    lemma_entry_at(self.entries@, pointer@, i as int);
                }
                return match &self.entries[i].1 {
                    Some(node) => Some(node.clone()),
                    None => None,
                };
            }
            i += 1;
        }
        proof {
            lemma_no_entry(self.entries@, pointer@);
        }
        None
    }

    /// The number at a pointer, as the bits of a double.
    pub fn number(&self, pointer: &str) -> (r: Option<u64>)
        ensures
            r == number_in(self.at(pointer@)),
    {
        match self.get(pointer) {
            Some(JsonNode::Number { double, .. }) => double,
            _ => None,
        }
    }

    /// The unsigned integer at a pointer.
    pub fn integer(&self, pointer: &str) -> (r: Option<u64>)
        ensures
            r == integer_in(self.at(pointer@)),
    {
        match self.get(pointer) {
            Some(JsonNode::Number { integer, .. }) => integer,
            _ => None,
        }
    }

    /// The string at a pointer.
    pub fn string(&self, pointer: &str) -> (r: Option<String>)
        ensures
            text::opt_text(r) == string_in(self.at(pointer@)),
    {
        match self.get(pointer) {
            Some(JsonNode::Text(s)) => Some(s),
            _ => None,
        }
    }
}

pub open spec fn number_in(node: Option<NodeView>) -> Option<u64> {
    match node {
        Some(NodeView::Number { double, .. }) => double,
        _ => None,
    }
}

pub open spec fn integer_in(node: Option<NodeView>) -> Option<u64> {
    match node {
        Some(NodeView::Number { integer, .. }) => integer,
        _ => None,
    }
}

pub open spec fn string_in(node: Option<NodeView>) -> Option<Seq<char>> {
    match node {
        Some(NodeView::Text(s)) => Some(s),
        _ => None,
    }
}

/// Parses a document and reads the fields at these pointers.
pub fn read(source: &str, pointers: &[&str]) -> (r: Result<Fields, String>)
    ensures
        match r {
            Ok(fields) => parsed(source@) matches Ok(nodes) && agree(fields, nodes, pointers@),
            Err(e) => parsed(source@) == Err::<Map<Seq<char>, NodeView>, _>(e@),
        },
{
    let value = match parse(source) {
        Ok(value) => value,
        Err(e) => {
            return Err(e);
        },
    };
    let ghost nodes = contents(value);
    let mut entries: Vec<(String, Option<JsonNode>)> = Vec::new();
    let mut i: usize = 0;
    while i < pointers.len()
        invariant
            i <= pointers@.len(),
            entries@.len() == i,
            nodes == contents(value),
            forall|k: int|
                0 <= k < i ==> (#[trigger] entries@[k]).0@ == pointers@[k]@ && opt_node(
                    entries@[k].1,
                ) == found(nodes, pointers@[k]@),
        decreases pointers@.len() - i,
    {
        let node = node_at(&value, pointers[i]);
        entries.push((pointers[i].to_owned(), node));
        i += 1;
    }
    let fields = Fields { entries };
    proof {
        assert forall|k: int| 0 <= k < pointers@.len() implies fields.at(#[trigger] pointers@[k]@)
            == found(nodes, pointers@[k]@) by {
            lemma_read_entry(fields.entries@, nodes, pointers@[k]@, k);
        }
    }
    Ok(fields)
}

proof fn lemma_read_entry(
    entries: Seq<(String, Option<JsonNode>)>,
    nodes: Map<Seq<char>, NodeView>,
    pointer: Seq<char>,
    k: int,
)
    requires
        0 <= k < entries.len(),
        entries[k].0@ == pointer,
        forall|j: int|
            0 <= j < entries.len() ==> opt_node((#[trigger] entries[j]).1) == found(
                nodes,
                entries[j].0@,
            ),
    ensures
        entry_of(entries, pointer) == found(nodes, pointer),
    decreases entries.len(),
{
    if entries[0].0@ != pointer {
        assert forall|j: int| 0 <= j < entries.skip(1).len() implies opt_node(
            (#[trigger] entries.skip(1)[j]).1,
        ) == found(nodes, entries.skip(1)[j].0@) by {
            assert(entries.skip(1)[j] == entries[j + 1]);
        }
        lemma_read_entry(entries.skip(1), nodes, pointer, k - 1);
    }
}

// ---------------------------------------------------------------------------
// Laws.
// ---------------------------------------------------------------------------

/// Fields that agree with a document have at each pointer what the document
/// has there, and nothing where it has nothing.
pub proof fn fields_hold_what_the_document_has(
    fields: Fields,
    nodes: Map<Seq<char>, NodeView>,
    pointers: Seq<&str>,
    i: int,
)
    requires
        agree(fields, nodes, pointers),
        0 <= i < pointers.len(),
    ensures
        nodes.contains_key(pointers[i]@) ==> fields.at(pointers[i]@) == Some(nodes[pointers[i]@]),
        !nodes.contains_key(pointers[i]@) ==> fields.at(pointers[i]@) is None,
{
}

/// The first entry of a pointer counts, and a pointer without an entry has no
/// value; the entries of other pointers change nothing.
pub proof fn the_first_entry_counts(
    entry: (String, Option<JsonNode>),
    entries: Seq<(String, Option<JsonNode>)>,
    pointer: Seq<char>,
)
    ensures
        entry_of(seq![], pointer) is None,
        entry.0@ == pointer ==> entry_of(seq![entry] + entries, pointer) == match entry.1 {
            Some(node) => Some(node@),
            None => None,
        },
        entry.0@ != pointer ==> entry_of(seq![entry] + entries, pointer) == entry_of(
            entries,
            pointer,
        ),
{
    assert((seq![entry] + entries).skip(1) =~= entries);
}

/// A number is read as a number, an unsigned integer as an integer and a text
/// as a text; nothing else is taken for any of them.
pub proof fn a_value_is_read_only_as_what_it_is(
    double: Option<u64>,
    integer: Option<u64>,
    whole: bool,
    shown: Seq<char>,
    s: Seq<char>,
    other: NodeView,
)
    ensures
        ({
            let number = Some(NodeView::Number { double, integer, whole, shown });
            &&& number_in(number) == double
            &&& integer_in(number) == integer
            &&& string_in(number) is None
            &&& string_in(Some(NodeView::Text(s))) == Some(s)
            &&& !(other is Number) ==> number_in(Some(other)) is None && integer_in(Some(other))
                is None
            &&& !(other is Text) ==> string_in(Some(other)) is None
            &&& number_in(None) is None && integer_in(None) is None && string_in(None) is None
        }),
{
}

} // verus!
