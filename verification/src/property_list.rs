//! Property lists as trees of plain values.
//!
//! The bytes are parsed by the `plist` crate. What comes out is copied into
//! a tree of the library's own, which holds what the decoding reads:
//! dictionaries, whole numbers, flags and texts. Bytes that the parser
//! cannot take safely never reach it.
use vstd::prelude::*;

verus! {

/// The parser's value type. Nothing in it is visible here.
#[verifier::external_type_specification]
#[verifier::external_body]
pub struct ExValue(plist::Value);

/// The parser's error type. Nothing in it is visible here.
#[verifier::external_type_specification]
#[verifier::external_body]
pub struct ExError(plist::Error);

/// A value of a property list.
#[derive(Debug, PartialEq, Eq)]
pub enum PlistNode {
    /// A dictionary: its entries in the order of the list, no key twice.
    Dictionary(Vec<(String, PlistNode)>),
    /// A flag.
    Boolean(bool),
    /// A whole number, where a signed 64-bit number can hold it.
    Integer(Option<i64>),
    /// A text.
    String(String),
    /// An array, a date, a real number, binary data or an identifier: values
    /// that no field of the schema takes.
    Other,
}

/// The value that the parser makes of the bytes of a property list; `None`
/// where they are no property list.
pub uninterp spec fn parsed_value(bytes: Seq<u8>) -> Option<plist::Value>;

/// The tree that a parsed value is copied into.
pub uninterp spec fn tree_of_value(value: plist::Value) -> PlistNode;

/// The tree that the bytes of a property list parse to; `None` where they
/// are no property list.
pub open spec fn plist_tree(bytes: Seq<u8>) -> Option<PlistNode> {
    match parsed_value(bytes) {
        Some(value) => Some(tree_of_value(value)),
        None => None,
    }
}

/// Whether the bytes begin as a binary property list does: with the eight
/// bytes `bplist00`.
pub open spec fn is_binary(bytes: Seq<u8>) -> bool {
    &&& bytes.len() >= 8
    &&& bytes[0] == 0x62
    &&& bytes[1] == 0x70
    &&& bytes[2] == 0x6c
    &&& bytes[3] == 0x69
    &&& bytes[4] == 0x73
    &&& bytes[5] == 0x74
    &&& bytes[6] == 0x30
    &&& bytes[7] == 0x30
}

/// Whether a byte is one of the four that end a word in XML markup: a space,
/// a tab, a line feed or a carriage return.
pub open spec fn is_xml_space(b: u8) -> bool {
    b == 0x20 || b == 0x09 || b == 0x0a || b == 0x0d
}

/// How the bytes before an index stand to markup: 0 where they belong to no
/// word that a `<` began, 1 where they belong to such a word, 2 where that
/// word holds a quotation mark besides. A space ends the word. So does a
/// `>`, unless a quotation mark came before it: behind a quotation mark the
/// parser may take a `>` for a part of the tag.
pub open spec fn tag_state(bytes: Seq<u8>, at: int) -> nat
    decreases at,
{
    if at <= 0 || at > bytes.len() {
        0
    } else {
        let before = tag_state(bytes, at - 1);
        let b = bytes[at - 1];
        if is_xml_space(b) {
            0
        } else if b == 0x3c {
            if before == 2 {
                2
            } else {
                1
            }
        } else if b == 0x3e {
            if before == 2 {
                2
            } else {
                0
            }
        } else if b == 0x22 || b == 0x27 {
            if before >= 1 {
                2
            } else {
                0
            }
        } else {
            before
        }
    }
}

/// Whether the bytes before an index belong to a word that a `<` began.
pub open spec fn in_tag_word(bytes: Seq<u8>, at: int) -> bool {
    tag_state(bytes, at) >= 1
}

/// Whether the name of an element can begin at an index: the index lies in
/// a word that a `<` began, right behind that `<` or behind a `:`.
pub open spec fn begins_name(bytes: Seq<u8>, at: int) -> bool {
    &&& in_tag_word(bytes, at)
    &&& (bytes[at - 1] == 0x3c || bytes[at - 1] == 0x3a)
}

/// Whether the name of an element can end at an index: the bytes end there,
/// or there stands a space, `>` or `/>`.
pub open spec fn ends_name(bytes: Seq<u8>, at: int) -> bool {
    ||| at == bytes.len()
    ||| 0 <= at < bytes.len() && (is_xml_space(bytes[at]) || bytes[at] == 0x3e)
    ||| 0 <= at && at + 1 < bytes.len() && bytes[at] == 0x2f && bytes[at + 1] == 0x3e
}

/// Whether an element named `date` can begin at an index.
pub open spec fn names_date(bytes: Seq<u8>, at: int) -> bool {
    &&& begins_name(bytes, at)
    &&& at + 4 <= bytes.len()
    &&& bytes[at] == 0x64
    &&& bytes[at + 1] == 0x61
    &&& bytes[at + 2] == 0x74
    &&& bytes[at + 3] == 0x65
    &&& ends_name(bytes, at + 4)
}

/// Whether an element named `dict` or `array` can begin at an index.
pub open spec fn names_collection(bytes: Seq<u8>, at: int) -> bool {
    &&& begins_name(bytes, at)
    &&& {
        ||| at + 4 <= bytes.len() && bytes[at] == 0x64 && bytes[at + 1] == 0x69 && bytes[at + 2]
            == 0x63 && bytes[at + 3] == 0x74 && ends_name(bytes, at + 4)
        ||| at + 5 <= bytes.len() && bytes[at] == 0x61 && bytes[at + 1] == 0x72 && bytes[at + 2]
            == 0x72 && bytes[at + 3] == 0x61 && bytes[at + 4] == 0x79 && ends_name(bytes, at + 5)
    }
}

/// Whether a byte is a decimal digit.
pub open spec fn is_digit(b: u8) -> bool {
    0x30 <= b <= 0x39
}

/// Whether the element named `date` at an index is written plainly: the tag
/// is `<date>`, the text is a time in the form `0000-00-00T00:00:00Z`, each
/// `0` any digit, and behind the text stands `</`. Such a time is in
/// universal time and in a year of four digits.
pub open spec fn plain_date(bytes: Seq<u8>, at: int) -> bool {
    &&& 0 < at
    &&& at + 27 <= bytes.len()
    &&& bytes[at - 1] == 0x3c
    &&& bytes[at + 4] == 0x3e
    &&& is_digit(bytes[at + 5])
    &&& is_digit(bytes[at + 6])
    &&& is_digit(bytes[at + 7])
    &&& is_digit(bytes[at + 8])
    &&& bytes[at + 9] == 0x2d
    &&& is_digit(bytes[at + 10])
    &&& is_digit(bytes[at + 11])
    &&& bytes[at + 12] == 0x2d
    &&& is_digit(bytes[at + 13])
    &&& is_digit(bytes[at + 14])
    &&& bytes[at + 15] == 0x54
    &&& is_digit(bytes[at + 16])
    &&& is_digit(bytes[at + 17])
    &&& bytes[at + 18] == 0x3a
    &&& is_digit(bytes[at + 19])
    &&& is_digit(bytes[at + 20])
    &&& bytes[at + 21] == 0x3a
    &&& is_digit(bytes[at + 22])
    &&& is_digit(bytes[at + 23])
    &&& bytes[at + 24] == 0x5a
    &&& bytes[at + 25] == 0x3c
    &&& bytes[at + 26] == 0x2f
}

/// Whether every date that can arise from the bytes is a plain one: they
/// are no binary property list, which may hold any date, and wherever an
/// element named `date` can begin, it is written plainly.
pub open spec fn dates_plain(bytes: Seq<u8>) -> bool {
    &&& !is_binary(bytes)
    &&& forall|at: int| #[trigger] names_date(bytes, at) ==> plain_date(bytes, at)
}

/// Whether a collection can open at an index: an element named `dict` or
/// `array` can begin there, or there stands `(` or `{`, which open a
/// collection in the old textual form.
pub open spec fn opens_collection(bytes: Seq<u8>, at: int) -> bool {
    ||| names_collection(bytes, at)
    ||| 0 <= at < bytes.len() && (bytes[at] == 0x28 || bytes[at] == 0x7b)
}

/// The number of indices before `upto` at which a collection can open.
pub open spec fn collections_before(bytes: Seq<u8>, upto: int) -> nat
    decreases upto,
{
    if upto <= 0 {
        0
    } else {
        collections_before(bytes, upto - 1) + if opens_collection(bytes, upto - 1) {
            1nat
        } else {
            0nat
        }
    }
}

/// The most collections that a property list may open. No list nests
/// deeper than it opens collections, and the parser goes one level down its
/// stack for each level of nesting.
pub const MAX_COLLECTIONS: usize = 128;

/// Whether the bytes open no more collections than are allowed.
pub open spec fn shallow(bytes: Seq<u8>) -> bool {
    collections_before(bytes, bytes.len() as int) <= MAX_COLLECTIONS
}

/// Whether a byte ends a word in XML markup.
fn xml_space(b: u8) -> (r: bool)
    ensures
        r == is_xml_space(b),
{
    b == 0x20 || b == 0x09 || b == 0x0a || b == 0x0d
}

/// How the bytes before the next index stand to markup, given the same of
/// the index itself.
fn next_state(bytes: &[u8], at: usize, state: u8) -> (r: u8)
    requires
        at < bytes@.len(),
        state == tag_state(bytes@, at as int),
    ensures
        r == tag_state(bytes@, at + 1),
        r <= 2,
{
    let b = bytes[at];
    if xml_space(b) {
        0
    } else if b == 0x3c {
        if state == 2 {
            2
        } else {
            1
        }
    } else if b == 0x3e {
        if state == 2 {
            2
        } else {
            0
        }
    } else if b == 0x22 || b == 0x27 {
        if state >= 1 {
            2
        } else {
            0
        }
    } else {
        proof {
            lemma_tag_state_bound(bytes@, at as int);
        }
        state
    }
}

/// The state is 0, 1 or 2.
pub proof fn lemma_tag_state_bound(bytes: Seq<u8>, at: int)
    ensures
        tag_state(bytes, at) <= 2,
    decreases at,
{
    if 0 < at <= bytes.len() {
        lemma_tag_state_bound(bytes, at - 1);
    }
}

/// Whether the name of an element can end at an index.
fn name_ends(bytes: &[u8], at: usize) -> (r: bool)
    requires
        at <= bytes@.len(),
    ensures
        r == ends_name(bytes@, at as int),
{
    let len = bytes.len();
    if at == len {
        return true;
    }
    if xml_space(bytes[at]) || bytes[at] == 0x3e {
        return true;
    }
    bytes[at] == 0x2f && len - at >= 2 && bytes[at + 1] == 0x3e
}

/// Whether the name of an element can begin at an index.
fn name_begins(bytes: &[u8], at: usize, state: u8) -> (r: bool)
    requires
        at <= bytes@.len(),
        state == tag_state(bytes@, at as int),
    ensures
        r == begins_name(bytes@, at as int),
{
    state >= 1 && at > 0 && (bytes[at - 1] == 0x3c || bytes[at - 1] == 0x3a)
}

/// Whether a decimal digit stands at an index.
fn digit_at(bytes: &[u8], at: usize) -> (r: bool)
    requires
        at < bytes@.len(),
    ensures
        r == is_digit(bytes@[at as int]),
{
    0x30 <= bytes[at] && bytes[at] <= 0x39
}

/// Whether the element named `date` at an index is written plainly.
fn date_is_plain(bytes: &[u8], at: usize) -> (r: bool)
    requires
        0 < at <= bytes@.len(),
    ensures
        r == plain_date(bytes@, at as int),
{
    let len = bytes.len();
    if len - at < 27 {
        return false;
    }
    bytes[at - 1] == 0x3c && bytes[at + 4] == 0x3e && digit_at(bytes, at + 5) && digit_at(
        bytes,
        at + 6,
    ) && digit_at(bytes, at + 7) && digit_at(bytes, at + 8) && bytes[at + 9] == 0x2d && digit_at(
        bytes,
        at + 10,
    ) && digit_at(bytes, at + 11) && bytes[at + 12] == 0x2d && digit_at(bytes, at + 13) && digit_at(
        bytes,
        at + 14,
    ) && bytes[at + 15] == 0x54 && digit_at(bytes, at + 16) && digit_at(bytes, at + 17) && bytes[at
        + 18] == 0x3a && digit_at(bytes, at + 19) && digit_at(bytes, at + 20) && bytes[at + 21]
        == 0x3a && digit_at(bytes, at + 22) && digit_at(bytes, at + 23) && bytes[at + 24] == 0x5a
        && bytes[at + 25] == 0x3c && bytes[at + 26] == 0x2f
}

/// Whether every date that can arise from the bytes is a plain one.
pub fn has_plain_dates(bytes: &[u8]) -> (r: bool)
    ensures
        r == dates_plain(bytes@),
{
    let len = bytes.len();
    if len >= 8 && bytes[0] == 0x62 && bytes[1] == 0x70 && bytes[2] == 0x6c && bytes[3] == 0x69
        && bytes[4] == 0x73 && bytes[5] == 0x74 && bytes[6] == 0x30 && bytes[7] == 0x30 {
        return false;
    }
    let mut state: u8 = 0;
    let mut i: usize = 0;
    while i < len
        invariant
            i <= len,
            len == bytes@.len(),
            state == tag_state(bytes@, i as int),
            forall|at: int| at < i && #[trigger] names_date(bytes@, at) ==> plain_date(bytes@, at),
        decreases len - i,
    {
        if name_begins(bytes, i, state) && len - i >= 4 && bytes[i] == 0x64 && bytes[i + 1] == 0x61
            && bytes[i + 2] == 0x74 && bytes[i + 3] == 0x65 && name_ends(bytes, i + 4) {
            if !date_is_plain(bytes, i) {
                assert(names_date(bytes@, i as int));
                return false;
            }
        }
        state = next_state(bytes, i, state);
        i = i + 1;
    }
    assert forall|at: int| #[trigger] names_date(bytes@, at) implies plain_date(bytes@, at) by {
        if at >= len {
            assert(!names_date(bytes@, at));
        }
    }
    true
}

/// Whether the bytes open no more collections than are allowed.
pub fn is_shallow(bytes: &[u8]) -> (r: bool)
    ensures
        r == shallow(bytes@),
{
    let len = bytes.len();
    let mut state: u8 = 0;
    let mut count: usize = 0;
    let mut i: usize = 0;
    while i < len
        invariant
            i <= len,
            len == bytes@.len(),
            state == tag_state(bytes@, i as int),
            count == collections_before(bytes@, i as int),
            count <= i,
        decreases len - i,
    {
        let named = name_begins(bytes, i, state) && ((len - i >= 4 && bytes[i] == 0x64 && bytes[i
            + 1] == 0x69 && bytes[i + 2] == 0x63 && bytes[i + 3] == 0x74 && name_ends(bytes, i + 4))
            || (len - i >= 5 && bytes[i] == 0x61 && bytes[i + 1] == 0x72 && bytes[i + 2] == 0x72
            && bytes[i + 3] == 0x61 && bytes[i + 4] == 0x79 && name_ends(bytes, i + 5)));
        if named || bytes[i] == 0x28 || bytes[i] == 0x7b {
            count = count + 1;
        }
        state = next_state(bytes, i, state);
        i = i + 1;
    }
    count <= MAX_COLLECTIONS
}

/// Whether the parser can take the bytes: every date in them is plain, and
/// they open no more collections than are allowed.
pub open spec fn supported(bytes: Seq<u8>) -> bool {
    dates_plain(bytes) && shallow(bytes)
}

/// Parses the bytes of a property list with `plist::from_bytes`. The bytes
/// must be supported. On a date that leaves the years of the parser's
/// calendar when it is brought to universal time, the parser does not
/// return; a plain date is in universal time already and in a year of four
/// digits. And the parser goes one level down its stack for each level of
/// nesting, without a limit of its own. The contract says that the outcome
/// is a function of the bytes alone: the value is the one that
/// `parsed_value` names, and there is an error exactly where `parsed_value`
/// names none.
#[verifier::external_body]
fn read_value(bytes: &[u8]) -> (r: Result<plist::Value, plist::Error>)
    requires
        supported(bytes@),
    ensures
        r is Ok <==> parsed_value(bytes@) is Some,
        r matches Ok(value) ==> parsed_value(bytes@) == Some(value),
{
    plist::from_bytes::<plist::Value>(bytes)
}

/// Copies a parsed value into a tree: a dictionary entry by entry, a whole
/// number by `plist::Integer::as_signed`, a flag and a text as they stand,
/// and any other value as `Other`. The contract says that the tree is a
/// function of the value alone.
#[verifier::external_body]
fn tree_of(value: &plist::Value) -> (r: PlistNode)
    ensures
        r == tree_of_value(*value),
{
    match value {
        plist::Value::Dictionary(d) => PlistNode::Dictionary(
            d.iter().map(|(k, v)| (k.clone(), tree_of(v))).collect(),
        ),
        plist::Value::Boolean(b) => PlistNode::Boolean(*b),
        plist::Value::Integer(i) => PlistNode::Integer(i.as_signed()),
        plist::Value::String(s) => PlistNode::String(s.clone()),
        _ => PlistNode::Other,
    }
}

/// Why bytes gave no tree.
#[derive(Debug)]
pub enum ParseError {
    /// The bytes are a binary property list or hold a date that is not
    /// written plainly. They were not handed to the parser.
    Unsupported,
    /// The bytes open more collections than are allowed. They were not
    /// handed to the parser.
    TooDeep,
    /// The bytes are no property list; the parser's error.
    Syntax(plist::Error),
}

/// Parses the bytes of a property list into a tree. Bytes that the parser
/// cannot take are refused unparsed.
pub fn parse(bytes: &[u8]) -> (r: Result<PlistNode, ParseError>)
    ensures
        !dates_plain(bytes@) ==> r matches Err(ParseError::Unsupported),
        dates_plain(bytes@) && !shallow(bytes@) ==> r matches Err(ParseError::TooDeep),
        supported(bytes@) ==> match plist_tree(bytes@) {
            Some(node) => r matches Ok(n) && n == node,
            None => r matches Err(ParseError::Syntax(_)),
        },
{
    if !has_plain_dates(bytes) {
        return Err(ParseError::Unsupported);
    }
    if !is_shallow(bytes) {
        return Err(ParseError::TooDeep);
    }
    match read_value(bytes) {
        Ok(value) => Ok(tree_of(&value)),
        Err(e) => Err(ParseError::Syntax(e)),
    }
}

} // verus!
