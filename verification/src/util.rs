//! Helpers shared by the providers.
use crate::codec::SchemaError;
use crate::property_list::{dates_plain, parse, plist_tree, shallow, ParseError, PlistNode};
use std::collections::VecDeque;
use vstd::prelude::*;
use vstd::slice::slice_subrange;
use vstd::string::*;

verus! {

/// Why a property list could not be read into a typed value.
#[derive(Debug)]
pub enum DictParseError {
    /// The dictionary could not be written out as a property list.
    XmlData,
    /// The bytes are a binary property list or hold a date that is not
    /// written plainly; such bytes are not parsed.
    Unsupported,
    /// The bytes open more collections than are allowed; such bytes are
    /// not parsed.
    TooDeep,
    /// The bytes are no property list; the parser's error.
    Deserialize(plist::Error),
    /// The property list does not hold a value of the schema.
    Schema(SchemaError),
}

/// What bytes that are not handed to the parser come to, if they are such
/// bytes.
pub open spec fn refusal(bytes: Seq<u8>) -> Option<DictParseError> {
    if !dates_plain(bytes) {
        Some(DictParseError::Unsupported)
    } else if !shallow(bytes) {
        Some(DictParseError::TooDeep)
    } else {
        None
    }
}

/// The tree of a dictionary that was written out as a property list.
/// Without the bytes, writing it out has failed. Bytes that the parser
/// cannot take are refused unparsed.
pub fn dict_into(xml: Option<&[u8]>) -> (r: Result<PlistNode, DictParseError>)
    ensures
        xml is None ==> r matches Err(DictParseError::XmlData),
        xml matches Some(bytes) ==> match refusal(bytes@) {
            Some(DictParseError::Unsupported) => r matches Err(DictParseError::Unsupported),
            Some(_) => r matches Err(DictParseError::TooDeep),
            None => match plist_tree(bytes@) {
                Some(node) => r matches Ok(n) && n == node,
                None => r matches Err(DictParseError::Deserialize(_)),
            },
        },
{
    match xml {
        None => Err(DictParseError::XmlData),
        Some(bytes) => match parse(bytes) {
            Ok(node) => Ok(node),
            Err(ParseError::Unsupported) => Err(DictParseError::Unsupported),
            Err(ParseError::TooDeep) => Err(DictParseError::TooDeep),
            Err(ParseError::Syntax(e)) => Err(DictParseError::Deserialize(e)),
        },
    }
}

/// The last `width` items of a sequence in their order, or the whole
/// sequence where it holds fewer.
pub open spec fn latest(items: Seq<u64>, width: nat) -> Seq<u64> {
    if items.len() < width {
        items
    } else {
        items.subrange(items.len() - width, items.len() as int)
    }
}

/// Skips the items of a buffer until `width` are left: the most recent
/// `width` items in their order, or all of them where the buffer holds
/// fewer. Nothing is padded.
pub fn skip_until(items: &VecDeque<u64>, width: usize) -> (r: Vec<u64>)
    ensures
        r@ == latest(items@, width as nat),
{
    let len = items.len();
    let first: usize = if len < width {
        0
    } else {
        len - width
    };
    let mut out: Vec<u64> = Vec::new();
    let mut i: usize = first;
    while i < len
        invariant
            first <= i <= len,
            len == items@.len(),
            out@ == items@.subrange(first as int, i as int),
        decreases len - i,
    {
        out.push(items[i]);
        proof {
            assert(items@.subrange(first as int, i as int).push(items@[i as int])
                =~= items@.subrange(first as int, i + 1));
        }
        i = i + 1;
    }
    proof {
        assert(items@.subrange(0, len as int) =~= items@);
    }
    out
}

/// A window no narrower than the buffer is the whole buffer, a window of
/// width zero is empty, and a window never holds more than its width.
pub proof fn lemma_window_bounds(items: Seq<u64>, width: nat)
    ensures
        width >= items.len() ==> latest(items, width) == items,
        latest(items, 0) == Seq::<u64>::empty(),
        latest(items, width).len() == if items.len() < width {
            items.len()
        } else {
            width
        },
        forall|i: int|
            0 <= i < latest(items, width).len() ==> latest(items, width)[i] == items[items.len()
                - latest(items, width).len() + i],
{
    assert(items.subrange(0, items.len() as int) =~= items);
    assert(latest(items, 0) =~= Seq::<u64>::empty());
}

/// Whether a byte is blank: a space, a tab, a line feed, a vertical tab, a
/// form feed or a carriage return.
pub open spec fn is_padding(b: u8) -> bool {
    b == 0x20 || (0x09 <= b && b <= 0x0d)
}

/// The index of the first byte that is not blank, or the length.
pub open spec fn padding_start(s: Seq<u8>) -> int
    decreases s.len(),
{
    if s.len() > 0 && is_padding(s[0]) {
        1 + padding_start(s.drop_first())
    } else {
        0
    }
}

/// The index behind the last byte that is not blank, or zero.
pub open spec fn padding_end(s: Seq<u8>) -> int
    decreases s.len(),
{
    if s.len() > 0 && is_padding(s.last()) {
        padding_end(s.drop_last())
    } else {
        s.len() as int
    }
}

/// A byte string without the blanks before and behind it.
pub open spec fn trimmed(s: Seq<u8>) -> Seq<u8> {
    let start = padding_start(s);
    let end = padding_end(s);
    if start >= end {
        Seq::empty()
    } else {
        s.subrange(start, end)
    }
}

/// Whether a byte is blank.
fn is_padding_byte(b: u8) -> (r: bool)
    ensures
        r == is_padding(b),
{
    b == 0x20 || (0x09 <= b && b <= 0x0d)
}

/// A byte string without the blanks before and behind it.
pub fn trim_bytes(s: &[u8]) -> (r: &[u8])
    ensures
        r@ == trimmed(s@),
{
    let len = s.len();
    let mut start: usize = 0;
    assert(s@.subrange(0, len as int) =~= s@);
    while start < len && is_padding_byte(s[start])
        invariant
            start <= len,
            len == s@.len(),
            padding_start(s@) == start + padding_start(s@.subrange(start as int, len as int)),
        decreases len - start,
    {
        proof {
            let rest = s@.subrange(start as int, len as int);
            assert(rest.drop_first() =~= s@.subrange(start + 1, len as int));
        }
        start = start + 1;
    }
    let mut end: usize = len;
    while end > 0 && is_padding_byte(s[end - 1])
        invariant
            end <= len,
            len == s@.len(),
            padding_end(s@) == padding_end(s@.subrange(0, end as int)),
        decreases end,
    {
        proof {
            let head = s@.subrange(0, end as int);
            assert(head.drop_last() =~= s@.subrange(0, end - 1));
        }
        end = end - 1;
    }
    if start >= end {
        let r = slice_subrange(s, 0, 0);
        assert(r@ =~= Seq::<u8>::empty());
        r
    } else {
        slice_subrange(s, start, end)
    }
}

/// The index of the first byte `b`, or the length where there is none.
pub open spec fn first_index(s: Seq<u8>, b: u8) -> int
    decreases s.len(),
{
    if s.len() == 0 || s[0] == b {
        0
    } else {
        1 + first_index(s.drop_first(), b)
    }
}

/// The index of the first byte `b`, or the length where there is none.
pub fn find_byte(s: &[u8], b: u8) -> (r: usize)
    ensures
        r == first_index(s@, b),
        r <= s@.len(),
        r < s@.len() ==> s@[r as int] == b,
{
    let len = s.len();
    let mut i: usize = 0;
    assert(s@.subrange(0, len as int) =~= s@);
    while i < len && s[i] != b
        invariant
            i <= len,
            len == s@.len(),
            first_index(s@, b) == i + first_index(s@.subrange(i as int, len as int), b),
        decreases len - i,
    {
        proof {
            let rest = s@.subrange(i as int, len as int);
            assert(rest.drop_first() =~= s@.subrange(i + 1, len as int));
        }
        i = i + 1;
    }
    i
}

/// The key of the line that holds the name of the host.
pub open spec fn name_key() -> Seq<u8> {
    "Computer Name".spec_bytes()
}

/// The value of a line of the form `key: value` whose key, blanks aside, is
/// the name key; the value without the blanks around it.
pub open spec fn name_in_line(line: Seq<u8>) -> Option<Seq<u8>> {
    let colon = first_index(line, 0x3a);
    if colon < line.len() && trimmed(line.subrange(0, colon)) == name_key() {
        Some(trimmed(line.subrange(colon + 1, line.len() as int)))
    } else {
        None
    }
}

/// The name of the host in a report of lines of the form `key: value`: the
/// value of the first line whose key is the name key.
pub open spec fn name_in_report(report: Seq<u8>) -> Option<Seq<u8>>
    decreases report.len(),
{
    let end = first_index(report, 0x0a);
    let found = name_in_line(report.subrange(0, end));
    if found is Some {
        found
    } else if 0 <= end < report.len() {
        name_in_report(report.subrange(end + 1, report.len() as int))
    } else {
        None
    }
}

/// The name of the host in a report of lines of the form `key: value`.
pub fn computer_name(report: &[u8]) -> (r: Option<&[u8]>)
    ensures
        r is Some <==> name_in_report(report@) is Some,
        r matches Some(name) ==> Some(name@) == name_in_report(report@),
{
    let len = report.len();
    let mut pos: usize = 0;
    assert(report@.subrange(0, len as int) =~= report@);
    loop
        invariant
            pos <= len,
            len == report@.len(),
            name_in_report(report@) == name_in_report(report@.subrange(pos as int, len as int)),
        decreases len - pos,
    {
        let rest = slice_subrange(report, pos, len);
        let end = find_byte(rest, 0x0a);
        let line = slice_subrange(rest, 0, end);
        let colon = find_byte(line, 0x3a);
        if colon < line.len() {
            let key = trim_bytes(slice_subrange(line, 0, colon));
            if bytes_equal(key, "Computer Name".as_bytes()) {
                return Some(trim_bytes(slice_subrange(line, colon + 1, line.len())));
            }
        }
        if end >= rest.len() {
            return None;
        }
        proof {
            assert(rest@.subrange(end + 1, rest@.len() as int) =~= report@.subrange(
                pos + end + 1,
                len as int,
            ));
        }
        pos = pos + end + 1;
    }
}

/// Whether two byte strings are the same.
pub fn bytes_equal(a: &[u8], b: &[u8]) -> (r: bool)
    ensures
        r == (a@ == b@),
{
    if a.len() != b.len() {
        return false;
    }
    let mut i: usize = 0;
    while i < a.len()
        invariant
            i <= a.len(),
            a.len() == b.len(),
            forall|j: int| 0 <= j < i ==> a@[j] == b@[j],
        decreases a.len() - i,
    {
        if a[i] != b[i] {
            return false;
        }
        i = i + 1;
    }
    assert(a@ =~= b@);
    true
}

} // verus!
