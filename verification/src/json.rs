//! Writing JSON text: quoted strings, objects of a fixed shape, arrays.
//!
//! Quoting a string, with its escapes, is the work of `serde_json`. The
//! framing around the quoted strings is done here.

use vstd::prelude::*;
use vstd::string::*;
use crate::number::{decimal_digits, push_decimal};

verus! {

/// The hexadecimal digit, in lower case, that writes `n`.
pub open spec fn hex_digit(n: nat) -> char {
    if n < 10 {
        ((48 + n) as u8) as char
    } else {
        ((87 + n) as u8) as char
    }
}

/// How one character stands inside a JSON string: the double quote and
/// the backslash behind a backslash; backspace, tab, line feed, form feed
/// and carriage return by their letter; any other character below the
/// space as `\u00` and two hexadecimal digits; every other character as it
/// is.
pub open spec fn escaped(c: char) -> Seq<char> {
    if c == '"' {
        seq!['\\', '"']
    } else if c == '\\' {
        seq!['\\', '\\']
    } else if c == '\u{8}' {
        seq!['\\', 'b']
    } else if c == '\t' {
        seq!['\\', 't']
    } else if c == '\n' {
        seq!['\\', 'n']
    } else if c == '\u{c}' {
        seq!['\\', 'f']
    } else if c == '\r' {
        seq!['\\', 'r']
    } else if (c as u32) < 32 {
        seq!['\\', 'u', '0', '0', hex_digit((c as u32 / 16) as nat), hex_digit((c as u32 % 16) as nat)]
    } else {
        seq![c]
    }
}

/// The characters of `s`, each as it stands inside a JSON string.
pub open spec fn escaped_text(s: Seq<char>) -> Seq<char>
    decreases s.len(),
{
    if s.len() == 0 {
        Seq::empty()
    } else {
        escaped_text(s.drop_last()) + escaped(s.last())
    }
}

/// `s` as a JSON string: its characters, escaped, between double quotes.
pub open spec fn json_quoted(s: Seq<char>) -> Seq<char> {
    seq!['"'] + escaped_text(s) + seq!['"']
}

/// Calls `serde_json::to_string` on the string `s`. The writer puts a
/// double quote, the characters of `s` with the escapes of its table, and
/// a double quote into a buffer in memory; it fails only where the buffer
/// does, and a buffer in memory does not.
#[verifier::external_body]
pub(crate) fn quote(s: &str) -> (r: Result<String, serde_json::Error>)
    ensures
        r is Ok,
        r matches Ok(q) ==> q@ == json_quoted(s@),
{
    serde_json::to_string(s)
}

/// The JSON object of one roster entry, from its two strings already
/// quoted and its room number.
pub open spec fn object_json(teacher: Seq<char>, room: usize, class: Seq<char>) -> Seq<char> {
    "{\"teacher\":"@ + teacher + ",\"room\":"@ + decimal_digits(room as nat) + ",\"class\":"@
        + class + "}"@
}

/// The items, with a comma between each two.
pub open spec fn comma_joined(items: Seq<Seq<char>>) -> Seq<char>
    decreases items.len(),
{
    if items.len() == 0 {
        Seq::empty()
    } else if items.len() == 1 {
        items[0]
    } else {
        comma_joined(items.drop_last()) + ","@ + items.last()
    }
}

/// The JSON array of the items.
pub open spec fn array_json(items: Seq<Seq<char>>) -> Seq<char> {
    "["@ + comma_joined(items) + "]"@
}

/// A list of strings, as characters.
pub open spec fn texts_of(items: Seq<String>) -> Seq<Seq<char>> {
    Seq::new(items.len(), |i: int| items[i]@)
}

/// Writes the JSON object of one roster entry. `teacher` and `class` are
/// JSON strings, quotes included.
pub fn write_object(teacher: &str, room: usize, class: &str) -> (r: String)
    ensures
        r@ == object_json(teacher@, room, class@),
{
    let mut out = String::from_str("{\"teacher\":");
    out.append(teacher);
    out.append(",\"room\":");
    push_decimal(&mut out, room);
    out.append(",\"class\":");
    out.append(class);
    out.append("}");
    out
}

/// Writes the JSON array of `items`, each of which is JSON text already.
pub fn write_array(items: &Vec<String>) -> (r: String)
    ensures
        r@ == array_json(texts_of(items@)),
{
    let mut out = String::from_str("[");
    let mut i: usize = 0;
    let ghost all = texts_of(items@);
    assert(all.take(0) =~= Seq::<Seq<char>>::empty());
    assert("["@ + comma_joined(all.take(0)) =~= "["@);
    while i < items.len()
        invariant
            i <= items.len(),
            all == texts_of(items@),
            out@ == "["@ + comma_joined(all.take(i as int)),
        decreases items.len() - i,
    {
        let ghost before = all.take(i as int);
        let ghost after = all.take(i + 1);
        assert(after.drop_last() =~= before);
        assert(after.last() == items[i as int]@);
        if i > 0 {
            out.append(",");
            out.append(items[i].as_str());
            assert(out@ =~= "["@ + comma_joined(after));
        } else {
            out.append(items[i].as_str());
            assert(comma_joined(before) =~= Seq::<char>::empty());
            assert(out@ =~= "["@ + comma_joined(after));
        }
        i += 1;
    }
    assert(all.take(items.len() as int) =~= all);
    out.append("]");
    out
}

} // verus!
