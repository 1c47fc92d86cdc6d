//! Framing of JSON request bodies.

use vstd::prelude::*;

verus! {

/// A lower-case hexadecimal digit of a value below 16.
pub open spec fn hex_digit(n: int) -> char {
    seq!['0', '1', '2', '3', '4', '5', '6', '7', '8', '9', 'a', 'b', 'c', 'd', 'e', 'f'][n]
}

/// How one character is written inside a JSON string: `"` and `\` after a
/// backslash, the short forms for backspace, tab, line feed, form feed and
/// carriage return, `\u00XX` for the other characters below U+0020, and
/// every other character as it is.
pub open spec fn escape_char(c: char) -> Seq<char> {
    if c == '"' {
        seq!['\\', '"']
    } else if c == '\\' {
        seq!['\\', '\\']
    } else if c == '\u{8}' {
        seq!['\\', 'b']
    } else if c == '\t' {
        seq!['\\', 't']
    } else if c == '\n' {
        seq!['\\', 'n']
    } else if c == '\u{c}' {
        seq!['\\', 'f']
    } else if c == '\r' {
        seq!['\\', 'r']
    } else if (c as u32) < 0x20 {
        seq!['\\', 'u', '0', '0', hex_digit((c as u32) as int / 16), hex_digit((c as u32) as int % 16)]
    } else {
        seq![c]
    }
}

/// The characters of a string, each written as [`escape_char`] says.
pub open spec fn escape_chars(s: Seq<char>) -> Seq<char>
    decreases s.len(),
{
    if s.len() == 0 {
        Seq::empty()
    } else {
        escape_chars(s.drop_last()) + escape_char(s.last())
    }
}

/// The compact JSON text of a string value: the escaped characters between
/// double quotes.
pub open spec fn json_quote(s: Seq<char>) -> Seq<char> {
    seq!['"'] + escape_chars(s) + seq!['"']
}

/// Relies on serde_json's `Display` for `Value::String`, which writes the
/// compact JSON text of the string with serde_json's escape table (its
/// `ESCAPE` table and `write_char_escape`).
#[verifier::external_body]
pub(crate) fn json_string(s: &str) -> (r: String)
    ensures
        r@ == json_quote(s@),
{
    serde_json::Value::String(s.to_string()).to_string()
}

/// Items separated by commas, as in a JSON array or object.
pub open spec fn join_commas(items: Seq<Seq<char>>) -> Seq<char>
    decreases items.len(),
{
    if items.len() == 0 {
        Seq::empty()
    } else if items.len() == 1 {
        items[0]
    } else {
        join_commas(items.drop_last()) + ","@ + items.last()
    }
}

/// Appending one more item to a comma-separated list.
pub proof fn lemma_join_push(items: Seq<Seq<char>>, i: int, prefix: Seq<char>)
    requires
        0 <= i < items.len(),
        prefix == join_commas(items.take(i)),
    ensures
        join_commas(items.take(i + 1)) == (if i == 0 {
            items[i]
        } else {
            prefix + ","@ + items[i]
        }),
{
    assert(items.take(i + 1).drop_last() =~= items.take(i));
    assert(items.take(i + 1).last() == items[i]);
}

} // verus!
