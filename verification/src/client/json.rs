//! JSON as the mesh bridge speaks it.

use crate::content::item::texts;
use crate::text::digit;
use vstd::prelude::*;

verus! {

/// A parsed JSON value.
#[verifier::external_type_specification]
#[verifier::external_body]
pub struct ExValue(serde_json::Value);

/// The string members of a JSON object, by name; none for any other value.
pub uninterp spec fn members(value: serde_json::Value) -> Map<Seq<char>, Seq<char>>;

/// The string members of the JSON value that a text is, or `None` if it is not JSON.
pub uninterp spec fn read_members(text: Seq<char>) -> Option<Map<Seq<char>, Seq<char>>>;

/// `serde_json::from_str`: parses the text or fails, by the text alone.
#[verifier::external_body]
pub(crate) fn parse(text: &str) -> (r: Option<serde_json::Value>)
    ensures
        match r {
            Some(value) => read_members(text@) == Some(members(value)),
            None => read_members(text@) is None,
        },
{
    serde_json::from_str(text).ok()
}

/// `serde_json::Value::get` and `as_str`: the named member of an object, if it is a string.
#[verifier::external_body]
pub(crate) fn text_member(value: &serde_json::Value, name: &str) -> (r: Option<String>)
    ensures
        match r {
            Some(text) => members(*value).contains_key(name@) && members(*value)[name@] == text@,
            None => !members(*value).contains_key(name@),
        },
{
    value.get(name).and_then(serde_json::Value::as_str).map(str::to_owned)
}

/// A character as it stands inside a JSON string: quotes, backslashes and control characters
/// escaped, the latter by their short form where they have one.
pub open spec fn escaped(c: char) -> Seq<char> {
    let n = c as u32;
    if c == '"' || c == '\\' {
        seq!['\\', c]
    } else if n == 8 {
        seq!['\\', 'b']
    } else if n == 9 {
        seq!['\\', 't']
    } else if n == 10 {
        seq!['\\', 'n']
    } else if n == 12 {
        seq!['\\', 'f']
    } else if n == 13 {
        seq!['\\', 'r']
    } else if n < 32 {
        seq!['\\', 'u', '0', '0', digit((n / 16) as nat), digit((n % 16) as nat)]
    } else {
        seq![c]
    }
}

/// A JSON string.
pub open spec fn quoted(text: Seq<char>) -> Seq<char> {
    seq!['"'] + text.map_values(|c: char| escaped(c)).flatten() + seq!['"']
}

/// The texts as JSON strings, with commas between them.
pub open spec fn listed(list: Seq<Seq<char>>) -> Seq<char>
    decreases list.len(),
{
    if list.len() == 0 {
        seq![]
    } else if list.len() == 1 {
        quoted(list[0])
    } else {
        listed(list.drop_last()) + seq![','] + quoted(list.last())
    }
}

/// The JSON array that lists the texts as strings.
pub open spec fn written_list(list: Seq<Seq<char>>) -> Seq<char> {
    seq!['['] + listed(list) + seq![']']
}

/// `serde_json::to_string` on a list of texts: it never fails there, and writes the compact
/// JSON array of the texts as strings.
#[verifier::external_body]
pub(crate) fn write_list(list: &Vec<String>) -> (r: Option<String>)
    ensures
        r is Some,
        r->Some_0@ == written_list(texts(list@)),
{
    serde_json::to_string(list).ok()
}

/// Whether Unicode counts the character as white space.
pub open spec fn blank(c: char) -> bool {
    let n = c as u32;
    9 <= n <= 13 || n == 0x20 || n == 0x85 || n == 0xa0 || n == 0x1680 || 0x2000 <= n <= 0x200a || n
        == 0x2028 || n == 0x2029 || n == 0x202f || n == 0x205f || n == 0x3000
}

/// The text without the white space that it begins with.
pub open spec fn trimmed_front(text: Seq<char>) -> Seq<char>
    decreases text.len(),
{
    if text.len() > 0 && blank(text[0]) {
        trimmed_front(text.skip(1))
    } else {
        text
    }
}

/// The text without the white space that it ends with.
pub open spec fn trimmed_back(text: Seq<char>) -> Seq<char>
    decreases text.len(),
{
    if text.len() > 0 && blank(text.last()) {
        trimmed_back(text.drop_last())
    } else {
        text
    }
}

/// The text without the white space at its ends.
pub open spec fn trimmed(text: Seq<char>) -> Seq<char> {
    trimmed_back(trimmed_front(text))
}

/// Whether every character is a printing ASCII one.
pub open spec fn graphic(text: Seq<char>) -> bool {
    forall|i: int| 0 <= i < text.len() ==> '!' <= #[trigger] text[i] <= '~'
}

/// Trimming leaves a text of printing ASCII characters as it is.
pub proof fn graphic_is_trimmed(text: Seq<char>)
    requires
        graphic(text),
    ensures
        trimmed(text) == text,
{
    if text.len() > 0 {
        assert('!' <= text[0] <= '~');
        assert('!' <= text[text.len() - 1] <= '~');
    }
}

/// Whether every character is white space.
pub open spec fn all_blank(text: Seq<char>) -> bool {
    forall|i: int| 0 <= i < text.len() ==> blank(#[trigger] text[i])
}

proof fn front_is_skipped(front: Seq<char>, rest: Seq<char>)
    requires
        all_blank(front),
    ensures
        trimmed_front(front + rest) == trimmed_front(rest),
    decreases front.len(),
{
    if front.len() == 0 {
        assert(front + rest =~= rest);
    } else {
        assert(blank(front[0]));
        assert((front + rest).skip(1) =~= front.skip(1) + rest);
        assert forall|i: int| 0 <= i < front.skip(1).len() implies blank(
            #[trigger] front.skip(1)[i],
        ) by {
            assert(blank(front[i + 1]));
        }
        front_is_skipped(front.skip(1), rest);
    }
}

proof fn back_is_skipped(rest: Seq<char>, back: Seq<char>)
    requires
        all_blank(back),
    ensures
        trimmed_back(rest + back) == trimmed_back(rest),
    decreases back.len(),
{
    if back.len() == 0 {
        assert(rest + back =~= rest);
    } else {
        assert(blank(back[back.len() - 1]));
        assert((rest + back).drop_last() =~= rest + back.drop_last());
        assert forall|i: int| 0 <= i < back.drop_last().len() implies blank(
            #[trigger] back.drop_last()[i],
        ) by {
            assert(blank(back[i]));
        }
        back_is_skipped(rest, back.drop_last());
    }
}

/// Trimming takes the white space around a text of printing ASCII characters, and nothing
/// else.
pub proof fn blanks_around_are_trimmed(front: Seq<char>, text: Seq<char>, back: Seq<char>)
    requires
        all_blank(front),
        graphic(text),
        all_blank(back),
    ensures
        trimmed(front + text + back) == text,
{
    assert(front + text + back =~= front + (text + back));
    front_is_skipped(front, text + back);
    graphic_is_trimmed(text);
    if text.len() > 0 {
        assert('!' <= text[0] <= '~');
        assert((text + back)[0] == text[0]);
        back_is_skipped(text, back);
    } else {
        assert(text + back =~= back + seq![]);
        front_is_skipped(back, seq![]);
        assert(text =~= seq![]);
    }
}

/// `str::trim`: the text without leading and trailing white space, as Unicode has it.
#[verifier::external_body]
pub(crate) fn trim(text: &str) -> (r: &str)
    ensures
        r@ == trimmed(text@),
{
    text.trim()
}

} // verus!
