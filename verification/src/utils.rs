//! Small helpers for cutting and laying out text.

use vstd::prelude::*;
use vstd::string::*;

verus! {

/// The number of characters that `truncate` keeps of a text of `len` characters.
pub open spec fn kept_chars(len: nat, max_chars: usize) -> int {
    if max_chars as nat <= len {
        max_chars as int
    } else {
        len as int
    }
}

/// The first `max_chars` characters of `s`, or all of `s` where it is shorter.
pub fn truncate(s: &str, max_chars: usize) -> (r: &str)
    ensures
        r@ == s@.take(kept_chars(s@.len(), max_chars)),
{
    let n: usize = s.unicode_len();
    if max_chars >= n {
        assert(s@.take(s@.len() as int) =~= s@);
        s
    } else {
        s.substring_char(0, max_chars)
    }
}

/// The heading of a section: two spaces, the name, a colon.
pub open spec fn section_text(name: Seq<char>) -> Seq<char> {
    "  "@ + name + ":"@
}

pub fn format_section(name: &str) -> (r: String)
    ensures
        r@ == section_text(name@),
{
    let mut out = String::from_str("  ");
    out.append(name);
    out.append(":");
    out
}

/// One field: four spaces, the name, a colon and a space, the value.
pub open spec fn field_text(name: Seq<char>, value: Seq<char>) -> Seq<char> {
    "    "@ + name + ": "@ + value
}

pub fn format_field(name: &str, value: &str) -> (r: String)
    ensures
        r@ == field_text(name@, value@),
{
    let mut out = String::from_str("    ");
    out.append(name);
    out.append(": ");
    out.append(value);
    out
}

/// The items of a list, each on a line of its own behind a dash.
pub open spec fn list_lines(items: Seq<String>) -> Seq<char>
    decreases items.len(),
{
    if items.len() == 0 {
        Seq::<char>::empty()
    } else {
        list_lines(items.drop_last()) + "\n      - "@ + items.last()@
    }
}

/// A named list: the name as a field heading, then ` []` for an empty list
/// and one line per item otherwise.
pub open spec fn list_text(name: Seq<char>, items: Seq<String>) -> Seq<char> {
    if items.len() == 0 {
        "    "@ + name + ":"@ + " []"@
    } else {
        "    "@ + name + ":"@ + list_lines(items)
    }
}

pub fn format_list(name: &str, items: &[String]) -> (r: String)
    ensures
        r@ == list_text(name@, items@),
{
    let mut out = String::from_str("    ");
    out.append(name);
    out.append(":");
    let n: usize = items.len();
    if n == 0 {
        out.append(" []");
        return out;
    }
    let ghost head = out@;
    let mut i: usize = 0;
    assert(items@.take(0).len() == 0);
    while i < n
        invariant
            n == items@.len(),
            i <= n,
            head == "    "@ + name@ + ":"@,
            out@ == head + list_lines(items@.take(i as int)),
        decreases n - i,
    {
        out.append("\n      - ");
        out.append(items[i].as_str());
        proof {
            let next = items@.take(i + 1);
            assert(next.drop_last() =~= items@.take(i as int));
            assert(next.last() == items@[i as int]);
            assert(out@ =~= head + list_lines(next));
        }
        i = i + 1;
    }
    assert(items@.take(n as int) =~= items@);
    out
}

} // verus!
