//! JSON text for the request envelopes: string literals, objects and arrays.

use vstd::prelude::*;
use vstd::std_specs::iter::IteratorSpec;

verus! {

/// The digit of a nibble in lower-case hexadecimal.
pub open spec fn hex_digit(n: u32) -> char {
    if n < 10 {
        (('0' as u32) + n) as char
    } else {
        (('a' as u32) + (n - 10)) as char
    }
}

/// The text that stands for one character inside a JSON string literal:
/// the quote, the backslash and every control character are escaped, with the
/// short forms where JSON has one.
pub open spec fn escape_char(c: char) -> Seq<char> {
    if c == '"' {
        seq!['\\', '"']
    } else if c == '\\' {
        seq!['\\', '\\']
    } else if c == '\n' {
        seq!['\\', 'n']
    } else if c == '\r' {
        seq!['\\', 'r']
    } else if c == '\t' {
        seq!['\\', 't']
    } else if c == '\x08' {
        seq!['\\', 'b']
    } else if c == '\x0c' {
        seq!['\\', 'f']
    } else if (c as u32) < 0x20 {
        seq!['\\', 'u', '0', '0', hex_digit((c as u32) / 16), hex_digit((c as u32) % 16)]
    } else {
        seq![c]
    }
}

/// The escaped form of a whole character sequence.
pub open spec fn escaped(s: Seq<char>) -> Seq<char>
    decreases s.len(),
{
    if s.len() == 0 {
        Seq::empty()
    } else {
        escaped(s.drop_last()) + escape_char(s.last())
    }
}

/// A JSON string literal holding `s`.
pub open spec fn json_string(s: Seq<char>) -> Seq<char> {
    seq!['"'] + escaped(s) + seq!['"']
}

/// Relies on `String::push`: the character is appended at the end.
#[verifier::external_body]
pub(crate) fn push_char(s: &mut String, c: char)
    ensures
        final(s)@ == old(s)@.push(c),
{
    s.push(c);
}

fn hex_digit_exec(n: u32) -> (r: char)
    requires
        n < 16,
    ensures
        r == hex_digit(n),
{
    if n < 10 {
        ((('0' as u32) + n) as u8) as char
    } else {
        ((('a' as u32) + (n - 10)) as u8) as char
    }
}

/// Appends the escaped form of `c` to `out`.
fn push_escaped_char(out: &mut String, c: char)
    ensures
        final(out)@ == old(out)@ + escape_char(c),
{
    let ghost start = out@;
    let short: Option<char> = if c == '"' {
        Some('"')
    } else if c == '\\' {
        Some('\\')
    } else if c == '\n' {
        Some('n')
    } else if c == '\r' {
        Some('r')
    } else if c == '\t' {
        Some('t')
    } else if c == '\x08' {
        Some('b')
    } else if c == '\x0c' {
        Some('f')
    } else {
        None
    };
    match short {
        Some(e) => {
            push_char(out, '\\');
            push_char(out, e);
            assert(out@ =~= start + escape_char(c));
        },
        None => {
            let code = c as u32;
            if code < 0x20 {
                push_char(out, '\\');
                push_char(out, 'u');
                push_char(out, '0');
                push_char(out, '0');
                push_char(out, hex_digit_exec(code / 16));
                push_char(out, hex_digit_exec(code % 16));
            } else {
                push_char(out, c);
            }
            assert(out@ =~= start + escape_char(c));
        },
    }
}

/// Appends `s` as a JSON string literal, quotes included, to `out`.
pub fn push_json_string(out: &mut String, s: &str)
    ensures
        final(out)@ == old(out)@ + json_string(s@),
{
    broadcast use vstd::string::axiom_spec_iter, vstd::string::next_postcondition;

    let ghost start = out@;
    push_char(out, '"');
    let mut it = s.chars();
    let ghost mut done: Seq<char> = Seq::empty();
    loop
        invariant
            it.obeys_prophetic_iter_laws(),
            it.decrease() is Some,
            out@ == start + seq!['"'] + escaped(done),
            done + it.remaining() == s@,
        ensures
            out@ == start + seq!['"'] + escaped(done),
            done == s@,
        decreases it.decrease()->0,
    {
        let ghost before = it.remaining();
        match it.next() {
            Some(c) => {
                push_escaped_char(out, c);
                proof {
                    let d2 = done.push(c);
                    assert(d2.drop_last() =~= done);
                    assert(d2 + it.remaining() =~= done + before);
                    done = d2;
                }
            },
            None => {
                assert(done =~= s@);
                break;
            },
        }
    }
    push_char(out, '"');
    assert(out@ =~= start + json_string(s@));
}


/// The items of an array or the members of an object, separated by commas.
pub open spec fn joined(items: Seq<Seq<char>>) -> Seq<char>
    decreases items.len(),
{
    if items.len() == 0 {
        Seq::empty()
    } else if items.len() == 1 {
        items[0]
    } else {
        joined(items.drop_last()) + seq![','] + items.last()
    }
}

/// A member of a JSON object: the key as a string literal, a colon, the value.
pub open spec fn member(key: Seq<char>, value: Seq<char>) -> Seq<char> {
    json_string(key) + seq![':'] + value
}

/// A JSON object with the given members, in order.
pub open spec fn object(members: Seq<Seq<char>>) -> Seq<char> {
    seq!['{'] + joined(members) + seq!['}']
}

/// A JSON array with the given items, in order.
pub open spec fn array(items: Seq<Seq<char>>) -> Seq<char> {
    seq!['['] + joined(items) + seq![']']
}

/// The JSON literal of a boolean.
pub open spec fn json_bool(b: bool) -> Seq<char> {
    if b {
        seq!['t', 'r', 'u', 'e']
    } else {
        seq!['f', 'a', 'l', 's', 'e']
    }
}

/// Adding one item to a list adds a comma before it, unless it is the first.
pub proof fn lemma_joined_push(items: Seq<Seq<char>>, x: Seq<char>)
    ensures
        joined(items.push(x)) == if items.len() == 0 {
            x
        } else {
            joined(items) + seq![','] + x
        },
{
    assert(items.push(x).drop_last() =~= items);
}

/// One more member after the ones written so far: a comma unless it is the
/// first, then the key, a colon and the value.
pub proof fn lemma_member_step(prefix: Seq<char>, ms: Seq<Seq<char>>, key: Seq<char>, value: Seq<char>)
    ensures
        (if ms.len() == 0 {
            prefix + joined(ms)
        } else {
            prefix + joined(ms) + seq![',']
        }) + json_string(key) + seq![':'] + value == prefix + joined(ms.push(member(key, value))),
{
    lemma_joined_push(ms, member(key, value));
    if ms.len() == 0 {
        assert(prefix + joined(ms) + json_string(key) + seq![':'] + value =~= prefix + member(key, value));
    } else {
        assert(prefix + joined(ms) + seq![','] + json_string(key) + seq![':'] + value =~= prefix + (
        joined(ms) + seq![','] + member(key, value)));
    }
}

/// Closing the brace after the members written so far gives the object.
pub proof fn lemma_object_close(start: Seq<char>, ms: Seq<Seq<char>>)
    ensures
        start + seq!['{'] + joined(ms) + seq!['}'] == start + object(ms),
{
    assert(start + seq!['{'] + joined(ms) + seq!['}'] =~= start + object(ms));
}

/// Appends the separator that goes before an item: nothing before the first.
pub fn push_separator(out: &mut String, first: bool)
    ensures
        final(out)@ == if first {
            old(out)@
        } else {
            old(out)@ + seq![',']
        },
{
    if !first {
        push_char(out, ',');
    }
}

/// Appends the key of an object member and its colon.
pub fn push_key(out: &mut String, key: &str)
    ensures
        final(out)@ == old(out)@ + json_string(key@) + seq![':'],
{
    push_json_string(out, key);
    push_char(out, ':');
}

/// Appends the JSON literal of a boolean.
pub fn push_bool(out: &mut String, b: bool)
    ensures
        final(out)@ == old(out)@ + json_bool(b),
{
    let ghost start = out@;
    if b {
        push_char(out, 't');
        push_char(out, 'r');
        push_char(out, 'u');
        push_char(out, 'e');
    } else {
        push_char(out, 'f');
        push_char(out, 'a');
        push_char(out, 'l');
        push_char(out, 's');
        push_char(out, 'e');
    }
    assert(out@ =~= start + json_bool(b));
}

} // verus!
