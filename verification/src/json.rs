//! Verified framing of JSON string values. The escaping follows the JSON
//! wire convention for string contents: `"` and `\` get a backslash escape,
//! control characters below U+0020 get either their short escape
//! (`\b \t \n \f \r`) or a lowercase `\u00xx` escape, and every other
//! character is emitted unchanged.

use vstd::prelude::*;

verus! {

use crate::text::push_char;

/// The lowercase hexadecimal digit for a value below 16.
pub open spec fn hex_digit(v: u32) -> char {
    if v == 0 {
        '0'
    } else if v == 1 {
        '1'
    } else if v == 2 {
        '2'
    } else if v == 3 {
        '3'
    } else if v == 4 {
        '4'
    } else if v == 5 {
        '5'
    } else if v == 6 {
        '6'
    } else if v == 7 {
        '7'
    } else if v == 8 {
        '8'
    } else if v == 9 {
        '9'
    } else if v == 10 {
        'a'
    } else if v == 11 {
        'b'
    } else if v == 12 {
        'c'
    } else if v == 13 {
        'd'
    } else if v == 14 {
        'e'
    } else {
        'f'
    }
}

/// The escape sequence a single character contributes to a JSON string body.
pub open spec fn escape_char(c: char) -> Seq<char> {
    if c == '"' {
        seq!['\\', '"']
    } else if c == '\\' {
        seq!['\\', '\\']
    } else if c as u32 == 8 {
        seq!['\\', 'b']
    } else if c as u32 == 9 {
        seq!['\\', 't']
    } else if c as u32 == 10 {
        seq!['\\', 'n']
    } else if c as u32 == 12 {
        seq!['\\', 'f']
    } else if c as u32 == 13 {
        seq!['\\', 'r']
    } else if (c as u32) < 32 {
        seq!['\\', 'u', '0', '0', hex_digit((c as u32) / 16), hex_digit((c as u32) % 16)]
    } else {
        seq![c]
    }
}

/// The escaped body of a JSON string holding the characters `s`.
pub open spec fn escape_seq(s: Seq<char>) -> Seq<char>
    decreases s.len(),
{
    if s.len() == 0 {
        Seq::<char>::empty()
    } else {
        escape_char(s[0]) + escape_seq(s.skip(1))
    }
}

/// A complete JSON string value: quote, escaped body, quote.
pub open spec fn json_string(s: Seq<char>) -> Seq<char> {
    seq!['"'] + escape_seq(s) + seq!['"']
}

/// The view of an optional string.
pub open spec fn opt_view(v: Option<String>) -> Option<Seq<char>> {
    match v {
        Option::None => Option::<Seq<char>>::None,
        Option::Some(s) => Option::Some(s@),
    }
}

/// A JSON value for an optional string: the string value when present,
/// the literal `null` when absent.
pub open spec fn json_opt_string(v: Option<Seq<char>>) -> Seq<char> {
    match v {
        Option::None => seq!['n', 'u', 'l', 'l'],
        Option::Some(s) => json_string(s),
    }
}

/// Escaping distributes over appending one character at the end.
proof fn lemma_escape_push(s: Seq<char>, c: char)
    ensures
        escape_seq(s.push(c)) == escape_seq(s) + escape_char(c),
    decreases s.len(),
{
    let t = s.push(c);
    assert(t.len() == s.len() + 1);
    assert(t[0] == if s.len() == 0 { c } else { s[0] });
    if s.len() == 0 {
        assert(t.skip(1) =~= Seq::<char>::empty());
        assert(escape_seq(t.skip(1)) == Seq::<char>::empty());
        assert(escape_seq(t) == escape_char(c) + escape_seq(t.skip(1)));
        assert(escape_seq(s) == Seq::<char>::empty());
        assert(escape_seq(t) =~= escape_seq(s) + escape_char(c));
    } else {
        assert(t.skip(1) =~= s.skip(1).push(c));
        lemma_escape_push(s.skip(1), c);
        assert(escape_seq(t) == escape_char(s[0]) + escape_seq(t.skip(1)));
        assert(escape_seq(t.skip(1)) == escape_seq(s.skip(1)) + escape_char(c));
        assert(escape_seq(s) == escape_char(s[0]) + escape_seq(s.skip(1)));
        assert(escape_seq(t) =~= escape_seq(s) + escape_char(c));
    }
}

/// The lowercase hexadecimal digit for a value below 16.
fn hex_digit_char(v: u32) -> (c: char)
    requires
        v < 16,
    ensures
        c == hex_digit(v),
{
    if v == 0 {
        '0'
    } else if v == 1 {
        '1'
    } else if v == 2 {
        '2'
    } else if v == 3 {
        '3'
    } else if v == 4 {
        '4'
    } else if v == 5 {
        '5'
    } else if v == 6 {
        '6'
    } else if v == 7 {
        '7'
    } else if v == 8 {
        '8'
    } else if v == 9 {
        '9'
    } else if v == 10 {
        'a'
    } else if v == 11 {
        'b'
    } else if v == 12 {
        'c'
    } else if v == 13 {
        'd'
    } else if v == 14 {
        'e'
    } else {
        'f'
    }
}

/// Appends the escape sequence of the one character `c` to `out`.
fn append_escaped_char(out: &mut String, c: char)
    ensures
        final(out)@ == old(out)@ + escape_char(c),
{
    let cu = c as u32;
    if c == '"' {
        push_char(out, '\\');
        push_char(out, '"');
    } else if c == '\\' {
        push_char(out, '\\');
        push_char(out, '\\');
    } else if cu == 8 {
        push_char(out, '\\');
        push_char(out, 'b');
    } else if cu == 9 {
        push_char(out, '\\');
        push_char(out, 't');
    } else if cu == 10 {
        push_char(out, '\\');
        push_char(out, 'n');
    } else if cu == 12 {
        push_char(out, '\\');
        push_char(out, 'f');
    } else if cu == 13 {
        push_char(out, '\\');
        push_char(out, 'r');
    } else if cu < 32 {
        push_char(out, '\\');
        push_char(out, 'u');
        push_char(out, '0');
        push_char(out, '0');
        push_char(out, hex_digit_char(cu / 16));
        push_char(out, hex_digit_char(cu % 16));
    } else {
        push_char(out, c);
    }
    assert(out@ =~= old(out)@ + escape_char(c));
}

/// Appends the full JSON string value for `s` (quotes included) to `out`.
pub fn append_json_string(out: &mut String, s: &str)
    ensures
        final(out)@ == old(out)@ + json_string(s@),
{
    let n = vstd::string::StrSliceExecFns::unicode_len(s);
    push_char(out, '"');
    let mut i: usize = 0;
    while i < n
        invariant
            n == s@.len(),
            i <= n,
            out@ == old(out)@ + seq!['"'] + escape_seq(s@.subrange(0, i as int)),
        decreases n - i,
    {
        let c = vstd::string::StrSliceExecFns::get_char(s, i);
        append_escaped_char(out, c);
        proof {
            assert(s@.subrange(0, i as int + 1).drop_last() =~= s@.subrange(0, i as int));
            assert(s@.subrange(0, i as int).push(s@[i as int]) =~= s@.subrange(0, i as int + 1));
            lemma_escape_push(s@.subrange(0, i as int), s@[i as int]);
        }
        assert(out@ =~= old(out)@ + seq!['"'] + escape_seq(s@.subrange(0, i as int + 1)));
        i += 1;
    }
    assert(s@.subrange(0, n as int) =~= s@);
    push_char(out, '"');
    assert(out@ =~= old(out)@ + json_string(s@));
}

/// Appends the JSON value for an optional string: its string value when
/// present, `null` when absent.
pub fn append_json_opt_string(out: &mut String, v: &Option<String>)
    ensures
        final(out)@ == old(out)@ + json_opt_string(opt_view(*v)),
{
    match v {
        Option::None => {
            push_char(out, 'n');
            push_char(out, 'u');
            push_char(out, 'l');
            push_char(out, 'l');
            assert(out@ =~= old(out)@ + json_opt_string(opt_view(*v)));
        },
        Option::Some(s) => {
            append_json_string(out, s.as_str());
        },
    }
}

} // verus!
