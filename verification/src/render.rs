//! Rendering of `JsonValue` to JSON text.
//!
//! `render_json` is the mathematical definition of the wire text for a JSON
//! document: compact form, members in order, no spaces, strings escaped with
//! the two-character escapes for `"` `\` and the common control characters and
//! `\u00XX` for the remaining control characters. `render` is the verified
//! emitter, proved to produce exactly that text.

use vstd::prelude::*;

use crate::json::Json;
use crate::json::JsonValue;
use crate::json::view_of_items;
use crate::json::view_of_members;
use crate::json::lemma_view_of_items;
use crate::json::lemma_view_of_members;
use vstd::string::StringExecFns;

verus! {

/// Relies on `String::push`: appends exactly the given character.
pub assume_specification[ String::push ](s: &mut String, ch: char)
    ensures
        final(s)@ == old(s)@ + seq![ch],
;

pub open spec fn digit_char(d: int) -> char {
    ((d + 48) as u8) as char
}

pub open spec fn digits_of(n: nat) -> Seq<char>
    decreases n,
{
    if n < 10 {
        seq![digit_char(n as int)]
    } else {
        digits_of(n / 10) + seq![digit_char((n % 10) as int)]
    }
}

pub open spec fn int_chars(i: int) -> Seq<char> {
    if i < 0 {
        seq!['-'] + digits_of((-i) as nat)
    } else {
        digits_of(i as nat)
    }
}

pub open spec fn hex_char(d: int) -> char {
    if d < 10 {
        digit_char(d)
    } else {
        ((d + 87) as u8) as char
    }
}

pub open spec fn escape_char(c: char) -> Seq<char> {
    if c == '"' {
        seq!['\\', '"']
    } else if c == '\\' {
        seq!['\\', '\\']
    } else if c == '\n' {
        seq!['\\', 'n']
    } else if c == '\r' {
        seq!['\\', 'r']
    } else if c == '\t' {
        seq!['\\', 't']
    } else if c == '\u{0008}' {
        seq!['\\', 'b']
    } else if c == '\u{000C}' {
        seq!['\\', 'f']
    } else if (c as int) < 32 {
        seq!['\\', 'u', '0', '0', hex_char(c as int / 16), hex_char(c as int % 16)]
    } else {
        seq![c]
    }
}

pub open spec fn escape_str(s: Seq<char>) -> Seq<char>
    decreases s.len(),
{
    if s.len() == 0 {
        Seq::empty()
    } else {
        escape_char(s[0]) + escape_str(s.skip(1))
    }
}

pub open spec fn render_json(j: Json) -> Seq<char>
    decreases j,
{
    match j {
        Json::Null => "null"@,
        Json::Bool(b) => if b {
            "true"@
        } else {
            "false"@
        },
        Json::Int(i) => int_chars(i),
        Json::Str(s) => seq!['"'] + escape_str(s) + seq!['"'],
        Json::Arr(items) => seq!['['] + render_list(items) + seq![']'],
        Json::Obj(members) => seq!['{'] + render_obj(members) + seq!['}'],
    }
}

pub open spec fn render_list(items: Seq<Json>) -> Seq<char>
    decreases items,
{
    if items.len() == 0 {
        Seq::empty()
    } else {
        render_json(items[0]) + render_list_rest(items.skip(1))
    }
}

pub open spec fn render_list_rest(items: Seq<Json>) -> Seq<char>
    decreases items,
{
    if items.len() == 0 {
        Seq::empty()
    } else {
        seq![','] + render_json(items[0]) + render_list_rest(items.skip(1))
    }
}

pub open spec fn render_member(m: (Seq<char>, Json)) -> Seq<char>
    decreases m,
{
    seq!['"'] + escape_str(m.0) + seq!['"', ':'] + render_json(m.1)
}

pub open spec fn render_obj(members: Seq<(Seq<char>, Json)>) -> Seq<char>
    decreases members,
{
    if members.len() == 0 {
        Seq::empty()
    } else {
        render_member(members[0]) + render_obj_rest(members.skip(1))
    }
}

pub open spec fn render_obj_rest(members: Seq<(Seq<char>, Json)>) -> Seq<char>
    decreases members,
{
    if members.len() == 0 {
        Seq::empty()
    } else {
        seq![','] + render_member(members[0]) + render_obj_rest(members.skip(1))
    }
}

fn digit_char_of(d: u64) -> (c: char)
    requires
        d < 10,
    ensures
        c == digit_char(d as int),
{
    ((d + 48) as u8) as char
}

fn hex_char_of(d: u64) -> (c: char)
    requires
        d < 16,
    ensures
        c == hex_char(d as int),
{
    if d < 10 {
        ((d + 48) as u8) as char
    } else {
        ((d + 87) as u8) as char
    }
}

/// Append the decimal digits of `n` to `out`.
pub fn write_digits(out: &mut String, n: u64)
    ensures
        final(out)@ == old(out)@ + digits_of(n as nat),
    decreases n,
{
    if n < 10 {
        out.push(digit_char_of(n));
    } else {
        write_digits(out, n / 10);
        out.push(digit_char_of(n % 10));
    }
}

fn write_int(out: &mut String, i: i64)
    ensures
        final(out)@ == old(out)@ + int_chars(i as int),
{
    if i >= 0 {
        write_digits(out, i as u64);
    } else {
        out.push('-');
        let m: u64 = (-(i as i128)) as u64;
        assert(m as nat == (-(i as int)) as nat);
        write_digits(out, m);
    }
}

fn write_escaped_char(out: &mut String, c: char)
    ensures
        final(out)@ == old(out)@ + escape_char(c),
{
    if c == '"' {
        out.push('\\');
        out.push('"');
    } else if c == '\\' {
        out.push('\\');
        out.push('\\');
    } else if c == '\n' {
        out.push('\\');
        out.push('n');
    } else if c == '\r' {
        out.push('\\');
        out.push('r');
    } else if c == '\t' {
        out.push('\\');
        out.push('t');
    } else if c == '\u{0008}' {
        out.push('\\');
        out.push('b');
    } else if c == '\u{000C}' {
        out.push('\\');
        out.push('f');
    } else if (c as u32) < 32 {
        out.push('\\');
        out.push('u');
        out.push('0');
        out.push('0');
        let v = c as u32;
        out.push(hex_char_of((v / 16) as u64));
        out.push(hex_char_of((v % 16) as u64));
    } else {
        out.push(c);
    }
}

fn write_escaped(out: &mut String, s: &str)
    ensures
        final(out)@ == old(out)@ + escape_str(s@),
{
    let n = s.unicode_len();
    assert(s@.skip(0) =~= s@);
    let mut i: usize = 0;
    while i < n
        invariant
            i <= n,
            n == s@.len(),
            out@ + escape_str(s@.skip(i as int)) == old(out)@ + escape_str(s@),
        decreases n - i,
    {
        let c = s.get_char(i);
        proof {
            let rest = s@.skip(i as int);
            assert(rest[0] == s@[i as int]);
            assert(rest.skip(1) =~= s@.skip(i as int + 1));
            assert(escape_str(rest) == escape_char(c) + escape_str(s@.skip(i as int + 1)));
        }
        write_escaped_char(out, c);
        i += 1;
    }
    assert(s@.skip(n as int) =~= Seq::<char>::empty());
}

/// Append the wire text of `v` to `out`.
fn write_value(v: &JsonValue, out: &mut String)
    ensures
        final(out)@ == old(out)@ + render_json(v@),
    decreases v@,
{
    match v {
        JsonValue::Null => {
            out.append("null");
        },
        JsonValue::Bool(b) => {
            if *b {
                out.append("true");
            } else {
                out.append("false");
            }
        },
        JsonValue::Int(i) => {
            write_int(out, *i);
        },
        JsonValue::Str(s) => {
            out.push('"');
            write_escaped(out, s.as_str());
            out.push('"');
        },
        JsonValue::Arr(items) => {
            proof {
                lemma_view_of_items(items@);
            }
            let ghost lv = view_of_items(items@);
            out.push('[');
            let n = items.len();
            if n > 0 {
                proof {
                    assert(v@ == Json::Arr(lv));
                    assert(decreases_to!(v@ => v@->Arr_0));
                    assert(decreases_to!(lv => lv[0]));
                }
                write_value(&items[0], out);
                let mut i: usize = 1;
                while i < n
                    invariant
                        1 <= i <= n,
                        n == items.len(),
                        lv == view_of_items(items@),
                        lv.len() == items@.len(),
                        forall|j: int| 0 <= j < items@.len() ==> lv[j] == items@[j]@,
                        decreases_to!(v@ => lv),
                        out@ + render_list_rest(lv.skip(i as int)) == old(out)@ + seq!['[']
                            + render_list(lv),
                    decreases n - i,
                {
                    proof {
                        let rest = lv.skip(i as int);
                        assert(rest[0] == lv[i as int]);
                        assert(rest.skip(1) =~= lv.skip(i as int + 1));
                        assert(render_list_rest(rest) == seq![','] + render_json(lv[i as int])
                            + render_list_rest(lv.skip(i as int + 1)));
                        assert(decreases_to!(lv => lv[i as int]));
                    }
                    out.push(',');
                    write_value(&items[i], out);
                    i += 1;
                }
                assert(lv.skip(n as int) =~= Seq::<Json>::empty());
            }
            out.push(']');
        },
        JsonValue::Obj(members) => {
            proof {
                lemma_view_of_members(members@);
            }
            let ghost mv = view_of_members(members@);
            out.push('{');
            let n = members.len();
            if n > 0 {
                proof {
                    assert(v@ == Json::Obj(mv));
                    assert(decreases_to!(v@ => v@->Obj_0));
                    assert(decreases_to!(mv => mv[0]));
                    assert(decreases_to!(mv[0] => mv[0].1));
                }
                let m0 = &members[0];
                out.push('"');
                write_escaped(out, m0.0.as_str());
                out.push('"');
                out.push(':');
                write_value(&m0.1, out);
                let mut i: usize = 1;
                while i < n
                    invariant
                        1 <= i <= n,
                        n == members.len(),
                        mv == view_of_members(members@),
                        mv.len() == members@.len(),
                        forall|j: int| 0 <= j < members@.len() ==> mv[j] == (
                            members@[j].0@,
                            members@[j].1@,
                        ),
                        decreases_to!(v@ => mv),
                        out@ + render_obj_rest(mv.skip(i as int)) == old(out)@ + seq!['{']
                            + render_obj(mv),
                    decreases n - i,
                {
                    proof {
                        let rest = mv.skip(i as int);
                        assert(rest[0] == mv[i as int]);
                        assert(rest.skip(1) =~= mv.skip(i as int + 1));
                        assert(render_obj_rest(rest) == seq![','] + render_member(mv[i as int])
                            + render_obj_rest(mv.skip(i as int + 1)));
                        assert(decreases_to!(mv => mv[i as int]));
                        assert(decreases_to!(mv[i as int] => mv[i as int].1));
                    }
                    out.push(',');
                    let m = &members[i];
                    out.push('"');
                    write_escaped(out, m.0.as_str());
                    out.push('"');
                    out.push(':');
                    write_value(&m.1, out);
                    i += 1;
                }
                assert(mv.skip(n as int) =~= Seq::<(Seq<char>, Json)>::empty());
            }
            out.push('}');
        },
    }
}

/// The wire text of a JSON document.
pub fn render(v: &JsonValue) -> (r: String)
    ensures
        r@ == render_json(v@),
{
    let mut out = String::new();
    write_value(v, &mut out);
    out
}

} // verus!
