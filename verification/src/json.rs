//! Model of the untyped JSON payloads exchanged with the hub: event
//! frames, attribute maps and command parameters. The ingress boundary
//! decodes transport text into this shape before any logic runs, so no
//! untyped value flows past it.

use vstd::prelude::*;

use crate::text::{digit_char, digit_of, i64_text, int_text, milli_text, milli_to_text, push_char};
use vstd::string::StringExecFns;
use vstd::string::StrSliceExecFns;

verus! {

/// An untyped hub payload value.
///
/// A number representable as a signed 64-bit integer is held as `Int`; any
/// other number is held as `Milli`, in thousandths of its value. An object
/// keeps its fields in order of appearance, and a key lookup takes the
/// first match.
#[derive(Debug, PartialEq)]
pub enum JsonVal {
    Null,
    Bool(bool),
    Int(i64),
    Milli(i64),
    Str(String),
    Arr(Vec<JsonVal>),
    Obj(Vec<(String, JsonVal)>),
}

/// The value under `key` in an object's field list: the first entry whose
/// key has that text, if any.
pub open spec fn spec_lookup(entries: Seq<(String, JsonVal)>, key: Seq<char>) -> Option<JsonVal>
    decreases entries.len(),
{
    if entries.len() == 0 {
        None
    } else if entries[0].0@ == key {
        Some(entries[0].1)
    } else {
        spec_lookup(entries.drop_first(), key)
    }
}

/// Relies on `str`'s `PartialEq`: two string slices compare equal exactly
/// when their character sequences are equal.
#[verifier::external_body]
pub(crate) fn str_eq(a: &str, b: &str) -> (r: bool)
    ensures
        r == (a@ == b@),
{
    a == b
}

/// Looks `key` up in an object's field list, first match wins.
pub fn obj_get<'a>(entries: &'a Vec<(String, JsonVal)>, key: &str) -> (r: Option<&'a JsonVal>)
    ensures
        match r {
            Some(v) => spec_lookup(entries@, key@) == Some(*v),
            None => spec_lookup(entries@, key@) is None,
        },
{
    let n: usize = entries.len();
    let mut i: usize = 0;
    proof {
        assert(entries@.skip(0) =~= entries@);
    }
    while i < n
        invariant
            i <= n,
            n == entries@.len(),
            spec_lookup(entries@, key@) == spec_lookup(entries@.skip(i as int), key@),
        decreases n - i,
    {
        proof {
            assert(entries@.skip(i as int)[0] == entries@[i as int]);
        }
        if str_eq(entries[i].0.as_str(), key) {
            return Some(&entries[i].1);
        }
        proof {
            assert(entries@.skip(i as int).drop_first() =~= entries@.skip(i as int + 1));
        }
        i = i + 1;
    }
    proof {
        assert(entries@.skip(i as int).len() == 0);
    }
    None
}

/// The hexadecimal digit character for `d` in `0..16`, lower case.
pub open spec fn hex_char(d: int) -> char {
    if d < 10 {
        digit_char(d)
    } else if d == 10 {
        'a'
    } else if d == 11 {
        'b'
    } else if d == 12 {
        'c'
    } else if d == 13 {
        'd'
    } else if d == 14 {
        'e'
    } else {
        'f'
    }
}

/// How one character appears inside a JSON string literal: quote and
/// backslash get a backslash, the common control characters their short
/// escapes, other control characters a four-digit escape, and everything
/// else stands as it is.
pub open spec fn escape_char(c: char) -> Seq<char> {
    if c == '"' {
        seq!['\\', '"']
    } else if c == '\\' {
        seq!['\\', '\\']
    } else if c == '\n' {
        seq!['\\', 'n']
    } else if c == '\r' {
        seq!['\\', 'r']
    } else if c == '\t' {
        seq!['\\', 't']
    } else if (c as int) < 32 {
        seq!['\\', 'u', '0', '0', hex_char(c as int / 16), hex_char(c as int % 16)]
    } else {
        seq![c]
    }
}

/// A character sequence as it appears inside a JSON string literal.
pub open spec fn escape_text(s: Seq<char>) -> Seq<char>
    decreases s.len(),
{
    if s.len() == 0 {
        Seq::empty()
    } else {
        escape_char(s[0]) + escape_text(s.drop_first())
    }
}

/// The JSON text of a value.
pub open spec fn json_text(v: JsonVal) -> Seq<char>
    decreases v,
{
    match v {
        JsonVal::Null => seq!['n', 'u', 'l', 'l'],
        JsonVal::Bool(b) => if b {
            seq!['t', 'r', 'u', 'e']
        } else {
            seq!['f', 'a', 'l', 's', 'e']
        },
        JsonVal::Int(i) => int_text(i as int),
        JsonVal::Milli(m) => milli_text(m as int),
        JsonVal::Str(s) => seq!['"'] + escape_text(s@) + seq!['"'],
        JsonVal::Arr(items) => seq!['['] + arr_text(items@) + seq![']'],
        JsonVal::Obj(entries) => seq!['{'] + obj_text(entries@) + seq!['}'],
    }
}

/// The comma-separated JSON texts of an array's items.
pub open spec fn arr_text(items: Seq<JsonVal>) -> Seq<char>
    decreases items,
{
    if items.len() == 0 {
        Seq::empty()
    } else if items.len() == 1 {
        json_text(items[0])
    } else {
        json_text(items[0]) + seq![','] + arr_text(items.drop_first())
    }
}

/// The comma-separated `"key":value` texts of an object's fields.
pub open spec fn obj_text(entries: Seq<(String, JsonVal)>) -> Seq<char>
    decreases entries,
{
    if entries.len() == 0 {
        Seq::empty()
    } else if entries.len() == 1 {
        seq!['"'] + escape_text(entries[0].0@) + seq!['"', ':'] + json_text(entries[0].1)
    } else {
        seq!['"'] + escape_text(entries[0].0@) + seq!['"', ':'] + json_text(entries[0].1)
            + seq![','] + obj_text(entries.drop_first())
    }
}

proof fn lemma_escape_snoc(s: Seq<char>, c: char)
    ensures
        escape_text(s.push(c)) == escape_text(s) + escape_char(c),
    decreases s.len(),
{
    assert(escape_text(s.push(c)) == escape_char(s.push(c)[0]) + escape_text(
        s.push(c).drop_first(),
    ));
    if s.len() == 0 {
        assert(s.push(c)[0] == c);
        assert(s.push(c).drop_first() =~= Seq::<char>::empty());
        assert(escape_text(Seq::<char>::empty()) == Seq::<char>::empty());
        assert(escape_text(s) == Seq::<char>::empty());
        assert(escape_text(s.push(c)) =~= escape_text(s) + escape_char(c));
    } else {
        assert(s.push(c)[0] == s[0]);
        assert(s.push(c).drop_first() =~= s.drop_first().push(c));
        lemma_escape_snoc(s.drop_first(), c);
        assert(escape_text(s) == escape_char(s[0]) + escape_text(s.drop_first()));
        assert(escape_text(s.push(c)) =~= escape_text(s) + escape_char(c));
    }
}

proof fn lemma_arr_snoc(s: Seq<JsonVal>, x: JsonVal)
    ensures
        s.len() == 0 ==> arr_text(s.push(x)) == json_text(x),
        s.len() > 0 ==> arr_text(s.push(x)) == arr_text(s) + seq![','] + json_text(x),
    decreases s.len(),
{
    if s.len() == 0 {
        assert(s.push(x)[0] == x);
    } else {
        assert(s.push(x)[0] == s[0]);
        assert(s.push(x).drop_first() =~= s.drop_first().push(x));
        lemma_arr_snoc(s.drop_first(), x);
        if s.len() == 1 {
            assert(arr_text(s.push(x)) =~= arr_text(s) + seq![','] + json_text(x));
        } else {
            assert(arr_text(s.push(x)) =~= arr_text(s) + seq![','] + json_text(x));
        }
    }
}

proof fn lemma_obj_snoc(s: Seq<(String, JsonVal)>, k: String, x: JsonVal)
    ensures
        s.len() == 0 ==> obj_text(s.push((k, x))) == seq!['"'] + escape_text(k@) + seq!['"', ':']
            + json_text(x),
        s.len() > 0 ==> obj_text(s.push((k, x))) == obj_text(s) + seq![','] + (seq!['"']
            + escape_text(k@) + seq!['"', ':'] + json_text(x)),
    decreases s.len(),
{
    if s.len() == 0 {
        assert(s.push((k, x))[0] == (k, x));
    } else {
        assert(s.push((k, x))[0] == s[0]);
        assert(s.push((k, x)).drop_first() =~= s.drop_first().push((k, x)));
        lemma_obj_snoc(s.drop_first(), k, x);
        assert(obj_text(s.push((k, x))) =~= obj_text(s) + seq![','] + (seq!['"'] + escape_text(k@)
            + seq!['"', ':'] + json_text(x)));
    }
}

/// Appends a string's characters to `out` as they appear inside a JSON
/// string literal.
pub fn push_escaped(out: &mut String, s: &str)
    ensures
        final(out)@ == old(out)@ + escape_text(s@),
{
    let n: usize = s.unicode_len();
    let mut i: usize = 0;
    proof {
        assert(s@.take(0) =~= Seq::<char>::empty());
        assert(out@ =~= old(out)@ + escape_text(s@.take(0)));
    }
    while i < n
        invariant
            i <= n,
            n == s@.len(),
            out@ == old(out)@ + escape_text(s@.take(i as int)),
        decreases n - i,
    {
        let c = s.get_char(i);
        if c == '"' {
            push_char(out, '\\');
            push_char(out, '"');
        } else if c == '\\' {
            push_char(out, '\\');
            push_char(out, '\\');
        } else if c == '\n' {
            push_char(out, '\\');
            push_char(out, 'n');
        } else if c == '\r' {
            push_char(out, '\\');
            push_char(out, 'r');
        } else if c == '\t' {
            push_char(out, '\\');
            push_char(out, 't');
        } else if (c as u32) < 32 {
            push_char(out, '\\');
            push_char(out, 'u');
            push_char(out, '0');
            push_char(out, '0');
            let code: u32 = c as u32;
            push_char(out, hex_of((code / 16) as u64));
            push_char(out, hex_of((code % 16) as u64));
        } else {
            push_char(out, c);
        }
        proof {
            lemma_escape_snoc(s@.take(i as int), c);
            assert(s@.take(i as int + 1) =~= s@.take(i as int).push(c));
            assert(out@ =~= old(out)@ + escape_text(s@.take(i as int + 1)));
        }
        i = i + 1;
    }
    proof {
        assert(s@.take(n as int) =~= s@);
    }
}

/// The hexadecimal digit character for `d` in `0..16`, as executable code.
fn hex_of(d: u64) -> (c: char)
    requires
        d < 16,
    ensures
        c == hex_char(d as int),
{
    if d < 10 {
        digit_of(d)
    } else if d == 10 {
        'a'
    } else if d == 11 {
        'b'
    } else if d == 12 {
        'c'
    } else if d == 13 {
        'd'
    } else if d == 14 {
        'e'
    } else {
        'f'
    }
}

/// Appends the JSON text of `v` to `out`.
pub fn push_json(out: &mut String, v: &JsonVal)
    ensures
        final(out)@ == old(out)@ + json_text(*v),
    decreases *v,
{
    match v {
        JsonVal::Null => {
            push_char(out, 'n');
            push_char(out, 'u');
            push_char(out, 'l');
            push_char(out, 'l');
            assert(out@ =~= old(out)@ + json_text(*v));
        },
        JsonVal::Bool(b) => {
            if *b {
                push_char(out, 't');
                push_char(out, 'r');
                push_char(out, 'u');
                push_char(out, 'e');
            } else {
                push_char(out, 'f');
                push_char(out, 'a');
                push_char(out, 'l');
                push_char(out, 's');
                push_char(out, 'e');
            }
            assert(out@ =~= old(out)@ + json_text(*v));
        },
        JsonVal::Int(i) => {
            let t = i64_text(*i);
            out.append(t.as_str());
        },
        JsonVal::Milli(m) => {
            let t = milli_to_text(*m);
            out.append(t.as_str());
        },
        JsonVal::Str(s) => {
            push_char(out, '"');
            push_escaped(out, s.as_str());
            push_char(out, '"');
            assert(out@ =~= old(out)@ + json_text(*v));
        },
        JsonVal::Arr(items) => {
            push_char(out, '[');
            let n: usize = items.len();
            let mut i: usize = 0;
            while i < n
                invariant
                    i <= n,
                    n == items@.len(),
                    v is Arr && v->Arr_0 == items,
                    i == 0 ==> out@ == old(out)@ + seq!['['],
                    i > 0 ==> out@ == old(out)@ + seq!['['] + arr_text(items@.take(i as int)),
                decreases n - i,
            {
                if i > 0 {
                    push_char(out, ',');
                }
                push_json(out, &items[i]);
                proof {
                    lemma_arr_snoc(items@.take(i as int), items@[i as int]);
                    assert(items@.take(i as int + 1) =~= items@.take(i as int).push(
                        items@[i as int],
                    ));
                    assert(out@ =~= old(out)@ + seq!['['] + arr_text(items@.take(i as int + 1)));
                }
                i = i + 1;
            }
            push_char(out, ']');
            proof {
                assert(items@.take(n as int) =~= items@);
                assert(out@ =~= old(out)@ + json_text(*v));
            }
        },
        JsonVal::Obj(entries) => {
            push_char(out, '{');
            let n: usize = entries.len();
            let mut i: usize = 0;
            while i < n
                invariant
                    i <= n,
                    n == entries@.len(),
                    v is Obj && v->Obj_0 == entries,
                    i == 0 ==> out@ == old(out)@ + seq!['{'],
                    i > 0 ==> out@ == old(out)@ + seq!['{'] + obj_text(entries@.take(i as int)),
                decreases n - i,
            {
                if i > 0 {
                    push_char(out, ',');
                }
                push_char(out, '"');
                push_escaped(out, entries[i].0.as_str());
                push_char(out, '"');
                push_char(out, ':');
                push_json(out, &entries[i].1);
                proof {
                    let (k, x) = entries@[i as int];
                    lemma_obj_snoc(entries@.take(i as int), k, x);
                    assert(entries@.take(i as int + 1) =~= entries@.take(i as int).push((k, x)));
                    assert(out@ =~= old(out)@ + seq!['{'] + obj_text(entries@.take(i as int + 1)));
                }
                i = i + 1;
            }
            push_char(out, '}');
            proof {
                assert(entries@.take(n as int) =~= entries@);
                assert(out@ =~= old(out)@ + json_text(*v));
            }
        },
    }
}

/// The JSON text of a value, as a fresh string.
pub fn render_json(v: &JsonVal) -> (r: String)
    ensures
        r@ == json_text(*v),
{
    let mut out = String::new();
    push_json(&mut out, v);
    proof {
        assert(out@ =~= json_text(*v));
    }
    out
}

} // verus!
