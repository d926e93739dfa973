//! A JSON document model and a verified serializer to UTF-8 bytes.
//!
//! The wire payload of the post operation is built here. The serializer's
//! contract pins the produced bytes exactly, so that the payload-construction
//! code in `chat` can state which keys appear and which are omitted.

use vstd::prelude::*;
use vstd::utf8::encode_utf8;

verus! {

/// `"` — begins and ends a JSON string.
pub const QUOTE: u8 = 0x22;

/// `\` — begins every escape sequence.
pub const BACKSLASH: u8 = 0x5c;

/// `{` — begins a JSON object.
pub const LBRACE: u8 = 0x7b;

/// `}` — ends a JSON object.
pub const RBRACE: u8 = 0x7d;

/// `[` — begins a JSON array.
pub const LBRACKET: u8 = 0x5b;

/// `]` — ends a JSON array.
pub const RBRACKET: u8 = 0x5d;

/// `,` — separates the members of an object or array.
pub const COMMA: u8 = 0x2c;

/// `:` — separates a key from its value.
pub const COLON: u8 = 0x3a;

/// The JSON escape sequence that stands for one byte of a string.
///
/// A quote and a backslash are escaped with a backslash; a control byte
/// becomes a `\u00XX` sequence; every other byte stands for itself. Bytes of
/// multi-byte UTF-8 characters are all at least 0x80, so escaping the encoded
/// bytes one by one never touches them.
pub open spec fn esc_byte(b: u8) -> Seq<u8> {
    if b == QUOTE {
        seq![BACKSLASH, QUOTE]
    } else if b == BACKSLASH {
        seq![BACKSLASH, BACKSLASH]
    } else if b < 0x20 {
        seq![BACKSLASH, 0x75, 0x30, 0x30, hex_digit((b / 16) as u8), hex_digit((b % 16) as u8)]
    } else {
        seq![b]
    }
}

/// The lower-case hexadecimal digit for a value below 16.
pub open spec fn hex_digit(n: u8) -> u8 {
    if n < 10 {
        (0x30 + n) as u8
    } else {
        (0x57 + n) as u8
    }
}

/// The escaped form of a whole byte sequence.
pub open spec fn spec_escape(s: Seq<u8>) -> Seq<u8>
    decreases s.len(),
{
    if s.len() == 0 {
        Seq::empty()
    } else {
        spec_escape(s.drop_last()) + esc_byte(s.last())
    }
}

/// The serialized form of a JSON string: the escaped UTF-8 bytes in quotes.
pub open spec fn string_bytes(s: Seq<char>) -> Seq<u8> {
    seq![QUOTE] + spec_escape(encode_utf8(s)) + seq![QUOTE]
}

/// The decimal digits of a non-negative integer, most significant first.
pub open spec fn dec_bytes(n: int) -> Seq<u8>
    decreases n,
{
    if n < 10 {
        seq![(0x30 + n) as u8]
    } else {
        dec_bytes(n / 10) + seq![(0x30 + n % 10) as u8]
    }
}

/// The serialized form of a JSON integer, with a leading `-` when negative.
pub open spec fn int_bytes(i: int) -> Seq<u8> {
    if i < 0 {
        seq![0x2d] + dec_bytes(-i)
    } else {
        dec_bytes(i)
    }
}

/// The serialized form of a JSON boolean.
pub open spec fn bool_bytes(b: bool) -> Seq<u8> {
    if b {
        seq![0x74, 0x72, 0x75, 0x65]
    } else {
        seq![0x66, 0x61, 0x6c, 0x73, 0x65]
    }
}

/// The serialized form of JSON `null`.
pub open spec fn null_bytes() -> Seq<u8> {
    seq![0x6e, 0x75, 0x6c, 0x6c]
}

fn hex_digit_ex(n: u8) -> (r: u8)
    requires
        n < 16,
    ensures
        r == hex_digit(n),
{
    if n < 10 {
        0x30 + n
    } else {
        0x57 + n
    }
}

/// Appends the escape sequence of one byte.
fn push_escaped_byte(out: &mut Vec<u8>, b: u8)
    ensures
        final(out)@ == old(out)@ + esc_byte(b),
{
    if b == QUOTE {
        out.push(BACKSLASH);
        out.push(QUOTE);
    } else if b == BACKSLASH {
        out.push(BACKSLASH);
        out.push(BACKSLASH);
    } else if b < 0x20 {
        out.push(BACKSLASH);
        out.push(0x75);
        out.push(0x30);
        out.push(0x30);
        out.push(hex_digit_ex(b / 16));
        out.push(hex_digit_ex(b % 16));
    } else {
        out.push(b);
    }
    assert(out@ =~= old(out)@ + esc_byte(b));
}

/// Appends a string in its serialized JSON form: quotes around escaped bytes.
pub fn push_string(out: &mut Vec<u8>, s: &str)
    ensures
        final(out)@ == old(out)@ + string_bytes(s@),
{
    let bytes: &[u8] = s.as_bytes();
    out.push(QUOTE);
    let n: usize = bytes.len();
    assert(bytes@.take(0) =~= Seq::<u8>::empty());
    for i in 0..n
        invariant
            n == bytes@.len(),
            bytes@ == encode_utf8(s@),
            out@ == old(out)@ + seq![QUOTE] + spec_escape(bytes@.take(i as int)),
    {
        let b: u8 = bytes[i];
        push_escaped_byte(out, b);
        assert(bytes@.take(i + 1).drop_last() =~= bytes@.take(i as int));
        assert(bytes@.take(i + 1).last() == b);
    }
    assert(bytes@.take(n as int) =~= bytes@);
    out.push(QUOTE);
    assert(out@ =~= old(out)@ + string_bytes(s@));
}

/// The decimal digits of `n`, produced most significant first.
fn dec_u64(n: u64) -> (r: Vec<u8>)
    ensures
        r@ == dec_bytes(n as int),
    decreases n,
{
    if n < 10 {
        let mut v: Vec<u8> = Vec::new();
        v.push(0x30 + (n as u8));
        v
    } else {
        let mut v: Vec<u8> = dec_u64(n / 10);
        v.push(0x30 + ((n % 10) as u8));
        v
    }
}

/// Appends a signed integer in its serialized JSON form.
pub fn push_int(out: &mut Vec<u8>, i: i64)
    ensures
        final(out)@ == old(out)@ + int_bytes(i as int),
{
    if i >= 0 {
        let mut digits: Vec<u8> = dec_u64(i as u64);
        out.append(&mut digits);
    } else {
        let magnitude: u64 = ((-(i + 1)) as u64) + 1;
        assert(magnitude as int == -(i as int));
        out.push(0x2d);
        let mut digits: Vec<u8> = dec_u64(magnitude);
        out.append(&mut digits);
        assert(out@ =~= old(out)@ + int_bytes(i as int));
    }
}

/// Appends a boolean in its serialized JSON form.
pub fn push_bool(out: &mut Vec<u8>, b: bool)
    ensures
        final(out)@ == old(out)@ + bool_bytes(b),
{
    if b {
        out.push(0x74);
        out.push(0x72);
        out.push(0x75);
        out.push(0x65);
    } else {
        out.push(0x66);
        out.push(0x61);
        out.push(0x6c);
        out.push(0x73);
        out.push(0x65);
    }
    assert(out@ =~= old(out)@ + bool_bytes(b));
}

/// Appends JSON `null`.
pub fn push_null(out: &mut Vec<u8>)
    ensures
        final(out)@ == old(out)@ + null_bytes(),
{
    out.push(0x6e);
    out.push(0x75);
    out.push(0x6c);
    out.push(0x6c);
    assert(out@ =~= old(out)@ + null_bytes());
}

/// The given byte chunks joined by commas.
pub open spec fn joined(items: Seq<Seq<u8>>) -> Seq<u8>
    decreases items.len(),
{
    if items.len() == 0 {
        Seq::empty()
    } else if items.len() == 1 {
        items[0]
    } else {
        joined(items.drop_last()) + seq![COMMA] + items.last()
    }
}

/// The serialized form of one object member: the key in quotes, a colon, and
/// the already-serialized value.
pub open spec fn pair_bytes(p: (Seq<char>, Seq<u8>)) -> Seq<u8> {
    string_bytes(p.0) + seq![COLON] + p.1
}

/// The serialized form of an object with the given members, in order.
pub open spec fn obj_bytes(pairs: Seq<(Seq<char>, Seq<u8>)>) -> Seq<u8> {
    seq![LBRACE] + joined(pairs.map(|i: int, p: (Seq<char>, Seq<u8>)| pair_bytes(p))) + seq![
        RBRACE,
    ]
}

/// The views of a list of key / serialized-value pairs.
pub open spec fn pairs_view(s: Seq<(&str, Vec<u8>)>) -> Seq<(Seq<char>, Seq<u8>)> {
    s.map(|i: int, p: (&str, Vec<u8>)| (p.0@, p.1@))
}

/// Appends the bytes of `src`.
pub fn append_bytes(out: &mut Vec<u8>, src: &Vec<u8>)
    ensures
        final(out)@ == old(out)@ + src@,
{
    let n: usize = src.len();
    for j in 0..n
        invariant
            n == src@.len(),
            out@ == old(out)@ + src@.take(j as int),
    {
        out.push(src[j]);
        assert(out@ =~= old(out)@ + src@.take(j + 1));
    }
    assert(out@ =~= old(out)@ + src@);
}

/// Appends a whole object: every given member in order, between braces.
pub fn push_object(out: &mut Vec<u8>, pairs: &Vec<(&str, Vec<u8>)>)
    ensures
        final(out)@ == old(out)@ + obj_bytes(pairs_view(pairs@)),
{
    let ghost rendered: Seq<Seq<u8>> = pairs_view(pairs@).map(
        |i: int, p: (Seq<char>, Seq<u8>)| pair_bytes(p),
    );
    out.push(LBRACE);
    let n: usize = pairs.len();
    for i in 0..n
        invariant
            n == pairs@.len(),
            rendered == pairs_view(pairs@).map(
                |i: int, p: (Seq<char>, Seq<u8>)| pair_bytes(p),
            ),
            out@ == old(out)@ + seq![LBRACE] + joined(rendered.take(i as int)),
    {
        if i > 0 {
            out.push(COMMA);
        }
        push_string(out, pairs[i].0);
        out.push(COLON);
        append_bytes(out, &pairs[i].1);
        assert(rendered.take(i + 1).drop_last() =~= rendered.take(i as int));
        assert(rendered.take(i + 1).last() == pair_bytes((pairs@[i as int].0@, pairs@[
            i as int].1@)));
        assert(out@ =~= old(out)@ + seq![LBRACE] + joined(rendered.take(i + 1)));
    }
    assert(rendered.take(n as int) =~= rendered);
    out.push(RBRACE);
    assert(out@ =~= old(out)@ + obj_bytes(pairs_view(pairs@)));
}

/// A JSON document: the values that the wire payload of a post is made of.
///
/// Numbers are limited to signed integers: no field of this client's payload
/// carries a fractional number.
#[derive(Debug)]
pub enum JsonValue {
    Null,
    Bool(bool),
    Int(i64),
    Str(String),
    Arr(Vec<JsonValue>),
    Obj(Vec<(String, JsonValue)>),
}

/// The serialized form of a JSON value.
pub open spec fn render(v: JsonValue) -> Seq<u8>
    decreases v,
{
    match v {
        JsonValue::Null => null_bytes(),
        JsonValue::Bool(b) => bool_bytes(b),
        JsonValue::Int(i) => int_bytes(i as int),
        JsonValue::Str(s) => string_bytes(s@),
        JsonValue::Arr(elems) => seq![LBRACKET] + render_items(elems@) + seq![RBRACKET],
        JsonValue::Obj(pairs) => seq![LBRACE] + render_pairs(pairs@) + seq![RBRACE],
    }
}

/// The serialized elements of an array of JSON values, joined by commas.
pub open spec fn render_items(s: Seq<JsonValue>) -> Seq<u8>
    decreases s,
{
    if s.len() == 0 {
        Seq::empty()
    } else if s.len() == 1 {
        render(s[0])
    } else {
        render_items(s.drop_last()) + seq![COMMA] + render(s.last())
    }
}

/// The serialized members of an object of JSON values, joined by commas.
pub open spec fn render_pairs(s: Seq<(String, JsonValue)>) -> Seq<u8>
    decreases s,
{
    if s.len() == 0 {
        Seq::empty()
    } else if s.len() == 1 {
        pair_bytes((s[0].0@, render(s[0].1)))
    } else {
        render_pairs(s.drop_last()) + seq![COMMA] + pair_bytes((s.last().0@, render(s.last().1)))
    }
}

/// Appends the elements of an array of JSON values, joined by commas.
pub fn push_items(out: &mut Vec<u8>, elems: &Vec<JsonValue>)
    ensures
        final(out)@ == old(out)@ + render_items(elems@),
    decreases elems@,
{
    let n: usize = elems.len();
    for i in 0..n
        invariant
            n == elems@.len(),
            out@ == old(out)@ + render_items(elems@.take(i as int)),
    {
        if i > 0 {
            out.push(COMMA);
        }
        let mut r: Vec<u8> = render_value(&elems[i]);
        out.append(&mut r);
        assert(elems@.take(i + 1).drop_last() =~= elems@.take(i as int));
        assert(elems@.take(i + 1).last() == elems@[i as int]);
        assert(out@ =~= old(out)@ + render_items(elems@.take(i + 1)));
    }
    assert(elems@.take(n as int) =~= elems@);
}

/// Appends the members of an object of JSON values, joined by commas.
pub fn push_value_pairs(out: &mut Vec<u8>, pairs: &Vec<(String, JsonValue)>)
    ensures
        final(out)@ == old(out)@ + render_pairs(pairs@),
    decreases pairs@,
{
    let n: usize = pairs.len();
    for i in 0..n
        invariant
            n == pairs@.len(),
            out@ == old(out)@ + render_pairs(pairs@.take(i as int)),
    {
        if i > 0 {
            out.push(COMMA);
        }
        push_string(out, pairs[i].0.as_str());
        out.push(COLON);
        let mut r: Vec<u8> = render_value(&pairs[i].1);
        out.append(&mut r);
        assert(pairs@.take(i + 1).drop_last() =~= pairs@.take(i as int));
        assert(pairs@.take(i + 1).last() == pairs@[i as int]);
        assert(out@ =~= old(out)@ + render_pairs(pairs@.take(i + 1)));
    }
    assert(pairs@.take(n as int) =~= pairs@);
}

/// The serialized form of a JSON value, as bytes.
pub fn render_value(v: &JsonValue) -> (out: Vec<u8>)
    ensures
        out@ == render(*v),
    decreases *v,
{
    let mut out: Vec<u8> = Vec::new();
    match v {
        JsonValue::Null => {
            push_null(&mut out);
        },
        JsonValue::Bool(b) => {
            push_bool(&mut out, *b);
        },
        JsonValue::Int(i) => {
            push_int(&mut out, *i);
        },
        JsonValue::Str(s) => {
            push_string(&mut out, s.as_str());
        },
        JsonValue::Arr(elems) => {
            out.push(LBRACKET);
            push_items(&mut out, elems);
            out.push(RBRACKET);
            assert(out@ =~= render(*v));
        },
        JsonValue::Obj(pairs) => {
            out.push(LBRACE);
            push_value_pairs(&mut out, pairs);
            out.push(RBRACE);
            assert(out@ =~= render(*v));
        },
    }
    out
}

} // verus!
