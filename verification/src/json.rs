//! The JSON values that the API's requests and responses carry.
//!
//! The library models a JSON document as its own tree of plain values, so
//! that every function that reads or writes one can be verified. Parsing
//! text into a tree is delegated to `serde_json` behind a small trusted
//! boundary; everything after the parse, and all serialization, is verified.

use vstd::prelude::*;

verus! {

/// A JSON document.
///
/// Numbers are kept only when they are non-negative integers, which is all
/// this API ever sends in a field the library reads; any other number
/// (negative, fractional, or out of range) is kept as `OtherNum`, so that an
/// unread field holding one never makes a whole document unreadable.
#[derive(Debug)]
pub enum Json {
    Null,
    Bool(bool),
    UInt(u64),
    OtherNum,
    Str(String),
    Arr(Vec<Json>),
    Obj(Vec<(String, Json)>),
}

/// The first value bound to `key` among the members of an object, if any.
pub open spec fn json_lookup(ms: Seq<(String, Json)>, key: Seq<char>) -> Option<Json>
    decreases ms.len(),
{
    if ms.len() == 0 {
        None
    } else if ms[0].0@ == key {
        Some(ms[0].1)
    } else {
        json_lookup(ms.drop_first(), key)
    }
}

/// The value bound to `key`, when `j` is an object that has one.
pub open spec fn json_get(j: Json, key: Seq<char>) -> Option<Json> {
    match j {
        Json::Obj(ms) => json_lookup(ms@, key),
        _ => None,
    }
}

/// The characters of `j`, when `j` is a string.
pub open spec fn json_str(j: Json) -> Option<Seq<char>> {
    match j {
        Json::Str(s) => Some(s@),
        _ => None,
    }
}

/// Whether two string slices hold the same characters.
pub fn str_eq(a: &str, b: &str) -> (r: bool)
    ensures
        r == (a@ == b@),
{
    let sa: String = a.to_owned();
    let sb: String = b.to_owned();
    sa == sb
}

/// Looks `key` up among the members of an object, first binding wins.
pub fn obj_lookup<'a>(ms: &'a Vec<(String, Json)>, key: &str) -> (r: Option<&'a Json>)
    ensures
        match r {
            Some(v) => json_lookup(ms@, key@) == Some(*v),
            None => json_lookup(ms@, key@) is None,
        },
{
    let n: usize = ms.len();
    proof {
        assert(ms@.skip(0) =~= ms@);
    }
    for i in 0..n
        invariant
            n == ms@.len(),
            json_lookup(ms@, key@) == json_lookup(ms@.skip(i as int), key@),
    {
        assert(ms@.skip(i as int)[0] == ms@[i as int]);
        if str_eq(ms[i].0.as_str(), key) {
            return Some(&ms[i].1);
        }
        proof {
            assert(ms@.skip(i as int).drop_first() =~= ms@.skip(i as int + 1));
        }
    }
    proof {
        assert(ms@.skip(n as int) =~= Seq::<(String, Json)>::empty());
    }
    None
}

#[verifier::external_type_specification]
#[verifier::external_body]
pub struct ExValue(serde_json::Value);

/// One level of a parsed document, children still in serde_json's form.
enum Shallow {
    Null,
    Bool(bool),
    UInt(u64),
    OtherNum,
    Str(String),
    Arr(Vec<serde_json::Value>),
    Obj(Vec<(String, serde_json::Value)>),
}

/// Relies on serde_json::from_str: parses JSON text into serde_json's value
/// tree, `None` when the text is not JSON.
#[verifier::external_body]
fn parse_value(s: &str) -> (r: Option<serde_json::Value>) {
    serde_json::from_str::<serde_json::Value>(s).ok()
}

/// Relies on serde_json::Value, one arm per variant: tells the variants apart
/// and hands each one's content out. A number is kept only when
/// serde_json::Number::as_u64 accepts it, that is when it is a non-negative
/// integer within u64.
#[verifier::external_body]
fn value_shallow(v: serde_json::Value) -> (r: Shallow) {
    match v {
        serde_json::Value::Null => Shallow::Null,
        serde_json::Value::Bool(b) => Shallow::Bool(b),
        serde_json::Value::Number(n) => match n.as_u64() {
            Some(u) => Shallow::UInt(u),
            None => Shallow::OtherNum,
        },
        serde_json::Value::String(s) => Shallow::Str(s),
        serde_json::Value::Array(vs) => Shallow::Arr(vs),
        serde_json::Value::Object(m) => Shallow::Obj(m.into_iter().collect()),
    }
}

/// How deep a parsed document may nest. serde_json itself stops at 128
/// levels, so nothing it parses is ever refused here.
const MAX_JSON_DEPTH: u64 = 200;

/// Rebuilds a parsed document as the library's own tree, member order kept;
/// `None` for one nested deeper than `fuel` levels.
fn json_from_value(v: serde_json::Value, fuel: u64) -> (r: Option<Json>)
    decreases fuel,
{
    if fuel == 0 {
        return None;
    }
    match value_shallow(v) {
        Shallow::Null => Some(Json::Null),
        Shallow::Bool(b) => Some(Json::Bool(b)),
        Shallow::UInt(n) => Some(Json::UInt(n)),
        Shallow::OtherNum => Some(Json::OtherNum),
        Shallow::Str(s) => Some(Json::Str(s)),
        Shallow::Arr(vs) => {
            let mut rest: Vec<serde_json::Value> = vs;
            let mut out: Vec<Json> = Vec::new();
            while rest.len() > 0
                invariant
                    fuel >= 1,
                decreases rest.len(),
            {
                let v0: serde_json::Value = rest.remove(0);
                match json_from_value(v0, (fuel - 1) as u64) {
                    Some(j) => out.push(j),
                    None => {
                        return None;
                    },
                }
            }
            Some(Json::Arr(out))
        },
        Shallow::Obj(ms) => {
            let mut rest: Vec<(String, serde_json::Value)> = ms;
            let mut out: Vec<(String, Json)> = Vec::new();
            while rest.len() > 0
                invariant
                    fuel >= 1,
                decreases rest.len(),
            {
                let (k, v0) = rest.remove(0);
                match json_from_value(v0, (fuel - 1) as u64) {
                    Some(j) => out.push((k, j)),
                    None => {
                        return None;
                    },
                }
            }
            Some(Json::Obj(out))
        },
    }
}

/// Parses JSON text into the library's tree: `None` when the text is not
/// JSON. Nothing more is assumed of the parse; every caller handles every
/// tree this may hand back.
pub fn parse_json(s: &str) -> (r: Option<Json>) {
    match parse_value(s) {
        Some(v) => json_from_value(v, MAX_JSON_DEPTH),
        None => None,
    }
}

/// The member of the object `j` named `key`, if `j` is an object that has one.
pub fn get_field<'a>(j: &'a Json, key: &str) -> (r: Option<&'a Json>)
    ensures
        match r {
            Some(v) => json_get(*j, key@) == Some(*v),
            None => json_get(*j, key@) is None,
        },
{
    match j {
        Json::Obj(ms) => obj_lookup(ms, key),
        _ => None,
    }
}

/// The characters of `a` followed by those of `b`, as one new string.
pub fn string_concat(a: &str, b: &str) -> (r: String)
    ensures
        r@ == a@ + b@,
{
    let mut out: String = a.to_owned();
    out.append(b);
    out
}

/// The first value bound to `key` among `ms`, taken out by value; the other
/// members are dropped.
pub fn take_member(ms: Vec<(String, Json)>, key: &str) -> (r: Option<Json>)
    ensures
        r == json_lookup(ms@, key@),
{
    let ghost ms0: Seq<(String, Json)> = ms@;
    let mut rest: Vec<(String, Json)> = ms;
    let mut found: Option<Json> = None;
    proof {
        assert(ms0.skip(ms0.len() as int) =~= Seq::<(String, Json)>::empty());
        assert(rest@ =~= ms0.take(ms0.len() as int));
    }
    while rest.len() > 0
        invariant
            rest@.len() <= ms0.len(),
            rest@ == ms0.take(rest@.len() as int),
            found == json_lookup(ms0.skip(rest@.len() as int), key@),
        decreases rest.len(),
    {
        let ghost i: int = rest@.len() as int;
        proof {
            assert(rest@[i - 1] == ms0[i - 1]);
        }
        let (k, v) = rest.pop().unwrap();
        proof {
            assert(rest@ =~= ms0.take(i - 1));
            assert(ms0.skip(i - 1)[0] == ms0[i - 1]);
            assert(ms0.skip(i - 1).drop_first() =~= ms0.skip(i));
        }
        if str_eq(k.as_str(), key) {
            found = Some(v);
        }
    }
    proof {
        assert(ms0.skip(0) =~= ms0);
    }
    found
}

/// The value bound to `key` when `j` is an object that has one, taken out by
/// value; everything else in `j` is dropped.
pub fn take_field(j: Json, key: &str) -> (r: Option<Json>)
    ensures
        r == json_get(j, key@),
{
    match j {
        Json::Obj(ms) => take_member(ms, key),
        _ => None,
    }
}

/// The decimal digit `d` as a character.
pub open spec fn dec_digit(d: nat) -> char {
    if d == 0 {
        '0'
    } else if d == 1 {
        '1'
    } else if d == 2 {
        '2'
    } else if d == 3 {
        '3'
    } else if d == 4 {
        '4'
    } else if d == 5 {
        '5'
    } else if d == 6 {
        '6'
    } else if d == 7 {
        '7'
    } else if d == 8 {
        '8'
    } else {
        '9'
    }
}

/// The decimal digits of `n`, most significant first, no sign and no
/// leading zero.
pub open spec fn dec_str(n: nat) -> Seq<char>
    decreases n,
{
    if n < 10 {
        seq![dec_digit(n)]
    } else {
        dec_str(n / 10) + seq![dec_digit(n % 10)]
    }
}

/// The hexadecimal digit `d` as a lower-case character.
pub open spec fn hex_digit(d: nat) -> char {
    if d < 10 {
        dec_digit(d)
    } else if d == 10 {
        'a'
    } else if d == 11 {
        'b'
    } else if d == 12 {
        'c'
    } else if d == 13 {
        'd'
    } else if d == 14 {
        'e'
    } else {
        'f'
    }
}

/// How one character is written inside a JSON string literal: quote and
/// backslash get a backslash, the common control characters their short
/// escapes, the remaining control characters a `\u` escape, and every other
/// character stands as itself.
pub open spec fn escape_char(c: char) -> Seq<char> {
    if c == '"' {
        seq!['\\', '"']
    } else if c == '\\' {
        seq!['\\', '\\']
    } else if c == '\n' {
        seq!['\\', 'n']
    } else if c == '\r' {
        seq!['\\', 'r']
    } else if c == '\t' {
        seq!['\\', 't']
    } else if (c as u32) < 32 {
        seq!['\\', 'u', '0', '0', hex_digit((c as u32 / 16) as nat), hex_digit(
            (c as u32 % 16) as nat,
        )]
    } else {
        seq![c]
    }
}

/// The characters of `s` as they are written inside a JSON string literal.
pub open spec fn escape_str(s: Seq<char>) -> Seq<char>
    decreases s.len(),
{
    if s.len() == 0 {
        Seq::empty()
    } else {
        escape_char(s[0]) + escape_str(s.drop_first())
    }
}

/// The text of the document `j`, without any inter-token whitespace.
pub open spec fn json_ser(j: Json) -> Seq<char>
    decreases j, 0nat, 0nat,
{
    match j {
        Json::Null => "null"@,
        Json::Bool(b) => if b {
            "true"@
        } else {
            "false"@
        },
        Json::UInt(n) => dec_str(n as nat),
        Json::OtherNum => "null"@,
        Json::Str(s) => seq!['"'] + escape_str(s@) + seq!['"'],
        Json::Arr(vs) => seq!['['] + ser_elems_from(vs@, 0) + seq![']'],
        Json::Obj(ms) => seq!['{'] + ser_members_from(ms@, 0) + seq!['}'],
    }
}

/// The elements of an array from index `i` on, comma separated.
pub open spec fn ser_elems_from(s: Seq<Json>, i: int) -> Seq<char>
    decreases s, 1nat, s.len() - i,
{
    if i < 0 || i >= s.len() {
        Seq::empty()
    } else if i == s.len() - 1 {
        json_ser(s[i])
    } else {
        json_ser(s[i]) + seq![','] + ser_elems_from(s, i + 1)
    }
}

/// One member of an object: a quoted key, a colon and a value.
pub open spec fn ser_member(m: (String, Json)) -> Seq<char>
    decreases m, 0nat, 0nat,
{
    seq!['"'] + escape_str(m.0@) + seq!['"', ':'] + json_ser(m.1)
}

/// The members of an object from index `i` on, comma separated.
pub open spec fn ser_members_from(s: Seq<(String, Json)>, i: int) -> Seq<char>
    decreases s, 1nat, s.len() - i,
{
    if i < 0 || i >= s.len() {
        Seq::empty()
    } else if i == s.len() - 1 {
        ser_member(s[i])
    } else {
        ser_member(s[i]) + seq![','] + ser_members_from(s, i + 1)
    }
}

/// Relies on std's String::push: appends one character.
#[verifier::external_body]
fn push_char(out: &mut String, c: char)
    ensures
        final(out)@ == old(out)@ + seq![c],
{
    out.push(c);
}

/// Appends the decimal digits of `n`.
fn push_dec(out: &mut String, n: u64)
    ensures
        final(out)@ == old(out)@ + dec_str(n as nat),
    decreases n,
{
    if n >= 10 {
        push_dec(out, n / 10);
    }
    let d: u64 = n % 10;
    let c: char = if d == 0 {
        '0'
    } else if d == 1 {
        '1'
    } else if d == 2 {
        '2'
    } else if d == 3 {
        '3'
    } else if d == 4 {
        '4'
    } else if d == 5 {
        '5'
    } else if d == 6 {
        '6'
    } else if d == 7 {
        '7'
    } else if d == 8 {
        '8'
    } else {
        '9'
    };
    assert(c == dec_digit((n % 10) as nat));
    push_char(out, c);
    proof {
        assert(old(out)@ + dec_str(n as nat) =~= out@);
    }
}

/// Appends one character as it is written inside a JSON string literal.
fn push_escaped_char(out: &mut String, c: char)
    ensures
        final(out)@ == old(out)@ + escape_char(c),
{
    if c == '"' {
        push_char(out, '\\');
        push_char(out, '"');
    } else if c == '\\' {
        push_char(out, '\\');
        push_char(out, '\\');
    } else if c == '\n' {
        push_char(out, '\\');
        push_char(out, 'n');
    } else if c == '\r' {
        push_char(out, '\\');
        push_char(out, 'r');
    } else if c == '\t' {
        push_char(out, '\\');
        push_char(out, 't');
    } else if (c as u32) < 32 {
        let code: u32 = c as u32;
        let hi: u32 = code / 16;
        let lo: u32 = code % 16;
        let hc: char = if hi == 0 {
            '0'
        } else {
            '1'
        };
        let lc: char = if lo == 0 {
            '0'
        } else if lo == 1 {
            '1'
        } else if lo == 2 {
            '2'
        } else if lo == 3 {
            '3'
        } else if lo == 4 {
            '4'
        } else if lo == 5 {
            '5'
        } else if lo == 6 {
            '6'
        } else if lo == 7 {
            '7'
        } else if lo == 8 {
            '8'
        } else if lo == 9 {
            '9'
        } else if lo == 10 {
            'a'
        } else if lo == 11 {
            'b'
        } else if lo == 12 {
            'c'
        } else if lo == 13 {
            'd'
        } else if lo == 14 {
            'e'
        } else {
            'f'
        };
        assert(hc == hex_digit((c as u32 / 16) as nat));
        assert(lc == hex_digit((c as u32 % 16) as nat));
        push_char(out, '\\');
        push_char(out, 'u');
        push_char(out, '0');
        push_char(out, '0');
        push_char(out, hc);
        push_char(out, lc);
    } else {
        push_char(out, c);
    }
    proof {
        assert(out@ =~= old(out)@ + escape_char(c));
    }
}

/// Escaping distributes over appending one character at the end.
proof fn lemma_escape_snoc(t: Seq<char>, c: char)
    ensures
        escape_str(t.push(c)) == escape_str(t) + escape_char(c),
    decreases t.len(),
{
    if t.len() == 0 {
        assert(t.push(c)[0] == c);
        assert(t.push(c).drop_first() =~= Seq::<char>::empty());
        assert(escape_str(t.push(c)) == escape_char(c) + escape_str(Seq::<char>::empty()));
        assert(escape_str(t.push(c)) =~= escape_str(t) + escape_char(c));
    } else {
        let t2 = t.drop_first();
        assert(t.push(c).drop_first() =~= t2.push(c));
        lemma_escape_snoc(t2, c);
        assert(t.push(c)[0] == t[0]);
        assert(escape_str(t.push(c)) == escape_char(t[0]) + escape_str(t2.push(c)));
        assert(escape_str(t) == escape_char(t[0]) + escape_str(t2));
        assert(escape_char(t[0]) + (escape_str(t2) + escape_char(c)) =~= (escape_char(t[0])
            + escape_str(t2)) + escape_char(c));
    }
}

/// Appends the characters of `s` as they are written inside a JSON string
/// literal, without the surrounding quotes.
fn push_escaped(out: &mut String, s: &str)
    ensures
        final(out)@ == old(out)@ + escape_str(s@),
{
    let n: usize = s.unicode_len();
    proof {
        assert(s@.take(0) =~= Seq::<char>::empty());
        assert(out@ =~= out@ + escape_str(s@.take(0)));
    }
    for i in 0..n
        invariant
            n == s@.len(),
            out@ == old(out)@ + escape_str(s@.take(i as int)),
    {
        let c: char = s.get_char(i);
        push_escaped_char(out, c);
        proof {
            assert(s@.take(i as int).push(c) =~= s@.take(i as int + 1));
            lemma_escape_snoc(s@.take(i as int), c);
        }
    }
    proof {
        assert(s@.take(n as int) =~= s@);
    }
}

/// Appends the text of the document `j`.
fn write_json(out: &mut String, j: &Json)
    ensures
        final(out)@ == old(out)@ + json_ser(*j),
    decreases *j, 0nat, 0nat,
{
    match j {
        Json::Null => out.append("null"),
        Json::Bool(b) => if *b {
            out.append("true")
        } else {
            out.append("false")
        },
        Json::UInt(n) => push_dec(out, *n),
        Json::OtherNum => out.append("null"),
        Json::Str(s) => {
            push_char(out, '"');
            push_escaped(out, s.as_str());
            push_char(out, '"');
            proof {
                assert(out@ =~= old(out)@ + json_ser(*j));
            }
        },
        Json::Arr(vs) => {
            push_char(out, '[');
            if vs.len() > 0 {
                write_elems(out, vs, 0);
            }
            push_char(out, ']');
            proof {
                assert(out@ =~= old(out)@ + json_ser(*j));
            }
        },
        Json::Obj(ms) => {
            push_char(out, '{');
            if ms.len() > 0 {
                write_members(out, ms, 0);
            }
            push_char(out, '}');
            proof {
                assert(out@ =~= old(out)@ + json_ser(*j));
            }
        },
    }
}

/// Appends the elements of an array from index `i` on, comma separated.
fn write_elems(out: &mut String, vs: &Vec<Json>, i: usize)
    requires
        i < vs@.len(),
    ensures
        final(out)@ == old(out)@ + ser_elems_from(vs@, i as int),
    decreases *vs, 1nat, vs@.len() - i,
{
    write_json(out, &vs[i]);
    let n: usize = vs.len();
    if i < n - 1 {
        push_char(out, ',');
        write_elems(out, vs, i + 1);
        proof {
            assert(out@ =~= old(out)@ + ser_elems_from(vs@, i as int));
        }
    }
}

/// Appends the members of an object from index `i` on, comma separated.
fn write_members(out: &mut String, ms: &Vec<(String, Json)>, i: usize)
    requires
        i < ms@.len(),
    ensures
        final(out)@ == old(out)@ + ser_members_from(ms@, i as int),
    decreases *ms, 1nat, ms@.len() - i,
{
    push_char(out, '"');
    push_escaped(out, ms[i].0.as_str());
    push_char(out, '"');
    push_char(out, ':');
    write_json(out, &ms[i].1);
    proof {
        assert(out@ =~= old(out)@ + ser_member(ms@[i as int]));
    }
    let n: usize = ms.len();
    if i < n - 1 {
        push_char(out, ',');
        write_members(out, ms, i + 1);
        proof {
            assert(out@ =~= old(out)@ + ser_members_from(ms@, i as int));
        }
    } else {
        proof {
            assert(out@ =~= old(out)@ + ser_members_from(ms@, i as int));
        }
    }
}

/// The characters of `s` as they stand inside a JSON string literal,
/// without the surrounding quotes.
pub fn escape_string(s: &str) -> (r: String)
    ensures
        r@ == escape_str(s@),
{
    let mut out: String = String::new();
    push_escaped(&mut out, s);
    proof {
        assert(out@ =~= escape_str(s@));
    }
    out
}

/// The decimal text of `n`.
pub fn u64_to_string(n: u64) -> (r: String)
    ensures
        r@ == dec_str(n as nat),
{
    let mut out: String = String::new();
    push_dec(&mut out, n);
    proof {
        assert(out@ =~= dec_str(n as nat));
    }
    out
}

/// The text of the document `j`, as `json_ser` describes it.
pub fn to_json_text(j: &Json) -> (r: String)
    ensures
        r@ == json_ser(*j),
{
    let mut out: String = String::new();
    write_json(&mut out, j);
    proof {
        assert(out@ =~= json_ser(*j));
    }
    out
}

} // verus!
