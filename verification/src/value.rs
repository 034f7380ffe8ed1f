//! Payload values: the closed tagged union every packet element belongs to,
//! and the typed, panic-free accessors over it.
//!
//! Accessors never fail on a type mismatch or an out-of-range index: each
//! returns a defined zero or empty default, so that malformed or
//! newer-than-expected payloads degrade a single message instead of the
//! connection.

use vstd::prelude::*;

verus! {

/// One decoded payload value.
#[derive(Debug)]
pub enum Value {
    /// A signed integer scalar.
    Integer(i64),
    /// A text scalar.
    Text(String),
    /// An already-decoded binary blob.
    Bytes(Vec<u8>),
    /// An ordered sequence of values.
    Sequence(Vec<Value>),
    /// An ordered list of key/value pairs.
    Mapping(Vec<(Value, Value)>),
    /// An absent or untyped value.
    Null,
}

/// The element of a sequence at `i`, or `Null` when `i` is out of range.
pub open spec fn spec_elem(main: Seq<Value>, i: int) -> Value {
    if 0 <= i < main.len() {
        main[i]
    } else {
        Value::Null
    }
}

/// The value of the first pair of `pairs` whose key is the text `key`.
pub open spec fn spec_lookup(pairs: Seq<(Value, Value)>, key: Seq<char>) -> Option<Value>
    decreases pairs.len(),
{
    if pairs.len() == 0 {
        None
    } else if pairs[0].0 matches Value::Text(k) && k@ == key {
        Some(pairs[0].1)
    } else {
        spec_lookup(pairs.drop_first(), key)
    }
}

/// `text` with every newline character removed.
pub open spec fn spec_strip_newlines(s: Seq<char>) -> Seq<char>
    decreases s.len(),
{
    if s.len() == 0 {
        Seq::empty()
    } else if s[0] == '\n' {
        spec_strip_newlines(s.drop_first())
    } else {
        seq![s[0]] + spec_strip_newlines(s.drop_first())
    }
}

proof fn lemma_strip_newlines_push(s: Seq<char>, c: char)
    ensures
        spec_strip_newlines(s.push(c)) == spec_strip_newlines(s) + (if c == '\n' {
            Seq::<char>::empty()
        } else {
            seq![c]
        }),
    decreases s.len(),
{
    let tail = if c == '\n' {
        Seq::<char>::empty()
    } else {
        seq![c]
    };
    if s.len() == 0 {
        assert(s.push(c) =~= seq![c]);
        assert(seq![c].drop_first() =~= Seq::<char>::empty());
        assert(spec_strip_newlines(Seq::<char>::empty()) == Seq::<char>::empty());
        assert(spec_strip_newlines(s) + tail =~= tail);
        if c != '\n' {
            assert(seq![c] + Seq::<char>::empty() =~= seq![c]);
        }
    } else {
        assert(s.push(c).drop_first() =~= s.drop_first().push(c));
        lemma_strip_newlines_push(s.drop_first(), c);
        if s[0] != '\n' {
            assert(seq![s[0]] + (spec_strip_newlines(s.drop_first()) + tail) =~= (seq![s[0]]
                + spec_strip_newlines(s.drop_first())) + tail);
        }
    }
}

/// What base64 decoding of a text yields: the decoded bytes, or nothing when
/// the text is not valid base64.  The outcome depends on the text alone.
pub uninterp spec fn b64_decoded_of(s: Seq<char>) -> Option<Seq<u8>>;

/// Relies on base64's standard-alphabet engine (`Engine::decode` of
/// `general_purpose::STANDARD`): decoding is a function of the input text
/// alone, succeeding exactly on well-formed padded base64.
#[verifier::external_body]
fn base64_decode(s: &str) -> (r: Option<Vec<u8>>)
    ensures
        r matches Some(b) ==> b64_decoded_of(s@) == Some(b@),
        r is None <==> b64_decoded_of(s@) is None,
{
    base64::Engine::decode(&base64::engine::general_purpose::STANDARD, s).ok()
}

/// Relies on `String::push`: appends exactly one character.
#[verifier::external_body]
pub fn push_char(s: &mut String, c: char)
    ensures
        final(s)@ == old(s)@ + seq![c],
{
    s.push(c);
}

/// Compares two text slices character by character.
pub fn str_eq(a: &str, b: &str) -> (r: bool)
    ensures
        r <==> a@ == b@,
{
    let an = a.unicode_len();
    let bn = b.unicode_len();
    if an != bn {
        assert(a@ != b@);
        return false;
    }
    let mut i: usize = 0;
    while i < an
        invariant
            an == a@.len(),
            an == b@.len(),
            i <= an,
            forall|j: int| 0 <= j < i ==> a@[j] == b@[j],
        decreases an - i,
    {
        if a.get_char(i) != b.get_char(i) {
            return false;
        }
        i += 1;
    }
    proof {
        assert(a@ =~= b@);
    }
    true
}

/// Returns `text` with every newline removed, as base64 blobs arrive split
/// across lines.
pub fn strip_newlines(s: &str) -> (r: String)
    ensures
        r@ == spec_strip_newlines(s@),
{
    let n = s.unicode_len();
    let mut out = String::new();
    let mut i: usize = 0;
    while i < n
        invariant
            n == s@.len(),
            i <= n,
            out@ == spec_strip_newlines(s@.subrange(0, i as int)),
        decreases n - i,
    {
        let c = s.get_char(i);
        if c != '\n' {
            push_char(&mut out, c);
        }
        i += 1;
        proof {
            lemma_strip_newlines_push(s@.subrange(0, i - 1), s@[i - 1]);
            assert(s@.subrange(0, i as int) =~= s@.subrange(0, i - 1).push(s@[i - 1]));
        }
    }
    proof {
        assert(s@.subrange(0, n as int) =~= s@);
    }
    out
}

/// The integer a value holds, truncated to 32 bits; `0` on any other shape.
pub fn yaml_i32(value: &Value) -> (r: i32)
    ensures
        r == (match value {
            Value::Integer(i) => *i as i32,
            _ => 0i32,
        }),
{
    match value {
        Value::Integer(i) => #[verifier::truncate] (*i as i32),
        _ => 0,
    }
}

/// The integer a value holds; `0` on any other shape.
pub fn yaml_i64(value: &Value) -> (r: i64)
    ensures
        r == (match value {
            Value::Integer(i) => *i,
            _ => 0i64,
        }),
{
    match value {
        Value::Integer(i) => *i,
        _ => 0,
    }
}

/// The text a value holds; empty on any other shape.
pub fn yaml_str(value: &Value) -> (r: String)
    ensures
        r@ == (match value {
            Value::Text(s) => s@,
            _ => Seq::<char>::empty(),
        }),
{
    match value {
        Value::Text(s) => s.clone(),
        _ => String::new(),
    }
}

/// The binary blob a text value encodes: newlines are stripped, then the
/// text is base64-decoded.  Empty on a decode failure or any other shape.
pub fn yaml_bytes(value: &Value) -> (r: Vec<u8>)
    ensures
        r@ == (match value {
            Value::Text(s) => (match b64_decoded_of(spec_strip_newlines(s@)) {
                Some(b) => b,
                None => Seq::<u8>::empty(),
            }),
            _ => Seq::<u8>::empty(),
        }),
{
    match value {
        Value::Text(s) => {
            let stripped = strip_newlines(s.as_str());
            match base64_decode(stripped.as_str()) {
                Some(b) => b,
                None => Vec::new(),
            }
        },
        _ => Vec::new(),
    }
}

/// The text under `key` in a mapping value; empty when the value is no
/// mapping, the key is absent, or the entry is no text.
pub fn yaml_hash_str(value: &Value, key: String) -> (r: String)
    ensures
        r@ == (match value {
            Value::Mapping(pairs) => (match spec_lookup(pairs@, key@) {
                Some(Value::Text(s)) => s@,
                _ => Seq::<char>::empty(),
            }),
            _ => Seq::<char>::empty(),
        }),
{
    match value {
        Value::Mapping(pairs) => {
            match mapping_get(pairs, key.as_str()) {
                Some(Value::Text(s)) => s.clone(),
                _ => String::new(),
            }
        },
        _ => String::new(),
    }
}

/// The integer under `key` in a mapping value, truncated to 32 bits; `0`
/// when the value is no mapping, the key is absent, or the entry is no
/// integer.
pub fn yaml_hash_i32(value: &Value, key: String) -> (r: i32)
    ensures
        r == (match value {
            Value::Mapping(pairs) => (match spec_lookup(pairs@, key@) {
                Some(Value::Integer(i)) => i as i32,
                _ => 0i32,
            }),
            _ => 0i32,
        }),
{
    match value {
        Value::Mapping(pairs) => {
            match mapping_get(pairs, key.as_str()) {
                Some(Value::Integer(i)) => #[verifier::truncate] (*i as i32),
                _ => 0,
            }
        },
        _ => 0,
    }
}

/// The value of the first pair whose key is the text `key`, if any.
pub fn mapping_get<'a>(pairs: &'a Vec<(Value, Value)>, key: &str) -> (r: Option<&'a Value>)
    ensures
        r matches Some(v) ==> spec_lookup(pairs@, key@) == Some(*v),
        r is None <==> spec_lookup(pairs@, key@) is None,
{
    let mut i: usize = 0;
    proof {
        assert(pairs@.skip(0) =~= pairs@);
    }
    while i < pairs.len()
        invariant
            i <= pairs@.len(),
            spec_lookup(pairs@, key@) == spec_lookup(pairs@.skip(i as int), key@),
        decreases pairs@.len() - i,
    {
        proof {
            assert(pairs@.skip(i as int).drop_first() =~= pairs@.skip(i + 1));
        }
        match &pairs[i].0 {
            Value::Text(k) => {
                if str_eq(k.as_str(), key) {
                    assert(pairs@.skip(i as int)[0] == pairs@[i as int]);
                    return Some(&pairs[i].1);
                }
            },
            _ => {},
        }
        i += 1;
    }
    proof {
        assert(pairs@.skip(pairs@.len() as int) =~= Seq::<(Value, Value)>::empty());
    }
    None
}

} // verus!
