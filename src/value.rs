//! Binary encoding of the supported SQL value types.
use vstd::prelude::*;
use crate::error::Error;

verus! {

/// The supported SQL types.
#[derive(Clone, Copy, PartialEq, Eq, Structural, Debug)]
pub enum Type {
    Bool,
    Int4,
    Int8,
    Bytea,
}

/// A value of one of the supported types.
#[derive(Debug)]
pub enum Value {
    Bool(bool),
    Int4(i32),
    Int8(i64),
    Bytea(Vec<u8>),
}

/// What a `Value` holds.
pub enum ValueView {
    Bool(bool),
    Int4(i32),
    Int8(i64),
    Bytea(Seq<u8>),
}

impl View for Value {
    type V = ValueView;

    open spec fn view(&self) -> ValueView {
        match self {
            Value::Bool(b) => ValueView::Bool(*b),
            Value::Int4(x) => ValueView::Int4(*x),
            Value::Int8(x) => ValueView::Int8(*x),
            Value::Bytea(v) => ValueView::Bytea(v@),
        }
    }
}

/// The object id of each type in the server's catalog.
pub open spec fn type_oid(t: Type) -> u32 {
    match t {
        Type::Bool => 16,
        Type::Int8 => 20,
        Type::Int4 => 23,
        Type::Bytea => 17,
    }
}

pub open spec fn type_of(v: ValueView) -> Type {
    match v {
        ValueView::Bool(_) => Type::Bool,
        ValueView::Int4(_) => Type::Int4,
        ValueView::Int8(_) => Type::Int8,
        ValueView::Bytea(_) => Type::Bytea,
    }
}

/// `u` as 4 bytes, most significant first.
pub open spec fn be4(u: u32) -> Seq<u8> {
    seq![(u >> 24) as u8, (u >> 16) as u8, (u >> 8) as u8, u as u8]
}

/// `u` as 8 bytes, most significant first.
pub open spec fn be8(u: u64) -> Seq<u8> {
    seq![(u >> 56) as u8, (u >> 48) as u8, (u >> 40) as u8, (u >> 32) as u8,
        (u >> 24) as u8, (u >> 16) as u8, (u >> 8) as u8, u as u8]
}

/// The number that 4 bytes spell, most significant first.
pub open spec fn from_be4(b: Seq<u8>) -> u32 {
    ((b[0] as u32) << 24) | ((b[1] as u32) << 16) | ((b[2] as u32) << 8) | (b[3] as u32)
}

/// The number that 8 bytes spell, most significant first.
pub open spec fn from_be8(b: Seq<u8>) -> u64 {
    ((b[0] as u64) << 56) | ((b[1] as u64) << 48) | ((b[2] as u64) << 40) | ((b[3] as u64) << 32)
        | ((b[4] as u64) << 24) | ((b[5] as u64) << 16) | ((b[6] as u64) << 8) | (b[7] as u64)
}

/// The two's-complement bits of `x`.
pub open spec fn bits32(x: i32) -> u32 {
    #[verifier::truncate] (x as u32)
}

pub open spec fn bits64(x: i64) -> u64 {
    #[verifier::truncate] (x as u64)
}

/// The signed number whose two's-complement bits are `u`.
pub open spec fn signed32(u: u32) -> i32 {
    #[verifier::truncate] (u as i32)
}

pub open spec fn signed64(u: u64) -> i64 {
    #[verifier::truncate] (u as i64)
}

/// The binary encoding of a value.
pub open spec fn encode(v: ValueView) -> Seq<u8> {
    match v {
        ValueView::Bool(b) => seq![if b { 1u8 } else { 0u8 }],
        ValueView::Int4(x) => be4(bits32(x)),
        ValueView::Int8(x) => be8(bits64(x)),
        ValueView::Bytea(s) => s,
    }
}

/// The value of type `t` that the bytes `b` encode, if they encode one.
pub open spec fn decode(b: Seq<u8>, t: Type) -> Option<ValueView> {
    match t {
        Type::Bool => if b.len() == 1 { Some(ValueView::Bool(b[0] != 0)) } else { None },
        Type::Int4 => if b.len() == 4 { Some(ValueView::Int4(signed32(from_be4(b)))) } else { None },
        Type::Int8 => if b.len() == 8 { Some(ValueView::Int8(signed64(from_be8(b)))) } else { None },
        Type::Bytea => Some(ValueView::Bytea(b)),
    }
}

proof fn lemma_be4(u: u32)
    ensures
        from_be4(be4(u)) == u,
{
    let b = be4(u);
    let (b0, b1, b2, b3) = ((u >> 24) as u8, (u >> 16) as u8, (u >> 8) as u8, u as u8);
    assert(b[0] == b0 && b[1] == b1 && b[2] == b2 && b[3] == b3);
    assert(((b0 as u32) << 24) | ((b1 as u32) << 16) | ((b2 as u32) << 8) | (b3 as u32) == u) by (bit_vector)
        requires
            b0 == (u >> 24) as u8,
            b1 == (u >> 16) as u8,
            b2 == (u >> 8) as u8,
            b3 == u as u8,
    ;
}

proof fn lemma_be8(u: u64)
    ensures
        from_be8(be8(u)) == u,
{
    let b = be8(u);
    let (b0, b1, b2, b3) = ((u >> 56) as u8, (u >> 48) as u8, (u >> 40) as u8, (u >> 32) as u8);
    let (b4, b5, b6, b7) = ((u >> 24) as u8, (u >> 16) as u8, (u >> 8) as u8, u as u8);
    assert(b[0] == b0 && b[1] == b1 && b[2] == b2 && b[3] == b3);
    assert(b[4] == b4 && b[5] == b5 && b[6] == b6 && b[7] == b7);
    assert(((b0 as u64) << 56) | ((b1 as u64) << 48) | ((b2 as u64) << 40) | ((b3 as u64) << 32)
        | ((b4 as u64) << 24) | ((b5 as u64) << 16) | ((b6 as u64) << 8) | (b7 as u64) == u) by (bit_vector)
        requires
            b0 == (u >> 56) as u8,
            b1 == (u >> 48) as u8,
            b2 == (u >> 40) as u8,
            b3 == (u >> 32) as u8,
            b4 == (u >> 24) as u8,
            b5 == (u >> 16) as u8,
            b6 == (u >> 8) as u8,
            b7 == u as u8,
    ;
}

impl Type {
    /// The type's object id.
    pub fn oid(&self) -> (r: u32)
        ensures
            r == type_oid(*self),
    {
        match self {
            Type::Bool => 16,
            Type::Int8 => 20,
            Type::Int4 => 23,
            Type::Bytea => 17,
        }
    }
}

fn copy_bytes(b: &[u8]) -> (r: Vec<u8>)
    ensures
        r@ == b@,
{
    let mut r: Vec<u8> = Vec::new();
    let mut i: usize = 0;
    while i < b.len()
        invariant
            i <= b@.len(),
            r@ == b@.take(i as int),
        decreases b@.len() - i,
    {
        r.push(b[i]);
        proof {
            assert(b@.take(i + 1) =~= b@.take(i as int).push(b@[i as int]));
        }
        i = i + 1;
    }
    proof {
        assert(b@.take(i as int) =~= b@);
    }
    r
}

/// Encodes a value for a bind parameter.
pub fn serialize(v: &Value) -> (r: Vec<u8>)
    ensures
        r@ == encode(v@),
{
    let mut r: Vec<u8> = Vec::new();
    match v {
        Value::Bool(b) => {
            r.push(if *b { 1u8 } else { 0u8 });
        },
        Value::Int4(x) => {
            let u = *x as u32;
            assert(u == bits32(*x));
            r.push((u >> 24) as u8);
            r.push((u >> 16) as u8);
            r.push((u >> 8) as u8);
            r.push(u as u8);
        },
        Value::Int8(x) => {
            let u = *x as u64;
            assert(u == bits64(*x));
            r.push((u >> 56) as u8);
            r.push((u >> 48) as u8);
            r.push((u >> 40) as u8);
            r.push((u >> 32) as u8);
            r.push((u >> 24) as u8);
            r.push((u >> 16) as u8);
            r.push((u >> 8) as u8);
            r.push(u as u8);
        },
        Value::Bytea(bytes) => {
            r = copy_bytes(bytes.as_slice());
        },
    }
    proof {
        assert(r@ =~= encode(v@));
    }
    r
}

/// Decodes the bytes of a column value of type `t`.
pub fn deserialize(b: &[u8], t: Type) -> (r: Result<Value, Error>)
    ensures
        match r {
            Ok(v) => decode(b@, t) == Some(v@),
            Err(e) => decode(b@, t) is None && e is InvalidValue,
        },
{
    match t {
        Type::Bool => {
            if b.len() != 1 {
                return Err(Error::InvalidValue);
            }
            Ok(Value::Bool(b[0] != 0))
        },
        Type::Int4 => {
            if b.len() != 4 {
                return Err(Error::InvalidValue);
            }
            let u: u32 = ((b[0] as u32) << 24) | ((b[1] as u32) << 16) | ((b[2] as u32) << 8) | (b[3] as u32);
            let x = u as i32;
            assert(x == signed32(u));
            Ok(Value::Int4(x))
        },
        Type::Int8 => {
            if b.len() != 8 {
                return Err(Error::InvalidValue);
            }
            let u: u64 = ((b[0] as u64) << 56) | ((b[1] as u64) << 48) | ((b[2] as u64) << 40)
                | ((b[3] as u64) << 32) | ((b[4] as u64) << 24) | ((b[5] as u64) << 16)
                | ((b[6] as u64) << 8) | (b[7] as u64);
            let x = u as i64;
            assert(x == signed64(u));
            Ok(Value::Int8(x))
        },
        Type::Bytea => Ok(Value::Bytea(copy_bytes(b))),
    }
}

/// Decoding the encoding of a value, as its own type, gives the value back.
pub proof fn lemma_round_trip(v: ValueView)
    ensures
        decode(encode(v), type_of(v)) == Some(v),
{
    match v {
        ValueView::Int4(x) => {
            lemma_be4(bits32(x));
            assert(signed32(bits32(x)) == x) by (bit_vector);
        },
        ValueView::Int8(x) => {
            lemma_be8(bits64(x));
            assert(signed64(bits64(x)) == x) by (bit_vector);
        },
        _ => {},
    }
}

} // verus!
