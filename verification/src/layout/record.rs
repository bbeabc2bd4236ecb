//! The encoding of a whole record: a discriminator that names the type,
//! then the fields.

use crate::address::Address;
use crate::digest::{sha256, sha256_digest};
use crate::layout::fields::{
    decode_fields, encode_fields, fields_bytes, fits_all, kinds_match, lemma_fields_unique,
    lemma_fields_width, max_fields_width, views,
};
use crate::layout::wire::{holds_at, Kind, LayoutError, Value, ValueView};
use crate::text::text_bytes;
use vstd::prelude::*;
use vstd::string::*;
use vstd::utf8::*;

verus! {

/// Number of bytes in a discriminator.
pub const DISCRIMINATOR_LEN: usize = 8;

/// The discriminator of the record type called `name`: the first eight bytes
/// of the digest of `account:` followed by the name.
pub open spec fn discriminator(name: Seq<char>) -> Seq<u8> {
    Seq::new(8, |i: int| sha256(encode_utf8("account:"@ + name))[i])
}

/// Computes [`discriminator`].
pub fn discriminator_of(name: &str) -> (d: Vec<u8>)
    ensures
        d@ == discriminator(name@),
        d@.len() == 8,
{
    let tagged = String::from_str("account:").concat(name);
    let digest = sha256_digest(&text_bytes(tagged.as_str()));
    let mut d: Vec<u8> = Vec::new();
    let mut i: usize = 0;
    while i < 8
        invariant
            i <= 8,
            digest@.len() == 32,
            d@ == digest@.subrange(0, i as int),
        decreases 8 - i,
    {
        d.push(digest[i]);
        assert(d@ =~= digest@.subrange(0, i + 1));
        i += 1;
    }
    assert(d@ =~= discriminator(name@));
    d
}

/// A type of record with a fixed list of fields.
pub trait Record: View + Sized {
    /// The name that the discriminator is derived from.
    spec fn label() -> Seq<char>;

    /// The kinds of the fields, in order.
    spec fn schema() -> Seq<Kind>;

    /// The values of the fields of a record, in order.
    spec fn values(v: Self::V) -> Seq<ValueView>;

    /// The bytes reserved for a stored record of this type.
    spec fn max_size() -> nat;

    /// A record is its fields and nothing else.
    proof fn lemma_values_injective(a: Self::V, b: Self::V)
        requires
            Self::values(a) == Self::values(b),
        ensures
            a == b,
    ;

    /// The reserved size is the discriminator and every field at its widest.
    proof fn lemma_max_size()
        ensures
            DISCRIMINATOR_LEN + max_fields_width(Self::schema()) == Self::max_size(),
    ;

    /// The name that the discriminator is derived from.
    fn name() -> (n: &'static str)
        ensures
            n@ == Self::label(),
    ;

    /// The kinds of the fields, in order.
    fn fields() -> (s: Vec<Kind>)
        ensures
            s@ == Self::schema(),
    ;

    /// The values of the fields of this record, in order.
    fn to_values(&self) -> (vs: Vec<Value>)
        ensures
            views(vs@) == Self::values(self@),
    ;

    /// The record with these fields.
    fn from_values(vs: Vec<Value>) -> (r: Self)
        requires
            fits_all(Self::schema(), views(vs@)),
        ensures
            Self::values(r@) == views(vs@),
    ;
}

/// The bytes of the record of type `R` with view `v`.
pub open spec fn record_bytes<R: Record>(v: R::V) -> Seq<u8> {
    discriminator(R::label()) + fields_bytes(R::values(v))
}

/// Whether every text of the record is within the width of its field.
pub open spec fn encodable<R: Record>(v: R::V) -> bool {
    fits_all(R::schema(), R::values(v))
}

/// Whether `bytes` start with the encoding of the record with view `v`.
/// What follows the record, such as padding up to the reserved size, does
/// not matter.
pub open spec fn decodes_to<R: Record>(bytes: Seq<u8>, v: R::V) -> bool {
    encodable::<R>(v) && record_bytes::<R>(v).is_prefix_of(bytes)
}

/// The bytes of `record`. A text wider than its field is too long.
pub fn encode<R: Record>(record: &R) -> (r: Result<Vec<u8>, LayoutError>)
    ensures
        match r {
            Ok(bytes) => encodable::<R>(record@) && bytes@ == record_bytes::<R>(record@),
            Err(e) => !encodable::<R>(record@) && e == if kinds_match(
                R::schema(),
                R::values(record@),
            ) {
                LayoutError::FieldTooLong
            } else {
                LayoutError::SchemaMismatch
            },
        },
{
    let schema = R::fields();
    let values = record.to_values();
    let mut payload = encode_fields(&schema, &values)?;
    let mut bytes = discriminator_of(R::name());
    bytes.append(&mut payload);
    Ok(bytes)
}

/// The record that `bytes` start with. Bytes that start with no record of
/// type `R` are corrupt.
pub fn decode<R: Record>(bytes: &[u8]) -> (r: Result<R, LayoutError>)
    ensures
        match r {
            Ok(record) => decodes_to::<R>(bytes@, record@),
            Err(e) => e == LayoutError::CorruptRecord && forall|v: R::V|
                !#[trigger] decodes_to::<R>(bytes@, v),
        },
{
    let expected = discriminator_of(R::name());
    let schema = R::fields();
    proof {
        assert forall|v: R::V| #[trigger] decodes_to::<R>(bytes@, v) implies bytes@.len() >= 8
            && bytes@.subrange(0, 8) == expected@ && holds_at(
            bytes@,
            8,
            fields_bytes(R::values(v)),
        ) by {
            lemma_record_split::<R>(bytes@, v);
        }
    }
    if bytes.len() < 8 {
        return Err(LayoutError::CorruptRecord);
    }
    let mut i: usize = 0;
    while i < 8
        invariant
            i <= 8,
            bytes@.len() >= 8,
            expected@.len() == 8,
            forall|j: int| 0 <= j < i ==> bytes@[j] == expected@[j],
            forall|v: R::V| #[trigger]
                decodes_to::<R>(bytes@, v) ==> bytes@.subrange(0, 8) == expected@,
        decreases 8 - i,
    {
        if bytes[i] != expected[i] {
            proof {
                assert forall|v: R::V| !#[trigger] decodes_to::<R>(bytes@, v) by {
                    if decodes_to::<R>(bytes@, v) {
                        assert(bytes@.subrange(0, 8)[i as int] == expected@[i as int]);
                    }
                }
            }
            return Err(LayoutError::CorruptRecord);
        }
        i += 1;
    }
    assert(bytes@.subrange(0, 8) =~= expected@);
    match decode_fields(&schema, bytes, 8) {
        Some((values, end)) => {
            let ghost read = views(values@);
            let record = R::from_values(values);
            proof {
                let whole = record_bytes::<R>(record@);
                assert(whole =~= bytes@.subrange(0, end as int));
            }
            Ok(record)
        },
        None => Err(LayoutError::CorruptRecord),
    }
}

/// Bytes that start with a record start with its discriminator, and its
/// fields follow at once.
pub proof fn lemma_record_split<R: Record>(bytes: Seq<u8>, v: R::V)
    requires
        decodes_to::<R>(bytes, v),
    ensures
        bytes.len() >= 8,
        bytes.subrange(0, 8) == discriminator(R::label()),
        holds_at(bytes, 8, fields_bytes(R::values(v))),
{
    let d = discriminator(R::label());
    let f = fields_bytes(R::values(v));
    let whole = record_bytes::<R>(v);
    assert(d.len() == 8);
    assert(whole =~= bytes.subrange(0, whole.len() as int));
    assert(bytes.subrange(0, 8) =~= d) by {
        assert forall|j: int| 0 <= j < 8 implies bytes.subrange(0, 8)[j] == d[j] by {
            assert(whole[j] == d[j]);
        }
    }
    assert(f =~= bytes.skip(8).subrange(0, f.len() as int)) by {
        assert forall|j: int| 0 <= j < f.len() implies f[j] == bytes.skip(8).subrange(
            0,
            f.len() as int,
        )[j] by {
            assert(whole[8 + j] == f[j]);
        }
    }
}

/// Bytes start with at most one record of a type: decoding has one answer.
pub proof fn law_decoding_is_unique<R: Record>(bytes: Seq<u8>, a: R::V, b: R::V)
    requires
        decodes_to::<R>(bytes, a),
        decodes_to::<R>(bytes, b),
    ensures
        a == b,
{
    lemma_record_split::<R>(bytes, a);
    lemma_record_split::<R>(bytes, b);
    lemma_fields_unique(R::schema(), bytes, 8, R::values(a), R::values(b));
    R::lemma_values_injective(a, b);
}

/// The bytes of a record, followed by anything, decode to that record and
/// to no other.
pub proof fn law_round_trip<R: Record>(v: R::V, padding: Seq<u8>, other: R::V)
    requires
        encodable::<R>(v),
    ensures
        decodes_to::<R>(record_bytes::<R>(v) + padding, v),
        decodes_to::<R>(record_bytes::<R>(v) + padding, other) ==> other == v,
{
    let bytes = record_bytes::<R>(v) + padding;
    assert(record_bytes::<R>(v) =~= bytes.subrange(0, record_bytes::<R>(v).len() as int));
    if decodes_to::<R>(bytes, other) {
        law_decoding_is_unique::<R>(bytes, other, v);
    }
}

/// An encodable record takes no more bytes than its type reserves.
pub proof fn law_record_size<R: Record>(v: R::V)
    requires
        encodable::<R>(v),
    ensures
        record_bytes::<R>(v).len() <= R::max_size(),
{
    lemma_fields_width(R::schema(), R::values(v));
    R::lemma_max_size();
}

/// The `u8` in field `i`.
pub fn u8_field(vs: &Vec<Value>, i: usize) -> (x: u8)
    requires
        i < vs@.len(),
        vs@[i as int]@ is U8,
    ensures
        ValueView::U8(x) == vs@[i as int]@,
{
    match &vs[i] {
        Value::U8(x) => *x,
        _ => 0,
    }
}

/// The `bool` in field `i`.
pub fn bool_field(vs: &Vec<Value>, i: usize) -> (x: bool)
    requires
        i < vs@.len(),
        vs@[i as int]@ is Bool,
    ensures
        ValueView::Bool(x) == vs@[i as int]@,
{
    match &vs[i] {
        Value::Bool(x) => *x,
        _ => false,
    }
}

/// The `u32` in field `i`.
pub fn u32_field(vs: &Vec<Value>, i: usize) -> (x: u32)
    requires
        i < vs@.len(),
        vs@[i as int]@ is U32,
    ensures
        ValueView::U32(x) == vs@[i as int]@,
{
    match &vs[i] {
        Value::U32(x) => *x,
        _ => 0,
    }
}

/// The `u64` in field `i`.
pub fn u64_field(vs: &Vec<Value>, i: usize) -> (x: u64)
    requires
        i < vs@.len(),
        vs@[i as int]@ is U64,
    ensures
        ValueView::U64(x) == vs@[i as int]@,
{
    match &vs[i] {
        Value::U64(x) => *x,
        _ => 0,
    }
}

/// The `i64` in field `i`.
pub fn i64_field(vs: &Vec<Value>, i: usize) -> (x: i64)
    requires
        i < vs@.len(),
        vs@[i as int]@ is I64,
    ensures
        ValueView::I64(x) == vs@[i as int]@,
{
    match &vs[i] {
        Value::I64(x) => *x,
        _ => 0,
    }
}

/// The address in field `i`.
pub fn address_field(vs: &Vec<Value>, i: usize) -> (x: Address)
    requires
        i < vs@.len(),
        vs@[i as int]@ is Address,
    ensures
        ValueView::Address(x) == vs@[i as int]@,
{
    match &vs[i] {
        Value::Address(x) => *x,
        _ => Address::new([0u8; 32]),
    }
}

/// The text in field `i`.
pub fn text_field(vs: &Vec<Value>, i: usize) -> (x: String)
    requires
        i < vs@.len(),
        vs@[i as int]@ is Text,
    ensures
        ValueView::Text(x@) == vs@[i as int]@,
{
    match &vs[i] {
        Value::Text(x) => x.clone(),
        _ => String::new(),
    }
}

/// The optional address in field `i`.
pub fn optional_address_field(vs: &Vec<Value>, i: usize) -> (x: Option<Address>)
    requires
        i < vs@.len(),
        vs@[i as int]@ is OptionalAddress,
    ensures
        ValueView::OptionalAddress(x) == vs@[i as int]@,
{
    match &vs[i] {
        Value::OptionalAddress(x) => *x,
        _ => None,
    }
}

} // verus!
