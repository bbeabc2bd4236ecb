//! The encoding of a single field.

use crate::address::{lemma_address_of_bytes, Address};
use crate::text::{byte_len, string_from_utf8, text_bytes, text_len};
use vstd::bytes::*;
use vstd::prelude::*;
use vstd::slice::*;
use vstd::string::*;
use vstd::utf8::*;

verus! {

/// Why bytes and record do not correspond.
#[derive(Clone, Copy, Debug, PartialEq, Eq, Structural)]
pub enum LayoutError {
    /// A text of the record exceeds the width of its field.
    FieldTooLong,
    /// The bytes do not start with a record of the expected type.
    CorruptRecord,
    /// The values given are not those the field list asks for.
    SchemaMismatch,
}

/// What a field holds and, for a text, how wide it may be in bytes.
#[derive(Clone, Copy, Debug, PartialEq, Eq, Structural)]
pub enum Kind {
    U8,
    Bool,
    U32,
    U64,
    I64,
    Address,
    Text { max: u32 },
    OptionalAddress,
}

/// The value of one field.
#[derive(Clone, Debug, PartialEq, Eq)]
pub enum Value {
    U8(u8),
    Bool(bool),
    U32(u32),
    U64(u64),
    I64(i64),
    Address(Address),
    Text(String),
    OptionalAddress(Option<Address>),
}

/// The value of one field, with a text as a character sequence.
pub enum ValueView {
    U8(u8),
    Bool(bool),
    U32(u32),
    U64(u64),
    I64(i64),
    Address(Address),
    Text(Seq<char>),
    OptionalAddress(Option<Address>),
}

impl View for Value {
    type V = ValueView;

    open spec fn view(&self) -> ValueView {
        match self {
            Value::U8(x) => ValueView::U8(*x),
            Value::Bool(x) => ValueView::Bool(*x),
            Value::U32(x) => ValueView::U32(*x),
            Value::U64(x) => ValueView::U64(*x),
            Value::I64(x) => ValueView::I64(*x),
            Value::Address(x) => ValueView::Address(*x),
            Value::Text(x) => ValueView::Text(x@),
            Value::OptionalAddress(x) => ValueView::OptionalAddress(*x),
        }
    }
}

/// The bytes of a value.
pub open spec fn value_bytes(v: ValueView) -> Seq<u8> {
    match v {
        ValueView::U8(x) => seq![x],
        ValueView::Bool(x) => seq![if x { 1u8 } else { 0u8 }],
        ValueView::U32(x) => spec_u32_to_le_bytes(x),
        ValueView::U64(x) => spec_u64_to_le_bytes(x),
        ValueView::I64(x) => spec_u64_to_le_bytes(x as u64),
        ValueView::Address(x) => x@,
        ValueView::Text(x) => spec_u32_to_le_bytes(byte_len(x) as u32) + encode_utf8(x),
        ValueView::OptionalAddress(x) => match x {
            None => seq![0u8],
            Some(a) => seq![1u8] + a@,
        },
    }
}

/// Whether a value is of the kind a field asks for and, if a text, within
/// the field's width.
pub open spec fn fits(kind: Kind, v: ValueView) -> bool {
    match (kind, v) {
        (Kind::U8, ValueView::U8(_)) => true,
        (Kind::Bool, ValueView::Bool(_)) => true,
        (Kind::U32, ValueView::U32(_)) => true,
        (Kind::U64, ValueView::U64(_)) => true,
        (Kind::I64, ValueView::I64(_)) => true,
        (Kind::Address, ValueView::Address(_)) => true,
        (Kind::Text { max }, ValueView::Text(x)) => byte_len(x) <= max,
        (Kind::OptionalAddress, ValueView::OptionalAddress(_)) => true,
        _ => false,
    }
}

/// Whether a value is of the kind a field asks for, whatever its length.
pub open spec fn same_kind(kind: Kind, v: ValueView) -> bool {
    match (kind, v) {
        (Kind::U8, ValueView::U8(_)) => true,
        (Kind::Bool, ValueView::Bool(_)) => true,
        (Kind::U32, ValueView::U32(_)) => true,
        (Kind::U64, ValueView::U64(_)) => true,
        (Kind::I64, ValueView::I64(_)) => true,
        (Kind::Address, ValueView::Address(_)) => true,
        (Kind::Text { max }, ValueView::Text(_)) => true,
        (Kind::OptionalAddress, ValueView::OptionalAddress(_)) => true,
        _ => false,
    }
}

/// The most bytes a field of this kind takes.
pub open spec fn max_width(kind: Kind) -> nat {
    match kind {
        Kind::U8 => 1,
        Kind::Bool => 1,
        Kind::U32 => 4,
        Kind::U64 => 8,
        Kind::I64 => 8,
        Kind::Address => 32,
        Kind::Text { max } => (4 + max) as nat,
        Kind::OptionalAddress => 33,
    }
}

/// A value that fits its field takes at least one byte and at most the
/// field's width.
pub proof fn lemma_value_width(kind: Kind, v: ValueView)
    requires
        fits(kind, v),
    ensures
        1 <= value_bytes(v).len() <= max_width(kind),
{
    lemma_auto_spec_u32_to_from_le_bytes();
    lemma_auto_spec_u64_to_from_le_bytes();
}

/// Appends the bytes of `value` to `out`, if it fits a field of kind `kind`.
pub fn encode_value(kind: &Kind, value: &Value, out: &mut Vec<u8>) -> (r: Result<(), LayoutError>)
    ensures
        match r {
            Ok(()) => fits(*kind, value@) && final(out)@ == old(out)@ + value_bytes(value@),
            Err(e) => !fits(*kind, value@) && final(out)@ == old(out)@ && e == if same_kind(
                *kind,
                value@,
            ) {
                LayoutError::FieldTooLong
            } else {
                LayoutError::SchemaMismatch
            },
        },
{
    match (kind, value) {
        (Kind::U8, Value::U8(x)) => {
            out.push(*x);
            assert(out@ =~= old(out)@ + value_bytes(value@));
            Ok(())
        },
        (Kind::Bool, Value::Bool(x)) => {
            out.push(if *x { 1u8 } else { 0u8 });
            assert(out@ =~= old(out)@ + value_bytes(value@));
            Ok(())
        },
        (Kind::U32, Value::U32(x)) => {
            let mut piece = u32_to_le_bytes(*x);
            out.append(&mut piece);
            Ok(())
        },
        (Kind::U64, Value::U64(x)) => {
            let mut piece = u64_to_le_bytes(*x);
            out.append(&mut piece);
            Ok(())
        },
        (Kind::I64, Value::I64(x)) => {
            let mut piece = u64_to_le_bytes(#[verifier::truncate] (*x as u64));
            out.append(&mut piece);
            Ok(())
        },
        (Kind::Address, Value::Address(x)) => {
            let mut piece = x.to_seed();
            out.append(&mut piece);
            Ok(())
        },
        (Kind::Text { max }, Value::Text(x)) => {
            let n = text_len(x);
            if n > *max as usize {
                return Err(LayoutError::FieldTooLong);
            }
            let mut prefix = u32_to_le_bytes(n as u32);
            let mut payload = text_bytes(x.as_str());
            out.append(&mut prefix);
            out.append(&mut payload);
            assert(out@ =~= old(out)@ + value_bytes(value@));
            Ok(())
        },
        (Kind::OptionalAddress, Value::OptionalAddress(x)) => {
            match x {
                None => {
                    out.push(0u8);
                },
                Some(a) => {
                    out.push(1u8);
                    let mut piece = a.to_seed();
                    out.append(&mut piece);
                },
            }
            assert(out@ =~= old(out)@ + value_bytes(value@));
            Ok(())
        },
        _ => Err(LayoutError::SchemaMismatch),
    }
}

/// The address stored in the 32 bytes of `bytes` that start at `pos`.
pub fn address_at(bytes: &[u8], pos: usize) -> (a: Address)
    requires
        pos + 32 <= bytes@.len(),
    ensures
        a@ == bytes@.subrange(pos as int, pos + 32),
{
    let mut raw = [0u8; 32];
    let len = bytes.len();
    let mut i: usize = 0;
    while i < 32
        invariant
            i <= 32,
            len == bytes@.len(),
            pos + 32 <= bytes@.len(),
            forall|j: int| 0 <= j < i ==> raw@[j] == bytes@[pos + j],
        decreases 32 - i,
    {
        raw[i] = bytes[pos + i];
        i += 1;
    }
    let a = Address::new(raw);
    assert(a@ =~= bytes@.subrange(pos as int, pos + 32));
    a
}

/// Two values that fit one field and whose bytes both start `rest` are one
/// value: no encoding is the beginning of another.
pub proof fn lemma_value_unique(kind: Kind, rest: Seq<u8>, a: ValueView, b: ValueView)
    requires
        fits(kind, a),
        fits(kind, b),
        value_bytes(a).is_prefix_of(rest),
        value_bytes(b).is_prefix_of(rest),
    ensures
        a == b,
{
    lemma_auto_spec_u32_to_from_le_bytes();
    lemma_auto_spec_u64_to_from_le_bytes();
    let ea = value_bytes(a);
    let eb = value_bytes(b);
    match (a, b) {
        (ValueView::U8(x), ValueView::U8(y)) => {
            assert(ea[0] == rest[0] && eb[0] == rest[0]);
        },
        (ValueView::Bool(x), ValueView::Bool(y)) => {
            assert(ea[0] == rest[0] && eb[0] == rest[0]);
        },
        (ValueView::U32(x), ValueView::U32(y)) => {
            assert(ea =~= rest.subrange(0, 4));
            assert(eb =~= rest.subrange(0, 4));
        },
        (ValueView::U64(x), ValueView::U64(y)) => {
            assert(ea =~= rest.subrange(0, 8));
            assert(eb =~= rest.subrange(0, 8));
        },
        (ValueView::I64(x), ValueView::I64(y)) => {
            assert(ea =~= rest.subrange(0, 8));
            assert(eb =~= rest.subrange(0, 8));
            assert(x as u64 == y as u64);
            assert((x as u64) as i64 == x) by (bit_vector);
            assert((y as u64) as i64 == y) by (bit_vector);
        },
        (ValueView::Address(x), ValueView::Address(y)) => {
            assert(ea =~= rest.subrange(0, 32));
            assert(eb =~= rest.subrange(0, 32));
            lemma_address_of_bytes(x, y);
        },
        (ValueView::Text(x), ValueView::Text(y)) => {
            let px = spec_u32_to_le_bytes(byte_len(x) as u32);
            let py = spec_u32_to_le_bytes(byte_len(y) as u32);
            assert(px =~= ea.subrange(0, 4));
            assert(py =~= eb.subrange(0, 4));
            assert(px =~= rest.subrange(0, 4));
            assert(py =~= rest.subrange(0, 4));
            assert(byte_len(x) as u32 == byte_len(y) as u32);
            assert(byte_len(x) == byte_len(y));
            assert(encode_utf8(x) =~= ea.subrange(4, ea.len() as int));
            assert(encode_utf8(y) =~= eb.subrange(4, eb.len() as int));
            assert(encode_utf8(x) =~= rest.subrange(4, 4 + byte_len(x) as int));
            assert(encode_utf8(y) =~= rest.subrange(4, 4 + byte_len(y) as int));
            encode_utf8_decode_utf8(x);
            encode_utf8_decode_utf8(y);
        },
        (ValueView::OptionalAddress(x), ValueView::OptionalAddress(y)) => {
            assert(ea[0] == rest[0] && eb[0] == rest[0]);
            match (x, y) {
                (Some(p), Some(q)) => {
                    assert(p@ =~= ea.subrange(1, 33));
                    assert(q@ =~= eb.subrange(1, 33));
                    assert(p@ =~= rest.subrange(1, 33));
                    assert(q@ =~= rest.subrange(1, 33));
                    lemma_address_of_bytes(p, q);
                },
                _ => {},
            }
        },
        _ => {},
    }
}

/// Whether `part` is what `bytes` holds from `pos` on, as far as `part`
/// reaches.
pub open spec fn holds_at(bytes: Seq<u8>, pos: int, part: Seq<u8>) -> bool {
    part.is_prefix_of(bytes.skip(pos))
}

/// Reads the value of a field of kind `kind` that starts at `pos`, and where
/// it ends. Nothing is read where no value of that kind that fits the field
/// is encoded there.
pub fn decode_value(kind: &Kind, bytes: &[u8], pos: usize) -> (r: Option<(Value, usize)>)
    requires
        pos <= bytes@.len(),
    ensures
        match r {
            Some((v, next)) => fits(*kind, v@) && pos <= next <= bytes@.len() && bytes@.subrange(
                pos as int,
                next as int,
            ) == value_bytes(v@),
            None => forall|v: ValueView|
                !(fits(*kind, v) && holds_at(bytes@, pos as int, #[trigger] value_bytes(v))),
        },
{
    let len = bytes.len();
    let left = len - pos;
    let ghost rest = bytes@.skip(pos as int);
    proof {
        lemma_auto_spec_u32_to_from_le_bytes();
        lemma_auto_spec_u64_to_from_le_bytes();
    }
    match kind {
        Kind::U8 => {
            if left < 1 {
                return None;
            }
            let v = Value::U8(bytes[pos]);
            assert(bytes@.subrange(pos as int, pos + 1) =~= value_bytes(v@));
            Some((v, pos + 1))
        },
        Kind::Bool => {
            if left < 1 {
                return None;
            }
            let tag = bytes[pos];
            if tag > 1 {
                assert forall|v: ValueView|
                    !(fits(*kind, v) && holds_at(bytes@, pos as int, #[trigger] value_bytes(v))) by {
                    if fits(*kind, v) && holds_at(bytes@, pos as int, value_bytes(v)) {
                        assert(value_bytes(v)[0] == rest[0]);
                    }
                }
                return None;
            }
            let v = Value::Bool(tag == 1);
            assert(bytes@.subrange(pos as int, pos + 1) =~= value_bytes(v@));
            Some((v, pos + 1))
        },
        Kind::U32 => {
            if left < 4 {
                return None;
            }
            let x = u32_from_le_bytes(slice_subrange(bytes, pos, pos + 4));
            Some((Value::U32(x), pos + 4))
        },
        Kind::U64 => {
            if left < 8 {
                return None;
            }
            let x = u64_from_le_bytes(slice_subrange(bytes, pos, pos + 8));
            Some((Value::U64(x), pos + 8))
        },
        Kind::I64 => {
            if left < 8 {
                return None;
            }
            let x = u64_from_le_bytes(slice_subrange(bytes, pos, pos + 8));
            assert((x as i64) as u64 == x) by (bit_vector);
            Some((Value::I64(#[verifier::truncate] (x as i64)), pos + 8))
        },
        Kind::Address => {
            if left < 32 {
                return None;
            }
            Some((Value::Address(address_at(bytes, pos)), pos + 32))
        },
        Kind::Text { max } => {
            if left < 4 {
                return None;
            }
            let n = u32_from_le_bytes(slice_subrange(bytes, pos, pos + 4));
            let ghost head = bytes@.subrange(pos as int, pos + 4);
            assert(spec_u32_to_le_bytes(n) == head);
            proof {
                assert forall|v: ValueView|
                    fits(*kind, v) && holds_at(
                        bytes@,
                        pos as int,
                        #[trigger] value_bytes(v),
                    ) implies v is Text && byte_len(v->Text_0) == n && encode_utf8(v->Text_0)
                    =~= bytes@.subrange(pos + 4, pos + 4 + n) && pos + 4 + n <= len by {
                    let x = v->Text_0;
                    let e = value_bytes(v);
                    assert(spec_u32_to_le_bytes(byte_len(x) as u32) =~= e.subrange(0, 4));
                    assert(e.subrange(0, 4) =~= rest.subrange(0, 4));
                    assert(rest.subrange(0, 4) =~= head);
                    assert(byte_len(x) as u32 == n);
                    assert(encode_utf8(x) =~= e.subrange(4, e.len() as int));
                    assert(e.subrange(4, e.len() as int) =~= rest.subrange(4, e.len() as int));
                    assert(rest.subrange(4, 4 + n) =~= bytes@.subrange(pos + 4, pos + 4 + n));
                }
            }
            if n > *max {
                return None;
            }
            if left - 4 < n as usize {
                return None;
            }
            let payload = slice_to_vec(slice_subrange(bytes, pos + 4, pos + 4 + n as usize));
            match string_from_utf8(payload) {
                Some(text) => {
                    let v = Value::Text(text);
                    assert(bytes@.subrange(pos as int, pos + 4 + n) =~= value_bytes(v@));
                    Some((v, pos + 4 + n as usize))
                },
                None => {
                    assert forall|v: ValueView|
                        !(fits(*kind, v) && holds_at(
                            bytes@,
                            pos as int,
                            #[trigger] value_bytes(v),
                        )) by {
                        if fits(*kind, v) && holds_at(bytes@, pos as int, value_bytes(v)) {
                            encode_utf8_valid_utf8(v->Text_0);
                        }
                    }
                    None
                },
            }
        },
        Kind::OptionalAddress => {
            if left < 1 {
                return None;
            }
            let tag = bytes[pos];
            proof {
                assert forall|v: ValueView|
                    fits(*kind, v) && holds_at(
                        bytes@,
                        pos as int,
                        #[trigger] value_bytes(v),
                    ) implies value_bytes(v)[0] == tag by {
                    assert(value_bytes(v)[0] == rest[0]);
                }
            }
            if tag == 0 {
                let v = Value::OptionalAddress(None);
                assert(bytes@.subrange(pos as int, pos + 1) =~= value_bytes(v@));
                Some((v, pos + 1))
            } else if tag == 1 {
                if left < 33 {
                    return None;
                }
                let v = Value::OptionalAddress(Some(address_at(bytes, pos + 1)));
                assert(bytes@.subrange(pos as int, pos + 33) =~= value_bytes(v@));
                Some((v, pos + 33))
            } else {
                None
            }
        },
    }
}

} // verus!
