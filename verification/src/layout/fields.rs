//! The encoding of a list of fields: each field after the other, with
//! nothing between them.

use crate::layout::wire::{
    decode_value, encode_value, fits, holds_at, lemma_value_unique, lemma_value_width, max_width,
    same_kind, value_bytes, Kind, LayoutError, Value, ValueView,
};
use vstd::prelude::*;

verus! {

/// The views of a list of values.
pub open spec fn views(values: Seq<Value>) -> Seq<ValueView> {
    Seq::new(values.len(), |i: int| values[i]@)
}

/// Whether the values are those the field list asks for, one per field and
/// each fitting its field.
pub open spec fn fits_all(schema: Seq<Kind>, vs: Seq<ValueView>) -> bool {
    &&& schema.len() == vs.len()
    &&& forall|i: int| 0 <= i < vs.len() ==> fits(#[trigger] schema[i], vs[i])
}

/// Whether the values are of the kinds the field list asks for, one per
/// field, whatever their lengths.
pub open spec fn kinds_match(schema: Seq<Kind>, vs: Seq<ValueView>) -> bool {
    &&& schema.len() == vs.len()
    &&& forall|i: int| 0 <= i < vs.len() ==> same_kind(#[trigger] schema[i], vs[i])
}

/// The bytes of a list of values.
pub open spec fn fields_bytes(vs: Seq<ValueView>) -> Seq<u8>
    decreases vs.len(),
{
    if vs.len() == 0 {
        Seq::empty()
    } else {
        fields_bytes(vs.drop_last()) + value_bytes(vs.last())
    }
}

/// The most bytes a record with this field list takes, after its
/// discriminator.
pub open spec fn max_fields_width(schema: Seq<Kind>) -> nat
    decreases schema.len(),
{
    if schema.len() == 0 {
        0
    } else {
        max_fields_width(schema.drop_last()) + max_width(schema.last())
    }
}

/// Values that fit their fields take no more bytes than the field list
/// allows.
pub proof fn lemma_fields_width(schema: Seq<Kind>, vs: Seq<ValueView>)
    requires
        fits_all(schema, vs),
    ensures
        fields_bytes(vs).len() <= max_fields_width(schema),
    decreases vs.len(),
{
    if vs.len() > 0 {
        assert(fits(schema[vs.len() - 1], vs[vs.len() - 1]));
        lemma_value_width(schema.last(), vs.last());
        assert forall|i: int| 0 <= i < vs.drop_last().len() implies fits(
            #[trigger] schema.drop_last()[i],
            vs.drop_last()[i],
        ) by {
            assert(fits(schema[i], vs[i]));
        }
        lemma_fields_width(schema.drop_last(), vs.drop_last());
    }
}

/// The bytes of the first `k` values start the bytes of all of them, and
/// the bytes of the next value follow at once.
pub proof fn lemma_fields_prefix(vs: Seq<ValueView>, k: int)
    requires
        0 <= k <= vs.len(),
    ensures
        fields_bytes(vs.subrange(0, k)).is_prefix_of(fields_bytes(vs)),
        k < vs.len() ==> (fields_bytes(vs.subrange(0, k)) + value_bytes(vs[k])).is_prefix_of(
            fields_bytes(vs),
        ),
    decreases vs.len() - k,
{
    if k == vs.len() {
        assert(vs.subrange(0, k) =~= vs);
    } else {
        lemma_fields_prefix(vs, k + 1);
        let longer = vs.subrange(0, k + 1);
        assert(longer.drop_last() =~= vs.subrange(0, k));
        assert(longer.last() == vs[k]);
        assert(fields_bytes(longer) == fields_bytes(vs.subrange(0, k)) + value_bytes(vs[k]));
        let whole = fields_bytes(vs);
        let shorter = fields_bytes(vs.subrange(0, k));
        assert(shorter =~= whole.subrange(0, shorter.len() as int));
    }
}

/// Where the bytes of a whole list are found at `start`, the bytes of its
/// field `k` are found right after those of the fields before it.
pub proof fn lemma_field_found(bytes: Seq<u8>, start: int, vs: Seq<ValueView>, k: int)
    requires
        0 <= start <= bytes.len(),
        0 <= k < vs.len(),
        holds_at(bytes, start, fields_bytes(vs)),
    ensures
        start + fields_bytes(vs.subrange(0, k)).len() <= bytes.len(),
        holds_at(bytes, start + fields_bytes(vs.subrange(0, k)).len(), value_bytes(vs[k])),
        bytes.subrange(start, start + fields_bytes(vs.subrange(0, k)).len()) == fields_bytes(
            vs.subrange(0, k),
        ),
{
    lemma_fields_prefix(vs, k);
    let whole = fields_bytes(vs);
    let before = fields_bytes(vs.subrange(0, k));
    let field = value_bytes(vs[k]);
    let rest = bytes.skip(start);
    assert((before + field) =~= whole.subrange(0, (before.len() + field.len()) as int));
    assert(whole =~= rest.subrange(0, whole.len() as int));
    let at = start + before.len();
    assert(field =~= bytes.skip(at).subrange(0, field.len() as int)) by {
        assert forall|j: int| 0 <= j < field.len() implies field[j] == bytes.skip(at).subrange(
            0,
            field.len() as int,
        )[j] by {
            assert((before + field)[before.len() + j] == field[j]);
            assert(whole[before.len() + j] == (before + field)[before.len() + j]);
            assert(rest[before.len() + j] == whole[before.len() + j]);
        }
    }
    assert(bytes.subrange(start, at) =~= before) by {
        assert forall|j: int| 0 <= j < before.len() implies bytes.subrange(start, at)[j]
            == before[j] by {
            assert((before + field)[j] == before[j]);
            assert(whole[j] == (before + field)[j]);
            assert(rest[j] == whole[j]);
        }
    }
}

/// Two lists of values that fit one field list and whose bytes are both
/// found at `start` are one list.
pub proof fn lemma_fields_unique(
    schema: Seq<Kind>,
    bytes: Seq<u8>,
    start: int,
    a: Seq<ValueView>,
    b: Seq<ValueView>,
)
    requires
        0 <= start <= bytes.len(),
        fits_all(schema, a),
        fits_all(schema, b),
        holds_at(bytes, start, fields_bytes(a)),
        holds_at(bytes, start, fields_bytes(b)),
    ensures
        a == b,
{
    lemma_same_up_to(schema, bytes, start, a, b, a.len() as int);
    assert(a.subrange(0, a.len() as int) =~= a);
    assert(b.subrange(0, b.len() as int) =~= b);
}

proof fn lemma_same_up_to(
    schema: Seq<Kind>,
    bytes: Seq<u8>,
    start: int,
    a: Seq<ValueView>,
    b: Seq<ValueView>,
    k: int,
)
    requires
        0 <= start <= bytes.len(),
        fits_all(schema, a),
        fits_all(schema, b),
        holds_at(bytes, start, fields_bytes(a)),
        holds_at(bytes, start, fields_bytes(b)),
        0 <= k <= a.len(),
    ensures
        a.subrange(0, k) == b.subrange(0, k),
    decreases k,
{
    if k == 0 {
        assert(a.subrange(0, 0) =~= b.subrange(0, 0));
    } else {
        lemma_same_up_to(schema, bytes, start, a, b, k - 1);
        lemma_field_found(bytes, start, a, k - 1);
        lemma_field_found(bytes, start, b, k - 1);
        let at = start + fields_bytes(a.subrange(0, k - 1)).len();
        assert(fits(schema[k - 1], a[k - 1]));
        assert(fits(schema[k - 1], b[k - 1]));
        lemma_value_unique(schema[k - 1], bytes.skip(at), a[k - 1], b[k - 1]);
        assert(a.subrange(0, k) =~= a.subrange(0, k - 1).push(a[k - 1]));
        assert(b.subrange(0, k) =~= b.subrange(0, k - 1).push(b[k - 1]));
    }
}

/// Whether the values are of the kinds the field list asks for.
pub fn check_kinds(schema: &Vec<Kind>, values: &Vec<Value>) -> (ok: bool)
    ensures
        ok == kinds_match(schema@, views(values@)),
{
    if schema.len() != values.len() {
        return false;
    }
    let mut i: usize = 0;
    while i < schema.len()
        invariant
            i <= schema@.len(),
            schema@.len() == values@.len(),
            forall|j: int| 0 <= j < i ==> same_kind(#[trigger] schema@[j], views(values@)[j]),
        decreases schema@.len() - i,
    {
        let matches = match (&schema[i], &values[i]) {
            (Kind::U8, Value::U8(_)) => true,
            (Kind::Bool, Value::Bool(_)) => true,
            (Kind::U32, Value::U32(_)) => true,
            (Kind::U64, Value::U64(_)) => true,
            (Kind::I64, Value::I64(_)) => true,
            (Kind::Address, Value::Address(_)) => true,
            (Kind::Text { max: _ }, Value::Text(_)) => true,
            (Kind::OptionalAddress, Value::OptionalAddress(_)) => true,
            _ => false,
        };
        if !matches {
            assert(!same_kind(schema@[i as int], views(values@)[i as int]));
            return false;
        }
        i += 1;
    }
    true
}

/// The bytes of `values`, which must be those `schema` asks for. Values of
/// the wrong kinds are a mismatch; otherwise a text wider than its field is
/// too long.
pub fn encode_fields(schema: &Vec<Kind>, values: &Vec<Value>) -> (r: Result<Vec<u8>, LayoutError>)
    ensures
        match r {
            Ok(bytes) => fits_all(schema@, views(values@)) && bytes@ == fields_bytes(
                views(values@),
            ),
            Err(e) => !fits_all(schema@, views(values@)) && e == if kinds_match(
                schema@,
                views(values@),
            ) {
                LayoutError::FieldTooLong
            } else {
                LayoutError::SchemaMismatch
            },
        },
{
    if !check_kinds(schema, values) {
        proof {
            if fits_all(schema@, views(values@)) {
                assert forall|i: int| 0 <= i < values@.len() implies same_kind(
                    #[trigger] schema@[i],
                    views(values@)[i],
                ) by {
                    assert(fits(schema@[i], views(values@)[i]));
                }
            }
        }
        return Err(LayoutError::SchemaMismatch);
    }
    let mut out: Vec<u8> = Vec::new();
    let mut i: usize = 0;
    let ghost all = views(values@);
    while i < values.len()
        invariant
            i <= values@.len(),
            schema@.len() == values@.len(),
            all == views(values@),
            kinds_match(schema@, all),
            forall|j: int| 0 <= j < i ==> fits(#[trigger] schema@[j], all[j]),
            out@ == fields_bytes(all.subrange(0, i as int)),
        decreases values@.len() - i,
    {
        let ghost before = out@;
        match encode_value(&schema[i], &values[i], &mut out) {
            Ok(()) => {},
            Err(e) => {
                assert(same_kind(schema@[i as int], all[i as int]));
                assert(!fits(schema@[i as int], all[i as int]));
                return Err(LayoutError::FieldTooLong);
            },
        }
        proof {
            let longer = all.subrange(0, i + 1);
            assert(longer.drop_last() =~= all.subrange(0, i as int));
            assert(longer.last() == values@[i as int]@);
        }
        i += 1;
    }
    assert(all.subrange(0, i as int) =~= all);
    Ok(out)
}

/// Reads the values of `schema` that start at `start`, and where the last
/// one ends. Nothing is read where no list of values that fits `schema` is
/// encoded there.
pub fn decode_fields(schema: &Vec<Kind>, bytes: &[u8], start: usize) -> (r: Option<
    (Vec<Value>, usize),
>)
    requires
        start <= bytes@.len(),
    ensures
        match r {
            Some((values, end)) => fits_all(schema@, views(values@)) && start <= end
                <= bytes@.len() && bytes@.subrange(start as int, end as int) == fields_bytes(
                views(values@),
            ),
            None => forall|vs: Seq<ValueView>|
                !(fits_all(schema@, vs) && holds_at(
                    bytes@,
                    start as int,
                    #[trigger] fields_bytes(vs),
                )),
        },
{
    let mut out: Vec<Value> = Vec::new();
    let mut pos: usize = start;
    let mut i: usize = 0;
    assert(views(out@) =~= Seq::<ValueView>::empty());
    assert(bytes@.subrange(start as int, pos as int) =~= fields_bytes(views(out@)));
    while i < schema.len()
        invariant
            i <= schema@.len(),
            out@.len() == i,
            start <= pos <= bytes@.len(),
            forall|j: int| 0 <= j < i ==> fits(#[trigger] schema@[j], views(out@)[j]),
            bytes@.subrange(start as int, pos as int) == fields_bytes(views(out@)),
        decreases schema@.len() - i,
    {
        let ghost done = views(out@);
        match decode_value(&schema[i], bytes, pos) {
            Some((value, next)) => {
                out.push(value);
                proof {
                    let now = views(out@);
                    assert(now.drop_last() =~= done);
                    assert(now.last() == value@);
                    assert(bytes@.subrange(start as int, next as int) =~= bytes@.subrange(
                        start as int,
                        pos as int,
                    ) + bytes@.subrange(pos as int, next as int));
                    assert forall|j: int| 0 <= j < i + 1 implies fits(
                        #[trigger] schema@[j],
                        views(out@)[j],
                    ) by {
                        if j < i {
                            assert(views(out@)[j] == done[j]);
                        }
                    }
                }
                pos = next;
            },
            None => {
                proof {
                    assert forall|vs: Seq<ValueView>|
                        !(fits_all(schema@, vs) && holds_at(
                            bytes@,
                            start as int,
                            #[trigger] fields_bytes(vs),
                        )) by {
                        if fits_all(schema@, vs) && holds_at(
                            bytes@,
                            start as int,
                            fields_bytes(vs),
                        ) {
                            lemma_found_where_read(schema@, bytes@, start as int, vs, done, i as int);
                            assert(fits(schema@[i as int], vs[i as int]));
                            assert(holds_at(bytes@, pos as int, value_bytes(vs[i as int])));
                        }
                    }
                }
                return None;
            },
        }
        i += 1;
    }
    Some((out, pos))
}

/// Where the first `k` fields have been read as `done` and a whole list is
/// found at `start`, that list begins with `done`, so its field `k` is found
/// where reading stopped.
proof fn lemma_found_where_read(
    schema: Seq<Kind>,
    bytes: Seq<u8>,
    start: int,
    vs: Seq<ValueView>,
    done: Seq<ValueView>,
    k: int,
)
    requires
        0 <= start <= bytes.len(),
        0 <= k < schema.len(),
        done.len() == k,
        fits_all(schema, vs),
        forall|j: int| 0 <= j < k ==> fits(#[trigger] schema[j], done[j]),
        holds_at(bytes, start, fields_bytes(vs)),
        start + fields_bytes(done).len() <= bytes.len(),
        bytes.subrange(start, start + fields_bytes(done).len()) == fields_bytes(done),
    ensures
        vs.subrange(0, k) == done,
        holds_at(bytes, start + fields_bytes(done).len(), value_bytes(vs[k])),
{
    let head = vs.subrange(0, k);
    lemma_field_found(bytes, start, vs, k);
    assert(holds_at(bytes, start, fields_bytes(head))) by {
        assert(fields_bytes(head) =~= bytes.skip(start).subrange(0, fields_bytes(head).len() as int));
    }
    assert(holds_at(bytes, start, fields_bytes(done))) by {
        assert(fields_bytes(done) =~= bytes.skip(start).subrange(0, fields_bytes(done).len() as int));
    }
    assert(fits_all(schema.subrange(0, k), head)) by {
        assert forall|j: int| 0 <= j < head.len() implies fits(
            #[trigger] schema.subrange(0, k)[j],
            head[j],
        ) by {
            assert(fits(schema[j], vs[j]));
        }
    }
    assert(fits_all(schema.subrange(0, k), done)) by {
        assert forall|j: int| 0 <= j < done.len() implies fits(
            #[trigger] schema.subrange(0, k)[j],
            done[j],
        ) by {
            assert(fits(schema[j], done[j]));
        }
    }
    lemma_fields_unique(schema.subrange(0, k), bytes, start, head, done);
}

} // verus!
