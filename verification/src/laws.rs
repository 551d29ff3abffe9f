//! The codec's laws.
//!
//! Each proof function here states one property of the encoder/decoder pair
//! as a theorem over the encoding and decoding models, for all values of the
//! types involved: what a value encodes to, and that decoding that one wire
//! value yields the value back with nothing left over — or, where the wire
//! grammar's width table makes a round trip impossible, exactly how it fails.

use vstd::prelude::*;
use crate::decode::{
    decode_elems, take_tuple, Decodable, DecoderErrorSpec,
};
use crate::encode::{encode_elems, Encodable, EncoderErrorSpec, EncoderState};
use crate::records::{
    Job, JobView, UnitFile, UnitFileChange, UnitFileChangeView, UnitFileChanges,
    UnitFileChangesView, UnitFileView,
};
use crate::text::{dec_digits, int_str, render_wire};
use crate::wire::WireSpec;

verus! {

/// Round trip for booleans: a `bool` encodes to `Bool` and decodes back.
pub proof fn lemma_round_trip_bool(v: bool)
    ensures
        v.encode_spec() matches Ok(w) && bool::decode_spec(seq![w]) == Ok::<
            (bool, Seq<WireSpec>),
            DecoderErrorSpec,
        >((v, Seq::<WireSpec>::empty())),
{
    assert(seq![WireSpec::Bool(v)].skip(1) =~= Seq::<WireSpec>::empty());
}

/// Round trip for 16-bit unsigned integers.
pub proof fn lemma_round_trip_u16(v: u16)
    ensures
        v.encode_spec() matches Ok(w) && u16::decode_spec(seq![w]) == Ok::<
            (u16, Seq<WireSpec>),
            DecoderErrorSpec,
        >((v, Seq::<WireSpec>::empty())),
{
    assert(seq![WireSpec::UInt16(v)].skip(1) =~= Seq::<WireSpec>::empty());
}

/// Round trip for 32-bit unsigned integers.
pub proof fn lemma_round_trip_u32(v: u32)
    ensures
        v.encode_spec() matches Ok(w) && u32::decode_spec(seq![w]) == Ok::<
            (u32, Seq<WireSpec>),
            DecoderErrorSpec,
        >((v, Seq::<WireSpec>::empty())),
{
    assert(seq![WireSpec::UInt32(v)].skip(1) =~= Seq::<WireSpec>::empty());
}

/// Round trip for 64-bit unsigned integers.
pub proof fn lemma_round_trip_u64(v: u64)
    ensures
        v.encode_spec() matches Ok(w) && u64::decode_spec(seq![w]) == Ok::<
            (u64, Seq<WireSpec>),
            DecoderErrorSpec,
        >((v, Seq::<WireSpec>::empty())),
{
    assert(seq![WireSpec::UInt64(v)].skip(1) =~= Seq::<WireSpec>::empty());
}

/// Round trip for 16-bit signed integers.
pub proof fn lemma_round_trip_i16(v: i16)
    ensures
        v.encode_spec() matches Ok(w) && i16::decode_spec(seq![w]) == Ok::<
            (i16, Seq<WireSpec>),
            DecoderErrorSpec,
        >((v, Seq::<WireSpec>::empty())),
{
    assert(seq![WireSpec::Int16(v)].skip(1) =~= Seq::<WireSpec>::empty());
}

/// Round trip for 32-bit signed integers.
pub proof fn lemma_round_trip_i32(v: i32)
    ensures
        v.encode_spec() matches Ok(w) && i32::decode_spec(seq![w]) == Ok::<
            (i32, Seq<WireSpec>),
            DecoderErrorSpec,
        >((v, Seq::<WireSpec>::empty())),
{
    assert(seq![WireSpec::Int32(v)].skip(1) =~= Seq::<WireSpec>::empty());
}

/// Round trip for 64-bit signed integers.
pub proof fn lemma_round_trip_i64(v: i64)
    ensures
        v.encode_spec() matches Ok(w) && i64::decode_spec(seq![w]) == Ok::<
            (i64, Seq<WireSpec>),
            DecoderErrorSpec,
        >((v, Seq::<WireSpec>::empty())),
{
    assert(seq![WireSpec::Int64(v)].skip(1) =~= Seq::<WireSpec>::empty());
}

/// Round trip for pointer-sized unsigned integers, which travel losslessly
/// as 64-bit wire values.
pub proof fn lemma_round_trip_usize(v: usize)
    ensures
        v.encode_spec() matches Ok(w) && usize::decode_spec(seq![w]) == Ok::<
            (usize, Seq<WireSpec>),
            DecoderErrorSpec,
        >((v, Seq::<WireSpec>::empty())),
{
    assert(seq![WireSpec::UInt64(v as u64)].skip(1) =~= Seq::<WireSpec>::empty());
}

/// Round trip for pointer-sized signed integers, which travel losslessly
/// as 64-bit wire values.
pub proof fn lemma_round_trip_isize(v: isize)
    ensures
        v.encode_spec() matches Ok(w) && isize::decode_spec(seq![w]) == Ok::<
            (isize, Seq<WireSpec>),
            DecoderErrorSpec,
        >((v, Seq::<WireSpec>::empty())),
{
    assert(seq![WireSpec::Int64(v as i64)].skip(1) =~= Seq::<WireSpec>::empty());
}

/// Round trip for strings: a `String` encodes to `Str` and decodes back.
pub proof fn lemma_round_trip_string(s: String)
    ensures
        s.encode_spec() matches Ok(w) && String::decode_spec(seq![w]) == Ok::<
            (Seq<char>, Seq<WireSpec>),
            DecoderErrorSpec,
        >((s@, Seq::<WireSpec>::empty())),
{
    assert(seq![WireSpec::Str(s@)].skip(1) =~= Seq::<WireSpec>::empty());
}

/// 8-bit values do not round-trip: they encode to `Byte`, but the
/// read-as-integer rule accepts only the six wider integer kinds, so
/// decoding a `Byte` back as an 8-bit unsigned integer fails.
pub proof fn lemma_u8_byte_not_numeric(v: u8)
    ensures
        v.encode_spec() == Ok::<WireSpec, EncoderErrorSpec>(WireSpec::Byte(v)),
        u8::decode_spec(seq![WireSpec::Byte(v)]) == Err::<
            (u8, Seq<WireSpec>),
            DecoderErrorSpec,
        >(
            DecoderErrorSpec::ExpectedError("Number"@, render_wire(WireSpec::Byte(v))),
        ),
{
}

/// Struct round trip for [`UnitFile`]: encoding yields one `Struct` whose
/// fields are the record's fields in declaration order, and decoding that
/// value yields the record back with nothing left over.
pub proof fn lemma_round_trip_unit_file(v: UnitFile)
    ensures
        v.encode_spec() matches Ok(w) && UnitFile::decode_spec(seq![w]) == Ok::<
            (UnitFileView, Seq<WireSpec>),
            DecoderErrorSpec,
        >((v.deep_view(), Seq::<WireSpec>::empty())),
{
    let fs = seq![WireSpec::Str(v.name@), WireSpec::Str(v.state@)];
    assert(seq![WireSpec::Struct(fs)].skip(1) =~= Seq::<WireSpec>::empty());
    assert(fs.skip(1) =~= seq![WireSpec::Str(v.state@)]);
    assert(seq![WireSpec::Str(v.state@)].skip(1) =~= Seq::<WireSpec>::empty());
}

/// Struct round trip for [`Job`], whose fields mix an integer with strings.
pub proof fn lemma_round_trip_job(v: Job)
    ensures
        v.encode_spec() matches Ok(w) && Job::decode_spec(seq![w]) == Ok::<
            (JobView, Seq<WireSpec>),
            DecoderErrorSpec,
        >((v.deep_view(), Seq::<WireSpec>::empty())),
{
    let fs = seq![
        WireSpec::UInt32(v.job_id),
        WireSpec::Str(v.name@),
        WireSpec::Str(v.job_type@),
        WireSpec::Str(v.job_state@),
        WireSpec::Str(v.job_path@),
        WireSpec::Str(v.path@),
    ];
    assert(seq![WireSpec::Struct(fs)].skip(1) =~= Seq::<WireSpec>::empty());
    assert(fs.skip(1) =~= fs.subrange(1, 6));
    assert(fs.subrange(1, 6).skip(1) =~= fs.subrange(2, 6));
    assert(fs.subrange(2, 6).skip(1) =~= fs.subrange(3, 6));
    assert(fs.subrange(3, 6).skip(1) =~= fs.subrange(4, 6));
    assert(fs.subrange(4, 6).skip(1) =~= fs.subrange(5, 6));
    assert(fs.subrange(5, 6).skip(1) =~= Seq::<WireSpec>::empty());
}

/// Round trip for the elements of a sequence of 64-bit integers, threaded
/// through an arbitrary remainder.
proof fn lemma_round_trip_i64_elems(s: Seq<i64>, rest: Seq<WireSpec>)
    ensures
        encode_elems::<i64>(s) matches Ok(ws) && ws.len() == s.len() && decode_elems::<i64>(
            s.len(),
            ws + rest,
        ) == Ok::<(Seq<i64>, Seq<WireSpec>), DecoderErrorSpec>((s, rest)),
    decreases s.len(),
{
    if s.len() == 0 {
        assert(s =~= Seq::<i64>::empty());
        assert(Seq::<WireSpec>::empty() + rest =~= rest);
    } else {
        let s1 = s.skip(1);
        lemma_round_trip_i64_elems(s1, rest);
        let w0 = WireSpec::Int64(s[0]);
        let tailws = (match encode_elems::<i64>(s1) {
            Ok(ws) => ws,
            Err(_) => Seq::<WireSpec>::empty(),
        });
        assert(encode_elems::<i64>(s1) == Ok::<Seq<WireSpec>, EncoderErrorSpec>(tailws));
        assert(encode_elems::<i64>(s) == Ok::<Seq<WireSpec>, EncoderErrorSpec>(seq![w0] + tailws));
        let items = (seq![w0] + tailws) + rest;
        assert(items =~= seq![w0] + (tailws + rest));
        assert(items[0] == w0);
        assert(items.skip(1) =~= tailws + rest);
        assert(i64::decode_spec(items) == Ok::<(i64, Seq<WireSpec>), DecoderErrorSpec>(
            (s[0], items.skip(1)),
        ));
        assert(decode_elems::<i64>(s1.len(), items.skip(1)) == Ok::<
            (Seq<i64>, Seq<WireSpec>),
            DecoderErrorSpec,
        >((s1, rest)));
        assert(s.len() == s1.len() + 1);
        assert(decode_elems::<i64>(s.len(), items) == Ok::<
            (Seq<i64>, Seq<WireSpec>),
            DecoderErrorSpec,
        >((seq![s[0]] + s1, rest)));
        assert(seq![s[0]] + s1 =~= s);
    }
}

/// Array round trip: a sequence of 64-bit integers encodes to one `Array`
/// whose declared count equals the element count, and decoding that value
/// yields the original elements in their original order.
pub proof fn lemma_round_trip_vec_i64(v: Vec<i64>)
    requires
        v@.len() <= i32::MAX,
    ensures
        v.encode_spec() matches Ok(w) && (w matches WireSpec::Array(ws, n) && n == v@.len()
            && Vec::<i64>::decode_spec(seq![w]) == Ok::<
            (Seq<i64>, Seq<WireSpec>),
            DecoderErrorSpec,
        >((v.deep_view(), Seq::<WireSpec>::empty()))),
{
    lemma_round_trip_i64_elems(v@, Seq::<WireSpec>::empty());
    let ws = (match encode_elems::<i64>(v@) {
        Ok(ws) => ws,
        Err(_) => Seq::<WireSpec>::empty(),
    });
    let w = WireSpec::Array(ws, ws.len() as int);
    assert(seq![w].skip(1) =~= Seq::<WireSpec>::empty());
    assert(ws + Seq::<WireSpec>::empty() =~= ws);
    assert(v.deep_view() =~= v@);
}

/// Overflow rejection: decoding a 64-bit integer that does not fit an 8-bit
/// unsigned field fails with the expected-number error carrying the decimal
/// rendering of the value.
pub proof fn lemma_u8_overflow_rejected(n: i64)
    requires
        n < 0 || n > u8::MAX as i64,
    ensures
        u8::decode_spec(seq![WireSpec::Int64(n)]) == Err::<
            (u8, Seq<WireSpec>),
            DecoderErrorSpec,
        >(DecoderErrorSpec::ExpectedError("Number"@, int_str(n as int))),
{
}

/// A top-level scalar accumulation context accepts exactly one value: from
/// the fresh state the first emission fills the slot, and every further
/// emission is refused, whatever was stored and whatever comes.  Through the
/// emitters' contracts, a refused emission surfaces as the occupied-slot
/// internal error with the encoder unchanged.
pub proof fn lemma_scalar_emit_once(w0: WireSpec, w: WireSpec)
    ensures
        EncoderState::Scalar(None::<WireSpec>).accept(w0) == Some(
            EncoderState::Scalar(Some(w0)),
        ),
        EncoderState::Scalar(Some(w0)).accept(w) is None,
{
}

/// Tuple arity mismatch: decoding an array of `m` declared elements as a
/// tuple of a different arity fails with the two arities named.
pub proof fn lemma_tuple_arity_mismatch(elems: Seq<WireSpec>, m: int, arity: int)
    requires
        0 <= m,
        0 <= arity,
        m != arity,
    ensures
        take_tuple(seq![WireSpec::Array(elems, m)], arity) == Err::<
            Seq<WireSpec>,
            DecoderErrorSpec,
        >(
            DecoderErrorSpec::ExpectedError(
                "Tuple"@ + dec_digits(arity as nat),
                "Tuple"@ + dec_digits(m as nat),
            ),
        ),
{
}


/// Struct round trip for one [`UnitFileChange`] standing in front of an
/// arbitrary remainder: decoding consumes exactly the one encoded struct.
proof fn lemma_round_trip_unit_file_change_at(v: UnitFileChange, rest: Seq<WireSpec>)
    ensures
        v.encode_spec() matches Ok(w) && UnitFileChange::decode_spec(seq![w] + rest) == Ok::<
            (UnitFileChangeView, Seq<WireSpec>),
            DecoderErrorSpec,
        >((v.deep_view(), rest)),
{
    let fs = seq![
        WireSpec::Str(v.action@),
        WireSpec::Str(v.link@),
        WireSpec::Str(v.destination@),
    ];
    let items = seq![WireSpec::Struct(fs)] + rest;
    assert(items[0] == WireSpec::Struct(fs));
    assert(items.skip(1) =~= rest);
    assert(fs.skip(1) =~= fs.subrange(1, 3));
    assert(fs.subrange(1, 3).skip(1) =~= fs.subrange(2, 3));
}

/// Round trip for the elements of a sequence of unit-file changes, threaded
/// through an arbitrary remainder.
proof fn lemma_round_trip_change_elems(s: Seq<UnitFileChange>, rest: Seq<WireSpec>)
    ensures
        encode_elems::<UnitFileChange>(s) matches Ok(ws) && ws.len() == s.len()
            && decode_elems::<UnitFileChange>(s.len(), ws + rest) == Ok::<
            (Seq<UnitFileChangeView>, Seq<WireSpec>),
            DecoderErrorSpec,
        >((s.map(|_i: int, c: UnitFileChange| c.deep_view()), rest)),
    decreases s.len(),
{
    if s.len() == 0 {
        assert(s.map(|_i: int, c: UnitFileChange| c.deep_view()) =~= Seq::<
            UnitFileChangeView,
        >::empty());
        assert(Seq::<WireSpec>::empty() + rest =~= rest);
    } else {
        let s1 = s.skip(1);
        lemma_round_trip_change_elems(s1, rest);
        let tailws = (match encode_elems::<UnitFileChange>(s1) {
            Ok(ws) => ws,
            Err(_) => Seq::<WireSpec>::empty(),
        });
        let w0 = (match s[0].encode_spec() {
            Ok(w) => w,
            Err(_) => WireSpec::Bool(false),
        });
        assert(encode_elems::<UnitFileChange>(s) == Ok::<Seq<WireSpec>, EncoderErrorSpec>(
            seq![w0] + tailws,
        ));
        let items = (seq![w0] + tailws) + rest;
        assert(items =~= seq![w0] + (tailws + rest));
        lemma_round_trip_unit_file_change_at(s[0], tailws + rest);
        assert(UnitFileChange::decode_spec(items) == Ok::<
            (UnitFileChangeView, Seq<WireSpec>),
            DecoderErrorSpec,
        >((s[0].deep_view(), tailws + rest)));
        assert(s.len() == s1.len() + 1);
        assert(decode_elems::<UnitFileChange>(s.len(), items) == Ok::<
            (Seq<UnitFileChangeView>, Seq<WireSpec>),
            DecoderErrorSpec,
        >(
            (
                seq![s[0].deep_view()] + s1.map(|_i: int, c: UnitFileChange| c.deep_view()),
                rest,
            ),
        ));
        assert(seq![s[0].deep_view()] + s1.map(|_i: int, c: UnitFileChange| c.deep_view()) =~= s.map(
            |_i: int, c: UnitFileChange| c.deep_view(),
        ));
    }
}

/// Nested round trip for [`UnitFileChanges`]: a record that carries a flag
/// and a sequence of further records encodes to one `Struct` holding a
/// `Bool` and an `Array`, and decoding that value yields the record back.
pub proof fn lemma_round_trip_unit_file_changes(v: UnitFileChanges)
    requires
        v.changes@.len() <= i32::MAX,
    ensures
        v.encode_spec() matches Ok(w) && UnitFileChanges::decode_spec(seq![w]) == Ok::<
            (UnitFileChangesView, Seq<WireSpec>),
            DecoderErrorSpec,
        >((v.deep_view(), Seq::<WireSpec>::empty())),
{
    lemma_round_trip_change_elems(v.changes@, Seq::<WireSpec>::empty());
    let ws = (match encode_elems::<UnitFileChange>(v.changes@) {
        Ok(ws) => ws,
        Err(_) => Seq::<WireSpec>::empty(),
    });
    let aw = WireSpec::Array(ws, ws.len() as int);
    let fs = seq![WireSpec::Bool(v.carries_install_info), aw];
    assert(seq![WireSpec::Struct(fs)].skip(1) =~= Seq::<WireSpec>::empty());
    assert(fs.skip(1) =~= seq![aw]);
    assert(seq![aw].skip(1) =~= Seq::<WireSpec>::empty());
    assert(ws + Seq::<WireSpec>::empty() =~= ws);
    assert(v.changes.deep_view() =~= v.changes@.map(|_i: int, c: UnitFileChange| c.deep_view()));
}

} // verus!
