//! The push-style encoder.
//!
//! An [`Encoder`] accumulates the wire values that a typed value's structure
//! emits while it is walked.  Its model, [`EncoderState`], is one of three
//! accumulation modes: a single scalar slot that accepts exactly one value, a
//! growing array, or a growing struct.  Nested composites each get a freshly
//! allocated encoder of the fitting mode whose finished value is then emitted
//! into the parent.

use vstd::prelude::*;
use crate::text::{ascii_lower, ascii_lowercase};
use crate::wire::{wire_views, WireSpec, WireValue};

verus! {

/// Error type for encoding.
#[derive(Clone, PartialEq, Debug)]
pub enum EncoderError {
    /// Kind not implemented by the encoder.
    EncodeNotImplemented(String),
    /// An internal-consistency error: a second value emitted into a scalar
    /// slot, a scalar encoder finished without a value, or an array grown
    /// past what its declared-count field can carry.
    InternalEncodeError(String),
}

/// The mathematical model of an [`EncoderError`].
pub enum EncoderErrorSpec {
    EncodeNotImplemented(Seq<char>),
    InternalEncodeError(Seq<char>),
}

impl View for EncoderError {
    type V = EncoderErrorSpec;

    open spec fn view(&self) -> EncoderErrorSpec {
        match self {
            EncoderError::EncodeNotImplemented(s) => EncoderErrorSpec::EncodeNotImplemented(s@),
            EncoderError::InternalEncodeError(s) => EncoderErrorSpec::InternalEncodeError(s@),
        }
    }
}

/// Result type for encoding.
pub type EncodeResult<T> = Result<T, EncoderError>;

/// The model of an encoder: its accumulation mode and what it holds so far.
pub enum EncoderState {
    Scalar(Option<WireSpec>),
    Array(Seq<WireSpec>),
    Struct(Seq<WireSpec>),
}

/// The error for a second value emitted into an occupied scalar slot.
pub open spec fn occupied_err() -> EncoderErrorSpec {
    EncoderErrorSpec::InternalEncodeError("Item already has a value"@)
}

impl EncoderState {
    /// The state after accepting one emitted value, or `None` when the
    /// single scalar slot is already occupied.
    pub open spec fn accept(self, w: WireSpec) -> Option<EncoderState> {
        match self {
            EncoderState::Scalar(slot) => match slot {
                None => Some(EncoderState::Scalar(Some(w))),
                Some(_) => None,
            },
            EncoderState::Array(ws) => Some(EncoderState::Array(ws.push(w))),
            EncoderState::Struct(ws) => Some(EncoderState::Struct(ws.push(w))),
        }
    }

    /// The finished wire value of an encoder in this state, or the exact
    /// error: an empty scalar slot has no value, and an array's declared
    /// count must equal its element count, which bounds its length.
    pub open spec fn finish(self) -> Result<WireSpec, EncoderErrorSpec> {
        match self {
            EncoderState::Scalar(slot) => match slot {
                None => Err(EncoderErrorSpec::InternalEncodeError("no value set"@)),
                Some(w) => Ok(w),
            },
            EncoderState::Array(ws) => if ws.len() > i32::MAX as nat {
                Err(EncoderErrorSpec::InternalEncodeError("array too long"@))
            } else {
                Ok(WireSpec::Array(ws, ws.len() as int))
            },
            EncoderState::Struct(ws) => Ok(WireSpec::Struct(ws)),
        }
    }
}

/// The encoder's accumulation mode.
enum Mode {
    Scalar,
    Array,
    Struct,
}

/// The encoder: accumulates emitted wire values according to its mode.
///
/// In `Scalar` mode at most one value may be emitted and `items` stays
/// unused; in `Array` and `Struct` mode the emitted values grow `items`
/// and `slot` stays unused.
pub struct Encoder {
    mode: Mode,
    slot: Option<WireValue>,
    items: Vec<WireValue>,
}

impl View for Encoder {
    type V = EncoderState;

    closed spec fn view(&self) -> EncoderState {
        match self.mode {
            Mode::Scalar => EncoderState::Scalar(
                match self.slot {
                    None => None,
                    Some(v) => Some(v@),
                },
            ),
            Mode::Array => EncoderState::Array(wire_views(self.items@)),
            Mode::Struct => EncoderState::Struct(wire_views(self.items@)),
        }
    }
}

impl Encoder {
    /// A fresh scalar-mode encoder, as each top-level encode starts with.
    pub fn new() -> (e: Encoder)
        ensures
            e@ == EncoderState::Scalar(None::<WireSpec>),
    {
        Encoder { mode: Mode::Scalar, slot: None, items: Vec::new() }
    }

    /// A fresh array-mode encoder for the elements of a sequence.
    pub fn new_array() -> (e: Encoder)
        ensures
            e@ == EncoderState::Array(Seq::<WireSpec>::empty()),
    {
        let e = Encoder { mode: Mode::Array, slot: None, items: Vec::new() };
        proof {
            assert(wire_views(e.items@) =~= Seq::<WireSpec>::empty());
        }
        e
    }

    /// A fresh struct-mode encoder for the fields of a struct.
    pub fn new_struct() -> (e: Encoder)
        ensures
            e@ == EncoderState::Struct(Seq::<WireSpec>::empty()),
    {
        let e = Encoder { mode: Mode::Struct, slot: None, items: Vec::new() };
        proof {
            assert(wire_views(e.items@) =~= Seq::<WireSpec>::empty());
        }
        e
    }

    /// Emit one wire value into the accumulator.
    fn emit(&mut self, v: WireValue) -> (r: Result<(), EncoderError>)
        ensures
            match old(self)@.accept(v@) {
                Some(s) => r matches Ok(x) && final(self)@ == s,
                None => r matches Err(a) && a@ == occupied_err() && final(self)@ == old(self)@,
            },
    {
        let ghost items0 = self.items@;
        match self.mode {
            Mode::Scalar => {
                if self.slot.is_none() {
                    self.slot = Some(v);
                    Ok(())
                } else {
                    Err(
                        EncoderError::InternalEncodeError(
                            String::from_str("Item already has a value"),
                        ),
                    )
                }
            },
            Mode::Array => {
                self.items.push(v);
                proof {
                    assert(wire_views(self.items@) =~= wire_views(items0).push(v@));
                }
                Ok(())
            },
            Mode::Struct => {
                self.items.push(v);
                proof {
                    assert(wire_views(self.items@) =~= wire_views(items0).push(v@));
                }
                Ok(())
            },
        }
    }

    /// Finalize the encoder into its single wire value.
    pub fn value(self) -> (r: Result<WireValue, EncoderError>)
        ensures
            match self@.finish() {
                Ok(w) => r matches Ok(x) && x@ == w,
                Err(e) => r matches Err(a) && a@ == e,
            },
    {
        match self.mode {
            Mode::Scalar => match self.slot {
                None => Err(EncoderError::InternalEncodeError(String::from_str("no value set"))),
                Some(v) => Ok(v),
            },
            Mode::Array => {
                if self.items.len() > i32::MAX as usize {
                    Err(EncoderError::InternalEncodeError(String::from_str("array too long")))
                } else {
                    let n = self.items.len() as i32;
                    Ok(WireValue::Array(self.items, n))
                }
            },
            Mode::Struct => Ok(WireValue::Struct(self.items)),
        }
    }

    /// Finalize this encoder and emit its value into the parent encoder.
    pub fn finish_into(self, parent: &mut Encoder) -> (r: Result<(), EncoderError>)
        ensures
            match self@.finish() {
                Ok(w) => match old(parent)@.accept(w) {
                    Some(s) => r matches Ok(x) && final(parent)@ == s,
                    None => r matches Err(a) && a@ == occupied_err() && final(parent)@ == old(
                        parent,
                    )@,
                },
                Err(e) => r matches Err(a) && a@ == e && final(parent)@ == old(parent)@,
            },
    {
        let v = match self.value() {
            Ok(v) => v,
            Err(e) => return Err(e),
        };
        parent.emit(v)
    }

    /// Emit a boolean.
    pub fn emit_bool(&mut self, v: bool) -> (r: Result<(), EncoderError>)
        ensures
            match old(self)@.accept(WireSpec::Bool(v)) {
                Some(s) => r matches Ok(x) && final(self)@ == s,
                None => r matches Err(a) && a@ == occupied_err() && final(self)@ == old(self)@,
            },
    {
        self.emit(WireValue::Bool(v))
    }

    /// Emit an unsigned 8-bit integer as a `Byte`.
    pub fn emit_u8(&mut self, v: u8) -> (r: Result<(), EncoderError>)
        ensures
            match old(self)@.accept(WireSpec::Byte(v)) {
                Some(s) => r matches Ok(x) && final(self)@ == s,
                None => r matches Err(a) && a@ == occupied_err() && final(self)@ == old(self)@,
            },
    {
        self.emit(WireValue::Byte(v))
    }

    /// Emit an unsigned 16-bit integer.
    pub fn emit_u16(&mut self, v: u16) -> (r: Result<(), EncoderError>)
        ensures
            match old(self)@.accept(WireSpec::UInt16(v)) {
                Some(s) => r matches Ok(x) && final(self)@ == s,
                None => r matches Err(a) && a@ == occupied_err() && final(self)@ == old(self)@,
            },
    {
        self.emit(WireValue::UInt16(v))
    }

    /// Emit an unsigned 32-bit integer.
    pub fn emit_u32(&mut self, v: u32) -> (r: Result<(), EncoderError>)
        ensures
            match old(self)@.accept(WireSpec::UInt32(v)) {
                Some(s) => r matches Ok(x) && final(self)@ == s,
                None => r matches Err(a) && a@ == occupied_err() && final(self)@ == old(self)@,
            },
    {
        self.emit(WireValue::UInt32(v))
    }

    /// Emit an unsigned 64-bit integer.
    pub fn emit_u64(&mut self, v: u64) -> (r: Result<(), EncoderError>)
        ensures
            match old(self)@.accept(WireSpec::UInt64(v)) {
                Some(s) => r matches Ok(x) && final(self)@ == s,
                None => r matches Err(a) && a@ == occupied_err() && final(self)@ == old(self)@,
            },
    {
        self.emit(WireValue::UInt64(v))
    }

    /// Emit a pointer-sized unsigned integer as a 64-bit unsigned wire
    /// value, which carries every pointer-sized value losslessly.
    pub fn emit_usize(&mut self, v: usize) -> (r: Result<(), EncoderError>)
        ensures
            match old(self)@.accept(WireSpec::UInt64(v as u64)) {
                Some(s) => r matches Ok(x) && final(self)@ == s,
                None => r matches Err(a) && a@ == occupied_err() && final(self)@ == old(self)@,
            },
    {
        self.emit(WireValue::UInt64(v as u64))
    }

    /// Emit a signed 8-bit integer as a `Byte` carrying its bit pattern.
    pub fn emit_i8(&mut self, v: i8) -> (r: Result<(), EncoderError>)
        ensures
            match old(self)@.accept(WireSpec::Byte(v as u8)) {
                Some(s) => r matches Ok(x) && final(self)@ == s,
                None => r matches Err(a) && a@ == occupied_err() && final(self)@ == old(self)@,
            },
    {
        self.emit(WireValue::Byte(#[verifier::truncate] (v as u8)))
    }

    /// Emit a signed 16-bit integer.
    pub fn emit_i16(&mut self, v: i16) -> (r: Result<(), EncoderError>)
        ensures
            match old(self)@.accept(WireSpec::Int16(v)) {
                Some(s) => r matches Ok(x) && final(self)@ == s,
                None => r matches Err(a) && a@ == occupied_err() && final(self)@ == old(self)@,
            },
    {
        self.emit(WireValue::Int16(v))
    }

    /// Emit a signed 32-bit integer.
    pub fn emit_i32(&mut self, v: i32) -> (r: Result<(), EncoderError>)
        ensures
            match old(self)@.accept(WireSpec::Int32(v)) {
                Some(s) => r matches Ok(x) && final(self)@ == s,
                None => r matches Err(a) && a@ == occupied_err() && final(self)@ == old(self)@,
            },
    {
        self.emit(WireValue::Int32(v))
    }

    /// Emit a signed 64-bit integer.
    pub fn emit_i64(&mut self, v: i64) -> (r: Result<(), EncoderError>)
        ensures
            match old(self)@.accept(WireSpec::Int64(v)) {
                Some(s) => r matches Ok(x) && final(self)@ == s,
                None => r matches Err(a) && a@ == occupied_err() && final(self)@ == old(self)@,
            },
    {
        self.emit(WireValue::Int64(v))
    }

    /// Emit a pointer-sized signed integer as a 64-bit signed wire value,
    /// which carries every pointer-sized value losslessly.
    pub fn emit_isize(&mut self, v: isize) -> (r: Result<(), EncoderError>)
        ensures
            match old(self)@.accept(WireSpec::Int64(v as i64)) {
                Some(s) => r matches Ok(x) && final(self)@ == s,
                None => r matches Err(a) && a@ == occupied_err() && final(self)@ == old(self)@,
            },
    {
        self.emit(WireValue::Int64(v as i64))
    }

    /// Emit a string.
    pub fn emit_str(&mut self, v: &str) -> (r: Result<(), EncoderError>)
        ensures
            match old(self)@.accept(WireSpec::Str(v@)) {
                Some(s) => r matches Ok(x) && final(self)@ == s,
                None => r matches Err(a) && a@ == occupied_err() && final(self)@ == old(self)@,
            },
    {
        self.emit(WireValue::Str(String::from_str(v)))
    }

    /// Emit a unit enum variant's tag: its name, lower-cased, as the remote
    /// interface expects its tag strings.
    pub fn emit_enum_variant(&mut self, name: &str) -> (r: Result<(), EncoderError>)
        ensures
            match old(self)@.accept(WireSpec::Str(ascii_lower(name@))) {
                Some(s) => r matches Ok(x) && final(self)@ == s,
                None => r matches Err(a) && a@ == occupied_err() && final(self)@ == old(self)@,
            },
    {
        let lower = ascii_lowercase(name);
        self.emit(WireValue::Str(lower))
    }

    /// Nil has no wire representation: encoding it always fails.
    pub fn emit_nil(&mut self) -> (r: Result<(), EncoderError>)
        ensures
            r matches Err(a) && a@ == EncoderErrorSpec::EncodeNotImplemented(
                "Encoding not implemented for nil"@,
            ),
            final(self)@ == old(self)@,
    {
        Err(EncoderError::EncodeNotImplemented(String::from_str("Encoding not implemented for nil")))
    }

    /// Characters have no wire representation: encoding one always fails.
    pub fn emit_char(&mut self, _v: char) -> (r: Result<(), EncoderError>)
        ensures
            r matches Err(a) && a@ == EncoderErrorSpec::EncodeNotImplemented(
                "Encode not implemented for char"@,
            ),
            final(self)@ == old(self)@,
    {
        Err(EncoderError::EncodeNotImplemented(String::from_str("Encode not implemented for char")))
    }

    /// Tuples are not encoded by this codec: encoding one always fails.
    pub fn emit_tuple(&mut self, _arity: usize) -> (r: Result<(), EncoderError>)
        ensures
            r matches Err(a) && a@ == EncoderErrorSpec::EncodeNotImplemented(
                "Encode not implemented for tuple"@,
            ),
            final(self)@ == old(self)@,
    {
        Err(EncoderError::EncodeNotImplemented(String::from_str("Encode not implemented for tuple")))
    }

    /// Optional values are not encoded by this codec: encoding one always
    /// fails.
    pub fn emit_option(&mut self) -> (r: Result<(), EncoderError>)
        ensures
            r matches Err(a) && a@ == EncoderErrorSpec::EncodeNotImplemented(
                "Encode not implemented for Option"@,
            ),
            final(self)@ == old(self)@,
    {
        Err(
            EncoderError::EncodeNotImplemented(
                String::from_str("Encode not implemented for Option"),
            ),
        )
    }

    /// Maps are not encoded by this codec: encoding one always fails.
    pub fn emit_map(&mut self) -> (r: Result<(), EncoderError>)
        ensures
            r matches Err(a) && a@ == EncoderErrorSpec::EncodeNotImplemented(
                "Encode not implemented for map"@,
            ),
            final(self)@ == old(self)@,
    {
        Err(EncoderError::EncodeNotImplemented(String::from_str("Encode not implemented for map")))
    }
}

/// A type whose values can be written out as one wire value.
///
/// `encode_spec` is the type's encoding model: either the model of the one
/// wire value this value encodes to, or the exact error.  `encode_onto`
/// follows the model: it emits exactly that value into the passed encoder,
/// or returns exactly that error leaving the encoder unchanged; when the
/// encoder's scalar slot is already occupied, the emission itself fails.
pub trait Encodable {
    /// The encoding model of this value.
    spec fn encode_spec(&self) -> Result<WireSpec, EncoderErrorSpec>;

    /// Encode this value into the given encoder.
    fn encode_onto(&self, e: &mut Encoder) -> (r: Result<(), EncoderError>)
        ensures
            match self.encode_spec() {
                Ok(w) => match old(e)@.accept(w) {
                    Some(s) => r matches Ok(x) && final(e)@ == s,
                    None => r matches Err(a) && a@ == occupied_err() && final(e)@ == old(e)@,
                },
                Err(er) => r matches Err(a) && a@ == er && final(e)@ == old(e)@,
            },
    ;
}

impl Encodable for bool {
    open spec fn encode_spec(&self) -> Result<WireSpec, EncoderErrorSpec> {
        Ok(WireSpec::Bool(*self))
    }

    fn encode_onto(&self, e: &mut Encoder) -> (r: Result<(), EncoderError>) {
        e.emit_bool(*self)
    }
}

impl Encodable for u8 {
    open spec fn encode_spec(&self) -> Result<WireSpec, EncoderErrorSpec> {
        Ok(WireSpec::Byte(*self))
    }

    fn encode_onto(&self, e: &mut Encoder) -> (r: Result<(), EncoderError>) {
        e.emit_u8(*self)
    }
}

impl Encodable for u16 {
    open spec fn encode_spec(&self) -> Result<WireSpec, EncoderErrorSpec> {
        Ok(WireSpec::UInt16(*self))
    }

    fn encode_onto(&self, e: &mut Encoder) -> (r: Result<(), EncoderError>) {
        e.emit_u16(*self)
    }
}

impl Encodable for u32 {
    open spec fn encode_spec(&self) -> Result<WireSpec, EncoderErrorSpec> {
        Ok(WireSpec::UInt32(*self))
    }

    fn encode_onto(&self, e: &mut Encoder) -> (r: Result<(), EncoderError>) {
        e.emit_u32(*self)
    }
}

impl Encodable for u64 {
    open spec fn encode_spec(&self) -> Result<WireSpec, EncoderErrorSpec> {
        Ok(WireSpec::UInt64(*self))
    }

    fn encode_onto(&self, e: &mut Encoder) -> (r: Result<(), EncoderError>) {
        e.emit_u64(*self)
    }
}

impl Encodable for usize {
    open spec fn encode_spec(&self) -> Result<WireSpec, EncoderErrorSpec> {
        Ok(WireSpec::UInt64(*self as u64))
    }

    fn encode_onto(&self, e: &mut Encoder) -> (r: Result<(), EncoderError>) {
        e.emit_usize(*self)
    }
}

impl Encodable for i8 {
    open spec fn encode_spec(&self) -> Result<WireSpec, EncoderErrorSpec> {
        Ok(WireSpec::Byte(*self as u8))
    }

    fn encode_onto(&self, e: &mut Encoder) -> (r: Result<(), EncoderError>) {
        e.emit_i8(*self)
    }
}

impl Encodable for i16 {
    open spec fn encode_spec(&self) -> Result<WireSpec, EncoderErrorSpec> {
        Ok(WireSpec::Int16(*self))
    }

    fn encode_onto(&self, e: &mut Encoder) -> (r: Result<(), EncoderError>) {
        e.emit_i16(*self)
    }
}

impl Encodable for i32 {
    open spec fn encode_spec(&self) -> Result<WireSpec, EncoderErrorSpec> {
        Ok(WireSpec::Int32(*self))
    }

    fn encode_onto(&self, e: &mut Encoder) -> (r: Result<(), EncoderError>) {
        e.emit_i32(*self)
    }
}

impl Encodable for i64 {
    open spec fn encode_spec(&self) -> Result<WireSpec, EncoderErrorSpec> {
        Ok(WireSpec::Int64(*self))
    }

    fn encode_onto(&self, e: &mut Encoder) -> (r: Result<(), EncoderError>) {
        e.emit_i64(*self)
    }
}

impl Encodable for isize {
    open spec fn encode_spec(&self) -> Result<WireSpec, EncoderErrorSpec> {
        Ok(WireSpec::Int64(*self as i64))
    }

    fn encode_onto(&self, e: &mut Encoder) -> (r: Result<(), EncoderError>) {
        e.emit_isize(*self)
    }
}

impl Encodable for String {
    open spec fn encode_spec(&self) -> Result<WireSpec, EncoderErrorSpec> {
        Ok(WireSpec::Str(self@))
    }

    fn encode_onto(&self, e: &mut Encoder) -> (r: Result<(), EncoderError>) {
        e.emit_str(self.as_str())
    }
}

/// The model of encoding the elements of a sequence in order: the emitted
/// wire values, or the first element's error.
pub open spec fn encode_elems<T: Encodable>(items: Seq<T>) -> Result<
    Seq<WireSpec>,
    EncoderErrorSpec,
>
    decreases items.len(),
{
    if items.len() == 0 {
        Ok(Seq::empty())
    } else {
        match items[0].encode_spec() {
            Ok(w) => match encode_elems(items.skip(1)) {
                Ok(ws) => Ok(seq![w] + ws),
                Err(e) => Err(e),
            },
            Err(e) => Err(e),
        }
    }
}

impl<T: Encodable> Encodable for Vec<T> {
    open spec fn encode_spec(&self) -> Result<WireSpec, EncoderErrorSpec> {
        match encode_elems(self@) {
            Ok(ws) => EncoderState::Array(ws).finish(),
            Err(e) => Err(e),
        }
    }

    fn encode_onto(&self, e: &mut Encoder) -> (r: Result<(), EncoderError>) {
        let mut sub = Encoder::new_array();
        proof {
            match encode_elems::<T>(self@) {
                Ok(ws) => {
                    assert(Seq::<WireSpec>::empty() + ws =~= ws);
                },
                Err(er) => {},
            }
            assert(self@.skip(0) =~= self@);
        }
        let mut i: usize = 0;
        while i < self.len()
            invariant
                i <= self@.len(),
                sub@ matches EncoderState::Array(acc) && (match encode_elems::<T>(
                    self@.skip(i as int),
                ) {
                    Ok(ws) => encode_elems::<T>(self@) == Ok::<_, EncoderErrorSpec>(acc + ws),
                    Err(er) => encode_elems::<T>(self@) == Err::<Seq<WireSpec>, _>(er),
                }),
            decreases self@.len() - i,
        {
            let ghost subprev = sub@;
            match self[i].encode_onto(&mut sub) {
                Ok(x) => {},
                Err(er) => {
                    return Err(er);
                },
            }
            i = i + 1;
            proof {
                assert(self@.skip(i - 1).skip(1) =~= self@.skip(i as int));
                assert(self@.skip(i - 1)[0] == self@[i - 1]);
                match (subprev, self@[i - 1].encode_spec()) {
                    (EncoderState::Array(acc0), Ok(w)) => {
                        match encode_elems::<T>(self@.skip(i as int)) {
                            Ok(ws) => {
                                assert((acc0.push(w)) + ws =~= acc0 + (seq![w] + ws));
                            },
                            Err(er) => {},
                        }
                    },
                    _ => {},
                }
            }
        }
        proof {
            assert(self@.skip(self@.len() as int) =~= Seq::<T>::empty());
            match sub@ {
                EncoderState::Array(acc) => {
                    assert(acc + Seq::<WireSpec>::empty() =~= acc);
                },
                _ => {},
            }
        }
        sub.finish_into(e)
    }
}

/// Encode one typed value to one wire value.
pub fn encode<T: Encodable>(x: &T) -> (r: Result<WireValue, EncoderError>)
    ensures
        match x.encode_spec() {
            Ok(w) => r matches Ok(out) && out@ == w,
            Err(e) => r matches Err(a) && a@ == e,
        },
{
    let mut e = Encoder::new();
    match x.encode_onto(&mut e) {
        Ok(x) => {},
        Err(er) => {
            return Err(er);
        },
    }
    e.value()
}

} // verus!
