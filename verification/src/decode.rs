//! The pop-style decoder.
//!
//! A [`Decoder`] consumes an ordered sequence of wire values through a
//! last-in/first-out working stack: the input is reversed once at
//! construction so that popping yields the values in their original order.
//! Every reading step is modelled by a `take_*` spec function over the
//! remaining sequence of wire-value models, and each exec reader is proved
//! against its model, so a decode either returns exactly the value the model
//! prescribes or exactly the error the model prescribes; it never panics.

use vstd::prelude::*;
use crate::text::{dec_digits, i64_to_string, int_str, render_value, render_wire, u64_to_string};
use crate::wire::{wire_views, WireSpec, WireValue};

verus! {

/// Error type for decoding.
#[derive(Clone, PartialEq, Debug)]
pub enum DecoderError {
    /// Kind not implemented by the decoder.
    NotImplemented(String),
    /// A value of one kind stood where another kind was expected:
    /// the expected kind's name, and a rendering of the actual value.
    ExpectedError(String, String),
    /// An enum tag matched none of the declared variant names.
    UnknownVariantError(String),
    /// Other errors, among them a malformed call sequence that asks for more
    /// values than remain.
    ApplicationError(String),
}

/// The mathematical model of a [`DecoderError`].
pub enum DecoderErrorSpec {
    NotImplemented(Seq<char>),
    ExpectedError(Seq<char>, Seq<char>),
    UnknownVariantError(Seq<char>),
    ApplicationError(Seq<char>),
}

impl View for DecoderError {
    type V = DecoderErrorSpec;

    open spec fn view(&self) -> DecoderErrorSpec {
        match self {
            DecoderError::NotImplemented(s) => DecoderErrorSpec::NotImplemented(s@),
            DecoderError::ExpectedError(k, v) => DecoderErrorSpec::ExpectedError(k@, v@),
            DecoderError::UnknownVariantError(s) => DecoderErrorSpec::UnknownVariantError(s@),
            DecoderError::ApplicationError(s) => DecoderErrorSpec::ApplicationError(s@),
        }
    }
}

/// Result type for decoding.
pub type DecodeResult<T> = Result<T, DecoderError>;

/// The error for a read from an exhausted working stack: the call sequence
/// asked for more values than the reply holds.
pub open spec fn empty_pop_err() -> DecoderErrorSpec {
    DecoderErrorSpec::ApplicationError("Nothing to pop"@)
}

/// The numeric value of a wire value of one of the six integer kinds.
/// `Byte` and `Double` deliberately do not count as integers here, matching
/// the transport's read-as-integer rule.
pub open spec fn int_of(w: WireSpec) -> Option<int> {
    match w {
        WireSpec::Int16(v) => Some(v as int),
        WireSpec::Int32(v) => Some(v as int),
        WireSpec::Int64(v) => Some(v as int),
        WireSpec::UInt16(v) => Some(v as int),
        WireSpec::UInt32(v) => Some(v as int),
        WireSpec::UInt64(v) => Some(v as int),
        _ => None,
    }
}

/// Reading an integer in `lo..=hi` from the front of the remaining values:
/// any integer kind is accepted and range-checked; everything else, `Double`
/// and `Byte` included, is rejected as not a number.
pub open spec fn take_int(items: Seq<WireSpec>, lo: int, hi: int) -> Result<
    (int, Seq<WireSpec>),
    DecoderErrorSpec,
> {
    if items.len() == 0 {
        Err(empty_pop_err())
    } else {
        match int_of(items[0]) {
            Some(v) => if lo <= v && v <= hi {
                Ok((v, items.skip(1)))
            } else {
                Err(DecoderErrorSpec::ExpectedError("Number"@, int_str(v)))
            },
            None => Err(DecoderErrorSpec::ExpectedError("Number"@, render_wire(items[0]))),
        }
    }
}


/// Reading a string from the front of the remaining values; an object
/// reference reads transparently as a string.
pub open spec fn take_str(items: Seq<WireSpec>) -> Result<
    (Seq<char>, Seq<WireSpec>),
    DecoderErrorSpec,
> {
    if items.len() == 0 {
        Err(empty_pop_err())
    } else {
        match items[0] {
            WireSpec::Str(s) => Ok((s, items.skip(1))),
            WireSpec::ObjectPath(s) => Ok((s, items.skip(1))),
            _ => Err(DecoderErrorSpec::ExpectedError("Str"@, render_wire(items[0]))),
        }
    }
}

/// Reading a boolean from the front of the remaining values.
pub open spec fn take_bool(items: Seq<WireSpec>) -> Result<
    (bool, Seq<WireSpec>),
    DecoderErrorSpec,
> {
    if items.len() == 0 {
        Err(empty_pop_err())
    } else {
        match items[0] {
            WireSpec::Bool(b) => Ok((b, items.skip(1))),
            _ => Err(DecoderErrorSpec::ExpectedError("Bool"@, render_wire(items[0]))),
        }
    }
}

/// Reading a character: a string that holds exactly one character.
pub open spec fn take_char(items: Seq<WireSpec>) -> Result<
    (char, Seq<WireSpec>),
    DecoderErrorSpec,
> {
    match take_str(items) {
        Ok((s, rest)) => if s.len() == 1 {
            Ok((s[0], rest))
        } else {
            Err(DecoderErrorSpec::ExpectedError("single character string"@, s))
        },
        Err(e) => Err(e),
    }
}

/// Reading the opening of a struct: its fields in order, and the values
/// that follow the struct.
pub open spec fn take_struct(items: Seq<WireSpec>) -> Result<
    (Seq<WireSpec>, Seq<WireSpec>),
    DecoderErrorSpec,
> {
    if items.len() == 0 {
        Err(empty_pop_err())
    } else {
        match items[0] {
            WireSpec::Struct(fields) => Ok((fields, items.skip(1))),
            _ => Err(DecoderErrorSpec::ExpectedError("Struct"@, render_wire(items[0]))),
        }
    }
}

/// Reading the opening of a sequence: the array's declared count, and the
/// remaining values with the elements in front.
pub open spec fn take_seq(items: Seq<WireSpec>) -> Result<
    (int, Seq<WireSpec>),
    DecoderErrorSpec,
> {
    if items.len() == 0 {
        Err(empty_pop_err())
    } else {
        match items[0] {
            WireSpec::Array(elems, n) => if n < 0 {
                Err(DecoderErrorSpec::ApplicationError("negative array length"@))
            } else {
                Ok((n, elems + items.skip(1)))
            },
            _ => Err(DecoderErrorSpec::ExpectedError("Array"@, render_wire(items[0]))),
        }
    }
}

/// Reading the opening of a tuple: a sequence whose declared count must
/// equal the expected arity.
pub open spec fn take_tuple(items: Seq<WireSpec>, arity: int) -> Result<
    Seq<WireSpec>,
    DecoderErrorSpec,
> {
    match take_seq(items) {
        Ok((n, rest)) => if n == arity {
            Ok(rest)
        } else {
            Err(
                DecoderErrorSpec::ExpectedError(
                    "Tuple"@ + dec_digits(arity as nat),
                    "Tuple"@ + dec_digits(n as nat),
                ),
            )
        },
        Err(e) => Err(e),
    }
}

/// The models of a list of variant names.
pub open spec fn str_views(names: Seq<&str>) -> Seq<Seq<char>> {
    Seq::new(names.len(), |i: int| names[i]@)
}

/// The index of the first name equal to `s` at position `i` or later,
/// or `-1` when none matches.
pub open spec fn name_index_from(names: Seq<Seq<char>>, s: Seq<char>, i: int) -> int
    decreases names.len() - i,
{
    if i < 0 || i >= names.len() {
        -1
    } else if names[i] == s {
        i
    } else {
        name_index_from(names, s, i + 1)
    }
}

/// Reading an enum tag: a string matched case-sensitively against the
/// declared variant names.
pub open spec fn take_variant(items: Seq<WireSpec>, names: Seq<Seq<char>>) -> Result<
    (int, Seq<WireSpec>),
    DecoderErrorSpec,
> {
    if items.len() == 0 {
        Err(empty_pop_err())
    } else {
        match items[0] {
            WireSpec::Str(s) => variant_index(names, s, items.skip(1)),
            WireSpec::ObjectPath(s) => variant_index(names, s, items.skip(1)),
            _ => Err(
                DecoderErrorSpec::ExpectedError("String or Object"@, render_wire(items[0])),
            ),
        }
    }
}

/// The outcome of matching a decoded tag against the variant names.
pub open spec fn variant_index(names: Seq<Seq<char>>, s: Seq<char>, rest: Seq<WireSpec>) -> Result<
    (int, Seq<WireSpec>),
    DecoderErrorSpec,
> {
    let i = name_index_from(names, s, 0);
    if i == -1 {
        Err(DecoderErrorSpec::UnknownVariantError(s))
    } else {
        Ok((i, rest))
    }
}

/// Reading the opening of an optional value: the wire grammar has no absence
/// marker, so the next value is always reported present, and is not consumed.
pub open spec fn take_option(items: Seq<WireSpec>) -> Result<
    (bool, Seq<WireSpec>),
    DecoderErrorSpec,
> {
    if items.len() == 0 {
        Err(empty_pop_err())
    } else {
        Ok((true, items))
    }
}

/// The decoder: a working stack of not-yet-consumed wire values, the next
/// one on top.  Its model is the remaining values in consumption order.
pub struct Decoder {
    stack: Vec<WireValue>,
}

impl View for Decoder {
    type V = Seq<WireSpec>;

    closed spec fn view(&self) -> Seq<WireSpec> {
        wire_views(self.stack@).reverse()
    }
}

impl Decoder {
    /// Return a new decoder that will yield the passed `items` in order.
    pub fn new(mut items: Vec<WireValue>) -> (d: Decoder)
        ensures
            d@ == wire_views(items@),
    {
        let ghost orig = items@;
        let mut stack: Vec<WireValue> = Vec::new();
        while items.len() > 0
            invariant
                items@ =~= orig.subrange(0, items@.len() as int),
                stack@.len() + items@.len() == orig.len(),
                forall|j: int|
                    0 <= j < stack@.len() ==> stack@[j] == orig[orig.len() - 1 - j],
            decreases items@.len(),
        {
            let v = items.pop().unwrap();
            stack.push(v);
        }
        let d = Decoder { stack };
        proof {
            assert(d@ =~= wire_views(orig));
        }
        d
    }

    /// Take the next wire value off the working stack, or report that the
    /// stack is exhausted.
    fn pop(&mut self) -> (r: Option<WireValue>)
        ensures
            match r {
                Some(v) => old(self)@.len() > 0 && v@ == old(self)@[0] && final(self)@
                    == old(self)@.skip(1),
                None => old(self)@.len() == 0 && final(self)@ == old(self)@,
            },
    {
        let ghost s = self.stack@;
        let r = self.stack.pop();
        proof {
            if s.len() > 0 {
                assert(self.stack@ =~= s.subrange(0, s.len() - 1));
                assert(final(self)@ =~= old(self)@.skip(1));
            }
        }
        r
    }

    /// Take the next value and require one of the six integer wire kinds,
    /// whose value always fits an `i128`.
    fn read_int(&mut self) -> (r: Result<i128, DecoderError>)
        ensures
            match r {
                Ok(v) => old(self)@.len() > 0 && int_of(old(self)@[0]) == Some(v as int)
                    && final(self)@ == old(self)@.skip(1),
                Err(e) => (old(self)@.len() == 0 && e@ == empty_pop_err()) || (old(self)@.len() > 0
                    && int_of(old(self)@[0]) is None && e@ == DecoderErrorSpec::ExpectedError(
                    "Number"@,
                    render_wire(old(self)@[0]),
                )),
            },
    {
        match self.pop() {
            None => Err(DecoderError::ApplicationError(String::from_str("Nothing to pop"))),
            Some(v) => match v {
                WireValue::Int16(n) => Ok(n as i128),
                WireValue::Int32(n) => Ok(n as i128),
                WireValue::Int64(n) => Ok(n as i128),
                WireValue::UInt16(n) => Ok(n as i128),
                WireValue::UInt32(n) => Ok(n as i128),
                WireValue::UInt64(n) => Ok(n as i128),
                other => Err(
                    DecoderError::ExpectedError(
                        String::from_str("Number"),
                        render_value(&other),
                    ),
                ),
            },
        }
    }

    /// Render an integer that came out of [`Self::read_int`].
    fn wide_to_string(v: i128) -> (s: String)
        requires
            i64::MIN as i128 <= v <= u64::MAX as i128,
        ensures
            s@ == int_str(v as int),
    {
        if v >= 0 {
            u64_to_string(v as u64)
        } else {
            i64_to_string(v as i64)
        }
    }

    /// Decode an unsigned 8-bit integer.
    pub fn read_u8(&mut self) -> (r: Result<u8, DecoderError>)
        ensures
            match take_int(old(self)@, 0, u8::MAX as int) {
                Ok((v, rest)) => r matches Ok(x) && x as int == v && final(self)@ == rest,
                Err(e) => r matches Err(a) && a@ == e,
            },
    {
        let v = match self.read_int() {
            Ok(v) => v,
            Err(e) => return Err(e),
        };
        if 0 <= v && v <= u8::MAX as i128 {
            Ok(v as u8)
        } else {
            Err(DecoderError::ExpectedError(String::from_str("Number"), Self::wide_to_string(v)))
        }
    }

    /// Decode an unsigned 16-bit integer.
    pub fn read_u16(&mut self) -> (r: Result<u16, DecoderError>)
        ensures
            match take_int(old(self)@, 0, u16::MAX as int) {
                Ok((v, rest)) => r matches Ok(x) && x as int == v && final(self)@ == rest,
                Err(e) => r matches Err(a) && a@ == e,
            },
    {
        let v = match self.read_int() {
            Ok(v) => v,
            Err(e) => return Err(e),
        };
        if 0 <= v && v <= u16::MAX as i128 {
            Ok(v as u16)
        } else {
            Err(DecoderError::ExpectedError(String::from_str("Number"), Self::wide_to_string(v)))
        }
    }

    /// Decode an unsigned 32-bit integer.
    pub fn read_u32(&mut self) -> (r: Result<u32, DecoderError>)
        ensures
            match take_int(old(self)@, 0, u32::MAX as int) {
                Ok((v, rest)) => r matches Ok(x) && x as int == v && final(self)@ == rest,
                Err(e) => r matches Err(a) && a@ == e,
            },
    {
        let v = match self.read_int() {
            Ok(v) => v,
            Err(e) => return Err(e),
        };
        if 0 <= v && v <= u32::MAX as i128 {
            Ok(v as u32)
        } else {
            Err(DecoderError::ExpectedError(String::from_str("Number"), Self::wide_to_string(v)))
        }
    }

    /// Decode an unsigned 64-bit integer.
    pub fn read_u64(&mut self) -> (r: Result<u64, DecoderError>)
        ensures
            match take_int(old(self)@, 0, u64::MAX as int) {
                Ok((v, rest)) => r matches Ok(x) && x as int == v && final(self)@ == rest,
                Err(e) => r matches Err(a) && a@ == e,
            },
    {
        let v = match self.read_int() {
            Ok(v) => v,
            Err(e) => return Err(e),
        };
        if 0 <= v && v <= u64::MAX as i128 {
            Ok(v as u64)
        } else {
            Err(DecoderError::ExpectedError(String::from_str("Number"), Self::wide_to_string(v)))
        }
    }

    /// Decode a pointer-sized unsigned integer.
    pub fn read_usize(&mut self) -> (r: Result<usize, DecoderError>)
        ensures
            match take_int(old(self)@, 0, usize::MAX as int) {
                Ok((v, rest)) => r matches Ok(x) && x as int == v && final(self)@ == rest,
                Err(e) => r matches Err(a) && a@ == e,
            },
    {
        let v = match self.read_int() {
            Ok(v) => v,
            Err(e) => return Err(e),
        };
        if 0 <= v && v <= usize::MAX as i128 {
            Ok(v as usize)
        } else {
            Err(DecoderError::ExpectedError(String::from_str("Number"), Self::wide_to_string(v)))
        }
    }

    /// Decode a signed 8-bit integer.
    pub fn read_i8(&mut self) -> (r: Result<i8, DecoderError>)
        ensures
            match take_int(old(self)@, i8::MIN as int, i8::MAX as int) {
                Ok((v, rest)) => r matches Ok(x) && x as int == v && final(self)@ == rest,
                Err(e) => r matches Err(a) && a@ == e,
            },
    {
        let v = match self.read_int() {
            Ok(v) => v,
            Err(e) => return Err(e),
        };
        if i8::MIN as i128 <= v && v <= i8::MAX as i128 {
            Ok(v as i8)
        } else {
            Err(DecoderError::ExpectedError(String::from_str("Number"), Self::wide_to_string(v)))
        }
    }

    /// Decode a signed 16-bit integer.
    pub fn read_i16(&mut self) -> (r: Result<i16, DecoderError>)
        ensures
            match take_int(old(self)@, i16::MIN as int, i16::MAX as int) {
                Ok((v, rest)) => r matches Ok(x) && x as int == v && final(self)@ == rest,
                Err(e) => r matches Err(a) && a@ == e,
            },
    {
        let v = match self.read_int() {
            Ok(v) => v,
            Err(e) => return Err(e),
        };
        if i16::MIN as i128 <= v && v <= i16::MAX as i128 {
            Ok(v as i16)
        } else {
            Err(DecoderError::ExpectedError(String::from_str("Number"), Self::wide_to_string(v)))
        }
    }

    /// Decode a signed 32-bit integer.
    pub fn read_i32(&mut self) -> (r: Result<i32, DecoderError>)
        ensures
            match take_int(old(self)@, i32::MIN as int, i32::MAX as int) {
                Ok((v, rest)) => r matches Ok(x) && x as int == v && final(self)@ == rest,
                Err(e) => r matches Err(a) && a@ == e,
            },
    {
        let v = match self.read_int() {
            Ok(v) => v,
            Err(e) => return Err(e),
        };
        if i32::MIN as i128 <= v && v <= i32::MAX as i128 {
            Ok(v as i32)
        } else {
            Err(DecoderError::ExpectedError(String::from_str("Number"), Self::wide_to_string(v)))
        }
    }

    /// Decode a signed 64-bit integer.
    pub fn read_i64(&mut self) -> (r: Result<i64, DecoderError>)
        ensures
            match take_int(old(self)@, i64::MIN as int, i64::MAX as int) {
                Ok((v, rest)) => r matches Ok(x) && x as int == v && final(self)@ == rest,
                Err(e) => r matches Err(a) && a@ == e,
            },
    {
        let v = match self.read_int() {
            Ok(v) => v,
            Err(e) => return Err(e),
        };
        if i64::MIN as i128 <= v && v <= i64::MAX as i128 {
            Ok(v as i64)
        } else {
            Err(DecoderError::ExpectedError(String::from_str("Number"), Self::wide_to_string(v)))
        }
    }

    /// Decode a pointer-sized signed integer.
    pub fn read_isize(&mut self) -> (r: Result<isize, DecoderError>)
        ensures
            match take_int(old(self)@, isize::MIN as int, isize::MAX as int) {
                Ok((v, rest)) => r matches Ok(x) && x as int == v && final(self)@ == rest,
                Err(e) => r matches Err(a) && a@ == e,
            },
    {
        let v = match self.read_int() {
            Ok(v) => v,
            Err(e) => return Err(e),
        };
        if isize::MIN as i128 <= v && v <= isize::MAX as i128 {
            Ok(v as isize)
        } else {
            Err(DecoderError::ExpectedError(String::from_str("Number"), Self::wide_to_string(v)))
        }
    }

    /// Decode a string; object references decode transparently as strings.
    pub fn read_str(&mut self) -> (r: Result<String, DecoderError>)
        ensures
            match take_str(old(self)@) {
                Ok((s, rest)) => r matches Ok(x) && x@ == s && final(self)@ == rest,
                Err(e) => r matches Err(a) && a@ == e,
            },
    {
        match self.pop() {
            None => Err(DecoderError::ApplicationError(String::from_str("Nothing to pop"))),
            Some(v) => match v {
                WireValue::Str(s) => Ok(s),
                WireValue::ObjectPath(s) => Ok(s),
                other => Err(
                    DecoderError::ExpectedError(String::from_str("Str"), render_value(&other)),
                ),
            },
        }
    }

    /// Decode a boolean.
    pub fn read_bool(&mut self) -> (r: Result<bool, DecoderError>)
        ensures
            match take_bool(old(self)@) {
                Ok((b, rest)) => r matches Ok(x) && x == b && final(self)@ == rest,
                Err(e) => r matches Err(a) && a@ == e,
            },
    {
        match self.pop() {
            None => Err(DecoderError::ApplicationError(String::from_str("Nothing to pop"))),
            Some(v) => match v {
                WireValue::Bool(b) => Ok(b),
                other => Err(
                    DecoderError::ExpectedError(String::from_str("Bool"), render_value(&other)),
                ),
            },
        }
    }

    /// Decode a character: a string value that holds exactly one character.
    pub fn read_char(&mut self) -> (r: Result<char, DecoderError>)
        ensures
            match take_char(old(self)@) {
                Ok((c, rest)) => r matches Ok(x) && x == c && final(self)@ == rest,
                Err(e) => r matches Err(a) && a@ == e,
            },
    {
        let s = match self.read_str() {
            Ok(s) => s,
            Err(e) => return Err(e),
        };
        if s.as_str().unicode_len() == 1 {
            Ok(s.as_str().get_char(0))
        } else {
            Err(
                DecoderError::ExpectedError(String::from_str("single character string"), s),
            )
        }
    }

    /// Decode the opening of a struct: the next value must be a `Struct`,
    /// and its fields are handed back as a fresh sub-decoder that yields
    /// them in declaration order.
    pub fn read_struct(&mut self) -> (r: Result<Decoder, DecoderError>)
        ensures
            match take_struct(old(self)@) {
                Ok((fields, rest)) => r matches Ok(sub) && sub@ == fields && final(self)@ == rest,
                Err(e) => r matches Err(a) && a@ == e,
            },
    {
        match self.pop() {
            None => Err(DecoderError::ApplicationError(String::from_str("Nothing to pop"))),
            Some(v) => match v {
                WireValue::Struct(children) => Ok(Decoder::new(children)),
                other => Err(
                    DecoderError::ExpectedError(String::from_str("Struct"), render_value(&other)),
                ),
            },
        }
    }

    /// Decode the opening of a sequence: the next value must be an `Array`;
    /// its elements are pushed back onto the working stack so that they pop
    /// in original order, and the array's own declared count is returned.
    pub fn read_seq(&mut self) -> (r: Result<usize, DecoderError>)
        ensures
            match take_seq(old(self)@) {
                Ok((n, rest)) => r matches Ok(k) && k as int == n && final(self)@ == rest,
                Err(e) => r matches Err(a) && a@ == e,
            },
    {
        let v = match self.pop() {
            None => return Err(DecoderError::ApplicationError(String::from_str("Nothing to pop"))),
            Some(v) => v,
        };
        match v {
            WireValue::Array(mut elems, n) => {
                if n < 0 {
                    return Err(
                        DecoderError::ApplicationError(String::from_str("negative array length")),
                    );
                }
                let ghost e0 = elems@;
                let ghost base = self.stack@;
                while elems.len() > 0
                    invariant
                        elems@.len() <= e0.len(),
                        elems@ == e0.subrange(0, elems@.len() as int),
                        self.stack@ == base + e0.subrange(
                            elems@.len() as int,
                            e0.len() as int,
                        ).reverse(),
                    decreases elems@.len(),
                {
                    let ghost k = elems@.len() as int - 1;
                    let e = elems.pop().unwrap();
                    self.stack.push(e);
                    proof {
                        assert(elems@ =~= e0.subrange(0, k));
                        assert(e0.subrange(k, e0.len() as int).reverse() =~= e0.subrange(
                            k + 1,
                            e0.len() as int,
                        ).reverse().push(e0[k]));
                        assert(self.stack@ =~= base + e0.subrange(k, e0.len() as int).reverse());
                    }
                }
                proof {
                    assert(self.stack@ =~= base + e0.reverse());
                    assert(final(self)@ =~= wire_views(e0) + wire_views(base).reverse());
                }
                Ok(n as usize)
            },
            other => Err(
                DecoderError::ExpectedError(String::from_str("Array"), render_value(&other)),
            ),
        }
    }

    /// Decode the opening of a tuple of the given arity: a sequence whose
    /// declared count must equal the arity.
    pub fn read_tuple(&mut self, arity: usize) -> (r: Result<(), DecoderError>)
        ensures
            match take_tuple(old(self)@, arity as int) {
                Ok(rest) => r matches Ok(x) && final(self)@ == rest,
                Err(e) => r matches Err(a) && a@ == e,
            },
    {
        let n = match self.read_seq() {
            Ok(n) => n,
            Err(e) => return Err(e),
        };
        if n == arity {
            Ok(())
        } else {
            let mut expected = String::from_str("Tuple");
            expected.append(u64_to_string(arity as u64).as_str());
            let mut actual = String::from_str("Tuple");
            actual.append(u64_to_string(n as u64).as_str());
            Err(DecoderError::ExpectedError(expected, actual))
        }
    }

    /// Decode an enum tag: the next value must be a string (or object
    /// reference); its contents are matched case-sensitively against the
    /// declared variant names and the index of the first match is returned.
    pub fn read_enum_variant(&mut self, names: &[&str]) -> (r: Result<usize, DecoderError>)
        ensures
            match take_variant(old(self)@, str_views(names@)) {
                Ok((idx, rest)) => r matches Ok(k) && k as int == idx && final(self)@ == rest,
                Err(e) => r matches Err(a) && a@ == e,
            },
    {
        let s = match self.pop() {
            None => return Err(DecoderError::ApplicationError(String::from_str("Nothing to pop"))),
            Some(v) => match v {
                WireValue::Str(s) => s,
                WireValue::ObjectPath(s) => s,
                other => return Err(
                    DecoderError::ExpectedError(
                        String::from_str("String or Object"),
                        render_value(&other),
                    ),
                ),
            },
        };
        let ghost nv = str_views(names@);
        let ghost rest = self@;
        let ghost tv = take_variant(old(self)@, nv);
        proof {
            assert(tv == variant_index(nv, s@, rest));
        }
        let mut i: usize = 0;
        while i < names.len()
            invariant
                0 <= i <= names@.len(),
                nv == str_views(names@),
                self@ == rest,
                tv == take_variant(old(self)@, nv),
                tv == variant_index(nv, s@, rest),
                name_index_from(nv, s@, 0) == name_index_from(nv, s@, i as int),
            decreases names@.len() - i,
        {
            let cand = String::from_str(names[i]);
            if s == cand {
                proof {
                    assert(nv[i as int] == s@);
                    assert(name_index_from(nv, s@, i as int) == i as int);
                }
                return Ok(i);
            }
            i = i + 1;
        }
        proof {
            assert(name_index_from(nv, s@, names@.len() as int) == -1);
        }
        Err(DecoderError::UnknownVariantError(s))
    }

    /// Decode the opening of an optional value: the wire grammar carries no
    /// absence marker, so as long as a value remains it is reported as
    /// present and left in place.
    pub fn read_option(&mut self) -> (r: Result<bool, DecoderError>)
        ensures
            match take_option(old(self)@) {
                Ok((b, rest)) => r matches Ok(x) && x == b && final(self)@ == rest,
                Err(e) => r matches Err(a) && a@ == e && final(self)@ == old(self)@,
            },
    {
        if self.stack.len() == 0 {
            Err(DecoderError::ApplicationError(String::from_str("Nothing to pop")))
        } else {
            Ok(true)
        }
    }

    /// Maps are not part of the supported wire grammar: decoding one always
    /// fails and consumes nothing.
    pub fn read_map(&mut self) -> (r: Result<(), DecoderError>)
        ensures
            r matches Err(a) && a@ == DecoderErrorSpec::NotImplemented("map"@),
            final(self)@ == old(self)@,
    {
        Err(DecoderError::NotImplemented(String::from_str("map")))
    }

    /// Nil is not part of the supported wire grammar: decoding one always
    /// fails and consumes nothing.
    pub fn read_nil(&mut self) -> (r: Result<(), DecoderError>)
        ensures
            r matches Err(a) && a@ == DecoderErrorSpec::NotImplemented("nil"@),
            final(self)@ == old(self)@,
    {
        Err(DecoderError::NotImplemented(String::from_str("nil")))
    }
}


/// A type that can be rebuilt from the front of a wire-value sequence.
///
/// `decode_spec` is the type's decoding model: for the remaining wire values
/// it prescribes either the model of the decoded value together with what is
/// left over, or the exact error.  `decode_from` follows the model step for
/// step, so decoding is deterministic and total over all inputs.
pub trait Decodable: Sized + DeepView {
    /// The decoding model of this type.
    spec fn decode_spec(items: Seq<WireSpec>) -> Result<
        (Self::V, Seq<WireSpec>),
        DecoderErrorSpec,
    >;

    /// Decode one value of this type from the decoder's remaining values.
    fn decode_from(d: &mut Decoder) -> (r: Result<Self, DecoderError>)
        ensures
            match Self::decode_spec(old(d)@) {
                Ok((v, rest)) => r matches Ok(x) && x.deep_view() == v && final(d)@ == rest,
                Err(e) => r matches Err(a) && a@ == e,
            },
    ;
}

impl Decodable for u8 {
    open spec fn decode_spec(items: Seq<WireSpec>) -> Result<
        (u8, Seq<WireSpec>),
        DecoderErrorSpec,
    > {
        match take_int(items, 0, u8::MAX as int) {
            Ok((v, rest)) => Ok((v as u8, rest)),
            Err(e) => Err(e),
        }
    }

    fn decode_from(d: &mut Decoder) -> (r: Result<u8, DecoderError>) {
        d.read_u8()
    }
}

impl Decodable for u16 {
    open spec fn decode_spec(items: Seq<WireSpec>) -> Result<
        (u16, Seq<WireSpec>),
        DecoderErrorSpec,
    > {
        match take_int(items, 0, u16::MAX as int) {
            Ok((v, rest)) => Ok((v as u16, rest)),
            Err(e) => Err(e),
        }
    }

    fn decode_from(d: &mut Decoder) -> (r: Result<u16, DecoderError>) {
        d.read_u16()
    }
}

impl Decodable for u32 {
    open spec fn decode_spec(items: Seq<WireSpec>) -> Result<
        (u32, Seq<WireSpec>),
        DecoderErrorSpec,
    > {
        match take_int(items, 0, u32::MAX as int) {
            Ok((v, rest)) => Ok((v as u32, rest)),
            Err(e) => Err(e),
        }
    }

    fn decode_from(d: &mut Decoder) -> (r: Result<u32, DecoderError>) {
        d.read_u32()
    }
}

impl Decodable for u64 {
    open spec fn decode_spec(items: Seq<WireSpec>) -> Result<
        (u64, Seq<WireSpec>),
        DecoderErrorSpec,
    > {
        match take_int(items, 0, u64::MAX as int) {
            Ok((v, rest)) => Ok((v as u64, rest)),
            Err(e) => Err(e),
        }
    }

    fn decode_from(d: &mut Decoder) -> (r: Result<u64, DecoderError>) {
        d.read_u64()
    }
}

impl Decodable for usize {
    open spec fn decode_spec(items: Seq<WireSpec>) -> Result<
        (usize, Seq<WireSpec>),
        DecoderErrorSpec,
    > {
        match take_int(items, 0, usize::MAX as int) {
            Ok((v, rest)) => Ok((v as usize, rest)),
            Err(e) => Err(e),
        }
    }

    fn decode_from(d: &mut Decoder) -> (r: Result<usize, DecoderError>) {
        d.read_usize()
    }
}

impl Decodable for i8 {
    open spec fn decode_spec(items: Seq<WireSpec>) -> Result<
        (i8, Seq<WireSpec>),
        DecoderErrorSpec,
    > {
        match take_int(items, i8::MIN as int, i8::MAX as int) {
            Ok((v, rest)) => Ok((v as i8, rest)),
            Err(e) => Err(e),
        }
    }

    fn decode_from(d: &mut Decoder) -> (r: Result<i8, DecoderError>) {
        d.read_i8()
    }
}

impl Decodable for i16 {
    open spec fn decode_spec(items: Seq<WireSpec>) -> Result<
        (i16, Seq<WireSpec>),
        DecoderErrorSpec,
    > {
        match take_int(items, i16::MIN as int, i16::MAX as int) {
            Ok((v, rest)) => Ok((v as i16, rest)),
            Err(e) => Err(e),
        }
    }

    fn decode_from(d: &mut Decoder) -> (r: Result<i16, DecoderError>) {
        d.read_i16()
    }
}

impl Decodable for i32 {
    open spec fn decode_spec(items: Seq<WireSpec>) -> Result<
        (i32, Seq<WireSpec>),
        DecoderErrorSpec,
    > {
        match take_int(items, i32::MIN as int, i32::MAX as int) {
            Ok((v, rest)) => Ok((v as i32, rest)),
            Err(e) => Err(e),
        }
    }

    fn decode_from(d: &mut Decoder) -> (r: Result<i32, DecoderError>) {
        d.read_i32()
    }
}

impl Decodable for i64 {
    open spec fn decode_spec(items: Seq<WireSpec>) -> Result<
        (i64, Seq<WireSpec>),
        DecoderErrorSpec,
    > {
        match take_int(items, i64::MIN as int, i64::MAX as int) {
            Ok((v, rest)) => Ok((v as i64, rest)),
            Err(e) => Err(e),
        }
    }

    fn decode_from(d: &mut Decoder) -> (r: Result<i64, DecoderError>) {
        d.read_i64()
    }
}

impl Decodable for isize {
    open spec fn decode_spec(items: Seq<WireSpec>) -> Result<
        (isize, Seq<WireSpec>),
        DecoderErrorSpec,
    > {
        match take_int(items, isize::MIN as int, isize::MAX as int) {
            Ok((v, rest)) => Ok((v as isize, rest)),
            Err(e) => Err(e),
        }
    }

    fn decode_from(d: &mut Decoder) -> (r: Result<isize, DecoderError>) {
        d.read_isize()
    }
}

impl Decodable for bool {
    open spec fn decode_spec(items: Seq<WireSpec>) -> Result<
        (bool, Seq<WireSpec>),
        DecoderErrorSpec,
    > {
        take_bool(items)
    }

    fn decode_from(d: &mut Decoder) -> (r: Result<bool, DecoderError>) {
        d.read_bool()
    }
}

impl Decodable for char {
    open spec fn decode_spec(items: Seq<WireSpec>) -> Result<
        (char, Seq<WireSpec>),
        DecoderErrorSpec,
    > {
        take_char(items)
    }

    fn decode_from(d: &mut Decoder) -> (r: Result<char, DecoderError>) {
        d.read_char()
    }
}

impl Decodable for String {
    open spec fn decode_spec(items: Seq<WireSpec>) -> Result<
        (Seq<char>, Seq<WireSpec>),
        DecoderErrorSpec,
    > {
        take_str(items)
    }

    fn decode_from(d: &mut Decoder) -> (r: Result<String, DecoderError>) {
        d.read_str()
    }
}

/// The model of decoding `n` consecutive elements of one type.
pub open spec fn decode_elems<T: Decodable>(n: nat, items: Seq<WireSpec>) -> Result<
    (Seq<T::V>, Seq<WireSpec>),
    DecoderErrorSpec,
>
    decreases n,
{
    if n == 0 {
        Ok((Seq::empty(), items))
    } else {
        match T::decode_spec(items) {
            Ok((v, rest)) => match decode_elems::<T>((n - 1) as nat, rest) {
                Ok((vs, rest2)) => Ok((seq![v] + vs, rest2)),
                Err(e) => Err(e),
            },
            Err(e) => Err(e),
        }
    }
}

impl<T: Decodable> Decodable for Vec<T> {
    open spec fn decode_spec(items: Seq<WireSpec>) -> Result<
        (Seq<T::V>, Seq<WireSpec>),
        DecoderErrorSpec,
    > {
        match take_seq(items) {
            Ok((n, rest)) => decode_elems::<T>(n as nat, rest),
            Err(e) => Err(e),
        }
    }

    fn decode_from(d: &mut Decoder) -> (r: Result<Vec<T>, DecoderError>) {
        let n = match d.read_seq() {
            Ok(n) => n,
            Err(e) => return Err(e),
        };
        let ghost goal = Vec::<T>::decode_spec(old(d)@);
        let mut out: Vec<T> = Vec::new();
        proof {
            assert(out.deep_view() =~= Seq::<T::V>::empty());
            match decode_elems::<T>(n as nat, d@) {
                Ok((vs, rest2)) => {
                    assert(Seq::<T::V>::empty() + vs =~= vs);
                },
                Err(e) => {},
            }
        }
        let mut i: usize = 0;
        while i < n
            invariant
                i <= n,
                goal == Vec::<T>::decode_spec(old(d)@),
                goal == (match decode_elems::<T>((n - i) as nat, d@) {
                    Ok((vs, rest2)) => Ok::<_, DecoderErrorSpec>((out.deep_view() + vs, rest2)),
                    Err(e) => Err(e),
                }),
            decreases n - i,
        {
            let ghost out0 = out.deep_view();
            let ghost dprev = d@;
            let x = match T::decode_from(d) {
                Ok(x) => x,
                Err(e) => return Err(e),
            };
            out.push(x);
            i = i + 1;
            proof {
                assert(out.deep_view() =~= out0 + seq![x.deep_view()]);
                assert(T::decode_spec(dprev) == Ok::<(T::V, Seq<WireSpec>), DecoderErrorSpec>(
                    (x.deep_view(), d@),
                ));
                match decode_elems::<T>((n - i) as nat, d@) {
                    Ok((vs, rest2)) => {
                        assert((out0 + seq![x.deep_view()]) + vs =~= out0 + (seq![x.deep_view()]
                            + vs));
                    },
                    Err(e) => {},
                }
            }
        }
        proof {
            assert(out.deep_view() + Seq::<T::V>::empty() =~= out.deep_view());
        }
        Ok(out)
    }
}

/// Decode one value of type `T` from a sequence of wire values; values that
/// remain unconsumed after the decode are not an error.
pub fn decode<T: Decodable>(items: Vec<WireValue>) -> (r: Result<T, DecoderError>)
    ensures
        match T::decode_spec(wire_views(items@)) {
            Ok((v, rest)) => r matches Ok(x) && x.deep_view() == v,
            Err(e) => r matches Err(a) && a@ == e,
        },
{
    let mut d = Decoder::new(items);
    T::decode_from(&mut d)
}

} // verus!
