//! Typed keys for strict access to telemetry frames: a key names a variable
//! and fixes its primitive type and its scalar or array shape.
use std::marker::PhantomData;
use vstd::prelude::*;
use crate::irsdk::frame::{
    F32Bits, F64Bits, TelemetryFrame, TelemetryValue, VariableType, is_scalar, value_count,
    value_matches, value_type_of,
};

verus! {

/// Whether a typed telemetry key addresses one value or an SDK array.
#[derive(Debug, Clone, Copy, PartialEq, Eq, Hash, Structural)]
pub enum VariableShape {
    Scalar,
    Array,
}

/// An error returned by strict typed access to a telemetry frame.
#[derive(Debug, Clone, PartialEq, Eq)]
#[non_exhaustive]
pub enum VariableAccessError {
    Missing { name: &'static str },
    TypeMismatch { name: &'static str, expected: VariableType, actual: VariableType },
    ShapeMismatch { name: &'static str, expected: VariableShape, actual_count: usize },
}

/// A name and primitive type for one telemetry value.
#[derive(Debug, PartialEq, Eq, Hash)]
pub struct ScalarKey<T> {
    pub(crate) name: &'static str,
    pub(crate) marker: PhantomData<T>,
}

impl<T> ScalarKey<T> {
    /// The SDK name of the variable.
    pub closed spec fn spec_name(self) -> Seq<char> {
        self.name@
    }

    pub fn new(name: &'static str) -> (r: Self)
        ensures
            r.spec_name() == name@,
    {
        ScalarKey { name, marker: PhantomData }
    }

    pub fn name(self) -> (r: &'static str)
        ensures
            r@ == self.spec_name(),
    {
        self.name
    }
}

impl<T> Clone for ScalarKey<T> {
    fn clone(&self) -> (r: Self)
        ensures
            r.spec_name() == self.spec_name(),
    {
        ScalarKey { name: self.name, marker: PhantomData }
    }
}

impl<T> Copy for ScalarKey<T> {
}

/// A name and element type for an array telemetry value.
#[derive(Debug, PartialEq, Eq, Hash)]
pub struct ArrayKey<T> {
    pub(crate) name: &'static str,
    pub(crate) marker: PhantomData<T>,
}

impl<T> ArrayKey<T> {
    /// The SDK name of the variable.
    pub closed spec fn spec_name(self) -> Seq<char> {
        self.name@
    }

    pub fn new(name: &'static str) -> (r: Self)
        ensures
            r.spec_name() == name@,
    {
        ArrayKey { name, marker: PhantomData }
    }

    pub fn name(self) -> (r: &'static str)
        ensures
            r@ == self.spec_name(),
    {
        self.name
    }
}

impl<T> Clone for ArrayKey<T> {
    fn clone(&self) -> (r: Self)
        ensures
            r.spec_name() == self.spec_name(),
    {
        ArrayKey { name: self.name, marker: PhantomData }
    }
}

impl<T> Copy for ArrayKey<T> {
}

/// Marks the six SDK primitive representations.
pub trait SealedPrimitive {

}

/// Marks the two key shapes.
pub trait SealedKey {

}

/// SDK primitives supported by typed telemetry keys.
pub trait TelemetryPrimitive: SealedPrimitive + Copy + Sized {
    /// The SDK type whose values this primitive reads.
    spec fn spec_variable_type() -> VariableType;

    /// The scalar that `value` holds, when it is a scalar of this type.
    spec fn spec_scalar(value: TelemetryValue) -> Option<Self>;

    /// The elements that `value` holds, when it is an array of this type.
    spec fn spec_array(value: TelemetryValue) -> Option<Seq<Self>>;

    fn variable_type() -> (r: VariableType)
        ensures
            r == Self::spec_variable_type(),
    ;

    fn scalar(value: &TelemetryValue) -> (r: Option<Self>)
        ensures
            r == Self::spec_scalar(*value),
    ;

    fn array(value: &TelemetryValue) -> (r: Option<&[Self]>)
        ensures
            match r {
                Some(s) => Self::spec_array(*value) == Some(s@),
                None => Self::spec_array(*value) is None,
            },
    ;

    /// A value of this type is read as a scalar when it is one, and as an array otherwise.
    proof fn lemma_reads(value: TelemetryValue)
        ensures
            value_type_of(value) == Self::spec_variable_type() && is_scalar(value) ==> Self::spec_scalar(value) is Some,
            value_type_of(value) == Self::spec_variable_type() && !is_scalar(value) ==> Self::spec_array(value) is Some,
    ;
}

} // verus!

verus! {

impl SealedPrimitive for u8 {

}

impl TelemetryPrimitive for u8 {
    open spec fn spec_variable_type() -> VariableType {
        VariableType::Char
    }

    open spec fn spec_scalar(value: TelemetryValue) -> Option<Self> {
        match value {
            TelemetryValue::Char(v) => Some(v),
            _ => None,
        }
    }

    open spec fn spec_array(value: TelemetryValue) -> Option<Seq<Self>> {
        match value {
            TelemetryValue::Chars(v) => Some(v@),
            _ => None,
        }
    }

    fn variable_type() -> (r: VariableType) {
        VariableType::Char
    }

    fn scalar(value: &TelemetryValue) -> (r: Option<Self>) {
        match value {
            TelemetryValue::Char(v) => Some(*v),
            _ => None,
        }
    }

    fn array(value: &TelemetryValue) -> (r: Option<&[Self]>) {
        match value {
            TelemetryValue::Chars(v) => Some(v.as_slice()),
            _ => None,
        }
    }

    proof fn lemma_reads(value: TelemetryValue) {
    }
}

impl SealedPrimitive for bool {

}

impl TelemetryPrimitive for bool {
    open spec fn spec_variable_type() -> VariableType {
        VariableType::Bool
    }

    open spec fn spec_scalar(value: TelemetryValue) -> Option<Self> {
        match value {
            TelemetryValue::Bool(v) => Some(v),
            _ => None,
        }
    }

    open spec fn spec_array(value: TelemetryValue) -> Option<Seq<Self>> {
        match value {
            TelemetryValue::Bools(v) => Some(v@),
            _ => None,
        }
    }

    fn variable_type() -> (r: VariableType) {
        VariableType::Bool
    }

    fn scalar(value: &TelemetryValue) -> (r: Option<Self>) {
        match value {
            TelemetryValue::Bool(v) => Some(*v),
            _ => None,
        }
    }

    fn array(value: &TelemetryValue) -> (r: Option<&[Self]>) {
        match value {
            TelemetryValue::Bools(v) => Some(v.as_slice()),
            _ => None,
        }
    }

    proof fn lemma_reads(value: TelemetryValue) {
    }
}

impl SealedPrimitive for i32 {

}

impl TelemetryPrimitive for i32 {
    open spec fn spec_variable_type() -> VariableType {
        VariableType::Int
    }

    open spec fn spec_scalar(value: TelemetryValue) -> Option<Self> {
        match value {
            TelemetryValue::Int(v) => Some(v),
            _ => None,
        }
    }

    open spec fn spec_array(value: TelemetryValue) -> Option<Seq<Self>> {
        match value {
            TelemetryValue::Ints(v) => Some(v@),
            _ => None,
        }
    }

    fn variable_type() -> (r: VariableType) {
        VariableType::Int
    }

    fn scalar(value: &TelemetryValue) -> (r: Option<Self>) {
        match value {
            TelemetryValue::Int(v) => Some(*v),
            _ => None,
        }
    }

    fn array(value: &TelemetryValue) -> (r: Option<&[Self]>) {
        match value {
            TelemetryValue::Ints(v) => Some(v.as_slice()),
            _ => None,
        }
    }

    proof fn lemma_reads(value: TelemetryValue) {
    }
}

impl SealedPrimitive for u32 {

}

impl TelemetryPrimitive for u32 {
    open spec fn spec_variable_type() -> VariableType {
        VariableType::BitField
    }

    open spec fn spec_scalar(value: TelemetryValue) -> Option<Self> {
        match value {
            TelemetryValue::BitField(v) => Some(v),
            _ => None,
        }
    }

    open spec fn spec_array(value: TelemetryValue) -> Option<Seq<Self>> {
        match value {
            TelemetryValue::BitFields(v) => Some(v@),
            _ => None,
        }
    }

    fn variable_type() -> (r: VariableType) {
        VariableType::BitField
    }

    fn scalar(value: &TelemetryValue) -> (r: Option<Self>) {
        match value {
            TelemetryValue::BitField(v) => Some(*v),
            _ => None,
        }
    }

    fn array(value: &TelemetryValue) -> (r: Option<&[Self]>) {
        match value {
            TelemetryValue::BitFields(v) => Some(v.as_slice()),
            _ => None,
        }
    }

    proof fn lemma_reads(value: TelemetryValue) {
    }
}

impl SealedPrimitive for F32Bits {

}

impl TelemetryPrimitive for F32Bits {
    open spec fn spec_variable_type() -> VariableType {
        VariableType::Float
    }

    open spec fn spec_scalar(value: TelemetryValue) -> Option<Self> {
        match value {
            TelemetryValue::Float(v) => Some(v),
            _ => None,
        }
    }

    open spec fn spec_array(value: TelemetryValue) -> Option<Seq<Self>> {
        match value {
            TelemetryValue::Floats(v) => Some(v@),
            _ => None,
        }
    }

    fn variable_type() -> (r: VariableType) {
        VariableType::Float
    }

    fn scalar(value: &TelemetryValue) -> (r: Option<Self>) {
        match value {
            TelemetryValue::Float(v) => Some(*v),
            _ => None,
        }
    }

    fn array(value: &TelemetryValue) -> (r: Option<&[Self]>) {
        match value {
            TelemetryValue::Floats(v) => Some(v.as_slice()),
            _ => None,
        }
    }

    proof fn lemma_reads(value: TelemetryValue) {
    }
}

impl SealedPrimitive for F64Bits {

}

impl TelemetryPrimitive for F64Bits {
    open spec fn spec_variable_type() -> VariableType {
        VariableType::Double
    }

    open spec fn spec_scalar(value: TelemetryValue) -> Option<Self> {
        match value {
            TelemetryValue::Double(v) => Some(v),
            _ => None,
        }
    }

    open spec fn spec_array(value: TelemetryValue) -> Option<Seq<Self>> {
        match value {
            TelemetryValue::Doubles(v) => Some(v@),
            _ => None,
        }
    }

    fn variable_type() -> (r: VariableType) {
        VariableType::Double
    }

    fn scalar(value: &TelemetryValue) -> (r: Option<Self>) {
        match value {
            TelemetryValue::Double(v) => Some(*v),
            _ => None,
        }
    }

    fn array(value: &TelemetryValue) -> (r: Option<&[Self]>) {
        match value {
            TelemetryValue::Doubles(v) => Some(v.as_slice()),
            _ => None,
        }
    }

    proof fn lemma_reads(value: TelemetryValue) {
    }
}

} // verus!

verus! {

/// A scalar or array key accepted by `TelemetryFrame::get`.
pub trait TelemetryKey<'a>: SealedKey + Copy {
    type Output;

    /// The SDK name of the variable.
    spec fn spec_key_name(self) -> Seq<char>;

    /// The SDK type that the key reads.
    spec fn spec_value_type(self) -> VariableType;

    /// The shape that the key reads.
    spec fn spec_shape(self) -> VariableShape;

    /// Whether `out` is what the key reads from `value`.
    spec fn decodes_to(self, value: TelemetryValue, out: Self::Output) -> bool;

    fn name(self) -> (r: &'static str)
        ensures
            r@ == self.spec_key_name(),
    ;

    fn value_type(self) -> (r: VariableType)
        ensures
            r == self.spec_value_type(),
    ;

    fn shape(self) -> (r: VariableShape)
        ensures
            r == self.spec_shape(),
    ;

    fn decode(self, value: &'a TelemetryValue) -> (r: Option<Self::Output>)
        ensures
            match r {
                Some(out) => self.decodes_to(*value, out),
                None => !(value_type_of(*value) == self.spec_value_type() && (is_scalar(*value)
                    <==> self.spec_shape() == VariableShape::Scalar)),
            },
    ;
}

impl<T: TelemetryPrimitive> SealedKey for ScalarKey<T> {

}

impl<'a, T: TelemetryPrimitive + 'a> TelemetryKey<'a> for ScalarKey<T> {
    type Output = T;

    open spec fn spec_key_name(self) -> Seq<char> {
        self.spec_name()
    }

    open spec fn spec_value_type(self) -> VariableType {
        T::spec_variable_type()
    }

    open spec fn spec_shape(self) -> VariableShape {
        VariableShape::Scalar
    }

    open spec fn decodes_to(self, value: TelemetryValue, out: T) -> bool {
        T::spec_scalar(value) == Some(out)
    }

    fn name(self) -> (r: &'static str) {
        self.name
    }

    fn value_type(self) -> (r: VariableType) {
        T::variable_type()
    }

    fn shape(self) -> (r: VariableShape) {
        VariableShape::Scalar
    }

    fn decode(self, value: &'a TelemetryValue) -> (r: Option<T>) {
        proof {
            T::lemma_reads(*value);
        }
        T::scalar(value)
    }
}

impl<T: TelemetryPrimitive> SealedKey for ArrayKey<T> {

}

impl<'a, T: TelemetryPrimitive + 'a> TelemetryKey<'a> for ArrayKey<T> {
    type Output = &'a [T];

    open spec fn spec_key_name(self) -> Seq<char> {
        self.spec_name()
    }

    open spec fn spec_value_type(self) -> VariableType {
        T::spec_variable_type()
    }

    open spec fn spec_shape(self) -> VariableShape {
        VariableShape::Array
    }

    open spec fn decodes_to(self, value: TelemetryValue, out: &'a [T]) -> bool {
        T::spec_array(value) == Some(out@)
    }

    fn name(self) -> (r: &'static str) {
        self.name
    }

    fn value_type(self) -> (r: VariableType) {
        T::variable_type()
    }

    fn shape(self) -> (r: VariableShape) {
        VariableShape::Array
    }

    fn decode(self, value: &'a TelemetryValue) -> (r: Option<&'a [T]>) {
        proof {
            T::lemma_reads(*value);
        }
        T::array(value)
    }
}

} // verus!

verus! {

/// Whether a variable declared with `count` elements has the shape `shape`.
pub open spec fn shape_matches(shape: VariableShape, count: usize) -> bool {
    (shape == VariableShape::Scalar) == (count == 1)
}

impl TelemetryFrame {
    /// Reads a typed variable when it is published for the current car/session.
    ///
    /// A missing variable returns `Ok(None)`. A published variable with the
    /// wrong primitive type or scalar/array shape is still an error.
    pub fn get_optional<'a, K: TelemetryKey<'a>>(&'a self, key: K) -> (r: Result<
        Option<K::Output>,
        VariableAccessError,
    >)
        ensures
            match self.spec_entry(key.spec_key_name()) {
                None => r matches Ok(None),
                Some((definition, value)) => if definition.value_type != key.spec_value_type() {
                    r matches Err(VariableAccessError::TypeMismatch { name, expected, actual })
                        && name@ == key.spec_key_name() && expected == key.spec_value_type()
                        && actual == definition.value_type
                } else if !shape_matches(key.spec_shape(), definition.count) {
                    r matches Err(VariableAccessError::ShapeMismatch { name, expected, actual_count })
                        && name@ == key.spec_key_name() && expected == key.spec_shape()
                        && actual_count == definition.count
                } else {
                    r matches Ok(Some(out)) && key.decodes_to(value, out)
                },
            },
    {
        let (metadata, value) = match self.entry(key.name()) {
            Some(entry) => entry,
            None => {
                return Ok(None);
            },
        };
        let expected_type = key.value_type();
        if metadata.value_type != expected_type {
            return Err(
                VariableAccessError::TypeMismatch {
                    name: key.name(),
                    expected: expected_type,
                    actual: metadata.value_type,
                },
            );
        }
        let expected_shape = key.shape();
        let actual_is_scalar = metadata.count == 1;
        let shape_is_scalar = match expected_shape {
            VariableShape::Scalar => true,
            VariableShape::Array => false,
        };
        if shape_is_scalar != actual_is_scalar {
            return Err(
                VariableAccessError::ShapeMismatch {
                    name: key.name(),
                    expected: expected_shape,
                    actual_count: metadata.count,
                },
            );
        }
        match key.decode(value) {
            Some(out) => Ok(Some(out)),
            None => Ok(None),
        }
    }

    /// Reads a required variable using its exact SDK primitive type and shape.
    pub fn get<'a, K: TelemetryKey<'a>>(&'a self, key: K) -> (r: Result<
        K::Output,
        VariableAccessError,
    >)
        ensures
            match self.spec_entry(key.spec_key_name()) {
                None => r matches Err(VariableAccessError::Missing { name }) && name@
                    == key.spec_key_name(),
                Some((definition, value)) => if definition.value_type != key.spec_value_type() {
                    r matches Err(VariableAccessError::TypeMismatch { name, expected, actual })
                        && name@ == key.spec_key_name() && expected == key.spec_value_type()
                        && actual == definition.value_type
                } else if !shape_matches(key.spec_shape(), definition.count) {
                    r matches Err(VariableAccessError::ShapeMismatch { name, expected, actual_count })
                        && name@ == key.spec_key_name() && expected == key.spec_shape()
                        && actual_count == definition.count
                } else {
                    r matches Ok(out) && key.decodes_to(value, out)
                },
            },
    {
        match self.get_optional(key)? {
            Some(out) => Ok(out),
            None => Err(VariableAccessError::Missing { name: key.name() }),
        }
    }
}

} // verus!
