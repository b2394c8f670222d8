//! One telemetry frame: the variable definitions of a session and one value for each.
use vstd::prelude::*;
use crate::text::str_eq;

verus! {

/// The primitive type of an SDK variable.
#[derive(Debug, Clone, Copy, PartialEq, Eq, Structural)]
pub enum VariableType {
    Char,
    Bool,
    Int,
    BitField,
    Float,
    Double,
}

/// An IEEE 754 single-precision value, held as its bit pattern.
#[derive(Debug, Clone, Copy, PartialEq, Eq, Structural)]
pub struct F32Bits(pub u32);

/// An IEEE 754 double-precision value, held as its bit pattern.
#[derive(Debug, Clone, Copy, PartialEq, Eq, Structural)]
pub struct F64Bits(pub u64);

/// The definition of one SDK variable.
#[derive(Debug, Clone, PartialEq, Eq)]
pub struct VariableMetadata {
    pub name: String,
    pub description: String,
    pub unit: String,
    pub value_type: VariableType,
    pub count: usize,
    pub count_as_time: bool,
}

/// The value of one SDK variable: a scalar, or an array of `count` elements.
#[derive(Debug, Clone, PartialEq)]
pub enum TelemetryValue {
    Char(u8),
    Bool(bool),
    Int(i32),
    BitField(u32),
    Float(F32Bits),
    Double(F64Bits),
    Chars(Vec<u8>),
    Bools(Vec<bool>),
    Ints(Vec<i32>),
    BitFields(Vec<u32>),
    Floats(Vec<F32Bits>),
    Doubles(Vec<F64Bits>),
}

/// The primitive type of a value.
pub open spec fn value_type_of(value: TelemetryValue) -> VariableType {
    match value {
        TelemetryValue::Char(_) | TelemetryValue::Chars(_) => VariableType::Char,
        TelemetryValue::Bool(_) | TelemetryValue::Bools(_) => VariableType::Bool,
        TelemetryValue::Int(_) | TelemetryValue::Ints(_) => VariableType::Int,
        TelemetryValue::BitField(_) | TelemetryValue::BitFields(_) => VariableType::BitField,
        TelemetryValue::Float(_) | TelemetryValue::Floats(_) => VariableType::Float,
        TelemetryValue::Double(_) | TelemetryValue::Doubles(_) => VariableType::Double,
    }
}

/// The number of elements of a value: 1 for a scalar.
pub open spec fn value_count(value: TelemetryValue) -> nat {
    match value {
        TelemetryValue::Chars(v) => v@.len(),
        TelemetryValue::Bools(v) => v@.len(),
        TelemetryValue::Ints(v) => v@.len(),
        TelemetryValue::BitFields(v) => v@.len(),
        TelemetryValue::Floats(v) => v@.len(),
        TelemetryValue::Doubles(v) => v@.len(),
        _ => 1,
    }
}

/// Whether a value is a scalar.
pub open spec fn is_scalar(value: TelemetryValue) -> bool {
    match value {
        TelemetryValue::Char(_) | TelemetryValue::Bool(_) | TelemetryValue::Int(_)
        | TelemetryValue::BitField(_) | TelemetryValue::Float(_) | TelemetryValue::Double(_) => true,
        _ => false,
    }
}

/// Whether `value` is of the type and shape that `definition` declares: a
/// scalar when the count is 1, otherwise an array of exactly `count` elements.
pub open spec fn value_matches(definition: VariableMetadata, value: TelemetryValue) -> bool {
    &&& value_type_of(value) == definition.value_type
    &&& is_scalar(value) <==> definition.count == 1
    &&& value_count(value) == definition.count
}

fn value_matches_exec(definition: &VariableMetadata, value: &TelemetryValue) -> (r: bool)
    ensures
        r == value_matches(*definition, *value),
{
    let (value_type, scalar, count) = match value {
        TelemetryValue::Char(_) => (VariableType::Char, true, 1),
        TelemetryValue::Bool(_) => (VariableType::Bool, true, 1),
        TelemetryValue::Int(_) => (VariableType::Int, true, 1),
        TelemetryValue::BitField(_) => (VariableType::BitField, true, 1),
        TelemetryValue::Float(_) => (VariableType::Float, true, 1),
        TelemetryValue::Double(_) => (VariableType::Double, true, 1),
        TelemetryValue::Chars(v) => (VariableType::Char, false, v.len()),
        TelemetryValue::Bools(v) => (VariableType::Bool, false, v.len()),
        TelemetryValue::Ints(v) => (VariableType::Int, false, v.len()),
        TelemetryValue::BitFields(v) => (VariableType::BitField, false, v.len()),
        TelemetryValue::Floats(v) => (VariableType::Float, false, v.len()),
        TelemetryValue::Doubles(v) => (VariableType::Double, false, v.len()),
    };
    value_type == definition.value_type && scalar == (definition.count == 1) && count
        == definition.count
}

/// Why a frame could not be built from definitions and values.
#[derive(Debug, Clone, Copy, PartialEq, Eq, Structural)]
pub enum FrameBuildError {
    /// The number of values differs from the number of definitions.
    LengthMismatch { definitions: usize, values: usize },
    /// The value at `index` does not have the type or shape of its definition.
    ValueMismatch { index: usize },
}

/// Every variable of one SDK update, each value validated against its definition.
#[derive(Debug)]
pub struct TelemetryFrame {
    packet_id: i32,
    definitions: Vec<VariableMetadata>,
    values: Vec<TelemetryValue>,
}

/// The index of the first definition named `name`.
pub open spec fn first_named(definitions: Seq<VariableMetadata>, name: Seq<char>) -> Option<int> {
    if exists|i: int| 0 <= i < definitions.len() && (#[trigger] definitions[i]).name@ == name {
        Some(
            choose|i: int|
                0 <= i < definitions.len() && (#[trigger] definitions[i]).name@ == name && forall|j: int|
                    0 <= j < i ==> definitions[j].name@ != name,
        )
    } else {
        None
    }
}

impl TelemetryFrame {
    #[verifier::type_invariant]
    closed spec fn inv(self) -> bool {
        &&& self.definitions@.len() == self.values@.len()
        &&& forall|i: int|
            0 <= i < self.values@.len() ==> value_matches(
                #[trigger] self.definitions@[i],
                self.values@[i],
            )
    }

    pub closed spec fn spec_packet_id(self) -> i32 {
        self.packet_id
    }

    pub closed spec fn spec_definitions(self) -> Seq<VariableMetadata> {
        self.definitions@
    }

    pub closed spec fn spec_values(self) -> Seq<TelemetryValue> {
        self.values@
    }

    /// The definition and value of the first variable named `name`.
    pub open spec fn spec_entry(self, name: Seq<char>) -> Option<(VariableMetadata, TelemetryValue)> {
        match first_named(self.spec_definitions(), name) {
            Some(i) => Some((self.spec_definitions()[i], self.spec_values()[i])),
            None => None,
        }
    }

    /// Builds a frame when every value has the type and shape of its definition.
    pub fn try_new(
        packet_id: i32,
        definitions: Vec<VariableMetadata>,
        values: Vec<TelemetryValue>,
    ) -> (r: Result<Self, FrameBuildError>)
        ensures
            definitions@.len() != values@.len() ==> r == Err::<Self, FrameBuildError>(
                FrameBuildError::LengthMismatch {
                    definitions: definitions@.len() as usize,
                    values: values@.len() as usize,
                },
            ),
            definitions@.len() == values@.len() ==> match r {
                Ok(frame) => {
                    &&& forall|i: int|
                        0 <= i < values@.len() ==> value_matches(
                            #[trigger] definitions@[i],
                            values@[i],
                        )
                    &&& frame.spec_packet_id() == packet_id
                    &&& frame.spec_definitions() == definitions@
                    &&& frame.spec_values() == values@
                },
                Err(FrameBuildError::ValueMismatch { index }) => {
                    &&& index < values@.len()
                    &&& !value_matches(definitions@[index as int], values@[index as int])
                    &&& forall|i: int|
                        0 <= i < index ==> value_matches(#[trigger] definitions@[i], values@[i])
                },
                Err(_) => false,
            },
    {
        if definitions.len() != values.len() {
            return Err(
                FrameBuildError::LengthMismatch {
                    definitions: definitions.len(),
                    values: values.len(),
                },
            );
        }
        let mut i: usize = 0;
        while i < values.len()
            invariant
                i <= values@.len(),
                definitions@.len() == values@.len(),
                forall|j: int| 0 <= j < i ==> value_matches(#[trigger] definitions@[j], values@[j]),
            decreases values@.len() - i,
        {
            if !value_matches_exec(&definitions[i], &values[i]) {
                return Err(FrameBuildError::ValueMismatch { index: i });
            }
            i = i + 1;
        }
        Ok(TelemetryFrame { packet_id, definitions, values })
    }

    /// The update counter of the frame.
    pub fn packet_id(&self) -> (r: i32)
        ensures
            r == self.spec_packet_id(),
    {
        self.packet_id
    }

    /// Every variable definition of the frame.
    pub fn variables(&self) -> (r: &[VariableMetadata])
        ensures
            r@ == self.spec_definitions(),
    {
        self.definitions.as_slice()
    }

    /// The definition and value of the first variable named `name`.
    pub fn entry(&self, name: &str) -> (r: Option<(&VariableMetadata, &TelemetryValue)>)
        ensures
            match r {
                Some((d, v)) => self.spec_entry(name@) == Some((*d, *v)) && value_matches(*d, *v),
                None => self.spec_entry(name@) is None,
            },
    {
        proof {
            use_type_invariant(self);
        }
        let mut i: usize = 0;
        while i < self.definitions.len()
            invariant
                i <= self.definitions@.len(),
                self.definitions@.len() == self.values@.len(),
                forall|j: int|
                    0 <= j < self.values@.len() ==> value_matches(
                        #[trigger] self.definitions@[j],
                        self.values@[j],
                    ),
                forall|j: int| 0 <= j < i ==> self.definitions@[j].name@ != name@,
            decreases self.definitions@.len() - i,
        {
            if str_eq(self.definitions[i].name.as_str(), name) {
                proof {
                    let k = first_named(self.definitions@, name@)->0;
                    assert(self.definitions@[i as int].name@ == name@);
                    if k < i {
                        assert(self.definitions@[k].name@ != name@);
                    }
                    if k > i {
                        assert(self.definitions@[i as int].name@ != name@);
                    }
                }
                return Some((&self.definitions[i], &self.values[i]));
            }
            i = i + 1;
        }
        None
    }

    /// The value of the first variable named `name`.
    pub fn value(&self, name: &str) -> (r: Option<&TelemetryValue>)
        ensures
            match r {
                Some(v) => self.spec_entry(name@) matches Some(e) && e.1 == *v,
                None => self.spec_entry(name@) is None,
            },
    {
        match self.entry(name) {
            Some((_, v)) => Some(v),
            None => None,
        }
    }
}

} // verus!
