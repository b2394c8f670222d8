use chiaro::irsdk::frame::{
    F32Bits, F64Bits, FrameBuildError, TelemetryFrame, TelemetryValue, VariableMetadata,
    VariableType,
};
use chiaro::irsdk::key::{ArrayKey, ScalarKey, VariableAccessError, VariableShape};

fn f32_bits(value: f32) -> F32Bits {
    F32Bits(value.to_bits())
}

fn f64_bits(value: f64) -> F64Bits {
    F64Bits(value.to_bits())
}

fn definition(name: &str, value_type: VariableType, count: usize) -> VariableMetadata {
    VariableMetadata {
        name: name.to_owned(),
        description: String::new(),
        unit: String::new(),
        value_type,
        count,
        count_as_time: false,
    }
}

fn frame() -> TelemetryFrame {
    let definitions = vec![
        definition("Char", VariableType::Char, 1),
        definition("Bool", VariableType::Bool, 1),
        definition("Int", VariableType::Int, 1),
        definition("Bits", VariableType::BitField, 1),
        definition("Float", VariableType::Float, 1),
        definition("Double", VariableType::Double, 1),
        definition("Chars", VariableType::Char, 2),
        definition("Bools", VariableType::Bool, 2),
        definition("Ints", VariableType::Int, 2),
        definition("BitFields", VariableType::BitField, 2),
        definition("Floats", VariableType::Float, 2),
        definition("Doubles", VariableType::Double, 2),
    ];
    TelemetryFrame::try_new(
        7,
        definitions,
        vec![
            TelemetryValue::Char(65),
            TelemetryValue::Bool(true),
            TelemetryValue::Int(-2),
            TelemetryValue::BitField(0x8000_0001),
            TelemetryValue::Float(f32_bits(1.5)),
            TelemetryValue::Double(f64_bits(2.5)),
            TelemetryValue::Chars(vec![65, 66]),
            TelemetryValue::Bools(vec![true, false]),
            TelemetryValue::Ints(vec![-2, 3]),
            TelemetryValue::BitFields(vec![1, 2]),
            TelemetryValue::Floats(vec![f32_bits(1.5), f32_bits(2.5)]),
            TelemetryValue::Doubles(vec![f64_bits(2.5), f64_bits(3.5)]),
        ],
    )
    .expect("valid test frame")
}

#[test]
fn reads_all_six_scalar_and_array_types() {
    let frame = frame();

    assert_eq!(frame.get(ScalarKey::<u8>::new("Char")), Ok(65));
    assert_eq!(frame.get(ScalarKey::<bool>::new("Bool")), Ok(true));
    assert_eq!(frame.get(ScalarKey::<i32>::new("Int")), Ok(-2));
    assert_eq!(frame.get(ScalarKey::<u32>::new("Bits")), Ok(0x8000_0001));
    assert_eq!(frame.get(ScalarKey::<F32Bits>::new("Float")), Ok(f32_bits(1.5)));
    assert_eq!(frame.get(ScalarKey::<F64Bits>::new("Double")), Ok(f64_bits(2.5)));
    assert_eq!(frame.get(ArrayKey::<u8>::new("Chars")), Ok(&[65, 66][..]));
    assert_eq!(frame.get(ArrayKey::<bool>::new("Bools")), Ok(&[true, false][..]));
    assert_eq!(frame.get(ArrayKey::<i32>::new("Ints")), Ok(&[-2, 3][..]));
    assert_eq!(frame.get(ArrayKey::<u32>::new("BitFields")), Ok(&[1, 2][..]));
    assert_eq!(
        frame.get(ArrayKey::<F32Bits>::new("Floats")),
        Ok(&[f32_bits(1.5), f32_bits(2.5)][..])
    );
    assert_eq!(
        frame.get(ArrayKey::<F64Bits>::new("Doubles")),
        Ok(&[f64_bits(2.5), f64_bits(3.5)][..])
    );
}

#[test]
fn distinguishes_missing_type_and_shape_errors() {
    let frame = frame();

    assert_eq!(
        frame.get(ScalarKey::<F32Bits>::new("Missing")),
        Err(VariableAccessError::Missing { name: "Missing" })
    );
    assert_eq!(
        frame.get(ScalarKey::<i32>::new("Float")),
        Err(VariableAccessError::TypeMismatch {
            name: "Float",
            expected: VariableType::Int,
            actual: VariableType::Float,
        })
    );
    assert_eq!(
        frame.get(ArrayKey::<F32Bits>::new("Float")),
        Err(VariableAccessError::ShapeMismatch {
            name: "Float",
            expected: VariableShape::Array,
            actual_count: 1,
        })
    );
    assert_eq!(frame.get_optional(ScalarKey::<F32Bits>::new("Missing")), Ok(None));
    assert_eq!(frame.get_optional(ScalarKey::<i32>::new("Int")), Ok(Some(-2)));
}

#[test]
fn frames_reject_values_that_do_not_match_their_definitions() {
    let short = TelemetryFrame::try_new(1, vec![definition("Int", VariableType::Int, 1)], vec![]);
    assert!(matches!(
        short,
        Err(FrameBuildError::LengthMismatch { definitions: 1, values: 0 })
    ));
    let wrong = TelemetryFrame::try_new(
        1,
        vec![definition("Int", VariableType::Int, 1)],
        vec![TelemetryValue::Bool(true)],
    );
    assert!(matches!(wrong, Err(FrameBuildError::ValueMismatch { index: 0 })));
    let frame = frame();
    assert_eq!(frame.packet_id(), 7);
    assert_eq!(frame.value("Int"), Some(&TelemetryValue::Int(-2)));
    assert_eq!(frame.value("Nothing"), None);
}
