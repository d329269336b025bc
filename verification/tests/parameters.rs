use ros2_client::parameters::raw;
use ros2_client::parameters::{
    parameters_from_raw, parameters_to_raw, Float64, Parameter, ParameterEvent, ParameterValue,
    SetParametersResult,
};
use ros2_client::transport::Timestamp;

fn double(x: f64) -> Float64 {
    Float64::from_bits(x.to_bits())
}

fn text(s: &str) -> String {
    s.to_string()
}

/// A record with nothing in it: `ptype` 0 and every slot at its default.
fn blank_record() -> raw::ParameterValue {
    raw::ParameterValue {
        ptype: 0,
        boolean_value: false,
        int_value: 0,
        double_value: Float64 { bits: 0 },
        string_value: String::new(),
        byte_array: Vec::new(),
        bool_array: Vec::new(),
        int_array: Vec::new(),
        double_array: Vec::new(),
        string_array: Vec::new(),
    }
}

/// A record with something in every slot.
fn crowded_record(ptype: u8) -> raw::ParameterValue {
    raw::ParameterValue {
        ptype,
        boolean_value: true,
        int_value: -7,
        double_value: double(2.5),
        string_value: text("text"),
        byte_array: vec![1, 2, 3],
        bool_array: vec![true, false],
        int_array: vec![i64::MIN, 0, i64::MAX],
        double_array: vec![double(-0.0), double(1e300)],
        string_array: vec![text("x"), text("")],
    }
}

/// One value of each kind, and for each kind that can be empty an empty one.
fn sample_values() -> Vec<ParameterValue> {
    vec![
        ParameterValue::NotSet,
        ParameterValue::Boolean(true),
        ParameterValue::Boolean(false),
        ParameterValue::Integer(0),
        ParameterValue::Integer(-1),
        ParameterValue::Integer(i64::MAX),
        ParameterValue::Integer(i64::MIN),
        ParameterValue::Double(double(0.0)),
        ParameterValue::Double(double(-0.0)),
        ParameterValue::Double(double(3.141592653589793)),
        ParameterValue::Double(double(f64::INFINITY)),
        ParameterValue::Double(double(f64::NAN)),
        ParameterValue::String(text("")),
        ParameterValue::String(text("hello")),
        ParameterValue::String(text("zażółć gęślą jaźń")),
        ParameterValue::ByteArray(vec![]),
        ParameterValue::ByteArray(vec![0, 255, 7]),
        ParameterValue::BooleanArray(vec![]),
        ParameterValue::BooleanArray(vec![true, false, true]),
        ParameterValue::IntegerArray(vec![]),
        ParameterValue::IntegerArray(vec![1, -2, 3]),
        ParameterValue::DoubleArray(vec![]),
        ParameterValue::DoubleArray(vec![double(1.0), double(-2.5)]),
        ParameterValue::StringArray(vec![]),
        ParameterValue::StringArray(vec![text("a"), text(""), text("c")]),
    ]
}

#[test]
fn integer_42_encodes_to_its_record_and_back() {
    let record = raw::ParameterValue::from(ParameterValue::Integer(42));
    let mut expected = blank_record();
    expected.ptype = 2;
    expected.int_value = 42;
    assert_eq!(record, expected);
    assert_eq!(ParameterValue::from(record), ParameterValue::Integer(42));
}

#[test]
fn text_sequence_encodes_to_its_record_and_back() {
    let value = ParameterValue::StringArray(vec![text("a"), text("b")]);
    let record = raw::ParameterValue::from(value.clone());
    let mut expected = blank_record();
    expected.ptype = 9;
    expected.string_array = vec![text("a"), text("b")];
    assert_eq!(record, expected);
    assert_eq!(ParameterValue::from(record), value);
}

#[test]
fn every_kind_of_value_survives_the_round_trip() {
    for value in sample_values() {
        let record = raw::ParameterValue::from(value.clone());
        assert_eq!(ParameterValue::from(record), value);
    }
}

#[test]
fn into_encodes_and_decodes_as_from_does() {
    let record: raw::ParameterValue = ParameterValue::Boolean(true).into();
    assert_eq!(record.ptype, 1);
    assert!(record.boolean_value);
    let value: ParameterValue = record.into();
    assert_eq!(value, ParameterValue::Boolean(true));
}

#[test]
fn each_kind_encodes_to_its_own_record() {
    let mut expected = blank_record();
    assert_eq!(raw::ParameterValue::from(ParameterValue::NotSet), expected);

    expected = blank_record();
    expected.ptype = 1;
    expected.boolean_value = true;
    assert_eq!(raw::ParameterValue::from(ParameterValue::Boolean(true)), expected);

    expected = blank_record();
    expected.ptype = 3;
    expected.double_value = double(1.5);
    assert_eq!(raw::ParameterValue::from(ParameterValue::Double(double(1.5))), expected);
    assert_eq!(f64::from_bits(expected.double_value.to_bits()), 1.5);

    expected = blank_record();
    expected.ptype = 4;
    expected.string_value = text("name");
    assert_eq!(raw::ParameterValue::from(ParameterValue::String(text("name"))), expected);

    expected = blank_record();
    expected.ptype = 5;
    expected.byte_array = vec![9, 8];
    assert_eq!(raw::ParameterValue::from(ParameterValue::ByteArray(vec![9, 8])), expected);

    expected = blank_record();
    expected.ptype = 6;
    expected.bool_array = vec![false, true];
    assert_eq!(
        raw::ParameterValue::from(ParameterValue::BooleanArray(vec![false, true])),
        expected
    );

    expected = blank_record();
    expected.ptype = 7;
    expected.int_array = vec![5, 6, 7];
    assert_eq!(
        raw::ParameterValue::from(ParameterValue::IntegerArray(vec![5, 6, 7])),
        expected
    );

    expected = blank_record();
    expected.ptype = 8;
    expected.double_array = vec![double(0.5)];
    assert_eq!(
        raw::ParameterValue::from(ParameterValue::DoubleArray(vec![double(0.5)])),
        expected
    );
}

#[test]
fn slots_other_than_the_selected_one_hold_their_defaults() {
    for value in sample_values() {
        let tag = ParameterValue::to_parameter_type_enum(&value);
        let record = raw::ParameterValue::from(value);
        assert_eq!(record.ptype, tag);
        if tag != 1 {
            assert!(!record.boolean_value);
        }
        if tag != 2 {
            assert_eq!(record.int_value, 0);
        }
        if tag != 3 {
            assert_eq!(record.double_value.bits, 0);
            assert_eq!(f64::from_bits(record.double_value.bits), 0.0);
        }
        if tag != 4 {
            assert_eq!(record.string_value, "");
        }
        if tag != 5 {
            assert!(record.byte_array.is_empty());
        }
        if tag != 6 {
            assert!(record.bool_array.is_empty());
        }
        if tag != 7 {
            assert!(record.int_array.is_empty());
        }
        if tag != 8 {
            assert!(record.double_array.is_empty());
        }
        if tag != 9 {
            assert!(record.string_array.is_empty());
        }
    }
}

#[test]
fn encoding_is_deterministic() {
    for value in sample_values() {
        let first = raw::ParameterValue::from(value.clone());
        let second = raw::ParameterValue::from(value);
        assert_eq!(first, second);
    }
}

#[test]
fn unknown_discriminant_decodes_to_not_set() {
    assert_eq!(ParameterValue::from(crowded_record(255)), ParameterValue::NotSet);
    assert_eq!(ParameterValue::from(crowded_record(10)), ParameterValue::NotSet);
    assert_eq!(ParameterValue::from(crowded_record(128)), ParameterValue::NotSet);
    let mut blank = blank_record();
    blank.ptype = 255;
    assert_eq!(ParameterValue::from(blank), ParameterValue::NotSet);
}

#[test]
fn decoding_reads_the_selected_slot_only() {
    assert_eq!(ParameterValue::from(crowded_record(0)), ParameterValue::NotSet);
    assert_eq!(ParameterValue::from(crowded_record(1)), ParameterValue::Boolean(true));
    assert_eq!(ParameterValue::from(crowded_record(2)), ParameterValue::Integer(-7));
    assert_eq!(ParameterValue::from(crowded_record(3)), ParameterValue::Double(double(2.5)));
    assert_eq!(ParameterValue::from(crowded_record(4)), ParameterValue::String(text("text")));
    assert_eq!(ParameterValue::from(crowded_record(5)), ParameterValue::ByteArray(vec![1, 2, 3]));
    assert_eq!(
        ParameterValue::from(crowded_record(6)),
        ParameterValue::BooleanArray(vec![true, false])
    );
    assert_eq!(
        ParameterValue::from(crowded_record(7)),
        ParameterValue::IntegerArray(vec![i64::MIN, 0, i64::MAX])
    );
    assert_eq!(
        ParameterValue::from(crowded_record(8)),
        ParameterValue::DoubleArray(vec![double(-0.0), double(1e300)])
    );
    assert_eq!(
        ParameterValue::from(crowded_record(9)),
        ParameterValue::StringArray(vec![text("x"), text("")])
    );
}

#[test]
fn canonical_record_survives_decoding_and_encoding() {
    let mut record = blank_record();
    record.ptype = 7;
    record.int_array = vec![4, 5];
    let back = raw::ParameterValue::from(ParameterValue::from(record.clone()));
    assert_eq!(back, record);
}

#[test]
fn type_tags_run_from_0_to_9() {
    assert_eq!(ParameterValue::to_parameter_type_enum(&ParameterValue::NotSet), 0);
    assert_eq!(ParameterValue::to_parameter_type_enum(&ParameterValue::Boolean(false)), 1);
    assert_eq!(ParameterValue::to_parameter_type_enum(&ParameterValue::Integer(5)), 2);
    assert_eq!(ParameterValue::to_parameter_type_enum(&ParameterValue::Double(double(1.0))), 3);
    assert_eq!(ParameterValue::to_parameter_type_enum(&ParameterValue::String(text("s"))), 4);
    assert_eq!(ParameterValue::to_parameter_type_enum(&ParameterValue::ByteArray(vec![1])), 5);
    assert_eq!(ParameterValue::to_parameter_type_enum(&ParameterValue::BooleanArray(vec![])), 6);
    assert_eq!(ParameterValue::to_parameter_type_enum(&ParameterValue::IntegerArray(vec![])), 7);
    assert_eq!(ParameterValue::to_parameter_type_enum(&ParameterValue::DoubleArray(vec![])), 8);
    assert_eq!(ParameterValue::to_parameter_type_enum(&ParameterValue::StringArray(vec![])), 9);
}

#[test]
fn parameter_type_constants_have_the_wire_numbers() {
    assert_eq!(raw::ParameterType::NOT_SET, 0);
    assert_eq!(raw::ParameterType::BOOL, 1);
    assert_eq!(raw::ParameterType::INTEGER, 2);
    assert_eq!(raw::ParameterType::DOUBLE, 3);
    assert_eq!(raw::ParameterType::STRING, 4);
    assert_eq!(raw::ParameterType::BYTE_ARRAY, 5);
    assert_eq!(raw::ParameterType::BOOL_ARRAY, 6);
    assert_eq!(raw::ParameterType::INTEGER_ARRAY, 7);
    assert_eq!(raw::ParameterType::DOUBLE_ARRAY, 8);
    assert_eq!(raw::ParameterType::STRING_ARRAY, 9);
}

#[test]
fn float_keeps_its_bit_pattern() {
    let x = Float64::from_bits(0x4009_21FB_5444_2D18);
    assert_eq!(x.to_bits(), 0x4009_21FB_5444_2D18);
    assert_eq!(f64::from_bits(x.to_bits()), 3.141592653589793);
    let nan = double(f64::NAN);
    assert!(f64::from_bits(nan.to_bits()).is_nan());
    assert_eq!(double(0.0).bits, 0);
}

#[test]
fn parameter_survives_the_round_trip() {
    let p = Parameter { name: text("use_sim_time"), value: ParameterValue::Boolean(true) };
    let record = raw::Parameter::from(p.clone());
    assert_eq!(record.name, "use_sim_time");
    assert_eq!(record.value.ptype, 1);
    assert!(record.value.boolean_value);
    assert_eq!(Parameter::from(record), p);
}

#[test]
fn parameter_record_with_unknown_kind_keeps_its_name() {
    let record = raw::Parameter { name: text("future"), value: crowded_record(200) };
    let p = Parameter::from(record);
    assert_eq!(p, Parameter { name: text("future"), value: ParameterValue::NotSet });
}

#[test]
fn success_encodes_to_flag_and_empty_reason() {
    let ok: SetParametersResult = Ok(());
    let record = raw::SetParametersResult::from(ok);
    assert_eq!(record, raw::SetParametersResult { successful: true, reason: String::new() });
    assert_eq!(SetParametersResult::from(record), Ok(()));
}

#[test]
fn failure_keeps_its_reason() {
    let failed: SetParametersResult = Err(text("read-only parameter"));
    let record = raw::SetParametersResult::from(failed);
    assert_eq!(
        record,
        raw::SetParametersResult { successful: false, reason: text("read-only parameter") }
    );
    assert_eq!(SetParametersResult::from(record), Err(text("read-only parameter")));
}

#[test]
fn failure_with_empty_reason_stays_a_failure() {
    let failed: SetParametersResult = Err(String::new());
    let record = raw::SetParametersResult::from(failed);
    assert!(!record.successful);
    assert_eq!(SetParametersResult::from(record), Err(String::new()));
}

#[test]
fn success_with_a_reason_is_still_success() {
    let record = raw::SetParametersResult { successful: true, reason: text("ignored") };
    assert_eq!(SetParametersResult::from(record), Ok(()));
}

#[test]
fn parameter_lists_keep_order_and_duplicates() {
    let params = vec![
        Parameter { name: text("a"), value: ParameterValue::Integer(1) },
        Parameter { name: text("b"), value: ParameterValue::String(text("two")) },
        Parameter { name: text("a"), value: ParameterValue::Integer(3) },
    ];
    let records = parameters_to_raw(params.clone());
    assert_eq!(records.len(), 3);
    assert_eq!(records[0].name, "a");
    assert_eq!(records[0].value.int_value, 1);
    assert_eq!(records[1].name, "b");
    assert_eq!(records[1].value.ptype, 4);
    assert_eq!(records[1].value.string_value, "two");
    assert_eq!(records[2].name, "a");
    assert_eq!(records[2].value.int_value, 3);
    assert_eq!(parameters_from_raw(records), params);
    assert_eq!(parameters_to_raw(Vec::new()), Vec::<raw::Parameter>::new());
    assert_eq!(parameters_from_raw(Vec::new()), Vec::<Parameter>::new());
}

#[test]
fn parameter_event_survives_the_round_trip() {
    let event = ParameterEvent {
        timestamp: Timestamp::from_ticks(0x5A8C_6E78_4F2A_E07E),
        node: text("/robot/arm"),
        new_parameters: vec![
            Parameter { name: text("gain"), value: ParameterValue::Double(double(0.25)) },
            Parameter { name: text("gain"), value: ParameterValue::Double(double(0.5)) },
        ],
        changed_parameters: vec![Parameter {
            name: text("gain"),
            value: ParameterValue::StringArray(vec![text("p"), text("i")]),
        }],
        deleted_parameters: vec![],
    };
    let record = raw::ParameterEvent::from(event.clone());
    assert_eq!(record.timestamp, Timestamp { ticks: 0x5A8C_6E78_4F2A_E07E });
    assert_eq!(record.node, "/robot/arm");
    assert_eq!(record.new_parameters.len(), 2);
    assert_eq!(record.new_parameters[0].value.double_value, double(0.25));
    assert_eq!(record.new_parameters[1].value.double_value, double(0.5));
    assert_eq!(record.changed_parameters.len(), 1);
    assert_eq!(record.changed_parameters[0].value.ptype, 9);
    assert!(record.deleted_parameters.is_empty());
    assert_eq!(ParameterEvent::from(record), event);
}

#[test]
fn parameter_event_record_decodes_field_by_field() {
    let record = raw::ParameterEvent {
        timestamp: Timestamp::zero(),
        node: text("/n"),
        new_parameters: vec![],
        changed_parameters: vec![],
        deleted_parameters: vec![
            raw::Parameter { name: text("old"), value: crowded_record(2) },
            raw::Parameter { name: text("older"), value: crowded_record(77) },
        ],
    };
    let event = ParameterEvent::from(record);
    assert_eq!(event.timestamp.to_ticks(), 0);
    assert_eq!(event.node, "/n");
    assert!(event.new_parameters.is_empty());
    assert!(event.changed_parameters.is_empty());
    assert_eq!(
        event.deleted_parameters,
        vec![
            Parameter { name: text("old"), value: ParameterValue::Integer(-7) },
            Parameter { name: text("older"), value: ParameterValue::NotSet },
        ]
    );
}
