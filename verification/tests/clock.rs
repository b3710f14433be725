use serde_bser::value::Value;
use watchman_pdu::clock::Clock;
use watchman_pdu::clock::ClockSpec;
use watchman_pdu::clock::FatClockData;
use watchman_pdu::clock::SavedStateClockData;
use watchman_pdu::clock::ScmAwareClockData;
use watchman_pdu::codec::Decode;
use watchman_pdu::error::DecodeError;
use watchman_pdu::error::Shape;
use watchman_pdu::wire::Wire;

fn text(s: &str) -> Wire {
    Wire::Text(s.to_string())
}

fn entry(key: &str, value: Wire) -> (String, Wire) {
    (key.to_string(), value)
}

#[test]
fn null_clock() {
    assert_eq!(ClockSpec::null(), ClockSpec::StringClock("c:0:0".to_string()));
    assert_eq!(ClockSpec::default(), ClockSpec::null());
}

#[test]
fn named_cursor() {
    assert_eq!(
        ClockSpec::named_cursor("mytool"),
        ClockSpec::StringClock("n:mytool".to_string())
    );
    assert_eq!(ClockSpec::named_cursor(""), ClockSpec::StringClock("n:".to_string()));
}

#[test]
fn unix_timestamp() {
    assert_eq!(ClockSpec::unix_timestamp(1_600_000_000), ClockSpec::UnixTimestamp(1_600_000_000));
}

#[test]
fn clock_spec_on_the_wire() {
    assert_eq!(ClockSpec::null().encode(), text("c:0:0"));
    assert_eq!(ClockSpec::unix_timestamp(-5).encode(), Wire::Integer(-5));
}

#[test]
fn clock_spec_round_trip() {
    let specs = [
        ClockSpec::null(),
        ClockSpec::named_cursor("x"),
        ClockSpec::StringClock(String::new()),
        ClockSpec::StringClock("c:1621:42:7".to_string()),
        ClockSpec::UnixTimestamp(0),
        ClockSpec::UnixTimestamp(i64::MIN),
        ClockSpec::UnixTimestamp(i64::MAX),
    ];
    for spec in specs {
        assert_eq!(ClockSpec::decode(&spec.encode()), Ok(spec));
    }
}

#[test]
fn clock_spec_string_before_integer() {
    assert_eq!(
        ClockSpec::decode(&text("12345")),
        Ok(ClockSpec::StringClock("12345".to_string()))
    );
    assert_eq!(ClockSpec::decode(&Wire::Integer(12345)), Ok(ClockSpec::UnixTimestamp(12345)));
}

#[test]
fn clock_spec_refuses_other_shapes() {
    let refused = Err(DecodeError::Mismatch(Shape::ClockSpec));
    assert_eq!(ClockSpec::decode(&Wire::Null), refused);
    assert_eq!(ClockSpec::decode(&Wire::Bool(true)), refused);
    assert_eq!(ClockSpec::decode(&Wire::Real(0x3ff0_0000_0000_0000)), refused);
    assert_eq!(ClockSpec::decode(&Wire::Array(vec![text("c:0:0")])), refused);
    assert_eq!(ClockSpec::decode(&Wire::Object(vec![])), refused);
}

#[test]
fn clock_spec_as_bser_value() {
    assert_eq!(
        Value::from(ClockSpec::named_cursor("x")),
        Value::Utf8String("n:x".to_string())
    );
    assert_eq!(Value::from(ClockSpec::null()), Value::Utf8String("c:0:0".to_string()));
    assert_eq!(Value::from(ClockSpec::unix_timestamp(77)), Value::Integer(77));
}

#[test]
fn bare_clock_is_plain() {
    assert_eq!(
        Clock::decode(&text("c:1:2")),
        Ok(Clock::Spec(ClockSpec::StringClock("c:1:2".to_string())))
    );
    assert_eq!(Clock::decode(&Wire::Integer(9)), Ok(Clock::Spec(ClockSpec::UnixTimestamp(9))));
}

#[test]
fn string_that_looks_structured_is_plain() {
    let looks = "{\"clock\": \"c:1:2\", \"scm\": {\"mergebase\": \"abc\"}}";
    assert_eq!(
        Clock::decode(&text(looks)),
        Ok(Clock::Spec(ClockSpec::StringClock(looks.to_string())))
    );
}

#[test]
fn map_with_clock_is_scm_aware() {
    let wire = Wire::Object(vec![entry("clock", text("c:1:2"))]);
    assert_eq!(
        Clock::decode(&wire),
        Ok(Clock::ScmAware(FatClockData {
            clock: ClockSpec::StringClock("c:1:2".to_string()),
            scm: None,
        }))
    );
}

#[test]
fn scm_aware_clock_with_all_parts() {
    let config = Wire::Object(vec![entry("project", text("www"))]);
    let wire = Wire::Object(vec![
        entry("clock", text("c:1:2")),
        entry(
            "scm",
            Wire::Object(vec![
                entry("mergebase", text("abc123")),
                entry("mergebase-with", text("main")),
                entry(
                    "saved-state",
                    Wire::Object(vec![
                        entry("storage", text("manifold")),
                        entry("commit-id", text("def456")),
                        entry("config", config.clone()),
                    ]),
                ),
            ]),
        ),
    ]);
    let clock = Clock::ScmAware(FatClockData {
        clock: ClockSpec::StringClock("c:1:2".to_string()),
        scm: Some(ScmAwareClockData {
            mergebase: Some("abc123".to_string()),
            mergebase_with: Some("main".to_string()),
            saved_state: Some(SavedStateClockData {
                storage: Some("manifold".to_string()),
                commit: Some("def456".to_string()),
                config: Some(config),
            }),
        }),
    });
    assert_eq!(Clock::decode(&wire), Ok(clock.clone()));
    assert_eq!(clock.encode(), wire);
}

#[test]
fn scm_aware_clock_leaves_out_what_is_absent() {
    let clock = Clock::ScmAware(FatClockData {
        clock: ClockSpec::UnixTimestamp(3),
        scm: Some(ScmAwareClockData {
            mergebase: None,
            mergebase_with: Some("main".to_string()),
            saved_state: Some(SavedStateClockData {
                storage: None,
                commit: None,
                config: None,
            }),
        }),
    });
    let wire = Wire::Object(vec![
        entry("clock", Wire::Integer(3)),
        entry(
            "scm",
            Wire::Object(vec![
                entry("mergebase-with", text("main")),
                entry("saved-state", Wire::Object(vec![])),
            ]),
        ),
    ]);
    assert_eq!(clock.encode(), wire);
    assert_eq!(Clock::decode(&wire), Ok(clock));
}

#[test]
fn clock_refuses_what_is_neither() {
    let refused = Err(DecodeError::Mismatch(Shape::Clock));
    assert_eq!(Clock::decode(&Wire::Null), refused);
    assert_eq!(Clock::decode(&Wire::Bool(false)), refused);
    assert_eq!(Clock::decode(&Wire::Array(vec![])), refused);
    assert_eq!(Clock::decode(&Wire::Object(vec![])), refused);
    let no_clock = Wire::Object(vec![entry("scm", Wire::Object(vec![]))]);
    assert_eq!(Clock::decode(&no_clock), refused);
    let bad_clock = Wire::Object(vec![entry("clock", Wire::Bool(true))]);
    assert_eq!(Clock::decode(&bad_clock), refused);
    let bad_scm = Wire::Object(vec![entry("clock", text("c:1:2")), entry("scm", Wire::Integer(1))]);
    assert_eq!(Clock::decode(&bad_scm), refused);
}

#[test]
fn fat_clock_data_says_which_field_failed() {
    assert_eq!(
        FatClockData::decode(&Wire::Object(vec![])),
        Err(DecodeError::MissingField("clock"))
    );
    assert_eq!(
        FatClockData::decode(&Wire::Object(vec![entry("clock", Wire::Null)])),
        Err(DecodeError::Field("clock", Shape::ClockSpec))
    );
    assert_eq!(
        FatClockData::decode(&text("c:1:2")),
        Err(DecodeError::Mismatch(Shape::Object))
    );
    let bad_mergebase = Wire::Object(vec![
        entry("clock", text("c:1:2")),
        entry("scm", Wire::Object(vec![entry("mergebase", Wire::Integer(1))])),
    ]);
    assert_eq!(
        FatClockData::decode(&bad_mergebase),
        Err(DecodeError::Field("mergebase", Shape::Text))
    );
    let bad_scm = Wire::Object(vec![entry("clock", text("c:1:2")), entry("scm", Wire::Integer(1))]);
    assert_eq!(
        FatClockData::decode(&bad_scm),
        Err(DecodeError::Field("scm", Shape::Object))
    );
}

#[test]
fn null_scm_is_no_scm() {
    let wire = Wire::Object(vec![entry("clock", text("c:1:2")), entry("scm", Wire::Null)]);
    assert_eq!(
        FatClockData::decode(&wire),
        Ok(FatClockData {
            clock: ClockSpec::StringClock("c:1:2".to_string()),
            scm: None,
        })
    );
}

#[test]
fn clock_round_trip() {
    let clocks = [
        Clock::Spec(ClockSpec::null()),
        Clock::Spec(ClockSpec::UnixTimestamp(12)),
        Clock::ScmAware(FatClockData {
            clock: ClockSpec::named_cursor("c"),
            scm: None,
        }),
        Clock::ScmAware(FatClockData {
            clock: ClockSpec::UnixTimestamp(1),
            scm: Some(ScmAwareClockData {
                mergebase: Some("m".to_string()),
                mergebase_with: None,
                saved_state: Some(SavedStateClockData {
                    storage: None,
                    commit: Some("c".to_string()),
                    config: Some(Wire::Array(vec![Wire::Null])),
                }),
            }),
        }),
    ];
    for clock in clocks {
        assert_eq!(Clock::decode(&clock.encode()), Ok(clock));
    }
}

#[test]
fn null_configuration_is_read_as_none() {
    let data = SavedStateClockData {
        storage: None,
        commit: None,
        config: Some(Wire::Null),
    };
    let wire = data.encode();
    assert_eq!(wire, Wire::Object(vec![entry("config", Wire::Null)]));
    assert_eq!(
        SavedStateClockData::decode(&wire),
        Ok(SavedStateClockData {
            storage: None,
            commit: None,
            config: None,
        })
    );
}
