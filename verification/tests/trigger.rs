use watchman_pdu::codec::Decode;
use watchman_pdu::error::DecodeError;
use watchman_pdu::error::EncodeError;
use watchman_pdu::error::Shape;
use watchman_pdu::trigger::TriggerCommand;
use watchman_pdu::trigger::TriggerDelCommand;
use watchman_pdu::trigger::TriggerDelResponse;
use watchman_pdu::trigger::TriggerListCommand;
use watchman_pdu::trigger::TriggerListResponse;
use watchman_pdu::trigger::TriggerRequest;
use watchman_pdu::trigger::TriggerResponse;
use watchman_pdu::trigger::TriggerStdinConfig;
use watchman_pdu::wire::Wire;

fn text(s: &str) -> Wire {
    Wire::Text(s.to_string())
}

fn entry(key: &str, value: Wire) -> (String, Wire) {
    (key.to_string(), value)
}

#[test]
fn stdin_field_names() {
    let config = TriggerStdinConfig::FieldNames(vec!["name".to_string(), "size".to_string()]);
    assert_eq!(config.encode(), Wire::Array(vec![text("name"), text("size")]));
    assert_eq!(
        TriggerStdinConfig::serialize(&Some(config)),
        Wire::Array(vec![text("name"), text("size")])
    );
}

#[test]
fn stdin_dev_null() {
    assert_eq!(TriggerStdinConfig::DevNull.encode(), text("/dev/null"));
    assert_eq!(TriggerStdinConfig::serialize(&Some(TriggerStdinConfig::DevNull)), text("/dev/null"));
}

#[test]
fn stdin_name_per_line() {
    assert_eq!(TriggerStdinConfig::NamePerLine.encode(), text("NAME_PER_LINE"));
}

#[test]
fn stdin_absent_is_null() {
    assert_eq!(TriggerStdinConfig::serialize(&None), Wire::Null);
}

#[test]
fn stdin_default() {
    assert_eq!(TriggerStdinConfig::default(), TriggerStdinConfig::DevNull);
}

#[test]
fn stdin_no_field_names() {
    assert_eq!(TriggerStdinConfig::FieldNames(vec![]).encode(), Wire::Array(vec![]));
}

#[test]
fn default_trigger() {
    let trigger = TriggerRequest::default();
    assert_eq!(trigger.name, "");
    assert!(trigger.command.is_empty());
    assert_eq!(
        trigger.encode(),
        Ok(Wire::Object(vec![
            entry("name", text("")),
            entry("command", Wire::Array(vec![])),
        ]))
    );
}

fn full_trigger() -> TriggerRequest {
    TriggerRequest {
        name: "build".to_string(),
        command: vec!["make".to_string(), "-j4".to_string()],
        append_files: true,
        expression: Some(Wire::Array(vec![text("suffix"), text("c")])),
        stdin: Some(TriggerStdinConfig::NamePerLine),
        stdout: Some(">out.log".to_string()),
        stderr: Some(">>err.log".to_string()),
        max_files_stdin: Some(100),
        chdir: Some("src".to_string()),
        relative_root: Some("project".to_string()),
    }
}

fn full_trigger_wire() -> Wire {
    Wire::Object(vec![
        entry("name", text("build")),
        entry("command", Wire::Array(vec![text("make"), text("-j4")])),
        entry("append_files", Wire::Bool(true)),
        entry("expression", Wire::Array(vec![text("suffix"), text("c")])),
        entry("stdin", text("NAME_PER_LINE")),
        entry("stdout", text(">out.log")),
        entry("stderr", text(">>err.log")),
        entry("max_files_stdin", Wire::Integer(100)),
        entry("chdir", text("src")),
        entry("relative_root", text("project")),
    ])
}

#[test]
fn full_trigger_on_the_wire() {
    assert_eq!(full_trigger().encode(), Ok(full_trigger_wire()));
    assert_eq!(
        TriggerCommand("trigger", "/repo".to_string(), full_trigger()).encode(),
        Ok(Wire::Array(vec![text("trigger"), text("/repo"), full_trigger_wire()]))
    );
}

#[test]
fn trigger_read_back_has_no_expression_and_no_stdin() {
    let read = TriggerRequest::decode(&full_trigger_wire()).unwrap();
    assert_eq!(
        read,
        TriggerRequest {
            expression: None,
            stdin: None,
            ..full_trigger()
        }
    );
}

#[test]
fn trigger_read_back_whatever_stands_under_stdin() {
    let wire = Wire::Object(vec![
        entry("name", text("t")),
        entry("command", Wire::Array(vec![text("true")])),
        entry("stdin", Wire::Array(vec![text("name"), text("size")])),
        entry("expression", Wire::Integer(5)),
    ]);
    assert_eq!(
        TriggerRequest::decode(&wire),
        Ok(TriggerRequest {
            name: "t".to_string(),
            command: vec!["true".to_string()],
            ..TriggerRequest::default()
        })
    );
}

#[test]
fn trigger_limit_too_large_for_the_wire() {
    let trigger = TriggerRequest {
        max_files_stdin: Some(i64::MAX as u64 + 1),
        ..full_trigger()
    };
    assert_eq!(trigger.encode(), Err(EncodeError::IntegerTooLarge("max_files_stdin")));
    assert_eq!(
        TriggerCommand("trigger", "/repo".to_string(), trigger).encode(),
        Err(EncodeError::IntegerTooLarge("max_files_stdin"))
    );
    let largest = TriggerRequest {
        max_files_stdin: Some(i64::MAX as u64),
        ..TriggerRequest::default()
    };
    assert_eq!(
        largest.encode().unwrap().get("max_files_stdin"),
        Some(&Wire::Integer(i64::MAX))
    );
}

#[test]
fn trigger_failures() {
    assert_eq!(
        TriggerRequest::decode(&Wire::Object(vec![entry("command", Wire::Array(vec![]))])),
        Err(DecodeError::MissingField("name"))
    );
    assert_eq!(
        TriggerRequest::decode(&Wire::Object(vec![entry("name", text("t"))])),
        Err(DecodeError::MissingField("command"))
    );
    let negative = Wire::Object(vec![
        entry("name", text("t")),
        entry("command", Wire::Array(vec![])),
        entry("max_files_stdin", Wire::Integer(-1)),
    ]);
    assert_eq!(
        TriggerRequest::decode(&negative),
        Err(DecodeError::Field("max_files_stdin", Shape::Unsigned))
    );
    let flag = Wire::Object(vec![
        entry("name", text("t")),
        entry("command", Wire::Array(vec![])),
        entry("append_files", Wire::Integer(1)),
    ]);
    assert_eq!(
        TriggerRequest::decode(&flag),
        Err(DecodeError::Field("append_files", Shape::Bool))
    );
    let command = Wire::Object(vec![
        entry("name", text("t")),
        entry("command", Wire::Array(vec![Wire::Array(vec![])])),
    ]);
    assert_eq!(
        TriggerRequest::decode(&command),
        Err(DecodeError::Field("command", Shape::Text))
    );
}

#[test]
fn trigger_response() {
    let wire = Wire::Object(vec![
        entry("version", text("4.9.0")),
        entry("disposition", text("created")),
        entry("triggerid", text("build")),
    ]);
    assert_eq!(
        TriggerResponse::decode(&wire),
        Ok(TriggerResponse {
            version: "4.9.0".to_string(),
            disposition: "created".to_string(),
            triggerid: "build".to_string(),
        })
    );
}

#[test]
fn trigger_del() {
    assert_eq!(
        TriggerDelCommand("trigger-del", "/repo".to_string(), "build".to_string()).encode(),
        Wire::Array(vec![text("trigger-del"), text("/repo"), text("build")])
    );
    let wire = Wire::Object(vec![
        entry("version", text("4.9.0")),
        entry("deleted", Wire::Bool(true)),
        entry("trigger", text("build")),
    ]);
    assert_eq!(
        TriggerDelResponse::decode(&wire),
        Ok(TriggerDelResponse {
            version: "4.9.0".to_string(),
            deleted: true,
            trigger: "build".to_string(),
        })
    );
    let no_flag = Wire::Object(vec![
        entry("version", text("4.9.0")),
        entry("trigger", text("build")),
    ]);
    assert_eq!(
        TriggerDelResponse::decode(&no_flag),
        Err(DecodeError::MissingField("deleted"))
    );
}

#[test]
fn trigger_list() {
    assert_eq!(
        TriggerListCommand("trigger-list", "/repo".to_string()).encode(),
        Wire::Array(vec![text("trigger-list"), text("/repo")])
    );
    let wire = Wire::Object(vec![
        entry("version", text("4.9.0")),
        entry(
            "triggers",
            Wire::Array(vec![
                full_trigger_wire(),
                Wire::Object(vec![
                    entry("name", text("t")),
                    entry("command", Wire::Array(vec![text("true")])),
                ]),
            ]),
        ),
    ]);
    assert_eq!(
        TriggerListResponse::decode(&wire),
        Ok(TriggerListResponse {
            version: "4.9.0".to_string(),
            triggers: vec![
                TriggerRequest {
                    expression: None,
                    stdin: None,
                    ..full_trigger()
                },
                TriggerRequest {
                    name: "t".to_string(),
                    command: vec!["true".to_string()],
                    ..TriggerRequest::default()
                },
            ],
        })
    );
}

#[test]
fn trigger_list_says_what_failed_in_a_trigger() {
    let wire = Wire::Object(vec![
        entry("version", text("4.9.0")),
        entry(
            "triggers",
            Wire::Array(vec![Wire::Object(vec![entry("name", text("t"))])]),
        ),
    ]);
    assert_eq!(
        TriggerListResponse::decode(&wire),
        Err(DecodeError::MissingField("command"))
    );
}
