use watchman_pdu::clock::Clock;
use watchman_pdu::clock::ClockSpec;
use watchman_pdu::codec::Decode;
use watchman_pdu::error::DecodeError;
use watchman_pdu::error::Shape;
use watchman_pdu::subscribe::SubscribeCommand;
use watchman_pdu::subscribe::SubscribeRequest;
use watchman_pdu::subscribe::SubscribeResponse;
use watchman_pdu::subscribe::Unsubscribe;
use watchman_pdu::subscribe::UnsubscribeResponse;
use watchman_pdu::wire::Wire;

fn text(s: &str) -> Wire {
    Wire::Text(s.to_string())
}

fn entry(key: &str, value: Wire) -> (String, Wire) {
    (key.to_string(), value)
}

#[test]
fn default_subscription_holds_only_its_fields() {
    assert_eq!(
        SubscribeRequest::default().encode(),
        Wire::Object(vec![entry("fields", Wire::Array(vec![]))])
    );
}

#[test]
fn full_subscription_on_the_wire() {
    let expression = Wire::Array(vec![text("type"), text("f")]);
    let request = SubscribeRequest {
        since: Some(Clock::Spec(ClockSpec::named_cursor("me"))),
        relative_root: Some("sub".to_string()),
        expression: Some(expression.clone()),
        fields: vec!["name"],
        empty_on_fresh_instance: true,
        case_sensitive: true,
        defer_vcs: true,
        defer: vec!["hg.update"],
        drop: vec!["build", "deploy"],
    };
    let wire = Wire::Object(vec![
        entry("since", text("n:me")),
        entry("relative_root", text("sub")),
        entry("expression", expression),
        entry("fields", Wire::Array(vec![text("name")])),
        entry("empty_on_fresh_instance", Wire::Bool(true)),
        entry("case_sensitive", Wire::Bool(true)),
        entry("defer_vcs", Wire::Bool(true)),
        entry("defer", Wire::Array(vec![text("hg.update")])),
        entry("drop", Wire::Array(vec![text("build"), text("deploy")])),
    ]);
    assert_eq!(request.encode(), wire);
    assert_eq!(
        SubscribeCommand("subscribe", "/repo".to_string(), "mine".to_string(), request).encode(),
        Wire::Array(vec![text("subscribe"), text("/repo"), text("mine"), wire])
    );
}

#[test]
fn empty_lists_of_states_are_left_out() {
    let request = SubscribeRequest {
        fields: vec!["name", "size"],
        defer: vec![],
        drop: vec!["build"],
        ..SubscribeRequest::default()
    };
    assert_eq!(
        request.encode(),
        Wire::Object(vec![
            entry("fields", Wire::Array(vec![text("name"), text("size")])),
            entry("drop", Wire::Array(vec![text("build")])),
        ])
    );
}

#[test]
fn subscribe_response() {
    let info = Wire::Object(vec![entry("k", Wire::Bool(true))]);
    let wire = Wire::Object(vec![
        entry("version", text("4.9.0")),
        entry("subscribe", text("mine")),
        entry("clock", text("c:1:2")),
        entry("asserted-states", Wire::Array(vec![text("hg.update")])),
        entry("saved-state-info", info.clone()),
    ]);
    assert_eq!(
        SubscribeResponse::decode(&wire),
        Ok(SubscribeResponse {
            version: "4.9.0".to_string(),
            subscribe: "mine".to_string(),
            clock: Clock::Spec(ClockSpec::StringClock("c:1:2".to_string())),
            asserted_states: vec!["hg.update".to_string()],
            saved_state_info: Some(info),
        })
    );
}

#[test]
fn subscribe_response_without_states() {
    let wire = Wire::Object(vec![
        entry("version", text("4.9.0")),
        entry("subscribe", text("mine")),
        entry("clock", text("c:1:2")),
    ]);
    assert_eq!(
        SubscribeResponse::decode(&wire),
        Ok(SubscribeResponse {
            version: "4.9.0".to_string(),
            subscribe: "mine".to_string(),
            clock: Clock::Spec(ClockSpec::StringClock("c:1:2".to_string())),
            asserted_states: vec![],
            saved_state_info: None,
        })
    );
}

#[test]
fn subscribe_response_failures() {
    let no_name = Wire::Object(vec![
        entry("version", text("4.9.0")),
        entry("clock", text("c:1:2")),
    ]);
    assert_eq!(
        SubscribeResponse::decode(&no_name),
        Err(DecodeError::MissingField("subscribe"))
    );
    let null_states = Wire::Object(vec![
        entry("version", text("4.9.0")),
        entry("subscribe", text("mine")),
        entry("clock", text("c:1:2")),
        entry("asserted-states", Wire::Null),
    ]);
    assert_eq!(
        SubscribeResponse::decode(&null_states),
        Err(DecodeError::Field("asserted-states", Shape::Array))
    );
}

#[test]
fn unsubscribe() {
    assert_eq!(
        Unsubscribe("unsubscribe", "/repo".to_string(), "mine".to_string()).encode(),
        Wire::Array(vec![text("unsubscribe"), text("/repo"), text("mine")])
    );
    let wire = Wire::Object(vec![
        entry("version", text("4.9.0")),
        entry("unsubscribe", text("mine")),
    ]);
    assert_eq!(
        UnsubscribeResponse::decode(&wire),
        Ok(UnsubscribeResponse {
            version: "4.9.0".to_string(),
            unsubscribe: "mine".to_string(),
        })
    );
}
