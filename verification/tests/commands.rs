use watchman_pdu::admin::ClockRequest;
use watchman_pdu::admin::ClockRequestParams;
use watchman_pdu::admin::GetAssertedStatesRequest;
use watchman_pdu::admin::GetConfigRequest;
use watchman_pdu::admin::StateEnterLeaveParams;
use watchman_pdu::admin::StateEnterLeaveRequest;
use watchman_pdu::admin::WatchProjectRequest;
use watchman_pdu::query::QueryRequest;
use watchman_pdu::query::QueryRequestCommon;
use watchman_pdu::subscribe::SubscribeCommand;
use watchman_pdu::subscribe::SubscribeRequest;
use watchman_pdu::subscribe::Unsubscribe;
use watchman_pdu::timeout::SyncTimeout;
use watchman_pdu::trigger::TriggerCommand;
use watchman_pdu::trigger::TriggerDelCommand;
use watchman_pdu::trigger::TriggerListCommand;
use watchman_pdu::trigger::TriggerRequest;
use watchman_pdu::wire::Wire;

fn text(s: &str) -> Wire {
    Wire::Text(s.to_string())
}

fn entry(key: &str, value: Wire) -> (String, Wire) {
    (key.to_string(), value)
}

fn root() -> String {
    "/repo".to_string()
}

#[test]
fn commands_of_a_root() {
    assert_eq!(
        GetConfigRequest::new(root()).encode(),
        Wire::Array(vec![text("get-config"), text("/repo")])
    );
    assert_eq!(
        WatchProjectRequest::new(root()).encode(),
        Wire::Array(vec![text("watch-project"), text("/repo")])
    );
    assert_eq!(
        GetAssertedStatesRequest::new(root()).encode(),
        Wire::Array(vec![text("get-asserted-states"), text("/repo")])
    );
    assert_eq!(
        TriggerListCommand::new(root()).encode(),
        Wire::Array(vec![text("trigger-list"), text("/repo")])
    );
}

#[test]
fn clock_command() {
    let request = ClockRequest::new(
        root(),
        ClockRequestParams {
            sync_timeout: SyncTimeout::DisableCookie,
        },
    );
    assert_eq!(request.0, "clock");
    assert_eq!(
        request.encode(),
        Wire::Array(vec![text("clock"), text("/repo"), Wire::Object(vec![])])
    );
}

#[test]
fn state_commands() {
    let params = StateEnterLeaveParams {
        name: "deploy",
        metadata: None,
        sync_timeout: SyncTimeout::DisableCookie,
    };
    let wire = Wire::Object(vec![entry("name", text("deploy"))]);
    assert_eq!(
        StateEnterLeaveRequest::enter(root(), params.clone()).encode(),
        Wire::Array(vec![text("state-enter"), text("/repo"), wire.clone()])
    );
    assert_eq!(
        StateEnterLeaveRequest::leave(root(), params).encode(),
        Wire::Array(vec![text("state-leave"), text("/repo"), wire])
    );
}

#[test]
fn query_command() {
    assert_eq!(
        QueryRequest::new(root(), QueryRequestCommon::default()).encode(),
        Wire::Array(vec![
            text("query"),
            text("/repo"),
            Wire::Object(vec![entry("fields", Wire::Array(vec![]))]),
        ])
    );
}

#[test]
fn subscription_commands() {
    assert_eq!(
        SubscribeCommand::new(root(), "mine".to_string(), SubscribeRequest::default()).encode(),
        Wire::Array(vec![
            text("subscribe"),
            text("/repo"),
            text("mine"),
            Wire::Object(vec![entry("fields", Wire::Array(vec![]))]),
        ])
    );
    assert_eq!(
        Unsubscribe::new(root(), "mine".to_string()).encode(),
        Wire::Array(vec![text("unsubscribe"), text("/repo"), text("mine")])
    );
}

#[test]
fn trigger_commands() {
    let definition = TriggerRequest {
        name: "t".to_string(),
        command: vec!["true".to_string()],
        ..TriggerRequest::default()
    };
    assert_eq!(
        TriggerCommand::new(root(), definition).encode(),
        Ok(Wire::Array(vec![
            text("trigger"),
            text("/repo"),
            Wire::Object(vec![
                entry("name", text("t")),
                entry("command", Wire::Array(vec![text("true")])),
            ]),
        ]))
    );
    assert_eq!(
        TriggerDelCommand::new(root(), "t".to_string()).encode(),
        Wire::Array(vec![text("trigger-del"), text("/repo"), text("t")])
    );
}
