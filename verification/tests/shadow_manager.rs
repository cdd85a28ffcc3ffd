use aws_iot_core::error::CoreError;
use aws_iot_core::event::QosLevel;
use aws_iot_core::json::JsonValue;
use aws_iot_core::shadow::AWSShadowManager;
use aws_iot_core::shadow::RequestKind;
use aws_iot_core::shadow::RequestState;
use aws_iot_core::shadow::ShadowAction;
use aws_iot_core::topic::ShadowTopicKind;

fn manager() -> AWSShadowManager {
    AWSShadowManager::new("test-device".to_string())
}

#[test]
fn update_shadow_accumulates_keys() {
    let mut m = manager();
    let first = m.update_shadow("x", JsonValue::Int(1));
    assert_eq!(first.topic, "$aws/things/test-device/shadow/update");
    assert_eq!(first.payload, "{\"state\":{\"reported\":{\"x\":1}}}");
    let second = m.update_shadow("y", JsonValue::Int(2));
    assert_eq!(
        second.payload,
        "{\"state\":{\"reported\":{\"x\":1,\"y\":2}}}"
    );
}

#[test]
fn update_shadow_replaces_an_existing_key_in_place() {
    let mut m = manager();
    m.update_shadow("x", JsonValue::Int(1));
    m.update_shadow("y", JsonValue::Int(2));
    let third = m.update_shadow("x", JsonValue::Str("new".to_string()));
    assert_eq!(
        third.payload,
        "{\"state\":{\"reported\":{\"x\":\"new\",\"y\":2}}}"
    );
}

#[test]
fn get_round_trip_invokes_only_the_accepted_callback() {
    let mut m = manager();
    let request = m.get_shadow();
    assert_eq!(request.topic, "$aws/things/test-device/shadow/get");
    assert_eq!(request.payload, "");
    assert_eq!(request.qos, QosLevel::AtMostOnce);
    assert_eq!(
        m.request_state(RequestKind::Get),
        RequestState::AwaitingResponse
    );

    let topic = "$aws/things/test-device/shadow/get/accepted".to_string();
    let payload = "{\"state\":{\"reported\":{\"x\":1}}}";
    let action = m.handle_event(&topic, payload.as_bytes());
    assert_eq!(action, ShadowAction::GetAccepted(payload.to_string()));
    assert_eq!(m.request_state(RequestKind::Get), RequestState::Idle);
}

#[test]
fn malformed_delta_reports_a_decode_failure_and_later_events_still_arrive() {
    let mut m = manager();
    let topic = "$aws/things/test-device/shadow/update/delta".to_string();
    let action = m.handle_event(&topic, b"this is not json");
    assert_eq!(
        action,
        ShadowAction::DecodeFailure(ShadowTopicKind::UpdateDelta)
    );
    // A later well-formed delta on the same manager is still delivered.
    let later = m.handle_event(&topic, b"{\"state\":{\"x\":2}}");
    assert_eq!(
        later,
        ShadowAction::UpdateDelta("{\"state\":{\"x\":2}}".to_string())
    );
}

#[test]
fn invalid_utf8_payload_is_a_decode_failure() {
    let mut m = manager();
    let topic = "$aws/things/test-device/shadow/get/accepted".to_string();
    let action = m.handle_event(&topic, &[0xff, 0xfe, 0x80]);
    assert_eq!(
        action,
        ShadowAction::DecodeFailure(ShadowTopicKind::GetAccepted)
    );
}

#[test]
fn only_decode_failures_report_an_error() {
    let mut m = manager();
    let delta = "$aws/things/test-device/shadow/update/delta".to_string();
    let bad = m.handle_event(&delta, b"\x00nope");
    assert_eq!(bad.error(), Some(CoreError::DecodeError));
    let good = m.handle_event(&delta, b"{}");
    assert_eq!(good.error(), None);
    assert_eq!(ShadowAction::Ignored.error(), None);
}

#[test]
fn events_off_the_shadow_table_are_ignored() {
    let mut m = manager();
    let action = m.handle_event(&"data/test".to_string(), b"{}");
    assert_eq!(action, ShadowAction::Ignored);
    let other_thing = "$aws/things/other-device/shadow/get/accepted".to_string();
    assert_eq!(m.handle_event(&other_thing, b"{}"), ShadowAction::Ignored);
}

#[test]
fn every_response_topic_routes_to_its_own_action() {
    let mut m = manager();
    let cases: Vec<(&str, fn(String) -> ShadowAction)> = vec![
        ("get/accepted", ShadowAction::GetAccepted),
        ("get/rejected", ShadowAction::GetRejected),
        ("update/accepted", ShadowAction::UpdateAccepted),
        ("update/rejected", ShadowAction::UpdateRejected),
        ("update/delta", ShadowAction::UpdateDelta),
        ("update/documents", ShadowAction::UpdateDocuments),
        ("delete/accepted", ShadowAction::DeleteAccepted),
        ("delete/rejected", ShadowAction::DeleteRejected),
    ];
    for (suffix, make) in cases {
        let topic = format!("$aws/things/test-device/shadow/{}", suffix);
        let action = m.handle_event(&topic, b"{}");
        assert_eq!(action, make("{}".to_string()));
    }
}

#[test]
fn rejected_response_settles_the_conversation_too() {
    let mut m = manager();
    m.delete_shadow();
    assert_eq!(
        m.request_state(RequestKind::Delete),
        RequestState::AwaitingResponse
    );
    let topic = "$aws/things/test-device/shadow/delete/rejected".to_string();
    let action = m.handle_event(&topic, b"{\"code\":404}");
    assert_eq!(
        action,
        ShadowAction::DeleteRejected("{\"code\":404}".to_string())
    );
    assert_eq!(m.request_state(RequestKind::Delete), RequestState::Idle);
}

#[test]
fn requests_use_the_configured_qos() {
    let mut m = manager();
    m.set_qos(QosLevel::AtLeastOnce);
    let request = m.get_shadow();
    assert_eq!(request.qos, QosLevel::AtLeastOnce);
    let sub = m.subscribe_to_update_shadow_delta();
    assert_eq!(sub.qos, QosLevel::AtLeastOnce);
}

#[test]
fn subscriptions_name_the_eight_response_and_push_topics() {
    let m = manager();
    let base = "$aws/things/test-device/shadow";
    assert_eq!(
        m.subscribe_to_get_shadow_accepted().topic,
        format!("{}/get/accepted", base)
    );
    assert_eq!(
        m.subscribe_to_get_shadow_rejected().topic,
        format!("{}/get/rejected", base)
    );
    assert_eq!(
        m.subscribe_to_update_shadow_accepted().topic,
        format!("{}/update/accepted", base)
    );
    assert_eq!(
        m.subscribe_to_update_shadow_rejected().topic,
        format!("{}/update/rejected", base)
    );
    assert_eq!(
        m.subscribe_to_update_shadow_delta().topic,
        format!("{}/update/delta", base)
    );
    assert_eq!(
        m.subscribe_to_update_shadow_documents().topic,
        format!("{}/update/documents", base)
    );
    assert_eq!(
        m.subscribe_to_delete_shadow_accepted().topic,
        format!("{}/delete/accepted", base)
    );
    assert_eq!(
        m.subscribe_to_delete_shadow_rejected().topic,
        format!("{}/delete/rejected", base)
    );
}

#[test]
fn delete_shadow_publishes_an_empty_body() {
    let mut m = manager();
    let request = m.delete_shadow();
    assert_eq!(request.topic, "$aws/things/test-device/shadow/delete");
    assert_eq!(request.payload, "");
}

#[test]
fn published_documents_parse_and_hold_the_reported_state() {
    let mut m = manager();
    m.update_shadow("temperature", JsonValue::Int(-3));
    let request = m.update_shadow("label", JsonValue::Str("a\"b".to_string()));
    let parsed: serde_json::Value = serde_json::from_str(&request.payload).unwrap();
    assert_eq!(parsed["state"]["reported"]["temperature"], serde_json::Value::from(-3));
    assert_eq!(
        parsed["state"]["reported"]["label"],
        serde_json::Value::String("a\"b".to_string())
    );
}
