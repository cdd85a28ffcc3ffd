use aws_iot_core::topic::ShadowTopicKind;
use aws_iot_core::topic::classify_shadow_topic;
use aws_iot_core::topic::shadow_topic;

#[test]
fn derives_the_eleven_topics_for_lamp1() {
    assert_eq!(
        shadow_topic("Lamp1", ShadowTopicKind::Get),
        "$aws/things/Lamp1/shadow/get"
    );
    assert_eq!(
        shadow_topic("Lamp1", ShadowTopicKind::GetAccepted),
        "$aws/things/Lamp1/shadow/get/accepted"
    );
    assert_eq!(
        shadow_topic("Lamp1", ShadowTopicKind::GetRejected),
        "$aws/things/Lamp1/shadow/get/rejected"
    );
    assert_eq!(
        shadow_topic("Lamp1", ShadowTopicKind::Update),
        "$aws/things/Lamp1/shadow/update"
    );
    assert_eq!(
        shadow_topic("Lamp1", ShadowTopicKind::UpdateAccepted),
        "$aws/things/Lamp1/shadow/update/accepted"
    );
    assert_eq!(
        shadow_topic("Lamp1", ShadowTopicKind::UpdateRejected),
        "$aws/things/Lamp1/shadow/update/rejected"
    );
    assert_eq!(
        shadow_topic("Lamp1", ShadowTopicKind::UpdateDelta),
        "$aws/things/Lamp1/shadow/update/delta"
    );
    assert_eq!(
        shadow_topic("Lamp1", ShadowTopicKind::UpdateDocuments),
        "$aws/things/Lamp1/shadow/update/documents"
    );
    assert_eq!(
        shadow_topic("Lamp1", ShadowTopicKind::Delete),
        "$aws/things/Lamp1/shadow/delete"
    );
    assert_eq!(
        shadow_topic("Lamp1", ShadowTopicKind::DeleteAccepted),
        "$aws/things/Lamp1/shadow/delete/accepted"
    );
    assert_eq!(
        shadow_topic("Lamp1", ShadowTopicKind::DeleteRejected),
        "$aws/things/Lamp1/shadow/delete/rejected"
    );
}

#[test]
fn classifies_derived_topics_back_to_their_kind() {
    let kinds = [
        ShadowTopicKind::Get,
        ShadowTopicKind::GetAccepted,
        ShadowTopicKind::GetRejected,
        ShadowTopicKind::Update,
        ShadowTopicKind::UpdateAccepted,
        ShadowTopicKind::UpdateRejected,
        ShadowTopicKind::UpdateDelta,
        ShadowTopicKind::UpdateDocuments,
        ShadowTopicKind::Delete,
        ShadowTopicKind::DeleteAccepted,
        ShadowTopicKind::DeleteRejected,
    ];
    for kind in kinds {
        let topic = shadow_topic("my-device", kind);
        assert_eq!(classify_shadow_topic("my-device", &topic), Some(kind));
    }
}

#[test]
fn foreign_topics_classify_to_none() {
    assert_eq!(
        classify_shadow_topic("Lamp1", &"data/test".to_string()),
        None
    );
    assert_eq!(
        classify_shadow_topic("Lamp1", &"$aws/things/Lamp2/shadow/get".to_string()),
        None
    );
    assert_eq!(
        classify_shadow_topic("Lamp1", &"$aws/things/Lamp1/shadow".to_string()),
        None
    );
    assert_eq!(classify_shadow_topic("Lamp1", &String::new()), None);
}

#[test]
fn topics_of_an_empty_thing_name() {
    assert_eq!(
        shadow_topic("", ShadowTopicKind::Get),
        "$aws/things//shadow/get"
    );
}
