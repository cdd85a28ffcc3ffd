//! The device-shadow manager: a local mirror of one named thing's shadow
//! document, and the request/response protocol that keeps it synchronized
//! over plain publish/subscribe topics.
//!
//! The manager computes the outbound requests — which topic, which quality
//! of service, which payload — and classifies every inbound event into the
//! action the application owes: a callback to invoke with the decoded
//! payload, a decode failure to report, or nothing. The transport itself is
//! the caller's: it performs the publishes and subscriptions and feeds the
//! inbound events back in.
//!
//! One conceptual request state is kept per request kind (get, update,
//! delete): a request moves it to awaiting-response, a well-formed accepted
//! or rejected response moves it back to idle. No timeout is imposed: a
//! request that never hears back stays awaiting. Delta and documents pushes
//! are unsolicited and touch no request state.

use crate::decode::decode_payload;
use crate::decode::spec_decode_ok;
use crate::error::CoreError;
use crate::event::QosLevel;
use crate::json::JsonModel;
use crate::json::JsonValue;
use crate::json::deep_view_entries;
use crate::json::json_text_of;
use crate::json::lemma_deep_view_entries;
use crate::json::obj_json_text;
use crate::topic::ShadowTopicKind;
use crate::topic::classify_shadow_topic;
use crate::topic::lemma_shadow_topics_distinct;
use crate::topic::shadow_topic;
use crate::topic::spec_classify_shadow_topic;
use crate::topic::spec_shadow_topic;
use vstd::prelude::*;
use vstd::string::StringExecFns;
use vstd::utf8::decode_utf8;

verus! {

/// State of one request kind's conversation with the broker.
#[derive(Clone, Copy, PartialEq, Eq, Structural, Debug)]
pub enum RequestState {
    Idle,
    AwaitingResponse,
}

/// The three independent request kinds of the shadow protocol.
#[derive(Clone, Copy, PartialEq, Eq, Structural, Debug)]
pub enum RequestKind {
    Get,
    Update,
    Delete,
}

/// An outbound publish for the caller's transport to perform.
pub struct PublishRequest {
    pub topic: String,
    pub qos: QosLevel,
    pub payload: String,
}

/// An outbound subscription for the caller's transport to perform.
pub struct SubscribeRequest {
    pub topic: String,
    pub qos: QosLevel,
}

/// What one inbound event asks of the application: one callback with the
/// decoded payload text, one decode failure to report, or nothing.
#[derive(Debug, PartialEq)]
pub enum ShadowAction {
    GetAccepted(String),
    GetRejected(String),
    UpdateAccepted(String),
    UpdateRejected(String),
    UpdateDelta(String),
    UpdateDocuments(String),
    DeleteAccepted(String),
    DeleteRejected(String),
    DecodeFailure(ShadowTopicKind),
    Ignored,
}

/// Mathematical model of a shadow action.
pub enum ActionModel {
    GetAccepted(Seq<char>),
    GetRejected(Seq<char>),
    UpdateAccepted(Seq<char>),
    UpdateRejected(Seq<char>),
    UpdateDelta(Seq<char>),
    UpdateDocuments(Seq<char>),
    DeleteAccepted(Seq<char>),
    DeleteRejected(Seq<char>),
    DecodeFailure(ShadowTopicKind),
    Ignored,
}

impl View for ShadowAction {
    type V = ActionModel;

    open spec fn view(&self) -> ActionModel {
        match self {
            ShadowAction::GetAccepted(s) => ActionModel::GetAccepted(s@),
            ShadowAction::GetRejected(s) => ActionModel::GetRejected(s@),
            ShadowAction::UpdateAccepted(s) => ActionModel::UpdateAccepted(s@),
            ShadowAction::UpdateRejected(s) => ActionModel::UpdateRejected(s@),
            ShadowAction::UpdateDelta(s) => ActionModel::UpdateDelta(s@),
            ShadowAction::UpdateDocuments(s) => ActionModel::UpdateDocuments(s@),
            ShadowAction::DeleteAccepted(s) => ActionModel::DeleteAccepted(s@),
            ShadowAction::DeleteRejected(s) => ActionModel::DeleteRejected(s@),
            ShadowAction::DecodeFailure(k) => ActionModel::DecodeFailure(*k),
            ShadowAction::Ignored => ActionModel::Ignored,
        }
    }
}

impl ShadowAction {
    /// The error this action reports, if it reports one: a payload that did
    /// not decode is a decode error; every other action reports none.
    pub fn error(&self) -> (r: Option<CoreError>)
        ensures
            r == (if self@ is DecodeFailure {
                Some(CoreError::DecodeError)
            } else {
                None::<CoreError>
            }),
    {
        match self {
            ShadowAction::DecodeFailure(_) => Some(CoreError::DecodeError),
            _ => None,
        }
    }
}

/// Mathematical model of the shadow manager.
pub struct ManagerModel {
    pub thing_name: Seq<char>,
    pub qos: QosLevel,
    pub reported: Seq<(Seq<char>, JsonModel)>,
    pub get_state: RequestState,
    pub update_state: RequestState,
    pub delete_state: RequestState,
}

/// The first value under `key` among the entries, if any.
pub open spec fn spec_lookup(entries: Seq<(Seq<char>, JsonModel)>, key: Seq<char>) -> Option<
    JsonModel,
>
    decreases entries.len(),
{
    if entries.len() == 0 {
        None
    } else if entries[0].0 == key {
        Some(entries[0].1)
    } else {
        spec_lookup(entries.drop_first(), key)
    }
}

/// The entries with `key` bound to `value`: the first entry under `key` is
/// replaced, or the pair is appended when the key is new. Entry order is
/// kept either way.
pub open spec fn spec_set_key(
    entries: Seq<(Seq<char>, JsonModel)>,
    key: Seq<char>,
    value: JsonModel,
) -> Seq<(Seq<char>, JsonModel)>
    decreases entries.len(),
{
    if entries.len() == 0 {
        seq![(key, value)]
    } else if entries[0].0 == key {
        seq![(key, value)] + entries.drop_first()
    } else {
        seq![entries[0]] + spec_set_key(entries.drop_first(), key, value)
    }
}

/// The full published shadow document: the accumulated reported state,
/// wrapped as `state.reported` of one JSON object.
pub open spec fn spec_shadow_doc_text(reported: Seq<(Seq<char>, JsonModel)>) -> Seq<char> {
    "{\"state\":{\"reported\":"@ + json_text_of(JsonModel::Obj(reported)) + "}}"@
}

/// The request state the kind's row keeps.
pub open spec fn spec_request_state(m: ManagerModel, kind: RequestKind) -> RequestState {
    match kind {
        RequestKind::Get => m.get_state,
        RequestKind::Update => m.update_state,
        RequestKind::Delete => m.delete_state,
    }
}

/// How one classified, well-decoded inbound event changes the manager and
/// which action it asks of the application. An accepted or rejected
/// response settles its kind's conversation back to idle; delta and
/// documents pushes ask for their callback and change nothing; an event on
/// a request topic is not a response and is ignored.
pub open spec fn spec_respond(m: ManagerModel, k: ShadowTopicKind, text: Seq<char>) -> (
    ManagerModel,
    ActionModel,
) {
    match k {
        ShadowTopicKind::Get => (m, ActionModel::Ignored),
        ShadowTopicKind::Update => (m, ActionModel::Ignored),
        ShadowTopicKind::Delete => (m, ActionModel::Ignored),
        ShadowTopicKind::GetAccepted => (
            ManagerModel { get_state: RequestState::Idle, ..m },
            ActionModel::GetAccepted(text),
        ),
        ShadowTopicKind::GetRejected => (
            ManagerModel { get_state: RequestState::Idle, ..m },
            ActionModel::GetRejected(text),
        ),
        ShadowTopicKind::UpdateAccepted => (
            ManagerModel { update_state: RequestState::Idle, ..m },
            ActionModel::UpdateAccepted(text),
        ),
        ShadowTopicKind::UpdateRejected => (
            ManagerModel { update_state: RequestState::Idle, ..m },
            ActionModel::UpdateRejected(text),
        ),
        ShadowTopicKind::UpdateDelta => (m, ActionModel::UpdateDelta(text)),
        ShadowTopicKind::UpdateDocuments => (m, ActionModel::UpdateDocuments(text)),
        ShadowTopicKind::DeleteAccepted => (
            ManagerModel { delete_state: RequestState::Idle, ..m },
            ActionModel::DeleteAccepted(text),
        ),
        ShadowTopicKind::DeleteRejected => (
            ManagerModel { delete_state: RequestState::Idle, ..m },
            ActionModel::DeleteRejected(text),
        ),
    }
}

/// Whether the topic table row carries a response or push this manager
/// reacts to, as opposed to one of its own request topics.
pub open spec fn spec_is_response_kind(k: ShadowTopicKind) -> bool {
    match k {
        ShadowTopicKind::Get => false,
        ShadowTopicKind::Update => false,
        ShadowTopicKind::Delete => false,
        _ => true,
    }
}

/// How any inbound event changes the manager and what it asks of the
/// application: events off the shadow topic table are ignored; a payload
/// that does not decode on a response topic is a decode failure confined to
/// that event, leaving the manager as it was; a decoded response is routed
/// by its topic.
pub open spec fn spec_handle_event(m: ManagerModel, topic: Seq<char>, payload: Seq<u8>) -> (
    ManagerModel,
    ActionModel,
) {
    match spec_classify_shadow_topic(m.thing_name, topic) {
        None => (m, ActionModel::Ignored),
        Some(k) => {
            if !spec_is_response_kind(k) {
                (m, ActionModel::Ignored)
            } else if !spec_decode_ok(payload) {
                (m, ActionModel::DecodeFailure(k))
            } else {
                spec_respond(m, k, decode_utf8(payload))
            }
        },
    }
}

/// The shadow manager of one named thing: its accumulated reported state,
/// the quality of service its traffic uses, and one conversation state per
/// request kind.
pub struct AWSShadowManager {
    thing_name: String,
    qos: QosLevel,
    reported: Vec<(String, JsonValue)>,
    get_state: RequestState,
    update_state: RequestState,
    delete_state: RequestState,
}

impl View for AWSShadowManager {
    type V = ManagerModel;

    closed spec fn view(&self) -> ManagerModel {
        ManagerModel {
            thing_name: self.thing_name@,
            qos: self.qos,
            reported: deep_view_entries(self.reported@),
            get_state: self.get_state,
            update_state: self.update_state,
            delete_state: self.delete_state,
        }
    }
}

impl AWSShadowManager {
    /// A manager for the thing, with an empty mirror, every conversation
    /// idle, and at-most-once delivery until `set_qos` says otherwise.
    pub fn new(thing_name: String) -> (r: AWSShadowManager)
        ensures
            r@ == (ManagerModel {
                thing_name: thing_name@,
                qos: QosLevel::AtMostOnce,
                reported: Seq::empty(),
                get_state: RequestState::Idle,
                update_state: RequestState::Idle,
                delete_state: RequestState::Idle,
            }),
    {
        let r = AWSShadowManager {
            thing_name,
            qos: QosLevel::AtMostOnce,
            reported: Vec::new(),
            get_state: RequestState::Idle,
            update_state: RequestState::Idle,
            delete_state: RequestState::Idle,
        };
        proof {
            assert(deep_view_entries(r.reported@) =~= Seq::<(Seq<char>, JsonModel)>::empty());
        }
        r
    }

    /// Choose the delivery guarantee for all shadow traffic.
    pub fn set_qos(&mut self, qos: QosLevel)
        ensures
            final(self)@ == (ManagerModel { qos, ..old(self)@ }),
    {
        self.qos = qos;
    }

    /// The conversation state of one request kind.
    pub fn request_state(&self, kind: RequestKind) -> (r: RequestState)
        ensures
            r == spec_request_state(self@, kind),
    {
        match kind {
            RequestKind::Get => self.get_state,
            RequestKind::Update => self.update_state,
            RequestKind::Delete => self.delete_state,
        }
    }

    fn subscription(&self, kind: ShadowTopicKind) -> (r: SubscribeRequest)
        ensures
            r.topic@ == spec_shadow_topic(self@.thing_name, kind),
            r.qos == self@.qos,
    {
        SubscribeRequest { topic: shadow_topic(self.thing_name.as_str(), kind), qos: self.qos }
    }

    /// The subscription for the get/accepted topic.
    pub fn subscribe_to_get_shadow_accepted(&self) -> (r: SubscribeRequest)
        ensures
            r.topic@ == spec_shadow_topic(self@.thing_name, ShadowTopicKind::GetAccepted),
            r.qos == self@.qos,
    {
        self.subscription(ShadowTopicKind::GetAccepted)
    }

    /// The subscription for the get/rejected topic.
    pub fn subscribe_to_get_shadow_rejected(&self) -> (r: SubscribeRequest)
        ensures
            r.topic@ == spec_shadow_topic(self@.thing_name, ShadowTopicKind::GetRejected),
            r.qos == self@.qos,
    {
        self.subscription(ShadowTopicKind::GetRejected)
    }

    /// The subscription for the update/accepted topic.
    pub fn subscribe_to_update_shadow_accepted(&self) -> (r: SubscribeRequest)
        ensures
            r.topic@ == spec_shadow_topic(self@.thing_name, ShadowTopicKind::UpdateAccepted),
            r.qos == self@.qos,
    {
        self.subscription(ShadowTopicKind::UpdateAccepted)
    }

    /// The subscription for the update/rejected topic.
    pub fn subscribe_to_update_shadow_rejected(&self) -> (r: SubscribeRequest)
        ensures
            r.topic@ == spec_shadow_topic(self@.thing_name, ShadowTopicKind::UpdateRejected),
            r.qos == self@.qos,
    {
        self.subscription(ShadowTopicKind::UpdateRejected)
    }

    /// The subscription for the update/delta push topic.
    pub fn subscribe_to_update_shadow_delta(&self) -> (r: SubscribeRequest)
        ensures
            r.topic@ == spec_shadow_topic(self@.thing_name, ShadowTopicKind::UpdateDelta),
            r.qos == self@.qos,
    {
        self.subscription(ShadowTopicKind::UpdateDelta)
    }

    /// The subscription for the update/documents push topic.
    pub fn subscribe_to_update_shadow_documents(&self) -> (r: SubscribeRequest)
        ensures
            r.topic@ == spec_shadow_topic(self@.thing_name, ShadowTopicKind::UpdateDocuments),
            r.qos == self@.qos,
    {
        self.subscription(ShadowTopicKind::UpdateDocuments)
    }

    /// The subscription for the delete/accepted topic.
    pub fn subscribe_to_delete_shadow_accepted(&self) -> (r: SubscribeRequest)
        ensures
            r.topic@ == spec_shadow_topic(self@.thing_name, ShadowTopicKind::DeleteAccepted),
            r.qos == self@.qos,
    {
        self.subscription(ShadowTopicKind::DeleteAccepted)
    }

    /// The subscription for the delete/rejected topic.
    pub fn subscribe_to_delete_shadow_rejected(&self) -> (r: SubscribeRequest)
        ensures
            r.topic@ == spec_shadow_topic(self@.thing_name, ShadowTopicKind::DeleteRejected),
            r.qos == self@.qos,
    {
        self.subscription(ShadowTopicKind::DeleteRejected)
    }

    /// Ask the broker for the shadow document: an empty publish to the get
    /// topic. The get conversation is awaiting its response.
    pub fn get_shadow(&mut self) -> (r: PublishRequest)
        ensures
            final(self)@ == (ManagerModel {
                get_state: RequestState::AwaitingResponse,
                ..old(self)@
            }),
            r.topic@ == spec_shadow_topic(old(self)@.thing_name, ShadowTopicKind::Get),
            r.qos == old(self)@.qos,
            r.payload@ == Seq::<char>::empty(),
    {
        self.get_state = RequestState::AwaitingResponse;
        PublishRequest {
            topic: shadow_topic(self.thing_name.as_str(), ShadowTopicKind::Get),
            qos: self.qos,
            payload: String::new(),
        }
    }

    /// Ask the broker to delete the shadow document: an empty publish to
    /// the delete topic. The delete conversation is awaiting its response.
    pub fn delete_shadow(&mut self) -> (r: PublishRequest)
        ensures
            final(self)@ == (ManagerModel {
                delete_state: RequestState::AwaitingResponse,
                ..old(self)@
            }),
            r.topic@ == spec_shadow_topic(old(self)@.thing_name, ShadowTopicKind::Delete),
            r.qos == old(self)@.qos,
            r.payload@ == Seq::<char>::empty(),
    {
        self.delete_state = RequestState::AwaitingResponse;
        PublishRequest {
            topic: shadow_topic(self.thing_name.as_str(), ShadowTopicKind::Delete),
            qos: self.qos,
            payload: String::new(),
        }
    }

    /// Merge `value` under `key` into the local mirror's reported state and
    /// publish the whole accumulated document — every call resends the full
    /// mirror, not a diff. The update conversation is awaiting its
    /// response.
    #[verifier::loop_isolation(false)]
    pub fn update_shadow(&mut self, key: &str, value: JsonValue) -> (r: PublishRequest)
        ensures
            final(self)@ == (ManagerModel {
                reported: spec_set_key(old(self)@.reported, key@, value.deep_view()),
                update_state: RequestState::AwaitingResponse,
                ..old(self)@
            }),
            r.topic@ == spec_shadow_topic(old(self)@.thing_name, ShadowTopicKind::Update),
            r.qos == old(self)@.qos,
            r.payload@ == spec_shadow_doc_text(final(self)@.reported),
    {
        proof {
            lemma_deep_view_entries(self.reported@);
        }
        let key_string: String = key.to_owned();
        let ghost target: Seq<(Seq<char>, JsonModel)> = spec_set_key(
            old(self)@.reported,
            key@,
            value.deep_view(),
        );
        let n = self.reported.len();
        let mut i: usize = 0;
        let mut found = false;
        while !found && i < n
            invariant
                self == old(self),
                n == self.reported@.len(),
                i <= n,
                forall|k: int| 0 <= k < i ==> #[trigger] self.reported@[k].0@ != key@,
                found ==> i < n && self.reported@[i as int].0@ == key@,
            decreases n - i, if found { 0int } else { 1int },
        {
            if self.reported[i].0 == key_string {
                found = true;
            } else {
                i = i + 1;
            }
        }
        proof {
            assert forall|k: int| 0 <= k < i implies #[trigger] old(self)@.reported[k].0
                != key@ by {
                assert(old(self)@.reported[k] == (
                    old(self).reported@[k].0@,
                    old(self).reported@[k].1.deep_view(),
                ));
            }
        }
        if found {
            let mut pair = (key_string, value);
            self.reported.set_and_swap(i, &mut pair);
            proof {
                assert(old(self)@.reported[i as int] == (
                    old(self).reported@[i as int].0@,
                    old(self).reported@[i as int].1.deep_view(),
                ));
                lemma_set_key_found(old(self)@.reported, key@, value.deep_view(), i as int);
                lemma_deep_view_entries(self.reported@);
                assert(deep_view_entries(self.reported@) =~= target);
            }
        } else {
            self.reported.push((key_string, value));
            proof {
                lemma_set_key_fresh(old(self)@.reported, key@, value.deep_view());
                lemma_deep_view_entries(self.reported@);
                assert(deep_view_entries(self.reported@) =~= target);
            }
        }
        self.update_state = RequestState::AwaitingResponse;
        let mut payload = String::new();
        payload.append("{\"state\":{\"reported\":");
        let obj = obj_json_text(&self.reported);
        payload.append(obj.as_str());
        payload.append("}}");
        proof {
            assert(payload@ =~= spec_shadow_doc_text(target));
        }
        PublishRequest {
            topic: shadow_topic(self.thing_name.as_str(), ShadowTopicKind::Update),
            qos: self.qos,
            payload,
        }
    }

    /// Classify one inbound event against this thing's topic table, decode
    /// its payload, settle the conversation it answers, and say what the
    /// application owes: exactly `spec_handle_event` of the manager's
    /// state, the topic and the payload.
    pub fn handle_event(&mut self, topic: &String, payload: &[u8]) -> (r: ShadowAction)
        ensures
            (final(self)@, r@) == spec_handle_event(old(self)@, topic@, payload@),
    {
        let kind = classify_shadow_topic(self.thing_name.as_str(), topic);
        match kind {
            None => ShadowAction::Ignored,
            Some(k) => {
                let is_response = match k {
                    ShadowTopicKind::Get => false,
                    ShadowTopicKind::Update => false,
                    ShadowTopicKind::Delete => false,
                    _ => true,
                };
                if !is_response {
                    ShadowAction::Ignored
                } else {
                    match decode_payload(payload) {
                        None => ShadowAction::DecodeFailure(k),
                        Some(text) => match k {
                            ShadowTopicKind::Get => ShadowAction::Ignored,
                            ShadowTopicKind::Update => ShadowAction::Ignored,
                            ShadowTopicKind::Delete => ShadowAction::Ignored,
                            ShadowTopicKind::GetAccepted => {
                                self.get_state = RequestState::Idle;
                                ShadowAction::GetAccepted(text)
                            },
                            ShadowTopicKind::GetRejected => {
                                self.get_state = RequestState::Idle;
                                ShadowAction::GetRejected(text)
                            },
                            ShadowTopicKind::UpdateAccepted => {
                                self.update_state = RequestState::Idle;
                                ShadowAction::UpdateAccepted(text)
                            },
                            ShadowTopicKind::UpdateRejected => {
                                self.update_state = RequestState::Idle;
                                ShadowAction::UpdateRejected(text)
                            },
                            ShadowTopicKind::UpdateDelta => ShadowAction::UpdateDelta(text),
                            ShadowTopicKind::UpdateDocuments => ShadowAction::UpdateDocuments(
                                text,
                            ),
                            ShadowTopicKind::DeleteAccepted => {
                                self.delete_state = RequestState::Idle;
                                ShadowAction::DeleteAccepted(text)
                            },
                            ShadowTopicKind::DeleteRejected => {
                                self.delete_state = RequestState::Idle;
                                ShadowAction::DeleteRejected(text)
                            },
                        },
                    }
                }
            },
        }
    }
}

proof fn lemma_set_key_found(
    entries: Seq<(Seq<char>, JsonModel)>,
    key: Seq<char>,
    value: JsonModel,
    i: int,
)
    requires
        0 <= i < entries.len(),
        entries[i].0 == key,
        forall|k: int| 0 <= k < i ==> #[trigger] entries[k].0 != key,
    ensures
        spec_set_key(entries, key, value) =~= entries.update(i, (key, value)),
    decreases entries.len(),
{
    if i == 0 {
        assert(spec_set_key(entries, key, value) =~= entries.update(0, (key, value)));
    } else {
        assert(entries.drop_first()[i - 1].0 == key);
        assert forall|k: int| 0 <= k < i - 1 implies #[trigger] entries.drop_first()[k].0
            != key by {
            assert(entries.drop_first()[k] == entries[k + 1]);
        }
        lemma_set_key_found(entries.drop_first(), key, value, i - 1);
        assert(spec_set_key(entries, key, value) =~= entries.update(i, (key, value)));
    }
}

proof fn lemma_set_key_fresh(entries: Seq<(Seq<char>, JsonModel)>, key: Seq<char>, value: JsonModel)
    requires
        forall|k: int| 0 <= k < entries.len() ==> #[trigger] entries[k].0 != key,
    ensures
        spec_set_key(entries, key, value) =~= entries.push((key, value)),
    decreases entries.len(),
{
    if entries.len() > 0 {
        assert forall|k: int| 0 <= k < entries.drop_first().len() implies #[trigger] entries
            .drop_first()[k].0 != key by {
            assert(entries.drop_first()[k] == entries[k + 1]);
        }
        lemma_set_key_fresh(entries.drop_first(), key, value);
        assert(spec_set_key(entries, key, value) =~= entries.push((key, value)));
    }
}

/// Setting a key binds exactly that key: looking the key up afterwards
/// finds the new value.
pub proof fn lemma_lookup_set_same(
    entries: Seq<(Seq<char>, JsonModel)>,
    key: Seq<char>,
    value: JsonModel,
)
    ensures
        spec_lookup(spec_set_key(entries, key, value), key) == Some(value),
    decreases entries.len(),
{
    if entries.len() > 0 && entries[0].0 != key {
        lemma_lookup_set_same(entries.drop_first(), key, value);
        assert(spec_set_key(entries, key, value).drop_first() =~= spec_set_key(
            entries.drop_first(),
            key,
            value,
        ));
    }
}

/// Setting a key touches no other key: looking any other key up afterwards
/// finds what it found before.
pub proof fn lemma_lookup_set_other(
    entries: Seq<(Seq<char>, JsonModel)>,
    key: Seq<char>,
    value: JsonModel,
    other: Seq<char>,
)
    requires
        other != key,
    ensures
        spec_lookup(spec_set_key(entries, key, value), other) == spec_lookup(entries, other),
    decreases entries.len(),
{
    let s0 = spec_set_key(entries, key, value);
    if entries.len() == 0 {
        assert(s0[0] == (key, value));
        assert(s0.drop_first() =~= Seq::<(Seq<char>, JsonModel)>::empty());
        assert(spec_lookup(s0, other) == spec_lookup(s0.drop_first(), other));
        assert(spec_lookup(s0.drop_first(), other) == None::<JsonModel>);
    } else if entries[0].0 == key {
        assert(s0[0] == (key, value));
        assert(s0.drop_first() =~= entries.drop_first());
        assert(spec_lookup(s0, other) == spec_lookup(entries.drop_first(), other));
        assert(spec_lookup(entries, other) == spec_lookup(entries.drop_first(), other));
    } else {
        lemma_lookup_set_other(entries.drop_first(), key, value, other);
        assert(s0[0] == entries[0]);
        assert(s0.len() > 0);
        assert(s0.drop_first() =~= spec_set_key(entries.drop_first(), key, value));
        if entries[0].0 == other {
            assert(spec_lookup(s0, other) == Some(entries[0].1));
            assert(spec_lookup(entries, other) == Some(entries[0].1));
        } else {
            assert(spec_lookup(s0, other) == spec_lookup(s0.drop_first(), other));
            assert(spec_lookup(entries, other) == spec_lookup(entries.drop_first(), other));
        }
    }
}

/// Updates accumulate: after setting two distinct keys, the reported state
/// holds both bindings — the second publish carries the first key's value
/// too, it does not overwrite the document down to a single key.
pub proof fn lemma_update_accumulates(
    entries: Seq<(Seq<char>, JsonModel)>,
    key1: Seq<char>,
    value1: JsonModel,
    key2: Seq<char>,
    value2: JsonModel,
)
    requires
        key1 != key2,
    ensures
        spec_lookup(spec_set_key(spec_set_key(entries, key1, value1), key2, value2), key1)
            == Some(value1),
        spec_lookup(spec_set_key(spec_set_key(entries, key1, value1), key2, value2), key2)
            == Some(value2),
{
    lemma_lookup_set_same(entries, key1, value1);
    lemma_lookup_set_other(spec_set_key(entries, key1, value1), key2, value2, key1);
    lemma_lookup_set_same(spec_set_key(entries, key1, value1), key2, value2);
}

proof fn lemma_classify_derived(thing_name: Seq<char>, k: ShadowTopicKind)
    ensures
        spec_classify_shadow_topic(thing_name, spec_shadow_topic(thing_name, k)) == Some(k),
{
    if k != ShadowTopicKind::Get {
        lemma_shadow_topics_distinct(thing_name, k, ShadowTopicKind::Get);
    }
    if k != ShadowTopicKind::GetAccepted {
        lemma_shadow_topics_distinct(thing_name, k, ShadowTopicKind::GetAccepted);
    }
    if k != ShadowTopicKind::GetRejected {
        lemma_shadow_topics_distinct(thing_name, k, ShadowTopicKind::GetRejected);
    }
    if k != ShadowTopicKind::Update {
        lemma_shadow_topics_distinct(thing_name, k, ShadowTopicKind::Update);
    }
    if k != ShadowTopicKind::UpdateAccepted {
        lemma_shadow_topics_distinct(thing_name, k, ShadowTopicKind::UpdateAccepted);
    }
    if k != ShadowTopicKind::UpdateRejected {
        lemma_shadow_topics_distinct(thing_name, k, ShadowTopicKind::UpdateRejected);
    }
    if k != ShadowTopicKind::UpdateDelta {
        lemma_shadow_topics_distinct(thing_name, k, ShadowTopicKind::UpdateDelta);
    }
    if k != ShadowTopicKind::UpdateDocuments {
        lemma_shadow_topics_distinct(thing_name, k, ShadowTopicKind::UpdateDocuments);
    }
    if k != ShadowTopicKind::Delete {
        lemma_shadow_topics_distinct(thing_name, k, ShadowTopicKind::Delete);
    }
    if k != ShadowTopicKind::DeleteAccepted {
        lemma_shadow_topics_distinct(thing_name, k, ShadowTopicKind::DeleteAccepted);
    }
    if k != ShadowTopicKind::DeleteRejected {
        lemma_shadow_topics_distinct(thing_name, k, ShadowTopicKind::DeleteRejected);
    }
}

/// Round trip of a get request: once the manager awaits the get response, a
/// well-formed payload on this thing's get/accepted topic settles the get
/// conversation back to idle and asks for exactly the accepted callback,
/// with the decoded payload — not the rejected one, not the delta one.
pub proof fn lemma_get_round_trip(m: ManagerModel, payload: Seq<u8>)
    requires
        spec_decode_ok(payload),
    ensures
        ({
            let awaiting = ManagerModel { get_state: RequestState::AwaitingResponse, ..m };
            spec_handle_event(
                awaiting,
                spec_shadow_topic(m.thing_name, ShadowTopicKind::GetAccepted),
                payload,
            ) == (
                ManagerModel { get_state: RequestState::Idle, ..m },
                ActionModel::GetAccepted(decode_utf8(payload)),
            )
        }),
{
    lemma_classify_derived(m.thing_name, ShadowTopicKind::GetAccepted);
}

/// A payload that does not decode, arriving on this thing's update/delta
/// topic, asks only for a decode failure report on that one event and
/// leaves the manager exactly as it was: later events meet the same
/// manager.
pub proof fn lemma_malformed_delta_isolated(m: ManagerModel, payload: Seq<u8>)
    requires
        !spec_decode_ok(payload),
    ensures
        spec_handle_event(
            m,
            spec_shadow_topic(m.thing_name, ShadowTopicKind::UpdateDelta),
            payload,
        ) == (m, ActionModel::DecodeFailure(ShadowTopicKind::UpdateDelta)),
{
    lemma_classify_derived(m.thing_name, ShadowTopicKind::UpdateDelta);
}

} // verus!
