//! The shadow topic table: every topic of the shadow protocol is derived
//! deterministically from the thing name, and an inbound topic is classified
//! back to its place in the table by exact match (this layer does no
//! wildcard matching).

use vstd::prelude::*;
use vstd::string::StringExecFns;

verus! {

/// One row of the shadow topic table: the three request topics, their
/// accepted/rejected response topics, and the two unsolicited push topics.
#[derive(Clone, Copy, PartialEq, Eq, Structural, Debug)]
pub enum ShadowTopicKind {
    Get,
    GetAccepted,
    GetRejected,
    Update,
    UpdateAccepted,
    UpdateRejected,
    UpdateDelta,
    UpdateDocuments,
    Delete,
    DeleteAccepted,
    DeleteRejected,
}

pub open spec fn spec_topic_prefix() -> Seq<char> {
    "$aws/things/"@
}

pub open spec fn spec_topic_suffix(kind: ShadowTopicKind) -> Seq<char> {
    match kind {
        ShadowTopicKind::Get => "/shadow/get"@,
        ShadowTopicKind::GetAccepted => "/shadow/get/accepted"@,
        ShadowTopicKind::GetRejected => "/shadow/get/rejected"@,
        ShadowTopicKind::Update => "/shadow/update"@,
        ShadowTopicKind::UpdateAccepted => "/shadow/update/accepted"@,
        ShadowTopicKind::UpdateRejected => "/shadow/update/rejected"@,
        ShadowTopicKind::UpdateDelta => "/shadow/update/delta"@,
        ShadowTopicKind::UpdateDocuments => "/shadow/update/documents"@,
        ShadowTopicKind::Delete => "/shadow/delete"@,
        ShadowTopicKind::DeleteAccepted => "/shadow/delete/accepted"@,
        ShadowTopicKind::DeleteRejected => "/shadow/delete/rejected"@,
    }
}

/// The topic of the table's row `kind` for the thing `thing_name`.
pub open spec fn spec_shadow_topic(thing_name: Seq<char>, kind: ShadowTopicKind) -> Seq<char> {
    spec_topic_prefix() + thing_name + spec_topic_suffix(kind)
}

fn topic_suffix(kind: ShadowTopicKind) -> (r: &'static str)
    ensures
        r@ == spec_topic_suffix(kind),
{
    match kind {
        ShadowTopicKind::Get => "/shadow/get",
        ShadowTopicKind::GetAccepted => "/shadow/get/accepted",
        ShadowTopicKind::GetRejected => "/shadow/get/rejected",
        ShadowTopicKind::Update => "/shadow/update",
        ShadowTopicKind::UpdateAccepted => "/shadow/update/accepted",
        ShadowTopicKind::UpdateRejected => "/shadow/update/rejected",
        ShadowTopicKind::UpdateDelta => "/shadow/update/delta",
        ShadowTopicKind::UpdateDocuments => "/shadow/update/documents",
        ShadowTopicKind::Delete => "/shadow/delete",
        ShadowTopicKind::DeleteAccepted => "/shadow/delete/accepted",
        ShadowTopicKind::DeleteRejected => "/shadow/delete/rejected",
    }
}

/// Derive the topic of the table's row `kind` for `thing_name`.
pub fn shadow_topic(thing_name: &str, kind: ShadowTopicKind) -> (r: String)
    ensures
        r@ == spec_shadow_topic(thing_name@, kind),
{
    let mut s = String::new();
    s.append("$aws/things/");
    s.append(thing_name);
    s.append(topic_suffix(kind));
    s
}

/// Which row of the table, if any, the topic `topic` is, for `thing_name`.
pub open spec fn spec_classify_shadow_topic(thing_name: Seq<char>, topic: Seq<char>) -> Option<
    ShadowTopicKind,
> {
    if topic == spec_shadow_topic(thing_name, ShadowTopicKind::Get) {
        Some(ShadowTopicKind::Get)
    } else if topic == spec_shadow_topic(thing_name, ShadowTopicKind::GetAccepted) {
        Some(ShadowTopicKind::GetAccepted)
    } else if topic == spec_shadow_topic(thing_name, ShadowTopicKind::GetRejected) {
        Some(ShadowTopicKind::GetRejected)
    } else if topic == spec_shadow_topic(thing_name, ShadowTopicKind::Update) {
        Some(ShadowTopicKind::Update)
    } else if topic == spec_shadow_topic(thing_name, ShadowTopicKind::UpdateAccepted) {
        Some(ShadowTopicKind::UpdateAccepted)
    } else if topic == spec_shadow_topic(thing_name, ShadowTopicKind::UpdateRejected) {
        Some(ShadowTopicKind::UpdateRejected)
    } else if topic == spec_shadow_topic(thing_name, ShadowTopicKind::UpdateDelta) {
        Some(ShadowTopicKind::UpdateDelta)
    } else if topic == spec_shadow_topic(thing_name, ShadowTopicKind::UpdateDocuments) {
        Some(ShadowTopicKind::UpdateDocuments)
    } else if topic == spec_shadow_topic(thing_name, ShadowTopicKind::Delete) {
        Some(ShadowTopicKind::Delete)
    } else if topic == spec_shadow_topic(thing_name, ShadowTopicKind::DeleteAccepted) {
        Some(ShadowTopicKind::DeleteAccepted)
    } else if topic == spec_shadow_topic(thing_name, ShadowTopicKind::DeleteRejected) {
        Some(ShadowTopicKind::DeleteRejected)
    } else {
        None
    }
}

fn topic_matches(thing_name: &str, topic: &String, kind: ShadowTopicKind) -> (r: bool)
    ensures
        r == (topic@ == spec_shadow_topic(thing_name@, kind)),
{
    let candidate = shadow_topic(thing_name, kind);
    *topic == candidate
}

/// Classify an inbound topic against the shadow topic table of `thing_name`.
pub fn classify_shadow_topic(thing_name: &str, topic: &String) -> (r: Option<ShadowTopicKind>)
    ensures
        r == spec_classify_shadow_topic(thing_name@, topic@),
{
    if topic_matches(thing_name, topic, ShadowTopicKind::Get) {
        Some(ShadowTopicKind::Get)
    } else if topic_matches(thing_name, topic, ShadowTopicKind::GetAccepted) {
        Some(ShadowTopicKind::GetAccepted)
    } else if topic_matches(thing_name, topic, ShadowTopicKind::GetRejected) {
        Some(ShadowTopicKind::GetRejected)
    } else if topic_matches(thing_name, topic, ShadowTopicKind::Update) {
        Some(ShadowTopicKind::Update)
    } else if topic_matches(thing_name, topic, ShadowTopicKind::UpdateAccepted) {
        Some(ShadowTopicKind::UpdateAccepted)
    } else if topic_matches(thing_name, topic, ShadowTopicKind::UpdateRejected) {
        Some(ShadowTopicKind::UpdateRejected)
    } else if topic_matches(thing_name, topic, ShadowTopicKind::UpdateDelta) {
        Some(ShadowTopicKind::UpdateDelta)
    } else if topic_matches(thing_name, topic, ShadowTopicKind::UpdateDocuments) {
        Some(ShadowTopicKind::UpdateDocuments)
    } else if topic_matches(thing_name, topic, ShadowTopicKind::Delete) {
        Some(ShadowTopicKind::Delete)
    } else if topic_matches(thing_name, topic, ShadowTopicKind::DeleteAccepted) {
        Some(ShadowTopicKind::DeleteAccepted)
    } else if topic_matches(thing_name, topic, ShadowTopicKind::DeleteRejected) {
        Some(ShadowTopicKind::DeleteRejected)
    } else {
        None
    }
}

spec fn kind_of_suffix(s: Seq<char>) -> Option<ShadowTopicKind> {
    if s == spec_topic_suffix(ShadowTopicKind::Get) {
        Some(ShadowTopicKind::Get)
    } else if s == spec_topic_suffix(ShadowTopicKind::GetAccepted) {
        Some(ShadowTopicKind::GetAccepted)
    } else if s == spec_topic_suffix(ShadowTopicKind::GetRejected) {
        Some(ShadowTopicKind::GetRejected)
    } else if s == spec_topic_suffix(ShadowTopicKind::Update) {
        Some(ShadowTopicKind::Update)
    } else if s == spec_topic_suffix(ShadowTopicKind::UpdateAccepted) {
        Some(ShadowTopicKind::UpdateAccepted)
    } else if s == spec_topic_suffix(ShadowTopicKind::UpdateRejected) {
        Some(ShadowTopicKind::UpdateRejected)
    } else if s == spec_topic_suffix(ShadowTopicKind::UpdateDelta) {
        Some(ShadowTopicKind::UpdateDelta)
    } else if s == spec_topic_suffix(ShadowTopicKind::UpdateDocuments) {
        Some(ShadowTopicKind::UpdateDocuments)
    } else if s == spec_topic_suffix(ShadowTopicKind::Delete) {
        Some(ShadowTopicKind::Delete)
    } else if s == spec_topic_suffix(ShadowTopicKind::DeleteAccepted) {
        Some(ShadowTopicKind::DeleteAccepted)
    } else if s == spec_topic_suffix(ShadowTopicKind::DeleteRejected) {
        Some(ShadowTopicKind::DeleteRejected)
    } else {
        None
    }
}

proof fn lemma_kind_of_suffix(k: ShadowTopicKind)
    ensures
        kind_of_suffix(spec_topic_suffix(k)) == Some(k),
{
    reveal_strlit("/shadow/get");
    reveal_strlit("/shadow/get/accepted");
    reveal_strlit("/shadow/get/rejected");
    reveal_strlit("/shadow/update");
    reveal_strlit("/shadow/update/accepted");
    reveal_strlit("/shadow/update/rejected");
    reveal_strlit("/shadow/update/delta");
    reveal_strlit("/shadow/update/documents");
    reveal_strlit("/shadow/delete");
    reveal_strlit("/shadow/delete/accepted");
    reveal_strlit("/shadow/delete/rejected");
    // Suffixes differ in length, or at a witness index where the lengths agree.
    assert(spec_topic_suffix(ShadowTopicKind::Get).len() == 11);
    assert(spec_topic_suffix(ShadowTopicKind::GetAccepted).len() == 20);
    assert(spec_topic_suffix(ShadowTopicKind::GetRejected).len() == 20);
    assert(spec_topic_suffix(ShadowTopicKind::Update).len() == 14);
    assert(spec_topic_suffix(ShadowTopicKind::UpdateAccepted).len() == 23);
    assert(spec_topic_suffix(ShadowTopicKind::UpdateRejected).len() == 23);
    assert(spec_topic_suffix(ShadowTopicKind::UpdateDelta).len() == 20);
    assert(spec_topic_suffix(ShadowTopicKind::UpdateDocuments).len() == 24);
    assert(spec_topic_suffix(ShadowTopicKind::Delete).len() == 14);
    assert(spec_topic_suffix(ShadowTopicKind::DeleteAccepted).len() == 23);
    assert(spec_topic_suffix(ShadowTopicKind::DeleteRejected).len() == 23);
    assert(spec_topic_suffix(ShadowTopicKind::GetAccepted)[12]
        != spec_topic_suffix(ShadowTopicKind::GetRejected)[12]);
    assert(spec_topic_suffix(ShadowTopicKind::GetAccepted)[8]
        != spec_topic_suffix(ShadowTopicKind::UpdateDelta)[8]);
    assert(spec_topic_suffix(ShadowTopicKind::GetRejected)[8]
        != spec_topic_suffix(ShadowTopicKind::UpdateDelta)[8]);
    assert(spec_topic_suffix(ShadowTopicKind::Update)[8]
        != spec_topic_suffix(ShadowTopicKind::Delete)[8]);
    assert(spec_topic_suffix(ShadowTopicKind::UpdateAccepted)[15]
        != spec_topic_suffix(ShadowTopicKind::UpdateRejected)[15]);
    assert(spec_topic_suffix(ShadowTopicKind::UpdateAccepted)[8]
        != spec_topic_suffix(ShadowTopicKind::DeleteAccepted)[8]);
    assert(spec_topic_suffix(ShadowTopicKind::UpdateAccepted)[8]
        != spec_topic_suffix(ShadowTopicKind::DeleteRejected)[8]);
    assert(spec_topic_suffix(ShadowTopicKind::UpdateRejected)[8]
        != spec_topic_suffix(ShadowTopicKind::DeleteAccepted)[8]);
    assert(spec_topic_suffix(ShadowTopicKind::UpdateRejected)[8]
        != spec_topic_suffix(ShadowTopicKind::DeleteRejected)[8]);
    assert(spec_topic_suffix(ShadowTopicKind::DeleteAccepted)[15]
        != spec_topic_suffix(ShadowTopicKind::DeleteRejected)[15]);
    match k {
        ShadowTopicKind::Get => assert(kind_of_suffix(spec_topic_suffix(k)) == Some(k)),
        ShadowTopicKind::GetAccepted => assert(kind_of_suffix(spec_topic_suffix(k)) == Some(k)),
        ShadowTopicKind::GetRejected => assert(kind_of_suffix(spec_topic_suffix(k)) == Some(k)),
        ShadowTopicKind::Update => assert(kind_of_suffix(spec_topic_suffix(k)) == Some(k)),
        ShadowTopicKind::UpdateAccepted => assert(kind_of_suffix(spec_topic_suffix(k)) == Some(k)),
        ShadowTopicKind::UpdateRejected => assert(kind_of_suffix(spec_topic_suffix(k)) == Some(k)),
        ShadowTopicKind::UpdateDelta => assert(kind_of_suffix(spec_topic_suffix(k)) == Some(k)),
        ShadowTopicKind::UpdateDocuments => assert(kind_of_suffix(spec_topic_suffix(k))
            == Some(k)),
        ShadowTopicKind::Delete => assert(kind_of_suffix(spec_topic_suffix(k)) == Some(k)),
        ShadowTopicKind::DeleteAccepted => assert(kind_of_suffix(spec_topic_suffix(k)) == Some(k)),
        ShadowTopicKind::DeleteRejected => assert(kind_of_suffix(spec_topic_suffix(k)) == Some(k)),
    }
}

proof fn lemma_topic_suffixes_distinct(k1: ShadowTopicKind, k2: ShadowTopicKind)
    requires
        k1 != k2,
    ensures
        spec_topic_suffix(k1) != spec_topic_suffix(k2),
{
    lemma_kind_of_suffix(k1);
    lemma_kind_of_suffix(k2);
}

/// The topic table has eleven distinct rows: for one thing name, two
/// different rows never derive the same topic string.
pub proof fn lemma_shadow_topics_distinct(
    thing_name: Seq<char>,
    k1: ShadowTopicKind,
    k2: ShadowTopicKind,
)
    requires
        k1 != k2,
    ensures
        spec_shadow_topic(thing_name, k1) != spec_shadow_topic(thing_name, k2),
{
    lemma_topic_suffixes_distinct(k1, k2);
    let t1 = spec_shadow_topic(thing_name, k1);
    let t2 = spec_shadow_topic(thing_name, k2);
    let s1 = spec_topic_suffix(k1);
    let s2 = spec_topic_suffix(k2);
    let head = spec_topic_prefix().len() + thing_name.len();
    if t1 == t2 {
        assert(t1.len() == head + s1.len());
        assert(t2.len() == head + s2.len());
        assert(s1.len() == s2.len());
        assert(s1 =~= s2) by {
            assert forall|i: int| 0 <= i < s1.len() implies s1[i] == s2[i] by {
                assert(t1[head + i] == s1[i]);
                assert(t2[head + i] == s2[i]);
            }
        }
        assert(false);
    }
}

} // verus!
