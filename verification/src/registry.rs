//! The session registry: one broadcast topic per project that has followers.
//!
//! A session lives exactly as long as somebody follows its project. The first
//! follower creates it, the last one to leave removes it. All access goes
//! through `&mut SessionRegistry`, so whoever shares a registry guards it by
//! one lock, and two first followers can never create two topics.

use vstd::prelude::*;
use std::collections::HashMap;
use tokio::sync::broadcast::{Receiver, Sender};
use crate::object_id::ObjectId;
use crate::ws_types::{ProjectContentsResponse, Snapshot};

verus! {

/// Number of snapshots a topic keeps for a slow follower before it drops the
/// oldest.
pub const BROADCAST_CHANNEL_CAPACITY: usize = 64;

/// The publishing side of a `tokio` broadcast channel.
#[verifier::external_type_specification]
#[verifier::external_body]
#[verifier::reject_recursive_types(T)]
pub struct ExSender<T>(Sender<T>);

/// The receiving side of a `tokio` broadcast channel.
#[verifier::external_type_specification]
#[verifier::external_body]
#[verifier::reject_recursive_types(T)]
pub struct ExReceiver<T>(Receiver<T>);

/// What a live session is: how many follow the project, and what the
/// registry has published on its topic since the session began, oldest
/// first.
pub ghost struct SessionView {
    pub subscribers: nat,
    pub published: Seq<Snapshot>,
}

/// The sessions after one more follower joins the project filed under `key`.
/// A first follower starts a session whose topic has carried nothing.
pub open spec fn joined(sessions: Map<u128, SessionView>, key: u128) -> Map<u128, SessionView> {
    if sessions.contains_key(key) {
        sessions.insert(
            key,
            SessionView {
                subscribers: sessions[key].subscribers + 1,
                published: sessions[key].published,
            },
        )
    } else {
        sessions.insert(key, SessionView { subscribers: 1, published: Seq::empty() })
    }
}

/// The sessions after one follower leaves the project filed under `key`: the
/// last one to leave takes the session with it.
pub open spec fn released(sessions: Map<u128, SessionView>, key: u128) -> Map<u128, SessionView> {
    if !sessions.contains_key(key) {
        sessions
    } else if sessions[key].subscribers <= 1 {
        sessions.remove(key)
    } else {
        sessions.insert(
            key,
            SessionView {
                subscribers: (sessions[key].subscribers - 1) as nat,
                published: sessions[key].published,
            },
        )
    }
}

/// The sessions after `contents` is published for the project filed under
/// `key`: its topic carries one snapshot more, every other topic what it
/// carried before. Without a session there is no topic to publish on.
pub open spec fn posted(sessions: Map<u128, SessionView>, key: u128, contents: Snapshot) -> Map<
    u128,
    SessionView,
> {
    if sessions.contains_key(key) {
        sessions.insert(
            key,
            SessionView {
                subscribers: sessions[key].subscribers,
                published: sessions[key].published.push(contents),
            },
        )
    } else {
        sessions
    }
}

/// True when every session has a follower, and no more followers than the
/// machine can count.
pub open spec fn all_followed(sessions: Map<u128, SessionView>) -> bool {
    forall|key: u128| #[trigger]
        sessions.contains_key(key) ==> 1 <= sessions[key].subscribers <= usize::MAX
}

/// The sessions after `n` followers have joined the project filed under
/// `key`, one after the other.
pub open spec fn joined_times(sessions: Map<u128, SessionView>, key: u128, n: nat) -> Map<
    u128,
    SessionView,
>
    decreases n,
{
    if n == 0 {
        sessions
    } else {
        joined(joined_times(sessions, key, (n - 1) as nat), key)
    }
}

/// However many followers ask for a project that has no session yet, one
/// session is created for it and all of them are counted in it; no other
/// session is touched.
pub proof fn lemma_one_topic_per_project(sessions: Map<u128, SessionView>, key: u128, n: nat)
    requires
        !sessions.contains_key(key),
        n >= 1,
    ensures
        joined_times(sessions, key, n) == sessions.insert(
            key,
            SessionView { subscribers: n, published: Seq::empty() },
        ),
        joined_times(sessions, key, n).dom() == sessions.dom().insert(key),
        sessions.dom().finite() ==> joined_times(sessions, key, n).dom().len()
            == sessions.dom().len() + 1,
    decreases n,
{
    let first = SessionView { subscribers: 1, published: Seq::empty() };
    if n == 1 {
        assert(joined_times(sessions, key, 0) == sessions);
        assert(joined_times(sessions, key, 1) == joined(sessions, key));
    } else {
        lemma_one_topic_per_project(sessions, key, (n - 1) as nat);
        let before = joined_times(sessions, key, (n - 1) as nat);
        assert(before.contains_key(key));
        assert(joined(before, key) =~= sessions.insert(
            key,
            SessionView { subscribers: n, published: Seq::empty() },
        ));
    }
    assert(joined_times(sessions, key, n).dom() =~= sessions.dom().insert(key));
}

/// When the last follower of a project leaves, no session is left for the
/// project; while others remain, the session stays and counts one fewer.
/// No other session is touched either way.
pub proof fn lemma_last_release_removes(sessions: Map<u128, SessionView>, key: u128)
    requires
        sessions.contains_key(key),
    ensures
        sessions[key].subscribers <= 1 ==> !released(sessions, key).contains_key(key),
        sessions[key].subscribers > 1 ==> released(sessions, key).contains_key(key) && released(
            sessions,
            key,
        )[key].subscribers == sessions[key].subscribers - 1,
        forall|other: u128|
            other != key ==> (#[trigger] released(sessions, key).contains_key(other)
                <==> sessions.contains_key(other)),
        forall|other: u128|
            other != key && sessions.contains_key(other) ==> #[trigger] released(
                sessions,
                key,
            )[other] == sessions[other],
{
}

/// A follower who joins and leaves again leaves the sessions as they were.
pub proof fn lemma_release_undoes_join(sessions: Map<u128, SessionView>, key: u128)
    requires
        all_followed(sessions),
    ensures
        released(joined(sessions, key), key) == sessions,
{
    assert(released(joined(sessions, key), key) =~= sessions);
}

/// Joining and leaving keep every session followed.
pub proof fn lemma_steps_keep_sessions_followed(sessions: Map<u128, SessionView>, key: u128, contents: Snapshot)
    requires
        all_followed(sessions),
    ensures
        all_followed(released(sessions, key)),
        all_followed(posted(sessions, key, contents)),
        !(sessions.contains_key(key) && sessions[key].subscribers >= usize::MAX) ==> all_followed(
            joined(sessions, key),
        ),
{
}

/// One live session: the topic of a project, the number of its followers,
/// and the record of what was published on it.
struct Session {
    topic: Sender<ProjectContentsResponse>,
    subscribers: usize,
    published: Ghost<Seq<Snapshot>>,
}

/// The live sessions, by the key of their project.
pub struct SessionRegistry {
    sessions: HashMap<u128, Session>,
}

impl View for SessionRegistry {
    type V = Map<u128, SessionView>;

    closed spec fn view(&self) -> Map<u128, SessionView> {
        Map::new(
            |key: u128| self.sessions@.contains_key(key),
            |key: u128|
                SessionView {
                    subscribers: self.sessions@[key].subscribers as nat,
                    published: self.sessions@[key].published@,
                },
        )
    }
}

impl SessionRegistry {
    /// Every session has a follower.
    pub closed spec fn wf(&self) -> bool {
        forall|key: u128| #[trigger]
            self.sessions@.contains_key(key) ==> self.sessions@[key].subscribers >= 1
    }

    /// A session exists only while it has a follower, and its count fits the
    /// machine.
    pub proof fn lemma_sessions_followed(&self)
        requires
            self.wf(),
        ensures
            all_followed(self@),
    {
    }

    /// A registry without sessions.
    pub fn new() -> (registry: SessionRegistry)
        ensures
            registry.wf(),
            registry@ == Map::<u128, SessionView>::empty(),
    {
        let registry = SessionRegistry { sessions: HashMap::new() };
        assert(registry@ =~= Map::<u128, SessionView>::empty());
        registry
    }

    /// Number of live sessions.
    pub fn len(&self) -> (n: usize)
        ensures
            n == self@.dom().len(),
            self@.dom().finite(),
    {
        broadcast use vstd::std_specs::hash::group_hash_axioms;

        assert(self@.dom() =~= self.sessions@.dom());
        self.sessions.len()
    }

    /// Number of followers of the project `project_id`; zero where it has no
    /// session.
    pub fn subscriber_count(&self, project_id: ObjectId) -> (n: usize)
        ensures
            self@.contains_key(project_id.spec_key()) ==> n == self@[project_id.spec_key()].subscribers,
            !self@.contains_key(project_id.spec_key()) ==> n == 0,
    {
        broadcast use vstd::std_specs::hash::group_hash_axioms;

        let key = project_id.key();
        match self.sessions.get(&key) {
            Some(session) => session.subscribers,
            None => 0,
        }
    }

    /// True when the project `project_id` has a session.
    pub fn contains(&self, project_id: ObjectId) -> (found: bool)
        ensures
            found == self@.contains_key(project_id.spec_key()),
    {
        broadcast use vstd::std_specs::hash::group_hash_axioms;

        let key = project_id.key();
        self.sessions.contains_key(&key)
    }

    /// Registers one more follower of the project `project_id` and hands out
    /// its topic. The first follower creates the session, with a fresh topic
    /// on which nothing has been published; every later one finds it.
    ///
    /// Returns `None`, and changes nothing, only where the session already
    /// counts as many followers as the machine can count.
    pub fn get_or_create(&mut self, project_id: ObjectId) -> (topic: Option<
        Sender<ProjectContentsResponse>,
    >)
        requires
            old(self).wf(),
        ensures
            final(self).wf(),
            topic is None <==> old(self)@.contains_key(project_id.spec_key()) && old(
                self,
            )@[project_id.spec_key()].subscribers == usize::MAX,
            topic is Some ==> final(self)@ == joined(old(self)@, project_id.spec_key()),
            topic is None ==> final(self)@ == old(self)@,
    {
        broadcast use vstd::std_specs::hash::group_hash_axioms;

        let key = project_id.key();
        match self.sessions.remove(&key) {
            Some(session) => {
                if session.subscribers == usize::MAX {
                    self.sessions.insert(key, session);
                    assert(self.sessions@ =~= old(self).sessions@);
                    None
                } else {
                    let topic = topic_clone(&session.topic);
                    let Session { topic: kept, subscribers, published } = session;
                    self.sessions.insert(
                        key,
                        Session { topic: kept, subscribers: subscribers + 1, published },
                    );
                    assert(self@ =~= joined(old(self)@, key));
                    Some(topic)
                }
            },
            None => {
                let topic = new_topic(BROADCAST_CHANNEL_CAPACITY);
                let kept = topic_clone(&topic);
                self.sessions.insert(
                    key,
                    Session { topic: kept, subscribers: 1, published: Ghost(Seq::empty()) },
                );
                assert(self@ =~= joined(old(self)@, key));
                Some(topic)
            },
        }
    }

    /// Takes one follower off the project `project_id`. When the last one
    /// leaves, the session and its topic go with it. A project without a
    /// session is left as it is.
    pub fn release(&mut self, project_id: ObjectId)
        requires
            old(self).wf(),
        ensures
            final(self).wf(),
            final(self)@ == released(old(self)@, project_id.spec_key()),
    {
        broadcast use vstd::std_specs::hash::group_hash_axioms;

        let key = project_id.key();
        match self.sessions.remove(&key) {
            Some(session) => {
                if session.subscribers > 1 {
                    let Session { topic, subscribers, published } = session;
                    self.sessions.insert(
                        key,
                        Session { topic, subscribers: subscribers - 1, published },
                    );
                }
                assert(self@ =~= released(old(self)@, key));
            },
            None => {
                assert(self.sessions@ =~= old(self).sessions@);
                assert(self@ =~= released(old(self)@, key));
            },
        }
    }

    /// Publishes `contents` on the topic of the project `project_id`: the
    /// snapshot is offered to every follower the topic has at this moment.
    /// Returns how many that were, or `None` where nothing was delivered:
    /// the project has no session, or its topic no receiver.
    pub fn publish(&mut self, project_id: ObjectId, contents: ProjectContentsResponse) -> (delivered:
        Option<usize>)
        requires
            old(self).wf(),
        ensures
            final(self).wf(),
            final(self)@ == posted(old(self)@, project_id.spec_key(), contents@),
            !old(self)@.contains_key(project_id.spec_key()) ==> delivered is None,
            delivered matches Some(n) ==> n >= 1,
    {
        broadcast use vstd::std_specs::hash::group_hash_axioms;

        let key = project_id.key();
        match self.sessions.remove(&key) {
            Some(session) => {
                let ghost snapshot = contents@;
                let delivered = topic_send(&session.topic, contents);
                let Session { topic, subscribers, published } = session;
                self.sessions.insert(
                    key,
                    Session { topic, subscribers, published: Ghost(published@.push(snapshot)) },
                );
                assert(self@ =~= posted(old(self)@, key, snapshot));
                delivered
            },
            None => {
                assert(self.sessions@ =~= old(self).sessions@);
                assert(self@ =~= old(self)@);
                None
            },
        }
    }
}

/// `tokio::sync::broadcast::channel`, of which the first receiver is let go
/// at once.
///
/// Trusted: the call returns for every capacity from one to half the
/// largest `usize`. Nothing is claimed of the channel.
#[verifier::external_body]
fn new_topic(capacity: usize) -> (topic: Sender<ProjectContentsResponse>)
    requires
        0 < capacity <= usize::MAX / 2,
{
    let (topic, _) = tokio::sync::broadcast::channel(capacity);
    topic
}

/// `Clone::clone` of `tokio::sync::broadcast::Sender`: one more handle on the
/// same channel. Nothing is claimed of it.
#[verifier::external_body]
fn topic_clone(topic: &Sender<ProjectContentsResponse>) -> (handle: Sender<ProjectContentsResponse>) {
    topic.clone()
}

/// `tokio::sync::broadcast::Sender::send`.
///
/// Trusted: a successful send reports the number of receivers the channel
/// had, which is at least one; with no receiver the send fails and the value
/// is dropped.
#[verifier::external_body]
fn topic_send(topic: &Sender<ProjectContentsResponse>, contents: ProjectContentsResponse) -> (delivered:
    Option<usize>)
    ensures
        delivered matches Some(n) ==> n >= 1,
{
    match topic.send(contents) {
        Ok(receivers) => Some(receivers),
        Err(_) => None,
    }
}

/// What one look at a receiver found.
pub enum Polled {
    /// The oldest snapshot not yet taken.
    Payload(ProjectContentsResponse),
    /// Nothing has been published since the last look.
    Empty,
    /// The receiver fell behind and this many snapshots were dropped unseen;
    /// the next look finds the oldest that is left.
    Lagged(u64),
    /// Every handle on the topic is gone; nothing will come any more.
    Closed,
}

/// `tokio::sync::broadcast::Sender::subscribe`: a receiver for what is sent
/// from now on.
///
/// The call gives up only at a quarter of the largest `usize` in live
/// receivers, more than a machine can hold. Nothing is claimed of the
/// receiver.
#[verifier::external_body]
pub(crate) fn topic_subscribe(topic: &Sender<ProjectContentsResponse>) -> (receiver: Receiver<
    ProjectContentsResponse,
>) {
    topic.subscribe()
}

/// `tokio::sync::broadcast::Receiver::try_recv`, which never waits. Nothing
/// is claimed of what it finds.
#[verifier::external_body]
pub(crate) fn receiver_try_recv(receiver: &mut Receiver<ProjectContentsResponse>) -> (found: Polled) {
    match receiver.try_recv() {
        Ok(contents) => Polled::Payload(contents),
        Err(tokio::sync::broadcast::error::TryRecvError::Empty) => Polled::Empty,
        Err(tokio::sync::broadcast::error::TryRecvError::Lagged(skipped)) => Polled::Lagged(skipped),
        Err(tokio::sync::broadcast::error::TryRecvError::Closed) => Polled::Closed,
    }
}

} // verus!
