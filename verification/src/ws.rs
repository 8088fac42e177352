//! The connection handler: what one socket does with each thing that
//! happens to it.
//!
//! A connection is `Connected` until it follows a project, `Subscribed`
//! while it does, and `Closed` for good once its socket is gone. It works
//! through one client message at a time. Whatever has to be asked outside
//! (whether the user is a member, what the project holds, whether an edit
//! was saved) is handed to the caller as an `Action`; the caller brings the
//! answer back and the connection takes the next step. No step is taken
//! without the answer it waits for, so an edit is never saved before the
//! user's membership is confirmed, and never published before it is saved.

use vstd::prelude::*;
use tokio::sync::broadcast::Receiver;
use crate::object_id::{be_value, ObjectId};
use crate::registry::{
    all_followed,
    joined,
    posted,
    receiver_try_recv,
    released,
    topic_subscribe,
    Polled,
    SessionRegistry,
    SessionView,
};
use crate::ws_types::{
    decode_frame,
    json_text_members,
    parse_client_message,
    request_of,
    ClientMessage,
    ProjectContentsResponse,
    Request,
    Snapshot,
};

verus! {

/// Why a message went no further. The connection stays open and takes the
/// next message.
#[derive(Debug, Clone, Copy, PartialEq, Eq, Structural)]
pub enum Dropped {
    /// The frame spelled no message.
    MalformedMessage,
    /// An edit arrived while the connection followed no project.
    NotSubscribed,
    /// The user is not a member of the project, or membership could not be
    /// established.
    AuthorizationDenied,
    /// The project could not be read.
    ProjectNotFound,
    /// The edit could not be saved.
    PersistenceFailure,
    /// The session counts as many followers as the machine can count.
    SessionFull,
    /// What arrived is not what the connection was waiting for.
    Unexpected,
}

/// Where a connection stands.
pub ghost enum Phase {
    Connected,
    Subscribed(Seq<u8>),
    Closed,
}

/// What a connection waits for.
pub ghost enum Waiting {
    /// The next client frame.
    Frame,
    /// Whether the user may follow the project.
    OpenMembership(Seq<u8>),
    /// Whether the user may still edit the project.
    EditMembership(Seq<u8>, Snapshot),
    /// The stored content of the project.
    ProjectRead(Seq<u8>),
    /// Whether the edit was saved.
    ProjectWritten(Seq<u8>, Snapshot),
}

/// What a connection is.
pub ghost struct ConnectionView {
    pub user_id: Seq<u8>,
    pub phase: Phase,
    pub waiting: Waiting,
}

/// What a step asks of the caller, or reports to it.
pub ghost enum Step {
    CheckMembership { user_id: Seq<u8>, project_id: Seq<u8> },
    ReadProject { project_id: Seq<u8> },
    WriteProject { project_id: Seq<u8>, contents: Snapshot },
    Subscribed { project_id: Seq<u8> },
    Published { project_id: Seq<u8> },
    Dropped(Dropped),
}

/// What a step asks of the caller, or reports to it.
#[derive(Debug)]
pub enum Action {
    /// Ask the store whether the user is a member of the project, and bring
    /// the answer to `check_project_permissions`.
    CheckMembership { user_id: ObjectId, project_id: ObjectId },
    /// Read the project from the store, and bring it to `open_project`.
    ReadProject { project_id: ObjectId },
    /// Save the content to the store, and bring the outcome to
    /// `edit_project`.
    WriteProject { project_id: ObjectId, contents: ProjectContentsResponse },
    /// The connection now follows the project, and the stored content went
    /// out to the `delivered` followers of its topic.
    Subscribed { project_id: ObjectId, delivered: Option<usize> },
    /// The saved edit went out to the `delivered` followers of the topic.
    Published { project_id: ObjectId, delivered: Option<usize> },
    /// The message was dropped.
    Dropped(Dropped),
}

impl View for Action {
    type V = Step;

    open spec fn view(&self) -> Step {
        match self {
            Action::CheckMembership { user_id, project_id } => Step::CheckMembership {
                user_id: user_id@,
                project_id: project_id@,
            },
            Action::ReadProject { project_id } => Step::ReadProject { project_id: project_id@ },
            Action::WriteProject { project_id, contents } => Step::WriteProject {
                project_id: project_id@,
                contents: contents@,
            },
            Action::Subscribed { project_id, delivered } => Step::Subscribed {
                project_id: project_id@,
            },
            Action::Published { project_id, delivered } => Step::Published {
                project_id: project_id@,
            },
            Action::Dropped(reason) => Step::Dropped(*reason),
        }
    }
}

/// The key under which the registry files the project `id`.
pub open spec fn key_of(id: Seq<u8>) -> u128 {
    be_value(id) as u128
}

/// The step a connection takes on a client message.
///
/// A closed connection, and one that still waits for an answer, takes no
/// message. A request to follow a project, and an edit of the project
/// followed, first ask whether the user is a member. An edit with no project
/// followed is dropped.
pub open spec fn on_message(c: ConnectionView, message: Option<Request>) -> (ConnectionView, Step) {
    if c.phase is Closed || !(c.waiting is Frame) {
        (c, Step::Dropped(Dropped::Unexpected))
    } else {
        match message {
            None => (c, Step::Dropped(Dropped::MalformedMessage)),
            Some(Request::OpenProject { project_id }) => (
                ConnectionView { waiting: Waiting::OpenMembership(project_id), ..c },
                Step::CheckMembership { user_id: c.user_id, project_id },
            ),
            Some(Request::EditProject { contents }) => match c.phase {
                Phase::Subscribed(project_id) => (
                    ConnectionView { waiting: Waiting::EditMembership(project_id, contents), ..c },
                    Step::CheckMembership { user_id: c.user_id, project_id },
                ),
                _ => (c, Step::Dropped(Dropped::NotSubscribed)),
            },
        }
    }
}

/// The step a connection takes on the answer of the membership check.
/// `member` is `Some(true)` only where the store confirmed the membership;
/// a failed lookup counts as a refusal.
pub open spec fn on_membership(c: ConnectionView, member: Option<bool>) -> (ConnectionView, Step) {
    if c.phase is Closed {
        (c, Step::Dropped(Dropped::Unexpected))
    } else {
        match c.waiting {
            Waiting::OpenMembership(project_id) => if member == Some(true) {
                (
                    ConnectionView { waiting: Waiting::ProjectRead(project_id), ..c },
                    Step::ReadProject { project_id },
                )
            } else {
                (ConnectionView { waiting: Waiting::Frame, ..c }, Step::Dropped(Dropped::AuthorizationDenied))
            },
            Waiting::EditMembership(project_id, contents) => if member == Some(true) {
                (
                    ConnectionView { waiting: Waiting::ProjectWritten(project_id, contents), ..c },
                    Step::WriteProject { project_id, contents },
                )
            } else {
                (ConnectionView { waiting: Waiting::Frame, ..c }, Step::Dropped(Dropped::AuthorizationDenied))
            },
            _ => (c, Step::Dropped(Dropped::Unexpected)),
        }
    }
}

/// The sessions once the connection has given up the project it follows, if
/// it follows one.
pub open spec fn left(c: ConnectionView, sessions: Map<u128, SessionView>) -> Map<u128, SessionView> {
    match c.phase {
        Phase::Subscribed(project_id) => released(sessions, key_of(project_id)),
        _ => sessions,
    }
}

/// The step a connection takes when the stored content of the project it
/// asked to follow arrives; `stored` is `None` where the project could not
/// be read.
///
/// The connection gives up the project it followed, joins the session of
/// the new one, and the stored content is published there, so that the
/// newcomer and those already following see the same snapshot.
pub open spec fn on_project_read(
    c: ConnectionView,
    sessions: Map<u128, SessionView>,
    stored: Option<Snapshot>,
) -> (ConnectionView, Map<u128, SessionView>, Step) {
    if c.phase is Closed {
        (c, sessions, Step::Dropped(Dropped::Unexpected))
    } else {
        match c.waiting {
            Waiting::ProjectRead(project_id) => {
                let idle = ConnectionView { waiting: Waiting::Frame, ..c };
                let key = key_of(project_id);
                let base = left(c, sessions);
                match stored {
                    None => (idle, sessions, Step::Dropped(Dropped::ProjectNotFound)),
                    Some(contents) => if base.contains_key(key) && base[key].subscribers
                        >= usize::MAX {
                        (idle, sessions, Step::Dropped(Dropped::SessionFull))
                    } else {
                        (
                            ConnectionView { phase: Phase::Subscribed(project_id), ..idle },
                            posted(joined(base, key), key, contents),
                            Step::Subscribed { project_id },
                        )
                    },
                }
            },
            _ => (c, sessions, Step::Dropped(Dropped::Unexpected)),
        }
    }
}

/// The step a connection takes when the outcome of saving an edit arrives.
/// Only a saved edit is published, and only on the topic of the project
/// that the edit was made in.
pub open spec fn on_project_written(
    c: ConnectionView,
    sessions: Map<u128, SessionView>,
    saved: bool,
) -> (ConnectionView, Map<u128, SessionView>, Step) {
    if c.phase is Closed {
        (c, sessions, Step::Dropped(Dropped::Unexpected))
    } else {
        match c.waiting {
            Waiting::ProjectWritten(project_id, contents) => {
                let idle = ConnectionView { waiting: Waiting::Frame, ..c };
                if saved {
                    (
                        idle,
                        posted(sessions, key_of(project_id), contents),
                        Step::Published { project_id },
                    )
                } else {
                    (idle, sessions, Step::Dropped(Dropped::PersistenceFailure))
                }
            },
            _ => (c, sessions, Step::Dropped(Dropped::Unexpected)),
        }
    }
}

/// The connection and the sessions once the socket is gone.
pub open spec fn on_close(c: ConnectionView, sessions: Map<u128, SessionView>) -> (
    ConnectionView,
    Map<u128, SessionView>,
) {
    (ConnectionView { phase: Phase::Closed, waiting: Waiting::Frame, ..c }, left(c, sessions))
}

/// The snapshot that stored content holds, if any was found.
pub open spec fn snapshot_of(stored: Option<ProjectContentsResponse>) -> Option<Snapshot> {
    match stored {
        Some(contents) => Some(contents@),
        None => None,
    }
}

/// The answer a connection waits for, with what it will do once it has it.
enum Pending {
    OpenMembership(ObjectId),
    EditMembership(ObjectId, ProjectContentsResponse),
    ProjectRead(ObjectId),
    ProjectWritten(ObjectId, ProjectContentsResponse),
}

/// The receiving end of the topic a connection follows.
struct Subscription {
    project_id: ObjectId,
    receiver: Receiver<ProjectContentsResponse>,
}

/// One socket's standing with the broker: who is on it, which project it
/// follows, and what it waits for.
pub struct Connection {
    user_id: ObjectId,
    subscription: Option<Subscription>,
    pending: Option<Pending>,
    closed: bool,
}

impl View for Connection {
    type V = ConnectionView;

    closed spec fn view(&self) -> ConnectionView {
        ConnectionView {
            user_id: self.user_id@,
            phase: if self.closed {
                Phase::Closed
            } else {
                match self.subscription {
                    Some(subscription) => Phase::Subscribed(subscription.project_id@),
                    None => Phase::Connected,
                }
            },
            waiting: match self.pending {
                None => Waiting::Frame,
                Some(Pending::OpenMembership(project_id)) => Waiting::OpenMembership(project_id@),
                Some(Pending::EditMembership(project_id, contents)) => Waiting::EditMembership(
                    project_id@,
                    contents@,
                ),
                Some(Pending::ProjectRead(project_id)) => Waiting::ProjectRead(project_id@),
                Some(Pending::ProjectWritten(project_id, contents)) => Waiting::ProjectWritten(
                    project_id@,
                    contents@,
                ),
            },
        }
    }
}

impl Connection {
    /// The connection of the user `user_id`, fresh from the upgrade: it
    /// follows no project and waits for its first frame.
    pub fn new(user_id: ObjectId) -> (connection: Connection)
        ensures
            connection@ == (ConnectionView {
                user_id: user_id@,
                phase: Phase::Connected,
                waiting: Waiting::Frame,
            }),
    {
        Connection { user_id, subscription: None, pending: None, closed: false }
    }

    /// The user on this connection.
    pub fn user_id(&self) -> (user_id: ObjectId)
        ensures
            user_id@ == self@.user_id,
    {
        self.user_id
    }

    /// The project this connection follows, if it follows one.
    pub fn project_id(&self) -> (project_id: Option<ObjectId>)
        ensures
            match project_id {
                Some(project_id) => self@.phase == Phase::Subscribed(project_id@),
                None => !(self@.phase is Subscribed),
            },
    {
        if self.closed {
            None
        } else {
            match &self.subscription {
                Some(subscription) => Some(subscription.project_id),
                None => None,
            }
        }
    }

    /// True once the connection is closed.
    pub fn is_closed(&self) -> (closed: bool)
        ensures
            closed == (self@.phase is Closed),
    {
        self.closed
    }

    /// Takes a client message, or what a frame held in place of one.
    pub fn receive_message(&mut self, message: Option<ClientMessage>) -> (action: Action)
        ensures
            (final(self)@, action@) == on_message(old(self)@, request_of(message)),
    {
        if self.closed || self.pending.is_some() {
            return Action::Dropped(Dropped::Unexpected);
        }
        match message {
            None => Action::Dropped(Dropped::MalformedMessage),
            Some(ClientMessage::OpenProject { project_id }) => {
                self.pending = Some(Pending::OpenMembership(project_id));
                Action::CheckMembership { user_id: self.user_id, project_id }
            },
            Some(ClientMessage::EditProject { tier_container_html, image_carousel_html }) => {
                let followed = match &self.subscription {
                    Some(subscription) => Some(subscription.project_id),
                    None => None,
                };
                match followed {
                    Some(project_id) => {
                        let contents = ProjectContentsResponse {
                            tier_container_html,
                            image_carousel_html,
                        };
                        self.pending = Some(Pending::EditMembership(project_id, contents));
                        Action::CheckMembership { user_id: self.user_id, project_id }
                    },
                    None => Action::Dropped(Dropped::NotSubscribed),
                }
            },
        }
    }

    /// Takes a text frame from the socket: reads the message it spells and
    /// takes that.
    pub fn receive(&mut self, text: &str) -> (action: Action)
        ensures
            (final(self)@, action@) == on_message(
                old(self)@,
                decode_frame(json_text_members(text@)),
            ),
    {
        let message = parse_client_message(text);
        self.receive_message(message)
    }

    /// Takes the answer of the membership check. Anything but a confirmed
    /// membership is a refusal: the message is dropped and nothing is read
    /// or written for it.
    pub fn check_project_permissions(&mut self, member: Option<bool>) -> (action: Action)
        ensures
            (final(self)@, action@) == on_membership(old(self)@, member),
    {
        if self.closed {
            return Action::Dropped(Dropped::Unexpected);
        }
        let granted = match member {
            Some(member) => member,
            None => false,
        };
        match self.pending.take() {
            Some(Pending::OpenMembership(project_id)) => {
                if granted {
                    self.pending = Some(Pending::ProjectRead(project_id));
                    Action::ReadProject { project_id }
                } else {
                    Action::Dropped(Dropped::AuthorizationDenied)
                }
            },
            Some(Pending::EditMembership(project_id, contents)) => {
                if granted {
                    let copy = contents.clone();
                    self.pending = Some(Pending::ProjectWritten(project_id, contents));
                    Action::WriteProject { project_id, contents: copy }
                } else {
                    Action::Dropped(Dropped::AuthorizationDenied)
                }
            },
            other => {
                self.pending = other;
                Action::Dropped(Dropped::Unexpected)
            },
        }
    }

    /// Takes the stored content of the project the connection asked to
    /// follow, or the news that it could not be read.
    ///
    /// With the content in hand the connection gives up the project it
    /// followed, joins the session of the new one (the first follower
    /// creates it) and the content is published on its topic.
    pub fn open_project(
        &mut self,
        registry: &mut SessionRegistry,
        stored: Option<ProjectContentsResponse>,
    ) -> (action: Action)
        requires
            old(registry).wf(),
        ensures
            final(registry).wf(),
            (final(self)@, final(registry)@, action@) == on_project_read(
                old(self)@,
                old(registry)@,
                snapshot_of(stored),
            ),
    {
        if self.closed {
            return Action::Dropped(Dropped::Unexpected);
        }
        let project_id = match self.pending.take() {
            Some(Pending::ProjectRead(project_id)) => project_id,
            other => {
                self.pending = other;
                return Action::Dropped(Dropped::Unexpected);
            },
        };
        let contents = match stored {
            Some(contents) => contents,
            None => {
                return Action::Dropped(Dropped::ProjectNotFound);
            },
        };
        let followed = match &self.subscription {
            Some(subscription) => Some(subscription.project_id),
            None => None,
        };
        let same = match followed {
            Some(followed) => followed.same(&project_id),
            None => false,
        };
        proof {
            registry.lemma_sessions_followed();
            if let Some(followed) = followed {
                if followed.spec_key() == project_id.spec_key() {
                    followed.lemma_key_injective(project_id);
                }
            }
        }
        if !same && registry.subscriber_count(project_id) == usize::MAX {
            return Action::Dropped(Dropped::SessionFull);
        }
        match followed {
            Some(followed) => {
                registry.release(followed);
            },
            None => {},
        }
        assert(registry@ == left(old(self)@, old(registry)@));
        match registry.get_or_create(project_id) {
            Some(topic) => {
                let receiver = topic_subscribe(&topic);
                self.subscription = Some(Subscription { project_id, receiver });
                let delivered = registry.publish(project_id, contents);
                Action::Subscribed { project_id, delivered }
            },
            None => {
                assert(false);
                Action::Dropped(Dropped::SessionFull)
            },
        }
    }

    /// Takes the outcome of saving an edit. A saved edit is published on the
    /// topic of the project it was made in; one that could not be saved is
    /// dropped, and nobody sees it.
    pub fn edit_project(&mut self, registry: &mut SessionRegistry, saved: bool) -> (action: Action)
        requires
            old(registry).wf(),
        ensures
            final(registry).wf(),
            (final(self)@, final(registry)@, action@) == on_project_written(
                old(self)@,
                old(registry)@,
                saved,
            ),
    {
        if self.closed {
            return Action::Dropped(Dropped::Unexpected);
        }
        match self.pending.take() {
            Some(Pending::ProjectWritten(project_id, contents)) => {
                if saved {
                    let delivered = registry.publish(project_id, contents);
                    Action::Published { project_id, delivered }
                } else {
                    Action::Dropped(Dropped::PersistenceFailure)
                }
            },
            other => {
                self.pending = other;
                Action::Dropped(Dropped::Unexpected)
            },
        }
    }

    /// Ends the connection: the socket closed or failed. The connection
    /// gives up the project it follows, if any, and takes no further step.
    pub fn close(&mut self, registry: &mut SessionRegistry)
        requires
            old(registry).wf(),
        ensures
            final(registry).wf(),
            (final(self)@, final(registry)@) == on_close(old(self)@, old(registry)@),
    {
        if !self.closed {
            match self.subscription.take() {
                Some(subscription) => {
                    registry.release(subscription.project_id);
                },
                None => {},
            }
        }
        self.subscription = None;
        self.pending = None;
        self.closed = true;
    }

    /// Looks for the next snapshot on the topic the connection follows,
    /// without waiting. A connection that follows no project has nothing to
    /// look at.
    pub fn next_payload(&mut self) -> (delivery: Delivery)
        ensures
            final(self)@ == old(self)@,
            !(old(self)@.phase is Subscribed) ==> delivery is Detached,
    {
        if self.closed {
            return Delivery::Detached;
        }
        match self.subscription.take() {
            Some(subscription) => {
                let Subscription { project_id, receiver } = subscription;
                let mut receiver = receiver;
                let found = receiver_try_recv(&mut receiver);
                self.subscription = Some(Subscription { project_id, receiver });
                Delivery::relay(found)
            },
            None => Delivery::Detached,
        }
    }
}

/// What the sending side of a connection found on its topic.
#[derive(Debug)]
pub enum Delivery {
    /// A snapshot to relay to the socket.
    Payload(ProjectContentsResponse),
    /// Nothing new.
    Idle,
    /// The connection fell behind and this many snapshots were dropped
    /// unseen; the next look finds the oldest that is left.
    Skipped(u64),
    /// There is no topic to look at.
    Detached,
}

/// What the sending side makes of one look at its receiver: a snapshot is
/// relayed as it is, a lag is reported with its count, an empty topic means
/// waiting, and a topic that is gone means there is nothing to follow.
pub open spec fn relayed(found: Polled) -> Delivery {
    match found {
        Polled::Payload(contents) => Delivery::Payload(contents),
        Polled::Empty => Delivery::Idle,
        Polled::Lagged(skipped) => Delivery::Skipped(skipped),
        Polled::Closed => Delivery::Detached,
    }
}

impl Delivery {
    /// Turns what one look at a receiver found into what the sending side
    /// does with it.
    pub fn relay(found: Polled) -> (delivery: Delivery)
        ensures
            delivery == relayed(found),
    {
        match found {
            Polled::Payload(contents) => Delivery::Payload(contents),
            Polled::Empty => Delivery::Idle,
            Polled::Lagged(skipped) => Delivery::Skipped(skipped),
            Polled::Closed => Delivery::Detached,
        }
    }
}

/// A user whose membership is not confirmed gets nowhere: the request to
/// follow a project is dropped at the membership check, the connection is
/// as it was before the request, and no step in between touches a session
/// or asks for the project's content.
pub proof fn lemma_refused_open_changes_nothing(
    c: ConnectionView,
    project_id: Seq<u8>,
    member: Option<bool>,
)
    requires
        !(c.phase is Closed),
        c.waiting is Frame,
        member != Some(true),
    ensures
        on_message(c, Some(Request::OpenProject { project_id })).1 == (Step::CheckMembership {
            user_id: c.user_id,
            project_id,
        }),
        on_membership(on_message(c, Some(Request::OpenProject { project_id })).0, member) == (
            c,
            Step::Dropped(Dropped::AuthorizationDenied),
        ),
{
}

/// The same holds of an edit: without a confirmed membership nothing is
/// written, and the connection is as it was.
pub proof fn lemma_refused_edit_changes_nothing(
    c: ConnectionView,
    contents: Snapshot,
    member: Option<bool>,
)
    requires
        c.phase is Subscribed,
        c.waiting is Frame,
        member != Some(true),
    ensures
        on_membership(on_message(c, Some(Request::EditProject { contents })).0, member) == (
            c,
            Step::Dropped(Dropped::AuthorizationDenied),
        ),
{
}

/// An accepted edit reaches the topic of the project it was made in, and no
/// other: that topic carries the edit as its newest snapshot, every other
/// session is what it was, and nobody joins or leaves.
pub proof fn lemma_edit_reaches_its_project_only(
    c: ConnectionView,
    sessions: Map<u128, SessionView>,
    contents: Snapshot,
)
    requires
        c.phase is Subscribed,
        c.waiting is Frame,
        sessions.contains_key(key_of(c.phase->Subscribed_0)),
    ensures
        ({
            let key = key_of(c.phase->Subscribed_0);
            let asked = on_message(c, Some(Request::EditProject { contents })).0;
            let granted = on_membership(asked, Some(true));
            let done = on_project_written(granted.0, sessions, true);
            &&& granted.1 == (Step::WriteProject { project_id: c.phase->Subscribed_0, contents })
            &&& done.0 == c
            &&& done.2 == (Step::Published { project_id: c.phase->Subscribed_0 })
            &&& done.1.dom() == sessions.dom()
            &&& done.1[key].published == sessions[key].published.push(contents)
            &&& done.1[key].subscribers == sessions[key].subscribers
            &&& forall|other: u128|
                other != key && sessions.contains_key(other) ==> #[trigger] done.1[other]
                    == sessions[other]
        }),
{
    let key = key_of(c.phase->Subscribed_0);
    let asked = on_message(c, Some(Request::EditProject { contents })).0;
    let granted = on_membership(asked, Some(true));
    let done = on_project_written(granted.0, sessions, true);
    assert(done.1.dom() =~= sessions.dom());
}

/// An edit that could not be saved is not published: every session, and so
/// what every follower has been offered, is what it was, and the connection
/// is as it was before the edit.
pub proof fn lemma_unsaved_edit_is_not_published(
    c: ConnectionView,
    sessions: Map<u128, SessionView>,
    contents: Snapshot,
)
    requires
        c.phase is Subscribed,
        c.waiting is Frame,
    ensures
        ({
            let asked = on_message(c, Some(Request::EditProject { contents })).0;
            let granted = on_membership(asked, Some(true));
            on_project_written(granted.0, sessions, false) == (
                c,
                sessions,
                Step::Dropped(Dropped::PersistenceFailure),
            )
        }),
{
}

/// The connection and the sessions after a request to follow `project_id`
/// has gone through all its steps, the membership confirmed and the project
/// read as `stored`.
pub open spec fn opened(
    c: ConnectionView,
    sessions: Map<u128, SessionView>,
    project_id: Seq<u8>,
    stored: Snapshot,
) -> (ConnectionView, Map<u128, SessionView>, Step) {
    let asked = on_message(c, Some(Request::OpenProject { project_id })).0;
    let granted = on_membership(asked, Some(true)).0;
    on_project_read(granted, sessions, Some(stored))
}

/// Following the same project twice in a row is following it once: after
/// the second request the connection follows the project as after the
/// first, the same sessions exist, and the project's session counts the
/// connection once, not twice.
pub proof fn lemma_reopen_counts_once(
    c: ConnectionView,
    sessions: Map<u128, SessionView>,
    project_id: Seq<u8>,
    first: Snapshot,
    second: Snapshot,
)
    requires
        !(c.phase is Closed),
        c.waiting is Frame,
        all_followed(sessions),
        opened(c, sessions, project_id, first).2 is Subscribed,
    ensures
        ({
            let key = key_of(project_id);
            let once = opened(c, sessions, project_id, first);
            let twice = opened(once.0, once.1, project_id, second);
            &&& once.0.phase == Phase::Subscribed(project_id)
            &&& twice.0 == once.0
            &&& twice.2 == (Step::Subscribed { project_id })
            &&& twice.1.dom() == once.1.dom()
            &&& twice.1[key].subscribers == once.1[key].subscribers
            &&& twice.1[key].published.last() == second
            &&& forall|other: u128|
                other != key && once.1.contains_key(other) ==> #[trigger] twice.1[other]
                    == once.1[other]
        }),
{
    let key = key_of(project_id);
    let once = opened(c, sessions, project_id, first);
    let twice = opened(once.0, once.1, project_id, second);
    assert(all_followed(left(c, sessions)));
    assert(once.1.contains_key(key));
    assert(twice.1.dom() =~= once.1.dom());
}

/// A closed connection stays closed and follows nothing, whatever arrives.
pub proof fn lemma_closed_is_final(
    c: ConnectionView,
    sessions: Map<u128, SessionView>,
    message: Option<Request>,
    member: Option<bool>,
    stored: Option<Snapshot>,
    saved: bool,
)
    requires
        c.phase is Closed,
    ensures
        on_message(c, message).0 == c,
        on_membership(c, member).0 == c,
        on_project_read(c, sessions, stored).0 == c,
        on_project_read(c, sessions, stored).1 == sessions,
        on_project_written(c, sessions, saved).0 == c,
        on_project_written(c, sessions, saved).1 == sessions,
        on_close(c, sessions).0.phase is Closed,
        on_close(c, sessions).1 == sessions,
{
}

/// When the only follower of a project closes its connection, the project
/// has no session any more.
pub proof fn lemma_last_close_ends_session(c: ConnectionView, sessions: Map<u128, SessionView>)
    requires
        c.phase is Subscribed,
        sessions.contains_key(key_of(c.phase->Subscribed_0)),
        sessions[key_of(c.phase->Subscribed_0)].subscribers == 1,
    ensures
        !on_close(c, sessions).1.contains_key(key_of(c.phase->Subscribed_0)),
        on_close(c, sessions).0.phase is Closed,
{
}

} // verus!
