//! The relay engine: what happens to one inbound message.
//!
//! A message passes the bot filter, the channel filter and the ban filter,
//! gets its outgoing text, has its attachments fetched, and fans out to
//! every registered channel but its own. The engine is a machine: it names
//! the next thing to do, the caller does it and reports back.

use vstd::prelude::*;
use crate::fanout::destinations_of;
use crate::fanout::destinations_exclude_origin;
use crate::fanout::plan_destinations;
use crate::store::Command;
use crate::store::Reply;
use crate::store::ReplyView;
use crate::store::SetName;
use crate::text::compose;
use crate::text::outgoing_text;

verus! {

/// A file attached to an inbound message, not yet fetched.
#[derive(Debug)]
pub struct AttachmentRef {
    pub filename: String,
    pub url: String,
}

/// Mathematical value of an [`AttachmentRef`].
pub struct AttachmentRefView {
    pub filename: Seq<char>,
    pub url: Seq<char>,
}

impl View for AttachmentRef {
    type V = AttachmentRefView;

    open spec fn view(&self) -> AttachmentRefView {
        AttachmentRefView { filename: self.filename@, url: self.url@ }
    }
}

/// A fetched file, ready to be sent on.
#[derive(Debug)]
pub struct Attachment {
    pub filename: String,
    pub data: Vec<u8>,
}

/// Mathematical value of an [`Attachment`].
pub struct AttachmentView {
    pub filename: Seq<char>,
    pub data: Seq<u8>,
}

impl View for Attachment {
    type V = AttachmentView;

    open spec fn view(&self) -> AttachmentView {
        AttachmentView { filename: self.filename@, data: self.data@ }
    }
}

/// The values of a sequence of attachment references.
pub open spec fn refs_view(refs: Seq<AttachmentRef>) -> Seq<AttachmentRefView> {
    refs.map_values(|r: AttachmentRef| r@)
}

/// The values of a sequence of fetched attachments.
pub open spec fn files_view(files: Seq<Attachment>) -> Seq<AttachmentView> {
    files.map_values(|f: Attachment| f@)
}

/// A message as the gateway delivers it. `content` has its mentions already
/// in display form.
#[derive(Debug)]
pub struct Inbound {
    pub author: u64,
    pub author_is_bot: bool,
    pub display_name: String,
    pub origin: u64,
    pub community: u64,
    pub content: String,
    pub attachments: Vec<AttachmentRef>,
}

/// Mathematical value of an [`Inbound`].
pub struct InboundView {
    pub author: u64,
    pub author_is_bot: bool,
    pub display_name: Seq<char>,
    pub origin: u64,
    pub community: u64,
    pub content: Seq<char>,
    pub attachments: Seq<AttachmentRefView>,
}

impl View for Inbound {
    type V = InboundView;

    open spec fn view(&self) -> InboundView {
        InboundView {
            author: self.author,
            author_is_bot: self.author_is_bot,
            display_name: self.display_name@,
            origin: self.origin,
            community: self.community,
            content: self.content@,
            attachments: refs_view(self.attachments@),
        }
    }
}

/// What the engine is waiting for.
#[derive(Clone, Copy, Debug, PartialEq, Eq, Structural)]
pub enum Phase {
    /// Whether the origin channel is a mirror channel.
    Channel,
    /// Whether the author is banned.
    Ban,
    /// The author's name being noted in the user cache.
    Caching,
    /// Whether the author is an admin.
    Admin,
    /// The bytes of the next attachment.
    Fetching,
    /// A snapshot of the channel set.
    Listing,
    /// The result of the send to the next destination.
    Sending,
}

/// Why a message was not relayed, without anything having gone wrong.
#[derive(Clone, Copy, Debug, PartialEq, Eq, Structural)]
pub enum Discard {
    /// The author is an automated account.
    Bot,
    /// The origin channel is not a mirror channel.
    NotMirror,
    /// The author is banned.
    Banned,
}

/// Why a relay was given up before anything was sent.
#[derive(Clone, Copy, Debug, PartialEq, Eq, Structural)]
pub enum Abort {
    /// A registry read got no answer.
    StoreUnavailable,
    /// An attachment could not be fetched.
    AttachmentUnavailable,
}

/// What the caller has to do next.
#[derive(Debug)]
pub enum Action {
    /// Send the command to the store; report `Event::Store`.
    Ask(Command),
    /// Note in the user cache that `user` goes by `name`; report
    /// `Event::Store`. The reply does not matter.
    Remember { name: String, user: u64 },
    /// Fetch the attachment at `url`; report `Event::Fetched`.
    Fetch { url: String },
    /// Send the relay's text and files to `channel`; report `Event::Sent`.
    Send { channel: u64 },
}

/// Mathematical value of an [`Action`].
pub enum ActionView {
    Ask(Command),
    Remember { name: Seq<char>, user: u64 },
    Fetch { url: Seq<char> },
    Send { channel: u64 },
}

impl View for Action {
    type V = ActionView;

    open spec fn view(&self) -> ActionView {
        match *self {
            Action::Ask(command) => ActionView::Ask(command),
            Action::Remember { name, user } => ActionView::Remember { name: name@, user },
            Action::Fetch { url } => ActionView::Fetch { url: url@ },
            Action::Send { channel } => ActionView::Send { channel },
        }
    }
}

/// What came of the last action.
#[derive(Debug)]
pub enum Event {
    /// The store's reply.
    Store(Reply),
    /// The attachment's bytes, or `None` if the fetch failed or took too
    /// long.
    Fetched(Option<Vec<u8>>),
    /// Whether the send went through in time.
    Sent(bool),
}

/// Mathematical value of an [`Event`].
pub enum EventView {
    Store(ReplyView),
    Fetched(Option<Seq<u8>>),
    Sent(bool),
}

impl View for Event {
    type V = EventView;

    open spec fn view(&self) -> EventView {
        match *self {
            Event::Store(reply) => EventView::Store(reply@),
            Event::Fetched(Some(data)) => EventView::Fetched(Some(data@)),
            Event::Fetched(None) => EventView::Fetched(None),
            Event::Sent(ok) => EventView::Sent(ok),
        }
    }
}

impl EventView {
    /// The truth value of a store reply to a membership test.
    pub open spec fn flag(self) -> Option<bool> {
        match self {
            EventView::Store(reply) => reply.flag(),
            _ => None,
        }
    }

    /// The snapshot of a store reply to a scan.
    pub open spec fn members(self) -> Option<Seq<u64>> {
        match self {
            EventView::Store(reply) => reply.members(),
            _ => None,
        }
    }

    /// The bytes of a fetch that succeeded.
    pub open spec fn fetched(self) -> Option<Seq<u8>> {
        match self {
            EventView::Fetched(data) => data,
            _ => None,
        }
    }

    /// Whether this reports a send that went through.
    pub open spec fn sent(self) -> bool {
        self == EventView::Sent(true)
    }
}

/// How the relay of one message ended.
#[derive(Debug)]
pub enum Outcome {
    /// A filter dropped the message.
    Discarded(Discard),
    /// The relay was given up; nothing was sent.
    Aborted(Abort),
    /// Every destination was tried once: `delivered` took the message,
    /// `failed` did not.
    Relayed { delivered: Vec<u64>, failed: Vec<u64> },
}

/// Mathematical value of an [`Outcome`].
pub enum OutcomeView {
    Discarded(Discard),
    Aborted(Abort),
    Relayed { delivered: Seq<u64>, failed: Seq<u64> },
}

impl View for Outcome {
    type V = OutcomeView;

    open spec fn view(&self) -> OutcomeView {
        match *self {
            Outcome::Discarded(why) => OutcomeView::Discarded(why),
            Outcome::Aborted(why) => OutcomeView::Aborted(why),
            Outcome::Relayed { delivered, failed } => OutcomeView::Relayed {
                delivered: delivered@,
                failed: failed@,
            },
        }
    }
}

impl Outcome {
    /// Whether some destination did not take the message.
    pub fn is_partial(&self) -> (partial: bool)
        ensures
            partial == (self@ matches OutcomeView::Relayed { delivered: _, failed }
                && failed.len() > 0),
    {
        match self {
            Outcome::Relayed { delivered: _, failed } => failed.len() > 0,
            _ => false,
        }
    }
}

/// The relay of one message, under way.
pub struct Relay {
    phase: Phase,
    author: u64,
    origin: u64,
    display_name: String,
    content: String,
    refs: Vec<AttachmentRef>,
    text: String,
    files: Vec<Attachment>,
    destinations: Vec<u64>,
    delivered: Vec<u64>,
    failed: Vec<u64>,
}

/// Mathematical value of a [`Relay`].
pub struct RelayView {
    pub phase: Phase,
    pub author: u64,
    pub origin: u64,
    pub display_name: Seq<char>,
    pub content: Seq<char>,
    /// The attachments of the message.
    pub refs: Seq<AttachmentRefView>,
    /// The outgoing text, once the author's standing is known.
    pub text: Seq<char>,
    /// The attachments fetched so far, in the order of `refs`.
    pub files: Seq<AttachmentView>,
    /// The channels to send to, once the channel set is known.
    pub destinations: Seq<u64>,
    /// The destinations that took the message, in the order tried.
    pub delivered: Seq<u64>,
    /// The destinations that did not, in the order tried.
    pub failed: Seq<u64>,
}

/// Either the relay goes on, or it has ended.
pub enum Progress {
    /// Do the action and hand its event to the relay.
    Continue(Relay, Action),
    /// Nothing is left to do.
    Finished(Outcome),
}

/// Mathematical value of a [`Progress`].
pub enum ProgressView {
    Continue(RelayView, ActionView),
    Finished(OutcomeView),
}

impl View for Progress {
    type V = ProgressView;

    open spec fn view(&self) -> ProgressView {
        match *self {
            Progress::Continue(relay, action) => ProgressView::Continue(relay@, action@),
            Progress::Finished(outcome) => ProgressView::Finished(outcome@),
        }
    }
}

impl ProgressView {
    /// The channel this asks the caller to send to, if it asks for a send.
    pub open spec fn send_target(self) -> Option<u64> {
        match self {
            ProgressView::Continue(_, ActionView::Send { channel }) => Some(channel),
            _ => None,
        }
    }
}

impl RelayView {
    /// How many destinations have been tried.
    pub open spec fn attempted(self) -> nat {
        self.delivered.len() + self.failed.len()
    }

    /// What every relay under way satisfies.
    pub open spec fn wf(self) -> bool {
        &&& self.files.len() <= self.refs.len()
        &&& self.phase is Fetching ==> self.files.len() < self.refs.len()
        &&& self.phase is Sending ==> self.attempted() < self.destinations.len()
        &&& self.attempted() <= self.destinations.len()
        &&& !self.destinations.contains(self.origin)
        &&& self.destinations.no_duplicates()
        &&& self.phase is Sending || self.attempted() == 0
    }

    /// The relay of a message that has passed the bot filter, before
    /// anything is known about it.
    pub open spec fn fresh(message: InboundView) -> RelayView {
        RelayView {
            phase: Phase::Channel,
            author: message.author,
            origin: message.origin,
            display_name: message.display_name,
            content: message.content,
            refs: message.attachments,
            text: Seq::empty(),
            files: Seq::empty(),
            destinations: Seq::empty(),
            delivered: Seq::empty(),
            failed: Seq::empty(),
        }
    }

    /// Fetch the next attachment, or list the channels when none is left.
    pub open spec fn fetch_or_list(self) -> ProgressView {
        if self.files.len() < self.refs.len() {
            ProgressView::Continue(
                RelayView { phase: Phase::Fetching, ..self },
                ActionView::Fetch { url: self.refs[self.files.len() as int].url },
            )
        } else {
            ProgressView::Continue(
                RelayView { phase: Phase::Listing, ..self },
                ActionView::Ask(Command::Scan { set: SetName::Channels }),
            )
        }
    }

    /// Send to the next destination, or finish when all have been tried.
    pub open spec fn send_or_finish(self) -> ProgressView {
        if self.attempted() < self.destinations.len() {
            ProgressView::Continue(
                RelayView { phase: Phase::Sending, ..self },
                ActionView::Send { channel: self.destinations[self.attempted() as int] },
            )
        } else {
            ProgressView::Finished(
                OutcomeView::Relayed { delivered: self.delivered, failed: self.failed },
            )
        }
    }

    /// The transition taken on `event`.
    ///
    /// A registry read without an answer, or an attachment that cannot be
    /// fetched, ends the relay. A send that fails is noted and the next
    /// destination is tried; no destination is tried twice.
    pub open spec fn step(self, event: EventView) -> ProgressView {
        match self.phase {
            Phase::Channel => match event.flag() {
                None => ProgressView::Finished(OutcomeView::Aborted(Abort::StoreUnavailable)),
                Some(false) => ProgressView::Finished(OutcomeView::Discarded(Discard::NotMirror)),
                Some(true) => ProgressView::Continue(
                    RelayView { phase: Phase::Ban, ..self },
                    ActionView::Ask(
                        Command::IsMember { set: SetName::Banned, member: self.author },
                    ),
                ),
            },
            Phase::Ban => match event.flag() {
                None => ProgressView::Finished(OutcomeView::Aborted(Abort::StoreUnavailable)),
                Some(true) => ProgressView::Finished(OutcomeView::Discarded(Discard::Banned)),
                Some(false) => ProgressView::Continue(
                    RelayView { phase: Phase::Caching, ..self },
                    ActionView::Remember { name: self.display_name, user: self.author },
                ),
            },
            Phase::Caching => ProgressView::Continue(
                RelayView { phase: Phase::Admin, ..self },
                ActionView::Ask(Command::IsMember { set: SetName::Admins, member: self.author }),
            ),
            Phase::Admin => match event.flag() {
                None => ProgressView::Finished(OutcomeView::Aborted(Abort::StoreUnavailable)),
                Some(admin) => (RelayView {
                    text: outgoing_text(self.display_name, admin, self.content),
                    ..self
                }).fetch_or_list(),
            },
            Phase::Fetching => match event.fetched() {
                None => ProgressView::Finished(
                    OutcomeView::Aborted(Abort::AttachmentUnavailable),
                ),
                Some(data) => (RelayView {
                    files: self.files.push(
                        AttachmentView {
                            filename: self.refs[self.files.len() as int].filename,
                            data,
                        },
                    ),
                    ..self
                }).fetch_or_list(),
            },
            Phase::Listing => match event.members() {
                None => ProgressView::Finished(OutcomeView::Aborted(Abort::StoreUnavailable)),
                Some(snapshot) => (RelayView {
                    destinations: destinations_of(snapshot, self.origin),
                    ..self
                }).send_or_finish(),
            },
            Phase::Sending => {
                let channel = self.destinations[self.attempted() as int];
                if event.sent() {
                    (RelayView { delivered: self.delivered.push(channel), ..self }).send_or_finish()
                } else {
                    (RelayView { failed: self.failed.push(channel), ..self }).send_or_finish()
                }
            },
        }
    }

    /// What becomes of a message when it arrives.
    pub open spec fn begin(message: InboundView) -> ProgressView {
        if message.author_is_bot {
            ProgressView::Finished(OutcomeView::Discarded(Discard::Bot))
        } else {
            ProgressView::Continue(
                RelayView::fresh(message),
                ActionView::Ask(
                    Command::IsMember { set: SetName::Channels, member: message.origin },
                ),
            )
        }
    }
}

impl View for Relay {
    type V = RelayView;

    closed spec fn view(&self) -> RelayView {
        RelayView {
            phase: self.phase,
            author: self.author,
            origin: self.origin,
            display_name: self.display_name@,
            content: self.content@,
            refs: refs_view(self.refs@),
            text: self.text@,
            files: files_view(self.files@),
            destinations: self.destinations@,
            delivered: self.delivered@,
            failed: self.failed@,
        }
    }
}

impl Event {
    /// Reads the answer to a membership test out of an event.
    fn flag(&self) -> (flag: Option<bool>)
        ensures
            flag == self@.flag(),
    {
        match self {
            Event::Store(Reply::Flag(b)) => Some(*b),
            _ => None,
        }
    }

    /// Whether this reports a send that went through.
    fn sent(&self) -> (ok: bool)
        ensures
            ok == self@.sent(),
    {
        match self {
            Event::Sent(ok) => *ok,
            _ => false,
        }
    }
}

impl Relay {
    /// Takes in a message. A bot's message is dropped at once; for any
    /// other the first question is whether its channel is a mirror channel.
    pub fn start(message: Inbound) -> (progress: Progress)
        ensures
            progress@ == RelayView::begin(message@),
            progress matches Progress::Continue(relay, _) ==> relay@.wf(),
            progress@.send_target() is None,
    {
        if message.author_is_bot {
            return Progress::Finished(Outcome::Discarded(Discard::Bot));
        }
        let origin = message.origin;
        let relay = Relay {
            phase: Phase::Channel,
            author: message.author,
            origin,
            display_name: message.display_name,
            content: message.content,
            refs: message.attachments,
            text: String::new(),
            files: Vec::new(),
            destinations: Vec::new(),
            delivered: Vec::new(),
            failed: Vec::new(),
        };
        proof {
            assert(files_view(relay.files@) =~= Seq::empty());
        }
        Progress::Continue(
            relay,
            Action::Ask(Command::IsMember { set: SetName::Channels, member: origin }),
        )
    }

    /// The channel the message came from.
    pub fn origin(&self) -> (origin: u64)
        ensures
            origin == self@.origin,
    {
        self.origin
    }

    /// The text to send on. Empty until the author's standing is known.
    pub fn text(&self) -> (text: &str)
        ensures
            text@ == self@.text,
    {
        self.text.as_str()
    }

    /// The attachments fetched so far, in the order of the message.
    pub fn files(&self) -> (files: &Vec<Attachment>)
        ensures
            files_view(files@) == self@.files,
    {
        &self.files
    }

    /// How many destinations have been tried.
    fn attempted(&self) -> (attempted: usize)
        requires
            self@.attempted() <= self@.destinations.len(),
        ensures
            attempted == self@.attempted(),
    {
        assert(self.destinations@.len() == self.destinations.len());
        self.delivered.len() + self.failed.len()
    }

    /// Asks for the next attachment, or for the channel set when every
    /// attachment is there.
    fn fetch_or_list(self) -> (progress: Progress)
        requires
            self@.files.len() <= self@.refs.len(),
        ensures
            progress@ == self@.fetch_or_list(),
    {
        let mut relay = self;
        if relay.files.len() < relay.refs.len() {
            let url = relay.refs[relay.files.len()].url.clone();
            relay.phase = Phase::Fetching;
            Progress::Continue(relay, Action::Fetch { url })
        } else {
            relay.phase = Phase::Listing;
            Progress::Continue(relay, Action::Ask(Command::Scan { set: SetName::Channels }))
        }
    }

    /// Asks for the send to the next destination, or ends the relay when
    /// every destination has been tried.
    fn send_or_finish(self) -> (progress: Progress)
        requires
            self@.attempted() <= self@.destinations.len(),
        ensures
            progress@ == self@.send_or_finish(),
    {
        let mut relay = self;
        let attempted = relay.attempted();
        if attempted < relay.destinations.len() {
            let channel = relay.destinations[attempted];
            relay.phase = Phase::Sending;
            Progress::Continue(relay, Action::Send { channel })
        } else {
            Progress::Finished(
                Outcome::Relayed { delivered: relay.delivered, failed: relay.failed },
            )
        }
    }

    /// Takes the event that the last action led to.
    pub fn advance(self, event: Event) -> (progress: Progress)
        requires
            self@.wf(),
        ensures
            progress@ == self@.step(event@),
            progress matches Progress::Continue(relay, _) ==> relay@.wf(),
            progress@.send_target() matches Some(channel) ==> channel != self@.origin,
    {
        let mut relay = self;
        proof {
            step_keeps_wf(self@, event@);
        }
        match relay.phase {
            Phase::Channel => match event.flag() {
                None => Progress::Finished(Outcome::Aborted(Abort::StoreUnavailable)),
                Some(false) => Progress::Finished(Outcome::Discarded(Discard::NotMirror)),
                Some(true) => {
                    relay.phase = Phase::Ban;
                    let member = relay.author;
                    Progress::Continue(
                        relay,
                        Action::Ask(Command::IsMember { set: SetName::Banned, member }),
                    )
                },
            },
            Phase::Ban => match event.flag() {
                None => Progress::Finished(Outcome::Aborted(Abort::StoreUnavailable)),
                Some(true) => Progress::Finished(Outcome::Discarded(Discard::Banned)),
                Some(false) => {
                    relay.phase = Phase::Caching;
                    let name = relay.display_name.clone();
                    let user = relay.author;
                    Progress::Continue(relay, Action::Remember { name, user })
                },
            },
            Phase::Caching => {
                relay.phase = Phase::Admin;
                let member = relay.author;
                Progress::Continue(
                    relay,
                    Action::Ask(Command::IsMember { set: SetName::Admins, member }),
                )
            },
            Phase::Admin => match event.flag() {
                None => Progress::Finished(Outcome::Aborted(Abort::StoreUnavailable)),
                Some(admin) => {
                    relay.text = compose(relay.display_name.as_str(), admin, relay.content.as_str());
                    relay.fetch_or_list()
                },
            },
            Phase::Fetching => match event {
                Event::Fetched(Some(data)) => {
                    let filename = relay.refs[relay.files.len()].filename.clone();
                    let file = Attachment { filename, data };
                    relay.files.push(file);
                    proof {
                        assert(files_view(relay.files@) =~= files_view(self.files@).push(file@));
                    }
                    relay.fetch_or_list()
                },
                _ => Progress::Finished(Outcome::Aborted(Abort::AttachmentUnavailable)),
            },
            Phase::Listing => match event {
                Event::Store(Reply::Members(snapshot)) => {
                    relay.destinations = plan_destinations(&snapshot, relay.origin);
                    relay.send_or_finish()
                },
                _ => Progress::Finished(Outcome::Aborted(Abort::StoreUnavailable)),
            },
            Phase::Sending => {
                let channel = relay.destinations[relay.attempted()];
                if event.sent() {
                    relay.delivered.push(channel);
                } else {
                    relay.failed.push(channel);
                }
                relay.send_or_finish()
            },
        }
    }
}

/// A step keeps a relay well formed, and never asks for a send to the
/// channel the message came from.
pub proof fn step_keeps_wf(relay: RelayView, event: EventView)
    requires
        relay.wf(),
    ensures
        relay.step(event) matches ProgressView::Continue(next, _) ==> next.wf() && next.origin
            == relay.origin,
        relay.step(event).send_target() matches Some(channel) ==> channel != relay.origin,
{
    match relay.phase {
        Phase::Listing => {
            if let Some(snapshot) = event.members() {
                destinations_exclude_origin(snapshot, relay.origin);
            }
        },
        _ => {},
    }
    if let ProgressView::Continue(next, ActionView::Send { channel }) = relay.step(event) {
        assert(next.destinations.contains(channel));
    }
}

/// The relay goes past a check only on the answer that lets the message
/// through: the origin is a mirror channel, the author is not banned, the
/// store says whether the author is an admin, every attachment is there,
/// the channel set is known. On any other event it ends without a send.
pub proof fn checks_fail_closed(relay: RelayView, event: EventView)
    ensures
        relay.step(event) is Continue ==> match relay.phase {
            Phase::Channel => event.flag() == Some(true),
            Phase::Ban => event.flag() == Some(false),
            Phase::Caching => true,
            Phase::Admin => event.flag() is Some,
            Phase::Fetching => event.fetched() is Some,
            Phase::Listing => event.members() is Some,
            Phase::Sending => true,
        },
        relay.step(event) matches ProgressView::Finished(outcome) ==> (outcome is Relayed ==> (
        relay.phase is Listing || relay.phase is Sending)),
        relay.step(event).send_target() is Some ==> relay.phase is Listing || relay.phase
            is Sending,
{
}

} // verus!
