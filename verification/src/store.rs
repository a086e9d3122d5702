//! The requests the registry makes of its backing store, the answers it
//! understands, and a mathematical model of a store that answers faithfully.

use vstd::prelude::*;

verus! {

/// The three global sets the registry keeps.
#[derive(Clone, Copy, Debug, PartialEq, Eq, Structural)]
pub enum SetName {
    /// Channels that currently act as mirror channels.
    Channels,
    /// Users whose messages are not relayed.
    Banned,
    /// Users with global privileges.
    Admins,
}

impl SetName {
    /// The key under which the store keeps this set.
    pub open spec fn key_text(self) -> Seq<char> {
        match self {
            SetName::Channels => "channels"@,
            SetName::Banned => "banned"@,
            SetName::Admins => "admins"@,
        }
    }

    /// The key under which the store keeps this set.
    pub fn key(&self) -> (key: &'static str)
        ensures
            key@ == self.key_text(),
    {
        match self {
            SetName::Channels => "channels",
            SetName::Banned => "banned",
            SetName::Admins => "admins",
        }
    }
}

/// The field of a community's record that holds its mirror channel.
pub fn mirror_field() -> (field: &'static str)
    ensures
        field@ == "mirror_channel"@,
{
    "mirror_channel"
}

/// One request to the backing store.
#[derive(Clone, Copy, Debug, PartialEq, Eq, Structural)]
pub enum Command {
    /// Is `member` in `set`?
    IsMember { set: SetName, member: u64 },
    /// Put `member` into `set`.
    Add { set: SetName, member: u64 },
    /// Take `member` out of `set`.
    Remove { set: SetName, member: u64 },
    /// Hand out a snapshot of `set`.
    Scan { set: SetName },
    /// Read the mirror channel recorded for `community`.
    GetMirror { community: u64 },
    /// Record `channel` as the mirror channel of `community`.
    SetMirror { community: u64, channel: u64 },
    /// Delete everything recorded for `community`.
    Unlink { community: u64 },
}

/// What the store answered.
#[derive(Debug)]
pub enum Reply {
    /// Answer to `IsMember`.
    Flag(bool),
    /// Answer to `GetMirror`.
    Mirror(Option<u64>),
    /// Answer to `Scan`.
    Members(Vec<u64>),
    /// A write went through.
    Done,
    /// The store could not be reached or refused the request.
    Unavailable,
}

/// Mathematical value of a [`Reply`].
pub enum ReplyView {
    Flag(bool),
    Mirror(Option<u64>),
    Members(Seq<u64>),
    Done,
    Unavailable,
}

impl View for Reply {
    type V = ReplyView;

    open spec fn view(&self) -> ReplyView {
        match *self {
            Reply::Flag(b) => ReplyView::Flag(b),
            Reply::Mirror(m) => ReplyView::Mirror(m),
            Reply::Members(v) => ReplyView::Members(v@),
            Reply::Done => ReplyView::Done,
            Reply::Unavailable => ReplyView::Unavailable,
        }
    }
}

/// The registry could not complete a request to its store.
#[derive(Clone, Copy, Debug, PartialEq, Eq, Structural)]
pub struct StoreUnavailable;

impl ReplyView {
    /// The truth value this reply carries, if it answers a membership test.
    pub open spec fn flag(self) -> Option<bool> {
        match self {
            ReplyView::Flag(b) => Some(b),
            _ => None,
        }
    }

    /// The optional channel this reply carries, if it answers a mirror lookup.
    pub open spec fn mirror(self) -> Option<Option<u64>> {
        match self {
            ReplyView::Mirror(m) => Some(m),
            _ => None,
        }
    }

    /// The snapshot this reply carries, if it answers a scan.
    pub open spec fn members(self) -> Option<Seq<u64>> {
        match self {
            ReplyView::Members(s) => Some(s),
            _ => None,
        }
    }
}

impl Reply {
    /// Reads the answer to a membership test. Any other reply means the
    /// store did not answer the question.
    pub fn flag(&self) -> (r: Result<bool, StoreUnavailable>)
        ensures
            r == (match self@.flag() {
                Some(b) => Ok::<bool, StoreUnavailable>(b),
                None => Err(StoreUnavailable),
            }),
    {
        match self {
            Reply::Flag(b) => Ok(*b),
            _ => Err(StoreUnavailable),
        }
    }

    /// Reads the answer to a mirror lookup.
    pub fn mirror(&self) -> (r: Result<Option<u64>, StoreUnavailable>)
        ensures
            r == (match self@.mirror() {
                Some(m) => Ok::<Option<u64>, StoreUnavailable>(m),
                None => Err(StoreUnavailable),
            }),
    {
        match self {
            Reply::Mirror(m) => Ok(*m),
            _ => Err(StoreUnavailable),
        }
    }

    /// Reads the answer to a scan.
    pub fn members(&self) -> (r: Result<&Vec<u64>, StoreUnavailable>)
        ensures
            match r {
                Ok(snapshot) => self@.members() == Some(snapshot@),
                Err(_) => self@.members() is None,
            },
    {
        match self {
            Reply::Members(snapshot) => Ok(snapshot),
            _ => Err(StoreUnavailable),
        }
    }

    /// Whether a write was acknowledged.
    pub fn acknowledged(&self) -> (r: bool)
        ensures
            r == (self@ is Done),
    {
        match self {
            Reply::Done => true,
            _ => false,
        }
    }
}

/// What a store holds, as far as the registry is concerned.
pub struct StoreModel {
    pub channels: Set<u64>,
    pub banned: Set<u64>,
    pub admins: Set<u64>,
    pub mirrors: Map<u64, u64>,
}

impl StoreModel {
    /// The contents of one of the three sets.
    pub open spec fn members(self, set: SetName) -> Set<u64> {
        match set {
            SetName::Channels => self.channels,
            SetName::Banned => self.banned,
            SetName::Admins => self.admins,
        }
    }

    /// This store with one of its sets replaced.
    pub open spec fn with_members(self, set: SetName, members: Set<u64>) -> StoreModel {
        match set {
            SetName::Channels => StoreModel { channels: members, ..self },
            SetName::Banned => StoreModel { banned: members, ..self },
            SetName::Admins => StoreModel { admins: members, ..self },
        }
    }

    /// The mirror channel recorded for a community.
    pub open spec fn mirror_of(self, community: u64) -> Option<u64> {
        if self.mirrors.dom().contains(community) {
            Some(self.mirrors[community])
        } else {
            None
        }
    }

    /// The store after it has carried out `command`.
    pub open spec fn apply(self, command: Command) -> StoreModel {
        match command {
            Command::Add { set, member } => self.with_members(
                set,
                self.members(set).insert(member),
            ),
            Command::Remove { set, member } => self.with_members(
                set,
                self.members(set).remove(member),
            ),
            Command::SetMirror { community, channel } => StoreModel {
                mirrors: self.mirrors.insert(community, channel),
                ..self
            },
            Command::Unlink { community } => StoreModel {
                mirrors: self.mirrors.remove(community),
                ..self
            },
            _ => self,
        }
    }

    /// The answer of this store to a command whose answer is determined by
    /// the contents alone, which is every command but a scan.
    pub open spec fn reply(self, command: Command) -> ReplyView
        recommends
            !(command is Scan),
    {
        match command {
            Command::IsMember { set, member } => ReplyView::Flag(
                self.members(set).contains(member),
            ),
            Command::GetMirror { community } => ReplyView::Mirror(self.mirror_of(community)),
            Command::Scan { set } => ReplyView::Members(self.members(set).to_seq()),
            _ => ReplyView::Done,
        }
    }

    /// Whether `reply` is a faithful answer of this store to `command`.
    /// A scan may hand out the members in any order, and more than once.
    pub open spec fn answers(self, command: Command, reply: ReplyView) -> bool {
        match command {
            Command::Scan { set } => reply.members() matches Some(snapshot)
                && snapshot.to_set() == self.members(set),
            _ => reply == self.reply(command),
        }
    }

    /// The cross-entity rule of the registry: a channel is in the channel
    /// set exactly when some community has it as its mirror channel, and no
    /// two communities share one.
    pub open spec fn consistent(self) -> bool {
        &&& forall|channel: u64|
            self.channels.contains(channel) <==> exists|community: u64|
                #[trigger] self.mirror_of(community) == Some(channel)
        &&& forall|a: u64, b: u64|
            self.mirrors.dom().contains(a) && self.mirrors.dom().contains(b)
                && self.mirrors[a] == self.mirrors[b] ==> a == b
    }
}

} // verus!
