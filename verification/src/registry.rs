//! The registry's questions to its store, and the access policy built on
//! them.

use vstd::prelude::*;
use vstd::string::StringExecFns;
use crate::admin::DisableMirror;
use crate::admin::EnableMirror;
use crate::store::Command;
use crate::store::Reply;
use crate::store::ReplyView;
use crate::store::SetName;
use crate::store::StoreModel;

verus! {

/// The question whether `channel` is a mirror channel.
pub fn is_channel_registered(channel: u64) -> (command: Command)
    ensures
        command == (Command::IsMember { set: SetName::Channels, member: channel }),
        forall|store: StoreModel| #[trigger]
            store.reply(command).flag() == Some(store.channels.contains(channel)),
{
    Command::IsMember { set: SetName::Channels, member: channel }
}

/// The request for a snapshot of the mirror channels.
pub fn registered_channels() -> (command: Command)
    ensures
        command == (Command::Scan { set: SetName::Channels }),
        forall|store: StoreModel, snapshot: Seq<u64>| #[trigger]
            store.answers(command, ReplyView::Members(snapshot))
                <==> snapshot.to_set() == store.channels,
{
    Command::Scan { set: SetName::Channels }
}

/// The question which channel is the mirror channel of `community`.
pub fn mirror_channel_for(community: u64) -> (command: Command)
    ensures
        command == (Command::GetMirror { community }),
        forall|store: StoreModel| #[trigger]
            store.reply(command).mirror() == Some(store.mirror_of(community)),
{
    Command::GetMirror { community }
}

/// The question whether `user` is an admin.
pub fn is_admin(user: u64) -> (command: Command)
    ensures
        command == (Command::IsMember { set: SetName::Admins, member: user }),
        forall|store: StoreModel| #[trigger]
            store.reply(command).flag() == Some(store.admins.contains(user)),
{
    Command::IsMember { set: SetName::Admins, member: user }
}

/// The question whether `user` is banned.
pub fn is_banned(user: u64) -> (command: Command)
    ensures
        command == (Command::IsMember { set: SetName::Banned, member: user }),
        forall|store: StoreModel| #[trigger]
            store.reply(command).flag() == Some(store.banned.contains(user)),
{
    Command::IsMember { set: SetName::Banned, member: user }
}

/// Begins recording `channel` as the mirror channel of `community`: first
/// the mapping is written, then the channel enters the channel set.
pub fn set_mirror_channel(community: u64, channel: u64) -> (r: (EnableMirror, Command))
    ensures
        r.0 == (EnableMirror::Mapping { community, channel, replaced: None }),
        r.1 == (Command::SetMirror { community, channel }),
{
    (
        EnableMirror::Mapping { community, channel, replaced: None },
        Command::SetMirror { community, channel },
    )
}

/// Begins removing the mirror channel of `community`: the mapping is
/// looked up, its channel leaves the channel set, and the mapping is
/// deleted.
pub fn clear_mirror_channel(community: u64) -> (r: (DisableMirror, Command))
    ensures
        r.0 == (DisableMirror::Lookup { community }),
        r.1 == (Command::GetMirror { community }),
{
    (DisableMirror::Lookup { community }, Command::GetMirror { community })
}

/// Whether someone may use the commands reserved for admins.
#[derive(Clone, Copy, Debug, PartialEq, Eq, Structural)]
pub enum Clearance {
    /// The user is an admin.
    Granted,
    /// The user is not an admin, and is told so.
    Denied,
    /// The store did not say; the command is not run.
    Unknown,
}

/// Decides on the store's reply to `is_admin` whether a command reserved
/// for admins may run.
pub fn bot_administrator(reply: &Reply) -> (clearance: Clearance)
    ensures
        clearance == (match reply@.flag() {
            Some(true) => Clearance::Granted,
            Some(false) => Clearance::Denied,
            None => Clearance::Unknown,
        }),
{
    match reply.flag() {
        Ok(true) => Clearance::Granted,
        Ok(false) => Clearance::Denied,
        Err(_) => Clearance::Unknown,
    }
}

/// What a user without clearance is told.
pub fn denial() -> (message: String)
    ensures
        message@ == "**Error:** You are not an admin!"@,
{
    String::from_str("**Error:** You are not an admin!")
}

} // verus!
