//! The operations that change the registry: enabling and disabling a
//! community's mirror channel, banning and unbanning a user.
//!
//! Each operation is a machine. `enable`, `disable`, `ban` and `unban` name
//! the first request to the store; `next` takes the store's reply and
//! either names the following request or finishes with an outcome.

use vstd::prelude::*;
use crate::store::Command;
use crate::store::Reply;
use crate::store::ReplyView;
use crate::store::SetName;
use crate::store::StoreModel;
use crate::text::around;
use crate::text::write_around;
use vstd::string::StringExecFns;

verus! {

/// What a machine wants after a reply: another request, or nothing more.
pub enum Step<M, O> {
    /// Send the command to the store and come back with its reply.
    Ask(M, Command),
    /// The operation is over.
    Finish(O),
}

/// Enabling a mirror channel for a community.
#[derive(Clone, Copy, Debug, PartialEq, Eq, Structural)]
pub enum EnableMirror {
    /// Waiting for the community's current mirror channel.
    Lookup { community: u64, channel: u64 },
    /// Waiting for the former channel to leave the channel set.
    RemovingOld { community: u64, channel: u64, old: u64 },
    /// Waiting for the community's mapping to be written.
    Mapping { community: u64, channel: u64, replaced: Option<u64> },
    /// Waiting for the new channel to enter the channel set.
    Registering { community: u64, channel: u64, replaced: Option<u64> },
}

/// How enabling ended.
#[derive(Clone, Copy, Debug, PartialEq, Eq, Structural)]
pub enum EnableOutcome {
    /// `channel` is now the community's mirror channel; `replaced` is the
    /// different channel it took over from, if there was one.
    Enabled { channel: u64, replaced: Option<u64> },
    /// The current mapping could not be read; nothing was changed.
    LookupFailed,
    /// The former channel could not be removed; the new one was not set.
    RemovalFailed,
    /// The community's mapping could not be written.
    MappingFailed,
    /// The new channel could not be added to the channel set.
    RegistrationFailed,
}

impl EnableMirror {
    /// The transition taken on `reply`.
    pub open spec fn step(self, reply: ReplyView) -> Step<EnableMirror, EnableOutcome> {
        match self {
            EnableMirror::Lookup { community, channel } => match reply.mirror() {
                None => Step::Finish(EnableOutcome::LookupFailed),
                Some(Some(old)) if old != channel => Step::Ask(
                    EnableMirror::RemovingOld { community, channel, old },
                    Command::Remove { set: SetName::Channels, member: old },
                ),
                Some(_) => Step::Ask(
                    EnableMirror::Mapping { community, channel, replaced: None },
                    Command::SetMirror { community, channel },
                ),
            },
            EnableMirror::RemovingOld { community, channel, old } => if reply is Done {
                Step::Ask(
                    EnableMirror::Mapping { community, channel, replaced: Some(old) },
                    Command::SetMirror { community, channel },
                )
            } else {
                Step::Finish(EnableOutcome::RemovalFailed)
            },
            EnableMirror::Mapping { community, channel, replaced } => if reply is Done {
                Step::Ask(
                    EnableMirror::Registering { community, channel, replaced },
                    Command::Add { set: SetName::Channels, member: channel },
                )
            } else {
                Step::Finish(EnableOutcome::MappingFailed)
            },
            EnableMirror::Registering { community: _, channel, replaced } => if reply is Done {
                Step::Finish(EnableOutcome::Enabled { channel, replaced })
            } else {
                Step::Finish(EnableOutcome::RegistrationFailed)
            },
        }
    }


    /// The store and the outcome after this machine has run to its end
    /// against a store that answers every command faithfully, `command`
    /// being the request now pending. `None` if `fuel` steps did not reach
    /// the end.
    pub open spec fn run(self, command: Command, store: StoreModel, fuel: nat) -> (
        StoreModel,
        Option<EnableOutcome>,
    )
        decreases fuel,
    {
        if fuel == 0 {
            (store, None)
        } else {
            match self.step(store.reply(command)) {
                Step::Ask(machine, following) => machine.run(
                    following,
                    store.apply(command),
                    (fuel - 1) as nat,
                ),
                Step::Finish(outcome) => (store.apply(command), Some(outcome)),
            }
        }
    }

    /// Takes the store's reply to the last command.
    pub fn next(self, reply: &Reply) -> (r: Step<EnableMirror, EnableOutcome>)
        ensures
            r == self.step(reply@),
    {
        match self {
            EnableMirror::Lookup { community, channel } => match reply.mirror() {
                Err(_) => Step::Finish(EnableOutcome::LookupFailed),
                Ok(Some(old)) => {
                    if old != channel {
                        Step::Ask(
                            EnableMirror::RemovingOld { community, channel, old },
                            Command::Remove { set: SetName::Channels, member: old },
                        )
                    } else {
                        Step::Ask(
                            EnableMirror::Mapping { community, channel, replaced: None },
                            Command::SetMirror { community, channel },
                        )
                    }
                },
                Ok(None) => Step::Ask(
                    EnableMirror::Mapping { community, channel, replaced: None },
                    Command::SetMirror { community, channel },
                ),
            },
            EnableMirror::RemovingOld { community, channel, old } => {
                if reply.acknowledged() {
                    Step::Ask(
                        EnableMirror::Mapping { community, channel, replaced: Some(old) },
                        Command::SetMirror { community, channel },
                    )
                } else {
                    Step::Finish(EnableOutcome::RemovalFailed)
                }
            },
            EnableMirror::Mapping { community, channel, replaced } => {
                if reply.acknowledged() {
                    Step::Ask(
                        EnableMirror::Registering { community, channel, replaced },
                        Command::Add { set: SetName::Channels, member: channel },
                    )
                } else {
                    Step::Finish(EnableOutcome::MappingFailed)
                }
            },
            EnableMirror::Registering { community: _, channel, replaced } => {
                if reply.acknowledged() {
                    Step::Finish(EnableOutcome::Enabled { channel, replaced })
                } else {
                    Step::Finish(EnableOutcome::RegistrationFailed)
                }
            },
        }
    }
}

/// Disabling a community's mirror channel.
#[derive(Clone, Copy, Debug, PartialEq, Eq, Structural)]
pub enum DisableMirror {
    /// Waiting for the community's current mirror channel.
    Lookup { community: u64 },
    /// Waiting for the channel to leave the channel set.
    Removing { community: u64, channel: u64 },
    /// Waiting for the community's record to be deleted.
    Unlinking { community: u64, channel: u64 },
}

/// How disabling ended.
#[derive(Clone, Copy, Debug, PartialEq, Eq, Structural)]
pub enum DisableOutcome {
    /// `channel` was the community's mirror channel and no longer is.
    Disabled { channel: u64 },
    /// The community had no mirror channel; nothing was changed.
    NothingToDisable,
    /// The current mapping could not be read; nothing was changed.
    LookupFailed,
    /// The channel could not be removed from the channel set.
    RemovalFailed,
    /// The community's record could not be deleted.
    UnlinkFailed,
}

impl DisableMirror {
    /// The transition taken on `reply`.
    pub open spec fn step(self, reply: ReplyView) -> Step<DisableMirror, DisableOutcome> {
        match self {
            DisableMirror::Lookup { community } => match reply.mirror() {
                None => Step::Finish(DisableOutcome::LookupFailed),
                Some(None) => Step::Finish(DisableOutcome::NothingToDisable),
                Some(Some(channel)) => Step::Ask(
                    DisableMirror::Removing { community, channel },
                    Command::Remove { set: SetName::Channels, member: channel },
                ),
            },
            DisableMirror::Removing { community, channel } => if reply is Done {
                Step::Ask(
                    DisableMirror::Unlinking { community, channel },
                    Command::Unlink { community },
                )
            } else {
                Step::Finish(DisableOutcome::RemovalFailed)
            },
            DisableMirror::Unlinking { community: _, channel } => if reply is Done {
                Step::Finish(DisableOutcome::Disabled { channel })
            } else {
                Step::Finish(DisableOutcome::UnlinkFailed)
            },
        }
    }


    /// The store and the outcome after this machine has run to its end
    /// against a store that answers every command faithfully, `command`
    /// being the request now pending. `None` if `fuel` steps did not reach
    /// the end.
    pub open spec fn run(self, command: Command, store: StoreModel, fuel: nat) -> (
        StoreModel,
        Option<DisableOutcome>,
    )
        decreases fuel,
    {
        if fuel == 0 {
            (store, None)
        } else {
            match self.step(store.reply(command)) {
                Step::Ask(machine, following) => machine.run(
                    following,
                    store.apply(command),
                    (fuel - 1) as nat,
                ),
                Step::Finish(outcome) => (store.apply(command), Some(outcome)),
            }
        }
    }

    /// Takes the store's reply to the last command.
    pub fn next(self, reply: &Reply) -> (r: Step<DisableMirror, DisableOutcome>)
        ensures
            r == self.step(reply@),
    {
        match self {
            DisableMirror::Lookup { community } => match reply.mirror() {
                Err(_) => Step::Finish(DisableOutcome::LookupFailed),
                Ok(None) => Step::Finish(DisableOutcome::NothingToDisable),
                Ok(Some(channel)) => Step::Ask(
                    DisableMirror::Removing { community, channel },
                    Command::Remove { set: SetName::Channels, member: channel },
                ),
            },
            DisableMirror::Removing { community, channel } => {
                if reply.acknowledged() {
                    Step::Ask(
                        DisableMirror::Unlinking { community, channel },
                        Command::Unlink { community },
                    )
                } else {
                    Step::Finish(DisableOutcome::RemovalFailed)
                }
            },
            DisableMirror::Unlinking { community: _, channel } => {
                if reply.acknowledged() {
                    Step::Finish(DisableOutcome::Disabled { channel })
                } else {
                    Step::Finish(DisableOutcome::UnlinkFailed)
                }
            },
        }
    }
}

/// Banning a user from the relay.
#[derive(Clone, Copy, Debug, PartialEq, Eq, Structural)]
pub enum Ban {
    /// Waiting to learn whether the user is an admin.
    CheckingAdmin { user: u64 },
    /// Waiting for the user to enter the ban set.
    Adding { user: u64 },
}

/// How banning ended.
#[derive(Clone, Copy, Debug, PartialEq, Eq, Structural)]
pub enum BanOutcome {
    /// The user is now in the ban set.
    Banned { user: u64 },
    /// The user is an admin, and admins are never banned.
    RefusedAdmin,
    /// Whether the user is an admin could not be determined.
    AdminCheckFailed,
    /// The ban set could not be written.
    StoreFailed,
}

impl Ban {
    /// The transition taken on `reply`.
    pub open spec fn step(self, reply: ReplyView) -> Step<Ban, BanOutcome> {
        match self {
            Ban::CheckingAdmin { user } => match reply.flag() {
                None => Step::Finish(BanOutcome::AdminCheckFailed),
                Some(true) => Step::Finish(BanOutcome::RefusedAdmin),
                Some(false) => Step::Ask(
                    Ban::Adding { user },
                    Command::Add { set: SetName::Banned, member: user },
                ),
            },
            Ban::Adding { user } => if reply is Done {
                Step::Finish(BanOutcome::Banned { user })
            } else {
                Step::Finish(BanOutcome::StoreFailed)
            },
        }
    }


    /// The store and the outcome after this machine has run to its end
    /// against a store that answers every command faithfully, `command`
    /// being the request now pending. `None` if `fuel` steps did not reach
    /// the end.
    pub open spec fn run(self, command: Command, store: StoreModel, fuel: nat) -> (
        StoreModel,
        Option<BanOutcome>,
    )
        decreases fuel,
    {
        if fuel == 0 {
            (store, None)
        } else {
            match self.step(store.reply(command)) {
                Step::Ask(machine, following) => machine.run(
                    following,
                    store.apply(command),
                    (fuel - 1) as nat,
                ),
                Step::Finish(outcome) => (store.apply(command), Some(outcome)),
            }
        }
    }

    /// Takes the store's reply to the last command.
    pub fn next(self, reply: &Reply) -> (r: Step<Ban, BanOutcome>)
        ensures
            r == self.step(reply@),
    {
        match self {
            Ban::CheckingAdmin { user } => match reply.flag() {
                Err(_) => Step::Finish(BanOutcome::AdminCheckFailed),
                Ok(true) => Step::Finish(BanOutcome::RefusedAdmin),
                Ok(false) => Step::Ask(
                    Ban::Adding { user },
                    Command::Add { set: SetName::Banned, member: user },
                ),
            },
            Ban::Adding { user } => {
                if reply.acknowledged() {
                    Step::Finish(BanOutcome::Banned { user })
                } else {
                    Step::Finish(BanOutcome::StoreFailed)
                }
            },
        }
    }
}

/// Lifting a user's ban.
#[derive(Clone, Copy, Debug, PartialEq, Eq, Structural)]
pub enum Unban {
    /// Waiting for the user to leave the ban set.
    Removing { user: u64 },
}

/// How unbanning ended.
#[derive(Clone, Copy, Debug, PartialEq, Eq, Structural)]
pub enum UnbanOutcome {
    /// The user is not in the ban set, whether or not they were before.
    Unbanned { user: u64 },
    /// The ban set could not be written.
    StoreFailed,
}

impl Unban {
    /// The transition taken on `reply`.
    pub open spec fn step(self, reply: ReplyView) -> Step<Unban, UnbanOutcome> {
        match self {
            Unban::Removing { user } => if reply is Done {
                Step::Finish(UnbanOutcome::Unbanned { user })
            } else {
                Step::Finish(UnbanOutcome::StoreFailed)
            },
        }
    }


    /// The store and the outcome after this machine has run to its end
    /// against a store that answers every command faithfully, `command`
    /// being the request now pending. `None` if `fuel` steps did not reach
    /// the end.
    pub open spec fn run(self, command: Command, store: StoreModel, fuel: nat) -> (
        StoreModel,
        Option<UnbanOutcome>,
    )
        decreases fuel,
    {
        if fuel == 0 {
            (store, None)
        } else {
            match self.step(store.reply(command)) {
                Step::Ask(machine, following) => machine.run(
                    following,
                    store.apply(command),
                    (fuel - 1) as nat,
                ),
                Step::Finish(outcome) => (store.apply(command), Some(outcome)),
            }
        }
    }

    /// Takes the store's reply to the last command.
    pub fn next(self, reply: &Reply) -> (r: Step<Unban, UnbanOutcome>)
        ensures
            r == self.step(reply@),
    {
        match self {
            Unban::Removing { user } => {
                if reply.acknowledged() {
                    Step::Finish(UnbanOutcome::Unbanned { user })
                } else {
                    Step::Finish(UnbanOutcome::StoreFailed)
                }
            },
        }
    }
}

/// Begins enabling `channel` as the mirror channel of `community`.
pub fn enable(community: u64, channel: u64) -> (r: (EnableMirror, Command))
    ensures
        r.0 == (EnableMirror::Lookup { community, channel }),
        r.1 == (Command::GetMirror { community }),
{
    (EnableMirror::Lookup { community, channel }, Command::GetMirror { community })
}

/// Begins disabling the mirror channel of `community`.
pub fn disable(community: u64) -> (r: (DisableMirror, Command))
    ensures
        r.0 == (DisableMirror::Lookup { community }),
        r.1 == (Command::GetMirror { community }),
{
    (DisableMirror::Lookup { community }, Command::GetMirror { community })
}

/// Begins banning `user`.
pub fn ban(user: u64) -> (r: (Ban, Command))
    ensures
        r.0 == (Ban::CheckingAdmin { user }),
        r.1 == (Command::IsMember { set: SetName::Admins, member: user }),
{
    (Ban::CheckingAdmin { user }, Command::IsMember { set: SetName::Admins, member: user })
}

/// Begins unbanning `user`.
pub fn unban(user: u64) -> (r: (Unban, Command))
    ensures
        r.0 == (Unban::Removing { user }),
        r.1 == (Command::Remove { set: SetName::Banned, member: user }),
{
    (Unban::Removing { user }, Command::Remove { set: SetName::Banned, member: user })
}

impl EnableOutcome {
    /// What is said of this outcome: success names the channel, each failure names the step that failed.
    pub open spec fn text(self) -> Seq<char> {
        match self {
            EnableOutcome::Enabled { channel, replaced: _ } => around("Finished. Try talking in <#"@, channel, "> and see if anyone replies!"@),
            EnableOutcome::LookupFailed => "**Error:** Unable to check for an existing mirror channel!"@,
            EnableOutcome::RemovalFailed => "**Error:** Unable to remove the existing mirror channel from the channels set!"@,
            EnableOutcome::MappingFailed => "**Error:** Unable to update the channel id in the guild hash!"@,
            EnableOutcome::RegistrationFailed => "**Error:** Unable to update the channel id in the channel set!"@,
        }
    }

    /// The message for whoever asked for the operation.
    pub fn message(&self) -> (message: String)
        ensures
            message@ == self.text(),
    {
        match self {
            EnableOutcome::Enabled { channel, replaced: _ } => write_around("Finished. Try talking in <#", *channel, "> and see if anyone replies!"),
            EnableOutcome::LookupFailed => String::from_str("**Error:** Unable to check for an existing mirror channel!"),
            EnableOutcome::RemovalFailed => String::from_str("**Error:** Unable to remove the existing mirror channel from the channels set!"),
            EnableOutcome::MappingFailed => String::from_str("**Error:** Unable to update the channel id in the guild hash!"),
            EnableOutcome::RegistrationFailed => String::from_str("**Error:** Unable to update the channel id in the channel set!"),
        }
    }
}

impl DisableOutcome {
    /// What is said of this outcome: success names the channel, a community without one is told so, each failure names the step that failed.
    pub open spec fn text(self) -> Seq<char> {
        match self {
            DisableOutcome::Disabled { channel } => around("Disabled your server's mirror channel at <#"@, channel, ">"@),
            DisableOutcome::NothingToDisable => "Your server has no mirror channel to disable"@,
            DisableOutcome::LookupFailed => "**Error:** Unable to check for an existing mirror channel!"@,
            DisableOutcome::RemovalFailed => "**Error:** Unable to remove the channel id from the channels set!"@,
            DisableOutcome::UnlinkFailed => "**Error:** Unable to remove the channel id from the guild hash!"@,
        }
    }

    /// The message for whoever asked for the operation.
    pub fn message(&self) -> (message: String)
        ensures
            message@ == self.text(),
    {
        match self {
            DisableOutcome::Disabled { channel } => write_around("Disabled your server's mirror channel at <#", *channel, ">"),
            DisableOutcome::NothingToDisable => String::from_str("Your server has no mirror channel to disable"),
            DisableOutcome::LookupFailed => String::from_str("**Error:** Unable to check for an existing mirror channel!"),
            DisableOutcome::RemovalFailed => String::from_str("**Error:** Unable to remove the channel id from the channels set!"),
            DisableOutcome::UnlinkFailed => String::from_str("**Error:** Unable to remove the channel id from the guild hash!"),
        }
    }
}

impl BanOutcome {
    /// What is said of this outcome: success names the user, a refusal and each failure say why.
    pub open spec fn text(self) -> Seq<char> {
        match self {
            BanOutcome::Banned { user } => around("Successfully banned `"@, user, "` from the global mirror channel!"@),
            BanOutcome::RefusedAdmin => "**Error:** You cannot ban an admin!"@,
            BanOutcome::AdminCheckFailed => "**Error:** Unable to check if the user is an admin!"@,
            BanOutcome::StoreFailed => "**Error:** Unable to add the user to the banned users' list!"@,
        }
    }

    /// The message for whoever asked for the operation.
    pub fn message(&self) -> (message: String)
        ensures
            message@ == self.text(),
    {
        match self {
            BanOutcome::Banned { user } => write_around("Successfully banned `", *user, "` from the global mirror channel!"),
            BanOutcome::RefusedAdmin => String::from_str("**Error:** You cannot ban an admin!"),
            BanOutcome::AdminCheckFailed => String::from_str("**Error:** Unable to check if the user is an admin!"),
            BanOutcome::StoreFailed => String::from_str("**Error:** Unable to add the user to the banned users' list!"),
        }
    }
}

impl UnbanOutcome {
    /// What is said of this outcome: success names the user, failure says what could not be done.
    pub open spec fn text(self) -> Seq<char> {
        match self {
            UnbanOutcome::Unbanned { user } => around("Successfully unbanned `"@, user, "` from the global mirror channel!"@),
            UnbanOutcome::StoreFailed => "**Error:** Unable to remove the user from the banned users' list!"@,
        }
    }

    /// The message for whoever asked for the operation.
    pub fn message(&self) -> (message: String)
        ensures
            message@ == self.text(),
    {
        match self {
            UnbanOutcome::Unbanned { user } => write_around("Successfully unbanned `", *user, "` from the global mirror channel!"),
            UnbanOutcome::StoreFailed => String::from_str("**Error:** Unable to remove the user from the banned users' list!"),
        }
    }
}

} // verus!
