//! Broadcasting a notification to every mirror channel.

use vstd::prelude::*;
use vstd::string::StrSliceExecFns;
use vstd::string::StringExecFns;
use crate::fanout::destinations_of;
use crate::fanout::plan_destinations;
use crate::store::Command;
use crate::store::Reply;
use crate::store::SetName;
use crate::store::StoreUnavailable;
use crate::text::decimal;
use crate::text::push_decimal;

verus! {

/// Why a notification was not sent out.
#[derive(Clone, Copy, Debug, PartialEq, Eq, Structural)]
pub enum NotifyError {
    /// The command came without a message.
    NoMessage,
}

impl NotifyError {
    /// The message for whoever gave the command.
    pub fn message(&self) -> (message: String)
        ensures
            message@ == "**Error:** No message was provided!"@,
    {
        String::from_str("**Error:** No message was provided!")
    }
}

/// Begins a notification: with a message to send, the first thing to do is
/// to ask the store for the mirror channels; without one there is nothing
/// to do.
pub fn notify(message: &str) -> (first: Result<Command, NotifyError>)
    ensures
        first == (if message@.len() > 0 {
            Ok::<Command, NotifyError>(Command::Scan { set: SetName::Channels })
        } else {
            Err(NotifyError::NoMessage)
        }),
{
    if message.unicode_len() == 0 {
        Err(NotifyError::NoMessage)
    } else {
        Ok(Command::Scan { set: SetName::Channels })
    }
}

/// The channels a notification given in `origin` goes to: the mirror
/// channels of the store's snapshot but `origin`, once each.
pub fn notification_targets(reply: &Reply, origin: u64) -> (targets: Result<
    Vec<u64>,
    StoreUnavailable,
>)
    ensures
        match targets {
            Ok(channels) => reply@.members() matches Some(snapshot) && channels@
                == destinations_of(snapshot, origin),
            Err(_) => reply@.members() is None,
        },
{
    match reply.members() {
        Ok(snapshot) => Ok(plan_destinations(snapshot, origin)),
        Err(unavailable) => Err(unavailable),
    }
}

/// The text of a notification as a channel gets it: the community's owner
/// is mentioned, the message follows.
pub open spec fn notification_text(owner: u64, message: Seq<char>) -> Seq<char> {
    "**Notification (<@"@ + decimal(owner as nat) + ">):** "@ + message
}

/// Writes the notification for a community owned by `owner`.
pub fn notification(owner: u64, message: &str) -> (text: String)
    ensures
        text@ == notification_text(owner, message@),
{
    let mut text = String::from_str("**Notification (<@");
    push_decimal(&mut text, owner);
    text.append(">):** ");
    text.append(message);
    text
}

/// What the sender is told once the notification has gone out.
pub fn confirmation() -> (message: String)
    ensures
        message@ == "Your notification has been sent."@,
{
    String::from_str("Your notification has been sent.")
}

} // verus!
