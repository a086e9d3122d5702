//! A model of everything outside the relay engine, and what the engine
//! does when it runs against it.

use vstd::prelude::*;
use crate::fanout::destinations_exclude_origin;
use crate::fanout::destinations_of;
use crate::relay::ActionView;
use crate::relay::AttachmentRefView;
use crate::relay::EventView;
use crate::relay::InboundView;
use crate::relay::OutcomeView;
use crate::relay::Phase;
use crate::relay::ProgressView;
use crate::relay::RelayView;
use crate::relay::step_keeps_wf;
use crate::store::Command;
use crate::store::ReplyView;
use crate::store::SetName;
use crate::store::StoreModel;
use crate::text::admin_marker;
use crate::text::marker_follows_name_iff_admin;
use crate::text::occurs_at;
use crate::text::outgoing_text;

verus! {

/// The store and the gateway as the relay engine meets them.
pub struct World {
    /// What the registry's store holds.
    pub store: StoreModel,
    /// The order in which a scan hands out the channel set.
    pub snapshot: Seq<u64>,
    /// The attachments that can be fetched, by address.
    pub files: Map<Seq<char>, Seq<u8>>,
    /// The channels that accept what is sent to them.
    pub reachable: Set<u64>,
}

impl World {
    /// What doing `action` in this world reports back.
    pub open spec fn event_for(self, action: ActionView) -> EventView {
        match action {
            ActionView::Ask(Command::Scan { set: SetName::Channels }) => EventView::Store(
                ReplyView::Members(self.snapshot),
            ),
            ActionView::Ask(command) => EventView::Store(self.store.reply(command)),
            ActionView::Remember { name: _, user: _ } => EventView::Store(ReplyView::Done),
            ActionView::Fetch { url } => EventView::Fetched(
                if self.files.dom().contains(url) {
                    Some(self.files[url])
                } else {
                    None
                },
            ),
            ActionView::Send { channel } => EventView::Sent(self.reachable.contains(channel)),
        }
    }

    /// The channels sent to, in order, when the engine goes on from
    /// `progress` in this world for at most `fuel` actions.
    pub open spec fn sends(self, progress: ProgressView, fuel: nat) -> Seq<u64>
        decreases fuel,
    {
        match progress {
            ProgressView::Finished(_) => Seq::empty(),
            ProgressView::Continue(relay, action) => if fuel == 0 {
                Seq::empty()
            } else {
                let now = match action {
                    ActionView::Send { channel } => seq![channel],
                    _ => Seq::empty(),
                };
                now + self.sends(relay.step(self.event_for(action)), (fuel - 1) as nat)
            },
        }
    }

    /// Those of `channels` that accept a send, if `taken`, or that do not,
    /// in the order of `channels`.
    pub open spec fn answering(self, channels: Seq<u64>, taken: bool) -> Seq<u64>
        decreases channels.len(),
    {
        if channels.len() == 0 {
            Seq::empty()
        } else {
            let later = self.answering(channels.skip(1), taken);
            if self.reachable.contains(channels[0]) == taken {
                seq![channels[0]] + later
            } else {
                later
            }
        }
    }

    /// Whether every attachment of `refs` from position `from` on can be
    /// fetched.
    pub open spec fn can_fetch(self, refs: Seq<AttachmentRefView>, from: int) -> bool {
        forall|i: int| from <= i < refs.len() ==> self.files.dom().contains(#[trigger] refs[i].url)
    }

    /// The text that goes out with each send, in order, when the engine goes
    /// on from `progress` in this world for at most `fuel` actions.
    pub open spec fn texts(self, progress: ProgressView, fuel: nat) -> Seq<Seq<char>>
        decreases fuel,
    {
        match progress {
            ProgressView::Finished(_) => Seq::empty(),
            ProgressView::Continue(relay, action) => if fuel == 0 {
                Seq::empty()
            } else {
                let now = if action is Send {
                    seq![relay.text]
                } else {
                    Seq::empty()
                };
                now + self.texts(relay.step(self.event_for(action)), (fuel - 1) as nat)
            },
        }
    }

    /// How the relay ends when the engine goes on from `progress` in this
    /// world, if it ends within `fuel` actions.
    pub open spec fn outcome(self, progress: ProgressView, fuel: nat) -> Option<OutcomeView>
        decreases fuel,
    {
        match progress {
            ProgressView::Finished(outcome) => Some(outcome),
            ProgressView::Continue(relay, action) => if fuel == 0 {
                None
            } else {
                self.outcome(relay.step(self.event_for(action)), (fuel - 1) as nat)
            },
        }
    }
}

/// A message from a channel that is not a mirror channel is sent nowhere.
pub proof fn unregistered_origin_sends_nothing(world: World, message: InboundView, fuel: nat)
    requires
        !world.store.channels.contains(message.origin),
    ensures
        world.sends(RelayView::begin(message), fuel) == Seq::<u64>::empty(),
{
    reveal_with_fuel(World::sends, 3);
    assert(world.sends(RelayView::begin(message), fuel) =~= Seq::<u64>::empty());
}

/// A message from a banned author is sent nowhere, mirror channel or not.
pub proof fn banned_author_sends_nothing(world: World, message: InboundView, fuel: nat)
    requires
        world.store.banned.contains(message.author),
    ensures
        world.sends(RelayView::begin(message), fuel) == Seq::<u64>::empty(),
{
    reveal_with_fuel(World::sends, 4);
    assert(world.sends(RelayView::begin(message), fuel) =~= Seq::<u64>::empty());
}

/// A bot's message is sent nowhere.
pub proof fn bot_sends_nothing(world: World, message: InboundView, fuel: nat)
    requires
        message.author_is_bot,
    ensures
        world.sends(RelayView::begin(message), fuel) == Seq::<u64>::empty(),
{
    reveal_with_fuel(World::sends, 2);
}

/// However a relay under way goes on, it never sends to the channel the
/// message came from.
pub proof fn relay_never_sends_to_origin(
    world: World,
    relay: RelayView,
    action: ActionView,
    fuel: nat,
)
    requires
        relay.wf(),
        action matches ActionView::Send { channel } ==> channel != relay.origin,
    ensures
        !world.sends(ProgressView::Continue(relay, action), fuel).contains(relay.origin),
    decreases fuel,
{
    let all = world.sends(ProgressView::Continue(relay, action), fuel);
    if fuel > 0 {
        let event = world.event_for(action);
        let now = match action {
            ActionView::Send { channel } => seq![channel],
            _ => Seq::empty(),
        };
        let later = world.sends(relay.step(event), (fuel - 1) as nat);
        step_keeps_wf(relay, event);
        match relay.step(event) {
            ProgressView::Continue(next, following) => {
                relay_never_sends_to_origin(world, next, following, (fuel - 1) as nat);
            },
            ProgressView::Finished(_) => {},
        }
        assert(all == now + later);
        if all.contains(relay.origin) {
            let i = choose|i: int| 0 <= i < all.len() && all[i] == relay.origin;
            if i < now.len() {
                assert(now[i] == relay.origin);
            } else {
                assert(later[i - now.len()] == relay.origin);
            }
        }
    }
}

/// No message is ever sent back to the channel it came from.
pub proof fn fan_out_excludes_origin(world: World, message: InboundView, fuel: nat)
    ensures
        !world.sends(RelayView::begin(message), fuel).contains(message.origin),
{
    match RelayView::begin(message) {
        ProgressView::Continue(relay, action) => {
            relay_never_sends_to_origin(world, relay, action, fuel);
        },
        ProgressView::Finished(_) => {},
    }
}

/// Once the store has said whether the author is an admin, the outgoing
/// text is the display name, the marker for an admin and none for anyone
/// else, the separator and the content.
pub proof fn admin_reply_sets_text(relay: RelayView, admin: bool)
    requires
        relay.phase is Admin,
    ensures
        relay.step(EventView::Store(ReplyView::Flag(admin))) matches ProgressView::Continue(
            next,
            _,
        ) && next.text == outgoing_text(relay.display_name, admin, relay.content) && (occurs_at(
            next.text,
            admin_marker(),
            relay.display_name.len() as int,
        ) <==> admin),
{
    marker_follows_name_iff_admin(relay.display_name, admin, relay.content);
}

/// Once the outgoing text is set, no later step changes it, nor the
/// attachments fetched once sending has begun.
pub proof fn later_steps_keep_payload(relay: RelayView, event: EventView)
    requires
        relay.phase is Fetching || relay.phase is Listing || relay.phase is Sending,
    ensures
        relay.step(event) matches ProgressView::Continue(next, _) ==> next.text == relay.text && (
        relay.phase is Listing || relay.phase is Sending ==> next.files == relay.files),
{
}

/// From the moment the outgoing text is set, every send carries it.
pub proof fn settled_text_goes_out(world: World, relay: RelayView, action: ActionView, fuel: nat)
    requires
        relay.phase is Fetching || relay.phase is Listing || relay.phase is Sending,
    ensures
        forall|i: int|
            0 <= i < world.texts(ProgressView::Continue(relay, action), fuel).len()
                ==> #[trigger] world.texts(ProgressView::Continue(relay, action), fuel)[i]
                == relay.text,
    decreases fuel,
{
    if fuel > 0 {
        let all = world.texts(ProgressView::Continue(relay, action), fuel);
        let event = world.event_for(action);
        let now: Seq<Seq<char>> = if action is Send {
            seq![relay.text]
        } else {
            Seq::empty()
        };
        let later = world.texts(relay.step(event), (fuel - 1) as nat);
        assert(all == now + later);
        later_steps_keep_payload(relay, event);
        match relay.step(event) {
            ProgressView::Continue(next, following) => {
                settled_text_goes_out(world, next, following, (fuel - 1) as nat);
            },
            ProgressView::Finished(_) => {},
        }
        assert forall|i: int| 0 <= i < all.len() implies #[trigger] all[i] == relay.text by {
            if i >= now.len() {
                assert(all[i] == later[i - now.len()]);
            }
        }
    }
}

/// The texts that go out after an action that is no send are those that go
/// out after what it leads to.
proof fn quiet_action_sends_no_text(world: World, relay: RelayView, action: ActionView, fuel: nat)
    requires
        !(action is Send),
        fuel > 0,
    ensures
        world.texts(ProgressView::Continue(relay, action), fuel) == world.texts(
            relay.step(world.event_for(action)),
            (fuel - 1) as nat,
        ),
{
    let later = world.texts(relay.step(world.event_for(action)), (fuel - 1) as nat);
    assert(Seq::<Seq<char>>::empty() + later =~= later);
}

/// Whatever is sent for a message carries the text made of the author's
/// display name, the admin marker if and only if the store lists the author
/// as an admin, the separator, and the content.
pub proof fn every_send_carries_the_text(world: World, message: InboundView, fuel: nat)
    ensures
        forall|i: int|
            0 <= i < world.texts(RelayView::begin(message), fuel).len() ==> #[trigger] world.texts(
                RelayView::begin(message),
                fuel,
            )[i] == outgoing_text(
                message.display_name,
                world.store.admins.contains(message.author),
                message.content,
            ),
{
    if fuel >= 4 {
        if let ProgressView::Continue(fresh, first) = RelayView::begin(message) {
            quiet_action_sends_no_text(world, fresh, first, fuel);
            if let ProgressView::Continue(checked, second) = fresh.step(world.event_for(first)) {
                quiet_action_sends_no_text(world, checked, second, (fuel - 1) as nat);
                if let ProgressView::Continue(cleared, third) = checked.step(
                    world.event_for(second),
                ) {
                    quiet_action_sends_no_text(world, cleared, third, (fuel - 2) as nat);
                    if let ProgressView::Continue(noted, fourth) = cleared.step(
                        world.event_for(third),
                    ) {
                        quiet_action_sends_no_text(world, noted, fourth, (fuel - 3) as nat);
                        if let ProgressView::Continue(ready, fifth) = noted.step(
                            world.event_for(fourth),
                        ) {
                            settled_text_goes_out(world, ready, fifth, (fuel - 4) as nat);
                        }
                    }
                }
            }
        }
    } else {
        reveal_with_fuel(World::texts, 5);
    }
}

/// A relay that has begun to send tries each remaining destination once, in
/// order, whatever the sends report, and ends by telling which took the
/// message and which did not.
pub proof fn sending_tries_every_destination(world: World, relay: RelayView, fuel: nat)
    requires
        relay.wf(),
        relay.phase is Sending,
        fuel >= relay.destinations.len() - relay.attempted(),
    ensures
        ({
            let k = relay.attempted() as int;
            let rest = relay.destinations.skip(k);
            let progress = ProgressView::Continue(
                relay,
                ActionView::Send { channel: relay.destinations[k] },
            );
            &&& world.sends(progress, fuel) == rest
            &&& world.outcome(progress, fuel) == Some(
                OutcomeView::Relayed {
                    delivered: relay.delivered + world.answering(rest, true),
                    failed: relay.failed + world.answering(rest, false),
                },
            )
        }),
    decreases relay.destinations.len() - relay.attempted(),
{
    let k = relay.attempted() as int;
    let channel = relay.destinations[k];
    let rest = relay.destinations.skip(k);
    let action = ActionView::Send { channel };
    let progress = ProgressView::Continue(relay, action);
    let event = world.event_for(action);
    let ok = world.reachable.contains(channel);
    let after = relay.step(event);
    step_keeps_wf(relay, event);
    assert(rest[0] == channel);
    assert(rest.skip(1) =~= relay.destinations.skip(k + 1));
    assert(world.sends(progress, fuel) == seq![channel] + world.sends(after, (fuel - 1) as nat));
    assert(world.outcome(progress, fuel) == world.outcome(after, (fuel - 1) as nat));
    match after {
        ProgressView::Continue(next, _) => {
            assert(next.attempted() == k + 1);
            sending_tries_every_destination(world, next, (fuel - 1) as nat);
            let later = relay.destinations.skip(k + 1);
            assert(world.sends(after, (fuel - 1) as nat) == later);
            assert(seq![channel] + later =~= rest);
            assert(next.delivered + world.answering(later, true) =~= relay.delivered
                + world.answering(rest, true));
            assert(next.failed + world.answering(later, false) =~= relay.failed
                + world.answering(rest, false));
        },
        ProgressView::Finished(outcome) => {
            let later = relay.destinations.skip(k + 1);
            assert(later =~= Seq::<u64>::empty());
            assert(world.sends(after, (fuel - 1) as nat) =~= Seq::<u64>::empty());
            assert(seq![channel] + Seq::<u64>::empty() =~= rest);
            assert(world.answering(later, true) =~= Seq::<u64>::empty());
            assert(world.answering(later, false) =~= Seq::<u64>::empty());
            assert(outcome == OutcomeView::Relayed {
                delivered: relay.delivered + world.answering(rest, true),
                failed: relay.failed + world.answering(rest, false),
            }) by {
                let told = if ok {
                    relay.delivered.push(channel)
                } else {
                    relay.delivered
                };
                let untold = if ok {
                    relay.failed
                } else {
                    relay.failed.push(channel)
                };
                assert(told =~= relay.delivered + world.answering(rest, true));
                assert(untold =~= relay.failed + world.answering(rest, false));
            }
        },
    }
}

/// What a relay comes to once its text and attachments are ready: a send
/// to each destination of the snapshot, in order.
pub open spec fn fans_out(world: World, progress: ProgressView, origin: u64, fuel: nat) -> bool {
    let destinations = destinations_of(world.snapshot, origin);
    &&& world.sends(progress, fuel) == destinations
    &&& world.outcome(progress, fuel) == Some(
        OutcomeView::Relayed {
            delivered: world.answering(destinations, true),
            failed: world.answering(destinations, false),
        },
    )
}

/// A relay that asks for the channel set goes on to send to each of its
/// destinations.
pub proof fn listing_leads_to_fan_out(world: World, relay: RelayView, fuel: nat)
    requires
        relay.wf(),
        relay.phase is Listing,
        fuel >= destinations_of(world.snapshot, relay.origin).len() + 1,
    ensures
        fans_out(
            world,
            ProgressView::Continue(
                relay,
                ActionView::Ask(Command::Scan { set: SetName::Channels }),
            ),
            relay.origin,
            fuel,
        ),
{
    let destinations = destinations_of(world.snapshot, relay.origin);
    let action = ActionView::Ask(Command::Scan { set: SetName::Channels });
    let progress = ProgressView::Continue(relay, action);
    let event = world.event_for(action);
    let after = relay.step(event);
    step_keeps_wf(relay, event);
    assert(relay.delivered =~= Seq::<u64>::empty() && relay.failed =~= Seq::<u64>::empty());
    assert(world.sends(progress, fuel) == Seq::<u64>::empty() + world.sends(
        after,
        (fuel - 1) as nat,
    ));
    assert(world.outcome(progress, fuel) == world.outcome(after, (fuel - 1) as nat));
    match after {
        ProgressView::Continue(next, _) => {
            sending_tries_every_destination(world, next, (fuel - 1) as nat);
            assert(destinations.skip(0) =~= destinations);
            assert(Seq::<u64>::empty() + destinations =~= destinations);
            assert(next.delivered + world.answering(destinations, true) =~= world.answering(
                destinations,
                true,
            ));
            assert(next.failed + world.answering(destinations, false) =~= world.answering(
                destinations,
                false,
            ));
        },
        ProgressView::Finished(_) => {
            assert(destinations =~= Seq::<u64>::empty());
            assert(world.sends(after, (fuel - 1) as nat) =~= Seq::<u64>::empty());
            assert(Seq::<u64>::empty() + Seq::<u64>::empty() =~= destinations);
        },
    }
}

/// A relay whose remaining attachments can all be fetched fetches them and
/// goes on to send to each of its destinations.
pub proof fn fetching_leads_to_fan_out(world: World, relay: RelayView, fuel: nat)
    requires
        relay.wf(),
        relay.phase is Fetching,
        world.can_fetch(relay.refs, relay.files.len() as int),
        fuel >= (relay.refs.len() - relay.files.len()) + destinations_of(
            world.snapshot,
            relay.origin,
        ).len() + 1,
    ensures
        fans_out(
            world,
            ProgressView::Continue(
                relay,
                ActionView::Fetch { url: relay.refs[relay.files.len() as int].url },
            ),
            relay.origin,
            fuel,
        ),
    decreases relay.refs.len() - relay.files.len(),
{
    let action = ActionView::Fetch { url: relay.refs[relay.files.len() as int].url };
    let progress = ProgressView::Continue(relay, action);
    let event = world.event_for(action);
    let after = relay.step(event);
    step_keeps_wf(relay, event);
    assert(world.sends(progress, fuel) == Seq::<u64>::empty() + world.sends(
        after,
        (fuel - 1) as nat,
    ));
    assert(world.outcome(progress, fuel) == world.outcome(after, (fuel - 1) as nat));
    match after {
        ProgressView::Continue(next, _) => {
            if next.phase is Fetching {
                fetching_leads_to_fan_out(world, next, (fuel - 1) as nat);
            } else {
                listing_leads_to_fan_out(world, next, (fuel - 1) as nat);
            }
            assert(Seq::<u64>::empty() + world.sends(after, (fuel - 1) as nat) =~= world.sends(
                after,
                (fuel - 1) as nat,
            ));
        },
        ProgressView::Finished(_) => {},
    }
}

/// A message of a user who is not banned, from a mirror channel, with
/// attachments that can all be fetched, is sent to every other channel of
/// the snapshot, once each and in order, however the single sends fare;
/// the outcome tells which channels took it and which did not. If the
/// snapshot shows the channel set, the channels sent to are the mirror
/// channels but the origin.
pub proof fn relay_reaches_every_other_channel(world: World, message: InboundView, fuel: nat)
    requires
        !message.author_is_bot,
        world.store.channels.contains(message.origin),
        !world.store.banned.contains(message.author),
        world.can_fetch(message.attachments, 0),
        fuel >= message.attachments.len() + destinations_of(
            world.snapshot,
            message.origin,
        ).len() + 5,
    ensures
        fans_out(world, RelayView::begin(message), message.origin, fuel),
        world.sends(RelayView::begin(message), fuel).no_duplicates(),
        world.snapshot.to_set() == world.store.channels ==> forall|channel: u64|
            world.sends(RelayView::begin(message), fuel).contains(channel) <==> (
            world.store.channels.contains(channel) && channel != message.origin),
{
    reveal_with_fuel(World::sends, 5);
    reveal_with_fuel(World::outcome, 5);
    let fresh = RelayView::fresh(message);
    let noted = RelayView { phase: Phase::Admin, ..fresh };
    let admin = world.store.admins.contains(message.author);
    let ready = noted.step(EventView::Store(ReplyView::Flag(admin)));
    step_keeps_wf(noted, EventView::Store(ReplyView::Flag(admin)));
    match ready {
        ProgressView::Continue(next, _) => {
            if next.phase is Fetching {
                fetching_leads_to_fan_out(world, next, (fuel - 4) as nat);
            } else {
                listing_leads_to_fan_out(world, next, (fuel - 4) as nat);
            }
            assert(world.sends(RelayView::begin(message), fuel) =~= world.sends(
                ready,
                (fuel - 4) as nat,
            ));
            assert(world.outcome(RelayView::begin(message), fuel) == world.outcome(
                ready,
                (fuel - 4) as nat,
            ));
        },
        ProgressView::Finished(_) => {},
    }
    destinations_exclude_origin(world.snapshot, message.origin);
    if world.snapshot.to_set() == world.store.channels {
        assert forall|channel: u64|
            world.snapshot.contains(channel) <==> world.store.channels.contains(channel) by {
            assert(world.snapshot.to_set().contains(channel) <==> world.snapshot.contains(
                channel,
            ));
        }
    }
}

} // verus!
