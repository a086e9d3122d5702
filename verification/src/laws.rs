//! What holds of the registry when the administration operations run
//! against a store that answers faithfully.

use vstd::prelude::*;
use crate::admin::Ban;
use crate::admin::BanOutcome;
use crate::admin::DisableMirror;
use crate::admin::DisableOutcome;
use crate::admin::EnableMirror;
use crate::admin::EnableOutcome;
use crate::admin::Unban;
use crate::admin::UnbanOutcome;
use crate::store::Command;
use crate::store::SetName;
use crate::store::StoreModel;

verus! {

/// The store and outcome after enabling `channel` for `community`.
pub open spec fn enabled(store: StoreModel, community: u64, channel: u64) -> (
    StoreModel,
    Option<EnableOutcome>,
) {
    (EnableMirror::Lookup { community, channel }).run(Command::GetMirror { community }, store, 4)
}

/// The store and outcome after disabling the mirror channel of `community`.
pub open spec fn disabled(store: StoreModel, community: u64) -> (
    StoreModel,
    Option<DisableOutcome>,
) {
    (DisableMirror::Lookup { community }).run(Command::GetMirror { community }, store, 3)
}

/// The store and outcome after banning `user`.
pub open spec fn banned(store: StoreModel, user: u64) -> (StoreModel, Option<BanOutcome>) {
    (Ban::CheckingAdmin { user }).run(
        Command::IsMember { set: SetName::Admins, member: user },
        store,
        2,
    )
}

/// The store and outcome after unbanning `user`.
pub open spec fn unbanned(store: StoreModel, user: u64) -> (StoreModel, Option<UnbanOutcome>) {
    (Unban::Removing { user }).run(
        Command::Remove { set: SetName::Banned, member: user },
        store,
        1,
    )
}

/// Enabling a channel for a community succeeds; afterwards the community
/// maps to that channel, the channel is registered, and a different channel
/// the community had before is no longer registered.
pub proof fn enable_registers_channel(store: StoreModel, community: u64, channel: u64)
    ensures
        enabled(store, community, channel).1 matches Some(EnableOutcome::Enabled {
            channel: c,
            replaced,
        }) && c == channel && (replaced matches Some(former) ==> former != channel
            && store.mirror_of(community) == Some(former)),
        enabled(store, community, channel).0.mirror_of(community) == Some(channel),
        enabled(store, community, channel).0.channels.contains(channel),
        forall|former: u64|
            store.mirror_of(community) == Some(former) && former != channel ==> !enabled(
                store,
                community,
                channel,
            ).0.channels.contains(former),
        enabled(store, community, channel).0.banned == store.banned,
        enabled(store, community, channel).0.admins == store.admins,
{
    reveal_with_fuel(EnableMirror::run, 5);
}

/// Enabling keeps the registry consistent, provided the channel is not
/// already the mirror channel of another community.
pub proof fn enable_keeps_consistency(store: StoreModel, community: u64, channel: u64)
    requires
        store.consistent(),
        forall|other: u64| store.mirror_of(other) == Some(channel) ==> other == community,
    ensures
        enabled(store, community, channel).0.consistent(),
{
    reveal_with_fuel(EnableMirror::run, 5);
    let after = enabled(store, community, channel).0;
    assert(after.mirror_of(community) == Some(channel));
    assert forall|c: u64| after.channels.contains(c) implies exists|k: u64| #[trigger]
        after.mirror_of(k) == Some(c) by {
        if c != channel {
            assert(store.channels.contains(c));
            let k = choose|k: u64| #[trigger] store.mirror_of(k) == Some(c);
            assert(k != community);
            assert(after.mirror_of(k) == Some(c));
        }
    }
    assert forall|c: u64| (exists|k: u64| #[trigger] after.mirror_of(k) == Some(c))
        implies after.channels.contains(c) by {
        let k = choose|k: u64| #[trigger] after.mirror_of(k) == Some(c);
        if k != community {
            assert(store.mirror_of(k) == Some(c));
            assert(store.channels.contains(c));
            assert(c != channel);
            if store.mirror_of(community) == Some(c) {
                assert(store.mirrors[k] == store.mirrors[community]);
            }
        }
    }
    assert forall|a: u64, b: u64|
        after.mirrors.dom().contains(a) && after.mirrors.dom().contains(b) && after.mirrors[a]
            == after.mirrors[b] implies a == b by {
        if a != b {
            if a == community {
                assert(store.mirror_of(b) == Some(channel));
            } else if b == community {
                assert(store.mirror_of(a) == Some(channel));
            }
        }
    }
}

/// Disabling right after enabling leaves the community without a mirror
/// channel and the channel unregistered.
pub proof fn disable_undoes_enable(store: StoreModel, community: u64, channel: u64)
    ensures
        ({
            let between = enabled(store, community, channel).0;
            let after = disabled(between, community);
            &&& after.1 == Some(DisableOutcome::Disabled { channel })
            &&& after.0.mirror_of(community) is None
            &&& !after.0.channels.contains(channel)
        }),
{
    reveal_with_fuel(EnableMirror::run, 5);
    reveal_with_fuel(DisableMirror::run, 4);
}

/// Disabling a community that has no mirror channel changes nothing.
pub proof fn disable_without_mirror(store: StoreModel, community: u64)
    requires
        store.mirror_of(community) is None,
    ensures
        disabled(store, community) == (store, Some(DisableOutcome::NothingToDisable)),
{
    reveal_with_fuel(DisableMirror::run, 4);
}

/// Disabling keeps the registry consistent.
pub proof fn disable_keeps_consistency(store: StoreModel, community: u64)
    requires
        store.consistent(),
    ensures
        disabled(store, community).0.consistent(),
        disabled(store, community).0.mirror_of(community) is None,
{
    reveal_with_fuel(DisableMirror::run, 4);
    let after = disabled(store, community).0;
    if let Some(channel) = store.mirror_of(community) {
        assert forall|c: u64| after.channels.contains(c) implies exists|k: u64| #[trigger]
            after.mirror_of(k) == Some(c) by {
            let k = choose|k: u64| #[trigger] store.mirror_of(k) == Some(c);
            assert(after.mirror_of(k) == Some(c));
        }
        assert forall|c: u64| (exists|k: u64| #[trigger] after.mirror_of(k) == Some(c))
            implies after.channels.contains(c) by {
            let k = choose|k: u64| #[trigger] after.mirror_of(k) == Some(c);
            assert(store.mirror_of(k) == Some(c));
            if c == channel {
                assert(store.mirrors[k] == store.mirrors[community]);
            }
        }
    }
}

/// Setting a community's mirror channel writes the mapping and registers
/// the channel, and changes nothing else.
pub proof fn set_mirror_channel_upserts(store: StoreModel, community: u64, channel: u64)
    ensures
        (EnableMirror::Mapping { community, channel, replaced: None }).run(
            Command::SetMirror { community, channel },
            store,
            2,
        ) == (
            StoreModel {
                mirrors: store.mirrors.insert(community, channel),
                channels: store.channels.insert(channel),
                ..store
            },
            Some(EnableOutcome::Enabled { channel, replaced: None }),
        ),
{
    reveal_with_fuel(EnableMirror::run, 3);
}

/// Clearing a community's mirror channel deletes the mapping and takes its
/// channel out of the channel set, and changes nothing else.
pub proof fn clear_mirror_channel_removes(store: StoreModel, community: u64, channel: u64)
    requires
        store.mirror_of(community) == Some(channel),
    ensures
        disabled(store, community) == (
            StoreModel {
                mirrors: store.mirrors.remove(community),
                channels: store.channels.remove(channel),
                ..store
            },
            Some(DisableOutcome::Disabled { channel }),
        ),
{
    reveal_with_fuel(DisableMirror::run, 4);
}

/// Enabling that was cut short after any number of requests is healed by
/// enabling again: the store ends as if the first attempt had gone through.
pub proof fn enable_converges_after_interruption(
    store: StoreModel,
    community: u64,
    channel: u64,
    done: nat,
)
    ensures
        enabled(
            (EnableMirror::Lookup { community, channel }).run(
                Command::GetMirror { community },
                store,
                done,
            ).0,
            community,
            channel,
        ).0 == enabled(store, community, channel).0,
{
    reveal_with_fuel(EnableMirror::run, 5);
    let cut = (EnableMirror::Lookup { community, channel }).run(
        Command::GetMirror { community },
        store,
        done,
    ).0;
    let healed = enabled(cut, community, channel).0;
    let whole = enabled(store, community, channel).0;
    assert(healed.channels =~= whole.channels);
    assert(healed.mirrors =~= whole.mirrors);
}

/// Disabling that was cut short after any number of requests is healed by
/// disabling again.
pub proof fn disable_converges_after_interruption(store: StoreModel, community: u64, done: nat)
    ensures
        disabled(
            (DisableMirror::Lookup { community }).run(
                Command::GetMirror { community },
                store,
                done,
            ).0,
            community,
        ).0 == disabled(store, community).0,
{
    reveal_with_fuel(DisableMirror::run, 4);
    let cut = (DisableMirror::Lookup { community }).run(
        Command::GetMirror { community },
        store,
        done,
    ).0;
    let healed = disabled(cut, community).0;
    let whole = disabled(store, community).0;
    assert(healed.channels =~= whole.channels);
    assert(healed.mirrors =~= whole.mirrors);
}

/// An admin cannot be banned: the attempt is refused and the store stays as
/// it was.
pub proof fn ban_refuses_admin(store: StoreModel, user: u64)
    requires
        store.admins.contains(user),
    ensures
        banned(store, user) == (store, Some(BanOutcome::RefusedAdmin)),
{
    reveal_with_fuel(Ban::run, 3);
}

/// Banning anyone else puts them into the ban set and touches nothing else.
pub proof fn ban_adds_user(store: StoreModel, user: u64)
    requires
        !store.admins.contains(user),
    ensures
        banned(store, user).1 == Some(BanOutcome::Banned { user }),
        banned(store, user).0 == (StoreModel { banned: store.banned.insert(user), ..store }),
{
    reveal_with_fuel(Ban::run, 3);
}

/// Unbanning takes the user out of the ban set and always succeeds, banned
/// or not.
pub proof fn unban_removes_user(store: StoreModel, user: u64)
    ensures
        unbanned(store, user).1 == Some(UnbanOutcome::Unbanned { user }),
        unbanned(store, user).0 == (StoreModel { banned: store.banned.remove(user), ..store }),
{
    reveal_with_fuel(Unban::run, 2);
}

/// Banning a user who was not banned and then unbanning them gives back
/// the store as it was, whether the ban went through or was refused.
pub proof fn ban_then_unban_restores(store: StoreModel, user: u64)
    requires
        !store.banned.contains(user),
    ensures
        unbanned(banned(store, user).0, user).0 == store,
{
    reveal_with_fuel(Ban::run, 3);
    reveal_with_fuel(Unban::run, 2);
    assert(store.banned.insert(user).remove(user) =~= store.banned);
    assert(store.banned.remove(user) =~= store.banned);
}

} // verus!
