//! Choosing the channels a message fans out to.

use vstd::prelude::*;

verus! {

/// The channels a message from `origin` goes to, given a snapshot of the
/// channel set: every channel of the snapshot but the origin, once each, in
/// the order in which the snapshot first names it.
pub open spec fn destinations_of(snapshot: Seq<u64>, origin: u64) -> Seq<u64>
    decreases snapshot.len(),
{
    if snapshot.len() == 0 {
        Seq::empty()
    } else {
        let before = destinations_of(snapshot.drop_last(), origin);
        let channel = snapshot.last();
        if channel == origin || before.contains(channel) {
            before
        } else {
            before.push(channel)
        }
    }
}

/// The destinations never hold the origin, hold no channel twice, and hold
/// exactly the other channels of the snapshot.
pub proof fn destinations_exclude_origin(snapshot: Seq<u64>, origin: u64)
    ensures
        !destinations_of(snapshot, origin).contains(origin),
        destinations_of(snapshot, origin).no_duplicates(),
        forall|channel: u64|
            destinations_of(snapshot, origin).contains(channel) <==> (snapshot.contains(channel)
                && channel != origin),
    decreases snapshot.len(),
{
    let all = destinations_of(snapshot, origin);
    if snapshot.len() > 0 {
        let front = snapshot.drop_last();
        let before = destinations_of(front, origin);
        let last = snapshot.last();
        destinations_exclude_origin(front, origin);
        assert forall|channel: u64| all.contains(channel) <==> (snapshot.contains(channel)
            && channel != origin) by {
            if snapshot.contains(channel) {
                let i = choose|i: int| 0 <= i < snapshot.len() && snapshot[i] == channel;
                if i < front.len() {
                    assert(front[i] == channel);
                }
            }
            if front.contains(channel) {
                let i = choose|i: int| 0 <= i < front.len() && front[i] == channel;
                assert(snapshot[i] == channel);
            }
            if before.contains(channel) {
                let i = choose|i: int| 0 <= i < before.len() && before[i] == channel;
                if all.len() > before.len() {
                    assert(all[i] == channel);
                }
            }
            if all.contains(channel) && all.len() > before.len() {
                let i = choose|i: int| 0 <= i < all.len() && all[i] == channel;
                if i < before.len() {
                    assert(before[i] == channel);
                } else {
                    assert(snapshot[snapshot.len() - 1] == channel);
                }
            } else if channel == last && channel != origin && all.len() > before.len() {
                assert(all[before.len() as int] == channel);
            }
        }
    }
}

/// Whether `channel` is among `channels`.
pub fn holds(channels: &Vec<u64>, channel: u64) -> (found: bool)
    ensures
        found == channels@.contains(channel),
{
    let mut i: usize = 0;
    while i < channels.len()
        invariant
            i <= channels.len(),
            forall|k: int| 0 <= k < i ==> channels@[k] != channel,
        decreases channels.len() - i,
    {
        if channels[i] == channel {
            return true;
        }
        i += 1;
    }
    false
}

/// Computes the channels a message from `origin` fans out to.
pub fn plan_destinations(snapshot: &Vec<u64>, origin: u64) -> (destinations: Vec<u64>)
    ensures
        destinations@ == destinations_of(snapshot@, origin),
        !destinations@.contains(origin),
        destinations@.no_duplicates(),
{
    let mut destinations: Vec<u64> = Vec::new();
    let mut i: usize = 0;
    while i < snapshot.len()
        invariant
            i <= snapshot.len(),
            destinations@ == destinations_of(snapshot@.take(i as int), origin),
        decreases snapshot.len() - i,
    {
        let channel = snapshot[i];
        proof {
            let upto = snapshot@.take(i + 1);
            assert(upto.drop_last() =~= snapshot@.take(i as int));
            assert(upto.last() == channel);
        }
        if channel != origin && !holds(&destinations, channel) {
            destinations.push(channel);
        }
        i += 1;
    }
    proof {
        assert(snapshot@.take(i as int) =~= snapshot@);
        destinations_exclude_origin(snapshot@, origin);
    }
    destinations
}

} // verus!
