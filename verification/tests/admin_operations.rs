use reflect::admin;
use reflect::admin::{
    Ban, BanOutcome, DisableMirror, DisableOutcome, EnableMirror, EnableOutcome, Step, Unban,
    UnbanOutcome,
};
use reflect::store::{Command, Reply, SetName};
use std::collections::{BTreeMap, BTreeSet};

/// A store in memory. `refuse` makes one command fail.
#[derive(Clone, Debug, PartialEq)]
struct Store {
    channels: BTreeSet<u64>,
    banned: BTreeSet<u64>,
    admins: BTreeSet<u64>,
    mirrors: BTreeMap<u64, u64>,
    refuse: Option<Command>,
    log: Vec<Command>,
}

fn empty() -> Store {
    Store {
        channels: BTreeSet::new(),
        banned: BTreeSet::new(),
        admins: BTreeSet::new(),
        mirrors: BTreeMap::new(),
        refuse: None,
        log: Vec::new(),
    }
}

fn set<'a>(store: &'a mut Store, name: SetName) -> &'a mut BTreeSet<u64> {
    match name {
        SetName::Channels => &mut store.channels,
        SetName::Banned => &mut store.banned,
        SetName::Admins => &mut store.admins,
    }
}

fn execute(store: &mut Store, command: Command) -> Reply {
    store.log.push(command);
    if store.refuse == Some(command) {
        return Reply::Unavailable;
    }
    match command {
        Command::IsMember { set: name, member } => Reply::Flag(set(store, name).contains(&member)),
        Command::Add { set: name, member } => {
            set(store, name).insert(member);
            Reply::Done
        }
        Command::Remove { set: name, member } => {
            set(store, name).remove(&member);
            Reply::Done
        }
        Command::Scan { set: name } => Reply::Members(set(store, name).iter().copied().collect()),
        Command::GetMirror { community } => Reply::Mirror(store.mirrors.get(&community).copied()),
        Command::SetMirror { community, channel } => {
            store.mirrors.insert(community, channel);
            Reply::Done
        }
        Command::Unlink { community } => {
            store.mirrors.remove(&community);
            Reply::Done
        }
    }
}

fn enable(store: &mut Store, community: u64, channel: u64) -> EnableOutcome {
    let (mut machine, mut command) = admin::enable(community, channel);
    loop {
        let reply = execute(store, command);
        match machine.next(&reply) {
            Step::Ask(m, c) => {
                machine = m;
                command = c;
            }
            Step::Finish(outcome) => return outcome,
        }
    }
}

fn disable(store: &mut Store, community: u64) -> DisableOutcome {
    let (mut machine, mut command) = admin::disable(community);
    loop {
        let reply = execute(store, command);
        match machine.next(&reply) {
            Step::Ask(m, c) => {
                machine = m;
                command = c;
            }
            Step::Finish(outcome) => return outcome,
        }
    }
}

fn ban(store: &mut Store, user: u64) -> BanOutcome {
    let (mut machine, mut command) = admin::ban(user);
    loop {
        let reply = execute(store, command);
        match machine.next(&reply) {
            Step::Ask(m, c) => {
                machine = m;
                command = c;
            }
            Step::Finish(outcome) => return outcome,
        }
    }
}

fn unban(store: &mut Store, user: u64) -> UnbanOutcome {
    let (machine, command) = admin::unban(user);
    let reply = execute(store, command);
    match machine.next(&reply) {
        Step::Ask(_, _) => panic!("unbanning takes one request"),
        Step::Finish(outcome) => outcome,
    }
}

#[test]
fn enable_registers_the_channel() {
    let mut store = empty();
    let outcome = enable(&mut store, 1, 100);
    assert_eq!(outcome, EnableOutcome::Enabled { channel: 100, replaced: None });
    assert_eq!(store.mirrors.get(&1), Some(&100));
    assert!(store.channels.contains(&100));
    assert_eq!(
        store.log,
        vec![
            Command::GetMirror { community: 1 },
            Command::SetMirror { community: 1, channel: 100 },
            Command::Add { set: SetName::Channels, member: 100 },
        ]
    );
}

#[test]
fn enable_replaces_the_former_channel() {
    let mut store = empty();
    enable(&mut store, 1, 100);
    store.log.clear();
    let outcome = enable(&mut store, 1, 150);
    assert_eq!(outcome, EnableOutcome::Enabled { channel: 150, replaced: Some(100) });
    assert_eq!(store.mirrors.get(&1), Some(&150));
    assert!(store.channels.contains(&150));
    assert!(!store.channels.contains(&100));
    assert_eq!(
        store.log,
        vec![
            Command::GetMirror { community: 1 },
            Command::Remove { set: SetName::Channels, member: 100 },
            Command::SetMirror { community: 1, channel: 150 },
            Command::Add { set: SetName::Channels, member: 150 },
        ]
    );
}

#[test]
fn enable_again_keeps_the_channel() {
    let mut store = empty();
    enable(&mut store, 1, 100);
    let before = (store.channels.clone(), store.mirrors.clone());
    store.log.clear();
    let outcome = enable(&mut store, 1, 100);
    assert_eq!(outcome, EnableOutcome::Enabled { channel: 100, replaced: None });
    assert_eq!((store.channels.clone(), store.mirrors.clone()), before);
    assert!(!store.log.contains(&Command::Remove { set: SetName::Channels, member: 100 }));
}

#[test]
fn enable_stops_when_the_removal_fails() {
    let mut store = empty();
    enable(&mut store, 1, 100);
    store.refuse = Some(Command::Remove { set: SetName::Channels, member: 100 });
    store.log.clear();
    let outcome = enable(&mut store, 1, 150);
    assert_eq!(outcome, EnableOutcome::RemovalFailed);
    assert_eq!(store.log.len(), 2);
    assert_eq!(store.mirrors.get(&1), Some(&100));
    assert!(!store.channels.contains(&150));
}

#[test]
fn enable_reports_each_failing_step() {
    let mut store = empty();
    store.refuse = Some(Command::GetMirror { community: 1 });
    assert_eq!(enable(&mut store, 1, 100), EnableOutcome::LookupFailed);
    store.refuse = Some(Command::SetMirror { community: 1, channel: 100 });
    assert_eq!(enable(&mut store, 1, 100), EnableOutcome::MappingFailed);
    store.refuse = Some(Command::Add { set: SetName::Channels, member: 100 });
    assert_eq!(enable(&mut store, 1, 100), EnableOutcome::RegistrationFailed);
}

#[test]
fn disable_after_enable_clears_everything() {
    let mut store = empty();
    enable(&mut store, 1, 100);
    let outcome = disable(&mut store, 1);
    assert_eq!(outcome, DisableOutcome::Disabled { channel: 100 });
    assert_eq!(store.mirrors.get(&1), None);
    assert!(!store.channels.contains(&100));
}

#[test]
fn disable_without_a_mirror_is_no_error() {
    let mut store = empty();
    let outcome = disable(&mut store, 1);
    assert_eq!(outcome, DisableOutcome::NothingToDisable);
    assert_eq!(store.log, vec![Command::GetMirror { community: 1 }]);
}

#[test]
fn disable_reports_each_failing_step() {
    let mut store = empty();
    enable(&mut store, 1, 100);
    store.refuse = Some(Command::GetMirror { community: 1 });
    assert_eq!(disable(&mut store, 1), DisableOutcome::LookupFailed);
    store.refuse = Some(Command::Remove { set: SetName::Channels, member: 100 });
    assert_eq!(disable(&mut store, 1), DisableOutcome::RemovalFailed);
    store.refuse = Some(Command::Unlink { community: 1 });
    assert_eq!(disable(&mut store, 1), DisableOutcome::UnlinkFailed);
}

#[test]
fn ban_of_an_admin_is_refused() {
    let mut store = empty();
    store.admins.insert(9);
    let before = store.banned.clone();
    assert_eq!(ban(&mut store, 9), BanOutcome::RefusedAdmin);
    assert_eq!(store.banned, before);
}

#[test]
fn ban_then_unban_round_trips() {
    let mut store = empty();
    store.banned.insert(3);
    let before = store.banned.clone();
    assert_eq!(ban(&mut store, 7), BanOutcome::Banned { user: 7 });
    assert!(store.banned.contains(&7));
    assert_eq!(unban(&mut store, 7), UnbanOutcome::Unbanned { user: 7 });
    assert_eq!(store.banned, before);
}

#[test]
fn unban_of_a_stranger_succeeds() {
    let mut store = empty();
    assert_eq!(unban(&mut store, 7), UnbanOutcome::Unbanned { user: 7 });
    assert!(store.banned.is_empty());
}

#[test]
fn ban_reports_store_failures() {
    let mut store = empty();
    store.refuse = Some(Command::IsMember { set: SetName::Admins, member: 7 });
    assert_eq!(ban(&mut store, 7), BanOutcome::AdminCheckFailed);
    store.refuse = Some(Command::Add { set: SetName::Banned, member: 7 });
    assert_eq!(ban(&mut store, 7), BanOutcome::StoreFailed);
    store.refuse = Some(Command::Remove { set: SetName::Banned, member: 7 });
    assert_eq!(unban(&mut store, 7), UnbanOutcome::StoreFailed);
}

#[test]
fn outcome_messages_name_what_happened() {
    assert_eq!(
        EnableOutcome::Enabled { channel: 100, replaced: None }.message(),
        "Finished. Try talking in <#100> and see if anyone replies!"
    );
    assert_eq!(
        EnableOutcome::LookupFailed.message(),
        "**Error:** Unable to check for an existing mirror channel!"
    );
    assert_eq!(
        DisableOutcome::Disabled { channel: 18446744073709551615 }.message(),
        "Disabled your server's mirror channel at <#18446744073709551615>"
    );
    assert_eq!(
        DisableOutcome::NothingToDisable.message(),
        "Your server has no mirror channel to disable"
    );
    assert_eq!(
        BanOutcome::Banned { user: 0 }.message(),
        "Successfully banned `0` from the global mirror channel!"
    );
    assert_eq!(BanOutcome::RefusedAdmin.message(), "**Error:** You cannot ban an admin!");
    assert_eq!(
        UnbanOutcome::Unbanned { user: 1234567890 }.message(),
        "Successfully unbanned `1234567890` from the global mirror channel!"
    );
    assert_eq!(
        UnbanOutcome::StoreFailed.message(),
        "**Error:** Unable to remove the user from the banned users' list!"
    );
}

#[test]
fn setting_and_clearing_the_mirror_channel() {
    let mut store = empty();
    let (mut machine, mut command) = reflect::registry::set_mirror_channel(1, 100);
    let outcome = loop {
        let reply = execute(&mut store, command);
        match machine.next(&reply) {
            Step::Ask(m, c) => {
                machine = m;
                command = c;
            }
            Step::Finish(outcome) => break outcome,
        }
    };
    assert_eq!(outcome, EnableOutcome::Enabled { channel: 100, replaced: None });
    assert_eq!(store.mirrors.get(&1), Some(&100));
    assert!(store.channels.contains(&100));

    let (mut machine, mut command) = reflect::registry::clear_mirror_channel(1);
    let outcome = loop {
        let reply = execute(&mut store, command);
        match machine.next(&reply) {
            Step::Ask(m, c) => {
                machine = m;
                command = c;
            }
            Step::Finish(outcome) => break outcome,
        }
    };
    assert_eq!(outcome, DisableOutcome::Disabled { channel: 100 });
    assert!(store.mirrors.is_empty());
    assert!(store.channels.is_empty());
}

#[test]
fn failure_messages_name_the_step() {
    assert_eq!(
        EnableOutcome::RemovalFailed.message(),
        "**Error:** Unable to remove the existing mirror channel from the channels set!"
    );
    assert_eq!(
        EnableOutcome::MappingFailed.message(),
        "**Error:** Unable to update the channel id in the guild hash!"
    );
    assert_eq!(
        EnableOutcome::RegistrationFailed.message(),
        "**Error:** Unable to update the channel id in the channel set!"
    );
    assert_eq!(
        DisableOutcome::LookupFailed.message(),
        "**Error:** Unable to check for an existing mirror channel!"
    );
    assert_eq!(
        DisableOutcome::RemovalFailed.message(),
        "**Error:** Unable to remove the channel id from the channels set!"
    );
    assert_eq!(
        DisableOutcome::UnlinkFailed.message(),
        "**Error:** Unable to remove the channel id from the guild hash!"
    );
    assert_eq!(
        BanOutcome::AdminCheckFailed.message(),
        "**Error:** Unable to check if the user is an admin!"
    );
    assert_eq!(
        BanOutcome::StoreFailed.message(),
        "**Error:** Unable to add the user to the banned users' list!"
    );
}

#[test]
fn enabling_again_heals_an_interrupted_attempt() {
    let mut direct = empty();
    enable(&mut direct, 1, 100);
    enable(&mut direct, 1, 150);

    let cuts = [
        Command::Remove { set: SetName::Channels, member: 100 },
        Command::SetMirror { community: 1, channel: 150 },
        Command::Add { set: SetName::Channels, member: 150 },
    ];
    for cut in cuts {
        let mut store = empty();
        enable(&mut store, 1, 100);
        store.refuse = Some(cut);
        assert!(!matches!(enable(&mut store, 1, 150), EnableOutcome::Enabled { .. }));
        store.refuse = None;
        assert!(matches!(enable(&mut store, 1, 150), EnableOutcome::Enabled { .. }));
        assert_eq!(store.channels, direct.channels, "{:?}", cut);
        assert_eq!(store.mirrors, direct.mirrors, "{:?}", cut);
    }
}
