use reflect::relay::{
    Abort, Action, AttachmentRef, Discard, Event, Inbound, Outcome, Progress, Relay,
};
use reflect::store::{Command, Reply, SetName};
use std::collections::BTreeMap;

/// A stand-in for the store and the gateway, with a record of every send.
struct World {
    channels: Vec<u64>,
    banned: Vec<u64>,
    admins: Vec<u64>,
    store_down: bool,
    refuse: Option<Command>,
    files: BTreeMap<String, Vec<u8>>,
    unreachable: Vec<u64>,
    sent: Vec<(u64, String, Vec<(String, Vec<u8>)>)>,
    asked: Vec<Command>,
    remembered: Vec<(String, u64)>,
}

fn world(channels: &[u64]) -> World {
    World {
        channels: channels.to_vec(),
        banned: Vec::new(),
        admins: Vec::new(),
        store_down: false,
        refuse: None,
        files: BTreeMap::new(),
        unreachable: Vec::new(),
        sent: Vec::new(),
        asked: Vec::new(),
        remembered: Vec::new(),
    }
}

fn answer(world: &mut World, command: Command) -> Reply {
    world.asked.push(command);
    if world.store_down || world.refuse == Some(command) {
        return Reply::Unavailable;
    }
    match command {
        Command::IsMember { set, member } => Reply::Flag(match set {
            SetName::Channels => world.channels.contains(&member),
            SetName::Banned => world.banned.contains(&member),
            SetName::Admins => world.admins.contains(&member),
        }),
        Command::Scan { set: SetName::Channels } => Reply::Members(world.channels.clone()),
        _ => panic!("the relay engine only reads"),
    }
}

fn run(world: &mut World, message: Inbound) -> Outcome {
    let mut progress = Relay::start(message);
    loop {
        let (relay, action) = match progress {
            Progress::Finished(outcome) => return outcome,
            Progress::Continue(relay, action) => (relay, action),
        };
        let event = match action {
            Action::Ask(command) => Event::Store(answer(world, command)),
            Action::Remember { name, user } => {
                world.remembered.push((name, user));
                Event::Store(Reply::Done)
            }
            Action::Fetch { url } => Event::Fetched(world.files.get(&url).cloned()),
            Action::Send { channel } => {
                let files = relay
                    .files()
                    .iter()
                    .map(|f| (f.filename.clone(), f.data.clone()))
                    .collect();
                world.sent.push((channel, relay.text().to_string(), files));
                Event::Sent(!world.unreachable.contains(&channel))
            }
        };
        progress = relay.advance(event);
    }
}

fn hello(author: u64, origin: u64) -> Inbound {
    Inbound {
        author,
        author_is_bot: false,
        display_name: String::from("ferris"),
        origin,
        community: 1,
        content: String::from("hello"),
        attachments: Vec::new(),
    }
}

fn targets(world: &World) -> Vec<u64> {
    world.sent.iter().map(|s| s.0).collect()
}

#[test]
fn message_reaches_the_other_mirror_channel() {
    let mut w = world(&[100, 200]);
    let outcome = run(&mut w, hello(7, 100));
    assert_eq!(w.sent.len(), 1);
    assert_eq!(w.sent[0].0, 200);
    assert_eq!(w.sent[0].1, "ferris: hello");
    assert!(w.sent[0].2.is_empty());
    match outcome {
        Outcome::Relayed { delivered, failed } => {
            assert_eq!(delivered, vec![200]);
            assert!(failed.is_empty());
        }
        other => panic!("unexpected outcome {:?}", other),
    }
}

#[test]
fn banned_author_is_not_relayed() {
    let mut w = world(&[100, 200]);
    w.banned.push(7);
    let outcome = run(&mut w, hello(7, 100));
    assert!(w.sent.is_empty());
    assert!(matches!(outcome, Outcome::Discarded(Discard::Banned)));
}

#[test]
fn failed_send_does_not_stop_the_fan_out() {
    let mut w = world(&[100, 200, 300]);
    w.unreachable.push(200);
    let outcome = run(&mut w, hello(7, 100));
    assert_eq!(targets(&w), vec![200, 300]);
    assert!(outcome.is_partial());
    match outcome {
        Outcome::Relayed { delivered, failed } => {
            assert_eq!(delivered, vec![300]);
            assert_eq!(failed, vec![200]);
        }
        other => panic!("unexpected outcome {:?}", other),
    }
}

#[test]
fn message_outside_a_mirror_channel_is_dropped() {
    let mut w = world(&[100, 200]);
    let outcome = run(&mut w, hello(7, 555));
    assert!(w.sent.is_empty());
    assert!(matches!(outcome, Outcome::Discarded(Discard::NotMirror)));
    assert_eq!(
        w.asked,
        vec![Command::IsMember { set: SetName::Channels, member: 555 }]
    );
}

#[test]
fn bot_is_dropped_before_any_request() {
    let mut w = world(&[100, 200]);
    let mut message = hello(7, 100);
    message.author_is_bot = true;
    let outcome = run(&mut w, message);
    assert!(w.sent.is_empty());
    assert!(w.asked.is_empty());
    assert!(matches!(outcome, Outcome::Discarded(Discard::Bot)));
}

#[test]
fn admin_author_is_marked() {
    let mut w = world(&[100, 200]);
    w.admins.push(7);
    run(&mut w, hello(7, 100));
    assert_eq!(w.sent.len(), 1);
    assert_eq!(w.sent[0].1, "ferris (admin): hello");
    assert!(w.sent[0].1.contains(" (admin)"));
}

#[test]
fn other_author_is_not_marked() {
    let mut w = world(&[100, 200]);
    w.admins.push(8);
    run(&mut w, hello(7, 100));
    assert_eq!(w.sent[0].1, "ferris: hello");
    assert!(!w.sent[0].1.contains(" (admin)"));
}

#[test]
fn origin_is_never_a_destination() {
    let mut w = world(&[300, 100, 200, 100]);
    run(&mut w, hello(7, 100));
    assert_eq!(targets(&w), vec![300, 200]);
}

#[test]
fn channel_listed_twice_gets_one_send() {
    let mut w = world(&[200, 100, 200, 300, 300]);
    let outcome = run(&mut w, hello(7, 100));
    assert_eq!(targets(&w), vec![200, 300]);
    assert!(!outcome.is_partial());
}

#[test]
fn lone_mirror_channel_sends_nothing() {
    let mut w = world(&[100]);
    let outcome = run(&mut w, hello(7, 100));
    assert!(w.sent.is_empty());
    match outcome {
        Outcome::Relayed { delivered, failed } => {
            assert!(delivered.is_empty());
            assert!(failed.is_empty());
        }
        other => panic!("unexpected outcome {:?}", other),
    }
}

#[test]
fn store_outage_fails_closed() {
    let mut w = world(&[100, 200]);
    w.store_down = true;
    let outcome = run(&mut w, hello(7, 100));
    assert!(w.sent.is_empty());
    assert!(matches!(outcome, Outcome::Aborted(Abort::StoreUnavailable)));
}

#[test]
fn requests_come_in_order() {
    let mut w = world(&[100, 200]);
    run(&mut w, hello(7, 100));
    assert_eq!(
        w.asked,
        vec![
            Command::IsMember { set: SetName::Channels, member: 100 },
            Command::IsMember { set: SetName::Banned, member: 7 },
            Command::IsMember { set: SetName::Admins, member: 7 },
            Command::Scan { set: SetName::Channels },
        ]
    );
    assert_eq!(w.remembered, vec![(String::from("ferris"), 7)]);
}

fn with_files(author: u64, origin: u64) -> Inbound {
    let mut message = hello(author, origin);
    message.attachments = vec![
        AttachmentRef { filename: String::from("a.png"), url: String::from("u/a") },
        AttachmentRef { filename: String::from("b.txt"), url: String::from("u/b") },
    ];
    message
}

#[test]
fn attachments_keep_their_order() {
    let mut w = world(&[100, 200, 300]);
    w.files.insert(String::from("u/a"), vec![1, 2, 3]);
    w.files.insert(String::from("u/b"), vec![9]);
    run(&mut w, with_files(7, 100));
    assert_eq!(targets(&w), vec![200, 300]);
    let expected = vec![
        (String::from("a.png"), vec![1u8, 2, 3]),
        (String::from("b.txt"), vec![9u8]),
    ];
    assert_eq!(w.sent[0].2, expected);
    assert_eq!(w.sent[1].2, expected);
}

#[test]
fn missing_attachment_aborts_the_relay() {
    let mut w = world(&[100, 200, 300]);
    w.files.insert(String::from("u/a"), vec![1, 2, 3]);
    let outcome = run(&mut w, with_files(7, 100));
    assert!(w.sent.is_empty());
    assert!(matches!(outcome, Outcome::Aborted(Abort::AttachmentUnavailable)));
}

#[test]
fn unexpected_event_counts_as_failure() {
    let progress = Relay::start(hello(7, 100));
    let relay = match progress {
        Progress::Continue(relay, _) => relay,
        Progress::Finished(_) => panic!("a user's message goes on"),
    };
    assert_eq!(relay.origin(), 100);
    let next = relay.advance(Event::Sent(true));
    assert!(matches!(
        next,
        Progress::Finished(Outcome::Aborted(Abort::StoreUnavailable))
    ));
}

#[test]
fn any_unanswered_read_gives_the_relay_up() {
    let reads = [
        Command::IsMember { set: SetName::Channels, member: 100 },
        Command::IsMember { set: SetName::Banned, member: 7 },
        Command::IsMember { set: SetName::Admins, member: 7 },
        Command::Scan { set: SetName::Channels },
    ];
    for read in reads {
        let mut w = world(&[100, 200]);
        w.refuse = Some(read);
        let outcome = run(&mut w, hello(7, 100));
        assert!(w.sent.is_empty(), "{:?}", read);
        assert!(matches!(outcome, Outcome::Aborted(Abort::StoreUnavailable)), "{:?}", read);
        assert_eq!(w.asked.last(), Some(&read));
    }
}

#[test]
fn every_send_may_fail() {
    let mut w = world(&[100, 200, 300]);
    w.unreachable = vec![200, 300];
    let outcome = run(&mut w, hello(7, 100));
    assert_eq!(targets(&w), vec![200, 300]);
    match outcome {
        Outcome::Relayed { delivered, failed } => {
            assert!(delivered.is_empty());
            assert_eq!(failed, vec![200, 300]);
        }
        other => panic!("unexpected outcome {:?}", other),
    }
}
