use mail_relay::config::Config;
use mail_relay::cycle::{begin, step, Action, CycleState, Event};
use mail_relay::error::CycleError;
use mail_relay::message::UnseenRecord;
use mail_relay::scheduler::{Command, Report, RoundState, Scheduler};

fn account(name: &str, mailboxes: Vec<&str>) -> Config {
    Config {
        imap_domain: format!("imap.{}.example", name),
        imap_username: format!("{}-reader", name),
        imap_password: format!("{}-imap-pass", name),
        smtp_domain: format!("smtp.{}.example", name),
        smtp_username: format!("{}@example.org", name),
        smtp_password: format!("{}-smtp-pass", name),
        mailboxes: mailboxes.into_iter().map(String::from).collect(),
        forward_target: String::from("target@example.net"),
    }
}

fn letter(uid: u32) -> Vec<u8> {
    format!("From: a@example.org\r\nSubject: message {}\r\n\r\ntext {}\r\n", uid, uid).into_bytes()
}

fn record(uid: u32) -> UnseenRecord {
    UnseenRecord { uid: Some(uid), body: Some(letter(uid)) }
}

/// Plays the part of the mail servers: INBOX holds 101 and 102, the
/// submission of 101 is accepted, that of 102 refused.
fn answer(action: &Action, seen: &mut Vec<u32>, selected: &mut Vec<String>) -> Event {
    match action {
        Action::Open(_) => Event::Opened,
        Action::Select { mailbox } => {
            selected.push(mailbox.clone());
            Event::Selected { unseen: Some(2) }
        }
        Action::Search(_) => Event::Found { uids: vec![101, 102] },
        Action::Fetch(_) => Event::Fetched { records: vec![record(101), record(102)] },
        Action::Send(request) => {
            if request.message.body == letter(101) {
                Event::Sent
            } else {
                Event::Failed
            }
        }
        Action::Store(request) => {
            seen.push(request.uid);
            Event::Stored
        }
        Action::Logout => Event::Closed,
        Action::Finish { .. } => unreachable!(),
    }
}

#[test]
fn a_failed_send_leaves_the_message_unseen_and_ends_the_cycle_but_not_the_round() {
    let work = account("work", vec!["INBOX", "Archive"]);
    let personal = account("personal", vec!["INBOX"]);
    let accounts = vec![work, personal];
    let scheduler = Scheduler::new(accounts.len(), 0);

    let (round, command) = scheduler.start();
    assert_eq!(command, Command::RunCycle { account: 0 });

    let mut seen: Vec<u32> = Vec::new();
    let mut selected: Vec<String> = Vec::new();
    let mut sent: Vec<Vec<u8>> = Vec::new();
    let (mut state, mut action) = begin(&accounts[0]);
    let outcome = loop {
        if let Action::Finish { outcome } = action {
            break outcome;
        }
        if let Action::Send(request) = &action {
            sent.push(request.message.body.clone());
        }
        let event = answer(&action, &mut seen, &mut selected);
        let (next, then) = step(&accounts[0], state, event);
        state = next;
        action = then;
    };

    assert_eq!(outcome, Err(CycleError::Send));
    assert_eq!(state, CycleState::LoggedOut { outcome: Err(CycleError::Send) });
    assert_eq!(seen, vec![101]);
    assert_eq!(sent, vec![letter(101), letter(102)]);
    assert_eq!(selected, vec![String::from("INBOX")]);

    let (round, command) = scheduler.step(round, Report::CycleEnded { outcome });
    assert_eq!(round, RoundState::Running { account: 1 });
    assert_eq!(command, Command::RunCycle { account: 1 });

    let (state, action) = begin(&accounts[1]);
    assert_eq!(state, CycleState::Connecting);
    match action {
        Action::Open(request) => {
            assert_eq!(request.host, "imap.personal.example");
            assert_eq!(request.username, "personal-reader");
        }
        other => panic!("the cycle began with {:?}", other),
    }
    let (state, action) = step(&accounts[1], state, Event::Opened);
    assert_eq!(action, Action::Select { mailbox: String::from("INBOX") });
    let (state, action) = step(&accounts[1], state, Event::Selected { unseen: Some(0) });
    assert_eq!(action, Action::Logout);
    let (_, action) = step(&accounts[1], state, Event::Closed);
    assert_eq!(action, Action::Finish { outcome: Ok(()) });

    let (round, command) = scheduler.step(round, Report::CycleEnded { outcome: Ok(()) });
    assert_eq!(round, RoundState::Stopped);
    assert_eq!(command, Command::Exit);
}
