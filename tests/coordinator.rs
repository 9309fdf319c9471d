use join_gate::coordinator::{Action, Event, Coordinator, CHALLENGE_TIMEOUT_SECS};
use join_gate::registry::Registry;

const CHAT: i64 = -100_200;
const USER_U: i64 = 11;
const USER_V: i64 = 22;

fn joined_and_challenged(coord: &mut Coordinator, chat: i64, user: i64, join_msg: i64, challenge: i64) {
    let acts = coord.handle(Event::MemberJoined { chat_id: chat, user_id: user, join_message_id: join_msg });
    assert_eq!(
        acts,
        vec![
            Action::Restrict { chat_id: chat, user_id: user },
            Action::SendChallenge { chat_id: chat, user_id: user, reply_to: join_msg },
        ]
    );
    let acts = coord.handle(Event::ChallengeSent { chat_id: chat, user_id: user, message_id: challenge });
    assert_eq!(
        acts,
        vec![Action::ScheduleTimeout { chat_id: chat, user_id: user, delay_secs: CHALLENGE_TIMEOUT_SECS }]
    );
}

#[test]
fn registry_starts_empty() {
    let r = Registry::new();
    assert_eq!(r.pending_message(1, 2), None);
}

#[test]
fn registry_take_returns_entry_once() {
    let mut r = Registry::new();
    r.insert(1, 2, 300);
    r.insert(1, 3, 301);
    r.insert(4, 2, 302);
    assert_eq!(r.pending_message(1, 2), Some(300));
    assert_eq!(r.take_if_present(1, 2), Some(300));
    assert_eq!(r.take_if_present(1, 2), None);
    assert_eq!(r.pending_message(1, 2), None);
    assert_eq!(r.pending_message(1, 3), Some(301));
    assert_eq!(r.pending_message(4, 2), Some(302));
}

#[test]
fn registry_insert_same_key_replaces() {
    let mut r = Registry::new();
    r.insert(7, 8, 1);
    r.insert(7, 8, 2);
    assert_eq!(r.take_if_present(7, 8), Some(2));
    assert_eq!(r.take_if_present(7, 8), None);
}

#[test]
fn registry_keys_distinguish_channel_and_user() {
    let mut r = Registry::new();
    r.insert(5, 6, 10);
    assert_eq!(r.take_if_present(6, 5), None);
    assert_eq!(r.take_if_present(5, 7), None);
    assert_eq!(r.take_if_present(5, 6), Some(10));
}

#[test]
fn welcome_mutes_then_sends_reply() {
    assert_eq!(
        Coordinator::welcome(3, 4, 99),
        vec![
            Action::Restrict { chat_id: 3, user_id: 4 },
            Action::SendChallenge { chat_id: 3, user_id: 4, reply_to: 99 },
        ]
    );
}

#[test]
fn join_records_nothing_before_send() {
    let mut coord = Coordinator::new();
    coord.handle(Event::MemberJoined { chat_id: CHAT, user_id: USER_U, join_message_id: 5 });
    assert_eq!(coord.pending_message(CHAT, USER_U), None);
}

#[test]
fn timeout_is_thirty_seconds() {
    let mut coord = Coordinator::new();
    let acts = coord.challenge_sent(CHAT, USER_U, Some(70));
    assert_eq!(acts, vec![Action::ScheduleTimeout { chat_id: CHAT, user_id: USER_U, delay_secs: 30 }]);
    assert_eq!(coord.pending_message(CHAT, USER_U), Some(70));
}

#[test]
fn at_most_one_resolution_ack_first() {
    let mut coord = Coordinator::new();
    joined_and_challenged(&mut coord, CHAT, USER_U, 5, 50);
    let ack = coord.handle(Event::ControlActivated { chat_id: CHAT, user_id: USER_U });
    let timeout = coord.handle(Event::TimeoutElapsed { chat_id: CHAT, user_id: USER_U });
    assert_eq!(
        ack,
        vec![
            Action::Unrestrict { chat_id: CHAT, user_id: USER_U },
            Action::DeleteMessage { chat_id: CHAT, message_id: 50 },
        ]
    );
    assert_eq!(timeout, vec![]);
}

#[test]
fn at_most_one_resolution_timeout_first() {
    let mut coord = Coordinator::new();
    joined_and_challenged(&mut coord, CHAT, USER_U, 5, 50);
    let timeout = coord.handle(Event::TimeoutElapsed { chat_id: CHAT, user_id: USER_U });
    let ack = coord.handle(Event::ControlActivated { chat_id: CHAT, user_id: USER_U });
    assert_eq!(
        timeout,
        vec![
            Action::Expel { chat_id: CHAT, user_id: USER_U },
            Action::Unban { chat_id: CHAT, user_id: USER_U },
            Action::DeleteMessage { chat_id: CHAT, message_id: 50 },
        ]
    );
    assert_eq!(ack, vec![Action::Unrestrict { chat_id: CHAT, user_id: USER_U }]);
    assert_eq!(coord.pending_message(CHAT, USER_U), None);
}

#[test]
fn no_double_admission_or_expulsion_over_many_races() {
    let mut coord = Coordinator::new();
    let mut expels = 0u32;
    let mut admissions = 0u32;
    let mut deletes = 0u32;
    for round in 0..1000i64 {
        joined_and_challenged(&mut coord, CHAT, USER_U, round, 10_000 + round);
        let ack_first = round % 3 != 0;
        let (ack, timeout) = if ack_first {
            let a = coord.approve_user(CHAT, USER_U);
            let t = coord.timeout_elapsed(CHAT, USER_U);
            (a, t)
        } else {
            let t = coord.timeout_elapsed(CHAT, USER_U);
            let a = coord.approve_user(CHAT, USER_U);
            (a, t)
        };
        let challenge = Action::DeleteMessage { chat_id: CHAT, message_id: 10_000 + round };
        let expelled = timeout.contains(&Action::Expel { chat_id: CHAT, user_id: USER_U });
        let admitted = ack.contains(&challenge);
        assert!(expelled != admitted);
        assert_eq!(expelled, !ack_first);
        assert!(!ack.contains(&Action::Expel { chat_id: CHAT, user_id: USER_U }));
        expels += expelled as u32;
        admissions += admitted as u32;
        deletes += ack.iter().chain(timeout.iter()).filter(|a| **a == challenge).count() as u32;
        assert_eq!(coord.pending_message(CHAT, USER_U), None);
    }
    assert_eq!(expels + admissions, 1000);
    assert_eq!(deletes, 1000);
    assert_eq!(expels, 334);
}

#[test]
fn timeout_fires_exactly_once_per_join() {
    let mut coord = Coordinator::new();
    joined_and_challenged(&mut coord, CHAT, USER_V, 6, 60);
    let first = coord.timeout_elapsed(CHAT, USER_V);
    assert_eq!(
        first,
        vec![
            Action::Expel { chat_id: CHAT, user_id: USER_V },
            Action::Unban { chat_id: CHAT, user_id: USER_V },
            Action::DeleteMessage { chat_id: CHAT, message_id: 60 },
        ]
    );
    assert_eq!(coord.timeout_elapsed(CHAT, USER_V), vec![]);
    assert_eq!(coord.pending_message(CHAT, USER_V), None);
}

#[test]
fn acknowledgment_before_timeout() {
    let mut coord = Coordinator::new();
    joined_and_challenged(&mut coord, CHAT, USER_U, 5, 51);
    let ack = coord.approve_user(CHAT, USER_U);
    assert_eq!(
        ack,
        vec![
            Action::Unrestrict { chat_id: CHAT, user_id: USER_U },
            Action::DeleteMessage { chat_id: CHAT, message_id: 51 },
        ]
    );
    assert_eq!(coord.pending_message(CHAT, USER_U), None);
    assert_eq!(coord.timeout_elapsed(CHAT, USER_U), vec![]);
}

#[test]
fn send_failure_leaves_no_entry_and_no_timer() {
    let mut coord = Coordinator::new();
    coord.handle(Event::MemberJoined { chat_id: CHAT, user_id: USER_U, join_message_id: 5 });
    let acts = coord.handle(Event::ChallengeFailed { chat_id: CHAT, user_id: USER_U });
    assert_eq!(acts, vec![]);
    assert_eq!(coord.pending_message(CHAT, USER_U), None);
    assert_eq!(coord.challenge_sent(CHAT, USER_U, None), vec![]);
    assert_eq!(coord.timeout_elapsed(CHAT, USER_U), vec![]);
}

#[test]
fn acknowledgment_without_challenge_only_unmutes() {
    let mut coord = Coordinator::new();
    assert_eq!(
        coord.approve_user(CHAT, USER_U),
        vec![Action::Unrestrict { chat_id: CHAT, user_id: USER_U }]
    );
}

#[test]
fn concrete_scenario_acknowledged_and_expelled() {
    let mut coord = Coordinator::new();
    // t=0: U joins with join message M and challenge X is posted.
    let m = 500;
    let x = 501;
    joined_and_challenged(&mut coord, CHAT, USER_U, m, x);
    // V joins as well and never acknowledges.
    let v_challenge = 601;
    joined_and_challenged(&mut coord, CHAT, USER_V, 600, v_challenge);
    // t=10: U activates the control.
    let ack = coord.handle(Event::ControlActivated { chat_id: CHAT, user_id: USER_U });
    assert_eq!(
        ack,
        vec![
            Action::Unrestrict { chat_id: CHAT, user_id: USER_U },
            Action::DeleteMessage { chat_id: CHAT, message_id: x },
        ]
    );
    assert_eq!(coord.pending_message(CHAT, USER_V), Some(v_challenge));
    // t=30: both timers run out.
    let u_timeout = coord.handle(Event::TimeoutElapsed { chat_id: CHAT, user_id: USER_U });
    assert_eq!(u_timeout, vec![]);
    let v_timeout = coord.handle(Event::TimeoutElapsed { chat_id: CHAT, user_id: USER_V });
    assert_eq!(
        v_timeout,
        vec![
            Action::Expel { chat_id: CHAT, user_id: USER_V },
            Action::Unban { chat_id: CHAT, user_id: USER_V },
            Action::DeleteMessage { chat_id: CHAT, message_id: v_challenge },
        ]
    );
    assert_eq!(coord.pending_message(CHAT, USER_U), None);
    assert_eq!(coord.pending_message(CHAT, USER_V), None);
}

#[test]
fn users_in_other_channels_are_independent() {
    let mut coord = Coordinator::new();
    joined_and_challenged(&mut coord, 1, USER_U, 5, 70);
    joined_and_challenged(&mut coord, 2, USER_U, 5, 71);
    assert_eq!(
        coord.approve_user(1, USER_U),
        vec![
            Action::Unrestrict { chat_id: 1, user_id: USER_U },
            Action::DeleteMessage { chat_id: 1, message_id: 70 },
        ]
    );
    assert_eq!(coord.pending_message(2, USER_U), Some(71));
}
