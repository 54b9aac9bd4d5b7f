use buzzer::message::{SessionMessage, SessionStatus};
use buzzer::session::{timer_millis, ClientMessage, Outcome, RawClientMessage, Session, TimerCommand};

fn s(text: &str) -> String {
    text.to_string()
}

fn joined(session: &mut Session) -> Outcome {
    session.handle(ClientMessage::Connect, 0)
}

#[test]
fn scenario_quiz_round() {
    let mut q = Session::new(7, s("Quiz"), 30);
    let a = joined(&mut q);
    assert_eq!(a.joined, Some(1));
    assert_eq!(
        a.private,
        vec![SessionMessage::ConnectionSuccess {
            id: 1,
            is_admin: true,
            name: s("Quiz"),
            timer: 30,
            elapsed: 0,
            status: SessionStatus::Waiting,
        }]
    );
    assert_eq!(a.broadcast, Some(SessionMessage::Connected { name: s("user1"), id: 1 }));
    assert_eq!(a.recipients, vec![1]);

    let b = joined(&mut q);
    assert_eq!(b.joined, Some(2));
    assert_eq!(
        b.private,
        vec![
            SessionMessage::ConnectionSuccess {
                id: 2,
                is_admin: false,
                name: s("Quiz"),
                timer: 30,
                elapsed: 0,
                status: SessionStatus::Waiting,
            },
            SessionMessage::Connected { name: s("user1"), id: 1 },
        ]
    );
    assert_eq!(b.broadcast, Some(SessionMessage::Connected { name: s("user2"), id: 2 }));
    assert_eq!(b.recipients, vec![1, 2]);
    assert_eq!(q.admin(), 1);

    let r = q.handle(ClientMessage::ResumeSession { from: 1 }, 1_000);
    assert_eq!(r.broadcast, Some(SessionMessage::Resumed { left: 30_000 }));
    assert_eq!(r.recipients, vec![1, 2]);
    assert_eq!(r.timer, TimerCommand::Schedule { token: 0, delay: 30_000 });
    assert_eq!(q.status(), SessionStatus::Running);

    let z = q.handle(ClientMessage::Buzz { from: 2 }, 5_000);
    assert_eq!(z.broadcast, Some(SessionMessage::Buzzed { id: 2 }));
    assert_eq!(z.recipients, vec![1, 2]);
    assert_eq!(z.timer, TimerCommand::Cancel { token: 0 });
    assert_eq!(q.status(), SessionStatus::Paused);
    assert_eq!(q.elapsed(), 4_000);
    assert!(q.is_blacklisted(2));
    assert_eq!(q.blacklist_len(), 1);
}

#[test]
fn change_session_rejected_while_running() {
    let mut q = Session::new(1, s("Quiz"), 30);
    joined(&mut q);
    q.handle(ClientMessage::ResumeSession { from: 1 }, 0);
    let r = q.handle(ClientMessage::ChangeSession { from: 1, name: s("X"), timer: 10 }, 10);
    assert_eq!(r.broadcast, None);
    assert_eq!(r.timer, TimerCommand::Keep);
    assert_eq!(q.name(), s("Quiz"));
    assert_eq!(q.timer(), 30);
    assert_eq!(q.status(), SessionStatus::Running);
}

#[test]
fn change_session_while_waiting() {
    let mut q = Session::new(1, s("Quiz"), 30);
    joined(&mut q);
    let r = q.handle(ClientMessage::ChangeSession { from: 1, name: s("X"), timer: 10 }, 10);
    assert_eq!(r.broadcast, Some(SessionMessage::Changed { name: s("X"), timer: 10 }));
    assert_eq!(q.name(), s("X"));
    assert_eq!(q.timer(), 10);
}

#[test]
fn only_first_buzz_wins() {
    let mut q = Session::new(1, s("Quiz"), 30);
    joined(&mut q);
    joined(&mut q);
    joined(&mut q);
    q.handle(ClientMessage::ResumeSession { from: 1 }, 0);
    let first = q.handle(ClientMessage::Buzz { from: 2 }, 100);
    let second = q.handle(ClientMessage::Buzz { from: 3 }, 100);
    assert_eq!(first.broadcast, Some(SessionMessage::Buzzed { id: 2 }));
    assert_eq!(second.broadcast, None);
    assert_eq!(second.timer, TimerCommand::Keep);
    assert!(q.is_blacklisted(2));
    assert!(!q.is_blacklisted(3));
    assert_eq!(q.blacklist_len(), 1);
    assert_eq!(q.status(), SessionStatus::Paused);
}

#[test]
fn blacklisted_participant_cannot_buzz_again() {
    let mut q = Session::new(1, s("Quiz"), 30);
    joined(&mut q);
    joined(&mut q);
    q.handle(ClientMessage::ResumeSession { from: 1 }, 0);
    q.handle(ClientMessage::Buzz { from: 2 }, 100);
    let r = q.handle(ClientMessage::ResumeSession { from: 1 }, 200);
    assert_eq!(r.broadcast, Some(SessionMessage::Resumed { left: 29_900 }));
    assert_eq!(r.timer, TimerCommand::Schedule { token: 1, delay: 29_900 });
    let again = q.handle(ClientMessage::Buzz { from: 2 }, 300);
    assert_eq!(again.broadcast, None);
    assert_eq!(q.status(), SessionStatus::Running);
}

#[test]
fn buzz_while_waiting_is_ignored() {
    let mut q = Session::new(1, s("Quiz"), 30);
    joined(&mut q);
    joined(&mut q);
    let r = q.handle(ClientMessage::Buzz { from: 2 }, 100);
    assert_eq!(r.broadcast, None);
    assert_eq!(q.blacklist_len(), 0);
}

#[test]
fn reset_blacklist_twice_is_once() {
    let mut q = Session::new(1, s("Quiz"), 30);
    joined(&mut q);
    joined(&mut q);
    q.handle(ClientMessage::ResumeSession { from: 1 }, 0);
    q.handle(ClientMessage::Buzz { from: 2 }, 100);
    let one = q.handle(ClientMessage::ResetBlacklist { from: 1 }, 200);
    assert_eq!(one.broadcast, Some(SessionMessage::BlacklistCleared));
    let status = q.status();
    let elapsed = q.elapsed();
    let two = q.handle(ClientMessage::ResetBlacklist { from: 1 }, 300);
    assert_eq!(two.broadcast, Some(SessionMessage::BlacklistCleared));
    assert_eq!(q.blacklist_len(), 0);
    assert_eq!(q.status(), status);
    assert_eq!(q.elapsed(), elapsed);
}

#[test]
fn admin_stays_until_its_disconnect_closes() {
    let mut q = Session::new(1, s("Quiz"), 30);
    joined(&mut q);
    joined(&mut q);
    let gone = q.handle(ClientMessage::Disconnected { from: 2 }, 0);
    assert_eq!(gone.broadcast, Some(SessionMessage::Disconnected { id: 2 }));
    assert_eq!(gone.recipients, vec![1]);
    joined(&mut q);
    assert_eq!(q.admin(), 1);
    let close = q.handle(ClientMessage::Disconnected { from: 1 }, 0);
    assert_eq!(close.broadcast, Some(SessionMessage::Closed));
    assert_eq!(close.recipients, vec![3]);
    assert!(close.close);
    assert!(q.is_closed());
    assert_eq!(q.admin(), 1);
    let after = q.handle(ClientMessage::Connect, 0);
    assert_eq!(after.joined, None);
    assert_eq!(after.broadcast, None);
}

#[test]
fn natural_expiry_equals_manual_reset() {
    let mut a = Session::new(1, s("Quiz"), 1);
    let mut b = Session::new(1, s("Quiz"), 1);
    for q in [&mut a, &mut b] {
        joined(q);
        joined(q);
    }
    let r = a.handle(ClientMessage::ResumeSession { from: 1 }, 0);
    b.handle(ClientMessage::ResumeSession { from: 1 }, 0);
    let token = match r.timer {
        TimerCommand::Schedule { token, delay } => {
            assert_eq!(delay, 1_000);
            token
        }
        _ => panic!("no countdown scheduled"),
    };
    let e = a.expire(token);
    let m = b.handle(ClientMessage::ResetSession { from: 1 }, 1_500);
    assert_eq!(e.broadcast, Some(SessionMessage::Reset));
    assert_eq!(m.broadcast, Some(SessionMessage::Reset));
    assert_eq!(m.timer, TimerCommand::Cancel { token });
    for q in [&a, &b] {
        assert_eq!(q.status(), SessionStatus::Waiting);
        assert_eq!(q.elapsed(), 0);
        assert_eq!(q.blacklist_len(), 0);
        assert_eq!(q.timer_token(), None);
    }
}

#[test]
fn stale_expiry_is_ignored() {
    let mut q = Session::new(1, s("Quiz"), 10);
    joined(&mut q);
    q.handle(ClientMessage::ResumeSession { from: 1 }, 0);
    let p = q.handle(ClientMessage::PauseSession { from: 1 }, 2_500);
    assert_eq!(p.broadcast, Some(SessionMessage::Paused));
    assert_eq!(p.timer, TimerCommand::Cancel { token: 0 });
    assert_eq!(q.elapsed(), 2_500);
    let e = q.expire(0);
    assert_eq!(e.broadcast, None);
    assert_eq!(q.status(), SessionStatus::Paused);
    assert_eq!(q.elapsed(), 2_500);
}

#[test]
fn elapsed_never_passes_the_timer() {
    let mut q = Session::new(1, s("Quiz"), 2);
    joined(&mut q);
    q.handle(ClientMessage::ResumeSession { from: 1 }, 100);
    q.handle(ClientMessage::PauseSession { from: 1 }, 60_000);
    assert_eq!(q.elapsed(), 2_000);
    let r = q.handle(ClientMessage::ResumeSession { from: 1 }, 60_001);
    assert_eq!(r.broadcast, Some(SessionMessage::Resumed { left: 0 }));
}

#[test]
fn non_admin_controls_are_ignored() {
    let mut q = Session::new(1, s("Quiz"), 30);
    joined(&mut q);
    joined(&mut q);
    for msg in [
        ClientMessage::ResumeSession { from: 2 },
        ClientMessage::PauseSession { from: 2 },
        ClientMessage::ResetSession { from: 2 },
        ClientMessage::ResetBlacklist { from: 2 },
        ClientMessage::CloseSession { from: 2 },
        ClientMessage::ChangeSession { from: 2, name: s("Y"), timer: 5 },
    ] {
        let r = q.handle(msg, 0);
        assert_eq!(r.broadcast, None);
        assert_eq!(r.timer, TimerCommand::Keep);
        assert!(!r.close);
    }
    assert_eq!(q.status(), SessionStatus::Waiting);
    assert!(!q.is_closed());
}

#[test]
fn controls_before_anyone_joins_are_ignored() {
    let mut q = Session::new(1, s("Quiz"), 30);
    let r = q.handle(ClientMessage::CloseSession { from: 0 }, 0);
    assert_eq!(r.broadcast, None);
    assert!(!q.is_closed());
}

#[test]
fn admin_close_broadcasts_closed() {
    let mut q = Session::new(1, s("Quiz"), 30);
    joined(&mut q);
    joined(&mut q);
    let r = q.handle(ClientMessage::CloseSession { from: 1 }, 0);
    assert_eq!(r.broadcast, Some(SessionMessage::Closed));
    assert_eq!(r.recipients, vec![1, 2]);
    assert!(r.close);
}

#[test]
fn rename_known_and_unknown() {
    let mut q = Session::new(1, s("Quiz"), 30);
    joined(&mut q);
    joined(&mut q);
    let r = q.handle(ClientMessage::ChangeName { from: 2, name: s("Ann") }, 0);
    assert_eq!(r.broadcast, Some(SessionMessage::ChangedName { name: s("Ann"), id: 2 }));
    let unknown = q.handle(ClientMessage::ChangeName { from: 9, name: s("Bob") }, 0);
    assert_eq!(unknown.broadcast, None);
    let c = joined(&mut q);
    assert_eq!(c.private[2], SessionMessage::Connected { name: s("Ann"), id: 2 });
}

#[test]
fn reset_in_any_status() {
    let mut q = Session::new(1, s("Quiz"), 30);
    joined(&mut q);
    let r = q.reset();
    assert_eq!(r.broadcast, Some(SessionMessage::Reset));
    assert_eq!(r.timer, TimerCommand::Keep);
    assert_eq!(q.status(), SessionStatus::Waiting);
}

#[test]
fn status_codes() {
    assert_eq!(SessionStatus::Paused.code(), 0);
    assert_eq!(SessionStatus::Running.code(), 1);
    assert_eq!(SessionStatus::Waiting.code(), 2);
}

#[test]
fn timer_millis_caps() {
    assert_eq!(timer_millis(30), 30_000);
    assert_eq!(timer_millis(u64::MAX), u64::MAX);
}

#[test]
fn raw_intent_is_tagged() {
    let tagged = RawClientMessage::ChangeSession { name: s("X"), timer: 3 }.from_sender(4);
    match tagged {
        ClientMessage::ChangeSession { from, name, timer } => {
            assert_eq!(from, 4);
            assert_eq!(name, s("X"));
            assert_eq!(timer, 3);
        }
        _ => panic!("wrong intent"),
    }
    assert!(matches!(RawClientMessage::Buzz.from_sender(5), ClientMessage::Buzz { from: 5 }));
    assert!(matches!(RawClientMessage::Connect.from_sender(5), ClientMessage::Connect));
}

#[test]
fn duplicate_keeps_fields() {
    let m = SessionMessage::ChangedName { name: s("Ann"), id: 3 };
    assert_eq!(m.duplicate(), m);
}

#[test]
fn status_code_round_trip() {
    for st in [SessionStatus::Paused, SessionStatus::Running, SessionStatus::Waiting] {
        assert_eq!(SessionStatus::from_code(st.code()), Some(st));
    }
    assert_eq!(SessionStatus::from_code(3), None);
}

#[test]
fn ids_are_not_reused_after_leaving() {
    let mut q = Session::new(1, s("Quiz"), 30);
    joined(&mut q);
    joined(&mut q);
    q.handle(ClientMessage::Disconnected { from: 2 }, 0);
    let c = joined(&mut q);
    assert_eq!(c.joined, Some(3));
    assert_eq!(q.participant_ids(), vec![1, 3]);
}

#[test]
fn unknown_disconnect_is_silent() {
    let mut q = Session::new(1, s("Quiz"), 30);
    joined(&mut q);
    joined(&mut q);
    let first = q.handle(ClientMessage::Disconnected { from: 2 }, 0);
    assert_eq!(first.broadcast, Some(SessionMessage::Disconnected { id: 2 }));
    let again = q.handle(ClientMessage::Disconnected { from: 2 }, 0);
    assert_eq!(again.broadcast, None);
    let stranger = q.handle(ClientMessage::Disconnected { from: 0 }, 0);
    assert_eq!(stranger.broadcast, None);
    assert!(!stranger.close);
    assert_eq!(q.participant_ids(), vec![1]);
}

#[test]
fn default_names_use_decimal_ids() {
    let mut q = Session::new(1, s("Quiz"), 30);
    let mut last = joined(&mut q);
    for _ in 1..12 {
        last = joined(&mut q);
    }
    assert_eq!(last.joined, Some(12));
    assert_eq!(last.broadcast, Some(SessionMessage::Connected { name: s("user12"), id: 12 }));
}
