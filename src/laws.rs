use vstd::prelude::*;
use crate::message::{Notice, SessionStatus};
use crate::session::{ClientMessage, SessionView};

verus! {

/// The state after the buzzes `froms`, in order, the `k`-th at time `times[k]`.
pub open spec fn after_buzzes(s: SessionView, froms: Seq<u64>, times: Seq<u64>) -> SessionView
    decreases froms.len(),
{
    if froms.len() == 0 || times.len() < froms.len() {
        s
    } else {
        after_buzzes(s.next(ClientMessage::Buzz { from: froms[0] }, times[0]), froms.drop_first(), times.drop_first())
    }
}

/// The notifications broadcast by the buzzes `froms`, in order, one entry per buzz.
pub open spec fn buzz_notices(s: SessionView, froms: Seq<u64>, times: Seq<u64>) -> Seq<Option<Notice>>
    decreases froms.len(),
{
    if froms.len() == 0 || times.len() < froms.len() {
        Seq::empty()
    } else {
        seq![s.broadcast(ClientMessage::Buzz { from: froms[0] }, times[0])] + buzz_notices(
            s.next(ClientMessage::Buzz { from: froms[0] }, times[0]),
            froms.drop_first(),
            times.drop_first(),
        )
    }
}

/// While the session is not running, buzzes change nothing and announce nothing.
pub proof fn lemma_buzzes_ignored(s: SessionView, froms: Seq<u64>, times: Seq<u64>)
    requires
        s.status != SessionStatus::Running,
        times.len() >= froms.len(),
    ensures
        after_buzzes(s, froms, times) == s,
        buzz_notices(s, froms, times).len() == froms.len(),
        forall|k: int| 0 <= k < froms.len() ==> #[trigger] buzz_notices(s, froms, times)[k] is None,
    decreases froms.len(),
{
    if froms.len() > 0 {
        lemma_buzzes_ignored(s, froms.drop_first(), times.drop_first());
        assert forall|k: int| 0 <= k < froms.len() implies #[trigger] buzz_notices(s, froms, times)[k] is None by {
            if k > 0 {
                assert(buzz_notices(s, froms, times)[k] == buzz_notices(s, froms.drop_first(), times.drop_first())[k
                    - 1]);
            }
        }
    }
}

/// At most one buzz wins a countdown cycle: of buzzes that arrive in a row while the
/// session is running, the first from a participant not yet blacklisted is announced
/// and pauses the session; every later one, from anyone and at any time, changes
/// nothing and announces nothing.
pub proof fn lemma_one_buzz_per_cycle(s: SessionView, froms: Seq<u64>, times: Seq<u64>)
    requires
        s.wf(),
        !s.closed,
        s.status == SessionStatus::Running,
        froms.len() >= 1,
        times.len() == froms.len(),
        s.ever_joined(froms[0]),
        !s.blacklist.contains(froms[0]),
    ensures
        after_buzzes(s, froms, times) == s.next(ClientMessage::Buzz { from: froms[0] }, times[0]),
        after_buzzes(s, froms, times).status == SessionStatus::Paused,
        after_buzzes(s, froms, times).blacklist == s.blacklist.insert(froms[0]),
        buzz_notices(s, froms, times).len() == froms.len(),
        buzz_notices(s, froms, times)[0] == Some(Notice::Buzzed { id: froms[0] }),
        forall|k: int| 1 <= k < froms.len() ==> #[trigger] buzz_notices(s, froms, times)[k] is None,
{
    let t = s.next(ClientMessage::Buzz { from: froms[0] }, times[0]);
    lemma_buzzes_ignored(t, froms.drop_first(), times.drop_first());
    assert forall|k: int| 1 <= k < froms.len() implies #[trigger] buzz_notices(s, froms, times)[k] is None by {
        assert(buzz_notices(s, froms, times)[k] == buzz_notices(t, froms.drop_first(), times.drop_first())[k - 1]);
    }
}

/// Clearing the blacklist twice in a row leaves the same state as clearing it once,
/// and the second request announces the same as the first. From the admin of an open
/// session, the first clears the blacklist and announces `BlacklistCleared`.
pub proof fn lemma_reset_blacklist_idempotent(s: SessionView, from: u64, t1: u64, t2: u64)
    ensures
        s.next(ClientMessage::ResetBlacklist { from }, t1).next(ClientMessage::ResetBlacklist { from }, t2)
            == s.next(ClientMessage::ResetBlacklist { from }, t1),
        s.next(ClientMessage::ResetBlacklist { from }, t1).broadcast(ClientMessage::ResetBlacklist { from }, t2)
            == s.broadcast(ClientMessage::ResetBlacklist { from }, t1),
        s.is_admin(from) && !s.closed ==> s.next(ClientMessage::ResetBlacklist { from }, t1).blacklist == Set::<u64>::empty()
            && s.broadcast(ClientMessage::ResetBlacklist { from }, t1) == Some(Notice::BlacklistCleared),
{
    let t = s.next(ClientMessage::ResetBlacklist { from }, t1);
    assert(t.next(ClientMessage::ResetBlacklist { from }, t2) =~~= t);
}

/// The first participant to join becomes the admin, with identifier 1, and is told so.
pub proof fn lemma_first_joiner_is_admin(s: SessionView)
    requires
        s.wf(),
        !s.closed,
        s.last_uid == 0,
    ensures
        s.next(ClientMessage::Connect, 0).admin == 1,
        s.joined(ClientMessage::Connect) == Some(1u64),
        s.private(ClientMessage::Connect)[0] matches Notice::ConnectionSuccess { id, is_admin, .. } && id == 1
            && is_admin,
{
}

/// Once someone has joined, no intent reassigns the admin, not even the admin's own
/// disconnection, which closes the session.
pub proof fn lemma_admin_is_stable(s: SessionView, msg: ClientMessage, now: u64)
    requires
        s.wf(),
        s.last_uid > 0,
    ensures
        s.next(msg, now).admin == s.admin,
        s.next(msg, now).last_uid > 0,
        s.next(msg, now).is_admin(s.admin),
        (msg matches ClientMessage::Disconnected { from } && from == s.admin && !s.closed) ==> s.next(msg, now).closed,
{
}

/// The countdown ending on its own leaves the same state, and announces the same, as
/// the admin resetting the session by hand: waiting, empty blacklist, no running time.
pub proof fn lemma_expiry_is_reset(s: SessionView, token: u64, now: u64)
    requires
        s.wf(),
        s.timer_token == Some(token),
    ensures
        s.expired(token) == s.next(ClientMessage::ResetSession { from: s.admin }, now),
        !s.closed ==> s.broadcast(ClientMessage::ResetSession { from: s.admin }, now) == Some(Notice::Reset),
        !s.closed ==> s.expired(token).status == SessionStatus::Waiting,
        !s.closed ==> s.expired(token).blacklist == Set::<u64>::empty(),
        !s.closed ==> s.expired(token).elapsed == 0,
        !s.closed ==> s.expired(token).timer_token is None,
{
}

/// Identifiers are never reused: the counter never goes back, and a joiner gets an
/// identifier above every one handed out before, including those of participants
/// that have left.
pub proof fn lemma_ids_never_reused(s: SessionView, msg: ClientMessage, now: u64)
    requires
        s.wf(),
    ensures
        s.next(msg, now).last_uid >= s.last_uid,
        s.joined(msg) matches Some(id) ==> id > s.last_uid && id == s.next(msg, now).last_uid,
{
}

} // verus!
