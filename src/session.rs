use std::collections::HashSet;
use vstd::prelude::*;
use vstd::std_specs::hash::group_hash_axioms;
use crate::message::{Notice, SessionMessage, SessionStatus};

verus! {

broadcast use group_hash_axioms;

/// An intent sent by a participant to its session, tagged with the sender.
#[derive(Debug)]
pub enum ClientMessage {
    Buzz { from: u64 },
    ChangeName { from: u64, name: String },
    /// The timer is in seconds.
    ChangeSession { from: u64, name: String, timer: u64 },
    CloseSession { from: u64 },
    ResumeSession { from: u64 },
    PauseSession { from: u64 },
    ResetSession { from: u64 },
    ResetBlacklist { from: u64 },
    Disconnected { from: u64 },
    /// A new connection asks to join; the session mints its identifier.
    Connect,
}

/// An intent as it arrives from a connection, before the sender is known.
#[derive(Debug)]
pub enum RawClientMessage {
    Buzz,
    ChangeName { name: String },
    /// The timer is in seconds.
    ChangeSession { name: String, timer: u64 },
    CloseSession,
    ResumeSession,
    PauseSession,
    ResetSession,
    ResetBlacklist,
    Disconnected,
    Connect,
}

impl RawClientMessage {
    /// The same intent, tagged with its sender's identifier.
    pub fn from_sender(self, from: u64) -> (r: ClientMessage)
        ensures
            r == (match self {
                RawClientMessage::Buzz => ClientMessage::Buzz { from },
                RawClientMessage::ChangeName { name } => ClientMessage::ChangeName { from, name },
                RawClientMessage::ChangeSession { name, timer } => ClientMessage::ChangeSession { from, name, timer },
                RawClientMessage::CloseSession => ClientMessage::CloseSession { from },
                RawClientMessage::ResumeSession => ClientMessage::ResumeSession { from },
                RawClientMessage::PauseSession => ClientMessage::PauseSession { from },
                RawClientMessage::ResetSession => ClientMessage::ResetSession { from },
                RawClientMessage::ResetBlacklist => ClientMessage::ResetBlacklist { from },
                RawClientMessage::Disconnected => ClientMessage::Disconnected { from },
                RawClientMessage::Connect => ClientMessage::Connect,
            }),
    {
        match self {
            RawClientMessage::Buzz => ClientMessage::Buzz { from },
            RawClientMessage::ChangeName { name } => ClientMessage::ChangeName { from, name },
            RawClientMessage::ChangeSession { name, timer } => ClientMessage::ChangeSession { from, name, timer },
            RawClientMessage::CloseSession => ClientMessage::CloseSession { from },
            RawClientMessage::ResumeSession => ClientMessage::ResumeSession { from },
            RawClientMessage::PauseSession => ClientMessage::PauseSession { from },
            RawClientMessage::ResetSession => ClientMessage::ResetSession { from },
            RawClientMessage::ResetBlacklist => ClientMessage::ResetBlacklist { from },
            RawClientMessage::Disconnected => ClientMessage::Disconnected { from },
            RawClientMessage::Connect => ClientMessage::Connect,
        }
    }
}

/// What the owner of the session must do with the countdown callback.
#[derive(PartialEq, Eq, Structural, Clone, Copy, Debug)]
pub enum TimerCommand {
    Keep,
    Cancel { token: u64 },
    /// Fire `expire(token, ..)` after `delay` milliseconds.
    Schedule { token: u64, delay: u64 },
}

/// One participant in the roster.
#[derive(Debug)]
pub struct Participant {
    pub id: u64,
    pub name: String,
}

/// The effects of one step, to be carried out by the owner of the session in order:
/// the private messages go to the participant that just joined, then the broadcast
/// goes to every recipient, then the timer command and the close are applied.
#[derive(Debug)]
pub struct Outcome {
    pub joined: Option<u64>,
    pub private: Vec<SessionMessage>,
    pub broadcast: Option<SessionMessage>,
    pub recipients: Vec<u64>,
    pub timer: TimerCommand,
    pub close: bool,
}

impl Outcome {
    /// The private messages as notices.
    pub open spec fn private_view(&self) -> Seq<Notice> {
        self.private@.map_values(|m: SessionMessage| m@)
    }

    /// The broadcast as a notice.
    pub open spec fn broadcast_view(&self) -> Option<Notice> {
        match self.broadcast {
            Some(m) => Some(m@),
            None => None,
        }
    }
}

/// The mathematical state of a session. Times are in milliseconds, the timer length
/// in seconds.
#[verifier::ext_equal]
pub struct SessionView {
    pub id: u64,
    pub name: Seq<char>,
    pub timer: u64,
    pub timer_token: Option<u64>,
    pub next_token: u64,
    pub started_at: u64,
    pub elapsed: u64,
    pub blacklist: Set<u64>,
    pub admin: u64,
    pub last_uid: u64,
    pub status: SessionStatus,
    pub participants: Seq<(u64, Seq<char>)>,
    pub closed: bool,
}

/// The decimal digits of `n`.
pub open spec fn decimal(n: nat) -> Seq<char>
    decreases n,
{
    let d = seq![(((n % 10) + 48) as u8) as char];
    if n < 10 {
        d
    } else {
        decimal(n / 10) + d
    }
}

/// The display name that a participant has when it joins.
pub open spec fn default_name(id: u64) -> Seq<char> {
    seq!['u', 's', 'e', 'r'] + decimal(id as nat)
}

/// Relies on `ToString` through `Display` for `u64`, which writes the number in
/// decimal, without sign or padding.
#[verifier::external_body]
fn digits_of(id: u64) -> (r: String)
    ensures
        r@ == decimal(id as nat),
{
    id.to_string()
}

/// The display name of the participant `id` when it joins.
fn default_name_of(id: u64) -> (r: String)
    ensures
        r@ == default_name(id),
{
    let digits = digits_of(id);
    let mut name = String::from_str("user");
    proof {
        reveal_strlit("user");
    }
    name.append(digits.as_str());
    name
}

/// The timer length in milliseconds, capped at the largest `u64`.
pub open spec fn timer_ms(timer: u64) -> u64 {
    if timer <= u64::MAX / 1000 {
        (timer * 1000) as u64
    } else {
        u64::MAX
    }
}

/// The running time accumulated when the countdown stops at `now`, never past the timer.
pub open spec fn accumulated(s: SessionView, now: u64) -> u64 {
    let ran: int = if now >= s.started_at { now - s.started_at } else { 0 };
    let total: int = s.elapsed + ran;
    if total >= timer_ms(s.timer) {
        timer_ms(s.timer)
    } else {
        total as u64
    }
}

/// Whether the roster has a participant `id`.
pub open spec fn holds(ps: Seq<(u64, Seq<char>)>, id: u64) -> bool {
    exists|i: int| 0 <= i < ps.len() && ps[i].0 == id
}

/// An index of the roster that holds participant `id`.
pub open spec fn position(ps: Seq<(u64, Seq<char>)>, id: u64) -> int {
    choose|i: int| 0 <= i < ps.len() && ps[i].0 == id
}

/// The roster with the participant `id` renamed.
pub open spec fn renamed(ps: Seq<(u64, Seq<char>)>, id: u64, name: Seq<char>) -> Seq<(u64, Seq<char>)> {
    if holds(ps, id) {
        ps.update(position(ps, id), (id, name))
    } else {
        ps
    }
}

/// The roster without the participant `id`.
pub open spec fn without(ps: Seq<(u64, Seq<char>)>, id: u64) -> Seq<(u64, Seq<char>)> {
    if holds(ps, id) {
        ps.remove(position(ps, id))
    } else {
        ps
    }
}

/// The identifiers of a roster, in order.
pub open spec fn ids(ps: Seq<(u64, Seq<char>)>) -> Seq<u64> {
    ps.map_values(|p: (u64, Seq<char>)| p.0)
}

impl SessionView {
    /// The session's invariant.
    pub open spec fn wf(self) -> bool {
        &&& (self.timer_token is Some <==> self.status == SessionStatus::Running)
        &&& self.elapsed <= timer_ms(self.timer)
        &&& (self.status == SessionStatus::Waiting ==> self.elapsed == 0)
        &&& (self.last_uid > 0 ==> self.admin == 1)
        &&& (self.status == SessionStatus::Running ==> self.last_uid > 0)
        &&& (self.last_uid > 0 && !self.closed ==> holds(self.participants, self.admin))
        &&& (forall|i: int, j: int|
            0 <= i < j < self.participants.len() ==> self.participants[i].0 < self.participants[j].0)
        &&& (forall|i: int|
            0 <= i < self.participants.len() ==> 1 <= #[trigger] self.participants[i].0 <= self.last_uid)
        &&& (forall|i: u64|
            #[trigger] self.blacklist.contains(i) ==> 1 <= i <= self.last_uid)
    }

    /// Whether `from` is the admin: the first participant that ever joined.
    pub open spec fn is_admin(self, from: u64) -> bool {
        self.last_uid > 0 && from == self.admin
    }

    /// Whether `from` has ever joined this session.
    pub open spec fn ever_joined(self, from: u64) -> bool {
        1 <= from <= self.last_uid
    }

    /// The countdown stops at `now` and the running time is kept.
    pub open spec fn stopped(self, now: u64) -> SessionView {
        SessionView {
            timer_token: None,
            elapsed: accumulated(self, now),
            status: SessionStatus::Paused,
            ..self
        }
    }

    /// Back to waiting: blacklist cleared, no running time, no countdown.
    pub open spec fn reset_state(self) -> SessionView {
        SessionView {
            timer_token: None,
            elapsed: 0,
            status: SessionStatus::Waiting,
            blacklist: Set::empty(),
            ..self
        }
    }

    /// Whether a buzz from `from` wins the running countdown cycle.
    pub open spec fn buzz_accepted(self, from: u64) -> bool {
        self.status == SessionStatus::Running && self.ever_joined(from) && !self.blacklist.contains(from)
    }

    /// Whether an identifier is left to mint.
    pub open spec fn can_join(self) -> bool {
        self.last_uid < u64::MAX
    }

    /// The state after one intent at time `now`.
    pub open spec fn next(self, msg: ClientMessage, now: u64) -> SessionView {
        if self.closed {
            self
        } else {
            match msg {
                ClientMessage::Buzz { from } => if self.buzz_accepted(from) {
                    SessionView { blacklist: self.blacklist.insert(from), ..self.stopped(now) }
                } else {
                    self
                },
                ClientMessage::ChangeName { from, name } => if holds(self.participants, from) {
                    SessionView { participants: renamed(self.participants, from, name@), ..self }
                } else {
                    self
                },
                ClientMessage::ChangeSession { from, name, timer } =>
                    if self.is_admin(from) && self.status == SessionStatus::Waiting {
                        SessionView { name: name@, timer, ..self }
                    } else {
                        self
                    },
                ClientMessage::CloseSession { from } => if self.is_admin(from) {
                    SessionView { closed: true, ..self }
                } else {
                    self
                },
                ClientMessage::ResumeSession { from } =>
                    if self.is_admin(from) && self.status != SessionStatus::Running {
                        SessionView {
                            status: SessionStatus::Running,
                            started_at: now,
                            timer_token: Some(self.next_token),
                            next_token: if self.next_token < u64::MAX { (self.next_token + 1) as u64 } else { 0 },
                            ..self
                        }
                    } else {
                        self
                    },
                ClientMessage::PauseSession { from } =>
                    if self.is_admin(from) && self.status == SessionStatus::Running {
                        self.stopped(now)
                    } else {
                        self
                    },
                ClientMessage::ResetSession { from } => if self.is_admin(from) {
                    self.reset_state()
                } else {
                    self
                },
                ClientMessage::ResetBlacklist { from } => if self.is_admin(from) {
                    SessionView { blacklist: Set::empty(), ..self }
                } else {
                    self
                },
                ClientMessage::Disconnected { from } => if holds(self.participants, from) {
                    SessionView {
                        participants: without(self.participants, from),
                        closed: self.is_admin(from),
                        ..self
                    }
                } else {
                    self
                },
                ClientMessage::Connect => if self.can_join() {
                    let id = (self.last_uid + 1) as u64;
                    SessionView {
                        last_uid: id,
                        admin: if self.last_uid == 0 { id } else { self.admin },
                        participants: self.participants.push((id, default_name(id))),
                        ..self
                    }
                } else {
                    self
                },
            }
        }
    }

    /// The notification broadcast by one intent, if any.
    pub open spec fn broadcast(self, msg: ClientMessage, now: u64) -> Option<Notice> {
        if self.closed {
            None
        } else {
            match msg {
                ClientMessage::Buzz { from } => if self.buzz_accepted(from) {
                    Some(Notice::Buzzed { id: from })
                } else {
                    None
                },
                ClientMessage::ChangeName { from, name } => if holds(self.participants, from) {
                    Some(Notice::ChangedName { name: name@, id: from })
                } else {
                    None
                },
                ClientMessage::ChangeSession { from, name, timer } =>
                    if self.is_admin(from) && self.status == SessionStatus::Waiting {
                        Some(Notice::Changed { name: name@, timer })
                    } else {
                        None
                    },
                ClientMessage::CloseSession { from } => if self.is_admin(from) {
                    Some(Notice::Closed)
                } else {
                    None
                },
                ClientMessage::ResumeSession { from } =>
                    if self.is_admin(from) && self.status != SessionStatus::Running {
                        Some(Notice::Resumed { left: (timer_ms(self.timer) - self.elapsed) as u64 })
                    } else {
                        None
                    },
                ClientMessage::PauseSession { from } =>
                    if self.is_admin(from) && self.status == SessionStatus::Running {
                        Some(Notice::Paused)
                    } else {
                        None
                    },
                ClientMessage::ResetSession { from } => if self.is_admin(from) {
                    Some(Notice::Reset)
                } else {
                    None
                },
                ClientMessage::ResetBlacklist { from } => if self.is_admin(from) {
                    Some(Notice::BlacklistCleared)
                } else {
                    None
                },
                ClientMessage::Disconnected { from } => if !holds(self.participants, from) {
                    None
                } else if self.is_admin(from) {
                    Some(Notice::Closed)
                } else {
                    Some(Notice::Disconnected { id: from })
                },
                ClientMessage::Connect => if self.can_join() {
                    let id = (self.last_uid + 1) as u64;
                    Some(Notice::Connected { name: default_name(id), id })
                } else {
                    None
                },
            }
        }
    }

    /// What to do with the countdown callback after one intent.
    pub open spec fn timer_command(self, msg: ClientMessage, now: u64) -> TimerCommand {
        let cancel = self.cancel();
        if self.closed {
            TimerCommand::Keep
        } else {
            match msg {
                ClientMessage::Buzz { from } => if self.buzz_accepted(from) { cancel } else { TimerCommand::Keep },
                ClientMessage::ResumeSession { from } =>
                    if self.is_admin(from) && self.status != SessionStatus::Running {
                        TimerCommand::Schedule {
                            token: self.next_token,
                            delay: (timer_ms(self.timer) - self.elapsed) as u64,
                        }
                    } else {
                        TimerCommand::Keep
                    },
                ClientMessage::PauseSession { from } =>
                    if self.is_admin(from) && self.status == SessionStatus::Running {
                        cancel
                    } else {
                        TimerCommand::Keep
                    },
                ClientMessage::ResetSession { from } => if self.is_admin(from) { cancel } else { TimerCommand::Keep },
                _ => TimerCommand::Keep,
            }
        }
    }

    /// The private messages to a participant that joins: a snapshot, then one
    /// `Connected` for each participant already there.
    pub open spec fn welcome(self) -> Seq<Notice> {
        let id = (self.last_uid + 1) as u64;
        seq![Notice::ConnectionSuccess {
            id,
            is_admin: self.last_uid == 0,
            name: self.name,
            timer: self.timer,
            elapsed: self.elapsed,
            status: self.status,
        }] + self.participants.map_values(|p: (u64, Seq<char>)| Notice::Connected { name: p.1, id: p.0 })
    }

    /// The state after the countdown callback `token` fires.
    pub open spec fn expired(self, token: u64) -> SessionView {
        if !self.closed && self.timer_token == Some(token) {
            self.reset_state()
        } else {
            self
        }
    }
}

/// A session: one game with its admin, roster, blacklist and countdown.
#[derive(Debug)]
pub struct Session {
    id: u64,
    name: String,
    timer: u64,
    timer_token: Option<u64>,
    next_token: u64,
    started_at: u64,
    elapsed: u64,
    blacklist: HashSet<u64>,
    admin: u64,
    last_uid: u64,
    status: SessionStatus,
    clients: Vec<Participant>,
    closed: bool,
}

/// A roster as identifiers and names.
pub open spec fn roster_view(v: Seq<Participant>) -> Seq<(u64, Seq<char>)> {
    v.map_values(|p: Participant| (p.id, p.name@))
}

impl View for Session {
    type V = SessionView;

    closed spec fn view(&self) -> SessionView {
        SessionView {
            id: self.id,
            name: self.name@,
            timer: self.timer,
            timer_token: self.timer_token,
            next_token: self.next_token,
            started_at: self.started_at,
            elapsed: self.elapsed,
            blacklist: self.blacklist@,
            admin: self.admin,
            last_uid: self.last_uid,
            status: self.status,
            participants: roster_view(self.clients@),
            closed: self.closed,
        }
    }
}

fn find_participant(v: &Vec<Participant>, id: u64) -> (r: Option<usize>)
    ensures
        match r {
            Some(i) => i < v.len() && v@[i as int].id == id,
            None => !holds(roster_view(v@), id),
        },
{
    let mut i: usize = 0;
    while i < v.len()
        invariant
            0 <= i <= v.len(),
            forall|j: int| 0 <= j < i ==> v@[j].id != id,
        decreases v.len() - i,
    {
        if v[i].id == id {
            return Some(i);
        }
        i += 1;
    }
    assert(!holds(roster_view(v@), id)) by {
        if holds(roster_view(v@), id) {
            let j = choose|j: int| 0 <= j < roster_view(v@).len() && roster_view(v@)[j].0 == id;
            assert(v@[j].id == id);
        }
    }
    None
}

fn roster_ids(v: &Vec<Participant>) -> (r: Vec<u64>)
    ensures
        r@ == ids(roster_view(v@)),
{
    let mut out: Vec<u64> = Vec::new();
    let mut i: usize = 0;
    while i < v.len()
        invariant
            0 <= i <= v.len(),
            out@ == ids(roster_view(v@)).take(i as int),
        decreases v.len() - i,
    {
        out.push(v[i].id);
        i += 1;
        assert(out@ =~= ids(roster_view(v@)).take(i as int));
    }
    assert(out@ =~= ids(roster_view(v@)));
    out
}

/// With strictly increasing identifiers, the index that holds `id` is its position.
proof fn lemma_position(ps: Seq<(u64, Seq<char>)>, id: u64, i: int)
    requires
        forall|a: int, b: int| 0 <= a < b < ps.len() ==> ps[a].0 < ps[b].0,
        0 <= i < ps.len(),
        ps[i].0 == id,
    ensures
        holds(ps, id),
        position(ps, id) == i,
{
    assert(holds(ps, id));
    let k = position(ps, id);
    if k < i {
        assert(ps[k].0 < ps[i].0);
    } else if k > i {
        assert(ps[i].0 < ps[k].0);
    }
}

proof fn lemma_remove_keeps_order(ps: Seq<(u64, Seq<char>)>, k: int, bound: u64)
    requires
        0 <= k < ps.len(),
        forall|a: int, b: int| 0 <= a < b < ps.len() ==> ps[a].0 < ps[b].0,
        forall|a: int| 0 <= a < ps.len() ==> 1 <= #[trigger] ps[a].0 <= bound,
    ensures
        forall|a: int, b: int| 0 <= a < b < ps.remove(k).len() ==> ps.remove(k)[a].0 < ps.remove(k)[b].0,
        forall|a: int| 0 <= a < ps.remove(k).len() ==> 1 <= #[trigger] ps.remove(k)[a].0 <= bound,
{
    let r = ps.remove(k);
    assert forall|a: int| 0 <= a < r.len() implies r[a] == (if a < k { ps[a] } else { ps[a + 1] }) by {}
    assert forall|a: int, b: int| 0 <= a < b < r.len() implies r[a].0 < r[b].0 by {
        let a2 = if a < k { a } else { a + 1 };
        let b2 = if b < k { b } else { b + 1 };
        assert(ps[a2].0 < ps[b2].0);
    }
    assert forall|a: int| 0 <= a < r.len() implies 1 <= #[trigger] r[a].0 <= bound by {
        let a2 = if a < k { a } else { a + 1 };
        assert(1 <= ps[a2].0 <= bound);
    }
}

/// Every step keeps the session's invariant; in particular a countdown callback is
/// pending exactly while the session is running.
pub proof fn lemma_next_keeps_invariant(s: SessionView, msg: ClientMessage, now: u64)
    requires
        s.wf(),
    ensures
        s.next(msg, now).wf(),
        s.next(msg, now).timer_token is Some <==> s.next(msg, now).status == SessionStatus::Running,
{
    let t = s.next(msg, now);
    if !s.closed {
        match msg {
            ClientMessage::Buzz { from } => {
                if s.buzz_accepted(from) {
                }
            },
            ClientMessage::ChangeName { from, name } => {
                if holds(s.participants, from) {
                    let k = position(s.participants, from);
                    assert forall|a: int, b: int| 0 <= a < b < t.participants.len() implies t.participants[a].0
                        < t.participants[b].0 by {
                        assert(s.participants[a].0 < s.participants[b].0);
                    }
                    assert forall|a: int| 0 <= a < t.participants.len() implies 1 <= #[trigger] t.participants[a].0
                        <= t.last_uid by {
                        assert(1 <= s.participants[a].0 <= s.last_uid);
                    }
                    if s.last_uid > 0 {
                        let w = choose|w: int| 0 <= w < s.participants.len() && s.participants[w].0 == s.admin;
                        assert(t.participants[w].0 == s.admin);
                    }
                }
            },
            ClientMessage::Disconnected { from } => {
                if holds(s.participants, from) {
                    let k = position(s.participants, from);
                    lemma_remove_keeps_order(s.participants, k, s.last_uid);
                    if !t.closed && s.last_uid > 0 {
                        let w = choose|w: int| 0 <= w < s.participants.len() && s.participants[w].0 == s.admin;
                        assert(w != k);
                        let w2 = if w < k { w } else { w - 1 };
                        assert(t.participants[w2] == s.participants[w]);
                    }
                }
            },
            ClientMessage::Connect => {
                if s.can_join() {
                    let id = (s.last_uid + 1) as u64;
                    assert forall|a: int, b: int| 0 <= a < b < t.participants.len() implies t.participants[a].0
                        < t.participants[b].0 by {
                        assert(1 <= s.participants[a].0 <= s.last_uid);
                        if b < s.participants.len() {
                            assert(s.participants[a].0 < s.participants[b].0);
                        }
                    }
                    assert forall|a: int| 0 <= a < t.participants.len() implies 1 <= #[trigger] t.participants[a].0
                        <= t.last_uid by {
                        if a < s.participants.len() {
                            assert(1 <= s.participants[a].0 <= s.last_uid);
                        }
                    }
                    if s.last_uid == 0 {
                        assert(t.participants[s.participants.len() as int].0 == t.admin);
                    } else {
                        let w = choose|w: int| 0 <= w < s.participants.len() && s.participants[w].0 == s.admin;
                        assert(t.participants[w].0 == s.admin);
                    }
                }
            },
            _ => {},
        }
    }
}

/// The timer length in milliseconds, capped at the largest `u64`.
pub fn timer_millis(timer: u64) -> (r: u64)
    ensures
        r == timer_ms(timer),
{
    if timer <= u64::MAX / 1000 {
        timer * 1000
    } else {
        u64::MAX
    }
}

impl SessionView {
    /// The command that cancels the pending countdown callback, if there is one.
    pub open spec fn cancel(self) -> TimerCommand {
        match self.timer_token {
            Some(t) => TimerCommand::Cancel { token: t },
            None => TimerCommand::Keep,
        }
    }
}

impl Session {
    /// The session's invariant, over its view.
    pub open spec fn wf(&self) -> bool {
        self@.wf()
    }

    /// A new session, waiting, with no participants yet.
    pub fn new(id: u64, name: String, timer: u64) -> (r: Session)
        ensures
            r.wf(),
            r@ == (SessionView {
                id,
                name: name@,
                timer,
                timer_token: None,
                next_token: 0,
                started_at: 0,
                elapsed: 0,
                blacklist: Set::empty(),
                admin: 0,
                last_uid: 0,
                status: SessionStatus::Waiting,
                participants: Seq::empty(),
                closed: false,
            }),
    {
        let r = Session {
            id,
            name,
            timer,
            timer_token: None,
            next_token: 0,
            started_at: 0,
            elapsed: 0,
            blacklist: HashSet::new(),
            admin: 0,
            last_uid: 0,
            status: SessionStatus::Waiting,
            clients: Vec::new(),
            closed: false,
        };
        proof {
            assert(r@.participants =~= Seq::empty());
        }
        r
    }

    pub fn id(&self) -> (r: u64)
        ensures
            r == self@.id,
    {
        self.id
    }

    pub fn name(&self) -> (r: String)
        ensures
            r@ == self@.name,
    {
        self.name.clone()
    }

    /// The timer length in seconds.
    pub fn timer(&self) -> (r: u64)
        ensures
            r == self@.timer,
    {
        self.timer
    }

    /// The running time of the current countdown cycle in milliseconds, up to the
    /// moment it last stopped.
    pub fn elapsed(&self) -> (r: u64)
        ensures
            r == self@.elapsed,
    {
        self.elapsed
    }

    pub fn status(&self) -> (r: SessionStatus)
        ensures
            r == self@.status,
    {
        self.status
    }

    /// The admin's identifier, 0 while nobody has joined.
    pub fn admin(&self) -> (r: u64)
        ensures
            r == self@.admin,
    {
        self.admin
    }

    pub fn is_closed(&self) -> (r: bool)
        ensures
            r == self@.closed,
    {
        self.closed
    }

    /// The token of the pending countdown callback.
    pub fn timer_token(&self) -> (r: Option<u64>)
        ensures
            r == self@.timer_token,
    {
        self.timer_token
    }

    /// Whether `id` has buzzed in the current countdown cycle.
    pub fn is_blacklisted(&self, id: u64) -> (r: bool)
        ensures
            r == self@.blacklist.contains(id),
    {
        self.blacklist.contains(&id)
    }

    /// How many participants have buzzed in the current countdown cycle.
    pub fn blacklist_len(&self) -> (r: usize)
        ensures
            r == self@.blacklist.len(),
    {
        self.blacklist.len()
    }

    /// The identifiers of the participants, in the order they joined.
    pub fn participant_ids(&self) -> (r: Vec<u64>)
        ensures
            r@ == ids(self@.participants),
    {
        roster_ids(&self.clients)
    }

    /// The command that cancels the pending countdown callback, if there is one.
    fn cancel_command(&self) -> (r: TimerCommand)
        ensures
            r == self@.cancel(),
    {
        match self.timer_token {
            Some(t) => TimerCommand::Cancel { token: t },
            None => TimerCommand::Keep,
        }
    }

    /// Stops the running countdown at `now`, keeping the running time.
    fn stop(&mut self, now: u64) -> (r: TimerCommand)
        requires
            old(self).wf(),
        ensures
            final(self)@ == old(self)@.stopped(now),
            r == old(self)@.cancel(),
    {
        let r = self.cancel_command();
        let ran: u64 = if now >= self.started_at { now - self.started_at } else { 0 };
        let cap = timer_millis(self.timer);
        self.elapsed = if ran >= cap - self.elapsed { cap } else { self.elapsed + ran };
        self.timer_token = None;
        self.status = SessionStatus::Paused;
        proof {
            assert(self@ =~~= old(self)@.stopped(now));
        }
        r
    }

    /// Clears the blacklist and the running time and puts the session back to waiting.
    fn clear(&mut self)
        ensures
            final(self)@ == old(self)@.reset_state(),
    {
        self.timer_token = None;
        self.elapsed = 0;
        self.status = SessionStatus::Waiting;
        self.blacklist = HashSet::new();
        proof {
            assert(self@ =~~= old(self)@.reset_state());
        }
    }

    /// Ends the countdown cycle: cancels the pending callback, clears the blacklist
    /// and the running time, puts the session back to waiting and broadcasts `Reset`.
    pub fn reset(&mut self) -> (r: Outcome)
        requires
            old(self).wf(),
        ensures
            final(self)@ == old(self)@.reset_state(),
            final(self).wf(),
            r.joined is None,
            r.private@.len() == 0,
            r.broadcast_view() == Some(Notice::Reset),
            r.recipients@ == ids(final(self)@.participants),
            r.timer == old(self)@.cancel(),
            !r.close,
    {
        let timer = self.cancel_command();
        self.clear();
        Outcome {
            joined: None,
            private: Vec::new(),
            broadcast: Some(SessionMessage::Reset),
            recipients: roster_ids(&self.clients),
            timer,
            close: false,
        }
    }
}

impl SessionView {
    /// The private messages owed to the sender of one intent.
    pub open spec fn private(self, msg: ClientMessage) -> Seq<Notice> {
        if !self.closed && msg is Connect && self.can_join() {
            self.welcome()
        } else {
            Seq::empty()
        }
    }

    /// The identifier minted by one intent, if any.
    pub open spec fn joined(self, msg: ClientMessage) -> Option<u64> {
        if !self.closed && msg is Connect && self.can_join() {
            Some((self.last_uid + 1) as u64)
        } else {
            None
        }
    }
}

impl Session {
    /// The private messages to a participant that joins now.
    fn welcome(&self) -> (r: Vec<SessionMessage>)
        requires
            self.wf(),
            self@.can_join(),
        ensures
            r@.map_values(|m: SessionMessage| m@) == self@.welcome(),
    {
        let id = self.last_uid + 1;
        let mut out: Vec<SessionMessage> = Vec::new();
        out.push(SessionMessage::ConnectionSuccess {
            id,
            is_admin: self.last_uid == 0,
            name: self.name.clone(),
            timer: self.timer,
            elapsed: self.elapsed,
            status: self.status,
        });
        let ghost replay = self@.participants.map_values(
            |p: (u64, Seq<char>)| Notice::Connected { name: p.1, id: p.0 },
        );
        let ghost head = seq![out@[0]@];
        let mut i: usize = 0;
        while i < self.clients.len()
            invariant
                0 <= i <= self.clients.len(),
                self.wf(),
                replay == self@.participants.map_values(
                    |p: (u64, Seq<char>)| Notice::Connected { name: p.1, id: p.0 },
                ),
                head.len() == 1,
                head[0] == self@.welcome()[0],
                out@.map_values(|m: SessionMessage| m@) == head + replay.take(i as int),
            decreases self.clients.len() - i,
        {
            let p = &self.clients[i];
            proof {
                assert(self@.participants[i as int] == (p.id, p.name@));
                assert(replay[i as int] == Notice::Connected { name: p.name@, id: p.id });
            }
            let item = SessionMessage::Connected { name: p.name.clone(), id: p.id };
            assert(item@ == replay[i as int]);
            let ghost before = out@.map_values(|x: SessionMessage| x@);
            out.push(item);
            proof {
                let after = out@.map_values(|x: SessionMessage| x@);
                assert(after =~= before.push(replay[i as int]));
                assert(head + replay.take(i + 1) =~= (head + replay.take(i as int)).push(replay[i as int]));
            }
            i += 1;
        }
        proof {
            assert(replay.take(i as int) =~= replay);
            assert(out@.map_values(|m: SessionMessage| m@) =~= self@.welcome());
        }
        out
    }

    /// Takes one intent at time `now` (in milliseconds): applies the transition that
    /// its guard admits, or none, and says what to deliver and what to do with the
    /// countdown callback.
    pub fn handle(&mut self, msg: ClientMessage, now: u64) -> (r: Outcome)
        requires
            old(self).wf(),
        ensures
            final(self)@ == old(self)@.next(msg, now),
            final(self).wf(),
            r.joined == old(self)@.joined(msg),
            r.private_view() == old(self)@.private(msg),
            r.broadcast_view() == old(self)@.broadcast(msg, now),
            r.recipients@ == ids(final(self)@.participants),
            r.timer == old(self)@.timer_command(msg, now),
            r.close == (!old(self)@.closed && final(self)@.closed),
    {
        let ghost pre = self@;
        let ghost m = msg;
        proof {
            lemma_next_keeps_invariant(pre, m, now);
        }
        let mut joined: Option<u64> = None;
        let mut private: Vec<SessionMessage> = Vec::new();
        let mut broadcast: Option<SessionMessage> = None;
        let mut timer = TimerCommand::Keep;
        let mut close = false;
        if !self.closed {
            let has_admin = self.last_uid > 0;
            match msg {
                ClientMessage::Buzz { from } => {
                    if self.status == SessionStatus::Running && 1 <= from && from <= self.last_uid
                        && !self.blacklist.contains(&from) {
                        timer = self.stop(now);
                        self.blacklist.insert(from);
                        broadcast = Some(SessionMessage::Buzzed { id: from });
                        proof {
                            assert(self@ =~~= pre.next(m, now));
                        }
                    }
                },
                ClientMessage::ChangeName { from, name } => {
                    match find_participant(&self.clients, from) {
                        Some(i) => {
                            proof {
                                lemma_position(pre.participants, from, i as int);
                            }
                            self.clients.set(i, Participant { id: from, name: name.clone() });
                            broadcast = Some(SessionMessage::ChangedName { name, id: from });
                            proof {
                                assert(self@.participants =~= pre.participants.update(i as int, (from, m->ChangeName_name@)));
                                assert(self@ =~~= pre.next(m, now));
                            }
                        },
                        None => {},
                    }
                },
                ClientMessage::ChangeSession { from, name, timer: t } => {
                    if has_admin && from == self.admin && self.status == SessionStatus::Waiting {
                        self.name = name.clone();
                        self.timer = t;
                        broadcast = Some(SessionMessage::Changed { name, timer: t });
                        proof {
                            assert(self@ =~~= pre.next(m, now));
                        }
                    }
                },
                ClientMessage::CloseSession { from } => {
                    if has_admin && from == self.admin {
                        self.closed = true;
                        close = true;
                        broadcast = Some(SessionMessage::Closed);
                        proof {
                            assert(self@ =~~= pre.next(m, now));
                        }
                    }
                },
                ClientMessage::ResumeSession { from } => {
                    if has_admin && from == self.admin && self.status != SessionStatus::Running {
                        let left = timer_millis(self.timer) - self.elapsed;
                        let token = self.next_token;
                        self.next_token = if token < u64::MAX { token + 1 } else { 0 };
                        self.timer_token = Some(token);
                        self.status = SessionStatus::Running;
                        self.started_at = now;
                        broadcast = Some(SessionMessage::Resumed { left });
                        timer = TimerCommand::Schedule { token, delay: left };
                        proof {
                            assert(self@ =~~= pre.next(m, now));
                        }
                    }
                },
                ClientMessage::PauseSession { from } => {
                    if has_admin && from == self.admin && self.status == SessionStatus::Running {
                        timer = self.stop(now);
                        broadcast = Some(SessionMessage::Paused);
                    }
                },
                ClientMessage::ResetSession { from } => {
                    if has_admin && from == self.admin {
                        timer = self.cancel_command();
                        self.clear();
                        broadcast = Some(SessionMessage::Reset);
                    }
                },
                ClientMessage::ResetBlacklist { from } => {
                    if has_admin && from == self.admin {
                        self.blacklist = HashSet::new();
                        broadcast = Some(SessionMessage::BlacklistCleared);
                        proof {
                            assert(self@ =~~= pre.next(m, now));
                        }
                    }
                },
                ClientMessage::Disconnected { from } => {
                    match find_participant(&self.clients, from) {
                        Some(i) => {
                            proof {
                                lemma_position(pre.participants, from, i as int);
                            }
                            self.clients.remove(i);
                            proof {
                                assert(self@.participants =~= pre.participants.remove(i as int));
                            }
                            if has_admin && from == self.admin {
                                self.closed = true;
                                close = true;
                                broadcast = Some(SessionMessage::Closed);
                            } else {
                                broadcast = Some(SessionMessage::Disconnected { id: from });
                            }
                            proof {
                                assert(self@ =~~= pre.next(m, now));
                            }
                        },
                        None => {},
                    }
                },
                ClientMessage::Connect => {
                    if self.last_uid < u64::MAX {
                        private = self.welcome();
                        let id = self.last_uid + 1;
                        if self.last_uid == 0 {
                            self.admin = id;
                        }
                        self.last_uid = id;
                        let name = default_name_of(id);
                        self.clients.push(Participant { id, name: name.clone() });
                        broadcast = Some(SessionMessage::Connected { name, id });
                        joined = Some(id);
                        proof {
                            assert(self@.participants =~= pre.participants.push((id, default_name(id))));
                            assert(self@ =~~= pre.next(m, now));
                        }
                    }
                },
            }
        }
        proof {
            assert(private@.map_values(|x: SessionMessage| x@) =~= pre.private(m));
        }
        let recipients = roster_ids(&self.clients);
        Outcome { joined, private, broadcast, recipients, timer, close }
    }

    /// The countdown callback `token` has fired at its natural end. Unless it was
    /// superseded, this ends the cycle as `reset` does.
    pub fn expire(&mut self, token: u64) -> (r: Outcome)
        requires
            old(self).wf(),
        ensures
            final(self)@ == old(self)@.expired(token),
            final(self).wf(),
            r.joined is None,
            r.private@.len() == 0,
            r.broadcast_view() == (if !old(self)@.closed && old(self)@.timer_token == Some(token) {
                Some(Notice::Reset)
            } else {
                None
            }),
            r.recipients@ == ids(final(self)@.participants),
            r.timer == TimerCommand::Keep,
            !r.close,
    {
        if !self.closed && self.timer_token == Some(token) {
            let r = self.reset();
            Outcome { timer: TimerCommand::Keep, ..r }
        } else {
            Outcome {
                joined: None,
                private: Vec::new(),
                broadcast: None,
                recipients: roster_ids(&self.clients),
                timer: TimerCommand::Keep,
                close: false,
            }
        }
    }
}

} // verus!
