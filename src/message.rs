use vstd::prelude::*;

verus! {

/// Phase of a session's countdown.
#[derive(PartialEq, Eq, Structural, Clone, Copy, Debug)]
pub enum SessionStatus {
    Paused,
    Running,
    Waiting,
}

impl SessionStatus {
    /// The small integer that stands for the status on the wire.
    pub fn code(&self) -> (r: u8)
        ensures
            *self == SessionStatus::Paused ==> r == 0,
            *self == SessionStatus::Running ==> r == 1,
            *self == SessionStatus::Waiting ==> r == 2,
            r == status_code(*self),
    {
        match self {
            SessionStatus::Paused => 0,
            SessionStatus::Running => 1,
            SessionStatus::Waiting => 2,
        }
    }

    /// The status that the wire integer `code` stands for.
    pub fn from_code(code: u8) -> (r: Option<SessionStatus>)
        ensures
            code == 0 ==> r == Some(SessionStatus::Paused),
            code == 1 ==> r == Some(SessionStatus::Running),
            code == 2 ==> r == Some(SessionStatus::Waiting),
            code > 2 ==> r is None,
            r == status_of_code(code),
    {
        match code {
            0 => Some(SessionStatus::Paused),
            1 => Some(SessionStatus::Running),
            2 => Some(SessionStatus::Waiting),
            _ => None,
        }
    }
}

/// The wire integer of a status.
pub open spec fn status_code(s: SessionStatus) -> u8 {
    match s {
        SessionStatus::Paused => 0,
        SessionStatus::Running => 1,
        SessionStatus::Waiting => 2,
    }
}

/// The status that a wire integer stands for, if any.
pub open spec fn status_of_code(code: u8) -> Option<SessionStatus> {
    if code == 0 {
        Some(SessionStatus::Paused)
    } else if code == 1 {
        Some(SessionStatus::Running)
    } else if code == 2 {
        Some(SessionStatus::Waiting)
    } else {
        None
    }
}

/// A status written as its wire integer and read back is the same status.
pub proof fn lemma_status_code_round_trip(s: SessionStatus)
    ensures
        status_of_code(status_code(s)) == Some(s),
        status_code(s) <= 2,
{
}

/// A notification that a session sends to its participants.
#[derive(Clone, Debug, PartialEq, Eq)]
pub enum SessionMessage {
    Reset,
    Closed,
    /// Milliseconds left in the countdown.
    Resumed { left: u64 },
    Paused,
    BlacklistCleared,
    /// The timer is in seconds.
    Changed { name: String, timer: u64 },
    Connected { name: String, id: u64 },
    ChangedName { name: String, id: u64 },
    Disconnected { id: u64 },
    ConnectionSuccess {
        id: u64,
        is_admin: bool,
        name: String,
        timer: u64,
        elapsed: u64,
        status: SessionStatus,
    },
    Buzzed { id: u64 },
}

/// The mathematical value of a notification, with its texts as character sequences.
pub enum Notice {
    Reset,
    Closed,
    Resumed { left: u64 },
    Paused,
    BlacklistCleared,
    Changed { name: Seq<char>, timer: u64 },
    Connected { name: Seq<char>, id: u64 },
    ChangedName { name: Seq<char>, id: u64 },
    Disconnected { id: u64 },
    ConnectionSuccess {
        id: u64,
        is_admin: bool,
        name: Seq<char>,
        timer: u64,
        elapsed: u64,
        status: SessionStatus,
    },
    Buzzed { id: u64 },
}

impl View for SessionMessage {
    type V = Notice;

    open spec fn view(&self) -> Notice {
        match self {
            SessionMessage::Reset => Notice::Reset,
            SessionMessage::Closed => Notice::Closed,
            SessionMessage::Resumed { left } => Notice::Resumed { left: *left },
            SessionMessage::Paused => Notice::Paused,
            SessionMessage::BlacklistCleared => Notice::BlacklistCleared,
            SessionMessage::Changed { name, timer } => Notice::Changed { name: name@, timer: *timer },
            SessionMessage::Connected { name, id } => Notice::Connected { name: name@, id: *id },
            SessionMessage::ChangedName { name, id } => Notice::ChangedName { name: name@, id: *id },
            SessionMessage::Disconnected { id } => Notice::Disconnected { id: *id },
            SessionMessage::ConnectionSuccess { id, is_admin, name, timer, elapsed, status } =>
                Notice::ConnectionSuccess {
                    id: *id,
                    is_admin: *is_admin,
                    name: name@,
                    timer: *timer,
                    elapsed: *elapsed,
                    status: *status,
                },
            SessionMessage::Buzzed { id } => Notice::Buzzed { id: *id },
        }
    }
}

impl SessionMessage {
    /// A copy of the notification.
    pub fn duplicate(&self) -> (r: SessionMessage)
        ensures
            r@ == self@,
    {
        match self {
            SessionMessage::Reset => SessionMessage::Reset,
            SessionMessage::Closed => SessionMessage::Closed,
            SessionMessage::Resumed { left } => SessionMessage::Resumed { left: *left },
            SessionMessage::Paused => SessionMessage::Paused,
            SessionMessage::BlacklistCleared => SessionMessage::BlacklistCleared,
            SessionMessage::Changed { name, timer } => SessionMessage::Changed {
                name: name.clone(),
                timer: *timer,
            },
            SessionMessage::Connected { name, id } => SessionMessage::Connected {
                name: name.clone(),
                id: *id,
            },
            SessionMessage::ChangedName { name, id } => SessionMessage::ChangedName {
                name: name.clone(),
                id: *id,
            },
            SessionMessage::Disconnected { id } => SessionMessage::Disconnected { id: *id },
            SessionMessage::ConnectionSuccess { id, is_admin, name, timer, elapsed, status } =>
                SessionMessage::ConnectionSuccess {
                    id: *id,
                    is_admin: *is_admin,
                    name: name.clone(),
                    timer: *timer,
                    elapsed: *elapsed,
                    status: *status,
                },
            SessionMessage::Buzzed { id } => SessionMessage::Buzzed { id: *id },
        }
    }
}

} // verus!
