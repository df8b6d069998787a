use vstd::prelude::*;

verus! {

/// Where a connection stands.
#[derive(Debug, Clone, Copy, PartialEq, Eq, Structural)]
pub enum ConnectionState {
    Disconnected,
    Connecting,
    Authenticating,
    Idle,
    Busy,
    Reconnecting,
    Fatal,
}

/// What happened on the transport, or what the application asks for.
#[derive(Debug, Clone, Copy, PartialEq, Eq, Structural)]
pub enum Event {
    /// The application wants a connection.
    Start,
    /// The transport is open.
    Opened,
    /// The daemon took the password.
    AuthAccepted,
    /// The daemon refused the password.
    AuthRejected,
    /// The application has a command to send.
    Request,
    /// An idle request came back, with changes or drained after a cancel.
    IdleReturned,
    /// The response of the command in flight was read to its end.
    ResponseDone,
    /// The transport broke.
    TransportFailed,
    /// The wait before the next connection attempt is over.
    RetryDue,
    /// The idle request has been out longer than the application allows.
    IdleExpired,
}

/// What the caller is to do next.
#[derive(Debug, Clone, Copy, PartialEq, Eq, Structural)]
pub enum Action {
    /// Nothing to write now.
    Nothing,
    Open,
    SendPassword,
    /// Write the blocking `idle` request.
    SendIdle,
    /// Write `noidle` and read the idle response to its end.
    CancelIdle,
    /// Write the command that the application asked for.
    SendCommand,
    /// Refresh status, current song and queue before anything else.
    Resync,
    /// Hand the changes of the idle response to the application and write
    /// `idle` again.
    DeliverChanges,
    /// Tell the caller the connection is taken; it may try again.
    RejectBusy,
    /// Tell the caller there is no connection.
    RejectDisconnected,
    ReportAuthError,
    /// Fail what was pending and wait this many milliseconds.
    Wait(u64),
    ReportFatal,
}

/// The reconnection policy: a delay that doubles up to a ceiling, and a
/// bounded number of attempts.
#[derive(Debug, Clone, Copy, PartialEq, Eq, Structural)]
pub struct RetryPolicy {
    pub first_delay_ms: u64,
    pub max_delay_ms: u64,
    pub max_attempts: u32,
}

/// The state of one connection to the daemon.
#[derive(Debug, Clone, Copy, PartialEq, Eq, Structural)]
pub struct Connection {
    pub state: ConnectionState,
    /// An `idle` request is out and not yet answered.
    pub idle_pending: bool,
    /// A `noidle` was written; the idle response is being drained.
    pub cancel_sent: bool,
    /// A `noidle` was written to renew an old idle request.
    pub renewing: bool,
    /// The daemon asks for a password.
    pub has_password: bool,
    /// The next connection must refresh all state first.
    pub resync_needed: bool,
    pub attempts: u32,
    pub next_delay_ms: u64,
    pub policy: RetryPolicy,
}

/// At most one request is ever in flight: a cancel is only out while a
/// command waits behind it, and an idle request only while nothing else is.
pub open spec fn connection_wf(c: Connection) -> bool {
    &&& c.cancel_sent ==> c.state == ConnectionState::Busy && c.idle_pending
    &&& c.idle_pending ==> c.state == ConnectionState::Idle || c.cancel_sent
    &&& c.renewing ==> c.state == ConnectionState::Idle && c.idle_pending
    &&& c.next_delay_ms <= c.policy.max_delay_ms
}

/// The smaller of two integers.
pub open spec fn min_int(a: int, b: int) -> int {
    if a < b {
        a
    } else {
        b
    }
}

/// The connection after `ev`, and what to do.
pub open spec fn spec_transition(c: Connection, ev: Event) -> (Connection, Action) {
    match ev {
        Event::Start => if c.state == ConnectionState::Disconnected {
            (Connection { state: ConnectionState::Connecting, ..c }, Action::Open)
        } else {
            (c, Action::Nothing)
        },
        Event::Opened => if c.state != ConnectionState::Connecting {
            (c, Action::Nothing)
        } else if c.has_password {
            (Connection { state: ConnectionState::Authenticating, ..c }, Action::SendPassword)
        } else {
            after_login(c)
        },
        Event::AuthAccepted => if c.state == ConnectionState::Authenticating {
            after_login(c)
        } else {
            (c, Action::Nothing)
        },
        Event::AuthRejected => if c.state == ConnectionState::Authenticating {
            (Connection { state: ConnectionState::Disconnected, ..c }, Action::ReportAuthError)
        } else {
            (c, Action::Nothing)
        },
        Event::Request => if c.state == ConnectionState::Idle {
            if c.renewing {
                (
                    Connection { state: ConnectionState::Busy, cancel_sent: true, renewing: false, ..c },
                    Action::Nothing,
                )
            } else if c.idle_pending {
                (Connection { state: ConnectionState::Busy, cancel_sent: true, ..c }, Action::CancelIdle)
            } else {
                (Connection { state: ConnectionState::Busy, ..c }, Action::SendCommand)
            }
        } else if c.state == ConnectionState::Busy {
            (c, Action::RejectBusy)
        } else {
            (c, Action::RejectDisconnected)
        },
        Event::IdleReturned => if c.cancel_sent {
            (Connection { cancel_sent: false, idle_pending: false, ..c }, Action::SendCommand)
        } else if c.renewing {
            (Connection { renewing: false, ..c }, Action::SendIdle)
        } else if c.state == ConnectionState::Idle && c.idle_pending {
            (c, Action::DeliverChanges)
        } else {
            (c, Action::Nothing)
        },
        Event::ResponseDone => if c.state == ConnectionState::Busy && !c.cancel_sent {
            (Connection { state: ConnectionState::Idle, idle_pending: true, ..c }, Action::SendIdle)
        } else {
            (c, Action::Nothing)
        },
        Event::TransportFailed => if c.state == ConnectionState::Disconnected || c.state
            == ConnectionState::Fatal || c.state == ConnectionState::Reconnecting {
            (c, Action::Nothing)
        } else if c.attempts >= c.policy.max_attempts {
            (
                Connection {
                    state: ConnectionState::Fatal,
                    idle_pending: false,
                    cancel_sent: false,
                    renewing: false,
                    ..c
                },
                Action::ReportFatal,
            )
        } else {
            (
                Connection {
                    state: ConnectionState::Reconnecting,
                    idle_pending: false,
                    cancel_sent: false,
                    renewing: false,
                    resync_needed: true,
                    attempts: (c.attempts + 1) as u32,
                    next_delay_ms: min_int(2 * c.next_delay_ms, c.policy.max_delay_ms as int) as u64,
                    ..c
                },
                Action::Wait(c.next_delay_ms),
            )
        },
        Event::RetryDue => if c.state == ConnectionState::Reconnecting {
            (Connection { state: ConnectionState::Connecting, ..c }, Action::Open)
        } else {
            (c, Action::Nothing)
        },
        Event::IdleExpired => if c.state == ConnectionState::Idle && c.idle_pending && !c.renewing {
            (Connection { renewing: true, ..c }, Action::CancelIdle)
        } else {
            (c, Action::Nothing)
        },
    }
}

/// Once logged in: refresh everything after a reconnect, else start idling.
pub open spec fn after_login(c: Connection) -> (Connection, Action) {
    if c.resync_needed {
        (
            Connection {
                state: ConnectionState::Busy,
                resync_needed: false,
                attempts: 0,
                next_delay_ms: c.policy.first_delay_ms,
                ..c
            },
            Action::Resync,
        )
    } else {
        (
            Connection {
                state: ConnectionState::Idle,
                idle_pending: true,
                attempts: 0,
                next_delay_ms: c.policy.first_delay_ms,
                ..c
            },
            Action::SendIdle,
        )
    }
}

impl Connection {
    /// A connection not yet opened.
    pub fn new(has_password: bool, policy: RetryPolicy) -> (r: Connection)
        requires
            policy.first_delay_ms <= policy.max_delay_ms,
        ensures
            r.state == ConnectionState::Disconnected,
            !r.idle_pending && !r.cancel_sent && !r.renewing && !r.resync_needed,
            r.attempts == 0,
            r.next_delay_ms == policy.first_delay_ms,
            r.has_password == has_password,
            r.policy == policy,
            connection_wf(r),
    {
        Connection {
            state: ConnectionState::Disconnected,
            idle_pending: false,
            cancel_sent: false,
            renewing: false,
            has_password,
            resync_needed: false,
            attempts: 0,
            next_delay_ms: policy.first_delay_ms,
            policy,
        }
    }

    fn login(&mut self) -> (a: Action)
        requires
            old(self).policy.first_delay_ms <= old(self).policy.max_delay_ms,
        ensures
            (*final(self), a) == after_login(*old(self)),
    {
        self.attempts = 0;
        self.next_delay_ms = self.policy.first_delay_ms;
        if self.resync_needed {
            self.resync_needed = false;
            self.state = ConnectionState::Busy;
            Action::Resync
        } else {
            self.state = ConnectionState::Idle;
            self.idle_pending = true;
            Action::SendIdle
        }
    }

    /// Takes one event and says what to do about it.
    pub fn step(&mut self, ev: Event) -> (a: Action)
        requires
            connection_wf(*old(self)),
            old(self).policy.first_delay_ms <= old(self).policy.max_delay_ms,
        ensures
            (*final(self), a) == spec_transition(*old(self), ev),
            connection_wf(*final(self)),
    {
        match ev {
            Event::Start => {
                if self.state == ConnectionState::Disconnected {
                    self.state = ConnectionState::Connecting;
                    Action::Open
                } else {
                    Action::Nothing
                }
            },
            Event::Opened => {
                if self.state != ConnectionState::Connecting {
                    Action::Nothing
                } else if self.has_password {
                    self.state = ConnectionState::Authenticating;
                    Action::SendPassword
                } else {
                    self.login()
                }
            },
            Event::AuthAccepted => {
                if self.state == ConnectionState::Authenticating {
                    self.login()
                } else {
                    Action::Nothing
                }
            },
            Event::AuthRejected => {
                if self.state == ConnectionState::Authenticating {
                    self.state = ConnectionState::Disconnected;
                    Action::ReportAuthError
                } else {
                    Action::Nothing
                }
            },
            Event::Request => {
                if self.state == ConnectionState::Idle {
                    self.state = ConnectionState::Busy;
                    if self.renewing {
                        self.renewing = false;
                        self.cancel_sent = true;
                        Action::Nothing
                    } else if self.idle_pending {
                        self.cancel_sent = true;
                        Action::CancelIdle
                    } else {
                        Action::SendCommand
                    }
                } else if self.state == ConnectionState::Busy {
                    Action::RejectBusy
                } else {
                    Action::RejectDisconnected
                }
            },
            Event::IdleReturned => {
                if self.cancel_sent {
                    self.cancel_sent = false;
                    self.idle_pending = false;
                    Action::SendCommand
                } else if self.renewing {
                    self.renewing = false;
                    Action::SendIdle
                } else if self.state == ConnectionState::Idle && self.idle_pending {
                    Action::DeliverChanges
                } else {
                    Action::Nothing
                }
            },
            Event::ResponseDone => {
                if self.state == ConnectionState::Busy && !self.cancel_sent {
                    self.state = ConnectionState::Idle;
                    self.idle_pending = true;
                    Action::SendIdle
                } else {
                    Action::Nothing
                }
            },
            Event::TransportFailed => {
                if self.state == ConnectionState::Disconnected || self.state == ConnectionState::Fatal
                    || self.state == ConnectionState::Reconnecting {
                    Action::Nothing
                } else if self.attempts >= self.policy.max_attempts {
                    self.state = ConnectionState::Fatal;
                    self.idle_pending = false;
                    self.cancel_sent = false;
                    self.renewing = false;
                    Action::ReportFatal
                } else {
                    let delay = self.next_delay_ms;
                    self.state = ConnectionState::Reconnecting;
                    self.idle_pending = false;
                    self.cancel_sent = false;
                    self.renewing = false;
                    self.resync_needed = true;
                    self.attempts = self.attempts + 1;
                    self.next_delay_ms = if delay > self.policy.max_delay_ms / 2 {
                        self.policy.max_delay_ms
                    } else {
                        2 * delay
                    };
                    Action::Wait(delay)
                }
            },
            Event::RetryDue => {
                if self.state == ConnectionState::Reconnecting {
                    self.state = ConnectionState::Connecting;
                    Action::Open
                } else {
                    Action::Nothing
                }
            },
            Event::IdleExpired => {
                if self.state == ConnectionState::Idle && self.idle_pending && !self.renewing {
                    self.renewing = true;
                    Action::CancelIdle
                } else {
                    Action::Nothing
                }
            },
        }
    }
}


/// A command asked for while an idle request is out goes out only after that
/// request is cancelled and its response drained: the request yields a
/// cancel; while draining, an end of response is not taken for the
/// command's and a second request is turned away; the drained idle response
/// lets the command go, with no idle request left out.
pub proof fn lemma_cancel_before_command(c: Connection)
    requires
        connection_wf(c),
        c.state == ConnectionState::Idle,
        c.idle_pending,
        !c.renewing,
    ensures
        ({
            let (c1, a1) = spec_transition(c, Event::Request);
            let (c2, a2) = spec_transition(c1, Event::IdleReturned);
            &&& a1 == Action::CancelIdle && c1.state == ConnectionState::Busy
            &&& spec_transition(c1, Event::ResponseDone) == (c1, Action::Nothing)
            &&& spec_transition(c1, Event::Request) == (c1, Action::RejectBusy)
            &&& a2 == Action::SendCommand && c2.state == ConnectionState::Busy
            &&& !c2.idle_pending && !c2.cancel_sent
        }),
{
}

} // verus!
