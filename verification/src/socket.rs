//! The socket handle: one OS descriptor, owned for the handle's whole
//! lifetime, behind a state-machine-guarded API.
//!
//! Every operation that reaches the OS is split in two: a guard method
//! that checks the state machine and prepares what the raw call needs
//! (`bind`, `listen`, `accept`), and a completion method that takes the
//! raw OS result and either advances the state or reports a typed error
//! (`bind_complete`, `listen_complete`, `accept_complete`).  The caller
//! performs the raw syscall in between and never has to interpret a raw
//! status code itself.

use crate::addr::{addr_record, dec_value, ipv4_split_at, parse_ipv4, record_spec, valid_ipv4};
use vstd::prelude::*;

verus! {

/// Lifecycle state of a socket handle.
///
/// States only advance forward along `Created -> Bound -> Listening`;
/// `Connected` is the state of a handle returned by a successful accept;
/// `Closed` is a terminal sink reachable from every state.
#[derive(Clone, Copy, Debug, PartialEq, Eq, Structural)]
pub enum SocketState {
    Created,
    Bound,
    Listening,
    Connected,
    Closed,
}

/// Typed errors for every fallible socket operation.
#[derive(Clone, Copy, Debug, PartialEq, Eq, Structural)]
pub enum SocketError {
    /// The OS failed to allocate a socket descriptor.
    SocketCreation,
    /// The supplied address string is not a valid dotted-decimal IPv4 literal.
    AddressParse,
    /// The operation is not permitted in the handle's current state.
    InvalidState,
    /// The OS reported failure for the bind call.
    Bind,
    /// The OS reported failure for the listen call.
    Listen,
    /// The OS reported failure for the accept call.
    Accept,
}

/// Rank of a state along the forward chain
/// `Created -> Bound -> Listening`; an accepted handle's `Connected` and
/// the terminal `Closed` sit past the chain's end.
pub open spec fn rank(s: SocketState) -> int {
    match s {
        SocketState::Created => 0,
        SocketState::Bound => 1,
        SocketState::Listening => 2,
        SocketState::Connected => 3,
        SocketState::Closed => 4,
    }
}

/// One observable step of a handle's lifecycle: the state is unchanged,
/// advances one step along `Created -> Bound -> Listening`, or drops to
/// the terminal `Closed`.
pub open spec fn advances(pre: SocketState, post: SocketState) -> bool {
    ||| post == pre
    ||| (pre == SocketState::Created && post == SocketState::Bound)
    ||| (pre == SocketState::Bound && post == SocketState::Listening)
    ||| post == SocketState::Closed
}

/// State after the raw OS bind result `res` is handed back: a `Created`
/// handle becomes `Bound` unless the OS reported failure; every other
/// state is left as it is.
pub open spec fn bind_step(pre: SocketState, res: int) -> SocketState {
    if pre == SocketState::Created && res != -1 {
        SocketState::Bound
    } else {
        pre
    }
}

/// State after the raw OS listen result `res` is handed back: a `Bound`
/// handle becomes `Listening` unless the OS reported failure; every
/// other state is left as it is.
pub open spec fn listen_step(pre: SocketState, res: int) -> SocketState {
    if pre == SocketState::Bound && res != -1 {
        SocketState::Listening
    } else {
        pre
    }
}

/// State of the fresh handle produced by handing back the raw OS accept
/// result `client_fd`: a usable descriptor accepted on a `Listening`
/// handle yields a `Connected` handle, and nothing else yields one.
pub open spec fn accept_new_state(pre: SocketState, client_fd: int) -> Option<SocketState> {
    if pre == SocketState::Listening && client_fd >= 0 {
        Some(SocketState::Connected)
    } else {
        None
    }
}

/// State after a release: the terminal `Closed`, from every state.
pub open spec fn release_step(pre: SocketState) -> SocketState {
    SocketState::Closed
}

/// Whether a release emits a close action for the OS: only when the
/// handle was not already `Closed`, so the descriptor is closed at most
/// once.
pub open spec fn release_emits_close(pre: SocketState) -> bool {
    pre != SocketState::Closed
}

/// A handle that exclusively owns one OS socket descriptor.
#[derive(Debug)]
pub struct Socket {
    fd: i32,
    state: SocketState,
}

impl Socket {
    /// The descriptor this handle owns.
    pub closed spec fn spec_fd(&self) -> int {
        self.fd as int
    }

    /// The handle's lifecycle state.
    pub closed spec fn spec_state(&self) -> SocketState {
        self.state
    }

    /// A well-formed handle holds a usable (non-negative) descriptor.
    pub open spec fn wf(&self) -> bool {
        self.spec_fd() >= 0
    }

    /// Constructs a handle over the raw result of the OS socket call.
    ///
    /// A negative raw result means the OS returned no usable descriptor,
    /// and is reported as `SocketCreation`; otherwise the new handle owns
    /// exactly the given descriptor and starts in state `Created`.
    pub fn new(fd: i32) -> (r: Result<Socket, SocketError>)
        ensures
            r.is_ok() <==> fd >= 0,
            r matches Ok(s) ==> s.spec_fd() == fd && s.spec_state() == SocketState::Created
                && s.wf(),
            r matches Err(e) ==> e == SocketError::SocketCreation,
    {
        if fd < 0 {
            Err(SocketError::SocketCreation)
        } else {
            Ok(Socket { fd, state: SocketState::Created })
        }
    }

    /// Current lifecycle state.
    pub fn state(&self) -> (r: SocketState)
        ensures
            r == self.spec_state(),
    {
        self.state
    }

    /// The owned raw descriptor, for issuing the raw OS calls.
    pub fn descriptor(&self) -> (r: i32)
        ensures
            r as int == self.spec_fd(),
    {
        self.fd
    }

    /// Guards a bind: checks the state machine, parses the address and
    /// builds the OS-level address record.
    ///
    /// Permitted only in state `Created`; otherwise `InvalidState`, and
    /// the handle is untouched (the method takes a shared reference).
    /// A string that is not a dotted-decimal IPv4 literal is
    /// `AddressParse`.  For every valid address and every port,
    /// including port 0 for an OS-chosen ephemeral port, the guard
    /// succeeds and returns the 16-byte record, byte for byte, for the
    /// caller to hand to the raw OS bind call.
    pub fn bind(&self, ip: &str, port: u16) -> (r: Result<Vec<u8>, SocketError>)
        ensures
            self.spec_state() != SocketState::Created ==> (r matches Err(e) && e
                == SocketError::InvalidState),
            self.spec_state() == SocketState::Created && !valid_ipv4(ip@) ==> (r matches Err(e)
                && e == SocketError::AddressParse),
            self.spec_state() == SocketState::Created && valid_ipv4(ip@) ==> r.is_ok(),
            forall|i: int, j: int, k: int|
                #[trigger] ipv4_split_at(ip@, i, j, k) && self.spec_state()
                    == SocketState::Created ==> (r matches Ok(v) && v@ == record_spec(
                    dec_value(ip@.subrange(0, i)) as u8,
                    dec_value(ip@.subrange(i + 1, j)) as u8,
                    dec_value(ip@.subrange(j + 1, k)) as u8,
                    dec_value(ip@.subrange(k + 1, ip@.len() as int)) as u8,
                    port,
                )),
    {
        if self.state != SocketState::Created {
            return Err(SocketError::InvalidState);
        }
        match parse_ipv4(ip) {
            None => Err(SocketError::AddressParse),
            Some((a, b, c, d)) => Ok(addr_record(a, b, c, d, port)),
        }
    }

    /// Completes a bind with the raw result of the OS bind call.
    ///
    /// In state `Created`, an OS failure (-1) is reported as `Bind` and
    /// leaves the state at `Created`; any other raw result advances the
    /// handle to `Bound`.  In every other state the result is
    /// `InvalidState` and the handle is untouched.
    pub fn bind_complete(&mut self, res: i32) -> (r: Result<(), SocketError>)
        ensures
            final(self).spec_fd() == old(self).spec_fd(),
            final(self).spec_state() == bind_step(old(self).spec_state(), res as int),
            advances(old(self).spec_state(), final(self).spec_state()),
            old(self).spec_state() != SocketState::Created ==> (r matches Err(e) && e
                == SocketError::InvalidState),
            old(self).spec_state() == SocketState::Created && res == -1 ==> (r matches Err(e)
                && e == SocketError::Bind),
            old(self).spec_state() == SocketState::Created && res != -1 ==> r.is_ok(),
    {
        if self.state != SocketState::Created {
            return Err(SocketError::InvalidState);
        }
        if res == -1 {
            return Err(SocketError::Bind);
        }
        self.state = SocketState::Bound;
        Ok(())
    }

    /// Guards a listen: permitted only in state `Bound`.
    ///
    /// Returns `InvalidState` in every other state — in particular for a
    /// listen before a successful bind — and leaves the handle untouched
    /// (the method takes a shared reference).  On success it hands the
    /// backlog (the maximum number of queued, not yet accepted
    /// connections) back for the caller's raw OS listen call.
    pub fn listen(&self, backlog: i32) -> (r: Result<i32, SocketError>)
        ensures
            self.spec_state() == SocketState::Bound <==> r.is_ok(),
            r matches Ok(b) ==> b == backlog,
            self.spec_state() != SocketState::Bound ==> (r matches Err(e) && e
                == SocketError::InvalidState),
    {
        if self.state != SocketState::Bound {
            return Err(SocketError::InvalidState);
        }
        Ok(backlog)
    }

    /// Completes a listen with the raw result of the OS listen call.
    ///
    /// In state `Bound`, an OS failure (-1) is reported as `Listen` and
    /// leaves the state at `Bound`; any other raw result advances the
    /// handle to `Listening`.  In every other state the result is
    /// `InvalidState` and the handle is untouched.
    pub fn listen_complete(&mut self, res: i32) -> (r: Result<(), SocketError>)
        ensures
            final(self).spec_fd() == old(self).spec_fd(),
            final(self).spec_state() == listen_step(old(self).spec_state(), res as int),
            advances(old(self).spec_state(), final(self).spec_state()),
            old(self).spec_state() != SocketState::Bound ==> (r matches Err(e) && e
                == SocketError::InvalidState),
            old(self).spec_state() == SocketState::Bound && res == -1 ==> (r matches Err(e)
                && e == SocketError::Listen),
            old(self).spec_state() == SocketState::Bound && res != -1 ==> r.is_ok(),
    {
        if self.state != SocketState::Bound {
            return Err(SocketError::InvalidState);
        }
        if res == -1 {
            return Err(SocketError::Listen);
        }
        self.state = SocketState::Listening;
        Ok(())
    }

    /// Guards an accept: permitted only in state `Listening`.
    ///
    /// Returns `InvalidState` in every other state — in particular on a
    /// `Created` or merely `Bound` handle — and never changes the
    /// handle.  On success the caller issues the raw, blocking OS accept
    /// call on the handle's descriptor.
    pub fn accept(&self) -> (r: Result<(), SocketError>)
        ensures
            self.spec_state() == SocketState::Listening <==> r.is_ok(),
            self.spec_state() != SocketState::Listening ==> (r matches Err(e) && e
                == SocketError::InvalidState),
    {
        if self.state != SocketState::Listening {
            return Err(SocketError::InvalidState);
        }
        Ok(())
    }

    /// Completes an accept with the raw result of the OS accept call.
    ///
    /// The listening handle is never changed (the method takes a shared
    /// reference).  A negative raw result means the OS reported failure
    /// and is reported as `Accept`; otherwise the result is a brand-new
    /// handle in state `Connected` that owns exactly the accepted
    /// descriptor.
    pub fn accept_complete(&self, client_fd: i32) -> (r: Result<Socket, SocketError>)
        ensures
            self.spec_state() != SocketState::Listening ==> (r matches Err(e) && e
                == SocketError::InvalidState),
            self.spec_state() == SocketState::Listening && client_fd < 0 ==> (r matches Err(e)
                && e == SocketError::Accept),
            self.spec_state() == SocketState::Listening && client_fd >= 0 ==> (r matches Ok(c)
                && accept_new_state(self.spec_state(), client_fd as int) == Some(c.spec_state())
                && c.spec_state() == SocketState::Connected && c.spec_fd() == client_fd
                && c.wf()),
    {
        if self.state != SocketState::Listening {
            return Err(SocketError::InvalidState);
        }
        if client_fd < 0 {
            return Err(SocketError::Accept);
        }
        Ok(Socket { fd: client_fd, state: SocketState::Connected })
    }

    /// Releases the handle: the state drops to the terminal `Closed`,
    /// and the owned descriptor is returned for the caller's raw OS
    /// close call exactly on the first release.
    ///
    /// Idempotent: a second release finds the handle already `Closed`,
    /// emits no descriptor, and is not an error.
    pub fn release(&mut self) -> (r: Option<i32>)
        ensures
            final(self).spec_fd() == old(self).spec_fd(),
            final(self).spec_state() == release_step(old(self).spec_state()),
            advances(old(self).spec_state(), final(self).spec_state()),
            r.is_some() <==> release_emits_close(old(self).spec_state()),
            r matches Some(f) ==> f as int == old(self).spec_fd(),
    {
        if self.state == SocketState::Closed {
            return None;
        }
        let fd = self.fd;
        self.state = SocketState::Closed;
        Some(fd)
    }
}

/// Law: a successful bind then a successful listen carries a fresh
/// handle from `Created` through `Bound` to `Listening`, and each
/// successfully accepted peer then yields a new handle in state
/// `Connected` — while `accept` and `accept_complete` take the
/// listening handle by shared reference, so it remains `Listening`
/// across every accept.
pub proof fn lemma_lifecycle(bind_res: int, listen_res: int, client_fd: int)
    requires
        bind_res != -1,
        listen_res != -1,
        client_fd >= 0,
    ensures
        bind_step(SocketState::Created, bind_res) == SocketState::Bound,
        listen_step(bind_step(SocketState::Created, bind_res), listen_res)
            == SocketState::Listening,
        accept_new_state(
            listen_step(bind_step(SocketState::Created, bind_res), listen_res),
            client_fd,
        ) == Some(SocketState::Connected),
{
}

/// Law: release is idempotent.  One release leaves the handle `Closed`,
/// and a further release changes nothing and emits no second close
/// action toward the OS.
pub proof fn lemma_release_idempotent(pre: SocketState)
    ensures
        release_step(release_step(pre)) == release_step(pre),
        !release_emits_close(release_step(pre)),
{
}

/// Every single lifecycle step keeps the rank from falling, and from
/// the terminal `Closed` no step leaves `Closed`.
proof fn lemma_advance_rank(pre: SocketState, post: SocketState)
    requires
        advances(pre, post),
    ensures
        rank(pre) <= rank(post),
        pre == SocketState::Closed ==> post == SocketState::Closed,
{
}

/// Spans of an advancing trace keep the rank from falling.
proof fn lemma_span_monotonic(trace: Seq<SocketState>, p: int, q: int)
    requires
        forall|t: int| 0 <= t < trace.len() - 1 ==> advances(#[trigger] trace[t], trace[t + 1]),
        0 <= p <= q < trace.len(),
    ensures
        rank(trace[p]) <= rank(trace[q]),
        trace[p] == SocketState::Closed ==> trace[q] == SocketState::Closed,
    decreases q - p,
{
    if p < q {
        lemma_span_monotonic(trace, p, q - 1);
        assert(advances(trace[q - 1], trace[q]));
        lemma_advance_rank(trace[q - 1], trace[q]);
    }
}

/// Law: along any sequence of states in which each step is a lifecycle
/// step of this library, the states are monotonic along
/// `Created -> Bound -> Listening`: the rank never falls, and once the
/// terminal `Closed` — reachable from any point — is entered, it is
/// never left.
pub proof fn lemma_states_monotonic(trace: Seq<SocketState>)
    requires
        forall|t: int| 0 <= t < trace.len() - 1 ==> advances(#[trigger] trace[t], trace[t + 1]),
    ensures
        forall|p: int, q: int|
            #![trigger trace[p], trace[q]]
            0 <= p <= q < trace.len() ==> rank(trace[p]) <= rank(trace[q]),
        forall|p: int, q: int|
            #![trigger trace[p], trace[q]]
            0 <= p <= q < trace.len() && trace[p] == SocketState::Closed ==> trace[q]
                == SocketState::Closed,
{
    assert forall|p: int, q: int|
        #![trigger trace[p], trace[q]]
        0 <= p <= q < trace.len() implies rank(trace[p]) <= rank(trace[q]) && (trace[p]
        == SocketState::Closed ==> trace[q] == SocketState::Closed) by {
        lemma_span_monotonic(trace, p, q);
    }
}

} // verus!
