//! The lifecycle state machine of a single-use, server-side TCP connection
//! handle.
//!
//! A `Connection` is created idle, becomes connected when exactly one inbound
//! client has been accepted, and is used up once a close fully succeeds; a
//! used-up handle can never be connected again. The handle never touches a
//! socket itself: an unverified shell performs bind, accept and shutdown, and
//! reports each outcome to the state machine through `record_bound_port`,
//! `record_accepted` and `close`. The shell asks `connect_guard` before any
//! bind and `is_connected` before any shutdown, so that a refused or needless
//! operation performs no I/O at all.

use vstd::prelude::*;

use crate::decimal::dec_rep;
use crate::decimal::lemma_dec_rep_nonzero;
use crate::decimal::u16_to_decimal;

verus! {

/// The abstract state of a handle: its two address strings, whether a stream
/// is currently held, and whether the handle has been used up.
pub struct ConnState {
    pub address: Seq<char>,
    pub port: Seq<char>,
    pub connected: bool,
    pub used_up: bool,
}

/// A well-formed handle holds no stream once it is used up: the only
/// transition that sets `used_up` also clears the stream.
pub open spec fn wf(c: ConnState) -> bool {
    c.used_up ==> !c.connected
}

/// The state of a freshly constructed handle: idle, not used up.
pub open spec fn spec_new(address: Seq<char>, port: Seq<char>) -> ConnState {
    ConnState { address, port, connected: false, used_up: false }
}

/// What a successful bind does to the state: a port given as `"0"` asked the
/// operating system for an ephemeral port and is overwritten with the decimal
/// digits of the port that was assigned; any other port stays as it is.
pub open spec fn spec_record_bound_port(c: ConnState, local_port: u16) -> ConnState {
    if c.port == "0"@ {
        ConnState {
            address: c.address,
            port: dec_rep(local_port as nat),
            connected: c.connected,
            used_up: c.used_up,
        }
    } else {
        c
    }
}

/// What a successful accept does to the state: the handle now holds the one
/// accepted stream.
pub open spec fn spec_record_accepted(c: ConnState) -> ConnState {
    ConnState { address: c.address, port: c.port, connected: true, used_up: c.used_up }
}

/// What a close does to the state, and whether it succeeds. Without a stream
/// it succeeds at once and changes nothing. With a stream, a successful
/// shutdown clears the stream and uses the handle up; a failed shutdown
/// changes nothing and reports the failure.
pub open spec fn spec_close(c: ConnState, shutdown_ok: bool) -> (ConnState, bool) {
    if !c.connected {
        (c, true)
    } else if shutdown_ok {
        (
            ConnState { address: c.address, port: c.port, connected: false, used_up: true },
            true,
        )
    } else {
        (c, false)
    }
}

/// The error a used-up handle answers to a further connect attempt.
pub struct ReuseError;

/// The fixed message carried by `ReuseError`.
pub open spec fn reuse_error_message() -> Seq<char> {
    "Cannot reuse a `Connection`."@
}

impl ReuseError {
    /// The fixed message, for the shell to wrap into its own error value.
    pub fn message(&self) -> (m: String)
        ensures
            m@ == reuse_error_message(),
    {
        "Cannot reuse a `Connection`.".to_owned()
    }
}

/// A single-use, server-side connection handle: the verified state machine
/// behind one bind–accept–shutdown lifecycle.
pub struct Connection {
    address: String,
    port: String,
    connected: bool,
    used_up: bool,
}

impl View for Connection {
    type V = ConnState;

    closed spec fn view(&self) -> ConnState {
        ConnState {
            address: self.address@,
            port: self.port@,
            connected: self.connected,
            used_up: self.used_up,
        }
    }
}

/// Whether a port string is the literal `"0"`, the request for an ephemeral
/// port.
fn port_is_zero(p: &String) -> (b: bool)
    ensures
        b == (p@ == "0"@),
{
    proof {
        reveal_strlit("0");
    }
    if p.as_str().unicode_len() != 1 {
        return false;
    }
    let c = p.as_str().get_char(0);
    if c == '0' {
        proof {
            assert(p@ =~= "0"@);
        }
        true
    } else {
        false
    }
}

impl Connection {
    /// Constructs an idle handle. No I/O happens; the two strings are stored
    /// as given and nothing is validated.
    pub fn new(address: String, port: String) -> (c: Connection)
        ensures
            c@ == spec_new(address@, port@),
    {
        Connection { address, port, connected: false, used_up: false }
    }

    /// The reuse guard that a connect attempt must pass before any bind: a
    /// used-up handle is refused with `ReuseError` and no I/O may follow.
    ///
    /// The guard is keyed on `used_up` alone, as the handle has always
    /// behaved: it does not refuse a connect attempt while a stream is still
    /// held, so a shell that binds again without closing first would replace
    /// the held stream without shutting it down.
    pub fn connect_guard(&self) -> (r: Result<(), ReuseError>)
        ensures
            r is Ok <==> !self@.used_up,
    {
        if self.used_up {
            Err(ReuseError)
        } else {
            Ok(())
        }
    }

    /// Records the local port of a successful bind. When the stored port was
    /// `"0"`, it is overwritten with the decimal digits of `local_port`;
    /// otherwise nothing changes.
    pub fn record_bound_port(&mut self, local_port: u16)
        ensures
            final(self)@ == spec_record_bound_port(old(self)@, local_port),
    {
        if port_is_zero(&self.port) {
            self.port = u16_to_decimal(local_port);
        }
    }

    /// Records a successful accept: the handle now holds the stream. Only a
    /// handle whose guard has passed may accept, so a used-up handle never
    /// reaches this transition.
    pub fn record_accepted(&mut self)
        requires
            !old(self)@.used_up,
        ensures
            final(self)@ == spec_record_accepted(old(self)@),
    {
        self.connected = true;
    }

    /// Applies a close to the state and says whether it succeeded. Without a
    /// stream, close succeeds at once, changes nothing, and `shutdown_ok` is
    /// ignored (no shutdown was performed). With a stream, `shutdown_ok` is
    /// the outcome of the shutdown the shell performed: on success the stream
    /// is cleared and the handle is used up; on failure nothing changes and
    /// the failure is reported, so a later close may retry.
    pub fn close(&mut self, shutdown_ok: bool) -> (r: bool)
        ensures
            final(self)@ == spec_close(old(self)@, shutdown_ok).0,
            r == spec_close(old(self)@, shutdown_ok).1,
    {
        if !self.connected {
            true
        } else if shutdown_ok {
            self.used_up = true;
            self.connected = false;
            true
        } else {
            false
        }
    }

    /// Whether the handle currently holds an accepted stream; a close needs a
    /// shutdown exactly when it does.
    pub fn is_connected(&self) -> (b: bool)
        ensures
            b == self@.connected,
    {
        self.connected
    }

    /// Whether the handle is used up, that is, a close has fully succeeded.
    pub fn is_used_up(&self) -> (b: bool)
        ensures
            b == self@.used_up,
    {
        self.used_up
    }

    /// The stored address.
    pub fn address(&self) -> (a: &String)
        ensures
            a@ == self@.address,
    {
        &self.address
    }

    /// The stored port: what the handle was constructed with until a
    /// successful bind resolves `"0"`, the concrete port afterwards.
    pub fn port(&self) -> (p: &String)
        ensures
            p@ == self@.port,
    {
        &self.port
    }
}

/// A close on a freshly constructed handle — one that never accepted a
/// stream — succeeds and leaves the state exactly as constructed, whatever
/// outcome the shell would report; and such a handle holds no stream, so the
/// shell performs no shutdown for it at all.
pub proof fn lemma_close_on_fresh_handle(address: Seq<char>, port: Seq<char>, shutdown_ok: bool)
    ensures
        !spec_new(address, port).connected,
        spec_close(spec_new(address, port), shutdown_ok) == (spec_new(address, port), true),
{
}

/// When a handle that asked for an ephemeral port (`"0"`) records the port a
/// successful bind resolved, the stored port becomes the decimal digits of
/// that port and differs from `"0"`; nothing else of the state changes. The
/// operating system assigns a nonzero port, so the zero port is left out.
pub proof fn lemma_resolved_port_nonzero(c: ConnState, local_port: u16)
    requires
        c.port == "0"@,
        local_port != 0,
    ensures
        spec_record_bound_port(c, local_port).port == dec_rep(local_port as nat),
        spec_record_bound_port(c, local_port).port != "0"@,
        spec_record_bound_port(c, local_port).address == c.address,
        spec_record_bound_port(c, local_port).connected == c.connected,
        spec_record_bound_port(c, local_port).used_up == c.used_up,
{
    lemma_dec_rep_nonzero(local_port as nat);
}

/// A port already resolved — anything but `"0"` — is never overwritten
/// again: the stored port is written at most once.
pub proof fn lemma_port_written_at_most_once(c: ConnState, local_port: u16)
    requires
        c.port != "0"@,
    ensures
        spec_record_bound_port(c, local_port) == c,
{
}

/// After a successful close of a connected handle, the handle is used up, so
/// the reuse guard refuses every further connect attempt before any bind.
pub proof fn lemma_closed_handle_refuses_connect(c: ConnState)
    requires
        c.connected,
    ensures
        spec_close(c, true).1,
        spec_close(c, true).0.used_up,
{
}

/// Close is idempotent: a close whose shutdown (if one was needed) succeeded
/// reports success, and a second close straight after succeeds as well and
/// changes nothing — whether or not a stream was ever accepted.
pub proof fn lemma_close_idempotent(c: ConnState, second_shutdown_ok: bool)
    ensures
        spec_close(c, true).1,
        !spec_close(c, true).0.connected,
        spec_close(spec_close(c, true).0, second_shutdown_ok) == (spec_close(c, true).0, true),
{
}

/// A failed shutdown leaves the handle exactly as it was — in particular a
/// well-formed connected handle is not used up and stays so — and the
/// failure is reported to the caller, so a later close may retry.
pub proof fn lemma_failed_shutdown_changes_nothing(c: ConnState)
    requires
        c.connected,
    ensures
        spec_close(c, false) == (c, false),
        wf(c) ==> !c.used_up && !spec_close(c, false).0.used_up,
{
}

/// Every transition preserves well-formedness; recording an accept is only
/// ever reached on a handle whose guard has passed, hence not used up.
pub proof fn lemma_wf_preserved(c: ConnState, local_port: u16, shutdown_ok: bool)
    requires
        wf(c),
    ensures
        wf(spec_record_bound_port(c, local_port)),
        !c.used_up ==> wf(spec_record_accepted(c)),
        wf(spec_close(c, shutdown_ok).0),
{
}

/// `used_up` is permanent: no transition ever clears it, and the only
/// transition that sets it is a successful close of a connected handle.
pub proof fn lemma_used_up_permanent(c: ConnState, local_port: u16, shutdown_ok: bool)
    ensures
        spec_record_bound_port(c, local_port).used_up == c.used_up,
        spec_record_accepted(c).used_up == c.used_up,
        c.used_up ==> spec_close(c, shutdown_ok).0.used_up,
        spec_close(c, shutdown_ok).0.used_up == (c.used_up || (c.connected && shutdown_ok)),
{
}

} // verus!
