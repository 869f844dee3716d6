//! The connection-lifecycle layer: stream and listener endpoints and the
//! configuration state of the sockets they own.
//!
//! An endpoint value is a thin view of one native socket: it holds the
//! socket's identity and nothing else, because timeouts, blocking mode,
//! shutdown and the pending error live with the socket, not with any
//! one wrapper. That kernel-side state appears here as an explicit
//! value ([`StreamState`], [`ListenerState`]), kept once per socket and
//! shared by every endpoint cloned from it; each configuration call is
//! a verified transition on that one value, so what one clone sets,
//! another clone reads back. The native calls that move bytes (connect,
//! bind, listen, accept, send, recv) are the platform's work and sit
//! outside this library, which hands them the accepted configuration.

use vstd::prelude::*;

use crate::duration::Duration;
use crate::error::Error;
use crate::error::ErrorKind;

verus! {

/// Which directions of I/O a shutdown disables.
#[derive(Clone, Copy, Debug, PartialEq, Eq, Structural)]
pub enum Shutdown {
    Read,
    Write,
    Both,
}

/// The kernel-side state of one connected stream socket: which socket
/// it is, the timeout and blocking configuration set on it, the
/// directions shut down, and a pending socket error not yet taken.
///
/// One value of this type exists per socket, however many endpoint
/// clones address the socket; configuration set through any clone is
/// a transition of this one value.
pub struct StreamState {
    pub handle: u64,
    pub read_timeout: Option<Duration>,
    pub write_timeout: Option<Duration>,
    pub nonblocking: bool,
    pub shut_read: bool,
    pub shut_write: bool,
    pub pending_error: Option<i32>,
}

/// The state of a freshly created stream socket: no timeout, blocking
/// mode, both directions open, no pending error.
pub open spec fn fresh_stream(handle: u64) -> StreamState {
    StreamState {
        handle,
        read_timeout: None,
        write_timeout: None,
        nonblocking: false,
        shut_read: false,
        shut_write: false,
        pending_error: None,
    }
}

pub open spec fn with_read_timeout(s: StreamState, t: Option<Duration>) -> StreamState {
    StreamState { read_timeout: t, ..s }
}

pub open spec fn with_write_timeout(s: StreamState, t: Option<Duration>) -> StreamState {
    StreamState { write_timeout: t, ..s }
}

pub open spec fn with_nonblocking(s: StreamState, nonblocking: bool) -> StreamState {
    StreamState { nonblocking, ..s }
}

pub open spec fn with_shutdown(s: StreamState, how: Shutdown) -> StreamState {
    match how {
        Shutdown::Read => StreamState { shut_read: true, ..s },
        Shutdown::Write => StreamState { shut_write: true, ..s },
        Shutdown::Both => StreamState { shut_read: true, shut_write: true, ..s },
    }
}

pub open spec fn with_error_recorded(s: StreamState, code: i32) -> StreamState {
    StreamState { pending_error: Some(code), ..s }
}

pub open spec fn with_error_taken(s: StreamState) -> StreamState {
    StreamState { pending_error: None, ..s }
}

/// A timeout request is rejected exactly when it asks for a zero
/// duration: zero is not representable as "no timeout" and must not be
/// silently treated as blocking or non-blocking.
pub open spec fn timeout_rejected(t: Option<Duration>) -> bool {
    t matches Some(d) && d.spec_is_zero()
}

impl StreamState {
    /// Records a pending error the platform reported on the socket, to
    /// be handed out by the next `take_error`.
    pub fn record_error(&mut self, code: i32)
        ensures
            *final(self) == with_error_recorded(*old(self), code),
    {
        self.pending_error = Some(code);
    }
}

/// A Unix-domain stream socket: one side of a connected byte stream.
///
/// The value holds the socket's identity alone. Everything
/// configurable lives in the socket's one [`StreamState`], which the
/// caller keeps beside the handle and shares among clones.
pub struct UnixStream {
    handle: u64,
}

impl View for UnixStream {
    type V = u64;

    closed spec fn view(&self) -> u64 {
        self.handle
    }
}

impl UnixStream {
    /// Wraps a native stream-socket handle the platform produced (by a
    /// connect or an accept call).
    pub fn from_handle(handle: u64) -> (r: UnixStream)
        ensures
            r@ == handle,
    {
        UnixStream { handle }
    }

    /// The native handle this endpoint addresses.
    pub fn handle(&self) -> (r: u64)
        ensures
            r == self@,
    {
        self.handle
    }

    /// The state of this endpoint's socket as the platform creates it.
    pub fn fresh_state(&self) -> (r: StreamState)
        ensures
            r == fresh_stream(self@),
    {
        StreamState {
            handle: self.handle,
            read_timeout: None,
            write_timeout: None,
            nonblocking: false,
            shut_read: false,
            shut_write: false,
            pending_error: None,
        }
    }

    /// Creates a new independently owned endpoint over the same
    /// underlying connection: the clone addresses the same socket, so
    /// it reads and writes the same byte stream and uses the same
    /// [`StreamState`] — configuration set through either endpoint is
    /// observed through both.
    pub fn try_clone(&self) -> (r: Result<UnixStream, Error>)
        ensures
            r matches Ok(c) && c@ == self@,
    {
        Ok(UnixStream { handle: self.handle })
    }

    /// Sets the socket's read timeout. `None` means read calls block
    /// indefinitely; a zero duration is rejected with `InvalidInput`
    /// and leaves the socket's state unchanged.
    pub fn set_read_timeout(&self, state: &mut StreamState, timeout: Option<Duration>) -> (r:
        Result<(), Error>)
        requires
            old(state).handle == self@,
        ensures
            timeout_rejected(timeout) ==> {
                &&& r matches Err(e) && e.spec_kind() == ErrorKind::InvalidInput
                &&& *final(state) == *old(state)
            },
            !timeout_rejected(timeout) ==> {
                &&& r is Ok
                &&& *final(state) == with_read_timeout(*old(state), timeout)
            },
    {
        if let Some(d) = timeout {
            if d.is_zero() {
                return Err(Error::new(ErrorKind::InvalidInput, "cannot set a 0 duration timeout"));
            }
        }
        state.read_timeout = timeout;
        Ok(())
    }

    /// Sets the socket's write timeout. `None` means write calls block
    /// indefinitely; a zero duration is rejected with `InvalidInput`
    /// and leaves the socket's state unchanged.
    pub fn set_write_timeout(&self, state: &mut StreamState, timeout: Option<Duration>) -> (r:
        Result<(), Error>)
        requires
            old(state).handle == self@,
        ensures
            timeout_rejected(timeout) ==> {
                &&& r matches Err(e) && e.spec_kind() == ErrorKind::InvalidInput
                &&& *final(state) == *old(state)
            },
            !timeout_rejected(timeout) ==> {
                &&& r is Ok
                &&& *final(state) == with_write_timeout(*old(state), timeout)
            },
    {
        if let Some(d) = timeout {
            if d.is_zero() {
                return Err(Error::new(ErrorKind::InvalidInput, "cannot set a 0 duration timeout"));
            }
        }
        state.write_timeout = timeout;
        Ok(())
    }

    /// The socket's configured read timeout, or `None` if unset —
    /// whichever clone set it.
    pub fn read_timeout(&self, state: &StreamState) -> (r: Result<Option<Duration>, Error>)
        requires
            state.handle == self@,
        ensures
            r matches Ok(t) && t == state.read_timeout,
    {
        Ok(state.read_timeout)
    }

    /// The socket's configured write timeout, or `None` if unset —
    /// whichever clone set it.
    pub fn write_timeout(&self, state: &StreamState) -> (r: Result<Option<Duration>, Error>)
        requires
            state.handle == self@,
        ensures
            r matches Ok(t) && t == state.write_timeout,
    {
        Ok(state.write_timeout)
    }

    /// Moves the socket into or out of non-blocking mode. In
    /// non-blocking mode a call that would suspend fails immediately
    /// with a would-block error instead.
    pub fn set_nonblocking(&self, state: &mut StreamState, nonblocking: bool) -> (r: Result<
        (),
        Error,
    >)
        requires
            old(state).handle == self@,
        ensures
            r is Ok,
            *final(state) == with_nonblocking(*old(state), nonblocking),
    {
        state.nonblocking = nonblocking;
        Ok(())
    }

    /// Returns and clears the socket's pending error, if any.
    pub fn take_error(&self, state: &mut StreamState) -> (r: Result<Option<Error>, Error>)
        requires
            old(state).handle == self@,
        ensures
            *final(state) == with_error_taken(*old(state)),
            match old(state).pending_error {
                Some(code) => r matches Ok(Some(e)) && e.spec_kind() == ErrorKind::Os(code),
                None => r matches Ok(None),
            },
    {
        match state.pending_error {
            Some(code) => {
                state.pending_error = None;
                Ok(Some(Error::new(ErrorKind::Os(code), "error taken from the socket")))
            },
            None => Ok(None),
        }
    }

    /// Disables further reads, writes, or both on the underlying
    /// connection. The socket, not the wrapper, is shut down, so the
    /// effect is observed through every clone.
    pub fn shutdown(&self, state: &mut StreamState, how: Shutdown) -> (r: Result<(), Error>)
        requires
            old(state).handle == self@,
        ensures
            r is Ok,
            *final(state) == with_shutdown(*old(state), how),
    {
        match how {
            Shutdown::Read => {
                state.shut_read = true;
            },
            Shutdown::Write => {
                state.shut_write = true;
            },
            Shutdown::Both => {
                state.shut_read = true;
                state.shut_write = true;
            },
        }
        Ok(())
    }
}

/// The kernel-side state of one listening socket: which socket it is,
/// its blocking mode and a pending socket error not yet taken. One
/// value per socket, shared by every clone.
pub struct ListenerState {
    pub handle: u64,
    pub nonblocking: bool,
    pub pending_error: Option<i32>,
}

/// The state of a freshly created listening socket.
pub open spec fn fresh_listener(handle: u64) -> ListenerState {
    ListenerState { handle, nonblocking: false, pending_error: None }
}

pub open spec fn listener_with_nonblocking(s: ListenerState, nonblocking: bool) -> ListenerState {
    ListenerState { nonblocking, ..s }
}

pub open spec fn listener_with_error_recorded(s: ListenerState, code: i32) -> ListenerState {
    ListenerState { pending_error: Some(code), ..s }
}

pub open spec fn listener_with_error_taken(s: ListenerState) -> ListenerState {
    ListenerState { pending_error: None, ..s }
}

impl ListenerState {
    /// Records a pending error the platform reported on the socket, to
    /// be handed out by the next `take_error`.
    pub fn record_error(&mut self, code: i32)
        ensures
            *final(self) == listener_with_error_recorded(*old(self), code),
    {
        self.pending_error = Some(code);
    }
}

/// A Unix-domain socket server: a bound, listening endpoint. The value
/// holds the socket's identity alone; its configuration lives in the
/// socket's one [`ListenerState`].
#[derive(Debug)]
pub struct UnixListener {
    handle: u64,
}

impl View for UnixListener {
    type V = u64;

    closed spec fn view(&self) -> u64 {
        self.handle
    }
}

impl UnixListener {
    /// Wraps a native handle the platform bound and put into the
    /// listening state.
    pub fn from_handle(handle: u64) -> (r: UnixListener)
        ensures
            r@ == handle,
    {
        UnixListener { handle }
    }

    /// The native handle this listener addresses.
    pub fn handle(&self) -> (r: u64)
        ensures
            r == self@,
    {
        self.handle
    }

    /// The state of this listener's socket as the platform creates it.
    pub fn fresh_state(&self) -> (r: ListenerState)
        ensures
            r == fresh_listener(self@),
    {
        ListenerState { handle: self.handle, nonblocking: false, pending_error: None }
    }

    /// Creates a new independently owned endpoint over the same
    /// listening socket: the clone addresses the same socket and uses
    /// the same [`ListenerState`], so either can accept each pending
    /// connection and options set through one are observed through the
    /// other.
    pub fn try_clone(&self) -> (r: Result<UnixListener, Error>)
        ensures
            r matches Ok(c) && c@ == self@,
    {
        Ok(UnixListener { handle: self.handle })
    }

    /// Moves the listening socket into or out of non-blocking mode. In
    /// non-blocking mode an accept with no pending connection fails
    /// immediately with a would-block error instead of suspending.
    pub fn set_nonblocking(&self, state: &mut ListenerState, nonblocking: bool) -> (r: Result<
        (),
        Error,
    >)
        requires
            old(state).handle == self@,
        ensures
            r is Ok,
            *final(state) == listener_with_nonblocking(*old(state), nonblocking),
    {
        state.nonblocking = nonblocking;
        Ok(())
    }

    /// Returns and clears the socket's pending error, if any.
    pub fn take_error(&self, state: &mut ListenerState) -> (r: Result<Option<Error>, Error>)
        requires
            old(state).handle == self@,
        ensures
            *final(state) == listener_with_error_taken(*old(state)),
            match old(state).pending_error {
                Some(code) => r matches Ok(Some(e)) && e.spec_kind() == ErrorKind::Os(code),
                None => r matches Ok(None),
            },
    {
        match state.pending_error {
            Some(code) => {
                state.pending_error = None;
                Ok(Some(Error::new(ErrorKind::Os(code), "error taken from the socket")))
            },
            None => Ok(None),
        }
    }

    /// An iterator view over incoming connections, bound to this
    /// listener; taking it neither consumes nor changes listener state.
    pub fn incoming<'a>(&'a self) -> (r: Incoming<'a>)
        ensures
            r@ == self@,
    {
        Incoming { listener: self }
    }
}

/// An unbounded lazy sequence of accept outcomes, borrowing the listener
/// it draws from. Each step is one accept: a connection on success, the
/// failure otherwise; a failed step never ends the sequence, and no step
/// ever reports a natural end of data.
#[derive(Debug)]
pub struct Incoming<'a> {
    listener: &'a UnixListener,
}

impl<'a> View for Incoming<'a> {
    type V = u64;

    closed spec fn view(&self) -> u64 {
        self.listener@
    }
}

impl<'a> Incoming<'a> {
    /// The listener every step of this sequence accepts from.
    pub fn listener(&self) -> (r: &'a UnixListener)
        ensures
            r@ == self@,
    {
        self.listener
    }

    /// The sequence's size bounds: never fewer steps than any count a
    /// caller could ask for, and no known upper bound.
    pub fn size_hint(&self) -> (r: (usize, Option<usize>))
        ensures
            r.0 == usize::MAX,
            r.1 is None,
    {
        (usize::MAX, None)
    }
}

/// The byte count one native send call may take: the buffer's length,
/// capped to the platform's maximum single-operation transfer size. A
/// caller with a longer buffer must loop.
pub fn send_length(buf_len: usize) -> (r: i32)
    ensures
        buf_len <= i32::MAX as usize ==> r == buf_len as i32,
        buf_len > i32::MAX as usize ==> r == i32::MAX,
{
    if buf_len > i32::MAX as usize {
        i32::MAX
    } else {
        buf_len as i32
    }
}

/// Setting a timeout to `None` after any accepted value restores
/// unbounded blocking: the timeout then reads back as `None`, whatever
/// value was set before.
pub proof fn lemma_timeout_none_restores_blocking(s: StreamState, d: Duration)
    ensures
        with_read_timeout(with_read_timeout(s, Some(d)), None).read_timeout is None,
        with_write_timeout(with_write_timeout(s, Some(d)), None).write_timeout is None,
{
}

/// Configuration is shared through clones: endpoints cloned from one
/// another address the same socket state, so a set through either
/// clone is a transition of that one value, and a get through either
/// clone reads the set value back — timeouts, blocking mode and
/// shutdown alike.
pub proof fn lemma_clones_observe_one_configuration(
    s: StreamState,
    t: Option<Duration>,
    nonblocking: bool,
    how: Shutdown,
)
    ensures
        with_read_timeout(s, t).read_timeout == t,
        with_write_timeout(s, t).write_timeout == t,
        with_nonblocking(s, nonblocking).nonblocking == nonblocking,
        how is Read || how is Both ==> with_shutdown(s, how).shut_read,
        how is Write || how is Both ==> with_shutdown(s, how).shut_write,
{
}

} // verus!
