//! Tests of the endpoint configuration state: timeouts, blocking mode,
//! shutdown, pending errors, duplication and the incoming view. Each
//! socket has one state value, shared by every clone of its endpoint.

use uds_windows::send_length;
use uds_windows::Duration;
use uds_windows::ErrorKind;
use uds_windows::Shutdown;
use uds_windows::UnixListener;
use uds_windows::UnixStream;

#[test]
fn timeouts() {
    let stream = UnixStream::from_handle(0);
    let mut state = stream.fresh_state();
    let dur = Duration::new(15410, 0);

    assert_eq!(None, stream.read_timeout(&state).unwrap());

    stream.set_read_timeout(&mut state, Some(dur)).unwrap();
    assert_eq!(Some(dur), stream.read_timeout(&state).unwrap());

    assert_eq!(None, stream.write_timeout(&state).unwrap());

    stream.set_write_timeout(&mut state, Some(dur)).unwrap();
    assert_eq!(Some(dur), stream.write_timeout(&state).unwrap());

    stream.set_read_timeout(&mut state, None).unwrap();
    assert_eq!(None, stream.read_timeout(&state).unwrap());

    stream.set_write_timeout(&mut state, None).unwrap();
    assert_eq!(None, stream.write_timeout(&state).unwrap());
}

#[test]
fn test_unix_stream_timeout_zero_duration() {
    let stream = UnixStream::from_handle(0);
    let mut state = stream.fresh_state();

    let result = stream.set_write_timeout(&mut state, Some(Duration::new(0, 0)));
    let err = result.unwrap_err();
    assert_eq!(err.kind(), ErrorKind::InvalidInput);

    let result = stream.set_read_timeout(&mut state, Some(Duration::new(0, 0)));
    let err = result.unwrap_err();
    assert_eq!(err.kind(), ErrorKind::InvalidInput);
}

#[test]
fn zero_timeout_leaves_state_unchanged() {
    let stream = UnixStream::from_handle(3);
    let mut state = stream.fresh_state();
    let dur = Duration::new(5, 0);
    stream.set_read_timeout(&mut state, Some(dur)).unwrap();
    stream.set_read_timeout(&mut state, Some(Duration::new(0, 0))).unwrap_err();
    assert_eq!(Some(dur), stream.read_timeout(&state).unwrap());
}

#[test]
fn stream_clone_observes_configuration_set_through_the_original() {
    // one socket, one state, two endpoint clones: a set through either
    // is read back through the other
    let stream = UnixStream::from_handle(11);
    let clone = stream.try_clone().unwrap();
    assert_eq!(clone.handle(), 11);

    let mut state = stream.fresh_state();
    let dur = Duration::new(2, 500);
    stream.set_read_timeout(&mut state, Some(dur)).unwrap();
    assert_eq!(Some(dur), clone.read_timeout(&state).unwrap());

    clone.set_write_timeout(&mut state, Some(dur)).unwrap();
    assert_eq!(Some(dur), stream.write_timeout(&state).unwrap());

    stream.set_nonblocking(&mut state, true).unwrap();
    clone.shutdown(&mut state, Shutdown::Write).unwrap();
    // both calls acted on the socket's one state value
    assert!(state.nonblocking);
    assert!(state.shut_write);
    assert!(!state.shut_read);
}

#[test]
fn stream_shutdown_directions() {
    let stream = UnixStream::from_handle(4);
    let mut state = stream.fresh_state();
    stream.shutdown(&mut state, Shutdown::Read).unwrap();
    assert!(state.shut_read && !state.shut_write);
    stream.shutdown(&mut state, Shutdown::Write).unwrap();
    assert!(state.shut_read && state.shut_write);

    let mut state2 = stream.fresh_state();
    stream.shutdown(&mut state2, Shutdown::Both).unwrap();
    assert!(state2.shut_read && state2.shut_write);
}

#[test]
fn stream_take_error_returns_and_clears() {
    let stream = UnixStream::from_handle(5);
    let mut state = stream.fresh_state();
    assert!(stream.take_error(&mut state).unwrap().is_none());

    state.record_error(111);
    let err = stream.take_error(&mut state).unwrap().unwrap();
    assert_eq!(err.kind(), ErrorKind::Os(111));
    // taking cleared it: a second take finds nothing pending
    assert!(stream.take_error(&mut state).unwrap().is_none());
}

#[test]
fn listener_try_clone_shares_handle() {
    let listener = UnixListener::from_handle(21);
    let clone = listener.try_clone().unwrap();
    assert_eq!(clone.handle(), 21);
}

#[test]
fn listener_clone_observes_configuration() {
    let listener = UnixListener::from_handle(22);
    let clone = listener.try_clone().unwrap();
    let mut state = listener.fresh_state();

    listener.set_nonblocking(&mut state, true).unwrap();
    assert!(state.nonblocking);

    state.record_error(32);
    let err = clone.take_error(&mut state).unwrap().unwrap();
    assert_eq!(err.kind(), ErrorKind::Os(32));
    assert!(listener.take_error(&mut state).unwrap().is_none());
}

#[test]
fn incoming_is_bound_to_its_listener_and_never_ends() {
    let listener = UnixListener::from_handle(23);
    let incoming = listener.incoming();
    assert_eq!(incoming.listener().handle(), 23);
    // the sequence reports no upper bound and never a natural end
    let (lower, upper) = incoming.size_hint();
    assert_eq!(lower, usize::MAX);
    assert_eq!(upper, None);
}

#[test]
fn send_length_caps_at_the_transfer_size() {
    assert_eq!(send_length(0), 0);
    assert_eq!(send_length(11), 11);
    assert_eq!(send_length(i32::MAX as usize), i32::MAX);
    assert_eq!(send_length(i32::MAX as usize + 1), i32::MAX);
}

#[test]
fn duration_parts() {
    let d = Duration::new(7, 250);
    assert_eq!(d.secs(), 7);
    assert_eq!(d.subsec_nanos(), 250);
    assert!(!d.is_zero());
    assert!(Duration::new(0, 0).is_zero());
}
