//! Unix-domain stream sockets for a platform whose native socket API accepts
//! `AF_UNIX` addresses but expects a Win32 filesystem-path string in the
//! address structure.
//!
//! This crate holds the address encoding/decoding and connection-lifecycle
//! layer: the fixed-size `sockaddr_un`-equivalent structure, its encoding
//! from a path and its decoding into a classified address, and the
//! timeout / non-blocking / shutdown configuration of stream and listener
//! sockets, kept as one explicit state value per socket that every clone
//! of an endpoint shares. The raw socket calls themselves (connect, bind,
//! listen, accept, send, recv, getsockname) are the platform's work and sit
//! outside this library.

pub mod addr;
pub mod diag;
pub mod duration;
pub mod error;
pub mod net;
pub mod netc;
pub mod utf8;

pub use addr::classify_addr;
pub use addr::sockaddr_un;
pub use addr::AddressKind;
pub use addr::AddressView;
pub use addr::SocketAddr;
pub use diag::ascii_escaped;
pub use diag::render_address;
pub use duration::Duration;
pub use error::Error;
pub use error::ErrorKind;
pub use net::send_length;
pub use utf8::is_utf8_bytes;
pub use net::Incoming;
pub use net::ListenerState;
pub use net::Shutdown;
pub use net::StreamState;
pub use net::UnixListener;
pub use net::UnixStream;
