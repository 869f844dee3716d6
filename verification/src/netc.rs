//! The wire format of the fixed-size Unix-domain address structure.
//!
//! The platform's address structure is a two-byte family tag followed by a
//! fixed-length path field. The layout is written down once here as named
//! constants; the encoder and decoder work over an explicit byte buffer of
//! exactly this shape and never touch uninitialized memory.

use vstd::prelude::*;

verus! {

/// The Unix-domain address-family constant of the native socket API.
pub const AF_UNIX: u16 = 1;

/// The byte capacity of the path field (`sun_path`) of the address
/// structure.
pub const SUN_PATH_LEN: usize = 108;

/// The byte offset of the path field within the address structure: the
/// family tag is a two-byte word and the path field follows it directly.
pub const SUN_PATH_OFFSET: usize = 2;

/// The size in bytes of the whole address structure.
pub const SOCKADDR_UN_LEN: usize = 110;

/// On this platform a returned address whose first path byte is zero is
/// ambiguous with "no data", so the decoder classifies it as unnamed
/// rather than as an abstract name.
pub const LEADING_NUL_IS_UNNAMED: bool = true;

/// The fixed backlog of pending connections a listening socket queues.
pub const LISTEN_BACKLOG: i32 = 128;

/// The fixed-size Unix-domain address structure: a family tag and the
/// path field, held as an explicit byte buffer of exactly
/// [`SUN_PATH_LEN`] bytes.
#[allow(non_camel_case_types)]
#[derive(Clone, Debug)]
pub struct sockaddr_un {
    pub sun_family: u16,
    pub sun_path: Vec<u8>,
}

impl sockaddr_un {
    /// The structure is well formed when its path field has exactly the
    /// platform's capacity.
    pub open spec fn wf(&self) -> bool {
        self.sun_path@.len() == SUN_PATH_LEN
    }
}

/// The layout constants agree with one another: the whole structure is
/// the family tag followed directly by the path field.
pub proof fn lemma_layout_consistent()
    ensures
        SOCKADDR_UN_LEN == SUN_PATH_OFFSET + SUN_PATH_LEN,
{
}

} // verus!
