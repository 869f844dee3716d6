//! Encoding a path into the fixed-size address structure and decoding a
//! returned structure into a classified address.

use vstd::prelude::*;

use crate::error::Error;
use crate::error::ErrorKind;
use crate::netc;
use crate::utf8::is_utf8;
use crate::utf8::is_utf8_bytes;

verus! {

/// True when the path holds a null byte anywhere; such a path cannot be
/// stored in the null-terminated path field.
pub open spec fn has_interior_nul(p: Seq<u8>) -> bool {
    exists|i: int| 0 <= i < p.len() && p[i] == 0
}

/// True when the path can be encoded: valid text for the platform, no
/// interior null byte, and strictly shorter than the path field so that
/// the implicit null terminator fits.
pub open spec fn encodable(p: Seq<u8>) -> bool {
    &&& is_utf8(p)
    &&& !has_interior_nul(p)
    &&& p.len() < netc::SUN_PATH_LEN
}

/// The path field that encoding produces: the path bytes left-justified,
/// zero-padded to the field's full capacity.
pub open spec fn encoded_path_field(p: Seq<u8>) -> Seq<u8>
    recommends
        p.len() <= netc::SUN_PATH_LEN,
{
    p + Seq::new((netc::SUN_PATH_LEN - p.len()) as nat, |i: int| 0u8)
}

/// The declared length that encoding advertises: the path field's offset
/// plus the path's byte length, plus one for the null terminator unless
/// the path is empty or its first byte is the zero sentinel of an
/// abstract name.
pub open spec fn encoded_len(p: Seq<u8>) -> int
    recommends
        p.len() <= netc::SUN_PATH_LEN,
{
    if p.len() == 0 || p[0] == 0 {
        netc::SUN_PATH_OFFSET + p.len()
    } else {
        netc::SUN_PATH_OFFSET + p.len() + 1
    }
}

/// What encoding advertises is always a declared length the decoder
/// accepts: at least the path-field offset, at most the structure's
/// size. A caller may hand an encoded address straight back to
/// [`SocketAddr::from_parts`].
pub proof fn lemma_encoded_len_in_range(p: Seq<u8>)
    requires
        encodable(p),
    ensures
        netc::SUN_PATH_OFFSET <= encoded_len(p) <= netc::SOCKADDR_UN_LEN,
{
}

/// Encodes a caller path, given as the platform's UTF-8 path bytes, into
/// the fixed-size address structure and the length to pass to the native
/// calls.
///
/// The buffer is zero-filled before the path bytes are copied in, so the
/// path is implicitly null-terminated and no uninitialized byte ever
/// reaches the platform. Encoding fails with `InvalidInput` exactly when
/// the path is not valid text for the platform, holds an interior null
/// byte, or is too long for the field to keep a terminator.
pub fn sockaddr_un(path: &[u8]) -> (r: Result<(netc::sockaddr_un, i32), Error>)
    ensures
        match r {
            Ok((addr, len)) => {
                &&& encodable(path@)
                &&& addr.wf()
                &&& addr.sun_family == netc::AF_UNIX
                &&& addr.sun_path@ == encoded_path_field(path@)
                &&& len as int == encoded_len(path@)
            },
            Err(e) => {
                &&& !encodable(path@)
                &&& e.spec_kind() == ErrorKind::InvalidInput
            },
        },
{
    if !is_utf8_bytes(path) {
        return Err(Error::new(ErrorKind::InvalidInput, "path contains invalid characters"));
    }

    let n = path.len();

    let mut i: usize = 0;
    while i < n
        invariant
            n == path@.len(),
            i <= n,
            forall|j: int| 0 <= j < i ==> path@[j] != 0,
        decreases n - i,
    {
        if path[i] == 0 {
            return Err(Error::new(
                ErrorKind::InvalidInput,
                "paths may not contain interior null bytes",
            ));
        }
        i += 1;
    }

    if n >= netc::SUN_PATH_LEN {
        return Err(Error::new(ErrorKind::InvalidInput, "path must be shorter than SUN_LEN"));
    }

    let mut sun_path: Vec<u8> = Vec::new();
    let mut k: usize = 0;
    while k < netc::SUN_PATH_LEN
        invariant
            k <= netc::SUN_PATH_LEN,
            sun_path@.len() == k,
            forall|j: int| 0 <= j < k ==> sun_path@[j] == 0,
        decreases netc::SUN_PATH_LEN - k,
    {
        sun_path.push(0);
        k += 1;
    }

    let mut m: usize = 0;
    while m < n
        invariant
            n == path@.len(),
            n < netc::SUN_PATH_LEN,
            m <= n,
            sun_path@.len() == netc::SUN_PATH_LEN,
            forall|j: int| 0 <= j < m ==> sun_path@[j] == path@[j],
            forall|j: int| m <= j < netc::SUN_PATH_LEN ==> sun_path@[j] == 0,
        decreases n - m,
    {
        sun_path.set(m, path[m]);
        m += 1;
    }

    proof {
        assert(sun_path@ =~= encoded_path_field(path@));
    }

    let addr = netc::sockaddr_un { sun_family: netc::AF_UNIX, sun_path };

    let mut len: i32 = (netc::SUN_PATH_OFFSET + n) as i32;
    // One extra byte advertises the null terminator, except for an empty
    // path or one whose first byte is already the zero sentinel of an
    // abstract name (the interior-null check above has ruled the latter
    // out for this encoder, but the convention is kept as stated).
    if n > 0 && path[0] != 0 {
        len = len + 1;
    }

    Ok((addr, len))
}

/// A decoded, classified address value.
///
/// `Pathname` carries the path as the platform's UTF-8 path bytes, up to
/// and not including the terminating null; `Abstract` carries the raw
/// name bytes after the leading zero sentinel, not assumed to be valid
/// text.
#[derive(Clone, Debug)]
pub enum AddressKind {
    Unnamed,
    Pathname(Vec<u8>),
    Abstract(Vec<u8>),
}

/// The mathematical form of a classified address.
pub enum AddressView {
    Unnamed,
    Pathname(Seq<u8>),
    Abstract(Seq<u8>),
}

impl View for AddressKind {
    type V = AddressView;

    open spec fn view(&self) -> AddressView {
        match self {
            AddressKind::Unnamed => AddressView::Unnamed,
            AddressKind::Pathname(p) => AddressView::Pathname(p@),
            AddressKind::Abstract(b) => AddressView::Abstract(b@),
        }
    }
}

/// The index of the first null byte of `s`, or `s.len()` when `s` holds
/// none.
pub open spec fn first_nul(s: Seq<u8>) -> int
    decreases s.len(),
{
    if s.len() == 0 {
        0
    } else if s[0] == 0 {
        0
    } else {
        1 + first_nul(s.subrange(1, s.len() as int))
    }
}

pub proof fn lemma_first_nul(s: Seq<u8>)
    ensures
        0 <= first_nul(s) <= s.len(),
        forall|j: int| 0 <= j < first_nul(s) ==> s[j] != 0,
        first_nul(s) < s.len() ==> s[first_nul(s)] == 0,
    decreases s.len(),
{
    if s.len() == 0 {
    } else if s[0] == 0 {
    } else {
        let t = s.subrange(1, s.len() as int);
        lemma_first_nul(t);
        assert forall|j: int| 0 <= j < first_nul(s) implies s[j] != 0 by {
            if j >= 1 {
                assert(s[j] == t[j - 1]);
            }
        }
        if first_nul(s) < s.len() {
            assert(s[first_nul(s)] == t[first_nul(t)]);
        }
    }
}

/// The first null byte sits exactly where a scan that saw only non-null
/// bytes before `i` stops.
pub proof fn lemma_first_nul_at(s: Seq<u8>, i: int)
    requires
        0 <= i <= s.len(),
        forall|j: int| 0 <= j < i ==> s[j] != 0,
        i < s.len() ==> s[i] == 0,
    ensures
        first_nul(s) == i,
{
    lemma_first_nul(s);
    if first_nul(s) < i {
        assert(s[first_nul(s)] == 0);
    }
    if first_nul(s) > i {
        assert(i < s.len());
        assert(s[i] != 0);
    }
}

/// Classifies the path field of a returned address structure whose
/// declared length is `len`.
///
/// A path-field byte count of zero means the unnamed address. A leading
/// zero byte means unnamed as well when the platform reports unnamed
/// addresses that way (`leading_nul_is_unnamed`), and otherwise marks an
/// abstract name carrying the bytes after the sentinel. Anything else is
/// a pathname: the bytes up to the first null terminator.
pub open spec fn classify(sun_path: Seq<u8>, len: int, leading_nul_is_unnamed: bool) -> AddressView
    recommends
        sun_path.len() == netc::SUN_PATH_LEN,
        netc::SUN_PATH_OFFSET <= len <= netc::SOCKADDR_UN_LEN,
{
    let n = len - netc::SUN_PATH_OFFSET;
    if n == 0 || (leading_nul_is_unnamed && sun_path[0] == 0) {
        AddressView::Unnamed
    } else if sun_path[0] == 0 {
        AddressView::Abstract(sun_path.subrange(1, n))
    } else {
        AddressView::Pathname(sun_path.subrange(0, first_nul(sun_path.subrange(0, n))))
    }
}

/// The executable form of [`classify`].
pub fn classify_addr(
    addr: &netc::sockaddr_un,
    len: i32,
    leading_nul_is_unnamed: bool,
) -> (r: AddressKind)
    requires
        addr.wf(),
        netc::SUN_PATH_OFFSET <= len as int <= netc::SOCKADDR_UN_LEN,
    ensures
        r@ == classify(addr.sun_path@, len as int, leading_nul_is_unnamed),
{
    let n: usize = (len as usize) - netc::SUN_PATH_OFFSET;
    if n == 0 || (leading_nul_is_unnamed && addr.sun_path[0] == 0) {
        AddressKind::Unnamed
    } else if addr.sun_path[0] == 0 {
        let mut name: Vec<u8> = Vec::new();
        let mut i: usize = 1;
        while i < n
            invariant
                1 <= i <= n,
                n <= addr.sun_path@.len(),
                name@ == addr.sun_path@.subrange(1, i as int),
            decreases n - i,
        {
            name.push(addr.sun_path[i]);
            proof {
                assert(name@ =~= addr.sun_path@.subrange(1, i + 1 as int));
            }
            i += 1;
        }
        AddressKind::Abstract(name)
    } else {
        let mut i: usize = 0;
        while i < n && addr.sun_path[i] != 0
            invariant
                i <= n,
                n <= addr.sun_path@.len(),
                forall|j: int| 0 <= j < i ==> addr.sun_path@[j] != 0,
            decreases n - i,
        {
            i += 1;
        }
        proof {
            let sub = addr.sun_path@.subrange(0, n as int);
            lemma_first_nul_at(sub, i as int);
        }
        let mut name: Vec<u8> = Vec::new();
        let mut j: usize = 0;
        while j < i
            invariant
                j <= i,
                i <= addr.sun_path@.len(),
                name@ == addr.sun_path@.subrange(0, j as int),
            decreases i - j,
        {
            name.push(addr.sun_path[j]);
            proof {
                assert(name@ =~= addr.sun_path@.subrange(0, j + 1 as int));
            }
            j += 1;
        }
        AddressKind::Pathname(name)
    }
}

/// True when the declared window decodes as text where text is owed:
/// the classification is not a pathname whose bytes fail the platform's
/// expected text encoding.
pub open spec fn valid_pathname_text(sun_path: Seq<u8>, len: int) -> bool {
    match classify(sun_path, len, netc::LEADING_NUL_IS_UNNAMED) {
        AddressView::Pathname(p) => is_utf8(p),
        _ => true,
    }
}

/// An address associated with a Unix-domain socket: the fixed-size
/// address structure together with its declared length.
///
/// A declared length of the bare path-field offset is the canonical
/// unnamed form; the length never exceeds the structure's size.
#[derive(Debug)]
pub struct SocketAddr {
    addr: netc::sockaddr_un,
    len: i32,
}

impl View for SocketAddr {
    type V = AddressView;

    closed spec fn view(&self) -> AddressView {
        classify(self.addr.sun_path@, self.len as int, netc::LEADING_NUL_IS_UNNAMED)
    }
}

impl SocketAddr {
    #[verifier::type_invariant]
    spec fn type_inv(&self) -> bool {
        &&& self.addr.wf()
        &&& netc::SUN_PATH_OFFSET <= self.len as int <= netc::SOCKADDR_UN_LEN
        &&& valid_pathname_text(self.addr.sun_path@, self.len as int)
    }

    /// Builds an address from a structure and length the platform
    /// returned.
    ///
    /// A declared length of zero is the platform's way of reporting an
    /// unnamed address and is normalized to the canonical unnamed form
    /// whatever the buffer holds; any other length requires the
    /// Unix-domain family tag, and a mismatch fails with `InvalidInput`.
    /// A window that classifies as a pathname must hold valid text for
    /// the platform, else decoding fails with `InvalidInput` as well.
    /// A nonzero length covers at least the family tag and at most the
    /// whole structure; the platform writes the structure itself, so a
    /// caller has this from the native call's own contract.
    pub fn from_parts(addr: netc::sockaddr_un, len: i32) -> (r: Result<SocketAddr, Error>)
        requires
            addr.wf(),
            len == 0 || netc::SUN_PATH_OFFSET <= len as int <= netc::SOCKADDR_UN_LEN,
        ensures
            match r {
                Ok(sa) => {
                    &&& len == 0 ==> sa@ is Unnamed
                    &&& len != 0 ==> {
                        &&& addr.sun_family == netc::AF_UNIX
                        &&& valid_pathname_text(addr.sun_path@, len as int)
                        &&& sa@ == classify(
                            addr.sun_path@,
                            len as int,
                            netc::LEADING_NUL_IS_UNNAMED,
                        )
                    }
                },
                Err(e) => {
                    &&& len != 0
                    &&& (addr.sun_family != netc::AF_UNIX || !valid_pathname_text(
                        addr.sun_path@,
                        len as int,
                    ))
                    &&& e.spec_kind() == ErrorKind::InvalidInput
                },
            },
    {
        let mut len = len;
        if len == 0 {
            // A zero-length address reports an unnamed endpoint; keep the
            // canonical zero-length form whatever the buffer holds.
            len = netc::SUN_PATH_OFFSET as i32;
        } else if addr.sun_family != netc::AF_UNIX {
            return Err(Error::new(
                ErrorKind::InvalidInput,
                "file descriptor did not correspond to a Unix socket",
            ));
        }
        match classify_addr(&addr, len, netc::LEADING_NUL_IS_UNNAMED) {
            AddressKind::Pathname(p) => {
                if !is_utf8_bytes(p.as_slice()) {
                    return Err(Error::new(
                        ErrorKind::InvalidInput,
                        "pathname in the address is not valid text",
                    ));
                }
            },
            _ => {},
        }
        Ok(SocketAddr { addr, len })
    }

    /// The classified form of this address.
    pub fn address(&self) -> (r: AddressKind)
        ensures
            r@ == self@,
    {
        proof {
            use_type_invariant(self);
        }
        classify_addr(&self.addr, self.len, netc::LEADING_NUL_IS_UNNAMED)
    }

    /// Returns true if and only if the address is unnamed.
    pub fn is_unnamed(&self) -> (r: bool)
        ensures
            r == (self@ is Unnamed),
    {
        match self.address() {
            AddressKind::Unnamed => true,
            _ => false,
        }
    }

    /// Returns the contents of this address if it is a pathname address,
    /// as the platform's UTF-8 path bytes; decoding has already checked
    /// that they are valid text.
    pub fn as_pathname(&self) -> (r: Option<Vec<u8>>)
        ensures
            match r {
                Some(p) => self@ == AddressView::Pathname(p@) && is_utf8(p@),
                None => !(self@ is Pathname),
            },
    {
        proof {
            use_type_invariant(self);
        }
        match self.address() {
            AddressKind::Pathname(p) => Some(p),
            _ => None,
        }
    }
}

/// Round trip: a nonempty path that encoding accepts decodes back to
/// exactly that pathname, whichever way the platform reports unnamed
/// addresses.
///
/// The empty path is the one representable input left out: it encodes to
/// a zero-byte path field, which decodes as the unnamed address rather
/// than as an empty pathname.
pub proof fn lemma_encode_decode_roundtrip(p: Seq<u8>, leading_nul_is_unnamed: bool)
    requires
        encodable(p),
        p.len() > 0,
    ensures
        classify(encoded_path_field(p), encoded_len(p), leading_nul_is_unnamed)
            == AddressView::Pathname(p),
        valid_pathname_text(encoded_path_field(p), encoded_len(p)),
{
    let buf = encoded_path_field(p);
    let n = encoded_len(p) - netc::SUN_PATH_OFFSET;
    assert(p[0] != 0);
    assert(buf[0] == p[0]);
    assert(n == p.len() + 1);
    let sub = buf.subrange(0, n);
    assert forall|j: int| 0 <= j < p.len() implies sub[j] != 0 by {
        assert(sub[j] == p[j]);
    }
    assert(sub[p.len() as int] == 0);
    lemma_first_nul_at(sub, p.len() as int);
    assert(buf.subrange(0, p.len() as int) =~= p);
}

} // verus!
