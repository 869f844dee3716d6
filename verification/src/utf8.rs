//! Validity of the platform's expected text encoding.
//!
//! A pathname travels through the address structure as bytes; the
//! platform's paths are UTF-8 text, so the codec rejects byte sequences
//! that are not. Validity is stated here from the encoding's own rules:
//! a sequence is valid when it is a chain of well-formed scalar
//! encodings — one byte below `0x80`, or a lead byte followed by the
//! right number of continuation bytes, with the overlong, surrogate and
//! out-of-range forms excluded.

use vstd::prelude::*;

verus! {

/// True of a continuation byte: high bit set, next bit clear.
pub open spec fn is_utf8_cont(b: u8) -> bool {
    0x80 <= b <= 0xBF
}

/// The length of the well-formed scalar encoding at the front of `s`,
/// or zero when the front is not one.
///
/// Two-byte forms start at `0xC2` (below is overlong); the three-byte
/// lead `0xE0` needs a second byte from `0xA0` (overlong) and `0xED`
/// one below `0xA0` (surrogates); the four-byte lead `0xF0` needs a
/// second byte from `0x90` (overlong) and `0xF4` one below `0x90`
/// (beyond the last scalar value).
pub open spec fn utf8_step(s: Seq<u8>) -> int {
    if s.len() >= 1 && s[0] < 0x80 {
        1
    } else if s.len() >= 2 && 0xC2 <= s[0] <= 0xDF && is_utf8_cont(s[1]) {
        2
    } else if s.len() >= 3 && is_utf8_cont(s[2]) && {
        ||| s[0] == 0xE0 && 0xA0 <= s[1] <= 0xBF
        ||| 0xE1 <= s[0] <= 0xEC && is_utf8_cont(s[1])
        ||| s[0] == 0xED && 0x80 <= s[1] <= 0x9F
        ||| 0xEE <= s[0] <= 0xEF && is_utf8_cont(s[1])
    } {
        3
    } else if s.len() >= 4 && is_utf8_cont(s[2]) && is_utf8_cont(s[3]) && {
        ||| s[0] == 0xF0 && 0x90 <= s[1] <= 0xBF
        ||| 0xF1 <= s[0] <= 0xF3 && is_utf8_cont(s[1])
        ||| s[0] == 0xF4 && 0x80 <= s[1] <= 0x8F
    } {
        4
    } else {
        0
    }
}

/// True when `s` is a chain of well-formed scalar encodings.
pub open spec fn is_utf8(s: Seq<u8>) -> bool
    decreases s.len(),
{
    if s.len() == 0 {
        true
    } else {
        let k = utf8_step(s);
        if k <= 0 {
            false
        } else {
            is_utf8(s.skip(k))
        }
    }
}

/// Decides [`is_utf8`] by one pass over the bytes.
pub fn is_utf8_bytes(s: &[u8]) -> (r: bool)
    ensures
        r == is_utf8(s@),
{
    let n = s.len();
    proof {
        assert(s@.skip(0) =~= s@);
    }
    let mut i: usize = 0;
    while i < n
        invariant
            i <= n,
            n == s@.len(),
            is_utf8(s@) == is_utf8(s@.skip(i as int)),
        decreases n - i,
    {
        let ghost tail = s@.skip(i as int);
        proof {
            assert(tail.len() == n - i);
            assert forall|j: int| 0 <= j < tail.len() implies tail[j] == s@[i + j] by {}
        }
        let b0 = s[i];
        let k: usize;
        if b0 < 0x80 {
            k = 1;
        } else if 0xC2 <= b0 && b0 <= 0xDF {
            if i + 1 >= n || !(0x80 <= s[i + 1] && s[i + 1] <= 0xBF) {
                proof {
                    assert(utf8_step(tail) == 0);
                }
                return false;
            }
            k = 2;
        } else if 0xE0 <= b0 && b0 <= 0xEF {
            if n - i <= 2 {
                proof {
                    assert(utf8_step(tail) == 0);
                }
                return false;
            }
            let b1 = s[i + 1];
            let b2 = s[i + 2];
            let lead_ok: bool = if b0 == 0xE0 {
                0xA0 <= b1 && b1 <= 0xBF
            } else if b0 == 0xED {
                0x80 <= b1 && b1 <= 0x9F
            } else {
                0x80 <= b1 && b1 <= 0xBF
            };
            if !lead_ok || !(0x80 <= b2 && b2 <= 0xBF) {
                proof {
                    assert(utf8_step(tail) == 0);
                }
                return false;
            }
            k = 3;
        } else if 0xF0 <= b0 && b0 <= 0xF4 {
            if n - i <= 3 {
                proof {
                    assert(utf8_step(tail) == 0);
                }
                return false;
            }
            let b1 = s[i + 1];
            let b2 = s[i + 2];
            let b3 = s[i + 3];
            let lead_ok: bool = if b0 == 0xF0 {
                0x90 <= b1 && b1 <= 0xBF
            } else if b0 == 0xF4 {
                0x80 <= b1 && b1 <= 0x8F
            } else {
                0x80 <= b1 && b1 <= 0xBF
            };
            if !lead_ok || !(0x80 <= b2 && b2 <= 0xBF) || !(0x80 <= b3 && b3 <= 0xBF) {
                proof {
                    assert(utf8_step(tail) == 0);
                }
                return false;
            }
            k = 4;
        } else {
            proof {
                assert(utf8_step(tail) == 0);
            }
            return false;
        }
        proof {
            assert(utf8_step(tail) == k);
            assert(tail.skip(k as int) =~= s@.skip(i + k));
        }
        i += k;
    }
    proof {
        assert(s@.skip(n as int) =~= Seq::<u8>::empty());
    }
    true
}

} // verus!
