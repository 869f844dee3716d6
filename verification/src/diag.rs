//! Rendering a classified address for human inspection.
//!
//! An address renders as `(unnamed)`, or as its bytes quoted with a
//! kind label after them. Names are not assumed to be valid text, so
//! every byte is escaped the way Rust's ASCII escaping writes it: tab,
//! carriage return, line feed, backslash and both quote characters by
//! a backslash escape, printable ASCII as itself, and every other byte
//! as a two-digit hexadecimal escape.

use vstd::prelude::*;

use crate::addr::AddressKind;
use crate::addr::AddressView;

verus! {

/// The ASCII code of the lowercase hexadecimal digit of a value below
/// sixteen.
pub open spec fn hex_digit(n: u8) -> u8
    recommends
        n < 16,
{
    if n < 10 {
        (48 + n) as u8
    } else {
        (87 + n) as u8
    }
}

/// The escape of one byte: a backslash pair for the named escapes, the
/// byte itself when printable, a `\xNN` hexadecimal escape otherwise.
pub open spec fn escape_byte(b: u8) -> Seq<u8> {
    if b == 9 {  // tab
        seq![92u8, 116u8]
    } else if b == 13 {  // carriage return
        seq![92u8, 114u8]
    } else if b == 10 {  // line feed
        seq![92u8, 110u8]
    } else if b == 92 {  // backslash
        seq![92u8, 92u8]
    } else if b == 39 {  // single quote
        seq![92u8, 39u8]
    } else if b == 34 {  // double quote
        seq![92u8, 34u8]
    } else if 32 <= b && b <= 126 {  // printable
        seq![b]
    } else {
        seq![92u8, 120u8, hex_digit(b / 16), hex_digit(b % 16)]
    }
}

/// The escapes of a byte sequence, concatenated in order.
pub open spec fn escape_seq(s: Seq<u8>) -> Seq<u8>
    decreases s.len(),
{
    if s.len() == 0 {
        Seq::empty()
    } else {
        escape_byte(s[0]) + escape_seq(s.skip(1))
    }
}

proof fn lemma_escape_seq_push(s: Seq<u8>, b: u8)
    ensures
        escape_seq(s.push(b)) == escape_seq(s) + escape_byte(b),
    decreases s.len(),
{
    let t = s.push(b);
    assert(t.len() == s.len() + 1);
    assert(escape_seq(t) == escape_byte(t[0]) + escape_seq(t.skip(1)));
    if s.len() == 0 {
        assert(t[0] == b);
        assert(t.skip(1) =~= Seq::<u8>::empty());
        assert(escape_seq(t.skip(1)) == Seq::<u8>::empty());
        assert(escape_seq(t) =~= escape_seq(s) + escape_byte(b));
    } else {
        assert(t[0] == s[0]);
        assert(t.skip(1) =~= s.skip(1).push(b));
        lemma_escape_seq_push(s.skip(1), b);
        assert(escape_seq(s) == escape_byte(s[0]) + escape_seq(s.skip(1)));
        assert(escape_seq(t) =~= escape_seq(s) + escape_byte(b));
    }
}

/// The quoted, escaped rendering of a raw byte name, as diagnostics
/// print it.
pub open spec fn quoted_escaped(s: Seq<u8>) -> Seq<u8> {
    seq![34u8] + escape_seq(s) + seq![34u8]
}

fn push_escape_of(out: &mut Vec<u8>, b: u8)
    ensures
        final(out)@ == old(out)@ + escape_byte(b),
{
    if b == 9 {
        out.push(92);
        out.push(116);
    } else if b == 13 {
        out.push(92);
        out.push(114);
    } else if b == 10 {
        out.push(92);
        out.push(110);
    } else if b == 92 {
        out.push(92);
        out.push(92);
    } else if b == 39 {
        out.push(92);
        out.push(39);
    } else if b == 34 {
        out.push(92);
        out.push(34);
    } else if 32 <= b && b <= 126 {
        out.push(b);
    } else {
        let hi = b / 16;
        let lo = b % 16;
        out.push(92);
        out.push(120);
        out.push(if hi < 10 { 48 + hi } else { 87 + hi });
        out.push(if lo < 10 { 48 + lo } else { 87 + lo });
    }
}

/// Renders a raw byte name quoted, with every byte escaped.
pub fn ascii_escaped(name: &[u8]) -> (r: Vec<u8>)
    ensures
        r@ == quoted_escaped(name@),
{
    let mut out: Vec<u8> = Vec::new();
    out.push(34);
    let mut i: usize = 0;
    while i < name.len()
        invariant
            i <= name@.len(),
            out@ == seq![34u8] + escape_seq(name@.take(i as int)),
        decreases name@.len() - i,
    {
        proof {
            lemma_escape_seq_push(name@.take(i as int), name@[i as int]);
            assert(name@.take(i as int).push(name@[i as int]) =~= name@.take(i + 1));
        }
        push_escape_of(&mut out, name[i]);
        i += 1;
    }
    proof {
        assert(name@.take(name@.len() as int) =~= name@);
    }
    out.push(34);
    proof {
        assert(out@ =~= quoted_escaped(name@));
    }
    out
}

/// The label of the unnamed address: `(unnamed)`.
pub open spec fn unnamed_label() -> Seq<u8> {
    seq![40u8, 117u8, 110u8, 110u8, 97u8, 109u8, 101u8, 100u8, 41u8]
}

/// The suffix after a rendered pathname: ` (pathname)`.
pub open spec fn pathname_suffix() -> Seq<u8> {
    seq![32u8, 40u8, 112u8, 97u8, 116u8, 104u8, 110u8, 97u8, 109u8, 101u8, 41u8]
}

/// The suffix after a rendered abstract name: ` (abstract)`.
pub open spec fn abstract_suffix() -> Seq<u8> {
    seq![32u8, 40u8, 97u8, 98u8, 115u8, 116u8, 114u8, 97u8, 99u8, 116u8, 41u8]
}

/// The rendering of a classified address: `(unnamed)`, or the quoted
/// escaped bytes followed by the kind's label.
pub open spec fn rendered_address(a: AddressView) -> Seq<u8> {
    match a {
        AddressView::Unnamed => unnamed_label(),
        AddressView::Pathname(p) => quoted_escaped(p) + pathname_suffix(),
        AddressView::Abstract(b) => quoted_escaped(b) + abstract_suffix(),
    }
}

/// Renders a classified address for human inspection.
pub fn render_address(kind: &AddressKind) -> (r: Vec<u8>)
    ensures
        r@ == rendered_address(kind@),
{
    match kind {
        AddressKind::Unnamed => {
            let mut out: Vec<u8> = Vec::new();
            out.push(40);
            out.push(117);
            out.push(110);
            out.push(110);
            out.push(97);
            out.push(109);
            out.push(101);
            out.push(100);
            out.push(41);
            proof {
                assert(out@ =~= unnamed_label());
            }
            out
        },
        AddressKind::Pathname(p) => {
            let mut out = ascii_escaped(p.as_slice());
            out.push(32);
            out.push(40);
            out.push(112);
            out.push(97);
            out.push(116);
            out.push(104);
            out.push(110);
            out.push(97);
            out.push(109);
            out.push(101);
            out.push(41);
            proof {
                assert(out@ =~= quoted_escaped(p@) + pathname_suffix());
            }
            out
        },
        AddressKind::Abstract(b) => {
            let mut out = ascii_escaped(b.as_slice());
            out.push(32);
            out.push(40);
            out.push(97);
            out.push(98);
            out.push(115);
            out.push(116);
            out.push(114);
            out.push(97);
            out.push(99);
            out.push(116);
            out.push(41);
            proof {
                assert(out@ =~= quoted_escaped(b@) + abstract_suffix());
            }
            out
        },
    }
}

} // verus!
