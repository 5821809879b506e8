//! Percent escaping of free text, and hexadecimal text.
//!
//! A message is free text. Where it travels inside a request, every byte
//! that the wire format gives a meaning to, and every byte that is not a
//! printable ASCII letter, is written as `%` followed by two upper-case
//! hexadecimal digits.

use vstd::prelude::*;
use crate::text::{AMP, COLON, PERCENT, PIPE, SLASH, TILDE, ZERO};

verus! {

/// The last control byte below the printable range, the space.
pub const SPACE: u8 = 32;

/// The first byte above the printable range.
pub const DELETE: u8 = 127;

/// Whether `b` is written escaped in a message: the delimiters, the escape
/// sign, the space, control bytes and everything outside ASCII.
pub open spec fn is_reserved(b: u8) -> bool {
    b == PERCENT || b == AMP || b == SLASH || b == COLON || b == PIPE || b == TILDE || b <= SPACE
        || b >= DELETE
}

/// Whether `s` is non-empty text that needs no escaping.
pub open spec fn is_plain_text(s: Seq<u8>) -> bool {
    s.len() > 0 && forall|i: int| 0 <= i < s.len() ==> !is_reserved(#[trigger] s[i])
}

/// The upper-case hexadecimal digit for `n`, which is below 16.
pub open spec fn upper_hex(n: u8) -> u8 {
    if n < 10 {
        (ZERO + n) as u8
    } else {
        (55 + n) as u8
    }
}

/// The lower-case hexadecimal digit for `n`, which is below 16.
pub open spec fn lower_hex(n: u8) -> u8 {
    if n < 10 {
        (ZERO + n) as u8
    } else {
        (87 + n) as u8
    }
}

/// How one byte is written in escaped text.
pub open spec fn escape_byte(b: u8) -> Seq<u8> {
    if is_reserved(b) {
        seq![PERCENT, upper_hex(b / 16), upper_hex(b % 16)]
    } else {
        seq![b]
    }
}

/// The escaped form of `s`: each byte written by `escape_byte`, in order.
pub open spec fn escape_spec(s: Seq<u8>) -> Seq<u8>
    decreases s.len(),
{
    if s.len() == 0 {
        Seq::<u8>::empty()
    } else {
        escape_spec(s.drop_last()) + escape_byte(s.last())
    }
}

/// `s` in lower-case hexadecimal, two digits per byte.
pub open spec fn hex_spec(s: Seq<u8>) -> Seq<u8>
    decreases s.len(),
{
    if s.len() == 0 {
        Seq::<u8>::empty()
    } else {
        hex_spec(s.drop_last()).push(lower_hex(s.last() / 16)).push(lower_hex(s.last() % 16))
    }
}

/// Escaped text holds no reserved byte but the escape sign itself.
pub proof fn lemma_escape_is_safe(s: Seq<u8>)
    ensures
        forall|i: int|
            0 <= i < escape_spec(s).len() ==> {
                let b = #[trigger] escape_spec(s)[i];
                b == PERCENT || !is_reserved(b)
            },
    decreases s.len(),
{
    if s.len() > 0 {
        lemma_escape_is_safe(s.drop_last());
        let front = escape_spec(s.drop_last());
        let tail = escape_byte(s.last());
        let all = escape_spec(s);
        assert forall|i: int| 0 <= i < all.len() implies {
            let b = #[trigger] all[i];
            b == PERCENT || !is_reserved(b)
        } by {
            if i < front.len() {
                assert(all[i] == front[i]);
            } else {
                assert(all[i] == tail[i - front.len()]);
            }
        }
    }
}

/// Text that needs no escaping is left as it is.
pub proof fn lemma_escape_keeps_plain_text(s: Seq<u8>)
    requires
        forall|i: int| 0 <= i < s.len() ==> !is_reserved(#[trigger] s[i]),
    ensures
        escape_spec(s) == s,
    decreases s.len(),
{
    if s.len() > 0 {
        let front = s.drop_last();
        assert forall|i: int| 0 <= i < front.len() implies !is_reserved(#[trigger] front[i]) by {
            assert(front[i] == s[i]);
        }
        lemma_escape_keeps_plain_text(front);
        assert(!is_reserved(s[s.len() - 1]));
        assert(front + seq![s.last()] =~= s);
    }
}

/// Hexadecimal text has two digits per byte, each a digit or `a` to `f`.
pub proof fn lemma_hex_shape(s: Seq<u8>)
    ensures
        hex_spec(s).len() == 2 * s.len(),
        forall|i: int| 0 <= i < hex_spec(s).len() ==> !is_reserved(#[trigger] hex_spec(s)[i]),
    decreases s.len(),
{
    if s.len() > 0 {
        lemma_hex_shape(s.drop_last());
        let front = hex_spec(s.drop_last());
        let all = hex_spec(s);
        assert forall|i: int| 0 <= i < all.len() implies !is_reserved(#[trigger] all[i]) by {
            if i < front.len() {
                assert(all[i] == front[i]);
            }
        }
    }
}

/// The upper-case hexadecimal digit for `n`.
fn upper_hex_digit(n: u8) -> (digit: u8)
    requires
        n < 16,
    ensures
        digit == upper_hex(n),
{
    if n < 10 {
        ZERO + n
    } else {
        55 + n
    }
}

/// The lower-case hexadecimal digit for `n`.
fn lower_hex_digit(n: u8) -> (digit: u8)
    requires
        n < 16,
    ensures
        digit == lower_hex(n),
{
    if n < 10 {
        ZERO + n
    } else {
        87 + n
    }
}

/// Escapes free text for use as a request argument.
pub fn escape(s: &[u8]) -> (out: Vec<u8>)
    ensures
        out@ == escape_spec(s@),
{
    let mut out: Vec<u8> = Vec::new();
    let mut i: usize = 0;
    assert(s@.take(0) =~= Seq::<u8>::empty());
    while i < s.len()
        invariant
            i <= s.len(),
            out@ == escape_spec(s@.take(i as int)),
        decreases s.len() - i,
    {
        let b = s[i];
        let ghost before = out@;
        assert(s@.take(i + 1).drop_last() =~= s@.take(i as int));
        if b == PERCENT || b == AMP || b == SLASH || b == COLON || b == PIPE || b == TILDE || b
            <= SPACE || b >= DELETE {
            out.push(PERCENT);
            out.push(upper_hex_digit(b / 16));
            out.push(upper_hex_digit(b % 16));
        } else {
            out.push(b);
        }
        assert(out@ =~= before + escape_byte(b));
        i += 1;
    }
    assert(s@.take(s.len() as int) =~= s@);
    out
}

/// Writes `s` in lower-case hexadecimal.
pub fn hex_encode(s: &[u8]) -> (out: Vec<u8>)
    ensures
        out@ == hex_spec(s@),
{
    let mut out: Vec<u8> = Vec::new();
    let mut i: usize = 0;
    assert(s@.take(0) =~= Seq::<u8>::empty());
    while i < s.len()
        invariant
            i <= s.len(),
            out@ == hex_spec(s@.take(i as int)),
        decreases s.len() - i,
    {
        let b = s[i];
        assert(s@.take(i + 1).drop_last() =~= s@.take(i as int));
        out.push(lower_hex_digit(b / 16));
        out.push(lower_hex_digit(b % 16));
        i += 1;
    }
    assert(s@.take(s.len() as int) =~= s@);
    out
}

} // verus!
