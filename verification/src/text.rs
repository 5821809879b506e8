//! Byte-level helpers shared by the decoder, the encoder and the assembler.
//!
//! All protocol text is handled as raw bytes. The functions here split and
//! join delimited text, render and read decimal integers, and escape free
//! text so that it can travel inside a delimited request.

use vstd::prelude::*;

verus! {

/// `%`, which introduces an escaped byte.
pub const PERCENT: u8 = 37;

/// `&`, which separates the entries of a payload.
pub const AMP: u8 = 38;

/// `(`, which opens a section marker inside a key.
pub const OPEN: u8 = 40;

/// `)`, which closes a section marker inside a key.
pub const CLOSE: u8 = 41;

/// `-`, the sign of a negative integer.
pub const MINUS: u8 = 45;

/// `/`, which separates the arguments of a request.
pub const SLASH: u8 = 47;

/// `0`, the first decimal digit.
pub const ZERO: u8 = 48;

/// `:`, which separates a key from its value and a command from its arguments.
pub const COLON: u8 = 58;

/// `|`, which separates the fields of a list or of a record.
pub const PIPE: u8 = 124;

/// `~`, which separates the records of a record array.
pub const TILDE: u8 = 126;

/// The views of a sequence of byte vectors.
pub open spec fn views(v: Seq<Vec<u8>>) -> Seq<Seq<u8>> {
    Seq::new(v.len(), |i: int| v[i]@)
}

/// The views of a sequence of lists of byte vectors.
pub open spec fn nested_views(v: Seq<Vec<Vec<u8>>>) -> Seq<Seq<Seq<u8>>> {
    Seq::new(v.len(), |i: int| views(v[i]@))
}

/// Whether two byte strings hold the same bytes.
pub fn bytes_eq(a: &[u8], b: &[u8]) -> (same: bool)
    ensures
        same == (a@ == b@),
{
    if a.len() != b.len() {
        return false;
    }
    let mut i: usize = 0;
    while i < a.len()
        invariant
            i <= a.len(),
            a.len() == b.len(),
            forall|j: int| 0 <= j < i ==> a@[j] == b@[j],
        decreases a.len() - i,
    {
        if a[i] != b[i] {
            return false;
        }
        i += 1;
    }
    assert(a@ =~= b@);
    true
}

/// An owned copy of a byte string.
pub fn copy_bytes(s: &[u8]) -> (out: Vec<u8>)
    ensures
        out@ == s@,
{
    let mut out: Vec<u8> = Vec::new();
    let mut i: usize = 0;
    while i < s.len()
        invariant
            i <= s.len(),
            out@ == s@.take(i as int),
        decreases s.len() - i,
    {
        out.push(s[i]);
        assert(s@.take(i + 1) =~= s@.take(i as int).push(s@[i as int]));
        i += 1;
    }
    assert(s@.take(s.len() as int) =~= s@);
    out
}

/// Position of the first `b` in `s`, if `s` holds one.
pub open spec fn first_index(s: Seq<u8>, b: u8) -> Option<int>
    decreases s.len(),
{
    if s.len() == 0 {
        None
    } else if s[0] == b {
        Some(0int)
    } else {
        match first_index(s.drop_first(), b) {
            Some(i) => Some(i + 1),
            None => None,
        }
    }
}

/// `first_index` names the least position that holds `b`, and is `None`
/// exactly when no position does.
pub proof fn lemma_first_index(s: Seq<u8>, b: u8)
    ensures
        match first_index(s, b) {
            Some(i) => 0 <= i < s.len() && s[i] == b && forall|j: int| 0 <= j < i ==> s[j] != b,
            None => forall|j: int| 0 <= j < s.len() ==> s[j] != b,
        },
    decreases s.len(),
{
    if s.len() > 0 && s[0] != b {
        let rest = s.drop_first();
        lemma_first_index(rest, b);
        match first_index(rest, b) {
            Some(i) => {
                assert forall|j: int| 0 <= j < i + 1 implies s[j] != b by {
                    if j > 0 {
                        assert(s[j] == rest[j - 1]);
                    }
                }
            },
            None => {
                assert forall|j: int| 0 <= j < s.len() implies s[j] != b by {
                    if j > 0 {
                        assert(s[j] == rest[j - 1]);
                    }
                }
            },
        }
    }
}

/// A position that holds `b` and has no `b` before it is the first index.
pub proof fn lemma_first_index_unique(s: Seq<u8>, b: u8, i: int)
    requires
        0 <= i < s.len(),
        s[i] == b,
        forall|j: int| 0 <= j < i ==> s[j] != b,
    ensures
        first_index(s, b) == Some(i),
{
    lemma_first_index(s, b);
}

/// Finds the first `b` in `s`.
pub fn find(s: &[u8], b: u8) -> (found: Option<usize>)
    ensures
        match found {
            Some(i) => first_index(s@, b) == Some(i as int),
            None => first_index(s@, b) is None,
        },
{
    let mut i: usize = 0;
    while i < s.len()
        invariant
            i <= s.len(),
            forall|j: int| 0 <= j < i ==> s@[j] != b,
        decreases s.len() - i,
    {
        if s[i] == b {
            proof {
                lemma_first_index_unique(s@, b, i as int);
            }
            return Some(i);
        }
        i += 1;
    }
    proof {
        lemma_first_index(s@, b);
    }
    None
}

/// Whether `s` holds the byte `b`.
pub fn contains_byte(s: &[u8], b: u8) -> (found: bool)
    ensures
        found == s@.contains(b),
{
    let at = find(s, b);
    proof {
        lemma_first_index(s@, b);
    }
    at.is_some()
}

/// The bytes of `s` from `from` up to, not including, `to`.
pub fn slice_copy(s: &[u8], from: usize, to: usize) -> (out: Vec<u8>)
    requires
        from <= to <= s@.len(),
    ensures
        out@ == s@.subrange(from as int, to as int),
{
    let mut out: Vec<u8> = Vec::new();
    let mut i: usize = from;
    while i < to
        invariant
            from <= i <= to,
            to <= s@.len(),
            out@ == s@.subrange(from as int, i as int),
        decreases to - i,
    {
        out.push(s[i]);
        assert(s@.subrange(from as int, i + 1) =~= s@.subrange(from as int, i as int).push(
            s@[i as int],
        ));
        i += 1;
    }
    out
}

/// The pieces of `s` between occurrences of `sep`.
///
/// Every occurrence of `sep` ends one piece and starts the next, so text
/// with `n` separators has `n + 1` pieces, and empty pieces are kept
/// wherever they stand: at the front, between two separators, at the end.
pub open spec fn split_spec(s: Seq<u8>, sep: u8) -> Seq<Seq<u8>>
    decreases s.len(),
{
    if s.len() == 0 {
        seq![Seq::<u8>::empty()]
    } else {
        let head = split_spec(s.drop_last(), sep);
        if s.last() == sep {
            head.push(Seq::<u8>::empty())
        } else {
            head.update(head.len() - 1, head.last().push(s.last()))
        }
    }
}

/// `pieces` written out with `sep` between neighbours.
pub open spec fn join_spec(pieces: Seq<Seq<u8>>, sep: u8) -> Seq<u8>
    decreases pieces.len(),
{
    if pieces.len() == 0 {
        Seq::<u8>::empty()
    } else if pieces.len() == 1 {
        pieces[0]
    } else {
        join_spec(pieces.drop_last(), sep).push(sep) + pieces.last()
    }
}

/// How often `b` occurs in `s`.
pub open spec fn count_of(s: Seq<u8>, b: u8) -> nat
    decreases s.len(),
{
    if s.len() == 0 {
        0
    } else {
        count_of(s.drop_last(), b) + if s.last() == b {
            1nat
        } else {
            0nat
        }
    }
}

/// Splitting never yields an empty list, yields one piece more than there
/// are separators, and no piece holds the separator.
pub proof fn lemma_split_shape(s: Seq<u8>, sep: u8)
    ensures
        split_spec(s, sep).len() == count_of(s, sep) + 1,
        forall|i: int|
            0 <= i < split_spec(s, sep).len() ==> !(#[trigger] split_spec(s, sep)[i]).contains(sep),
    decreases s.len(),
{
    if s.len() > 0 {
        lemma_split_shape(s.drop_last(), sep);
        let head = split_spec(s.drop_last(), sep);
        let all = split_spec(s, sep);
        assert forall|i: int| 0 <= i < all.len() implies !(#[trigger] all[i]).contains(sep) by {
            if i < head.len() - 1 {
                assert(all[i] == head[i]);
            } else if s.last() == sep {
                if i == head.len() - 1 {
                    assert(all[i] == head[i]);
                }
            } else {
                let grown = head.last().push(s.last());
                assert(all[i] == grown);
                if grown.contains(sep) {
                    let k = choose|k: int| 0 <= k < grown.len() && grown[k] == sep;
                    assert(head.last()[k] == sep);
                    assert(head.last().contains(sep));
                }
            }
        }
    }
}

/// Joining the pieces of a split gives the text back.
pub proof fn lemma_join_of_split(s: Seq<u8>, sep: u8)
    ensures
        join_spec(split_spec(s, sep), sep) == s,
    decreases s.len(),
{
    if s.len() == 0 {
    } else {
        let front = s.drop_last();
        lemma_join_of_split(front, sep);
        lemma_split_shape(front, sep);
        let head = split_spec(front, sep);
        if s.last() == sep {
            let all = head.push(Seq::<u8>::empty());
            assert(all.drop_last() =~= head);
            assert(join_spec(all, sep) =~= s);
        } else {
            let all = head.update(head.len() - 1, head.last().push(s.last()));
            lemma_join_grows(head, sep, s.last());
            assert(join_spec(all, sep) =~= s);
        }
    }
}

/// Appending a byte to the last piece appends it to the joined text.
proof fn lemma_join_grows(pieces: Seq<Seq<u8>>, sep: u8, b: u8)
    requires
        pieces.len() > 0,
    ensures
        join_spec(pieces.update(pieces.len() - 1, pieces.last().push(b)), sep) == join_spec(
            pieces,
            sep,
        ).push(b),
{
    let grown = pieces.update(pieces.len() - 1, pieces.last().push(b));
    if pieces.len() == 1 {
    } else {
        assert(grown.drop_last() =~= pieces.drop_last());
        assert(join_spec(grown, sep) =~= join_spec(pieces, sep).push(b));
    }
}

/// Splitting a joined list of separator-free pieces gives the pieces back.
pub proof fn lemma_split_of_join(pieces: Seq<Seq<u8>>, sep: u8)
    requires
        pieces.len() > 0,
        forall|i: int| 0 <= i < pieces.len() ==> !(#[trigger] pieces[i]).contains(sep),
    ensures
        split_spec(join_spec(pieces, sep), sep) == pieces,
    decreases pieces.len(),
{
    if pieces.len() == 1 {
        lemma_split_clean(pieces[0], sep);
        assert(pieces =~= seq![pieces[0]]);
    } else {
        let front = pieces.drop_last();
        assert forall|i: int| 0 <= i < front.len() implies !(#[trigger] front[i]).contains(sep) by {
            assert(front[i] == pieces[i]);
        }
        lemma_split_of_join(front, sep);
        let stem = join_spec(front, sep).push(sep);
        assert(stem.drop_last() =~= join_spec(front, sep));
        assert(split_spec(stem, sep) == front.push(Seq::<u8>::empty()));
        lemma_split_append_clean(stem, pieces.last(), sep);
        assert(front.push(Seq::<u8>::empty()).update(front.len() as int, pieces.last())
            =~= pieces);
    }
}

/// Text without a separator is a single piece.
proof fn lemma_split_clean(s: Seq<u8>, sep: u8)
    requires
        !s.contains(sep),
    ensures
        split_spec(s, sep) == seq![s],
    decreases s.len(),
{
    if s.len() == 0 {
        assert(s =~= Seq::<u8>::empty());
    } else {
        let front = s.drop_last();
        assert(!front.contains(sep)) by {
            if front.contains(sep) {
                let k = choose|k: int| 0 <= k < front.len() && front[k] == sep;
                assert(s[k] == sep);
            }
        }
        lemma_split_clean(front, sep);
        assert(s[s.len() - 1] != sep);
        assert(front.push(s.last()) =~= s);
        assert(seq![front].update(0, front.push(s.last())) =~= seq![s]);
    }
}

/// Appending separator-free text extends the last piece by that text.
proof fn lemma_split_append_clean(s: Seq<u8>, tail: Seq<u8>, sep: u8)
    requires
        !tail.contains(sep),
    ensures
        split_spec(s + tail, sep) == split_spec(s, sep).update(
            split_spec(s, sep).len() - 1,
            split_spec(s, sep).last() + tail,
        ),
    decreases tail.len(),
{
    lemma_split_shape(s, sep);
    let base = split_spec(s, sep);
    if tail.len() == 0 {
        assert(s + tail =~= s);
        assert(base.last() + tail =~= base.last());
        assert(base.update(base.len() - 1, base.last()) =~= base);
    } else {
        let front = tail.drop_last();
        assert(!front.contains(sep)) by {
            if front.contains(sep) {
                let k = choose|k: int| 0 <= k < front.len() && front[k] == sep;
                assert(tail[k] == sep);
            }
        }
        lemma_split_append_clean(s, front, sep);
        assert((s + tail).drop_last() =~= s + front);
        assert(tail[tail.len() - 1] != sep);
        assert((s + tail).last() == tail.last());
        let mid = base.update(base.len() - 1, base.last() + front);
        assert(mid.last().push(tail.last()) =~= base.last() + tail);
        assert(mid.update(mid.len() - 1, base.last() + tail) =~= base.update(
            base.len() - 1,
            base.last() + tail,
        ));
    }
}

/// Splits `s` at every `sep`.
pub fn split(s: &[u8], sep: u8) -> (pieces: Vec<Vec<u8>>)
    ensures
        views(pieces@) == split_spec(s@, sep),
{
    let mut done: Vec<Vec<u8>> = Vec::new();
    let mut current: Vec<u8> = Vec::new();
    let mut i: usize = 0;
    assert(s@.take(0) =~= Seq::<u8>::empty());
    assert(views(done@).push(current@) =~= seq![Seq::<u8>::empty()]);
    while i < s.len()
        invariant
            i <= s.len(),
            views(done@).push(current@) == split_spec(s@.take(i as int), sep),
        decreases s.len() - i,
    {
        let b = s[i];
        let ghost before = views(done@).push(current@);
        let ghost prefix = s@.take(i + 1);
        assert(prefix.drop_last() =~= s@.take(i as int));
        assert(prefix.last() == b);
        if b == sep {
            done.push(current);
            current = Vec::new();
            assert(views(done@).push(current@) =~= before.push(Seq::<u8>::empty()));
        } else {
            current.push(b);
            assert(views(done@).push(current@) =~= before.update(
                before.len() - 1,
                before.last().push(b),
            ));
        }
        i += 1;
    }
    assert(s@.take(s.len() as int) =~= s@);
    let ghost whole = views(done@).push(current@);
    done.push(current);
    assert(views(done@) =~= whole);
    done
}

} // verus!
