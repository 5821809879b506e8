//! Decoding of a raw response payload into a key/value store.
//!
//! A payload is a list of entries separated by `&`. An entry is a key, a
//! `:`, and a value; the value is everything after the first `:` and may be
//! empty. A key is a name, optionally followed by a section marker in
//! parentheses, `name(marker)`, by which the server tells repeated sections
//! apart; the entry is filed under the name. When a name arrives more than
//! once, the last value wins. The empty payload holds no entries.
//!
//! Values are not interpreted here.

use vstd::prelude::*;
use crate::error::DecodeError;
use crate::store::{
    lemma_upsert, lookup, upsert, valid_entries, Entries, KeyValueStore,
};
use crate::text::{
    contains_byte, find, first_index, lemma_first_index, slice_copy, split, split_spec, views, AMP,
    CLOSE, COLON, OPEN,
};

verus! {

/// The name that a key files its entry under, if the key is well formed: a
/// non-empty name without parentheses, alone or followed by one closed
/// section marker that itself holds no parenthesis.
pub open spec fn key_name(key: Seq<u8>) -> Option<Seq<u8>> {
    match first_index(key, OPEN) {
        None => if key.len() > 0 && !key.contains(CLOSE) {
            Some(key)
        } else {
            None
        },
        Some(open) => {
            let marker = key.subrange(open + 1, key.len() - 1);
            if open > 0 && key.last() == CLOSE && !marker.contains(OPEN) && !marker.contains(
                CLOSE,
            ) {
                Some(key.subrange(0, open))
            } else {
                None
            }
        },
    }
}

/// The name and the value of one entry, if the entry is well formed.
pub open spec fn entry_parts(entry: Seq<u8>) -> Option<(Seq<u8>, Seq<u8>)> {
    match first_index(entry, COLON) {
        None => None,
        Some(colon) => match key_name(entry.subrange(0, colon)) {
            None => None,
            Some(name) => Some((name, entry.subrange(colon + 1, entry.len() as int))),
        },
    }
}

/// The store that a list of entries builds up, first entry first, if every
/// entry is well formed.
pub open spec fn decode_entries(pieces: Seq<Seq<u8>>) -> Option<Entries>
    decreases pieces.len(),
{
    if pieces.len() == 0 {
        Some(Seq::<(Seq<u8>, Seq<u8>)>::empty())
    } else {
        match (decode_entries(pieces.drop_last()), entry_parts(pieces.last())) {
            (Some(entries), Some((name, value))) => Some(upsert(entries, name, value)),
            _ => None,
        }
    }
}

/// What a payload decodes to.
pub open spec fn decode_spec(raw: Seq<u8>) -> Result<Entries, DecodeError> {
    if raw.len() == 0 {
        Ok(Seq::<(Seq<u8>, Seq<u8>)>::empty())
    } else {
        match decode_entries(split_spec(raw, AMP)) {
            Some(entries) => Ok(entries),
            None => Err(DecodeError::Malformed),
        }
    }
}

/// The value of the last entry among `pieces` that is filed under `name`.
pub open spec fn last_value(pieces: Seq<Seq<u8>>, name: Seq<u8>) -> Option<Seq<u8>>
    decreases pieces.len(),
{
    if pieces.len() == 0 {
        None
    } else {
        match entry_parts(pieces.last()) {
            Some((n, value)) => if n == name {
                Some(value)
            } else {
                last_value(pieces.drop_last(), name)
            },
            None => last_value(pieces.drop_last(), name),
        }
    }
}

/// A well-formed key has a non-empty name.
pub proof fn lemma_key_name_not_empty(key: Seq<u8>)
    ensures
        key_name(key) matches Some(name) ==> name.len() > 0,
{
    lemma_first_index(key, OPEN);
}

/// A decoded store is valid: no key is empty, no key occurs twice.
pub proof fn lemma_decode_entries_valid(pieces: Seq<Seq<u8>>)
    ensures
        decode_entries(pieces) matches Some(entries) ==> valid_entries(entries),
    decreases pieces.len(),
{
    if pieces.len() > 0 {
        lemma_decode_entries_valid(pieces.drop_last());
        match (decode_entries(pieces.drop_last()), entry_parts(pieces.last())) {
            (Some(entries), Some((name, value))) => {
                let colon = first_index(pieces.last(), COLON)->0;
                lemma_key_name_not_empty(pieces.last().subrange(0, colon));
                lemma_upsert(entries, name, value);
            },
            _ => {},
        }
    }
}

/// Last write wins: a decoded store maps each name to the value of the last
/// entry filed under it, and holds no other name.
pub proof fn lemma_decode_last_wins(pieces: Seq<Seq<u8>>, name: Seq<u8>)
    ensures
        decode_entries(pieces) matches Some(entries) ==> lookup(entries, name) == last_value(
            pieces,
            name,
        ),
    decreases pieces.len(),
{
    if pieces.len() > 0 {
        lemma_decode_last_wins(pieces.drop_last(), name);
        lemma_decode_entries_valid(pieces.drop_last());
        match (decode_entries(pieces.drop_last()), entry_parts(pieces.last())) {
            (Some(entries), Some((n, value))) => {
                let colon = first_index(pieces.last(), COLON)->0;
                lemma_key_name_not_empty(pieces.last().subrange(0, colon));
                lemma_upsert(entries, n, value);
            },
            _ => {},
        }
    }
}

/// Reads the name out of a key.
fn parse_key(key: &[u8]) -> (name: Option<Vec<u8>>)
    ensures
        match name {
            Some(n) => key_name(key@) == Some(n@),
            None => key_name(key@) is None,
        },
{
    match find(key, OPEN) {
        None => {
            if key.len() > 0 && !contains_byte(key, CLOSE) {
                let name = slice_copy(key, 0, key.len());
                assert(key@.subrange(0, key@.len() as int) =~= key@);
                Some(name)
            } else {
                None
            }
        },
        Some(open) => {
            proof {
                lemma_first_index(key@, OPEN);
            }
            if open == 0 || key[key.len() - 1] != CLOSE {
                return None;
            }
            let marker = slice_copy(key, open + 1, key.len() - 1);
            if contains_byte(marker.as_slice(), OPEN) || contains_byte(marker.as_slice(), CLOSE) {
                return None;
            }
            Some(slice_copy(key, 0, open))
        },
    }
}

/// Reads the name and the value out of one entry.
fn parse_entry(entry: &[u8]) -> (parts: Option<(Vec<u8>, Vec<u8>)>)
    ensures
        match parts {
            Some((name, value)) => entry_parts(entry@) == Some((name@, value@)),
            None => entry_parts(entry@) is None,
        },
{
    match find(entry, COLON) {
        None => None,
        Some(colon) => {
            proof {
                lemma_first_index(entry@, COLON);
            }
            let end = entry.len();
            let key = slice_copy(entry, 0, colon);
            match parse_key(key.as_slice()) {
                None => None,
                Some(name) => {
                    let value = slice_copy(entry, colon + 1, end);
                    Some((name, value))
                },
            }
        },
    }
}

/// Decodes a raw payload.
///
/// Succeeds exactly when the payload is empty or every entry is well formed,
/// and then yields the store that the entries build up in order. The store
/// that comes back is valid.
pub fn decode(raw: &[u8]) -> (result: Result<KeyValueStore, DecodeError>)
    ensures
        match result {
            Ok(store) => decode_spec(raw@) == Ok::<Entries, DecodeError>(store@) && valid_entries(
                store@,
            ),
            Err(e) => decode_spec(raw@) == Err::<Entries, DecodeError>(e),
        },
{
    let mut store = KeyValueStore::new();
    if raw.len() == 0 {
        return Ok(store);
    }
    let pieces = split(raw, AMP);
    let ghost all = split_spec(raw@, AMP);
    let mut i: usize = 0;
    assert(all.take(0) =~= Seq::<Seq<u8>>::empty());
    while i < pieces.len()
        invariant
            i <= pieces.len(),
            views(pieces@) == all,
            all == split_spec(raw@, AMP),
            raw@.len() > 0,
            decode_entries(all.take(i as int)) == Some(store@),
            valid_entries(store@),
        decreases pieces.len() - i,
    {
        let ghost done = all.take(i as int);
        let ghost next = all.take(i + 1);
        assert(next.drop_last() =~= done);
        assert(next.last() == pieces@[i as int]@);
        match parse_entry(pieces[i].as_slice()) {
            None => {
                proof {
                    assert(decode_entries(next) is None);
                    lemma_decode_prefix_fails(all, i + 1);
                }
                return Err(DecodeError::Malformed);
            },
            Some((name, value)) => {
                proof {
                    let colon = first_index(next.last(), COLON)->0;
                    lemma_key_name_not_empty(next.last().subrange(0, colon));
                }
                let stored = store.insert(name, value);
                assert(stored is Ok);
            },
        }
        i += 1;
    }
    assert(all.take(pieces@.len() as int) =~= all);
    Ok(store)
}

/// Once a prefix of the entries fails to decode, the whole list fails.
proof fn lemma_decode_prefix_fails(pieces: Seq<Seq<u8>>, k: int)
    requires
        0 <= k <= pieces.len(),
        decode_entries(pieces.take(k)) is None,
    ensures
        decode_entries(pieces) is None,
    decreases pieces.len() - k,
{
    if k == pieces.len() {
        assert(pieces.take(k) =~= pieces);
    } else if k == pieces.len() - 1 {
        assert(pieces.take(k) =~= pieces.drop_last());
    } else {
        assert(pieces.drop_last().take(k) =~= pieces.take(k));
        lemma_decode_prefix_fails(pieces.drop_last(), k);
    }
}

} // verus!
