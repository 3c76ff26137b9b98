//! The key-value file store's logic and laws.
//!
//! A store lives in one directory: each key `k` owns the single file
//! `k.dat`, whose content is the stored form of the value. The directory is
//! modelled as a map from file name to file content; the functions here
//! compute everything the store decides — which file a key owns, what to
//! write, what a lookup yields, whether a removal has work to do — while the
//! caller performs the reads, writes and deletes themselves.

use crate::codec::{decode_from_storage, decode_spec, encode_for_storage, result_view, stored_form};
use crate::errors::StoreError;
use vstd::prelude::*;
use vstd::utf8::encode_utf8;

verus! {

/// The name of the file that holds the given key's value.
pub open spec fn file_name_spec(key: Seq<char>) -> Seq<char> {
    key + ".dat"@
}

/// The content of the given key's file in the directory, if the file exists.
pub open spec fn store_contents(dir: Map<Seq<char>, Seq<char>>, key: Seq<char>) -> Option<
    Seq<char>,
> {
    if dir.contains_key(file_name_spec(key)) {
        Some(dir[file_name_spec(key)])
    } else {
        None
    }
}

/// What a lookup yields from a key's file content: the file's absence is a
/// distinct, observable failure, not an empty value.
pub open spec fn get_from_content(content: Option<Seq<char>>) -> Result<Seq<char>, StoreError> {
    match content {
        Option::None => Err(StoreError::NotFoundError),
        Option::Some(c) => decode_spec(c),
    }
}

/// What `get` yields against the given directory.
pub open spec fn get_spec(dir: Map<Seq<char>, Seq<char>>, key: Seq<char>) -> Result<
    Seq<char>,
    StoreError,
> {
    get_from_content(store_contents(dir, key))
}

/// The directory after `set`: the key's file holds the stored form of the
/// value, whatever it held before (last write wins).
pub open spec fn set_spec(
    dir: Map<Seq<char>, Seq<char>>,
    key: Seq<char>,
    value: Seq<char>,
) -> Map<Seq<char>, Seq<char>> {
    dir.insert(file_name_spec(key), stored_form(value))
}

/// The directory after `remove`: the key's file is gone.
pub open spec fn remove_spec(dir: Map<Seq<char>, Seq<char>>, key: Seq<char>) -> Map<
    Seq<char>,
    Seq<char>,
> {
    dir.remove(file_name_spec(key))
}

/// The view of an optional file content.
pub open spec fn content_view(content: Option<String>) -> Option<Seq<char>> {
    match content {
        Option::None => None,
        Option::Some(c) => Some(c@),
    }
}

/// The name of the file that holds the given key's value.
pub fn storage_file_name(key: &str) -> (r: String)
    ensures
        r@ == file_name_spec(key@),
{
    let mut name = String::from_str(key);
    name.append(".dat");
    name
}

/// The outcome of `get`, from the key's file content as the caller read it
/// (`None` when the key's file does not exist).
pub fn lookup_outcome(content: Option<String>) -> (r: Result<String, StoreError>)
    ensures
        result_view(r) == get_from_content(content_view(content)),
{
    match content {
        Option::None => Err(StoreError::NotFoundError),
        Option::Some(c) => decode_from_storage(c.as_str()),
    }
}

/// What `set` writes: the key's file name and its full new content. Decoding
/// that content yields the value back exactly.
pub fn set_plan(key: &str, value: &str) -> (r: (String, String))
    requires
        encode_utf8(value@).len() * 4 <= usize::MAX,
    ensures
        r.0@ == file_name_spec(key@),
        r.1@ == stored_form(value@),
        decode_spec(r.1@) == Ok::<Seq<char>, StoreError>(value@),
{
    (storage_file_name(key), encode_for_storage(value))
}

/// What `remove` deletes: the key's file name when the file exists, and
/// nothing — success with no work — when it does not.
pub fn plan_remove(key: &str, file_exists: bool) -> (r: Option<String>)
    ensures
        match r {
            Option::Some(name) => file_exists && name@ == file_name_spec(key@),
            Option::None => !file_exists,
        },
{
    if file_exists {
        Some(storage_file_name(key))
    } else {
        None
    }
}

/// Law: after `set(key, value)`, a `get(key)` yields exactly the decoding of
/// the stored form of `value` — which [`encode_for_storage`] guarantees is
/// `Ok(value)` (round trip).
pub proof fn lemma_get_after_set(dir: Map<Seq<char>, Seq<char>>, key: Seq<char>, value: Seq<char>)
    ensures
        get_spec(set_spec(dir, key, value), key) == decode_spec(stored_form(value)),
{
}

/// Law: after `remove(key)`, a `get(key)` fails with `NotFoundError`.
pub proof fn lemma_get_after_remove(dir: Map<Seq<char>, Seq<char>>, key: Seq<char>)
    ensures
        get_spec(remove_spec(dir, key), key) == Err::<Seq<char>, StoreError>(
            StoreError::NotFoundError,
        ),
{
}

/// Law: `remove` of a key with no existing file changes nothing — it is a
/// successful no-op.
pub proof fn lemma_remove_missing_is_noop(dir: Map<Seq<char>, Seq<char>>, key: Seq<char>)
    requires
        store_contents(dir, key) is None,
    ensures
        remove_spec(dir, key) == dir,
{
    assert(remove_spec(dir, key) =~= dir);
}

/// Law: a second `set` of the same key overwrites the first outright; the
/// directory is as if only the second had happened.
pub proof fn lemma_set_overwrites(
    dir: Map<Seq<char>, Seq<char>>,
    key: Seq<char>,
    v1: Seq<char>,
    v2: Seq<char>,
)
    ensures
        set_spec(set_spec(dir, key, v1), key, v2) == set_spec(dir, key, v2),
{
    assert(set_spec(set_spec(dir, key, v1), key, v2) =~= set_spec(dir, key, v2));
}

/// Law: after `set(key, v1)` then `set(key, v2)`, a `get(key)` yields the
/// decoding of the stored form of `v2` — no merge with `v1` remains.
pub proof fn lemma_get_after_overwrite(
    dir: Map<Seq<char>, Seq<char>>,
    key: Seq<char>,
    v1: Seq<char>,
    v2: Seq<char>,
)
    ensures
        get_spec(set_spec(set_spec(dir, key, v1), key, v2), key) == decode_spec(stored_form(v2)),
{
    lemma_set_overwrites(dir, key, v1, v2);
    lemma_get_after_set(dir, key, v2);
}

} // verus!
