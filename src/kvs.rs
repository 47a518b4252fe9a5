//! The store adapter: text keys and values kept in an embedded sled store.
//!
//! The store is modelled as a map from key bytes to value bytes. Keys and
//! values are written as UTF-8; a stored value or key that is not valid
//! UTF-8 is reported as a decode failure.

use vstd::prelude::*;
use vstd::utf8::*;

use crate::text::texts;

verus! {

broadcast use {encode_utf8_decode_utf8, decode_utf8_encode_utf8, encode_utf8_valid_utf8};

#[verifier::external_type_specification]
#[verifier::external_body]
pub struct ExDb(sled::Db);

#[verifier::external_type_specification]
#[verifier::external_body]
pub struct ExSledError(sled::Error);

#[verifier::external_type_specification]
#[verifier::external_body]
pub struct ExPathBuf(std::path::PathBuf);

/// The entries that an open sled store holds, key bytes to value bytes.
pub uninterp spec fn store_contents(db: sled::Db) -> Map<Seq<u8>, Seq<u8>>;

/// `a` comes strictly before `b` in byte-wise lexicographic order.
pub open spec fn bytes_lt(a: Seq<u8>, b: Seq<u8>) -> bool
    decreases a.len(),
{
    if a.len() == 0 {
        b.len() > 0
    } else if b.len() == 0 {
        false
    } else if a[0] != b[0] {
        a[0] < b[0]
    } else {
        bytes_lt(a.drop_first(), b.drop_first())
    }
}

/// `ks` lists the keys of `m`, each once, in ascending byte order.
pub open spec fn is_key_listing(m: Map<Seq<u8>, Seq<u8>>, ks: Seq<Seq<u8>>) -> bool {
    &&& forall|i: int, j: int| 0 <= i < j < ks.len() ==> bytes_lt(#[trigger] ks[i], #[trigger] ks[j])
    &&& forall|k: Seq<u8>| #[trigger] m.contains_key(k) <==> ks.contains(k)
}

/// A store with no entries.
pub open spec fn no_entries() -> Map<Seq<u8>, Seq<u8>> {
    Map::empty()
}

/// The byte contents of a sequence of byte vectors.
pub open spec fn byte_seqs(v: Seq<Vec<u8>>) -> Seq<Seq<u8>> {
    v.map_values(|b: Vec<u8>| b@)
}

/// The UTF-8 encodings of a sequence of texts.
pub open spec fn encoded(v: Seq<Seq<char>>) -> Seq<Seq<u8>> {
    v.map_values(|s: Seq<char>| encode_utf8(s))
}

/// One change to a store: a key written with a value, or a key removed.
pub enum Change {
    Put(Seq<char>, Seq<char>),
    Remove(Seq<char>),
}

/// The key that a change touches.
pub open spec fn change_key(c: Change) -> Seq<char> {
    match c {
        Change::Put(k, _) => k,
        Change::Remove(k) => k,
    }
}

/// The store after one change, as `Kvs::insert` and `Kvs::delete` make it.
pub open spec fn apply_change(m: Map<Seq<u8>, Seq<u8>>, c: Change) -> Map<Seq<u8>, Seq<u8>> {
    match c {
        Change::Put(k, v) => m.insert(encode_utf8(k), encode_utf8(v)),
        Change::Remove(k) => m.remove(encode_utf8(k)),
    }
}

/// The store after the changes `cs`, first to last.
pub open spec fn apply_changes(m: Map<Seq<u8>, Seq<u8>>, cs: Seq<Change>) -> Map<Seq<u8>, Seq<u8>>
    decreases cs.len(),
{
    if cs.len() == 0 {
        m
    } else {
        apply_change(apply_changes(m, cs.drop_last()), cs.last())
    }
}

/// Whether `k` is present after the changes `cs`: the last change that
/// touches `k` decides; when none does, whether it was present before.
pub open spec fn present_after(was: bool, k: Seq<char>, cs: Seq<Change>) -> bool
    decreases cs.len(),
{
    if cs.len() == 0 {
        was
    } else if change_key(cs.last()) == k {
        cs.last() is Put
    } else {
        present_after(was, k, cs.drop_last())
    }
}

/// After any sequence of writes and removals, a key is in the store, and
/// so in every listing of its keys, exactly when the last change to it was a
/// write, or, when no change touched it, when it was there before.
pub proof fn lemma_keys_after_changes(m: Map<Seq<u8>, Seq<u8>>, cs: Seq<Change>, k: Seq<char>)
    ensures
        apply_changes(m, cs).contains_key(encode_utf8(k)) == present_after(
            m.contains_key(encode_utf8(k)),
            k,
            cs,
        ),
        forall|ks: Seq<Seq<char>>| #[trigger]
            is_key_listing(apply_changes(m, cs), encoded(ks)) ==> (encoded(ks).contains(
                encode_utf8(k),
            ) <==> present_after(m.contains_key(encode_utf8(k)), k, cs)),
    decreases cs.len(),
{
    if cs.len() > 0 {
        lemma_keys_after_changes(m, cs.drop_last(), k);
        let c = cs.last();
        if change_key(c) != k {
            assert(decode_utf8(encode_utf8(change_key(c))) == change_key(c));
            assert(decode_utf8(encode_utf8(k)) == k);
            assert(encode_utf8(change_key(c)) != encode_utf8(k));
        }
    }
}

/// Reading a key back right after writing it gives the value written, and
/// right after removing it gives nothing.
pub proof fn lemma_get_after_insert_and_delete(
    m: Map<Seq<u8>, Seq<u8>>,
    k: Seq<char>,
    v: Seq<char>,
)
    ensures
        ({
            let m2 = m.insert(encode_utf8(k), encode_utf8(v));
            &&& m2.contains_key(encode_utf8(k))
            &&& valid_utf8(m2[encode_utf8(k)])
            &&& forall|s: Seq<char>| #[trigger] encode_utf8(s) == m2[encode_utf8(k)] ==> s == v
        }),
        !m.remove(encode_utf8(k)).contains_key(encode_utf8(k)),
{
    assert forall|s: Seq<char>| #[trigger] encode_utf8(s) == encode_utf8(v) implies s == v by {
        assert(decode_utf8(encode_utf8(s)) == s);
        assert(decode_utf8(encode_utf8(v)) == v);
    }
}

/// Relies on `sled::open`: opens, or creates, the store at `path`. What it
/// then holds is whatever was stored there before.
#[verifier::external_body]
fn open_store(path: &std::path::PathBuf) -> (r: Result<sled::Db, sled::Error>) {
    sled::open(path)
}

/// Relies on `sled::Config::temporary`: a store at a fresh path of its own,
/// removed when it is dropped, which starts out empty.
#[verifier::external_body]
fn open_temporary_store() -> (r: Result<sled::Db, sled::Error>)
    ensures
        r is Ok ==> store_contents(r.unwrap()) == no_entries(),
{
    sled::Config::new().temporary(true).open()
}

/// Relies on `Tree::insert`: once it succeeds, the key maps to the value.
#[verifier::external_body]
fn store_insert(db: &mut sled::Db, key: &[u8], value: &[u8]) -> (r: Result<(), sled::Error>)
    ensures
        r is Ok ==> store_contents(*final(db)) == store_contents(*old(db)).insert(key@, value@),
{
    db.insert(key, value).map(|_old| ())
}

/// Relies on `Tree::remove`: once it succeeds, the key is absent.
#[verifier::external_body]
fn store_remove(db: &mut sled::Db, key: &[u8]) -> (r: Result<(), sled::Error>)
    ensures
        r is Ok ==> store_contents(*final(db)) == store_contents(*old(db)).remove(key@),
{
    db.remove(key).map(|_old| ())
}

/// Relies on `Tree::get`: the value stored under the key, if any.
#[verifier::external_body]
fn store_get(db: &sled::Db, key: &[u8]) -> (r: Result<Option<Vec<u8>>, sled::Error>)
    ensures
        r matches Ok(v) ==> match v {
            Some(b) => store_contents(*db).contains_key(key@) && store_contents(*db)[key@] == b@,
            None => !store_contents(*db).contains_key(key@),
        },
{
    db.get(key).map(|v| v.map(|b| b.to_vec()))
}

/// Relies on `Tree::iter` and `Iter::keys`: every key once, in ascending
/// byte order.
#[verifier::external_body]
fn store_keys(db: &sled::Db) -> (r: Result<Vec<Vec<u8>>, sled::Error>)
    ensures
        r matches Ok(ks) ==> is_key_listing(store_contents(*db), byte_seqs(ks@)),
{
    db.iter().keys().map(|k| k.map(|k| k.to_vec())).collect()
}

/// Relies on `sled::Error`'s `Display`: a message for the user.
#[verifier::external_body]
fn error_message(e: &sled::Error) -> (r: String) {
    e.to_string()
}

/// Relies on `String::from_utf8`: succeeds exactly on valid UTF-8, with the
/// characters that the bytes encode.
#[verifier::external_body]
fn decode_text(b: Vec<u8>) -> (r: Option<String>)
    ensures
        r is Some <==> valid_utf8(b@),
        r matches Some(s) ==> s@ == decode_utf8(b@),
{
    String::from_utf8(b).ok()
}

/// What can go wrong with a store that is open.
pub enum KvsError {
    /// The storage engine failed, with its message.
    Storage(String),
    /// Stored bytes are not valid UTF-8.
    Decode,
}

/// Decodes a value read from the store: nothing stays nothing, valid UTF-8
/// becomes the text it encodes, anything else is a decode failure.
pub fn decode_value(b: Option<Vec<u8>>) -> (r: Result<Option<String>, KvsError>)
    ensures
        b is None ==> r matches Ok(None),
        b matches Some(v) ==> (valid_utf8(v@) <==> r is Ok),
        b matches Some(v) ==> (r matches Ok(Some(s)) && s@ == decode_utf8(v@)) || (r matches Err(
            KvsError::Decode,
        ) && !valid_utf8(v@)),
{
    match b {
        None => Ok(None),
        Some(v) => match decode_text(v) {
            Some(s) => Ok(Some(s)),
            None => Err(KvsError::Decode),
        },
    }
}

/// Decodes the keys read from the store, in order: all of them when every
/// one is valid UTF-8, else a decode failure.
pub fn decode_keys(raw: Vec<Vec<u8>>) -> (r: Result<Vec<String>, KvsError>)
    ensures
        r is Ok <==> forall|i: int| 0 <= i < raw@.len() ==> valid_utf8(#[trigger] raw@[i]@),
        r matches Ok(ks) ==> encoded(texts(ks@)) == byte_seqs(raw@),
        r matches Err(e) ==> e is Decode,
{
    let ghost raw_bytes = byte_seqs(raw@);
    let mut out: Vec<String> = Vec::new();
    let mut i: usize = 0;
    while i < raw.len()
        invariant
            i <= raw@.len(),
            raw_bytes == byte_seqs(raw@),
            forall|j: int| 0 <= j < i ==> valid_utf8(#[trigger] raw@[j]@),
            encoded(texts(out@)) == raw_bytes.subrange(0, i as int),
        decreases raw@.len() - i,
    {
        let b = raw[i].clone();
        match decode_text(b) {
            Some(s) => {
                let ghost before = out@;
                out.push(s);
                proof {
                    assert(raw_bytes[i as int] == raw@[i as int]@);
                    assert(encoded(texts(out@)) =~= encoded(texts(before)).push(raw_bytes[i as int]));
                    assert(raw_bytes.subrange(0, i as int + 1) =~= raw_bytes.subrange(
                        0,
                        i as int,
                    ).push(raw_bytes[i as int]));
                }
            },
            None => {
                return Err(KvsError::Decode);
            },
        }
        i += 1;
    }
    assert(raw_bytes.subrange(0, i as int) =~= raw_bytes);
    Ok(out)
}

/// A persistent map from text keys to text values.
pub struct Kvs {
    db: sled::Db,
}

impl View for Kvs {
    type V = Map<Seq<u8>, Seq<u8>>;

    closed spec fn view(&self) -> Map<Seq<u8>, Seq<u8>> {
        store_contents(self.db)
    }
}

impl Kvs {
    /// Opens, or creates, the store at `file_path`; on failure, the storage
    /// engine's message.
    pub fn new(file_path: &std::path::PathBuf) -> (r: Result<Kvs, String>) {
        match open_store(file_path) {
            Ok(db) => Ok(Kvs { db }),
            Err(e) => Err(error_message(&e)),
        }
    }

    /// Opens a fresh, empty store that is removed when it is dropped.
    pub fn open_temporary() -> (r: Result<Kvs, String>)
        ensures
            r matches Ok(k) ==> k@ == no_entries(),
    {
        match open_temporary_store() {
            Ok(db) => Ok(Kvs { db }),
            Err(e) => Err(error_message(&e)),
        }
    }

    /// Stores `value` under `key`, replacing any earlier value.
    pub fn insert(&mut self, key: &str, value: &str) -> (r: Result<(), KvsError>)
        ensures
            r is Ok ==> final(self)@ == old(self)@.insert(encode_utf8(key@), encode_utf8(value@)),
            r matches Err(e) ==> e is Storage,
    {
        match store_insert(&mut self.db, key.as_bytes(), value.as_bytes()) {
            Ok(()) => Ok(()),
            Err(e) => Err(KvsError::Storage(error_message(&e))),
        }
    }

    /// The value stored under `key`: `None` when there is none, and a
    /// decode failure when its bytes are not valid UTF-8.
    pub fn get(&self, key: &str) -> (r: Result<Option<String>, KvsError>)
        ensures
            r matches Ok(None) ==> !self@.contains_key(encode_utf8(key@)),
            r matches Ok(Some(v)) ==> self@.contains_key(encode_utf8(key@)) && self@[encode_utf8(
                key@,
            )] == encode_utf8(v@),
            r matches Err(KvsError::Decode) ==> self@.contains_key(encode_utf8(key@)) && !valid_utf8(
                self@[encode_utf8(key@)],
            ),
            self@.contains_key(encode_utf8(key@)) && valid_utf8(self@[encode_utf8(key@)])
                ==> !(r matches Err(KvsError::Decode)),
    {
        match store_get(&self.db, key.as_bytes()) {
            Ok(found) => decode_value(found),
            Err(e) => Err(KvsError::Storage(error_message(&e))),
        }
    }

    /// Every key, each once, in ascending byte order; a decode failure when
    /// some key is not valid UTF-8.
    pub fn get_key_vec(&self) -> (r: Result<Vec<String>, KvsError>)
        ensures
            r matches Ok(ks) ==> is_key_listing(self@, encoded(texts(ks@))),
            r matches Err(KvsError::Decode) ==> exists|k: Seq<u8>|
                #[trigger] self@.contains_key(k) && !valid_utf8(k),
    {
        match store_keys(&self.db) {
            Ok(raw) => {
                let ghost raw_seq = raw@;
                let ghost raw_bytes = byte_seqs(raw@);
                let r = decode_keys(raw);
                proof {
                    if r is Err {
                        let i = choose|i: int| 0 <= i < raw_seq.len() && !valid_utf8(#[trigger] raw_seq[i]@);
                        assert(raw_bytes[i] == raw_seq[i]@);
                        assert(raw_bytes.contains(raw_bytes[i]));
                        assert(self@.contains_key(raw_bytes[i]));
                    }
                }
                r
            },
            Err(e) => Err(KvsError::Storage(error_message(&e))),
        }
    }

    /// Removes `key` and its value; a key that is absent is no error.
    pub fn delete(&mut self, key: &str) -> (r: Result<(), KvsError>)
        ensures
            r is Ok ==> final(self)@ == old(self)@.remove(encode_utf8(key@)),
            r matches Err(e) ==> e is Storage,
    {
        match store_remove(&mut self.db, key.as_bytes()) {
            Ok(()) => Ok(()),
            Err(e) => Err(KvsError::Storage(error_message(&e))),
        }
    }
}

} // verus!
