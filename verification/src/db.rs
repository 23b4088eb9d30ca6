//! Keyed records: a payload and its attributes under a prefixed, random key.

use crate::meta::MetaMap;
use crate::text::{after_joined, join, joined, split_joined};
use rand::rngs::SmallRng;
use rand::seq::SliceRandom;
use rand::SeedableRng;
use std::marker::PhantomData;
use vstd::prelude::*;

verus! {

/// Why the attributes of a stored object cannot be read.
#[derive(Debug, Clone, Copy, PartialEq, Eq, Structural)]
pub enum MetaError {
    /// An attribute that every record of the kind has is not there.
    Missing,
    /// An attribute that holds a time is neither empty nor a number.
    Malformed,
}

/// Typed attributes that are stored as a flat list of texts.
pub trait Metadata: Sized + View {
    /// The attribute list that a value is stored as.
    spec fn encoding(value: Self::V) -> Map<Seq<char>, Seq<char>>;

    /// What an attribute list reads as.
    spec fn decoding(attributes: Map<Seq<char>, Seq<char>>) -> Result<Self::V, MetaError>;

    /// Writes the attributes as a flat list.
    fn to_map(&self) -> (attributes: MetaMap)
        ensures
            attributes@ == Self::encoding(self@),
    ;

    /// Reads the attributes from a flat list.
    fn from_map(attributes: &MetaMap) -> (res: Result<Self, MetaError>)
        ensures
            match res {
                Ok(value) => Self::decoding(attributes@) == Ok::<Self::V, MetaError>(value@),
                Err(e) => Self::decoding(attributes@) == Err::<Self::V, MetaError>(e),
            },
    ;
}

/// Where the records of one kind are kept: the prefix of their storage keys
/// and the length of the random part.
pub trait BucketInfo {
    const PREFIX: &'static str;

    const KEY_LENGTH: u8;
}

/// A record: a payload and typed attributes under a key, with a flag that
/// says whether it differs from what the store holds.
///
/// `data` is `None` for a record of which only the attributes were read.
pub struct Data<O, M, B> {
    pub modified: bool,
    pub key: String,
    pub data: Option<O>,
    pub meta: M,
    pub info: PhantomData<B>,
}

/// What has to be put into the store to persist a record.
pub struct WriteRequest<O> {
    /// The storage key: the prefix of the kind, a colon, and the record's key.
    pub key: String,
    /// The payload, to be stored as the object's body.
    pub data: O,
    /// The attributes, to be stored beside the body.
    pub attributes: MetaMap,
}

impl<O, M: Metadata, B: BucketInfo> Data<O, M, B> {
    /// The key under which the store holds this record.
    pub open spec fn spec_storage_key(&self) -> Seq<char> {
        joined(B::PREFIX@, self.key@)
    }

    /// The key under which the store holds this record.
    pub fn storage_key(&self) -> (res: String)
        ensures
            res@ == self.spec_storage_key(),
    {
        join(B::PREFIX, self.key.as_str())
    }

    /// The record's own key within a storage key: `None` unless the storage
    /// key begins with the prefix of the kind and a colon.
    pub fn remove_prefix(key: &str) -> (res: Option<String>)
        ensures
            match res {
                Some(rest) => after_joined(B::PREFIX@, key@) == Some(rest@),
                None => after_joined(B::PREFIX@, key@) is None,
            },
    {
        split_joined(B::PREFIX, key)
    }

    /// A new record under a key that the store does not hold yet. It is
    /// marked as modified, so that the next `write` stores it.
    pub fn create(key: String, data: O, meta: M) -> (rec: Self)
        ensures
            rec.modified,
            rec.key == key,
            rec.data == Some(data),
            rec.meta == meta,
    {
        Data { modified: true, key, data: Some(data), meta, info: PhantomData }
    }

    /// The record that the store holds under a key, from the payload that
    /// was read, if any, and the attributes. It is not marked as modified.
    pub fn load(key: String, data: Option<O>, attributes: &MetaMap) -> (res: Result<Self, MetaError>)
        ensures
            match res {
                Ok(rec) => {
                    &&& !rec.modified
                    &&& rec.key == key
                    &&& rec.data == data
                    &&& M::decoding(attributes@) == Ok::<M::V, MetaError>(rec.meta@)
                },
                Err(e) => M::decoding(attributes@) == Err::<M::V, MetaError>(e),
            },
    {
        match M::from_map(attributes) {
            Ok(meta) => Ok(Data { modified: false, key, data, meta, info: PhantomData }),
            Err(e) => Err(e),
        }
    }

    /// What to put into the store for this record: nothing unless the record
    /// was modified, else its payload and attributes under its storage key.
    pub fn write(self) -> (res: Option<WriteRequest<O>>)
        requires
            self.modified ==> self.data is Some,
        ensures
            !self.modified ==> res is None,
            self.modified ==> {
                &&& res matches Some(req)
                &&& req.key@ == self.spec_storage_key()
                &&& req.data == self.data->0
                &&& req.attributes@ == M::encoding(self.meta@)
            },
    {
        if !self.modified {
            return None;
        }
        let key = self.storage_key();
        let attributes = self.meta.to_map();
        match self.data {
            Some(data) => Some(WriteRequest { key, data, attributes }),
            None => None,
        }
    }
}

/// Whether a character may stand in a random key: a capital letter or a digit.
pub open spec fn is_key_char(c: char) -> bool {
    ('A' <= c && c <= 'Z') || ('0' <= c && c <= '9')
}

/// Whether a text is a random key of the given length.
pub open spec fn is_key(key: Seq<char>, len: nat) -> bool {
    key.len() == len && forall|i: int| 0 <= i < key.len() ==> is_key_char(#[trigger] key[i])
}

/// `rand::rngs::SmallRng`, the small generator of the `rand` crate. Nothing
/// is known of what it holds.
#[verifier::external_type_specification]
#[verifier::external_body]
pub struct ExSmallRng(SmallRng);

/// `SmallRng::seed_from_u64` makes a generator from a seed. Nothing is
/// claimed of the generator.
#[verifier::external_body]
pub(crate) fn seeded(seed: u64) -> SmallRng {
    SmallRng::seed_from_u64(seed)
}

/// `SliceRandom::choose` on a slice: one of the items of the slice, or
/// `None` where the slice is empty. Which item it is depends on the
/// generator, of which nothing is claimed.
#[verifier::external_body]
pub(crate) fn pick<T: Copy>(rng: &mut SmallRng, items: &[T]) -> (res: Option<T>)
    ensures
        items@.len() == 0 ==> res is None,
        items@.len() > 0 ==> res is Some && items@.contains(res->0),
{
    items.choose(rng).copied()
}

/// A random text of `len` capital letters and digits.
pub fn random_string(rng: &mut SmallRng, len: u8) -> (res: String)
    ensures
        is_key(res@, len as nat),
{
    let alphabet: [u8; 36] = [
        65, 66, 67, 68, 69, 70, 71, 72, 73, 74, 75, 76, 77, 78, 79, 80, 81, 82, 83, 84, 85, 86, 87,
        88, 89, 90, 48, 49, 50, 51, 52, 53, 54, 55, 56, 57,
    ];
    let mut res = String::new();
    let mut i: u8 = 0;
    while i < len
        invariant
            0 <= i <= len,
            is_key(res@, i as nat),
            forall|j: int| 0 <= j < 36 ==> (65 <= #[trigger] alphabet@[j] <= 90) || (48
                <= alphabet@[j] <= 57),
        decreases len - i,
    {
        let byte = pick(rng, alphabet.as_slice()).unwrap();
        let c = byte as char;
        assert(is_key_char(c));
        res.push(c);
        i = i + 1;
    }
    res
}

/// The search for a key that the store does not hold yet.
///
/// The search holds a candidate. The caller asks the store whether it holds
/// an object under `probe()`, and hands the answer to `resolve`, until
/// `resolve` returns the key.
pub struct KeySearch<B> {
    rng: SmallRng,
    candidate: String,
    info: PhantomData<B>,
}

impl<B: BucketInfo> KeySearch<B> {
    /// The key that the search proposes.
    pub closed spec fn candidate(&self) -> Seq<char> {
        self.candidate@
    }

    /// The candidate is a key of the length that the kind asks for.
    pub open spec fn wf(&self) -> bool {
        is_key(self.candidate(), B::KEY_LENGTH as nat)
    }

    /// Starts a search with a generator made from `seed`.
    pub fn new(seed: u64) -> (search: Self)
        ensures
            search.wf(),
    {
        let mut rng = seeded(seed);
        let candidate = random_string(&mut rng, B::KEY_LENGTH);
        KeySearch { rng, candidate, info: PhantomData }
    }

    /// The storage key of the candidate: the store is to be asked whether it
    /// holds an object under it.
    pub fn probe(&self) -> (key: String)
        ensures
            key@ == joined(B::PREFIX@, self.candidate()),
    {
        join(B::PREFIX, self.candidate.as_str())
    }

    /// Takes the store's answer for the candidate. Where the store holds
    /// nothing under it, the candidate is the key; else the search goes on
    /// with another candidate.
    pub fn resolve(&mut self, taken: bool) -> (res: Option<String>)
        ensures
            !taken ==> (res matches Some(key) && key@ == old(self).candidate()),
            !taken ==> final(self).candidate() == old(self).candidate(),
            taken ==> res is None && final(self).wf(),
            old(self).wf() ==> final(self).wf(),
            old(self).wf() ==> (res matches Some(key) ==> is_key(key@, B::KEY_LENGTH as nat)),
    {
        if taken {
            let next = random_string(&mut self.rng, B::KEY_LENGTH);
            self.candidate = next;
            None
        } else {
            Some(self.candidate.clone())
        }
    }
}

} // verus!
