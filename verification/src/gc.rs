//! The sweep that finds the records to delete.

use crate::auth::{Auth, AuthInfo, AuthMetadata, AuthView};
use crate::db::{BucketInfo, MetaError, Metadata};
use crate::meta::MetaMap;
use crate::poll::Killable;
use crate::room::{Room, RoomDataView, RoomInfo, RoomMetadata, RoomView};
use crate::signal::Timestamp;
use crate::text::{
    after_joined, lemma_joined_is_injective, lemma_split_joins, starts_with,
};
use vstd::prelude::*;

verus! {

/// Why a sweep cannot go on.
#[derive(Debug, Clone, Copy, PartialEq, Eq, Structural)]
pub enum SweepError {
    /// A storage key is not a prefix, a colon and a key.
    InvalidKey,
    /// The attributes of an object cannot be read.
    Attributes(MetaError),
}

/// An object of the store as a listing shows it: its storage key and its
/// attributes, without its body.
pub struct Listed {
    pub key: String,
    pub attributes: MetaMap,
}

/// The mathematical value of a [`Listed`].
pub struct ListedView {
    pub key: Seq<char>,
    pub attributes: Map<Seq<char>, Seq<char>>,
}

impl View for Listed {
    type V = ListedView;

    open spec fn view(&self) -> ListedView {
        ListedView { key: self.key@, attributes: self.attributes@ }
    }
}

impl DeepView for Listed {
    type V = ListedView;

    open spec fn deep_view(&self) -> ListedView {
        self@
    }
}

impl ListedView {
    /// Whether the object is an identity record: its storage key begins
    /// with the prefix of the identities.
    pub open spec fn is_identity(self) -> bool {
        AuthInfo::PREFIX@.is_prefix_of(self.key)
    }

    /// The identity record that the object reads as.
    pub open spec fn as_identity(self) -> Result<AuthView, SweepError> {
        match after_joined(AuthInfo::PREFIX@, self.key) {
            None => Err(SweepError::InvalidKey),
            Some(token) => match AuthMetadata::decoding(self.attributes) {
                Err(e) => Err(SweepError::Attributes(e)),
                Ok(meta) => Ok(
                    AuthView { key: token, modified: false, room: None, kill_at: meta.kill_at },
                ),
            },
        }
    }

    /// The room record that the object reads as.
    pub open spec fn as_room(self) -> Result<RoomView, SweepError> {
        match after_joined(RoomInfo::PREFIX@, self.key) {
            None => Err(SweepError::InvalidKey),
            Some(code) => match RoomMetadata::decoding(self.attributes) {
                Err(e) => Err(SweepError::Attributes(e)),
                Ok(meta) => Ok(
                    RoomView { key: code, modified: false, data: RoomDataView::empty(), meta },
                ),
            },
        }
    }

    /// The storage keys that are to be deleted at `now` on account of the
    /// object: its own where it is an identity that has expired; its own
    /// and those of the identities bound to it where it is a room that has
    /// expired; else none.
    pub open spec fn keys_to_kill(self, now: Timestamp) -> Result<Seq<Seq<char>>, SweepError> {
        if self.is_identity() {
            match self.as_identity() {
                Err(e) => Err(e),
                Ok(auth) => Ok(
                    if auth.expired(now) {
                        seq![auth.storage_key()]
                    } else {
                        Seq::empty()
                    },
                ),
            }
        } else {
            match self.as_room() {
                Err(e) => Err(e),
                Ok(room) => Ok(
                    if room.expired(now) {
                        room.bound_keys()
                    } else {
                        Seq::empty()
                    },
                ),
            }
        }
    }
}

impl Listed {
    /// The storage keys that are to be deleted at `now` on account of the
    /// object.
    pub fn get_keys_to_kill(&self, now: Timestamp) -> (res: Result<Vec<String>, SweepError>)
        ensures
            match res {
                Ok(keys) => self@.keys_to_kill(now) == Ok::<Seq<Seq<char>>, SweepError>(
                    keys.deep_view(),
                ),
                Err(e) => self@.keys_to_kill(now) == Err::<Seq<Seq<char>>, SweepError>(e),
            },
    {
        if starts_with(self.key.as_str(), AuthInfo::PREFIX) {
            let token = match Auth::remove_prefix(self.key.as_str()) {
                Some(token) => token,
                None => {
                    return Err(SweepError::InvalidKey);
                },
            };
            match Auth::load(token, None, &self.attributes) {
                Ok(auth) => Ok(auth.get_keys_to_kill(now)),
                Err(e) => Err(SweepError::Attributes(e)),
            }
        } else {
            let code = match Room::remove_prefix(self.key.as_str()) {
                Some(code) => code,
                None => {
                    return Err(SweepError::InvalidKey);
                },
            };
            match Room::load(code, None, &self.attributes) {
                Ok(room) => Ok(room.get_keys_to_kill(now)),
                Err(e) => Err(SweepError::Attributes(e)),
            }
        }
    }
}

/// The storage keys that are to be deleted at `now` on account of the
/// objects of a listing, in the order of the listing; the first object that
/// cannot be read stops the sweep.
pub open spec fn swept(listing: Seq<ListedView>, now: Timestamp) -> Result<
    Seq<Seq<char>>,
    SweepError,
>
    decreases listing.len(),
{
    if listing.len() == 0 {
        Ok(Seq::empty())
    } else {
        match swept(listing.drop_last(), now) {
            Err(e) => Err(e),
            Ok(keys) => match listing.last().keys_to_kill(now) {
                Err(e) => Err(e),
                Ok(more) => Ok(keys + more),
            },
        }
    }
}

/// Finds the storage keys to delete at `now` in a listing of the store.
pub fn sweep(listing: &Vec<Listed>, now: Timestamp) -> (res: Result<Vec<String>, SweepError>)
    ensures
        match res {
            Ok(keys) => swept(listing.deep_view(), now) == Ok::<Seq<Seq<char>>, SweepError>(
                keys.deep_view(),
            ),
            Err(e) => swept(listing.deep_view(), now) == Err::<Seq<Seq<char>>, SweepError>(e),
        },
{
    let ghost all = listing.deep_view();
    let mut keys: Vec<String> = Vec::new();
    let mut i: usize = 0;
    assert(all.take(0) =~= Seq::<ListedView>::empty());
    assert(keys.deep_view() =~= Seq::<Seq<char>>::empty());
    while i < listing.len()
        invariant
            0 <= i <= listing.len(),
            all == listing.deep_view(),
            swept(all.take(i as int), now) == Ok::<Seq<Seq<char>>, SweepError>(keys.deep_view()),
        decreases listing.len() - i,
    {
        let ghost before = keys.deep_view();
        proof {
            assert(all.take(i + 1).drop_last() =~= all.take(i as int));
            assert(all.take(i + 1).last() == listing[i as int]@);
        }
        match listing[i].get_keys_to_kill(now) {
            Ok(mut more) => {
                let ghost added = more.deep_view();
                keys.append(&mut more);
                assert(keys.deep_view() =~= before + added);
            },
            Err(e) => {
                proof {
                    lemma_swept_stops(all, i as int, now);
                }
                return Err(e);
            },
        }
        i = i + 1;
    }
    assert(all.take(listing.len() as int) =~= all);
    Ok(keys)
}

/// A sweep that stops within a part of a listing stops there for the whole.
proof fn lemma_swept_stops(listing: Seq<ListedView>, n: int, now: Timestamp)
    requires
        0 <= n < listing.len(),
        swept(listing.take(n + 1), now) is Err,
    ensures
        swept(listing, now) == swept(listing.take(n + 1), now),
    decreases listing.len() - n,
{
    if n + 1 == listing.len() {
        assert(listing.take(n + 1) =~= listing);
    } else {
        assert(listing.take(n + 2).drop_last() =~= listing.take(n + 1));
        lemma_swept_stops(listing, n + 1, now);
    }
}

/// A sweep that succeeds holds the keys of each object of the listing.
pub proof fn law_sweep_holds_the_keys_of_each(listing: Seq<ListedView>, now: Timestamp, i: int)
    requires
        0 <= i < listing.len(),
        swept(listing, now) is Ok,
    ensures
        listing[i].keys_to_kill(now) is Ok,
        forall|k: Seq<char>| #[trigger]
            (listing[i].keys_to_kill(now)->Ok_0).contains(k) ==> (swept(
                listing,
                now,
            )->Ok_0).contains(k),
    decreases listing.len(),
{
    let before = swept(listing.drop_last(), now)->Ok_0;
    let more = listing.last().keys_to_kill(now)->Ok_0;
    let all = swept(listing, now)->Ok_0;
    if i == listing.len() - 1 {
        assert forall|k: Seq<char>| #[trigger] more.contains(k) implies all.contains(k) by {
            let j = choose|j: int| 0 <= j < more.len() && more[j] == k;
            assert(all[before.len() + j] == k);
        }
    } else {
        law_sweep_holds_the_keys_of_each(listing.drop_last(), now, i);
        let mine = listing[i].keys_to_kill(now)->Ok_0;
        assert forall|k: Seq<char>| #[trigger] mine.contains(k) implies all.contains(k) by {
            assert(before.contains(k));
            let j = choose|j: int| 0 <= j < before.len() && before[j] == k;
            assert(all[j] == k);
        }
    }
}

/// A sweep that succeeds holds no key but those of the objects of the
/// listing.
pub proof fn law_sweep_holds_nothing_else(listing: Seq<ListedView>, now: Timestamp, key: Seq<char>)
    requires
        swept(listing, now) matches Ok(keys) && keys.contains(key),
    ensures
        exists|i: int|
            0 <= i < listing.len() && (#[trigger] listing[i]).keys_to_kill(now) is Ok && (
            listing[i].keys_to_kill(now)->Ok_0).contains(key),
    decreases listing.len(),
{
    if listing.len() == 0 {
        assert(false);
    } else {
        let before = swept(listing.drop_last(), now)->Ok_0;
        let more = listing.last().keys_to_kill(now)->Ok_0;
        let all = swept(listing, now)->Ok_0;
        let j = choose|j: int| 0 <= j < all.len() && all[j] == key;
        if j < before.len() {
            assert(before[j] == key);
            law_sweep_holds_nothing_else(listing.drop_last(), now, key);
            let i = choose|i: int|
                0 <= i < listing.drop_last().len() && (#[trigger] listing.drop_last()[i]).keys_to_kill(
                    now,
                ) is Ok && (listing.drop_last()[i].keys_to_kill(now)->Ok_0).contains(key);
            assert(listing[i] == listing.drop_last()[i]);
        } else {
            assert(more[j - before.len()] == key);
            assert(listing[listing.len() - 1] == listing.last());
        }
    }
}

/// An identity whose time to be deleted has come is swept.
pub proof fn law_expired_identity_is_swept(listing: Seq<ListedView>, now: Timestamp, i: int)
    requires
        0 <= i < listing.len(),
        swept(listing, now) is Ok,
        listing[i].is_identity(),
        listing[i].as_identity() matches Ok(auth) && auth.kill_at matches Some(at) && at <= now,
    ensures
        (swept(listing, now)->Ok_0).contains(listing[i].key),
{
    law_sweep_holds_the_keys_of_each(listing, now, i);
    lemma_split_joins(AuthInfo::PREFIX@, listing[i].key);
    let mine = listing[i].keys_to_kill(now)->Ok_0;
    assert(mine[0] == listing[i].key);
    assert(mine.contains(listing[i].key));
}

/// An identity that has no time to be deleted, or whose time has not come,
/// is kept, unless a room that has expired is bound to it.
pub proof fn law_live_identity_is_kept(listing: Seq<ListedView>, now: Timestamp, i: int)
    requires
        0 <= i < listing.len(),
        swept(listing, now) is Ok,
        listing[i].is_identity(),
        listing[i].as_identity() matches Ok(auth) && (auth.kill_at matches Some(at) ==> now < at),
        forall|j: int| 0 <= j < listing.len() && j != i ==> (#[trigger] listing[j]).key != listing[i].key,
        forall|j: int|
            0 <= j < listing.len() && !(#[trigger] listing[j]).is_identity() ==> match listing[j].as_room() {
                Ok(room) => room.expired(now) ==> {
                    &&& room.meta.offer.token != listing[i].as_identity()->Ok_0.key
                    &&& room.meta.answer matches Some(slot) ==> slot.token
                        != listing[i].as_identity()->Ok_0.key
                },
                Err(_) => true,
            },
    ensures
        !(swept(listing, now)->Ok_0).contains(listing[i].key),
{
    let key = listing[i].key;
    let token = listing[i].as_identity()->Ok_0.key;
    lemma_split_joins(AuthInfo::PREFIX@, key);
    if (swept(listing, now)->Ok_0).contains(key) {
        law_sweep_holds_nothing_else(listing, now, key);
        let j = choose|j: int|
            0 <= j < listing.len() && (#[trigger] listing[j]).keys_to_kill(now) is Ok && (
            listing[j].keys_to_kill(now)->Ok_0).contains(key);
        let found = listing[j].keys_to_kill(now)->Ok_0;
        let at = choose|at: int| 0 <= at < found.len() && found[at] == key;
        if listing[j].is_identity() {
            lemma_split_joins(AuthInfo::PREFIX@, listing[j].key);
            assert(found[at] == listing[j].key);
            assert(j == i);
        } else {
            let room = listing[j].as_room()->Ok_0;
            lemma_split_joins(RoomInfo::PREFIX@, listing[j].key);
            if at == 0 {
                assert(listing[j].key == key);
                assert(false);
            } else if at == 1 {
                lemma_joined_is_injective(AuthInfo::PREFIX@, room.meta.offer.token, token);
            } else {
                lemma_joined_is_injective(AuthInfo::PREFIX@, room.meta.answer->0.token, token);
            }
        }
    }
}

} // verus!
