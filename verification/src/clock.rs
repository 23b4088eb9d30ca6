//! The wall clock, and the entry points that read it.

use crate::auth::{Auth, AuthInfo, AuthView, GRACE_PERIOD};
use crate::db::{BucketInfo, KeySearch};
use crate::gc::{sweep, swept, Listed, SweepError};
use crate::poll::{time_in_range, AwaitRoom, PollError, Settled};
use crate::room::{Room, RoomInfo, RoomView, POLL};
use crate::signal::Timestamp;
use vstd::prelude::*;

verus! {

/// `web_time::SystemTime::now` and `SystemTime::duration_since` with the
/// Unix epoch: the whole seconds from the epoch to the time that the system
/// clock shows, or `None` where the clock shows a time before the epoch.
/// Nothing is claimed of the time.
#[verifier::external_body]
fn read_clock() -> Option<u64> {
    match web_time::SystemTime::now().duration_since(web_time::UNIX_EPOCH) {
        Ok(elapsed) => Some(elapsed.as_secs()),
        Err(_) => None,
    }
}

/// What a reading of the clock is taken as: the time that it shows, where
/// the clock could be read and the time lies so far from the end of time
/// that the delays and the grace period can be added to it; else no time.
pub open spec fn usable(reading: Option<u64>) -> Option<Timestamp> {
    match reading {
        Some(time) => if time_in_range(time) {
            Some(time)
        } else {
            None
        },
        None => None,
    }
}

/// What a reading of the clock is taken as.
pub fn usable_time(reading: Option<u64>) -> (time: Option<Timestamp>)
    ensures
        time == usable(reading),
{
    match reading {
        Some(time) => if time <= u64::MAX - POLL - GRACE_PERIOD {
            Some(time)
        } else {
            None
        },
        None => None,
    }
}

/// The time that the system clock shows, where it is one that the broker
/// can work with: `None` where the clock shows a time before the epoch or
/// too close to the end of time for the delays to be added.
pub fn now() -> (time: Option<Timestamp>)
    ensures
        time matches Some(now) ==> time_in_range(now),
{
    usable_time(read_clock())
}

/// Starts the search for a key of a kind with a generator made from the
/// time that a reading of the clock shows: a search whose candidate is a
/// key of the kind where the reading can be used, and `None` where it
/// cannot.
pub fn search_at<B: BucketInfo>(reading: Option<u64>) -> (search: Option<KeySearch<B>>)
    ensures
        search is Some <==> usable(reading) is Some,
        search matches Some(s) ==> s.wf(),
{
    match usable_time(reading) {
        Some(now) => Some(KeySearch::new(now)),
        None => None,
    }
}

/// Starts the search for the token of a new peer, with a generator made
/// from the time that the clock shows. `None` where the clock cannot be
/// read.
pub fn search_token() -> (search: Option<KeySearch<AuthInfo>>)
    ensures
        search matches Some(s) ==> s.wf(),
{
    search_at(read_clock())
}

/// Starts the search for the code of a new room, with a generator made
/// from the time that the clock shows. `None` where the clock cannot be
/// read.
pub fn search_code() -> (search: Option<KeySearch<RoomInfo>>)
    ensures
        search matches Some(s) ==> s.wf(),
{
    search_at(read_clock())
}

/// The identity record of a peer that is given the token `key` at the
/// time that a reading of the clock shows: the record that `Auth::issue`
/// makes for that time where the reading can be used, and `None` where it
/// cannot.
pub fn issue_at(key: String, reading: Option<u64>) -> (auth: Option<Auth>)
    ensures
        match usable(reading) {
            Some(now) => {
                &&& auth matches Some(a)
                &&& a@ == AuthView::issued(key@, now)
                &&& a.data is Some
            },
            None => auth is None,
        },
{
    match usable_time(reading) {
        Some(now) => Some(Auth::issue(key, now)),
        None => None,
    }
}

/// The identity record of a peer that is given the token `key` now. `None`
/// where the clock cannot be read.
pub fn issue(key: String) -> (auth: Option<Auth>)
    ensures
        auth matches Some(a) ==> exists|now: Timestamp|
            time_in_range(now) && a@ == #[trigger] AuthView::issued(key@, now),
        auth matches Some(a) ==> a.data is Some,
{
    issue_at(key, read_clock())
}

/// The room that is made under `key` at the time that a reading of the
/// clock shows: the room that `Room::open` makes for that time where the
/// reading can be used, and `None` where it cannot.
pub fn open_room_at(key: String, reading: Option<u64>) -> (room: Option<Room>)
    ensures
        match usable(reading) {
            Some(now) => {
                &&& room matches Some(r)
                &&& r@ == RoomView::opened(key@, now)
                &&& r@.wf()
                &&& r.data is Some
            },
            None => room is None,
        },
{
    match usable_time(reading) {
        Some(now) => Some(Room::open(key, now)),
        None => None,
    }
}

/// The room that is made under `key` now. `None` where the clock cannot
/// be read.
pub fn open_room(key: String) -> (room: Option<Room>)
    ensures
        room matches Some(r) ==> exists|now: Timestamp|
            time_in_range(now) && r@ == #[trigger] RoomView::opened(key@, now),
        room matches Some(r) ==> r@.wf() && r.data is Some,
{
    open_room_at(key, read_clock())
}

/// Carries out the exchange of a poll that has its room, at the time that
/// the clock shows: what `AwaitRoom::on_room` returns for that time, and a
/// refusal for an internal reason where the clock cannot be read.
pub fn settle(poll: AwaitRoom, room: Option<Room>) -> (res: Result<Settled, PollError>)
    ensures
        res == Err::<Settled, PollError>(PollError::Internal) || exists|now: Timestamp|
            time_in_range(now) && #[trigger] poll.settles(room, now, res),
{
    match now() {
        Some(now) => poll.on_room(room, now),
        None => Err(PollError::Internal),
    }
}

/// Finds the storage keys to delete in a listing of the store at the time
/// that a reading of the clock shows: what `sweep` finds for that time
/// where the reading can be used, and `None` where it cannot.
pub fn sweep_at(listing: &Vec<Listed>, reading: Option<u64>) -> (res: Option<
    Result<Vec<String>, SweepError>,
>)
    ensures
        match usable(reading) {
            Some(now) => match res {
                Some(Ok(keys)) => swept(listing.deep_view(), now) == Ok::<Seq<Seq<char>>, SweepError>(
                    keys.deep_view(),
                ),
                Some(Err(e)) => swept(listing.deep_view(), now) == Err::<Seq<Seq<char>>, SweepError>(e),
                None => false,
            },
            None => res is None,
        },
{
    match usable_time(reading) {
        Some(now) => Some(sweep(listing, now)),
        None => None,
    }
}

/// Finds the storage keys to delete now in a listing of the store. `None`
/// where the clock cannot be read.
pub fn sweep_now(listing: &Vec<Listed>) -> (res: Option<Result<Vec<String>, SweepError>>)
    ensures
        res matches Some(Ok(keys)) ==> exists|now: Timestamp| #[trigger]
            swept(listing.deep_view(), now) == Ok::<Seq<Seq<char>>, SweepError>(keys.deep_view()),
        res matches Some(Err(e)) ==> exists|now: Timestamp| #[trigger]
            swept(listing.deep_view(), now) == Err::<Seq<Seq<char>>, SweepError>(e),
{
    sweep_at(listing, read_clock())
}

} // verus!
