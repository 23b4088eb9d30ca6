//! The identity ledger: one short-lived record per peer session.

use crate::db::{is_key, is_key_char, BucketInfo, Data, MetaError, Metadata};
use crate::decimal::{decimal, format_u64, lemma_decimal_reads_back, parse_decimal, parse_u64};
use crate::meta::MetaMap;
use crate::poll::Killable;
use crate::signal::Timestamp;
use crate::text::{join, joined};
use vstd::prelude::*;
use vstd::string::*;

verus! {

/// For how many seconds a record outlives its last sign of life.
pub const GRACE_PERIOD: u64 = 20;

/// An identity record: the bearer token of a peer is its key.
pub type Auth = Data<AuthData, AuthMetadata, AuthInfo>;

/// The kind of the identity records.
pub struct AuthInfo {}

impl BucketInfo for AuthInfo {
    const PREFIX: &'static str = "auth";

    const KEY_LENGTH: u8 = 32;
}

/// The token of a peer has 32 characters, each a capital letter or a
/// digit, and is kept under the prefix `auth`.
pub proof fn law_token_shape(token: Seq<char>)
    requires
        is_key(token, AuthInfo::KEY_LENGTH as nat),
    ensures
        token.len() == 32,
        forall|i: int| 0 <= i < 32 ==> is_key_char(#[trigger] token[i]),
        AuthInfo::PREFIX@ == "auth"@,
{
}

/// The payload of an identity record.
pub struct AuthData {
    /// The code of the room that the peer was assigned to, if any.
    pub room: Option<String>,
}

impl Default for AuthData {
    fn default() -> (data: Self)
        ensures
            data.room is None,
    {
        AuthData { room: None }
    }
}

/// The attributes of an identity record.
#[derive(Debug, Clone, Copy, PartialEq, Eq, Structural)]
pub struct AuthMetadata {
    /// When the record may be deleted. Set only while the peer has not joined
    /// a room: from then on the room decides.
    pub kill_at: Option<Timestamp>,
}

impl View for AuthMetadata {
    type V = AuthMetadata;

    open spec fn view(&self) -> AuthMetadata {
        *self
    }
}

/// The name of the attribute that holds `kill_at`.
pub open spec fn kill_at_key() -> Seq<char> {
    "kill_at"@
}

/// The text that a time is stored as: its decimal text, or nothing for no
/// time.
pub open spec fn time_text(time: Option<Timestamp>) -> Seq<char> {
    match time {
        Some(t) => decimal(t as nat),
        None => Seq::empty(),
    }
}

/// What a stored text reads as: no time where it is empty, else the number
/// it stands for.
pub open spec fn text_time(text: Seq<char>) -> Result<Option<Timestamp>, MetaError> {
    if text.len() == 0 {
        Ok(None)
    } else {
        match parse_decimal(text) {
            Some(t) => Ok(Some(t)),
            None => Err(MetaError::Malformed),
        }
    }
}

/// Writes a time as it is stored.
pub fn format_time(time: Option<Timestamp>) -> (text: String)
    ensures
        text@ == time_text(time),
{
    match time {
        Some(t) => format_u64(t),
        None => String::new(),
    }
}

/// Reads a time as it is stored.
pub fn parse_time(text: &str) -> (res: Result<Option<Timestamp>, MetaError>)
    ensures
        res == text_time(text@),
{
    if text.is_empty() {
        return Ok(None);
    }
    match parse_u64(text) {
        Some(t) => Ok(Some(t)),
        None => Err(MetaError::Malformed),
    }
}

/// A time that was written reads back as it was.
pub proof fn lemma_time_round_trip(time: Option<Timestamp>)
    ensures
        text_time(time_text(time)) == Ok::<Option<Timestamp>, MetaError>(time),
{
    if let Some(t) = time {
        lemma_decimal_reads_back(t as nat);
    }
}

impl Metadata for AuthMetadata {
    open spec fn encoding(value: AuthMetadata) -> Map<Seq<char>, Seq<char>> {
        Map::<Seq<char>, Seq<char>>::empty().insert(kill_at_key(), time_text(value.kill_at))
    }

    open spec fn decoding(attributes: Map<Seq<char>, Seq<char>>) -> Result<
        AuthMetadata,
        MetaError,
    > {
        if !attributes.contains_key(kill_at_key()) {
            Err(MetaError::Missing)
        } else {
            match text_time(attributes[kill_at_key()]) {
                Ok(kill_at) => Ok(AuthMetadata { kill_at }),
                Err(e) => Err(e),
            }
        }
    }

    fn to_map(&self) -> (attributes: MetaMap) {
        let mut attributes = MetaMap::new();
        attributes.insert(String::from_str("kill_at"), format_time(self.kill_at));
        attributes
    }

    fn from_map(attributes: &MetaMap) -> (res: Result<Self, MetaError>) {
        match attributes.get("kill_at") {
            None => Err(MetaError::Missing),
            Some(text) => match parse_time(text.as_str()) {
                Ok(kill_at) => Ok(AuthMetadata { kill_at }),
                Err(e) => Err(e),
            },
        }
    }
}

/// The attributes of an identity record read back as they were written.
pub proof fn law_auth_metadata_round_trip(meta: AuthMetadata)
    ensures
        AuthMetadata::decoding(AuthMetadata::encoding(meta)) == Ok::<AuthMetadata, MetaError>(
            meta,
        ),
{
    lemma_time_round_trip(meta.kill_at);
}

/// The mathematical value of an identity record.
pub struct AuthView {
    /// The peer's token.
    pub key: Seq<char>,
    /// Whether the record differs from what the store holds.
    pub modified: bool,
    /// The code of the room that the peer was assigned to, if any.
    pub room: Option<Seq<char>>,
    /// When the record may be deleted, if there is such a time.
    pub kill_at: Option<Timestamp>,
}

impl AuthView {
    /// The record of a peer that has just been given its token.
    pub open spec fn issued(key: Seq<char>, now: Timestamp) -> AuthView {
        AuthView { key, modified: true, room: None, kill_at: Some((now + GRACE_PERIOD) as u64) }
    }

    /// The record after the peer was assigned to a room: it names the room,
    /// and has no time of its own at which it may be deleted.
    pub open spec fn join_room(self, code: Seq<char>) -> AuthView {
        AuthView { key: self.key, modified: true, room: Some(code), kill_at: None }
    }

    /// Whether the record may be deleted at `now`.
    pub open spec fn expired(self, now: Timestamp) -> bool {
        self.kill_at matches Some(at) && now >= at
    }

    /// The key under which the store holds the record.
    pub open spec fn storage_key(self) -> Seq<char> {
        joined(AuthInfo::PREFIX@, self.key)
    }
}

impl View for Data<AuthData, AuthMetadata, AuthInfo> {
    type V = AuthView;

    open spec fn view(&self) -> AuthView {
        AuthView {
            key: self.key@,
            modified: self.modified,
            room: match self.data {
                Some(AuthData { room: Some(code) }) => Some(code@),
                _ => None,
            },
            kill_at: self.meta.kill_at,
        }
    }
}

impl Data<AuthData, AuthMetadata, AuthInfo> {
    /// The record of a peer that is given the token `key` at `now`: it names
    /// no room, and may be deleted once the grace period has passed.
    pub fn issue(key: String, now: Timestamp) -> (auth: Auth)
        requires
            now + GRACE_PERIOD <= u64::MAX,
        ensures
            auth@ == AuthView::issued(key@, now),
            auth.data is Some,
    {
        Data::create(key, AuthData { room: None }, AuthMetadata { kill_at: Some(now + GRACE_PERIOD) })
    }

    /// The code of the room that the peer was assigned to, if any.
    pub fn get_room(&self) -> (room: Option<&String>)
        requires
            self.data is Some,
        ensures
            match room {
                Some(code) => self@.room == Some(code@),
                None => self@.room is None,
            },
    {
        match &self.data {
            Some(data) => data.room.as_ref(),
            None => None,
        }
    }

    /// Assigns the peer to a room. From now on the room decides when the
    /// record may be deleted.
    pub fn join_room(&mut self, code: &str)
        requires
            old(self).data is Some,
        ensures
            final(self)@ == old(self)@.join_room(code@),
            final(self).data is Some,
    {
        self.data = Some(AuthData { room: Some(String::from_str(code)) });
        self.meta.kill_at = None;
        self.modified = true;
    }

    /// Whether the record may be deleted at `now`: it has a time for that,
    /// and the time has come.
    pub fn is_expired(&self, now: Timestamp) -> (res: bool)
        ensures
            res == self@.expired(now),
    {
        match self.meta.kill_at {
            Some(at) => now >= at,
            None => false,
        }
    }
}

impl Killable for Data<AuthData, AuthMetadata, AuthInfo> {
    open spec fn keys_to_kill(&self, now: Timestamp) -> Seq<Seq<char>> {
        if self@.expired(now) {
            seq![self@.storage_key()]
        } else {
            Seq::empty()
        }
    }

    fn get_keys_to_kill(&self, now: Timestamp) -> (keys: Vec<String>) {
        let mut keys: Vec<String> = Vec::new();
        if self.is_expired(now) {
            keys.push(join(AuthInfo::PREFIX, self.key.as_str()));
        }
        assert(keys.deep_view() =~= self.keys_to_kill(now));
        keys
    }
}

} // verus!
