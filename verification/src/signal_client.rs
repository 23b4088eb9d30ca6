//! The peer's side of the polling exchange: what it has to send, and what
//! it has learnt from the broker.

use crate::signal::{IceCandidate, Signal, SignalView, Timestamp};
use vstd::prelude::*;

verus! {

/// For how many milliseconds a peer waits before it polls again, where the
/// broker has not told it when to.
pub const DEFAULT_DELAY: u64 = 10_000;

/// What a peer knows of its exchange with the broker. Points in time are
/// milliseconds on a clock that never goes back.
pub struct SignalClient {
    /// Where the broker is reached.
    pub url: String,
    /// The token that the broker has given, once it has.
    pub token: Option<String>,
    /// The code of the room; empty until the broker has told it.
    pub room: String,
    /// The session description of the other peer, once it is known.
    pub peer_sdp: Option<String>,
    /// The candidates of the other peer that are yet to be used.
    pub peer_ice: Vec<IceCandidate>,
    /// When to connect, once the broker has told.
    pub connect_at: Option<u64>,
    /// The signals that are yet to be sent.
    pub signal_queue: Vec<Signal>,
    /// When to poll next.
    pub next_poll: u64,
}

/// The point on the clock that never goes back at which the wall clock
/// will show `at` seconds, where it shows `now` milliseconds at `instant`:
/// `instant` itself where that time has passed, and the last point there
/// is where it lies behind it.
pub open spec fn instant_of(at: Timestamp, now: u64, instant: u64) -> u64 {
    if at * 1000 <= now {
        instant
    } else if instant + (at * 1000 - now) > u64::MAX {
        u64::MAX
    } else {
        (instant + (at * 1000 - now)) as u64
    }
}

/// The point on the clock that never goes back at which the wall clock
/// will show `at` seconds.
pub fn to_instant(at: Timestamp, now: u64, instant: u64) -> (res: u64)
    ensures
        res == instant_of(at, now, instant),
{
    let at_ms: u128 = at as u128 * 1000;
    if at_ms <= now as u128 {
        return instant;
    }
    let then: u128 = instant as u128 + (at_ms - now as u128);
    if then > u64::MAX as u128 {
        u64::MAX
    } else {
        then as u64
    }
}

/// The code of the room that the broker has told last, if it has told
/// one.
pub open spec fn told_room(signals: Seq<SignalView>) -> Option<Seq<char>>
    decreases signals.len(),
{
    if signals.len() == 0 {
        None
    } else {
        match signals.last() {
            SignalView::JoinRoom(code) => Some(code),
            _ => told_room(signals.drop_last()),
        }
    }
}

/// The session description that the broker has relayed last, if it has
/// relayed one.
pub open spec fn told_sdp(signals: Seq<SignalView>) -> Option<Seq<char>>
    decreases signals.len(),
{
    if signals.len() == 0 {
        None
    } else {
        match signals.last() {
            SignalView::SetSDP(sdp) => Some(sdp),
            _ => told_sdp(signals.drop_last()),
        }
    }
}

/// The time to connect that the broker has told last, if it has told one.
pub open spec fn told_connect(signals: Seq<SignalView>) -> Option<Timestamp>
    decreases signals.len(),
{
    if signals.len() == 0 {
        None
    } else {
        match signals.last() {
            SignalView::ConnectAt(at) => Some(at),
            _ => told_connect(signals.drop_last()),
        }
    }
}

/// The time to poll next that the broker has told last, if it has told
/// one.
pub open spec fn told_next_poll(signals: Seq<SignalView>) -> Option<Timestamp>
    decreases signals.len(),
{
    if signals.len() == 0 {
        None
    } else {
        match signals.last() {
            SignalView::NextPoll(at) => Some(at),
            _ => told_next_poll(signals.drop_last()),
        }
    }
}

/// The candidates that the broker has relayed, in their order.
pub open spec fn told_ice(signals: Seq<SignalView>) -> Seq<(Seq<char>, Option<Seq<char>>, Option<u16>)>
    decreases signals.len(),
{
    if signals.len() == 0 {
        Seq::empty()
    } else {
        match signals.last() {
            SignalView::AddCandidate(line, mid, index) => told_ice(signals.drop_last()).push(
                (line, mid, index),
            ),
            _ => told_ice(signals.drop_last()),
        }
    }
}

impl SignalClient {
    /// A peer that has not spoken to the broker at `url` yet, and polls as
    /// soon as it can.
    pub fn new(url: &str, instant: u64) -> (client: Self)
        ensures
            client.url@ == url@,
            client.token is None,
            client.room@.len() == 0,
            client.peer_sdp is None,
            client.peer_ice@.len() == 0,
            client.connect_at is None,
            client.signal_queue@.len() == 0,
            client.next_poll == instant,
    {
        SignalClient {
            url: url.to_owned(),
            token: None,
            room: String::new(),
            peer_sdp: None,
            peer_ice: Vec::new(),
            connect_at: None,
            signal_queue: Vec::new(),
            next_poll: instant,
        }
    }

    /// Takes what the broker has answered at the time `now` of the wall
    /// clock, in milliseconds, which is the point `instant`: the code of
    /// the room, the description and the candidates of the other peer, and
    /// the times to connect and to poll next. Of each the last one told
    /// counts; the candidates are gathered.
    pub fn handle_signals(&mut self, signals: Vec<Signal>, now: u64, instant: u64)
        ensures
            final(self).url == old(self).url,
            final(self).token == old(self).token,
            final(self).signal_queue == old(self).signal_queue,
            final(self).room@ == match told_room(signals.deep_view()) {
                Some(code) => code,
                None => old(self).room@,
            },
            match told_sdp(signals.deep_view()) {
                Some(sdp) => final(self).peer_sdp matches Some(s) && s@ == sdp,
                None => final(self).peer_sdp == old(self).peer_sdp,
            },
            final(self).peer_ice.deep_view() == old(self).peer_ice.deep_view() + told_ice(
                signals.deep_view(),
            ),
            final(self).connect_at == match told_connect(signals.deep_view()) {
                Some(at) => Some(instant_of(at, now, instant)),
                None => old(self).connect_at,
            },
            final(self).next_poll == match told_next_poll(signals.deep_view()) {
                Some(at) => instant_of(at, now, instant),
                None => old(self).next_poll,
            },
    {
        let ghost all = signals.deep_view();
        let mut i: usize = 0;
        assert(all.take(0) =~= Seq::<SignalView>::empty());
        assert(self.peer_ice.deep_view() + told_ice(all.take(0)) =~= self.peer_ice.deep_view());
        while i < signals.len()
            invariant
                0 <= i <= signals.len(),
                all == signals.deep_view(),
                self.url == old(self).url,
                self.token == old(self).token,
                self.signal_queue == old(self).signal_queue,
                self.room@ == match told_room(all.take(i as int)) {
                    Some(code) => code,
                    None => old(self).room@,
                },
                match told_sdp(all.take(i as int)) {
                    Some(sdp) => self.peer_sdp matches Some(s) && s@ == sdp,
                    None => self.peer_sdp == old(self).peer_sdp,
                },
                self.peer_ice.deep_view() == old(self).peer_ice.deep_view() + told_ice(
                    all.take(i as int),
                ),
                self.connect_at == match told_connect(all.take(i as int)) {
                    Some(at) => Some(instant_of(at, now, instant)),
                    None => old(self).connect_at,
                },
                self.next_poll == match told_next_poll(all.take(i as int)) {
                    Some(at) => instant_of(at, now, instant),
                    None => old(self).next_poll,
                },
            decreases signals.len() - i,
        {
            proof {
                assert(all.take(i + 1).drop_last() =~= all.take(i as int));
                assert(all.take(i + 1).last() == signals[i as int]@);
            }
            match &signals[i] {
                Signal::JoinRoom(code) => {
                    self.room = code.clone();
                },
                Signal::SetSDP(sdp) => {
                    self.peer_sdp = Some(sdp.clone());
                },
                Signal::AddCandidate(ice) => {
                    let mid = match &ice.1 {
                        Some(mid) => Some(mid.clone()),
                        None => None,
                    };
                    let ghost before = self.peer_ice.deep_view();
                    self.peer_ice.push((ice.0.clone(), mid, ice.2));
                    assert(self.peer_ice.deep_view() =~= before.push((ice.0@, match ice.1 {
                        Some(mid) => Some(mid@),
                        None => None,
                    }, ice.2)));
                },
                Signal::ConnectAt(at) => {
                    self.connect_at = Some(to_instant(*at, now, instant));
                },
                Signal::NextPoll(at) => {
                    self.next_poll = to_instant(*at, now, instant);
                },
            }
            i = i + 1;
            assert(self.peer_ice.deep_view() =~= old(self).peer_ice.deep_view() + told_ice(
                all.take(i as int),
            ));
        }
        assert(all.take(signals.len() as int) =~= all);
    }

    /// Notes that the wait for the next poll has ended at `instant`: unless
    /// the broker tells otherwise, the peer polls again after the default
    /// delay.
    pub fn wait_for_poll(&mut self, instant: u64)
        ensures
            *final(self) == (SignalClient {
                next_poll: if instant + DEFAULT_DELAY > u64::MAX {
                    u64::MAX
                } else {
                    (instant + DEFAULT_DELAY) as u64
                },
                ..*old(self)
            }),
    {
        self.next_poll = if instant > u64::MAX - DEFAULT_DELAY {
            u64::MAX
        } else {
            instant + DEFAULT_DELAY
        };
    }

    /// The signals that are to be sent with the next poll; none are left
    /// to send afterwards.
    pub fn poll(&mut self) -> (signals: Vec<Signal>)
        ensures
            signals == old(self).signal_queue,
            final(self).signal_queue@.len() == 0,
            final(self).url == old(self).url,
            final(self).token == old(self).token,
            final(self).room == old(self).room,
            final(self).peer_sdp == old(self).peer_sdp,
            final(self).peer_ice == old(self).peer_ice,
            final(self).connect_at == old(self).connect_at,
            final(self).next_poll == old(self).next_poll,
    {
        let mut signals: Vec<Signal> = Vec::new();
        std::mem::swap(&mut self.signal_queue, &mut signals);
        signals
    }

    /// Has the code of a room sent with the next poll.
    pub fn send_join_room(&mut self, code: String)
        ensures
            *final(self) == (SignalClient {
                signal_queue: final(self).signal_queue,
                ..*old(self)
            }),
            final(self).signal_queue@ == old(self).signal_queue@.push(Signal::JoinRoom(code)),
    {
        self.signal_queue.push(Signal::JoinRoom(code));
    }

    /// Has a session description sent with the next poll.
    pub fn send_sdp(&mut self, sdp: String)
        ensures
            *final(self) == (SignalClient {
                signal_queue: final(self).signal_queue,
                ..*old(self)
            }),
            final(self).signal_queue@ == old(self).signal_queue@.push(Signal::SetSDP(sdp)),
    {
        self.signal_queue.push(Signal::SetSDP(sdp));
    }

    /// Has candidates sent with the next poll, in their order.
    pub fn send_ice(&mut self, ice: Vec<IceCandidate>)
        ensures
            *final(self) == (SignalClient {
                signal_queue: final(self).signal_queue,
                ..*old(self)
            }),
            final(self).signal_queue@ == old(self).signal_queue@ + ice@.map_values(
                |c: IceCandidate| Signal::AddCandidate(c),
            ),
    {
        let mut ice = ice;
        let ghost all = ice@;
        let ghost before = self.signal_queue@;
        let mut rest: Vec<IceCandidate> = Vec::new();
        // The candidates are taken from the end, so the list is turned
        // round first.
        while ice.len() > 0
            invariant
                rest@.len() + ice@.len() == all.len(),
                forall|k: int| 0 <= k < ice@.len() ==> ice@[k] == all[k],
                forall|k: int| 0 <= k < rest@.len() ==> rest@[k] == all[all.len() - 1 - k],
            decreases ice@.len(),
        {
            let last = ice.pop().unwrap();
            rest.push(last);
        }
        while rest.len() > 0
            invariant
                rest@.len() <= all.len(),
                forall|k: int| 0 <= k < rest@.len() ==> rest@[k] == all[all.len() - 1 - k],
                self.url == old(self).url,
                self.token == old(self).token,
                self.room == old(self).room,
                self.peer_sdp == old(self).peer_sdp,
                self.peer_ice == old(self).peer_ice,
                self.connect_at == old(self).connect_at,
                self.next_poll == old(self).next_poll,
                before == old(self).signal_queue@,
                self.signal_queue@ == before + all.take(all.len() - rest@.len()).map_values(
                    |c: IceCandidate| Signal::AddCandidate(c),
                ),
            decreases rest@.len(),
        {
            let ghost done = all.len() - rest@.len();
            let next = rest.pop().unwrap();
            self.signal_queue.push(Signal::AddCandidate(next));
            assert(self.signal_queue@ =~= before + all.take(done + 1).map_values(
                |c: IceCandidate| Signal::AddCandidate(c),
            ));
        }
        assert(all.take(all.len() as int) =~= all);
    }
}

} // verus!
