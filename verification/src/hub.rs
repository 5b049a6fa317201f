//! The fan-out layer: one hub applies every playback state transition to
//! all registered sinks.
//!
//! Each sink records the updates delivered to it, in order; the platform
//! layer performs them against the sink's medium. A sink that is still
//! under construction silently drops updates — it is never queued on and
//! never blocked on — and on becoming ready it immediately receives the
//! current full state as a catch-up snapshot, so no permanent state loss
//! results from the race.

use vstd::prelude::*;

use crate::controller::PlaybackState;
use crate::controller::RepeatMode;
use crate::controller::SinkStatus;
use crate::song::Song;
use crate::song::SongView;

verus! {

/// One state change on its way to a sink.
pub enum Update {
    Song(Song),
    Position(u64),
    State(PlaybackState),
    Repeat(RepeatMode),
}

/// Mathematical image of an `Update`.
pub ghost enum UpdateView {
    Song(SongView),
    Position(u64),
    State(PlaybackState),
    Repeat(RepeatMode),
}

impl View for Update {
    type V = UpdateView;

    open spec fn view(&self) -> UpdateView {
        match self {
            Update::Song(s) => UpdateView::Song(s@),
            Update::Position(p) => UpdateView::Position(*p),
            Update::State(s) => UpdateView::State(*s),
            Update::Repeat(m) => UpdateView::Repeat(*m),
        }
    }
}

impl Clone for Update {
    fn clone(&self) -> (r: Self)
        ensures
            r@ == self@,
    {
        match self {
            Update::Song(s) => Update::Song(s.clone()),
            Update::Position(p) => Update::Position(*p),
            Update::State(s) => Update::State(*s),
            Update::Repeat(m) => Update::Repeat(*m),
        }
    }
}

/// Views of a delivery log, in order.
pub open spec fn spec_update_views(s: Seq<Update>) -> Seq<UpdateView> {
    s.map_values(|u: Update| u@)
}

/// Mathematical image of a `Sink`.
pub ghost struct SinkView {
    pub status: SinkStatus,
    pub delivered: Seq<UpdateView>,
}

/// One registered control surface: its readiness and the updates delivered
/// to it so far, oldest first.
pub struct Sink {
    pub status: SinkStatus,
    pub delivered: Vec<Update>,
}

impl View for Sink {
    type V = SinkView;

    open spec fn view(&self) -> SinkView {
        SinkView { status: self.status, delivered: spec_update_views(self.delivered@) }
    }
}

/// Mathematical image of a `ControllerHub`.
pub ghost struct HubView {
    pub sinks: Seq<SinkView>,
    pub current_song: Option<SongView>,
    pub position: u64,
    pub state: PlaybackState,
    pub repeat: RepeatMode,
}

/// The fan-out hub: the last known full playback state, and every
/// registered sink in registration order — which is broadcast order.
pub struct ControllerHub {
    pub sinks: Vec<Sink>,
    pub current_song: Option<Song>,
    pub position: u64,
    pub state: PlaybackState,
    pub repeat: RepeatMode,
}

impl View for ControllerHub {
    type V = HubView;

    open spec fn view(&self) -> HubView {
        HubView {
            sinks: self.sinks@.map_values(|s: Sink| s@),
            current_song: match self.current_song {
                Some(s) => Some(s@),
                None => None,
            },
            position: self.position,
            state: self.state,
            repeat: self.repeat,
        }
    }
}

/// What one delivery does to one sink: a ready sink appends the update to
/// its log; any other sink drops it.
pub open spec fn spec_deliver(s: SinkView, u: UpdateView) -> SinkView {
    if s.status is Ready {
        SinkView { status: s.status, delivered: s.delivered.push(u) }
    } else {
        s
    }
}

/// One broadcast: every sink, in registration order, gets one delivery.
pub open spec fn spec_fan_out(sinks: Seq<SinkView>, u: UpdateView) -> Seq<SinkView> {
    sinks.map_values(|s: SinkView| spec_deliver(s, u))
}

/// The hub after a song broadcast.
pub open spec fn spec_broadcast_song(h: HubView, s: SongView) -> HubView {
    (HubView {
        sinks: spec_fan_out(h.sinks, UpdateView::Song(s)),
        current_song: Some(s),
        position: h.position,
        state: h.state,
        repeat: h.repeat,
    })
}

/// The hub after a position broadcast.
pub open spec fn spec_broadcast_position(h: HubView, p: u64) -> HubView {
    (HubView {
        sinks: spec_fan_out(h.sinks, UpdateView::Position(p)),
        current_song: h.current_song,
        position: p,
        state: h.state,
        repeat: h.repeat,
    })
}

/// The hub after a transport-state broadcast.
pub open spec fn spec_broadcast_state(h: HubView, s: PlaybackState) -> HubView {
    (HubView {
        sinks: spec_fan_out(h.sinks, UpdateView::State(s)),
        current_song: h.current_song,
        position: h.position,
        state: s,
        repeat: h.repeat,
    })
}

/// The hub after a repeat-mode broadcast.
pub open spec fn spec_broadcast_repeat(h: HubView, m: RepeatMode) -> HubView {
    (HubView {
        sinks: spec_fan_out(h.sinks, UpdateView::Repeat(m)),
        current_song: h.current_song,
        position: h.position,
        state: h.state,
        repeat: m,
    })
}

/// The catch-up snapshot a sink receives on becoming ready: the current
/// song if one is known, then position, transport state and repeat mode.
pub open spec fn spec_catch_up(h: HubView) -> Seq<UpdateView> {
    (match h.current_song {
        Some(s) => seq![UpdateView::Song(s)],
        None => Seq::<UpdateView>::empty(),
    }) + seq![UpdateView::Position(h.position), UpdateView::State(h.state), UpdateView::Repeat(
        h.repeat,
    )]
}

/// The hub after sink `i` finished construction successfully: ready, with
/// the catch-up snapshot appended to its log.
pub open spec fn spec_mark_ready(h: HubView, i: int) -> HubView {
    (HubView {
        sinks: h.sinks.update(
            i,
            SinkView {
                status: SinkStatus::Ready,
                delivered: h.sinks[i].delivered + spec_catch_up(h),
            },
        ),
        current_song: h.current_song,
        position: h.position,
        state: h.state,
        repeat: h.repeat,
    })
}

fn fan_out(sinks: &mut Vec<Sink>, u: &Update)
    ensures
        final(sinks)@.len() == old(sinks)@.len(),
        forall|j: int|
            0 <= j < old(sinks)@.len() ==> final(sinks)@[j]@ == spec_deliver(old(sinks)@[j]@, u@),
{
    let n = sinks.len();
    let mut i: usize = 0;
    while i < n
        invariant
            n == sinks@.len(),
            i <= n,
            forall|j: int| 0 <= j < i ==> sinks@[j]@ == spec_deliver(old(sinks)@[j]@, u@),
            forall|j: int| i <= j < n ==> sinks@[j] == old(sinks)@[j],
        decreases n - i,
    {
        let ghost prev = sinks@;
        let mut s = sinks.remove(i);
        let ready = matches!(s.status, SinkStatus::Ready);
        if ready {
            s.delivered.push(u.clone());
        }
        sinks.insert(i, s);
        proof {
            assert(sinks@ =~= prev.update(i as int, sinks@[i as int]));
            assert(sinks@[i as int]@ == spec_deliver(prev[i as int]@, u@)) by {
                if ready {
                    assert(spec_update_views(sinks@[i as int].delivered@) =~= spec_update_views(
                        prev[i as int].delivered@,
                    ).push(u@));
                }
            }
        }
        i = i + 1;
    }
}

impl ControllerHub {
    /// A hub with no sinks and the initial playback state.
    pub fn new() -> (r: Self)
        ensures
            r@.sinks.len() == 0,
            r@.current_song is None,
            r@.position == 0,
            r@.state == PlaybackState::Stopped,
            r@.repeat == RepeatMode::Consecutive,
    {
        ControllerHub {
            sinks: Vec::new(),
            current_song: None,
            position: 0,
            state: PlaybackState::Stopped,
            repeat: RepeatMode::Consecutive,
        }
    }

    /// Registers one more sink at the end of the broadcast order; returns
    /// its index. Registration happens before steady-state broadcasting,
    /// so the log starts empty.
    pub fn register_sink(&mut self, status: SinkStatus) -> (r: usize)
        ensures
            r == old(self)@.sinks.len(),
            final(self)@.sinks == old(self)@.sinks.push(
                (SinkView { status, delivered: Seq::<UpdateView>::empty() }),
            ),
            final(self)@.current_song == old(self)@.current_song,
            final(self)@.position == old(self)@.position,
            final(self)@.state == old(self)@.state,
            final(self)@.repeat == old(self)@.repeat,
    {
        let r = self.sinks.len();
        self.sinks.push(Sink { status, delivered: Vec::new() });
        proof {
            assert(spec_update_views(Seq::<Update>::empty()) =~= Seq::<UpdateView>::empty());
            assert(final(self)@.sinks =~= old(self)@.sinks.push(
                (SinkView { status, delivered: Seq::<UpdateView>::empty() }),
            ));
        }
        r
    }

    /// Broadcasts a song change: every ready sink receives it exactly
    /// once, in registration order; unready sinks drop it.
    pub fn broadcast_song(&mut self, song: &Song)
        ensures
            final(self)@ == spec_broadcast_song(old(self)@, song@),
    {
        self.current_song = Some(song.clone());
        let u = Update::Song(song.clone());
        fan_out(&mut self.sinks, &u);
        proof {
            assert(final(self)@.sinks =~= spec_fan_out(old(self)@.sinks, UpdateView::Song(song@)));
        }
    }

    /// Broadcasts a position change.
    pub fn broadcast_position(&mut self, position: u64)
        ensures
            final(self)@ == spec_broadcast_position(old(self)@, position),
    {
        self.position = position;
        let u = Update::Position(position);
        fan_out(&mut self.sinks, &u);
        proof {
            assert(final(self)@.sinks =~= spec_fan_out(
                old(self)@.sinks,
                UpdateView::Position(position),
            ));
        }
    }

    /// Broadcasts a transport-state change.
    pub fn broadcast_state(&mut self, state: PlaybackState)
        ensures
            final(self)@ == spec_broadcast_state(old(self)@, state),
    {
        self.state = state;
        let u = Update::State(state);
        fan_out(&mut self.sinks, &u);
        proof {
            assert(final(self)@.sinks =~= spec_fan_out(old(self)@.sinks, UpdateView::State(state)));
        }
    }

    /// Broadcasts a repeat-mode change.
    pub fn broadcast_repeat(&mut self, repeat: RepeatMode)
        ensures
            final(self)@ == spec_broadcast_repeat(old(self)@, repeat),
    {
        self.repeat = repeat;
        let u = Update::Repeat(repeat);
        fan_out(&mut self.sinks, &u);
        proof {
            assert(final(self)@.sinks =~= spec_fan_out(old(self)@.sinks, UpdateView::Repeat(repeat)));
        }
    }

    /// Sink `i` finished construction successfully: it becomes ready and
    /// immediately receives the catch-up snapshot.
    pub fn mark_ready(&mut self, i: usize)
        requires
            i < old(self)@.sinks.len(),
            old(self)@.sinks[i as int].status is Constructing,
        ensures
            final(self)@ == spec_mark_ready(old(self)@, i as int),
    {
        let ghost prev = self.sinks@;
        let mut s = self.sinks.remove(i);
        s.status = SinkStatus::Ready;
        match &self.current_song {
            Some(song) => s.delivered.push(Update::Song(song.clone())),
            None => (),
        }
        s.delivered.push(Update::Position(self.position));
        s.delivered.push(Update::State(self.state));
        s.delivered.push(Update::Repeat(self.repeat));
        self.sinks.insert(i, s);
        proof {
            assert(self.sinks@ =~= prev.update(i as int, self.sinks@[i as int]));
            assert(spec_update_views(self.sinks@[i as int].delivered@) =~= spec_update_views(
                prev[i as int].delivered@,
            ) + spec_catch_up(old(self)@));
            assert(final(self)@.sinks =~= spec_mark_ready(old(self)@, i as int).sinks);
        }
    }

    /// Sink `i`'s construction failed: it is permanently unavailable and
    /// its log never grows. The hub goes on with the remaining sinks.
    pub fn mark_unavailable(&mut self, i: usize)
        requires
            i < old(self)@.sinks.len(),
            old(self)@.sinks[i as int].status is Constructing,
        ensures
            final(self)@.sinks == old(self)@.sinks.update(
                i as int,
                (SinkView {
                    status: SinkStatus::Unavailable,
                    delivered: old(self)@.sinks[i as int].delivered,
                }),
            ),
            final(self)@.current_song == old(self)@.current_song,
            final(self)@.position == old(self)@.position,
            final(self)@.state == old(self)@.state,
            final(self)@.repeat == old(self)@.repeat,
    {
        let ghost prev = self.sinks@;
        let mut s = self.sinks.remove(i);
        s.status = SinkStatus::Unavailable;
        self.sinks.insert(i, s);
        proof {
            assert(self.sinks@ =~= prev.update(i as int, self.sinks@[i as int]));
            assert(final(self)@.sinks =~= old(self)@.sinks.update(
                i as int,
                (SinkView {
                    status: SinkStatus::Unavailable,
                    delivered: old(self)@.sinks[i as int].delivered,
                }),
            ));
        }
    }

    pub fn sink_count(&self) -> (r: usize)
        ensures
            r == self@.sinks.len(),
    {
        self.sinks.len()
    }

    /// The delivery log of one sink, oldest first.
    pub fn sink_deliveries(&self, i: usize) -> (r: &Vec<Update>)
        requires
            i < self@.sinks.len(),
        ensures
            spec_update_views(r@) == self@.sinks[i as int].delivered,
    {
        &self.sinks[i].delivered
    }
}

/// Fan-out law: a broadcast reaches every ready sink exactly once — its
/// log grows by exactly that update — while a sink still under
/// construction sees nothing of it; and when that sink later becomes
/// ready, the catch-up snapshot makes the same song its first delivery.
pub proof fn lemma_broadcast_fan_out(h: HubView, s: SongView, i: int)
    requires
        0 <= i < h.sinks.len(),
        h.sinks[i].status is Constructing,
        h.sinks[i].delivered.len() == 0,
    ensures
        forall|j: int|
            0 <= j < h.sinks.len() && h.sinks[j].status is Ready
                ==> spec_broadcast_song(h, s).sinks[j].delivered == h.sinks[j].delivered.push(
                UpdateView::Song(s),
            ),
        spec_broadcast_song(h, s).sinks[i].delivered == h.sinks[i].delivered,
        spec_mark_ready(spec_broadcast_song(h, s), i).sinks[i].status is Ready,
        spec_mark_ready(spec_broadcast_song(h, s), i).sinks[i].delivered[0] == UpdateView::Song(s),
{
    let h2 = spec_broadcast_song(h, s);
    assert(h2.sinks[i] == spec_deliver(h.sinks[i], UpdateView::Song(s)));
    assert(h2.sinks[i].delivered.len() == 0);
    assert(spec_catch_up(h2)[0] == UpdateView::Song(s));
    assert(spec_mark_ready(h2, i).sinks[i].delivered =~= spec_catch_up(h2));
}

} // verus!
