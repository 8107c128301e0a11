//! The ticker: the timers that run for one user's plants.
//!
//! Each tick takes one unit off every timer. A timer that runs out is finished
//! against the hackstead, in the order in which the timers were started; one
//! whose plant is gone is dropped.
use crate::hackstead::plant::{Lifecycle, Timer, TimerKind};
use crate::hackstead::{clone_timers, Hackstead, HacksteadView};
use crate::id::{NoSuch, TileId};
use crate::wormhole::note::{Note, NoteView, RudeNote, RudeNoteView};
use crate::wormhole::session::{SessSend, SessSendSubmit, SessSendView};
use vstd::prelude::*;

pub mod finish;

verus! {

/// The timers that run for one user's plants, oldest first.
#[derive(Debug, PartialEq, Eq)]
pub struct Ticker {
    pub timers: Vec<Timer>,
}

impl View for Ticker {
    type V = Seq<Timer>;

    open spec fn view(&self) -> Seq<Timer> {
        self.timers@
    }
}

impl Clone for Ticker {
    fn clone(&self) -> (copy: Ticker)
        ensures
            copy@ == self@,
    {
        Ticker { timers: clone_timers(&self.timers) }
    }
}

/// What one tick leaves behind.
pub struct Ticked {
    /// The timers that go on.
    pub timers: Seq<Timer>,
    /// The hackstead after every timer that ran out was finished.
    pub hackstead: HacksteadView,
    /// How far each timer that goes on has come.
    pub updates: Seq<RudeNoteView>,
    /// What the timers that ran out gave.
    pub finishes: Seq<RudeNoteView>,
}

/// The ticks a timer has left after one more tick.
pub open spec fn left_after_tick(timer: Timer) -> u64 {
    if timer.until_finish > 0 {
        (timer.until_finish - 1) as u64
    } else {
        0
    }
}

/// One timer's part in a tick. A timer with ticks left goes on and reports
/// them. A timer that ran out is finished: a perennial one starts over, an
/// annual one is gone; one that cannot be finished is dropped and leaves the
/// hackstead as it was.
pub open spec fn tick_one(so_far: Ticked, timer: Timer) -> Ticked {
    let left = left_after_tick(timer);
    if left > 0 {
        Ticked {
            timers: so_far.timers.push(Timer { until_finish: left, ..timer }),
            updates: so_far.updates.push(
                RudeNoteView::TimerUpdate { tile_id: timer.tile_id, kind: timer.kind, value: left },
            ),
            ..so_far
        }
    } else {
        match finish::finished(so_far.hackstead, timer) {
            Ok((hackstead, note)) => Ticked {
                timers: match timer.lifecycle {
                    Lifecycle::Perennial { duration } => so_far.timers.push(
                        Timer { until_finish: duration, ..timer },
                    ),
                    Lifecycle::Annual => so_far.timers,
                },
                hackstead,
                finishes: match note {
                    Some(note) => so_far.finishes.push(note),
                    None => so_far.finishes,
                },
                ..so_far
            },
            Err(_) => so_far,
        }
    }
}

/// What a tick leaves of the given timers and hackstead: each timer takes its
/// part, oldest first.
pub open spec fn ticked(timers: Seq<Timer>, hackstead: HacksteadView) -> Ticked
    decreases timers.len(),
{
    if timers.len() == 0 {
        Ticked { timers: Seq::empty(), hackstead, updates: Seq::empty(), finishes: Seq::empty() }
    } else {
        tick_one(ticked(timers.drop_last(), hackstead), timers.last())
    }
}

/// Notes that nobody asked for, as notes.
pub open spec fn rude(notes: Seq<RudeNoteView>) -> Seq<NoteView> {
    Seq::new(notes.len(), |i: int| NoteView::Rude(notes[i]))
}

/// The xp that the first xp timer of a tile keeps; zero where there is none.
pub open spec fn kept_xp(timers: Seq<Timer>, tile_id: TileId) -> u64
    decreases timers.len(),
{
    if timers.len() == 0 {
        0
    } else if timers[0].tile_id == tile_id && timers[0].kind == TimerKind::Xp {
        timers[0].until_finish
    } else {
        kept_xp(timers.drop_first(), tile_id)
    }
}

/// Whether a tile has an xp timer.
pub open spec fn keeps_xp(timers: Seq<Timer>, tile_id: TileId) -> bool {
    exists|i: int|
        0 <= i < timers.len() && timers[i].tile_id == tile_id && timers[i].kind == TimerKind::Xp
}

/// The timers with `amount` more xp in the first xp timer of a tile, as far as
/// the counter goes.
pub open spec fn with_more_xp(timers: Seq<Timer>, tile_id: TileId, amount: u64) -> Seq<Timer>
    decreases timers.len(),
{
    if timers.len() == 0 {
        timers
    } else if timers[0].tile_id == tile_id && timers[0].kind == TimerKind::Xp {
        timers.update(
            0,
            Timer {
                until_finish: if timers[0].until_finish + amount <= u64::MAX {
                    (timers[0].until_finish + amount) as u64
                } else {
                    u64::MAX
                },
                ..timers[0]
            },
        )
    } else {
        seq![timers[0]] + with_more_xp(timers.drop_first(), tile_id, amount)
    }
}

/// Every timer runs for a tile on which a plant grows.
pub open spec fn anchored(timers: Seq<Timer>, hackstead: HacksteadView) -> bool {
    forall|i: int| 0 <= i < timers.len() ==> hackstead.has_plant((#[trigger] timers[i]).tile_id)
}

/// The end of a timer leaves a plant on every tile that had one.
pub proof fn lemma_finished_keeps_plants(hs: HacksteadView, timer: Timer, other: TileId)
    requires
        hs.has_plant(other),
        finish::finished(hs, timer) is Ok,
    ensures
        finish::finished(hs, timer)->Ok_0.0.has_plant(other),
{
    match timer.kind {
        TimerKind::Rub { effect_id } => {
            crate::hackstead::lemma_with_plant_keeps_plants(
                hs,
                timer.tile_id,
                hs.plant(timer.tile_id).without_effect(effect_id),
                other,
            );
        },
        _ => {},
    }
}

/// A tick leaves a plant on every tile that had one, and every timer that goes
/// on is one of the timers that ran, but for the ticks it has left.
pub proof fn lemma_tick_keeps_plants(timers: Seq<Timer>, hackstead: HacksteadView)
    ensures
        forall|other: TileId|
            hackstead.has_plant(other) ==> #[trigger] ticked(timers, hackstead).hackstead.has_plant(
                other,
            ),
        forall|i: int|
            0 <= i < ticked(timers, hackstead).timers.len() ==> exists|j: int|
                0 <= j < timers.len() && timers[j].tile_id == (#[trigger] ticked(
                    timers,
                    hackstead,
                ).timers[i]).tile_id,
    decreases timers.len(),
{
    if timers.len() > 0 {
        let head = timers.drop_last();
        let last = timers.last();
        lemma_tick_keeps_plants(head, hackstead);
        let so_far = ticked(head, hackstead);
        let now = ticked(timers, hackstead);
        assert forall|other: TileId| hackstead.has_plant(other) implies #[trigger] now.hackstead.has_plant(
            other,
        ) by {
            assert(so_far.hackstead.has_plant(other));
            if left_after_tick(last) == 0 && finish::finished(so_far.hackstead, last) is Ok {
                lemma_finished_keeps_plants(so_far.hackstead, last, other);
            }
        }
        assert forall|i: int| 0 <= i < now.timers.len() implies exists|j: int|
            0 <= j < timers.len() && timers[j].tile_id == (#[trigger] now.timers[i]).tile_id by {
            if i < so_far.timers.len() {
                assert(now.timers[i] == so_far.timers[i]);
                let j = choose|j: int|
                    0 <= j < head.len() && head[j].tile_id == so_far.timers[i].tile_id;
                assert(timers[j] == head[j]);
            } else {
                assert(timers[timers.len() - 1].tile_id == now.timers[i].tile_id);
            }
        }
    }
}

/// Timers that all run for plants still do after a tick.
pub proof fn lemma_tick_keeps_anchored(timers: Seq<Timer>, hackstead: HacksteadView)
    requires
        anchored(timers, hackstead),
    ensures
        anchored(ticked(timers, hackstead).timers, ticked(timers, hackstead).hackstead),
{
    lemma_tick_keeps_plants(timers, hackstead);
    let now = ticked(timers, hackstead);
    assert forall|i: int| 0 <= i < now.timers.len() implies now.hackstead.has_plant(
        (#[trigger] now.timers[i]).tile_id,
    ) by {
        let j = choose|j: int| 0 <= j < timers.len() && timers[j].tile_id == now.timers[i].tile_id;
        assert(hackstead.has_plant(timers[j].tile_id));
    }
}

/// A tick leaves a sound hackstead sound.
pub proof fn lemma_tick_keeps_wf(timers: Seq<Timer>, hackstead: HacksteadView)
    requires
        hackstead.wf(),
    ensures
        ticked(timers, hackstead).hackstead.wf(),
    decreases timers.len(),
{
    if timers.len() > 0 {
        lemma_tick_keeps_wf(timers.drop_last(), hackstead);
        let so_far = ticked(timers.drop_last(), hackstead);
        if finish::finished(so_far.hackstead, timers.last()) is Ok {
            finish::lemma_finished_keeps_wf(so_far.hackstead, timers.last());
        }
    }
}

/// The timers and the hackstead after so many ticks in a row.
pub open spec fn after_ticks(timers: Seq<Timer>, hackstead: HacksteadView, n: nat) -> (
    Seq<Timer>,
    HacksteadView,
)
    decreases n,
{
    if n == 0 {
        (timers, hackstead)
    } else {
        let before = after_ticks(timers, hackstead, (n - 1) as nat);
        let t = ticked(before.0, before.1);
        (t.timers, t.hackstead)
    }
}

/// A timer that runs alone counts down by one with every tick, and each tick
/// before the last reports how many ticks are left, without a skip, and
/// finishes nothing. The tick at which no ticks are left is the one that
/// finishes the timer.
///
/// For a timer with `d` ticks to go, and `k` ticks that have passed, `k` below
/// `d`: the timer then has `d - k` ticks to go and the hackstead is as it was.
/// The next tick reports `d - k - 1` where that is not zero, and finishes the
/// timer where it is.
pub proof fn lemma_lone_timer_counts_down(timer: Timer, hackstead: HacksteadView, k: nat)
    requires
        k < timer.until_finish,
    ensures
        after_ticks(seq![timer], hackstead, k) == (
            seq![Timer { until_finish: (timer.until_finish - k) as u64, ..timer }],
            hackstead,
        ),
        ({
            let now = Timer { until_finish: (timer.until_finish - k) as u64, ..timer };
            let next = ticked(seq![now], hackstead);
            if k + 1 < timer.until_finish {
                &&& next.timers == seq![
                    Timer { until_finish: (timer.until_finish - k - 1) as u64, ..timer },
                ]
                &&& next.hackstead == hackstead
                &&& next.updates == seq![
                    RudeNoteView::TimerUpdate {
                        tile_id: timer.tile_id,
                        kind: timer.kind,
                        value: (timer.until_finish - k - 1) as u64,
                    },
                ]
                &&& next.finishes == Seq::<RudeNoteView>::empty()
            } else {
                &&& next.updates == Seq::<RudeNoteView>::empty()
                &&& match finish::finished(hackstead, now) {
                    Ok((hs, note)) => {
                        &&& next.hackstead == hs
                        &&& next.finishes == match note {
                            Some(note) => seq![note],
                            None => Seq::<RudeNoteView>::empty(),
                        }
                    },
                    Err(_) => {
                        &&& next.hackstead == hackstead
                        &&& next.finishes == Seq::<RudeNoteView>::empty()
                        &&& next.timers == Seq::<Timer>::empty()
                    },
                }
            }
        }),
    decreases k,
{
    let now = Timer { until_finish: (timer.until_finish - k) as u64, ..timer };
    let none = Ticked {
        timers: Seq::empty(),
        hackstead,
        updates: Seq::empty(),
        finishes: Seq::empty(),
    };
    assert(seq![now].drop_last() =~= Seq::<Timer>::empty());
    assert(seq![now].last() == now);
    assert(ticked(seq![now].drop_last(), hackstead) == none);
    assert(ticked(seq![now], hackstead) == tick_one(none, now));
    if k + 1 < timer.until_finish {
        assert(tick_one(none, now).timers =~= seq![
            Timer { until_finish: (timer.until_finish - k - 1) as u64, ..timer },
        ]);
        assert(tick_one(none, now).updates =~= seq![
            RudeNoteView::TimerUpdate {
                tile_id: timer.tile_id,
                kind: timer.kind,
                value: (timer.until_finish - k - 1) as u64,
            },
        ]);
    } else {
        match finish::finished(hackstead, now) {
            Ok((hs, note)) => {
                match note {
                    Some(n) => {
                        assert(tick_one(none, now).finishes =~= seq![n]);
                    },
                    None => {},
                }
            },
            Err(_) => {},
        }
    }
    if k > 0 {
        lemma_lone_timer_counts_down(timer, hackstead, (k - 1) as nat);
        let before = Timer { until_finish: (timer.until_finish - (k - 1)) as u64, ..timer };
        assert(after_ticks(seq![timer], hackstead, (k - 1) as nat) == (seq![before], hackstead));
    } else {
        assert(seq![timer] =~= seq![now]);
    }
}

impl Ticker {
    /// A ticker for a hackstead that was put away: it takes over the timers
    /// that were running then.
    pub fn new(hs: &mut Hackstead) -> (ticker: Ticker)
        ensures
            ticker@ == old(hs)@.timers,
            final(hs)@ == (HacksteadView { timers: Seq::empty(), ..old(hs)@ }),
    {
        let mut timers: Vec<Timer> = Vec::new();
        timers.append(&mut hs.timers);
        proof {
            assert(timers@ =~= old(hs)@.timers);
        }
        Ticker { timers }
    }

    /// Starts a timer for the plant on its tile.
    ///
    /// Fails with [`NoSuch::Tile`] or [`NoSuch::Plant`], and starts nothing,
    /// exactly where no plant grows on the timer's tile.
    pub fn start(&mut self, hs: &Hackstead, timer: Timer) -> (r: Result<(), NoSuch>)
        ensures
            match r {
                Ok(_) => hs@.has_plant(timer.tile_id) && final(self)@ == old(self)@.push(timer),
                Err(e) => !hs@.has_plant(timer.tile_id) && e == hs@.no_plant(timer.tile_id)
                    && final(self)@ == old(self)@,
            },
            anchored(old(self)@, hs@) ==> anchored(final(self)@, hs@),
    {
        match hs.plant(timer.tile_id) {
            Ok(_) => {
                self.timers.push(timer);
                Ok(())
            },
            Err(e) => Err(e),
        }
    }

    /// The xp that the first xp timer of a tile keeps; zero where the tile has
    /// none.
    pub fn xp(&self, tile_id: TileId) -> (xp: u64)
        ensures
            xp == kept_xp(self@, tile_id),
    {
        let mut i: usize = 0;
        proof {
            assert(self@.skip(0) =~= self@);
        }
        while i < self.timers.len()
            invariant
                i <= self.timers.len(),
                kept_xp(self@, tile_id) == kept_xp(self@.skip(i as int), tile_id),
            decreases self.timers.len() - i,
        {
            proof {
                assert(self@.skip(i as int).drop_first() =~= self@.skip(i + 1));
            }
            if self.timers[i].tile_id == tile_id && self.timers[i].kind == TimerKind::Xp {
                return self.timers[i].until_finish;
            }
            i = i + 1;
        }
        0
    }

    /// Adds xp to the first xp timer of a tile.
    ///
    /// Fails, and changes nothing, exactly where the tile has no xp timer.
    pub fn increase_xp(&mut self, tile_id: TileId, amt: u64) -> (r: Result<(), ()>)
        ensures
            r is Ok <==> keeps_xp(old(self)@, tile_id),
            final(self)@ == with_more_xp(old(self)@, tile_id, amt),
            r is Err ==> final(self)@ == old(self)@,
    {
        let mut i: usize = 0;
        proof {
            assert(self@.skip(0) =~= self@);
            assert(self@.take(0) + with_more_xp(self@, tile_id, amt) =~= with_more_xp(
                self@,
                tile_id,
                amt,
            ));
        }
        while i < self.timers.len()
            invariant
                i <= self.timers.len(),
                *self == *old(self),
                forall|j: int|
                    0 <= j < i ==> !(self@[j].tile_id == tile_id && self@[j].kind
                        == TimerKind::Xp),
                with_more_xp(self@, tile_id, amt) == self@.take(i as int) + with_more_xp(
                    self@.skip(i as int),
                    tile_id,
                    amt,
                ),
            decreases self.timers.len() - i,
        {
            let timer = self.timers[i];
            proof {
                assert(self@.skip(i as int).drop_first() =~= self@.skip(i + 1));
                assert(self@.take(i as int) + seq![self@[i as int]] =~= self@.take(i + 1));
            }
            if timer.tile_id == tile_id && timer.kind == TimerKind::Xp {
                let until_finish = if timer.until_finish <= u64::MAX - amt {
                    timer.until_finish + amt
                } else {
                    u64::MAX
                };
                self.timers[i] = Timer { until_finish, ..timer };
                proof {
                    assert(self@ =~= old(self)@.take(i as int) + with_more_xp(
                        old(self)@.skip(i as int),
                        tile_id,
                        amt,
                    ));
                }
                return Ok(());
            }
            proof {
                assert(self@.take(i as int) + (seq![self@[i as int]] + with_more_xp(
                    self@.skip(i + 1),
                    tile_id,
                    amt,
                )) =~= self@.take(i + 1) + with_more_xp(self@.skip(i + 1), tile_id, amt));
            }
            i = i + 1;
        }
        proof {
            assert(self@.take(i as int) + with_more_xp(self@.skip(i as int), tile_id, amt)
                =~= self@);
        }
        Err(())
    }

    /// Lets one tick pass.
    ///
    /// The timers and the pending hackstead are then as [`ticked`] says. The
    /// notes on the timers that go on, and behind them the notes from the timers
    /// that ran out, stand at the end of the pending notes. The changes are to
    /// be submitted.
    pub fn tick(&mut self, ss: &mut SessSend) -> (submit: SessSendSubmit)
        ensures
            submit is Submit,
            old(ss)@.hackstead.wf() ==> final(ss)@.hackstead.wf(),
            anchored(old(self)@, old(ss)@.hackstead) ==> anchored(
                final(self)@,
                final(ss)@.hackstead,
            ),
            final(self)@ == ticked(old(self)@, old(ss)@.hackstead).timers,
            final(ss)@ == (SessSendView {
                hackstead: ticked(old(self)@, old(ss)@.hackstead).hackstead,
                pending_notes: old(ss)@.pending_notes + rude(
                    ticked(old(self)@, old(ss)@.hackstead).updates,
                ) + rude(ticked(old(self)@, old(ss)@.hackstead).finishes),
                ..old(ss)@
            }),
    {
        let mut timers: Vec<Timer> = Vec::new();
        let mut updates: Vec<Note> = Vec::new();
        let mut finishes: Vec<Note> = Vec::new();
        let ghost start = ss@.hackstead;
        let mut i: usize = 0;
        proof {
            assert(self@.take(0) =~= Seq::empty());
            assert(updates.deep_view() =~= rude(Seq::empty()));
            assert(finishes.deep_view() =~= rude(Seq::empty()));
        }
        while i < self.timers.len()
            invariant
                i <= self.timers.len(),
                *self == *old(self),
                start == old(ss)@.hackstead,
                timers@ == ticked(self@.take(i as int), start).timers,
                updates.deep_view() == rude(ticked(self@.take(i as int), start).updates),
                finishes.deep_view() == rude(ticked(self@.take(i as int), start).finishes),
                ss@ == old(ss)@.with_hackstead(ticked(self@.take(i as int), start).hackstead),
            decreases self.timers.len() - i,
        {
            let timer = self.timers[i];
            let ghost so_far = ticked(self@.take(i as int), start);
            proof {
                assert(self@.take(i + 1).drop_last() =~= self@.take(i as int));
                assert(self@.take(i + 1).last() == timer);
                assert(ticked(self@.take(i + 1), start) == tick_one(so_far, timer));
            }
            let left = if timer.until_finish > 0 {
                timer.until_finish - 1
            } else {
                0
            };
            if left > 0 {
                timers.push(Timer { until_finish: left, ..timer });
                let note = Note::Rude(
                    RudeNote::TimerUpdate { tile_id: timer.tile_id, kind: timer.kind, value: left },
                );
                let ghost before = updates.deep_view();
                let ghost noted = note@;
                updates.push(note);
                proof {
                    assert(updates.deep_view() =~= before.push(noted));
                    assert(rude(so_far.updates).push(noted) =~= rude(
                        tick_one(so_far, timer).updates,
                    ));
                }
            } else {
                match finish::finish_timer(ss, timer) {
                    Ok(note) => {
                        match timer.lifecycle {
                            Lifecycle::Perennial { duration } => {
                                timers.push(Timer { until_finish: duration, ..timer });
                            },
                            Lifecycle::Annual => {},
                        }
                        match note {
                            Some(note) => {
                                let ghost before = finishes.deep_view();
                                let ghost noted = NoteView::Rude(note@);
                                finishes.push(Note::Rude(note));
                                proof {
                                    assert(finishes.deep_view() =~= before.push(noted));
                                    assert(rude(so_far.finishes).push(noted) =~= rude(
                                        tick_one(so_far, timer).finishes,
                                    ));
                                }
                            },
                            None => {},
                        }
                    },
                    Err(_) => {},
                }
            }
            i = i + 1;
        }
        proof {
            assert(self@.take(i as int) =~= self@);
        }
        let ghost updated = updates.deep_view();
        let ghost finished = finishes.deep_view();
        ss.pending_notes.append(&mut updates);
        ss.pending_notes.append(&mut finishes);
        proof {
            assert(ss.pending_notes.deep_view() =~= old(ss)@.pending_notes + updated + finished);
            if old(ss)@.hackstead.wf() {
                lemma_tick_keeps_wf(old(self)@, old(ss)@.hackstead);
            }
            if anchored(old(self)@, old(ss)@.hackstead) {
                lemma_tick_keeps_anchored(old(self)@, old(ss)@.hackstead);
            }
        }
        self.timers = timers;
        SessSendSubmit::Submit
    }
}

} // verus!
