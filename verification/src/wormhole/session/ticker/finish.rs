//! What happens when a timer runs out.
use crate::hackstead::plant::{Timer, TimerKind};
use crate::hackstead::{lemma_tile_found, lemma_with_plant_wf, HacksteadView};
use crate::id::NoSuch;
use crate::text::Complaint;
use crate::wormhole::note::{RudeNote, RudeNoteView};
use crate::wormhole::session::{SessSend, SessSendView};
use vstd::prelude::*;
use vstd::string::*;

verus! {

/// Why a timer could not be finished.
#[derive(Clone, Copy, Debug, PartialEq, Eq, Structural)]
pub enum Error {
    /// The tile, the plant or the effect that the timer ran for is gone.
    NoSuch(NoSuch),
}

impl Complaint for Error {
    open spec fn complaint(&self) -> Seq<char> {
        match *self {
            Error::NoSuch(e) => "couldn't finish timer: "@ + e.complaint(),
        }
    }

    fn message(&self) -> (text: String) {
        match self {
            Error::NoSuch(e) => {
                let mut text = String::from_str("couldn't finish timer: ");
                text.append(e.message().as_str());
                text
            },
        }
    }
}

/// What the end of a timer does to a hackstead, and the note it gives, if any.
///
/// A plant must grow on the timer's tile. A yield and a craft are announced; an
/// effect that wore off is taken off the plant and announced; kept xp is
/// nothing to announce.
pub open spec fn finished(hs: HacksteadView, timer: Timer) -> Result<
    (HacksteadView, Option<RudeNoteView>),
    NoSuch,
> {
    let tile_id = timer.tile_id;
    if !hs.has_plant(tile_id) {
        Err(hs.no_plant(tile_id))
    } else {
        match timer.kind {
            TimerKind::Yield => Ok((hs, Some(RudeNoteView::YieldFinish { tile_id }))),
            TimerKind::Craft { recipe_index } => Ok(
                (hs, Some(RudeNoteView::CraftFinish { tile_id })),
            ),
            TimerKind::Rub { effect_id } => {
                let plant = hs.plant(tile_id);
                if plant.has_effect(effect_id) {
                    Ok(
                        (
                            hs.with_plant(tile_id, Some(plant.without_effect(effect_id))),
                            Some(
                                RudeNoteView::RubEffectFinish {
                                    tile_id,
                                    effect: plant.effects[plant.effect_at(effect_id)],
                                },
                            ),
                        ),
                    )
                } else {
                    Err(NoSuch::Effect(tile_id, effect_id))
                }
            },
            TimerKind::Xp => Ok((hs, None)),
        }
    }
}

/// The end of a timer leaves a sound hackstead sound.
pub proof fn lemma_finished_keeps_wf(hs: HacksteadView, timer: Timer)
    requires
        hs.wf(),
        finished(hs, timer) is Ok,
    ensures
        finished(hs, timer)->Ok_0.0.wf(),
{
    match timer.kind {
        TimerKind::Rub { effect_id } => {
            lemma_tile_found(hs, timer.tile_id);
            assert(hs.tile(timer.tile_id).wf());
            lemma_with_plant_wf(
                hs,
                timer.tile_id,
                Some(hs.plant(timer.tile_id).without_effect(effect_id)),
            );
        },
        _ => {},
    }
}

/// What a result with a note holds.
pub open spec fn seen(r: Result<Option<RudeNote>, Error>) -> Result<Option<RudeNoteView>, Error> {
    match r {
        Ok(Some(note)) => Ok(Some(note@)),
        Ok(None) => Ok(None),
        Err(e) => Err(e),
    }
}

/// What finishing a timer does to the pending changes: the hackstead is as
/// [`finished`] says and the note is handed out; where that fails, nothing
/// changes.
pub open spec fn finish_done(
    before: SessSendView,
    after: SessSendView,
    timer: Timer,
    result: Result<Option<RudeNoteView>, Error>,
) -> bool {
    match finished(before.hackstead, timer) {
        Ok((hs, note)) => result == Ok::<Option<RudeNoteView>, Error>(note) && after
            == before.with_hackstead(hs),
        Err(e) => result == Err::<Option<RudeNoteView>, Error>(Error::NoSuch(e)) && after
            == before,
    }
}

/// Finishes a timer that ran out.
///
/// Fails with [`NoSuch::Tile`] or [`NoSuch::Plant`] where no plant grows on the
/// timer's tile, and with [`NoSuch::Effect`] where the effect that was to wear
/// off is not on the plant; nothing changes then.
pub fn finish_timer(ss: &mut SessSend, timer: Timer) -> (r: Result<Option<RudeNote>, Error>)
    ensures
        finish_done(old(ss)@, final(ss)@, timer, seen(r)),
{
    let tile_id = timer.tile_id;
    match timer.kind {
        TimerKind::Rub { effect_id } => {
            let ghost hs = ss@.hackstead;
            match ss.hackstead.plant_mut(tile_id) {
                Ok(plant) => match plant.take_rub_effect(effect_id) {
                    Ok(effect) => Ok(Some(RudeNote::RubEffectFinish { tile_id, effect })),
                    Err(_) => {
                        proof {
                            lemma_tile_found(hs, tile_id);
                        }
                        Err(Error::NoSuch(NoSuch::Effect(tile_id, effect_id)))
                    },
                },
                Err(e) => Err(Error::NoSuch(e)),
            }
        },
        TimerKind::Yield => match ss.hackstead.plant(tile_id) {
            Ok(_) => Ok(Some(RudeNote::YieldFinish { tile_id })),
            Err(e) => Err(Error::NoSuch(e)),
        },
        TimerKind::Craft { recipe_index } => match ss.hackstead.plant(tile_id) {
            Ok(_) => Ok(Some(RudeNote::CraftFinish { tile_id })),
            Err(e) => Err(Error::NoSuch(e)),
        },
        TimerKind::Xp => match ss.hackstead.plant(tile_id) {
            Ok(_) => Ok(None),
            Err(e) => Err(Error::NoSuch(e)),
        },
    }
}

} // verus!
