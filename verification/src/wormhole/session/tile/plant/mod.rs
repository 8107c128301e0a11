//! What users ask to be done with plants.
use crate::config::Config;
use crate::hackstead::lemma_with_plant_wf;
use crate::hackstead::plant::{Effect, PlantView};
use crate::id::{EffectId, NoSuch};
use crate::text::said;
use crate::wormhole::note::{AskedNote, AskedNoteView, PlantAsk};
use crate::wormhole::session::{strerr, SessSend, SessSendView};
use vstd::prelude::*;
use vstd::string::*;

pub mod nickname;
pub mod rub;
pub mod skill_unlock;
pub mod summon;

verus! {

/// What a result with a plant holds.
pub open spec fn seen(r: Result<crate::hackstead::plant::Plant, NoSuch>) -> Result<PlantView, NoSuch> {
    match r {
        Ok(p) => Ok(p@),
        Err(e) => Err(e),
    }
}

/// What taking the plant off a tile does. Where a plant grows on the tile, the
/// tile is empty and the plant is handed out; else nothing changes.
pub open spec fn slaughter_done(
    before: SessSendView,
    after: SessSendView,
    tile_id: crate::id::TileId,
    result: Result<PlantView, NoSuch>,
) -> bool {
    let hs = before.hackstead;
    if hs.has_plant(tile_id) {
        result == Ok::<PlantView, NoSuch>(hs.plant(tile_id)) && after == before.with_hackstead(
            hs.with_plant(tile_id, None),
        )
    } else {
        result == Err::<PlantView, NoSuch>(hs.no_plant(tile_id)) && after == before
    }
}

/// Taking the plant off a tile leaves a sound hackstead sound.
pub proof fn lemma_slaughter_keeps_wf(
    before: SessSendView,
    after: SessSendView,
    tile_id: crate::id::TileId,
    result: Result<PlantView, NoSuch>,
)
    requires
        slaughter_done(before, after, tile_id, result),
        before.hackstead.wf(),
    ensures
        after.hackstead.wf(),
{
    if result is Ok {
        lemma_with_plant_wf(before.hackstead, tile_id, None);
    }
}

/// A plant is slaughtered once. After the plant was taken off a tile, taking it
/// off again fails with [`NoSuch::Plant`] and changes nothing.
pub proof fn lemma_slaughter_once(
    start: SessSendView,
    first: SessSendView,
    second: SessSendView,
    tile_id: crate::id::TileId,
    first_result: Result<PlantView, NoSuch>,
    second_result: Result<PlantView, NoSuch>,
)
    requires
        slaughter_done(start, first, tile_id, first_result),
        first_result is Ok,
        slaughter_done(first, second, tile_id, second_result),
    ensures
        second_result == Err::<PlantView, NoSuch>(NoSuch::Plant(tile_id)),
        second == first,
{
    let hs = start.hackstead;
    crate::hackstead::lemma_tile_found(hs, tile_id);
    let after = hs.with_plant(tile_id, None);
    assert(crate::hackstead::tile_ids(after.land) =~= crate::hackstead::tile_ids(hs.land));
}

/// What serving a plant ask does: what the handler of the ask says, and the
/// answer is what the handler gave. A craft is not served: nothing changes,
/// and the answer says so.
pub open spec fn plant_ask_done(
    before: SessSendView,
    after: SessSendView,
    config: Config,
    ask: PlantAsk,
    note: AskedNoteView,
) -> bool {
    match ask {
        PlantAsk::Summon { tile_id, seed_item_id } => exists|r: Result<PlantView, summon::Error>|
            {
                &&& #[trigger] summon::summon_done(before, after, config, tile_id, seed_item_id, r)
                &&& note == AskedNoteView::PlantSummonResult(said(r))
            },
        PlantAsk::Slaughter { tile_id } => exists|r: Result<PlantView, NoSuch>|
            {
                &&& #[trigger] slaughter_done(before, after, tile_id, r)
                &&& note == AskedNoteView::PlantSlaughterResult(said(r))
            },
        PlantAsk::KnowledgeSnort { tile_id, xp } => exists|r: Result<u64, NoSuch>|
            {
                &&& #[trigger] skill_unlock::snort_done(before, after, tile_id, xp, r)
                &&& note == AskedNoteView::PlantKnowledgeSnortResult(said(r))
            },
        PlantAsk::Rub { tile_id, rub_item_id } => exists|
            ids: Seq<EffectId>,
            r: Result<Seq<Effect>, rub::Error>,
        |
            {
                &&& ids.len() == rub::rub_count(before, config, tile_id, rub_item_id)
                &&& #[trigger] rub::rub_done(before, after, config, tile_id, rub_item_id, ids, r)
                &&& note == AskedNoteView::PlantRubStartResult(said(r))
            },
        PlantAsk::Craft { tile_id, recipe_index } => {
            &&& after == before
            &&& note == AskedNoteView::PlantCraftStartResult(Err("unimplemented route"@))
        },
        PlantAsk::Nickname { tile_id, new_name } => exists|r: Result<Seq<char>, nickname::Error>|
            {
                &&& #[trigger] nickname::nickname_done(before, after, tile_id, new_name@, r)
                &&& note == AskedNoteView::PlantNicknameResult(said(r))
            },
        PlantAsk::SkillUnlock { tile_id, source_skill_conf, unlock_index } => exists|
            r: Result<u64, skill_unlock::Error>,
        |
            {
                &&& #[trigger] skill_unlock::skill_unlock_done(
                    before,
                    after,
                    config,
                    tile_id,
                    source_skill_conf,
                    unlock_index,
                    r,
                )
                &&& note == AskedNoteView::PlantSkillUnlockResult(said(r))
            },
    }
}

/// Serves a plant ask on the pending changes.
pub fn handle_ask(ss: &mut SessSend, config: &Config, ask: PlantAsk) -> (note: AskedNote)
    ensures
        plant_ask_done(old(ss)@, final(ss)@, *config, ask, note@),
{
    match ask {
        PlantAsk::Summon { tile_id, seed_item_id } => {
            let r = summon::summon(ss, config, tile_id, seed_item_id);
            let ghost seen = summon::seen(r);
            let note = AskedNote::PlantSummonResult(strerr(r));
            proof {
                assert(summon::summon_done(old(ss)@, ss@, *config, tile_id, seed_item_id, seen));
                assert(note@ == AskedNoteView::PlantSummonResult(said(seen)));
            }
            note
        },
        PlantAsk::Slaughter { tile_id } => {
            let r = ss.hackstead.take_plant(tile_id);
            let ghost seen = seen(r);
            let note = AskedNote::PlantSlaughterResult(strerr(r));
            proof {
                assert(slaughter_done(old(ss)@, ss@, tile_id, seen));
                assert(note@ == AskedNoteView::PlantSlaughterResult(said(seen)));
            }
            note
        },
        PlantAsk::KnowledgeSnort { tile_id, xp } => {
            let r = skill_unlock::knowledge_snort(ss, tile_id, xp);
            let note = AskedNote::PlantKnowledgeSnortResult(strerr(r));
            proof {
                assert(skill_unlock::snort_done(old(ss)@, ss@, tile_id, xp, r));
                assert(note@ == AskedNoteView::PlantKnowledgeSnortResult(said(r)));
            }
            note
        },
        PlantAsk::Rub { tile_id, rub_item_id } => {
            let r = rub::rub(ss, config, tile_id, rub_item_id);
            let ghost seen = rub::seen(r);
            let note = AskedNote::PlantRubStartResult(strerr(r));
            proof {
                let ids = choose|ids: Seq<EffectId>|
                    ids.len() == rub::rub_count(old(ss)@, *config, tile_id, rub_item_id)
                        && #[trigger] rub::rub_done(
                        old(ss)@,
                        ss@,
                        *config,
                        tile_id,
                        rub_item_id,
                        ids,
                        seen,
                    );
                assert(rub::rub_done(old(ss)@, ss@, *config, tile_id, rub_item_id, ids, seen));
                assert(note@ == AskedNoteView::PlantRubStartResult(said(seen)));
            }
            note
        },
        PlantAsk::Craft { tile_id, recipe_index } => AskedNote::PlantCraftStartResult(
            Err(String::from_str("unimplemented route")),
        ),
        PlantAsk::Nickname { tile_id, new_name } => {
            let ghost name = new_name@;
            let r = nickname::nickname(ss, tile_id, new_name);
            let ghost seen = nickname::seen(r);
            let note = AskedNote::PlantNicknameResult(strerr(r));
            proof {
                assert(nickname::nickname_done(old(ss)@, ss@, tile_id, name, seen));
                assert(note@ == AskedNoteView::PlantNicknameResult(said(seen)));
            }
            note
        },
        PlantAsk::SkillUnlock { tile_id, source_skill_conf, unlock_index } => {
            let r = skill_unlock::skill_unlock(ss, config, tile_id, source_skill_conf, unlock_index);
            let note = AskedNote::PlantSkillUnlockResult(strerr(r));
            proof {
                assert(skill_unlock::skill_unlock_done(
                    old(ss)@,
                    ss@,
                    *config,
                    tile_id,
                    source_skill_conf,
                    unlock_index,
                    r,
                ));
                assert(note@ == AskedNoteView::PlantSkillUnlockResult(said(r)));
            }
            note
        },
    }
}

} // verus!
