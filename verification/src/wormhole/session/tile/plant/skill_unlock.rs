//! Having a plant learn a skill.
//!
//! A plant earns a skill point at each of the xp marks of its archetype, and
//! spends points on the skills it unlocks.
use crate::config::{count_reached, reached, Config, PlantConf, SkillConf, SkillUnlock};
use crate::hackstead::{lemma_tile_found, lemma_with_plant_wf};
use crate::id::{NoSuch, TileId};
use crate::text::{decimal, decimal_text, Complaint};
use crate::wormhole::session::{SessSend, SessSendView};
use vstd::prelude::*;
use vstd::string::*;

verus! {

/// Why a plant could not learn a skill.
#[derive(Clone, Copy, Debug, PartialEq, Eq, Structural)]
pub enum Error {
    /// The tile is not there, or nothing grows on it.
    NoSuch(NoSuch),
    /// Plants of this archetype have no such skill.
    NoSkill(PlantConf, SkillConf),
    /// The skill unlocks nothing at this place.
    NoUnlock(PlantConf, SkillConf, usize),
    /// So many skill points are missing.
    NoAfford(u64),
}

impl Complaint for Error {
    open spec fn complaint(&self) -> Seq<char> {
        match *self {
            Error::NoSuch(e) => "couldn't unlock skill for plant: "@ + e.complaint(),
            Error::NoSkill(plant, skill) =>
                "couldn't unlock skill for plant: there's no valid skill with the conf "@
                    + decimal_text(skill.0 as nat) + " on this ["@ + decimal_text(plant.0 as nat)
                    + "] plant."@,
            Error::NoUnlock(plant, skill, index) =>
                "couldn't unlock skill for plant: there's no valid unlock at the index "@
                    + decimal_text(index as nat) + " on the skill conf "@ + decimal_text(
                    skill.0 as nat,
                ) + " on this ["@ + decimal_text(plant.0 as nat) + "] plant."@,
            Error::NoAfford(n) => "couldn't unlock skill for plant: You need "@ + decimal_text(
                n as nat,
            ) + " more skillpoints to unlock this skill"@,
        }
    }

    fn message(&self) -> (text: String) {
        match self {
            Error::NoSuch(e) => {
                let mut text = String::from_str("couldn't unlock skill for plant: ");
                text.append(e.message().as_str());
                text
            },
            Error::NoSkill(plant, skill) => {
                let mut text = String::from_str(
                    "couldn't unlock skill for plant: there's no valid skill with the conf ",
                );
                text.append(decimal(skill.0 as u64).as_str());
                text.append(" on this [");
                text.append(decimal(plant.0 as u64).as_str());
                text.append("] plant.");
                text
            },
            Error::NoUnlock(plant, skill, index) => {
                let mut text = String::from_str(
                    "couldn't unlock skill for plant: there's no valid unlock at the index ",
                );
                text.append(decimal(*index as u64).as_str());
                text.append(" on the skill conf ");
                text.append(decimal(skill.0 as u64).as_str());
                text.append(" on this [");
                text.append(decimal(plant.0 as u64).as_str());
                text.append("] plant.");
                text
            },
            Error::NoAfford(n) => {
                let mut text = String::from_str("couldn't unlock skill for plant: You need ");
                text.append(decimal(*n).as_str());
                text.append(" more skillpoints to unlock this skill");
                text
            },
        }
    }
}

/// The unlocks of a skill of a plant archetype, where the rules know both.
pub open spec fn unlocks_of(config: Config, plant: PlantConf, skill: SkillConf) -> Option<Seq<SkillUnlock>> {
    match config.plant_spec(plant) {
        Some(a) => if skill.0 < a.skills@.len() {
            Some(a.skills@[skill.0 as int].unlocks@)
        } else {
            None
        },
        None => None,
    }
}

/// The skill points that a plant of an archetype has left at `xp` after
/// spending `spent`.
pub open spec fn available_points(config: Config, plant: PlantConf, xp: u64, spent: u64) -> nat {
    match config.plant_spec(plant) {
        Some(a) => {
            let earned = reached(a.skillpoint_xps@, xp);
            if earned >= spent {
                (earned - spent) as nat
            } else {
                0
            }
        },
        None => 0,
    }
}

/// What unlocking a skill does. Where a plant grows on the tile, its archetype
/// has the skill, the skill has the unlock, and the plant can afford it, the
/// plant has the new skill and has paid for it, and the points it has left are
/// handed out; else nothing changes.
pub open spec fn skill_unlock_done(
    before: SessSendView,
    after: SessSendView,
    config: Config,
    tile_id: TileId,
    source_skill: SkillConf,
    unlock_index: usize,
    result: Result<u64, Error>,
) -> bool {
    let hs = before.hackstead;
    if !hs.has_plant(tile_id) {
        result == Err::<u64, Error>(Error::NoSuch(hs.no_plant(tile_id))) && after == before
    } else {
        let plant = hs.plant(tile_id);
        match unlocks_of(config, plant.conf, source_skill) {
            None => result == Err::<u64, Error>(Error::NoSkill(plant.conf, source_skill)) && after
                == before,
            Some(unlocks) => if unlock_index >= unlocks.len() {
                result == Err::<u64, Error>(
                    Error::NoUnlock(plant.conf, source_skill, unlock_index),
                ) && after == before
            } else {
                let unlock = unlocks[unlock_index as int];
                let available = available_points(
                    config,
                    plant.conf,
                    plant.xp,
                    plant.skill_points_spent,
                );
                if available < unlock.cost {
                    result == Err::<u64, Error>(Error::NoAfford((unlock.cost - available) as u64))
                        && after == before
                } else {
                    result == Ok::<u64, Error>((available - unlock.cost) as u64) && after
                        == before.with_hackstead(
                        hs.with_plant(tile_id, Some(plant.taught(unlock.skill, unlock.cost))),
                    )
                }
            },
        }
    }
}

/// Unlocking a skill leaves a sound hackstead sound.
pub proof fn lemma_skill_unlock_keeps_wf(
    before: SessSendView,
    after: SessSendView,
    config: Config,
    tile_id: TileId,
    source_skill: SkillConf,
    unlock_index: usize,
    result: Result<u64, Error>,
)
    requires
        skill_unlock_done(before, after, config, tile_id, source_skill, unlock_index, result),
        before.hackstead.wf(),
    ensures
        after.hackstead.wf(),
{
    let hs = before.hackstead;
    if result is Ok {
        lemma_tile_found(hs, tile_id);
        assert(hs.tile(tile_id).wf());
        let unlock = unlocks_of(config, hs.plant(tile_id).conf, source_skill)->0[unlock_index as int];
        lemma_with_plant_wf(
            hs,
            tile_id,
            Some(hs.plant(tile_id).taught(unlock.skill, unlock.cost)),
        );
    }
}

/// A plant's knowledge snort leaves a sound hackstead sound.
pub proof fn lemma_snort_keeps_wf(
    before: SessSendView,
    after: SessSendView,
    tile_id: TileId,
    xp: u64,
    result: Result<u64, NoSuch>,
)
    requires
        snort_done(before, after, tile_id, xp, result),
        before.hackstead.wf(),
    ensures
        after.hackstead.wf(),
{
    let hs = before.hackstead;
    if result is Ok {
        lemma_tile_found(hs, tile_id);
        assert(hs.tile(tile_id).wf());
        lemma_with_plant_wf(hs, tile_id, Some(hs.plant(tile_id).fed(xp)));
    }
}

/// Has the plant on the tile with the given id learn what the skill
/// `source_skill` unlocks at `unlock_index`, and hands out how many skill points
/// the plant has left.
///
/// Fails with [`NoSuch::Tile`] or [`NoSuch::Plant`] where no plant grows on the
/// tile, with [`Error::NoSkill`] where its archetype has no such skill, with
/// [`Error::NoUnlock`] where the skill has no such unlock, and with
/// [`Error::NoAfford`] where the plant has too few points left, by as many as
/// the error says; nothing changes then.
pub fn skill_unlock(
    ss: &mut SessSend,
    config: &Config,
    tile_id: TileId,
    source_skill: SkillConf,
    unlock_index: usize,
) -> (r: Result<u64, Error>)
    ensures
        skill_unlock_done(
            old(ss)@,
            final(ss)@,
            *config,
            tile_id,
            source_skill,
            unlock_index,
            r,
        ),
{
    let (plant_conf, xp, spent) = match ss.hackstead.plant(tile_id) {
        Ok(plant) => (plant.conf, plant.xp, plant.skill_points_spent),
        Err(e) => {
            return Err(Error::NoSuch(e));
        },
    };
    let archetype = match config.plant(plant_conf) {
        Some(a) => a,
        None => {
            return Err(Error::NoSkill(plant_conf, source_skill));
        },
    };
    if source_skill.0 >= archetype.skills.len() {
        return Err(Error::NoSkill(plant_conf, source_skill));
    }
    let unlocks = &archetype.skills[source_skill.0].unlocks;
    if unlock_index >= unlocks.len() {
        return Err(Error::NoUnlock(plant_conf, source_skill, unlock_index));
    }
    let unlock = unlocks[unlock_index];
    let earned = count_reached(&archetype.skillpoint_xps, xp) as u64;
    let available = if earned >= spent {
        earned - spent
    } else {
        0
    };
    if available < unlock.cost {
        return Err(Error::NoAfford(unlock.cost - available));
    }
    match ss.hackstead.plant_mut(tile_id) {
        Ok(plant) => {
            plant.skills.push(unlock.skill);
            plant.skill_points_spent = if plant.skill_points_spent <= u64::MAX - unlock.cost {
                plant.skill_points_spent + unlock.cost
            } else {
                u64::MAX
            };
        },
        Err(_) => {},
    }
    Ok(available - unlock.cost)
}

/// What a plant's knowledge snort does. Where a plant grows on the tile, it
/// has so much more xp, as far as the counter goes, and its xp is handed out;
/// else nothing changes.
pub open spec fn snort_done(
    before: SessSendView,
    after: SessSendView,
    tile_id: TileId,
    xp: u64,
    result: Result<u64, NoSuch>,
) -> bool {
    let hs = before.hackstead;
    if hs.has_plant(tile_id) {
        let plant = hs.plant(tile_id).fed(xp);
        result == Ok::<u64, NoSuch>(plant.xp) && after == before.with_hackstead(
            hs.with_plant(tile_id, Some(plant)),
        )
    } else {
        result == Err::<u64, NoSuch>(hs.no_plant(tile_id)) && after == before
    }
}

/// Gives the plant on the tile with the given id xp, and hands out how much it
/// has then.
///
/// Fails with [`NoSuch::Tile`] or [`NoSuch::Plant`] where no plant grows on the
/// tile; nothing changes then.
pub fn knowledge_snort(ss: &mut SessSend, tile_id: TileId, xp: u64) -> (r: Result<u64, NoSuch>)
    ensures
        snort_done(old(ss)@, final(ss)@, tile_id, xp, r),
{
    match ss.hackstead.plant_mut(tile_id) {
        Ok(plant) => {
            let total = if plant.xp <= u64::MAX - xp {
                plant.xp + xp
            } else {
                u64::MAX
            };
            plant.xp = total;
            Ok(total)
        },
        Err(e) => Err(e),
    }
}

} // verus!
