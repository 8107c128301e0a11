//! Plants, the effects rubbed onto them, and the timers that run for them.
use crate::config::{ItemConf, PlantConf, SkillConf};
use crate::hackstead::item::clone_text;
use crate::id::{EffectId, NoSuch, SteaderId, TileId};
use crate::lookup::{first, is_first, lemma_first_is, occurs};
use vstd::prelude::*;

verus! {

/// An effect that an item left on a plant.
#[derive(Clone, Copy, Debug, PartialEq, Eq, Structural)]
pub struct Effect {
    /// Which effect this is.
    pub effect_id: EffectId,
    /// The archetype of the item that was rubbed on.
    pub item_conf: ItemConf,
    /// Which of that archetype's rub effects this is.
    pub effect_index: usize,
    /// After how many ticks it wears off; `None` for a permanent one.
    pub duration: Option<u64>,
}

/// What a plant is crafting.
#[derive(Clone, Copy, Debug, PartialEq, Eq, Structural)]
pub struct Craft {
    /// Which recipe of the plant's archetype is being made.
    pub recipe_index: usize,
}

/// What a timer is for.
#[derive(Clone, Copy, Debug, PartialEq, Eq, Structural)]
pub enum TimerKind {
    /// The plant yields when it runs out.
    Yield,
    /// The plant's craft is done when it runs out.
    Craft { recipe_index: usize },
    /// An effect wears off when it runs out.
    Rub { effect_id: EffectId },
    /// It keeps a plant's pending xp.
    Xp,
}

/// What becomes of a timer that ran out.
#[derive(Clone, Copy, Debug, PartialEq, Eq, Structural)]
pub enum Lifecycle {
    /// It is removed.
    Annual,
    /// It starts over from `duration`.
    Perennial { duration: u64 },
}

/// A countdown that runs for the plant on one tile.
#[derive(Clone, Copy, Debug, PartialEq, Eq, Structural)]
pub struct Timer {
    /// The ticks left until it runs out.
    pub until_finish: u64,
    /// The tile whose plant it runs for.
    pub tile_id: TileId,
    /// What becomes of it when it runs out.
    pub lifecycle: Lifecycle,
    /// What it is for.
    pub kind: TimerKind,
}

/// A plant.
#[derive(Debug, PartialEq, Eq)]
pub struct Plant {
    /// The tile it grows on.
    pub tile_id: TileId,
    /// Who owns it.
    pub owner_id: SteaderId,
    /// Which archetype it is of.
    pub conf: PlantConf,
    /// The name its owner gave it.
    pub nickname: String,
    /// The xp it has gathered.
    pub xp: u64,
    /// The effects that are on it, oldest first.
    pub effects: Vec<Effect>,
    /// What it is crafting, if anything.
    pub craft: Option<Craft>,
    /// The skills it has unlocked, oldest first.
    pub skills: Vec<SkillConf>,
    /// The skill points it has spent.
    pub skill_points_spent: u64,
    /// How many effects were ever rubbed onto it.
    pub lifetime_rubs: usize,
}

/// What a [`Plant`] holds.
pub struct PlantView {
    pub tile_id: TileId,
    pub owner_id: SteaderId,
    pub conf: PlantConf,
    pub nickname: Seq<char>,
    pub xp: u64,
    pub effects: Seq<Effect>,
    pub craft: Option<Craft>,
    pub skills: Seq<SkillConf>,
    pub skill_points_spent: u64,
    pub lifetime_rubs: usize,
}

/// The ids of a sequence of effects, in order.
pub open spec fn effect_ids(effects: Seq<Effect>) -> Seq<EffectId> {
    Seq::new(effects.len(), |i: int| effects[i].effect_id)
}

impl PlantView {
    /// The plant with more xp, as far as the counter goes.
    pub open spec fn fed(self, xp: u64) -> PlantView {
        PlantView {
            xp: if self.xp + xp <= u64::MAX {
                (self.xp + xp) as u64
            } else {
                u64::MAX
            },
            ..self
        }
    }

    /// The plant with one more skill, paid for in skill points.
    pub open spec fn taught(self, skill: SkillConf, cost: u64) -> PlantView {
        PlantView {
            skills: self.skills.push(skill),
            skill_points_spent: if self.skill_points_spent + cost <= u64::MAX {
                (self.skill_points_spent + cost) as u64
            } else {
                u64::MAX
            },
            ..self
        }
    }

    /// Whether an effect with this id is on the plant.
    pub open spec fn has_effect(self, effect_id: EffectId) -> bool {
        occurs(effect_ids(self.effects), effect_id)
    }

    /// Where the first effect with this id stands.
    pub open spec fn effect_at(self, effect_id: EffectId) -> int {
        first(effect_ids(self.effects), effect_id)
    }

    /// The plant without the first effect with this id.
    pub open spec fn without_effect(self, effect_id: EffectId) -> PlantView {
        PlantView { effects: self.effects.remove(self.effect_at(effect_id)), ..self }
    }

    /// The plant with more effects on it, each of them counted as a rub.
    pub open spec fn rubbed(self, effects: Seq<Effect>) -> PlantView {
        PlantView {
            effects: self.effects + effects,
            lifetime_rubs: if self.lifetime_rubs + effects.len() <= usize::MAX {
                (self.lifetime_rubs + effects.len()) as usize
            } else {
                usize::MAX
            },
            ..self
        }
    }
}

impl DeepView for Plant {
    type V = PlantView;

    open spec fn deep_view(&self) -> PlantView {
        PlantView {
            tile_id: self.tile_id,
            owner_id: self.owner_id,
            conf: self.conf,
            nickname: self.nickname@,
            xp: self.xp,
            effects: self.effects@,
            craft: self.craft,
            skills: self.skills@,
            skill_points_spent: self.skill_points_spent,
            lifetime_rubs: self.lifetime_rubs,
        }
    }
}

impl View for Plant {
    type V = PlantView;

    open spec fn view(&self) -> PlantView {
        self.deep_view()
    }
}

/// Copies a list of effects.
pub fn clone_effects(effects: &Vec<Effect>) -> (copy: Vec<Effect>)
    ensures
        copy@ == effects@,
{
    let mut copy: Vec<Effect> = Vec::new();
    let mut i: usize = 0;
    while i < effects.len()
        invariant
            i <= effects.len(),
            copy@ == effects@.take(i as int),
        decreases effects.len() - i,
    {
        copy.push(effects[i]);
        proof {
            assert(effects@.take(i + 1) == effects@.take(i as int).push(effects@[i as int]));
        }
        i = i + 1;
    }
    proof {
        assert(effects@.take(i as int) == effects@);
    }
    copy
}

/// Copies a list of skills.
pub fn clone_skills(skills: &Vec<SkillConf>) -> (copy: Vec<SkillConf>)
    ensures
        copy@ == skills@,
{
    let mut copy: Vec<SkillConf> = Vec::new();
    let mut i: usize = 0;
    while i < skills.len()
        invariant
            i <= skills.len(),
            copy@ == skills@.take(i as int),
        decreases skills.len() - i,
    {
        copy.push(skills[i]);
        proof {
            assert(skills@.take(i + 1) == skills@.take(i as int).push(skills@[i as int]));
        }
        i = i + 1;
    }
    proof {
        assert(skills@.take(i as int) == skills@);
    }
    copy
}

/// Whether two lists of effects hold the same.
pub fn same_effects(a: &Vec<Effect>, b: &Vec<Effect>) -> (same: bool)
    ensures
        same == (a@ == b@),
{
    if a.len() != b.len() {
        return false;
    }
    let mut i: usize = 0;
    while i < a.len()
        invariant
            i <= a.len(),
            a.len() == b.len(),
            a@.take(i as int) == b@.take(i as int),
        decreases a.len() - i,
    {
        if a[i] != b[i] {
            proof {
                if a@ == b@ {
                    assert(a@[i as int] == b@[i as int]);
                }
            }
            return false;
        }
        proof {
            assert(a@.take(i + 1) == a@.take(i as int).push(a@[i as int]));
            assert(b@.take(i + 1) == b@.take(i as int).push(b@[i as int]));
        }
        i = i + 1;
    }
    proof {
        assert(a@.take(i as int) == a@);
        assert(b@.take(i as int) == b@);
    }
    true
}

/// Whether two lists of skills hold the same.
pub fn same_skills(a: &Vec<SkillConf>, b: &Vec<SkillConf>) -> (same: bool)
    ensures
        same == (a@ == b@),
{
    if a.len() != b.len() {
        return false;
    }
    let mut i: usize = 0;
    while i < a.len()
        invariant
            i <= a.len(),
            a.len() == b.len(),
            a@.take(i as int) == b@.take(i as int),
        decreases a.len() - i,
    {
        if a[i] != b[i] {
            proof {
                if a@ == b@ {
                    assert(a@[i as int] == b@[i as int]);
                }
            }
            return false;
        }
        proof {
            assert(a@.take(i + 1) == a@.take(i as int).push(a@[i as int]));
            assert(b@.take(i + 1) == b@.take(i as int).push(b@[i as int]));
        }
        i = i + 1;
    }
    proof {
        assert(a@.take(i as int) == a@);
        assert(b@.take(i as int) == b@);
    }
    true
}

impl Clone for Plant {
    fn clone(&self) -> (copy: Plant)
        ensures
            copy@ == self@,
    {
        Plant {
            tile_id: self.tile_id,
            owner_id: self.owner_id,
            conf: self.conf,
            nickname: clone_text(&self.nickname),
            xp: self.xp,
            effects: clone_effects(&self.effects),
            craft: self.craft,
            skills: clone_skills(&self.skills),
            skill_points_spent: self.skill_points_spent,
            lifetime_rubs: self.lifetime_rubs,
        }
    }
}

impl Plant {
    /// A new plant of the archetype `conf` on the tile `tile_id`, named `name`,
    /// with nothing on it and nothing learned.
    pub fn from_conf(owner_id: SteaderId, tile_id: TileId, conf: PlantConf, name: &String) -> (plant:
        Plant)
        ensures
            plant@ == Plant::sprout(owner_id, tile_id, conf, name@),
    {
        Plant {
            tile_id,
            owner_id,
            conf,
            nickname: clone_text(name),
            xp: 0,
            effects: Vec::new(),
            craft: None,
            skills: Vec::new(),
            skill_points_spent: 0,
            lifetime_rubs: 0,
        }
    }

    /// What [`Plant::from_conf`] makes.
    pub open spec fn sprout(
        owner_id: SteaderId,
        tile_id: TileId,
        conf: PlantConf,
        name: Seq<char>,
    ) -> PlantView {
        PlantView {
            tile_id,
            owner_id,
            conf,
            nickname: name,
            xp: 0,
            effects: Seq::empty(),
            craft: None,
            skills: Seq::empty(),
            skill_points_spent: 0,
            lifetime_rubs: 0,
        }
    }

    /// Whether two plants hold the same.
    pub fn same(&self, other: &Plant) -> (b: bool)
        ensures
            b == (self@ == other@),
    {
        self.tile_id == other.tile_id && self.owner_id == other.owner_id && self.conf == other.conf
            && self.nickname == other.nickname && self.xp == other.xp && same_effects(
            &self.effects,
            &other.effects,
        ) && self.craft == other.craft && same_skills(&self.skills, &other.skills)
            && self.skill_points_spent == other.skill_points_spent && self.lifetime_rubs
            == other.lifetime_rubs
    }

    /// Puts more effects on the plant, and counts each of them as a rub.
    pub fn rub(&mut self, effects: &Vec<Effect>)
        ensures
            final(self)@ == old(self)@.rubbed(effects@),
    {
        let mut i: usize = 0;
        while i < effects.len()
            invariant
                i <= effects.len(),
                self@ == (PlantView {
                    effects: old(self)@.effects + effects@.take(i as int),
                    ..old(self)@
                }),
            decreases effects.len() - i,
        {
            self.effects.push(effects[i]);
            proof {
                assert((old(self)@.effects + effects@.take(i as int)).push(effects@[i as int])
                    =~= old(self)@.effects + effects@.take(i + 1));
            }
            i = i + 1;
        }
        proof {
            assert(effects@.take(i as int) =~= effects@);
        }
        self.lifetime_rubs = if self.lifetime_rubs <= usize::MAX - effects.len() {
            self.lifetime_rubs + effects.len()
        } else {
            usize::MAX
        };
    }

    /// Takes the first effect with the given id off the plant.
    ///
    /// Fails with [`NoSuch::Effect`], and leaves the plant as it was, exactly
    /// where no effect on the plant has that id.
    pub fn take_rub_effect(&mut self, effect_id: EffectId) -> (taken: Result<Effect, NoSuch>)
        ensures
            match taken {
                Ok(effect) => {
                    &&& old(self)@.has_effect(effect_id)
                    &&& effect == old(self)@.effects[old(self)@.effect_at(effect_id)]
                    &&& effect.effect_id == effect_id
                    &&& final(self)@ == old(self)@.without_effect(effect_id)
                },
                Err(e) => {
                    &&& !old(self)@.has_effect(effect_id)
                    &&& e == NoSuch::Effect(old(self).tile_id, effect_id)
                    &&& final(self)@ == old(self)@
                },
            },
    {
        let mut i: usize = 0;
        while i < self.effects.len()
            invariant
                i <= self.effects.len(),
                *self == *old(self),
                forall|j: int| 0 <= j < i ==> self.effects@[j].effect_id != effect_id,
            decreases self.effects.len() - i,
        {
            if self.effects[i].effect_id == effect_id {
                proof {
                    assert(is_first(effect_ids(self@.effects), effect_id, i as int));
                    lemma_first_is(effect_ids(self@.effects), effect_id, i as int);
                }
                let effect = self.effects.remove(i);
                return Ok(effect);
            }
            i = i + 1;
        }
        proof {
            if occurs(effect_ids(self@.effects), effect_id) {
                let w = choose|w: int|
                    0 <= w < effect_ids(self@.effects).len() && effect_ids(self@.effects)[w]
                        == effect_id;
                assert(self.effects@[w].effect_id == effect_id);
            }
        }
        Err(NoSuch::Effect(self.tile_id, effect_id))
    }
}

} // verus!
