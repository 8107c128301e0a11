//! The rule tables: what each archetype of item and plant can do.
//!
//! A [`Config`] is read-only. Items and plants refer to their archetype by a
//! handle, which is a position in one of its tables.
use crate::hackstead::item::{Acquisition, Item, ItemView};
use crate::id::{ItemId, SteaderId};
use vstd::prelude::*;

verus! {

/// Refers to an item archetype: a position in [`Config::items`].
#[derive(Clone, Copy, Debug, PartialEq, Eq, Structural, Hash)]
pub struct ItemConf(pub usize);

/// Refers to a plant archetype: a position in [`Config::plants`].
#[derive(Clone, Copy, Debug, PartialEq, Eq, Structural, Hash)]
pub struct PlantConf(pub usize);

/// Refers to a skill of a plant archetype: a position in [`PlantArchetype::skills`].
#[derive(Clone, Copy, Debug, PartialEq, Eq, Structural, Hash)]
pub struct SkillConf(pub usize);

/// How an item unlocks land.
#[derive(Clone, Copy, Debug, PartialEq, Eq, Structural)]
pub struct LandUnlock {
    /// Whether the owner's xp must allow for another tile.
    pub requires_xp: bool,
}

/// One effect that an item imparts when rubbed onto a plant.
#[derive(Debug)]
pub struct RubEffectConf {
    /// The plant species on which the effect takes.
    pub for_plants: Vec<PlantConf>,
    /// After how many ticks the effect wears off; `None` for a permanent one.
    pub duration: Option<u64>,
}

/// One row of a hatch table.
#[derive(Debug)]
pub struct HatchEntry {
    /// The share of this row in a draw, against the sum of all weights.
    pub weight: u32,
    /// What hatches when this row is drawn.
    pub items: Vec<ItemConf>,
}

/// An item archetype.
#[derive(Debug)]
pub struct ItemArchetype {
    /// The name shown to users.
    pub name: String,
    /// Whether items of this kind are gotchi, which carry a nickname.
    pub gotchi: bool,
    /// What items of this kind hatch into, if they hatch.
    pub hatch_table: Option<Vec<HatchEntry>>,
    /// How items of this kind unlock land, if they do.
    pub unlocks_land: Option<LandUnlock>,
    /// The plant that items of this kind grow into, if they are seeds.
    pub grows_into: Option<PlantConf>,
    /// The effects that items of this kind impart when rubbed onto plants.
    pub plant_rub_effects: Vec<RubEffectConf>,
}

/// One skill that a learned skill gives access to.
#[derive(Clone, Copy, Debug, PartialEq, Eq, Structural)]
pub struct SkillUnlock {
    /// The skill that is unlocked.
    pub skill: SkillConf,
    /// The skill points it costs.
    pub cost: u64,
}

/// A skill of a plant archetype.
#[derive(Debug)]
pub struct SkillArchetype {
    /// The name shown to users.
    pub name: String,
    /// The skills that can be unlocked from this one.
    pub unlocks: Vec<SkillUnlock>,
}

/// A plant archetype.
#[derive(Debug)]
pub struct PlantArchetype {
    /// The name shown to users, and the first nickname of each plant.
    pub name: String,
    /// The ticks between two yields; `None` for a plant that never yields.
    pub base_yield_duration: Option<u64>,
    /// The skills of this species.
    pub skills: Vec<SkillArchetype>,
    /// The xp at which a plant of this species earns each of its skill points.
    pub skillpoint_xps: Vec<u64>,
}

/// The rule tables.
#[derive(Debug)]
pub struct Config {
    /// The item archetypes, by handle.
    pub items: Vec<ItemArchetype>,
    /// The plant archetypes, by handle.
    pub plants: Vec<PlantArchetype>,
    /// The xp at which a user becomes eligible for each further tile of land.
    pub land_xps: Vec<u64>,
}

impl Config {
    /// The item archetype behind a handle, if the handle resolves.
    pub open spec fn item_spec(&self, conf: ItemConf) -> Option<ItemArchetype> {
        if conf.0 < self.items@.len() {
            Some(self.items@[conf.0 as int])
        } else {
            None
        }
    }

    /// The plant archetype behind a handle, if the handle resolves.
    pub open spec fn plant_spec(&self, conf: PlantConf) -> Option<PlantArchetype> {
        if conf.0 < self.plants@.len() {
            Some(self.plants@[conf.0 as int])
        } else {
            None
        }
    }

    /// Looks an item archetype up by its handle.
    pub fn item(&self, conf: ItemConf) -> (found: Option<&ItemArchetype>)
        ensures
            match found {
                Some(a) => self.item_spec(conf) == Some(*a),
                None => self.item_spec(conf) is None,
            },
    {
        if conf.0 < self.items.len() {
            Some(&self.items[conf.0])
        } else {
            None
        }
    }

    /// The item that [`Config::make_item`] makes: one of the archetype behind
    /// `conf`, a gotchi with the archetype's name where the archetype says so;
    /// where the handle does not resolve, an item that is no gotchi.
    pub open spec fn made_item(
        &self,
        item_id: ItemId,
        conf: ItemConf,
        owner_id: SteaderId,
        acquisition: Acquisition,
    ) -> ItemView {
        match self.item_spec(conf) {
            Some(a) => Item::made(item_id, conf, owner_id, acquisition, a.gotchi, a.name@),
            None => Item::made(item_id, conf, owner_id, acquisition, false, Seq::empty()),
        }
    }

    /// Makes a new item of an archetype for an owner.
    pub fn make_item(
        &self,
        item_id: ItemId,
        conf: ItemConf,
        owner_id: SteaderId,
        acquisition: Acquisition,
    ) -> (item: Item)
        ensures
            item@ == self.made_item(item_id, conf, owner_id, acquisition),
            item@.wf(),
            item@.item_id == item_id,
            item@.owner_id == owner_id,
    {
        match self.item(conf) {
            Some(a) => Item::from_conf(item_id, conf, owner_id, acquisition, a.gotchi, &a.name),
            None => Item::from_conf(item_id, conf, owner_id, acquisition, false, &String::new()),
        }
    }

    /// Looks a plant archetype up by its handle.
    pub fn plant(&self, conf: PlantConf) -> (found: Option<&PlantArchetype>)
        ensures
            match found {
                Some(a) => self.plant_spec(conf) == Some(*a),
                None => self.plant_spec(conf) is None,
            },
    {
        if conf.0 < self.plants.len() {
            Some(&self.plants[conf.0])
        } else {
            None
        }
    }
}

/// How many of the thresholds `xps` an amount of xp has reached.
pub open spec fn reached(xps: Seq<u64>, xp: u64) -> nat
    decreases xps.len(),
{
    if xps.len() == 0 {
        0
    } else {
        reached(xps.drop_last(), xp) + if xps.last() <= xp { 1nat } else { 0nat }
    }
}

/// Counts the thresholds that an amount of xp has reached.
pub fn count_reached(xps: &Vec<u64>, xp: u64) -> (n: usize)
    ensures
        n == reached(xps@, xp),
{
    let mut n: usize = 0;
    let mut i: usize = 0;
    while i < xps.len()
        invariant
            i <= xps.len(),
            n <= i,
            n == reached(xps@.take(i as int), xp),
        decreases xps.len() - i,
    {
        proof {
            assert(xps@.take(i + 1).drop_last() == xps@.take(i as int));
        }
        if xps[i] <= xp {
            n = n + 1;
        }
        i = i + 1;
    }
    proof {
        assert(xps@.take(i as int) == xps@);
    }
    n
}

} // verus!
