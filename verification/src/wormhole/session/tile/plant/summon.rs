//! Planting a seed on a tile.
use crate::config::{Config, ItemConf, PlantArchetype, PlantConf};
use crate::hackstead::plant::{Lifecycle, Plant, PlantView, Timer, TimerKind};
use crate::hackstead::{lemma_with_plant_wf, lemma_without_item_wf};
use crate::id::{ItemId, NoSuch, TileId};
use crate::text::{decimal, decimal_text, Complaint};
use crate::wormhole::session::{SessSend, SessSendView};
use vstd::prelude::*;
use vstd::string::*;

verus! {

/// Why no plant was made from a seed.
#[derive(Clone, Copy, Debug, PartialEq, Eq, Structural)]
pub enum Error {
    /// The seed or the tile is not there.
    NoSuch(NoSuch),
    /// Items of this archetype are no seeds.
    NotConfigured(ItemId, ItemConf),
    /// A plant of this archetype grows on the tile already.
    AlreadyOccupied(TileId, PlantConf),
}

impl Complaint for Error {
    open spec fn complaint(&self) -> Seq<char> {
        match *self {
            Error::NoSuch(e) => "couldn't make new plant from seed: "@ + e.complaint(),
            Error::NotConfigured(item_id, conf) => "couldn't make new plant from seed: item "@
                + crate::id::hyphenated(item_id.0) + "["@ + decimal_text(conf.0 as nat)
                + "] is not configured to be used as a seed"@,
            Error::AlreadyOccupied(tile_id, conf) => "couldn't make new plant from seed: tile "@
                + crate::id::hyphenated(tile_id.0) + " is already occupied by a ["@ + decimal_text(
                conf.0 as nat,
            ) + "] plant."@,
        }
    }

    fn message(&self) -> (text: String) {
        match self {
            Error::NoSuch(e) => {
                let mut text = String::from_str("couldn't make new plant from seed: ");
                text.append(e.message().as_str());
                text
            },
            Error::NotConfigured(item_id, conf) => {
                let mut text = String::from_str("couldn't make new plant from seed: item ");
                text.append(item_id.text().as_str());
                text.append("[");
                text.append(decimal(conf.0 as u64).as_str());
                text.append("] is not configured to be used as a seed");
                text
            },
            Error::AlreadyOccupied(tile_id, conf) => {
                let mut text = String::from_str("couldn't make new plant from seed: tile ");
                text.append(tile_id.text().as_str());
                text.append(" is already occupied by a [");
                text.append(decimal(conf.0 as u64).as_str());
                text.append("] plant.");
                text
            },
        }
    }
}

/// The plant archetype that items of an archetype grow into, where they are
/// seeds of a plant that the rules know.
pub open spec fn grows_into(config: Config, conf: ItemConf) -> Option<PlantConf> {
    match config.item_spec(conf) {
        Some(a) => match a.grows_into {
            Some(p) => if config.plant_spec(p) is Some {
                Some(p)
            } else {
                None
            },
            None => None,
        },
        None => None,
    }
}

/// The timer that makes a new plant yield, where its archetype yields.
pub open spec fn yield_timers(archetype: PlantArchetype, tile_id: TileId) -> Seq<Timer> {
    match archetype.base_yield_duration {
        Some(duration) => seq![
            Timer {
                until_finish: duration,
                tile_id,
                lifecycle: Lifecycle::Perennial { duration },
                kind: TimerKind::Yield,
            },
        ],
        None => Seq::empty(),
    }
}

/// What a result with a plant holds.
pub open spec fn seen(r: Result<Plant, Error>) -> Result<PlantView, Error> {
    match r {
        Ok(p) => Ok(p@),
        Err(e) => Err(e),
    }
}

/// What planting a seed does. Where the seed is there and is a seed, and the
/// tile is there and empty, the seed leaves the inventory, the new plant grows
/// on the tile and is handed out, and its yield timer is to be started; else
/// nothing changes.
pub open spec fn summon_done(
    before: SessSendView,
    after: SessSendView,
    config: Config,
    tile_id: TileId,
    item_id: ItemId,
    result: Result<PlantView, Error>,
) -> bool {
    let hs = before.hackstead;
    if !hs.has_item(item_id) {
        result == Err::<PlantView, Error>(Error::NoSuch(NoSuch::Item(item_id))) && after == before
    } else if grows_into(config, hs.item(item_id).conf) is None {
        result == Err::<PlantView, Error>(Error::NotConfigured(item_id, hs.item(item_id).conf))
            && after == before
    } else if !hs.has_tile(tile_id) {
        result == Err::<PlantView, Error>(Error::NoSuch(NoSuch::Tile(tile_id))) && after == before
    } else if hs.tile(tile_id).plant is Some {
        result == Err::<PlantView, Error>(Error::AlreadyOccupied(tile_id, hs.plant(tile_id).conf))
            && after == before
    } else {
        let conf = grows_into(config, hs.item(item_id).conf)->0;
        let archetype = config.plant_spec(conf)->0;
        let plant = Plant::sprout(hs.item(item_id).owner_id, tile_id, conf, archetype.name@);
        result == Ok::<PlantView, Error>(plant) && after == before.with_hackstead(
            hs.without_item(item_id).with_plant(tile_id, Some(plant)),
        ).with_timers(yield_timers(archetype, tile_id))
    }
}

/// Planting a seed leaves a sound hackstead sound.
pub proof fn lemma_summon_keeps_wf(
    before: SessSendView,
    after: SessSendView,
    config: Config,
    tile_id: TileId,
    item_id: ItemId,
    result: Result<PlantView, Error>,
)
    requires
        summon_done(before, after, config, tile_id, item_id, result),
        before.hackstead.wf(),
    ensures
        after.hackstead.wf(),
{
    let hs = before.hackstead;
    if result is Ok {
        lemma_without_item_wf(hs, item_id);
        lemma_with_plant_wf(hs.without_item(item_id), tile_id, Some(result->Ok_0));
    }
}

/// Plants the seed with the id `item_id` on the tile with the id `tile_id`.
///
/// Fails with [`NoSuch::Item`] where no item has that id, with
/// [`Error::NotConfigured`] where items of its archetype are no seeds, with
/// [`NoSuch::Tile`] where no tile has that id, and with
/// [`Error::AlreadyOccupied`] where a plant grows there; nothing changes then,
/// and the seed stays.
pub fn summon(ss: &mut SessSend, config: &Config, tile_id: TileId, item_id: ItemId) -> (r: Result<
    Plant,
    Error,
>)
    ensures
        summon_done(old(ss)@, final(ss)@, *config, tile_id, item_id, seen(r)),
{
    let (item_conf, owner) = match ss.hackstead.item(item_id) {
        Ok(item) => (item.conf, item.owner_id),
        Err(e) => {
            return Err(Error::NoSuch(e));
        },
    };
    let conf = match config.item(item_conf) {
        Some(a) => match a.grows_into {
            Some(conf) => conf,
            None => {
                return Err(Error::NotConfigured(item_id, item_conf));
            },
        },
        None => {
            return Err(Error::NotConfigured(item_id, item_conf));
        },
    };
    let archetype = match config.plant(conf) {
        Some(archetype) => archetype,
        None => {
            return Err(Error::NotConfigured(item_id, item_conf));
        },
    };
    match ss.hackstead.tile(tile_id) {
        Ok(tile) => match &tile.plant {
            Some(plant) => {
                return Err(Error::AlreadyOccupied(tile_id, plant.conf));
            },
            None => {},
        },
        Err(e) => {
            return Err(Error::NoSuch(e));
        },
    }
    let plant = Plant::from_conf(owner, tile_id, conf, &archetype.name);
    let _seed = ss.hackstead.take_item(item_id);
    let _bare = ss.hackstead.set_plant(tile_id, Some(plant.clone()));
    match archetype.base_yield_duration {
        Some(duration) => {
            ss.set_timer(
                Timer {
                    until_finish: duration,
                    tile_id,
                    lifecycle: Lifecycle::Perennial { duration },
                    kind: TimerKind::Yield,
                },
            );
        },
        None => {
            proof {
                assert(ss.pending_timers@ + Seq::<Timer>::empty() =~= ss.pending_timers@);
            }
        },
    }
    Ok(plant)
}

} // verus!
