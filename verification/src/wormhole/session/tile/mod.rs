//! Redeeming an item for a new tile of land.
use crate::config::{count_reached, Config, ItemConf, LandUnlock};
use crate::hackstead::tile::{Tile, TileView};
use crate::hackstead::{lemma_with_tile_wf, lemma_without_item_wf, HacksteadView, ProfileView};
use crate::id::{ItemId, NoSuch, TileId};
use crate::text::{decimal, decimal_text, Complaint};
use crate::wormhole::session::{SessSend, SessSendView};
use vstd::prelude::*;
use vstd::string::*;

pub mod plant;

verus! {

/// Why no new tile was provided.
#[derive(Clone, Copy, Debug, PartialEq, Eq, Structural)]
pub enum Error {
    /// The item is not there.
    NoSuch(NoSuch),
    /// Items of this archetype do not unlock land.
    NotConfigured(ItemId, ItemConf),
    /// The user may not hold more land.
    Ineligible,
}

impl Complaint for Error {
    open spec fn complaint(&self) -> Seq<char> {
        match *self {
            Error::NoSuch(e) => "couldn't provide new tile: "@ + e.complaint(),
            Error::NotConfigured(item_id, conf) => "couldn't provide new tile: item "@
                + crate::id::hyphenated(item_id.0) + "["@ + decimal_text(conf.0 as nat)
                + "] is not configured to unlock land"@,
            Error::Ineligible =>
                "couldn't provide new tile: you aren't eligible to unlock more land."@,
        }
    }

    fn message(&self) -> (text: String) {
        match self {
            Error::NoSuch(e) => {
                let mut text = String::from_str("couldn't provide new tile: ");
                text.append(e.message().as_str());
                text
            },
            Error::NotConfigured(item_id, conf) => {
                let mut text = String::from_str("couldn't provide new tile: item ");
                text.append(item_id.text().as_str());
                text.append("[");
                text.append(decimal(conf.0 as u64).as_str());
                text.append("] is not configured to unlock land");
                text
            },
            Error::Ineligible => String::from_str(
                "couldn't provide new tile: you aren't eligible to unlock more land.",
            ),
        }
    }
}

/// How items of an archetype unlock land, where they do.
pub open spec fn land_unlock(config: Config, conf: ItemConf) -> Option<LandUnlock> {
    match config.item_spec(conf) {
        Some(a) => a.unlocks_land,
        None => None,
    }
}

/// The profile once an item with the given rule is redeemed: an item that asks
/// for no xp brings its own plot.
pub open spec fn with_unlock(profile: ProfileView, unlock: LandUnlock) -> ProfileView {
    if unlock.requires_xp || profile.extra_land_plot_count == u64::MAX {
        profile
    } else {
        ProfileView {
            extra_land_plot_count: (profile.extra_land_plot_count + 1) as u64,
            ..profile
        }
    }
}

/// What a result with a tile holds.
pub open spec fn seen(r: Result<Tile, Error>) -> Result<TileView, Error> {
    match r {
        Ok(t) => Ok(t@),
        Err(e) => Err(e),
    }
}

/// What redeeming an item for a tile does, the tile's id and the time being
/// given. Where the item is there, unlocks land, and the user is eligible once
/// its plot is counted, the item leaves the inventory and a new, empty tile
/// stands at the end of the land and is handed out; else nothing changes.
pub open spec fn summon_done(
    before: SessSendView,
    after: SessSendView,
    config: Config,
    item_id: ItemId,
    tile_id: TileId,
    now: u64,
    result: Result<TileView, Error>,
) -> bool {
    let hs = before.hackstead;
    if !hs.has_item(item_id) {
        result == Err::<TileView, Error>(Error::NoSuch(NoSuch::Item(item_id))) && after == before
    } else {
        match land_unlock(config, hs.item(item_id).conf) {
            None => result == Err::<TileView, Error>(
                Error::NotConfigured(item_id, hs.item(item_id).conf),
            ) && after == before,
            Some(unlock) => {
                let unlocked = HacksteadView { profile: with_unlock(hs.profile, unlock), ..hs };
                if unlocked.land_unlock_eligible(config) {
                    let tile = Tile::cleared(hs.profile.steader_id, tile_id, now);
                    result == Ok::<TileView, Error>(tile) && after == before.with_hackstead(
                        unlocked.without_item(item_id).with_tile(tile),
                    )
                } else {
                    result == Err::<TileView, Error>(Error::Ineligible) && after == before
                }
            },
        }
    }
}

/// Redeeming an item for a tile leaves a sound hackstead sound, where no tile of
/// the land has the id of the new tile.
pub proof fn lemma_summon_keeps_wf(
    before: SessSendView,
    after: SessSendView,
    config: Config,
    item_id: ItemId,
    tile_id: TileId,
    now: u64,
    result: Result<TileView, Error>,
)
    requires
        summon_done(before, after, config, item_id, tile_id, now, result),
        before.hackstead.wf(),
        !before.hackstead.has_tile(tile_id),
    ensures
        after.hackstead.wf(),
{
    let hs = before.hackstead;
    if result is Ok {
        let unlock = land_unlock(config, hs.item(item_id).conf)->0;
        let unlocked = HacksteadView { profile: with_unlock(hs.profile, unlock), ..hs };
        assert(unlocked.wf());
        lemma_without_item_wf(unlocked, item_id);
        lemma_with_tile_wf(
            unlocked.without_item(item_id),
            Tile::cleared(hs.profile.steader_id, tile_id, now),
        );
    }
}

/// Redeems the item with the given id for a new tile with the id `tile_id`,
/// acquired at the time `now`.
///
/// Fails with [`NoSuch::Item`] where no item has that id, with
/// [`Error::NotConfigured`] where items of its archetype do not unlock land, and
/// with [`Error::Ineligible`] where the user may not hold more land; nothing
/// changes then, and the item stays.
pub fn summon_with(ss: &mut SessSend, config: &Config, item_id: ItemId, tile_id: TileId, now: u64) -> (r:
    Result<Tile, Error>)
    ensures
        summon_done(old(ss)@, final(ss)@, *config, item_id, tile_id, now, seen(r)),
{
    let conf = match ss.hackstead.item(item_id) {
        Ok(item) => item.conf,
        Err(e) => {
            return Err(Error::NoSuch(e));
        },
    };
    let unlock = match config.item(conf) {
        Some(a) => match a.unlocks_land {
            Some(unlock) => unlock,
            None => {
                return Err(Error::NotConfigured(item_id, conf));
            },
        },
        None => {
            return Err(Error::NotConfigured(item_id, conf));
        },
    };
    let extra = ss.hackstead.profile.extra_land_plot_count;
    let extra = if unlock.requires_xp || extra == u64::MAX {
        extra
    } else {
        extra + 1
    };
    let by_xp = count_reached(&config.land_xps, ss.hackstead.profile.xp);
    let land = ss.hackstead.land.len();
    let eligible = if land < by_xp {
        true
    } else {
        ((land - by_xp) as u64) < extra
    };
    if !eligible {
        return Err(Error::Ineligible);
    }
    ss.hackstead.profile.extra_land_plot_count = extra;
    let _redeemed = ss.hackstead.take_item(item_id);
    let tile = Tile::new(ss.hackstead.profile.steader_id, tile_id, now);
    ss.hackstead.give_tile(tile.clone());
    Ok(tile)
}

/// Redeems the item with the given id for a new tile, acquired at the time
/// `now`, under an id drawn at random.
///
/// Fails with [`NoSuch::Item`] where no item has that id, with
/// [`Error::NotConfigured`] where items of its archetype do not unlock land, and
/// with [`Error::Ineligible`] where the user may not hold more land; nothing
/// changes then, and the item stays.
pub fn summon(ss: &mut SessSend, config: &Config, item_id: ItemId, now: u64) -> (r: Result<
    Tile,
    Error,
>)
    ensures
        exists|tile_id: TileId| #[trigger]
            summon_done(old(ss)@, final(ss)@, *config, item_id, tile_id, now, seen(r)),
{
    let tile_id = TileId::fresh();
    let r = summon_with(ss, config, item_id, tile_id, now);
    proof {
        assert(summon_done(old(ss)@, ss@, *config, item_id, tile_id, now, seen(r)));
    }
    r
}

} // verus!
