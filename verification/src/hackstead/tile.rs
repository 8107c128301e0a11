//! Tiles: the land on which plants grow.
use crate::hackstead::plant::{Plant, PlantView};
use crate::id::{SteaderId, TileId};
use vstd::prelude::*;

verus! {

/// A tile of land.
#[derive(Debug, PartialEq, Eq)]
pub struct Tile {
    /// Which tile this is.
    pub tile_id: TileId,
    /// Who owns it.
    pub owner_id: SteaderId,
    /// When it was acquired, in seconds since the epoch.
    pub acquired: u64,
    /// The plant that grows on it, if any.
    pub plant: Option<Plant>,
}

/// What a [`Tile`] holds.
pub struct TileView {
    pub tile_id: TileId,
    pub owner_id: SteaderId,
    pub acquired: u64,
    pub plant: Option<PlantView>,
}

impl TileView {
    /// The plant on the tile, if any, knows that it grows there.
    pub open spec fn wf(self) -> bool {
        self.plant is Some ==> self.plant->0.tile_id == self.tile_id
    }
}

impl DeepView for Tile {
    type V = TileView;

    open spec fn deep_view(&self) -> TileView {
        TileView {
            tile_id: self.tile_id,
            owner_id: self.owner_id,
            acquired: self.acquired,
            plant: match self.plant {
                Some(p) => Some(p@),
                None => None,
            },
        }
    }
}

impl View for Tile {
    type V = TileView;

    open spec fn view(&self) -> TileView {
        self.deep_view()
    }
}

impl Clone for Tile {
    fn clone(&self) -> (copy: Tile)
        ensures
            copy@ == self@,
    {
        Tile {
            tile_id: self.tile_id,
            owner_id: self.owner_id,
            acquired: self.acquired,
            plant: match &self.plant {
                Some(p) => Some(p.clone()),
                None => None,
            },
        }
    }
}

impl Tile {
    /// A new, empty tile.
    pub fn new(owner_id: SteaderId, tile_id: TileId, acquired: u64) -> (tile: Tile)
        ensures
            tile@ == Tile::cleared(owner_id, tile_id, acquired),
            tile@.wf(),
    {
        Tile { tile_id, owner_id, acquired, plant: None }
    }

    /// What [`Tile::new`] makes.
    pub open spec fn cleared(owner_id: SteaderId, tile_id: TileId, acquired: u64) -> TileView {
        TileView { tile_id, owner_id, acquired, plant: None }
    }

    /// Whether two tiles hold the same.
    pub fn same(&self, other: &Tile) -> (b: bool)
        ensures
            b == (self@ == other@),
    {
        self.tile_id == other.tile_id && self.owner_id == other.owner_id && self.acquired
            == other.acquired && match (&self.plant, &other.plant) {
            (Some(a), Some(b)) => a.same(b),
            (None, None) => true,
            _ => false,
        }
    }
}

} // verus!
