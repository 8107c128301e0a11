//! Giving a plant a new name.
use crate::hackstead::item::clone_text;
use crate::hackstead::plant::PlantView;
use crate::hackstead::{lemma_tile_found, lemma_with_plant_wf};
use crate::id::{NoSuch, TileId};
use crate::text::Complaint;
use crate::wormhole::session::{SessSend, SessSendView};
use vstd::prelude::*;
use vstd::string::*;

verus! {

/// Why a plant could not be renamed.
#[derive(Clone, Copy, Debug, PartialEq, Eq, Structural)]
pub enum Error {
    /// The tile is not there, or nothing grows on it.
    NoSuch(NoSuch),
}

impl Complaint for Error {
    open spec fn complaint(&self) -> Seq<char> {
        match *self {
            Error::NoSuch(e) => "couldn't rename plant: "@ + e.complaint(),
        }
    }

    fn message(&self) -> (text: String) {
        match self {
            Error::NoSuch(e) => {
                let mut text = String::from_str("couldn't rename plant: ");
                text.append(e.message().as_str());
                text
            },
        }
    }
}

/// What a result with a text holds.
pub open spec fn seen(r: Result<String, Error>) -> Result<Seq<char>, Error> {
    match r {
        Ok(t) => Ok(t@),
        Err(e) => Err(e),
    }
}

/// What a renaming does. Where a plant grows on the tile, it carries the new
/// name, which is handed back; else nothing changes.
pub open spec fn nickname_done(
    before: SessSendView,
    after: SessSendView,
    tile_id: TileId,
    new_name: Seq<char>,
    result: Result<Seq<char>, Error>,
) -> bool {
    let hs = before.hackstead;
    if hs.has_plant(tile_id) {
        result == Ok::<Seq<char>, Error>(new_name) && after == before.with_hackstead(
            hs.with_plant(tile_id, Some(PlantView { nickname: new_name, ..hs.plant(tile_id) })),
        )
    } else {
        result == Err::<Seq<char>, Error>(Error::NoSuch(hs.no_plant(tile_id))) && after == before
    }
}

/// A renaming leaves a sound hackstead sound.
pub proof fn lemma_nickname_keeps_wf(
    before: SessSendView,
    after: SessSendView,
    tile_id: TileId,
    new_name: Seq<char>,
    result: Result<Seq<char>, Error>,
)
    requires
        nickname_done(before, after, tile_id, new_name, result),
        before.hackstead.wf(),
    ensures
        after.hackstead.wf(),
{
    let hs = before.hackstead;
    if result is Ok {
        lemma_tile_found(hs, tile_id);
        assert(hs.tile(tile_id).wf());
        lemma_with_plant_wf(
            hs,
            tile_id,
            Some(PlantView { nickname: new_name, ..hs.plant(tile_id) }),
        );
    }
}

/// Gives the plant on the tile with the given id a new name, and hands the name
/// back.
///
/// Fails with [`NoSuch::Tile`] where no tile has that id, and with
/// [`NoSuch::Plant`] where the tile is empty; nothing changes then.
pub fn nickname(ss: &mut SessSend, tile_id: TileId, new_name: String) -> (r: Result<String, Error>)
    ensures
        nickname_done(old(ss)@, final(ss)@, tile_id, new_name@, seen(r)),
{
    match ss.hackstead.plant_mut(tile_id) {
        Ok(plant) => {
            plant.nickname = clone_text(&new_name);
        },
        Err(e) => {
            return Err(Error::NoSuch(e));
        },
    }
    Ok(new_name)
}

} // verus!
