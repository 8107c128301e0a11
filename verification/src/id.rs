//! Identifiers of the entities of a hackstead, and the error of a failed lookup.
use crate::text::Complaint;
use vstd::prelude::*;
use vstd::string::*;

verus! {

/// A hexadecimal digit, written in lower case.
pub open spec fn hex_char(d: int) -> char {
    if d == 0 {
        '0'
    } else if d == 1 {
        '1'
    } else if d == 2 {
        '2'
    } else if d == 3 {
        '3'
    } else if d == 4 {
        '4'
    } else if d == 5 {
        '5'
    } else if d == 6 {
        '6'
    } else if d == 7 {
        '7'
    } else if d == 8 {
        '8'
    } else if d == 9 {
        '9'
    } else if d == 10 {
        'a'
    } else if d == 11 {
        'b'
    } else if d == 12 {
        'c'
    } else if d == 13 {
        'd'
    } else if d == 14 {
        'e'
    } else {
        'f'
    }
}

/// Sixteen to the power of `n`.
pub open spec fn sixteen_to(n: nat) -> int
    decreases n,
{
    if n == 0 {
        1
    } else {
        16 * sixteen_to((n - 1) as nat)
    }
}

/// The `k`-th of the 32 hexadecimal digits of a 128-bit number, the most
/// significant one being the first.
pub open spec fn nibble(v: u128, k: int) -> int {
    (v as int / sixteen_to((31 - k) as nat)) % 16
}

/// The hyphens that stand before position `p` of a hyphenated id.
pub open spec fn hyphens_before(p: int) -> int {
    if p < 8 {
        0
    } else if p < 13 {
        1
    } else if p < 18 {
        2
    } else if p < 23 {
        3
    } else {
        4
    }
}

/// A 128-bit id written as 32 lower-case hexadecimal digits, most significant
/// first, in groups of 8, 4, 4, 4 and 12 with a hyphen between two groups.
pub open spec fn hyphenated(v: u128) -> Seq<char> {
    Seq::new(
        36,
        |p: int|
            if p == 8 || p == 13 || p == 18 || p == 23 {
                '-'
            } else {
                hex_char(nibble(v, p - hyphens_before(p)))
            },
    )
}

/// The bits of an id that say which kind of id it is.
pub const KIND_BITS: u128 = 0x0000_0000_0000_f000_c000_0000_0000_0000;

/// What [`KIND_BITS`] hold in an id that was drawn at random.
pub const RANDOM_KIND: u128 = 0x0000_0000_0000_4000_8000_0000_0000_0000;

/// Draws an id with `uuid::Uuid::new_v4` and hands it out as the number that
/// `Uuid::as_u128` gives. Nothing is claimed of the id but what `new_v4` does
/// to every number it draws: it sets the version to 4 and the variant to the
/// standard one.
#[verifier::external_body]
fn random_uuid() -> (id: u128)
    ensures
        id & KIND_BITS == RANDOM_KIND,
{
    uuid::Uuid::new_v4().as_u128()
}

/// Writes an id as `uuid::Uuid` displays it: `Uuid::from_u128` takes the number
/// most significant byte first, and `Display` writes the bytes in lower-case
/// hexadecimal with hyphens after the 4th, 6th, 8th and 10th.
#[verifier::external_body]
fn uuid_text(id: u128) -> (text: String)
    ensures
        text@ == hyphenated(id),
{
    uuid::Uuid::from_u128(id).to_string()
}

/// Identifies a user, and with it the user's hackstead.
#[derive(Clone, Copy, Debug, PartialEq, Eq, Structural, Hash)]
pub struct SteaderId(pub u128);

/// Identifies one item, wherever it travels.
#[derive(Clone, Copy, Debug, PartialEq, Eq, Structural, Hash)]
pub struct ItemId(pub u128);

/// Identifies one tile of land, and the plant on it, if any.
#[derive(Clone, Copy, Debug, PartialEq, Eq, Structural, Hash)]
pub struct TileId(pub u128);

/// Identifies one effect rubbed onto a plant.
#[derive(Clone, Copy, Debug, PartialEq, Eq, Structural, Hash)]
pub struct EffectId(pub u128);

impl SteaderId {
    /// The id of a new user, drawn at random.
    pub fn fresh() -> (id: SteaderId)
        ensures
            id.0 & KIND_BITS == RANDOM_KIND,
    {
        SteaderId(random_uuid())
    }

    /// The id written out.
    pub fn text(&self) -> (text: String)
        ensures
            text@ == hyphenated(self.0),
    {
        uuid_text(self.0)
    }
}

impl ItemId {
    /// The id of a new item, drawn at random.
    pub fn fresh() -> (id: ItemId)
        ensures
            id.0 & KIND_BITS == RANDOM_KIND,
    {
        ItemId(random_uuid())
    }

    /// As many ids of new items, each drawn at random.
    pub fn fresh_many(n: usize) -> (ids: Vec<ItemId>)
        ensures
            ids@.len() == n,
    {
        let mut ids: Vec<ItemId> = Vec::new();
        let mut i: usize = 0;
        while i < n
            invariant
                i <= n,
                ids@.len() == i,
            decreases n - i,
        {
            ids.push(ItemId::fresh());
            i = i + 1;
        }
        ids
    }

    /// The id written out.
    pub fn text(&self) -> (text: String)
        ensures
            text@ == hyphenated(self.0),
    {
        uuid_text(self.0)
    }
}

impl TileId {
    /// The id of a new tile, drawn at random.
    pub fn fresh() -> (id: TileId)
        ensures
            id.0 & KIND_BITS == RANDOM_KIND,
    {
        TileId(random_uuid())
    }

    /// The id written out.
    pub fn text(&self) -> (text: String)
        ensures
            text@ == hyphenated(self.0),
    {
        uuid_text(self.0)
    }
}

impl EffectId {
    /// The id of a new effect, drawn at random.
    pub fn fresh() -> (id: EffectId)
        ensures
            id.0 & KIND_BITS == RANDOM_KIND,
    {
        EffectId(random_uuid())
    }

    /// As many ids of new effects, each drawn at random.
    pub fn fresh_many(n: usize) -> (ids: Vec<EffectId>)
        ensures
            ids@.len() == n,
    {
        let mut ids: Vec<EffectId> = Vec::new();
        let mut i: usize = 0;
        while i < n
            invariant
                i <= n,
                ids@.len() == i,
            decreases n - i,
        {
            ids.push(EffectId::fresh());
            i = i + 1;
        }
        ids
    }

    /// The id written out.
    pub fn text(&self) -> (text: String)
        ensures
            text@ == hyphenated(self.0),
    {
        uuid_text(self.0)
    }
}

/// An identifier that resolved to nothing, with the kind of entity that was sought.
#[derive(Clone, Copy, Debug, PartialEq, Eq, Structural)]
pub enum NoSuch {
    /// No item with this id is in the inventory.
    Item(ItemId),
    /// No tile with this id is in the land.
    Tile(TileId),
    /// The tile exists, or not, but no plant grows on it.
    Plant(TileId),
    /// The plant on the tile carries no effect with this id.
    Effect(TileId, EffectId),
    /// The item is no gotchi.
    Gotchi(ItemId),
}

impl Complaint for NoSuch {
    open spec fn complaint(&self) -> Seq<char> {
        match *self {
            NoSuch::Item(id) => "no such item: "@ + hyphenated(id.0),
            NoSuch::Tile(id) => "no such tile: "@ + hyphenated(id.0),
            NoSuch::Plant(id) => "no plant on tile: "@ + hyphenated(id.0),
            NoSuch::Effect(tile, id) => "no such effect: "@ + hyphenated(id.0) + " on the plant on tile: "@
                + hyphenated(tile.0),
            NoSuch::Gotchi(id) => "no gotchi in item: "@ + hyphenated(id.0),
        }
    }

    fn message(&self) -> (text: String) {
        match self {
            NoSuch::Item(id) => {
                let mut text = String::from_str("no such item: ");
                text.append(id.text().as_str());
                text
            },
            NoSuch::Tile(id) => {
                let mut text = String::from_str("no such tile: ");
                text.append(id.text().as_str());
                text
            },
            NoSuch::Plant(id) => {
                let mut text = String::from_str("no plant on tile: ");
                text.append(id.text().as_str());
                text
            },
            NoSuch::Effect(tile, id) => {
                let mut text = String::from_str("no such effect: ");
                text.append(id.text().as_str());
                text.append(" on the plant on tile: ");
                text.append(tile.text().as_str());
                text
            },
            NoSuch::Gotchi(id) => {
                let mut text = String::from_str("no gotchi in item: ");
                text.append(id.text().as_str());
                text
            },
        }
    }
}

} // verus!
