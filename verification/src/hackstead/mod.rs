//! The hackstead: everything one user owns.
//!
//! A [`Hackstead`] is plain data. Its model is a [`HacksteadView`]; every search
//! in it goes by id and finds the first match.
use crate::config::{count_reached, reached, Config};
use crate::hackstead::item::{clone_text, Item, ItemView};
use crate::hackstead::plant::{Plant, PlantView, Timer};
use crate::hackstead::tile::{Tile, TileView};
use crate::id::{ItemId, NoSuch, SteaderId, TileId};
use crate::lookup::{distinct, first, is_first, lemma_first_is, lemma_first_of_occurring, occurs};
use vstd::prelude::*;
use vstd::string::*;

pub mod item;
pub mod plant;
pub mod tile;

verus! {

/// What names a user: an id, a slack id, or both.
#[derive(Debug, PartialEq, Eq)]
pub enum UserId {
    Uuid(SteaderId),
    Slack(String),
    Both { uuid: SteaderId, slack: String },
}

/// Where the hackstead of a user with this id is kept.
pub open spec fn stead_path_spec(steader_id: SteaderId) -> Seq<char> {
    "stead/"@ + crate::id::hyphenated(steader_id.0) + ".bincode"@
}

/// Where the hackstead of a user with this slack id is kept.
pub open spec fn slack_path_spec(slack: Seq<char>) -> Seq<char> {
    "slack/"@ + slack + ".bincode"@
}

/// Where the hackstead of a user with this id is kept.
pub fn stead_path(steader_id: SteaderId) -> (path: String)
    ensures
        path@ == stead_path_spec(steader_id),
{
    let mut path = String::from_str("stead/");
    path.append(steader_id.text().as_str());
    path.append(".bincode");
    path
}

/// Where the hackstead of a user with this slack id is kept.
pub fn slack_path(slack: &str) -> (path: String)
    ensures
        path@ == slack_path_spec(slack@),
{
    let mut path = String::from_str("slack/");
    path.append(slack);
    path.append(".bincode");
    path
}

/// Where the hackstead of a user is kept: under the id where the id is known,
/// else under the slack id.
pub fn user_path(user: &UserId) -> (path: String)
    ensures
        path@ == match *user {
            UserId::Uuid(uuid) => stead_path_spec(uuid),
            UserId::Both { uuid, slack } => stead_path_spec(uuid),
            UserId::Slack(slack) => slack_path_spec(slack@),
        },
{
    match user {
        UserId::Uuid(uuid) => stead_path(*uuid),
        UserId::Both { uuid, .. } => stead_path(*uuid),
        UserId::Slack(slack) => slack_path(slack.as_str()),
    }
}

/// What a slack id holds, where there is one.
pub open spec fn slack_view(slack_id: Option<String>) -> Option<Seq<char>> {
    match slack_id {
        Some(s) => Some(s@),
        None => None,
    }
}

/// Who a user is.
#[derive(Debug, PartialEq, Eq)]
pub struct Profile {
    /// Which user this is.
    pub steader_id: SteaderId,
    /// How to reach the user elsewhere, if known.
    pub slack_id: Option<String>,
    /// The xp the user has gathered. It never falls.
    pub xp: u64,
    /// When the user joined, in seconds since the epoch.
    pub joined: u64,
    /// When the user was last seen.
    pub last_active: u64,
    /// When the user last farmed.
    pub last_farm: u64,
    /// How many tiles the user may hold beyond those that xp allows.
    pub extra_land_plot_count: u64,
}

/// What a [`Profile`] holds.
pub struct ProfileView {
    pub steader_id: SteaderId,
    pub slack_id: Option<Seq<char>>,
    pub xp: u64,
    pub joined: u64,
    pub last_active: u64,
    pub last_farm: u64,
    pub extra_land_plot_count: u64,
}

impl DeepView for Profile {
    type V = ProfileView;

    open spec fn deep_view(&self) -> ProfileView {
        ProfileView {
            steader_id: self.steader_id,
            slack_id: match self.slack_id {
                Some(s) => Some(s@),
                None => None,
            },
            xp: self.xp,
            joined: self.joined,
            last_active: self.last_active,
            last_farm: self.last_farm,
            extra_land_plot_count: self.extra_land_plot_count,
        }
    }
}

impl View for Profile {
    type V = ProfileView;

    open spec fn view(&self) -> ProfileView {
        self.deep_view()
    }
}

impl Clone for Profile {
    fn clone(&self) -> (copy: Profile)
        ensures
            copy@ == self@,
    {
        Profile {
            steader_id: self.steader_id,
            slack_id: match &self.slack_id {
                Some(s) => Some(clone_text(s)),
                None => None,
            },
            xp: self.xp,
            joined: self.joined,
            last_active: self.last_active,
            last_farm: self.last_farm,
            extra_land_plot_count: self.extra_land_plot_count,
        }
    }
}

impl Profile {
    /// Whether two profiles hold the same.
    pub fn same(&self, other: &Profile) -> (b: bool)
        ensures
            b == (self@ == other@),
    {
        let slack_same = match (&self.slack_id, &other.slack_id) {
            (Some(a), Some(b)) => *a == *b,
            (None, None) => true,
            _ => false,
        };
        slack_same && self.steader_id == other.steader_id && self.xp == other.xp && self.joined
            == other.joined && self.last_active == other.last_active && self.last_farm
            == other.last_farm && self.extra_land_plot_count == other.extra_land_plot_count
    }
}

/// Everything one user owns.
#[derive(Debug, PartialEq, Eq)]
pub struct Hackstead {
    /// Who the user is.
    pub profile: Profile,
    /// The items the user holds, in the order they came.
    pub inventory: Vec<Item>,
    /// The tiles the user holds, in the order they came.
    pub land: Vec<Tile>,
    /// The timers that were running when the hackstead was last put away.
    pub timers: Vec<Timer>,
}

/// What a [`Hackstead`] holds.
pub struct HacksteadView {
    pub profile: ProfileView,
    pub inventory: Seq<ItemView>,
    pub land: Seq<TileView>,
    pub timers: Seq<Timer>,
}

/// The ids of a sequence of items, in order.
pub open spec fn item_ids(items: Seq<ItemView>) -> Seq<ItemId> {
    Seq::new(items.len(), |i: int| items[i].item_id)
}

/// The ids of a sequence of tiles, in order.
pub open spec fn tile_ids(land: Seq<TileView>) -> Seq<TileId> {
    Seq::new(land.len(), |i: int| land[i].tile_id)
}

/// For each tile of a land, in order, whether nothing grows on it.
pub open spec fn vacancies(land: Seq<TileView>) -> Seq<bool> {
    Seq::new(land.len(), |i: int| land[i].plant is None)
}

/// How many tiles a user with this much xp and this many extra plots may hold.
pub open spec fn land_allowance(config: Config, profile: ProfileView) -> nat {
    reached(config.land_xps@, profile.xp) + profile.extra_land_plot_count as nat
}

impl HacksteadView {
    /// Whether an item with this id is in the inventory.
    pub open spec fn has_item(self, item_id: ItemId) -> bool {
        occurs(item_ids(self.inventory), item_id)
    }

    /// Where the first item with this id stands in the inventory.
    pub open spec fn item_at(self, item_id: ItemId) -> int {
        first(item_ids(self.inventory), item_id)
    }

    /// The first item with this id.
    pub open spec fn item(self, item_id: ItemId) -> ItemView {
        self.inventory[self.item_at(item_id)]
    }

    /// The hackstead without the first item with this id.
    pub open spec fn without_item(self, item_id: ItemId) -> HacksteadView {
        HacksteadView { inventory: self.inventory.remove(self.item_at(item_id)), ..self }
    }

    /// The hackstead with the first item with this id replaced.
    pub open spec fn with_item(self, item_id: ItemId, item: ItemView) -> HacksteadView {
        HacksteadView { inventory: self.inventory.update(self.item_at(item_id), item), ..self }
    }

    /// The hackstead with more items at the end of its inventory.
    pub open spec fn with_items(self, items: Seq<ItemView>) -> HacksteadView {
        HacksteadView { inventory: self.inventory + items, ..self }
    }

    /// Whether a tile with this id is in the land.
    pub open spec fn has_tile(self, tile_id: TileId) -> bool {
        occurs(tile_ids(self.land), tile_id)
    }

    /// Where the first tile with this id stands in the land.
    pub open spec fn tile_at(self, tile_id: TileId) -> int {
        first(tile_ids(self.land), tile_id)
    }

    /// The first tile with this id.
    pub open spec fn tile(self, tile_id: TileId) -> TileView {
        self.land[self.tile_at(tile_id)]
    }

    /// Whether a plant grows on the first tile with this id.
    pub open spec fn has_plant(self, tile_id: TileId) -> bool {
        self.has_tile(tile_id) && self.tile(tile_id).plant is Some
    }

    /// The plant on the first tile with this id.
    pub open spec fn plant(self, tile_id: TileId) -> PlantView {
        self.tile(tile_id).plant->0
    }

    /// The hackstead with what grows on the first tile with this id replaced.
    pub open spec fn with_plant(self, tile_id: TileId, plant: Option<PlantView>) -> HacksteadView {
        HacksteadView {
            land: self.land.update(
                self.tile_at(tile_id),
                TileView { plant, ..self.tile(tile_id) },
            ),
            ..self
        }
    }

    /// The hackstead with one more tile at the end of its land.
    pub open spec fn with_tile(self, tile: TileView) -> HacksteadView {
        HacksteadView { land: self.land.push(tile), ..self }
    }

    /// Whether the user may hold one more tile.
    pub open spec fn land_unlock_eligible(self, config: Config) -> bool {
        self.land.len() < land_allowance(config, self.profile)
    }

    /// How many items of an archetype are in the inventory.
    pub open spec fn count_of(self, conf: crate::config::ItemConf) -> nat {
        self.inventory.filter(|i: ItemView| i.conf == conf).len()
    }

    /// The hackstead is sound: no id is used twice, every item and tile belongs
    /// to the user, every ownership log is in order, and every plant knows the
    /// tile it grows on.
    pub open spec fn wf(self) -> bool {
        &&& distinct(item_ids(self.inventory))
        &&& distinct(tile_ids(self.land))
        &&& forall|i: int|
            0 <= i < self.inventory.len() ==> {
                &&& (#[trigger] self.inventory[i]).wf()
                &&& self.inventory[i].owner_id == self.profile.steader_id
            }
        &&& forall|i: int|
            0 <= i < self.land.len() ==> {
                &&& (#[trigger] self.land[i]).wf()
                &&& self.land[i].owner_id == self.profile.steader_id
            }
    }
}

impl DeepView for Hackstead {
    type V = HacksteadView;

    open spec fn deep_view(&self) -> HacksteadView {
        HacksteadView {
            profile: self.profile@,
            inventory: self.inventory.deep_view(),
            land: self.land.deep_view(),
            timers: self.timers@,
        }
    }
}

impl View for Hackstead {
    type V = HacksteadView;

    open spec fn view(&self) -> HacksteadView {
        self.deep_view()
    }
}

/// Copies a list of items.
pub fn clone_items(items: &Vec<Item>) -> (copy: Vec<Item>)
    ensures
        copy.deep_view() == items.deep_view(),
{
    let mut copy: Vec<Item> = Vec::new();
    let mut i: usize = 0;
    while i < items.len()
        invariant
            i <= items.len(),
            copy@.len() == i,
            forall|j: int| 0 <= j < i ==> (#[trigger] copy@[j])@ == items@[j]@,
        decreases items.len() - i,
    {
        copy.push(items[i].clone());
        i = i + 1;
    }
    proof {
        assert(copy.deep_view() =~= items.deep_view());
    }
    copy
}

/// Copies a list of tiles.
pub fn clone_land(land: &Vec<Tile>) -> (copy: Vec<Tile>)
    ensures
        copy.deep_view() == land.deep_view(),
{
    let mut copy: Vec<Tile> = Vec::new();
    let mut i: usize = 0;
    while i < land.len()
        invariant
            i <= land.len(),
            copy@.len() == i,
            forall|j: int| 0 <= j < i ==> (#[trigger] copy@[j])@ == land@[j]@,
        decreases land.len() - i,
    {
        copy.push(land[i].clone());
        i = i + 1;
    }
    proof {
        assert(copy.deep_view() =~= land.deep_view());
    }
    copy
}

/// Copies a list of timers.
pub fn clone_timers(timers: &Vec<Timer>) -> (copy: Vec<Timer>)
    ensures
        copy@ == timers@,
{
    let mut copy: Vec<Timer> = Vec::new();
    let mut i: usize = 0;
    while i < timers.len()
        invariant
            i <= timers.len(),
            copy@ == timers@.take(i as int),
        decreases timers.len() - i,
    {
        copy.push(timers[i]);
        proof {
            assert(timers@.take(i + 1) == timers@.take(i as int).push(timers@[i as int]));
        }
        i = i + 1;
    }
    proof {
        assert(timers@.take(i as int) == timers@);
    }
    copy
}

impl Clone for Hackstead {
    fn clone(&self) -> (copy: Hackstead)
        ensures
            copy@ == self@,
    {
        Hackstead {
            profile: self.profile.clone(),
            inventory: clone_items(&self.inventory),
            land: clone_land(&self.land),
            timers: clone_timers(&self.timers),
        }
    }
}

impl Hackstead {
    /// The hackstead of a user who owns nothing yet.
    pub fn empty(steader_id: SteaderId, slack_id: Option<String>, now: u64) -> (hs: Hackstead)
        ensures
            hs@ == Hackstead::bare(
                steader_id,
                match slack_id {
                    Some(s) => Some(s@),
                    None => None,
                },
                now,
            ),
            hs@.wf(),
    {
        let hs = Hackstead {
            profile: Profile {
                steader_id,
                slack_id,
                xp: 0,
                joined: now,
                last_active: now,
                last_farm: now,
                extra_land_plot_count: 0,
            },
            inventory: Vec::new(),
            land: Vec::new(),
            timers: Vec::new(),
        };
        proof {
            assert(hs.inventory.deep_view() =~= Seq::empty());
            assert(hs.land.deep_view() =~= Seq::empty());
        }
        hs
    }

    /// The hackstead of a new user: nothing but a first tile, which is empty.
    pub fn new_user_with(
        steader_id: SteaderId,
        tile_id: TileId,
        slack_id: Option<String>,
        now: u64,
    ) -> (hs: Hackstead)
        ensures
            hs@ == Hackstead::bare(
                steader_id,
                match slack_id {
                    Some(s) => Some(s@),
                    None => None,
                },
                now,
            ).with_tile(Tile::cleared(steader_id, tile_id, now)),
            hs@.wf(),
    {
        let mut hs = Hackstead::empty(steader_id, slack_id, now);
        proof {
            let none = hs@;
            assert(!none.has_tile(tile_id));
            lemma_with_tile_wf(none, Tile::cleared(steader_id, tile_id, now));
        }
        hs.give_tile(Tile::new(steader_id, tile_id, now));
        hs
    }

    /// The hackstead of a new user, whose id and the id of whose first tile
    /// are drawn at random.
    pub fn new_user(slack_id: Option<String>, now: u64) -> (hs: Hackstead)
        ensures
            exists|steader_id: SteaderId, tile_id: TileId|
                hs@ == Hackstead::bare(steader_id, slack_view(slack_id), now).with_tile(
                    #[trigger] Tile::cleared(steader_id, tile_id, now),
                ),
            hs@.wf(),
    {
        let steader_id = SteaderId::fresh();
        let tile_id = TileId::fresh();
        let ghost slack = slack_view(slack_id);
        let hs = Hackstead::new_user_with(steader_id, tile_id, slack_id, now);
        proof {
            assert(hs@ == Hackstead::bare(steader_id, slack, now).with_tile(
                Tile::cleared(steader_id, tile_id, now),
            ));
        }
        hs
    }

    /// What [`Hackstead::empty`] makes.
    pub open spec fn bare(steader_id: SteaderId, slack_id: Option<Seq<char>>, now: u64) -> HacksteadView {
        HacksteadView {
            profile: ProfileView {
                steader_id,
                slack_id,
                xp: 0,
                joined: now,
                last_active: now,
                last_farm: now,
                extra_land_plot_count: 0,
            },
            inventory: Seq::empty(),
            land: Seq::empty(),
            timers: Seq::empty(),
        }
    }

    /// Where the first item with this id stands, if there is one.
    pub fn find_item(&self, item_id: ItemId) -> (found: Option<usize>)
        ensures
            match found {
                Some(i) => self@.has_item(item_id) && i == self@.item_at(item_id) && i
                    < self.inventory@.len(),
                None => !self@.has_item(item_id),
            },
    {
        let mut i: usize = 0;
        while i < self.inventory.len()
            invariant
                i <= self.inventory.len(),
                forall|j: int| 0 <= j < i ==> self@.inventory[j].item_id != item_id,
            decreases self.inventory.len() - i,
        {
            if self.inventory[i].item_id == item_id {
                proof {
                    assert(is_first(item_ids(self@.inventory), item_id, i as int));
                    lemma_first_is(item_ids(self@.inventory), item_id, i as int);
                }
                return Some(i);
            }
            i = i + 1;
        }
        proof {
            if occurs(item_ids(self@.inventory), item_id) {
                let w = choose|w: int|
                    0 <= w < item_ids(self@.inventory).len() && item_ids(self@.inventory)[w]
                        == item_id;
                assert(self@.inventory[w].item_id == item_id);
            }
        }
        None
    }

    /// Where the first tile with this id stands, if there is one.
    pub fn find_tile(&self, tile_id: TileId) -> (found: Option<usize>)
        ensures
            match found {
                Some(i) => self@.has_tile(tile_id) && i == self@.tile_at(tile_id) && i
                    < self.land@.len(),
                None => !self@.has_tile(tile_id),
            },
    {
        let mut i: usize = 0;
        while i < self.land.len()
            invariant
                i <= self.land.len(),
                forall|j: int| 0 <= j < i ==> self@.land[j].tile_id != tile_id,
            decreases self.land.len() - i,
        {
            if self.land[i].tile_id == tile_id {
                proof {
                    assert(is_first(tile_ids(self@.land), tile_id, i as int));
                    lemma_first_is(tile_ids(self@.land), tile_id, i as int);
                }
                return Some(i);
            }
            i = i + 1;
        }
        proof {
            if occurs(tile_ids(self@.land), tile_id) {
                let w = choose|w: int|
                    0 <= w < tile_ids(self@.land).len() && tile_ids(self@.land)[w] == tile_id;
                assert(self@.land[w].tile_id == tile_id);
            }
        }
        None
    }

    /// Whether an item with this id is in the inventory.
    pub fn has_item(&self, item_id: ItemId) -> (b: bool)
        ensures
            b == self@.has_item(item_id),
    {
        self.find_item(item_id).is_some()
    }

    /// The first item with this id.
    ///
    /// Fails with [`NoSuch::Item`] exactly where no item in the inventory has
    /// that id.
    pub fn item(&self, item_id: ItemId) -> (found: Result<&Item, NoSuch>)
        ensures
            match found {
                Ok(item) => self@.has_item(item_id) && item@ == self@.item(item_id),
                Err(e) => !self@.has_item(item_id) && e == NoSuch::Item(item_id),
            },
    {
        match self.find_item(item_id) {
            Some(i) => Ok(&self.inventory[i]),
            None => Err(NoSuch::Item(item_id)),
        }
    }

    /// Takes the first item with this id out of the inventory.
    ///
    /// Fails with [`NoSuch::Item`], and leaves the hackstead as it was, exactly
    /// where no item in the inventory has that id.
    pub fn take_item(&mut self, item_id: ItemId) -> (taken: Result<Item, NoSuch>)
        ensures
            match taken {
                Ok(item) => {
                    &&& old(self)@.has_item(item_id)
                    &&& item@ == old(self)@.item(item_id)
                    &&& final(self)@ == old(self)@.without_item(item_id)
                },
                Err(e) => {
                    &&& !old(self)@.has_item(item_id)
                    &&& e == NoSuch::Item(item_id)
                    &&& final(self)@ == old(self)@
                },
            },
    {
        match self.find_item(item_id) {
            Some(i) => {
                let item = self.inventory.remove(i);
                proof {
                    assert(self.inventory.deep_view() =~= old(self).inventory.deep_view().remove(
                        i as int,
                    ));
                }
                Ok(item)
            },
            None => Err(NoSuch::Item(item_id)),
        }
    }

    /// Puts an item in the place of the first item with the given id.
    ///
    /// Fails with [`NoSuch::Item`], and leaves the hackstead as it was, exactly
    /// where no item in the inventory has that id.
    pub fn replace_item(&mut self, item_id: ItemId, item: Item) -> (done: Result<(), NoSuch>)
        ensures
            match done {
                Ok(_) => {
                    &&& old(self)@.has_item(item_id)
                    &&& final(self)@ == old(self)@.with_item(item_id, item@)
                },
                Err(e) => {
                    &&& !old(self)@.has_item(item_id)
                    &&& e == NoSuch::Item(item_id)
                    &&& final(self)@ == old(self)@
                },
            },
    {
        match self.find_item(item_id) {
            Some(i) => {
                self.inventory.remove(i);
                self.inventory.insert(i, item);
                proof {
                    assert(self.inventory.deep_view() =~= old(self).inventory.deep_view().update(
                        i as int,
                        item@,
                    ));
                }
                Ok(())
            },
            None => Err(NoSuch::Item(item_id)),
        }
    }

    /// The first item with this id, to be changed in place.
    ///
    /// Fails with [`NoSuch::Item`] exactly where no item in the inventory has
    /// that id.
    pub fn item_mut(&mut self, item_id: ItemId) -> (found: Result<&mut Item, NoSuch>)
        ensures
            match found {
                Ok(item) => {
                    &&& old(self)@.has_item(item_id)
                    &&& item@ == old(self)@.item(item_id)
                    &&& final(self)@ == old(self)@.with_item(item_id, final(item)@)
                },
                Err(e) => {
                    &&& !old(self)@.has_item(item_id)
                    &&& e == NoSuch::Item(item_id)
                    &&& final(self)@ == old(self)@
                },
            },
    {
        match self.find_item(item_id) {
            Some(i) => {
                proof {
                    let inv = self.inventory@;
                    assert forall|x: Item| #![trigger inv.update(i as int, x)]
                        Seq::new(
                            inv.update(i as int, x).len(),
                            |j: int| inv.update(i as int, x)[j].deep_view(),
                        ) == self.inventory.deep_view().update(i as int, x@) by {
                        assert(Seq::new(
                            inv.update(i as int, x).len(),
                            |j: int| inv.update(i as int, x)[j].deep_view(),
                        ) =~= self.inventory.deep_view().update(i as int, x@));
                    }
                }
                Ok(&mut self.inventory[i])
            },
            None => Err(NoSuch::Item(item_id)),
        }
    }

    /// Adds an item at the end of the inventory.
    pub fn give_item(&mut self, item: Item)
        ensures
            final(self)@ == old(self)@.with_items(seq![item@]),
    {
        self.inventory.push(item);
        proof {
            assert(self.inventory.deep_view() =~= old(self).inventory.deep_view() + seq![item@]);
        }
    }

    /// The first tile with this id.
    ///
    /// Fails with [`NoSuch::Tile`] exactly where no tile in the land has that id.
    pub fn tile(&self, tile_id: TileId) -> (found: Result<&Tile, NoSuch>)
        ensures
            match found {
                Ok(tile) => self@.has_tile(tile_id) && tile@ == self@.tile(tile_id),
                Err(e) => !self@.has_tile(tile_id) && e == NoSuch::Tile(tile_id),
            },
    {
        match self.find_tile(tile_id) {
            Some(i) => Ok(&self.land[i]),
            None => Err(NoSuch::Tile(tile_id)),
        }
    }

    /// The first tile with this id, to be changed in place.
    ///
    /// Fails with [`NoSuch::Tile`] exactly where no tile in the land has that id.
    pub fn tile_mut(&mut self, tile_id: TileId) -> (found: Result<&mut Tile, NoSuch>)
        ensures
            match found {
                Ok(tile) => {
                    &&& old(self)@.has_tile(tile_id)
                    &&& tile@ == old(self)@.tile(tile_id)
                    &&& final(self)@ == (HacksteadView {
                        land: old(self)@.land.update(old(self)@.tile_at(tile_id), final(tile)@),
                        ..old(self)@
                    })
                },
                Err(e) => {
                    &&& !old(self)@.has_tile(tile_id)
                    &&& e == NoSuch::Tile(tile_id)
                    &&& final(self)@ == old(self)@
                },
            },
    {
        match self.find_tile(tile_id) {
            Some(i) => {
                proof {
                    let land = self.land@;
                    assert forall|x: Tile| #![trigger land.update(i as int, x)]
                        Seq::new(
                            land.update(i as int, x).len(),
                            |j: int| land.update(i as int, x)[j].deep_view(),
                        ) == self.land.deep_view().update(i as int, x@) by {
                        assert(Seq::new(
                            land.update(i as int, x).len(),
                            |j: int| land.update(i as int, x)[j].deep_view(),
                        ) =~= self.land.deep_view().update(i as int, x@));
                    }
                }
                Ok(&mut self.land[i])
            },
            None => Err(NoSuch::Tile(tile_id)),
        }
    }

    /// The plant on the first tile with this id, to be changed in place.
    ///
    /// Fails with [`NoSuch::Tile`] exactly where no tile in the land has that
    /// id, and with [`NoSuch::Plant`] exactly where that tile is empty.
    pub fn plant_mut(&mut self, tile_id: TileId) -> (found: Result<&mut Plant, NoSuch>)
        ensures
            match found {
                Ok(plant) => {
                    &&& old(self)@.has_plant(tile_id)
                    &&& plant@ == old(self)@.plant(tile_id)
                    &&& final(self)@ == old(self)@.with_plant(tile_id, Some(final(plant)@))
                },
                Err(e) => {
                    &&& !old(self)@.has_plant(tile_id)
                    &&& e == old(self)@.no_plant(tile_id)
                    &&& final(self)@ == old(self)@
                },
            },
    {
        match self.find_tile(tile_id) {
            Some(i) => {
                if self.land[i].plant.is_none() {
                    return Err(NoSuch::Plant(tile_id));
                }
                proof {
                    let land = self.land@;
                    assert forall|x: Tile| #![trigger land.update(i as int, x)]
                        Seq::new(
                            land.update(i as int, x).len(),
                            |j: int| land.update(i as int, x)[j].deep_view(),
                        ) == self.land.deep_view().update(i as int, x@) by {
                        assert(Seq::new(
                            land.update(i as int, x).len(),
                            |j: int| land.update(i as int, x)[j].deep_view(),
                        ) =~= self.land.deep_view().update(i as int, x@));
                    }
                }
                match &mut self.land[i].plant {
                    Some(plant) => Ok(plant),
                    None => Err(NoSuch::Plant(tile_id)),
                }
            },
            None => Err(NoSuch::Tile(tile_id)),
        }
    }

    /// The plant on the first tile with this id.
    ///
    /// Fails with [`NoSuch::Tile`] exactly where no tile in the land has that
    /// id, and with [`NoSuch::Plant`] exactly where that tile is empty.
    pub fn plant(&self, tile_id: TileId) -> (found: Result<&Plant, NoSuch>)
        ensures
            match found {
                Ok(plant) => self@.has_plant(tile_id) && plant@ == self@.plant(tile_id),
                Err(e) => e == self@.no_plant(tile_id) && !self@.has_plant(tile_id),
            },
    {
        match self.find_tile(tile_id) {
            Some(i) => match &self.land[i].plant {
                Some(plant) => Ok(plant),
                None => Err(NoSuch::Plant(tile_id)),
            },
            None => Err(NoSuch::Tile(tile_id)),
        }
    }

    /// Replaces what grows on the first tile with this id, and hands out what
    /// grew there.
    ///
    /// Fails with [`NoSuch::Tile`], and leaves the hackstead as it was, exactly
    /// where no tile in the land has that id.
    pub fn set_plant(&mut self, tile_id: TileId, plant: Option<Plant>) -> (was: Result<
        Option<Plant>,
        NoSuch,
    >)
        ensures
            match was {
                Ok(before) => {
                    &&& old(self)@.has_tile(tile_id)
                    &&& before.deep_view() == old(self)@.tile(tile_id).plant
                    &&& final(self)@ == old(self)@.with_plant(tile_id, plant.deep_view())
                },
                Err(e) => {
                    &&& !old(self)@.has_tile(tile_id)
                    &&& e == NoSuch::Tile(tile_id)
                    &&& final(self)@ == old(self)@
                },
            },
    {
        match self.find_tile(tile_id) {
            Some(i) => {
                let tile = self.land.remove(i);
                let ghost new_plant = plant.deep_view();
                let Tile { tile_id: id, owner_id, acquired, plant: before } = tile;
                self.land.insert(i, Tile { tile_id: id, owner_id, acquired, plant });
                proof {
                    assert(self.land.deep_view() =~= old(self).land.deep_view().update(
                        i as int,
                        TileView { plant: new_plant, ..old(self)@.tile(tile_id) },
                    ));
                }
                Ok(before)
            },
            None => Err(NoSuch::Tile(tile_id)),
        }
    }

    /// Takes the plant off the first tile with this id.
    ///
    /// Fails with [`NoSuch::Tile`] exactly where no tile in the land has that
    /// id, and with [`NoSuch::Plant`] exactly where that tile is empty; the
    /// hackstead is then as it was.
    pub fn take_plant(&mut self, tile_id: TileId) -> (taken: Result<Plant, NoSuch>)
        ensures
            match taken {
                Ok(plant) => {
                    &&& old(self)@.has_plant(tile_id)
                    &&& plant@ == old(self)@.plant(tile_id)
                    &&& final(self)@ == old(self)@.with_plant(tile_id, None)
                },
                Err(e) => {
                    &&& !old(self)@.has_plant(tile_id)
                    &&& e == old(self)@.no_plant(tile_id)
                    &&& final(self)@ == old(self)@
                },
            },
    {
        match self.find_tile(tile_id) {
            Some(i) => {
                if self.land[i].plant.is_none() {
                    return Err(NoSuch::Plant(tile_id));
                }
                match self.set_plant(tile_id, None) {
                    Ok(Some(plant)) => Ok(plant),
                    _ => Err(NoSuch::Plant(tile_id)),
                }
            },
            None => Err(NoSuch::Tile(tile_id)),
        }
    }

    /// Adds a tile at the end of the land.
    pub fn give_tile(&mut self, tile: Tile)
        ensures
            final(self)@ == old(self)@.with_tile(tile@),
    {
        self.land.push(tile);
        proof {
            assert(self.land.deep_view() =~= old(self).land.deep_view().push(tile@));
        }
    }

    /// The first tile on which nothing grows, if there is one.
    pub fn free_tile(&self) -> (found: Option<&Tile>)
        ensures
            match found {
                Some(tile) => occurs(vacancies(self@.land), true) && tile@ == self@.land[first(
                    vacancies(self@.land),
                    true,
                )],
                None => !occurs(vacancies(self@.land), true),
            },
    {
        let mut i: usize = 0;
        while i < self.land.len()
            invariant
                i <= self.land.len(),
                forall|j: int| 0 <= j < i ==> !vacancies(self@.land)[j],
            decreases self.land.len() - i,
        {
            if self.land[i].plant.is_none() {
                proof {
                    assert(is_first(vacancies(self@.land), true, i as int));
                    lemma_first_is(vacancies(self@.land), true, i as int);
                }
                return Some(&self.land[i]);
            }
            i = i + 1;
        }
        proof {
            if occurs(vacancies(self@.land), true) {
                let w = choose|w: int|
                    0 <= w < vacancies(self@.land).len() && vacancies(self@.land)[w] == true;
                assert(!vacancies(self@.land)[w]);
            }
        }
        None
    }

    /// Whether the hackstead is sound: no id is used twice, every item and
    /// tile belongs to the user, every ownership log is in order, and every
    /// plant knows the tile it grows on.
    pub fn is_sound(&self) -> (b: bool)
        ensures
            b == self@.wf(),
    {
        let user = self.profile.steader_id;
        let mut i: usize = 0;
        while i < self.inventory.len()
            invariant
                i <= self.inventory.len(),
                user == self@.profile.steader_id,
                forall|a: int, b: int|
                    0 <= a < b < i ==> item_ids(self@.inventory)[a] != item_ids(
                        self@.inventory,
                    )[b],
                forall|a: int|
                    0 <= a < i ==> (#[trigger] self@.inventory[a]).wf() && self@.inventory[a].owner_id
                        == user,
            decreases self.inventory.len() - i,
        {
            if !self.inventory[i].is_sound() || self.inventory[i].owner_id != user {
                proof {
                    assert(!(self@.inventory[i as int].wf() && self@.inventory[i as int].owner_id
                        == user));
                }
                return false;
            }
            let mut k: usize = 0;
            while k < i
                invariant
                    k <= i,
                    i < self.inventory.len(),
                    forall|a: int|
                        0 <= a < k ==> item_ids(self@.inventory)[a] != item_ids(
                            self@.inventory,
                        )[i as int],
                decreases i - k,
            {
                if self.inventory[k].item_id == self.inventory[i].item_id {
                    proof {
                        assert(item_ids(self@.inventory)[k as int] == item_ids(
                            self@.inventory,
                        )[i as int]);
                    }
                    return false;
                }
                k = k + 1;
            }
            i = i + 1;
        }
        let mut t: usize = 0;
        while t < self.land.len()
            invariant
                t <= self.land.len(),
                user == self@.profile.steader_id,
                forall|a: int, b: int|
                    0 <= a < b < t ==> tile_ids(self@.land)[a] != tile_ids(self@.land)[b],
                forall|a: int|
                    0 <= a < t ==> (#[trigger] self@.land[a]).wf() && self@.land[a].owner_id
                        == user,
            decreases self.land.len() - t,
        {
            let tile = &self.land[t];
            let rooted = match &tile.plant {
                Some(plant) => plant.tile_id == tile.tile_id,
                None => true,
            };
            if !rooted || tile.owner_id != user {
                proof {
                    assert(!(self@.land[t as int].wf() && self@.land[t as int].owner_id == user));
                }
                return false;
            }
            let mut k: usize = 0;
            while k < t
                invariant
                    k <= t,
                    t < self.land.len(),
                    forall|a: int|
                        0 <= a < k ==> tile_ids(self@.land)[a] != tile_ids(self@.land)[t as int],
                decreases t - k,
            {
                if self.land[k].tile_id == self.land[t].tile_id {
                    proof {
                        assert(tile_ids(self@.land)[k as int] == tile_ids(self@.land)[t as int]);
                    }
                    return false;
                }
                k = k + 1;
            }
            t = t + 1;
        }
        true
    }

    /// Whether the user may hold one more tile: whether the land is smaller
    /// than what the user's xp and extra plots allow.
    pub fn land_unlock_eligible(&self, config: &Config) -> (b: bool)
        ensures
            b == self@.land_unlock_eligible(*config),
    {
        let by_xp = count_reached(&config.land_xps, self.profile.xp);
        let land = self.land.len();
        if land < by_xp {
            true
        } else {
            ((land - by_xp) as u64) < self.profile.extra_land_plot_count
        }
    }
}

/// The first tile with an id stands in the land and has that id.
pub proof fn lemma_tile_found(hs: HacksteadView, tile_id: TileId)
    requires
        hs.has_tile(tile_id),
    ensures
        0 <= hs.tile_at(tile_id) < hs.land.len(),
        hs.tile(tile_id).tile_id == tile_id,
        hs.with_plant(tile_id, hs.tile(tile_id).plant) == hs,
{
    lemma_first_of_occurring(tile_ids(hs.land), tile_id);
    assert(hs.with_plant(tile_id, hs.tile(tile_id).plant).land =~= hs.land);
}

/// The first item with an id stands in the inventory and has that id.
pub proof fn lemma_item_found(hs: HacksteadView, item_id: ItemId)
    requires
        hs.has_item(item_id),
    ensures
        0 <= hs.item_at(item_id) < hs.inventory.len(),
        hs.item(item_id).item_id == item_id,
{
    lemma_first_of_occurring(item_ids(hs.inventory), item_id);
}

/// Taking an item out of an inventory in which no id occurs twice leaves no
/// item with its id, leaves no id twice, and leaves every other item where a
/// search by its id finds it.
pub proof fn lemma_without_item(hs: HacksteadView, item_id: ItemId)
    requires
        distinct(item_ids(hs.inventory)),
        hs.has_item(item_id),
    ensures
        distinct(item_ids(hs.without_item(item_id).inventory)),
        !hs.without_item(item_id).has_item(item_id),
        forall|other: ItemId|
            other != item_id ==> {
                &&& #[trigger] hs.without_item(item_id).has_item(other) == hs.has_item(other)
                &&& hs.has_item(other) ==> hs.without_item(item_id).item(other) == hs.item(other)
            },
        forall|i: int|
            0 <= i < hs.without_item(item_id).inventory.len() ==> exists|j: int|
                0 <= j < hs.inventory.len() && hs.inventory[j] == #[trigger] hs.without_item(
                    item_id,
                ).inventory[i],
{
    let at = hs.item_at(item_id);
    let rest = hs.without_item(item_id);
    let ids = item_ids(hs.inventory);
    let left = item_ids(rest.inventory);
    lemma_first_of_occurring(ids, item_id);
    assert forall|i: int| 0 <= i < left.len() implies left[i] == ids[if i < at {
        i
    } else {
        i + 1
    }] && rest.inventory[i] == hs.inventory[if i < at {
        i
    } else {
        i + 1
    }] by {}
    assert(!occurs(left, item_id)) by {
        if occurs(left, item_id) {
            let w = choose|w: int| 0 <= w < left.len() && left[w] == item_id;
            let v = if w < at {
                w
            } else {
                w + 1
            };
            assert(ids[v] == item_id && v != at);
        }
    }
    assert forall|other: ItemId| other != item_id implies {
        &&& #[trigger] rest.has_item(other) == hs.has_item(other)
        &&& hs.has_item(other) ==> rest.item(other) == hs.item(other)
    } by {
        if hs.has_item(other) {
            lemma_first_of_occurring(ids, other);
            let j = first(ids, other);
            let i = if j < at {
                j
            } else {
                j - 1
            };
            assert(left[i] == other);
            crate::lookup::lemma_distinct_first(left, other, i);
        }
        if rest.has_item(other) {
            let w = choose|w: int| 0 <= w < left.len() && left[w] == other;
            let v = if w < at {
                w
            } else {
                w + 1
            };
            assert(ids[v] == other);
        }
    }
    assert forall|i: int| 0 <= i < rest.inventory.len() implies exists|j: int|
        0 <= j < hs.inventory.len() && hs.inventory[j] == #[trigger] rest.inventory[i] by {
        let j = if i < at {
            i
        } else {
            i + 1
        };
        assert(hs.inventory[j] == rest.inventory[i]);
    }
}

/// A sound hackstead stays sound when an item is taken out of it.
pub proof fn lemma_without_item_wf(hs: HacksteadView, item_id: ItemId)
    requires
        hs.wf(),
        hs.has_item(item_id),
    ensures
        hs.without_item(item_id).wf(),
{
    lemma_without_item(hs, item_id);
    let rest = hs.without_item(item_id);
    assert forall|i: int| 0 <= i < rest.inventory.len() implies {
        &&& (#[trigger] rest.inventory[i]).wf()
        &&& rest.inventory[i].owner_id == rest.profile.steader_id
    } by {
        let j = choose|j: int| 0 <= j < hs.inventory.len() && hs.inventory[j] == rest.inventory[i];
        assert(hs.inventory[j].wf());
    }
}

/// A sound hackstead stays sound when it gets items that are in order and
/// belong to its user, under ids that differ from each other and from those in
/// the inventory.
pub proof fn lemma_with_items_wf(hs: HacksteadView, items: Seq<ItemView>)
    requires
        hs.wf(),
        distinct(item_ids(items)),
        forall|k: int|
            0 <= k < items.len() ==> {
                &&& (#[trigger] items[k]).wf()
                &&& items[k].owner_id == hs.profile.steader_id
                &&& !hs.has_item(items[k].item_id)
            },
    ensures
        hs.with_items(items).wf(),
{
    let more = hs.with_items(items);
    let n = hs.inventory.len();
    let ids = item_ids(more.inventory);
    assert forall|i: int, j: int| 0 <= i < j < ids.len() implies ids[i] != ids[j] by {
        if j < n {
            assert(item_ids(hs.inventory)[i] == ids[i] && item_ids(hs.inventory)[j] == ids[j]);
        } else if i < n {
            assert(item_ids(hs.inventory)[i] == ids[i]);
            assert(items[j - n].item_id == ids[j]);
        } else {
            assert(item_ids(items)[i - n] == ids[i] && item_ids(items)[j - n] == ids[j]);
        }
    }
    assert forall|i: int| 0 <= i < more.inventory.len() implies {
        &&& (#[trigger] more.inventory[i]).wf()
        &&& more.inventory[i].owner_id == more.profile.steader_id
    } by {
        if i < n {
            assert(more.inventory[i] == hs.inventory[i]);
        } else {
            assert(more.inventory[i] == items[i - n]);
        }
    }
}

/// A sound hackstead stays sound when an item is replaced by one that is in
/// order, has the same id, and belongs to its user.
pub proof fn lemma_with_item_wf(hs: HacksteadView, item_id: ItemId, item: ItemView)
    requires
        hs.wf(),
        hs.has_item(item_id),
        item.wf(),
        item.item_id == item_id,
        item.owner_id == hs.profile.steader_id,
    ensures
        hs.with_item(item_id, item).wf(),
{
    lemma_item_found(hs, item_id);
    assert(item_ids(hs.with_item(item_id, item).inventory) =~= item_ids(hs.inventory));
}

/// A sound hackstead stays sound when what grows on one of its tiles is
/// replaced, as long as a plant knows that it grows there. A search by tile id
/// finds the same places as before.
pub proof fn lemma_with_plant_wf(hs: HacksteadView, tile_id: TileId, plant: Option<PlantView>)
    requires
        hs.wf(),
        hs.has_tile(tile_id),
        plant is Some ==> plant->0.tile_id == tile_id,
    ensures
        hs.with_plant(tile_id, plant).wf(),
        tile_ids(hs.with_plant(tile_id, plant).land) == tile_ids(hs.land),
{
    lemma_tile_found(hs, tile_id);
    assert(tile_ids(hs.with_plant(tile_id, plant).land) =~= tile_ids(hs.land));
}

/// Replacing what grows on a tile by a plant leaves every tile with a plant
/// that had one, among them the tile itself.
pub proof fn lemma_with_plant_keeps_plants(
    hs: HacksteadView,
    tile_id: TileId,
    plant: PlantView,
    other: TileId,
)
    requires
        hs.has_plant(other),
        hs.has_tile(tile_id),
    ensures
        hs.with_plant(tile_id, Some(plant)).has_plant(other),
{
    lemma_tile_found(hs, tile_id);
    lemma_tile_found(hs, other);
    let after = hs.with_plant(tile_id, Some(plant));
    assert(tile_ids(after.land) =~= tile_ids(hs.land));
}

/// A sound hackstead stays sound when it gets a tile that is in order and
/// belongs to its user, under an id that no tile of the land has.
pub proof fn lemma_with_tile_wf(hs: HacksteadView, tile: TileView)
    requires
        hs.wf(),
        tile.wf(),
        tile.owner_id == hs.profile.steader_id,
        !hs.has_tile(tile.tile_id),
    ensures
        hs.with_tile(tile).wf(),
{
    let more = hs.with_tile(tile);
    let n = hs.land.len();
    let ids = tile_ids(more.land);
    assert forall|i: int, j: int| 0 <= i < j < ids.len() implies ids[i] != ids[j] by {
        if j < n {
            assert(tile_ids(hs.land)[i] == ids[i] && tile_ids(hs.land)[j] == ids[j]);
        } else {
            assert(tile_ids(hs.land)[i] == ids[i]);
        }
    }
    assert forall|i: int| 0 <= i < more.land.len() implies {
        &&& (#[trigger] more.land[i]).wf()
        &&& more.land[i].owner_id == more.profile.steader_id
    } by {
        if i < n {
            assert(more.land[i] == hs.land[i]);
        }
    }
}

impl HacksteadView {
    /// Why no plant is found on the tile with this id.
    pub open spec fn no_plant(self, tile_id: TileId) -> NoSuch {
        if self.has_tile(tile_id) {
            NoSuch::Plant(tile_id)
        } else {
            NoSuch::Tile(tile_id)
        }
    }
}

} // verus!
