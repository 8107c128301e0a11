//! Patches: what changed between two states of a hackstead.
//!
//! [`diff`] describes a new state in terms of an old one: a field of the
//! profile is named only where it changed, an item or a tile that the old state
//! already holds is named by its place there, and a tile of which only the
//! plant changed carries the plant alone. [`apply`] rebuilds the new state from
//! the old one and the patch.
use crate::hackstead::item::{clone_text, Item, ItemView};
use crate::hackstead::plant::{Plant, PlantView, Timer};
use crate::hackstead::tile::{Tile, TileView};
use crate::hackstead::{clone_timers, Hackstead, HacksteadView, Profile, ProfileView};
use crate::lookup::{first, is_first, lemma_first_is, lemma_first_of_occurring, occurs};
use vstd::prelude::*;

verus! {

/// How one item of the new inventory is to be had.
#[derive(Debug, PartialEq, Eq)]
pub enum ItemEdit {
    /// It is the item at this place of the old inventory.
    Keep(usize),
    /// It is this item.
    Put(Item),
}

/// What an [`ItemEdit`] holds.
pub enum ItemEditView {
    Keep(int),
    Put(ItemView),
}

impl DeepView for ItemEdit {
    type V = ItemEditView;

    open spec fn deep_view(&self) -> ItemEditView {
        match *self {
            ItemEdit::Keep(i) => ItemEditView::Keep(i as int),
            ItemEdit::Put(item) => ItemEditView::Put(item@),
        }
    }
}

/// How one tile of the new land is to be had.
#[derive(Debug, PartialEq, Eq)]
pub enum TileEdit {
    /// It is the tile at this place of the old land.
    Keep(usize),
    /// It is the tile at this place of the old land, with this growing on it.
    Replant(usize, Option<Plant>),
    /// It is this tile.
    Put(Tile),
}

/// What a [`TileEdit`] holds.
pub enum TileEditView {
    Keep(int),
    Replant(int, Option<PlantView>),
    Put(TileView),
}

impl DeepView for TileEdit {
    type V = TileEditView;

    open spec fn deep_view(&self) -> TileEditView {
        match *self {
            TileEdit::Keep(i) => TileEditView::Keep(i as int),
            TileEdit::Replant(i, plant) => TileEditView::Replant(i as int, plant.deep_view()),
            TileEdit::Put(tile) => TileEditView::Put(tile@),
        }
    }
}

/// The fields of a profile that changed, each with its new value.
#[derive(Debug, PartialEq, Eq)]
pub struct ProfilePatch {
    pub steader_id: Option<crate::id::SteaderId>,
    pub slack_id: Option<Option<String>>,
    pub xp: Option<u64>,
    pub joined: Option<u64>,
    pub last_active: Option<u64>,
    pub last_farm: Option<u64>,
    pub extra_land_plot_count: Option<u64>,
}

/// What a [`ProfilePatch`] holds.
pub struct ProfilePatchView {
    pub steader_id: Option<crate::id::SteaderId>,
    pub slack_id: Option<Option<Seq<char>>>,
    pub xp: Option<u64>,
    pub joined: Option<u64>,
    pub last_active: Option<u64>,
    pub last_farm: Option<u64>,
    pub extra_land_plot_count: Option<u64>,
}

impl DeepView for ProfilePatch {
    type V = ProfilePatchView;

    open spec fn deep_view(&self) -> ProfilePatchView {
        ProfilePatchView {
            steader_id: self.steader_id,
            slack_id: match self.slack_id {
                Some(Some(s)) => Some(Some(s@)),
                Some(None) => Some(None),
                None => None,
            },
            xp: self.xp,
            joined: self.joined,
            last_active: self.last_active,
            last_farm: self.last_farm,
            extra_land_plot_count: self.extra_land_plot_count,
        }
    }
}

/// What changed between two states of a hackstead.
#[derive(Debug, PartialEq, Eq)]
pub struct Patch {
    /// The fields of the profile that changed.
    pub profile: ProfilePatch,
    /// The new inventory, item by item; `None` where the inventory is as it was.
    pub inventory: Option<Vec<ItemEdit>>,
    /// The new land, tile by tile; `None` where the land is as it was.
    pub land: Option<Vec<TileEdit>>,
    /// The new timers; `None` where the timers are as they were.
    pub timers: Option<Vec<Timer>>,
}

/// What a [`Patch`] holds.
pub struct PatchView {
    pub profile: ProfilePatchView,
    pub inventory: Option<Seq<ItemEditView>>,
    pub land: Option<Seq<TileEditView>>,
    pub timers: Option<Seq<Timer>>,
}

impl DeepView for Patch {
    type V = PatchView;

    open spec fn deep_view(&self) -> PatchView {
        PatchView {
            profile: self.profile.deep_view(),
            inventory: self.inventory.deep_view(),
            land: self.land.deep_view(),
            timers: match self.timers {
                Some(t) => Some(t@),
                None => None,
            },
        }
    }
}

impl View for Patch {
    type V = PatchView;

    open spec fn view(&self) -> PatchView {
        self.deep_view()
    }
}

/// Why a patch could not be applied.
#[derive(Clone, Copy, Debug, PartialEq, Eq, Structural)]
pub enum DiffError {
    /// The patch names a place that the old state does not have.
    Patching,
}

/// A tile without regard to what grows on it.
pub open spec fn bare(tile: TileView) -> TileView {
    TileView { plant: None, ..tile }
}

/// The tiles of a land without regard to what grows on them.
pub open spec fn bare_land(land: Seq<TileView>) -> Seq<TileView> {
    Seq::new(land.len(), |i: int| bare(land[i]))
}

/// The edit that describes an item against an old inventory: its first place
/// there if it is there, the item itself if it is not.
pub open spec fn item_edit_for(old: Seq<ItemView>, item: ItemView) -> ItemEditView {
    if occurs(old, item) {
        ItemEditView::Keep(first(old, item))
    } else {
        ItemEditView::Put(item)
    }
}

/// The edit that describes a tile against an old land: its first place there if
/// it is there; else the first place of a tile that differs from it in the
/// plant alone, with the plant; else the tile itself.
pub open spec fn tile_edit_for(old: Seq<TileView>, tile: TileView) -> TileEditView {
    if occurs(old, tile) {
        TileEditView::Keep(first(old, tile))
    } else if occurs(bare_land(old), bare(tile)) {
        TileEditView::Replant(first(bare_land(old), bare(tile)), tile.plant)
    } else {
        TileEditView::Put(tile)
    }
}

/// The fields in which a new profile differs from an old one.
pub open spec fn profile_diff(old: ProfileView, new: ProfileView) -> ProfilePatchView {
    ProfilePatchView {
        steader_id: if old.steader_id == new.steader_id {
            None
        } else {
            Some(new.steader_id)
        },
        slack_id: if old.slack_id == new.slack_id {
            None
        } else {
            Some(new.slack_id)
        },
        xp: if old.xp == new.xp {
            None
        } else {
            Some(new.xp)
        },
        joined: if old.joined == new.joined {
            None
        } else {
            Some(new.joined)
        },
        last_active: if old.last_active == new.last_active {
            None
        } else {
            Some(new.last_active)
        },
        last_farm: if old.last_farm == new.last_farm {
            None
        } else {
            Some(new.last_farm)
        },
        extra_land_plot_count: if old.extra_land_plot_count == new.extra_land_plot_count {
            None
        } else {
            Some(new.extra_land_plot_count)
        },
    }
}

/// The patch that [`diff`] makes.
pub open spec fn diff_spec(old: HacksteadView, new: HacksteadView) -> PatchView {
    PatchView {
        profile: profile_diff(old.profile, new.profile),
        inventory: if old.inventory == new.inventory {
            None
        } else {
            Some(Seq::new(new.inventory.len(), |j: int| item_edit_for(old.inventory, new.inventory[j])))
        },
        land: if old.land == new.land {
            None
        } else {
            Some(Seq::new(new.land.len(), |j: int| tile_edit_for(old.land, new.land[j])))
        },
        timers: if old.timers == new.timers {
            None
        } else {
            Some(new.timers)
        },
    }
}

impl ProfilePatchView {
    /// Whether no field is named.
    pub open spec fn is_empty(self) -> bool {
        &&& self.steader_id is None
        &&& self.slack_id is None
        &&& self.xp is None
        &&& self.joined is None
        &&& self.last_active is None
        &&& self.last_farm is None
        &&& self.extra_land_plot_count is None
    }

    /// The profile that results from an old one.
    pub open spec fn applied(self, old: ProfileView) -> ProfileView {
        ProfileView {
            steader_id: match self.steader_id {
                Some(x) => x,
                None => old.steader_id,
            },
            slack_id: match self.slack_id {
                Some(x) => x,
                None => old.slack_id,
            },
            xp: match self.xp {
                Some(x) => x,
                None => old.xp,
            },
            joined: match self.joined {
                Some(x) => x,
                None => old.joined,
            },
            last_active: match self.last_active {
                Some(x) => x,
                None => old.last_active,
            },
            last_farm: match self.last_farm {
                Some(x) => x,
                None => old.last_farm,
            },
            extra_land_plot_count: match self.extra_land_plot_count {
                Some(x) => x,
                None => old.extra_land_plot_count,
            },
        }
    }
}

impl ItemEditView {
    /// Whether the edit names no place that the old inventory lacks.
    pub open spec fn fits(self, old: Seq<ItemView>) -> bool {
        match self {
            ItemEditView::Keep(i) => 0 <= i < old.len(),
            ItemEditView::Put(_) => true,
        }
    }

    /// The item that the edit stands for.
    pub open spec fn resolved(self, old: Seq<ItemView>) -> ItemView {
        match self {
            ItemEditView::Keep(i) => old[i],
            ItemEditView::Put(item) => item,
        }
    }
}

impl TileEditView {
    /// Whether the edit names no place that the old land lacks.
    pub open spec fn fits(self, old: Seq<TileView>) -> bool {
        match self {
            TileEditView::Keep(i) => 0 <= i < old.len(),
            TileEditView::Replant(i, _) => 0 <= i < old.len(),
            TileEditView::Put(_) => true,
        }
    }

    /// The tile that the edit stands for.
    pub open spec fn resolved(self, old: Seq<TileView>) -> TileView {
        match self {
            TileEditView::Keep(i) => old[i],
            TileEditView::Replant(i, plant) => TileView { plant, ..old[i] },
            TileEditView::Put(tile) => tile,
        }
    }
}

impl PatchView {
    /// Whether the patch changes nothing.
    pub open spec fn is_empty(self) -> bool {
        &&& self.profile.is_empty()
        &&& self.inventory is None
        &&& self.land is None
        &&& self.timers is None
    }

    /// Whether the patch names no place that the old state lacks.
    pub open spec fn fits(self, old: HacksteadView) -> bool {
        &&& self.inventory is Some ==> forall|j: int|
            0 <= j < self.inventory->0.len() ==> (#[trigger] self.inventory->0[j]).fits(
                old.inventory,
            )
        &&& self.land is Some ==> forall|j: int|
            0 <= j < self.land->0.len() ==> (#[trigger] self.land->0[j]).fits(old.land)
    }

    /// The state that results from an old one, where the patch fits it.
    pub open spec fn applied(self, old: HacksteadView) -> HacksteadView {
        HacksteadView {
            profile: self.profile.applied(old.profile),
            inventory: match self.inventory {
                Some(edits) => Seq::new(edits.len(), |j: int| edits[j].resolved(old.inventory)),
                None => old.inventory,
            },
            land: match self.land {
                Some(edits) => Seq::new(edits.len(), |j: int| edits[j].resolved(old.land)),
                None => old.land,
            },
            timers: match self.timers {
                Some(timers) => timers,
                None => old.timers,
            },
        }
    }
}

/// What [`apply`] returns: the new state where the patch fits the old one.
pub open spec fn apply_spec(old: HacksteadView, patch: PatchView) -> Option<HacksteadView> {
    if patch.fits(old) {
        Some(patch.applied(old))
    } else {
        None
    }
}

/// Applying the patch between two states to the first gives the second.
pub proof fn lemma_diff_round_trip(old: HacksteadView, new: HacksteadView)
    ensures
        apply_spec(old, diff_spec(old, new)) == Some(new),
{
    let patch = diff_spec(old, new);
    assert(patch.profile.applied(old.profile) == new.profile);
    if old.inventory != new.inventory {
        let edits = patch.inventory->0;
        assert forall|j: int| 0 <= j < edits.len() implies (#[trigger] edits[j]).fits(old.inventory)
            && edits[j].resolved(old.inventory) == new.inventory[j] by {
            if occurs(old.inventory, new.inventory[j]) {
                lemma_first_of_occurring(old.inventory, new.inventory[j]);
            }
        }
        assert(Seq::new(edits.len(), |j: int| edits[j].resolved(old.inventory)) =~= new.inventory);
    }
    if old.land != new.land {
        let edits = patch.land->0;
        assert forall|j: int| 0 <= j < edits.len() implies (#[trigger] edits[j]).fits(old.land)
            && edits[j].resolved(old.land) == new.land[j] by {
            let tile = new.land[j];
            if occurs(old.land, tile) {
                lemma_first_of_occurring(old.land, tile);
            } else if occurs(bare_land(old.land), bare(tile)) {
                lemma_first_of_occurring(bare_land(old.land), bare(tile));
            }
        }
        assert(Seq::new(edits.len(), |j: int| edits[j].resolved(old.land)) =~= new.land);
    }
}

/// The patch between a state and itself changes nothing.
pub proof fn lemma_diff_of_same(hs: HacksteadView)
    ensures
        diff_spec(hs, hs).is_empty(),
{
}

/// A patch that changes nothing leaves every state as it is.
pub proof fn lemma_empty_patch(old: HacksteadView, patch: PatchView)
    requires
        patch.is_empty(),
    ensures
        apply_spec(old, patch) == Some(old),
{
}

/// Whether two inventories hold the same.
pub fn same_items(a: &Vec<Item>, b: &Vec<Item>) -> (same: bool)
    ensures
        same == (a.deep_view() == b.deep_view()),
{
    if a.len() != b.len() {
        proof {
            assert(a.deep_view().len() != b.deep_view().len());
        }
        return false;
    }
    let mut i: usize = 0;
    while i < a.len()
        invariant
            i <= a.len(),
            a.len() == b.len(),
            forall|j: int| 0 <= j < i ==> (#[trigger] a@[j])@ == b@[j]@,
        decreases a.len() - i,
    {
        if !a[i].same(&b[i]) {
            proof {
                assert(a.deep_view()[i as int] != b.deep_view()[i as int]);
            }
            return false;
        }
        i = i + 1;
    }
    proof {
        assert(a.deep_view() =~= b.deep_view());
    }
    true
}

/// Whether two lands hold the same.
pub fn same_land(a: &Vec<Tile>, b: &Vec<Tile>) -> (same: bool)
    ensures
        same == (a.deep_view() == b.deep_view()),
{
    if a.len() != b.len() {
        proof {
            assert(a.deep_view().len() != b.deep_view().len());
        }
        return false;
    }
    let mut i: usize = 0;
    while i < a.len()
        invariant
            i <= a.len(),
            a.len() == b.len(),
            forall|j: int| 0 <= j < i ==> (#[trigger] a@[j])@ == b@[j]@,
        decreases a.len() - i,
    {
        if !a[i].same(&b[i]) {
            proof {
                assert(a.deep_view()[i as int] != b.deep_view()[i as int]);
            }
            return false;
        }
        i = i + 1;
    }
    proof {
        assert(a.deep_view() =~= b.deep_view());
    }
    true
}

/// Whether two lists of timers hold the same.
pub fn same_timers(a: &Vec<Timer>, b: &Vec<Timer>) -> (same: bool)
    ensures
        same == (a@ == b@),
{
    if a.len() != b.len() {
        return false;
    }
    let mut i: usize = 0;
    while i < a.len()
        invariant
            i <= a.len(),
            a.len() == b.len(),
            forall|j: int| 0 <= j < i ==> a@[j] == b@[j],
        decreases a.len() - i,
    {
        if a[i] != b[i] {
            return false;
        }
        i = i + 1;
    }
    proof {
        assert(a@ =~= b@);
    }
    true
}

fn edit_for_item(old: &Vec<Item>, item: &Item) -> (edit: ItemEdit)
    ensures
        edit.deep_view() == item_edit_for(old.deep_view(), item@),
{
    let mut i: usize = 0;
    while i < old.len()
        invariant
            i <= old.len(),
            forall|j: int| 0 <= j < i ==> old.deep_view()[j] != item@,
        decreases old.len() - i,
    {
        if old[i].same(item) {
            proof {
                assert(is_first(old.deep_view(), item@, i as int));
                lemma_first_is(old.deep_view(), item@, i as int);
            }
            return ItemEdit::Keep(i);
        }
        i = i + 1;
    }
    ItemEdit::Put(item.clone())
}

fn edit_for_tile(old: &Vec<Tile>, tile: &Tile) -> (edit: TileEdit)
    ensures
        edit.deep_view() == tile_edit_for(old.deep_view(), tile@),
{
    let mut i: usize = 0;
    while i < old.len()
        invariant
            i <= old.len(),
            forall|j: int| 0 <= j < i ==> old.deep_view()[j] != tile@,
        decreases old.len() - i,
    {
        if old[i].same(tile) {
            proof {
                assert(is_first(old.deep_view(), tile@, i as int));
                lemma_first_is(old.deep_view(), tile@, i as int);
            }
            return TileEdit::Keep(i);
        }
        i = i + 1;
    }
    let mut k: usize = 0;
    while k < old.len()
        invariant
            k <= old.len(),
            !occurs(old.deep_view(), tile@),
            forall|j: int| 0 <= j < k ==> bare_land(old.deep_view())[j] != bare(tile@),
        decreases old.len() - k,
    {
        if old[k].tile_id == tile.tile_id && old[k].owner_id == tile.owner_id && old[k].acquired
            == tile.acquired {
            proof {
                assert(bare_land(old.deep_view())[k as int] == bare(tile@));
                assert(is_first(bare_land(old.deep_view()), bare(tile@), k as int));
                lemma_first_is(bare_land(old.deep_view()), bare(tile@), k as int);
            }
            let plant = match &tile.plant {
                Some(p) => Some(p.clone()),
                None => None,
            };
            return TileEdit::Replant(k, plant);
        }
        proof {
            assert(bare_land(old.deep_view())[k as int] != bare(tile@));
        }
        k = k + 1;
    }
    TileEdit::Put(tile.clone())
}

fn diff_profile(old: &Profile, new: &Profile) -> (patch: ProfilePatch)
    ensures
        patch.deep_view() == profile_diff(old@, new@),
{
    let slack_same = match (&old.slack_id, &new.slack_id) {
        (Some(a), Some(b)) => *a == *b,
        (None, None) => true,
        _ => false,
    };
    ProfilePatch {
        steader_id: if old.steader_id == new.steader_id {
            None
        } else {
            Some(new.steader_id)
        },
        slack_id: if slack_same {
            None
        } else {
            Some(
                match &new.slack_id {
                    Some(s) => Some(clone_text(s)),
                    None => None,
                },
            )
        },
        xp: if old.xp == new.xp {
            None
        } else {
            Some(new.xp)
        },
        joined: if old.joined == new.joined {
            None
        } else {
            Some(new.joined)
        },
        last_active: if old.last_active == new.last_active {
            None
        } else {
            Some(new.last_active)
        },
        last_farm: if old.last_farm == new.last_farm {
            None
        } else {
            Some(new.last_farm)
        },
        extra_land_plot_count: if old.extra_land_plot_count == new.extra_land_plot_count {
            None
        } else {
            Some(new.extra_land_plot_count)
        },
    }
}

/// Describes a new state of a hackstead in terms of an old one.
///
/// Applying the patch to the old state gives the new one, and the patch
/// between two equal states is empty.
pub fn diff(old: &Hackstead, new: &Hackstead) -> (patch: Patch)
    ensures
        patch@ == diff_spec(old@, new@),
        apply_spec(old@, patch@) == Some(new@),
        patch@.is_empty() <==> old@ == new@,
{
    let profile = diff_profile(&old.profile, &new.profile);
    let inventory = if same_items(&old.inventory, &new.inventory) {
        None
    } else {
        let mut edits: Vec<ItemEdit> = Vec::new();
        let mut j: usize = 0;
        while j < new.inventory.len()
            invariant
                j <= new.inventory.len(),
                edits@.len() == j,
                forall|k: int|
                    0 <= k < j ==> (#[trigger] edits@[k]).deep_view() == item_edit_for(
                        old@.inventory,
                        new@.inventory[k],
                    ),
            decreases new.inventory.len() - j,
        {
            edits.push(edit_for_item(&old.inventory, &new.inventory[j]));
            j = j + 1;
        }
        proof {
            assert(edits.deep_view() =~= Seq::new(
                new@.inventory.len(),
                |j: int| item_edit_for(old@.inventory, new@.inventory[j]),
            ));
        }
        Some(edits)
    };
    let land = if same_land(&old.land, &new.land) {
        None
    } else {
        let mut edits: Vec<TileEdit> = Vec::new();
        let mut j: usize = 0;
        while j < new.land.len()
            invariant
                j <= new.land.len(),
                edits@.len() == j,
                forall|k: int|
                    0 <= k < j ==> (#[trigger] edits@[k]).deep_view() == tile_edit_for(
                        old@.land,
                        new@.land[k],
                    ),
            decreases new.land.len() - j,
        {
            edits.push(edit_for_tile(&old.land, &new.land[j]));
            j = j + 1;
        }
        proof {
            assert(edits.deep_view() =~= Seq::new(
                new@.land.len(),
                |j: int| tile_edit_for(old@.land, new@.land[j]),
            ));
        }
        Some(edits)
    };
    let timers = if same_timers(&old.timers, &new.timers) {
        None
    } else {
        Some(clone_timers(&new.timers))
    };
    proof {
        lemma_diff_round_trip(old@, new@);
    }
    Patch { profile, inventory, land, timers }
}

fn apply_profile(old: &Profile, patch: &ProfilePatch) -> (new: Profile)
    ensures
        new@ == patch.deep_view().applied(old@),
{
    Profile {
        steader_id: match patch.steader_id {
            Some(x) => x,
            None => old.steader_id,
        },
        slack_id: match &patch.slack_id {
            Some(Some(s)) => Some(clone_text(s)),
            Some(None) => None,
            None => match &old.slack_id {
                Some(s) => Some(clone_text(s)),
                None => None,
            },
        },
        xp: match patch.xp {
            Some(x) => x,
            None => old.xp,
        },
        joined: match patch.joined {
            Some(x) => x,
            None => old.joined,
        },
        last_active: match patch.last_active {
            Some(x) => x,
            None => old.last_active,
        },
        last_farm: match patch.last_farm {
            Some(x) => x,
            None => old.last_farm,
        },
        extra_land_plot_count: match patch.extra_land_plot_count {
            Some(x) => x,
            None => old.extra_land_plot_count,
        },
    }
}

fn apply_items(old: &Vec<Item>, edits: &Vec<ItemEdit>) -> (new: Option<Vec<Item>>)
    ensures
        match new {
            Some(items) => {
                &&& forall|j: int|
                    0 <= j < edits@.len() ==> (#[trigger] edits.deep_view()[j]).fits(
                        old.deep_view(),
                    )
                &&& items.deep_view() == Seq::new(
                    edits.deep_view().len(),
                    |j: int| edits.deep_view()[j].resolved(old.deep_view()),
                )
            },
            None => exists|j: int|
                0 <= j < edits@.len() && !(#[trigger] edits.deep_view()[j]).fits(old.deep_view()),
        },
{
    let mut items: Vec<Item> = Vec::new();
    let mut j: usize = 0;
    while j < edits.len()
        invariant
            j <= edits.len(),
            items@.len() == j,
            forall|k: int| 0 <= k < j ==> (#[trigger] edits.deep_view()[k]).fits(old.deep_view()),
            forall|k: int|
                0 <= k < j ==> (#[trigger] items@[k])@ == edits.deep_view()[k].resolved(
                    old.deep_view(),
                ),
        decreases edits.len() - j,
    {
        match &edits[j] {
            ItemEdit::Keep(i) => {
                if *i < old.len() {
                    items.push(old[*i].clone());
                } else {
                    proof {
                        assert(!edits.deep_view()[j as int].fits(old.deep_view()));
                    }
                    return None;
                }
            },
            ItemEdit::Put(item) => {
                items.push(item.clone());
            },
        }
        j = j + 1;
    }
    proof {
        assert(items.deep_view() =~= Seq::new(
            edits.deep_view().len(),
            |j: int| edits.deep_view()[j].resolved(old.deep_view()),
        ));
    }
    Some(items)
}

fn apply_tiles(old: &Vec<Tile>, edits: &Vec<TileEdit>) -> (new: Option<Vec<Tile>>)
    ensures
        match new {
            Some(land) => {
                &&& forall|j: int|
                    0 <= j < edits@.len() ==> (#[trigger] edits.deep_view()[j]).fits(
                        old.deep_view(),
                    )
                &&& land.deep_view() == Seq::new(
                    edits.deep_view().len(),
                    |j: int| edits.deep_view()[j].resolved(old.deep_view()),
                )
            },
            None => exists|j: int|
                0 <= j < edits@.len() && !(#[trigger] edits.deep_view()[j]).fits(old.deep_view()),
        },
{
    let mut land: Vec<Tile> = Vec::new();
    let mut j: usize = 0;
    while j < edits.len()
        invariant
            j <= edits.len(),
            land@.len() == j,
            forall|k: int| 0 <= k < j ==> (#[trigger] edits.deep_view()[k]).fits(old.deep_view()),
            forall|k: int|
                0 <= k < j ==> (#[trigger] land@[k])@ == edits.deep_view()[k].resolved(
                    old.deep_view(),
                ),
        decreases edits.len() - j,
    {
        match &edits[j] {
            TileEdit::Keep(i) => {
                if *i < old.len() {
                    land.push(old[*i].clone());
                } else {
                    proof {
                        assert(!edits.deep_view()[j as int].fits(old.deep_view()));
                    }
                    return None;
                }
            },
            TileEdit::Replant(i, plant) => {
                if *i < old.len() {
                    let tile = &old[*i];
                    land.push(
                        Tile {
                            tile_id: tile.tile_id,
                            owner_id: tile.owner_id,
                            acquired: tile.acquired,
                            plant: match plant {
                                Some(p) => Some(p.clone()),
                                None => None,
                            },
                        },
                    );
                } else {
                    proof {
                        assert(!edits.deep_view()[j as int].fits(old.deep_view()));
                    }
                    return None;
                }
            },
            TileEdit::Put(tile) => {
                land.push(tile.clone());
            },
        }
        j = j + 1;
    }
    proof {
        assert(land.deep_view() =~= Seq::new(
            edits.deep_view().len(),
            |j: int| edits.deep_view()[j].resolved(old.deep_view()),
        ));
    }
    Some(land)
}

/// Rebuilds a new state of a hackstead from an old one and a patch.
///
/// Fails with [`DiffError::Patching`] exactly where the patch names a place
/// that the old state does not have.
pub fn apply(old: &Hackstead, patch: &Patch) -> (new: Result<Hackstead, DiffError>)
    ensures
        match new {
            Ok(hs) => apply_spec(old@, patch@) == Some(hs@),
            Err(e) => apply_spec(old@, patch@) is None && e == DiffError::Patching,
        },
{
    let profile = apply_profile(&old.profile, &patch.profile);
    let inventory = match &patch.inventory {
        Some(edits) => match apply_items(&old.inventory, edits) {
            Some(items) => items,
            None => {
                return Err(DiffError::Patching);
            },
        },
        None => crate::hackstead::clone_items(&old.inventory),
    };
    let land = match &patch.land {
        Some(edits) => match apply_tiles(&old.land, edits) {
            Some(land) => land,
            None => {
                return Err(DiffError::Patching);
            },
        },
        None => crate::hackstead::clone_land(&old.land),
    };
    let timers = match &patch.timers {
        Some(timers) => clone_timers(timers),
        None => clone_timers(&old.timers),
    };
    Ok(Hackstead { profile, inventory, land, timers })
}

impl Patch {
    /// Whether the patch changes nothing.
    pub fn is_empty(&self) -> (b: bool)
        ensures
            b == self@.is_empty(),
    {
        self.profile.steader_id.is_none() && self.profile.slack_id.is_none()
            && self.profile.xp.is_none() && self.profile.joined.is_none()
            && self.profile.last_active.is_none() && self.profile.last_farm.is_none()
            && self.profile.extra_land_plot_count.is_none() && self.inventory.is_none()
            && self.land.is_none() && self.timers.is_none()
    }
}

} // verus!
