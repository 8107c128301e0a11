//! What travels through the wormhole: asks from the client, notes to it.
use crate::config::{ItemConf, SkillConf};
use crate::diff::{Patch, PatchView};
use crate::hackstead::clone_items;
use crate::hackstead::item::{clone_text, Item, ItemView};
use crate::hackstead::plant::{clone_effects, Craft, Effect, Plant, PlantView, TimerKind};
use crate::hackstead::tile::{Tile, TileView};
use crate::id::{ItemId, SteaderId, TileId};
use vstd::prelude::*;

verus! {

/// What a user asks to be done with items.
#[derive(Debug, PartialEq, Eq)]
pub enum ItemAsk {
    /// Make items of an archetype out of nothing.
    Spawn { item_conf: ItemConf, amount: usize },
    /// Give items to another user.
    Throw { receiver_id: SteaderId, item_ids: Vec<ItemId> },
    /// Open an item for what is inside.
    Hatch { hatchable_item_id: ItemId },
    /// Give a gotchi a new name.
    GotchiRename { item_id: ItemId, new_name: String },
}

/// What a user asks to be done with plants.
#[derive(Debug, PartialEq, Eq)]
pub enum PlantAsk {
    /// Plant a seed on a tile.
    Summon { tile_id: TileId, seed_item_id: ItemId },
    /// Remove the plant from a tile.
    Slaughter { tile_id: TileId },
    /// Give the plant on a tile xp.
    KnowledgeSnort { tile_id: TileId, xp: u64 },
    /// Rub an item onto the plant on a tile.
    Rub { tile_id: TileId, rub_item_id: ItemId },
    /// Have the plant on a tile craft a recipe.
    Craft { tile_id: TileId, recipe_index: usize },
    /// Give the plant on a tile a new name.
    Nickname { tile_id: TileId, new_name: String },
    /// Have the plant on a tile learn a skill.
    SkillUnlock { tile_id: TileId, source_skill_conf: SkillConf, unlock_index: usize },
}

/// What a user asks for.
#[derive(Debug, PartialEq, Eq)]
pub enum Ask {
    /// Give the user xp.
    KnowledgeSnort { xp: u64 },
    /// Something with a plant.
    Plant(PlantAsk),
    /// Something with items.
    Item(ItemAsk),
    /// Redeem an item for a new tile.
    TileSummon { tile_redeemable_item_id: ItemId },
}

/// An ask, with the number by which the client will know the answer.
#[derive(Debug, PartialEq, Eq)]
pub struct AskMessage {
    pub ask: Ask,
    pub ask_id: usize,
}

/// The answer to an ask: what it gave, or why it failed.
#[derive(Debug, PartialEq, Eq)]
pub enum AskedNote {
    KnowledgeSnortResult(Result<u64, String>),
    PlantSummonResult(Result<Plant, String>),
    PlantSlaughterResult(Result<Plant, String>),
    PlantKnowledgeSnortResult(Result<u64, String>),
    PlantRubStartResult(Result<Vec<Effect>, String>),
    PlantCraftStartResult(Result<Craft, String>),
    PlantNicknameResult(Result<String, String>),
    PlantSkillUnlockResult(Result<u64, String>),
    ItemSpawnResult(Result<Vec<Item>, String>),
    ItemThrowResult(Result<Vec<Item>, String>),
    ItemHatchResult(Result<Vec<Item>, String>),
    GotchiRenameResult(Result<String, String>),
    TileSummonResult(Result<Tile, String>),
}

/// What an [`AskedNote`] holds.
pub enum AskedNoteView {
    KnowledgeSnortResult(Result<u64, Seq<char>>),
    PlantSummonResult(Result<PlantView, Seq<char>>),
    PlantSlaughterResult(Result<PlantView, Seq<char>>),
    PlantKnowledgeSnortResult(Result<u64, Seq<char>>),
    PlantRubStartResult(Result<Seq<Effect>, Seq<char>>),
    PlantCraftStartResult(Result<Craft, Seq<char>>),
    PlantNicknameResult(Result<Seq<char>, Seq<char>>),
    PlantSkillUnlockResult(Result<u64, Seq<char>>),
    ItemSpawnResult(Result<Seq<ItemView>, Seq<char>>),
    ItemThrowResult(Result<Seq<ItemView>, Seq<char>>),
    ItemHatchResult(Result<Seq<ItemView>, Seq<char>>),
    GotchiRenameResult(Result<Seq<char>, Seq<char>>),
    TileSummonResult(Result<TileView, Seq<char>>),
}

/// What a result with a number holds.
pub open spec fn number_result(r: Result<u64, String>) -> Result<u64, Seq<char>> {
    match r {
        Ok(n) => Ok(n),
        Err(e) => Err(e@),
    }
}

/// What a result with a plant holds.
pub open spec fn plant_result(r: Result<Plant, String>) -> Result<PlantView, Seq<char>> {
    match r {
        Ok(p) => Ok(p@),
        Err(e) => Err(e@),
    }
}

/// What a result with effects holds.
pub open spec fn effects_result(r: Result<Vec<Effect>, String>) -> Result<Seq<Effect>, Seq<char>> {
    match r {
        Ok(effects) => Ok(effects@),
        Err(e) => Err(e@),
    }
}

/// What a result with a craft holds.
pub open spec fn craft_result(r: Result<Craft, String>) -> Result<Craft, Seq<char>> {
    match r {
        Ok(c) => Ok(c),
        Err(e) => Err(e@),
    }
}

/// What a result with a text holds.
pub open spec fn text_result(r: Result<String, String>) -> Result<Seq<char>, Seq<char>> {
    match r {
        Ok(t) => Ok(t@),
        Err(e) => Err(e@),
    }
}

/// What a result with items holds.
pub open spec fn items_result(r: Result<Vec<Item>, String>) -> Result<Seq<ItemView>, Seq<char>> {
    match r {
        Ok(items) => Ok(items.deep_view()),
        Err(e) => Err(e@),
    }
}

/// What a result with a tile holds.
pub open spec fn tile_result(r: Result<Tile, String>) -> Result<TileView, Seq<char>> {
    match r {
        Ok(t) => Ok(t@),
        Err(e) => Err(e@),
    }
}

impl DeepView for AskedNote {
    type V = AskedNoteView;

    open spec fn deep_view(&self) -> AskedNoteView {
        match *self {
            AskedNote::KnowledgeSnortResult(r) => AskedNoteView::KnowledgeSnortResult(
                number_result(r),
            ),
            AskedNote::PlantSummonResult(r) => AskedNoteView::PlantSummonResult(plant_result(r)),
            AskedNote::PlantSlaughterResult(r) => AskedNoteView::PlantSlaughterResult(
                plant_result(r),
            ),
            AskedNote::PlantKnowledgeSnortResult(r) => AskedNoteView::PlantKnowledgeSnortResult(
                number_result(r),
            ),
            AskedNote::PlantRubStartResult(r) => AskedNoteView::PlantRubStartResult(
                effects_result(r),
            ),
            AskedNote::PlantCraftStartResult(r) => AskedNoteView::PlantCraftStartResult(
                craft_result(r),
            ),
            AskedNote::PlantNicknameResult(r) => AskedNoteView::PlantNicknameResult(text_result(r)),
            AskedNote::PlantSkillUnlockResult(r) => AskedNoteView::PlantSkillUnlockResult(
                number_result(r),
            ),
            AskedNote::ItemSpawnResult(r) => AskedNoteView::ItemSpawnResult(items_result(r)),
            AskedNote::ItemThrowResult(r) => AskedNoteView::ItemThrowResult(items_result(r)),
            AskedNote::ItemHatchResult(r) => AskedNoteView::ItemHatchResult(items_result(r)),
            AskedNote::GotchiRenameResult(r) => AskedNoteView::GotchiRenameResult(text_result(r)),
            AskedNote::TileSummonResult(r) => AskedNoteView::TileSummonResult(tile_result(r)),
        }
    }
}

impl View for AskedNote {
    type V = AskedNoteView;

    open spec fn view(&self) -> AskedNoteView {
        self.deep_view()
    }
}

impl AskedNoteView {
    /// Whether the answer says that the ask failed.
    pub open spec fn is_err(self) -> bool {
        match self {
            AskedNoteView::KnowledgeSnortResult(r) => r is Err,
            AskedNoteView::PlantSummonResult(r) => r is Err,
            AskedNoteView::PlantSlaughterResult(r) => r is Err,
            AskedNoteView::PlantKnowledgeSnortResult(r) => r is Err,
            AskedNoteView::PlantRubStartResult(r) => r is Err,
            AskedNoteView::PlantCraftStartResult(r) => r is Err,
            AskedNoteView::PlantNicknameResult(r) => r is Err,
            AskedNoteView::PlantSkillUnlockResult(r) => r is Err,
            AskedNoteView::ItemSpawnResult(r) => r is Err,
            AskedNoteView::ItemThrowResult(r) => r is Err,
            AskedNoteView::ItemHatchResult(r) => r is Err,
            AskedNoteView::GotchiRenameResult(r) => r is Err,
            AskedNoteView::TileSummonResult(r) => r is Err,
        }
    }
}

fn clone_number_result(r: &Result<u64, String>) -> (copy: Result<u64, String>)
    ensures
        number_result(copy) == number_result(*r),
{
    match r {
        Ok(n) => Ok(*n),
        Err(e) => Err(clone_text(e)),
    }
}

fn clone_plant_result(r: &Result<Plant, String>) -> (copy: Result<Plant, String>)
    ensures
        plant_result(copy) == plant_result(*r),
{
    match r {
        Ok(p) => Ok(p.clone()),
        Err(e) => Err(clone_text(e)),
    }
}

fn clone_text_result(r: &Result<String, String>) -> (copy: Result<String, String>)
    ensures
        text_result(copy) == text_result(*r),
{
    match r {
        Ok(t) => Ok(clone_text(t)),
        Err(e) => Err(clone_text(e)),
    }
}

fn clone_items_result(r: &Result<Vec<Item>, String>) -> (copy: Result<Vec<Item>, String>)
    ensures
        items_result(copy) == items_result(*r),
{
    match r {
        Ok(items) => Ok(clone_items(items)),
        Err(e) => Err(clone_text(e)),
    }
}

impl Clone for AskedNote {
    fn clone(&self) -> (copy: AskedNote)
        ensures
            copy@ == self@,
    {
        match self {
            AskedNote::KnowledgeSnortResult(r) => AskedNote::KnowledgeSnortResult(
                clone_number_result(r),
            ),
            AskedNote::PlantSummonResult(r) => AskedNote::PlantSummonResult(clone_plant_result(r)),
            AskedNote::PlantSlaughterResult(r) => AskedNote::PlantSlaughterResult(
                clone_plant_result(r),
            ),
            AskedNote::PlantKnowledgeSnortResult(r) => AskedNote::PlantKnowledgeSnortResult(
                clone_number_result(r),
            ),
            AskedNote::PlantRubStartResult(r) => AskedNote::PlantRubStartResult(
                match r {
                    Ok(effects) => Ok(clone_effects(effects)),
                    Err(e) => Err(clone_text(e)),
                },
            ),
            AskedNote::PlantCraftStartResult(r) => AskedNote::PlantCraftStartResult(
                match r {
                    Ok(c) => Ok(*c),
                    Err(e) => Err(clone_text(e)),
                },
            ),
            AskedNote::PlantNicknameResult(r) => AskedNote::PlantNicknameResult(
                clone_text_result(r),
            ),
            AskedNote::PlantSkillUnlockResult(r) => AskedNote::PlantSkillUnlockResult(
                clone_number_result(r),
            ),
            AskedNote::ItemSpawnResult(r) => AskedNote::ItemSpawnResult(clone_items_result(r)),
            AskedNote::ItemThrowResult(r) => AskedNote::ItemThrowResult(clone_items_result(r)),
            AskedNote::ItemHatchResult(r) => AskedNote::ItemHatchResult(clone_items_result(r)),
            AskedNote::GotchiRenameResult(r) => AskedNote::GotchiRenameResult(clone_text_result(r)),
            AskedNote::TileSummonResult(r) => AskedNote::TileSummonResult(
                match r {
                    Ok(t) => Ok(t.clone()),
                    Err(e) => Err(clone_text(e)),
                },
            ),
        }
    }
}

impl AskedNote {
    /// Whether the answer says that the ask failed.
    pub fn is_err(&self) -> (b: bool)
        ensures
            b == self@.is_err(),
    {
        match self {
            AskedNote::KnowledgeSnortResult(r) => r.is_err(),
            AskedNote::PlantSummonResult(r) => r.is_err(),
            AskedNote::PlantSlaughterResult(r) => r.is_err(),
            AskedNote::PlantKnowledgeSnortResult(r) => r.is_err(),
            AskedNote::PlantRubStartResult(r) => r.is_err(),
            AskedNote::PlantCraftStartResult(r) => r.is_err(),
            AskedNote::PlantNicknameResult(r) => r.is_err(),
            AskedNote::PlantSkillUnlockResult(r) => r.is_err(),
            AskedNote::ItemSpawnResult(r) => r.is_err(),
            AskedNote::ItemThrowResult(r) => r.is_err(),
            AskedNote::ItemHatchResult(r) => r.is_err(),
            AskedNote::GotchiRenameResult(r) => r.is_err(),
            AskedNote::TileSummonResult(r) => r.is_err(),
        }
    }
}

/// A note that nobody asked for: something happened to the hackstead.
#[derive(Debug, PartialEq, Eq)]
pub enum RudeNote {
    /// Another user gave items.
    ItemThrowReceipt { from: SteaderId, items: Vec<Item> },
    /// The plant on a tile yielded.
    YieldFinish { tile_id: TileId },
    /// The plant on a tile finished its craft.
    CraftFinish { tile_id: TileId },
    /// An effect wore off the plant on a tile.
    RubEffectFinish { tile_id: TileId, effect: Effect },
    /// A timer went on; so many ticks are left.
    TimerUpdate { tile_id: TileId, kind: TimerKind, value: u64 },
}

/// What a [`RudeNote`] holds.
pub enum RudeNoteView {
    ItemThrowReceipt { from: SteaderId, items: Seq<ItemView> },
    YieldFinish { tile_id: TileId },
    CraftFinish { tile_id: TileId },
    RubEffectFinish { tile_id: TileId, effect: Effect },
    TimerUpdate { tile_id: TileId, kind: TimerKind, value: u64 },
}

impl DeepView for RudeNote {
    type V = RudeNoteView;

    open spec fn deep_view(&self) -> RudeNoteView {
        match *self {
            RudeNote::ItemThrowReceipt { from, items } => RudeNoteView::ItemThrowReceipt {
                from,
                items: items.deep_view(),
            },
            RudeNote::YieldFinish { tile_id } => RudeNoteView::YieldFinish { tile_id },
            RudeNote::CraftFinish { tile_id } => RudeNoteView::CraftFinish { tile_id },
            RudeNote::RubEffectFinish { tile_id, effect } => RudeNoteView::RubEffectFinish {
                tile_id,
                effect,
            },
            RudeNote::TimerUpdate { tile_id, kind, value } => RudeNoteView::TimerUpdate {
                tile_id,
                kind,
                value,
            },
        }
    }
}

impl View for RudeNote {
    type V = RudeNoteView;

    open spec fn view(&self) -> RudeNoteView {
        self.deep_view()
    }
}

/// How to bring the client's copy of the hackstead up to date, in the encoding
/// that the client chose.
#[derive(Debug, PartialEq, Eq)]
pub enum EditNote {
    /// To be sent as text.
    Json(Patch),
    /// To be sent in binary.
    Bincode(Patch),
}

/// What an [`EditNote`] holds.
pub enum EditNoteView {
    Json(PatchView),
    Bincode(PatchView),
}

impl DeepView for EditNote {
    type V = EditNoteView;

    open spec fn deep_view(&self) -> EditNoteView {
        match *self {
            EditNote::Json(patch) => EditNoteView::Json(patch@),
            EditNote::Bincode(patch) => EditNoteView::Bincode(patch@),
        }
    }
}

impl View for EditNote {
    type V = EditNoteView;

    open spec fn view(&self) -> EditNoteView {
        self.deep_view()
    }
}

/// A message to the client.
#[derive(Debug, PartialEq, Eq)]
pub enum Note {
    /// The answer to the ask with this number.
    Asked { ask_id: usize, note: AskedNote },
    /// Something happened that nobody asked for.
    Rude(RudeNote),
    /// The hackstead changed.
    Edit(EditNote),
}

/// What a [`Note`] holds.
pub enum NoteView {
    Asked { ask_id: usize, note: AskedNoteView },
    Rude(RudeNoteView),
    Edit(EditNoteView),
}

impl DeepView for Note {
    type V = NoteView;

    open spec fn deep_view(&self) -> NoteView {
        match *self {
            Note::Asked { ask_id, note } => NoteView::Asked { ask_id, note: note@ },
            Note::Rude(note) => NoteView::Rude(note@),
            Note::Edit(note) => NoteView::Edit(note@),
        }
    }
}

impl View for Note {
    type V = NoteView;

    open spec fn view(&self) -> NoteView {
        self.deep_view()
    }
}

} // verus!
