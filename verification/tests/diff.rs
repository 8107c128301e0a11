use backend::config::{ItemConf, PlantConf, SkillConf};
use backend::diff::{apply, diff, DiffError, ItemEdit, Patch, ProfilePatch, TileEdit};
use backend::hackstead::item::{Acquisition, Gotchi, Item};
use backend::hackstead::plant::{Effect, Lifecycle, Plant, Timer, TimerKind};
use backend::hackstead::tile::Tile;
use backend::hackstead::Hackstead;
use backend::id::{EffectId, ItemId, SteaderId, TileId};
use rand::Rng;

fn bob() -> SteaderId {
    SteaderId(0xb0b)
}

fn item(id: u128) -> Item {
    Item::from_conf(ItemId(id), ItemConf(0), bob(), Acquisition::Farmed, false, &String::new())
}

fn stead() -> Hackstead {
    let mut hs = Hackstead::empty(bob(), Some("U14MB0B".to_string()), 5);
    hs.give_item(item(1));
    hs.give_item(item(2));
    hs.give_item(item(3));
    hs.give_tile(Tile::new(bob(), TileId(10), 6));
    hs.give_tile(Tile::new(bob(), TileId(11), 7));
    hs
}

fn no_change() -> Patch {
    Patch {
        profile: ProfilePatch {
            steader_id: None,
            slack_id: None,
            xp: None,
            joined: None,
            last_active: None,
            last_farm: None,
            extra_land_plot_count: None,
        },
        inventory: None,
        land: None,
        timers: None,
    }
}

#[test]
fn the_patch_between_equal_states_is_empty() {
    let hs = stead();
    let patch = diff(&hs, &hs.clone());
    assert!(patch.is_empty());
    assert_eq!(patch, no_change());
    assert_eq!(apply(&hs, &patch), Ok(hs));
}

#[test]
fn a_changed_field_is_named_alone() {
    let old = stead();
    let mut new = old.clone();
    new.profile.xp = 100;
    let patch = diff(&old, &new);
    assert!(!patch.is_empty());
    let mut expected = no_change();
    expected.profile.xp = Some(100);
    assert_eq!(patch, expected);
    assert_eq!(apply(&old, &patch), Ok(new));

    let mut new = old.clone();
    new.profile.slack_id = None;
    new.profile.extra_land_plot_count = 2;
    let patch = diff(&old, &new);
    let mut expected = no_change();
    expected.profile.slack_id = Some(None);
    expected.profile.extra_land_plot_count = Some(2);
    assert_eq!(patch, expected);
    assert_eq!(apply(&old, &patch), Ok(new));
}

#[test]
fn kept_items_are_named_by_their_place() {
    let old = stead();
    let mut new = old.clone();
    new.take_item(ItemId(2)).unwrap();
    new.give_item(item(4));
    let patch = diff(&old, &new);
    assert_eq!(
        patch.inventory,
        Some(vec![ItemEdit::Keep(0), ItemEdit::Keep(2), ItemEdit::Put(item(4))])
    );
    assert_eq!(patch.land, None);
    assert_eq!(patch.timers, None);
    assert_eq!(apply(&old, &patch), Ok(new));
}

#[test]
fn a_plant_that_appears_or_goes_is_told_as_a_replant() {
    let old = stead();
    let mut new = old.clone();
    let plant = Plant::from_conf(bob(), TileId(11), PlantConf(0), &"Bractus".to_string());
    new.set_plant(TileId(11), Some(plant.clone())).unwrap();
    new.give_tile(Tile::new(bob(), TileId(12), 8));
    let patch = diff(&old, &new);
    assert_eq!(
        patch.land,
        Some(vec![
            TileEdit::Keep(0),
            TileEdit::Replant(1, Some(plant)),
            TileEdit::Put(Tile::new(bob(), TileId(12), 8)),
        ])
    );
    assert_eq!(apply(&old, &patch), Ok(new.clone()));

    let back = diff(&new, &old);
    assert_eq!(back.land, Some(vec![TileEdit::Keep(0), TileEdit::Replant(1, None)]));
    assert_eq!(apply(&new, &back), Ok(old));
}

#[test]
fn changed_timers_are_sent_whole() {
    let old = stead();
    let mut new = old.clone();
    let timer = Timer {
        until_finish: 4,
        tile_id: TileId(10),
        lifecycle: Lifecycle::Annual,
        kind: TimerKind::Xp,
    };
    new.timers.push(timer);
    let patch = diff(&old, &new);
    assert_eq!(patch.timers, Some(vec![timer]));
    assert_eq!(apply(&old, &patch), Ok(new));
}

#[test]
fn a_patch_that_does_not_fit_is_refused() {
    let old = stead();
    let mut patch = no_change();
    patch.inventory = Some(vec![ItemEdit::Keep(0), ItemEdit::Keep(3)]);
    assert_eq!(apply(&old, &patch), Err(DiffError::Patching));
    patch.inventory = Some(vec![ItemEdit::Keep(2), ItemEdit::Keep(2)]);
    let twice = apply(&old, &patch).unwrap();
    assert_eq!(twice.inventory, vec![item(3), item(3)]);

    let mut patch = no_change();
    patch.land = Some(vec![TileEdit::Replant(2, None)]);
    assert_eq!(apply(&old, &patch), Err(DiffError::Patching));
    patch.land = Some(vec![TileEdit::Keep(2)]);
    assert_eq!(apply(&old, &patch), Err(DiffError::Patching));
    patch.land = Some(vec![]);
    assert!(apply(&old, &patch).unwrap().land.is_empty());
}

fn random_text(rng: &mut rand::rngs::ThreadRng) -> String {
    let len = rng.gen_range(0..4);
    (0..len).map(|_| rng.gen_range('a'..='c')).collect()
}

fn random_item(rng: &mut rand::rngs::ThreadRng) -> Item {
    let mut made = Item::from_conf(
        ItemId(rng.gen_range(0..6)),
        ItemConf(rng.gen_range(0..3)),
        SteaderId(rng.gen_range(0..2)),
        Acquisition::Spawned,
        false,
        &String::new(),
    );
    for _ in 0..rng.gen_range(0..3) {
        made.trade(SteaderId(rng.gen_range(0..3)));
    }
    if rng.gen_bool(0.3) {
        made.gotchi = Some(Gotchi { nickname: random_text(rng) });
    }
    made
}

fn random_plant(rng: &mut rand::rngs::ThreadRng, tile_id: TileId) -> Plant {
    let mut plant = Plant::from_conf(
        SteaderId(rng.gen_range(0..2)),
        tile_id,
        PlantConf(rng.gen_range(0..2)),
        &random_text(rng),
    );
    plant.xp = rng.gen_range(0..3);
    for _ in 0..rng.gen_range(0..3) {
        plant.effects.push(Effect {
            effect_id: EffectId(rng.gen_range(0..4)),
            item_conf: ItemConf(rng.gen_range(0..2)),
            effect_index: rng.gen_range(0..2),
            duration: if rng.gen_bool(0.5) { Some(rng.gen_range(0..9)) } else { None },
        });
    }
    for _ in 0..rng.gen_range(0..2) {
        plant.skills.push(SkillConf(rng.gen_range(0..3)));
    }
    plant
}

fn random_stead(rng: &mut rand::rngs::ThreadRng) -> Hackstead {
    let slack = if rng.gen_bool(0.5) { Some(random_text(rng)) } else { None };
    let mut hs = Hackstead::empty(SteaderId(rng.gen_range(0..2)), slack, rng.gen_range(0..3));
    hs.profile.xp = rng.gen_range(0..3);
    hs.profile.extra_land_plot_count = rng.gen_range(0..2);
    for _ in 0..rng.gen_range(0..5) {
        hs.give_item(random_item(rng));
    }
    for _ in 0..rng.gen_range(0..4) {
        let tile_id = TileId(rng.gen_range(0..4));
        let mut tile = Tile::new(SteaderId(rng.gen_range(0..2)), tile_id, rng.gen_range(0..2));
        if rng.gen_bool(0.5) {
            tile.plant = Some(random_plant(rng, tile_id));
        }
        hs.give_tile(tile);
    }
    for _ in 0..rng.gen_range(0..3) {
        hs.timers.push(Timer {
            until_finish: rng.gen_range(0..5),
            tile_id: TileId(rng.gen_range(0..4)),
            lifecycle: if rng.gen_bool(0.5) {
                Lifecycle::Annual
            } else {
                Lifecycle::Perennial { duration: rng.gen_range(0..5) }
            },
            kind: match rng.gen_range(0..4) {
                0 => TimerKind::Yield,
                1 => TimerKind::Craft { recipe_index: rng.gen_range(0..2) },
                2 => TimerKind::Rub { effect_id: EffectId(rng.gen_range(0..4)) },
                _ => TimerKind::Xp,
            },
        });
    }
    hs
}

fn random_change(rng: &mut rand::rngs::ThreadRng, old: &Hackstead) -> Hackstead {
    let mut new = old.clone();
    for _ in 0..rng.gen_range(0..4) {
        match rng.gen_range(0..7) {
            0 => new.profile.xp += 1,
            1 if !new.inventory.is_empty() => {
                let at = rng.gen_range(0..new.inventory.len());
                new.inventory.remove(at);
            }
            2 => new.give_item(random_item(rng)),
            3 if !new.land.is_empty() => {
                let at = rng.gen_range(0..new.land.len());
                let tile_id = new.land[at].tile_id;
                new.land[at].plant =
                    if rng.gen_bool(0.5) { Some(random_plant(rng, tile_id)) } else { None };
            }
            4 if !new.inventory.is_empty() => {
                let at = rng.gen_range(0..new.inventory.len());
                new.inventory[at].trade(SteaderId(rng.gen_range(0..3)));
            }
            5 => new.timers.clear(),
            _ => new.inventory.reverse(),
        }
    }
    new
}

#[test]
fn diff_round_trip() {
    let mut rng = rand::thread_rng();
    for round in 0..100 {
        let old = random_stead(&mut rng);
        let new = if round % 2 == 0 { random_stead(&mut rng) } else { random_change(&mut rng, &old) };
        let patch = diff(&old, &new);
        assert_eq!(apply(&old, &patch).as_ref(), Ok(&new), "old: {:#?}\npatch: {:#?}", old, patch);
        assert_eq!(patch.is_empty(), old == new);
    }
}
