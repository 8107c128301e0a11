use backend::config::{
    Config, HatchEntry, ItemArchetype, ItemConf, LandUnlock, PlantArchetype, PlantConf,
    RubEffectConf, SkillArchetype, SkillConf, SkillUnlock,
};
use backend::hackstead::item::{Acquisition, LoggedOwner};
use backend::hackstead::plant::{Effect, Lifecycle, Plant, Timer, TimerKind};
use backend::hackstead::tile::Tile;
use backend::hackstead::Hackstead;
use backend::id::{EffectId, ItemId, NoSuch, SteaderId, TileId};
use backend::text::Complaint;
use backend::wormhole::session::item::{hatch, rename_gotchi, spawn};
use backend::wormhole::session::tile;
use backend::wormhole::session::tile::plant::{nickname, rub, skill_unlock, summon};
use backend::wormhole::session::SessSend;

const WARP_POWDER: ItemConf = ItemConf(0);
const EGG: ItemConf = ItemConf(1);
const LAND_DEED: ItemConf = ItemConf(2);
const LAND_GIFT: ItemConf = ItemConf(3);
const SEED: ItemConf = ItemConf(4);
const GOTCHI: ItemConf = ItemConf(5);
const DUD_EGG: ItemConf = ItemConf(6);
const LUCKY_EGG: ItemConf = ItemConf(7);
const WILD_SEED: ItemConf = ItemConf(8);
const BRACTUS: PlantConf = PlantConf(0);
const COFFEA: PlantConf = PlantConf(1);

fn plain(name: &str) -> ItemArchetype {
    ItemArchetype {
        name: name.to_string(),
        gotchi: false,
        hatch_table: None,
        unlocks_land: None,
        grows_into: None,
        plant_rub_effects: vec![],
    }
}

fn config() -> Config {
    Config {
        items: vec![
            ItemArchetype {
                plant_rub_effects: vec![
                    RubEffectConf { for_plants: vec![BRACTUS], duration: Some(5) },
                    RubEffectConf { for_plants: vec![PlantConf(2)], duration: Some(9) },
                    RubEffectConf { for_plants: vec![COFFEA, BRACTUS], duration: None },
                ],
                ..plain("Warp Powder")
            },
            ItemArchetype {
                hatch_table: Some(vec![HatchEntry { weight: 1, items: vec![WARP_POWDER, GOTCHI] }]),
                ..plain("Egg")
            },
            ItemArchetype {
                unlocks_land: Some(LandUnlock { requires_xp: true }),
                ..plain("Land Deed")
            },
            ItemArchetype {
                unlocks_land: Some(LandUnlock { requires_xp: false }),
                ..plain("Land Gift")
            },
            ItemArchetype { grows_into: Some(BRACTUS), ..plain("Bractus Seed") },
            ItemArchetype { gotchi: true, ..plain("Lil Mip") },
            ItemArchetype { hatch_table: Some(vec![]), ..plain("Dud Egg") },
            ItemArchetype {
                hatch_table: Some(vec![
                    HatchEntry { weight: 0, items: vec![WARP_POWDER] },
                    HatchEntry { weight: 3, items: vec![SEED] },
                    HatchEntry { weight: 0, items: vec![EGG] },
                    HatchEntry { weight: 2, items: vec![] },
                ]),
                ..plain("Lucky Egg")
            },
            ItemArchetype { grows_into: Some(PlantConf(7)), ..plain("Wild Seed") },
        ],
        plants: vec![
            PlantArchetype {
                name: "Bractus".to_string(),
                base_yield_duration: Some(3),
                skills: vec![
                    SkillArchetype {
                        name: "Roots".to_string(),
                        unlocks: vec![
                            SkillUnlock { skill: SkillConf(1), cost: 1 },
                            SkillUnlock { skill: SkillConf(1), cost: 5 },
                        ],
                    },
                    SkillArchetype { name: "Leaves".to_string(), unlocks: vec![] },
                ],
                skillpoint_xps: vec![10, 20],
            },
            PlantArchetype {
                name: "Coffea".to_string(),
                base_yield_duration: None,
                skills: vec![],
                skillpoint_xps: vec![],
            },
        ],
        land_xps: vec![0, 100],
    }
}

fn bob() -> SteaderId {
    SteaderId(0xb0b)
}

fn stead_with(confs: &[ItemConf]) -> SessSend {
    let config = config();
    let mut hs = Hackstead::empty(bob(), None, 1000);
    hs.give_tile(Tile::new(bob(), TileId(1), 1000));
    for (i, conf) in confs.iter().enumerate() {
        hs.give_item(config.make_item(ItemId(100 + i as u128), *conf, bob(), Acquisition::Farmed));
    }
    SessSend::new(hs)
}

fn count_of(ss: &SessSend, conf: ItemConf) -> usize {
    ss.hackstead.inventory.iter().filter(|i| i.conf == conf).count()
}

#[test]
fn spawn_then_fetch() {
    let config = config();
    let mut ss = stead_with(&[WARP_POWDER, EGG]);
    let before = count_of(&ss, WARP_POWDER);
    let items = spawn::spawn(&mut ss, &config, ItemConf(0), 10).unwrap();
    assert_eq!(items.len(), 10);
    assert_eq!(count_of(&ss, WARP_POWDER) - before, 10);
    for item in &items {
        assert_eq!(
            item.ownership_log,
            vec![LoggedOwner {
                logged_owner_id: bob(),
                acquisition: Acquisition::Spawned,
                owner_index: 0
            }]
        );
        assert_eq!(item.owner_id, bob());
        assert!(
            ss.hackstead.inventory.contains(item),
            "bobstead did not contain spawned item: \nitem: {:#?}\ninventory: {:#?}",
            item,
            ss.hackstead.inventory
        );
    }
    assert!(ss.pending_notes.is_empty());
    assert!(ss.pending_timers.is_empty());
}

#[test]
fn spawn_with_ids_puts_the_items_at_the_end_in_order() {
    let config = config();
    let mut ss = stead_with(&[EGG]);
    let ids = vec![ItemId(7), ItemId(8), ItemId(9)];
    let items = spawn::spawn_with(&mut ss, &config, GOTCHI, &ids).unwrap();
    assert_eq!(items.iter().map(|i| i.item_id).collect::<Vec<_>>(), ids);
    assert_eq!(
        ss.hackstead.inventory.iter().map(|i| i.item_id).collect::<Vec<_>>(),
        vec![ItemId(100), ItemId(7), ItemId(8), ItemId(9)]
    );
    assert_eq!(items[0].gotchi.as_ref().unwrap().nickname, "Lil Mip");
    assert_eq!(&ss.hackstead.inventory[1..], &items[..]);
}

#[test]
fn spawn_of_nothing_changes_nothing() {
    let config = config();
    let mut ss = stead_with(&[EGG]);
    let before = ss.hackstead.clone();
    assert_eq!(spawn::spawn(&mut ss, &config, WARP_POWDER, 0), Ok(vec![]));
    assert_eq!(ss.hackstead, before);
}

#[test]
fn spawn_of_unknown_archetype_fails() {
    let config = config();
    let mut ss = stead_with(&[EGG]);
    let before = ss.hackstead.clone();
    let err = spawn::spawn(&mut ss, &config, ItemConf(99), 3).unwrap_err();
    assert_eq!(err, spawn::Error::NoSuchItemConf(ItemConf(99)));
    assert_eq!(err.message(), "couldn't spawn items: no such item conf: 99");
    assert_eq!(ss.hackstead, before);
}

#[test]
fn hatch_consumes_the_item_and_gives_what_is_inside() {
    let config = config();
    let mut ss = stead_with(&[WARP_POWDER, EGG]);
    let starting = ss.hackstead.inventory.len();
    let output = hatch::hatch(&mut ss, &config, ItemId(101)).unwrap();
    assert_eq!(output.len(), 2);
    assert_eq!(output[0].conf, WARP_POWDER);
    assert_eq!(output[1].conf, GOTCHI);
    assert!(output[1].gotchi.is_some());
    for item in &output {
        assert_eq!(item.owner_id, bob());
        assert_eq!(
            item.ownership_log,
            vec![LoggedOwner {
                logged_owner_id: bob(),
                acquisition: Acquisition::Hatched,
                owner_index: 0
            }]
        );
    }
    assert_eq!(output.len(), ss.hackstead.inventory.len() - (starting - 1));
    assert!(!ss.hackstead.has_item(ItemId(101)));
    assert_eq!(&ss.hackstead.inventory[1..], &output[..]);
}

#[test]
fn hatching_twice_fails_the_second_time() {
    let config = config();
    let mut ss = stead_with(&[WARP_POWDER, EGG]);
    hatch::hatch(&mut ss, &config, ItemId(101)).unwrap();
    let after_first = ss.hackstead.clone();
    let second = hatch::hatch(&mut ss, &config, ItemId(101));
    assert_eq!(second, Err(hatch::Error::NoSuch(NoSuch::Item(ItemId(101)))));
    assert_eq!(ss.hackstead.inventory.len(), after_first.inventory.len());
    assert_eq!(ss.hackstead, after_first);
}

#[test]
fn hatching_the_unhatchable_fails_and_keeps_the_item() {
    let config = config();
    let mut ss = stead_with(&[WARP_POWDER, EGG]);
    let before = ss.hackstead.clone();
    let err = hatch::hatch(&mut ss, &config, ItemId(100)).unwrap_err();
    assert_eq!(err, hatch::Error::NotConfigured(ItemId(100), WARP_POWDER));
    assert_eq!(
        err.message(),
        "couldn't hatch item: provided item 00000000-0000-0000-0000-000000000064, which, as a [0], is not configured to be hatched"
    );
    assert_eq!(ss.hackstead.inventory.len(), before.inventory.len());
    assert_eq!(ss.hackstead, before);
}

#[test]
fn an_empty_hatch_table_gives_nothing() {
    let config = config();
    let mut ss = stead_with(&[DUD_EGG]);
    assert_eq!(hatch::hatch(&mut ss, &config, ItemId(100)), Ok(vec![]));
    assert!(ss.hackstead.inventory.is_empty());
}

#[test]
fn the_row_drawn_is_the_one_in_whose_share_the_roll_falls() {
    let config = config();
    let table = config.items[7].hatch_table.as_ref().unwrap();
    assert_eq!(hatch::sum_weights(table), 5);
    assert_eq!(hatch::draw(table, 0), Some(1));
    assert_eq!(hatch::draw(table, 2), Some(1));
    assert_eq!(hatch::draw(table, 3), Some(3));
    assert_eq!(hatch::draw(table, 4), Some(3));
    assert_eq!(hatch::draw(table, 5), None);
    assert_eq!(hatch::draw(&vec![], 0), None);
    assert_eq!(hatch::sum_weights(&vec![]), 0);

    let mut ss = stead_with(&[LUCKY_EGG]);
    let out = hatch::hatch_with(&mut ss, &config, ItemId(100), 1, &vec![ItemId(5)]).unwrap();
    assert_eq!(out.len(), 1);
    assert_eq!(out[0].conf, SEED);
    assert_eq!(out[0].item_id, ItemId(5));

    let mut ss = stead_with(&[LUCKY_EGG]);
    assert_eq!(hatch::hatch_with(&mut ss, &config, ItemId(100), 4, &vec![]), Ok(vec![]));
    assert!(ss.hackstead.inventory.is_empty());
}

#[test]
fn a_hatch_never_draws_a_row_without_weight() {
    let config = config();
    for _ in 0..50 {
        let mut ss = stead_with(&[LUCKY_EGG]);
        let out = hatch::hatch(&mut ss, &config, ItemId(100)).unwrap();
        assert!(out.is_empty() || (out.len() == 1 && out[0].conf == SEED));
    }
}

#[test]
fn gotchi_are_renamed() {
    let mut ss = stead_with(&[GOTCHI, EGG]);
    let name = rename_gotchi::rename(&mut ss, ItemId(100), "bob jr".to_string());
    assert_eq!(name, Ok("bob jr".to_string()));
    assert_eq!(ss.hackstead.inventory[0].gotchi.as_ref().unwrap().nickname, "bob jr");

    let before = ss.hackstead.clone();
    assert_eq!(
        rename_gotchi::rename(&mut ss, ItemId(101), "x".to_string()),
        Err(rename_gotchi::Error::NoSuch(NoSuch::Gotchi(ItemId(101))))
    );
    assert_eq!(
        rename_gotchi::rename(&mut ss, ItemId(7), "x".to_string()),
        Err(rename_gotchi::Error::NoSuch(NoSuch::Item(ItemId(7))))
    );
    assert_eq!(ss.hackstead, before);
    assert_eq!(
        rename_gotchi::Error::NoSuch(NoSuch::Gotchi(ItemId(1))).message(),
        "couldn't rename gotchi: no gotchi in item: 00000000-0000-0000-0000-000000000001"
    );
}

#[test]
fn land_unlock_gating() {
    let config = config();
    let mut ss = stead_with(&[LAND_DEED]);
    assert_eq!(ss.hackstead.profile.xp, 0);
    let land = ss.hackstead.land.len();

    let refused = tile::summon(&mut ss, &config, ItemId(100), 2000);
    assert_eq!(refused, Err(tile::Error::Ineligible));
    assert!(ss.hackstead.has_item(ItemId(100)));
    assert_eq!(ss.hackstead.land.len(), land);

    ss.hackstead.profile.xp = 100;
    let tile = tile::summon(&mut ss, &config, ItemId(100), 2000).unwrap();
    assert_eq!(tile.owner_id, bob(), "tile spawned for bob doesn't belong to bob: {:#?}", tile);
    assert_eq!(tile.acquired, 2000);
    assert_eq!(tile.plant, None);
    assert_eq!(ss.hackstead.land.len(), land + 1);
    assert_eq!(ss.hackstead.land.last(), Some(&tile));
    assert!(!ss.hackstead.has_item(ItemId(100)));
    assert_eq!(ss.hackstead.profile.extra_land_plot_count, 0);

    let again = tile::summon(&mut ss, &config, ItemId(100), 2000);
    assert_eq!(again, Err(tile::Error::NoSuch(NoSuch::Item(ItemId(100)))));
    assert_eq!(ss.hackstead.land.len(), land + 1);
}

#[test]
fn a_land_gift_brings_its_own_plot() {
    let config = config();
    let mut ss = stead_with(&[LAND_GIFT, WARP_POWDER]);
    let tile = tile::summon_with(&mut ss, &config, ItemId(100), TileId(77), 3000).unwrap();
    assert_eq!(tile, Tile::new(bob(), TileId(77), 3000));
    assert_eq!(ss.hackstead.profile.extra_land_plot_count, 1);
    assert_eq!(ss.hackstead.land.len(), 2);
    assert!(!ss.hackstead.has_item(ItemId(100)));

    let before = ss.hackstead.clone();
    let err = tile::summon(&mut ss, &config, ItemId(101), 3000).unwrap_err();
    assert_eq!(err, tile::Error::NotConfigured(ItemId(101), WARP_POWDER));
    assert_eq!(ss.hackstead, before);
    assert_eq!(
        err.message(),
        "couldn't provide new tile: item 00000000-0000-0000-0000-000000000065[0] is not configured to unlock land"
    );
    assert_eq!(
        tile::Error::Ineligible.message(),
        "couldn't provide new tile: you aren't eligible to unlock more land."
    );
}

#[test]
fn a_seed_becomes_a_plant_with_a_yield_timer() {
    let config = config();
    let mut ss = stead_with(&[SEED, WARP_POWDER]);
    let plant = summon::summon(&mut ss, &config, TileId(1), ItemId(100)).unwrap();
    assert_eq!(plant.tile_id, TileId(1));
    assert_eq!(plant.conf, config.items[4].grows_into.unwrap());
    assert_eq!(plant.nickname, "Bractus");
    assert_eq!(plant.owner_id, bob());
    assert!(!ss.hackstead.has_item(ItemId(100)));
    assert_eq!(ss.hackstead.plant(TileId(1)), Ok(&plant));
    assert_eq!(
        ss.pending_timers,
        vec![Timer {
            until_finish: 3,
            tile_id: TileId(1),
            lifecycle: Lifecycle::Perennial { duration: 3 },
            kind: TimerKind::Yield,
        }]
    );
}

#[test]
fn planting_fails_without_a_seed_a_tile_or_room() {
    let config = config();
    let mut ss = stead_with(&[SEED, WARP_POWDER, SEED, WILD_SEED]);
    let before = ss.hackstead.clone();

    let not_seed = summon::summon(&mut ss, &config, TileId(1), ItemId(101)).unwrap_err();
    assert_eq!(not_seed, summon::Error::NotConfigured(ItemId(101), WARP_POWDER));
    let wild = summon::summon(&mut ss, &config, TileId(1), ItemId(103)).unwrap_err();
    assert_eq!(wild, summon::Error::NotConfigured(ItemId(103), WILD_SEED));
    let no_item = summon::summon(&mut ss, &config, TileId(1), ItemId(9)).unwrap_err();
    assert_eq!(no_item, summon::Error::NoSuch(NoSuch::Item(ItemId(9))));
    let no_tile = summon::summon(&mut ss, &config, TileId(9), ItemId(100)).unwrap_err();
    assert_eq!(no_tile, summon::Error::NoSuch(NoSuch::Tile(TileId(9))));
    assert_eq!(ss.hackstead, before);
    assert!(ss.pending_timers.is_empty());

    summon::summon(&mut ss, &config, TileId(1), ItemId(100)).unwrap();
    let planted = ss.hackstead.clone();
    let occupied = summon::summon(&mut ss, &config, TileId(1), ItemId(102)).unwrap_err();
    assert_eq!(occupied, summon::Error::AlreadyOccupied(TileId(1), BRACTUS));
    assert_eq!(ss.hackstead, planted);
    assert!(ss.hackstead.has_item(ItemId(102)));
    assert_eq!(ss.pending_timers.len(), 1);
    assert_eq!(
        occupied.message(),
        "couldn't make new plant from seed: tile 00000000-0000-0000-0000-000000000001 is already occupied by a [0] plant."
    );
    assert_eq!(
        not_seed.message(),
        "couldn't make new plant from seed: item 00000000-0000-0000-0000-000000000065[0] is not configured to be used as a seed"
    );
}

#[test]
fn plant_double_slaughter() {
    let config = config();
    let mut ss = stead_with(&[SEED]);
    assert_eq!(ss.hackstead.take_plant(TileId(1)), Err(NoSuch::Plant(TileId(1))));
    let plant = summon::summon(&mut ss, &config, TileId(1), ItemId(100)).unwrap();
    assert!(ss.hackstead.free_tile().is_none());
    assert_eq!(ss.hackstead.take_plant(TileId(1)), Ok(plant));
    assert_eq!(ss.hackstead.free_tile().unwrap().tile_id, TileId(1));
    assert_eq!(ss.hackstead.take_plant(TileId(1)), Err(NoSuch::Plant(TileId(1))));
}

fn planted(confs: &[ItemConf], plant: PlantConf) -> SessSend {
    let mut ss = stead_with(confs);
    let name = config().plants[plant.0].name.clone();
    ss.hackstead
        .set_plant(TileId(1), Some(Plant::from_conf(bob(), TileId(1), plant, &name)))
        .unwrap();
    ss
}

#[test]
fn rubbing_leaves_the_effects_that_take_and_times_those_that_wear_off() {
    let config = config();
    let mut ss = planted(&[WARP_POWDER], BRACTUS);
    let effects =
        rub::rub_with(&mut ss, &config, TileId(1), ItemId(100), &vec![EffectId(1), EffectId(2)])
            .unwrap();
    assert_eq!(
        effects,
        vec![
            Effect {
                effect_id: EffectId(1),
                item_conf: WARP_POWDER,
                effect_index: 0,
                duration: Some(5)
            },
            Effect { effect_id: EffectId(2), item_conf: WARP_POWDER, effect_index: 2, duration: None },
        ]
    );
    assert!(!ss.hackstead.has_item(ItemId(100)));
    let plant = ss.hackstead.plant(TileId(1)).unwrap();
    assert_eq!(plant.effects, effects);
    assert_eq!(plant.lifetime_rubs, 2);
    assert_eq!(
        ss.pending_timers,
        vec![Timer {
            until_finish: 5,
            tile_id: TileId(1),
            lifecycle: Lifecycle::Annual,
            kind: TimerKind::Rub { effect_id: EffectId(1) },
        }]
    );
}

#[test]
fn rubbing_draws_an_id_for_each_effect() {
    let config = config();
    let mut ss = planted(&[WARP_POWDER], COFFEA);
    let effects = rub::rub(&mut ss, &config, TileId(1), ItemId(100)).unwrap();
    assert_eq!(effects.len(), 1);
    assert_eq!(effects[0].effect_index, 2);
    assert_eq!(effects[0].duration, None);
    assert!(ss.pending_timers.is_empty());
    assert!(
        ss.hackstead.plant(TileId(1)).unwrap().effects.contains(&effects[0]),
        "the effects of this item we just rubbed on can't be found on this plant"
    );
    assert_eq!(
        rub::applicable_to(&config.items[0].plant_rub_effects, BRACTUS),
        vec![0, 2]
    );
    assert_eq!(rub::applicable_to(&config.items[0].plant_rub_effects, PlantConf(2)), vec![1]);
    assert_eq!(
        rub::applicable_to(&config.items[0].plant_rub_effects, PlantConf(3)),
        Vec::<usize>::new()
    );
}

#[test]
fn rubbing_without_effect_fails_and_keeps_the_item() {
    let config = config();
    let mut config_with_odd_plant = config;
    config_with_odd_plant.plants.push(PlantArchetype {
        name: "Hacker Vibes Vine".to_string(),
        base_yield_duration: None,
        skills: vec![],
        skillpoint_xps: vec![],
    });
    config_with_odd_plant.plants.push(PlantArchetype {
        name: "Odd".to_string(),
        base_yield_duration: None,
        skills: vec![],
        skillpoint_xps: vec![],
    });
    let config = config_with_odd_plant;

    let mut ss = planted(&[WARP_POWDER, EGG], BRACTUS);
    ss.hackstead.plant_mut(TileId(1)).unwrap().conf = PlantConf(3);
    let before = ss.hackstead.clone();

    let none_at_all = rub::rub(&mut ss, &config, TileId(1), ItemId(101)).unwrap_err();
    assert_eq!(none_at_all, rub::Error::NoEffect(None, ItemId(101), EGG));
    let none_here = rub::rub(&mut ss, &config, TileId(1), ItemId(100)).unwrap_err();
    assert_eq!(none_here, rub::Error::NoEffect(Some(PlantConf(3)), ItemId(100), WARP_POWDER));
    let no_item = rub::rub(&mut ss, &config, TileId(1), ItemId(9)).unwrap_err();
    assert_eq!(no_item, rub::Error::NoSuch(NoSuch::Item(ItemId(9))));
    let no_tile = rub::rub(&mut ss, &config, TileId(9), ItemId(100)).unwrap_err();
    assert_eq!(no_tile, rub::Error::NoSuch(NoSuch::Tile(TileId(9))));
    assert_eq!(ss.hackstead, before);
    assert!(ss.pending_timers.is_empty());

    ss.hackstead.take_plant(TileId(1)).unwrap();
    let no_plant = rub::rub(&mut ss, &config, TileId(1), ItemId(100)).unwrap_err();
    assert_eq!(no_plant, rub::Error::NoSuch(NoSuch::Plant(TileId(1))));
    assert!(ss.hackstead.has_item(ItemId(100)));

    assert_eq!(
        none_at_all.message(),
        "couldn't rub item on plant: item 00000000-0000-0000-0000-000000000065[1] isn't configured to impart any effects when rubbed on plants"
    );
    assert_eq!(
        none_here.message(),
        "couldn't rub item on plant: rubbing item 00000000-0000-0000-0000-000000000064[0] on plant [3] would have no effects"
    );
}

#[test]
fn plants_are_renamed() {
    let mut ss = planted(&[], BRACTUS);
    assert_eq!(
        nickname::nickname(&mut ss, TileId(1), "bob's plant jr".to_string()),
        Ok("bob's plant jr".to_string())
    );
    assert_eq!(ss.hackstead.plant(TileId(1)).unwrap().nickname, "bob's plant jr");
    assert_eq!(
        nickname::nickname(&mut ss, TileId(2), "x".to_string()),
        Err(nickname::Error::NoSuch(NoSuch::Tile(TileId(2))))
    );
    ss.hackstead.take_plant(TileId(1)).unwrap();
    let err = nickname::nickname(&mut ss, TileId(1), "x".to_string()).unwrap_err();
    assert_eq!(err, nickname::Error::NoSuch(NoSuch::Plant(TileId(1))));
    assert_eq!(
        err.message(),
        "couldn't rename plant: no plant on tile: 00000000-0000-0000-0000-000000000001"
    );
}

#[test]
fn skills_cost_points_that_xp_earns() {
    let config = config();
    let mut ss = planted(&[], BRACTUS);
    let before = ss.hackstead.clone();

    let poor = skill_unlock::skill_unlock(&mut ss, &config, TileId(1), SkillConf(0), 0);
    assert_eq!(poor, Err(skill_unlock::Error::NoAfford(1)));
    assert_eq!(ss.hackstead, before);

    assert_eq!(skill_unlock::knowledge_snort(&mut ss, TileId(1), 25), Ok(25));
    assert_eq!(ss.hackstead.plant(TileId(1)).unwrap().xp, 25);

    let left = skill_unlock::skill_unlock(&mut ss, &config, TileId(1), SkillConf(0), 0);
    assert_eq!(left, Ok(1));
    let plant = ss.hackstead.plant(TileId(1)).unwrap();
    assert_eq!(plant.skills, vec![SkillConf(1)]);
    assert_eq!(plant.skill_points_spent, 1);

    let dear = skill_unlock::skill_unlock(&mut ss, &config, TileId(1), SkillConf(0), 1);
    assert_eq!(dear, Err(skill_unlock::Error::NoAfford(4)));
    let left = skill_unlock::skill_unlock(&mut ss, &config, TileId(1), SkillConf(0), 0);
    assert_eq!(left, Ok(0));
    assert_eq!(
        skill_unlock::skill_unlock(&mut ss, &config, TileId(1), SkillConf(0), 0),
        Err(skill_unlock::Error::NoAfford(1))
    );
    assert_eq!(ss.hackstead.plant(TileId(1)).unwrap().skills, vec![SkillConf(1), SkillConf(1)]);
}

#[test]
fn skill_unlock_fails_without_plant_skill_or_unlock() {
    let config = config();
    let mut ss = planted(&[], BRACTUS);
    let before = ss.hackstead.clone();
    let no_skill = skill_unlock::skill_unlock(&mut ss, &config, TileId(1), SkillConf(2), 0);
    assert_eq!(no_skill, Err(skill_unlock::Error::NoSkill(BRACTUS, SkillConf(2))));
    let no_unlock = skill_unlock::skill_unlock(&mut ss, &config, TileId(1), SkillConf(1), 0);
    assert_eq!(no_unlock, Err(skill_unlock::Error::NoUnlock(BRACTUS, SkillConf(1), 0)));
    let no_tile = skill_unlock::skill_unlock(&mut ss, &config, TileId(2), SkillConf(0), 0);
    assert_eq!(no_tile, Err(skill_unlock::Error::NoSuch(NoSuch::Tile(TileId(2)))));
    assert_eq!(ss.hackstead, before);
    assert_eq!(
        no_skill.unwrap_err().message(),
        "couldn't unlock skill for plant: there's no valid skill with the conf 2 on this [0] plant."
    );
    assert_eq!(
        no_unlock.unwrap_err().message(),
        "couldn't unlock skill for plant: there's no valid unlock at the index 0 on the skill conf 1 on this [0] plant."
    );
    assert_eq!(
        skill_unlock::Error::NoAfford(4).message(),
        "couldn't unlock skill for plant: You need 4 more skillpoints to unlock this skill"
    );
    ss.hackstead.take_plant(TileId(1)).unwrap();
    assert_eq!(
        skill_unlock::skill_unlock(&mut ss, &config, TileId(1), SkillConf(0), 0),
        Err(skill_unlock::Error::NoSuch(NoSuch::Plant(TileId(1))))
    );
    assert_eq!(
        skill_unlock::knowledge_snort(&mut ss, TileId(1), 5),
        Err(NoSuch::Plant(TileId(1)))
    );
}

#[test]
fn plant_xp_stops_at_the_top() {
    let mut ss = planted(&[], BRACTUS);
    assert_eq!(skill_unlock::knowledge_snort(&mut ss, TileId(1), u64::MAX - 1), Ok(u64::MAX - 1));
    assert_eq!(skill_unlock::knowledge_snort(&mut ss, TileId(1), 5), Ok(u64::MAX));
    assert_eq!(skill_unlock::knowledge_snort(&mut ss, TileId(1), 0), Ok(u64::MAX));
}
