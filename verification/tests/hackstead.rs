use backend::config::{Config, ItemArchetype, ItemConf, PlantConf};
use backend::hackstead::item::{Acquisition, Item, LoggedOwner};
use backend::hackstead::plant::{Effect, Plant};
use backend::hackstead::tile::Tile;
use backend::hackstead::{slack_path, stead_path, user_path, Hackstead, UserId};
use backend::id::{EffectId, ItemId, NoSuch, SteaderId, TileId};
use backend::middlewares::VerifySignature;
use backend::models::UserContact;
use backend::text::{decimal, Complaint};
use backend::ServiceError;

fn plain(name: &str) -> ItemArchetype {
    ItemArchetype {
        name: name.to_string(),
        gotchi: false,
        hatch_table: None,
        unlocks_land: None,
        grows_into: None,
        plant_rub_effects: vec![],
    }
}

fn bob() -> SteaderId {
    SteaderId(0xb0b)
}

fn item(id: u128) -> Item {
    Item::from_conf(ItemId(id), ItemConf(0), bob(), Acquisition::Farmed, false, &String::new())
}

fn stead() -> Hackstead {
    let mut hs = Hackstead::empty(bob(), Some("U14MB0B".to_string()), 1_600_000_000);
    hs.give_item(item(1));
    hs.give_item(item(2));
    hs.give_item(item(3));
    hs.give_tile(Tile::new(bob(), TileId(10), 1_600_000_001));
    hs.give_tile(Tile::new(bob(), TileId(11), 1_600_000_002));
    hs
}

#[test]
fn empty_hackstead_has_a_profile_and_nothing_else() {
    let hs = Hackstead::empty(bob(), None, 42);
    assert_eq!(hs.profile.steader_id, bob());
    assert_eq!(hs.profile.slack_id, None);
    assert_eq!(hs.profile.xp, 0);
    assert_eq!(hs.profile.joined, 42);
    assert_eq!(hs.profile.last_active, 42);
    assert_eq!(hs.profile.extra_land_plot_count, 0);
    assert!(hs.inventory.is_empty());
    assert!(hs.land.is_empty());
    assert!(hs.timers.is_empty());
}

#[test]
fn new_items_log_their_first_owner() {
    let made = item(7);
    assert_eq!(
        made.ownership_log,
        vec![LoggedOwner { logged_owner_id: bob(), acquisition: Acquisition::Farmed, owner_index: 0 }]
    );
    assert_eq!(made.owner_id, bob());
    assert_eq!(made.gotchi, None);
    assert!(made.logged_to(bob()));
    assert!(!made.logged_to(SteaderId(1)));
}

#[test]
fn gotchi_items_carry_the_archetype_name() {
    let config = Config {
        items: vec![plain("Stone"), ItemArchetype { gotchi: true, ..plain("Lil Mip") }],
        plants: vec![],
        land_xps: vec![],
    };
    let stone = config.make_item(ItemId(1), ItemConf(0), bob(), Acquisition::spawned());
    let mip = config.make_item(ItemId(2), ItemConf(1), bob(), Acquisition::spawned());
    let lost = config.make_item(ItemId(3), ItemConf(9), bob(), Acquisition::spawned());
    assert_eq!(stone.gotchi, None);
    assert_eq!(mip.gotchi.unwrap().nickname, "Lil Mip");
    assert_eq!(lost.gotchi, None);
    assert_eq!(lost.conf, ItemConf(9));
    assert!(config.item(ItemConf(1)).is_some());
    assert!(config.item(ItemConf(2)).is_none());
    assert!(config.plant(PlantConf(0)).is_none());
}

#[test]
fn trading_appends_to_the_log() {
    let mut given = item(7);
    given.trade(SteaderId(0xe4e));
    assert_eq!(given.owner_id, SteaderId(0xe4e));
    assert_eq!(given.ownership_log.len(), 2);
    assert_eq!(
        given.ownership_log[1],
        LoggedOwner {
            logged_owner_id: SteaderId(0xe4e),
            acquisition: Acquisition::Trade,
            owner_index: 1
        }
    );
    assert!(given.logged_to(SteaderId(0xe4e)));
    assert!(!given.logged_to(bob()));
}

#[test]
fn items_are_found_by_id() {
    let hs = stead();
    assert_eq!(hs.item(ItemId(2)).unwrap().item_id, ItemId(2));
    assert_eq!(hs.item(ItemId(9)), Err(NoSuch::Item(ItemId(9))));
    assert!(hs.has_item(ItemId(3)));
    assert!(!hs.has_item(ItemId(4)));
    assert_eq!(hs.find_item(ItemId(1)), Some(0));
    assert_eq!(hs.find_item(ItemId(3)), Some(2));
    assert_eq!(hs.find_item(ItemId(4)), None);
}

#[test]
fn the_first_match_is_found() {
    let mut hs = stead();
    let mut twin = item(2);
    twin.conf = ItemConf(5);
    hs.give_item(twin);
    assert_eq!(hs.item(ItemId(2)).unwrap().conf, ItemConf(0));
    assert_eq!(hs.take_item(ItemId(2)).unwrap().conf, ItemConf(0));
    assert_eq!(hs.take_item(ItemId(2)).unwrap().conf, ItemConf(5));
    assert_eq!(hs.take_item(ItemId(2)), Err(NoSuch::Item(ItemId(2))));
}

#[test]
fn taking_an_item_removes_it_and_keeps_the_order() {
    let mut hs = stead();
    let taken = hs.take_item(ItemId(2)).unwrap();
    assert_eq!(taken, item(2));
    assert_eq!(hs.inventory, vec![item(1), item(3)]);
    assert_eq!(hs.take_item(ItemId(2)), Err(NoSuch::Item(ItemId(2))));
    assert_eq!(hs.inventory, vec![item(1), item(3)]);
}

#[test]
fn items_are_replaced_and_changed_in_place() {
    let mut hs = stead();
    let mut changed = item(2);
    changed.conf = ItemConf(4);
    assert_eq!(hs.replace_item(ItemId(2), changed), Ok(()));
    assert_eq!(hs.inventory[1].conf, ItemConf(4));
    assert_eq!(hs.replace_item(ItemId(9), item(9)), Err(NoSuch::Item(ItemId(9))));
    hs.item_mut(ItemId(3)).unwrap().conf = ItemConf(8);
    assert_eq!(hs.inventory[2].conf, ItemConf(8));
    assert!(hs.item_mut(ItemId(9)).is_err());
}

#[test]
fn tiles_and_plants_are_found_by_tile_id() {
    let mut hs = stead();
    assert_eq!(hs.tile(TileId(11)).unwrap().acquired, 1_600_000_002);
    assert_eq!(hs.tile(TileId(12)), Err(NoSuch::Tile(TileId(12))));
    assert_eq!(hs.plant(TileId(10)), Err(NoSuch::Plant(TileId(10))));
    assert_eq!(hs.plant(TileId(12)), Err(NoSuch::Tile(TileId(12))));
    assert_eq!(hs.free_tile().unwrap().tile_id, TileId(10));

    let plant = Plant::from_conf(bob(), TileId(10), PlantConf(0), &"Bractus".to_string());
    assert_eq!(hs.set_plant(TileId(10), Some(plant.clone())), Ok(None));
    assert_eq!(hs.plant(TileId(10)), Ok(&plant));
    assert_eq!(hs.free_tile().unwrap().tile_id, TileId(11));
    assert_eq!(hs.set_plant(TileId(12), None), Err(NoSuch::Tile(TileId(12))));

    hs.plant_mut(TileId(10)).unwrap().xp = 5;
    assert_eq!(hs.plant(TileId(10)).unwrap().xp, 5);
    hs.tile_mut(TileId(11)).unwrap().acquired = 7;
    assert_eq!(hs.tile(TileId(11)).unwrap().acquired, 7);
    assert_eq!(hs.plant_mut(TileId(11)).err(), Some(NoSuch::Plant(TileId(11))));
    assert_eq!(hs.tile_mut(TileId(12)).err(), Some(NoSuch::Tile(TileId(12))));

    let taken = hs.take_plant(TileId(10)).unwrap();
    assert_eq!(taken.xp, 5);
    assert_eq!(hs.take_plant(TileId(10)), Err(NoSuch::Plant(TileId(10))));
    assert_eq!(hs.take_plant(TileId(12)), Err(NoSuch::Tile(TileId(12))));
}

#[test]
fn no_free_tile_when_all_are_planted() {
    let mut hs = Hackstead::empty(bob(), None, 0);
    assert!(hs.free_tile().is_none());
    hs.give_tile(Tile::new(bob(), TileId(1), 0));
    let plant = Plant::from_conf(bob(), TileId(1), PlantConf(0), &String::new());
    hs.set_plant(TileId(1), Some(plant)).unwrap();
    assert!(hs.free_tile().is_none());
}

#[test]
fn effects_are_taken_off_by_id() {
    let mut plant = Plant::from_conf(bob(), TileId(1), PlantConf(0), &String::new());
    let effect = |id: u128| Effect {
        effect_id: EffectId(id),
        item_conf: ItemConf(0),
        effect_index: 0,
        duration: Some(5),
    };
    plant.rub(&vec![effect(1), effect(2), effect(3)]);
    assert_eq!(plant.lifetime_rubs, 3);
    assert_eq!(plant.take_rub_effect(EffectId(2)), Ok(effect(2)));
    assert_eq!(plant.effects, vec![effect(1), effect(3)]);
    assert_eq!(
        plant.take_rub_effect(EffectId(2)),
        Err(NoSuch::Effect(TileId(1), EffectId(2)))
    );
    assert_eq!(plant.lifetime_rubs, 3);
}

#[test]
fn land_allowance_counts_xp_marks_and_extra_plots() {
    let config = Config { items: vec![], plants: vec![], land_xps: vec![0, 100, 1000] };
    let mut hs = Hackstead::empty(bob(), None, 0);
    assert!(hs.land_unlock_eligible(&config));
    hs.give_tile(Tile::new(bob(), TileId(1), 0));
    assert!(!hs.land_unlock_eligible(&config));
    hs.profile.xp = 99;
    assert!(!hs.land_unlock_eligible(&config));
    hs.profile.xp = 100;
    assert!(hs.land_unlock_eligible(&config));
    hs.give_tile(Tile::new(bob(), TileId(2), 0));
    assert!(!hs.land_unlock_eligible(&config));
    hs.profile.extra_land_plot_count = 1;
    assert!(hs.land_unlock_eligible(&config));
    hs.give_tile(Tile::new(bob(), TileId(3), 0));
    assert!(!hs.land_unlock_eligible(&config));
    assert_eq!(backend::config::count_reached(&config.land_xps, 100), 2);
    assert_eq!(backend::config::count_reached(&config.land_xps, u64::MAX), 3);
}

#[test]
fn clones_are_equal_and_same() {
    let mut hs = stead();
    let plant = Plant::from_conf(bob(), TileId(10), PlantConf(0), &"Bractus".to_string());
    hs.set_plant(TileId(10), Some(plant)).unwrap();
    let copy = hs.clone();
    assert_eq!(copy, hs);
    assert!(copy.inventory[0].same(&hs.inventory[0]));
    assert!(!copy.inventory[0].same(&hs.inventory[1]));
    assert!(copy.land[0].same(&hs.land[0]));
    assert!(!copy.land[0].same(&hs.land[1]));
    assert!(copy.profile.same(&hs.profile));
    let mut other = hs.profile.clone();
    other.slack_id = None;
    assert!(!other.same(&hs.profile));
}

#[test]
fn ids_are_written_as_hyphenated_hex() {
    let v = 0xa1a2a3a4b1b2c1c2d1d2d3d4d5d6d7d8u128;
    assert_eq!(SteaderId(v).text(), "a1a2a3a4-b1b2-c1c2-d1d2-d3d4d5d6d7d8");
    assert_eq!(ItemId(0).text(), "00000000-0000-0000-0000-000000000000");
    assert_eq!(TileId(0xf).text(), "00000000-0000-0000-0000-00000000000f");
    assert_eq!(EffectId(u128::MAX).text(), "ffffffff-ffff-ffff-ffff-ffffffffffff");
}

#[test]
fn fresh_ids_are_random_version_four() {
    let a = ItemId::fresh();
    let b = ItemId::fresh();
    assert_ne!(a, b);
    for id in [a.0, b.0, SteaderId::fresh().0, TileId::fresh().0, EffectId::fresh().0] {
        assert_eq!(id & backend::id::KIND_BITS, backend::id::RANDOM_KIND);
    }
    let many = ItemId::fresh_many(25);
    assert_eq!(many.len(), 25);
    for (i, x) in many.iter().enumerate() {
        for y in &many[i + 1..] {
            assert_ne!(x, y);
        }
    }
    assert_eq!(EffectId::fresh_many(0).len(), 0);
    assert_eq!(EffectId::fresh_many(3).len(), 3);
}

#[test]
fn paths_name_the_user() {
    let v = 0xa1a2a3a4b1b2c1c2d1d2d3d4d5d6d7d8u128;
    assert_eq!(stead_path(SteaderId(v)), "stead/a1a2a3a4-b1b2-c1c2-d1d2-d3d4d5d6d7d8.bincode");
    assert_eq!(slack_path("U14MB0B"), "slack/U14MB0B.bincode");
    assert_eq!(user_path(&UserId::Slack("U1".to_string())), "slack/U1.bincode");
    assert_eq!(
        user_path(&UserId::Uuid(SteaderId(1))),
        "stead/00000000-0000-0000-0000-000000000001.bincode"
    );
    assert_eq!(
        user_path(&UserId::Both { uuid: SteaderId(2), slack: "U1".to_string() }),
        "stead/00000000-0000-0000-0000-000000000002.bincode"
    );
}

#[test]
fn numbers_are_written_in_decimal() {
    assert_eq!(decimal(0), "0");
    assert_eq!(decimal(7), "7");
    assert_eq!(decimal(10), "10");
    assert_eq!(decimal(1337), "1337");
    assert_eq!(decimal(u64::MAX), "18446744073709551615");
}

#[test]
fn lookup_errors_say_what_was_sought() {
    assert_eq!(
        NoSuch::Item(ItemId(1)).message(),
        "no such item: 00000000-0000-0000-0000-000000000001"
    );
    assert_eq!(
        NoSuch::Tile(TileId(2)).message(),
        "no such tile: 00000000-0000-0000-0000-000000000002"
    );
    assert_eq!(
        NoSuch::Plant(TileId(3)).message(),
        "no plant on tile: 00000000-0000-0000-0000-000000000003"
    );
    assert_eq!(
        NoSuch::Effect(TileId(3), EffectId(4)).message(),
        "no such effect: 00000000-0000-0000-0000-000000000004 on the plant on tile: 00000000-0000-0000-0000-000000000003"
    );
    assert_eq!(
        NoSuch::Gotchi(ItemId(5)).message(),
        "no gotchi in item: 00000000-0000-0000-0000-000000000005"
    );
}

#[test]
fn slack_contact_fetching() {
    let s = UserContact::Slack("U1".to_string());
    assert_eq!(s.email(), None, "slack only contact should not have email");
    assert_eq!(s.slack(), Some("U1"), "slack only contact doesn't store user properly");
}

#[test]
fn email_contact_fetching() {
    let e = UserContact::Email("U2".to_string());
    assert_eq!(e.email(), Some("U2"), "email only contact doesn't store email properly");
    assert_eq!(e.slack(), None, "email only contact shouldn't have slack");
}

#[test]
fn both_contact_fetching() {
    let both = UserContact::Both { slack: "U1".to_string(), email: "U3".to_string() };
    assert_eq!(both.slack(), Some("U1"), "both contact doesn't store slack properly");
    assert_eq!(both.email(), Some("U3"), "both contact doesn't store email properly");
}

#[test]
fn bad_request_is_a_bad_request() {
    let br = ServiceError::bad_request("you're bad and you should feel bad");
    let is_br = matches!(br, ServiceError::BadRequest(_));
    assert!(is_br, "ServiceError::bad_request() should always return a BadRequest variant");
    assert_eq!(br, ServiceError::BadRequest("you're bad and you should feel bad".to_string()));
    assert_eq!(ServiceError::bad_request(&42), ServiceError::BadRequest("42".to_string()));
}

#[test]
fn service_errors_say_what_went_wrong() {
    assert_eq!(ServiceError::InternalServerError.message(), "Internal Server Error");
    assert_eq!(ServiceError::BadRequest("no".to_string()).message(), "Bad Request: no");
    assert_eq!(ServiceError::Unauthorized.message(), "Unauthorized");
    assert_eq!(ServiceError::NoData.message(), "No data found");
    assert_eq!(ServiceError::from_store(true), ServiceError::NoData);
    assert_eq!(ServiceError::from_store(false), ServiceError::InternalServerError);
}

#[test]
fn signatures_follow_the_scheme() {
    assert_eq!(VerifySignature.signature("sha1=abcdef"), Some("abcdef"));
    assert_eq!(VerifySignature.signature("sha1="), Some(""));
    assert_eq!(VerifySignature.signature("sha1"), None);
    assert_eq!(VerifySignature.signature(""), None);
    assert_eq!(VerifySignature.signature("shaaé=abc"), None);
    assert_eq!(VerifySignature.signature("shaé=abc"), Some("=abc"));
}

#[test]
fn a_new_user_has_one_free_tile() {
    let hs = Hackstead::new_user(Some("U14M3V3".to_string()), 77);
    assert_eq!(hs.profile.slack_id, Some("U14M3V3".to_string()));
    assert_eq!(hs.profile.joined, 77);
    assert_eq!(hs.land.len(), 1);
    assert_eq!(hs.land[0].owner_id, hs.profile.steader_id);
    assert_eq!(hs.land[0].acquired, 77);
    assert_eq!(hs.free_tile(), Some(&hs.land[0]));
    assert!(hs.inventory.is_empty());

    let other = Hackstead::new_user(None, 78);
    assert_ne!(other.profile.steader_id, hs.profile.steader_id);
    assert_ne!(other.land[0].tile_id, hs.land[0].tile_id);

    let made = Hackstead::new_user_with(bob(), TileId(5), None, 9);
    let mut expected = Hackstead::empty(bob(), None, 9);
    expected.give_tile(Tile::new(bob(), TileId(5), 9));
    assert_eq!(made, expected);
}

#[test]
fn users_are_made_and_requested() {
    let user = backend::models::User::new(UserContact::Email("bob@bob.com".to_string()));
    assert_eq!(user.contact, UserContact::Email("bob@bob.com".to_string()));
    assert_eq!(user.id.0 & backend::id::KIND_BITS, backend::id::RANDOM_KIND);
    assert_eq!(user.request(), backend::models::UserRequest { id: user.id });
}

#[test]
fn soundness_is_checked() {
    let mut hs = stead();
    let plant = Plant::from_conf(bob(), TileId(10), PlantConf(0), &"Bractus".to_string());
    hs.set_plant(TileId(10), Some(plant)).unwrap();
    assert!(hs.is_sound());
    assert!(Hackstead::empty(bob(), None, 0).is_sound());

    let mut twin = hs.clone();
    twin.give_item(item(2));
    assert!(!twin.is_sound());

    let mut stolen = hs.clone();
    stolen.give_item(Item::from_conf(
        ItemId(9),
        ItemConf(0),
        SteaderId(1),
        Acquisition::Farmed,
        false,
        &String::new(),
    ));
    assert!(!stolen.is_sound());

    let mut gap = hs.clone();
    gap.item_mut(ItemId(1)).unwrap().ownership_log[0].owner_index = 1;
    assert!(!gap.is_sound());
    assert!(!gap.inventory[0].is_sound());

    let mut blank = hs.clone();
    blank.item_mut(ItemId(1)).unwrap().ownership_log.clear();
    assert!(!blank.is_sound());

    let mut misled = hs.clone();
    misled.item_mut(ItemId(1)).unwrap().owner_id = SteaderId(1);
    assert!(!misled.is_sound());
    let mut given = item(1);
    given.trade(SteaderId(1));
    assert!(given.is_sound());
    given.owner_id = bob();
    assert!(!given.is_sound());

    let mut twin_tile = hs.clone();
    twin_tile.give_tile(Tile::new(bob(), TileId(11), 0));
    assert!(!twin_tile.is_sound());

    let mut strange_tile = hs.clone();
    strange_tile.give_tile(Tile::new(SteaderId(1), TileId(12), 0));
    assert!(!strange_tile.is_sound());

    let mut uprooted = hs.clone();
    uprooted.plant_mut(TileId(10)).unwrap().tile_id = TileId(11);
    assert!(!uprooted.is_sound());
}
