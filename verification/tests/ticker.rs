use backend::config::{ItemConf, PlantConf};
use backend::hackstead::plant::{Effect, Lifecycle, Plant, Timer, TimerKind};
use backend::hackstead::tile::Tile;
use backend::hackstead::Hackstead;
use backend::id::{EffectId, NoSuch, SteaderId, TileId};
use backend::text::Complaint;
use backend::wormhole::note::{Note, RudeNote};
use backend::wormhole::session::ticker::finish::{finish_timer, Error};
use backend::wormhole::session::ticker::Ticker;
use backend::wormhole::session::{SessSend, SessSendSubmit};

fn bob() -> SteaderId {
    SteaderId(0xb0b)
}

fn effect(id: u128, duration: Option<u64>) -> Effect {
    Effect { effect_id: EffectId(id), item_conf: ItemConf(0), effect_index: 0, duration }
}

fn rub_timer(tile: u128, id: u128, until_finish: u64) -> Timer {
    Timer {
        until_finish,
        tile_id: TileId(tile),
        lifecycle: Lifecycle::Annual,
        kind: TimerKind::Rub { effect_id: EffectId(id) },
    }
}

fn yield_timer(tile: u128, duration: u64) -> Timer {
    Timer {
        until_finish: duration,
        tile_id: TileId(tile),
        lifecycle: Lifecycle::Perennial { duration },
        kind: TimerKind::Yield,
    }
}

fn stead() -> Hackstead {
    let mut hs = Hackstead::empty(bob(), None, 0);
    hs.give_tile(Tile::new(bob(), TileId(1), 0));
    hs.give_tile(Tile::new(bob(), TileId(2), 0));
    let mut plant = Plant::from_conf(bob(), TileId(1), PlantConf(0), &"Bractus".to_string());
    plant.rub(&vec![effect(7, Some(5)), effect(8, None)]);
    hs.set_plant(TileId(1), Some(plant)).unwrap();
    hs
}

fn update(timer: Timer, value: u64) -> Note {
    Note::Rude(RudeNote::TimerUpdate { tile_id: timer.tile_id, kind: timer.kind, value })
}

#[test]
fn tick_determinism() {
    let timer = rub_timer(1, 7, 5);
    let mut ticker = Ticker { timers: vec![] };
    let mut hs = stead();
    assert_eq!(ticker.start(&hs, timer), Ok(()));
    for left in [4, 3, 2, 1] {
        let mut ss = SessSend::new(hs.clone());
        assert_eq!(ticker.tick(&mut ss), SessSendSubmit::Submit);
        assert_eq!(ss.pending_notes, vec![update(timer, left)]);
        assert_eq!(ticker.timers, vec![rub_timer(1, 7, left)]);
        assert_eq!(ss.hackstead, hs);
        hs = ss.hackstead;
    }
    let mut ss = SessSend::new(hs.clone());
    ticker.tick(&mut ss);
    assert_eq!(
        ss.pending_notes,
        vec![Note::Rude(RudeNote::RubEffectFinish {
            tile_id: TileId(1),
            effect: effect(7, Some(5))
        })]
    );
    assert!(ticker.timers.is_empty());
    assert_eq!(ss.hackstead.plant(TileId(1)).unwrap().effects, vec![effect(8, None)]);

    let mut after = SessSend::new(ss.hackstead.clone());
    ticker.tick(&mut after);
    assert!(after.pending_notes.is_empty());
    assert_eq!(after.hackstead, ss.hackstead);
}

#[test]
fn a_perennial_timer_starts_over() {
    let timer = yield_timer(1, 2);
    let mut ticker = Ticker { timers: vec![timer] };
    let hs = stead();
    for _ in 0..3 {
        let mut ss = SessSend::new(hs.clone());
        ticker.tick(&mut ss);
        assert_eq!(ss.pending_notes, vec![update(timer, 1)]);
        let mut ss = SessSend::new(hs.clone());
        ticker.tick(&mut ss);
        assert_eq!(
            ss.pending_notes,
            vec![Note::Rude(RudeNote::YieldFinish { tile_id: TileId(1) })]
        );
        assert_eq!(ticker.timers, vec![timer]);
        assert_eq!(ss.hackstead, hs);
    }
}

#[test]
fn updates_come_before_finishes_and_finishes_in_the_order_of_the_timers() {
    let craft = Timer {
        until_finish: 1,
        tile_id: TileId(1),
        lifecycle: Lifecycle::Annual,
        kind: TimerKind::Craft { recipe_index: 0 },
    };
    let xp = Timer {
        until_finish: 0,
        tile_id: TileId(1),
        lifecycle: Lifecycle::Annual,
        kind: TimerKind::Xp,
    };
    let timers = vec![rub_timer(1, 7, 1), yield_timer(1, 9), craft, xp, rub_timer(1, 8, 3)];
    let mut ticker = Ticker { timers: timers.clone() };
    let mut ss = SessSend::new(stead());
    ss.send_note(Note::Rude(RudeNote::YieldFinish { tile_id: TileId(2) }));
    ticker.tick(&mut ss);
    assert_eq!(
        ss.pending_notes,
        vec![
            Note::Rude(RudeNote::YieldFinish { tile_id: TileId(2) }),
            update(timers[1], 8),
            update(timers[4], 2),
            Note::Rude(RudeNote::RubEffectFinish {
                tile_id: TileId(1),
                effect: effect(7, Some(5))
            }),
            Note::Rude(RudeNote::CraftFinish { tile_id: TileId(1) }),
        ]
    );
    assert_eq!(
        ticker.timers,
        vec![Timer { until_finish: 8, ..timers[1] }, rub_timer(1, 8, 2)]
    );
    assert_eq!(ss.hackstead.plant(TileId(1)).unwrap().effects, vec![effect(8, None)]);
}

#[test]
fn a_timer_whose_plant_is_gone_is_dropped() {
    let mut ticker = Ticker {
        timers: vec![yield_timer(2, 1), rub_timer(9, 7, 1), rub_timer(1, 99, 1), yield_timer(1, 1)],
    };
    let hs = stead();
    let mut ss = SessSend::new(hs.clone());
    ticker.tick(&mut ss);
    assert_eq!(ss.pending_notes, vec![Note::Rude(RudeNote::YieldFinish { tile_id: TileId(1) })]);
    assert_eq!(ticker.timers, vec![yield_timer(1, 1)]);
    assert_eq!(ss.hackstead, hs);
}

#[test]
fn finishing_a_timer_resolves_it_against_the_hackstead() {
    let mut ss = SessSend::new(stead());
    assert_eq!(
        finish_timer(&mut ss, rub_timer(1, 7, 0)),
        Ok(Some(RudeNote::RubEffectFinish { tile_id: TileId(1), effect: effect(7, Some(5)) }))
    );
    assert_eq!(ss.hackstead.plant(TileId(1)).unwrap().effects, vec![effect(8, None)]);
    let before = ss.hackstead.clone();
    assert_eq!(
        finish_timer(&mut ss, rub_timer(1, 7, 0)),
        Err(Error::NoSuch(NoSuch::Effect(TileId(1), EffectId(7))))
    );
    assert_eq!(
        finish_timer(&mut ss, rub_timer(2, 7, 0)),
        Err(Error::NoSuch(NoSuch::Plant(TileId(2))))
    );
    assert_eq!(
        finish_timer(&mut ss, yield_timer(3, 0)),
        Err(Error::NoSuch(NoSuch::Tile(TileId(3))))
    );
    assert_eq!(
        finish_timer(&mut ss, yield_timer(1, 0)),
        Ok(Some(RudeNote::YieldFinish { tile_id: TileId(1) }))
    );
    let xp = Timer { kind: TimerKind::Xp, ..yield_timer(1, 0) };
    assert_eq!(finish_timer(&mut ss, xp), Ok(None));
    assert_eq!(finish_timer(&mut ss, Timer { tile_id: TileId(2), ..xp }).is_err(), true);
    assert_eq!(ss.hackstead, before);
    assert!(ss.pending_notes.is_empty());
    assert_eq!(
        Error::NoSuch(NoSuch::Plant(TileId(2))).message(),
        "couldn't finish timer: no plant on tile: 00000000-0000-0000-0000-000000000002"
    );
}

#[test]
fn timers_start_only_for_plants() {
    let hs = stead();
    let mut ticker = Ticker { timers: vec![] };
    assert_eq!(ticker.start(&hs, yield_timer(2, 3)), Err(NoSuch::Plant(TileId(2))));
    assert_eq!(ticker.start(&hs, yield_timer(3, 3)), Err(NoSuch::Tile(TileId(3))));
    assert!(ticker.timers.is_empty());
    assert_eq!(ticker.start(&hs, yield_timer(1, 3)), Ok(()));
    assert_eq!(ticker.start(&hs, rub_timer(1, 7, 5)), Ok(()));
    assert_eq!(ticker.timers, vec![yield_timer(1, 3), rub_timer(1, 7, 5)]);
}

#[test]
fn a_ticker_takes_over_the_timers_of_a_hackstead() {
    let mut hs = stead();
    hs.timers = vec![yield_timer(1, 3), rub_timer(1, 7, 5)];
    let ticker = Ticker::new(&mut hs);
    assert_eq!(ticker.timers, vec![yield_timer(1, 3), rub_timer(1, 7, 5)]);
    assert!(hs.timers.is_empty());
    assert_eq!(ticker.clone(), ticker);
}

#[test]
fn xp_is_kept_in_the_first_xp_timer_of_a_tile() {
    let xp = |tile: u128, value: u64| Timer {
        until_finish: value,
        tile_id: TileId(tile),
        lifecycle: Lifecycle::Annual,
        kind: TimerKind::Xp,
    };
    let mut ticker = Ticker { timers: vec![yield_timer(1, 3), xp(2, 5), xp(1, 7), xp(1, 9)] };
    assert_eq!(ticker.xp(TileId(1)), 7);
    assert_eq!(ticker.xp(TileId(2)), 5);
    assert_eq!(ticker.xp(TileId(3)), 0);
    assert_eq!(ticker.increase_xp(TileId(1), 10), Ok(()));
    assert_eq!(ticker.xp(TileId(1)), 17);
    assert_eq!(ticker.timers, vec![yield_timer(1, 3), xp(2, 5), xp(1, 17), xp(1, 9)]);
    assert_eq!(ticker.increase_xp(TileId(3), 10), Err(()));
    assert_eq!(ticker.increase_xp(TileId(2), u64::MAX), Ok(()));
    assert_eq!(ticker.xp(TileId(2)), u64::MAX);
    assert_eq!(ticker.timers.len(), 4);
}
