use backend::config::ItemConf;
use backend::hackstead::item::{Acquisition, Item, LoggedOwner};
use backend::hackstead::Hackstead;
use backend::id::{ItemId, NoSuch, SteaderId};
use backend::text::Complaint;
use backend::wormhole::note::{Note, RudeNote};
use backend::wormhole::server::throw::{throw_items, Error, ThrowItems};
use backend::wormhole::server::{Connect, Disconnect, GetSession, Server};
use backend::wormhole::session::SessSend;

fn bob() -> SteaderId {
    SteaderId(0xb0b)
}

fn eve() -> SteaderId {
    SteaderId(0xe4e)
}

fn item(id: u128, owner: SteaderId) -> Item {
    Item::from_conf(ItemId(id), ItemConf(0), owner, Acquisition::Spawned, false, &String::new())
}

fn stead(owner: SteaderId, ids: &[u128]) -> SessSend {
    let mut hs = Hackstead::empty(owner, None, 0);
    for id in ids {
        hs.give_item(item(*id, owner));
    }
    SessSend::new(hs)
}

fn throw(from: SteaderId, to: SteaderId, ids: &[u128]) -> ThrowItems {
    ThrowItems {
        sender_id: from,
        receiver_id: to,
        item_ids: ids.iter().map(|i| ItemId(*i)).collect(),
    }
}

#[test]
fn thrown_items_change_hands_and_log_it() {
    let mut eve_ss = stead(eve(), &[1, 2, 3]);
    let mut bob_ss = stead(bob(), &[9]);
    let before: Vec<Item> = eve_ss.hackstead.inventory.clone();

    let items = throw_items(&mut eve_ss, &mut bob_ss, &throw(eve(), bob(), &[3, 1])).unwrap();
    assert_eq!(items.iter().map(|i| i.item_id).collect::<Vec<_>>(), vec![ItemId(3), ItemId(1)]);
    for item in &items {
        let old = before.iter().find(|i| i.item_id == item.item_id).unwrap();
        assert_eq!(item.ownership_log.len(), old.ownership_log.len() + 1);
        assert_eq!(
            item.ownership_log.last().unwrap().owner_index,
            old.ownership_log.last().unwrap().owner_index + 1
        );
        assert!(
            !eve_ss.hackstead.has_item(item.item_id),
            "eve still has an item she gave away: {:#?}",
            item
        );
        assert!(
            bob_ss.hackstead.has_item(item.item_id),
            "bob doesn't have an item he was transferred: {:#?}",
            item
        );
        assert_eq!(
            item.ownership_log.len(),
            2,
            "spawned then traded item doesn't have two owners: {:#?}",
            item
        );
        assert_eq!(
            item.ownership_log.first().unwrap().logged_owner_id,
            eve(),
            "item spawned for eve doesn't log her as the first owner: {:#?}",
            item
        );
        assert_eq!(
            item.ownership_log.get(1).unwrap(),
            &LoggedOwner { logged_owner_id: bob(), acquisition: Acquisition::Trade, owner_index: 1 },
            "item given to bob doesn't log him as the second owner: {:#?}",
            item
        );
        assert_eq!(item.owner_id, bob());
    }
    assert_eq!(eve_ss.hackstead.inventory, vec![item(2, eve())]);
    assert_eq!(bob_ss.hackstead.inventory.len(), 3);
    assert_eq!(&bob_ss.hackstead.inventory[1..], &items[..]);
    assert_eq!(
        bob_ss.pending_notes,
        vec![Note::Rude(RudeNote::ItemThrowReceipt { from: eve(), items: items.clone() })]
    );
    assert!(eve_ss.pending_notes.is_empty());
}

#[test]
fn an_item_thrown_back_logs_three_owners() {
    let mut eve_ss = stead(eve(), &[1]);
    let mut bob_ss = stead(bob(), &[]);
    throw_items(&mut eve_ss, &mut bob_ss, &throw(eve(), bob(), &[1])).unwrap();
    let items = throw_items(&mut bob_ss, &mut eve_ss, &throw(bob(), eve(), &[1])).unwrap();
    assert_eq!(
        vec![eve(), bob(), eve()],
        items[0].ownership_log.iter().map(|o| o.logged_owner_id).collect::<Vec<_>>(),
        "malformed ownership log for spawned(eve), given(bob), then given(eve) item",
    );
    assert_eq!(
        items[0].ownership_log.iter().map(|o| o.owner_index).collect::<Vec<_>>(),
        vec![0, 1, 2]
    );
}

#[test]
fn a_throw_of_mixed_ownership_moves_nothing() {
    let mut eve_ss = stead(eve(), &[1, 2]);
    eve_ss.hackstead.give_item(item(3, bob()));
    let mut bob_ss = stead(bob(), &[9]);
    let (eve_before, bob_before) = (eve_ss.hackstead.clone(), bob_ss.hackstead.clone());

    let mixed = throw_items(&mut eve_ss, &mut bob_ss, &throw(eve(), bob(), &[1, 3, 2]));
    assert_eq!(mixed, Err(Error::MixedOwnership(ItemId(3))));
    assert_eq!(eve_ss.hackstead, eve_before);
    assert_eq!(bob_ss.hackstead, bob_before);
    assert!(bob_ss.pending_notes.is_empty());
    for item in &eve_ss.hackstead.inventory {
        assert_ne!(
            (item.item_id, item.owner_id),
            (ItemId(1), bob()),
            "mixed-ownership transaction partially succeeded, item was transferred: {:#?}",
            item
        );
    }

    let missing = throw_items(&mut eve_ss, &mut bob_ss, &throw(eve(), bob(), &[1, 7, 3]));
    assert_eq!(missing, Err(Error::NoSuch(NoSuch::Item(ItemId(7)))));
    let twice = throw_items(&mut eve_ss, &mut bob_ss, &throw(eve(), bob(), &[1, 1]));
    assert_eq!(twice, Err(Error::NoSuch(NoSuch::Item(ItemId(1)))));
    let not_hers = throw_items(&mut eve_ss, &mut bob_ss, &throw(eve(), bob(), &[9]));
    assert_eq!(not_hers, Err(Error::NoSuch(NoSuch::Item(ItemId(9)))));
    assert_eq!(eve_ss.hackstead, eve_before);
    assert_eq!(bob_ss.hackstead, bob_before);
}

#[test]
fn an_item_whose_log_names_another_is_not_thrown() {
    let mut eve_ss = stead(eve(), &[1]);
    let mut odd = item(2, bob());
    odd.owner_id = eve();
    eve_ss.hackstead.give_item(odd);
    let mut bob_ss = stead(bob(), &[]);
    let before = eve_ss.hackstead.clone();
    assert_eq!(
        throw_items(&mut eve_ss, &mut bob_ss, &throw(eve(), bob(), &[2])),
        Err(Error::MixedOwnership(ItemId(2)))
    );
    assert_eq!(eve_ss.hackstead, before);
}

#[test]
fn giving_to_oneself_fails() {
    let mut a = stead(eve(), &[1, 2]);
    let mut b = stead(eve(), &[1, 2]);
    let before = a.hackstead.clone();
    assert_eq!(throw_items(&mut a, &mut b, &throw(eve(), eve(), &[1])), Err(Error::SelfGive));
    assert_eq!(throw_items(&mut a, &mut b, &throw(eve(), eve(), &[])), Err(Error::SelfGive));
    assert_eq!(throw_items(&mut a, &mut b, &throw(eve(), eve(), &[7])), Err(Error::SelfGive));
    assert_eq!(a.hackstead, before);
    assert_eq!(b.hackstead, before);
    assert!(a.pending_notes.is_empty() && b.pending_notes.is_empty());
}

#[test]
fn an_empty_throw_moves_nothing_but_is_announced() {
    let mut eve_ss = stead(eve(), &[1]);
    let mut bob_ss = stead(bob(), &[]);
    assert_eq!(throw_items(&mut eve_ss, &mut bob_ss, &throw(eve(), bob(), &[])), Ok(vec![]));
    assert_eq!(eve_ss.hackstead.inventory.len(), 1);
    assert!(bob_ss.hackstead.inventory.is_empty());
    assert_eq!(
        bob_ss.pending_notes,
        vec![Note::Rude(RudeNote::ItemThrowReceipt { from: eve(), items: vec![] })]
    );
}

#[test]
fn throw_errors_say_what_went_wrong() {
    assert_eq!(
        Error::SelfGive.message(),
        "couldn't throw items to another user: huh? the sender and receiver are the same, this accomplishes nothing!"
    );
    assert_eq!(
        Error::MixedOwnership(ItemId(3)).message(),
        "couldn't throw items to another user: transfer of item 00000000-0000-0000-0000-000000000003 requested but sender was not owner"
    );
    assert_eq!(
        Error::PartyOffline(SteaderId(4)).message(),
        "couldn't throw items to another user: sender or receiver 00000000-0000-0000-0000-000000000004 is offline, which makes it impossible to trade (for now)"
    );
    assert_eq!(
        Error::NoSuch(NoSuch::Item(ItemId(5))).message(),
        "couldn't throw items to another user: no such item: 00000000-0000-0000-0000-000000000005"
    );
    assert_eq!(
        Error::Mailbox.message(),
        "couldn't throw items to another user: couldn't communicate with a users's session, possibly they are offline"
    );
}

#[test]
fn the_server_lists_who_is_online() {
    let mut server: Server<&'static str> = Server::new();
    assert_eq!(server.online(), 0);
    assert_eq!(server.get_session(GetSession::new(bob())), None);

    server.connect(Connect(bob(), "bob's session"));
    server.connect(Connect(eve(), "eve's session"));
    assert_eq!(server.online(), 2);
    assert_eq!(server.get_session(GetSession::new(bob())), Some(&"bob's session"));
    assert_eq!(server.get_session(GetSession(eve())), Some(&"eve's session"));

    server.connect(Connect(bob(), "bob's new session"));
    assert_eq!(server.online(), 2);
    assert_eq!(server.get_session(GetSession::new(bob())), Some(&"bob's new session"));

    let mut all: Vec<&str> = server.broadcast_note().into_iter().copied().collect();
    all.sort();
    assert_eq!(all, vec!["bob's new session", "eve's session"]);

    server.disconnect(Disconnect(bob()));
    assert_eq!(server.online(), 1);
    assert_eq!(server.get_session(GetSession::new(bob())), None);
    server.disconnect(Disconnect(bob()));
    assert_eq!(server.online(), 1);
    assert_eq!(server.broadcast_note(), vec![&"eve's session"]);
}

#[test]
fn a_throw_needs_both_parties_online() {
    let mut server: Server<u8> = Server::new();
    let msg = throw(eve(), bob(), &[1]);
    assert_eq!(server.throw_parties(&msg), Err(Error::PartyOffline(eve())));
    server.connect(Connect(bob(), 2));
    assert_eq!(server.throw_parties(&msg), Err(Error::PartyOffline(eve())));
    server.connect(Connect(eve(), 1));
    assert_eq!(server.throw_parties(&msg), Ok((&1, &2)));
    assert_eq!(server.throw_parties(&throw(bob(), eve(), &[])), Ok((&2, &1)));
    assert_eq!(server.throw_parties(&throw(eve(), eve(), &[1])), Err(Error::SelfGive));
    assert_eq!(server.throw_parties(&throw(bob(), bob(), &[1])), Err(Error::SelfGive));
    server.disconnect(Disconnect(bob()));
    assert_eq!(server.throw_parties(&msg), Err(Error::PartyOffline(bob())));
    assert_eq!(
        server.throw_parties(&throw(SteaderId(7), SteaderId(7), &[])),
        Err(Error::SelfGive)
    );
}
