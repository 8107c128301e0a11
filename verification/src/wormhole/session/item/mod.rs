//! What users ask to be done with items.
use crate::config::Config;
use crate::hackstead::item::ItemView;
use crate::id::ItemId;
use crate::text::said;
use crate::wormhole::note::{AskedNote, AskedNoteView, ItemAsk};
use crate::wormhole::server::throw::ThrowItems;
use crate::wormhole::session::{strerr, HandledAskKind, NoteEnvelope, SessSend, SessSendView};
use vstd::prelude::*;

pub mod hatch;
pub mod rename_gotchi;
pub mod spawn;

verus! {

/// What serving an item ask does.
///
/// A spawn, a hatch and a renaming are served here, as their handlers say, and
/// answered. A throw is for the server: nothing changes, and the ask is handed
/// over with this user as the sender.
pub open spec fn item_ask_done(
    before: SessSendView,
    after: SessSendView,
    config: Config,
    ask: ItemAsk,
    kind: HandledAskKind,
) -> bool {
    match ask {
        ItemAsk::Spawn { item_conf, amount } => exists|
            ids: Seq<ItemId>,
            r: Result<Seq<ItemView>, spawn::Error>,
        |
            {
                &&& ids.len() == amount
                &&& #[trigger] spawn::spawn_done(before, after, config, item_conf, ids, r)
                &&& kind matches HandledAskKind::Direct(note)
                &&& note@ == AskedNoteView::ItemSpawnResult(said(r))
            },
        ItemAsk::Throw { receiver_id, item_ids } => {
            &&& after == before
            &&& kind matches HandledAskKind::ServerRelinquish(envelope)
            &&& envelope.msg.sender_id == before.hackstead.profile.steader_id
            &&& envelope.msg.receiver_id == receiver_id
            &&& envelope.msg.item_ids@ == item_ids@
        },
        ItemAsk::Hatch { hatchable_item_id } => exists|
            roll: u128,
            ids: Seq<ItemId>,
            r: Result<Seq<ItemView>, hatch::Error>,
        |
            {
                &&& hatch::can_roll(before, config, hatchable_item_id, roll)
                &&& ids.len() == hatch::hatch_confs(before, config, hatchable_item_id, roll).len()
                &&& #[trigger] hatch::hatch_done(
                    before,
                    after,
                    config,
                    hatchable_item_id,
                    roll,
                    ids,
                    r,
                )
                &&& kind matches HandledAskKind::Direct(note)
                &&& note@ == AskedNoteView::ItemHatchResult(said(r))
            },
        ItemAsk::GotchiRename { item_id, new_name } => exists|
            r: Result<Seq<char>, rename_gotchi::Error>,
        |
            {
                &&& #[trigger] rename_gotchi::rename_done(before, after, item_id, new_name@, r)
                &&& kind matches HandledAskKind::Direct(note)
                &&& note@ == AskedNoteView::GotchiRenameResult(said(r))
            },
    }
}

/// Serves an item ask on the pending changes, but for a throw, which it hands
/// over to the server.
pub fn handle_ask(ss: &mut SessSend, config: &Config, ask: ItemAsk) -> (kind: HandledAskKind)
    ensures
        item_ask_done(old(ss)@, final(ss)@, *config, ask, kind),
{
    match ask {
        ItemAsk::Spawn { item_conf, amount } => {
            let r = spawn::spawn(ss, config, item_conf, amount);
            let ghost seen = spawn::seen(r);
            let note = AskedNote::ItemSpawnResult(strerr(r));
            proof {
                let ids = choose|ids: Seq<ItemId>|
                    ids.len() == amount && #[trigger] spawn::spawn_done(
                        old(ss)@,
                        ss@,
                        *config,
                        item_conf,
                        ids,
                        seen,
                    );
                assert(spawn::spawn_done(old(ss)@, ss@, *config, item_conf, ids, seen));
                assert(note@ == AskedNoteView::ItemSpawnResult(said(seen)));
            }
            HandledAskKind::Direct(note)
        },
        ItemAsk::Throw { receiver_id, item_ids } => HandledAskKind::ServerRelinquish(
            NoteEnvelope {
                msg: ThrowItems {
                    sender_id: ss.hackstead.profile.steader_id,
                    receiver_id,
                    item_ids,
                },
            },
        ),
        ItemAsk::Hatch { hatchable_item_id } => {
            let r = hatch::hatch(ss, config, hatchable_item_id);
            let ghost seen = hatch::seen(r);
            let note = AskedNote::ItemHatchResult(strerr(r));
            proof {
                let (roll, ids) = choose|roll: u128, ids: Seq<ItemId>|
                    {
                        &&& hatch::can_roll(old(ss)@, *config, hatchable_item_id, roll)
                        &&& ids.len() == hatch::hatch_confs(
                            old(ss)@,
                            *config,
                            hatchable_item_id,
                            roll,
                        ).len()
                        &&& #[trigger] hatch::hatch_done(
                            old(ss)@,
                            ss@,
                            *config,
                            hatchable_item_id,
                            roll,
                            ids,
                            seen,
                        )
                    };
                assert(hatch::hatch_done(
                    old(ss)@,
                    ss@,
                    *config,
                    hatchable_item_id,
                    roll,
                    ids,
                    seen,
                ));
                assert(note@ == AskedNoteView::ItemHatchResult(said(seen)));
            }
            HandledAskKind::Direct(note)
        },
        ItemAsk::GotchiRename { item_id, new_name } => {
            let ghost name = new_name@;
            let r = rename_gotchi::rename(ss, item_id, new_name);
            let ghost seen = rename_gotchi::seen(r);
            let note = AskedNote::GotchiRenameResult(strerr(r));
            proof {
                assert(rename_gotchi::rename_done(old(ss)@, ss@, item_id, name, seen));
                assert(note@ == AskedNoteView::GotchiRenameResult(said(seen)));
            }
            HandledAskKind::Direct(note)
        },
    }
}

} // verus!
