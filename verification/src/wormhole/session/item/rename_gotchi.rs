//! Giving a gotchi a new name.
use crate::hackstead::item::{clone_text, Gotchi, ItemView};
use crate::hackstead::{lemma_item_found, lemma_with_item_wf};
use crate::id::{ItemId, NoSuch};
use crate::text::Complaint;
use crate::wormhole::session::{SessSend, SessSendView};
use vstd::prelude::*;
use vstd::string::*;

verus! {

/// Why a gotchi could not be renamed.
#[derive(Clone, Copy, Debug, PartialEq, Eq, Structural)]
pub enum Error {
    /// The item is not there, or is no gotchi.
    NoSuch(NoSuch),
}

impl Complaint for Error {
    open spec fn complaint(&self) -> Seq<char> {
        match *self {
            Error::NoSuch(e) => "couldn't rename gotchi: "@ + e.complaint(),
        }
    }

    fn message(&self) -> (text: String) {
        match self {
            Error::NoSuch(e) => {
                let mut text = String::from_str("couldn't rename gotchi: ");
                text.append(e.message().as_str());
                text
            },
        }
    }
}

/// What a result with a text holds.
pub open spec fn seen(r: Result<String, Error>) -> Result<Seq<char>, Error> {
    match r {
        Ok(t) => Ok(t@),
        Err(e) => Err(e),
    }
}

/// What a renaming does. Where the first item with the id is a gotchi, it
/// carries the new name, which is handed back; else nothing changes.
pub open spec fn rename_done(
    before: SessSendView,
    after: SessSendView,
    item_id: ItemId,
    new_name: Seq<char>,
    result: Result<Seq<char>, Error>,
) -> bool {
    let hs = before.hackstead;
    if !hs.has_item(item_id) {
        result == Err::<Seq<char>, Error>(Error::NoSuch(NoSuch::Item(item_id))) && after == before
    } else if hs.item(item_id).gotchi is None {
        result == Err::<Seq<char>, Error>(Error::NoSuch(NoSuch::Gotchi(item_id))) && after
            == before
    } else {
        result == Ok::<Seq<char>, Error>(new_name) && after == before.with_hackstead(
            hs.with_item(item_id, ItemView { gotchi: Some(new_name), ..hs.item(item_id) }),
        )
    }
}

/// A renaming leaves a sound hackstead sound.
pub proof fn lemma_rename_keeps_wf(
    before: SessSendView,
    after: SessSendView,
    item_id: ItemId,
    new_name: Seq<char>,
    result: Result<Seq<char>, Error>,
)
    requires
        rename_done(before, after, item_id, new_name, result),
        before.hackstead.wf(),
    ensures
        after.hackstead.wf(),
{
    let hs = before.hackstead;
    if result is Ok {
        lemma_item_found(hs, item_id);
        lemma_with_item_wf(
            hs,
            item_id,
            ItemView { gotchi: Some(new_name), ..hs.item(item_id) },
        );
    }
}

/// Gives the gotchi with the given id a new name, and hands the name back.
///
/// Fails with [`NoSuch::Item`] where no item has that id, and with
/// [`NoSuch::Gotchi`] where the item is no gotchi; nothing changes then.
pub fn rename(ss: &mut SessSend, item_id: ItemId, new_name: String) -> (r: Result<String, Error>)
    ensures
        rename_done(old(ss)@, final(ss)@, item_id, new_name@, seen(r)),
{
    let is_gotchi = match ss.hackstead.item(item_id) {
        Ok(item) => item.gotchi.is_some(),
        Err(e) => {
            return Err(Error::NoSuch(e));
        },
    };
    if !is_gotchi {
        return Err(Error::NoSuch(NoSuch::Gotchi(item_id)));
    }
    match ss.hackstead.item_mut(item_id) {
        Ok(item) => {
            item.gotchi = Some(Gotchi { nickname: clone_text(&new_name) });
        },
        Err(_) => {},
    }
    Ok(new_name)
}

} // verus!
