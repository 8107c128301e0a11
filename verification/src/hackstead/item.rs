//! Items: what a user holds in the inventory, and where each one came from.
use crate::config::ItemConf;
use crate::id::{ItemId, SteaderId};
use vstd::prelude::*;

verus! {

/// How an owner came by an item.
#[derive(Clone, Copy, Debug, PartialEq, Eq, Structural)]
pub enum Acquisition {
    /// Another user gave it.
    Trade,
    /// A plant yielded it.
    Farmed,
    /// A plant crafted it.
    Crafted,
    /// Another item hatched into it.
    Hatched,
    /// It was made from nothing.
    Spawned,
}

impl Acquisition {
    /// How a spawned item was acquired.
    pub fn spawned() -> (a: Acquisition)
        ensures
            a == Acquisition::Spawned,
    {
        Acquisition::Spawned
    }
}

/// One entry of an item's ownership log.
#[derive(Clone, Copy, Debug, PartialEq, Eq, Structural)]
pub struct LoggedOwner {
    /// Who owned the item.
    pub logged_owner_id: SteaderId,
    /// How they came by it.
    pub acquisition: Acquisition,
    /// Which owner they were, counted from zero.
    pub owner_index: usize,
}

/// What makes an item a gotchi.
#[derive(Debug, PartialEq, Eq)]
pub struct Gotchi {
    /// The name its owner gave it.
    pub nickname: String,
}

/// An item.
#[derive(Debug, PartialEq, Eq)]
pub struct Item {
    /// Which item this is.
    pub item_id: ItemId,
    /// Who owns it now.
    pub owner_id: SteaderId,
    /// Which archetype it is of.
    pub conf: ItemConf,
    /// Every owner it had, oldest first.
    pub ownership_log: Vec<LoggedOwner>,
    /// Its life as a gotchi, if it is one.
    pub gotchi: Option<Gotchi>,
}

/// What an [`Item`] holds.
pub struct ItemView {
    pub item_id: ItemId,
    pub owner_id: SteaderId,
    pub conf: ItemConf,
    pub ownership_log: Seq<LoggedOwner>,
    pub gotchi: Option<Seq<char>>,
}

impl ItemView {
    /// Whether the item belongs to `owner`, and its log says so.
    pub open spec fn logged_to(self, owner: SteaderId) -> bool {
        &&& self.owner_id == owner
        &&& self.ownership_log.len() > 0
        &&& self.ownership_log.last().logged_owner_id == owner
    }

    /// The item after it was given to `receiver`: the receiver owns it, and is
    /// the next owner in its log.
    pub open spec fn traded(self, receiver: SteaderId) -> ItemView {
        ItemView {
            owner_id: receiver,
            ownership_log: self.ownership_log.push(
                LoggedOwner {
                    logged_owner_id: receiver,
                    acquisition: Acquisition::Trade,
                    owner_index: self.ownership_log.len() as usize,
                },
            ),
            ..self
        }
    }

    /// The log is not empty, counts its owners from zero without a gap, and
    /// ends with the current owner.
    pub open spec fn wf(self) -> bool {
        &&& 0 < self.ownership_log.len() <= usize::MAX
        &&& forall|i: int|
            0 <= i < self.ownership_log.len() ==> (#[trigger] self.ownership_log[i]).owner_index
                == i
        &&& self.ownership_log.last().logged_owner_id == self.owner_id
    }
}

/// Giving an item away makes its log one entry longer, and the new entry counts
/// one owner more than the last: the log stays in order.
pub proof fn lemma_trade_extends_log(item: ItemView, receiver: SteaderId)
    requires
        item.wf(),
    ensures
        item.traded(receiver).ownership_log.len() == item.ownership_log.len() + 1,
        item.traded(receiver).ownership_log.last().owner_index
            == item.ownership_log.last().owner_index + 1,
        item.traded(receiver).ownership_log.last().logged_owner_id == receiver,
        item.traded(receiver).ownership_log.len() <= usize::MAX ==> item.traded(receiver).wf(),
        item.traded(receiver).ownership_log.take(item.ownership_log.len() as int)
            == item.ownership_log,
{
    assert(item.traded(receiver).ownership_log.take(item.ownership_log.len() as int)
        =~= item.ownership_log);
}

impl DeepView for Item {
    type V = ItemView;

    open spec fn deep_view(&self) -> ItemView {
        ItemView {
            item_id: self.item_id,
            owner_id: self.owner_id,
            conf: self.conf,
            ownership_log: self.ownership_log@,
            gotchi: match self.gotchi {
                Some(g) => Some(g.nickname@),
                None => None,
            },
        }
    }
}

impl View for Item {
    type V = ItemView;

    open spec fn view(&self) -> ItemView {
        self.deep_view()
    }
}

/// Copies a text.
pub(crate) fn clone_text(text: &String) -> (copy: String)
    ensures
        copy@ == text@,
{
    text.clone()
}

impl Clone for Gotchi {
    fn clone(&self) -> (copy: Gotchi)
        ensures
            copy.nickname@ == self.nickname@,
    {
        Gotchi { nickname: clone_text(&self.nickname) }
    }
}

/// Copies an ownership log.
pub fn clone_log(log: &Vec<LoggedOwner>) -> (copy: Vec<LoggedOwner>)
    ensures
        copy@ == log@,
{
    let mut copy: Vec<LoggedOwner> = Vec::new();
    let mut i: usize = 0;
    while i < log.len()
        invariant
            i <= log.len(),
            copy@ == log@.take(i as int),
        decreases log.len() - i,
    {
        copy.push(log[i]);
        proof {
            assert(log@.take(i + 1) == log@.take(i as int).push(log@[i as int]));
        }
        i = i + 1;
    }
    proof {
        assert(log@.take(i as int) == log@);
    }
    copy
}

impl Clone for Item {
    fn clone(&self) -> (copy: Item)
        ensures
            copy@ == self@,
    {
        Item {
            item_id: self.item_id,
            owner_id: self.owner_id,
            conf: self.conf,
            ownership_log: clone_log(&self.ownership_log),
            gotchi: match &self.gotchi {
                Some(g) => Some(g.clone()),
                None => None,
            },
        }
    }
}

impl Item {
    /// A new item of the archetype `conf`, owned by `owner_id`, whose log holds
    /// the one entry that says how the owner came by it. It is a gotchi, named
    /// `name`, exactly if `gotchi` holds.
    pub fn from_conf(
        item_id: ItemId,
        conf: ItemConf,
        owner_id: SteaderId,
        acquisition: Acquisition,
        gotchi: bool,
        name: &String,
    ) -> (item: Item)
        ensures
            item@ == Item::made(item_id, conf, owner_id, acquisition, gotchi, name@),
            item@.wf(),
    {
        let mut ownership_log: Vec<LoggedOwner> = Vec::new();
        ownership_log.push(LoggedOwner { logged_owner_id: owner_id, acquisition, owner_index: 0 });
        let gotchi = if gotchi {
            Some(Gotchi { nickname: clone_text(name) })
        } else {
            None
        };
        Item { item_id, owner_id, conf, ownership_log, gotchi }
    }

    /// What [`Item::from_conf`] makes.
    pub open spec fn made(
        item_id: ItemId,
        conf: ItemConf,
        owner_id: SteaderId,
        acquisition: Acquisition,
        gotchi: bool,
        name: Seq<char>,
    ) -> ItemView {
        ItemView {
            item_id,
            owner_id,
            conf,
            ownership_log: seq![LoggedOwner { logged_owner_id: owner_id, acquisition, owner_index: 0 }],
            gotchi: if gotchi {
                Some(name)
            } else {
                None
            },
        }
    }

    /// Whether the item belongs to `owner`, and its log says so.
    pub fn logged_to(&self, owner: SteaderId) -> (b: bool)
        ensures
            b == self@.logged_to(owner),
    {
        let n = self.ownership_log.len();
        self.owner_id == owner && n > 0 && self.ownership_log[n - 1].logged_owner_id == owner
    }

    /// Gives the item to `receiver`: the receiver owns it, and is the next
    /// owner in its log.
    pub fn trade(&mut self, receiver: SteaderId)
        ensures
            final(self)@ == old(self)@.traded(receiver),
    {
        let owner_index = self.ownership_log.len();
        self.owner_id = receiver;
        self.ownership_log.push(
            LoggedOwner { logged_owner_id: receiver, acquisition: Acquisition::Trade, owner_index },
        );
    }

    /// Whether the item's log is in order: not empty, counting its owners from
    /// zero without a gap, and ending with the current owner.
    pub fn is_sound(&self) -> (b: bool)
        ensures
            b == self@.wf(),
    {
        let n = self.ownership_log.len();
        if n == 0 || self.ownership_log[n - 1].logged_owner_id != self.owner_id {
            return false;
        }
        let mut i: usize = 0;
        while i < n
            invariant
                i <= n,
                n == self.ownership_log@.len(),
                forall|j: int| 0 <= j < i ==> (#[trigger] self.ownership_log@[j]).owner_index == j,
            decreases n - i,
        {
            if self.ownership_log[i].owner_index != i {
                return false;
            }
            i = i + 1;
        }
        true
    }

    /// Whether two items hold the same.
    pub fn same(&self, other: &Item) -> (b: bool)
        ensures
            b == (self@ == other@),
    {
        if !(self.item_id == other.item_id && self.owner_id == other.owner_id && self.conf
            == other.conf) {
            return false;
        }
        let gotchi_same = match (&self.gotchi, &other.gotchi) {
            (Some(a), Some(b)) => a.nickname == b.nickname,
            (None, None) => true,
            _ => false,
        };
        if !gotchi_same {
            return false;
        }
        if self.ownership_log.len() != other.ownership_log.len() {
            return false;
        }
        let mut i: usize = 0;
        while i < self.ownership_log.len()
            invariant
                i <= self.ownership_log.len(),
                self.ownership_log.len() == other.ownership_log.len(),
                self.ownership_log@.take(i as int) == other.ownership_log@.take(i as int),
            decreases self.ownership_log.len() - i,
        {
            if self.ownership_log[i] != other.ownership_log[i] {
                proof {
                    if self.ownership_log@ == other.ownership_log@ {
                        assert(self.ownership_log@[i as int] == other.ownership_log@[i as int]);
                    }
                }
                return false;
            }
            proof {
                assert(self.ownership_log@.take(i + 1) == self.ownership_log@.take(i as int).push(
                    self.ownership_log@[i as int],
                ));
                assert(other.ownership_log@.take(i + 1) == other.ownership_log@.take(
                    i as int,
                ).push(other.ownership_log@[i as int]));
            }
            i = i + 1;
        }
        proof {
            assert(self.ownership_log@.take(i as int) == self.ownership_log@);
            assert(other.ownership_log@.take(i as int) == other.ownership_log@);
        }
        true
    }
}

} // verus!
