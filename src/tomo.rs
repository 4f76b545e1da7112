use vstd::prelude::*;
use crate::draw::{draw_in_range, range_draw};

verus! {

/// A ledger identity or record address.
pub type Address = [u8; 32];

/// Hunger of a freshly created creature, and the most it can have.
pub const MAX_HUNGER: u8 = 100;

/// Coins that one feeding costs.
pub const FEED_COST: u64 = 10;

/// Hunger that one feeding removes.
pub const FEED_RELIEF: u8 = 30;

/// Number of slots in a creature's inventory.
pub const INVENTORY_SLOTS: usize = 8;

/// The code of an empty inventory slot.
pub const EMPTY_SLOT: u8 = 0;

/// Longest identifier, in bytes, that can key a creature record.
pub const MAX_UID_LEN: usize = 32;

/// Lowest and highest value of a random event roll.
pub const EVENT_ROLL_MIN: u8 = 1;
pub const EVENT_ROLL_MAX: u8 = 100;

/// A random event roll at or below this grants an item drop.
pub const EVENT_DROP_THRESHOLD: u8 = 20;

/// The failures an operation on a creature can report.
#[derive(Clone, Copy, Debug, PartialEq, Eq, Structural)]
pub enum TomoError {
    /// Feeding was asked for with fewer coins than it costs.
    NotEnoughCoins,
    /// The caller is not the identity the operation demands.
    Unauthorized,
    /// A record already stands under the requested identifier.
    AlreadyExists,
    /// The identifier is longer than a record key may be.
    UidTooLong,
    /// No record stands under the requested identifier.
    NotFound,
    /// No record address can be derived from the identifier.
    AddressUnavailable,
    /// The record is already under the auxiliary venue's authority.
    AlreadyDelegated,
    /// The record is not under the auxiliary venue's authority.
    NotDelegated,
    /// A scheduling argument does not fit the scheduler's encoding.
    InvalidArgument,
    /// The scheduling payload could not be encoded.
    SerializationFailed,
}

/// The inclusive range of item codes that an item drop draws from.
#[derive(Clone, Copy, Debug, PartialEq, Eq, Structural)]
pub struct ItemRange {
    pub lo: u8,
    pub hi: u8,
}

impl ItemRange {
    /// A usable range: non-empty, and never producing the empty-slot code.
    pub open spec fn wf(&self) -> bool {
        1 <= self.lo && self.lo <= self.hi
    }

    /// The range `[lo, hi]`, refused unless it is usable.
    pub fn new(lo: u8, hi: u8) -> (r: Option<ItemRange>)
        ensures
            r is Some <==> (1 <= lo && lo <= hi),
            r matches Some(g) ==> g.lo == lo && g.hi == hi && g.wf(),
    {
        if 1 <= lo && lo <= hi {
            Some(ItemRange { lo, hi })
        } else {
            None
        }
    }

    /// The item codes `[1, 9]` that drops have been drawn from.
    pub fn standard() -> (r: ItemRange)
        ensures
            r.lo == 1 && r.hi == 9 && r.wf(),
    {
        ItemRange { lo: 1, hi: 9 }
    }
}

/// Whether slot `i` of `inv` is the lowest empty one.
pub open spec fn is_lowest_empty(inv: Seq<u8>, i: int) -> bool {
    0 <= i < inv.len() && inv[i] == EMPTY_SLOT && forall|j: int| 0 <= j < i ==> inv[j] != EMPTY_SLOT
}

/// Whether every slot of `inv` holds an item.
pub open spec fn is_full(inv: Seq<u8>) -> bool {
    forall|j: int| 0 <= j < inv.len() ==> inv[j] != EMPTY_SLOT
}

/// The index of the lowest empty slot, or `None` when the inventory is full.
pub fn lowest_empty_slot(inv: &[u8; 8]) -> (r: Option<usize>)
    ensures
        r is None <==> is_full(inv@),
        r matches Some(i) ==> is_lowest_empty(inv@, i as int),
{
    let mut i: usize = 0;
    while i < INVENTORY_SLOTS
        invariant
            i <= INVENTORY_SLOTS,
            inv@.len() == INVENTORY_SLOTS,
            forall|j: int| 0 <= j < i ==> inv@[j] != EMPTY_SLOT,
        decreases INVENTORY_SLOTS - i,
    {
        if inv[i] == EMPTY_SLOT {
            return Some(i);
        }
        i = i + 1;
    }
    None
}

/// Whether two identities are the same.
pub fn same_address(a: &Address, b: &Address) -> (r: bool)
    ensures
        r == (a@ == b@),
{
    let mut i: usize = 0;
    while i < 32
        invariant
            i <= 32,
            a@.len() == 32 && b@.len() == 32,
            forall|j: int| 0 <= j < i ==> a@[j] == b@[j],
        decreases 32 - i,
    {
        if a[i] != b[i] {
            return false;
        }
        i = i + 1;
    }
    assert(a@ =~= b@);
    true
}

/// Whether `b` is `a` with one more coin and nothing else changed.
pub open spec fn coin_earned(a: Tomo, b: Tomo) -> bool {
    &&& b.coins == a.coins + 1
    &&& b.owner == a.owner
    &&& b.uid == a.uid
    &&& b.hunger == a.hunger
    &&& b.last_fed == a.last_fed
    &&& b.item_drop == a.item_drop
    &&& b.inventory == a.inventory
}

/// How many entries of `calls` are set.
pub open spec fn count_set(calls: Seq<bool>) -> nat
    decreases calls.len(),
{
    if calls.len() == 0 {
        0
    } else {
        count_set(calls.drop_last()) + if calls.last() {
            1nat
        } else {
            0nat
        }
    }
}

/// Over a run of operations `states[0] -> states[1] -> ...` in which step
/// `i` is a `get_coin` exactly when `calls[i]` is set, a successful `feed`
/// exactly when `feeds[i]` is set, and any other operation otherwise, each
/// `get_coin` adds exactly one coin whatever the interleaving: the coins
/// end at the start plus the number of `get_coin` calls, less the cost of
/// the successful feedings. The other operations (a failed `feed`,
/// `trigger_item_drop`, `use_item`, the oracle callbacks, delegation) leave
/// the coins alone, as their own contracts state.
pub proof fn lemma_coins_count_calls(states: Seq<Tomo>, calls: Seq<bool>, feeds: Seq<bool>)
    requires
        states.len() == calls.len() + 1,
        feeds.len() == calls.len(),
        forall|i: int| 0 <= i < calls.len() ==> !(calls[i] && feeds[i]),
        forall|i: int| 0 <= i < calls.len() && calls[i] ==> coin_earned(states[i], states[i + 1]),
        forall|i: int|
            0 <= i < calls.len() && feeds[i] ==> #[trigger] states[i + 1].coins + FEED_COST
                == states[i].coins,
        forall|i: int|
            0 <= i < calls.len() && !calls[i] && !feeds[i] ==> #[trigger] states[i + 1].coins
                == states[i].coins,
    ensures
        states.last().coins == states[0].coins + count_set(calls) - FEED_COST * count_set(feeds),
    decreases calls.len(),
{
    if calls.len() > 0 {
        let n = calls.len() - 1;
        let s2 = states.drop_last();
        let c2 = calls.drop_last();
        let f2 = feeds.drop_last();
        assert forall|i: int| 0 <= i < c2.len() implies !(c2[i] && f2[i]) by {
            assert(!(calls[i] && feeds[i]));
        }
        assert forall|i: int| 0 <= i < c2.len() && c2[i] implies coin_earned(s2[i], s2[i + 1]) by {
            assert(calls[i]);
        }
        assert forall|i: int| 0 <= i < c2.len() && f2[i] implies #[trigger] s2[i + 1].coins
            + FEED_COST == s2[i].coins by {
            assert(feeds[i]);
            assert(states[i + 1].coins + FEED_COST == states[i].coins);
        }
        assert forall|i: int| 0 <= i < c2.len() && !c2[i] && !f2[i] implies #[trigger] s2[i
            + 1].coins == s2[i].coins by {
            assert(!calls[i] && !feeds[i]);
            assert(states[i + 1].coins == states[i].coins);
        }
        lemma_coins_count_calls(s2, c2, f2);
        if calls[n] {
            assert(coin_earned(states[n], states[n + 1]));
        } else if feeds[n] {
            assert(states[n + 1].coins + FEED_COST == states[n].coins);
        } else {
            assert(states[n + 1].coins == states[n].coins);
        }
    }
}

/// Whether `b` is `a` after a random event that rolled `roll`: a roll at or
/// below the threshold makes an item drop available, and nothing else
/// changes.
pub open spec fn event_applied(a: Tomo, b: Tomo, roll: int) -> bool {
    &&& b.item_drop == (a.item_drop || roll <= EVENT_DROP_THRESHOLD)
    &&& b.owner == a.owner
    &&& b.uid == a.uid
    &&& b.hunger == a.hunger
    &&& b.last_fed == a.last_fed
    &&& b.coins == a.coins
    &&& b.inventory == a.inventory
}

/// A random event delivered twice with the same roll leaves the record as
/// one delivery does, so a duplicated callback does no harm.
pub proof fn lemma_event_duplicate_delivery(a: Tomo, b: Tomo, c: Tomo, roll: int)
    requires
        event_applied(a, b, roll),
        event_applied(b, c, roll),
    ensures
        c == b,
{
}

/// The persistent record of one creature.
pub struct Tomo {
    /// The identity that created the record.
    pub owner: Address,
    /// The identifier the record's address is derived from.
    pub uid: String,
    pub hunger: u8,
    /// Time of the last successful feeding, in seconds.
    pub last_fed: i64,
    pub coins: u64,
    /// Whether an item drop is waiting to be opened.
    pub item_drop: bool,
    pub inventory: [u8; 8],
}

/// The companion record whose derived identity pays for scheduled requests.
#[derive(Clone, Copy, Debug, PartialEq, Eq, Structural)]
pub struct CrankPayer {
    pub initialized: bool,
}

impl CrankPayer {
    /// A companion record ready to be used.
    pub fn new() -> (r: CrankPayer)
        ensures
            r.initialized,
    {
        CrankPayer { initialized: true }
    }
}

impl Tomo {
    /// The record's invariant: hunger never exceeds its maximum.
    pub open spec fn wf(&self) -> bool {
        self.hunger <= MAX_HUNGER
    }

    /// What a fresh creature for `owner` under `uid`, created at `now`,
    /// holds.
    pub open spec fn init_ensures(t: Tomo, owner: Address, uid: Seq<char>, now: i64) -> bool {
        &&& t.wf()
        &&& t.owner@ == owner@
        &&& t.uid@ == uid
        &&& t.hunger == MAX_HUNGER
        &&& t.last_fed == now
        &&& t.coins == 0
        &&& !t.item_drop
        &&& t.inventory@ == Seq::new(8, |i: int| EMPTY_SLOT)
    }

    /// A fresh creature for `owner`, full of hunger, with no coins, no
    /// pending drop and an empty inventory; refused when `uid` is too long
    /// to key a record.
    pub fn init(owner: Address, uid: &str, now: i64) -> (r: Result<Tomo, TomoError>)
        ensures
            r is Err <==> uid.len() > MAX_UID_LEN,
            r matches Err(e) ==> e == TomoError::UidTooLong,
            r matches Ok(t) ==> Tomo::init_ensures(t, owner, uid@, now),
    {
        if uid.len() > MAX_UID_LEN {
            return Err(TomoError::UidTooLong);
        }
        let t = Tomo {
            owner,
            uid: String::from_str(uid),
            hunger: MAX_HUNGER,
            last_fed: now,
            coins: 0,
            item_drop: false,
            inventory: [EMPTY_SLOT; 8],
        };
        assert(t.inventory@ =~= Seq::new(8, |i: int| EMPTY_SLOT));
        Ok(t)
    }

    /// A copy of the record.
    pub fn snapshot(&self) -> (r: Tomo)
        ensures
            r == *self,
    {
        Tomo {
            owner: self.owner,
            uid: self.uid.clone(),
            hunger: self.hunger,
            last_fed: self.last_fed,
            coins: self.coins,
            item_drop: self.item_drop,
            inventory: self.inventory,
        }
    }

    /// Earns one coin. Anyone holding the record may call it.
    pub fn get_coin(&mut self)
        requires
            old(self).coins < u64::MAX,
        ensures
            coin_earned(*old(self), *final(self)),
    {
        self.coins = self.coins + 1;
    }

    /// Spends the feeding cost to lower hunger by the feeding relief, never
    /// below zero, and records `now` as the feeding time. Without enough
    /// coins nothing changes and `NotEnoughCoins` is reported.
    pub fn feed(&mut self, now: i64) -> (r: Result<(), TomoError>)
        ensures
            old(self).wf() ==> final(self).wf(),
            r is Err <==> old(self).coins < FEED_COST,
            r matches Err(e) ==> e == TomoError::NotEnoughCoins,
            r is Err ==> *final(self) == *old(self),
            r is Ok ==> {
                &&& final(self).coins == old(self).coins - FEED_COST
                &&& final(self).hunger == (if old(self).hunger >= FEED_RELIEF {
                    old(self).hunger - FEED_RELIEF
                } else {
                    0
                })
                &&& final(self).last_fed == now
                &&& final(self).owner == old(self).owner
                &&& final(self).uid == old(self).uid
                &&& final(self).item_drop == old(self).item_drop
                &&& final(self).inventory == old(self).inventory
            },
    {
        if self.coins < FEED_COST {
            return Err(TomoError::NotEnoughCoins);
        }
        self.coins = self.coins - FEED_COST;
        self.hunger = self.hunger.saturating_sub(FEED_RELIEF);
        self.last_fed = now;
        Ok(())
    }

    /// Makes an item drop available; does nothing if one already is.
    pub fn trigger_item_drop(&mut self)
        ensures
            final(self).item_drop,
            final(self).owner == old(self).owner,
            final(self).uid == old(self).uid,
            final(self).hunger == old(self).hunger,
            final(self).last_fed == old(self).last_fed,
            final(self).coins == old(self).coins,
            final(self).inventory == old(self).inventory,
    {
        if !self.item_drop {
            self.item_drop = true;
        }
    }

    /// Uses up the item in slot `index` and reports its code. An index past
    /// the inventory, or an empty slot, is absorbed: nothing changes and
    /// `None` is reported.
    pub fn use_item(&mut self, index: u8) -> (r: Option<u8>)
        ensures
            r is None <==> (index as int >= INVENTORY_SLOTS || old(self).inventory@[index as int]
                == EMPTY_SLOT),
            r is None ==> *final(self) == *old(self),
            r matches Some(code) ==> {
                &&& code == old(self).inventory@[index as int]
                &&& code != EMPTY_SLOT
                &&& final(self).inventory@ == old(self).inventory@.update(index as int, EMPTY_SLOT)
            },
            final(self).owner == old(self).owner,
            final(self).uid == old(self).uid,
            final(self).hunger == old(self).hunger,
            final(self).last_fed == old(self).last_fed,
            final(self).coins == old(self).coins,
            final(self).item_drop == old(self).item_drop,
    {
        if index as usize >= INVENTORY_SLOTS {
            return None;
        }
        let slot = index as usize;
        let code = self.inventory[slot];
        if code == EMPTY_SLOT {
            return None;
        }
        self.inventory[slot] = EMPTY_SLOT;
        assert(self.inventory@ =~= old(self).inventory@.update(index as int, EMPTY_SLOT));
        Some(code)
    }
    /// Whether `self` and `other` agree on every field but the inventory and
    /// the drop flag.
    pub open spec fn same_but_loot(&self, other: &Tomo) -> bool {
        &&& self.owner == other.owner
        &&& self.uid == other.uid
        &&& self.hunger == other.hunger
        &&& self.last_fed == other.last_fed
        &&& self.coins == other.coins
    }

    /// Spends the pending item drop and puts `code` into the lowest empty
    /// slot; with a full inventory the item is discarded.
    pub fn receive_item(&mut self, code: u8)
        ensures
            !final(self).item_drop,
            final(self).same_but_loot(old(self)),
            is_full(old(self).inventory@) ==> final(self).inventory == old(self).inventory,
            forall|i: int|
                is_lowest_empty(old(self).inventory@, i) ==> final(self).inventory@
                    == old(self).inventory@.update(i, code),
    {
        self.item_drop = false;
        match lowest_empty_slot(&self.inventory) {
            Some(slot) => {
                self.inventory[slot] = code;
                assert(self.inventory@ =~= old(self).inventory@.update(slot as int, code));
            },
            None => {},
        }
    }

    /// Makes an item drop available when the event `roll` is at or below the
    /// drop threshold; a drop already pending stays as it is.
    pub fn apply_event_roll(&mut self, roll: u8)
        ensures
            event_applied(*old(self), *final(self), roll as int),
    {
        if roll <= EVENT_DROP_THRESHOLD {
            if !self.item_drop {
                self.item_drop = true;
            }
        }
    }

    /// The oracle's answer to an item drop request. Refused unless `caller`
    /// is the trusted `oracle`. Otherwise the drop is spent, and the item
    /// code derived from `randomness` within `range` goes to the lowest
    /// empty slot, or is discarded when the inventory is full.
    pub fn consume_randomness(
        &mut self,
        caller: &Address,
        oracle: &Address,
        randomness: &[u8; 32],
        range: ItemRange,
    ) -> (r: Result<(), TomoError>)
        requires
            range.wf(),
        ensures
            r is Err <==> caller@ != oracle@,
            r matches Err(e) ==> e == TomoError::Unauthorized,
            r is Err ==> *final(self) == *old(self),
            r is Ok ==> {
                &&& !final(self).item_drop
                &&& final(self).same_but_loot(old(self))
                &&& is_full(old(self).inventory@) ==> final(self).inventory == old(self).inventory
                &&& forall|i: int|
                    is_lowest_empty(old(self).inventory@, i) ==> final(self).inventory@
                        == old(self).inventory@.update(
                        i,
                        range_draw(randomness@, range.lo, range.hi) as u8,
                    )
            },
    {
        if !same_address(caller, oracle) {
            return Err(TomoError::Unauthorized);
        }
        let code = draw_in_range(randomness, range.lo, range.hi);
        self.receive_item(code);
        Ok(())
    }

    /// The oracle's answer to a random event request. Refused unless
    /// `caller` is the trusted `oracle`. Otherwise a roll in `[1, 100]` is
    /// derived from `randomness`, and a roll at or below the threshold makes
    /// an item drop available.
    pub fn consume_random_event(
        &mut self,
        caller: &Address,
        oracle: &Address,
        randomness: &[u8; 32],
    ) -> (r: Result<(), TomoError>)
        ensures
            r is Err <==> caller@ != oracle@,
            r matches Err(e) ==> e == TomoError::Unauthorized,
            r is Err ==> *final(self) == *old(self),
            r is Ok ==> event_applied(
                *old(self),
                *final(self),
                range_draw(randomness@, EVENT_ROLL_MIN, EVENT_ROLL_MAX),
            ),
    {
        if !same_address(caller, oracle) {
            return Err(TomoError::Unauthorized);
        }
        let roll = draw_in_range(randomness, EVENT_ROLL_MIN, EVENT_ROLL_MAX);
        self.apply_event_roll(roll);
        Ok(())
    }
}

} // verus!
