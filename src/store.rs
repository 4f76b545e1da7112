use vstd::prelude::*;
use vstd::string::StringSliceAdditionalSpecFns;
use crate::address::{program_address_of, tomo_address, tomo_namespace};
use crate::tomo::{same_address, Address, CrankPayer, Tomo, TomoError, MAX_UID_LEN};

verus! {

/// A creature record, at the address derived from its identifier, together
/// with its companion payer record.
pub struct Entry {
    pub address: Address,
    pub tomo: Tomo,
    pub crank_payer: CrankPayer,
}

/// The records, at most one per address. A record's address is derived from
/// the creature namespace and its identifier, so it can be found without an
/// index and no identifier holds two records.
pub struct RecordStore {
    entries: Vec<Entry>,
}

/// The address `program` derives for the identifier bytes `uid`.
pub open spec fn derived_address(uid: Seq<u8>, program: Seq<u8>) -> Option<(Seq<u8>, u8)> {
    program_address_of(seq![tomo_namespace(), uid], program)
}

impl RecordStore {
    pub closed spec fn view(&self) -> Seq<Entry> {
        self.entries@
    }

    /// Addresses are unique and every record keeps its invariant.
    pub open spec fn wf(&self) -> bool {
        &&& forall|i: int, j: int|
            0 <= i < self@.len() && 0 <= j < self@.len() && i != j ==> self@[i].address@
                != self@[j].address@
        &&& forall|i: int| 0 <= i < self@.len() ==> #[trigger] self@[i].tomo.wf()
    }

    /// Whether a record stands at `address`.
    pub open spec fn holds(&self, address: Seq<u8>) -> bool {
        exists|i: int| 0 <= i < self@.len() && #[trigger] self@[i].address@ == address
    }

    /// An empty store.
    pub fn new() -> (r: RecordStore)
        ensures
            r@.len() == 0,
            r.wf(),
    {
        RecordStore { entries: Vec::new() }
    }

    /// Number of records.
    pub fn len(&self) -> (r: usize)
        ensures
            r == self@.len(),
    {
        self.entries.len()
    }

    /// The position of the record at `address`, if there is one.
    pub fn find(&self, address: &Address) -> (r: Option<usize>)
        ensures
            r is None <==> !self.holds(address@),
            r matches Some(i) ==> i < self@.len() && self@[i as int].address@ == address@,
    {
        let mut i: usize = 0;
        while i < self.entries.len()
            invariant
                i <= self@.len(),
                forall|j: int| 0 <= j < i ==> self@[j].address@ != address@,
            decreases self@.len() - i,
        {
            if same_address(&self.entries[i].address, address) {
                return Some(i);
            }
            i = i + 1;
        }
        None
    }

    /// The record at position `i`.
    pub fn get(&self, i: usize) -> (r: &Entry)
        requires
            i < self@.len(),
        ensures
            *r == self@[i as int],
    {
        &self.entries[i]
    }

    /// Creates the record of a new creature owned by `owner` under `uid`, at
    /// the address `program` derives for it, with its companion payer
    /// record, and reports that address. Refused with `UidTooLong` when `uid`
    /// cannot key a record, with `AddressUnavailable` when no address can be
    /// derived, and with `AlreadyExists` when a record stands at the address.
    pub fn create(&mut self, owner: Address, uid: &str, program: &Address, now: i64) -> (r: Result<
        Address,
        TomoError,
    >)
        requires
            old(self).wf(),
        ensures
            final(self).wf(),
            r is Err ==> *final(self) == *old(self),
            uid.len() > MAX_UID_LEN ==> r == Err::<Address, TomoError>(TomoError::UidTooLong),
            uid.len() <= MAX_UID_LEN && derived_address(uid.spec_bytes(), program@) is None ==> r
                == Err::<Address, TomoError>(TomoError::AddressUnavailable),
            uid.len() <= MAX_UID_LEN ==> (derived_address(uid.spec_bytes(), program@) matches Some(
                p,
            ) ==> {
                &&& old(self).holds(p.0) ==> r == Err::<Address, TomoError>(TomoError::AlreadyExists)
                &&& !old(self).holds(p.0) ==> {
                    &&& r matches Ok(a) && a@ == p.0
                    &&& final(self)@.len() == old(self)@.len() + 1
                    &&& final(self)@.drop_last() == old(self)@
                    &&& final(self)@.last().address@ == p.0
                    &&& final(self)@.last().crank_payer.initialized
                    &&& Tomo::init_ensures(final(self)@.last().tomo, owner, uid@, now)
                }
            }),
    {
        let tomo = match Tomo::init(owner, uid, now) {
            Ok(t) => t,
            Err(e) => {
                return Err(e);
            },
        };
        let address = match tomo_address(uid.as_bytes(), program) {
            Some(p) => p.0,
            None => {
                return Err(TomoError::AddressUnavailable);
            },
        };
        if self.find(&address).is_some() {
            return Err(TomoError::AlreadyExists);
        }
        self.entries.push(Entry { address, tomo, crank_payer: CrankPayer::new() });
        assert(self@.drop_last() =~= old(self)@);
        assert forall|i: int| 0 <= i < old(self)@.len() implies self@[i].address@ != address@ by {
            assert(self@[i] == old(self)@[i]);
        }
        Ok(address)
    }

    /// Closes the record at `address` and its companion, releasing their
    /// storage to the owner, who is reported. Refused with `NotFound` when no
    /// record stands there, and with `Unauthorized` when `caller` is not its
    /// owner.
    pub fn delete(&mut self, caller: &Address, address: &Address) -> (r: Result<Address, TomoError>)
        requires
            old(self).wf(),
        ensures
            final(self).wf(),
            r is Err ==> *final(self) == *old(self),
            !old(self).holds(address@) ==> r == Err::<Address, TomoError>(TomoError::NotFound),
            forall|i: int|
                0 <= i < old(self)@.len() && #[trigger] old(self)@[i].address@ == address@ ==> {
                    &&& (old(self)@[i].tomo.owner@ != caller@ ==> r == Err::<Address, TomoError>(
                        TomoError::Unauthorized,
                    ))
                    &&& (old(self)@[i].tomo.owner@ == caller@ ==> {
                        &&& r matches Ok(o) && o@ == caller@
                        &&& final(self)@ == old(self)@.remove(i)
                    })
                },
    {
        let i = match self.find(address) {
            Some(i) => i,
            None => {
                return Err(TomoError::NotFound);
            },
        };
        if !same_address(caller, &self.entries[i].tomo.owner) {
            return Err(TomoError::Unauthorized);
        }
        let gone = self.entries.remove(i);
        assert(self@ =~= old(self)@.remove(i as int));
        Ok(gone.tomo.owner)
    }
}

} // verus!
