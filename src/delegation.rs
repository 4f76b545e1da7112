use vstd::prelude::*;
use crate::tomo::{Tomo, TomoError};

verus! {

/// Where a record's authoritative copy lives.
#[derive(Clone, Copy, Debug, PartialEq, Eq, Structural)]
pub enum Venue {
    /// The primary ledger.
    Primary,
    /// The faster auxiliary venue it was delegated to.
    Auxiliary,
}

/// A creature record and its companion as the two venues hold them. While
/// the creature is delegated, the primary venue keeps the snapshot taken at
/// delegation and every mutation goes to the auxiliary copy. The companion
/// is delegated with the creature but is not committed back with it, so a
/// companion left delegated while the creature is resident is a reachable
/// state, and delegating again leaves such a companion as it is.
pub struct Placement {
    pub primary: Tomo,
    pub auxiliary: Option<Tomo>,
    pub crank_payer_venue: Venue,
}

/// What `delegate` makes of `p` when it succeeds.
pub open spec fn delegated(p: Placement, q: Placement) -> bool {
    &&& q.primary == p.primary
    &&& q.auxiliary == Some(p.primary)
    &&& q.crank_payer_venue == Venue::Auxiliary
}

/// What `undelegate` makes of `p` when it succeeds.
pub open spec fn committed(p: Placement, q: Placement) -> bool {
    &&& p.auxiliary matches Some(a) && q.primary == a
    &&& q.auxiliary is None
    &&& q.crank_payer_venue == p.crank_payer_venue
}

impl Placement {
    /// Where the creature record's authoritative copy lives.
    pub open spec fn venue(&self) -> Venue {
        if self.auxiliary is Some {
            Venue::Auxiliary
        } else {
            Venue::Primary
        }
    }

    /// The creature record's authoritative copy.
    pub open spec fn current(&self) -> Tomo {
        match self.auxiliary {
            Some(a) => a,
            None => self.primary,
        }
    }

    /// A freshly created pair, both records resident at the primary venue.
    pub fn new(tomo: Tomo) -> (r: Placement)
        ensures
            r.primary == tomo,
            r.auxiliary is None,
            r.crank_payer_venue == Venue::Primary,
    {
        Placement { primary: tomo, auxiliary: None, crank_payer_venue: Venue::Primary }
    }

    /// Where the creature record's authoritative copy lives.
    pub fn tomo_venue(&self) -> (r: Venue)
        ensures
            r == self.venue(),
    {
        match self.auxiliary {
            Some(_) => Venue::Auxiliary,
            None => Venue::Primary,
        }
    }

    /// The creature record's authoritative copy, the one operations act on.
    pub fn authoritative(&self) -> (r: &Tomo)
        ensures
            *r == self.current(),
    {
        match &self.auxiliary {
            Some(a) => a,
            None => &self.primary,
        }
    }

    /// What an observer at the primary venue reads: stale while delegated.
    pub fn primary_view(&self) -> (r: &Tomo)
        ensures
            *r == self.primary,
    {
        &self.primary
    }

    /// Replaces the authoritative copy of the creature record with `t`, the
    /// result of an operation on it.
    pub fn apply(&mut self, t: Tomo)
        ensures
            final(self).current() == t,
            final(self).venue() == old(self).venue(),
            final(self).crank_payer_venue == old(self).crank_payer_venue,
            old(self).auxiliary is Some ==> final(self).primary == old(self).primary,
    {
        match self.auxiliary {
            Some(_) => {
                self.auxiliary = Some(t);
            },
            None => {
                self.primary = t;
            },
        }
    }

    /// Transfers write authority over the creature record, and over its
    /// companion unless that already has moved, to the auxiliary venue.
    /// Refused with `AlreadyDelegated` when the creature already is there.
    pub fn delegate(&mut self) -> (r: Result<(), TomoError>)
        ensures
            r is Err <==> old(self).auxiliary is Some,
            r matches Err(e) ==> e == TomoError::AlreadyDelegated && *final(self) == *old(self),
            r is Ok ==> delegated(*old(self), *final(self)),
    {
        if self.auxiliary.is_some() {
            return Err(TomoError::AlreadyDelegated);
        }
        self.auxiliary = Some(self.primary.snapshot());
        if self.crank_payer_venue == Venue::Primary {
            self.crank_payer_venue = Venue::Auxiliary;
        }
        Ok(())
    }

    /// Commits the creature record's auxiliary copy to the primary venue and
    /// ends its delegation. Refused with `NotDelegated` when the creature is
    /// resident.
    pub fn undelegate(&mut self) -> (r: Result<(), TomoError>)
        ensures
            r is Err <==> old(self).auxiliary is None,
            r matches Err(e) ==> e == TomoError::NotDelegated && *final(self) == *old(self),
            r is Ok ==> committed(*old(self), *final(self)),
    {
        let aux = self.auxiliary.take();
        match aux {
            Some(a) => {
                self.primary = a;
                Ok(())
            },
            None => Err(TomoError::NotDelegated),
        }
    }
}

/// Delegating a resident record and committing it straight back, with no
/// mutation in between, leaves the creature record exactly as it was, and
/// resident again.
pub proof fn lemma_delegate_undelegate_round_trip(p: Placement, q: Placement, r: Placement)
    requires
        p.auxiliary is None,
        delegated(p, q),
        committed(q, r),
    ensures
        r.primary == p.primary,
        r.current() == p.current(),
        r.venue() == Venue::Primary,
{
}

} // verus!
