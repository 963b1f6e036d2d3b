use vstd::prelude::*;

verus! {

/// Whether two physical addresses lie in the same reservation line, the
/// naturally aligned doubleword.
pub open spec fn same_line(a: u64, b: u64) -> bool {
    a / 8 == b / 8
}

/// What a store to `pa` leaves of a reservation: one on the line of `pa`
/// is lost.
pub open spec fn after_store(reservation: Option<u64>, pa: u64) -> Option<u64> {
    match reservation {
        Some(r) => if same_line(r, pa) {
            None
        } else {
            reservation
        },
        None => None,
    }
}

/// The reservation set of the load-reserved and store-conditional
/// instructions: at most one physical address.
#[derive(Clone, Copy, Debug)]
pub struct LrScReservation {
    pub addr: Option<u64>,
}

impl LrScReservation {
    pub fn new() -> (r: Self)
        ensures
            r.addr == None::<u64>,
    {
        LrScReservation { addr: None }
    }

    /// Reserves `addr`, giving up any earlier reservation.
    pub fn set(&mut self, addr: u64)
        ensures
            final(self).addr == Some(addr),
    {
        self.addr = Some(addr);
    }

    /// Whether `addr` is reserved. The reservation is given up either way.
    pub fn check_and_clear(&mut self, addr: u64) -> (held: bool)
        ensures
            held == (old(self).addr == Some(addr)),
            final(self).addr == None::<u64>,
    {
        let held: bool = match self.addr {
            Some(r) => r == addr,
            None => false,
        };
        self.addr = None;
        held
    }

    pub fn clear(&mut self)
        ensures
            final(self).addr == None::<u64>,
    {
        self.addr = None;
    }

    /// A store to `pa` has been made: a reservation on its line is lost.
    pub fn store_to(&mut self, pa: u64)
        ensures
            final(self).addr == after_store(old(self).addr, pa),
    {
        match self.addr {
            Some(r) => {
                if r / 8 == pa / 8 {
                    self.addr = None;
                }
            },
            None => {},
        }
    }
}

/// A store to another line leaves a reservation as it is; a store to the
/// reserved line loses it, and nothing is reserved afterwards.
pub proof fn lemma_store_on_reservation(addr: u64, pa: u64)
    ensures
        !same_line(addr, pa) ==> after_store(Some(addr), pa) == Some(addr),
        same_line(addr, pa) ==> after_store(Some(addr), pa) is None,
        after_store(None, pa) is None,
{
}

} // verus!
