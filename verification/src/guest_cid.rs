//! Context identifiers of guests.

use crate::vsock_config::VsockConfigError;
use std::collections::HashSet;
use vstd::prelude::*;

verus! {

/// First context identifier for a guest. Zero and one are reserved by the protocol,
/// and two is the host.
pub const FIRST_GUEST_CID: u32 = 3;

/// Which context identifiers are given out, as a value.
#[verifier::ext_equal]
pub struct CidView {
    /// The next one to consider; one that is not for guests once all were considered.
    pub next: u32,
    /// Those that guests have.
    pub used: Set<u32>,
}

/// Which context identifiers are given out. A process has one of these.
pub struct GuestCids {
    next: u32,
    used: HashSet<u32>,
}

impl View for GuestCids {
    type V = CidView;

    closed spec fn view(&self) -> CidView {
        CidView { next: self.next, used: self.used@ }
    }
}

impl GuestCids {
    /// Nothing is given out.
    pub fn new() -> (cids: GuestCids)
        ensures
            cids@ == (CidView { next: FIRST_GUEST_CID, used: Set::empty() }),
    {
        GuestCids { next: FIRST_GUEST_CID, used: HashSet::new() }
    }
}

/// The identifier to consider after `cid`: zero, which is no guest's, after the last.
pub open spec fn cid_after(cid: u32) -> u32 {
    if cid == u32::MAX {
        0
    } else {
        (cid + 1) as u32
    }
}

/// Whether `cid` is the least free identifier from `s.next` on.
pub open spec fn is_next_free(s: CidView, cid: u32) -> bool {
    &&& FIRST_GUEST_CID <= s.next <= cid
    &&& !s.used.contains(cid)
    &&& forall|c: u32| s.next <= c < cid ==> #[trigger] s.used.contains(c)
}

/// Whether allocation turns `s` into `after` with `result`: the least free
/// identifier from the next one on, or none if there is none.
pub open spec fn allocates(s: CidView, after: CidView, result: Result<u32, VsockConfigError>) -> bool {
    match result {
        Ok(cid) => {
            &&& is_next_free(s, cid)
            &&& after == (CidView { next: cid_after(cid), used: s.used.insert(cid) })
        },
        Err(fault) => {
            &&& fault == VsockConfigError::GuestCidExhausted
            &&& s.next >= FIRST_GUEST_CID ==> forall|c: u32| s.next <= c ==> #[trigger] s.used.contains(
                c,
            )
            &&& after == (CidView {
                next: if s.next < FIRST_GUEST_CID {
                    s.next
                } else {
                    0
                },
                ..s
            })
        },
    }
}

/// Gives out a context identifier: the least one that was not considered before and
/// that no guest has. Identifiers that were passed over are not considered again.
pub fn allocate_guest_cid(cids: &mut GuestCids) -> (cid: Result<u32, VsockConfigError>)
    ensures
        allocates(old(cids)@, final(cids)@, cid),
        old(cids)@.next >= FIRST_GUEST_CID && !old(cids)@.used.contains(old(cids)@.next) ==> cid
            == Ok::<u32, VsockConfigError>(old(cids)@.next),
{
    while cids.next >= FIRST_GUEST_CID
        invariant
            cids.used@ == old(cids)@.used,
            old(cids)@.next < FIRST_GUEST_CID ==> cids.next == old(cids)@.next,
            old(cids)@.next >= FIRST_GUEST_CID ==> cids.next >= old(cids)@.next || cids.next == 0,
            old(cids)@.next >= FIRST_GUEST_CID ==> forall|c: u32|
                old(cids)@.next <= c && (c < cids.next || cids.next == 0)
                    ==> #[trigger] old(cids)@.used.contains(c),
        decreases
                (if cids.next >= FIRST_GUEST_CID {
                    u32::MAX - cids.next + 1
                } else {
                    0
                }),
    {
        let cid: u32 = cids.next;
        cids.next = match cid.checked_add(1) {
            Some(next) => next,
            None => 0,
        };
        if !cids.used.contains(&cid) {
            cids.used.insert(cid);
            return Ok(cid);
        }
    }
    Err(VsockConfigError::GuestCidExhausted)
}

/// The outcome of reserving `cid`.
pub open spec fn reserved(s: CidView, cid: u32) -> (CidView, Result<(), VsockConfigError>) {
    if cid < FIRST_GUEST_CID {
        (s, Err(VsockConfigError::InvalidGuestCid(cid)))
    } else if s.used.contains(cid) {
        (s, Err(VsockConfigError::GuestCidInUse(cid)))
    } else {
        (CidView { used: s.used.insert(cid), ..s }, Ok(()))
    }
}

/// Gives a guest the context identifier `cid`, unless it is not for guests or
/// another guest has it.
pub fn reserve_guest_cid(cids: &mut GuestCids, cid: u32) -> (result: Result<(), VsockConfigError>)
    ensures
        (final(cids)@, result) == reserved(old(cids)@, cid),
{
    if cid < FIRST_GUEST_CID {
        return Err(VsockConfigError::InvalidGuestCid(cid));
    }
    if !cids.used.insert(cid) {
        return Err(VsockConfigError::GuestCidInUse(cid));
    }
    Ok(())
}

/// Whether `after` can come from `s` by allocating and reserving: no identifier is
/// given back, and those that were considered stay so.
pub open spec fn follows(s: CidView, after: CidView) -> bool {
    &&& s.used.subset_of(after.used)
    &&& s.next < FIRST_GUEST_CID ==> after.next == s.next
    &&& s.next >= FIRST_GUEST_CID ==> after.next >= s.next || after.next == 0
}

/// Allocating and reserving give no identifier back, nor does any number of both.
pub proof fn identifiers_are_kept(
    s: CidView,
    after: CidView,
    result: Result<u32, VsockConfigError>,
    cid: u32,
    end: CidView,
)
    ensures
        allocates(s, after, result) ==> follows(s, after),
        follows(s, reserved(s, cid).0),
        follows(s, after) && follows(after, end) ==> follows(s, end),
{
}

/// An identifier that is given out is for guests, no guest had it, and then one has.
pub proof fn allocated_cids_are_fresh(s: CidView, after: CidView, cid: u32)
    requires
        allocates(s, after, Ok(cid)),
    ensures
        cid >= FIRST_GUEST_CID,
        !s.used.contains(cid),
        after.used.contains(cid),
{
}

/// No identifier is given out twice, and later ones are higher, whatever happens in
/// between.
pub proof fn allocated_cids_increase(
    s: CidView,
    after: CidView,
    first: u32,
    later: CidView,
    end: CidView,
    second: u32,
)
    requires
        allocates(s, after, Ok(first)),
        follows(after, later),
        allocates(later, end, Ok(second)),
    ensures
        first < second,
{
}

/// A reserved identifier is never given out, and cannot be reserved again.
pub proof fn reserved_cids_are_kept(
    s: CidView,
    cid: u32,
    later: CidView,
    end: CidView,
    other: u32,
)
    requires
        reserved(s, cid).1 is Ok,
        follows(reserved(s, cid).0, later),
    ensures
        allocates(later, end, Ok(other)) ==> other != cid,
        reserved(later, cid).1 == Err::<(), _>(VsockConfigError::GuestCidInUse(cid)),
{
}

/// Once no identifier is left, none is given out any more.
pub proof fn exhaustion_is_final(
    s: CidView,
    after: CidView,
    fault: VsockConfigError,
    later: CidView,
    end: CidView,
    result: Result<u32, VsockConfigError>,
)
    requires
        allocates(s, after, Err(fault)),
        follows(after, later),
        allocates(later, end, result),
    ensures
        result == Err::<u32, _>(VsockConfigError::GuestCidExhausted),
        end == later,
{
}

/// An identifier that is given out is the least one from the next on that no guest has, and
/// at least three. It is then a guest's, and the one behind it is next; behind the last is
/// none. Where every identifier from the next on is some guest's, none is given out and no
/// guest gets one.
pub proof fn the_least_free_identifier_is_given_out()
    ensures
        FIRST_GUEST_CID == 3,
        forall|cids: &mut GuestCids, result: Result<u32, VsockConfigError>| #[trigger]
            call_ensures(allocate_guest_cid, (cids,), result) ==> match result {
                Ok(cid) => {
                    &&& 3 <= cids@.next <= cid
                    &&& !cids@.used.contains(cid)
                    &&& forall|c: u32| cids@.next <= c < cid ==> #[trigger] cids@.used.contains(c)
                    &&& final(cids)@.used == cids@.used.insert(cid)
                    &&& final(cids)@.next == if cid < u32::MAX {
                        cid + 1
                    } else {
                        0
                    }
                },
                Err(fault) => {
                    &&& fault is GuestCidExhausted
                    &&& final(cids)@.used == cids@.used
                    &&& final(cids)@.next < 3
                    &&& forall|c: u32|
                        3 <= cids@.next <= c ==> #[trigger] cids@.used.contains(c)
                },
            },
        forall|cids: GuestCids| #[trigger] call_ensures(GuestCids::new, (), cids) ==> cids@.next == 3
            && cids@.used.is_empty(),
{
}

/// An identifier is reserved if it is at least three and no guest has it; else the reason
/// names it and nothing changes. Reserving does not change which identifier is next.
pub proof fn free_identifiers_are_reserved(cid: u32)
    ensures
        forall|cids: &mut GuestCids, result: Result<(), VsockConfigError>| #[trigger]
            call_ensures(reserve_guest_cid, (cids, cid), result) ==> {
                let taken = cids@.used.contains(cid);
                &&& result is Ok <==> cid >= 3 && !taken
                &&& result is Ok ==> final(cids)@.used == cids@.used.insert(cid)
                    && final(cids)@.next == cids@.next
                &&& result is Err ==> final(cids)@ == cids@
                &&& cid < 3 ==> result == Err::<(), _>(VsockConfigError::InvalidGuestCid(cid))
                &&& cid >= 3 && taken ==> result == Err::<(), _>(
                    VsockConfigError::GuestCidInUse(cid),
                )
            },
{
}

} // verus!
