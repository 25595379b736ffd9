//! The journey record: route, timetable, actual arrivals, and lifecycle
//! status, together with its mathematical model and well-formedness.

use vstd::prelude::*;

verus! {

/// Lifecycle state of the singleton journey record.
#[derive(Clone, Copy, Debug, PartialEq, Eq, Structural)]
pub enum JourneyStatus {
    Unplanned,
    Scheduled,
    Ongoing,
}

/// One train journey: an ordered route of stops, the expected timetable, and
/// the actual arrival times recorded so far.
#[derive(Debug)]
pub struct Journey {
    /// Opaque byte-string identifier naming the journey.
    pub journey_ref: Vec<u8>,
    /// Index of the most recently confirmed stop; `None` before any check-in.
    pub current_stop: Option<u32>,
    /// Lifecycle state of this record.
    pub journey_status: JourneyStatus,
    /// Ordered stop identifiers defining the route.
    pub stop_refs: Vec<u32>,
    /// Expected arrival timestamps, index-aligned with `stop_refs`.
    pub stop_timetable: Vec<u64>,
    /// Actual arrival timestamps, `None` where no check-in has happened yet.
    pub stop_arrivals: Vec<Option<u64>>,
}

/// Mathematical model of a journey record.
#[verifier::ext_equal]
pub struct JourneyModel {
    pub journey_ref: Seq<u8>,
    pub current_stop: Option<u32>,
    pub status: JourneyStatus,
    pub stop_refs: Seq<u32>,
    pub stop_timetable: Seq<u64>,
    pub stop_arrivals: Seq<Option<u64>>,
}

impl View for Journey {
    type V = JourneyModel;

    open spec fn view(&self) -> JourneyModel {
        JourneyModel {
            journey_ref: self.journey_ref@,
            current_stop: self.current_stop,
            status: self.journey_status,
            stop_refs: self.stop_refs@,
            stop_timetable: self.stop_timetable@,
            stop_arrivals: self.stop_arrivals@,
        }
    }
}

/// The sentinel identifier carried by an unplanned record: the bytes of the
/// ASCII string "NOT_SCHEDULED".
pub open spec fn sentinel_ref() -> Seq<u8> {
    seq![78u8, 79u8, 84u8, 95u8, 83u8, 67u8, 72u8, 69u8, 68u8, 85u8, 76u8, 69u8, 68u8]
}

/// The canonical empty record: unplanned, sentinel identifier, no current
/// stop, all three sequences empty.
pub open spec fn empty_journey() -> JourneyModel {
    JourneyModel {
        journey_ref: sentinel_ref(),
        current_stop: None,
        status: JourneyStatus::Unplanned,
        stop_refs: Seq::empty(),
        stop_timetable: Seq::empty(),
        stop_arrivals: Seq::empty(),
    }
}

/// Well-formedness of a journey record: the three sequences are
/// index-aligned; an unplanned record is exactly the canonical empty record;
/// a scheduled record has no check-ins yet; an ongoing record has a
/// confirmed, non-final current stop whose arrival is recorded.
pub open spec fn journey_wf(j: JourneyModel) -> bool {
    &&& j.stop_refs.len() == j.stop_timetable.len()
    &&& j.stop_refs.len() == j.stop_arrivals.len()
    &&& (j.status is Unplanned ==> j == empty_journey())
    &&& (j.status is Scheduled ==> j.current_stop is None && forall|k: int|
        0 <= k < j.stop_arrivals.len() ==> j.stop_arrivals[k] is None)
    &&& (j.status is Ongoing ==> (j.current_stop matches Some(c) && c + 1 < j.stop_refs.len()
        && j.stop_arrivals[c as int] is Some))
}

/// Builds the sentinel identifier as a byte vector.
fn sentinel_journey_ref() -> (r: Vec<u8>)
    ensures
        r@ == sentinel_ref(),
{
    let mut r: Vec<u8> = Vec::new();
    r.push(78);
    r.push(79);
    r.push(84);
    r.push(95);
    r.push(83);
    r.push(67);
    r.push(72);
    r.push(69);
    r.push(68);
    r.push(85);
    r.push(76);
    r.push(69);
    r.push(68);
    proof {
        assert(r@ =~= sentinel_ref());
    }
    r
}

/// Byte-wise equality of two byte vectors.
pub(crate) fn bytes_eq(a: &Vec<u8>, b: &Vec<u8>) -> (r: bool)
    ensures
        r == (a@ == b@),
{
    if a.len() != b.len() {
        return false;
    }
    let mut i: usize = 0;
    while i < a.len()
        invariant
            a@.len() == b@.len(),
            0 <= i <= a@.len(),
            forall|k: int| 0 <= k < i ==> a@[k] == b@[k],
        decreases a@.len() - i,
    {
        if a[i] != b[i] {
            return false;
        }
        i += 1;
    }
    proof {
        assert(a@ =~= b@);
    }
    true
}

impl Journey {
    /// Decides this record's well-formedness at run time, for a record
    /// handed back by an external storage substrate that this library does
    /// not trust to return only records it would have written.
    pub fn is_well_formed(&self) -> (r: bool)
        ensures
            r == journey_wf(self@),
    {
        if self.stop_refs.len() != self.stop_timetable.len() {
            return false;
        }
        if self.stop_refs.len() != self.stop_arrivals.len() {
            return false;
        }
        if matches!(self.journey_status, JourneyStatus::Unplanned) {
            let empty = self.stop_refs.len() == 0 && self.current_stop.is_none() && bytes_eq(
                &self.journey_ref,
                &sentinel_journey_ref(),
            );
            proof {
                if empty {
                    assert(self@ =~= empty_journey());
                }
            }
            empty
        } else if matches!(self.journey_status, JourneyStatus::Scheduled) {
            if self.current_stop.is_some() {
                return false;
            }
            let mut i: usize = 0;
            while i < self.stop_arrivals.len()
                invariant
                    matches!(self.journey_status, JourneyStatus::Scheduled),
                    0 <= i <= self.stop_arrivals@.len(),
                    forall|k: int| 0 <= k < i ==> self.stop_arrivals@[k] is None,
                decreases self.stop_arrivals@.len() - i,
            {
                if self.stop_arrivals[i].is_some() {
                    return false;
                }
                i += 1;
            }
            true
        } else {
            match self.current_stop {
                None => false,
                Some(c) => (c as u64) + 1 < (self.stop_refs.len() as u64)
                    && self.stop_arrivals[c as usize].is_some(),
            }
        }
    }

    /// Builds the canonical empty record: the state before any journey was
    /// ever scheduled, and the state restored after a journey completes.
    pub fn unplanned() -> (j: Journey)
        ensures
            j@ == empty_journey(),
    {
        let j = Journey {
            journey_ref: sentinel_journey_ref(),
            current_stop: None,
            journey_status: JourneyStatus::Unplanned,
            stop_refs: Vec::new(),
            stop_timetable: Vec::new(),
            stop_arrivals: Vec::new(),
        };
        proof {
            assert(j@ =~= empty_journey());
        }
        j
    }
}

} // verus!
