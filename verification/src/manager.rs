//! The operator registry and the journey state machine: one-time binding of
//! the authorized operator, schedule validation, check-in recording, and the
//! reset on completion. Each operation is specified by a spec-level step
//! function from the old state and the inputs to the new state and the
//! outcome.

use vstd::prelude::*;
use vstd::pervasive::VecAdditionalExecFns;

use crate::journey::{
    bytes_eq, empty_journey, journey_wf, Journey, JourneyModel, JourneyStatus,
};

verus! {

/// Why an operation was rejected. Every failure leaves the state untouched.
#[derive(Clone, Copy, Debug, PartialEq, Eq, Structural)]
pub enum Error {
    /// `init` was called while an operator is already registered.
    AlreadyInitialized,
    /// The caller is not the registered operator, or none is registered yet.
    Unauthorized,
    /// `schedule_journey` was called while a journey is scheduled or ongoing.
    JourneyAlreadyActive,
    /// The departure time is not strictly after the current time.
    DepartureInPast,
    /// The arrival time is not strictly after the departure time.
    ArrivalBeforeDeparture,
    /// The route and the timetable have different lengths.
    StopTimetableLengthMismatch,
    /// The check-in index is out of range for the current route.
    InvalidStopIndex,
}

/// A notification record emitted by a successful mutating operation, to be
/// dispatched by the transport layer around this library.
#[derive(Debug, PartialEq, Eq)]
pub enum Notification {
    /// A journey was scheduled; carries the journey identifier and the first
    /// timetable entry, if the route is non-empty.
    Scheduled { journey_ref: Vec<u8>, first_stop_time: Option<u64> },
    /// The train checked in at a non-final stop.
    CheckIn { journey_ref: Vec<u8>, arrival_time: u64 },
    /// The train checked in at the final stop and the journey was reset.
    Complete { journey_ref: Vec<u8>, arrival_time: u64 },
}

/// Mathematical model of a notification.
#[verifier::ext_equal]
pub enum NotificationModel {
    Scheduled { journey_ref: Seq<u8>, first_stop_time: Option<u64> },
    CheckIn { journey_ref: Seq<u8>, arrival_time: u64 },
    Complete { journey_ref: Seq<u8>, arrival_time: u64 },
}

impl View for Notification {
    type V = NotificationModel;

    open spec fn view(&self) -> NotificationModel {
        match self {
            Notification::Scheduled { journey_ref, first_stop_time } => {
                NotificationModel::Scheduled {
                    journey_ref: journey_ref@,
                    first_stop_time: *first_stop_time,
                }
            },
            Notification::CheckIn { journey_ref, arrival_time } => {
                NotificationModel::CheckIn {
                    journey_ref: journey_ref@,
                    arrival_time: *arrival_time,
                }
            },
            Notification::Complete { journey_ref, arrival_time } => {
                NotificationModel::Complete {
                    journey_ref: journey_ref@,
                    arrival_time: *arrival_time,
                }
            },
        }
    }
}

/// The view of a fallible operation's outcome: the notification is replaced
/// by its model.
pub open spec fn res_view(r: Result<Notification, Error>) -> Result<NotificationModel, Error> {
    match r {
        Ok(n) => Ok(n@),
        Err(e) => Err(e),
    }
}

/// Mathematical model of the whole manager: the registered operator, if any,
/// and the singleton journey record.
#[verifier::ext_equal]
pub struct ManagerModel {
    pub operator: Option<Seq<u8>>,
    pub journey: JourneyModel,
}

/// The state before `init` and before any journey was scheduled.
pub open spec fn initial_model() -> ManagerModel {
    ManagerModel { operator: None, journey: empty_journey() }
}

/// Well-formedness of the manager: its journey record is well-formed.
pub open spec fn manager_wf(m: ManagerModel) -> bool {
    journey_wf(m.journey)
}

/// The caller is authorized exactly when an operator is registered and the
/// caller's proven identity equals it.
pub open spec fn is_authorized(m: ManagerModel, caller: Seq<u8>) -> bool {
    m.operator == Some(caller)
}

/// What `init` does: registers the operator if none is registered, and fails
/// with `AlreadyInitialized` otherwise, changing nothing.
pub open spec fn init_step(m: ManagerModel, operator: Seq<u8>) -> (ManagerModel, Result<
    (),
    Error,
>) {
    if m.operator is Some {
        (m, Err(Error::AlreadyInitialized))
    } else {
        (ManagerModel { operator: Some(operator), ..m }, Ok(()))
    }
}

/// The journey record stored by a successful `schedule_journey`: the given
/// route and timetable, an all-unset arrivals sequence of the same length, no
/// current stop, status `Scheduled`.
pub open spec fn scheduled_journey(
    journey_ref: Seq<u8>,
    stop_refs: Seq<u32>,
    stop_timetable: Seq<u64>,
) -> JourneyModel {
    JourneyModel {
        journey_ref: journey_ref,
        current_stop: None,
        status: JourneyStatus::Scheduled,
        stop_refs: stop_refs,
        stop_timetable: stop_timetable,
        stop_arrivals: Seq::new(stop_refs.len(), |k: int| None),
    }
}

/// What `schedule_journey` does: checks authorization, that no journey is
/// active, that the departure lies strictly in the future, that the arrival
/// lies strictly after the departure, and that route and timetable have equal
/// lengths — in that order, failing with the matching error and changing
/// nothing; on success it stores the fresh scheduled record wholesale and
/// reports the journey identifier with the first timetable entry.
pub open spec fn schedule_step(
    m: ManagerModel,
    caller: Seq<u8>,
    journey_ref: Seq<u8>,
    departure_time: u64,
    arrival_time: u64,
    stop_refs: Seq<u32>,
    stop_timetable: Seq<u64>,
    current_time: u64,
) -> (ManagerModel, Result<NotificationModel, Error>) {
    if !is_authorized(m, caller) {
        (m, Err(Error::Unauthorized))
    } else if !(m.journey.status is Unplanned) {
        (m, Err(Error::JourneyAlreadyActive))
    } else if departure_time <= current_time {
        (m, Err(Error::DepartureInPast))
    } else if arrival_time <= departure_time {
        (m, Err(Error::ArrivalBeforeDeparture))
    } else if stop_refs.len() != stop_timetable.len() {
        (m, Err(Error::StopTimetableLengthMismatch))
    } else {
        (
            ManagerModel {
                journey: scheduled_journey(journey_ref, stop_refs, stop_timetable),
                ..m
            },
            Ok(
                NotificationModel::Scheduled {
                    journey_ref: journey_ref,
                    first_stop_time: if stop_timetable.len() > 0 {
                        Some(stop_timetable[0])
                    } else {
                        None
                    },
                },
            ),
        )
    }
}

/// What `check_in` does: checks authorization and that the index is in range,
/// failing with the matching error and changing nothing; at the final stop it
/// resets the record to the canonical empty one and reports completion (the
/// final arrival time is carried only by the notification, never stored);
/// at any other stop it records the arrival, moves the current stop there,
/// and marks the journey ongoing.
pub open spec fn check_in_step(
    m: ManagerModel,
    caller: Seq<u8>,
    stop_index: u32,
    arrival_time: u64,
) -> (ManagerModel, Result<NotificationModel, Error>) {
    if !is_authorized(m, caller) {
        (m, Err(Error::Unauthorized))
    } else if stop_index as int >= m.journey.stop_refs.len() {
        (m, Err(Error::InvalidStopIndex))
    } else if stop_index as int == m.journey.stop_refs.len() - 1 {
        (
            ManagerModel { journey: empty_journey(), ..m },
            Ok(
                NotificationModel::Complete {
                    journey_ref: m.journey.journey_ref,
                    arrival_time: arrival_time,
                },
            ),
        )
    } else {
        (
            ManagerModel {
                journey: JourneyModel {
                    current_stop: Some(stop_index),
                    status: JourneyStatus::Ongoing,
                    stop_arrivals: m.journey.stop_arrivals.update(
                        stop_index as int,
                        Some(arrival_time),
                    ),
                    ..m.journey
                },
                ..m
            },
            Ok(
                NotificationModel::CheckIn {
                    journey_ref: m.journey.journey_ref,
                    arrival_time: arrival_time,
                },
            ),
        )
    }
}

/// An element-wise copy of a vector of plain values.
fn copy_vec<T: Copy>(v: &Vec<T>) -> (r: Vec<T>)
    ensures
        r@ == v@,
{
    let mut r: Vec<T> = Vec::new();
    let mut i: usize = 0;
    while i < v.len()
        invariant
            0 <= i <= v@.len(),
            r@.len() == i,
            forall|k: int| 0 <= k < i ==> r@[k] == v@[k],
        decreases v@.len() - i,
    {
        r.push(v[i]);
        i += 1;
    }
    proof {
        assert(r@ =~= v@);
    }
    r
}

/// The train manager: the registered operator, set exactly once, and the
/// singleton journey record it guards. Persistence, caller authentication
/// and notification dispatch live in the layer around this library; this
/// type holds the state they hand in and enforces every rule on it.
pub struct SwissTrainManagerContract {
    operator: Option<Vec<u8>>,
    journey: Journey,
}

impl View for SwissTrainManagerContract {
    type V = ManagerModel;

    closed spec fn view(&self) -> ManagerModel {
        ManagerModel {
            operator: match self.operator {
                Some(op) => Some(op@),
                None => None,
            },
            journey: self.journey@,
        }
    }
}

impl SwissTrainManagerContract {
    /// Well-formedness: the model of this manager is well-formed.
    pub open spec fn wf(&self) -> bool {
        manager_wf(self@)
    }

    /// A fresh manager: no operator registered, the canonical empty journey.
    pub fn new() -> (m: SwissTrainManagerContract)
        ensures
            m@ == initial_model(),
            m.wf(),
    {
        let m = SwissTrainManagerContract { operator: None, journey: Journey::unplanned() };
        proof {
            assert(m@ =~= initial_model());
        }
        m
    }

    /// Rebuilds a manager from externally stored parts: the registered
    /// operator, if any, and the journey record the storage substrate handed
    /// back. The record is revalidated; one that this library would never
    /// have written is rejected.
    pub fn from_parts(operator: Option<Vec<u8>>, journey: Journey) -> (r: Option<
        SwissTrainManagerContract,
    >)
        ensures
            match r {
                Some(m) => journey_wf(journey@) && m.wf() && m@.journey == journey@
                    && m@.operator == (match operator {
                    Some(op) => Some(op@),
                    None => None,
                }),
                None => !journey_wf(journey@),
            },
    {
        if journey.is_well_formed() {
            Some(SwissTrainManagerContract { operator, journey })
        } else {
            None
        }
    }

    /// Registers `operator` as the sole authorized principal; exactly the
    /// first call succeeds, and every later call fails with
    /// `AlreadyInitialized`, changing nothing.
    pub fn init(&mut self, operator: Vec<u8>) -> (r: Result<(), Error>)
        requires
            old(self).wf(),
        ensures
            final(self).wf(),
            final(self)@ == init_step(old(self)@, operator@).0,
            r == init_step(old(self)@, operator@).1,
    {
        if self.operator.is_some() {
            Err(Error::AlreadyInitialized)
        } else {
            self.operator = Some(operator);
            proof {
                assert(self@ =~= init_step(old(self)@, operator@).0);
            }
            Ok(())
        }
    }

    /// Returns a copy of the current journey record. Pure read: no
    /// authorization, no side effects.
    pub fn get_journey(&self) -> (j: Journey)
        ensures
            j@ == self@.journey,
    {
        let j = Journey {
            journey_ref: copy_vec(&self.journey.journey_ref),
            current_stop: self.journey.current_stop,
            journey_status: self.journey.journey_status,
            stop_refs: copy_vec(&self.journey.stop_refs),
            stop_timetable: copy_vec(&self.journey.stop_timetable),
            stop_arrivals: copy_vec(&self.journey.stop_arrivals),
        };
        proof {
            assert(j@ =~= self@.journey);
        }
        j
    }

    /// Whether `caller` is the registered operator.
    fn authorized(&self, caller: &Vec<u8>) -> (r: bool)
        ensures
            r == is_authorized(self@, caller@),
    {
        match &self.operator {
            None => false,
            Some(op) => bytes_eq(op, caller),
        }
    }

    /// Validates and stores a fresh journey: see `schedule_step` for the
    /// exact rule. On success the prior (necessarily unplanned) record is
    /// replaced wholesale and the returned notification carries the journey
    /// identifier and the first timetable entry. `arrival_time` is validated
    /// against `departure_time` but not persisted: the stored record keeps
    /// only per-stop timetable entries.
    pub fn schedule_journey(
        &mut self,
        caller: &Vec<u8>,
        journey_ref: Vec<u8>,
        departure_time: u64,
        arrival_time: u64,
        stop_refs: Vec<u32>,
        stop_timetable: Vec<u64>,
        current_time: u64,
    ) -> (r: Result<Notification, Error>)
        requires
            old(self).wf(),
        ensures
            final(self).wf(),
            final(self)@ == schedule_step(
                old(self)@,
                caller@,
                journey_ref@,
                departure_time,
                arrival_time,
                stop_refs@,
                stop_timetable@,
                current_time,
            ).0,
            res_view(r) == schedule_step(
                old(self)@,
                caller@,
                journey_ref@,
                departure_time,
                arrival_time,
                stop_refs@,
                stop_timetable@,
                current_time,
            ).1,
    {
        if !self.authorized(caller) {
            return Err(Error::Unauthorized);
        }
        if !matches!(self.journey.journey_status, JourneyStatus::Unplanned) {
            return Err(Error::JourneyAlreadyActive);
        }
        if departure_time <= current_time {
            return Err(Error::DepartureInPast);
        }
        if arrival_time <= departure_time {
            return Err(Error::ArrivalBeforeDeparture);
        }
        if stop_refs.len() != stop_timetable.len() {
            return Err(Error::StopTimetableLengthMismatch);
        }
        let n: usize = stop_refs.len();
        let mut stop_arrivals: Vec<Option<u64>> = Vec::new();
        let mut i: usize = 0;
        while i < n
            invariant
                0 <= i <= n,
                stop_arrivals@.len() == i,
                forall|k: int| 0 <= k < i ==> stop_arrivals@[k] is None,
            decreases n - i,
        {
            stop_arrivals.push(None);
            i += 1;
        }
        let first_stop_time: Option<u64> = if stop_timetable.len() > 0 {
            Some(stop_timetable[0])
        } else {
            None
        };
        let notification_ref = copy_vec(&journey_ref);
        self.journey = Journey {
            journey_ref,
            current_stop: None,
            journey_status: JourneyStatus::Scheduled,
            stop_refs,
            stop_timetable,
            stop_arrivals,
        };
        proof {
            assert(self.journey@.stop_arrivals =~= Seq::new(
                self.journey@.stop_refs.len(),
                |k: int| None,
            ));
            assert(self@ =~= schedule_step(
                old(self)@,
                caller@,
                self.journey@.journey_ref,
                departure_time,
                arrival_time,
                self.journey@.stop_refs,
                self.journey@.stop_timetable,
                current_time,
            ).0);
        }
        Ok(Notification::Scheduled { journey_ref: notification_ref, first_stop_time })
    }

    /// Records the train's arrival at `stop_index`: see `check_in_step` for
    /// the exact rule. A check-in at the final stop resets the record to the
    /// canonical empty one and reports completion; any other in-range index —
    /// in whatever order the operator confirms stops — records the arrival,
    /// moves the current stop there, and marks the journey ongoing.
    pub fn check_in(&mut self, caller: &Vec<u8>, stop_index: u32, arrival_time: u64) -> (r:
        Result<Notification, Error>)
        requires
            old(self).wf(),
        ensures
            final(self).wf(),
            final(self)@ == check_in_step(old(self)@, caller@, stop_index, arrival_time).0,
            res_view(r) == check_in_step(old(self)@, caller@, stop_index, arrival_time).1,
    {
        if !self.authorized(caller) {
            return Err(Error::Unauthorized);
        }
        let route_len: usize = self.journey.stop_refs.len();
        if stop_index as usize >= route_len {
            return Err(Error::InvalidStopIndex);
        }
        if stop_index as usize == route_len - 1 {
            let mut taken = Journey::unplanned();
            core::mem::swap(&mut self.journey, &mut taken);
            proof {
                assert(self@ =~= check_in_step(old(self)@, caller@, stop_index, arrival_time).0);
            }
            Ok(Notification::Complete { journey_ref: taken.journey_ref, arrival_time })
        } else {
            self.journey.journey_status = JourneyStatus::Ongoing;
            self.journey.stop_arrivals.set(stop_index as usize, Some(arrival_time));
            self.journey.current_stop = Some(stop_index);
            let notification_ref = copy_vec(&self.journey.journey_ref);
            proof {
                assert(self@ =~= check_in_step(old(self)@, caller@, stop_index, arrival_time).0);
            }
            Ok(Notification::CheckIn { journey_ref: notification_ref, arrival_time })
        }
    }
}

} // verus!
