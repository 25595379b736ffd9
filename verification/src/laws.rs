//! The laws of the journey state machine, proved over the spec-level step
//! functions that the executable operations are specified by.

use vstd::prelude::*;

use crate::journey::{empty_journey, journey_wf, sentinel_ref};
use crate::manager::{
    check_in_step, init_step, initial_model, is_authorized, manager_wf, schedule_step, Error,
    ManagerModel, NotificationModel,
};

verus! {

/// Before any operation, the manager reports the unplanned journey: no
/// operator, status `Unplanned`, the sentinel identifier, no current stop,
/// and all three sequences empty.
pub proof fn lemma_initial_journey_unplanned()
    ensures
        initial_model().operator is None,
        initial_model().journey.status is Unplanned,
        initial_model().journey.journey_ref == sentinel_ref(),
        initial_model().journey.current_stop is None,
        initial_model().journey.stop_refs.len() == 0,
        initial_model().journey.stop_timetable.len() == 0,
        initial_model().journey.stop_arrivals.len() == 0,
        manager_wf(initial_model()),
{
}

/// `init` succeeds exactly once: from a state with no registered operator the
/// first call succeeds and binds its operator, and a second call fails with
/// `AlreadyInitialized`, whatever operator it offers, changing nothing.
pub proof fn lemma_init_exactly_once(
    m: ManagerModel,
    first_operator: Seq<u8>,
    later_operator: Seq<u8>,
)
    requires
        m.operator is None,
    ensures
        ({
            let (m1, r1) = init_step(m, first_operator);
            let (m2, r2) = init_step(m1, later_operator);
            &&& r1 == Ok::<(), Error>(())
            &&& m1.operator == Some(first_operator)
            &&& m1.journey == m.journey
            &&& r2 == Err::<(), Error>(Error::AlreadyInitialized)
            &&& m2 == m1
        }),
{
}

/// Once an operator is registered — whatever else happened since — `init`
/// fails with `AlreadyInitialized` and changes nothing, whatever operator it
/// offers.
pub proof fn lemma_init_after_registration_fails(m: ManagerModel, operator: Seq<u8>)
    requires
        m.operator is Some,
    ensures
        init_step(m, operator) == (m, Err::<(), Error>(Error::AlreadyInitialized)),
{
}

/// Neither scheduling nor checking in ever changes the registered operator,
/// so the binding made by `init` persists across every later mutating call.
pub proof fn lemma_steps_preserve_operator(
    m: ManagerModel,
    caller: Seq<u8>,
    journey_ref: Seq<u8>,
    departure_time: u64,
    arrival_time: u64,
    stop_refs: Seq<u32>,
    stop_timetable: Seq<u64>,
    current_time: u64,
    stop_index: u32,
    check_in_time: u64,
)
    ensures
        schedule_step(
            m,
            caller,
            journey_ref,
            departure_time,
            arrival_time,
            stop_refs,
            stop_timetable,
            current_time,
        ).0.operator == m.operator,
        check_in_step(m, caller, stop_index, check_in_time).0.operator == m.operator,
{
}

/// A mutating call whose caller is not the registered operator — in
/// particular any call before `init` — fails with `Unauthorized` and leaves
/// the state unchanged.
pub proof fn lemma_unauthorized_calls_rejected(
    m: ManagerModel,
    caller: Seq<u8>,
    journey_ref: Seq<u8>,
    departure_time: u64,
    arrival_time: u64,
    stop_refs: Seq<u32>,
    stop_timetable: Seq<u64>,
    current_time: u64,
    stop_index: u32,
    check_in_time: u64,
)
    requires
        !is_authorized(m, caller),
    ensures
        schedule_step(
            m,
            caller,
            journey_ref,
            departure_time,
            arrival_time,
            stop_refs,
            stop_timetable,
            current_time,
        ) == (m, Err::<NotificationModel, Error>(Error::Unauthorized)),
        check_in_step(m, caller, stop_index, check_in_time) == (
            m,
            Err::<NotificationModel, Error>(Error::Unauthorized),
        ),
{
}

/// The validation rules of `schedule_journey` for an authorized caller, in
/// the order they are checked: an already active journey, a departure not
/// strictly in the future, an arrival not strictly after the departure, and a
/// route/timetable length mismatch each fail with their own error and leave
/// the state unchanged.
pub proof fn lemma_schedule_validation(
    m: ManagerModel,
    caller: Seq<u8>,
    journey_ref: Seq<u8>,
    departure_time: u64,
    arrival_time: u64,
    stop_refs: Seq<u32>,
    stop_timetable: Seq<u64>,
    current_time: u64,
)
    requires
        is_authorized(m, caller),
    ensures
        ({
            let step = schedule_step(
                m,
                caller,
                journey_ref,
                departure_time,
                arrival_time,
                stop_refs,
                stop_timetable,
                current_time,
            );
            &&& !(m.journey.status is Unplanned) ==> step == (
                m,
                Err::<NotificationModel, Error>(Error::JourneyAlreadyActive),
            )
            &&& m.journey.status is Unplanned && departure_time <= current_time ==> step == (
                m,
                Err::<NotificationModel, Error>(Error::DepartureInPast),
            )
            &&& m.journey.status is Unplanned && departure_time > current_time && arrival_time
                <= departure_time ==> step == (
                m,
                Err::<NotificationModel, Error>(Error::ArrivalBeforeDeparture),
            )
            &&& m.journey.status is Unplanned && departure_time > current_time && arrival_time
                > departure_time && stop_refs.len() != stop_timetable.len() ==> step == (
                m,
                Err::<NotificationModel, Error>(Error::StopTimetableLengthMismatch),
            )
        }),
{
}

/// `init` preserves well-formedness.
pub proof fn lemma_init_step_preserves_wf(m: ManagerModel, operator: Seq<u8>)
    requires
        manager_wf(m),
    ensures
        manager_wf(init_step(m, operator).0),
{
}

/// `schedule_journey` preserves well-formedness: the fresh record it stores
/// aligns its three sequences and has no check-in recorded.
pub proof fn lemma_schedule_step_preserves_wf(
    m: ManagerModel,
    caller: Seq<u8>,
    journey_ref: Seq<u8>,
    departure_time: u64,
    arrival_time: u64,
    stop_refs: Seq<u32>,
    stop_timetable: Seq<u64>,
    current_time: u64,
)
    requires
        manager_wf(m),
    ensures
        manager_wf(
            schedule_step(
                m,
                caller,
                journey_ref,
                departure_time,
                arrival_time,
                stop_refs,
                stop_timetable,
                current_time,
            ).0,
        ),
{
}

/// `check_in` preserves well-formedness: a final-stop check-in restores the
/// canonical empty record, any other one keeps the sequences aligned and
/// leaves the current stop confirmed and non-final.
pub proof fn lemma_check_in_step_preserves_wf(
    m: ManagerModel,
    caller: Seq<u8>,
    stop_index: u32,
    arrival_time: u64,
)
    requires
        manager_wf(m),
    ensures
        manager_wf(check_in_step(m, caller, stop_index, arrival_time).0),
{
}

/// The state after a sequence of check-in calls, each applied to the state
/// the previous one left.
pub open spec fn apply_check_ins(
    m: ManagerModel,
    caller: Seq<u8>,
    calls: Seq<(u32, u64)>,
) -> ManagerModel
    decreases calls.len(),
{
    if calls.len() == 0 {
        m
    } else {
        apply_check_ins(
            check_in_step(m, caller, calls[0].0, calls[0].1).0,
            caller,
            calls.subrange(1, calls.len() as int),
        )
    }
}

/// Any sequence of authorized, in-range, non-final check-ins keeps the
/// manager well-formed and preserves the operator, the journey identifier,
/// the route and the timetable.
pub proof fn lemma_non_final_check_ins_keep_route(
    m: ManagerModel,
    caller: Seq<u8>,
    calls: Seq<(u32, u64)>,
)
    requires
        manager_wf(m),
        is_authorized(m, caller),
        forall|k: int| 0 <= k < calls.len() ==> (#[trigger] calls[k]).0 + 1
            < m.journey.stop_refs.len(),
    ensures
        ({
            let m2 = apply_check_ins(m, caller, calls);
            &&& manager_wf(m2)
            &&& m2.operator == m.operator
            &&& m2.journey.journey_ref == m.journey.journey_ref
            &&& m2.journey.stop_refs == m.journey.stop_refs
            &&& m2.journey.stop_timetable == m.journey.stop_timetable
            &&& m2.journey.stop_arrivals.len() == m.journey.stop_arrivals.len()
        }),
    decreases calls.len(),
{
    if calls.len() > 0 {
        let m1 = check_in_step(m, caller, calls[0].0, calls[0].1).0;
        lemma_check_in_step_preserves_wf(m, caller, calls[0].0, calls[0].1);
        let rest = calls.subrange(1, calls.len() as int);
        assert(forall|k: int| 0 <= k < rest.len() ==> rest[k] == calls[k + 1]);
        lemma_non_final_check_ins_keep_route(m1, caller, rest);
    }
}

/// Round trip: from any well-formed state, a successful `schedule_journey`,
/// any sequence of in-range non-final check-ins, and one final-stop check-in
/// always end in the canonical empty `Unplanned` record with the operator
/// unchanged, whatever the route length or the timestamps were; the last call
/// reports completion with the scheduled journey identifier.
pub proof fn lemma_journey_round_trip(
    m: ManagerModel,
    caller: Seq<u8>,
    journey_ref: Seq<u8>,
    departure_time: u64,
    arrival_time: u64,
    stop_refs: Seq<u32>,
    stop_timetable: Seq<u64>,
    current_time: u64,
    calls: Seq<(u32, u64)>,
    final_index: u32,
    final_time: u64,
)
    requires
        manager_wf(m),
        schedule_step(
            m,
            caller,
            journey_ref,
            departure_time,
            arrival_time,
            stop_refs,
            stop_timetable,
            current_time,
        ).1 is Ok,
        forall|k: int| 0 <= k < calls.len() ==> (#[trigger] calls[k]).0 + 1 < stop_refs.len(),
        final_index as int == stop_refs.len() - 1,
    ensures
        ({
            let m1 = schedule_step(
                m,
                caller,
                journey_ref,
                departure_time,
                arrival_time,
                stop_refs,
                stop_timetable,
                current_time,
            ).0;
            let m2 = apply_check_ins(m1, caller, calls);
            let (m3, r3) = check_in_step(m2, caller, final_index, final_time);
            &&& m3.journey == empty_journey()
            &&& m3.operator == m.operator
            &&& r3 == Ok::<NotificationModel, Error>(
                NotificationModel::Complete { journey_ref, arrival_time: final_time },
            )
        }),
{
    let m1 = schedule_step(
        m,
        caller,
        journey_ref,
        departure_time,
        arrival_time,
        stop_refs,
        stop_timetable,
        current_time,
    ).0;
    lemma_schedule_step_preserves_wf(
        m,
        caller,
        journey_ref,
        departure_time,
        arrival_time,
        stop_refs,
        stop_timetable,
        current_time,
    );
    lemma_non_final_check_ins_keep_route(m1, caller, calls);
}

} // verus!
