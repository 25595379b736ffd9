use swiss_trains_manager::journey::{Journey, JourneyStatus};
use swiss_trains_manager::manager::{Error, Notification, SwissTrainManagerContract};

const TIMESTAMP: u64 = 1723122000;

fn operator() -> Vec<u8> {
    "operator-1".as_bytes().to_vec()
}

fn journey_ref() -> Vec<u8> {
    "ch:1:sjyid:100001:1961-001".as_bytes().to_vec()
}

fn stops() -> Vec<u32> {
    vec![8500010, 8500301, 8500320, 8500305, 8500309, 8503504, 8503000]
}

fn timetable() -> Vec<u64> {
    (1u64..=7u64).map(|k: u64| TIMESTAMP + 3000 + 1000 * k).collect()
}

fn initialized_manager() -> SwissTrainManagerContract {
    let mut manager = SwissTrainManagerContract::new();
    manager.init(operator()).unwrap();
    manager
}

fn scheduled_manager() -> SwissTrainManagerContract {
    let mut manager = initialized_manager();
    manager
        .schedule_journey(
            &operator(),
            journey_ref(),
            TIMESTAMP + 3600,
            TIMESTAMP + 9000,
            stops(),
            timetable(),
            TIMESTAMP,
        )
        .unwrap();
    manager
}

fn assert_same_journey(a: &Journey, b: &Journey) {
    assert_eq!(a.journey_ref, b.journey_ref);
    assert_eq!(a.current_stop, b.current_stop);
    assert_eq!(a.journey_status, b.journey_status);
    assert_eq!(a.stop_refs, b.stop_refs);
    assert_eq!(a.stop_timetable, b.stop_timetable);
    assert_eq!(a.stop_arrivals, b.stop_arrivals);
}

fn assert_unplanned(journey: &Journey) {
    assert_eq!(journey.journey_ref, "NOT_SCHEDULED".as_bytes().to_vec());
    assert_eq!(journey.current_stop, None);
    assert_eq!(journey.journey_status, JourneyStatus::Unplanned);
    assert_eq!(journey.stop_refs.len(), 0);
    assert_eq!(journey.stop_timetable.len(), 0);
    assert_eq!(journey.stop_arrivals.len(), 0);
}

#[test]
fn test_init_succeeds_exactly_once() {
    let mut manager = SwissTrainManagerContract::new();
    assert_eq!(manager.init(operator()), Ok(()));
    assert_eq!(manager.init(operator()), Err(Error::AlreadyInitialized));
    // The operator argument makes no difference once one is registered.
    assert_eq!(
        manager.init("someone-else".as_bytes().to_vec()),
        Err(Error::AlreadyInitialized)
    );
}

#[test]
fn test_uninitialized_calls_unauthorized() {
    let mut manager = SwissTrainManagerContract::new();
    let before = manager.get_journey();
    let r = manager.schedule_journey(
        &operator(),
        journey_ref(),
        TIMESTAMP + 3600,
        TIMESTAMP + 9000,
        stops(),
        timetable(),
        TIMESTAMP,
    );
    assert_eq!(r, Err(Error::Unauthorized));
    assert_eq!(manager.check_in(&operator(), 0, TIMESTAMP), Err(Error::Unauthorized));
    assert_same_journey(&manager.get_journey(), &before);
}

#[test]
fn test_wrong_caller_unauthorized() {
    let mut manager = scheduled_manager();
    let before = manager.get_journey();
    let intruder = "intruder".as_bytes().to_vec();
    assert_eq!(manager.check_in(&intruder, 0, TIMESTAMP), Err(Error::Unauthorized));
    let r = manager.schedule_journey(
        &intruder,
        journey_ref(),
        TIMESTAMP + 3600,
        TIMESTAMP + 9000,
        stops(),
        timetable(),
        TIMESTAMP,
    );
    assert_eq!(r, Err(Error::Unauthorized));
    assert_same_journey(&manager.get_journey(), &before);
}

#[test]
fn test_schedule_departure_in_past() {
    let mut manager = initialized_manager();
    // Departure equal to the current time is already "in the past":
    // it must be strictly greater.
    let r = manager.schedule_journey(
        &operator(),
        journey_ref(),
        TIMESTAMP,
        TIMESTAMP + 9000,
        stops(),
        timetable(),
        TIMESTAMP,
    );
    assert_eq!(r, Err(Error::DepartureInPast));
    let r = manager.schedule_journey(
        &operator(),
        journey_ref(),
        TIMESTAMP - 1,
        TIMESTAMP + 9000,
        stops(),
        timetable(),
        TIMESTAMP,
    );
    assert_eq!(r, Err(Error::DepartureInPast));
    assert_unplanned(&manager.get_journey());
}

#[test]
fn test_schedule_arrival_before_departure() {
    let mut manager = initialized_manager();
    // Arrival equal to departure is rejected: it must be strictly greater.
    let r = manager.schedule_journey(
        &operator(),
        journey_ref(),
        TIMESTAMP + 3600,
        TIMESTAMP + 3600,
        stops(),
        timetable(),
        TIMESTAMP,
    );
    assert_eq!(r, Err(Error::ArrivalBeforeDeparture));
    assert_unplanned(&manager.get_journey());
}

#[test]
fn test_schedule_length_mismatch() {
    let mut manager = initialized_manager();
    let mut short_timetable = timetable();
    short_timetable.pop();
    let r = manager.schedule_journey(
        &operator(),
        journey_ref(),
        TIMESTAMP + 3600,
        TIMESTAMP + 9000,
        stops(),
        short_timetable,
        TIMESTAMP,
    );
    assert_eq!(r, Err(Error::StopTimetableLengthMismatch));
    assert_unplanned(&manager.get_journey());
}

#[test]
fn test_schedule_while_active() {
    let mut manager = scheduled_manager();
    let before = manager.get_journey();
    let r = manager.schedule_journey(
        &operator(),
        "another-ref".as_bytes().to_vec(),
        TIMESTAMP + 3600,
        TIMESTAMP + 9000,
        stops(),
        timetable(),
        TIMESTAMP,
    );
    assert_eq!(r, Err(Error::JourneyAlreadyActive));
    assert_same_journey(&manager.get_journey(), &before);

    // Also rejected while the journey is ongoing.
    manager.check_in(&operator(), 0, TIMESTAMP + 3600).unwrap();
    let before = manager.get_journey();
    let r = manager.schedule_journey(
        &operator(),
        "another-ref".as_bytes().to_vec(),
        TIMESTAMP + 3600,
        TIMESTAMP + 9000,
        stops(),
        timetable(),
        TIMESTAMP,
    );
    assert_eq!(r, Err(Error::JourneyAlreadyActive));
    assert_same_journey(&manager.get_journey(), &before);
}

#[test]
fn test_invalid_stop_index() {
    let mut manager = scheduled_manager();
    let before = manager.get_journey();
    assert_eq!(manager.check_in(&operator(), 7, TIMESTAMP), Err(Error::InvalidStopIndex));
    assert_eq!(manager.check_in(&operator(), 1000, TIMESTAMP), Err(Error::InvalidStopIndex));
    assert_same_journey(&manager.get_journey(), &before);
}

#[test]
fn test_scheduled_notification_carries_first_entry() {
    let mut manager = initialized_manager();
    let notification = manager
        .schedule_journey(
            &operator(),
            journey_ref(),
            TIMESTAMP + 3600,
            TIMESTAMP + 9000,
            stops(),
            timetable(),
            TIMESTAMP,
        )
        .unwrap();
    assert_eq!(
        notification,
        Notification::Scheduled {
            journey_ref: journey_ref(),
            first_stop_time: Some(TIMESTAMP + 4000),
        }
    );
}

#[test]
fn test_check_in_notifications() {
    let mut manager = scheduled_manager();
    let notification = manager.check_in(&operator(), 2, TIMESTAMP + 5100).unwrap();
    assert_eq!(
        notification,
        Notification::CheckIn { journey_ref: journey_ref(), arrival_time: TIMESTAMP + 5100 }
    );
    let notification = manager.check_in(&operator(), 6, TIMESTAMP + 9100).unwrap();
    assert_eq!(
        notification,
        Notification::Complete { journey_ref: journey_ref(), arrival_time: TIMESTAMP + 9100 }
    );
}

#[test]
fn test_check_in_records_arrival() {
    let mut manager = scheduled_manager();
    manager.check_in(&operator(), 0, TIMESTAMP + 3650).unwrap();
    let journey = manager.get_journey();
    assert_eq!(journey.stop_arrivals[0], Some(TIMESTAMP + 3650));
    for k in 1usize..7usize {
        assert_eq!(journey.stop_arrivals[k], None);
    }
}

#[test]
fn test_out_of_order_check_in_is_permitted() {
    // Check-ins need not arrive in increasing index order: a later call with a
    // smaller index simply overwrites that slot and lowers the current stop,
    // leaving the slot recorded earlier untouched.
    let mut manager = scheduled_manager();
    manager.check_in(&operator(), 5, TIMESTAMP + 8100).unwrap();
    manager.check_in(&operator(), 3, TIMESTAMP + 6100).unwrap();
    let journey = manager.get_journey();
    assert_eq!(journey.current_stop, Some(3));
    assert_eq!(journey.journey_status, JourneyStatus::Ongoing);
    assert_eq!(journey.stop_arrivals[5], Some(TIMESTAMP + 8100));
    assert_eq!(journey.stop_arrivals[3], Some(TIMESTAMP + 6100));
    assert_eq!(journey.stop_arrivals[0], None);
}

#[test]
fn test_final_check_in_resets_record() {
    let mut manager = scheduled_manager();
    for k in 0u32..6u32 {
        manager.check_in(&operator(), k, TIMESTAMP + 4000 + 1000 * (k as u64)).unwrap();
    }
    manager.check_in(&operator(), 6, TIMESTAMP + 9100).unwrap();
    // The whole record is discarded: the final arrival time is never stored.
    assert_unplanned(&manager.get_journey());

    // The cycle may start over: scheduling afresh succeeds.
    let r = manager.schedule_journey(
        &operator(),
        journey_ref(),
        TIMESTAMP + 3600,
        TIMESTAMP + 9000,
        stops(),
        timetable(),
        TIMESTAMP,
    );
    assert!(r.is_ok());
}

#[test]
fn test_empty_route_schedules_but_never_checks_in() {
    let mut manager = initialized_manager();
    let notification = manager
        .schedule_journey(
            &operator(),
            journey_ref(),
            TIMESTAMP + 3600,
            TIMESTAMP + 9000,
            Vec::new(),
            Vec::new(),
            TIMESTAMP,
        )
        .unwrap();
    assert_eq!(
        notification,
        Notification::Scheduled { journey_ref: journey_ref(), first_stop_time: None }
    );
    let journey = manager.get_journey();
    assert_eq!(journey.journey_status, JourneyStatus::Scheduled);
    assert_eq!(journey.stop_refs.len(), 0);
    assert_eq!(manager.check_in(&operator(), 0, TIMESTAMP), Err(Error::InvalidStopIndex));
}

#[test]
fn test_from_parts_revalidates_record() {
    // A record this library wrote is accepted, and the rebuilt manager picks
    // up the journey where it stood.
    let mut manager = scheduled_manager();
    manager.check_in(&operator(), 0, TIMESTAMP + 3650).unwrap();
    let journey = manager.get_journey();
    let mut rebuilt =
        SwissTrainManagerContract::from_parts(Some(operator()), journey).unwrap();
    assert_eq!(rebuilt.get_journey().current_stop, Some(0));
    let notification = rebuilt.check_in(&operator(), 6, TIMESTAMP + 9100).unwrap();
    assert!(matches!(notification, Notification::Complete { .. }));

    // A record with misaligned sequences is refused.
    let mut broken = manager.get_journey();
    broken.stop_arrivals.push(None);
    assert!(SwissTrainManagerContract::from_parts(Some(operator()), broken).is_none());

    // An unplanned record must be exactly the canonical empty one.
    let mut broken = SwissTrainManagerContract::new().get_journey();
    broken.journey_ref = "something-else".as_bytes().to_vec();
    assert!(SwissTrainManagerContract::from_parts(None, broken).is_none());

    // A scheduled record may not already carry an arrival.
    let mut broken = scheduled_manager().get_journey();
    broken.stop_arrivals[2] = Some(TIMESTAMP);
    assert!(SwissTrainManagerContract::from_parts(Some(operator()), broken).is_none());
}

#[test]
fn test_single_stop_journey_completes_at_once() {
    let mut manager = initialized_manager();
    manager
        .schedule_journey(
            &operator(),
            journey_ref(),
            TIMESTAMP + 3600,
            TIMESTAMP + 9000,
            vec![8500010],
            vec![TIMESTAMP + 3600],
            TIMESTAMP,
        )
        .unwrap();
    let notification = manager.check_in(&operator(), 0, TIMESTAMP + 3700).unwrap();
    assert_eq!(
        notification,
        Notification::Complete { journey_ref: journey_ref(), arrival_time: TIMESTAMP + 3700 }
    );
    assert_unplanned(&manager.get_journey());
}
