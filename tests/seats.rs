use booking_project::models::Seat;
use booking_project::seats::{
    after_record, after_vehicle, begin, push_decimal, resolve, seats_from_record, synthesize_seats,
    AvailabilityRecord, ResolveError, Step, StoreError, StoredSeat,
};

const VEHICLE: &str = "507f1f77bcf86cd799439011";

fn labels(seats: &[Seat]) -> Vec<String> {
    seats.iter().map(|s| s.seat_number.clone()).collect()
}

fn entry(label: &str, free: bool) -> StoredSeat {
    StoredSeat::Entry { seat_number: Some(label.to_string()), is_available: Some(free) }
}

fn record(entries: Vec<StoredSeat>) -> AvailabilityRecord {
    AvailabilityRecord { seats: Some(entries) }
}

#[test]
fn forty_seat_vehicle_without_record_gets_default_map() {
    let seats = resolve(VEHICLE, Ok(None), Ok(Some(40))).unwrap();
    assert_eq!(seats.len(), 40);
    for (i, seat) in seats.iter().enumerate() {
        assert_eq!(seat.seat_number, (i + 1).to_string());
        assert!(seat.is_available);
    }
    assert_eq!(seats[0].seat_number, "1");
    assert_eq!(seats[39].seat_number, "40");
}

#[test]
fn stored_record_returned_as_is_despite_seat_count() {
    let rec = record(vec![entry("1", false), entry("2", true)]);
    let seats = resolve(VEHICLE, Ok(Some(rec)), Ok(Some(40))).unwrap();
    assert_eq!(seats.len(), 2);
    assert_eq!(seats[0].seat_number, "1");
    assert!(!seats[0].is_available);
    assert_eq!(seats[1].seat_number, "2");
    assert!(seats[1].is_available);
}

#[test]
fn unknown_vehicle_without_record_is_empty() {
    let seats = resolve(VEHICLE, Ok(None), Ok(None)).unwrap();
    assert!(seats.is_empty());
}

#[test]
fn invalid_identifier_rejected_before_store() {
    assert!(matches!(begin("not-an-id"), Step::Finished(Err(ResolveError::InvalidVehicleId))));
    assert!(matches!(begin("507f1f77bcf86cd79943901"), Step::Finished(Err(ResolveError::InvalidVehicleId))));
    let r = resolve("xyz", Err(StoreError), Err(StoreError));
    assert_eq!(r.unwrap_err(), ResolveError::InvalidVehicleId);
}

#[test]
fn valid_identifier_asks_for_record() {
    match begin(VEHICLE) {
        Step::FetchRecord(id) => assert_eq!(id.to_hex(), VEHICLE),
        other => panic!("unexpected step {:?}", other),
    }
}

#[test]
fn resolving_twice_gives_same_seats() {
    let rec = || record(vec![entry("A1", true), entry("A2", false)]);
    let a = resolve(VEHICLE, Ok(Some(rec())), Ok(Some(3))).unwrap();
    let b = resolve(VEHICLE, Ok(Some(rec())), Ok(Some(3))).unwrap();
    assert_eq!(labels(&a), labels(&b));
    let c = resolve(VEHICLE, Ok(None), Ok(Some(3))).unwrap();
    let d = resolve(VEHICLE, Ok(None), Ok(Some(3))).unwrap();
    assert_eq!(labels(&c), labels(&d));
    assert_eq!(labels(&c), vec!["1", "2", "3"]);
}

#[test]
fn empty_seat_list_is_not_replaced() {
    let seats = resolve(VEHICLE, Ok(Some(record(vec![]))), Ok(Some(40))).unwrap();
    assert!(seats.is_empty());
}

#[test]
fn record_without_seat_list_falls_back() {
    let rec = AvailabilityRecord { seats: None };
    let seats = resolve(VEHICLE, Ok(Some(rec)), Ok(Some(2))).unwrap();
    assert_eq!(labels(&seats), vec!["1", "2"]);
}

#[test]
fn store_failures_surface() {
    assert_eq!(
        resolve(VEHICLE, Err(StoreError), Ok(Some(4))).unwrap_err(),
        ResolveError::StoreUnavailable
    );
    assert_eq!(resolve(VEHICLE, Ok(None), Err(StoreError)).unwrap_err(), ResolveError::StoreUnavailable);
    // the vehicle lookup does not count where a seat list was found
    let seats = resolve(VEHICLE, Ok(Some(record(vec![entry("9", true)]))), Err(StoreError)).unwrap();
    assert_eq!(labels(&seats), vec!["9"]);
}

#[test]
fn malformed_entries_dropped_and_fields_defaulted() {
    let entries = vec![
        StoredSeat::NotADocument,
        StoredSeat::Entry { seat_number: None, is_available: Some(true) },
        entry("3", true),
        StoredSeat::Entry { seat_number: Some("4".to_string()), is_available: None },
        StoredSeat::NotADocument,
    ];
    let seats = seats_from_record(&entries);
    assert_eq!(labels(&seats), vec!["", "3", "4"]);
    assert!(seats[0].is_available);
    assert!(seats[1].is_available);
    assert!(!seats[2].is_available);
}

#[test]
fn synthesized_map_edges() {
    assert!(synthesize_seats(0).is_empty());
    assert!(synthesize_seats(-5).is_empty());
    let one = synthesize_seats(1);
    assert_eq!(labels(&one), vec!["1"]);
    let big = synthesize_seats(120);
    assert_eq!(big[9].seat_number, "10");
    assert_eq!(big[99].seat_number, "100");
    assert_eq!(big[119].seat_number, "120");
}

#[test]
fn decimal_labels() {
    let mut s = String::from("seat-");
    push_decimal(&mut s, 0);
    assert_eq!(s, "seat-0");
    let mut t = String::new();
    push_decimal(&mut t, 4294967295);
    assert_eq!(t, "4294967295");
    let mut u = String::new();
    push_decimal(&mut u, 1009);
    assert_eq!(u, "1009");
}

#[test]
fn steps_in_order() {
    let id = match begin(VEHICLE) {
        Step::FetchRecord(id) => id,
        other => panic!("unexpected step {:?}", other),
    };
    match after_record(id, Ok(None)) {
        Step::FetchVehicle(next) => assert_eq!(next, id),
        other => panic!("unexpected step {:?}", other),
    }
    assert!(matches!(after_record(id, Err(StoreError)), Step::Finished(Err(ResolveError::StoreUnavailable))));
    match after_record(id, Ok(Some(record(vec![entry("7", false)])))) {
        Step::Finished(Ok(seats)) => assert_eq!(labels(&seats), vec!["7"]),
        other => panic!("unexpected step {:?}", other),
    }
    assert_eq!(labels(&after_vehicle(Ok(Some(2))).unwrap()), vec!["1", "2"]);
    assert!(after_vehicle(Ok(None)).unwrap().is_empty());
    assert_eq!(after_vehicle(Err(StoreError)).unwrap_err(), ResolveError::StoreUnavailable);
}
