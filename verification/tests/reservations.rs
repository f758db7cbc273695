use fardtjanst::labels::{Company, ReservationStatusEnum, Transport};
use fardtjanst::model::{Address, CustomerInfo, Departure, ReservationStatus, TripsRequest};
use fardtjanst::records::{OrderRequest, TripRecord, UserRecord};
use fardtjanst::reservations::{
    progress_status, removal_conflicts, removal_conflicts_at, SortColumn, TimeBound, TransportColumnText,
    TripFilter,
};
use fardtjanst::time::{UtcInstant, MAX_TIMESTAMP, MIN_TIMESTAMP};
use fardtjanst::model::Trips;

fn user() -> UserRecord {
    UserRecord {
        id: 7,
        name: "Anna Andersson".to_string(),
        password: "secret".to_string(),
        card_nummer: 123_456_789,
        phone_number: "070-1234567".to_string(),
    }
}

fn record(time: i64) -> TripRecord {
    TripRecord {
        id: 42,
        to_addres: "Drottninggatan 1".to_string(),
        from_addres: "Sveavägen 2".to_string(),
        by_addres: Some("Odenplan".to_string()),
        user_id: Some(7),
        time,
        passagers: 2,
        child_passagers: 1,
        is_shared: true,
        can_be_new_trip_template: false,
        transport: "Taxi".to_string(),
        from_id: 10,
        by_id: Some(11),
        to_id: 12,
        cancelleable: true,
        company_name: Some("Taxi Kurir".to_string()),
        status: Some("Bil påväg".to_string()),
    }
}

fn customer() -> CustomerInfo {
    CustomerInfo {
        phoneNumber: "070".to_string(),
        notes: None,
        hasReservationStatus: None,
        reservationStatus: None,
    }
}

fn departure(text: &str) -> Departure {
    Departure::new(
        "1".to_string(),
        "Taxi".to_string(),
        None,
        "9".to_string(),
        text.to_string(),
        true,
        Address::new(1, "A".to_string()),
        None,
        Address::new(2, "B".to_string()),
        customer(),
    )
    .unwrap()
}

#[test]
fn address_ids_are_decimal() {
    let a = Address::new(-15, "Kungsgatan".to_string());
    assert_eq!(a.id, "-15");
    assert_eq!(a.address, "Kungsgatan");
}

#[test]
fn departure_rejects_unknown_names() {
    let bad_transport = Departure::new(
        "1".to_string(), "Bus".to_string(), None, "9".to_string(), "t".to_string(), true,
        Address::new(1, "A".to_string()), None, Address::new(2, "B".to_string()), customer(),
    );
    assert_eq!(bad_transport.unwrap_err(), "failed to find transport");
    let bad_company = Departure::new(
        "1".to_string(), "Taxi".to_string(), Some("Uber".to_string()), "9".to_string(), "t".to_string(), true,
        Address::new(1, "A".to_string()), None, Address::new(2, "B".to_string()), customer(),
    );
    assert_eq!(bad_company.unwrap_err(), "failed to parse company name");
    let ok = Departure::new(
        "1".to_string(), "Wheel Chair Taxi".to_string(), Some("Sirius".to_string()), "9".to_string(), "t".to_string(), false,
        Address::new(1, "A".to_string()), None, Address::new(2, "B".to_string()), customer(),
    ).unwrap();
    assert_eq!(ok.transport, Transport::wheelChairTaxi);
    assert_eq!(ok.transportProvider, Some(Company::Sirius));
    assert_eq!(ok.transportId, Some("9".to_string()));
    assert!(!ok.canBeCancelled);
}

#[test]
fn set_status_then_get_status() {
    let mut d = departure("t");
    assert_eq!(d.get_status(), None);
    d.set_status(ReservationStatus { status: ReservationStatusEnum::BilPavag });
    assert_eq!(d.get_status(), Some(ReservationStatusEnum::BilPavag));
    assert_eq!(d.customerInfo.hasReservationStatus, Some(true));
}

#[test]
fn departure_times_need_an_offset() {
    assert_eq!(departure("1970-01-01 00:00:00").get_time(), None);
    assert_eq!(
        departure("2023-11-14T22:13:20Z").get_time(),
        Some(UtcInstant { secs: 1_700_000_000, nanos: 0 })
    );
    assert_eq!(
        departure("2023-11-14T22:13:20.5+01:00").get_time(),
        Some(UtcInstant { secs: 1_700_000_000 - 3600, nanos: 500_000_000 })
    );
}

#[test]
fn stored_reservation_becomes_trip() {
    let t = Trips::try_new(&user(), &record(1_700_000_000_000)).unwrap();
    assert_eq!(t.id, "1700000000000");
    assert_eq!(t.customerName, "Anna Andersson");
    assert_eq!(t.customerCardNumber, "123456789");
    assert_eq!(t.phoneNumber, "070-1234567");
    assert_eq!(t.notes, Some(String::new()));
    assert_eq!(t.allocationId, "42");
    assert_eq!(t.transports, vec![Transport::taxi]);
    assert_eq!(t.from.id, "10");
    assert_eq!(t.from.address, "Sveavägen 2");
    assert_eq!(t.by.as_ref().unwrap().id, "11");
    assert_eq!(t.to.id, "12");
    assert_eq!(t.passengers, 2);
    assert_eq!(t.childPassengers, 1);
    assert!(t.isShared);
    assert!(!t.canBeNewTripTemplate);
    assert!(t.canBeCancelled);
    assert!(t.attributes.is_empty() && t.appliances.is_empty());
    let d = t.get_departure();
    assert_eq!(d.departure, "2023-11-14 22:13:20");
    assert_eq!(d.id, "1700000000000");
    assert_eq!(d.transportId, Some("42".to_string()));
    assert_eq!(d.transportProvider, Some(Company::TaxiKurir));
    assert_eq!(d.get_status(), Some(ReservationStatusEnum::BilPavag));
    assert_eq!(d.customerInfo.hasReservationStatus, Some(true));
    assert_eq!(d.customerInfo.phoneNumber, "070-1234567");
}

#[test]
fn epoch_trip_time_text() {
    let t = Trips::try_new(&user(), &record(0)).unwrap();
    assert_eq!(t.departure.departure, "1970-01-01 00:00:00");
}

#[test]
fn unknown_stored_status_is_dropped() {
    let mut r = record(0);
    r.status = Some("Letar efter bil".to_string());
    let t = Trips::try_new(&user(), &r).unwrap();
    assert_eq!(t.departure.get_status(), None);
    assert_eq!(t.departure.customerInfo.hasReservationStatus, None);
}

#[test]
fn missing_by_text_drops_the_stop() {
    let mut r = record(0);
    r.by_addres = None;
    assert!(Trips::try_new(&user(), &r).unwrap().by.is_none());
}

#[test]
fn conversion_errors() {
    assert_eq!(Trips::try_new(&user(), &record(i64::MAX)).unwrap_err(), "failed to create time");
    let mut r = record(0);
    r.transport = "Bus".to_string();
    assert_eq!(Trips::try_new(&user(), &r).unwrap_err(), "Transport is wrong");
    let mut r = record(0);
    r.company_name = Some("Uber".to_string());
    assert_eq!(Trips::try_new(&user(), &r).unwrap_err(), "failed to parse company name");
}

fn request(group: &str, sort: &str, filter: &str, skip: i32, take: i32) -> TripsRequest {
    TripsRequest::new(group.to_string(), sort.to_string(), filter.to_string(), skip, take, None)
}

#[test]
fn add_trips_keeps_order_or_fails_on_first() {
    let ok = request("", "", "", 0, 10).addTrips(&user(), &vec![record(0), record(1000)]).unwrap();
    let trips = ok.customerTransportReservation.unwrap();
    assert_eq!(trips.len(), 2);
    assert_eq!(trips[0].id, "0");
    assert_eq!(trips[1].id, "1000");
    let mut bad = record(0);
    bad.transport = "Bus".to_string();
    let err = request("", "", "", 0, 10).addTrips(&user(), &vec![record(0), bad, record(i64::MAX)]);
    assert_eq!(err.unwrap_err(), "Transport is wrong");
    let empty = request("", "", "", 0, 10).addTrips(&user(), &vec![]).unwrap();
    assert_eq!(empty.customerTransportReservation.unwrap().len(), 0);
}

#[test]
fn query_plans() {
    let q = request("Historical", "TimeDescending", "SharedTrip", 5, 20).query_at(10_000);
    assert_eq!(q.filter, TripFilter::IsShared(true));
    assert_eq!((q.sort, q.ascending), (SortColumn::Time, true));
    assert_eq!(q.time_bound, TimeBound::AtLeast(6_400));
    assert_eq!((q.offset, q.limit), (5, 20));
    let q = request("", "TimeAscending", "NotSharedTrip", 0, 1).query_at(3600);
    assert_eq!(q.filter, TripFilter::IsShared(false));
    assert_eq!((q.sort, q.ascending), (SortColumn::Time, false));
    assert_eq!(q.time_bound, TimeBound::AtMost(0));
    let q = request("", "FromAddress", "Taxi", 0, 1).query_at(0);
    assert_eq!(q.filter, TripFilter::TransportEquals(TransportColumnText::Taxi));
    assert_eq!(q.sort, SortColumn::FromAddres);
    let q = request("", "ToAddress", "WheelChairTaxi", -1, 1).query_at(0);
    assert_eq!(q.filter, TripFilter::TransportEquals(TransportColumnText::WheelChairTaxi));
    assert_eq!(TransportColumnText::WheelChairTaxi.text(), "WheelChairTaxi");
    assert_eq!(q.sort, SortColumn::ToAddres);
    assert_eq!(q.offset, u64::MAX);
    let q = request("x", "y", "z", 0, 1).query_at(0);
    assert_eq!(q.filter, TripFilter::All);
    assert_eq!((q.sort, q.ascending), (SortColumn::Time, true));
    let now = request("Historical", "", "", 0, 1).generate_query();
    match now.time_bound {
        TimeBound::AtLeast(c) => assert!(c > 1_600_000_000),
        TimeBound::AtMost(_) => panic!("historical trips are bounded from below"),
    }
}

fn at(secs: i64) -> UtcInstant {
    UtcInstant { secs, nanos: 0 }
}

#[test]
fn progress_near_departure() {
    // ten minutes before departure: 2400 s left of the window, so draws from 2_400_000 ms on
    assert_eq!(progress_status(at(1000 - 600), at(1000), None, 2_399_999), Some(ReservationStatusEnum::LetarEfterBil));
    assert_eq!(progress_status(at(1000 - 600), at(1000), None, 2_400_000), Some(ReservationStatusEnum::BilPavag));
    assert_eq!(
        progress_status(at(1000 - 600), at(1000), Some(ReservationStatusEnum::BilPavag), 0),
        Some(ReservationStatusEnum::BilPavag)
    );
    // outside the half hour on either side nothing changes
    assert_eq!(progress_status(at(1000 - 1800), at(1000), None, 0), None);
    assert_eq!(progress_status(at(1000 + 1800), at(1000), None, 3_599_999), None);
    // a fraction of a second after departure counts as zero whole seconds
    let now = UtcInstant { secs: 1000, nanos: 900_000_000 };
    assert_eq!(progress_status(now, at(1000), None, 1_800_000), Some(ReservationStatusEnum::BilPavag));
    assert_eq!(progress_status(now, at(1000), None, 1_799_999), Some(ReservationStatusEnum::LetarEfterBil));
}

#[test]
fn simulate_progress_leaves_unreadable_times() {
    let u = user();
    let mut req = request("", "", "", 0, 10).addTrips(&u, &vec![record(0), record(1000)]).unwrap();
    req.simulate_progress(&vec![0, 0]);
    let trips = req.customerTransportReservation.unwrap();
    assert_eq!(trips.len(), 2);
    assert_eq!(trips[0].departure.get_status(), Some(ReservationStatusEnum::BilPavag));
}

#[test]
fn orders_after_the_gap_are_rejected() {
    let o = OrderRequest {
        id: 1,
        to_addres: "T".to_string(),
        from_addres: "F".to_string(),
        user_id: None,
        time: 172_000,
        passagers: 1,
        child_passagers: 0,
        transport: "Taxi".to_string(),
        from_id: 1,
        to_id: 2,
    };
    // time less the gap is 100 000 ms = 100 s
    assert!(o.is_rejected_at(99_999_999_999));
    assert!(!o.is_rejected_at(100_000_000_000));
    let early = OrderRequest { time: 0, ..o.clone() };
    assert!(early.is_rejected_at(u128::from(u64::MAX)));
    let stored = TripRecord::from_order(o, 7);
    assert_eq!(stored.user_id, Some(7));
    assert!(stored.cancelleable && stored.can_be_new_trip_template && !stored.is_shared);
    assert!(stored.status.is_none() && stored.company_name.is_none() && stored.by_id.is_none());
    assert_eq!(stored.time, 172_000);
}

#[test]
fn cancellations_within_twenty_minutes_conflict() {
    assert!(removal_conflicts_at(2199, 1000));
    assert!(!removal_conflicts_at(2200, 1000));
    assert_eq!(removal_conflicts(0), Some(true));
    assert_eq!(removal_conflicts(i64::MAX), Some(false));
}

#[test]
fn trip_times_at_the_ends_of_chronos_range() {
    let last = Trips::try_new(&user(), &record(MAX_TIMESTAMP * 1000 + 999)).unwrap();
    assert_eq!(last.departure.departure, "+262142-12-31 23:59:59");
    assert_eq!(
        Trips::try_new(&user(), &record(MAX_TIMESTAMP * 1000 + 1000)).unwrap_err(),
        "failed to create time"
    );
    assert!(Trips::try_new(&user(), &record(MIN_TIMESTAMP * 1000)).is_ok());
    assert_eq!(
        Trips::try_new(&user(), &record(MIN_TIMESTAMP * 1000 - 1)).unwrap_err(),
        "failed to create time"
    );
}
