use fardtjanst::access::{
    authorize, decide_authorization, login_body_format, server_login, session_id_or_reject, user_or_reject,
    LoginBodyFormat,
};
use fardtjanst::labels::ReservationStatusEnum;
use fardtjanst::model::{Address, CustomerInfo, Departure, ReservationStatus, Trips, TripsRequest};
use fardtjanst::notification::{Notification, NotificationAction, NotificationOptions};
use fardtjanst::notifier::{
    order_failed_step, order_placed_notification, session_cookie, BackgroundTaskError, CheckPhase, CheckStep,
    IntoUser, NotificationActor, OrderStep, RequestError, Schedule, User, UserActor, SECONDS_BETWEEN_LOOKS,
    SECONDS_BETWEEN_TRIES,
};
use fardtjanst::payload::{append_chunk, MAX_PAYLOAD_SIZE};
use fardtjanst::records::{LinkedSubscriptionInfo, NotificationInfoRecord, SubscriptionKeys, UserRecord};
use fardtjanst::time::UtcInstant;

fn stored_user(password: &str) -> UserRecord {
    UserRecord {
        id: 3,
        name: "Bo".to_string(),
        password: password.to_string(),
        card_nummer: 111_222_333,
        phone_number: "08".to_string(),
    }
}

#[test]
fn bcrypt_authorization() {
    let hash = bcrypt::hash("hemligt", 4).unwrap();
    let u = stored_user(&hash);
    assert_eq!(authorize("hemligt", Some(&u)), Some(3));
    assert_eq!(authorize("fel", Some(&u)), None);
    assert_eq!(authorize("hemligt", None), None);
    let malformed = stored_user("not a hash");
    assert_eq!(authorize("not a hash", Some(&malformed)), None);
    assert_eq!(decide_authorization(Some(&u), Some(true)), Some(3));
    assert_eq!(decide_authorization(Some(&u), Some(false)), None);
    assert_eq!(decide_authorization(Some(&u), None), None);
}

#[test]
fn plain_password_login() {
    let u = stored_user("pw");
    assert_eq!(server_login(&"pw".to_string(), Some(&u)), Some(3));
    assert_eq!(server_login(&"PW".to_string(), Some(&u)), None);
    assert_eq!(server_login(&"pw".to_string(), None), None);
}

#[test]
fn login_body_formats() {
    assert_eq!(login_body_format(Some("application/json")), Some(LoginBodyFormat::Json));
    assert_eq!(login_body_format(Some("application/x-www-form-urlencoded")), Some(LoginBodyFormat::Form));
    assert_eq!(login_body_format(Some("text/plain")), None);
    assert_eq!(login_body_format(None), None);
}

#[test]
fn route_guard() {
    assert_eq!(session_id_or_reject(Ok(Some(9))).unwrap(), 9);
    let none = session_id_or_reject(Ok(None)).unwrap_err();
    assert_eq!((none.status, none.body.as_str()), (500, "Sessionid was not fund"));
    let failed = session_id_or_reject(Err("broken".to_string())).unwrap_err();
    assert_eq!((failed.status, failed.body.as_str()), (500, "broken"));
    let missing = user_or_reject(Ok(()), Ok(None)).unwrap_err();
    assert_eq!((missing.status, missing.body.as_str()), (401, "Hello"));
    let listing = user_or_reject(Err("db".to_string()), Ok(Some(stored_user("x")))).unwrap_err();
    assert_eq!((listing.status, listing.body.as_str()), (500, "db"));
    let lookup = user_or_reject(Ok(()), Err("gone".to_string())).unwrap_err();
    assert_eq!((lookup.status, lookup.body.as_str()), (500, "gone"));
    assert_eq!(user_or_reject(Ok(()), Ok(Some(stored_user("x")))).unwrap().id, 3);
}

#[test]
fn payload_limit() {
    let mut body = vec![1u8; 10];
    assert!(append_chunk(&mut body, &[2, 3]).is_ok());
    assert_eq!(body, vec![1, 1, 1, 1, 1, 1, 1, 1, 1, 1, 2, 3]);
    let mut full = vec![0u8; MAX_PAYLOAD_SIZE - 1];
    assert!(append_chunk(&mut full, &[7]).is_ok());
    assert_eq!(full.len(), MAX_PAYLOAD_SIZE);
    assert!(append_chunk(&mut full, &[8]).is_err());
    assert_eq!(full.len(), MAX_PAYLOAD_SIZE);
    let mut empty = Vec::new();
    assert!(append_chunk(&mut empty, &vec![0u8; MAX_PAYLOAD_SIZE + 1]).is_err());
    assert!(empty.is_empty());
}

#[test]
fn schedule_looks_once_per_half_hour() {
    let s = Schedule::standard();
    assert_eq!((s.sleep_secs, s.maxloops), (10, 180));
    let mut counter = 0u64;
    let mut looks = Vec::new();
    for k in 1..=360 {
        if s.tick(&mut counter) {
            looks.push(k);
        }
    }
    assert_eq!(looks, vec![1, 181]);
    assert_eq!(Schedule::every(7, 100).maxloops, 14);
}

#[test]
fn cookie_before_first_semicolon() {
    assert_eq!(session_cookie("id=abc; Path=/; HttpOnly"), "id=abc");
    assert_eq!(session_cookie("id=abc"), "id=abc");
    assert_eq!(session_cookie(";x"), "");
    assert_eq!(session_cookie(""), "");
}

#[test]
fn request_errors_and_task_errors() {
    assert_eq!(RequestError::Reqwest.status_code(), 503);
    assert_eq!(RequestError::SerdeJson.status_code(), 503);
    assert_eq!(RequestError::Header.status_code(), 502);
    assert_eq!(BackgroundTaskError::new("x".to_string()).msg, "x");
    assert_eq!(BackgroundTaskError::from_serde_json("eof").msg, "serde_json error: eof");
    assert_eq!(BackgroundTaskError::from_reqwest("timeout").msg, "reqwest error: timeout");
    assert_eq!(BackgroundTaskError::from_header_text("bad".to_string()).msg, "bad");
}

#[test]
fn service_users() {
    let stored = stored_user("pw");
    let u = (&stored).into_user();
    assert_eq!((u.id, u.username, u.password.as_str()), (3, 111_222_333, "pw"));
    let same = User { id: 1, username: 2, password: "p".to_string() }.into_user();
    assert_eq!((same.id, same.username), (1, 2));
    let auth = stored.into_auth_user();
    assert_eq!((auth.username, auth.password.as_str()), (111_222_333, "pw"));
}

fn trip(id: &str, departure: &str, shared: bool, status: Option<ReservationStatusEnum>) -> Trips {
    let customer = CustomerInfo {
        phoneNumber: "08".to_string(),
        notes: None,
        hasReservationStatus: status.map(|_| true),
        reservationStatus: status.map(|s| ReservationStatus { status: s }),
    };
    let from = Address::new(1, "Sveavägen 2".to_string());
    let to = Address::new(2, "Drottninggatan 1".to_string());
    let d = Departure::new(
        id.to_string(), "Taxi".to_string(), None, "5".to_string(), departure.to_string(), true,
        from.clone(), None, to.clone(), customer,
    )
    .unwrap();
    Trips::new(
        id.to_string(), "Bo".to_string(), "1".to_string(), "08".to_string(), None, "5".to_string(),
        vec![], d.transport, from, None, to, d, 1, 0, vec![], vec![], shared, true, true,
    )
}

fn answered(trips: Vec<Trips>) -> TripsRequest {
    let mut r = TripsRequest::new(String::new(), String::new(), String::new(), 0, 10, None);
    r.customerTransportReservation = Some(trips);
    r
}

#[test]
fn on_its_way_texts() {
    let shared = trip("1", "", true, None);
    let n = NotificationActor::on_its_way_notification(&shared, CheckPhase::FirstLook);
    assert_eq!(n.title, "Färdtjänst Notifier");
    assert_eq!(n.options.body.as_deref(), Some("Resa från Sveavägen 2 till Drottninggatan 1 är påväg  och är delad"));
    assert_eq!(
        n.options.icon.as_deref(),
        Some("https://fardtjansten.regionstockholm.se/Resources/img/ft_icon_iPad.png")
    );
    assert_eq!(n.options.badge, n.options.icon);
    let again = NotificationActor::on_its_way_notification(&shared, CheckPhase::LookAgain);
    assert_eq!(again.options.body.as_deref(), Some("Resa från Sveavägen 2 till Drottninggatan 1 är påväg  och är samåkning"));
    let alone = NotificationActor::on_its_way_notification(&trip("1", "", false, None), CheckPhase::FirstLook);
    assert_eq!(alone.options.body.as_deref(), Some("Resa från Sveavägen 2 till Drottninggatan 1 är påväg "));
}

#[test]
fn check_steps() {
    let id = "2".to_string();
    let none = TripsRequest::new(String::new(), String::new(), String::new(), 0, 10, None);
    assert!(matches!(NotificationActor::next_check_step(CheckPhase::FirstLook, &id, &none), CheckStep::GiveUp));
    let other = answered(vec![trip("1", "", false, Some(ReservationStatusEnum::BilPavag))]);
    assert!(matches!(NotificationActor::next_check_step(CheckPhase::FirstLook, &id, &other), CheckStep::GiveUp));
    let waiting = answered(vec![
        trip("1", "", false, Some(ReservationStatusEnum::BilPavag)),
        trip("2", "", false, Some(ReservationStatusEnum::LetarEfterBil)),
    ]);
    assert!(matches!(NotificationActor::next_check_step(CheckPhase::LookAgain, &id, &waiting), CheckStep::LookAgain));
    let coming = answered(vec![
        trip("2", "", true, Some(ReservationStatusEnum::BilPavag)),
        trip("2", "", false, None),
    ]);
    match NotificationActor::next_check_step(CheckPhase::LookAgain, &id, &coming) {
        CheckStep::Notify(n) => assert!(n.options.body.unwrap().ends_with("samåkning")),
        _ => panic!("the car is on its way"),
    }
}

#[test]
fn watching_trips_within_half_an_hour() {
    let trips = vec![
        trip("a", "2023-11-14T22:13:20Z", false, None),
        trip("b", "2023-11-14T22:43:20Z", false, None),
        trip("c", "2023-11-14T22:43:21Z", false, None),
        trip("d", "2023-11-14T22:13:19Z", false, None),
        trip("e", "not a time", false, None),
    ];
    let now = UtcInstant { secs: 1_700_000_000, nanos: 0 };
    let w = UserActor::watch_times_at(&trips, now);
    assert_eq!(w[0], Some(now));
    assert_eq!(w[1], Some(UtcInstant { secs: 1_700_001_800, nanos: 0 }));
    assert_eq!(&w[2..], &[None, None, None]);
}

#[test]
fn first_check_delay() {
    let dep = UtcInstant { secs: 1000, nanos: 0 };
    assert_eq!(NotificationActor::first_check_delay_nanos(UtcInstant { secs: 1300, nanos: 0 }, dep), 0);
    assert_eq!(NotificationActor::first_check_delay_nanos(UtcInstant { secs: 1301, nanos: 5 }, dep), 1_000_000_005);
}

#[test]
fn order_retries() {
    assert!(matches!(order_failed_step(0), OrderStep::Retry(1)));
    assert!(matches!(order_failed_step(10), OrderStep::Retry(11)));
    match order_failed_step(11) {
        OrderStep::GiveUp(n) => {
            assert_eq!(n.options.body.as_deref(), Some("Kunde inte beställa färdtjänst resa"))
        }
        _ => panic!("gives up after eleven failed attempts"),
    }
    let placed = order_placed_notification("Sveavägen 2", "Odenplan", 1_700_000_000_000);
    assert_eq!(
        placed.options.body.as_deref(),
        Some("Resa bestäld från Sveavägen 2 till Odenplan, kl: 1700000000000")
    );
}

#[test]
fn subscriptions() {
    let info = NotificationInfoRecord {
        id: 1,
        UserId: 3,
        endpoint: "https://push".to_string(),
        p256dh: "k".to_string(),
        auth: "a".to_string(),
    };
    assert!(NotificationActor::has_subscription(&vec![info.clone()], 3));
    assert!(!NotificationActor::has_subscription(&vec![info.clone()], 4));
    assert!(!NotificationActor::has_subscription(&vec![], 3));
    let keys = info.keys();
    assert_eq!((keys.endpoint.as_str(), keys.p256dh.as_str(), keys.auth.as_str()), ("https://push", "k", "a"));
    let row = LinkedSubscriptionInfo::new(stored_user("x"), SubscriptionKeys {
        endpoint: "e".to_string(),
        p256dh: "p".to_string(),
        auth: "a".to_string(),
    })
    .into_new_row();
    assert_eq!((row.UserId, row.endpoint.as_str()), (3, "e"));
}

#[test]
fn notification_builders() {
    let action = NotificationAction::new("open".to_string(), "Öppna".to_string(), None);
    let n = Notification::new("t".to_string())
        .add_body("b".to_string())
        .add_image("i".to_string())
        .add_timestamp(5)
        .add_tag("g".to_string())
        .add_data("d".to_string())
        .add_vibrate(vec![100, 50])
        .renotify(true)
        .add_action(action.clone())
        .add_action(action);
    assert_eq!(n.title, "t");
    assert_eq!(n.options.body.as_deref(), Some("b"));
    assert_eq!(n.options.image.as_deref(), Some("i"));
    assert_eq!(n.options.timestamp, Some(5));
    assert_eq!(n.options.tag.as_deref(), Some("g"));
    assert_eq!(n.options.data.as_deref(), Some("d"));
    assert_eq!(n.options.vibrate, Some(vec![100, 50]));
    assert_eq!(n.options.renotify, Some(true));
    assert_eq!(n.options.action.as_ref().unwrap().len(), 2);
    assert!(n.options.icon.is_none() && n.options.badge.is_none());
    let mut o = NotificationOptions::new();
    o.add_badge("x".to_string());
    o.add_icon("y".to_string());
    assert_eq!(o.badge.as_deref(), Some("x"));
    assert_eq!(o.icon.as_deref(), Some("y"));
}

#[test]
fn retry_and_look_intervals_are_a_minute() {
    assert_eq!(SECONDS_BETWEEN_TRIES, 60);
    assert_eq!(SECONDS_BETWEEN_LOOKS, 60);
}
