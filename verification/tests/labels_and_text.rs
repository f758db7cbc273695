use fardtjanst::client::{login_button_disabled, login_refusal, register_button_disabled, Page};
use fardtjanst::labels::{Company, ReservationStatusEnum, Transport};
use fardtjanst::model::{is_none_or_empty, IntoUser, RegestringUser, TripsRequest, User};
use fardtjanst::text::{i32_to_decimal, i64_to_decimal, str_equal, u64_to_decimal};

#[test]
fn transport_names_round_trip() {
    for t in [Transport::taxi, Transport::wheelChairTaxi] {
        assert_eq!(Transport::from_str(&t.to_string()), Ok(t));
    }
    assert_eq!(Transport::taxi.to_string(), "Taxi");
    assert_eq!(Transport::wheelChairTaxi.to_string(), "Wheel Chair Taxi");
    assert_eq!(Transport::from_str("taxi"), Err(()));
    assert_eq!(Transport::from_str(""), Err(()));
}

#[test]
fn company_names_round_trip() {
    let all = [
        Company::TaxiKurir,
        Company::ArlandaExpress,
        Company::EkeroTaxi,
        Company::HaningeNynashamnTaxi,
        Company::Samtrans,
        Company::Sirius,
        Company::SverigeTaxi,
        Company::SodertaljeTaxi,
        Company::TaxiStockholm,
    ];
    for c in all {
        assert_eq!(Company::from_str(&c.to_string()), Ok(c));
    }
    assert_eq!(Company::EkeroTaxi.to_string(), "Ekerö Taxi");
    assert_eq!(Company::HaningeNynashamnTaxi.to_string(), "Haninge & Nynäshamn Taxi");
    assert_eq!(Company::SverigeTaxi.to_string(), "Sverigetaxi");
    assert_eq!(Company::from_str("Sverige Taxi"), Err(()));
}

#[test]
fn status_names_read_back_only_for_letar_efter_bil() {
    assert_eq!(ReservationStatusEnum::ResaBesald.to_string(), "Resa Bestäld");
    assert_eq!(ReservationStatusEnum::BilPavag.to_string(), "Bil Påväg");
    assert_eq!(ReservationStatusEnum::LetarEfterBil.to_string(), "Letar efter bil");
    assert_eq!(
        ReservationStatusEnum::from_str(&ReservationStatusEnum::LetarEfterBil.to_string()),
        Ok(ReservationStatusEnum::LetarEfterBil)
    );
    assert_eq!(ReservationStatusEnum::from_str(&ReservationStatusEnum::ResaBesald.to_string()), Err(()));
    assert_eq!(ReservationStatusEnum::from_str(&ReservationStatusEnum::BilPavag.to_string()), Err(()));
    assert_eq!(ReservationStatusEnum::from_str("Resa Beställd"), Ok(ReservationStatusEnum::ResaBesald));
    assert_eq!(ReservationStatusEnum::from_str("Bil påväg"), Ok(ReservationStatusEnum::BilPavag));
}

#[test]
fn stored_status_names() {
    assert_eq!(ReservationStatusEnum::from_stored_str("Resa Beställd"), Ok(ReservationStatusEnum::ResaBesald));
    assert_eq!(ReservationStatusEnum::from_stored_str("Bil påväg"), Ok(ReservationStatusEnum::BilPavag));
    assert_eq!(ReservationStatusEnum::from_stored_str("Letar efter bil"), Err(()));
}

#[test]
fn decimal_texts() {
    assert_eq!(i64_to_decimal(0), "0");
    assert_eq!(i64_to_decimal(1_700_000_000_000), "1700000000000");
    assert_eq!(i64_to_decimal(-42), "-42");
    assert_eq!(i64_to_decimal(i64::MIN), i64::MIN.to_string());
    assert_eq!(i64_to_decimal(i64::MAX), i64::MAX.to_string());
    assert_eq!(i32_to_decimal(i32::MIN), "-2147483648");
    assert_eq!(u64_to_decimal(u64::MAX), u64::MAX.to_string());
    assert_eq!(u64_to_decimal(10), "10");
}

#[test]
fn string_equality() {
    assert!(str_equal("Taxi", "Taxi"));
    assert!(!str_equal("Taxi", "taxi"));
    assert!(!str_equal("Taxi", "Taxi "));
}

#[test]
fn notes_are_kept_only_when_empty() {
    assert!(is_none_or_empty(&None));
    assert!(is_none_or_empty(&Some("note".to_string())));
    assert!(!is_none_or_empty(&Some(String::new())));
}

#[test]
fn registering_user_logs_in_with_service_credentials() {
    let r = RegestringUser {
        name: "Anna".to_string(),
        password: "own".to_string(),
        card_nummer: 123_456_789,
        fartjanst_password: "service".to_string(),
    };
    let u = r.into_user();
    assert_eq!(u.username, 123_456_789);
    assert_eq!(u.password, "service");
    let same = User { username: 5, password: "p".to_string() }.into_user();
    assert_eq!(same.username, 5);
    assert_eq!(same.password, "p");
}

#[test]
fn new_trips_request_is_unanswered() {
    let r = TripsRequest::new("g".to_string(), "s".to_string(), "f".to_string(), 1, 2, Some(3));
    assert_eq!(r.group, "g");
    assert_eq!(r.sortOrder, "s");
    assert_eq!(r.filter, "f");
    assert_eq!(r.skip, 1);
    assert_eq!(r.take, 2);
    assert_eq!(r.remaining, Some(3));
    assert!(r.customerTransportReservation.is_none());
}

#[test]
fn page_paths() {
    assert_eq!(Page::Home.path(), "/");
    assert_eq!(Page::Login.path(), "/login");
    assert_eq!(Page::Register.path(), "/register");
}

#[test]
fn form_buttons() {
    assert!(login_button_disabled(true, "pw"));
    assert!(login_button_disabled(false, ""));
    assert!(!login_button_disabled(false, "pw"));
    assert!(register_button_disabled(false, "pw", 99_999_999));
    assert!(!register_button_disabled(false, "pw", 100_000_000));
    assert!(register_button_disabled(false, "", 100_000_000));
    assert!(register_button_disabled(true, "pw", 100_000_000));
}

#[test]
fn login_refusal_on_401() {
    assert_eq!(login_refusal(401).unwrap().message, "username or password is incorrect");
    assert!(login_refusal(200).is_none());
    assert!(login_refusal(500).is_none());
}
