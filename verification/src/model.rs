use vstd::prelude::*;
use crate::labels::{Company, ReservationStatusEnum, Transport};
use crate::time::{UtcInstant, parse_utc, parsed_utc_instant};
use crate::text::{i32_to_decimal, int_decimal};

verus! {

/// A place a trip starts at, passes or ends at.
#[derive(Clone, Debug)]
pub struct Address {
    pub id: String,
    pub address: String,
}

impl Address {
    /// A copy of the address, field for field.
    pub fn duplicate(&self) -> (r: Address)
        ensures
            r == *self,
    {
        Address { id: self.id.clone(), address: self.address.clone() }
    }
}

/// A copy of an optional address.
pub fn duplicate_opt_address(a: &Option<Address>) -> (r: Option<Address>)
    ensures
        r == *a,
{
    match a {
        Some(x) => Some(x.duplicate()),
        None => None,
    }
}

/// A copy of an optional text.
pub fn duplicate_opt_string(s: &Option<String>) -> (r: Option<String>)
    ensures
        r == *s,
{
    match s {
        Some(x) => Some(x.clone()),
        None => None,
    }
}

/// The status a reservation carries.
#[derive(Clone, Copy, Debug, PartialEq, Eq, Structural)]
pub struct ReservationStatus {
    pub status: ReservationStatusEnum,
}

/// The customer's part of a departure.
#[derive(Clone, Debug)]
pub struct CustomerInfo {
    pub phoneNumber: String,
    pub notes: Option<String>,
    pub hasReservationStatus: Option<bool>,
    pub reservationStatus: Option<ReservationStatus>,
}

impl CustomerInfo {
    /// A copy of the customer information, field for field.
    pub fn duplicate(&self) -> (r: CustomerInfo)
        ensures
            r == *self,
    {
        CustomerInfo {
            phoneNumber: self.phoneNumber.clone(),
            notes: duplicate_opt_string(&self.notes),
            hasReservationStatus: self.hasReservationStatus,
            reservationStatus: self.reservationStatus,
        }
    }
}

/// Whether the notes of a customer are left out when written: they are kept
/// only when present and empty (the name of the function says otherwise; this
/// is what it computes).
pub open spec fn spec_is_none_or_empty(op: Option<Seq<char>>) -> bool {
    !(op matches Some(s) && s.len() == 0)
}

/// The view of an optional text.
pub open spec fn opt_view(op: Option<String>) -> Option<Seq<char>> {
    match op {
        Some(s) => Some(s@),
        None => None,
    }
}

pub fn is_none_or_empty(op: &Option<String>) -> (r: bool)
    ensures
        r == spec_is_none_or_empty(opt_view(*op)),
{
    !match op {
        Some(s) => s.as_str().is_empty(),
        None => false,
    }
}

/// One departure of a trip.
#[derive(Clone, Debug)]
pub struct Departure {
    pub id: String,
    pub transport: Transport,
    pub transportProvider: Option<Company>,
    pub transportProviderName: Option<String>,
    pub transportId: Option<String>,
    pub canBeCancelled: bool,
    pub departure: String,
    pub from: Address,
    pub by: Option<Address>,
    pub to: Address,
    pub customerInfo: CustomerInfo,
}

impl Departure {
    /// The status of the reservation, if it has one.
    pub open spec fn status(self) -> Option<ReservationStatusEnum> {
        match self.customerInfo.reservationStatus {
            Some(s) => Some(s.status),
            None => None,
        }
    }

    /// The departure time, as chrono reads the departure text.
    pub open spec fn time(self) -> Option<UtcInstant> {
        match parsed_utc_instant(self.departure@) {
            Some((secs, nanos)) => Some(UtcInstant { secs, nanos }),
            None => None,
        }
    }

    pub fn get_status(&self) -> (r: Option<ReservationStatusEnum>)
        ensures
            r == self.status(),
    {
        match self.customerInfo.reservationStatus {
            Some(s) => Some(s.status),
            None => None,
        }
    }

    /// The departure time read from the departure text.
    pub fn get_time(&self) -> (r: Option<UtcInstant>)
        ensures
            r == self.time(),
    {
        match parse_utc(self.departure.as_str()) {
            Some((secs, nanos)) => Some(UtcInstant { secs, nanos }),
            None => None,
        }
    }

    /// A copy of the departure, field for field.
    pub fn duplicate(&self) -> (r: Departure)
        ensures
            r == *self,
    {
        Departure {
            id: self.id.clone(),
            transport: self.transport,
            transportProvider: self.transportProvider,
            transportProviderName: duplicate_opt_string(&self.transportProviderName),
            transportId: duplicate_opt_string(&self.transportId),
            canBeCancelled: self.canBeCancelled,
            departure: self.departure.clone(),
            from: self.from.duplicate(),
            by: duplicate_opt_address(&self.by),
            to: self.to.duplicate(),
            customerInfo: self.customerInfo.duplicate(),
        }
    }
}

/// A booked trip of a customer.
#[derive(Clone, Debug)]
pub struct Trips {
    pub id: String,
    pub customerName: String,
    pub customerCardNumber: String,
    pub phoneNumber: String,
    pub notes: Option<String>,
    pub allocationId: String,
    pub transports: Vec<Transport>,
    pub transport: Transport,
    pub from: Address,
    pub by: Option<Address>,
    pub to: Address,
    pub departure: Departure,
    pub passengers: i32,
    pub childPassengers: i32,
    pub attributes: Vec<String>,
    pub appliances: Vec<String>,
    pub isShared: bool,
    pub canBeNewTripTemplate: bool,
    pub canBeCancelled: bool,
}

impl Trips {
    /// A copy of the departure of the trip.
    pub fn get_departure(&self) -> (r: Departure)
        ensures
            r == self.departure,
    {
        self.departure.duplicate()
    }
}

/// A page of trips asked for and, once answered, the trips on it.
#[derive(Debug)]
pub struct TripsRequest {
    pub group: String,
    pub sortOrder: String,
    pub filter: String,
    pub skip: i32,
    pub take: i32,
    pub remaining: Option<i32>,
    pub customerTransportReservation: Option<Vec<Trips>>,
}

impl TripsRequest {
    /// A request that has not been answered yet.
    pub fn new(
        group: String,
        sortOrder: String,
        filter: String,
        skip: i32,
        take: i32,
        remaining: Option<i32>,
    ) -> (r: Self)
        ensures
            r.group == group,
            r.sortOrder == sortOrder,
            r.filter == filter,
            r.skip == skip,
            r.take == take,
            r.remaining == remaining,
            r.customerTransportReservation is None,
    {
        Self { group, sortOrder, filter, skip, take, remaining, customerTransportReservation: None }
    }
}

/// The credentials a customer logs in with: the card number and password.
#[derive(Clone, Debug, Default)]
pub struct User {
    pub username: i32,
    pub password: String,
}

/// Values that carry login credentials.
pub trait IntoUser: Sized {
    fn into_user(self) -> User;
}

impl IntoUser for User {
    fn into_user(self) -> (r: User)
        ensures
            r == self,
    {
        User { password: self.password, username: self.username }
    }
}

/// What a new customer registers with.
#[derive(Clone, Debug)]
pub struct RegestringUser {
    pub name: String,
    pub password: String,
    pub card_nummer: i32,
    pub fartjanst_password: String,
}

impl RegestringUser {
    /// The registration a form's fields make: the user name typed as a
    /// number, the password, the service card number and the service
    /// password.
    pub fn from_form(username: i32, password: String, card_number: i32, service_password: String) -> (r:
        RegestringUser)
        ensures
            r.name@ == int_decimal(username as int),
            r.password == password,
            r.card_nummer == card_number,
            r.fartjanst_password == service_password,
    {
        RegestringUser {
            card_nummer: card_number,
            name: i32_to_decimal(username),
            password,
            fartjanst_password: service_password,
        }
    }
}

impl IntoUser for RegestringUser {
    /// The credentials of the transport service account: the card number and
    /// the password for that service.
    fn into_user(self) -> (r: User)
        ensures
            r.username == self.card_nummer,
            r.password == self.fartjanst_password,
    {
        User { password: self.fartjanst_password, username: self.card_nummer }
    }
}

} // verus!
