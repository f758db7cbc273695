//! The reservation service: it turns stored reservations into trips, plans
//! the trip queries, decides on orders and cancellations, and plays out how
//! a reservation progresses towards its departure.
use vstd::prelude::*;
use crate::labels::{Company, ReservationStatusEnum, Transport};
use crate::model::{
    opt_view, duplicate_opt_address, duplicate_opt_string, Address, CustomerInfo, Departure,
    ReservationStatus, Trips, TripsRequest,
};
use crate::records::{OrderRequest, TripRecord};
use crate::records::UserRecord;
use crate::text::{int_decimal, i32_to_decimal, i64_to_decimal, owned};
use crate::time::{format_utc_millis, utc_millis_text, utc_now, UtcInstant, MAX_TIMESTAMP, MIN_TIMESTAMP};
use crate::text::str_equal;

verus! {

/// The address with the given id and text.
pub open spec fn address_from(id: i32, text: Seq<char>, a: Address) -> bool {
    a.id@ == int_decimal(id as int) && a.address@ == text
}

/// The company a provider name names: `Ok(None)` without a name, `Err` for
/// a name no company has.
pub open spec fn provider_of(name: Option<Seq<char>>) -> Result<Option<Company>, ()> {
    match name {
        Some(n) => match Company::parse(n) {
            Ok(c) => Ok(Some(c)),
            Err(_) => Err(()),
        },
        None => Ok(None),
    }
}

impl Address {
    /// The address with the decimal text of `id` as its id.
    pub fn new(id: i32, address: String) -> (r: Address)
        ensures
            r.id@ == int_decimal(id as int),
            r.address == address,
    {
        Address { id: i32_to_decimal(id), address }
    }
}

impl Departure {
    /// A departure with the named transport and, if a provider name is given,
    /// the company of that name. Fails with "failed to find transport" for an
    /// unknown transport and with "failed to parse company name" for an
    /// unknown company.
    pub fn new(
        id: String,
        transport_string: String,
        transport_provider_name: Option<String>,
        transport_id: String,
        departure: String,
        can_be_cancelled: bool,
        from: Address,
        by: Option<Address>,
        to: Address,
        customer_info: CustomerInfo,
    ) -> (r: Result<Departure, String>)
        ensures
            Transport::parse(transport_string@) is Err ==> (r matches Err(e)
                && e@ == "failed to find transport"@),
            Transport::parse(transport_string@) is Ok && provider_of(
                opt_view(transport_provider_name),
            ) is Err ==> (r matches Err(e) && e@ == "failed to parse company name"@),
            Transport::parse(transport_string@) is Ok && provider_of(
                opt_view(transport_provider_name),
            ) is Ok ==> (r matches Ok(d) && d == Departure {
                id,
                transport: Transport::parse(transport_string@)->Ok_0,
                transportProvider: provider_of(opt_view(transport_provider_name))->Ok_0,
                transportProviderName: transport_provider_name,
                transportId: Some(transport_id),
                canBeCancelled: can_be_cancelled,
                departure,
                from,
                by,
                to,
                customerInfo: customer_info,
            }),
    {
        let transport = match Transport::from_str(transport_string.as_str()) {
            Ok(t) => t,
            Err(_) => return Err(owned("failed to find transport")),
        };
        let transport_provider = match duplicate_opt_string(&transport_provider_name) {
            Some(s) => match Company::from_str(s.as_str()) {
                Ok(company) => Some(company),
                Err(_) => return Err(owned("failed to parse company name")),
            },
            None => None,
        };
        Ok(Departure {
            id,
            transport,
            transportProvider: transport_provider,
            transportProviderName: transport_provider_name,
            transportId: Some(transport_id),
            canBeCancelled: can_be_cancelled,
            departure,
            from,
            by,
            to,
            customerInfo: customer_info,
        })
    }

    /// The departure with the reservation status set.
    pub open spec fn with_status(self, s: ReservationStatus) -> Departure {
        Departure {
            customerInfo: CustomerInfo {
                reservationStatus: Some(s),
                hasReservationStatus: Some(true),
                ..self.customerInfo
            },
            ..self
        }
    }

    /// Records a reservation status and marks the reservation as having one.
    pub fn set_status(&mut self, s: ReservationStatus)
        ensures
            *final(self) == old(self).with_status(s),
    {
        self.customerInfo.reservationStatus = Some(s);
        self.customerInfo.hasReservationStatus = Some(true);
    }
}

impl Trips {
    /// A trip made of the given parts.
    pub fn new(
        id: String,
        customerName: String,
        customerCardNumber: String,
        phoneNumber: String,
        notes: Option<String>,
        allocationId: String,
        transports: Vec<Transport>,
        transport: Transport,
        from: Address,
        by: Option<Address>,
        to: Address,
        departure: Departure,
        passengers: i32,
        childPassengers: i32,
        attributes: Vec<String>,
        appliances: Vec<String>,
        isShared: bool,
        canBeNewTripTemplate: bool,
        canBeCancelled: bool,
    ) -> (r: Trips)
        ensures
            r == (Trips {
                id,
                customerName,
                customerCardNumber,
                phoneNumber,
                notes,
                allocationId,
                transports,
                transport,
                from,
                by,
                to,
                departure,
                passengers,
                childPassengers,
                attributes,
                appliances,
                isShared,
                canBeNewTripTemplate,
                canBeCancelled,
            }),
    {
        Trips {
            id,
            customerName,
            customerCardNumber,
            phoneNumber,
            notes,
            allocationId,
            transport,
            transports,
            from,
            by,
            to,
            appliances,
            attributes,
            departure,
            canBeCancelled,
            canBeNewTripTemplate,
            childPassengers,
            passengers,
            isShared,
        }
    }
}


/// The pattern departure times are written with.
pub open spec fn departure_time_pattern() -> Seq<char> {
    "%Y-%m-%d %H:%M:%S"@
}

/// The stop a stored reservation passes on the way, when both its id and its
/// text are stored.
pub open spec fn stored_by_address(rec: TripRecord, a: Option<Address>) -> bool {
    match (rec.by_id, rec.by_addres) {
        (Some(i), Some(t)) => a matches Some(x) && address_from(i, t@, x),
        _ => a is None,
    }
}

/// The status a stored reservation carries, if its stored name is known.
pub open spec fn stored_reservation_status(rec: TripRecord) -> Option<ReservationStatus> {
    match rec.status {
        Some(s) => match ReservationStatusEnum::parse_stored(s@) {
            Ok(e) => Some(ReservationStatus { status: e }),
            Err(_) => None,
        },
        None => None,
    }
}

/// Whether the transport and company names of a reservation are known.
pub open spec fn record_names_known(rec: TripRecord) -> bool {
    &&& Transport::parse(rec.transport@) is Ok
    &&& provider_of(opt_view(rec.company_name)) is Ok
}

/// The message a reservation with an unknown name is refused with.
pub open spec fn record_names_error(rec: TripRecord) -> Seq<char> {
    if Transport::parse(rec.transport@) is Err {
        "Transport is wrong"@
    } else {
        "failed to parse company name"@
    }
}

/// The trip a customer's stored reservation stands for, its departure time
/// written as `time_text`.
pub open spec fn assembled_trip(
    user: UserRecord,
    rec: TripRecord,
    time_text: Seq<char>,
    t: Trips,
) -> bool {
    let transport = Transport::parse(rec.transport@)->Ok_0;
    let status = stored_reservation_status(rec);
    let d = t.departure;
    &&& t.id@ == int_decimal(rec.time as int)
    &&& t.customerName == user.name
    &&& t.customerCardNumber@ == int_decimal(user.card_nummer as int)
    &&& t.phoneNumber == user.phone_number
    &&& t.notes matches Some(n) && n@.len() == 0
    &&& t.allocationId@ == int_decimal(rec.id as int)
    &&& t.transports@ == seq![transport]
    &&& t.transport == transport
    &&& address_from(rec.from_id, rec.from_addres@, t.from)
    &&& stored_by_address(rec, t.by)
    &&& address_from(rec.to_id, rec.to_addres@, t.to)
    &&& t.passengers == rec.passagers
    &&& t.childPassengers == rec.child_passagers
    &&& t.attributes@.len() == 0
    &&& t.appliances@.len() == 0
    &&& t.isShared == rec.is_shared
    &&& t.canBeNewTripTemplate == rec.can_be_new_trip_template
    &&& t.canBeCancelled == rec.cancelleable
    &&& d.id@ == int_decimal(rec.time as int)
    &&& d.transport == transport
    &&& d.transportProvider == provider_of(opt_view(rec.company_name))->Ok_0
    &&& d.transportProviderName == rec.company_name
    &&& d.transportId matches Some(x) && x@ == int_decimal(rec.id as int)
    &&& d.canBeCancelled == rec.cancelleable
    &&& d.departure@ == time_text
    &&& d.from == t.from
    &&& d.by == t.by
    &&& d.to == t.to
    &&& d.customerInfo.phoneNumber == user.phone_number
    &&& d.customerInfo.notes matches Some(n) && n@.len() == 0
    &&& d.customerInfo.reservationStatus == status
    &&& d.customerInfo.hasReservationStatus == (if status is Some {
        Some(true)
    } else {
        None
    })
}

/// What converting a stored reservation gives once its time is written.
pub open spec fn assembled_result(
    user: UserRecord,
    rec: TripRecord,
    time_text: Seq<char>,
    r: Result<Trips, String>,
) -> bool {
    if record_names_known(rec) {
        r matches Ok(t) && assembled_trip(user, rec, time_text, t)
    } else {
        r matches Err(e) && e@ == record_names_error(rec)
    }
}

/// Whether a stored reservation converts into a trip.
pub open spec fn record_converts(rec: TripRecord) -> bool {
    &&& utc_millis_text(rec.time, departure_time_pattern()) is Some
    &&& record_names_known(rec)
}

/// What converting a stored reservation gives.
pub open spec fn trip_result(user: UserRecord, rec: TripRecord, r: Result<Trips, String>) -> bool {
    match utc_millis_text(rec.time, departure_time_pattern()) {
        None => r matches Err(e) && e@ == "failed to create time"@,
        Some(text) => assembled_result(user, rec, text, r),
    }
}

impl Trips {
    /// The trip a customer's stored reservation stands for, once its departure
    /// time has been written as `time`. Fails with "Transport is wrong" for an
    /// unknown transport and with "failed to parse company name" for an
    /// unknown company.
    pub fn assemble(user: &UserRecord, resor: &TripRecord, time: String) -> (r: Result<
        Trips,
        String,
    >)
        ensures
            assembled_result(*user, *resor, time@, r),
    {
        let transport = match Transport::from_str(resor.transport.as_str()) {
            Ok(s) => s,
            Err(_) => return Err(owned("Transport is wrong")),
        };
        let from = Address::new(resor.from_id, resor.from_addres.clone());
        let by = match resor.by_id {
            Some(id) => match duplicate_opt_string(&resor.by_addres) {
                Some(address) => Some(Address::new(id, address)),
                None => None,
            },
            None => None,
        };
        let to = Address::new(resor.to_id, resor.to_addres.clone());
        let notes: Option<String> = Some(String::new());
        let reservation_status = match &resor.status {
            Some(status) => match ReservationStatusEnum::from_stored_str(status.as_str()) {
                Ok(e) => Some(ReservationStatus { status: e }),
                Err(_) => None,
            },
            None => None,
        };
        let customer_info = CustomerInfo {
            phoneNumber: resor_phone(user),
            notes: duplicate_opt_string(&notes),
            hasReservationStatus: if reservation_status.is_some() {
                Some(true)
            } else {
                None
            },
            reservationStatus: reservation_status,
        };
        let departure = Departure::new(
            i64_to_decimal(resor.time),
            resor.transport.clone(),
            duplicate_opt_string(&resor.company_name),
            i32_to_decimal(resor.id),
            time,
            resor.cancelleable,
            from.duplicate(),
            duplicate_opt_address(&by),
            to.duplicate(),
            customer_info,
        );
        let departure = match departure {
            Ok(d) => d,
            Err(e) => return Err(e),
        };
        let mut transports: Vec<Transport> = Vec::new();
        transports.push(transport);
        Ok(
            Self::new(
                i64_to_decimal(resor.time),
                user.name.clone(),
                i32_to_decimal(user.card_nummer),
                resor_phone(user),
                notes,
                i32_to_decimal(resor.id),
                transports,
                transport,
                from,
                by,
                to,
                departure,
                resor.passagers,
                resor.child_passagers,
                Vec::new(),
                Vec::new(),
                resor.is_shared,
                resor.can_be_new_trip_template,
                resor.cancelleable,
            ),
        )
    }

    /// The trip a customer's stored reservation stands for, its departure
    /// time written from the stored milliseconds. Fails with "failed to create
    /// time" when chrono cannot represent that time, which is exactly when the
    /// milliseconds fall outside chrono's range; otherwise as `assemble`.
    pub fn try_new(user: &UserRecord, resor: &TripRecord) -> (r: Result<Trips, String>)
        ensures
            trip_result(*user, *resor, r),
            utc_millis_text(resor.time, departure_time_pattern()) is Some <==> (MIN_TIMESTAMP * 1000
                <= resor.time <= MAX_TIMESTAMP * 1000 + 999),
    {
        let time = match format_utc_millis(resor.time, "%Y-%m-%d %H:%M:%S") {
            Some(t) => t,
            None => return Err(owned("failed to create time")),
        };
        proof {
            reveal_strlit("%Y-%m-%d %H:%M:%S");
        }
        Self::assemble(user, resor, time)
    }
}

fn resor_phone(user: &UserRecord) -> (r: String)
    ensures
        r == user.phone_number,
{
    user.phone_number.clone()
}

/// Whether the first `n` stored reservations all convert.
pub open spec fn all_convert(resor: Seq<TripRecord>, n: int) -> bool {
    forall|i: int| 0 <= i < n ==> record_converts(#[trigger] resor[i])
}

impl TripsRequest {
    /// Answers the request with the trips the stored reservations stand for,
    /// in their order. Fails with the error of the first reservation that does
    /// not convert.
    pub fn addTrips(self, user: &UserRecord, resor: &Vec<TripRecord>) -> (r: Result<
        TripsRequest,
        String,
    >)
        ensures
            all_convert(resor@, resor@.len() as int) ==> (r matches Ok(req) && {
                &&& req.group == self.group
                &&& req.sortOrder == self.sortOrder
                &&& req.filter == self.filter
                &&& req.skip == self.skip
                &&& req.take == self.take
                &&& req.remaining == self.remaining
                &&& req.customerTransportReservation matches Some(v) && v@.len() == resor@.len()
                    && forall|i: int|
                    0 <= i < resor@.len() ==> trip_result(
                        *user,
                        #[trigger] resor@[i],
                        Ok(v@[i]),
                    )
            }),
            !all_convert(resor@, resor@.len() as int) ==> (r matches Err(e) && exists|j: int|
                0 <= j < resor@.len() && all_convert(resor@, j) && !record_converts(
                    #[trigger] resor@[j],
                ) && trip_result(*user, resor@[j], Err(e))),
    {
        let mut req = self;
        let mut vec: Vec<Trips> = Vec::new();
        let mut i: usize = 0;
        while i < resor.len()
            invariant
                0 <= i <= resor@.len(),
                vec@.len() == i,
                all_convert(resor@, i as int),
                forall|k: int| 0 <= k < i ==> trip_result(*user, resor@[k], Ok(#[trigger] vec@[k])),
                req == self,
            decreases resor@.len() - i,
        {
            let t = Trips::try_new(user, &resor[i]);
            match t {
                Ok(t) => {
                    vec.push(t);
                },
                Err(e) => {
                    proof {
                        assert(!record_converts(resor@[i as int]));
                        assert(all_convert(resor@, i as int));
                    }
                    return Err(e);
                },
            }
            i = i + 1;
        }
        req.customerTransportReservation = Some(vec);
        Ok(req)
    }
}


/// The transport text a trip query can select.
#[derive(Clone, Copy, Debug, PartialEq, Eq, Structural)]
pub enum TransportColumnText {
    Taxi,
    WheelChairTaxi,
}

impl TransportColumnText {
    /// The stored transport text the query compares with.
    pub open spec fn spec_text(self) -> Seq<char> {
        match self {
            TransportColumnText::Taxi => "Taxi"@,
            TransportColumnText::WheelChairTaxi => "WheelChairTaxi"@,
        }
    }

    pub fn text(&self) -> (r: &'static str)
        ensures
            r@ == self.spec_text(),
    {
        match self {
            TransportColumnText::Taxi => "Taxi",
            TransportColumnText::WheelChairTaxi => "WheelChairTaxi",
        }
    }
}

/// Which reservations a trip query keeps.
#[derive(Clone, Copy, Debug, PartialEq, Eq, Structural)]
pub enum TripFilter {
    All,
    IsShared(bool),
    TransportEquals(TransportColumnText),
}

/// The reservation column a trip query sorts by.
#[derive(Clone, Copy, Debug, PartialEq, Eq, Structural)]
pub enum SortColumn {
    Time,
    FromAddres,
    ToAddres,
}

/// The bound a trip query puts on the reservation time.
#[derive(Clone, Copy, Debug, PartialEq, Eq, Structural)]
pub enum TimeBound {
    AtLeast(i64),
    AtMost(i64),
}

/// The query a trips request asks the reservation table.
#[derive(Clone, Copy, Debug, PartialEq, Eq, Structural)]
pub struct TripQuery {
    pub filter: TripFilter,
    pub sort: SortColumn,
    pub ascending: bool,
    pub time_bound: TimeBound,
    pub offset: u64,
    pub limit: u64,
}

/// The filter a filter name selects.
pub open spec fn planned_filter(name: Seq<char>) -> TripFilter {
    if name == "SharedTrip"@ {
        TripFilter::IsShared(true)
    } else if name == "NotSharedTrip"@ {
        TripFilter::IsShared(false)
    } else if name == "Taxi"@ {
        TripFilter::TransportEquals(TransportColumnText::Taxi)
    } else if name == "WheelChairTaxi"@ {
        TripFilter::TransportEquals(TransportColumnText::WheelChairTaxi)
    } else {
        TripFilter::All
    }
}

/// The column and direction a sort order name selects. "TimeDescending"
/// sorts by time ascending and "TimeAscending" by time descending.
pub open spec fn planned_sort(name: Seq<char>) -> (SortColumn, bool) {
    if name == "TimeDescending"@ {
        (SortColumn::Time, true)
    } else if name == "TimeAscending"@ {
        (SortColumn::Time, false)
    } else if name == "FromAddress"@ {
        (SortColumn::FromAddres, true)
    } else if name == "ToAddress"@ {
        (SortColumn::ToAddres, true)
    } else {
        (SortColumn::Time, true)
    }
}

/// The time bound a group name selects around `cutoff`: "Historical" keeps
/// times at or after it, every other group times at or before it.
pub open spec fn planned_bound(group: Seq<char>, cutoff: i64) -> TimeBound {
    if group == "Historical"@ {
        TimeBound::AtLeast(cutoff)
    } else {
        TimeBound::AtMost(cutoff)
    }
}

impl TripsRequest {
    /// The query this request asks when the clock reads `now_secs` (whole
    /// seconds since the Unix epoch): the time cutoff lies one hour earlier.
    pub open spec fn planned_query(self, now_secs: i64) -> TripQuery {
        TripQuery {
            filter: planned_filter(self.filter@),
            sort: planned_sort(self.sortOrder@).0,
            ascending: planned_sort(self.sortOrder@).1,
            time_bound: planned_bound(self.group@, (now_secs - 3600) as i64),
            offset: self.skip as u64,
            limit: self.take as u64,
        }
    }

    /// The query asked at the time `now_secs`, a second chrono can represent
    /// an hour after the start of its range.
    pub fn query_at(&self, now_secs: i64) -> (q: TripQuery)
        requires
            MIN_TIMESTAMP + 3600 <= now_secs <= MAX_TIMESTAMP,
        ensures
            q == self.planned_query(now_secs),
    {
        let filter = if str_equal(self.filter.as_str(), "SharedTrip") {
            TripFilter::IsShared(true)
        } else if str_equal(self.filter.as_str(), "NotSharedTrip") {
            TripFilter::IsShared(false)
        } else if str_equal(self.filter.as_str(), "Taxi") {
            TripFilter::TransportEquals(TransportColumnText::Taxi)
        } else if str_equal(self.filter.as_str(), "WheelChairTaxi") {
            TripFilter::TransportEquals(TransportColumnText::WheelChairTaxi)
        } else {
            TripFilter::All
        };
        let (sort, ascending) = if str_equal(self.sortOrder.as_str(), "TimeDescending") {
            (SortColumn::Time, true)
        } else if str_equal(self.sortOrder.as_str(), "TimeAscending") {
            (SortColumn::Time, false)
        } else if str_equal(self.sortOrder.as_str(), "FromAddress") {
            (SortColumn::FromAddres, true)
        } else if str_equal(self.sortOrder.as_str(), "ToAddress") {
            (SortColumn::ToAddres, true)
        } else {
            (SortColumn::Time, true)
        };
        let cutoff = now_secs - 3600;
        let time_bound = if str_equal(self.group.as_str(), "Historical") {
            TimeBound::AtLeast(cutoff)
        } else {
            TimeBound::AtMost(cutoff)
        };
        TripQuery {
            filter,
            sort,
            ascending,
            time_bound,
            offset: self.skip as u64,
            limit: self.take as u64,
        }
    }

    /// The query this request asks now, reading the clock.
    pub fn generate_query(&self) -> (q: TripQuery)
        ensures
            exists|now_secs: i64| 0 <= now_secs <= MAX_TIMESTAMP && q == self.planned_query(now_secs),
    {
        let now = utc_now();
        let q = self.query_at(now.secs);
        proof {
            assert(0 <= now.secs <= MAX_TIMESTAMP && q == self.planned_query(now.secs));
        }
        q
    }
}

/// Nanoseconds in half an hour.
pub open spec fn half_hour_nanos() -> int {
    1_800_000_000_000
}

/// The whole seconds of a span of nanoseconds, rounded towards zero.
pub open spec fn whole_seconds_toward_zero(nanos: int) -> int {
    if nanos >= 0 {
        nanos / 1_000_000_000
    } else {
        -((-nanos) / 1_000_000_000)
    }
}

/// The status a reservation moves to when the clock reads `now`, its
/// departure lies at `departure` and the random draw is `random_ms`, or
/// `None` when it is left alone. Within half an hour of the departure, on
/// either side, the car is on its way when the draw reaches the seconds left
/// until half an hour after the departure (in milliseconds) or when it was on
/// its way already; otherwise it is still being looked for.
pub open spec fn progressed_status(
    now: UtcInstant,
    departure: UtcInstant,
    current: Option<ReservationStatusEnum>,
    random_ms: u32,
) -> Option<ReservationStatusEnum> {
    let elapsed = now.total_nanos() - departure.total_nanos();
    if -half_hour_nanos() < elapsed < half_hour_nanos() {
        let adjusted = 1800 - whole_seconds_toward_zero(elapsed);
        if random_ms >= adjusted * 1000 || current == Some(ReservationStatusEnum::BilPavag) {
            Some(ReservationStatusEnum::BilPavag)
        } else {
            Some(ReservationStatusEnum::LetarEfterBil)
        }
    } else {
        None
    }
}

/// The status change of a reservation whose departure time is read, decided
/// as `progressed_status` decides.
pub fn progress_status(
    now: UtcInstant,
    departure: UtcInstant,
    current: Option<ReservationStatusEnum>,
    random_ms: u32,
) -> (r: Option<ReservationStatusEnum>)
    ensures
        r == progressed_status(now, departure, current, random_ms),
{
    let elapsed: i128 = now.nanos_since_epoch() - departure.nanos_since_epoch();
    if -1_800_000_000_000i128 < elapsed && elapsed < 1_800_000_000_000i128 {
        let secs: i128 = if elapsed >= 0 {
            elapsed / 1_000_000_000i128
        } else {
            -((-elapsed) / 1_000_000_000i128)
        };
        let adjusted: i128 = 1800 - secs;
        if (random_ms as i128) >= adjusted * 1000 || current == Some(
            ReservationStatusEnum::BilPavag,
        ) {
            Some(ReservationStatusEnum::BilPavag)
        } else {
            Some(ReservationStatusEnum::LetarEfterBil)
        }
    } else {
        None
    }
}

impl Departure {
    /// The departure after the simulated progress at `now` with the draw
    /// `random_ms`: unchanged when its time cannot be read or lies more than
    /// half an hour away, otherwise with the progressed status set.
    pub open spec fn progressed(self, now: UtcInstant, random_ms: u32) -> Departure {
        match self.time() {
            Some(t) => match progressed_status(now, t, self.status(), random_ms) {
                Some(st) => self.with_status(ReservationStatus { status: st }),
                None => self,
            },
            None => self,
        }
    }

    /// Plays out how the reservation has progressed when the clock reads `now`.
    pub fn simulate_progress_at(&mut self, now: UtcInstant, random_ms: u32)
        ensures
            *final(self) == old(self).progressed(now, random_ms),
    {
        if let Some(departure_time) = self.get_time() {
            let current = self.get_status();
            if let Some(st) = progress_status(now, departure_time, current, random_ms) {
                self.set_status(ReservationStatus { status: st });
            }
        }
    }
}

impl Trips {
    /// The trip after its departure progressed at `now` with the draw `random_ms`.
    pub open spec fn progressed(self, now: UtcInstant, random_ms: u32) -> Trips {
        Trips { departure: self.departure.progressed(now, random_ms), ..self }
    }
}

/// `after` is `before` progressed with the draw `random_ms` at some reading
/// of the clock.
pub open spec fn progressed_at_some_time(before: Trips, after: Trips, random_ms: u32) -> bool {
    exists|now: UtcInstant| 0 <= now.secs <= MAX_TIMESTAMP && after == before.progressed(now, random_ms)
}

impl TripsRequest {
    /// Plays out the progress of every answered trip, reading the clock for
    /// each; trip `i` uses the draw `random_ms[i]`.
    pub fn simulate_progress(&mut self, random_ms: &Vec<u32>)
        requires
            old(self).customerTransportReservation matches Some(v) ==> v@.len() <= random_ms@.len(),
        ensures
            final(self).group == old(self).group,
            final(self).sortOrder == old(self).sortOrder,
            final(self).filter == old(self).filter,
            final(self).skip == old(self).skip,
            final(self).take == old(self).take,
            final(self).remaining == old(self).remaining,
            old(self).customerTransportReservation is None
                ==> final(self).customerTransportReservation is None,
            old(self).customerTransportReservation matches Some(v)
                ==> (final(self).customerTransportReservation matches Some(w)
                && w@.len() == v@.len()
                && forall|i: int| 0 <= i < v@.len()
                    ==> progressed_at_some_time(v@[i], #[trigger] w@[i], random_ms@[i])),
    {
        let taken = self.customerTransportReservation.take();
        match taken {
            None => {},
            Some(trips) => {
                let mut trips = trips;
                let ghost given = trips@;
                let n = random_ms.len();
                let mut done: Vec<Trips> = Vec::new();
                let mut i: usize = 0;
                while trips.len() > 0
                    invariant
                        given.len() <= n,
                        n == random_ms@.len(),
                        i + trips@.len() == given.len(),
                        done@.len() == i,
                        trips@ == given.subrange(i as int, given.len() as int),
                        forall|k: int| 0 <= k < i
                            ==> progressed_at_some_time(given[k], #[trigger] done@[k], random_ms@[k]),
                    decreases trips@.len(),
                {
                    let mut trip = trips.remove(0);
                    let now = utc_now();
                    trip.departure.simulate_progress_at(now, random_ms[i]);
                    let ghost before = done@;
                    done.push(trip);
                    proof {
                        assert(done@[i as int] == given[i as int].progressed(now, random_ms@[i as int]));
                        assert(progressed_at_some_time(given[i as int], done@[i as int], random_ms@[i as int]));
                        assert forall|k: int| 0 <= k < i + 1 implies
                            progressed_at_some_time(given[k], #[trigger] done@[k], random_ms@[k]) by {
                            if k < i {
                                assert(done@[k] == before[k]);
                            }
                        }
                    }
                    i = i + 1;
                }
                self.customerTransportReservation = Some(done);
            },
        }
    }
}

/// A reservation whose car is on its way keeps that status whatever the
/// clock and the draw.
pub proof fn lemma_on_its_way_is_kept(d: Departure, now: UtcInstant, random_ms: u32)
    requires
        d.status() == Some(ReservationStatusEnum::BilPavag),
    ensures
        d.progressed(now, random_ms).status() == Some(ReservationStatusEnum::BilPavag),
{
}

/// A reservation more than half an hour from its departure is left alone.
pub proof fn lemma_far_departures_untouched(d: Departure, now: UtcInstant, random_ms: u32)
    requires
        d.time() matches Some(t) && (now.total_nanos() - t.total_nanos() >= half_hour_nanos()
            || now.total_nanos() - t.total_nanos() <= -half_hour_nanos()),
    ensures
        d.progressed(now, random_ms) == d,
{
}


/// The order gap the reservation service subtracts from an order's time, in
/// milliseconds.
pub const ORDER_GAP_MILLIS: i64 = 72000i64;

/// The reading of a signed count as an unsigned 64-bit count: negative values
/// wrap around.
pub open spec fn wrapped_u64(x: int) -> int {
    if x >= 0 {
        x
    } else {
        x + 0x1_0000_0000_0000_0000
    }
}

impl OrderRequest {
    /// Whether an order is turned away when the system clock stands
    /// `now_nanos` nanoseconds after the Unix epoch: its time less the order
    /// gap, read as milliseconds (a negative count wraps around), lies after
    /// the present.
    pub open spec fn rejected_at(self, now_nanos: u128) -> bool {
        wrapped_u64(self.time - ORDER_GAP_MILLIS) * 1_000_000 > now_nanos
    }

    pub fn is_rejected_at(&self, now_nanos: u128) -> (r: bool)
        requires
            self.time >= i64::MIN + ORDER_GAP_MILLIS,
        ensures
            r == self.rejected_at(now_nanos),
    {
        let shifted: i64 = self.time - ORDER_GAP_MILLIS;
        let millis: u64 = shifted as u64;
        proof {
            if shifted < 0 {
                assert(shifted < 0 ==> (shifted as u64) as int == shifted + 0x1_0000_0000_0000_0000)
                    by (bit_vector);
            }
        }
        (millis as u128) * 1_000_000u128 > now_nanos
    }
}

/// Whether cancelling a reservation at `trip_time` is refused when the clock
/// reads `now_secs`: the stored time lies before twenty minutes from now
/// (the stored time is compared as it is, with the seconds of the clock).
pub open spec fn removal_refused(trip_time: i64, now_secs: i64) -> bool {
    trip_time < now_secs + 1200
}

/// The cancellation decision at the time `now_secs`, a second chrono can
/// represent twenty minutes before the end of its range.
pub fn removal_conflicts_at(trip_time: i64, now_secs: i64) -> (r: bool)
    requires
        MIN_TIMESTAMP <= now_secs <= MAX_TIMESTAMP - 1200,
    ensures
        r == removal_refused(trip_time, now_secs),
{
    trip_time < now_secs + 1200
}

/// The cancellation decision now, reading the clock. `None` when the clock
/// lies within twenty minutes of the end of chrono's range, where twenty
/// minutes cannot be added.
pub fn removal_conflicts(trip_time: i64) -> (r: Option<bool>)
    ensures
        r matches Some(b) ==> exists|now_secs: i64|
            0 <= now_secs <= MAX_TIMESTAMP - 1200 && b == removal_refused(trip_time, now_secs),
{
    let now = utc_now();
    if now.secs <= MAX_TIMESTAMP - 1200 {
        let b = removal_conflicts_at(trip_time, now.secs);
        proof {
            assert(0 <= now.secs <= MAX_TIMESTAMP - 1200 && b == removal_refused(trip_time, now.secs));
        }
        Some(b)
    } else {
        None
    }
}


/// Reading the status back after setting it gives the status that was set.
pub proof fn lemma_status_after_set(d: Departure, s: ReservationStatus)
    ensures
        d.with_status(s).status() == Some(s.status),
        d.with_status(s).customerInfo.hasReservationStatus == Some(true),
{
}


/// A transport filter keeps the reservations whose stored transport text is
/// the filter's own name; the "Taxi" filter compares with the name a taxi
/// reservation is stored with.
pub proof fn lemma_transport_filter_matches_its_name(name: Seq<char>)
    ensures
        planned_filter(name) matches TripFilter::TransportEquals(t) ==> t.spec_text() == name,
        planned_filter(name) matches TripFilter::TransportEquals(t) ==> (name == "Taxi"@ || name
            == "WheelChairTaxi"@),
        TransportColumnText::Taxi.spec_text() == Transport::taxi.label(),
        planned_filter("Taxi"@) == TripFilter::TransportEquals(TransportColumnText::Taxi),
{
    reveal_strlit("SharedTrip");
    reveal_strlit("NotSharedTrip");
    reveal_strlit("Taxi");
    reveal_strlit("WheelChairTaxi");
    assert("SharedTrip"@.len() != "Taxi"@.len());
    assert("NotSharedTrip"@.len() != "Taxi"@.len());
}

/// The sort a trips request asks: every named order sorts ascending but
/// "TimeAscending", which sorts by time descending; "FromAddress" and
/// "ToAddress" sort by those columns and every other name by time.
pub proof fn lemma_sort_orders(r: TripsRequest, now_secs: i64)
    ensures
        r.planned_query(now_secs).ascending <==> r.sortOrder@ != "TimeAscending"@,
        r.planned_query(now_secs).sort == SortColumn::FromAddres <==> r.sortOrder@ == "FromAddress"@,
        r.planned_query(now_secs).sort == SortColumn::ToAddres <==> r.sortOrder@ == "ToAddress"@,
{
    reveal_strlit("TimeDescending");
    reveal_strlit("TimeAscending");
    reveal_strlit("FromAddress");
    reveal_strlit("ToAddress");
    assert("TimeDescending"@.len() != "TimeAscending"@.len());
    assert("TimeDescending"@.len() != "FromAddress"@.len());
    assert("TimeDescending"@.len() != "ToAddress"@.len());
    assert("TimeAscending"@.len() != "FromAddress"@.len());
    assert("TimeAscending"@.len() != "ToAddress"@.len());
    assert("FromAddress"@.len() != "ToAddress"@.len());
}

/// The time bound and paging of a trips request: "Historical" keeps the
/// reservations at or after an hour before now, every other group those at
/// or before it; the request's skip and take are the offset and limit.
pub proof fn lemma_bound_and_paging(r: TripsRequest, now_secs: i64)
    requires
        MIN_TIMESTAMP + 3600 <= now_secs <= MAX_TIMESTAMP,
    ensures
        r.group@ == "Historical"@ ==> r.planned_query(now_secs).time_bound == TimeBound::AtLeast(
            (now_secs - 3600) as i64,
        ),
        r.group@ != "Historical"@ ==> r.planned_query(now_secs).time_bound == TimeBound::AtMost(
            (now_secs - 3600) as i64,
        ),
        r.skip >= 0 ==> r.planned_query(now_secs).offset == r.skip,
        r.take >= 0 ==> r.planned_query(now_secs).limit == r.take,
{
}

/// Within half an hour of the departure the car is on its way exactly when
/// the draw, in milliseconds, reaches half an hour minus the whole seconds
/// passed since the departure (plus the whole seconds still left before it),
/// or when it was on its way already; otherwise it is being looked for.
pub proof fn lemma_progress_threshold(
    now: UtcInstant,
    departure: UtcInstant,
    current: Option<ReservationStatusEnum>,
    random_ms: u32,
)
    ensures
        ({
            let elapsed = now.total_nanos() - departure.total_nanos();
            let on_way = current == Some(ReservationStatusEnum::BilPavag);
            &&& 0 <= elapsed < 1_800_000_000_000 ==> progressed_status(now, departure, current, random_ms)
                == if random_ms >= (1800 - elapsed / 1_000_000_000) * 1000 || on_way {
                Some(ReservationStatusEnum::BilPavag)
            } else {
                Some(ReservationStatusEnum::LetarEfterBil)
            }
            &&& -1_800_000_000_000 < elapsed < 0 ==> progressed_status(now, departure, current, random_ms)
                == if random_ms >= (1800 + (-elapsed) / 1_000_000_000) * 1000 || on_way {
                Some(ReservationStatusEnum::BilPavag)
            } else {
                Some(ReservationStatusEnum::LetarEfterBil)
            }
            &&& (elapsed >= 1_800_000_000_000 || elapsed <= -1_800_000_000_000) ==> progressed_status(
                now,
                departure,
                current,
                random_ms,
            ) is None
        }),
{
}

/// The later the clock reads, the likelier the car is on its way: a draw
/// that puts it on its way at one time within half an hour of the departure
/// does so at every later time within that half hour.
pub proof fn lemma_progress_monotone(
    earlier: UtcInstant,
    later: UtcInstant,
    departure: UtcInstant,
    current: Option<ReservationStatusEnum>,
    random_ms: u32,
)
    requires
        earlier.total_nanos() <= later.total_nanos(),
        later.total_nanos() - departure.total_nanos() < 1_800_000_000_000,
        progressed_status(earlier, departure, current, random_ms) == Some(ReservationStatusEnum::BilPavag),
    ensures
        progressed_status(later, departure, current, random_ms) == Some(ReservationStatusEnum::BilPavag),
{
    let e1 = earlier.total_nanos() - departure.total_nanos();
    let e2 = later.total_nanos() - departure.total_nanos();
    assert(whole_seconds_toward_zero(e1) <= whole_seconds_toward_zero(e2)) by {
        if e1 >= 0 {
            vstd::arithmetic::div_mod::lemma_div_is_ordered(e1, e2, 1_000_000_000);
        } else if e2 >= 0 {
            assert((-e1) / 1_000_000_000 >= 0) by {
                vstd::arithmetic::div_mod::lemma_div_pos_is_pos(-e1, 1_000_000_000);
            }
            assert(e2 / 1_000_000_000 >= 0) by {
                vstd::arithmetic::div_mod::lemma_div_pos_is_pos(e2, 1_000_000_000);
            }
        } else {
            vstd::arithmetic::div_mod::lemma_div_is_ordered(-e2, -e1, 1_000_000_000);
        }
    }
}


/// A cancellation is refused exactly when the reservation leaves less than
/// twenty minutes (1200 seconds) from now; so a reservation later than an
/// allowed one is allowed too, and one earlier than a refused one is refused.
pub proof fn lemma_removal_window(early: i64, late: i64, now_secs: i64)
    requires
        early <= late,
    ensures
        removal_refused(late, now_secs) <==> late - now_secs < 20 * 60,
        removal_refused(late, now_secs) ==> removal_refused(early, now_secs),
        !removal_refused(early, now_secs) ==> !removal_refused(late, now_secs),
{
}

/// An order whose time, less the 72-second order gap, is not negative is
/// turned away exactly when that time, in nanoseconds, lies after the
/// present; a later present turns away no order an earlier one accepted.
pub proof fn lemma_order_rejection(o: OrderRequest, earlier: u128, later: u128)
    requires
        o.time >= ORDER_GAP_MILLIS,
        earlier <= later,
    ensures
        ORDER_GAP_MILLIS == 72_000,
        o.rejected_at(later) <==> (o.time - 72_000) * 1_000_000 > later,
        o.rejected_at(later) ==> o.rejected_at(earlier),
{
}

} // verus!
