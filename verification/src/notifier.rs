//! The notification service: its login data, its background schedule, and
//! the decisions of its watchers that tell a customer when the car is on its
//! way or when an order could not be placed.
use vstd::prelude::*;
use crate::labels::ReservationStatusEnum;
use crate::model::{Trips, TripsRequest};
use crate::notification::Notification;
use crate::records::UserRecord;
use crate::text::{i64_to_decimal, int_decimal, owned};
use crate::time::{UtcInstant, MAX_TIMESTAMP, MIN_TIMESTAMP, utc_now};

verus! {

/// A customer of the notification service and the credentials it logs in
/// to the reservation service with.
#[derive(Clone, Debug, Default)]
pub struct User {
    pub id: i32,
    pub username: i32,
    pub password: String,
}

/// Values that carry a customer of the notification service.
pub trait IntoUser: Sized {
    fn into_user(self) -> User;
}

impl IntoUser for User {
    fn into_user(self) -> (r: User)
        ensures
            r == self,
    {
        User { id: self.id, password: self.password, username: self.username }
    }
}

impl<'a> IntoUser for &'a UserRecord {
    /// The stored customer, logging in with its card number and password.
    fn into_user(self) -> (r: User)
        ensures
            r.id == self.id,
            r.username == self.card_nummer,
            r.password == self.password,
    {
        User { id: self.id, username: self.card_nummer, password: self.password.clone() }
    }
}

/// Why a request to the reservation service could not be made.
#[derive(Clone, Copy, Debug, PartialEq, Eq, Structural)]
pub enum RequestError {
    Reqwest,
    SerdeJson,
    Header,
}

impl RequestError {
    /// The status answered for a failed request: 503 when the service could
    /// not be reached or the credentials not encoded, 502 when it answered
    /// without a session header.
    pub fn status_code(&self) -> (r: u16)
        ensures
            r == match self {
                RequestError::Reqwest => 503u16,
                RequestError::SerdeJson => 503u16,
                RequestError::Header => 502u16,
            },
    {
        match self {
            RequestError::Reqwest => 503,
            RequestError::SerdeJson => 503,
            RequestError::Header => 502,
        }
    }
}

/// A failure of a background task.
#[derive(Clone, Debug)]
pub struct BackgroundTaskError {
    pub msg: String,
}

impl BackgroundTaskError {
    pub fn new(msg: String) -> (r: Self)
        ensures
            r.msg == msg,
    {
        Self { msg }
    }

    /// The failure to read a header as text, described by `detail`.
    pub fn from_header_text(detail: String) -> (r: Self)
        ensures
            r.msg == detail,
    {
        Self { msg: detail }
    }

    /// A failure of JSON encoding or decoding, described by `detail`.
    pub fn from_serde_json(detail: &str) -> (r: Self)
        ensures
            r.msg@ == "serde_json error: "@ + detail@,
    {
        let mut msg = owned("serde_json error: ");
        msg.append(detail);
        Self { msg }
    }

    /// A failure of an HTTP request, described by `detail`.
    pub fn from_reqwest(detail: &str) -> (r: Self)
        ensures
            r.msg@ == "reqwest error: "@ + detail@,
    {
        let mut msg = owned("reqwest error: ");
        msg.append(detail);
        Self { msg }
    }
}

/// The part of a cookie header before its first `;`: the session cookie.
pub fn session_cookie(header: &str) -> (r: String)
    ensures
        r@.len() <= header@.len(),
        r@ == header@.take(r@.len() as int),
        !r@.contains(';'),
        r@.len() == header@.len() || header@[r@.len() as int] == ';',
{
    let n = header.unicode_len();
    let mut i: usize = 0;
    while i < n
        invariant
            n == header@.len(),
            0 <= i <= n,
            forall|j: int| 0 <= j < i ==> header@[j] != ';',
        ensures
            i == n || header@[i as int] == ';',
        decreases n - i,
    {
        if header.get_char(i) == ';' {
            break;
        }
        i = i + 1;
    }
    let r = owned(header.substring_char(0, i));
    proof {
        assert(r@ == header@.subrange(0, i as int));
        assert(r@ == header@.take(r@.len() as int));
        assert forall|j: int| 0 <= j < r@.len() implies r@[j] != ';' by {
            assert(r@[j] == header@[j]);
        }
    }
    r
}

/// How often the background loop wakes, and after how many wake-ups it
/// looks at the customers again.
#[derive(Clone, Copy, Debug, PartialEq, Eq, Structural)]
pub struct Schedule {
    pub sleep_secs: u64,
    pub maxloops: u64,
}

impl Schedule {
    /// The schedule that wakes every `sleep_secs` seconds and looks at the
    /// customers once per `window_secs` seconds.
    pub fn every(sleep_secs: u64, window_secs: u64) -> (r: Schedule)
        requires
            sleep_secs > 0,
        ensures
            r.sleep_secs == sleep_secs,
            r.maxloops == window_secs / sleep_secs,
    {
        Schedule { sleep_secs, maxloops: window_secs / sleep_secs }
    }

    /// The service's schedule: wake every ten seconds, look at the
    /// customers once per half hour.
    pub fn standard() -> (r: Schedule)
        ensures
            r.sleep_secs == 10,
            r.maxloops == 180,
    {
        Self::every(10, 30 * 60)
    }

    /// One wake-up of the background loop: the counter moves on modulo
    /// `maxloops`, and the customers are looked at when it reaches 1.
    pub fn tick(&self, counter: &mut u64) -> (r: bool)
        requires
            self.maxloops > 0,
            *old(counter) < self.maxloops,
        ensures
            *final(counter) == (*old(counter) + 1) % (self.maxloops as int),
            *final(counter) < self.maxloops,
            r == (*final(counter) == 1),
    {
        *counter = (*counter + 1) % self.maxloops;
        *counter == 1
    }
}

/// The counter after `k` wake-ups from `c`.
pub open spec fn counter_after(c: int, k: int, m: int) -> int {
    (c + k) % m
}

/// Over any `maxloops` consecutive wake-ups (at least two per period) the
/// customers are looked at exactly once.
pub proof fn lemma_looks_once_per_period(c: int, m: int)
    requires
        m >= 2,
        0 <= c < m,
    ensures
        exists|j: int| 1 <= j <= m && #[trigger] counter_after(c, j, m) == 1,
        forall|j: int, k: int|
            1 <= j <= m && 1 <= k <= m && #[trigger] counter_after(c, j, m) == 1
                && #[trigger] counter_after(c, k, m) == 1 ==> j == k,
{
    let w = if c == 0 {
        1
    } else if c == 1 {
        m
    } else {
        m + 1 - c
    };
    assert(counter_after(c, w, m) == 1) by {
        if c == 0 {
            assert(1int % m == 1) by (nonlinear_arith)
                requires
                    m >= 2,
            ;
        } else {
            assert((m + 1) % m == 1) by (nonlinear_arith)
                requires
                    m >= 2,
            ;
        }
    }
    assert forall|j: int, k: int|
        1 <= j <= m && 1 <= k <= m && #[trigger] counter_after(c, j, m) == 1
            && #[trigger] counter_after(c, k, m) == 1 implies j == k by {
        lemma_one_mod_in_two_periods(c + j, m);
        lemma_one_mod_in_two_periods(c + k, m);
    }
}

proof fn lemma_one_mod_in_two_periods(x: int, m: int)
    requires
        m >= 2,
        1 <= x < 2 * m,
    ensures
        x % m == 1 ==> (x == 1 || x == m + 1),
{
    if x < m {
        assert(x % m == x) by (nonlinear_arith)
            requires
                0 <= x < m,
        ;
    } else {
        assert(x % m == x - m) by (nonlinear_arith)
            requires
                m <= x < 2 * m,
        ;
    }
}


/// The title of every notification the service sends.
pub open spec fn notifier_title() -> Seq<char> {
    "Färdtjänst Notifier"@
}

/// The icon and badge of every notification the service sends.
pub open spec fn notifier_icon() -> Seq<char> {
    "https://fardtjansten.regionstockholm.se/Resources/img/ft_icon_iPad.png"@
}

/// A notification with the service's title, icon and badge and the given
/// body, and nothing else set.
pub open spec fn is_service_notification(n: Notification, body: Seq<char>) -> bool {
    &&& n.title@ == notifier_title()
    &&& n.options.icon matches Some(i) && i@ == notifier_icon()
    &&& n.options.badge matches Some(b) && b@ == notifier_icon()
    &&& n.options.body matches Some(t) && t@ == body
    &&& n.options.image is None
    &&& n.options.timestamp is None
    &&& n.options.tag is None
    &&& n.options.data is None
    &&& n.options.vibrate is None
    &&& n.options.renotify is None
    &&& n.options.action is None
}

fn service_notification(body: String) -> (n: Notification)
    ensures
        is_service_notification(n, body@),
{
    proof {
        reveal_strlit("Färdtjänst Notifier");
        reveal_strlit("https://fardtjansten.regionstockholm.se/Resources/img/ft_icon_iPad.png");
    }
    Notification::new(owned("Färdtjänst Notifier"))
        .add_icon(owned("https://fardtjansten.regionstockholm.se/Resources/img/ft_icon_iPad.png"))
        .add_badge(owned("https://fardtjansten.regionstockholm.se/Resources/img/ft_icon_iPad.png"))
        .add_body(body)
}

/// Which look at a trip the watcher takes: the first, once the time elapsed
/// since the departure less five minutes has been slept, or a later one a
/// minute after the previous.
#[derive(Clone, Copy, Debug, PartialEq, Eq, Structural)]
pub enum CheckPhase {
    FirstLook,
    LookAgain,
}

/// The words that mark a shared trip in the on-its-way message.
pub open spec fn shared_note(phase: CheckPhase) -> Seq<char> {
    match phase {
        CheckPhase::FirstLook => " och är delad"@,
        CheckPhase::LookAgain => " och är samåkning"@,
    }
}

/// The on-its-way message for a trip.
pub open spec fn on_its_way_body(trip: Trips, phase: CheckPhase) -> Seq<char> {
    "Resa från "@ + trip.from.address@ + " till "@ + trip.to.address@ + " är påväg "@ + (
    if trip.isShared {
        shared_note(phase)
    } else {
        Seq::<char>::empty()
    })
}

/// What the watcher does after fetching the customer's trips again.
#[derive(Clone, Debug)]
pub enum CheckStep {
    /// The trip is gone: stop watching it.
    GiveUp,
    /// The car is on its way: send this notification to the customer.
    Notify(Notification),
    /// The car is not on its way yet: look again `SECONDS_BETWEEN_LOOKS`
    /// seconds later.
    LookAgain,
}

/// `i` is the first position of a trip with the given id.
pub open spec fn first_with_id(trips: Seq<Trips>, id: Seq<char>, i: int) -> bool {
    &&& 0 <= i < trips.len()
    &&& trips[i].id@ == id
    &&& forall|k: int| 0 <= k < i ==> (#[trigger] trips[k]).id@ != id
}

/// Nanoseconds in five minutes.
pub open spec fn five_minutes_nanos() -> int {
    300_000_000_000
}

/// Nanoseconds in half an hour.
pub open spec fn half_hour_nanos() -> int {
    1_800_000_000_000
}

/// The departure time of a trip when it lies within the next half hour of
/// `now` (both ends included).
pub open spec fn watched_time(trip: Trips, now: UtcInstant) -> Option<UtcInstant> {
    match trip.departure.time() {
        Some(t) => if now.total_nanos() <= t.total_nanos() <= now.total_nanos() + half_hour_nanos() {
            Some(t)
        } else {
            None
        },
        None => None,
    }
}

/// How many failed attempts an order gets before the customer is told.
pub const MAX_TRIES: usize = 10usize;

/// How long the service waits, in seconds, before it tries a failed order
/// again.
pub const SECONDS_BETWEEN_TRIES: u64 = 60u64;

/// How long a watcher waits, in seconds, before it looks again at a trip
/// whose car is not on its way yet.
pub const SECONDS_BETWEEN_LOOKS: u64 = 60u64;

/// What happens after an attempt to place an order failed.
#[derive(Clone, Debug)]
pub enum OrderStep {
    /// Try again `SECONDS_BETWEEN_TRIES` seconds later, with this count of
    /// failed attempts.
    Retry(usize),
    /// Stop and send this notification.
    GiveUp(Notification),
}

/// The message sent when an order could not be placed.
pub open spec fn order_failed_body() -> Seq<char> {
    "Kunde inte beställa färdtjänst resa"@
}

/// Decides after the failed attempt number `tries` (counting from 0): try
/// again while no more than `MAX_TRIES` attempts failed before, then give up.
pub fn order_failed_step(tries: usize) -> (r: OrderStep)
    requires
        tries < usize::MAX,
    ensures
        tries <= MAX_TRIES ==> r == OrderStep::Retry((tries + 1) as usize),
        tries > MAX_TRIES ==> (r matches OrderStep::GiveUp(n) && is_service_notification(n, order_failed_body())),
{
    if tries > MAX_TRIES {
        OrderStep::GiveUp(service_notification(owned("Kunde inte beställa färdtjänst resa")))
    } else {
        OrderStep::Retry(tries + 1)
    }
}

/// The number of attempts made from failed attempt `tries` on when every
/// attempt fails.
pub open spec fn attempts_until_giving_up(tries: nat) -> nat
    decreases (MAX_TRIES + 1) - tries,
{
    if tries > MAX_TRIES {
        1
    } else {
        1 + attempts_until_giving_up(tries + 1)
    }
}

/// An order that keeps failing is attempted twelve times before the
/// customer is told.
pub proof fn lemma_order_attempts_are_bounded()
    ensures
        attempts_until_giving_up(0) == 12,
{
    reveal_with_fuel(attempts_until_giving_up, 13);
}

/// The message sent when an order was placed.
pub open spec fn order_placed_body(from: Seq<char>, to: Seq<char>, time: i64) -> Seq<char> {
    "Resa bestäld från "@ + from + " till "@ + to + ", kl: "@ + int_decimal(time as int)
}

/// The notification that an order was placed: from where, to where, and at
/// which time.
pub fn order_placed_notification(from: &str, to: &str, time: i64) -> (n: Notification)
    ensures
        is_service_notification(n, order_placed_body(from@, to@, time)),
{
    let mut body = owned("Resa bestäld från ");
    body.append(from);
    body.append(" till ");
    body.append(to);
    body.append(", kl: ");
    let t = i64_to_decimal(time);
    body.append(t.as_str());
    service_notification(body)
}

/// The watcher that follows a trip until its car is on its way: its first
/// look comes after sleeping the time elapsed since the departure less five
/// minutes, the later ones a minute apart.
#[derive(Clone, Copy, Debug)]
pub struct NotificationActor {}

impl NotificationActor {
    /// The notification that the car of a trip is on its way.
    pub fn on_its_way_notification(trip: &Trips, phase: CheckPhase) -> (n: Notification)
        ensures
            is_service_notification(n, on_its_way_body(*trip, phase)),
    {
        let mut body = owned("Resa från ");
        body.append(trip.from.address.as_str());
        body.append(" till ");
        body.append(trip.to.address.as_str());
        body.append(" är påväg ");
        if trip.isShared {
            match phase {
                CheckPhase::FirstLook => body.append(" och är delad"),
                CheckPhase::LookAgain => body.append(" och är samåkning"),
            }
        } else {
            proof {
                assert(body@ + Seq::<char>::empty() == body@);
            }
        }
        service_notification(body)
    }

    /// Decides what the watcher of trip `trip_id` does with the trips fetched
    /// for the customer: give up when no trips came back or the trip is not
    /// among them, notify when its car is on its way, and look again otherwise.
    pub fn next_check_step(phase: CheckPhase, trip_id: &String, fetched: &TripsRequest) -> (r: CheckStep)
        ensures
            match fetched.customerTransportReservation {
                None => r is GiveUp,
                Some(v) => {
                    &&& (forall|k: int| 0 <= k < v@.len() ==> (#[trigger] v@[k]).id@ != trip_id@) ==> r is GiveUp
                    &&& forall|i: int| #[trigger] first_with_id(v@, trip_id@, i) ==> {
                        if v@[i].departure.status() == Some(ReservationStatusEnum::BilPavag) {
                            r matches CheckStep::Notify(n) && is_service_notification(n, on_its_way_body(v@[i], phase))
                        } else {
                            r is LookAgain
                        }
                    }
                },
            },
    {
        match fetched.customerTransportReservation.as_ref() {
            None => CheckStep::GiveUp,
            Some(trips) => {
                let mut i: usize = 0;
                while i < trips.len()
                    invariant
                        fetched.customerTransportReservation is Some,
                        fetched.customerTransportReservation->0 == *trips,
                        0 <= i <= trips@.len(),
                        forall|k: int| 0 <= k < i ==> (#[trigger] trips@[k]).id@ != trip_id@,
                    decreases trips@.len() - i,
                {
                    if trips[i].id == *trip_id {
                        let current = &trips[i];
                        proof {
                            assert(first_with_id(trips@, trip_id@, i as int));
                            assert forall|j: int| #[trigger] first_with_id(trips@, trip_id@, j) implies j == i by {
                                if j < i {
                                    assert(trips@[j].id@ != trip_id@);
                                } else if j > i {
                                    assert(trips@[i as int].id@ != trip_id@);
                                }
                            }
                        }
                        let on_its_way = match current.departure.get_status() {
                            Some(ReservationStatusEnum::BilPavag) => true,
                            _ => false,
                        };
                        if on_its_way {
                            let n = Self::on_its_way_notification(current, phase);
                            return CheckStep::Notify(n);
                        } else {
                            return CheckStep::LookAgain;
                        }
                    }
                    i = i + 1;
                }
                proof {
                    assert forall|j: int| #[trigger] first_with_id(trips@, trip_id@, j) implies false by {
                        assert(trips@[j].id@ != trip_id@);
                    }
                }
                CheckStep::GiveUp
            },
        }
    }

    /// How long the watcher sleeps before its first look: the time elapsed since
    /// the departure less five minutes.
    pub fn first_check_delay_nanos(now: UtcInstant, departure: UtcInstant) -> (r: u128)
        requires
            now.total_nanos() - departure.total_nanos() >= five_minutes_nanos(),
        ensures
            r == now.total_nanos() - departure.total_nanos() - five_minutes_nanos(),
    {
        let elapsed = now.nanos_since_epoch() - departure.nanos_since_epoch();
        (elapsed - 300_000_000_000i128) as u128
    }

    /// Whether a customer has a push subscription among `infos`.
    pub fn has_subscription(infos: &Vec<crate::records::NotificationInfoRecord>, user_id: i32) -> (r: bool)
        ensures
            r == exists|i: int| 0 <= i < infos@.len() && (#[trigger] infos@[i]).UserId == user_id,
    {
        let mut i: usize = 0;
        while i < infos.len()
            invariant
                0 <= i <= infos@.len(),
                forall|k: int| 0 <= k < i ==> (#[trigger] infos@[k]).UserId != user_id,
            decreases infos@.len() - i,
        {
            if infos[i].UserId == user_id {
                return true;
            }
            i = i + 1;
        }
        false
    }

}

/// The watcher that looks at a customer's trips every half hour.
#[derive(Clone, Copy, Debug)]
pub struct UserActor {}

/// `w` marks, for each trip, its departure time when it departs within the
/// next half hour of `now`.
pub open spec fn marks_watched(trips: Seq<Trips>, w: Seq<Option<UtcInstant>>, now: UtcInstant) -> bool {
    &&& w.len() == trips.len()
    &&& forall|i: int| 0 <= i < trips.len() ==> #[trigger] w[i] == watched_time(trips[i], now)
}

impl UserActor {
    /// For each trip, its departure time when the watcher should follow it: when
    /// it departs within the next half hour of `now`, a time chrono can
    /// represent half an hour before the end of its range.
    pub fn watch_times_at(trips: &Vec<Trips>, now: UtcInstant) -> (r: Vec<Option<UtcInstant>>)
        requires
            MIN_TIMESTAMP <= now.secs <= MAX_TIMESTAMP - 1800,
        ensures
            r@.len() == trips@.len(),
            forall|i: int| 0 <= i < trips@.len() ==> #[trigger] r@[i] == watched_time(trips@[i], now),
    {
        let start = now.nanos_since_epoch();
        let end = start + 1_800_000_000_000i128;
        let mut r: Vec<Option<UtcInstant>> = Vec::new();
        let mut i: usize = 0;
        while i < trips.len()
            invariant
                0 <= i <= trips@.len(),
                r@.len() == i,
                start == now.total_nanos(),
                end == now.total_nanos() + half_hour_nanos(),
                forall|k: int| 0 <= k < i ==> #[trigger] r@[k] == watched_time(trips@[k], now),
            decreases trips@.len() - i,
        {
            let w = match trips[i].departure.get_time() {
                Some(t) => {
                    let at = t.nanos_since_epoch();
                    if start <= at && at <= end {
                        Some(t)
                    } else {
                        None
                    }
                },
                None => None,
            };
            r.push(w);
            i = i + 1;
        }
        r
    }

    /// The trips to watch now, reading the clock; `None` when the clock lies
    /// within half an hour of the end of chrono's range, where half an hour
    /// cannot be added.
    pub fn watch_times(trips: &Vec<Trips>) -> (r: Option<Vec<Option<UtcInstant>>>)
        ensures
            r is Some ==> exists|now: UtcInstant|
                0 <= now.secs <= MAX_TIMESTAMP - 1800 && #[trigger] marks_watched(trips@, r->0@, now),
    {
        let now = utc_now();
        if now.secs <= MAX_TIMESTAMP - 1800 {
            let w = Self::watch_times_at(trips, now);
            proof {
                assert(0 <= now.secs <= MAX_TIMESTAMP - 1800 && marks_watched(trips@, w@, now));
            }
            let res = Some(w);
            proof {
                assert(marks_watched(trips@, res->0@, now));
            }
            res
        } else {
            None
        }
    }

}


/// What the on-its-way notification says: "Resa från <from> till <to> är
/// påväg " and, only for a shared trip, a note that it is shared. For a trip
/// that is not shared the text is the same on every look.
pub proof fn lemma_on_its_way_text(trip: Trips, phase: CheckPhase, other: CheckPhase)
    ensures
        !trip.isShared ==> on_its_way_body(trip, phase) == "Resa från "@ + trip.from.address@ + " till "@
            + trip.to.address@ + " är påväg "@,
        !trip.isShared ==> on_its_way_body(trip, phase) == on_its_way_body(trip, other),
        trip.isShared ==> on_its_way_body(trip, phase).len() > ("Resa från "@ + trip.from.address@
            + " till "@ + trip.to.address@ + " är påväg "@).len(),
        on_its_way_body(trip, phase).subrange(0, ("Resa från "@ + trip.from.address@ + " till "@
            + trip.to.address@ + " är påväg "@).len() as int) == "Resa från "@ + trip.from.address@
            + " till "@ + trip.to.address@ + " är påväg "@,
        trip.isShared ==> on_its_way_body(trip, CheckPhase::FirstLook) == "Resa från "@ + trip.from.address@
            + " till "@ + trip.to.address@ + " är påväg "@ + " och är delad"@,
        trip.isShared ==> on_its_way_body(trip, CheckPhase::LookAgain) == "Resa från "@ + trip.from.address@
            + " till "@ + trip.to.address@ + " är påväg "@ + " och är samåkning"@,
{
    let head = "Resa från "@ + trip.from.address@ + " till "@ + trip.to.address@ + " är påväg "@;
    if trip.isShared {
        reveal_strlit(" och är delad");
        reveal_strlit(" och är samåkning");
        assert(on_its_way_body(trip, phase).subrange(0, head.len() as int) =~= head);
    } else {
        assert(head + Seq::<char>::empty() =~= head);
        assert(on_its_way_body(trip, phase).subrange(0, head.len() as int) =~= head);
    }
}

/// The service's notifications carry the service's title and icon.
pub proof fn lemma_service_notification_header(n: Notification, body: Seq<char>)
    requires
        is_service_notification(n, body),
    ensures
        n.title@ == "Färdtjänst Notifier"@,
        n.options.icon matches Some(i) && i@ == "https://fardtjansten.regionstockholm.se/Resources/img/ft_icon_iPad.png"@,
        n.options.badge matches Some(b) && b@ == "https://fardtjansten.regionstockholm.se/Resources/img/ft_icon_iPad.png"@,
        n.options.body matches Some(t) && t@ == body,
{
}


/// What the order notifications say: a placed order names its from and to
/// addresses and its time in decimal, and an order given up on says that the
/// trip could not be ordered; an order is given up on after more than ten
/// failed attempts.
pub proof fn lemma_order_texts(from: Seq<char>, to: Seq<char>, time: i64)
    ensures
        order_placed_body(from, to, time) == "Resa bestäld från "@ + from + " till "@ + to + ", kl: "@
            + int_decimal(time as int),
        order_failed_body() == "Kunde inte beställa färdtjänst resa"@,
        MAX_TRIES == 10,
{
}

} // verus!
