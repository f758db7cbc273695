use vstd::prelude::*;

verus! {

/// A customer as the user table holds it.
#[derive(Clone, Debug)]
pub struct UserRecord {
    pub id: i32,
    pub name: String,
    pub password: String,
    pub card_nummer: i32,
    pub phone_number: String,
}

/// A reservation as the reservation table holds it. `time` counts
/// milliseconds since the Unix epoch.
#[derive(Clone, Debug)]
pub struct TripRecord {
    pub id: i32,
    pub to_addres: String,
    pub from_addres: String,
    pub by_addres: Option<String>,
    pub user_id: Option<i32>,
    pub time: i64,
    pub passagers: i32,
    pub child_passagers: i32,
    pub is_shared: bool,
    pub can_be_new_trip_template: bool,
    pub transport: String,
    pub from_id: i32,
    pub by_id: Option<i32>,
    pub to_id: i32,
    pub cancelleable: bool,
    pub company_name: Option<String>,
    pub status: Option<String>,
}

/// A trip as a customer orders it from the reservation service.
#[derive(Clone, Debug)]
pub struct OrderRequest {
    pub id: i32,
    pub to_addres: String,
    pub from_addres: String,
    pub user_id: Option<i32>,
    pub time: i64,
    pub passagers: i32,
    pub child_passagers: i32,
    pub transport: String,
    pub from_id: i32,
    pub to_id: i32,
}

/// A push subscription of a customer.
#[derive(Clone, Debug)]
pub struct NotificationInfoRecord {
    pub id: i32,
    pub UserId: i32,
    pub endpoint: String,
    pub p256dh: String,
    pub auth: String,
}

/// The credentials the notification service logs in to the reservation
/// service with.
#[derive(Clone, Debug, Default)]
pub struct AuthUser {
    pub username: i32,
    pub password: String,
}

impl UserRecord {
    /// The customer's card number and stored password.
    pub fn into_auth_user(&self) -> (r: AuthUser)
        ensures
            r.username == self.card_nummer,
            r.password == self.password,
    {
        AuthUser { username: self.card_nummer, password: self.password.clone() }
    }
}

impl TripRecord {
    /// The reservation stored for an ordered trip: it belongs to the ordering
    /// customer, passes no third address, is neither shared nor carried out
    /// by a named company, carries no status, and can be cancelled and used
    /// as a template.
    pub fn from_order(order: OrderRequest, user_id: i32) -> (r: TripRecord)
        ensures
            r.id == order.id,
            r.to_addres == order.to_addres,
            r.from_addres == order.from_addres,
            r.by_addres is None,
            r.user_id == Some(user_id),
            r.time == order.time,
            r.passagers == order.passagers,
            r.child_passagers == order.child_passagers,
            !r.is_shared,
            r.can_be_new_trip_template,
            r.cancelleable,
            r.transport == order.transport,
            r.by_id is None,
            r.from_id == order.from_id,
            r.to_id == order.to_id,
            r.company_name is None,
            r.status is None,
    {
        TripRecord {
            id: order.id,
            to_addres: order.to_addres,
            from_addres: order.from_addres,
            by_addres: None,
            user_id: Some(user_id),
            time: order.time,
            passagers: order.passagers,
            child_passagers: order.child_passagers,
            is_shared: false,
            can_be_new_trip_template: true,
            cancelleable: true,
            transport: order.transport,
            by_id: None,
            from_id: order.from_id,
            to_id: order.to_id,
            company_name: None,
            status: None,
        }
    }
}


/// The keys of a browser's push subscription.
#[derive(Clone, Debug)]
pub struct SubscriptionKeys {
    pub endpoint: String,
    pub p256dh: String,
    pub auth: String,
}

/// A push subscription together with the customer it belongs to.
#[derive(Clone, Debug)]
pub struct LinkedSubscriptionInfo {
    pub subscription_info: SubscriptionKeys,
    pub user: UserRecord,
}

/// The columns stored for a new push subscription; the table picks its id.
#[derive(Clone, Debug)]
pub struct NewNotificationInfo {
    pub UserId: i32,
    pub endpoint: String,
    pub p256dh: String,
    pub auth: String,
}

impl LinkedSubscriptionInfo {
    pub fn new(user: UserRecord, subscription_info: SubscriptionKeys) -> (r: Self)
        ensures
            r.user == user,
            r.subscription_info == subscription_info,
    {
        Self { subscription_info, user }
    }

    /// The row stored for the subscription: the customer's id and the keys.
    pub fn into_new_row(self) -> (r: NewNotificationInfo)
        ensures
            r.UserId == self.user.id,
            r.endpoint == self.subscription_info.endpoint,
            r.p256dh == self.subscription_info.p256dh,
            r.auth == self.subscription_info.auth,
    {
        NewNotificationInfo {
            UserId: self.user.id,
            endpoint: self.subscription_info.endpoint,
            auth: self.subscription_info.auth,
            p256dh: self.subscription_info.p256dh,
        }
    }
}

impl NotificationInfoRecord {
    /// The subscription keys of a stored push subscription.
    pub fn keys(&self) -> (r: SubscriptionKeys)
        ensures
            r.endpoint == self.endpoint,
            r.p256dh == self.p256dh,
            r.auth == self.auth,
    {
        SubscriptionKeys {
            endpoint: self.endpoint.clone(),
            p256dh: self.p256dh.clone(),
            auth: self.auth.clone(),
        }
    }
}

} // verus!
