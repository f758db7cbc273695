//! Trip, reservation and notification logic of the Färdtjänst notifier:
//! the shared data model, the reservation server's conversions and
//! query plans, and the decisions of the notification service.
#![allow(non_snake_case)]
#![allow(non_camel_case_types)]

pub mod text;
pub mod labels;
pub mod time;
pub mod model;
pub mod records;
pub mod reservations;
pub mod notification;
pub mod access;
pub mod payload;
pub mod notifier;
pub mod client;
