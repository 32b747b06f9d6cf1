//! Battery threshold alerts: rule evaluation, notification identities and
//! configuration reloading for a battery-watching daemon.
pub mod battery;
pub mod text;
pub mod cfg;
pub mod rules;
pub mod notification;
pub mod tracker;
pub mod poll;
