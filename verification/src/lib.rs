//! Verified core of an uptime monitor: the data model, the decisions of the
//! check loop, the notification texts and the request-level rules of the web
//! front end. The program around it (HTTP server, database, timers, network
//! probes) lives in `app/` and hands this library plain values.

pub mod api;
pub mod auth;
pub mod config;
pub mod db;
pub mod json;
pub mod monitor;
pub mod notification;
pub mod text;
