//! Weathema: a verified core for a polling weather dashboard.
//!
//! The crate models the polling-and-fan-out pipeline of a terminal weather
//! application: resolving a free-text place name to a location identifier,
//! fetching a multi-day forecast for that identifier, a long-lived poll loop
//! that reacts to user input and a timer while never running two refreshes at
//! once, and a dispatcher that fans each refresh outcome out to independent
//! display sinks.
//!
//! All control flow and data transformation is verified here. Network
//! transport, JSON decoding and terminal rendering are collaborators that
//! live outside the library and exchange plain values with it.

pub mod client;
pub mod components;
pub mod dispatch;
pub mod poll;
