//! Client-side protocol logic for the iRacing members data service.
//!
//! The service speaks JSON over HTTPS. This crate holds everything the client
//! decides: how a login reply is classified, how an authentication failure is
//! named, how a query is written as wire parameters, and how the two-step
//! fetch through a short-lived link proceeds. Sending and receiving bytes is
//! left to the caller, who drives these decisions with the replies it gets.

pub mod auth;
pub mod client;
pub mod fetch;
pub mod json;
pub mod model;
pub mod text;

pub use client::IracingApiClient;
