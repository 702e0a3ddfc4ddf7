//! The gateway: its web endpoints' decisions and the clients it talks to.

pub mod records;
pub mod truelayer;
pub mod api;
pub mod webhook;
pub mod pages;
pub mod admin;
