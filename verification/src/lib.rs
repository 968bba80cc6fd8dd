//! Streams of signed messages: an append-only log of fixed-size records,
//! addressed by an 8-byte identifier.
//!
//! [`fixed`] holds byte strings of a fixed length and their text form,
//! [`order`] their equality and order, [`encoding`] the text form itself
//! and [`schema`] what a schema says of it. [`model`] and [`db`] hold a
//! message and its stored form, [`store`] a log in memory, and [`web`]
//! what the service says at its text boundary.

pub mod db;
pub mod encoding;
pub mod fixed;
pub mod model;
pub mod order;
pub mod schema;
pub mod store;
pub mod web;
