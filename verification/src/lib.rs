//! Verified core of a desktop companion for a game client.
//!
//! The library decides two things and leaves every effect to its owner.
//!
//! * Which process is the one running instance, and what that instance does
//!   with the launches that follow: [`coordinator`] holds the rules of one
//!   process, [`activation`] what a launch carries, and [`session`] the proof
//!   that of all launches exactly one runs on.
//! * Where the game client's logs are: [`discovery`] is the engine that asks
//!   the host one question at a time, in the words of [`protocol`]; [`search`]
//!   drives it against the host's functions, and [`host`] proves that the
//!   outcome is the yield of the first strategy that yields anything.
//!   [`strategy`], [`tier`] and [`location`] hold the places that are looked at.
//!
//! Contracts speak of values through their views; [`views`] holds the one
//! helper they share.

pub mod activation;
pub mod coordinator;
pub mod discovery;
pub mod greeting;
pub mod host;
pub mod location;
pub mod protocol;
pub mod search;
pub mod session;
pub mod strategy;
pub mod tier;
pub mod views;
