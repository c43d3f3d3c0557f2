//! Verified core of a community content backend: users, posts, comments and
//! like counters, kept in a relational store and served over a JSON/HTTP
//! interface.
//!
//! The crate holds what the backend decides; a server around it does the
//! talking. It is laid out in three layers.
//!
//! * [`statement`] and [`store`]: the statements that the backend issues,
//!   each with its text and the values bound to it, and what each of them
//!   means on a store, stated over a mathematical value of the store and
//!   carried out by an in-memory [`store::Database`].
//! * [`user`], [`post`], [`comment`] and [`likes`]: the entities, the
//!   operations on them and the handler of each route, written straight
//!   against a store, with [`http`] for the route table and the shape of a
//!   response and [`failure`] for what can go wrong.
//! * [`exchange`]: the same handlers cut at every point where they need the
//!   store, for a server whose store lives elsewhere. Driving them against a
//!   store is proved to do what the handlers do.
//!
//! [`config`] reads the configuration out of the environment's variables,
//! [`text`] holds the parsing of identifiers, and [`laws`] states what holds
//! of the backend whatever it stores.

pub mod comment;
pub mod config;
pub mod exchange;
pub mod failure;
pub mod http;
pub mod laws;
pub mod likes;
pub mod post;
pub mod statement;
pub mod store;
pub mod text;
pub mod user;
