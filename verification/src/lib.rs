//! Memos: records with a title, an optional description, a due date and a
//! completion flag, and the service that creates, reads, updates, patches,
//! toggles, deletes and lists them.
//!
//! Every operation is a short conversation with a store ([`flow`]): the
//! request is checked against the rules ([`validation`]), defaults are applied
//! and partial updates merged ([`dto`]), the store is asked one or two
//! questions, and each reply decides what comes next, down to telling a
//! missing memo from a failure of the store ([`error`]).
//!
//! The service ([`services`]) holds these conversations with a table of memos
//! that is kept in memory ([`store`]), through a repository of typed
//! operations ([`repository`]). Each operation of the table has an exact
//! contract; what a listing holds, and in which order, is defined in
//! [`query`]. [`laws`] states what follows for every table.
//!
//! A program that keeps its memos elsewhere holds the same conversations: it
//! takes each step from [`flow`] and puts the questions to its own store.
//!
//! Every function is verified against its contract, but for a few that call
//! other crates or the standard library where no contract is known for it;
//! each of those says in its documentation what is taken on trust.

pub mod clock;
pub mod config;
pub mod dto;
pub mod error;
pub mod flow;
pub mod forms;
pub mod headers;
pub mod health;
pub mod ident;
pub mod laws;
pub mod memo;
pub mod number;
pub mod query;
pub mod repository;
pub mod sanitize;
pub mod services;
pub mod store;
pub mod text;
pub mod validation;
