//! Query construction and result handling for single-table CRUD operations
//! against a relational store.
//!
//! The library never talks to a database itself. An operation is split at
//! the point where the client is called: one function says which statement
//! to send, and another says what to make of the client's reply.

pub mod crud_helper;
pub mod crudy_error;
pub mod data_error;
pub mod identifier;
pub mod sql;
pub mod statement;
