//! Persistence and authentication layer of a course-feedback application:
//! the records it stores, the statements it sends to the relational store,
//! and the password hashing and verification around user accounts.

pub mod error;
pub mod models;
pub mod password;
pub mod statements;
pub mod service;
