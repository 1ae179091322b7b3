//! State and rules of a login front end for a federated chat service.
//!
//! The crate holds what such a front end decides: which screen is active,
//! how the login form reacts to each event, which work it asks for, and what
//! it shows. Windows, widgets and network calls belong to the program around
//! it, which performs the requested work and hands the outcome back as an
//! event.

pub mod auth;
pub mod chat;
pub mod connect;
pub mod dispatcher;
pub mod login;
pub mod restore;
pub mod ui;
