//! A webring: a fixed cycle of member sites that visitors walk by
//! redirect, with a daily health check of every member.
//!
//! The ring itself, the rules that pick a visitor's destination, the
//! classification of health probes and the bookkeeping of a sweep are
//! verified here. Serving HTTP, fetching member pages, locking and
//! sleeping are left to the program built around this library.

pub mod clock;
pub mod health;
pub mod navigation;
pub mod report;
pub mod ring;
pub mod scheduler;
pub mod status;
