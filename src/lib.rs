//! A small message board: clients post short notes, list them page by page
//! from an id cursor, read one by id, draw a random unexpired one, and expire
//! (soft-delete) one by id.

pub mod message;
pub mod query;
pub mod board;
pub mod create;
pub mod startup;
