//! A two-party escrow: a maker locks an amount of one asset in a program-controlled
//! holding and names the amount of another asset it wants back; a taker settles the
//! deal atomically, or the maker cancels it and takes the deposit back.

pub mod address;
pub mod error;
pub mod instructions;
pub mod state;
pub mod laws;
