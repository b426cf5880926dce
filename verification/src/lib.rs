//! Settlement of a posted order on an order book: the taker pays the
//! creator in one token and receives, out of the book's escrow vault, one
//! unit of the other.
//!
//! The library decides and the caller acts. [`request::TakeOrder::take_order`]
//! authenticates the order book among the accounts of a call and asks for
//! the first invocation of another program;
//! [`settlement::Settlement::resume`] takes the ledger's answer and asks for
//! the next, until the order is settled or the settlement has failed. What
//! each step asks for is stated in [`settlement`]; what holds of every step
//! in [`laws`], of whole settlements in [`run`], and of the tokens that a
//! settlement moves in [`balance`].

pub mod address;
pub mod balance;
pub mod instruction;
pub mod laws;
pub mod programs;
pub mod record;
pub mod request;
pub mod run;
pub mod settlement;
pub mod take_order;
pub mod wire;
