//! A program entry point that draws a number between 1 and 100 and stores it,
//! as a 4-byte little-endian record, at the front of the first account's data.
use vstd::prelude::*;

pub mod processor;
pub mod record;

pub use processor::{process_instruction, store_random_number, AccountView, ProcessError};
pub use record::GreetingAccount;
