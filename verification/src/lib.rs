//! Friend codes: a short, shareable text form of a 32-bit account number,
//! together with the 64-bit account identity that embeds such a number.

pub mod alphabet;
pub mod bits;
pub mod csgo;
pub mod noise;
pub mod num;
pub mod steam;
pub mod theorems;
