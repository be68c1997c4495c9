//! Verified core of a Token-2022 companion program: the checks it runs on
//! mint accounts, the transfer fees it charges, and the exact sequence of
//! token-program calls each of its handlers issues.

pub mod constants;
pub mod cpi;
pub mod error;
pub mod extension;
pub mod fee;
pub mod token;
pub mod confidential_ix;
pub mod instructions;
pub mod laws;
