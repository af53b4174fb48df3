//! A call gateway for the kernel's entropy call.
//!
//! The gateway decides what is handed to the call and what each value that the
//! call returns means: a count of bytes written, an interruption that is
//! answered by issuing the same call again, or a failure with its kind. It
//! never issues the call itself, so the embedding program performs each
//! request and feeds the returned value back, in the kernel's convention: a
//! count, or the negated code of the failure. Where the program calls through
//! the C library, `platform::reply_of` puts what that call gave into this
//! convention.

pub mod error;
pub mod flags;
pub mod gateway;
pub mod platform;
