//! Plain request types mirroring the wire format, and their mapping onto
//! the library's validated values.

pub mod dtos;
