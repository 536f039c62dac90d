//! What the library promises of its calls.
//!
//! Each law speaks of calls, by what they were given and what they gave back,
//! and of nothing in between: `call_ensures(f, arguments, result)` reads "a call
//! of `f` with these arguments returned this result".

pub mod memory;
pub mod planes;
pub mod publication;
pub mod reading;
pub mod routing;
pub mod text;
pub mod values;
