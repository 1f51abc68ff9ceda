//! Typed client logic for the hebcal.com Shabbat times service: an option
//! builder that settles the location method, the query it puts on the wire,
//! and the rules that turn a reply into a result or a classified error.

pub mod error;
pub mod shabbat;
pub mod text;
mod url_error;

pub use error::{DecodeError, Error, HebCalError, TransportError};
pub use shabbat::{Shabbat, ShabbatHandler};
