//! Base64 with a choice of alphabet and padding: the four common schemes,
//! what each one's text is, and decoding that tries them all in a fixed order.

pub mod args;
pub mod encoding;
pub mod engine;
pub mod scheme;
pub mod trim;
pub mod variants;

pub use args::{Arguments, Failure};
pub use scheme::{Alphabet, Scheme};
pub use trim::trim_ascii_end;
pub use variants::try_decode;
