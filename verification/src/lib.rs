//! Client-side logic for the Project Honeypot http:BL reputation protocol.
//!
//! The protocol answers a DNS query whose name embeds an API key and the
//! visitor's IP address with reversed octets; the address record that comes
//! back carries, octet by octet, the days since the visitor was last seen,
//! a threat score, and a category code. This crate holds the two pure halves
//! of a client — building the query name and decoding the answered octets —
//! with contracts that pin both down exactly. Name resolution itself is left
//! to the caller: the decoder takes the resolver's outcome as a value.

pub mod client;
pub mod model;
pub mod query;

pub use client::HoneypotBlacklist;

pub use model::HoneypotBlacklistError;
pub use model::Rating;
pub use model::ResponseOctets;
pub use model::Visitor;
pub use model::VisitorClass;
pub use model::VisitorClassView;
pub use model::VisitorView;
