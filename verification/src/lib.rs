//! A two-party, fund-custodying connection-request protocol: a sender escrows
//! a fixed deposit to request a connection with a receiver; the receiver may
//! accept or reject; either outcome refunds the sender; an unresolved request
//! can be flagged as unwanted, after which a cool-down gates refund; and a
//! request left untouched past a deadline may be reclaimed by the sender.

pub mod error;
pub mod status;
pub mod address;
pub mod config;
pub mod escrow;
pub mod fund;
pub mod laws;
pub mod store;

pub use error::ErrorCode;
pub use status::RequestStatus;
