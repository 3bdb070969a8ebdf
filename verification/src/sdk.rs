//! The request and response shapes of the endpoints the client speaks to,
//! and the verified compute parts of the media-upload call.

pub mod basic;
pub mod cert;
pub mod common;
pub mod fund;
pub mod media;
pub mod partner;
