//! Client-side trust core for the WeChat Pay v3 API: canonical request
//! signing, response verification against a platform-certificate store,
//! and authenticated encryption of envelope payloads.

mod client;
pub mod crypto;
mod error;
pub mod sdk;
mod text;
pub mod webhook;

pub use client::{Client, PlatformPubKey, PlatformPubKeyInner};
pub use error::{
    ResponseHeader, VerificationFailure, WeChatPayApiError, WeChatPayApiErrorDetail,
    WeChatPayApiErrorDetailValue, WeChatPayError, parse_response,
};
pub use text::{parse_dec_u64, u64_to_string};
