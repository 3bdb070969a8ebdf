//! The payment-success notification: the typed message a decrypted
//! webhook resource of original type `transaction` deserializes into.

use crate::sdk::common::{Payer, TransactionAmount, TransactionPromotion, TransactionScene};
use vstd::prelude::*;

verus! {

/// How the order was paid.
#[derive(Debug, Clone, Copy, PartialEq, Eq, Structural)]
pub enum TradeType {
    /// In-app payment inside an official account.
    JSApi,
    /// Payment by scanned QR code.
    Native,
    /// Payment from a native app.
    App,
    /// Payment by the user's payment code.
    MicroPay,
    /// Payment from a mobile web page.
    MWeb,
    /// Payment by face recognition.
    FacePay,
}

/// Where the transaction stands.
#[derive(Debug, Clone, Copy, PartialEq, Eq, Structural)]
pub enum TradeStatus {
    /// Paid successfully.
    Success,
    /// Moved into refund.
    Refund,
    /// Closed.
    Closed,
    /// Revoked (payment-code payments).
    Revoked,
    /// The user is still paying (payment-code payments).
    UserPaying,
    /// Payment failed for another reason.
    PayError,
}

/// The body of a payment-success notification.
#[derive(Debug)]
pub struct TransactionSuccess {
    /// The application id the order was placed under.
    pub appid: String,
    /// The merchant id.
    pub mchid: String,
    /// The merchant's own order number.
    pub out_trade_no: String,
    /// The platform's transaction id.
    pub transaction_id: String,
    /// How the order was paid.
    pub trade_type: TradeType,
    /// Where the transaction stands.
    pub trade_state: TradeStatus,
    /// A human-readable description of the state.
    pub trade_state_desc: String,
    /// Data attached by the merchant, echoed back verbatim.
    pub attach: Option<String>,
    /// When payment completed, as RFC 3339 text.
    pub success_time: String,
    /// Who paid.
    pub payer: Payer,
    /// The order amount.
    pub amount: TransactionAmount,
    /// The payment scene, when reported.
    pub scene_info: Option<TransactionScene>,
    /// Promotions applied, when any.
    pub promotion_detail: Option<Vec<TransactionPromotion>>,
}

} // verus!
