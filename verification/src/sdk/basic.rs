//! Basic payment endpoints: placing H5 and JSAPI orders and asking for
//! refunds. The shapes here; the transport lives outside the library.

use crate::sdk::common::{
    OrderRequest, RefundAmount, RefundAmountResponse, RefundGoodsDetail, RefundPromotion,
};
use vstd::prelude::*;

verus! {

/// The request body of the H5 order endpoint.
pub type H5OrderRequest = OrderRequest;

/// The request body of the JSAPI order endpoint.
pub type JSApiOrderRequest = OrderRequest;

/// The response of the H5 order endpoint.
#[derive(Debug)]
pub struct H5OrderResponse {
    /// The page that brings up the payment desk; valid for five minutes.
    pub h5_url: String,
}

/// The response of the JSAPI order endpoint.
#[derive(Debug)]
pub struct JSApiOrderResponse {
    /// The prepayment session id; valid for two hours.
    pub prepay_id: String,
}

/// The body of a refund request.
#[derive(Debug)]
pub struct RefundRequest {
    /// The platform's transaction id; this or `out_trade_no` is required.
    pub transaction_id: Option<String>,
    /// The merchant's order number; this or `transaction_id` is required.
    pub out_trade_no: Option<String>,
    /// The merchant's refund number, unique per merchant.
    pub out_refund_no: String,
    /// The reason shown to the user, when given.
    pub reason: Option<String>,
    /// Where refund results are posted, overriding the configured URL.
    pub notify_url: Option<String>,
    /// The funding account to draw from, when named.
    pub funds_account: Option<String>,
    /// The amount block.
    pub amount: RefundAmount,
    /// The items to refund; empty when refunding by amount alone.
    pub goods_detail: Vec<RefundGoodsDetail>,
}

/// The body of a refund response.
#[derive(Debug)]
pub struct RefundResponse {
    /// The platform's refund id.
    pub refund_id: String,
    /// The merchant's refund number.
    pub out_refund_no: String,
    /// The platform's transaction id.
    pub transaction_id: String,
    /// The merchant's order number.
    pub out_trade_no: String,
    /// The refund channel.
    pub channel: String,
    /// The account the refund lands in.
    pub user_received_account: String,
    /// When the refund succeeded, when it has.
    pub success_time: Option<String>,
    /// When the refund was accepted.
    pub create_time: String,
    /// The refund status: SUCCESS, CLOSED, PROCESSING or ABNORMAL.
    pub status: String,
    /// The funding account the refund drew from, when reported.
    pub funds_account: Option<String>,
    /// The amount block.
    pub amount: RefundAmountResponse,
    /// Promotions reversed by the refund, when any.
    pub promotion_detail: Option<Vec<RefundPromotion>>,
}

} // verus!
