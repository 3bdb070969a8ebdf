//! Value shapes shared across endpoints: amounts, goods, promotions,
//! scenes, payers and the common order request.

use vstd::prelude::*;

verus! {

/// An order amount, in cents.
#[derive(Debug)]
pub struct Amount {
    /// The total amount of the order, in cents.
    pub total: i32,
    /// The currency; domestic merchants only support CNY.
    pub currency: Option<String>,
}

/// The amount block of a transaction notification.
#[derive(Debug)]
pub struct TransactionAmount {
    /// The total amount of the order, in cents.
    pub total: i32,
    /// What the payer paid, in cents.
    pub payer_total: i32,
    /// The order currency.
    pub currency: String,
    /// The payer's currency.
    pub payer_currency: String,
}

/// One funding account a refund draws from.
#[derive(Debug)]
pub struct RefundFrom {
    /// The account kind: AVAILABLE or UNAVAILABLE balance.
    pub account: String,
    /// The amount drawn from this account, in cents.
    pub amount: i32,
}

/// The amount block of a refund request.
#[derive(Debug)]
pub struct RefundAmount {
    /// The amount to refund, in cents; at most the original amount.
    pub refund: i32,
    /// The accounts to draw from, when the refund names them.
    pub from: Option<Vec<RefundFrom>>,
    /// The total amount of the original order, in cents.
    pub total: i32,
    /// The refund currency; only CNY is supported.
    pub currency: String,
}

/// The amount block of a refund response.
#[derive(Debug)]
pub struct RefundAmountResponse {
    /// The total amount of the order, in cents.
    pub total: i32,
    /// The amount refunded, in cents.
    pub refund: i32,
    /// The accounts the refund drew from, when named.
    pub from: Option<Vec<RefundFrom>>,
    /// What the payer paid in cash, in cents.
    pub payer_total: i32,
    /// What the payer gets back, excluding coupon amounts, in cents.
    pub payer_refund: i32,
    /// The refund net of non-topped-up coupons, in cents.
    pub settlement_refund: i32,
    /// The order amount net of free coupons, in cents.
    pub settlement_total: i32,
    /// The coupon part of the refund, in cents.
    pub discount_refund: i32,
    /// The refund currency.
    pub currency: String,
    /// The refunded fee, in cents, when reported.
    pub refund_fee: Option<i32>,
}

/// The amount block of a refund notification.
#[derive(Debug)]
pub struct RefundAmountWebHook {
    /// The total amount of the order, in cents.
    pub total: i32,
    /// The amount refunded, in cents.
    pub refund: i32,
    /// What the payer paid, in cents.
    pub payer_total: i32,
    /// What the payer gets back, in cents.
    pub payer_refund: i32,
}

/// The discount block of an order request.
#[derive(Debug)]
pub struct Discount {
    /// The original price of the whole receipt, in cents.
    pub cost_price: Option<i64>,
    /// The merchant-side receipt id.
    pub invoice_id: Option<String>,
    /// The items on the receipt.
    pub goods_detail: Option<Vec<GoodInfo>>,
}

/// One promotion applied to a transaction.
#[derive(Debug)]
pub struct TransactionPromotion {
    /// The coupon id.
    pub coupon_id: String,
    /// The promotion name.
    pub name: Option<String>,
    /// The scope: GLOBAL or SINGLE.
    pub scope: Option<String>,
    /// The kind: CASH or NOCASH.
    pub type_: Option<String>,
    /// The coupon amount, in cents.
    pub amount: i32,
    /// The campaign id.
    pub stock_id: Option<String>,
    /// The platform's contribution, in cents.
    pub wechatpay_contribute: Option<i32>,
    /// The merchant's contribution, in cents.
    pub merchant_contribute: Option<i32>,
    /// Other parties' contribution, in cents.
    pub other_contribute: Option<i32>,
    /// The promotion currency.
    pub currency: Option<String>,
    /// The items the promotion applied to.
    pub goods_detail: Option<Vec<TransactionGoodInfo>>,
}

/// One promotion reversed by a refund.
#[derive(Debug)]
pub struct RefundPromotion {
    /// The coupon id.
    pub coupon_id: String,
    /// The scope: GLOBAL or SINGLE.
    pub scope: Option<String>,
    /// The kind: COUPON or DISCOUNT.
    pub type_: String,
    /// The coupon amount, in cents.
    pub amount: i32,
    /// The coupon part of the refund, in cents.
    pub refund_amount: i32,
    /// The refunded items.
    pub goods_detail: Option<Vec<RefundGoodsDetail>>,
}

/// One item on an order.
#[derive(Debug)]
pub struct GoodInfo {
    /// The merchant-side goods code.
    pub merchant_goods_id: String,
    /// The platform's goods code, when there is one.
    pub wechatpay_goods_id: Option<String>,
    /// The goods name.
    pub goods_name: Option<String>,
    /// How many were bought.
    pub quantity: i64,
    /// The unit price, in cents, after merchant-side discounts.
    pub unit_price: i64,
}

/// One item on a transaction notification.
#[derive(Debug)]
pub struct TransactionGoodInfo {
    /// The goods code.
    pub goods_id: String,
    /// How many were bought.
    pub quantity: i32,
    /// The unit price, in cents.
    pub unit_price: i32,
    /// The discount on this item, in cents.
    pub discount_amount: i32,
    /// A remark on the item.
    pub goods_remark: Option<String>,
}

/// One item on a refund.
#[derive(Debug)]
pub struct RefundGoodsDetail {
    /// The merchant-side goods code.
    pub merchant_goods_id: String,
    /// The platform's goods code, when there is one.
    pub wechatpay_goods_id: Option<String>,
    /// The goods name.
    pub goods_name: Option<String>,
    /// The unit price, in cents.
    pub unit_price: i32,
    /// The refund on this item, in cents.
    pub refund_amount: i32,
    /// How many are returned.
    pub refund_quantity: i32,
}

/// The common body of an order-placing request.
#[derive(Debug)]
pub struct OrderRequest {
    /// The application id the order is placed under.
    pub appid: String,
    /// The merchant id.
    pub mchid: String,
    /// A description of the goods.
    pub description: String,
    /// The merchant's own order number, unique per merchant.
    pub out_trade_no: String,
    /// When the order expires, as RFC 3339 text.
    pub time_expire: Option<String>,
    /// Data echoed back in queries and notifications.
    pub attach: Option<String>,
    /// Where payment results are posted; must be reachable from outside.
    pub notify_url: String,
    /// The goods tag for promotions.
    pub goods_tag: Option<String>,
    /// Whether the receipt entry is shown after payment.
    pub support_fapiao: Option<bool>,
    /// The order amount.
    pub amount: Amount,
    /// Who pays.
    pub payer: Payer,
    /// The discount block.
    pub detail: Option<Discount>,
    /// The payment scene.
    pub scene_info: Option<Scene>,
    /// The settlement block.
    pub settle_info: Option<Settle>,
}

/// Who pays: the user's open id under the merchant's application.
#[derive(Debug)]
pub struct Payer {
    /// The user's open id.
    pub openid: String,
}

/// A merchant store.
#[derive(Debug)]
pub struct StoreInfo {
    /// The merchant-side store number.
    pub id: String,
    /// The store name.
    pub name: Option<String>,
    /// The area code of the store.
    pub area_code: Option<String>,
    /// The street address of the store.
    pub address: Option<String>,
}

/// The scene block of an order request.
#[derive(Debug)]
pub struct Scene {
    /// The payer's client IP, v4 or v6.
    pub payer_client_ip: String,
    /// The merchant-side device number.
    pub device_id: Option<String>,
    /// The store the payment happens in.
    pub store_info: Option<StoreInfo>,
}

/// The scene block of a transaction notification.
#[derive(Debug)]
pub struct TransactionScene {
    /// The merchant-side device number.
    pub device_id: Option<String>,
}

/// The settlement block of an order request.
#[derive(Debug)]
pub struct Settle {
    /// Whether profit sharing is requested.
    pub profit_sharing: bool,
}

/// The empty request body of parameterless calls.
#[derive(Debug)]
pub struct EmptyRequest;

} // verus!
