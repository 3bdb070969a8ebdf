//! The batch-transfer endpoint: paying out to many users' balances.

use vstd::prelude::*;

verus! {

/// One transfer inside a batch.
#[derive(Debug)]
pub struct TransferDetailInput {
    /// The merchant's id for this detail, unique inside the batch.
    pub out_detail_no: String,
    /// The amount to transfer, in cents.
    pub transfer_amount: i32,
    /// The remark the user sees; at most 32 characters.
    pub transfer_remark: String,
    /// The receiving user's open id.
    pub openid: String,
    /// The receiver's real name, when the amount requires it.
    pub user_name: Option<String>,
}

/// The body of a batch-transfer request.
#[derive(Debug)]
pub struct BatchTransferRequest {
    /// The application id bound to the merchant.
    pub appid: String,
    /// The merchant's batch number, unique per merchant.
    pub out_batch_no: String,
    /// The batch name.
    pub batch_name: String,
    /// The batch remark; at most 32 characters.
    pub batch_remark: String,
    /// The total of all detail amounts, in cents.
    pub total_amount: i32,
    /// The number of details in the batch; at most one thousand.
    pub total_num: i32,
    /// The transfers of the batch.
    pub transfer_detail_list: Vec<TransferDetailInput>,
    /// The transfer scene this batch runs under.
    pub transfer_scene_id: Option<String>,
}

/// The body of a batch-transfer response.
#[derive(Debug)]
pub struct BatchTransferResponse {
    /// The merchant's batch number.
    pub out_batch_no: String,
    /// The platform's batch id.
    pub batch_id: String,
    /// When the batch was accepted, as RFC 3339 text.
    pub create_time: String,
}

} // verus!
