//! Resource records that events and responses carry. They are plain data;
//! times are Unix seconds.
use vstd::prelude::*;

verus! {

/// A review of a payment.
pub struct Review {
    pub id: String,
    pub object: String,
    pub charge: String,
    pub created: i64,
    pub livemode: bool,
    pub open: bool,
    pub reason: String,
}

/// One page of a list of fee refunds, each kept as it came.
pub struct RefundList {
    pub data: Vec<serde_json::Value>,
    pub has_more: bool,
    pub total_count: Option<u64>,
    pub url: String,
}

/// A fee collected by a platform on a charge.
pub struct ApplicationFee {
    pub id: String,
    pub object: String,
    pub account: String,
    pub amount: u64,
    pub amount_refunded: i64,
    pub application: String,
    pub balance_transaction: String,
    pub charge: String,
    pub created: i64,
    pub currency: String,
    pub livemode: bool,
    pub originating_transaction: Option<String>,
    pub refunded: bool,
    pub refunds: RefundList,
}

} // verus!
