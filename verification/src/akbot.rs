use vstd::prelude::*;

verus! {

/// One trade as reported by the aktool search service.
#[allow(non_snake_case)]
pub struct TradeRecord {
    pub signature: String,
    pub signature_user: String,
    pub mint: String,
    pub slot: u64,
    pub index: u32,
    /// Decimal amount, kept as text so that no precision is lost.
    pub amount: String,
    pub is_buy: i32,
    pub is_success: bool,
    pub price: String,
    pub block_time: i64,
    /// Absent for some failed trades.
    pub tip: Option<String>,
    pub gasFee: Option<String>,
}

/// The reply of the aktool search service.
pub struct AktoolResponse {
    pub code: i32,
    pub data: Option<Vec<TradeRecord>>,
}

} // verus!
