//! Rows of the coordinator's database schema, as the service reads them.
//!
//! Identifiers are UUIDs held as their 128-bit value; timestamps are
//! microseconds since the Unix epoch (UTC), the precision the database keeps.

use vstd::prelude::*;

use crate::json::Json;

verus! {

/// Most receipts one archive run packs into a batch.
pub const ARCHIVE_BATCH_LIMIT: i64 = 500;

/// One routing receipt.
#[derive(Debug, PartialEq, Eq)]
pub struct ReceiptRow {
    pub request_id: u128,
    pub receipt_json: Json,
    pub created_at: i64,
    pub walrus_blob_id: Option<String>,
}

/// One payment made for a request.
#[derive(Debug, PartialEq, Eq)]
pub struct PaymentRow {
    pub id: u128,
    pub request_id: u128,
    pub payee_peer_id: String,
    pub payee_sui_address: String,
    pub amount_nanox: i64,
    pub status: String,
    pub tx_digest: Option<String>,
    pub created_at: i64,
    pub submitted_at: Option<i64>,
    pub confirmed_at: Option<i64>,
}

/// Full record returned by GET /api/r/:request_id
#[derive(Debug, PartialEq, Eq)]
pub struct RequestRecord {
    pub receipt: ReceiptRow,
    pub payments: Vec<PaymentRow>,
}

} // verus!
