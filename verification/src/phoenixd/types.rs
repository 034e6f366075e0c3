//! Responses of the PhoenixD HTTP API.
use vstd::prelude::*;

verus! {

/// Node information (`/getinfo`).
#[derive(Debug)]
pub struct NodeInfo {
    pub node_id: String,
    pub channels: Vec<ChannelInfo>,
    pub chain: String,
    pub version: String,
}

/// One Lightning channel.
#[derive(Debug)]
pub struct ChannelInfo {
    pub state: String,
    pub channel_id: String,
    pub balance_sat: i64,
    pub inbound_liquidity_sat: i64,
    pub capacity_sat: i64,
    pub funding_tx_id: String,
}

/// Lightning wallet balance (`/getbalance`).
#[derive(Debug)]
pub struct WalletBalance {
    pub balance_sat: i64,
    pub fee_credit_sat: i64,
}

/// A created BOLT11 invoice (`/createinvoice`).
#[derive(Debug)]
pub struct Invoice {
    pub amount_sat: i64,
    pub payment_hash: String,
    pub serialized: String,
}

/// The outcome of paying an invoice (`/payinvoice`).
#[derive(Debug)]
pub struct PaymentResult {
    pub recipient_amount_sat: i64,
    pub routing_fee_sat: i64,
    pub payment_id: String,
    pub payment_hash: String,
    pub payment_preimage: String,
}

/// An incoming payment (`/payments/incoming/{hash}`).
#[derive(Debug)]
pub struct IncomingPayment {
    pub payment_hash: String,
    pub preimage: String,
    pub external_id: String,
    pub description: String,
    pub invoice: String,
    pub is_paid: bool,
    pub received_sat: i64,
    pub fees: i64,
    pub completed_at: Option<i64>,
    pub created_at: i64,
}

/// An outgoing payment (`/payments/outgoing/{id}`).
#[derive(Debug)]
pub struct OutgoingPayment {
    pub payment_id: String,
    pub payment_hash: String,
    pub preimage: Option<String>,
    pub is_paid: bool,
    pub sent: i64,
    pub fees: i64,
    pub invoice: String,
    pub completed_at: Option<i64>,
    pub created_at: i64,
}

} // verus!
