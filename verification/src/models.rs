use crate::decode::{field, has, holds, may_have, may_hold, optional_field, FromJson};
use crate::json::{Json, JsonView};
use crate::metadata::Metadata;
use vstd::prelude::*;

verus! {

/// What the service answers to a withdrawal, and to a query for one.
#[derive(Debug)]
pub struct WithdrawResponse {
    pub status: u16,
    pub message: String,
    pub data: WithdrawData,
}

impl FromJson for WithdrawResponse {
    open spec fn accepts(tree: JsonView) -> bool {
        &&& has::<u16>(tree, "status"@)
        &&& has::<String>(tree, "message"@)
        &&& has::<WithdrawData>(tree, "data"@)
    }

    open spec fn mirrors(&self, tree: JsonView) -> bool {
        &&& holds(&self.status, tree, "status"@)
        &&& holds(&self.message, tree, "message"@)
        &&& holds(&self.data, tree, "data"@)
    }

    fn from_json(tree: &Json) -> (read: Option<WithdrawResponse>) {
        let status = field::<u16>(tree, "status")?;
        let message = field::<String>(tree, "message")?;
        let data = field::<WithdrawData>(tree, "data")?;
        Some(WithdrawResponse { status, message, data })
    }
}

/// A withdrawal as the service records it.
#[derive(Debug)]
pub struct WithdrawData {
    pub id: String,
    pub amount_sats: u64,
    pub recipient: String,
    pub fee_sats: serde_json::Number,
    pub network_type: String,
    pub rail_type: String,
    pub status: String,
    pub lightning_payment: Option<LNDTrackPaymentResponse>,
    pub chain_tx_id: Option<String>,
    pub metadata: Option<Metadata>,
    pub created_at: String,
}

impl FromJson for WithdrawData {
    open spec fn accepts(tree: JsonView) -> bool {
        &&& has::<String>(tree, "id"@)
        &&& has::<u64>(tree, "amount_sats"@)
        &&& has::<String>(tree, "recipient"@)
        &&& has::<serde_json::Number>(tree, "fee_sats"@)
        &&& has::<String>(tree, "network_type"@)
        &&& has::<String>(tree, "rail_type"@)
        &&& has::<String>(tree, "status"@)
        &&& may_have::<LNDTrackPaymentResponse>(tree, "lightning_payment"@)
        &&& may_have::<String>(tree, "chain_tx_id"@)
        &&& may_have::<Metadata>(tree, "metadata"@)
        &&& has::<String>(tree, "created_at"@)
    }

    open spec fn mirrors(&self, tree: JsonView) -> bool {
        &&& holds(&self.id, tree, "id"@)
        &&& holds(&self.amount_sats, tree, "amount_sats"@)
        &&& holds(&self.recipient, tree, "recipient"@)
        &&& holds(&self.fee_sats, tree, "fee_sats"@)
        &&& holds(&self.network_type, tree, "network_type"@)
        &&& holds(&self.rail_type, tree, "rail_type"@)
        &&& holds(&self.status, tree, "status"@)
        &&& may_hold(&self.lightning_payment, tree, "lightning_payment"@)
        &&& may_hold(&self.chain_tx_id, tree, "chain_tx_id"@)
        &&& may_hold(&self.metadata, tree, "metadata"@)
        &&& holds(&self.created_at, tree, "created_at"@)
    }

    fn from_json(tree: &Json) -> (read: Option<WithdrawData>) {
        let id = field::<String>(tree, "id")?;
        let amount_sats = field::<u64>(tree, "amount_sats")?;
        let recipient = field::<String>(tree, "recipient")?;
        let fee_sats = field::<serde_json::Number>(tree, "fee_sats")?;
        let network_type = field::<String>(tree, "network_type")?;
        let rail_type = field::<String>(tree, "rail_type")?;
        let status = field::<String>(tree, "status")?;
        let lightning_payment = optional_field::<LNDTrackPaymentResponse>(tree, "lightning_payment")?;
        let chain_tx_id = optional_field::<String>(tree, "chain_tx_id")?;
        let metadata = optional_field::<Metadata>(tree, "metadata")?;
        let created_at = field::<String>(tree, "created_at")?;
        Some(
            WithdrawData {
                id,
                amount_sats,
                recipient,
                fee_sats,
                network_type,
                rail_type,
                status,
                lightning_payment,
                chain_tx_id,
                metadata,
                created_at,
            },
        )
    }
}

/// What the service answers to a request for an estimate.
#[derive(Debug)]
pub struct EstimateWithdrawalResponse {
    pub status: u16,
    pub message: String,
    pub data: EstimateWithdrawalData,
}

impl FromJson for EstimateWithdrawalResponse {
    open spec fn accepts(tree: JsonView) -> bool {
        &&& has::<u16>(tree, "status"@)
        &&& has::<String>(tree, "message"@)
        &&& has::<EstimateWithdrawalData>(tree, "data"@)
    }

    open spec fn mirrors(&self, tree: JsonView) -> bool {
        &&& holds(&self.status, tree, "status"@)
        &&& holds(&self.message, tree, "message"@)
        &&& holds(&self.data, tree, "data"@)
    }

    fn from_json(tree: &Json) -> (read: Option<EstimateWithdrawalResponse>) {
        let status = field::<u16>(tree, "status")?;
        let message = field::<String>(tree, "message")?;
        let data = field::<EstimateWithdrawalData>(tree, "data")?;
        Some(EstimateWithdrawalResponse { status, message, data })
    }
}

/// What a withdrawal would cost and how likely it is to succeed.
#[derive(Debug)]
pub struct EstimateWithdrawalData {
    pub recipient: String,
    pub recipient_type: String,
    pub amount_sats: u64,
    pub bitvora_fee_sats: serde_json::Number,
    pub success_probability: serde_json::Number,
}

impl FromJson for EstimateWithdrawalData {
    open spec fn accepts(tree: JsonView) -> bool {
        &&& has::<String>(tree, "recipient"@)
        &&& has::<String>(tree, "recipient_type"@)
        &&& has::<u64>(tree, "amount_sats"@)
        &&& has::<serde_json::Number>(tree, "bitvora_fee_sats"@)
        &&& has::<serde_json::Number>(tree, "success_probability"@)
    }

    open spec fn mirrors(&self, tree: JsonView) -> bool {
        &&& holds(&self.recipient, tree, "recipient"@)
        &&& holds(&self.recipient_type, tree, "recipient_type"@)
        &&& holds(&self.amount_sats, tree, "amount_sats"@)
        &&& holds(&self.bitvora_fee_sats, tree, "bitvora_fee_sats"@)
        &&& holds(&self.success_probability, tree, "success_probability"@)
    }

    fn from_json(tree: &Json) -> (read: Option<EstimateWithdrawalData>) {
        let recipient = field::<String>(tree, "recipient")?;
        let recipient_type = field::<String>(tree, "recipient_type")?;
        let amount_sats = field::<u64>(tree, "amount_sats")?;
        let bitvora_fee_sats = field::<serde_json::Number>(tree, "bitvora_fee_sats")?;
        let success_probability = field::<serde_json::Number>(tree, "success_probability")?;
        Some(
            EstimateWithdrawalData {
                recipient,
                recipient_type,
                amount_sats,
                bitvora_fee_sats,
                success_probability,
            },
        )
    }
}

/// What the service answers to a request for a Lightning invoice.
#[derive(Debug)]
pub struct CreateLightningInvoiceResponse {
    pub status: u16,
    pub message: String,
    pub data: CreateLightningInvoiceData,
}

impl FromJson for CreateLightningInvoiceResponse {
    open spec fn accepts(tree: JsonView) -> bool {
        &&& has::<u16>(tree, "status"@)
        &&& has::<String>(tree, "message"@)
        &&& has::<CreateLightningInvoiceData>(tree, "data"@)
    }

    open spec fn mirrors(&self, tree: JsonView) -> bool {
        &&& holds(&self.status, tree, "status"@)
        &&& holds(&self.message, tree, "message"@)
        &&& holds(&self.data, tree, "data"@)
    }

    fn from_json(tree: &Json) -> (read: Option<CreateLightningInvoiceResponse>) {
        let status = field::<u16>(tree, "status")?;
        let message = field::<String>(tree, "message")?;
        let data = field::<CreateLightningInvoiceData>(tree, "data")?;
        Some(CreateLightningInvoiceResponse { status, message, data })
    }
}

/// A Lightning invoice as the service records it.
#[derive(Debug)]
pub struct CreateLightningInvoiceData {
    pub id: String,
    pub node_id: String,
    pub memo: String,
    pub r_preimage: String,
    pub r_hash: String,
    pub amount_sats: u64,
    pub settled: bool,
    pub payment_request: String,
    pub metadata: Option<Metadata>,
    pub lightning_address_id: Option<String>,
}

impl FromJson for CreateLightningInvoiceData {
    open spec fn accepts(tree: JsonView) -> bool {
        &&& has::<String>(tree, "id"@)
        &&& has::<String>(tree, "node_id"@)
        &&& has::<String>(tree, "memo"@)
        &&& has::<String>(tree, "r_preimage"@)
        &&& has::<String>(tree, "r_hash"@)
        &&& has::<u64>(tree, "amount_sats"@)
        &&& has::<bool>(tree, "settled"@)
        &&& has::<String>(tree, "payment_request"@)
        &&& may_have::<Metadata>(tree, "metadata"@)
        &&& may_have::<String>(tree, "lightning_address_id"@)
    }

    open spec fn mirrors(&self, tree: JsonView) -> bool {
        &&& holds(&self.id, tree, "id"@)
        &&& holds(&self.node_id, tree, "node_id"@)
        &&& holds(&self.memo, tree, "memo"@)
        &&& holds(&self.r_preimage, tree, "r_preimage"@)
        &&& holds(&self.r_hash, tree, "r_hash"@)
        &&& holds(&self.amount_sats, tree, "amount_sats"@)
        &&& holds(&self.settled, tree, "settled"@)
        &&& holds(&self.payment_request, tree, "payment_request"@)
        &&& may_hold(&self.metadata, tree, "metadata"@)
        &&& may_hold(&self.lightning_address_id, tree, "lightning_address_id"@)
    }

    fn from_json(tree: &Json) -> (read: Option<CreateLightningInvoiceData>) {
        let id = field::<String>(tree, "id")?;
        let node_id = field::<String>(tree, "node_id")?;
        let memo = field::<String>(tree, "memo")?;
        let r_preimage = field::<String>(tree, "r_preimage")?;
        let r_hash = field::<String>(tree, "r_hash")?;
        let amount_sats = field::<u64>(tree, "amount_sats")?;
        let settled = field::<bool>(tree, "settled")?;
        let payment_request = field::<String>(tree, "payment_request")?;
        let metadata = optional_field::<Metadata>(tree, "metadata")?;
        let lightning_address_id = optional_field::<String>(tree, "lightning_address_id")?;
        Some(
            CreateLightningInvoiceData {
                id,
                node_id,
                memo,
                r_preimage,
                r_hash,
                amount_sats,
                settled,
                payment_request,
                metadata,
                lightning_address_id,
            },
        )
    }
}

/// What the service answers to a request for a Lightning address.
#[derive(Debug)]
pub struct CreateLightningAddressResponse {
    pub status: u16,
    pub message: String,
    pub data: CreateLightningAddressData,
}

impl FromJson for CreateLightningAddressResponse {
    open spec fn accepts(tree: JsonView) -> bool {
        &&& has::<u16>(tree, "status"@)
        &&& has::<String>(tree, "message"@)
        &&& has::<CreateLightningAddressData>(tree, "data"@)
    }

    open spec fn mirrors(&self, tree: JsonView) -> bool {
        &&& holds(&self.status, tree, "status"@)
        &&& holds(&self.message, tree, "message"@)
        &&& holds(&self.data, tree, "data"@)
    }

    fn from_json(tree: &Json) -> (read: Option<CreateLightningAddressResponse>) {
        let status = field::<u16>(tree, "status")?;
        let message = field::<String>(tree, "message")?;
        let data = field::<CreateLightningAddressData>(tree, "data")?;
        Some(CreateLightningAddressResponse { status, message, data })
    }
}

/// A Lightning address as the service records it.
#[derive(Debug)]
pub struct CreateLightningAddressData {
    pub id: String,
    pub handle: String,
    pub domain: String,
    pub address: String,
    pub metadata: Option<Metadata>,
    pub created_at: String,
    pub last_used_at: Option<String>,
    pub deleted_at: Option<String>,
}

impl FromJson for CreateLightningAddressData {
    open spec fn accepts(tree: JsonView) -> bool {
        &&& has::<String>(tree, "id"@)
        &&& has::<String>(tree, "handle"@)
        &&& has::<String>(tree, "domain"@)
        &&& has::<String>(tree, "address"@)
        &&& may_have::<Metadata>(tree, "metadata"@)
        &&& has::<String>(tree, "created_at"@)
        &&& may_have::<String>(tree, "last_used_at"@)
        &&& may_have::<String>(tree, "deleted_at"@)
    }

    open spec fn mirrors(&self, tree: JsonView) -> bool {
        &&& holds(&self.id, tree, "id"@)
        &&& holds(&self.handle, tree, "handle"@)
        &&& holds(&self.domain, tree, "domain"@)
        &&& holds(&self.address, tree, "address"@)
        &&& may_hold(&self.metadata, tree, "metadata"@)
        &&& holds(&self.created_at, tree, "created_at"@)
        &&& may_hold(&self.last_used_at, tree, "last_used_at"@)
        &&& may_hold(&self.deleted_at, tree, "deleted_at"@)
    }

    fn from_json(tree: &Json) -> (read: Option<CreateLightningAddressData>) {
        let id = field::<String>(tree, "id")?;
        let handle = field::<String>(tree, "handle")?;
        let domain = field::<String>(tree, "domain")?;
        let address = field::<String>(tree, "address")?;
        let metadata = optional_field::<Metadata>(tree, "metadata")?;
        let created_at = field::<String>(tree, "created_at")?;
        let last_used_at = optional_field::<String>(tree, "last_used_at")?;
        let deleted_at = optional_field::<String>(tree, "deleted_at")?;
        Some(
            CreateLightningAddressData {
                id,
                handle,
                domain,
                address,
                metadata,
                created_at,
                last_used_at,
                deleted_at,
            },
        )
    }
}

/// What the service answers to a request for an on-chain address.
#[derive(Debug)]
pub struct CreateOnChainAddressResponse {
    pub status: u16,
    pub message: String,
    pub data: CreateOnChainAddressData,
}

impl FromJson for CreateOnChainAddressResponse {
    open spec fn accepts(tree: JsonView) -> bool {
        &&& has::<u16>(tree, "status"@)
        &&& has::<String>(tree, "message"@)
        &&& has::<CreateOnChainAddressData>(tree, "data"@)
    }

    open spec fn mirrors(&self, tree: JsonView) -> bool {
        &&& holds(&self.status, tree, "status"@)
        &&& holds(&self.message, tree, "message"@)
        &&& holds(&self.data, tree, "data"@)
    }

    fn from_json(tree: &Json) -> (read: Option<CreateOnChainAddressResponse>) {
        let status = field::<u16>(tree, "status")?;
        let message = field::<String>(tree, "message")?;
        let data = field::<CreateOnChainAddressData>(tree, "data")?;
        Some(CreateOnChainAddressResponse { status, message, data })
    }
}

/// An on-chain address as the service records it.
#[derive(Debug)]
pub struct CreateOnChainAddressData {
    pub id: String,
    pub address: String,
    pub metadata: Option<Metadata>,
    pub created_at: String,
}

impl FromJson for CreateOnChainAddressData {
    open spec fn accepts(tree: JsonView) -> bool {
        &&& has::<String>(tree, "id"@)
        &&& has::<String>(tree, "address"@)
        &&& may_have::<Metadata>(tree, "metadata"@)
        &&& has::<String>(tree, "created_at"@)
    }

    open spec fn mirrors(&self, tree: JsonView) -> bool {
        &&& holds(&self.id, tree, "id"@)
        &&& holds(&self.address, tree, "address"@)
        &&& may_hold(&self.metadata, tree, "metadata"@)
        &&& holds(&self.created_at, tree, "created_at"@)
    }

    fn from_json(tree: &Json) -> (read: Option<CreateOnChainAddressData>) {
        let id = field::<String>(tree, "id")?;
        let address = field::<String>(tree, "address")?;
        let metadata = optional_field::<Metadata>(tree, "metadata")?;
        let created_at = field::<String>(tree, "created_at")?;
        Some(CreateOnChainAddressData { id, address, metadata, created_at })
    }
}

/// What the service answers to a query for a deposit.
#[derive(Debug)]
pub struct GetDepositResponse {
    pub status: u16,
    pub message: String,
    pub data: GetDepositData,
}

impl FromJson for GetDepositResponse {
    open spec fn accepts(tree: JsonView) -> bool {
        &&& has::<u16>(tree, "status"@)
        &&& has::<String>(tree, "message"@)
        &&& has::<GetDepositData>(tree, "data"@)
    }

    open spec fn mirrors(&self, tree: JsonView) -> bool {
        &&& holds(&self.status, tree, "status"@)
        &&& holds(&self.message, tree, "message"@)
        &&& holds(&self.data, tree, "data"@)
    }

    fn from_json(tree: &Json) -> (read: Option<GetDepositResponse>) {
        let status = field::<u16>(tree, "status")?;
        let message = field::<String>(tree, "message")?;
        let data = field::<GetDepositData>(tree, "data")?;
        Some(GetDepositResponse { status, message, data })
    }
}

/// A deposit as the service records it.
#[derive(Debug)]
pub struct GetDepositData {
    pub id: String,
    pub ledger_tx_id: String,
    pub recipient: String,
    pub amount_sats: u64,
    pub fee_sats: serde_json::Number,
    pub chain_tx_id: Option<String>,
    pub rail_type: String,
    pub network_type: String,
    pub status: String,
    pub metadata: Option<Metadata>,
    pub lightning_invoice_id: Option<String>,
    pub created_at: String,
}

impl FromJson for GetDepositData {
    open spec fn accepts(tree: JsonView) -> bool {
        &&& has::<String>(tree, "id"@)
        &&& has::<String>(tree, "ledger_tx_id"@)
        &&& has::<String>(tree, "recipient"@)
        &&& has::<u64>(tree, "amount_sats"@)
        &&& has::<serde_json::Number>(tree, "fee_sats"@)
        &&& may_have::<String>(tree, "chain_tx_id"@)
        &&& has::<String>(tree, "rail_type"@)
        &&& has::<String>(tree, "network_type"@)
        &&& has::<String>(tree, "status"@)
        &&& may_have::<Metadata>(tree, "metadata"@)
        &&& may_have::<String>(tree, "lightning_invoice_id"@)
        &&& has::<String>(tree, "created_at"@)
    }

    open spec fn mirrors(&self, tree: JsonView) -> bool {
        &&& holds(&self.id, tree, "id"@)
        &&& holds(&self.ledger_tx_id, tree, "ledger_tx_id"@)
        &&& holds(&self.recipient, tree, "recipient"@)
        &&& holds(&self.amount_sats, tree, "amount_sats"@)
        &&& holds(&self.fee_sats, tree, "fee_sats"@)
        &&& may_hold(&self.chain_tx_id, tree, "chain_tx_id"@)
        &&& holds(&self.rail_type, tree, "rail_type"@)
        &&& holds(&self.network_type, tree, "network_type"@)
        &&& holds(&self.status, tree, "status"@)
        &&& may_hold(&self.metadata, tree, "metadata"@)
        &&& may_hold(&self.lightning_invoice_id, tree, "lightning_invoice_id"@)
        &&& holds(&self.created_at, tree, "created_at"@)
    }

    fn from_json(tree: &Json) -> (read: Option<GetDepositData>) {
        let id = field::<String>(tree, "id")?;
        let ledger_tx_id = field::<String>(tree, "ledger_tx_id")?;
        let recipient = field::<String>(tree, "recipient")?;
        let amount_sats = field::<u64>(tree, "amount_sats")?;
        let fee_sats = field::<serde_json::Number>(tree, "fee_sats")?;
        let chain_tx_id = optional_field::<String>(tree, "chain_tx_id")?;
        let rail_type = field::<String>(tree, "rail_type")?;
        let network_type = field::<String>(tree, "network_type")?;
        let status = field::<String>(tree, "status")?;
        let metadata = optional_field::<Metadata>(tree, "metadata")?;
        let lightning_invoice_id = optional_field::<String>(tree, "lightning_invoice_id")?;
        let created_at = field::<String>(tree, "created_at")?;
        Some(
            GetDepositData {
                id,
                ledger_tx_id,
                recipient,
                amount_sats,
                fee_sats,
                chain_tx_id,
                rail_type,
                network_type,
                status,
                metadata,
                lightning_invoice_id,
                created_at,
            },
        )
    }
}

/// What the service answers to a query for the balance.
#[derive(Debug)]
pub struct GetBalanceResponse {
    pub status: u16,
    pub message: String,
    pub data: GetBalanceData,
}

impl FromJson for GetBalanceResponse {
    open spec fn accepts(tree: JsonView) -> bool {
        &&& has::<u16>(tree, "status"@)
        &&& has::<String>(tree, "message"@)
        &&& has::<GetBalanceData>(tree, "data"@)
    }

    open spec fn mirrors(&self, tree: JsonView) -> bool {
        &&& holds(&self.status, tree, "status"@)
        &&& holds(&self.message, tree, "message"@)
        &&& holds(&self.data, tree, "data"@)
    }

    fn from_json(tree: &Json) -> (read: Option<GetBalanceResponse>) {
        let status = field::<u16>(tree, "status")?;
        let message = field::<String>(tree, "message")?;
        let data = field::<GetBalanceData>(tree, "data")?;
        Some(GetBalanceResponse { status, message, data })
    }
}

/// The balance of the account.
#[derive(Debug)]
pub struct GetBalanceData {
    pub balance: u32,
}

impl FromJson for GetBalanceData {
    open spec fn accepts(tree: JsonView) -> bool {
        &&& has::<u32>(tree, "balance"@)
    }

    open spec fn mirrors(&self, tree: JsonView) -> bool {
        &&& holds(&self.balance, tree, "balance"@)
    }

    fn from_json(tree: &Json) -> (read: Option<GetBalanceData>) {
        let balance = field::<u32>(tree, "balance")?;
        Some(GetBalanceData { balance })
    }
}

/// How a Lightning payment went, as the node reports it.
#[derive(Debug)]
pub struct LNDTrackPaymentResponse {
    pub payment_hash: String,
    pub value: String,
    pub creation_date: String,
    pub fee: String,
    pub payment_preimage: String,
    pub value_sat: String,
    pub value_msat: String,
    pub payment_request: String,
    pub status: String,
    pub fee_sat: String,
    pub fee_msat: String,
    pub creation_time_ns: String,
    pub htlcs: Vec<LNDHTLCAttempt>,
    pub payment_index: String,
    pub failure_reason: String,
}

impl FromJson for LNDTrackPaymentResponse {
    open spec fn accepts(tree: JsonView) -> bool {
        &&& has::<String>(tree, "payment_hash"@)
        &&& has::<String>(tree, "value"@)
        &&& has::<String>(tree, "creation_date"@)
        &&& has::<String>(tree, "fee"@)
        &&& has::<String>(tree, "payment_preimage"@)
        &&& has::<String>(tree, "value_sat"@)
        &&& has::<String>(tree, "value_msat"@)
        &&& has::<String>(tree, "payment_request"@)
        &&& has::<String>(tree, "status"@)
        &&& has::<String>(tree, "fee_sat"@)
        &&& has::<String>(tree, "fee_msat"@)
        &&& has::<String>(tree, "creation_time_ns"@)
        &&& has::<Vec<LNDHTLCAttempt>>(tree, "htlcs"@)
        &&& has::<String>(tree, "payment_index"@)
        &&& has::<String>(tree, "failure_reason"@)
    }

    open spec fn mirrors(&self, tree: JsonView) -> bool {
        &&& holds(&self.payment_hash, tree, "payment_hash"@)
        &&& holds(&self.value, tree, "value"@)
        &&& holds(&self.creation_date, tree, "creation_date"@)
        &&& holds(&self.fee, tree, "fee"@)
        &&& holds(&self.payment_preimage, tree, "payment_preimage"@)
        &&& holds(&self.value_sat, tree, "value_sat"@)
        &&& holds(&self.value_msat, tree, "value_msat"@)
        &&& holds(&self.payment_request, tree, "payment_request"@)
        &&& holds(&self.status, tree, "status"@)
        &&& holds(&self.fee_sat, tree, "fee_sat"@)
        &&& holds(&self.fee_msat, tree, "fee_msat"@)
        &&& holds(&self.creation_time_ns, tree, "creation_time_ns"@)
        &&& holds(&self.htlcs, tree, "htlcs"@)
        &&& holds(&self.payment_index, tree, "payment_index"@)
        &&& holds(&self.failure_reason, tree, "failure_reason"@)
    }

    fn from_json(tree: &Json) -> (read: Option<LNDTrackPaymentResponse>) {
        let payment_hash = field::<String>(tree, "payment_hash")?;
        let value = field::<String>(tree, "value")?;
        let creation_date = field::<String>(tree, "creation_date")?;
        let fee = field::<String>(tree, "fee")?;
        let payment_preimage = field::<String>(tree, "payment_preimage")?;
        let value_sat = field::<String>(tree, "value_sat")?;
        let value_msat = field::<String>(tree, "value_msat")?;
        let payment_request = field::<String>(tree, "payment_request")?;
        let status = field::<String>(tree, "status")?;
        let fee_sat = field::<String>(tree, "fee_sat")?;
        let fee_msat = field::<String>(tree, "fee_msat")?;
        let creation_time_ns = field::<String>(tree, "creation_time_ns")?;
        let htlcs = field::<Vec<LNDHTLCAttempt>>(tree, "htlcs")?;
        let payment_index = field::<String>(tree, "payment_index")?;
        let failure_reason = field::<String>(tree, "failure_reason")?;
        Some(
            LNDTrackPaymentResponse {
                payment_hash,
                value,
                creation_date,
                fee,
                payment_preimage,
                value_sat,
                value_msat,
                payment_request,
                status,
                fee_sat,
                fee_msat,
                creation_time_ns,
                htlcs,
                payment_index,
                failure_reason,
            },
        )
    }
}

/// One attempt to route a Lightning payment.
#[derive(Debug)]
pub struct LNDHTLCAttempt {
    pub attempt_id: String,
    pub status: String,
    pub route: LNDPaymentRoute,
    pub attempt_time_ns: String,
    pub resolve_time_ns: String,
    pub failure: LNDPaymentFailure,
    pub preimage: String,
}

impl FromJson for LNDHTLCAttempt {
    open spec fn accepts(tree: JsonView) -> bool {
        &&& has::<String>(tree, "attempt_id"@)
        &&& has::<String>(tree, "status"@)
        &&& has::<LNDPaymentRoute>(tree, "route"@)
        &&& has::<String>(tree, "attempt_time_ns"@)
        &&& has::<String>(tree, "resolve_time_ns"@)
        &&& has::<LNDPaymentFailure>(tree, "failure"@)
        &&& has::<String>(tree, "preimage"@)
    }

    open spec fn mirrors(&self, tree: JsonView) -> bool {
        &&& holds(&self.attempt_id, tree, "attempt_id"@)
        &&& holds(&self.status, tree, "status"@)
        &&& holds(&self.route, tree, "route"@)
        &&& holds(&self.attempt_time_ns, tree, "attempt_time_ns"@)
        &&& holds(&self.resolve_time_ns, tree, "resolve_time_ns"@)
        &&& holds(&self.failure, tree, "failure"@)
        &&& holds(&self.preimage, tree, "preimage"@)
    }

    fn from_json(tree: &Json) -> (read: Option<LNDHTLCAttempt>) {
        let attempt_id = field::<String>(tree, "attempt_id")?;
        let status = field::<String>(tree, "status")?;
        let route = field::<LNDPaymentRoute>(tree, "route")?;
        let attempt_time_ns = field::<String>(tree, "attempt_time_ns")?;
        let resolve_time_ns = field::<String>(tree, "resolve_time_ns")?;
        let failure = field::<LNDPaymentFailure>(tree, "failure")?;
        let preimage = field::<String>(tree, "preimage")?;
        Some(
            LNDHTLCAttempt {
                attempt_id,
                status,
                route,
                attempt_time_ns,
                resolve_time_ns,
                failure,
                preimage,
            },
        )
    }
}

/// The route that an attempt took.
#[derive(Debug)]
pub struct LNDPaymentRoute {
    pub total_time_lock: i32,
    pub total_fees: String,
    pub total_fees_msat: String,
    pub total_amt: String,
    pub hops: Vec<LNDHop>,
}

impl FromJson for LNDPaymentRoute {
    open spec fn accepts(tree: JsonView) -> bool {
        &&& has::<i32>(tree, "total_time_lock"@)
        &&& has::<String>(tree, "total_fees"@)
        &&& has::<String>(tree, "total_fees_msat"@)
        &&& has::<String>(tree, "total_amt"@)
        &&& has::<Vec<LNDHop>>(tree, "hops"@)
    }

    open spec fn mirrors(&self, tree: JsonView) -> bool {
        &&& holds(&self.total_time_lock, tree, "total_time_lock"@)
        &&& holds(&self.total_fees, tree, "total_fees"@)
        &&& holds(&self.total_fees_msat, tree, "total_fees_msat"@)
        &&& holds(&self.total_amt, tree, "total_amt"@)
        &&& holds(&self.hops, tree, "hops"@)
    }

    fn from_json(tree: &Json) -> (read: Option<LNDPaymentRoute>) {
        let total_time_lock = field::<i32>(tree, "total_time_lock")?;
        let total_fees = field::<String>(tree, "total_fees")?;
        let total_fees_msat = field::<String>(tree, "total_fees_msat")?;
        let total_amt = field::<String>(tree, "total_amt")?;
        let hops = field::<Vec<LNDHop>>(tree, "hops")?;
        Some(LNDPaymentRoute { total_time_lock, total_fees, total_fees_msat, total_amt, hops })
    }
}

/// One hop of a route.
#[derive(Debug)]
pub struct LNDHop {
    pub chan_id: String,
    pub chan_capacity: String,
    pub amt_to_forward: String,
    pub expiry: i32,
}

impl FromJson for LNDHop {
    open spec fn accepts(tree: JsonView) -> bool {
        &&& has::<String>(tree, "chan_id"@)
        &&& has::<String>(tree, "chan_capacity"@)
        &&& has::<String>(tree, "amt_to_forward"@)
        &&& has::<i32>(tree, "expiry"@)
    }

    open spec fn mirrors(&self, tree: JsonView) -> bool {
        &&& holds(&self.chan_id, tree, "chan_id"@)
        &&& holds(&self.chan_capacity, tree, "chan_capacity"@)
        &&& holds(&self.amt_to_forward, tree, "amt_to_forward"@)
        &&& holds(&self.expiry, tree, "expiry"@)
    }

    fn from_json(tree: &Json) -> (read: Option<LNDHop>) {
        let chan_id = field::<String>(tree, "chan_id")?;
        let chan_capacity = field::<String>(tree, "chan_capacity")?;
        let amt_to_forward = field::<String>(tree, "amt_to_forward")?;
        let expiry = field::<i32>(tree, "expiry")?;
        Some(LNDHop { chan_id, chan_capacity, amt_to_forward, expiry })
    }
}

/// Why an attempt failed.
#[derive(Debug)]
pub struct LNDPaymentFailure {
    pub code: String,
    pub channel_update: LNDChannelUpdate,
    pub htlc_msat: String,
    pub onion_sha_256: String,
    pub cltv_expiry: i32,
    pub flags: i32,
    pub failure_source_index: i32,
    pub height: i32,
}

impl FromJson for LNDPaymentFailure {
    open spec fn accepts(tree: JsonView) -> bool {
        &&& has::<String>(tree, "code"@)
        &&& has::<LNDChannelUpdate>(tree, "channel_update"@)
        &&& has::<String>(tree, "htlc_msat"@)
        &&& has::<String>(tree, "onion_sha_256"@)
        &&& has::<i32>(tree, "cltv_expiry"@)
        &&& has::<i32>(tree, "flags"@)
        &&& has::<i32>(tree, "failure_source_index"@)
        &&& has::<i32>(tree, "height"@)
    }

    open spec fn mirrors(&self, tree: JsonView) -> bool {
        &&& holds(&self.code, tree, "code"@)
        &&& holds(&self.channel_update, tree, "channel_update"@)
        &&& holds(&self.htlc_msat, tree, "htlc_msat"@)
        &&& holds(&self.onion_sha_256, tree, "onion_sha_256"@)
        &&& holds(&self.cltv_expiry, tree, "cltv_expiry"@)
        &&& holds(&self.flags, tree, "flags"@)
        &&& holds(&self.failure_source_index, tree, "failure_source_index"@)
        &&& holds(&self.height, tree, "height"@)
    }

    fn from_json(tree: &Json) -> (read: Option<LNDPaymentFailure>) {
        let code = field::<String>(tree, "code")?;
        let channel_update = field::<LNDChannelUpdate>(tree, "channel_update")?;
        let htlc_msat = field::<String>(tree, "htlc_msat")?;
        let onion_sha_256 = field::<String>(tree, "onion_sha_256")?;
        let cltv_expiry = field::<i32>(tree, "cltv_expiry")?;
        let flags = field::<i32>(tree, "flags")?;
        let failure_source_index = field::<i32>(tree, "failure_source_index")?;
        let height = field::<i32>(tree, "height")?;
        Some(
            LNDPaymentFailure {
                code,
                channel_update,
                htlc_msat,
                onion_sha_256,
                cltv_expiry,
                flags,
                failure_source_index,
                height,
            },
        )
    }
}

/// The channel update that came with a failure.
#[derive(Debug)]
pub struct LNDChannelUpdate {
    pub signature: String,
    pub chain_hash: String,
    pub chan_id: String,
    pub timestamp: i32,
    pub message_flags: i32,
    pub channel_flags: i32,
    pub time_lock_delta: i32,
    pub htlc_minimum_msat: String,
    pub base_fee: i32,
    pub fee_rate: i32,
    pub htlc_maximum_msat: String,
    pub extra_opaque_data: String,
}

impl FromJson for LNDChannelUpdate {
    open spec fn accepts(tree: JsonView) -> bool {
        &&& has::<String>(tree, "signature"@)
        &&& has::<String>(tree, "chain_hash"@)
        &&& has::<String>(tree, "chan_id"@)
        &&& has::<i32>(tree, "timestamp"@)
        &&& has::<i32>(tree, "message_flags"@)
        &&& has::<i32>(tree, "channel_flags"@)
        &&& has::<i32>(tree, "time_lock_delta"@)
        &&& has::<String>(tree, "htlc_minimum_msat"@)
        &&& has::<i32>(tree, "base_fee"@)
        &&& has::<i32>(tree, "fee_rate"@)
        &&& has::<String>(tree, "htlc_maximum_msat"@)
        &&& has::<String>(tree, "extra_opaque_data"@)
    }

    open spec fn mirrors(&self, tree: JsonView) -> bool {
        &&& holds(&self.signature, tree, "signature"@)
        &&& holds(&self.chain_hash, tree, "chain_hash"@)
        &&& holds(&self.chan_id, tree, "chan_id"@)
        &&& holds(&self.timestamp, tree, "timestamp"@)
        &&& holds(&self.message_flags, tree, "message_flags"@)
        &&& holds(&self.channel_flags, tree, "channel_flags"@)
        &&& holds(&self.time_lock_delta, tree, "time_lock_delta"@)
        &&& holds(&self.htlc_minimum_msat, tree, "htlc_minimum_msat"@)
        &&& holds(&self.base_fee, tree, "base_fee"@)
        &&& holds(&self.fee_rate, tree, "fee_rate"@)
        &&& holds(&self.htlc_maximum_msat, tree, "htlc_maximum_msat"@)
        &&& holds(&self.extra_opaque_data, tree, "extra_opaque_data"@)
    }

    fn from_json(tree: &Json) -> (read: Option<LNDChannelUpdate>) {
        let signature = field::<String>(tree, "signature")?;
        let chain_hash = field::<String>(tree, "chain_hash")?;
        let chan_id = field::<String>(tree, "chan_id")?;
        let timestamp = field::<i32>(tree, "timestamp")?;
        let message_flags = field::<i32>(tree, "message_flags")?;
        let channel_flags = field::<i32>(tree, "channel_flags")?;
        let time_lock_delta = field::<i32>(tree, "time_lock_delta")?;
        let htlc_minimum_msat = field::<String>(tree, "htlc_minimum_msat")?;
        let base_fee = field::<i32>(tree, "base_fee")?;
        let fee_rate = field::<i32>(tree, "fee_rate")?;
        let htlc_maximum_msat = field::<String>(tree, "htlc_maximum_msat")?;
        let extra_opaque_data = field::<String>(tree, "extra_opaque_data")?;
        Some(
            LNDChannelUpdate {
                signature,
                chain_hash,
                chan_id,
                timestamp,
                message_flags,
                channel_flags,
                time_lock_delta,
                htlc_minimum_msat,
                base_fee,
                fee_rate,
                htlc_maximum_msat,
                extra_opaque_data,
            },
        )
    }
}

/// What the service answers to a query for the transactions.
#[derive(Debug)]
pub struct GetTransactionsResponse {
    pub status: u16,
    pub message: String,
    pub data: Vec<Transaction>,
}

impl FromJson for GetTransactionsResponse {
    open spec fn accepts(tree: JsonView) -> bool {
        &&& has::<u16>(tree, "status"@)
        &&& has::<String>(tree, "message"@)
        &&& has::<Vec<Transaction>>(tree, "data"@)
    }

    open spec fn mirrors(&self, tree: JsonView) -> bool {
        &&& holds(&self.status, tree, "status"@)
        &&& holds(&self.message, tree, "message"@)
        &&& holds(&self.data, tree, "data"@)
    }

    fn from_json(tree: &Json) -> (read: Option<GetTransactionsResponse>) {
        let status = field::<u16>(tree, "status")?;
        let message = field::<String>(tree, "message")?;
        let data = field::<Vec<Transaction>>(tree, "data")?;
        Some(GetTransactionsResponse { status, message, data })
    }
}

/// One entry of the ledger.
#[derive(Debug)]
pub struct Transaction {
    pub id: String,
    pub company_id: String,
    pub amount_sats: u64,
    pub recipient: String,
    pub rail_type: String,
    /// The member `type`.
    pub kind: String,
    pub fee_microsats: u64,
    pub status: String,
    pub created_at: String,
}

impl FromJson for Transaction {
    open spec fn accepts(tree: JsonView) -> bool {
        &&& has::<String>(tree, "id"@)
        &&& has::<String>(tree, "company_id"@)
        &&& has::<u64>(tree, "amount_sats"@)
        &&& has::<String>(tree, "recipient"@)
        &&& has::<String>(tree, "rail_type"@)
        &&& has::<String>(tree, "type"@)
        &&& has::<u64>(tree, "fee_microsats"@)
        &&& has::<String>(tree, "status"@)
        &&& has::<String>(tree, "created_at"@)
    }

    open spec fn mirrors(&self, tree: JsonView) -> bool {
        &&& holds(&self.id, tree, "id"@)
        &&& holds(&self.company_id, tree, "company_id"@)
        &&& holds(&self.amount_sats, tree, "amount_sats"@)
        &&& holds(&self.recipient, tree, "recipient"@)
        &&& holds(&self.rail_type, tree, "rail_type"@)
        &&& holds(&self.kind, tree, "type"@)
        &&& holds(&self.fee_microsats, tree, "fee_microsats"@)
        &&& holds(&self.status, tree, "status"@)
        &&& holds(&self.created_at, tree, "created_at"@)
    }

    fn from_json(tree: &Json) -> (read: Option<Transaction>) {
        let id = field::<String>(tree, "id")?;
        let company_id = field::<String>(tree, "company_id")?;
        let amount_sats = field::<u64>(tree, "amount_sats")?;
        let recipient = field::<String>(tree, "recipient")?;
        let rail_type = field::<String>(tree, "rail_type")?;
        let kind = field::<String>(tree, "type")?;
        let fee_microsats = field::<u64>(tree, "fee_microsats")?;
        let status = field::<String>(tree, "status")?;
        let created_at = field::<String>(tree, "created_at")?;
        Some(
            Transaction {
                id,
                company_id,
                amount_sats,
                recipient,
                rail_type,
                kind,
                fee_microsats,
                status,
                created_at,
            },
        )
    }
}

} // verus!
