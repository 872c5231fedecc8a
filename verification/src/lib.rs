pub mod client;
pub mod decode;
pub mod encode;
pub mod errors;
pub mod json;
pub mod metadata;
pub mod models;
pub mod requests;

pub use client::{BitvoraClient, Call, Endpoint, Exchange, HttpRequest, Method};
pub use decode::FromJson;
pub use encode::ToJson;
pub use errors::{APIError, DecodeError};
pub use json::Json;
pub use metadata::Metadata;
pub use models::{
    CreateLightningAddressData, CreateLightningAddressResponse, CreateLightningInvoiceData,
    CreateLightningInvoiceResponse, CreateOnChainAddressData, CreateOnChainAddressResponse,
    EstimateWithdrawalData, EstimateWithdrawalResponse, GetBalanceData, GetBalanceResponse,
    GetDepositData, GetDepositResponse, GetTransactionsResponse, LNDChannelUpdate, LNDHTLCAttempt,
    LNDHop, LNDPaymentFailure, LNDPaymentRoute, LNDTrackPaymentResponse, Transaction,
    WithdrawData, WithdrawResponse,
};
pub use requests::{
    CreateLightningAddressRequest, CreateLightningInvoiceRequest, CreateOnChainAddressRequest,
    EstimateWithdrawalRequest, WithdrawRequest,
};
