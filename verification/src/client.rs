use crate::decode::FromJson;
use crate::encode::ToJson;
use crate::errors::{reports_success, APIError, DecodeError};
use crate::json::{parsed_text, rendered_text, Json, JsonView};
use crate::models::{
    CreateLightningAddressResponse, CreateLightningInvoiceResponse, CreateOnChainAddressResponse,
    EstimateWithdrawalResponse, GetBalanceResponse, GetDepositResponse, GetTransactionsResponse,
    WithdrawResponse,
};
use crate::requests::{
    CreateLightningAddressRequest, CreateLightningInvoiceRequest, CreateOnChainAddressRequest,
    EstimateWithdrawalRequest, WithdrawRequest,
};
use core::marker::PhantomData;
use vstd::prelude::*;
use vstd::string::StringExecFns;

verus! {

/// The HTTP method of a request.
#[derive(Clone, Copy, Debug, PartialEq, Eq, Structural)]
pub enum Method {
    Get,
    Post,
}

/// The operations that the service offers.
#[derive(Clone, Copy, Debug, PartialEq, Eq, Structural)]
pub enum Endpoint {
    Withdraw,
    EstimateWithdrawal,
    CreateLightningInvoice,
    CreateLightningAddress,
    CreateOnChainAddress,
    GetWithdrawal,
    GetDeposit,
    GetBalance,
    GetTransactions,
}

impl Endpoint {
    /// The method with which the operation is asked for.
    pub open spec fn method_of(self) -> Method {
        match self {
            Endpoint::Withdraw
            | Endpoint::EstimateWithdrawal
            | Endpoint::CreateLightningInvoice
            | Endpoint::CreateLightningAddress
            | Endpoint::CreateOnChainAddress => Method::Post,
            Endpoint::GetWithdrawal
            | Endpoint::GetDeposit
            | Endpoint::GetBalance
            | Endpoint::GetTransactions => Method::Get,
        }
    }

    /// The path of the operation below the base URL. For the two lookups it
    /// ends in a slash, and the identifier follows it.
    pub open spec fn path_of(self) -> Seq<char> {
        match self {
            Endpoint::Withdraw => "/v1/bitcoin/withdraw/confirm"@,
            Endpoint::EstimateWithdrawal => "/v1/bitcoin/withdraw/estimate"@,
            Endpoint::CreateLightningInvoice => "/v1/bitcoin/deposit/lightning-invoice"@,
            Endpoint::CreateLightningAddress => "/v1/bitcoin/deposit/lightning-address"@,
            Endpoint::CreateOnChainAddress => "/v1/bitcoin/deposit/on-chain"@,
            Endpoint::GetWithdrawal => "/v1/transactions/withdrawals/"@,
            Endpoint::GetDeposit => "/v1/transactions/deposits/"@,
            Endpoint::GetBalance => "/v1/transactions/balance"@,
            Endpoint::GetTransactions => "/v1/transactions"@,
        }
    }

    /// The method with which the operation is asked for.
    pub fn method(self) -> (method: Method)
        ensures
            method == self.method_of(),
    {
        match self {
            Endpoint::Withdraw
            | Endpoint::EstimateWithdrawal
            | Endpoint::CreateLightningInvoice
            | Endpoint::CreateLightningAddress
            | Endpoint::CreateOnChainAddress => Method::Post,
            Endpoint::GetWithdrawal
            | Endpoint::GetDeposit
            | Endpoint::GetBalance
            | Endpoint::GetTransactions => Method::Get,
        }
    }

    /// The path of the operation below the base URL.
    pub fn path(self) -> (path: &'static str)
        ensures
            path@ == self.path_of(),
    {
        match self {
            Endpoint::Withdraw => "/v1/bitcoin/withdraw/confirm",
            Endpoint::EstimateWithdrawal => "/v1/bitcoin/withdraw/estimate",
            Endpoint::CreateLightningInvoice => "/v1/bitcoin/deposit/lightning-invoice",
            Endpoint::CreateLightningAddress => "/v1/bitcoin/deposit/lightning-address",
            Endpoint::CreateOnChainAddress => "/v1/bitcoin/deposit/on-chain",
            Endpoint::GetWithdrawal => "/v1/transactions/withdrawals/",
            Endpoint::GetDeposit => "/v1/transactions/deposits/",
            Endpoint::GetBalance => "/v1/transactions/balance",
            Endpoint::GetTransactions => "/v1/transactions",
        }
    }
}

/// One HTTP request, as plain values for a transport to send.
#[derive(Debug)]
pub struct HttpRequest {
    pub method: Method,
    pub url: String,
    /// The token of the `Authorization: Bearer` header.
    pub bearer_token: String,
    /// The JSON text to send as the body, if the request has one.
    pub body: Option<String>,
}

impl HttpRequest {
    /// The value of the `Content-Type` header: that of JSON where there is a
    /// body, none where there is not.
    pub fn content_type(&self) -> (value: Option<&'static str>)
        ensures
            match value {
                Some(text) => self.body is Some && text@ == "application/json"@,
                None => self.body is None,
            },
    {
        match &self.body {
            Some(_) => Some("application/json"),
            None => None,
        }
    }

    /// The value of the `Authorization` header.
    pub fn authorization(&self) -> (value: String)
        ensures
            value@ == "Bearer "@ + self.bearer_token@,
    {
        let mut value = "Bearer ".to_owned();
        value.append(self.bearer_token.as_str());
        value
    }
}

/// What came of sending a request.
#[derive(Debug)]
pub enum Exchange {
    /// The transport failed before a response was complete.
    Failed(reqwest::Error),
    /// A response came, with this status and this body.
    Replied(reqwest::StatusCode, String),
}

/// What reading `body` as a `T` gives: the record that mirrors the document,
/// or the reason why there is none.
pub open spec fn reads<T: FromJson>(body: Seq<char>, read: Result<T, DecodeError>) -> bool {
    match parsed_text(body) {
        Some(tree) => if T::accepts(tree) {
            read matches Ok(value) && value.mirrors(tree)
        } else {
            read == Err::<T, DecodeError>(DecodeError::Mismatch)
        },
        None => read matches Err(DecodeError::Malformed(_)),
    }
}

/// Reads a response body as a `T`.
pub fn read_body<T: FromJson>(body: &str) -> (read: Result<T, DecodeError>)
    ensures
        reads(body@, read),
{
    match Json::parse(body) {
        Ok(tree) => match T::from_json(&tree) {
            Some(value) => Ok(value),
            None => Err(DecodeError::Mismatch),
        },
        Err(error) => Err(DecodeError::Malformed(error)),
    }
}

/// What a call comes to, given what came of sending its request.
pub open spec fn concludes<T: FromJson>(exchange: Exchange, outcome: Result<T, APIError>) -> bool {
    match exchange {
        Exchange::Failed(error) => outcome == Err::<T, APIError>(APIError::Reqwest(error)),
        Exchange::Replied(status, body) => if reports_success(status) {
            match outcome {
                Ok(value) => reads(body@, Ok::<T, DecodeError>(value)),
                Err(APIError::Serialization(error, kept)) => kept == body && reads(
                    body@,
                    Err::<T, DecodeError>(error),
                ),
                Err(_) => false,
            }
        } else {
            outcome == Err::<T, APIError>(APIError::BadRequest(status, body))
        },
    }
}

/// A call that is under way: the request to send, and the kind of record that
/// the response is read as.
pub struct Call<T> {
    /// The request to send.
    pub request: HttpRequest,
    /// Stands for the record that the response is read as.
    pub reply: PhantomData<T>,
}

impl<T: FromJson> Call<T> {
    /// Ends the call: turns what came of sending the request into the record
    /// or the error.
    pub fn conclude(self, exchange: Exchange) -> (outcome: Result<T, APIError>)
        ensures
            concludes(exchange, outcome),
    {
        match exchange {
            Exchange::Failed(error) => Err(APIError::Reqwest(error)),
            Exchange::Replied(status, body) => {
                if status.is_success() {
                    match read_body::<T>(body.as_str()) {
                        Ok(value) => Ok(value),
                        Err(error) => Err(APIError::Serialization(error, body)),
                    }
                } else {
                    Err(APIError::BadRequest(status, body))
                }
            },
        }
    }
}

/// A response of success whose body is a document of the shape of `T` gives
/// the record that mirrors the document.
pub proof fn law_success_gives_the_record<T: FromJson>(
    status: reqwest::StatusCode,
    body: String,
    tree: JsonView,
    outcome: Result<T, APIError>,
)
    requires
        concludes(Exchange::Replied(status, body), outcome),
        reports_success(status),
        parsed_text(body@) == Some(tree),
        T::accepts(tree),
    ensures
        outcome matches Ok(record) && record.mirrors(tree),
{
}

/// A response with any status but one of success gives the error that holds
/// that very status and that very body, whatever the body says.
pub proof fn law_other_status_gives_status_and_body<T: FromJson>(
    status: reqwest::StatusCode,
    body: String,
    outcome: Result<T, APIError>,
)
    requires
        concludes(Exchange::Replied(status, body), outcome),
        !reports_success(status),
    ensures
        outcome == Err::<T, APIError>(APIError::BadRequest(status, body)),
{
}

/// A response of success whose body is no JSON document, or one of another
/// shape than `T`, gives the serialization error, never a record.
pub proof fn law_unreadable_body_gives_serialization_error<T: FromJson>(
    status: reqwest::StatusCode,
    body: String,
    outcome: Result<T, APIError>,
)
    requires
        concludes(Exchange::Replied(status, body), outcome),
        reports_success(status),
        parsed_text(body@) matches Some(tree) ==> !T::accepts(tree),
    ensures
        outcome matches Err(APIError::Serialization(error, kept)) && kept == body && (error
            is Malformed <==> parsed_text(body@) is None),
{
}

/// A failure of the transport gives the transport error, which is neither a
/// record nor the error of a status.
pub proof fn law_transport_failure_gives_transport_error<T: FromJson>(
    failure: reqwest::Error,
    outcome: Result<T, APIError>,
)
    requires
        concludes(Exchange::Failed(failure), outcome),
    ensures
        outcome == Err::<T, APIError>(APIError::Reqwest(failure)),
        !(outcome matches Err(APIError::BadRequest(_, _))),
        !(outcome matches Err(APIError::Http(_))),
{
}

/// The client: where the service is, and the key that opens it.
pub struct BitvoraClient {
    base_url: String,
    api_key: String,
}

impl BitvoraClient {
    /// The URL below which the operations live.
    pub closed spec fn base_url(&self) -> Seq<char> {
        self.base_url@
    }

    /// The key that every request carries.
    pub closed spec fn api_key(&self) -> Seq<char> {
        self.api_key@
    }

    /// Whether `request` asks for `endpoint` in this client's name, about `id`
    /// where it is a lookup, and with `body` as its JSON text where it has one.
    pub open spec fn asks(
        &self,
        request: HttpRequest,
        endpoint: Endpoint,
        id: Option<Seq<char>>,
        body: Option<Seq<char>>,
    ) -> bool {
        &&& request.method == endpoint.method_of()
        &&& request.url@ == match id {
            Some(id) => self.base_url() + endpoint.path_of() + id,
            None => self.base_url() + endpoint.path_of(),
        }
        &&& request.bearer_token@ == self.api_key()
        &&& match body {
            Some(text) => request.body matches Some(sent) && sent@ == text,
            None => request.body is None,
        }
    }

    /// A client for the service at `base_url`, with `api_key` as its key.
    pub fn new(base_url: &str, api_key: &str) -> (client: BitvoraClient)
        ensures
            client.base_url() == base_url@,
            client.api_key() == api_key@,
    {
        BitvoraClient { base_url: base_url.to_owned(), api_key: api_key.to_owned() }
    }

    /// The call for `endpoint`: the URL is the base URL, the path and the
    /// identifier; the body is the text of `body`.
    fn prepare<T>(&self, endpoint: Endpoint, id: Option<&str>, body: Option<&Json>) -> (call:
        Call<T>)
        ensures
            self.asks(
                call.request,
                endpoint,
                match id {
                    Some(id) => Some(id@),
                    None => None,
                },
                match body {
                    Some(tree) => Some(rendered_text(tree@)),
                    None => None,
                },
            ),
    {
        let mut url = self.base_url.clone();
        url.append(endpoint.path());
        if let Some(id) = id {
            url.append(id);
        }
        let body = match body {
            Some(tree) => Some(tree.render()),
            None => None,
        };
        Call {
            request: HttpRequest {
                method: endpoint.method(),
                url,
                bearer_token: self.api_key.clone(),
                body,
            },
            reply: PhantomData,
        }
    }

    /// Starts a withdrawal.
    pub fn withdraw(&self, request: WithdrawRequest) -> (call: Call<WithdrawResponse>)
        ensures
            self.asks(
                call.request,
                Endpoint::Withdraw,
                None,
                Some(rendered_text(request.json())),
            ),
    {
        self.prepare(Endpoint::Withdraw, None, Some(&request.to_json()))
    }

    /// Asks what a withdrawal would cost.
    pub fn estimate_withdrawal(&self, request: EstimateWithdrawalRequest) -> (call: Call<
        EstimateWithdrawalResponse,
    >)
        ensures
            self.asks(
                call.request,
                Endpoint::EstimateWithdrawal,
                None,
                Some(rendered_text(request.json())),
            ),
    {
        self.prepare(Endpoint::EstimateWithdrawal, None, Some(&request.to_json()))
    }

    /// Asks for a Lightning invoice to be paid into the account.
    pub fn create_lightning_invoice(&self, request: CreateLightningInvoiceRequest) -> (call: Call<
        CreateLightningInvoiceResponse,
    >)
        ensures
            self.asks(
                call.request,
                Endpoint::CreateLightningInvoice,
                None,
                Some(rendered_text(request.json())),
            ),
    {
        self.prepare(Endpoint::CreateLightningInvoice, None, Some(&request.to_json()))
    }

    /// Asks for a Lightning address.
    pub fn create_lightning_address(&self, request: CreateLightningAddressRequest) -> (call: Call<
        CreateLightningAddressResponse,
    >)
        ensures
            self.asks(
                call.request,
                Endpoint::CreateLightningAddress,
                None,
                Some(rendered_text(request.json())),
            ),
    {
        self.prepare(Endpoint::CreateLightningAddress, None, Some(&request.to_json()))
    }

    /// Asks for an on-chain address.
    pub fn create_onchain_address(&self, request: CreateOnChainAddressRequest) -> (call: Call<
        CreateOnChainAddressResponse,
    >)
        ensures
            self.asks(
                call.request,
                Endpoint::CreateOnChainAddress,
                None,
                Some(rendered_text(request.json())),
            ),
    {
        self.prepare(Endpoint::CreateOnChainAddress, None, Some(&request.to_json()))
    }

    /// Looks up the withdrawal `id`.
    pub fn get_withdrawal(&self, id: &str) -> (call: Call<WithdrawResponse>)
        ensures
            self.asks(call.request, Endpoint::GetWithdrawal, Some(id@), None),
    {
        self.prepare(Endpoint::GetWithdrawal, Some(id), None)
    }

    /// Looks up the deposit `id`.
    pub fn get_deposit(&self, id: &str) -> (call: Call<GetDepositResponse>)
        ensures
            self.asks(call.request, Endpoint::GetDeposit, Some(id@), None),
    {
        self.prepare(Endpoint::GetDeposit, Some(id), None)
    }

    /// Asks for the balance of the account.
    pub fn get_balance(&self) -> (call: Call<GetBalanceResponse>)
        ensures
            self.asks(call.request, Endpoint::GetBalance, None, None),
    {
        self.prepare(Endpoint::GetBalance, None, None)
    }

    /// Asks for the transactions of the account.
    pub fn get_transactions(&self) -> (call: Call<GetTransactionsResponse>)
        ensures
            self.asks(call.request, Endpoint::GetTransactions, None, None),
    {
        self.prepare(Endpoint::GetTransactions, None, None)
    }
}

} // verus!
