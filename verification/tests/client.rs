use bitvora::{
    APIError, BitvoraClient, CreateLightningAddressRequest, CreateLightningInvoiceRequest,
    CreateOnChainAddressRequest, DecodeError, Endpoint, EstimateWithdrawalRequest, Exchange,
    Metadata, Method, WithdrawRequest,
};
use reqwest::StatusCode;
use serde_json::Number;

const BASE: &str = "https://api.signet.bitvora.com";

fn client() -> BitvoraClient {
    BitvoraClient::new(BASE, "SECRET-REDACTED")
}

fn status(code: u16) -> StatusCode {
    StatusCode::from_u16(code).unwrap()
}

fn replied(code: u16, body: &str) -> Exchange {
    Exchange::Replied(status(code), body.to_string())
}

fn sats(amount: f64) -> Number {
    Number::from_f64(amount).unwrap()
}

fn user_metadata() -> Metadata {
    let mut metadata = Metadata::new();
    metadata.insert("userID".to_string(), "1234".to_string());
    metadata
}

const WITHDRAWAL: &str = r#"{"status":201,"message":"ok","data":{"id":"w-1","amount_sats":21,
    "recipient":"user@domain","fee_sats":0.5,"network_type":"signet","rail_type":"lightning",
    "status":"settled","lightning_payment":null,"chain_tx_id":null,
    "metadata":{"userID":"1234"},"created_at":"2024-01-01T00:00:00Z"}}"#;

#[test]
fn withdraw_sends_the_request_as_json() {
    let call = client().withdraw(WithdrawRequest {
        amount: sats(21.0),
        currency: "sats".to_string(),
        destination: "user@domain".to_string(),
        metadata: user_metadata(),
    });
    assert_eq!(call.request.method, Method::Post);
    assert_eq!(call.request.url, "https://api.signet.bitvora.com/v1/bitcoin/withdraw/confirm");
    assert_eq!(call.request.bearer_token, "SECRET-REDACTED");
    assert_eq!(call.request.authorization(), "Bearer SECRET-REDACTED");
    assert_eq!(
        call.request.body.as_deref(),
        Some(
            r#"{"amount":21.0,"currency":"sats","destination":"user@domain","metadata":{"userID":"1234"}}"#
        )
    );
}

#[test]
fn withdraw_against_a_created_reply_yields_status_201() {
    let call = client().withdraw(WithdrawRequest {
        amount: sats(21.0),
        currency: "sats".to_string(),
        destination: "user@domain".to_string(),
        metadata: user_metadata(),
    });
    let response = call.conclude(replied(201, WITHDRAWAL)).unwrap();
    assert_eq!(response.status, 201);
    assert_eq!(response.message, "ok");
    assert_eq!(response.data.id, "w-1");
    assert_eq!(response.data.amount_sats, 21);
    assert_eq!(response.data.recipient, "user@domain");
    assert_eq!(response.data.fee_sats.as_f64(), Some(0.5));
    assert_eq!(response.data.network_type, "signet");
    assert_eq!(response.data.rail_type, "lightning");
    assert_eq!(response.data.status, "settled");
    assert!(response.data.lightning_payment.is_none());
    assert!(response.data.chain_tx_id.is_none());
    let metadata = response.data.metadata.unwrap();
    assert_eq!(metadata.len(), 1);
    assert_eq!(metadata.get("userID").map(String::as_str), Some("1234"));
    assert_eq!(response.data.created_at, "2024-01-01T00:00:00Z");
}

#[test]
fn get_balance_against_an_ok_reply_yields_the_balance() {
    let call = client().get_balance();
    assert_eq!(call.request.method, Method::Get);
    assert_eq!(call.request.url, "https://api.signet.bitvora.com/v1/transactions/balance");
    assert_eq!(call.request.bearer_token, "SECRET-REDACTED");
    assert!(call.request.body.is_none());
    let response = call
        .conclude(replied(200, r#"{"status":200,"message":"ok","data":{"balance":5000}}"#))
        .unwrap();
    assert_eq!(response.status, 200);
    assert_eq!(response.message, "ok");
    assert_eq!(response.data.balance, 5000);
}

#[test]
fn estimate_withdrawal_sends_and_reads() {
    let call = client().estimate_withdrawal(EstimateWithdrawalRequest {
        amount: sats(21.0),
        currency: "sats".to_string(),
        destination: "user@domain".to_string(),
    });
    assert_eq!(call.request.method, Method::Post);
    assert_eq!(call.request.url, "https://api.signet.bitvora.com/v1/bitcoin/withdraw/estimate");
    assert_eq!(
        call.request.body.as_deref(),
        Some(r#"{"amount":21.0,"currency":"sats","destination":"user@domain"}"#)
    );
    let response = call
        .conclude(replied(
            200,
            r#"{"status":200,"message":"ok","data":{"recipient":"user@domain",
            "recipient_type":"lightning_address","amount_sats":21,"bitvora_fee_sats":1,
            "success_probability":0.95}}"#,
        ))
        .unwrap();
    assert_eq!(response.status, 200);
    assert_eq!(response.data.recipient, "user@domain");
    assert_eq!(response.data.recipient_type, "lightning_address");
    assert_eq!(response.data.amount_sats, 21);
    assert_eq!(response.data.bitvora_fee_sats.as_f64(), Some(1.0));
    assert_eq!(response.data.success_probability.as_f64(), Some(0.95));
}

#[test]
fn create_lightning_invoice_sends_and_reads() {
    let call = client().create_lightning_invoice(CreateLightningInvoiceRequest {
        amount: sats(21.0),
        currency: "sats".to_string(),
        description: "Test invoice".to_string(),
        expiry_seconds: 3600,
        metadata: None,
    });
    assert_eq!(call.request.method, Method::Post);
    assert_eq!(
        call.request.url,
        "https://api.signet.bitvora.com/v1/bitcoin/deposit/lightning-invoice"
    );
    assert_eq!(
        call.request.body.as_deref(),
        Some(
            r#"{"amount":21.0,"currency":"sats","description":"Test invoice","expiry_seconds":3600,"metadata":null}"#
        )
    );
    let response = call
        .conclude(replied(
            201,
            r#"{"status":201,"message":"created","data":{"id":"inv-1","node_id":"node",
            "memo":"Test invoice","r_preimage":"pre","r_hash":"hash","amount_sats":21,
            "settled":false,"payment_request":"lnbc1","metadata":null,
            "lightning_address_id":"addr-1"}}"#,
        ))
        .unwrap();
    assert_eq!(response.status, 201);
    assert_eq!(response.message, "created");
    assert_eq!(response.data.id, "inv-1");
    assert_eq!(response.data.node_id, "node");
    assert_eq!(response.data.memo, "Test invoice");
    assert_eq!(response.data.r_preimage, "pre");
    assert_eq!(response.data.r_hash, "hash");
    assert_eq!(response.data.amount_sats, 21);
    assert!(!response.data.settled);
    assert_eq!(response.data.payment_request, "lnbc1");
    assert!(response.data.metadata.is_none());
    assert_eq!(response.data.lightning_address_id.as_deref(), Some("addr-1"));
}

#[test]
fn create_lightning_address_sends_and_reads() {
    let call = client().create_lightning_address(CreateLightningAddressRequest {
        handle: "".to_string(),
        domain: "".to_string(),
        metadata: None,
    });
    assert_eq!(call.request.method, Method::Post);
    assert_eq!(
        call.request.url,
        "https://api.signet.bitvora.com/v1/bitcoin/deposit/lightning-address"
    );
    let body: serde_json::Value =
        serde_json::from_str(call.request.body.as_deref().unwrap()).unwrap();
    assert_eq!(body.as_object().unwrap().len(), 3);
    assert_eq!(body["handle"].as_str(), Some(""));
    assert_eq!(body["domain"].as_str(), Some(""));
    assert!(body["metadata"].is_null());
    let response = call
        .conclude(replied(
            201,
            r#"{"status":201,"message":"created","data":{"id":"a-1","handle":"zebu",
            "domain":"bitvora.me","address":"zebu@bitvora.me","created_at":"now",
            "last_used_at":null}}"#,
        ))
        .unwrap();
    assert_eq!(response.status, 201);
    assert_eq!(response.data.id, "a-1");
    assert_eq!(response.data.handle, "zebu");
    assert_eq!(response.data.domain, "bitvora.me");
    assert_eq!(response.data.address, "zebu@bitvora.me");
    assert!(response.data.metadata.is_none());
    assert_eq!(response.data.created_at, "now");
    assert!(response.data.last_used_at.is_none());
    assert!(response.data.deleted_at.is_none());
}

#[test]
fn create_onchain_address_sends_and_reads() {
    let call = client().create_onchain_address(CreateOnChainAddressRequest {
        metadata: Some(user_metadata()),
    });
    assert_eq!(call.request.method, Method::Post);
    assert_eq!(call.request.url, "https://api.signet.bitvora.com/v1/bitcoin/deposit/on-chain");
    assert_eq!(call.request.body.as_deref(), Some(r#"{"metadata":{"userID":"1234"}}"#));
    let response = call
        .conclude(replied(
            201,
            r#"{"status":201,"message":"created","data":{"id":"c-1","address":"tb1q",
            "metadata":{"a":"1","b":"2"},"created_at":"now"}}"#,
        ))
        .unwrap();
    assert_eq!(response.status, 201);
    assert_eq!(response.data.id, "c-1");
    assert_eq!(response.data.address, "tb1q");
    let metadata = response.data.metadata.unwrap();
    assert_eq!(metadata.len(), 2);
    assert_eq!(metadata.get("a").map(String::as_str), Some("1"));
    assert_eq!(metadata.get("b").map(String::as_str), Some("2"));
    assert_eq!(response.data.created_at, "now");
}

#[test]
fn get_withdrawal_puts_the_id_in_the_url() {
    let call = client().get_withdrawal("0f92dad1-3897-4a7f-bf1f-a00d6aa6a814");
    assert_eq!(call.request.method, Method::Get);
    assert_eq!(
        call.request.url,
        "https://api.signet.bitvora.com/v1/transactions/withdrawals/0f92dad1-3897-4a7f-bf1f-a00d6aa6a814"
    );
    assert_eq!(call.request.bearer_token, "SECRET-REDACTED");
    assert!(call.request.body.is_none());
    let response = call.conclude(replied(200, WITHDRAWAL)).unwrap();
    assert_eq!(response.status, 201);
    assert_eq!(response.data.id, "w-1");
}

#[test]
fn get_deposit_puts_the_id_in_the_url() {
    let call = client().get_deposit("ddef8269-b99d-414b-9696-033ce5c878e1");
    assert_eq!(call.request.method, Method::Get);
    assert_eq!(
        call.request.url,
        "https://api.signet.bitvora.com/v1/transactions/deposits/ddef8269-b99d-414b-9696-033ce5c878e1"
    );
    assert!(call.request.body.is_none());
    let response = call
        .conclude(replied(
            200,
            r#"{"status":200,"message":"ok","data":{"id":"d-1","ledger_tx_id":"l-1",
            "recipient":"me","amount_sats":1000,"fee_sats":0,"chain_tx_id":"tx",
            "rail_type":"onchain","network_type":"signet","status":"confirmed",
            "metadata":null,"lightning_invoice_id":null,"created_at":"then"}}"#,
        ))
        .unwrap();
    assert_eq!(response.status, 200);
    assert_eq!(response.data.id, "d-1");
    assert_eq!(response.data.ledger_tx_id, "l-1");
    assert_eq!(response.data.recipient, "me");
    assert_eq!(response.data.amount_sats, 1000);
    assert_eq!(response.data.fee_sats.as_f64(), Some(0.0));
    assert_eq!(response.data.chain_tx_id.as_deref(), Some("tx"));
    assert_eq!(response.data.rail_type, "onchain");
    assert_eq!(response.data.network_type, "signet");
    assert_eq!(response.data.status, "confirmed");
    assert!(response.data.metadata.is_none());
    assert!(response.data.lightning_invoice_id.is_none());
    assert_eq!(response.data.created_at, "then");
}

#[test]
fn get_transactions_reads_the_list_in_order() {
    let call = client().get_transactions();
    assert_eq!(call.request.method, Method::Get);
    assert_eq!(call.request.url, "https://api.signet.bitvora.com/v1/transactions");
    assert!(call.request.body.is_none());
    let response = call
        .conclude(replied(
            200,
            r#"{"status":200,"message":"ok","data":[
            {"id":"t-1","company_id":"c","amount_sats":10,"recipient":"r1","rail_type":"lightning",
             "type":"deposit","fee_microsats":1500,"status":"settled","created_at":"a"},
            {"id":"t-2","company_id":"c","amount_sats":20,"recipient":"r2","rail_type":"onchain",
             "type":"withdrawal","fee_microsats":0,"status":"pending","created_at":"b"}]}"#,
        ))
        .unwrap();
    assert_eq!(response.status, 200);
    assert_eq!(response.data.len(), 2);
    assert_eq!(response.data[0].id, "t-1");
    assert_eq!(response.data[0].company_id, "c");
    assert_eq!(response.data[0].amount_sats, 10);
    assert_eq!(response.data[0].recipient, "r1");
    assert_eq!(response.data[0].rail_type, "lightning");
    assert_eq!(response.data[0].kind, "deposit");
    assert_eq!(response.data[0].fee_microsats, 1500);
    assert_eq!(response.data[0].status, "settled");
    assert_eq!(response.data[0].created_at, "a");
    assert_eq!(response.data[1].id, "t-2");
    assert_eq!(response.data[1].kind, "withdrawal");
    assert_eq!(response.data[1].amount_sats, 20);
}

#[test]
fn every_endpoint_has_its_method_and_path() {
    let table = [
        (Endpoint::Withdraw, Method::Post, "/v1/bitcoin/withdraw/confirm"),
        (Endpoint::EstimateWithdrawal, Method::Post, "/v1/bitcoin/withdraw/estimate"),
        (Endpoint::CreateLightningInvoice, Method::Post, "/v1/bitcoin/deposit/lightning-invoice"),
        (Endpoint::CreateLightningAddress, Method::Post, "/v1/bitcoin/deposit/lightning-address"),
        (Endpoint::CreateOnChainAddress, Method::Post, "/v1/bitcoin/deposit/on-chain"),
        (Endpoint::GetWithdrawal, Method::Get, "/v1/transactions/withdrawals/"),
        (Endpoint::GetDeposit, Method::Get, "/v1/transactions/deposits/"),
        (Endpoint::GetBalance, Method::Get, "/v1/transactions/balance"),
        (Endpoint::GetTransactions, Method::Get, "/v1/transactions"),
    ];
    for (endpoint, method, path) in table {
        assert_eq!(endpoint.method(), method);
        assert_eq!(endpoint.path(), path);
    }
}

#[test]
fn a_status_other_than_success_keeps_status_and_body() {
    for code in [400u16, 401, 404, 500, 199, 300] {
        let body = format!("{{\"error\":\"no\",\"code\":{}}} \n trailing text", code);
        match client().get_balance().conclude(replied(code, &body)) {
            Err(APIError::BadRequest(got, text)) => {
                assert_eq!(got.as_u16(), code);
                assert_eq!(text, body);
            }
            other => panic!("expected the status error, got {:?}", other),
        }
    }
}

#[test]
fn an_error_body_is_not_read_as_a_record() {
    let body = r#"{"status":200,"message":"ok","data":{"balance":5000}}"#;
    match client().get_balance().conclude(replied(500, body)) {
        Err(APIError::BadRequest(got, text)) => {
            assert_eq!(got.as_u16(), 500);
            assert_eq!(text, body);
        }
        other => panic!("expected the status error, got {:?}", other),
    }
}

#[test]
fn every_status_of_success_is_read() {
    for code in [200u16, 201, 204, 299] {
        let response = client()
            .get_balance()
            .conclude(replied(code, r#"{"status":200,"message":"ok","data":{"balance":1}}"#))
            .unwrap();
        assert_eq!(response.data.balance, 1);
    }
}

#[test]
fn a_body_that_is_not_json_is_a_serialization_error() {
    for body in ["", "not json", "{\"status\":200,", "{} {}"] {
        match client().get_balance().conclude(replied(200, body)) {
            Err(APIError::Serialization(DecodeError::Malformed(_), kept)) => assert_eq!(kept, body),
            other => panic!("expected a parse failure, got {:?}", other),
        }
    }
}

#[test]
fn a_body_of_another_shape_is_a_serialization_error() {
    let bodies = [
        "null",
        "[]",
        "{}",
        r#"{"status":200,"message":"ok"}"#,
        r#"{"status":"200","message":"ok","data":{"balance":1}}"#,
        r#"{"status":70000,"message":"ok","data":{"balance":1}}"#,
        r#"{"status":-1,"message":"ok","data":{"balance":1}}"#,
        r#"{"status":200.0,"message":"ok","data":{"balance":1}}"#,
        r#"{"status":200,"message":null,"data":{"balance":1}}"#,
        r#"{"status":200,"message":"ok","data":{"balance":4294967296}}"#,
        r#"{"status":200,"message":"ok","data":{"balance":"1"}}"#,
        r#"{"status":200,"message":"ok","data":[1]}"#,
    ];
    for body in bodies {
        match client().get_balance().conclude(replied(200, body)) {
            Err(APIError::Serialization(DecodeError::Mismatch, kept)) => assert_eq!(kept, body),
            other => panic!("expected a mismatch for {}, got {:?}", body, other),
        }
    }
}

#[test]
fn a_transport_failure_is_a_transport_error() {
    let failure = reqwest::Client::new().get("not a url").build().unwrap_err();
    let text = failure.to_string();
    match client().get_balance().conclude(Exchange::Failed(failure)) {
        Err(APIError::Reqwest(error)) => assert_eq!(error.to_string(), text),
        other => panic!("expected the transport error, got {:?}", other),
    }
}

#[test]
fn errors_describe_themselves() {
    let error = APIError::BadRequest(status(400), "nope".to_string());
    assert_eq!(error.describe(), "Bad request (400 Bad Request): nope");
    let error = APIError::Http(status(503));
    assert_eq!(error.describe(), "HTTP error with status code: 503 Service Unavailable");
    let error = APIError::Serialization(DecodeError::Mismatch, "{}".to_string());
    assert_eq!(
        error.describe(),
        "Serialization error: response does not match the expected schema"
    );
    let parse = serde_json::from_str::<serde_json::Value>("{").unwrap_err();
    let text = parse.to_string();
    assert_eq!(text, "EOF while parsing an object at line 1 column 1");
    let error = APIError::Serialization(DecodeError::Malformed(parse), "{".to_string());
    assert_eq!(error.describe(), format!("Serialization error: {}", text));
    let failure = reqwest::Client::new().get("not a url").build().unwrap_err();
    let text = failure.to_string();
    assert!(!text.is_empty());
    let error = APIError::from(failure);
    assert_eq!(error.describe(), format!("Request error: {}", text));
    assert!(matches!(error, APIError::Reqwest(_)));
}
