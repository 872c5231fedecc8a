use crate::encode::ToJson;
use crate::json::{Json, JsonView};
use crate::metadata::Metadata;
use vstd::prelude::*;

verus! {

/// A withdrawal to make.
pub struct WithdrawRequest {
    pub amount: serde_json::Number,
    pub currency: String,
    pub destination: String,
    pub metadata: Metadata,
}

impl ToJson for WithdrawRequest {
    open spec fn json(&self) -> JsonView {
        JsonView::Object(
            seq![
                ("amount"@, self.amount.json()),
                ("currency"@, self.currency.json()),
                ("destination"@, self.destination.json()),
                ("metadata"@, self.metadata.json()),
            ],
        )
    }

    fn to_json(&self) -> (tree: Json) {
        let mut fields: Vec<(String, Json)> = Vec::new();
        fields.push(("amount".to_owned(), self.amount.to_json()));
        fields.push(("currency".to_owned(), self.currency.to_json()));
        fields.push(("destination".to_owned(), self.destination.to_json()));
        fields.push(("metadata".to_owned(), self.metadata.to_json()));
        let tree = Json::Object(fields);
        assert(tree@->Object_0 =~= self.json()->Object_0);
        tree
    }
}

/// A withdrawal to estimate.
pub struct EstimateWithdrawalRequest {
    pub amount: serde_json::Number,
    pub currency: String,
    pub destination: String,
}

impl ToJson for EstimateWithdrawalRequest {
    open spec fn json(&self) -> JsonView {
        JsonView::Object(
            seq![
                ("amount"@, self.amount.json()),
                ("currency"@, self.currency.json()),
                ("destination"@, self.destination.json()),
            ],
        )
    }

    fn to_json(&self) -> (tree: Json) {
        let mut fields: Vec<(String, Json)> = Vec::new();
        fields.push(("amount".to_owned(), self.amount.to_json()));
        fields.push(("currency".to_owned(), self.currency.to_json()));
        fields.push(("destination".to_owned(), self.destination.to_json()));
        let tree = Json::Object(fields);
        assert(tree@->Object_0 =~= self.json()->Object_0);
        tree
    }
}

/// A Lightning invoice to create.
pub struct CreateLightningInvoiceRequest {
    pub amount: serde_json::Number,
    pub currency: String,
    pub description: String,
    pub expiry_seconds: u64,
    pub metadata: Option<Metadata>,
}

impl ToJson for CreateLightningInvoiceRequest {
    open spec fn json(&self) -> JsonView {
        JsonView::Object(
            seq![
                ("amount"@, self.amount.json()),
                ("currency"@, self.currency.json()),
                ("description"@, self.description.json()),
                ("expiry_seconds"@, self.expiry_seconds.json()),
                ("metadata"@, self.metadata.json()),
            ],
        )
    }

    fn to_json(&self) -> (tree: Json) {
        let mut fields: Vec<(String, Json)> = Vec::new();
        fields.push(("amount".to_owned(), self.amount.to_json()));
        fields.push(("currency".to_owned(), self.currency.to_json()));
        fields.push(("description".to_owned(), self.description.to_json()));
        fields.push(("expiry_seconds".to_owned(), self.expiry_seconds.to_json()));
        fields.push(("metadata".to_owned(), self.metadata.to_json()));
        let tree = Json::Object(fields);
        assert(tree@->Object_0 =~= self.json()->Object_0);
        tree
    }
}

/// A Lightning address to create.
pub struct CreateLightningAddressRequest {
    pub handle: String,
    pub domain: String,
    pub metadata: Option<Metadata>,
}

impl ToJson for CreateLightningAddressRequest {
    open spec fn json(&self) -> JsonView {
        JsonView::Object(
            seq![
                ("handle"@, self.handle.json()),
                ("domain"@, self.domain.json()),
                ("metadata"@, self.metadata.json()),
            ],
        )
    }

    fn to_json(&self) -> (tree: Json) {
        let mut fields: Vec<(String, Json)> = Vec::new();
        fields.push(("handle".to_owned(), self.handle.to_json()));
        fields.push(("domain".to_owned(), self.domain.to_json()));
        fields.push(("metadata".to_owned(), self.metadata.to_json()));
        let tree = Json::Object(fields);
        assert(tree@->Object_0 =~= self.json()->Object_0);
        tree
    }
}

/// An on-chain address to create.
pub struct CreateOnChainAddressRequest {
    pub metadata: Option<Metadata>,
}

impl ToJson for CreateOnChainAddressRequest {
    open spec fn json(&self) -> JsonView {
        JsonView::Object(seq![("metadata"@, self.metadata.json())])
    }

    fn to_json(&self) -> (tree: Json) {
        let mut fields: Vec<(String, Json)> = Vec::new();
        fields.push(("metadata".to_owned(), self.metadata.to_json()));
        let tree = Json::Object(fields);
        assert(tree@->Object_0 =~= self.json()->Object_0);
        tree
    }
}

} // verus!
