//! Domain data records for payment transactions: the entity, list filters,
//! and the request payloads of the transaction operations.

use vstd::prelude::*;

verus! {

/// Where a transaction stands in its lifecycle.
#[derive(Debug, Clone, Copy, PartialEq, Eq, Structural)]
pub enum TransactionStatus {
    Authorized,
    Captured,
    Refunded,
    Voided,
    Failed,
}

/// The characters of a status as it appears in a query string: the variant's
/// name.
pub open spec fn status_str(s: TransactionStatus) -> Seq<char> {
    match s {
        TransactionStatus::Authorized => "Authorized"@,
        TransactionStatus::Captured => "Captured"@,
        TransactionStatus::Refunded => "Refunded"@,
        TransactionStatus::Voided => "Voided"@,
        TransactionStatus::Failed => "Failed"@,
    }
}

impl TransactionStatus {
    /// The status as query-string text, exactly as `status_str` describes.
    pub fn as_str(self) -> (r: &'static str)
        ensures
            r@ == status_str(self),
    {
        match self {
            TransactionStatus::Authorized => "Authorized",
            TransactionStatus::Captured => "Captured",
            TransactionStatus::Refunded => "Refunded",
            TransactionStatus::Voided => "Voided",
            TransactionStatus::Failed => "Failed",
        }
    }
}

#[verifier::ext_equal]
pub struct TransactionV {
    pub id: Seq<char>,
    pub amount: u64,
    pub status: TransactionStatus,
}

/// A payment transaction as the service returns it.
#[derive(Debug, Clone)]
pub struct Transaction {
    pub id: String,
    pub amount: u64,
    pub status: TransactionStatus,
}

impl View for Transaction {
    type V = TransactionV;

    open spec fn view(&self) -> TransactionV {
        TransactionV { id: self.id@, amount: self.amount, status: self.status }
    }
}

impl DeepView for Transaction {
    type V = TransactionV;

    open spec fn deep_view(&self) -> TransactionV {
        self.view()
    }
}

#[verifier::ext_equal]
pub struct TransactionListResponseV {
    pub transactions: Seq<TransactionV>,
    pub next_page_token: Option<Seq<char>>,
}

/// One page of transactions, with the continuation token for the next page;
/// an absent token means there are no further pages.
#[derive(Debug, Clone)]
pub struct TransactionListResponse {
    pub transactions: Vec<Transaction>,
    pub next_page_token: Option<String>,
}

impl View for TransactionListResponse {
    type V = TransactionListResponseV;

    open spec fn view(&self) -> TransactionListResponseV {
        TransactionListResponseV {
            transactions: self.transactions.deep_view(),
            next_page_token: self.next_page_token.deep_view(),
        }
    }
}

#[verifier::ext_equal]
pub struct ListTransactionsParamsV {
    pub limit: Option<u32>,
    pub page_token: Option<Seq<char>>,
    pub status: Option<TransactionStatus>,
    pub merchant_reference: Option<Seq<char>>,
}

/// Optional filters for listing transactions. Each present filter becomes one
/// query-string segment, in this field order.
#[derive(Debug, Clone)]
pub struct ListTransactionsParams {
    pub limit: Option<u32>,
    pub page_token: Option<String>,
    pub status: Option<TransactionStatus>,
    pub merchant_reference: Option<String>,
}

impl View for ListTransactionsParams {
    type V = ListTransactionsParamsV;

    open spec fn view(&self) -> ListTransactionsParamsV {
        ListTransactionsParamsV {
            limit: self.limit,
            page_token: self.page_token.deep_view(),
            status: self.status,
            merchant_reference: self.merchant_reference.deep_view(),
        }
    }
}

/// The view of an empty filter set, as the `Default` impl returns it.
pub open spec fn list_transactions_params_default_v() -> ListTransactionsParamsV {
    ListTransactionsParamsV { limit: None, page_token: None, status: None, merchant_reference: None }
}

impl Default for ListTransactionsParams {
    fn default() -> (r: Self)
        ensures
            r@ == list_transactions_params_default_v(),
    {
        ListTransactionsParams { limit: None, page_token: None, status: None, merchant_reference: None }
    }
}

// ---------------------------------------------------------------------------
// Request payloads of the transaction operations
// ---------------------------------------------------------------------------

#[verifier::ext_equal]
pub struct UpdateTransactionRequestV {
    pub merchant_reference: Option<Seq<char>>,
}

/// Fields of a transaction the caller may change; absent fields are omitted
/// from the wire payload, so the service leaves them untouched.
#[derive(Debug, Clone)]
pub struct UpdateTransactionRequest {
    pub merchant_reference: Option<String>,
}

impl View for UpdateTransactionRequest {
    type V = UpdateTransactionRequestV;

    open spec fn view(&self) -> UpdateTransactionRequestV {
        UpdateTransactionRequestV { merchant_reference: self.merchant_reference.deep_view() }
    }
}

#[verifier::ext_equal]
pub struct CaptureTransactionRequestV {
    pub amount: u64,
    pub capture_reference: Option<Seq<char>>,
}

/// The amount to capture from an authorized transaction.
#[derive(Debug, Clone)]
pub struct CaptureTransactionRequest {
    pub amount: u64,
    pub capture_reference: Option<String>,
}

impl View for CaptureTransactionRequest {
    type V = CaptureTransactionRequestV;

    open spec fn view(&self) -> CaptureTransactionRequestV {
        CaptureTransactionRequestV {
            amount: self.amount,
            capture_reference: self.capture_reference.deep_view(),
        }
    }
}

#[verifier::ext_equal]
pub struct RefundTransactionRequestV {
    pub amount: u64,
    pub reason: Option<Seq<char>>,
}

/// The amount to refund from a captured transaction.
#[derive(Debug, Clone)]
pub struct RefundTransactionRequest {
    pub amount: u64,
    pub reason: Option<String>,
}

impl View for RefundTransactionRequest {
    type V = RefundTransactionRequestV;

    open spec fn view(&self) -> RefundTransactionRequestV {
        RefundTransactionRequestV { amount: self.amount, reason: self.reason.deep_view() }
    }
}

#[verifier::ext_equal]
pub struct VoidTransactionRequestV {
    pub reason: Option<Seq<char>>,
}

/// Voids an authorization before capture.
#[derive(Debug, Clone)]
pub struct VoidTransactionRequest {
    pub reason: Option<String>,
}

impl View for VoidTransactionRequest {
    type V = VoidTransactionRequestV;

    open spec fn view(&self) -> VoidTransactionRequestV {
        VoidTransactionRequestV { reason: self.reason.deep_view() }
    }
}

#[verifier::ext_equal]
pub struct ExtendAuthorizationRequestV {
    pub days: u32,
}

/// Asks for an authorization's validity to be extended.
#[derive(Debug, Clone)]
pub struct ExtendAuthorizationRequest {
    pub days: u32,
}

impl View for ExtendAuthorizationRequest {
    type V = ExtendAuthorizationRequestV;

    open spec fn view(&self) -> ExtendAuthorizationRequestV {
        ExtendAuthorizationRequestV { days: self.days }
    }
}

#[verifier::ext_equal]
pub enum TransactionRequestV {
    Update(UpdateTransactionRequestV),
    Capture(CaptureTransactionRequestV),
    Refund(RefundTransactionRequestV),
    Void(VoidTransactionRequestV),
    ExtendAuthorization(ExtendAuthorizationRequestV),
}

/// One request body of a write operation on a transaction, as handed to the
/// adapter. The adapter's transport serializes it; absent optional fields are
/// omitted from the wire, never sent as null.
#[derive(Debug, Clone)]
pub enum TransactionRequest {
    Update(UpdateTransactionRequest),
    Capture(CaptureTransactionRequest),
    Refund(RefundTransactionRequest),
    Void(VoidTransactionRequest),
    ExtendAuthorization(ExtendAuthorizationRequest),
}

impl View for TransactionRequest {
    type V = TransactionRequestV;

    open spec fn view(&self) -> TransactionRequestV {
        match self {
            TransactionRequest::Update(r) => TransactionRequestV::Update(r@),
            TransactionRequest::Capture(r) => TransactionRequestV::Capture(r@),
            TransactionRequest::Refund(r) => TransactionRequestV::Refund(r@),
            TransactionRequest::Void(r) => TransactionRequestV::Void(r@),
            TransactionRequest::ExtendAuthorization(r) => TransactionRequestV::ExtendAuthorization(
                r@,
            ),
        }
    }
}

} // verus!
