use dintero::adapters::{AccountsAdapter, HttpClient};
use dintero::client::{
    list_transactions_path, transaction_action_path, transaction_path, EchoAdapter, PaymentsClient,
    PaymentsOperations,
};
use dintero::error::PaymentsError;
use dintero::text::u32_to_string;
use dintero::transactions::{
    CaptureTransactionRequest, ExtendAuthorizationRequest, ListTransactionsParams,
    RefundTransactionRequest, TransactionStatus, UpdateTransactionRequest, VoidTransactionRequest,
};

fn echo_client() -> PaymentsClient<EchoAdapter> {
    PaymentsClient::new(EchoAdapter { status: TransactionStatus::Authorized }, "acc_1".to_string())
}

#[test]
fn get_transaction_reaches_the_adapter_with_the_exact_path() {
    let t = echo_client().get_transaction("txn_123").ok().unwrap();
    assert_eq!(t.id, "accounts/acc_1/transactions/txn_123");
    assert_eq!(t.status, TransactionStatus::Authorized);
}

#[test]
fn capture_posts_to_the_capture_action_with_the_request_body() {
    let request = CaptureTransactionRequest { amount: 42, capture_reference: None };
    let t = echo_client().capture_transaction("txn_1", request).ok().unwrap();
    assert_eq!(t.id, "accounts/acc_1/transactions/txn_1/capture");
    assert_eq!(t.amount, 42);
}

#[test]
fn refund_posts_to_the_refund_action_with_the_request_body() {
    let request = RefundTransactionRequest { amount: 7, reason: Some("damaged".to_string()) };
    let t = echo_client().refund_transaction("txn_2", request).ok().unwrap();
    assert_eq!(t.id, "accounts/acc_1/transactions/txn_2/refund");
    assert_eq!(t.amount, 7);
}

#[test]
fn void_posts_to_the_void_action() {
    let request = VoidTransactionRequest { reason: None };
    let t = echo_client().void_transaction("txn_3", request).ok().unwrap();
    assert_eq!(t.id, "accounts/acc_1/transactions/txn_3/void");
    assert_eq!(t.amount, 0);
}

#[test]
fn extend_authorization_posts_to_its_action() {
    let request = ExtendAuthorizationRequest { days: 14 };
    let t = echo_client().extend_authorization("txn_4", request).ok().unwrap();
    assert_eq!(t.id, "accounts/acc_1/transactions/txn_4/extend_authorization");
}

#[test]
fn update_puts_to_the_transaction_resource() {
    let request = UpdateTransactionRequest { merchant_reference: Some("m-1".to_string()) };
    let t = echo_client().update_transaction("txn_5", request).ok().unwrap();
    assert_eq!(t.id, "accounts/acc_1/transactions/txn_5");
}

#[test]
fn list_transactions_carries_the_query_string_to_the_adapter() {
    let params = ListTransactionsParams {
        limit: Some(5),
        page_token: Some("tok".to_string()),
        status: Some(TransactionStatus::Captured),
        merchant_reference: Some("ref-1".to_string()),
    };
    let resp = echo_client().list_transactions(params).ok().unwrap();
    assert_eq!(resp.transactions.len(), 1);
    assert_eq!(
        resp.transactions[0].id,
        "accounts/acc_1/transactions?limit=5&page_token=tok&status=Captured&merchant_reference=ref-1"
    );
    assert_eq!(resp.next_page_token, None);
}

#[test]
fn path_helpers_follow_the_resource_grammar() {
    assert_eq!(transaction_path("a", "t"), "accounts/a/transactions/t");
    assert_eq!(transaction_action_path("a", "t", "capture"), "accounts/a/transactions/t/capture");
}

#[test]
fn list_path_with_only_limit_is_exactly_one_segment() {
    let params = ListTransactionsParams {
        limit: Some(10),
        page_token: None,
        status: None,
        merchant_reference: None,
    };
    assert_eq!(list_transactions_path("acc", &params), "accounts/acc/transactions?limit=10");
}

#[test]
fn list_path_without_filters_has_no_question_mark() {
    let params = ListTransactionsParams {
        limit: None,
        page_token: None,
        status: None,
        merchant_reference: None,
    };
    assert_eq!(list_transactions_path("acc", &params), "accounts/acc/transactions");
}

#[test]
fn list_path_keeps_the_fixed_segment_order() {
    let params = ListTransactionsParams {
        limit: None,
        page_token: Some("p".to_string()),
        status: None,
        merchant_reference: Some("m".to_string()),
    };
    assert_eq!(
        list_transactions_path("acc", &params),
        "accounts/acc/transactions?page_token=p&merchant_reference=m"
    );
}

#[test]
fn status_filter_uses_the_variant_name() {
    let params = ListTransactionsParams {
        limit: None,
        page_token: None,
        status: Some(TransactionStatus::Refunded),
        merchant_reference: None,
    };
    assert_eq!(list_transactions_path("acc", &params), "accounts/acc/transactions?status=Refunded");
}

#[test]
fn u32_rendering_matches_decimal() {
    assert_eq!(u32_to_string(0), "0");
    assert_eq!(u32_to_string(9), "9");
    assert_eq!(u32_to_string(10), "10");
    assert_eq!(u32_to_string(1234567890), "1234567890");
    assert_eq!(u32_to_string(u32::MAX), "4294967295");
}

#[test]
fn serde_failures_map_to_the_serialization_kind() {
    let decode_err = serde_json::from_str::<serde_json::Value>("not json").err().unwrap();
    let err = PaymentsError::from_serde(decode_err);
    assert!(err.is_serialization());
    assert!(!err.is_client());
    assert!(!err.message().is_empty());
}

#[test]
fn client_errors_keep_their_message() {
    let err = PaymentsError::Client("boom".to_string());
    assert!(err.is_client());
    assert_eq!(err.message(), "boom");
}

#[test]
fn accounts_adapter_copies_the_connection_settings() {
    let http = HttpClient {
        base_url: "https://api.example.test".to_string(),
        api_token: "SECRET-REDACTED".to_string(),
    };
    let adapter = AccountsAdapter::new(&http);
    assert_eq!(adapter.accounts_client.base_url, "https://api.example.test");
    assert_eq!(adapter.accounts_client.api_token, http.api_token);
}
