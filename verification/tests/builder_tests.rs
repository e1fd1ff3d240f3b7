use dintero::session_types::{Customer, CustomerTokens, Order, SessionConfiguration, SessionUrl};
use dintero::sessions::{
    CreateMerchantInitiatedSessionRequest, CreateSessionRequest, CreateSessionRequestPayload,
    ListSessionsParams, PaymentOperation,
};

fn sample_order() -> Order {
    Order {
        amount: 2500,
        currency: "NOK".to_string(),
        merchant_reference: Some("order-77".to_string()),
    }
}

#[test]
fn complete_chain_builds_with_last_token_setters_tag() {
    let req = CreateMerchantInitiatedSessionRequest::builder()
        .order(sample_order())
        .with_payex_recurrence_token("rec-1".to_string())
        .recurring_purchase()
        .build()
        .ok()
        .unwrap();
    assert_eq!(req.payment.payment_product_type, "payex.creditcard");
    assert_eq!(req.payment.operation, PaymentOperation::RecurringPurchase);
    assert_eq!(req.order.amount, 2500);
    let tokens = req.customer.tokens.unwrap();
    let cc = tokens.payex.unwrap().creditcard.unwrap();
    assert_eq!(cc.recurrence_token, Some("rec-1".to_string()));
    assert_eq!(cc.payment_token, None);
}

#[test]
fn later_token_setter_overwrites_product_type() {
    let req = CreateMerchantInitiatedSessionRequest::builder()
        .order(sample_order())
        .with_payex_payment_token("pay-1".to_string())
        .with_bambora_payment_token("bam-1".to_string())
        .unscheduled_purchase()
        .build()
        .ok()
        .unwrap();
    assert_eq!(req.payment.payment_product_type, "bambora.creditcard");
    let tokens = req.customer.tokens.unwrap();
    // Both providers keep their tokens; only the product type follows the last setter.
    assert_eq!(
        tokens.payex.unwrap().creditcard.unwrap().payment_token,
        Some("pay-1".to_string())
    );
    assert_eq!(
        tokens.bambora.unwrap().creditcard.unwrap().payment_token,
        Some("bam-1".to_string())
    );
}

#[test]
fn dintero_psp_token_sets_its_tag() {
    let req = CreateMerchantInitiatedSessionRequest::builder()
        .order(sample_order())
        .with_dintero_psp_payment_token("psp-1".to_string())
        .recurring_purchase()
        .build()
        .ok()
        .unwrap();
    assert_eq!(req.payment.payment_product_type, "dintero_psp.creditcard");
    let tokens = req.customer.tokens.unwrap();
    assert_eq!(
        tokens.dintero_psp.unwrap().creditcard.unwrap().payment_token,
        Some("psp-1".to_string())
    );
}

#[test]
fn missing_order_fails_first_whatever_else_is_set() {
    let err = CreateMerchantInitiatedSessionRequest::builder()
        .with_payex_payment_token("pay-1".to_string())
        .unscheduled_purchase()
        .build()
        .err()
        .unwrap();
    assert_eq!(err, "order is required");
}

#[test]
fn missing_customer_fails_second() {
    let err = CreateMerchantInitiatedSessionRequest::builder()
        .order(sample_order())
        .recurring_purchase()
        .build()
        .err()
        .unwrap();
    assert_eq!(err, "customer with tokens is required");
}

#[test]
fn customer_without_token_fails_on_product_type() {
    let customer = Customer {
        customer_id: Some("cus_9".to_string()),
        email: None,
        tokens: None,
    };
    let err = CreateMerchantInitiatedSessionRequest::builder()
        .order(sample_order())
        .customer(customer)
        .recurring_purchase()
        .build()
        .err()
        .unwrap();
    assert_eq!(err, "payment_product_type is required (set a token first)");
}

#[test]
fn missing_operation_fails_last() {
    let err = CreateMerchantInitiatedSessionRequest::builder()
        .order(sample_order())
        .with_payex_recurrence_token("rec-1".to_string())
        .build()
        .err()
        .unwrap();
    assert_eq!(
        err,
        "operation is required (call recurring_purchase() or unscheduled_purchase())"
    );
}

#[test]
fn recurring_then_unscheduled_keeps_unscheduled() {
    let req = CreateMerchantInitiatedSessionRequest::builder()
        .order(sample_order())
        .with_payex_payment_token("pay-1".to_string())
        .recurring_purchase()
        .unscheduled_purchase()
        .build()
        .ok()
        .unwrap();
    assert_eq!(req.payment.operation, PaymentOperation::UnscheduledPurchase);
}

#[test]
fn unscheduled_then_recurring_keeps_recurring() {
    let req = CreateMerchantInitiatedSessionRequest::builder()
        .order(sample_order())
        .with_payex_payment_token("pay-1".to_string())
        .unscheduled_purchase()
        .recurring_purchase()
        .build()
        .ok()
        .unwrap();
    assert_eq!(req.payment.operation, PaymentOperation::RecurringPurchase);
}

#[test]
fn optional_setters_carry_into_the_request() {
    let req = CreateMerchantInitiatedSessionRequest::builder()
        .order(sample_order())
        .callback_url("https://example.test/callback".to_string())
        .profile_id("prof_1".to_string())
        .auto_capture(true)
        .with_payex_recurrence_token("rec-1".to_string())
        .recurring_purchase()
        .build()
        .ok()
        .unwrap();
    assert_eq!(req.url.callback_url, Some("https://example.test/callback".to_string()));
    assert_eq!(req.url.return_url, None);
    assert_eq!(req.profile_id, Some("prof_1".to_string()));
    assert_eq!(req.configuration.unwrap().auto_capture, Some(true));
}

#[test]
fn auto_capture_reuses_an_existing_configuration() {
    let req = CreateMerchantInitiatedSessionRequest::builder()
        .order(sample_order())
        .configuration(SessionConfiguration { auto_capture: Some(false) })
        .auto_capture(true)
        .with_payex_recurrence_token("rec-1".to_string())
        .recurring_purchase()
        .build()
        .ok()
        .unwrap();
    assert_eq!(req.configuration.unwrap().auto_capture, Some(true));
}

#[test]
fn token_setter_keeps_an_explicit_customer() {
    let customer = Customer {
        customer_id: Some("cus_1".to_string()),
        email: Some("c@example.test".to_string()),
        tokens: Some(CustomerTokens { payex: None, bambora: None, dintero_psp: None }),
    };
    let req = CreateMerchantInitiatedSessionRequest::builder()
        .order(sample_order())
        .customer(customer)
        .with_bambora_payment_token("bam-2".to_string())
        .unscheduled_purchase()
        .build()
        .ok()
        .unwrap();
    assert_eq!(req.customer.customer_id, Some("cus_1".to_string()));
    assert_eq!(req.customer.email, Some("c@example.test".to_string()));
    let tokens = req.customer.tokens.unwrap();
    assert_eq!(
        tokens.bambora.unwrap().creditcard.unwrap().payment_token,
        Some("bam-2".to_string())
    );
}

#[test]
fn payload_conversion_preserves_every_field() {
    let req = CreateSessionRequest {
        url: SessionUrl {
            return_url: Some("https://example.test/return".to_string()),
            callback_url: Some("https://example.test/callback".to_string()),
        },
        order: sample_order(),
        profile_id: Some("prof_9".to_string()),
        return_url: Some("https://example.test/alt-return".to_string()),
        merchant_terms_url: Some("https://example.test/terms".to_string()),
        configuration: Some(SessionConfiguration { auto_capture: Some(true) }),
        customer: Some(Customer {
            customer_id: Some("cus_2".to_string()),
            email: None,
            tokens: None,
        }),
    };
    let payload = CreateSessionRequestPayload::from(req.clone());
    assert_eq!(payload.url.return_url, req.url.return_url);
    assert_eq!(payload.url.callback_url, req.url.callback_url);
    assert_eq!(payload.order.amount, req.order.amount);
    assert_eq!(payload.order.currency, req.order.currency);
    assert_eq!(payload.order.merchant_reference, req.order.merchant_reference);
    assert_eq!(payload.profile_id, req.profile_id);
    assert_eq!(payload.return_url, req.return_url);
    assert_eq!(payload.merchant_terms_url, req.merchant_terms_url);
    assert_eq!(payload.configuration.unwrap().auto_capture, Some(true));
    assert_eq!(payload.customer.unwrap().customer_id, Some("cus_2".to_string()));
}

#[test]
fn payload_conversion_keeps_absent_fields_absent() {
    let req = CreateSessionRequest {
        url: SessionUrl { return_url: None, callback_url: None },
        order: sample_order(),
        profile_id: None,
        return_url: None,
        merchant_terms_url: None,
        configuration: None,
        customer: None,
    };
    let payload = CreateSessionRequestPayload::from(req);
    assert!(payload.profile_id.is_none());
    assert!(payload.return_url.is_none());
    assert!(payload.merchant_terms_url.is_none());
    assert!(payload.configuration.is_none());
    assert!(payload.customer.is_none());
}

#[test]
fn list_sessions_builder_accumulates_filters() {
    let params = ListSessionsParams::builder()
        .limit(25)
        .page_token("tok_next".to_string())
        .build();
    assert_eq!(params.limit, Some(25));
    assert_eq!(params.page_token, Some("tok_next".to_string()));
}

#[test]
fn list_sessions_builder_defaults_to_no_filters() {
    let params = ListSessionsParams::builder().build();
    assert_eq!(params.limit, None);
    assert_eq!(params.page_token, None);
}
