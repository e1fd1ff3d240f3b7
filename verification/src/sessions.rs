//! Checkout-session requests: the wire payload for simple session creation,
//! list parameters, and the fluent builder for merchant-initiated sessions.
//!
//! Builder setters consume the builder and return it with one field (or one
//! nested token path) updated; `build` checks the required fields in a fixed
//! order and fails with a message naming the first missing one.

use vstd::prelude::*;
use vstd::string::StringExecFns;

use crate::session_types::{
    bambora_creditcard_tokens_default_v, bambora_tokens_default_v, customer_default_v,
    customer_tokens_default_v, dintero_psp_creditcard_tokens_default_v,
    dintero_psp_tokens_default_v, payex_creditcard_tokens_default_v, payex_tokens_default_v,
    session_url_default_v, BamboraCreditcardTokens, BamboraCreditcardTokensV, BamboraTokens,
    BamboraTokensV, CheckoutSession, CheckoutSessionV, Customer, CustomerTokens, CustomerTokensV,
    CustomerV, DinteroPspCreditcardTokens, DinteroPspCreditcardTokensV, DinteroPspTokens,
    DinteroPspTokensV, Order, OrderV, PayexCreditcardTokens, PayexCreditcardTokensV, PayexTokens,
    PayexTokensV, SessionConfiguration, SessionConfigurationV, SessionUrl, SessionUrlV,
};

verus! {

// ---------------------------------------------------------------------------
// Simple session creation: request, wire payload, conversion
// ---------------------------------------------------------------------------

#[verifier::ext_equal]
pub struct CreateSessionRequestV {
    pub url: SessionUrlV,
    pub order: OrderV,
    pub profile_id: Option<Seq<char>>,
    pub return_url: Option<Seq<char>>,
    pub merchant_terms_url: Option<Seq<char>>,
    pub configuration: Option<SessionConfigurationV>,
    pub customer: Option<CustomerV>,
}

/// A fully specified session-creation request; every required field is
/// guaranteed present by the type itself, so no builder is needed.
#[derive(Debug, Clone)]
pub struct CreateSessionRequest {
    pub url: SessionUrl,
    pub order: Order,
    pub profile_id: Option<String>,
    pub return_url: Option<String>,
    pub merchant_terms_url: Option<String>,
    pub configuration: Option<SessionConfiguration>,
    pub customer: Option<Customer>,
}

impl View for CreateSessionRequest {
    type V = CreateSessionRequestV;

    open spec fn view(&self) -> CreateSessionRequestV {
        CreateSessionRequestV {
            url: self.url@,
            order: self.order@,
            profile_id: self.profile_id.deep_view(),
            return_url: self.return_url.deep_view(),
            merchant_terms_url: self.merchant_terms_url.deep_view(),
            configuration: self.configuration.deep_view(),
            customer: self.customer.deep_view(),
        }
    }
}

impl DeepView for CreateSessionRequest {
    type V = CreateSessionRequestV;

    open spec fn deep_view(&self) -> CreateSessionRequestV {
        self.view()
    }
}

/// The wire payload for simple session creation. Optional fields that are
/// `None` are omitted entirely from the serialized body, never sent as null.
#[derive(Debug, Clone)]
pub struct CreateSessionRequestPayload {
    pub url: SessionUrl,
    pub order: Order,
    pub profile_id: Option<String>,
    pub return_url: Option<String>,
    pub merchant_terms_url: Option<String>,
    pub configuration: Option<SessionConfiguration>,
    pub customer: Option<Customer>,
}

impl View for CreateSessionRequestPayload {
    type V = CreateSessionRequestV;

    open spec fn view(&self) -> CreateSessionRequestV {
        CreateSessionRequestV {
            url: self.url@,
            order: self.order@,
            profile_id: self.profile_id.deep_view(),
            return_url: self.return_url.deep_view(),
            merchant_terms_url: self.merchant_terms_url.deep_view(),
            configuration: self.configuration.deep_view(),
            customer: self.customer.deep_view(),
        }
    }
}

impl DeepView for CreateSessionRequestPayload {
    type V = CreateSessionRequestV;

    open spec fn deep_view(&self) -> CreateSessionRequestV {
        self.view()
    }
}

/// The payload a request converts to: a field-wise copy. Present fields keep
/// their values; absent fields stay absent.
pub open spec fn payload_of(req: CreateSessionRequest) -> CreateSessionRequestPayload {
    CreateSessionRequestPayload {
        url: req.url,
        order: req.order,
        profile_id: req.profile_id,
        return_url: req.return_url,
        merchant_terms_url: req.merchant_terms_url,
        configuration: req.configuration,
        customer: req.customer,
    }
}

impl From<CreateSessionRequest> for CreateSessionRequestPayload {
    fn from(req: CreateSessionRequest) -> (r: Self) {
        CreateSessionRequestPayload {
            url: req.url,
            order: req.order,
            profile_id: req.profile_id,
            return_url: req.return_url,
            merchant_terms_url: req.merchant_terms_url,
            configuration: req.configuration,
            customer: req.customer,
        }
    }
}

impl vstd::std_specs::convert::FromSpecImpl<CreateSessionRequest> for CreateSessionRequestPayload {
    open spec fn obeys_from_spec() -> bool {
        true
    }

    open spec fn from_spec(req: CreateSessionRequest) -> Self {
        payload_of(req)
    }
}

/// Converting a fully populated request into its wire payload preserves every
/// field's value and keeps every absent field absent.
pub proof fn lemma_payload_conversion_preserves_fields(req: CreateSessionRequest)
    ensures
        payload_of(req)@ == req@,
{
    assert(payload_of(req)@ =~= req@);
}

// ---------------------------------------------------------------------------
// Session listing
// ---------------------------------------------------------------------------

#[verifier::ext_equal]
pub struct SessionListResponseV {
    pub sessions: Seq<CheckoutSessionV>,
    pub next_page_token: Option<Seq<char>>,
}

/// One page of sessions, with the continuation token for the next page;
/// an absent token means there are no further pages.
#[derive(Debug, Clone)]
pub struct SessionListResponse {
    pub sessions: Vec<CheckoutSession>,
    pub next_page_token: Option<String>,
}

impl View for SessionListResponse {
    type V = SessionListResponseV;

    open spec fn view(&self) -> SessionListResponseV {
        SessionListResponseV {
            sessions: self.sessions.deep_view(),
            next_page_token: self.next_page_token.deep_view(),
        }
    }
}

#[verifier::ext_equal]
pub struct ListSessionsParamsV {
    pub limit: Option<u32>,
    pub page_token: Option<Seq<char>>,
}

/// Optional filters for listing sessions.
#[derive(Debug, Clone)]
pub struct ListSessionsParams {
    pub limit: Option<u32>,
    pub page_token: Option<String>,
}

impl View for ListSessionsParams {
    type V = ListSessionsParamsV;

    open spec fn view(&self) -> ListSessionsParamsV {
        ListSessionsParamsV {
            limit: self.limit,
            page_token: self.page_token.deep_view(),
        }
    }
}

/// The view of an empty parameter set, as the `Default` impl returns it.
pub open spec fn list_sessions_params_default_v() -> ListSessionsParamsV {
    ListSessionsParamsV { limit: None, page_token: None }
}

impl Default for ListSessionsParams {
    fn default() -> (r: Self)
        ensures
            r@ == list_sessions_params_default_v(),
    {
        ListSessionsParams { limit: None, page_token: None }
    }
}

impl ListSessionsParams {
    /// Starts a fresh builder with no filters set.
    pub fn builder() -> (r: ListSessionsParamsBuilder)
        ensures
            r@ == list_sessions_params_default_v(),
    {
        ListSessionsParamsBuilder::default()
    }
}

/// Accumulates optional list filters; `build` has nothing to validate and
/// always succeeds.
pub struct ListSessionsParamsBuilder {
    limit: Option<u32>,
    page_token: Option<String>,
}

impl View for ListSessionsParamsBuilder {
    type V = ListSessionsParamsV;

    closed spec fn view(&self) -> ListSessionsParamsV {
        ListSessionsParamsV {
            limit: self.limit,
            page_token: self.page_token.deep_view(),
        }
    }
}

impl Default for ListSessionsParamsBuilder {
    fn default() -> (r: Self)
        ensures
            r@ == list_sessions_params_default_v(),
    {
        ListSessionsParamsBuilder { limit: None, page_token: None }
    }
}

impl ListSessionsParamsBuilder {
    /// Sets the page-size filter, replacing any earlier value.
    pub fn limit(self, limit: u32) -> (r: Self)
        ensures
            r@ == (ListSessionsParamsV { limit: Some(limit), ..self@ }),
    {
        ListSessionsParamsBuilder { limit: Some(limit), page_token: self.page_token }
    }

    /// Sets the continuation token, replacing any earlier value.
    pub fn page_token(self, token: String) -> (r: Self)
        ensures
            r@ == (ListSessionsParamsV { page_token: Some(token@), ..self@ }),
    {
        ListSessionsParamsBuilder { limit: self.limit, page_token: Some(token) }
    }

    /// Materializes the accumulated filters; there are no required fields,
    /// so this cannot fail.
    pub fn build(self) -> (r: ListSessionsParams)
        ensures
            r@ == self@,
    {
        ListSessionsParams { limit: self.limit, page_token: self.page_token }
    }
}

// ---------------------------------------------------------------------------
// Merchant-initiated session creation
// ---------------------------------------------------------------------------

/// How a stored token is to be charged. Selecting one replaces any earlier
/// selection; there is no combined state.
#[derive(Debug, Clone, Copy, PartialEq, Eq, Structural)]
pub enum PaymentOperation {
    Purchase,
    RecurringPurchase,
    UnscheduledPurchase,
}

#[verifier::ext_equal]
pub struct PaymentConfigurationV {
    pub payment_product_type: Seq<char>,
    pub operation: PaymentOperation,
}

/// Routing information for a merchant-initiated charge: which
/// provider/instrument the stored token belongs to, and how to charge it.
#[derive(Debug, Clone)]
pub struct PaymentConfiguration {
    pub payment_product_type: String,
    pub operation: PaymentOperation,
}

impl View for PaymentConfiguration {
    type V = PaymentConfigurationV;

    open spec fn view(&self) -> PaymentConfigurationV {
        PaymentConfigurationV {
            payment_product_type: self.payment_product_type@,
            operation: self.operation,
        }
    }
}

#[verifier::ext_equal]
pub struct CreateMerchantInitiatedSessionRequestV {
    pub url: SessionUrlV,
    pub order: OrderV,
    pub profile_id: Option<Seq<char>>,
    pub configuration: Option<SessionConfigurationV>,
    pub customer: CustomerV,
    pub payment: PaymentConfigurationV,
}

/// A validated merchant-initiated session-creation request, as `build`
/// returns it.
#[derive(Debug, Clone)]
pub struct CreateMerchantInitiatedSessionRequest {
    pub url: SessionUrl,
    pub order: Order,
    pub profile_id: Option<String>,
    pub configuration: Option<SessionConfiguration>,
    pub customer: Customer,
    pub payment: PaymentConfiguration,
}

impl View for CreateMerchantInitiatedSessionRequest {
    type V = CreateMerchantInitiatedSessionRequestV;

    open spec fn view(&self) -> CreateMerchantInitiatedSessionRequestV {
        CreateMerchantInitiatedSessionRequestV {
            url: self.url@,
            order: self.order@,
            profile_id: self.profile_id.deep_view(),
            configuration: self.configuration.deep_view(),
            customer: self.customer@,
            payment: self.payment@,
        }
    }
}

impl CreateMerchantInitiatedSessionRequest {
    /// Starts a fresh builder with every field absent.
    pub fn builder() -> (r: CreateMerchantInitiatedSessionRequestBuilder)
        ensures
            r@ == mi_builder_default_v(),
    {
        CreateMerchantInitiatedSessionRequestBuilder::default()
    }
}

#[verifier::ext_equal]
pub struct MerchantInitiatedBuilderV {
    pub url: SessionUrlV,
    pub order: Option<OrderV>,
    pub profile_id: Option<Seq<char>>,
    pub configuration: Option<SessionConfigurationV>,
    pub customer: Option<CustomerV>,
    pub payment_product_type: Option<Seq<char>>,
    pub operation: Option<PaymentOperation>,
}

/// Builder accumulator for merchant-initiated session requests. Required
/// fields start absent and are checked only at `build`.
pub struct CreateMerchantInitiatedSessionRequestBuilder {
    url: SessionUrl,
    order: Option<Order>,
    profile_id: Option<String>,
    configuration: Option<SessionConfiguration>,
    customer: Option<Customer>,
    payment_product_type: Option<String>,
    operation: Option<PaymentOperation>,
}

impl View for CreateMerchantInitiatedSessionRequestBuilder {
    type V = MerchantInitiatedBuilderV;

    closed spec fn view(&self) -> MerchantInitiatedBuilderV {
        MerchantInitiatedBuilderV {
            url: self.url@,
            order: self.order.deep_view(),
            profile_id: self.profile_id.deep_view(),
            configuration: self.configuration.deep_view(),
            customer: self.customer.deep_view(),
            payment_product_type: self.payment_product_type.deep_view(),
            operation: self.operation,
        }
    }
}

/// The view of a fresh builder: every field absent.
pub open spec fn mi_builder_default_v() -> MerchantInitiatedBuilderV {
    MerchantInitiatedBuilderV {
        url: session_url_default_v(),
        order: None,
        profile_id: None,
        configuration: None,
        customer: None,
        payment_product_type: None,
        operation: None,
    }
}

impl Default for CreateMerchantInitiatedSessionRequestBuilder {
    fn default() -> (r: Self)
        ensures
            r@ == mi_builder_default_v(),
    {
        CreateMerchantInitiatedSessionRequestBuilder {
            url: SessionUrl::default(),
            order: None,
            profile_id: None,
            configuration: None,
            customer: None,
            payment_product_type: None,
            operation: None,
        }
    }
}

// ---------------------------------------------------------------------------
// Builder transitions, as spec functions over views
// ---------------------------------------------------------------------------

pub open spec fn customer_or_default(c: Option<CustomerV>) -> CustomerV {
    match c {
        Some(x) => x,
        None => customer_default_v(),
    }
}

pub open spec fn tokens_or_default(t: Option<CustomerTokensV>) -> CustomerTokensV {
    match t {
        Some(x) => x,
        None => customer_tokens_default_v(),
    }
}

pub open spec fn payex_or_default(p: Option<PayexTokensV>) -> PayexTokensV {
    match p {
        Some(x) => x,
        None => payex_tokens_default_v(),
    }
}

pub open spec fn payex_cc_or_default(c: Option<PayexCreditcardTokensV>) -> PayexCreditcardTokensV {
    match c {
        Some(x) => x,
        None => payex_creditcard_tokens_default_v(),
    }
}

pub open spec fn bambora_or_default(b: Option<BamboraTokensV>) -> BamboraTokensV {
    match b {
        Some(x) => x,
        None => bambora_tokens_default_v(),
    }
}

pub open spec fn bambora_cc_or_default(
    c: Option<BamboraCreditcardTokensV>,
) -> BamboraCreditcardTokensV {
    match c {
        Some(x) => x,
        None => bambora_creditcard_tokens_default_v(),
    }
}

pub open spec fn dintero_psp_or_default(d: Option<DinteroPspTokensV>) -> DinteroPspTokensV {
    match d {
        Some(x) => x,
        None => dintero_psp_tokens_default_v(),
    }
}

pub open spec fn dintero_psp_cc_or_default(
    c: Option<DinteroPspCreditcardTokensV>,
) -> DinteroPspCreditcardTokensV {
    match c {
        Some(x) => x,
        None => dintero_psp_creditcard_tokens_default_v(),
    }
}

/// The builder after storing a payex recurrence token: the nested token path
/// is created where absent, the token is set, and the product type becomes
/// the payex card tag as one atomic step.
pub open spec fn with_payex_recurrence_applied(
    b: MerchantInitiatedBuilderV,
    t: Seq<char>,
) -> MerchantInitiatedBuilderV {
    let customer = customer_or_default(b.customer);
    let tokens = tokens_or_default(customer.tokens);
    let payex = payex_or_default(tokens.payex);
    let cc = payex_cc_or_default(payex.creditcard);
    MerchantInitiatedBuilderV {
        customer: Some(
            CustomerV {
                tokens: Some(
                    CustomerTokensV {
                        payex: Some(
                            PayexTokensV {
                                creditcard: Some(
                                    PayexCreditcardTokensV { recurrence_token: Some(t), ..cc },
                                ),
                            },
                        ),
                        ..tokens
                    },
                ),
                ..customer
            },
        ),
        payment_product_type: Some("payex.creditcard"@),
        ..b
    }
}

/// The builder after storing a payex payment token; like the recurrence
/// token, but the other leaf of the same nested record.
pub open spec fn with_payex_payment_applied(
    b: MerchantInitiatedBuilderV,
    t: Seq<char>,
) -> MerchantInitiatedBuilderV {
    let customer = customer_or_default(b.customer);
    let tokens = tokens_or_default(customer.tokens);
    let payex = payex_or_default(tokens.payex);
    let cc = payex_cc_or_default(payex.creditcard);
    MerchantInitiatedBuilderV {
        customer: Some(
            CustomerV {
                tokens: Some(
                    CustomerTokensV {
                        payex: Some(
                            PayexTokensV {
                                creditcard: Some(
                                    PayexCreditcardTokensV { payment_token: Some(t), ..cc },
                                ),
                            },
                        ),
                        ..tokens
                    },
                ),
                ..customer
            },
        ),
        payment_product_type: Some("payex.creditcard"@),
        ..b
    }
}

/// The builder after storing a bambora payment token.
pub open spec fn with_bambora_payment_applied(
    b: MerchantInitiatedBuilderV,
    t: Seq<char>,
) -> MerchantInitiatedBuilderV {
    let customer = customer_or_default(b.customer);
    let tokens = tokens_or_default(customer.tokens);
    MerchantInitiatedBuilderV {
        customer: Some(
            CustomerV {
                tokens: Some(
                    CustomerTokensV {
                        bambora: Some(
                            BamboraTokensV {
                                creditcard: Some(BamboraCreditcardTokensV { payment_token: Some(t) }),
                            },
                        ),
                        ..tokens
                    },
                ),
                ..customer
            },
        ),
        payment_product_type: Some("bambora.creditcard"@),
        ..b
    }
}

/// The builder after storing a payment token of the platform's own processor.
pub open spec fn with_dintero_psp_payment_applied(
    b: MerchantInitiatedBuilderV,
    t: Seq<char>,
) -> MerchantInitiatedBuilderV {
    let customer = customer_or_default(b.customer);
    let tokens = tokens_or_default(customer.tokens);
    MerchantInitiatedBuilderV {
        customer: Some(
            CustomerV {
                tokens: Some(
                    CustomerTokensV {
                        dintero_psp: Some(
                            DinteroPspTokensV {
                                creditcard: Some(
                                    DinteroPspCreditcardTokensV { payment_token: Some(t) },
                                ),
                            },
                        ),
                        ..tokens
                    },
                ),
                ..customer
            },
        ),
        payment_product_type: Some("dintero_psp.creditcard"@),
        ..b
    }
}

/// What `build` returns, as a function of the accumulator: the first missing
/// required field decides the error, in the fixed order order, customer,
/// product type, operation; with all four present the validated request.
pub open spec fn build_applied(
    b: MerchantInitiatedBuilderV,
) -> Result<CreateMerchantInitiatedSessionRequestV, Seq<char>> {
    if b.order is None {
        Err("order is required"@)
    } else if b.customer is None {
        Err("customer with tokens is required"@)
    } else if b.payment_product_type is None {
        Err("payment_product_type is required (set a token first)"@)
    } else if b.operation is None {
        Err("operation is required (call recurring_purchase() or unscheduled_purchase())"@)
    } else {
        Ok(
            CreateMerchantInitiatedSessionRequestV {
                url: b.url,
                order: b.order->0,
                profile_id: b.profile_id,
                configuration: b.configuration,
                customer: b.customer->0,
                payment: PaymentConfigurationV {
                    payment_product_type: b.payment_product_type->0,
                    operation: b.operation->0,
                },
            },
        )
    }
}

/// `build`'s result at the view level.
pub open spec fn build_result_view(
    r: Result<CreateMerchantInitiatedSessionRequest, String>,
) -> Result<CreateMerchantInitiatedSessionRequestV, Seq<char>> {
    match r {
        Ok(req) => Ok(req@),
        Err(msg) => Err(msg@),
    }
}

// ---------------------------------------------------------------------------
// The builder itself
// ---------------------------------------------------------------------------

impl CreateMerchantInitiatedSessionRequestBuilder {
    /// Sets the order, replacing any earlier value.
    pub fn order(self, order: Order) -> (r: Self)
        ensures
            r@ == (MerchantInitiatedBuilderV { order: Some(order@), ..self@ }),
    {
        CreateMerchantInitiatedSessionRequestBuilder { order: Some(order), ..self }
    }

    /// Sets the callback endpoint inside the session's url record.
    pub fn callback_url(self, url: String) -> (r: Self)
        ensures
            r@ == (MerchantInitiatedBuilderV {
                url: SessionUrlV { callback_url: Some(url@), ..self@.url },
                ..self@
            }),
    {
        let mut u = self.url;
        u.callback_url = Some(url);
        CreateMerchantInitiatedSessionRequestBuilder { url: u, ..self }
    }

    /// Sets the profile identifier, replacing any earlier value.
    pub fn profile_id(self, id: String) -> (r: Self)
        ensures
            r@ == (MerchantInitiatedBuilderV { profile_id: Some(id@), ..self@ }),
    {
        CreateMerchantInitiatedSessionRequestBuilder { profile_id: Some(id), ..self }
    }

    /// Sets the whole session configuration, replacing any earlier value.
    pub fn configuration(self, config: SessionConfiguration) -> (r: Self)
        ensures
            r@ == (MerchantInitiatedBuilderV { configuration: Some(config@), ..self@ }),
    {
        CreateMerchantInitiatedSessionRequestBuilder { configuration: Some(config), ..self }
    }

    /// Sets the auto-capture flag, creating a default configuration first
    /// where none was set yet.
    pub fn auto_capture(self, auto_capture: bool) -> (r: Self)
        ensures
            r@ == (MerchantInitiatedBuilderV {
                configuration: Some(SessionConfigurationV { auto_capture: Some(auto_capture) }),
                ..self@
            }),
    {
        let mut config = match self.configuration {
            Some(c) => c,
            None => SessionConfiguration::default(),
        };
        config.auto_capture = Some(auto_capture);
        CreateMerchantInitiatedSessionRequestBuilder {
            url: self.url,
            order: self.order,
            profile_id: self.profile_id,
            configuration: Some(config),
            customer: self.customer,
            payment_product_type: self.payment_product_type,
            operation: self.operation,
        }
    }

    /// Sets the customer record whole, replacing any earlier value and any
    /// tokens stored through the token setters.
    pub fn customer(self, customer: Customer) -> (r: Self)
        ensures
            r@ == (MerchantInitiatedBuilderV { customer: Some(customer@), ..self@ }),
    {
        CreateMerchantInitiatedSessionRequestBuilder { customer: Some(customer), ..self }
    }

    /// Stores a payex recurrence token and, as the same atomic step, sets the
    /// payment product type to the payex card tag.
    pub fn with_payex_recurrence_token(self, token: String) -> (r: Self)
        ensures
            r@ == with_payex_recurrence_applied(self@, token@),
    {
        let mut customer = match self.customer {
            Some(c) => c,
            None => Customer::default(),
        };
        let mut tokens = match customer.tokens {
            Some(t) => t,
            None => CustomerTokens::default(),
        };
        let mut payex = match tokens.payex {
            Some(p) => p,
            None => PayexTokens::default(),
        };
        let mut creditcard = match payex.creditcard {
            Some(c) => c,
            None => PayexCreditcardTokens::default(),
        };
        creditcard.recurrence_token = Some(token);
        payex.creditcard = Some(creditcard);
        tokens.payex = Some(payex);
        customer.tokens = Some(tokens);
        CreateMerchantInitiatedSessionRequestBuilder {
            url: self.url,
            order: self.order,
            profile_id: self.profile_id,
            configuration: self.configuration,
            customer: Some(customer),
            payment_product_type: Some(String::from_str("payex.creditcard")),
            operation: self.operation,
        }
    }

    /// Stores a payex payment token and, as the same atomic step, sets the
    /// payment product type to the payex card tag.
    pub fn with_payex_payment_token(self, token: String) -> (r: Self)
        ensures
            r@ == with_payex_payment_applied(self@, token@),
    {
        let mut customer = match self.customer {
            Some(c) => c,
            None => Customer::default(),
        };
        let mut tokens = match customer.tokens {
            Some(t) => t,
            None => CustomerTokens::default(),
        };
        let mut payex = match tokens.payex {
            Some(p) => p,
            None => PayexTokens::default(),
        };
        let mut creditcard = match payex.creditcard {
            Some(c) => c,
            None => PayexCreditcardTokens::default(),
        };
        creditcard.payment_token = Some(token);
        payex.creditcard = Some(creditcard);
        tokens.payex = Some(payex);
        customer.tokens = Some(tokens);
        CreateMerchantInitiatedSessionRequestBuilder {
            url: self.url,
            order: self.order,
            profile_id: self.profile_id,
            configuration: self.configuration,
            customer: Some(customer),
            payment_product_type: Some(String::from_str("payex.creditcard")),
            operation: self.operation,
        }
    }

    /// Stores a bambora payment token and, as the same atomic step, sets the
    /// payment product type to the bambora card tag.
    pub fn with_bambora_payment_token(self, token: String) -> (r: Self)
        ensures
            r@ == with_bambora_payment_applied(self@, token@),
    {
        let mut customer = match self.customer {
            Some(c) => c,
            None => Customer::default(),
        };
        let mut tokens = match customer.tokens {
            Some(t) => t,
            None => CustomerTokens::default(),
        };
        let mut bambora = match tokens.bambora {
            Some(b) => b,
            None => BamboraTokens::default(),
        };
        let mut creditcard = match bambora.creditcard {
            Some(c) => c,
            None => BamboraCreditcardTokens::default(),
        };
        creditcard.payment_token = Some(token);
        bambora.creditcard = Some(creditcard);
        tokens.bambora = Some(bambora);
        customer.tokens = Some(tokens);
        CreateMerchantInitiatedSessionRequestBuilder {
            url: self.url,
            order: self.order,
            profile_id: self.profile_id,
            configuration: self.configuration,
            customer: Some(customer),
            payment_product_type: Some(String::from_str("bambora.creditcard")),
            operation: self.operation,
        }
    }

    /// Stores a payment token of the platform's own processor and, as the
    /// same atomic step, sets the matching payment product type.
    pub fn with_dintero_psp_payment_token(self, token: String) -> (r: Self)
        ensures
            r@ == with_dintero_psp_payment_applied(self@, token@),
    {
        let mut customer = match self.customer {
            Some(c) => c,
            None => Customer::default(),
        };
        let mut tokens = match customer.tokens {
            Some(t) => t,
            None => CustomerTokens::default(),
        };
        let mut dintero_psp = match tokens.dintero_psp {
            Some(d) => d,
            None => DinteroPspTokens::default(),
        };
        let mut creditcard = match dintero_psp.creditcard {
            Some(c) => c,
            None => DinteroPspCreditcardTokens::default(),
        };
        creditcard.payment_token = Some(token);
        dintero_psp.creditcard = Some(creditcard);
        tokens.dintero_psp = Some(dintero_psp);
        customer.tokens = Some(tokens);
        CreateMerchantInitiatedSessionRequestBuilder {
            url: self.url,
            order: self.order,
            profile_id: self.profile_id,
            configuration: self.configuration,
            customer: Some(customer),
            payment_product_type: Some(String::from_str("dintero_psp.creditcard")),
            operation: self.operation,
        }
    }

    /// Selects the recurring-purchase operation, replacing any earlier
    /// selection.
    pub fn recurring_purchase(self) -> (r: Self)
        ensures
            r@ == (MerchantInitiatedBuilderV {
                operation: Some(PaymentOperation::RecurringPurchase),
                ..self@
            }),
    {
        CreateMerchantInitiatedSessionRequestBuilder {
            operation: Some(PaymentOperation::RecurringPurchase),
            ..self
        }
    }

    /// Selects the unscheduled-purchase operation, replacing any earlier
    /// selection.
    pub fn unscheduled_purchase(self) -> (r: Self)
        ensures
            r@ == (MerchantInitiatedBuilderV {
                operation: Some(PaymentOperation::UnscheduledPurchase),
                ..self@
            }),
    {
        CreateMerchantInitiatedSessionRequestBuilder {
            operation: Some(PaymentOperation::UnscheduledPurchase),
            ..self
        }
    }

    /// Validates the accumulated fields in the fixed order and returns the
    /// immutable request, or a message naming the first missing field.
    pub fn build(self) -> (r: Result<CreateMerchantInitiatedSessionRequest, String>)
        ensures
            build_result_view(r) == build_applied(self@),
    {
        let order = match self.order {
            Some(o) => o,
            None => {
                return Err(String::from_str("order is required"));
            },
        };
        let customer = match self.customer {
            Some(c) => c,
            None => {
                return Err(String::from_str("customer with tokens is required"));
            },
        };
        let payment_product_type = match self.payment_product_type {
            Some(p) => p,
            None => {
                return Err(String::from_str("payment_product_type is required (set a token first)"));
            },
        };
        let operation = match self.operation {
            Some(o) => o,
            None => {
                return Err(
                    String::from_str(
                        "operation is required (call recurring_purchase() or unscheduled_purchase())",
                    ),
                );
            },
        };
        Ok(
            CreateMerchantInitiatedSessionRequest {
                url: self.url,
                order,
                profile_id: self.profile_id,
                configuration: self.configuration,
                customer,
                payment: PaymentConfiguration { payment_product_type, operation },
            },
        )
    }
}

// ---------------------------------------------------------------------------
// Laws
// ---------------------------------------------------------------------------

/// A builder whose four required fields are all set builds successfully, and
/// the payload's product type is exactly the one the builder last recorded —
/// with the token setters below, the tag of the last token setter invoked.
pub proof fn lemma_complete_builder_builds(b: MerchantInitiatedBuilderV)
    requires
        b.order is Some,
        b.customer is Some,
        b.payment_product_type is Some,
        b.operation is Some,
    ensures
        build_applied(b) is Ok,
        build_applied(b)->Ok_0.payment.payment_product_type == b.payment_product_type->0,
        build_applied(b)->Ok_0.payment.operation == b.operation->0,
        build_applied(b)->Ok_0.order == b.order->0,
        build_applied(b)->Ok_0.customer == b.customer->0,
{
}

/// Each token setter leaves order and operation untouched, makes the
/// customer and the product type present, and records its own provider tag —
/// so after a chain of setters the tag is the last setter's, whatever came
/// before.
pub proof fn lemma_token_setter_records_its_tag(b: MerchantInitiatedBuilderV, t: Seq<char>)
    ensures
        with_payex_recurrence_applied(b, t).payment_product_type == Some("payex.creditcard"@),
        with_payex_payment_applied(b, t).payment_product_type == Some("payex.creditcard"@),
        with_bambora_payment_applied(b, t).payment_product_type == Some("bambora.creditcard"@),
        with_dintero_psp_payment_applied(b, t).payment_product_type == Some(
            "dintero_psp.creditcard"@,
        ),
        with_payex_recurrence_applied(b, t).customer is Some,
        with_payex_payment_applied(b, t).customer is Some,
        with_bambora_payment_applied(b, t).customer is Some,
        with_dintero_psp_payment_applied(b, t).customer is Some,
        with_payex_recurrence_applied(b, t).order == b.order,
        with_payex_payment_applied(b, t).order == b.order,
        with_bambora_payment_applied(b, t).order == b.order,
        with_dintero_psp_payment_applied(b, t).order == b.order,
        with_payex_recurrence_applied(b, t).operation == b.operation,
        with_payex_payment_applied(b, t).operation == b.operation,
        with_bambora_payment_applied(b, t).operation == b.operation,
        with_dintero_psp_payment_applied(b, t).operation == b.operation,
{
}

/// Any chain that sets an order, stores a token through any one of the four
/// token setters, and selects an operation builds successfully, and the
/// payload's product type is the tag of that (last) token setter.
pub proof fn lemma_order_token_operation_builds(
    b: MerchantInitiatedBuilderV,
    t: Seq<char>,
    op: PaymentOperation,
)
    requires
        b.order is Some,
    ensures
        build_applied(
            (MerchantInitiatedBuilderV { operation: Some(op), ..with_payex_recurrence_applied(b, t) }),
        ) is Ok,
        build_applied(
            (MerchantInitiatedBuilderV { operation: Some(op), ..with_payex_recurrence_applied(b, t) }),
        )->Ok_0.payment.payment_product_type == "payex.creditcard"@,
        build_applied(
            (MerchantInitiatedBuilderV { operation: Some(op), ..with_payex_payment_applied(b, t) }),
        ) is Ok,
        build_applied(
            (MerchantInitiatedBuilderV { operation: Some(op), ..with_payex_payment_applied(b, t) }),
        )->Ok_0.payment.payment_product_type == "payex.creditcard"@,
        build_applied(
            (MerchantInitiatedBuilderV { operation: Some(op), ..with_bambora_payment_applied(b, t) }),
        ) is Ok,
        build_applied(
            (MerchantInitiatedBuilderV { operation: Some(op), ..with_bambora_payment_applied(b, t) }),
        )->Ok_0.payment.payment_product_type == "bambora.creditcard"@,
        build_applied(
            (MerchantInitiatedBuilderV {
                operation: Some(op),
                ..with_dintero_psp_payment_applied(b, t)
            }),
        ) is Ok,
        build_applied(
            (MerchantInitiatedBuilderV {
                operation: Some(op),
                ..with_dintero_psp_payment_applied(b, t)
            }),
        )->Ok_0.payment.payment_product_type == "dintero_psp.creditcard"@,
{
}

/// A builder missing its order fails to build with the order message, no
/// matter what else was set.
pub proof fn lemma_missing_order_fails_first(b: MerchantInitiatedBuilderV)
    requires
        b.order is None,
    ensures
        build_applied(b) == Err::<CreateMerchantInitiatedSessionRequestV, Seq<char>>(
            "order is required"@,
        ),
{
}

/// A builder with order, customer and product type set but no operation
/// selected fails to build with the operation message.
pub proof fn lemma_missing_operation_fails(b: MerchantInitiatedBuilderV)
    requires
        b.order is Some,
        b.customer is Some,
        b.payment_product_type is Some,
        b.operation is None,
    ensures
        build_applied(b) == Err::<CreateMerchantInitiatedSessionRequestV, Seq<char>>(
            "operation is required (call recurring_purchase() or unscheduled_purchase())"@,
        ),
{
}

/// Selecting an operation twice keeps the later selection, in either order.
pub proof fn lemma_operation_last_write_wins(b: MerchantInitiatedBuilderV)
    ensures
        (MerchantInitiatedBuilderV {
            operation: Some(PaymentOperation::UnscheduledPurchase),
            ..(MerchantInitiatedBuilderV {
                operation: Some(PaymentOperation::RecurringPurchase),
                ..b
            })
        }).operation == Some(PaymentOperation::UnscheduledPurchase),
        (MerchantInitiatedBuilderV {
            operation: Some(PaymentOperation::RecurringPurchase),
            ..(MerchantInitiatedBuilderV {
                operation: Some(PaymentOperation::UnscheduledPurchase),
                ..b
            })
        }).operation == Some(PaymentOperation::RecurringPurchase),
{
}

} // verus!
