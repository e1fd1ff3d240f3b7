//! Domain data records for checkout sessions: orders, customers and the
//! nested provider-token hierarchy, together with their mathematical views.
//!
//! Every record has a view struct (suffix `V`) in which strings become
//! `Seq<char>`; contracts throughout the crate are stated over these views.

use vstd::prelude::*;

verus! {

// ---------------------------------------------------------------------------
// Views
// ---------------------------------------------------------------------------

#[verifier::ext_equal]
pub struct SessionUrlV {
    pub return_url: Option<Seq<char>>,
    pub callback_url: Option<Seq<char>>,
}

#[verifier::ext_equal]
pub struct OrderV {
    pub amount: u64,
    pub currency: Seq<char>,
    pub merchant_reference: Option<Seq<char>>,
}

#[verifier::ext_equal]
pub struct SessionConfigurationV {
    pub auto_capture: Option<bool>,
}

#[verifier::ext_equal]
pub struct PayexCreditcardTokensV {
    pub recurrence_token: Option<Seq<char>>,
    pub payment_token: Option<Seq<char>>,
}

#[verifier::ext_equal]
pub struct PayexTokensV {
    pub creditcard: Option<PayexCreditcardTokensV>,
}

#[verifier::ext_equal]
pub struct BamboraCreditcardTokensV {
    pub payment_token: Option<Seq<char>>,
}

#[verifier::ext_equal]
pub struct BamboraTokensV {
    pub creditcard: Option<BamboraCreditcardTokensV>,
}

#[verifier::ext_equal]
pub struct DinteroPspCreditcardTokensV {
    pub payment_token: Option<Seq<char>>,
}

#[verifier::ext_equal]
pub struct DinteroPspTokensV {
    pub creditcard: Option<DinteroPspCreditcardTokensV>,
}

#[verifier::ext_equal]
pub struct CustomerTokensV {
    pub payex: Option<PayexTokensV>,
    pub bambora: Option<BamboraTokensV>,
    pub dintero_psp: Option<DinteroPspTokensV>,
}

#[verifier::ext_equal]
pub struct CustomerV {
    pub customer_id: Option<Seq<char>>,
    pub email: Option<Seq<char>>,
    pub tokens: Option<CustomerTokensV>,
}

#[verifier::ext_equal]
pub struct CheckoutSessionV {
    pub id: Seq<char>,
    pub order: OrderV,
}

// ---------------------------------------------------------------------------
// Records
// ---------------------------------------------------------------------------

/// The pair of redirect endpoints attached to a session.
#[derive(Debug, Clone)]
pub struct SessionUrl {
    pub return_url: Option<String>,
    pub callback_url: Option<String>,
}

impl View for SessionUrl {
    type V = SessionUrlV;

    open spec fn view(&self) -> SessionUrlV {
        SessionUrlV {
            return_url: self.return_url.deep_view(),
            callback_url: self.callback_url.deep_view(),
        }
    }
}

impl DeepView for SessionUrl {
    type V = SessionUrlV;

    open spec fn deep_view(&self) -> SessionUrlV {
        self.view()
    }
}

/// The view of an empty `SessionUrl`, as `SessionUrl::default` returns it.
pub open spec fn session_url_default_v() -> SessionUrlV {
    SessionUrlV { return_url: None, callback_url: None }
}

impl Default for SessionUrl {
    fn default() -> (r: Self)
        ensures
            r@ == session_url_default_v(),
    {
        SessionUrl { return_url: None, callback_url: None }
    }
}

/// The order a session or transaction is about: amount in the currency's
/// minor unit, the currency code, and the merchant's own reference.
#[derive(Debug, Clone)]
pub struct Order {
    pub amount: u64,
    pub currency: String,
    pub merchant_reference: Option<String>,
}

impl View for Order {
    type V = OrderV;

    open spec fn view(&self) -> OrderV {
        OrderV {
            amount: self.amount,
            currency: self.currency@,
            merchant_reference: self.merchant_reference.deep_view(),
        }
    }
}

impl DeepView for Order {
    type V = OrderV;

    open spec fn deep_view(&self) -> OrderV {
        self.view()
    }
}

/// Session-level settings; every field is optional and omitted when absent.
#[derive(Debug, Clone)]
pub struct SessionConfiguration {
    pub auto_capture: Option<bool>,
}

impl View for SessionConfiguration {
    type V = SessionConfigurationV;

    open spec fn view(&self) -> SessionConfigurationV {
        SessionConfigurationV { auto_capture: self.auto_capture.deep_view() }
    }
}

impl DeepView for SessionConfiguration {
    type V = SessionConfigurationV;

    open spec fn deep_view(&self) -> SessionConfigurationV {
        self.view()
    }
}

/// The view of an empty configuration, as `SessionConfiguration::default`
/// returns it.
pub open spec fn session_configuration_default_v() -> SessionConfigurationV {
    SessionConfigurationV { auto_capture: None }
}

impl Default for SessionConfiguration {
    fn default() -> (r: Self)
        ensures
            r@ == session_configuration_default_v(),
    {
        SessionConfiguration { auto_capture: None }
    }
}

/// Stored card tokens of the payex provider.
#[derive(Debug, Clone)]
pub struct PayexCreditcardTokens {
    pub recurrence_token: Option<String>,
    pub payment_token: Option<String>,
}

impl View for PayexCreditcardTokens {
    type V = PayexCreditcardTokensV;

    open spec fn view(&self) -> PayexCreditcardTokensV {
        PayexCreditcardTokensV {
            recurrence_token: self.recurrence_token.deep_view(),
            payment_token: self.payment_token.deep_view(),
        }
    }
}

impl DeepView for PayexCreditcardTokens {
    type V = PayexCreditcardTokensV;

    open spec fn deep_view(&self) -> PayexCreditcardTokensV {
        self.view()
    }
}

/// The view of an empty token record, as the `Default` impl returns it.
pub open spec fn payex_creditcard_tokens_default_v() -> PayexCreditcardTokensV {
    PayexCreditcardTokensV { recurrence_token: None, payment_token: None }
}

impl Default for PayexCreditcardTokens {
    fn default() -> (r: Self)
        ensures
            r@ == payex_creditcard_tokens_default_v(),
    {
        PayexCreditcardTokens { recurrence_token: None, payment_token: None }
    }
}

/// Token sub-objects of the payex provider, by payment instrument.
#[derive(Debug, Clone)]
pub struct PayexTokens {
    pub creditcard: Option<PayexCreditcardTokens>,
}

impl View for PayexTokens {
    type V = PayexTokensV;

    open spec fn view(&self) -> PayexTokensV {
        PayexTokensV { creditcard: self.creditcard.deep_view() }
    }
}

impl DeepView for PayexTokens {
    type V = PayexTokensV;

    open spec fn deep_view(&self) -> PayexTokensV {
        self.view()
    }
}

/// The view of an empty token record, as the `Default` impl returns it.
pub open spec fn payex_tokens_default_v() -> PayexTokensV {
    PayexTokensV { creditcard: None }
}

impl Default for PayexTokens {
    fn default() -> (r: Self)
        ensures
            r@ == payex_tokens_default_v(),
    {
        PayexTokens { creditcard: None }
    }
}

/// Stored card tokens of the bambora provider.
#[derive(Debug, Clone)]
pub struct BamboraCreditcardTokens {
    pub payment_token: Option<String>,
}

impl View for BamboraCreditcardTokens {
    type V = BamboraCreditcardTokensV;

    open spec fn view(&self) -> BamboraCreditcardTokensV {
        BamboraCreditcardTokensV { payment_token: self.payment_token.deep_view() }
    }
}

impl DeepView for BamboraCreditcardTokens {
    type V = BamboraCreditcardTokensV;

    open spec fn deep_view(&self) -> BamboraCreditcardTokensV {
        self.view()
    }
}

/// The view of an empty token record, as the `Default` impl returns it.
pub open spec fn bambora_creditcard_tokens_default_v() -> BamboraCreditcardTokensV {
    BamboraCreditcardTokensV { payment_token: None }
}

impl Default for BamboraCreditcardTokens {
    fn default() -> (r: Self)
        ensures
            r@ == bambora_creditcard_tokens_default_v(),
    {
        BamboraCreditcardTokens { payment_token: None }
    }
}

/// Token sub-objects of the bambora provider, by payment instrument.
#[derive(Debug, Clone)]
pub struct BamboraTokens {
    pub creditcard: Option<BamboraCreditcardTokens>,
}

impl View for BamboraTokens {
    type V = BamboraTokensV;

    open spec fn view(&self) -> BamboraTokensV {
        BamboraTokensV { creditcard: self.creditcard.deep_view() }
    }
}

impl DeepView for BamboraTokens {
    type V = BamboraTokensV;

    open spec fn deep_view(&self) -> BamboraTokensV {
        self.view()
    }
}

/// The view of an empty token record, as the `Default` impl returns it.
pub open spec fn bambora_tokens_default_v() -> BamboraTokensV {
    BamboraTokensV { creditcard: None }
}

impl Default for BamboraTokens {
    fn default() -> (r: Self)
        ensures
            r@ == bambora_tokens_default_v(),
    {
        BamboraTokens { creditcard: None }
    }
}

/// Stored card tokens of the platform's own processor.
#[derive(Debug, Clone)]
pub struct DinteroPspCreditcardTokens {
    pub payment_token: Option<String>,
}

impl View for DinteroPspCreditcardTokens {
    type V = DinteroPspCreditcardTokensV;

    open spec fn view(&self) -> DinteroPspCreditcardTokensV {
        DinteroPspCreditcardTokensV { payment_token: self.payment_token.deep_view() }
    }
}

impl DeepView for DinteroPspCreditcardTokens {
    type V = DinteroPspCreditcardTokensV;

    open spec fn deep_view(&self) -> DinteroPspCreditcardTokensV {
        self.view()
    }
}

/// The view of an empty token record, as the `Default` impl returns it.
pub open spec fn dintero_psp_creditcard_tokens_default_v() -> DinteroPspCreditcardTokensV {
    DinteroPspCreditcardTokensV { payment_token: None }
}

impl Default for DinteroPspCreditcardTokens {
    fn default() -> (r: Self)
        ensures
            r@ == dintero_psp_creditcard_tokens_default_v(),
    {
        DinteroPspCreditcardTokens { payment_token: None }
    }
}

/// Token sub-objects of the platform's own processor, by payment instrument.
#[derive(Debug, Clone)]
pub struct DinteroPspTokens {
    pub creditcard: Option<DinteroPspCreditcardTokens>,
}

impl View for DinteroPspTokens {
    type V = DinteroPspTokensV;

    open spec fn view(&self) -> DinteroPspTokensV {
        DinteroPspTokensV { creditcard: self.creditcard.deep_view() }
    }
}

impl DeepView for DinteroPspTokens {
    type V = DinteroPspTokensV;

    open spec fn deep_view(&self) -> DinteroPspTokensV {
        self.view()
    }
}

/// The view of an empty token record, as the `Default` impl returns it.
pub open spec fn dintero_psp_tokens_default_v() -> DinteroPspTokensV {
    DinteroPspTokensV { creditcard: None }
}

impl Default for DinteroPspTokens {
    fn default() -> (r: Self)
        ensures
            r@ == dintero_psp_tokens_default_v(),
    {
        DinteroPspTokens { creditcard: None }
    }
}

/// A customer's stored tokens, keyed by payment provider.
#[derive(Debug, Clone)]
pub struct CustomerTokens {
    pub payex: Option<PayexTokens>,
    pub bambora: Option<BamboraTokens>,
    pub dintero_psp: Option<DinteroPspTokens>,
}

impl View for CustomerTokens {
    type V = CustomerTokensV;

    open spec fn view(&self) -> CustomerTokensV {
        CustomerTokensV {
            payex: self.payex.deep_view(),
            bambora: self.bambora.deep_view(),
            dintero_psp: self.dintero_psp.deep_view(),
        }
    }
}

impl DeepView for CustomerTokens {
    type V = CustomerTokensV;

    open spec fn deep_view(&self) -> CustomerTokensV {
        self.view()
    }
}

/// The view of an empty token set, as `CustomerTokens::default` returns it.
pub open spec fn customer_tokens_default_v() -> CustomerTokensV {
    CustomerTokensV { payex: None, bambora: None, dintero_psp: None }
}

impl Default for CustomerTokens {
    fn default() -> (r: Self)
        ensures
            r@ == customer_tokens_default_v(),
    {
        CustomerTokens { payex: None, bambora: None, dintero_psp: None }
    }
}

/// The customer a session is created for, with any stored provider tokens.
#[derive(Debug, Clone)]
pub struct Customer {
    pub customer_id: Option<String>,
    pub email: Option<String>,
    pub tokens: Option<CustomerTokens>,
}

impl View for Customer {
    type V = CustomerV;

    open spec fn view(&self) -> CustomerV {
        CustomerV {
            customer_id: self.customer_id.deep_view(),
            email: self.email.deep_view(),
            tokens: self.tokens.deep_view(),
        }
    }
}

impl DeepView for Customer {
    type V = CustomerV;

    open spec fn deep_view(&self) -> CustomerV {
        self.view()
    }
}

/// The view of an empty customer, as `Customer::default` returns it.
pub open spec fn customer_default_v() -> CustomerV {
    CustomerV { customer_id: None, email: None, tokens: None }
}

impl Default for Customer {
    fn default() -> (r: Self)
        ensures
            r@ == customer_default_v(),
    {
        Customer { customer_id: None, email: None, tokens: None }
    }
}

/// A checkout session as the service returns it.
#[derive(Debug, Clone)]
pub struct CheckoutSession {
    pub id: String,
    pub order: Order,
}

impl View for CheckoutSession {
    type V = CheckoutSessionV;

    open spec fn view(&self) -> CheckoutSessionV {
        CheckoutSessionV { id: self.id@, order: self.order@ }
    }
}

impl DeepView for CheckoutSession {
    type V = CheckoutSessionV;

    open spec fn deep_view(&self) -> CheckoutSessionV {
        self.view()
    }
}

} // verus!
