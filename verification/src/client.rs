//! The payments operations client: every domain operation is a pure
//! path/query translation plus one adapter call.
//!
//! `PaymentsAdapter` abstracts the transport as three verb methods; any
//! implementer can stand behind `PaymentsClient`, whose operation contracts
//! say exactly which path (and body) each call hands to the adapter.

use vstd::prelude::*;
use vstd::string::StringExecFns;

use crate::error::{PaymentsError, PaymentsErrorV};
use crate::text::{dec_str, u32_to_string};
use crate::transactions::{
    status_str, CaptureTransactionRequest, ExtendAuthorizationRequest, ListTransactionsParams,
    ListTransactionsParamsV, RefundTransactionRequest, Transaction, TransactionListResponse,
    TransactionListResponseV, TransactionRequest, TransactionRequestV, TransactionStatus,
    TransactionV, UpdateTransactionRequest, VoidTransactionRequest,
};

verus! {

// ---------------------------------------------------------------------------
// Resource paths
// ---------------------------------------------------------------------------

/// The transactions collection of one account:
/// `accounts/{account_id}/transactions`.
pub open spec fn transactions_base_spec(account_id: Seq<char>) -> Seq<char> {
    "accounts/"@ + account_id + "/transactions"@
}

/// One transaction resource:
/// `accounts/{account_id}/transactions/{transaction_id}`.
pub open spec fn transaction_path_spec(
    account_id: Seq<char>,
    transaction_id: Seq<char>,
) -> Seq<char> {
    transactions_base_spec(account_id) + "/"@ + transaction_id
}

/// One action on a transaction resource:
/// `accounts/{account_id}/transactions/{transaction_id}/{action}`.
pub open spec fn transaction_action_path_spec(
    account_id: Seq<char>,
    transaction_id: Seq<char>,
    action: Seq<char>,
) -> Seq<char> {
    transaction_path_spec(account_id, transaction_id) + "/"@ + action
}

fn transactions_base(account_id: &str) -> (r: String)
    ensures
        r@ == transactions_base_spec(account_id@),
{
    let mut s = String::from_str("accounts/");
    s.append(account_id);
    s.append("/transactions");
    s
}

/// Builds the path of one transaction resource.
pub fn transaction_path(account_id: &str, transaction_id: &str) -> (r: String)
    ensures
        r@ == transaction_path_spec(account_id@, transaction_id@),
{
    let mut s = transactions_base(account_id);
    s.append("/");
    s.append(transaction_id);
    s
}

/// Builds the path of one action on a transaction resource.
pub fn transaction_action_path(account_id: &str, transaction_id: &str, action: &str) -> (r: String)
    ensures
        r@ == transaction_action_path_spec(account_id@, transaction_id@, action@),
{
    let mut s = transaction_path(account_id, transaction_id);
    s.append("/");
    s.append(action);
    s
}

// ---------------------------------------------------------------------------
// Query strings for list operations
// ---------------------------------------------------------------------------

/// The query segments contributed by the present filters, in the fixed order
/// limit, page_token, status, merchant_reference.
pub open spec fn query_segments(p: ListTransactionsParamsV) -> Seq<Seq<char>> {
    (if p.limit is Some {
        seq!["limit="@ + dec_str(p.limit->0 as nat)]
    } else {
        Seq::<Seq<char>>::empty()
    }) + (if p.page_token is Some {
        seq!["page_token="@ + p.page_token->0]
    } else {
        Seq::<Seq<char>>::empty()
    }) + (if p.status is Some {
        seq!["status="@ + status_str(p.status->0)]
    } else {
        Seq::<Seq<char>>::empty()
    }) + (if p.merchant_reference is Some {
        seq!["merchant_reference="@ + p.merchant_reference->0]
    } else {
        Seq::<Seq<char>>::empty()
    })
}

/// Segments joined with `&`, with nothing before the first or after the last.
pub open spec fn join_amp(segs: Seq<Seq<char>>) -> Seq<char>
    decreases segs.len(),
{
    if segs.len() == 0 {
        Seq::empty()
    } else if segs.len() == 1 {
        segs[0]
    } else {
        segs[0] + "&"@ + join_amp(segs.drop_first())
    }
}

proof fn lemma_join_amp_push(segs: Seq<Seq<char>>, x: Seq<char>)
    ensures
        join_amp(segs.push(x)) == (if segs.len() == 0 {
            x
        } else {
            join_amp(segs) + "&"@ + x
        }),
    decreases segs.len(),
{
    if segs.len() == 0 {
        assert(segs.push(x)[0] == x);
    } else if segs.len() == 1 {
        assert(segs.push(x)[0] == segs[0]);
        assert(segs.push(x).drop_first() =~= seq![x]);
        assert(join_amp(seq![x]) == seq![x][0]);
        assert(seq![x][0] == x);
    } else {
        lemma_join_amp_push(segs.drop_first(), x);
        assert(segs.push(x).drop_first() =~= segs.drop_first().push(x));
        assert(segs.push(x)[0] == segs[0]);
        assert(join_amp(segs.push(x)) == segs[0] + "&"@ + (join_amp(segs.drop_first()) + "&"@
            + x));
        assert(segs[0] + "&"@ + (join_amp(segs.drop_first()) + "&"@ + x) =~= (segs[0] + "&"@
            + join_amp(segs.drop_first())) + "&"@ + x);
    }
}

/// The list path: the transactions collection, with `?` and the joined
/// segments appended only when at least one filter is present.
pub open spec fn list_transactions_path_spec(
    account_id: Seq<char>,
    p: ListTransactionsParamsV,
) -> Seq<char> {
    let segs = query_segments(p);
    if segs.len() == 0 {
        transactions_base_spec(account_id)
    } else {
        transactions_base_spec(account_id) + "?"@ + join_amp(segs)
    }
}

/// With no filter present, the list path is the bare collection path: no `?`
/// suffix at all.
pub proof fn lemma_no_filters_means_no_query_suffix(
    account_id: Seq<char>,
    p: ListTransactionsParamsV,
)
    requires
        p.limit is None,
        p.page_token is None,
        p.status is None,
        p.merchant_reference is None,
    ensures
        list_transactions_path_spec(account_id, p) == transactions_base_spec(account_id),
{
    assert(query_segments(p) =~= Seq::<Seq<char>>::empty());
}

/// With only the limit present, the query string is exactly `?limit={n}`:
/// one segment, no separator.
pub proof fn lemma_only_limit_gives_one_segment(account_id: Seq<char>, p: ListTransactionsParamsV)
    requires
        p.limit is Some,
        p.page_token is None,
        p.status is None,
        p.merchant_reference is None,
    ensures
        list_transactions_path_spec(account_id, p) == transactions_base_spec(account_id) + "?"@
            + "limit="@ + dec_str(p.limit->0 as nat),
{
    let seg = "limit="@ + dec_str(p.limit->0 as nat);
    assert(query_segments(p) =~= seq![seg]);
    assert(join_amp(seq![seg]) == seq![seg][0]);
    assert(list_transactions_path_spec(account_id, p) =~= transactions_base_spec(account_id) + "?"@
        + "limit="@ + dec_str(p.limit->0 as nat));
}

fn join_amp_exec(segs: &Vec<String>) -> (r: String)
    ensures
        r@ == join_amp(segs.deep_view()),
{
    let ghost dv = segs.deep_view();
    let mut s = String::new();
    let mut i: usize = 0;
    while i < segs.len()
        invariant
            i <= segs.len(),
            dv == segs.deep_view(),
            dv.len() == segs.len(),
            s@ == join_amp(dv.take(i as int)),
        decreases segs.len() - i,
    {
        if i > 0 {
            s.append("&");
        }
        s.append(segs[i].as_str());
        proof {
            lemma_join_amp_push(dv.take(i as int), dv[i as int]);
            assert(dv.take(i as int + 1) =~= dv.take(i as int).push(dv[i as int]));
            assert(dv.take(i as int).len() == i);
        }
        i += 1;
    }
    proof {
        assert(dv.take(segs.len() as int) =~= dv);
    }
    s
}

/// Builds the list path with its query string, exactly as
/// `list_transactions_path_spec` describes.
pub fn list_transactions_path(account_id: &str, params: &ListTransactionsParams) -> (r: String)
    ensures
        r@ == list_transactions_path_spec(account_id@, params@),
{
    let mut path = transactions_base(account_id);
    let mut query_params: Vec<String> = Vec::new();
    if let Some(limit) = params.limit {
        let mut seg = String::from_str("limit=");
        let rendered = u32_to_string(limit);
        seg.append(rendered.as_str());
        query_params.push(seg);
    }
    if let Some(token) = &params.page_token {
        let mut seg = String::from_str("page_token=");
        seg.append(token.as_str());
        query_params.push(seg);
    }
    if let Some(status) = params.status {
        let mut seg = String::from_str("status=");
        seg.append(status.as_str());
        query_params.push(seg);
    }
    if let Some(reference) = &params.merchant_reference {
        let mut seg = String::from_str("merchant_reference=");
        seg.append(reference.as_str());
        query_params.push(seg);
    }
    proof {
        assert(query_params.deep_view() =~= query_segments(params@));
    }
    if query_params.len() > 0 {
        path.append("?");
        let joined = join_amp_exec(&query_params);
        path.append(joined.as_str());
    }
    path
}

// ---------------------------------------------------------------------------
// The transport adapter contract
// ---------------------------------------------------------------------------

/// A transaction operation's outcome at the view level.
pub open spec fn txn_result_view(r: Result<Transaction, PaymentsError>) -> Result<
    TransactionV,
    PaymentsErrorV,
> {
    match r {
        Ok(t) => Ok(t@),
        Err(e) => Err(e@),
    }
}

/// A list operation's outcome at the view level.
pub open spec fn list_result_view(r: Result<TransactionListResponse, PaymentsError>) -> Result<
    TransactionListResponseV,
    PaymentsErrorV,
> {
    match r {
        Ok(t) => Ok(t@),
        Err(e) => Err(e@),
    }
}

/// The transport abstraction the operations client is built over: perform one
/// HTTP verb against a resource path and hand back the typed outcome. Each
/// implementer fixes, through its spec functions, what outcome each call
/// produces; the verb methods promise to return exactly that outcome.
pub trait PaymentsAdapter: Sized + Send + Sync {
    /// What a read of `path` returns.
    spec fn get_result(&self, path: Seq<char>) -> Result<TransactionV, PaymentsErrorV>;

    /// What a read of the collection at `path` returns.
    spec fn get_list_result(&self, path: Seq<char>) -> Result<
        TransactionListResponseV,
        PaymentsErrorV,
    >;

    /// What a create/action call of `path` with `body` returns.
    spec fn post_result(&self, path: Seq<char>, body: TransactionRequestV) -> Result<
        TransactionV,
        PaymentsErrorV,
    >;

    /// What an update call of `path` with `body` returns.
    spec fn put_result(&self, path: Seq<char>, body: TransactionRequestV) -> Result<
        TransactionV,
        PaymentsErrorV,
    >;

    /// Issues a read of one resource.
    fn get(&self, path: &str) -> (r: Result<Transaction, PaymentsError>)
        ensures
            txn_result_view(r) == self.get_result(path@),
    ;

    /// Issues a read of a collection.
    fn get_list(&self, path: &str) -> (r: Result<TransactionListResponse, PaymentsError>)
        ensures
            list_result_view(r) == self.get_list_result(path@),
    ;

    /// Serializes `body` and issues a create/action write.
    fn post(&self, path: &str, body: &TransactionRequest) -> (r: Result<
        Transaction,
        PaymentsError,
    >)
        ensures
            txn_result_view(r) == self.post_result(path@, body@),
    ;

    /// Serializes `body` and issues an update write.
    fn put(&self, path: &str, body: &TransactionRequest) -> (r: Result<Transaction, PaymentsError>)
        ensures
            txn_result_view(r) == self.put_result(path@, body@),
    ;
}

// ---------------------------------------------------------------------------
// The domain operations contract
// ---------------------------------------------------------------------------

/// The business operations of the payments domain, independent of transport.
/// Each operation's spec function fixes its outcome; for `PaymentsClient`
/// those spec functions say which path and body reach the adapter.
pub trait PaymentsOperations: Sized + Send + Sync {
    /// What fetching one transaction returns.
    spec fn get_transaction_res(&self, transaction_id: Seq<char>) -> Result<
        TransactionV,
        PaymentsErrorV,
    >;

    /// What listing transactions under the given filters returns.
    spec fn list_transactions_res(&self, params: ListTransactionsParamsV) -> Result<
        TransactionListResponseV,
        PaymentsErrorV,
    >;

    /// What updating one transaction returns.
    spec fn update_transaction_res(
        &self,
        transaction_id: Seq<char>,
        request: crate::transactions::UpdateTransactionRequestV,
    ) -> Result<TransactionV, PaymentsErrorV>;

    /// What capturing one transaction returns.
    spec fn capture_transaction_res(
        &self,
        transaction_id: Seq<char>,
        request: crate::transactions::CaptureTransactionRequestV,
    ) -> Result<TransactionV, PaymentsErrorV>;

    /// What refunding one transaction returns.
    spec fn refund_transaction_res(
        &self,
        transaction_id: Seq<char>,
        request: crate::transactions::RefundTransactionRequestV,
    ) -> Result<TransactionV, PaymentsErrorV>;

    /// What voiding one transaction returns.
    spec fn void_transaction_res(
        &self,
        transaction_id: Seq<char>,
        request: crate::transactions::VoidTransactionRequestV,
    ) -> Result<TransactionV, PaymentsErrorV>;

    /// What extending one transaction's authorization returns.
    spec fn extend_authorization_res(
        &self,
        transaction_id: Seq<char>,
        request: crate::transactions::ExtendAuthorizationRequestV,
    ) -> Result<TransactionV, PaymentsErrorV>;

    /// Fetches one transaction.
    fn get_transaction(&self, transaction_id: &str) -> (r: Result<Transaction, PaymentsError>)
        ensures
            txn_result_view(r) == self.get_transaction_res(transaction_id@),
    ;

    /// Lists transactions under the given filters.
    fn list_transactions(&self, params: ListTransactionsParams) -> (r: Result<
        TransactionListResponse,
        PaymentsError,
    >)
        ensures
            list_result_view(r) == self.list_transactions_res(params@),
    ;

    /// Updates one transaction's mutable fields.
    fn update_transaction(&self, transaction_id: &str, request: UpdateTransactionRequest) -> (r:
        Result<Transaction, PaymentsError>)
        ensures
            txn_result_view(r) == self.update_transaction_res(transaction_id@, request@),
    ;

    /// Captures an authorized transaction.
    fn capture_transaction(&self, transaction_id: &str, request: CaptureTransactionRequest) -> (r:
        Result<Transaction, PaymentsError>)
        ensures
            txn_result_view(r) == self.capture_transaction_res(transaction_id@, request@),
    ;

    /// Refunds a captured transaction.
    fn refund_transaction(&self, transaction_id: &str, request: RefundTransactionRequest) -> (r:
        Result<Transaction, PaymentsError>)
        ensures
            txn_result_view(r) == self.refund_transaction_res(transaction_id@, request@),
    ;

    /// Voids an authorization.
    fn void_transaction(&self, transaction_id: &str, request: VoidTransactionRequest) -> (r: Result<
        Transaction,
        PaymentsError,
    >)
        ensures
            txn_result_view(r) == self.void_transaction_res(transaction_id@, request@),
    ;

    /// Extends an authorization's validity.
    fn extend_authorization(&self, transaction_id: &str, request: ExtendAuthorizationRequest) -> (r:
        Result<Transaction, PaymentsError>)
        ensures
            txn_result_view(r) == self.extend_authorization_res(transaction_id@, request@),
    ;
}

// ---------------------------------------------------------------------------
// The generic operations client
// ---------------------------------------------------------------------------

/// Implements the payments operations over any adapter: holds only the
/// account identifier and the adapter handle, both fixed at construction.
pub struct PaymentsClient<A: PaymentsAdapter> {
    pub adapter: A,
    pub account_id: String,
}

impl<A: PaymentsAdapter> PaymentsClient<A> {
    /// Builds a client for one account over the given adapter.
    pub fn new(adapter: A, account_id: String) -> (r: Self)
        ensures
            r.adapter == adapter,
            r.account_id == account_id,
    {
        PaymentsClient { adapter, account_id }
    }
}

impl<A: PaymentsAdapter> PaymentsOperations for PaymentsClient<A> {
    open spec fn get_transaction_res(&self, transaction_id: Seq<char>) -> Result<
        TransactionV,
        PaymentsErrorV,
    > {
        self.adapter.get_result(transaction_path_spec(self.account_id@, transaction_id))
    }

    open spec fn list_transactions_res(&self, params: ListTransactionsParamsV) -> Result<
        TransactionListResponseV,
        PaymentsErrorV,
    > {
        self.adapter.get_list_result(list_transactions_path_spec(self.account_id@, params))
    }

    open spec fn update_transaction_res(
        &self,
        transaction_id: Seq<char>,
        request: crate::transactions::UpdateTransactionRequestV,
    ) -> Result<TransactionV, PaymentsErrorV> {
        self.adapter.put_result(
            transaction_path_spec(self.account_id@, transaction_id),
            TransactionRequestV::Update(request),
        )
    }

    open spec fn capture_transaction_res(
        &self,
        transaction_id: Seq<char>,
        request: crate::transactions::CaptureTransactionRequestV,
    ) -> Result<TransactionV, PaymentsErrorV> {
        self.adapter.post_result(
            transaction_action_path_spec(self.account_id@, transaction_id, "capture"@),
            TransactionRequestV::Capture(request),
        )
    }

    open spec fn refund_transaction_res(
        &self,
        transaction_id: Seq<char>,
        request: crate::transactions::RefundTransactionRequestV,
    ) -> Result<TransactionV, PaymentsErrorV> {
        self.adapter.post_result(
            transaction_action_path_spec(self.account_id@, transaction_id, "refund"@),
            TransactionRequestV::Refund(request),
        )
    }

    open spec fn void_transaction_res(
        &self,
        transaction_id: Seq<char>,
        request: crate::transactions::VoidTransactionRequestV,
    ) -> Result<TransactionV, PaymentsErrorV> {
        self.adapter.post_result(
            transaction_action_path_spec(self.account_id@, transaction_id, "void"@),
            TransactionRequestV::Void(request),
        )
    }

    open spec fn extend_authorization_res(
        &self,
        transaction_id: Seq<char>,
        request: crate::transactions::ExtendAuthorizationRequestV,
    ) -> Result<TransactionV, PaymentsErrorV> {
        self.adapter.post_result(
            transaction_action_path_spec(self.account_id@, transaction_id, "extend_authorization"@),
            TransactionRequestV::ExtendAuthorization(request),
        )
    }

    fn get_transaction(&self, transaction_id: &str) -> (r: Result<Transaction, PaymentsError>) {
        let path = transaction_path(self.account_id.as_str(), transaction_id);
        self.adapter.get(path.as_str())
    }

    fn list_transactions(&self, params: ListTransactionsParams) -> (r: Result<
        TransactionListResponse,
        PaymentsError,
    >) {
        let path = list_transactions_path(self.account_id.as_str(), &params);
        self.adapter.get_list(path.as_str())
    }

    fn update_transaction(&self, transaction_id: &str, request: UpdateTransactionRequest) -> (r:
        Result<Transaction, PaymentsError>) {
        let path = transaction_path(self.account_id.as_str(), transaction_id);
        self.adapter.put(path.as_str(), &TransactionRequest::Update(request))
    }

    fn capture_transaction(&self, transaction_id: &str, request: CaptureTransactionRequest) -> (r:
        Result<Transaction, PaymentsError>) {
        let path = transaction_action_path(self.account_id.as_str(), transaction_id, "capture");
        self.adapter.post(path.as_str(), &TransactionRequest::Capture(request))
    }

    fn refund_transaction(&self, transaction_id: &str, request: RefundTransactionRequest) -> (r:
        Result<Transaction, PaymentsError>) {
        let path = transaction_action_path(self.account_id.as_str(), transaction_id, "refund");
        self.adapter.post(path.as_str(), &TransactionRequest::Refund(request))
    }

    fn void_transaction(&self, transaction_id: &str, request: VoidTransactionRequest) -> (r: Result<
        Transaction,
        PaymentsError,
    >) {
        let path = transaction_action_path(self.account_id.as_str(), transaction_id, "void");
        self.adapter.post(path.as_str(), &TransactionRequest::Void(request))
    }

    fn extend_authorization(&self, transaction_id: &str, request: ExtendAuthorizationRequest) -> (r:
        Result<Transaction, PaymentsError>) {
        let path = transaction_action_path(
            self.account_id.as_str(),
            transaction_id,
            "extend_authorization",
        );
        self.adapter.post(path.as_str(), &TransactionRequest::ExtendAuthorization(request))
    }
}

// ---------------------------------------------------------------------------
// An in-memory adapter double
// ---------------------------------------------------------------------------

/// The amount a request body carries, where it carries one.
pub open spec fn body_amount(b: TransactionRequestV) -> u64 {
    match b {
        TransactionRequestV::Capture(c) => c.amount,
        TransactionRequestV::Refund(r) => r.amount,
        TransactionRequestV::Update(_) => 0,
        TransactionRequestV::Void(_) => 0,
        TransactionRequestV::ExtendAuthorization(_) => 0,
    }
}

/// An in-memory adapter for tests: every call succeeds, and the answer
/// reflects what the adapter was handed — the request path becomes the
/// returned transaction's id, and a body's amount becomes its amount.
pub struct EchoAdapter {
    pub status: TransactionStatus,
}

impl PaymentsAdapter for EchoAdapter {
    open spec fn get_result(&self, path: Seq<char>) -> Result<TransactionV, PaymentsErrorV> {
        Ok(TransactionV { id: path, amount: 0, status: self.status })
    }

    open spec fn get_list_result(&self, path: Seq<char>) -> Result<
        TransactionListResponseV,
        PaymentsErrorV,
    > {
        Ok(
            TransactionListResponseV {
                transactions: seq![TransactionV { id: path, amount: 0, status: self.status }],
                next_page_token: None,
            },
        )
    }

    open spec fn post_result(&self, path: Seq<char>, body: TransactionRequestV) -> Result<
        TransactionV,
        PaymentsErrorV,
    > {
        Ok(TransactionV { id: path, amount: body_amount(body), status: self.status })
    }

    open spec fn put_result(&self, path: Seq<char>, body: TransactionRequestV) -> Result<
        TransactionV,
        PaymentsErrorV,
    > {
        Ok(TransactionV { id: path, amount: body_amount(body), status: self.status })
    }

    fn get(&self, path: &str) -> (r: Result<Transaction, PaymentsError>) {
        Ok(Transaction { id: String::from_str(path), amount: 0, status: self.status })
    }

    fn get_list(&self, path: &str) -> (r: Result<TransactionListResponse, PaymentsError>) {
        let t = Transaction { id: String::from_str(path), amount: 0, status: self.status };
        let mut transactions: Vec<Transaction> = Vec::new();
        transactions.push(t);
        let resp = TransactionListResponse { transactions, next_page_token: None };
        proof {
            assert(resp@.transactions =~= seq![
                TransactionV { id: path@, amount: 0, status: self.status },
            ]);
        }
        Ok(resp)
    }

    fn post(&self, path: &str, body: &TransactionRequest) -> (r: Result<
        Transaction,
        PaymentsError,
    >) {
        let amount = match body {
            TransactionRequest::Capture(c) => c.amount,
            TransactionRequest::Refund(rf) => rf.amount,
            TransactionRequest::Update(_) => 0,
            TransactionRequest::Void(_) => 0,
            TransactionRequest::ExtendAuthorization(_) => 0,
        };
        Ok(Transaction { id: String::from_str(path), amount, status: self.status })
    }

    fn put(&self, path: &str, body: &TransactionRequest) -> (r: Result<Transaction, PaymentsError>) {
        let amount = match body {
            TransactionRequest::Capture(c) => c.amount,
            TransactionRequest::Refund(rf) => rf.amount,
            TransactionRequest::Update(_) => 0,
            TransactionRequest::Void(_) => 0,
            TransactionRequest::ExtendAuthorization(_) => 0,
        };
        Ok(Transaction { id: String::from_str(path), amount, status: self.status })
    }
}

} // verus!
