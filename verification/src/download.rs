//! The requests of a full download of a Stripe account, and the bookkeeping between them.
//! The download itself (the HTTP calls and the database writes) runs outside the library;
//! what it sends is decided here.
use vstd::prelude::*;
use crate::req_params::{
    GetBalanceHistory, GetCharges, GetCheckoutSessions, GetCountrySpecs, GetCoupons, GetCreditNotes,
    GetCustomers, GetCustomersCustomerSources, GetDisputes, GetEvents, GetInvoiceitems, GetInvoices,
    GetOrders, GetPaymentIntents, GetPaymentMethods, GetPrices, GetProducts, GetPromotionCodes,
    GetRefunds, GetSetupIntents, GetSkus, GetSubscriptionSchedules, GetSubscriptions, GetTaxRates,
    UniStrStatus3EB683, UniStrTypeBAE85E,
};
use crate::responses::{ApmsSourcesSourceListF0771E, PaymentFlowsPaymentMethodList, UniPolymorphic646C3F};
use crate::text::string_of;
use crate::types::{
    CreditNote, Customer, Invoice, PaymentMethod, UniStrObject041746, UniStrObject2AE122, UniStrObject5F868A, UniStrObjectBAC623, UniStrObjectF7EF2D,
};

verus! {

/// Objects requested per page.
pub const PAGE_LIMIT: i64 = 100;

/// Customers whose payment methods are downloaded together.
pub const CUSTOMER_BATCH: usize = 100;

/// Whether `e` asks to expand exactly the `paths`, in order.
pub open spec fn expands(e: Option<Vec<String>>, paths: Seq<Seq<char>>) -> bool {
    e matches Some(v) && v@.len() == paths.len() && forall|i: int| 0 <= i < paths.len() ==> #[trigger] v@[i]@ == paths[i]
}

/// The request that lists all events, 100 a page.
pub fn dl_events_params() -> (p: GetEvents)
    ensures
        p.type_x is None,
        p.created is None,
        p.delivery_success is None,
        p.ending_before is None,
        p.expand is None,
        p.limit == Some(PAGE_LIMIT),
        p.starting_after is None,
        p.types is None,
{
    GetEvents {
        type_x: None,
        created: None,
        delivery_success: None,
        ending_before: None,
        expand: None,
        limit: Some(PAGE_LIMIT),
        starting_after: None,
        types: None,
    }
}

/// The request that lists all customers, 100 a page, with their sources and tax ids expanded (there is no list endpoint for sources).
pub fn dl_customers_params() -> (p: GetCustomers)
    ensures
        p.created is None,
        p.email is None,
        p.ending_before is None,
        expands(p.expand, seq!["data.sources"@, "data.tax_ids"@]),
        p.limit == Some(PAGE_LIMIT),
        p.starting_after is None,
{
    let mut expand: Vec<String> = Vec::new();
    expand.push(string_of("data.sources"));
    expand.push(string_of("data.tax_ids"));
    assert(expand@.len() == 2);
    GetCustomers {
        created: None,
        email: None,
        ending_before: None,
        expand: Some(expand),
        limit: Some(PAGE_LIMIT),
        starting_after: None,
    }
}

/// The request for the sources of one customer whose expanded sources list has more items.
pub fn customer_sources_params() -> (p: GetCustomersCustomerSources)
    ensures
        p.object is None,
        p.ending_before is None,
        p.expand is None,
        p.limit == Some(PAGE_LIMIT),
        p.starting_after is None,
{
    GetCustomersCustomerSources {
        object: None,
        ending_before: None,
        expand: None,
        limit: Some(PAGE_LIMIT),
        starting_after: None,
    }
}

/// The request that lists all coupons, 100 a page.
pub fn dl_coupons_params() -> (p: GetCoupons)
    ensures
        p.created is None,
        p.ending_before is None,
        p.expand is None,
        p.limit == Some(PAGE_LIMIT),
        p.starting_after is None,
{
    GetCoupons {
        created: None,
        ending_before: None,
        expand: None,
        limit: Some(PAGE_LIMIT),
        starting_after: None,
    }
}

/// The request that lists all promotion codes (inactive ones too), 100 a page.
pub fn dl_promotion_codes_params() -> (p: GetPromotionCodes)
    ensures
        p.created is None,
        p.active is None,
        p.code is None,
        p.coupon is None,
        p.customer is None,
        p.ending_before is None,
        p.expand is None,
        p.limit == Some(PAGE_LIMIT),
        p.starting_after is None,
{
    GetPromotionCodes {
        created: None,
        active: None,
        code: None,
        coupon: None,
        customer: None,
        ending_before: None,
        expand: None,
        limit: Some(PAGE_LIMIT),
        starting_after: None,
    }
}

/// The request that lists the lines of one invoice whose line list has more items.
pub fn invoice_lines_params() -> (p: GetCountrySpecs)
    ensures
        p.ending_before is None,
        p.expand is None,
        p.limit is None,
        p.starting_after is None,
{
    GetCountrySpecs {
        ending_before: None,
        expand: None,
        limit: None,
        starting_after: None,
    }
}

/// The request that lists all invoices, 100 a page, with discounts and the default payment method expanded.
pub fn dl_invoices_params() -> (p: GetInvoices)
    ensures
        p.created is None,
        p.due_date is None,
        p.collection_method is None,
        p.customer is None,
        p.ending_before is None,
        expands(p.expand, seq!["data.discounts"@, "data.default_payment_method"@]),
        p.limit == Some(PAGE_LIMIT),
        p.starting_after is None,
        p.status is None,
        p.subscription is None,
{
    let mut expand: Vec<String> = Vec::new();
    expand.push(string_of("data.discounts"));
    expand.push(string_of("data.default_payment_method"));
    assert(expand@.len() == 2);
    GetInvoices {
        created: None,
        due_date: None,
        collection_method: None,
        customer: None,
        ending_before: None,
        expand: Some(expand),
        limit: Some(PAGE_LIMIT),
        starting_after: None,
        status: None,
        subscription: None,
    }
}

/// The request that lists all invoice items, 100 a page, with discounts expanded.
pub fn dl_invoiceitems_params() -> (p: GetInvoiceitems)
    ensures
        p.created is None,
        p.customer is None,
        p.ending_before is None,
        expands(p.expand, seq!["data.discounts"@]),
        p.invoice is None,
        p.limit == Some(PAGE_LIMIT),
        p.pending is None,
        p.starting_after is None,
{
    let mut expand: Vec<String> = Vec::new();
    expand.push(string_of("data.discounts"));
    assert(expand@.len() == 1);
    GetInvoiceitems {
        created: None,
        customer: None,
        ending_before: None,
        expand: Some(expand),
        invoice: None,
        limit: Some(PAGE_LIMIT),
        pending: None,
        starting_after: None,
    }
}

/// The request that lists all credit notes, 100 a page.
pub fn dl_credit_notes_params() -> (p: GetCreditNotes)
    ensures
        p.customer is None,
        p.ending_before is None,
        p.expand is None,
        p.invoice is None,
        p.limit == Some(PAGE_LIMIT),
        p.starting_after is None,
{
    GetCreditNotes {
        customer: None,
        ending_before: None,
        expand: None,
        invoice: None,
        limit: Some(PAGE_LIMIT),
        starting_after: None,
    }
}

/// The request that lists the lines of one credit note whose line list has more items, 100 a page.
pub fn credit_note_line_items_params() -> (p: GetCountrySpecs)
    ensures
        p.ending_before is None,
        p.expand is None,
        p.limit == Some(PAGE_LIMIT),
        p.starting_after is None,
{
    GetCountrySpecs {
        ending_before: None,
        expand: None,
        limit: Some(PAGE_LIMIT),
        starting_after: None,
    }
}

/// The request that lists all subscriptions of every status, 100 a page, with their items and default payment method expanded.
pub fn dl_subscriptions_params() -> (p: GetSubscriptions)
    ensures
        p.created is None,
        p.current_period_end is None,
        p.current_period_start is None,
        p.collection_method is None,
        p.customer is None,
        p.ending_before is None,
        expands(p.expand, seq!["data.items"@, "data.default_payment_method"@]),
        p.limit == Some(PAGE_LIMIT),
        p.price is None,
        p.starting_after is None,
        p.status == Some(UniStrStatus3EB683::All),
{
    let mut expand: Vec<String> = Vec::new();
    expand.push(string_of("data.items"));
    expand.push(string_of("data.default_payment_method"));
    assert(expand@.len() == 2);
    GetSubscriptions {
        created: None,
        current_period_end: None,
        current_period_start: None,
        collection_method: None,
        customer: None,
        ending_before: None,
        expand: Some(expand),
        limit: Some(PAGE_LIMIT),
        price: None,
        starting_after: None,
        status: Some(UniStrStatus3EB683::All),
    }
}

/// The request that lists all subscription schedules, 100 a page.
pub fn dl_subscription_schedules_params() -> (p: GetSubscriptionSchedules)
    ensures
        p.canceled_at is None,
        p.completed_at is None,
        p.created is None,
        p.released_at is None,
        p.customer is None,
        p.ending_before is None,
        p.expand is None,
        p.limit == Some(PAGE_LIMIT),
        p.scheduled is None,
        p.starting_after is None,
{
    GetSubscriptionSchedules {
        canceled_at: None,
        completed_at: None,
        created: None,
        released_at: None,
        customer: None,
        ending_before: None,
        expand: None,
        limit: Some(PAGE_LIMIT),
        scheduled: None,
        starting_after: None,
    }
}

/// The request that lists all tax rates (active and inactive), 100 a page.
pub fn dl_tax_rates_params() -> (p: GetTaxRates)
    ensures
        p.created is None,
        p.active is None,
        p.ending_before is None,
        p.expand is None,
        p.inclusive is None,
        p.limit == Some(PAGE_LIMIT),
        p.starting_after is None,
{
    GetTaxRates {
        created: None,
        active: None,
        ending_before: None,
        expand: None,
        inclusive: None,
        limit: Some(PAGE_LIMIT),
        starting_after: None,
    }
}

/// The request that lists all products, 100 a page.
pub fn dl_products_params() -> (p: GetProducts)
    ensures
        p.created is None,
        p.active is None,
        p.ending_before is None,
        p.expand is None,
        p.ids is None,
        p.limit == Some(PAGE_LIMIT),
        p.shippable is None,
        p.starting_after is None,
        p.url is None,
{
    GetProducts {
        created: None,
        active: None,
        ending_before: None,
        expand: None,
        ids: None,
        limit: Some(PAGE_LIMIT),
        shippable: None,
        starting_after: None,
        url: None,
    }
}

/// The request that lists all payment intents, 100 a page, with the payment method expanded.
pub fn dl_payment_intents_params() -> (p: GetPaymentIntents)
    ensures
        p.created is None,
        p.customer is None,
        p.ending_before is None,
        expands(p.expand, seq!["data.payment_method"@]),
        p.limit == Some(PAGE_LIMIT),
        p.starting_after is None,
{
    let mut expand: Vec<String> = Vec::new();
    expand.push(string_of("data.payment_method"));
    assert(expand@.len() == 1);
    GetPaymentIntents {
        created: None,
        customer: None,
        ending_before: None,
        expand: Some(expand),
        limit: Some(PAGE_LIMIT),
        starting_after: None,
    }
}

/// The request that lists all setup intents, 100 a page, with the payment method expanded.
pub fn dl_setup_intents_params() -> (p: GetSetupIntents)
    ensures
        p.created is None,
        p.customer is None,
        p.ending_before is None,
        expands(p.expand, seq!["data.payment_method"@]),
        p.limit == Some(PAGE_LIMIT),
        p.payment_method is None,
        p.starting_after is None,
{
    let mut expand: Vec<String> = Vec::new();
    expand.push(string_of("data.payment_method"));
    assert(expand@.len() == 1);
    GetSetupIntents {
        created: None,
        customer: None,
        ending_before: None,
        expand: Some(expand),
        limit: Some(PAGE_LIMIT),
        payment_method: None,
        starting_after: None,
    }
}

/// The request that lists all charges, 100 a page.
pub fn dl_charges_params() -> (p: GetCharges)
    ensures
        p.created is None,
        p.customer is None,
        p.ending_before is None,
        p.expand is None,
        p.limit == Some(PAGE_LIMIT),
        p.payment_intent is None,
        p.starting_after is None,
        p.transfer_group is None,
{
    GetCharges {
        created: None,
        customer: None,
        ending_before: None,
        expand: None,
        limit: Some(PAGE_LIMIT),
        payment_intent: None,
        starting_after: None,
        transfer_group: None,
    }
}

/// The request that lists all refunds, 100 a page.
pub fn dl_refunds_params() -> (p: GetRefunds)
    ensures
        p.created is None,
        p.charge is None,
        p.ending_before is None,
        p.expand is None,
        p.limit == Some(PAGE_LIMIT),
        p.payment_intent is None,
        p.starting_after is None,
{
    GetRefunds {
        created: None,
        charge: None,
        ending_before: None,
        expand: None,
        limit: Some(PAGE_LIMIT),
        payment_intent: None,
        starting_after: None,
    }
}

/// The request that lists all disputes, 100 a page.
pub fn dl_disputes_params() -> (p: GetDisputes)
    ensures
        p.created is None,
        p.charge is None,
        p.ending_before is None,
        p.expand is None,
        p.limit == Some(PAGE_LIMIT),
        p.payment_intent is None,
        p.starting_after is None,
{
    GetDisputes {
        created: None,
        charge: None,
        ending_before: None,
        expand: None,
        limit: Some(PAGE_LIMIT),
        payment_intent: None,
        starting_after: None,
    }
}

/// The request that lists all balance transactions, 100 a page.
pub fn dl_balance_transactions_params() -> (p: GetBalanceHistory)
    ensures
        p.type_x is None,
        p.available_on is None,
        p.created is None,
        p.currency is None,
        p.ending_before is None,
        p.expand is None,
        p.limit == Some(PAGE_LIMIT),
        p.payout is None,
        p.source is None,
        p.starting_after is None,
{
    GetBalanceHistory {
        type_x: None,
        available_on: None,
        created: None,
        currency: None,
        ending_before: None,
        expand: None,
        limit: Some(PAGE_LIMIT),
        payout: None,
        source: None,
        starting_after: None,
    }
}

/// The request that lists all checkout sessions, 100 a page (line items are not expanded: events never carry them).
pub fn dl_sessions_params() -> (p: GetCheckoutSessions)
    ensures
        p.ending_before is None,
        p.expand is None,
        p.limit == Some(PAGE_LIMIT),
        p.payment_intent is None,
        p.starting_after is None,
        p.subscription is None,
{
    GetCheckoutSessions {
        ending_before: None,
        expand: None,
        limit: Some(PAGE_LIMIT),
        payment_intent: None,
        starting_after: None,
        subscription: None,
    }
}

/// The request that lists all orders, 100 a page (their returns are always expanded).
pub fn dl_orders_params() -> (p: GetOrders)
    ensures
        p.created is None,
        p.customer is None,
        p.ending_before is None,
        p.expand is None,
        p.ids is None,
        p.limit == Some(PAGE_LIMIT),
        p.starting_after is None,
        p.status is None,
        p.status_transitions is None,
        p.upstream_ids is None,
{
    GetOrders {
        created: None,
        customer: None,
        ending_before: None,
        expand: None,
        ids: None,
        limit: Some(PAGE_LIMIT),
        starting_after: None,
        status: None,
        status_transitions: None,
        upstream_ids: None,
    }
}

/// The request that lists all SKUs, 100 a page.
pub fn dl_skus_params() -> (p: GetSkus)
    ensures
        p.active is None,
        p.attributes is None,
        p.ending_before is None,
        p.expand is None,
        p.ids is None,
        p.in_stock is None,
        p.limit == Some(PAGE_LIMIT),
        p.product is None,
        p.starting_after is None,
{
    GetSkus {
        active: None,
        attributes: None,
        ending_before: None,
        expand: None,
        ids: None,
        in_stock: None,
        limit: Some(PAGE_LIMIT),
        product: None,
        starting_after: None,
    }
}

/// Whether `p` lists the prices, 100 a page, with tiers expanded, filtered by `active`.
pub open spec fn prices_request(p: GetPrices, active: Option<bool>) -> bool {
    &&& p.type_x is None
    &&& p.created is None
    &&& p.active == active
    &&& p.currency is None
    &&& p.ending_before is None
    &&& expands(p.expand, seq!["data.tiers"@])
    &&& p.limit == Some(PAGE_LIMIT)
    &&& p.lookup_keys is None
    &&& p.product is None
    &&& p.recurring is None
    &&& p.starting_after is None
}

/// The two price lists of a download, in the order they are walked: first the active prices
/// (the API's default), then the archived ones (`active` is `false`), which the default list
/// leaves out.
pub fn dl_prices_requests() -> (r: (GetPrices, GetPrices))
    ensures
        prices_request(r.0, None),
        prices_request(r.1, Some(false)),
{
    (dl_prices_params(None), dl_prices_params(Some(false)))
}

/// The request that lists the prices, 100 a page, with tiers expanded; `active` filters on whether the price is active (`None` lists the active ones, `Some(false)` the archived ones).
pub fn dl_prices_params(active: Option<bool>) -> (p: GetPrices)
    ensures
        prices_request(p, active),
{
    let mut expand: Vec<String> = Vec::new();
    expand.push(string_of("data.tiers"));
    assert(expand@.len() == 1);
    GetPrices {
        type_x: None,
        created: None,
        active: active,
        currency: None,
        ending_before: None,
        expand: Some(expand),
        limit: Some(PAGE_LIMIT),
        lookup_keys: None,
        product: None,
        recurring: None,
        starting_after: None,
    }
}

/// The payment method types whose payment methods are downloaded for each customer: cards
/// (global), SEPA debit and Sofort (EU countries), and Bacs debit (UK).
pub fn payment_method_types() -> (r: Vec<UniStrTypeBAE85E>)
    ensures
        r@ == seq![
            UniStrTypeBAE85E::Card,
            UniStrTypeBAE85E::SepaDebit,
            UniStrTypeBAE85E::Sofort,
            UniStrTypeBAE85E::BacsDebit,
        ],
{
    let mut r: Vec<UniStrTypeBAE85E> = Vec::new();
    r.push(UniStrTypeBAE85E::Card);
    r.push(UniStrTypeBAE85E::SepaDebit);
    r.push(UniStrTypeBAE85E::Sofort);
    r.push(UniStrTypeBAE85E::BacsDebit);
    r
}

/// The request for the payment methods of type `type_x` of the customer `customer`.
pub fn payment_methods_params(type_x: UniStrTypeBAE85E, customer: String) -> (p: GetPaymentMethods)
    ensures
        p.type_x == type_x,
        p.customer == customer,
        p.ending_before is None,
        p.expand is None,
        p.limit == Some(PAGE_LIMIT),
        p.starting_after is None,
{
    GetPaymentMethods {
        type_x,
        customer,
        ending_before: None,
        expand: None,
        limit: Some(PAGE_LIMIT),
        starting_after: None,
    }
}

/// The batches of `ids` (in order) whose payment methods are downloaded together.
pub open spec fn batches_of(b: Seq<Vec<String>>, ids: Seq<String>) -> bool {
    &&& b.len() == (ids.len() + CUSTOMER_BATCH - 1) / (CUSTOMER_BATCH as int)
    &&& forall|k: int| #![trigger b[k]] 0 <= k < b.len() ==> {
        let lo = k * CUSTOMER_BATCH;
        let hi = if lo + CUSTOMER_BATCH < ids.len() { lo + CUSTOMER_BATCH } else { ids.len() as int };
        b[k]@ == ids.subrange(lo, hi)
    }
}

/// The contents of each batch.
pub open spec fn batch_views(b: Seq<Vec<String>>) -> Seq<Seq<String>> {
    b.map_values(|v: Vec<String>| v@)
}

proof fn lemma_batch_count(n: int, count: int)
    requires
        n >= 0,
        count == (n + CUSTOMER_BATCH - 1) / (CUSTOMER_BATCH as int),
    ensures
        count * CUSTOMER_BATCH >= n,
        forall|j: int| 0 <= j < count ==> #[trigger] (j * CUSTOMER_BATCH) < n,
{
    assert(count * 100 >= n) by (nonlinear_arith)
        requires
            n >= 0,
            count == (n + 99) / 100,
    ;
    assert forall|j: int| 0 <= j < count implies #[trigger] (j * CUSTOMER_BATCH) < n by {
        assert(j * 100 < n) by (nonlinear_arith)
            requires
                n >= 0,
                count == (n + 99) / 100,
                0 <= j < count,
        ;
    }
}

proof fn lemma_batches_suffix(b: Seq<Vec<String>>, ids: Seq<String>, j: int)
    requires
        batches_of(b, ids),
        0 <= j <= b.len(),
    ensures
        batch_views(b).skip(j).flatten() == ids.subrange(
            if j * CUSTOMER_BATCH < ids.len() { j * CUSTOMER_BATCH } else { ids.len() as int },
            ids.len() as int,
        ),
    decreases b.len() - j,
{
    lemma_batch_count(ids.len() as int, b.len() as int);
    let n = ids.len() as int;
    if j == b.len() {
        assert(batch_views(b).skip(j) =~= Seq::<Seq<String>>::empty());
        assert(ids.subrange(n, n) =~= Seq::<String>::empty());
    } else {
        lemma_batches_suffix(b, ids, j + 1);
        let lo = j * CUSTOMER_BATCH;
        assert(lo < n);
        assert((j + 1) * CUSTOMER_BATCH == lo + CUSTOMER_BATCH);
        let hi = if lo + CUSTOMER_BATCH < n { lo + CUSTOMER_BATCH } else { n };
        assert(b[j]@ == ids.subrange(lo, hi));
        let s = batch_views(b).skip(j);
        assert(s.len() > 0);
        assert(s[0] == b[j]@);
        assert(s.drop_first() =~= batch_views(b).skip(j + 1));
        assert(ids.subrange(lo, hi) + ids.subrange(hi, n) =~= ids.subrange(lo, n));
    }
}

/// The batches, joined in order, give back the customer ids; every batch holds at least
/// one and at most 100 of them.
pub proof fn law_batches_cover_ids(b: Seq<Vec<String>>, ids: Seq<String>)
    requires
        batches_of(b, ids),
    ensures
        batch_views(b).flatten() == ids,
        forall|k: int| 0 <= k < b.len() ==> 0 < (#[trigger] b[k])@.len() <= CUSTOMER_BATCH,
{
    lemma_batches_suffix(b, ids, 0);
    assert(batch_views(b).skip(0) =~= batch_views(b));
    assert(ids.subrange(0, ids.len() as int) =~= ids);
    lemma_batch_count(ids.len() as int, b.len() as int);
    assert forall|k: int| 0 <= k < b.len() implies 0 < (#[trigger] b[k])@.len() <= CUSTOMER_BATCH by {
        assert(k * CUSTOMER_BATCH < ids.len());
    }
}

/// Splits the customer ids into batches of 100 (the last one may be shorter).
pub fn customer_batches(ids: &Vec<String>) -> (b: Vec<Vec<String>>)
    ensures
        batches_of(b@, ids@),
{
    let n: usize = ids.len();
    let mut b: Vec<Vec<String>> = Vec::new();
    let mut lo: usize = 0;
    while lo < n
        invariant
            n == ids@.len(),
            lo <= n,
            lo == if b@.len() * CUSTOMER_BATCH <= n { b@.len() * CUSTOMER_BATCH } else { n as int },
            b@.len() * CUSTOMER_BATCH < n + CUSTOMER_BATCH,
            forall|k: int| #![trigger b@[k]] 0 <= k < b@.len() ==> {
                let l = k * CUSTOMER_BATCH;
                let h = if l + CUSTOMER_BATCH < ids@.len() { l + CUSTOMER_BATCH } else { ids@.len() as int };
                b@[k]@ == ids@.subrange(l, h)
            },
        decreases n - lo,
    {
        let hi = if n - lo > CUSTOMER_BATCH { lo + CUSTOMER_BATCH } else { n };
        let mut chunk: Vec<String> = Vec::new();
        let mut i: usize = lo;
        while i < hi
            invariant
                lo <= i <= hi,
                hi <= n,
                n == ids@.len(),
                chunk@ == ids@.subrange(lo as int, i as int),
            decreases hi - i,
        {
            chunk.push(ids[i].clone());
            i = i + 1;
            assert(chunk@ =~= ids@.subrange(lo as int, i as int));
        }
        let ghost k = b@.len() as int;
        b.push(chunk);
        assert(k * CUSTOMER_BATCH == lo);
        lo = hi;
    }
    assert(b@.len() == (n + CUSTOMER_BATCH - 1) / (CUSTOMER_BATCH as int));
    b
}


/// The ids of the customers on a page, in order; their payment methods are downloaded
/// after all customers are.
pub fn customer_ids(page: &Vec<Customer>) -> (r: Vec<String>)
    ensures
        r@.len() == page@.len(),
        forall|i: int| 0 <= i < page@.len() ==> #[trigger] r@[i] == page@[i].id,
{
    let mut r: Vec<String> = Vec::new();
    let mut i: usize = 0;
    while i < page.len()
        invariant
            i <= page@.len(),
            r@.len() == i,
            forall|k: int| 0 <= k < i ==> #[trigger] r@[k] == page@[k].id,
        decreases page@.len() - i,
    {
        r.push(page[i].id.clone());
        i = i + 1;
    }
    r
}

/// Whether a downloaded customer needs its sources listed on their own: `None` when the
/// page did not expand the customer's sources (the download stops there), otherwise
/// whether the expanded list reported more sources than it holds.
pub fn customer_needs_sources(c: &Customer) -> (r: Option<bool>)
    ensures
        r == match c.sources {
            Some(s) => Some(s.has_more),
            None => None,
        },
{
    match &c.sources {
        Some(s) => Some(s.has_more),
        None => None,
    }
}

/// The table that a customer source is written to.
#[derive(Debug, Clone, Copy, PartialEq, Eq, Structural)]
pub enum SourceWrite {
    Source,
    Card,
    BankAccount,
}

/// The table of a customer source; `None` for the kinds that are not written (Alipay
/// accounts and Bitcoin receivers).
pub open spec fn source_write_of(x: UniPolymorphic646C3F) -> Option<SourceWrite> {
    match x {
        UniPolymorphic646C3F::Source(_) => Some(SourceWrite::Source),
        UniPolymorphic646C3F::Card(_) => Some(SourceWrite::Card),
        UniPolymorphic646C3F::BankAccount(_) => Some(SourceWrite::BankAccount),
        UniPolymorphic646C3F::AlipayAccount(_) | UniPolymorphic646C3F::BitcoinReceiver(_) => None,
    }
}

/// Where a source from a customer's own source list is written; `None` for a kind that is
/// not written, on which the download stops rather than leave queries incomplete.
pub fn source_write(x: &UniPolymorphic646C3F) -> (r: Option<SourceWrite>)
    ensures
        r == source_write_of(*x),
{
    match x {
        UniPolymorphic646C3F::Source(_) => Some(SourceWrite::Source),
        UniPolymorphic646C3F::Card(_) => Some(SourceWrite::Card),
        UniPolymorphic646C3F::BankAccount(_) => Some(SourceWrite::BankAccount),
        UniPolymorphic646C3F::AlipayAccount(_) | UniPolymorphic646C3F::BitcoinReceiver(_) => None,
    }
}

/// The ids of the invoices whose embedded line list reported more lines, in order.
pub open spec fn invoice_ids_with_more_lines(s: Seq<Invoice>) -> Seq<String>
    decreases s.len(),
{
    if s.len() == 0 {
        Seq::empty()
    } else {
        let r = invoice_ids_with_more_lines(s.drop_last());
        if s.last().lines.has_more {
            r.push(s.last().id.unwrap())
        } else {
            r
        }
    }
}

/// The invoices of a page whose lines are listed on their own after the invoices are
/// downloaded: those whose embedded line list reported more lines. Such an invoice has an id.
pub fn invoices_with_more_lines(page: &Vec<Invoice>) -> (r: Vec<String>)
    requires
        forall|i: int| 0 <= i < page@.len() && (#[trigger] page@[i]).lines.has_more ==> page@[i].id is Some,
    ensures
        r@ == invoice_ids_with_more_lines(page@),
{
    let mut r: Vec<String> = Vec::new();
    let mut i: usize = 0;
    while i < page.len()
        invariant
            i <= page@.len(),
            forall|k: int| 0 <= k < page@.len() && (#[trigger] page@[k]).lines.has_more ==> page@[k].id is Some,
            r@ == invoice_ids_with_more_lines(page@.take(i as int)),
        decreases page@.len() - i,
    {
        assert(page@.take(i + 1).drop_last() =~= page@.take(i as int));
        if page[i].lines.has_more {
            match &page[i].id {
                Some(id) => r.push(id.clone()),
                None => {},
            }
        }
        i = i + 1;
    }
    assert(page@.take(page@.len() as int) =~= page@);
    r
}

/// The ids of the credit notes whose embedded line list reported more lines, in order.
pub open spec fn credit_note_ids_with_more_lines(s: Seq<CreditNote>) -> Seq<String>
    decreases s.len(),
{
    if s.len() == 0 {
        Seq::empty()
    } else {
        let r = credit_note_ids_with_more_lines(s.drop_last());
        if s.last().lines.has_more {
            r.push(s.last().id)
        } else {
            r
        }
    }
}

/// The credit notes of a page whose lines are listed on their own: those whose embedded
/// line list reported more lines.
pub fn credit_notes_with_more_lines(page: &Vec<CreditNote>) -> (r: Vec<String>)
    ensures
        r@ == credit_note_ids_with_more_lines(page@),
{
    let mut r: Vec<String> = Vec::new();
    let mut i: usize = 0;
    while i < page.len()
        invariant
            i <= page@.len(),
            r@ == credit_note_ids_with_more_lines(page@.take(i as int)),
        decreases page@.len() - i,
    {
        assert(page@.take(i + 1).drop_last() =~= page@.take(i as int));
        if page[i].lines.has_more {
            r.push(page[i].id.clone());
        }
        i = i + 1;
    }
    assert(page@.take(page@.len() as int) =~= page@);
    r
}

/// The payment methods of a customer's page, in order, to be written; `None` when the page
/// reports more methods than it holds: one page of 100 is all that is listed per customer and
/// type, so the download stops there rather than leave methods out.
pub fn payment_methods_page(page: PaymentFlowsPaymentMethodList) -> (r: Option<Vec<PaymentMethod>>)
    ensures
        r is None <==> page.has_more,
        r matches Some(v) ==> v@ == page.data@,
{
    if page.has_more {
        None
    } else {
        Some(page.data)
    }
}

/// Why a customer's own list of sources is not written.
#[derive(Debug, Clone, Copy, PartialEq, Eq, Structural)]
pub enum SourcesRefused {
    /// The list reports more sources than it holds (more than 100 are not listed).
    MoreThanOnePage,
    /// The source at this index is of a kind that is not written (see `source_write`).
    NotWritten(usize),
}

/// The first index of `s` whose source is of a kind that is not written, if any.
pub open spec fn first_unwritten(s: Seq<UniPolymorphic646C3F>) -> Option<int> {
    if exists|i: int| 0 <= i < s.len() && source_write_of(#[trigger] s[i]) is None {
        Some(choose|i: int| 0 <= i < s.len() && source_write_of(#[trigger] s[i]) is None
            && forall|j: int| 0 <= j < i ==> source_write_of(#[trigger] s[j]) is Some)
    } else {
        None
    }
}

/// Where each source of a customer's own source list is written, in order. The list is
/// refused when it reports more sources than it holds, and otherwise at its first source of
/// a kind that is not written.
pub fn customer_sources_page(list: &ApmsSourcesSourceListF0771E) -> (r: Result<Vec<SourceWrite>, SourcesRefused>)
    ensures
        list.has_more ==> r == Err::<Vec<SourceWrite>, SourcesRefused>(SourcesRefused::MoreThanOnePage),
        !list.has_more ==> match r {
            Ok(w) => w@.len() == list.data@.len() && first_unwritten(list.data@) is None
                && forall|i: int| 0 <= i < w@.len() ==> Some(#[trigger] w@[i]) == source_write_of(list.data@[i]),
            Err(SourcesRefused::NotWritten(i)) => first_unwritten(list.data@) == Some(i as int),
            Err(SourcesRefused::MoreThanOnePage) => false,
        },
{
    if list.has_more {
        return Err(SourcesRefused::MoreThanOnePage);
    }
    let mut w: Vec<SourceWrite> = Vec::new();
    let mut i: usize = 0;
    while i < list.data.len()
        invariant
            !list.has_more,
            i <= list.data@.len(),
            w@.len() == i,
            forall|k: int| 0 <= k < i ==> Some(#[trigger] w@[k]) == source_write_of(list.data@[k]),
        decreases list.data@.len() - i,
    {
        match source_write(&list.data[i]) {
            Some(x) => w.push(x),
            None => {
                proof {
                    let s = list.data@;
                    assert(source_write_of(s[i as int]) is None);
                    assert forall|j: int| 0 <= j < i implies source_write_of(#[trigger] s[j]) is Some by {
                        assert(Some(w@[j]) == source_write_of(s[j]));
                    }
                    let c = choose|c: int| 0 <= c < s.len() && source_write_of(#[trigger] s[c]) is None
                        && forall|j: int| 0 <= j < c ==> source_write_of(#[trigger] s[j]) is Some;
                    if c < i {
                        assert(Some(w@[c]) == source_write_of(s[c]));
                    }
                    if c > i {
                        assert(source_write_of(s[i as int]) is Some);
                    }
                }
                return Err(SourcesRefused::NotWritten(i));
            },
        }
        i = i + 1;
    }
    proof {
        let s = list.data@;
        assert forall|c: int| 0 <= c < s.len() implies source_write_of(#[trigger] s[c]) is Some by {
            assert(Some(w@[c]) == source_write_of(s[c]));
        }
    }
    Ok(w)
}

/// The ids of the invoices of a page whose lines are listed on their own are exactly those of
/// the invoices whose embedded line list reports more lines, in page order.
pub proof fn law_invoices_with_more_lines(page: Seq<Invoice>)
    ensures
        invoice_ids_with_more_lines(page)
            == page.filter(|x: Invoice| x.lines.has_more).map_values(|x: Invoice| x.id.unwrap()),
    decreases page.len(),
{
    reveal(Seq::filter);
    if page.len() > 0 {
        law_invoices_with_more_lines(page.drop_last());
        let f = page.drop_last().filter(|x: Invoice| x.lines.has_more);
        if page.last().lines.has_more {
            assert(f.push(page.last()).map_values(|x: Invoice| x.id.unwrap())
                =~= f.map_values(|x: Invoice| x.id.unwrap()).push(page.last().id.unwrap()));
        }
    }
}

/// The ids of the credit notes of a page whose lines are listed on their own are exactly those
/// of the credit notes whose embedded line list reports more lines, in page order.
pub proof fn law_credit_notes_with_more_lines(page: Seq<CreditNote>)
    ensures
        credit_note_ids_with_more_lines(page)
            == page.filter(|x: CreditNote| x.lines.has_more).map_values(|x: CreditNote| x.id),
    decreases page.len(),
{
    reveal(Seq::filter);
    if page.len() > 0 {
        law_credit_notes_with_more_lines(page.drop_last());
        let f = page.drop_last().filter(|x: CreditNote| x.lines.has_more);
        if page.last().lines.has_more {
            assert(f.push(page.last()).map_values(|x: CreditNote| x.id)
                =~= f.map_values(|x: CreditNote| x.id).push(page.last().id));
        }
    }
}

/// The Stripe object type of a customer source, as its own `object` field names it.
pub open spec fn source_object_type(x: UniPolymorphic646C3F) -> Seq<char> {
    match x {
        UniPolymorphic646C3F::AlipayAccount(a) => match a.object {
            UniStrObject2AE122::AlipayAccount => "alipay_account"@,
        },
        UniPolymorphic646C3F::BankAccount(a) => match a.object {
            UniStrObject5F868A::BankAccount => "bank_account"@,
        },
        UniPolymorphic646C3F::BitcoinReceiver(a) => match a.object {
            UniStrObject041746::BitcoinReceiver => "bitcoin_receiver"@,
        },
        UniPolymorphic646C3F::Card(a) => match a.object {
            UniStrObjectBAC623::Card => "card"@,
        },
        UniPolymorphic646C3F::Source(a) => match a.object {
            UniStrObjectF7EF2D::Source => "source"@,
        },
    }
}

/// The Stripe object type whose rows the table holds.
pub open spec fn source_table_object_type(w: SourceWrite) -> Seq<char> {
    match w {
        SourceWrite::Source => "source"@,
        SourceWrite::Card => "card"@,
        SourceWrite::BankAccount => "bank_account"@,
    }
}

/// A customer source is written to the table that holds objects of its own type, and it is
/// written exactly when there is such a table.
pub proof fn law_source_table_matches_type(x: UniPolymorphic646C3F)
    ensures
        source_write_of(x) matches Some(w) ==> source_table_object_type(w) == source_object_type(x),
        source_write_of(x) is Some <==> exists|w: SourceWrite| source_table_object_type(w) == source_object_type(x),
{
    reveal_strlit("source");
    reveal_strlit("card");
    reveal_strlit("bank_account");
    reveal_strlit("alipay_account");
    reveal_strlit("bitcoin_receiver");
    match x {
        UniPolymorphic646C3F::Source(_) => {
            assert(source_table_object_type(SourceWrite::Source) == source_object_type(x));
        },
        UniPolymorphic646C3F::Card(_) => {
            assert(source_table_object_type(SourceWrite::Card) == source_object_type(x));
        },
        UniPolymorphic646C3F::BankAccount(_) => {
            assert(source_table_object_type(SourceWrite::BankAccount) == source_object_type(x));
        },
        _ => {
            assert forall|w: SourceWrite| source_table_object_type(w) != source_object_type(x) by {
                assert(source_table_object_type(w).len() != source_object_type(x).len()
                    || source_table_object_type(w)[0] != source_object_type(x)[0]);
            }
        },
    }
}

} // verus!
