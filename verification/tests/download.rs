use tdog::download::{
    customer_batches, dl_charges_params, dl_customers_params, dl_events_params, dl_invoices_params,
    dl_prices_params, invoice_lines_params, payment_method_types, payment_methods_params, CUSTOMER_BATCH,
    PAGE_LIMIT,
};
use tdog::req_params::UniStrTypeBAE85E;

fn ids(n: usize) -> Vec<String> {
    (0..n).map(|i| format!("cus_{}", i)).collect()
}

#[test]
fn list_requests_ask_for_full_pages() {
    assert_eq!(PAGE_LIMIT, 100);
    assert_eq!(dl_events_params().limit, Some(100));
    assert!(dl_events_params().starting_after.is_none());
    assert_eq!(dl_charges_params().limit, Some(100));
    assert!(invoice_lines_params().limit.is_none());
}

#[test]
fn requests_expand_what_has_no_list_endpoint() {
    assert_eq!(dl_customers_params().expand, Some(vec!["data.sources".to_string(), "data.tax_ids".to_string()]));
    assert!(dl_invoices_params().expand.is_some());
    let p = dl_prices_params(Some(false));
    assert_eq!(p.active, Some(false));
    assert_eq!(p.expand, Some(vec!["data.tiers".to_string()]));
    assert!(dl_prices_params(None).active.is_none());
}

#[test]
fn payment_methods_of_each_type() {
    let t = payment_method_types();
    assert_eq!(t.len(), 4);
    assert!(matches!(t[0], UniStrTypeBAE85E::Card));
    assert!(matches!(t[3], UniStrTypeBAE85E::BacsDebit));
    let p = payment_methods_params(UniStrTypeBAE85E::Card, "cus_1".to_string());
    assert_eq!(p.customer, "cus_1");
    assert_eq!(p.limit, Some(100));
}

#[test]
fn customers_are_batched_by_100() {
    assert_eq!(CUSTOMER_BATCH, 100);
    assert!(customer_batches(&ids(0)).is_empty());
    let b = customer_batches(&ids(250));
    assert_eq!(b.len(), 3);
    assert_eq!(b[0].len(), 100);
    assert_eq!(b[1][0], "cus_100");
    assert_eq!(b[2].len(), 50);
    assert_eq!(b[2][49], "cus_249");
    let b = customer_batches(&ids(100));
    assert_eq!(b.len(), 1);
    assert_eq!(b[0], ids(100));
}

#[test]
fn joined_batches_give_back_the_ids() {
    for n in [1usize, 99, 100, 101, 305] {
        let b = customer_batches(&ids(n));
        assert!(b.iter().all(|x| !x.is_empty() && x.len() <= 100));
        assert_eq!(b.concat(), ids(n));
    }
}

use tdog::download::{customer_sources_page, payment_methods_page, SourcesRefused, dl_prices_requests, credit_notes_with_more_lines, customer_ids, customer_needs_sources, source_write, SourceWrite};
use tdog::responses::{ApmsSourcesSourceListF0771E, PaymentFlowsPaymentMethodList, UniPolymorphic646C3F, UniStrObject344B0E};
use tdog::types::{
    AlipayAccount, ApmsSourcesSourceListC6CBF8, BankAccount, CreditNote, CreditNoteLinesListF7B44B, Customer,
    UniCustomerC00F6E, UniInvoice, UniStrObject2AE122, UniStrObject5F868A, UniStrObject877A57,
    UniStrObjectD362B6, UniStrStatus476873, UniStrTypeC2237F,
};

fn customer(id: &str, sources: Option<bool>) -> Customer {
    Customer {
        object: UniStrObject877A57::Customer,
        id: id.to_string(),
        name: None,
        default_source: Box::new(None),
        address: None,
        balance: None,
        currency: None,
        delinquent: None,
        description: None,
        discount: None,
        email: None,
        invoice_prefix: None,
        invoice_settings: None,
        next_invoice_sequence: None,
        phone: None,
        preferred_locales: None,
        shipping: None,
        sources: sources.map(|has_more| ApmsSourcesSourceListC6CBF8 {
            object: UniStrObject344B0E::List,
            data: vec![],
            has_more,
            url: "/v1/customers/x/sources".to_string(),
        }),
        subscriptions: None,
        tax_exempt: None,
        tax_ids: None,
        created: 1,
        livemode: false,
        metadata: None,
    }
}

fn credit_note(id: &str, has_more: bool) -> CreditNote {
    CreditNote {
        object: UniStrObjectD362B6::CreditNote,
        type_x: UniStrTypeC2237F::PostPayment,
        id: id.to_string(),
        customer: UniCustomerC00F6E::String("cus_1".to_string()),
        customer_balance_transaction: None,
        invoice: UniInvoice::String("in_1".to_string()),
        refund: None,
        amount: 100,
        currency: "usd".to_string(),
        discount_amount: 0,
        discount_amounts: vec![],
        lines: CreditNoteLinesListF7B44B {
            object: UniStrObject344B0E::List,
            data: vec![],
            has_more,
            url: "/v1/credit_notes/x/lines".to_string(),
        },
        memo: None,
        number: "1".to_string(),
        out_of_band_amount: None,
        pdf: "pdf".to_string(),
        reason: None,
        status: UniStrStatus476873::Issued,
        subtotal: 100,
        tax_amounts: vec![],
        total: 100,
        voided_at: None,
        created: 1,
        livemode: false,
        metadata: None,
    }
}

#[test]
fn customers_of_a_page() {
    let page = vec![customer("cus_1", Some(false)), customer("cus_2", Some(true)), customer("cus_3", None)];
    assert_eq!(customer_ids(&page), vec!["cus_1".to_string(), "cus_2".to_string(), "cus_3".to_string()]);
    assert_eq!(customer_needs_sources(&page[0]), Some(false));
    assert_eq!(customer_needs_sources(&page[1]), Some(true));
    assert_eq!(customer_needs_sources(&page[2]), None);
}

#[test]
fn credit_notes_whose_lines_are_listed() {
    let page = vec![credit_note("cn_1", true), credit_note("cn_2", false), credit_note("cn_3", true)];
    assert_eq!(credit_notes_with_more_lines(&page), vec!["cn_1".to_string(), "cn_3".to_string()]);
    assert!(credit_notes_with_more_lines(&vec![]).is_empty());
}

#[test]
fn which_customer_sources_are_written() {
    let bank = bank_source();
    assert_eq!(source_write(&bank), Some(SourceWrite::BankAccount));
    let alipay = alipay_source();
    assert_eq!(source_write(&alipay), None);
}

#[test]
fn active_prices_then_archived_prices() {
    let (first, second) = dl_prices_requests();
    assert!(first.active.is_none());
    assert_eq!(second.active, Some(false));
    assert_eq!(first.expand, Some(vec!["data.tiers".to_string()]));
    assert_eq!(second.limit, Some(100));
}

fn bank_source() -> UniPolymorphic646C3F {
    UniPolymorphic646C3F::BankAccount(BankAccount {
        object: UniStrObject5F868A::BankAccount,
        id: "ba_1".to_string(),
        account: None,
        customer: None,
        account_holder_name: None,
        account_holder_type: None,
        available_payout_methods: None,
        bank_name: None,
        country: "US".to_string(),
        currency: "usd".to_string(),
        default_for_currency: None,
        fingerprint: None,
        last4: "6789".to_string(),
        routing_number: None,
        status: "new".to_string(),
        metadata: None,
    })
}

fn alipay_source() -> UniPolymorphic646C3F {
    UniPolymorphic646C3F::AlipayAccount(AlipayAccount {
        object: UniStrObject2AE122::AlipayAccount,
        id: "aliacc_1".to_string(),
        customer: None,
        fingerprint: "f".to_string(),
        payment_amount: None,
        payment_currency: None,
        reusable: false,
        used: false,
        username: "u".to_string(),
        created: 1,
        livemode: false,
        metadata: None,
    })
}

#[test]
fn a_payment_method_page_with_more_items_is_refused() {
    let page = |has_more| PaymentFlowsPaymentMethodList {
        object: UniStrObject344B0E::List,
        data: vec![],
        has_more,
        url: "/v1/payment_methods".to_string(),
    };
    assert!(payment_methods_page(page(true)).is_none());
    assert_eq!(payment_methods_page(page(false)).map(|v| v.len()), Some(0));
}

#[test]
fn customer_source_lists() {
    let list = |data: Vec<UniPolymorphic646C3F>, has_more| ApmsSourcesSourceListF0771E {
        object: UniStrObject344B0E::List,
        data,
        has_more,
        url: "/v1/customers/cus_1/sources".to_string(),
    };
    assert_eq!(customer_sources_page(&list(vec![bank_source(), bank_source()], false)), Ok(vec![SourceWrite::BankAccount, SourceWrite::BankAccount]));
    assert_eq!(customer_sources_page(&list(vec![bank_source()], true)), Err(SourcesRefused::MoreThanOnePage));
    assert_eq!(customer_sources_page(&list(vec![bank_source(), alipay_source(), alipay_source()], false)), Err(SourcesRefused::NotWritten(1)));
}
