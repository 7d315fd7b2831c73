use tdog::paging::{GetId, PageMeta, PageParam};
use tdog::req_params::{GetCustomers, UniCreated, RangeQuerySpecs};
use tdog::responses::ApplePayDomainList;
use tdog::responses::UniStrObject344B0E;
use tdog::types::{ApplePayDomain, UniStrObjectBA0885};

fn customers_query() -> GetCustomers {
    GetCustomers {
        created: Some(UniCreated::RangeQuerySpecs(RangeQuerySpecs { gt: None, gte: Some(5), lt: None, lte: None })),
        email: Some("a@b.c".to_string()),
        ending_before: None,
        expand: Some(vec!["data.sources".to_string()]),
        limit: Some(100),
        starting_after: Some("cus_0".to_string()),
    }
}

fn domain(id: &str) -> ApplePayDomain {
    ApplePayDomain {
        object: UniStrObjectBA0885::ApplePayDomain,
        id: id.to_string(),
        domain_name: "example.com".to_string(),
        created: 1,
        livemode: false,
    }
}

#[test]
fn set_before_moves_to_the_previous_page() {
    let mut p = customers_query();
    p.set_before("cus_9".to_string());
    assert_eq!(p.ending_before, Some("cus_9".to_string()));
    assert_eq!(p.starting_after, None);
    assert_eq!(p.email, Some("a@b.c".to_string()));
    assert_eq!(p.limit, Some(100));
}

#[test]
fn set_after_moves_to_the_next_page() {
    let mut p = customers_query();
    p.set_before("cus_9".to_string());
    p.set_after("cus_7".to_string());
    assert_eq!(p.starting_after, Some("cus_7".to_string()));
    assert_eq!(p.ending_before, None);
    assert_eq!(p.expand, Some(vec!["data.sources".to_string()]));
}

#[test]
fn page_first_and_last_ids() {
    let page = ApplePayDomainList {
        object: UniStrObject344B0E::List,
        data: vec![domain("apwc_1"), domain("apwc_2"), domain("apwc_3")],
        has_more: true,
        url: "/v1/apple_pay/domains".to_string(),
    };
    assert_eq!(page.get_from_to(), Some(("apwc_1".to_string(), "apwc_3".to_string())));
    assert!(page.get_has_more());
    assert_eq!(page.data[1].get_id(), "apwc_2".to_string());
}

#[test]
fn empty_page_has_no_ids() {
    let page = ApplePayDomainList {
        object: UniStrObject344B0E::List,
        data: vec![],
        has_more: false,
        url: "/v1/apple_pay/domains".to_string(),
    };
    assert_eq!(page.get_from_to(), None);
    assert!(!page.get_has_more());
}

#[test]
fn next_request_starts_after_the_last_object() {
    let page = ApplePayDomainList {
        object: UniStrObject344B0E::List,
        data: vec![domain("apwc_1"), domain("apwc_2")],
        has_more: true,
        url: "/v1/apple_pay/domains".to_string(),
    };
    let mut p = customers_query();
    let (_, last) = page.get_from_to().unwrap();
    p.set_after(last);
    assert_eq!(p.starting_after, Some("apwc_2".to_string()));
}
