use tdog::apply_events::{
    apply_events_body, check_correct_version, events_still_unapplied, sorted_ids_and_dates, write_is_applicable, count_event_types, event_object_kind, events_in_apply_order, events_oldest_first,
    events_since_download, get_incorrect_versions, has_events_after_params, is_delete, plan_event,
    unapplied_events_params, walk_events_page, write_one_event, Action, ApplySummary, EventObjectKind,
    EventStep, EventSummary, Skip, TableWrite, discount_updates_customer,
};
use tdog::req_params::UniCreated;
use tdog::types::{
    Coupon, Discount, NotificationEvent, NotificationEventData, UniCustomerC00F6E,
    UniNotificationEventDataObject, UniStrDuration, UniStrObject6D0693, UniStrObjectDA5FE2,
    UniStrObjectE5311B,
};

fn coupon() -> Coupon {
    Coupon {
        object: UniStrObjectDA5FE2::Coupon,
        id: "co_1".to_string(),
        valid: true,
        name: None,
        amount_off: Some(100),
        applies_to: None,
        currency: Some("usd".to_string()),
        duration: UniStrDuration::Once,
        duration_in_months: None,
        max_redemptions: None,
        percent_off: None,
        redeem_by: None,
        times_redeemed: 0,
        created: 1,
        livemode: false,
        metadata: None,
    }
}

fn event(id: &str, type_x: &str, version: &str, created: i64, object: UniNotificationEventDataObject) -> NotificationEvent {
    NotificationEvent {
        object: UniStrObject6D0693::Event,
        type_x: type_x.to_string(),
        id: id.to_string(),
        account: None,
        api_version: Some(version.to_string()),
        data: NotificationEventData { object: Box::new(object), previous_attributes: None },
        pending_webhooks: 0,
        request: None,
        created,
        livemode: false,
    }
}

fn unknown(id: &str, type_x: &str, version: &str, created: i64) -> NotificationEvent {
    event(id, type_x, version, created, UniNotificationEventDataObject::UnknownEvent(serde_json::Value::Null))
}

fn discount(customer: bool, subscription: bool) -> Discount {
    Discount {
        object: UniStrObjectE5311B::Discount,
        id: "di_1".to_string(),
        customer: if customer { Some(UniCustomerC00F6E::String("cus_1".to_string())) } else { None },
        promotion_code: None,
        checkout_session: None,
        coupon: coupon(),
        end: None,
        invoice: None,
        invoice_item: None,
        start: 1,
        subscription: if subscription { Some("sub_1".to_string()) } else { None },
    }
}

#[test]
fn deleted_events_delete_rows() {
    assert!(is_delete(&unknown("evt_1", "customer.deleted", "v", 1)));
    assert!(is_delete(&unknown("evt_1", "invoiceitem.deleted", "v", 1)));
    assert!(is_delete(&unknown("evt_1", "customer.tax_id.deleted", "v", 1)));
}

#[test]
fn detaching_events_do_not_delete_rows() {
    assert!(!is_delete(&unknown("evt_1", "customer.source.deleted", "v", 1)));
    assert!(!is_delete(&unknown("evt_1", "customer.subscription.deleted", "v", 1)));
    assert!(!is_delete(&unknown("evt_1", "customer.discount.deleted", "v", 1)));
    assert!(!is_delete(&unknown("evt_1", "coupon.deleted", "v", 1)));
    assert!(!is_delete(&unknown("evt_1", "customer.updated", "v", 1)));
    assert!(!is_delete(&unknown("evt_1", "deleted", "v", 1)));
}

#[test]
fn action_keys() {
    assert_eq!(Action::Write(vec![1, 2]).get_key(), "write");
    assert_eq!(Action::Skip(Skip::NotDataWrite).get_key(), "skip.not_data_write");
}

#[test]
fn events_after_a_download_start_two_minutes_earlier() {
    assert_eq!(events_since_download(1_000), 880);
}

#[test]
fn event_requests() {
    let p = has_events_after_params(&"evt_9".to_string());
    assert_eq!(p.ending_before, Some("evt_9".to_string()));
    assert_eq!(p.limit, Some(1));
    assert!(p.created.is_none() && p.starting_after.is_none());

    let p = unapplied_events_params(Some(880));
    assert_eq!(p.limit, Some(100));
    match p.created {
        Some(UniCreated::RangeQuerySpecs(r)) => {
            assert_eq!(r.gte, Some(880));
            assert!(r.gt.is_none() && r.lt.is_none() && r.lte.is_none());
        }
        _ => panic!("expected a created range"),
    }
    assert!(unapplied_events_params(None).created.is_none());
}

#[test]
fn walk_stops_at_the_last_applied_event() {
    let last = Some("evt_2".to_string());
    let mut o = vec![];
    let reached = walk_events_page(&mut o, vec![unknown("evt_5", "a", "v", 5), unknown("evt_4", "a", "v", 4)], &last);
    assert!(!reached);
    let reached = walk_events_page(&mut o, vec![unknown("evt_3", "a", "v", 3), unknown("evt_2", "a", "v", 2), unknown("evt_1", "a", "v", 1)], &last);
    assert!(reached);
    let ids: Vec<String> = events_oldest_first(o).iter().map(|e| e.id.clone()).collect();
    assert_eq!(ids, vec!["evt_3", "evt_4", "evt_5"]);
}

#[test]
fn walk_without_last_event_takes_everything() {
    let mut o = vec![];
    let reached = walk_events_page(&mut o, vec![unknown("evt_2", "a", "v", 2), unknown("evt_1", "a", "v", 1)], &None);
    assert!(!reached);
    assert_eq!(o.len(), 2);
}

#[test]
fn apply_order_is_checked_on_the_ends() {
    assert!(events_in_apply_order(&vec![unknown("a", "t", "v", 1), unknown("b", "t", "v", 2)]));
    assert!(!events_in_apply_order(&vec![unknown("a", "t", "v", 3), unknown("b", "t", "v", 2)]));
    assert!(events_in_apply_order(&vec![unknown("a", "t", "v", 3)]));
}

#[test]
fn counts_events_by_type() {
    let e = vec![
        unknown("a", "customer.updated", "v", 1),
        unknown("b", "invoice.paid", "v", 2),
        unknown("c", "customer.updated", "v", 3),
    ];
    let mut c = count_event_types(&e);
    c.sort();
    assert_eq!(c, vec![("customer.updated".to_string(), 2), ("invoice.paid".to_string(), 1)]);
    // Every event is counted once.
    assert_eq!(c.iter().map(|x| x.1 as usize).sum::<usize>(), e.len());
    assert!(count_event_types(&vec![]).is_empty());
}

#[test]
fn summary_of_an_apply_run() {
    let e = vec![unknown("evt_1", "customer.updated", "v", 100), unknown("evt_2", "customer.updated", "v", 200)];
    let iso = vec!["iso-100".to_string(), "iso-200".to_string()];
    let s = ApplySummary::from_event_list(7, &e, &iso, 200 + 3661);
    assert_eq!(s.run_id, 7);
    let from = s.from.unwrap();
    assert_eq!(from.id, "evt_1");
    assert_eq!(from.created, "iso-100");
    assert_eq!(from.created_rel, "1h 2m 41s ago");
    assert_eq!(s.to.id, "evt_2");
    assert_eq!(s.to.created_rel, "1h 1m 1s ago");
    assert_eq!(s.event_type_count, vec![("customer.updated".to_string(), 2)]);

    let one = ApplySummary::from_event_list(8, &vec![unknown("evt_3", "x", "v", 10)], &vec!["iso".to_string()], 10);
    assert!(one.from.is_none());
    assert_eq!(one.to.created_rel, "0s ago");
}

#[test]
fn event_created_after_now_is_zero_seconds_old() {
    let s = EventSummary::from_event(&unknown("evt_1", "x", "v", 50), &"iso".to_string(), 40);
    assert_eq!(s.created_rel, "0s ago");
}

#[test]
fn groups_events_of_other_versions() {
    let e = vec![
        unknown("evt_1", "a", "2020-08-27", 1),
        unknown("evt_2", "a", "2019-01-01", 2),
        unknown("evt_3", "a", "2018-01-01", 3),
        unknown("evt_4", "a", "2019-01-01", 4),
    ];
    let iso: Vec<String> = (1..=4).map(|i| format!("iso-{}", i)).collect();
    let mut g = get_incorrect_versions(&e, &iso, "2020-08-27");
    g.sort();
    assert_eq!(
        g,
        vec![
            ("2018-01-01".to_string(), vec![("evt_3".to_string(), "iso-3".to_string())]),
            (
                "2019-01-01".to_string(),
                vec![("evt_2".to_string(), "iso-2".to_string()), ("evt_4".to_string(), "iso-4".to_string())]
            ),
        ]
    );
    let only_current = vec![unknown("evt_1", "a", "2020-08-27", 1)];
    assert!(get_incorrect_versions(&only_current, &vec!["iso-1".to_string()], "2020-08-27").is_empty());
}

#[test]
fn coupon_events_write_the_coupon_table() {
    let upd = event("evt_1", "coupon.updated", "v", 1, UniNotificationEventDataObject::Coupon(coupon()));
    assert_eq!(event_object_kind(&upd), EventObjectKind::Coupon);
    assert_eq!(write_one_event(&upd).step, EventStep::Upsert(TableWrite::Coupon));
    // A deleted coupon stays queryable: it is marked invalid, not removed.
    let del = event("evt_2", "coupon.deleted", "v", 2, UniNotificationEventDataObject::Coupon(coupon()));
    assert_eq!(write_one_event(&del).step, EventStep::Upsert(TableWrite::Coupon));
    assert_eq!(plan_event(&del, false, EventObjectKind::Coupon, false), EventStep::SkipNotDataWrite);
    assert_eq!(plan_event(&unknown("e", "customer.deleted", "v", 1), true, EventObjectKind::Customer, false), EventStep::Delete(TableWrite::Customer));
}

#[test]
fn customer_discounts_rewrite_the_customer() {
    let e = event("evt_1", "customer.discount.updated", "v", 1, UniNotificationEventDataObject::Discount(discount(true, false)));
    let w = write_one_event(&e);
    assert_eq!(w.step, EventStep::Upsert(TableWrite::Discount));
    assert!(w.update_customer_discount);
    let e = event("evt_2", "customer.discount.updated", "v", 1, UniNotificationEventDataObject::Discount(discount(true, true)));
    assert!(!write_one_event(&e).update_customer_discount);
    assert!(discount_updates_customer("customer.discount.created", true, false, false, false));
    assert!(!discount_updates_customer("invoice.updated", true, false, false, false));
}

#[test]
fn apply_plan_skips_events_that_write_no_table() {
    let e = vec![
        unknown("evt_1", "balance.available", "v", 1),
        event("evt_2", "coupon.created", "v", 2, UniNotificationEventDataObject::Coupon(coupon())),
    ];
    let plan = apply_events_body(&e, &vec![false, true]);
    assert_eq!(plan.len(), 2);
    assert!(plan[0].is_none());
    assert_eq!(plan[1].unwrap().step, EventStep::Upsert(TableWrite::Coupon));
}

#[test]
fn events_of_another_version_are_not_applied() {
    let same = vec![unknown("evt_1", "a", "2020-08-27", 1), unknown("evt_2", "a", "2020-08-27", 2)];
    let iso = vec!["iso-1".to_string(), "iso-2".to_string()];
    assert!(check_correct_version(&same, &iso, "2020-08-27").is_ok());
    assert!(check_correct_version(&vec![], &vec![], "2020-08-27").is_ok());
    let mixed = vec![unknown("evt_1", "a", "2020-08-27", 1), unknown("evt_2", "a", "2019-01-01", 2)];
    let err = check_correct_version(&mixed, &iso, "2020-08-27").unwrap_err();
    assert_eq!(err, vec![("2019-01-01".to_string(), vec![("evt_2".to_string(), "iso-2".to_string())])]);
}

#[test]
fn summary_text_after_the_duration() {
    let s = EventSummary::with_duration_text(&unknown("evt_9", "x", "v", 1), &"iso-1".to_string(), &"2m 5s".to_string());
    assert_eq!(s.id, "evt_9");
    assert_eq!(s.created, "iso-1");
    assert_eq!(s.created_rel, "2m 5s ago");
}

#[test]
fn which_table_writes_can_be_applied() {
    assert!(write_is_applicable(&event("evt_1", "coupon.updated", "v", 1, UniNotificationEventDataObject::Coupon(coupon()))));
    assert!(!write_is_applicable(&unknown("evt_2", "x.updated", "v", 2)));
}

#[test]
fn events_can_be_copied() {
    let e = event("evt_1", "coupon.updated", "v", 1, UniNotificationEventDataObject::Coupon(coupon()));
    let c = e.clone();
    assert_eq!(c.id, e.id);
    assert_eq!(c.type_x, e.type_x);
    assert_eq!(event_object_kind(&c), EventObjectKind::Coupon);
}

#[test]
fn version_groups_are_sorted_oldest_first() {
    // Given newest first, with two events created at the same time.
    let e = vec![
        unknown("evt_5", "a", "2019-01-01", 50),
        unknown("evt_3", "a", "2019-01-01", 30),
        unknown("evt_4", "a", "2019-01-01", 30),
        unknown("evt_1", "a", "2020-08-27", 10),
    ];
    let iso: Vec<String> = vec!["iso-50".to_string(), "iso-30a".to_string(), "iso-30b".to_string(), "iso-10".to_string()];
    let g = get_incorrect_versions(&e, &iso, "2020-08-27");
    assert_eq!(
        g,
        vec![(
            "2019-01-01".to_string(),
            vec![
                ("evt_3".to_string(), "iso-30a".to_string()),
                ("evt_4".to_string(), "iso-30b".to_string()),
                ("evt_5".to_string(), "iso-50".to_string()),
            ]
        )]
    );
}

#[test]
fn stable_sort_by_creation_time() {
    let g = vec![
        (2, "b".to_string(), "x".to_string()),
        (1, "a".to_string(), "y".to_string()),
        (2, "c".to_string(), "z".to_string()),
    ];
    assert_eq!(
        sorted_ids_and_dates(&g),
        vec![("a".to_string(), "y".to_string()), ("b".to_string(), "x".to_string()), ("c".to_string(), "z".to_string())]
    );
    assert!(sorted_ids_and_dates(&vec![]).is_empty());
}

#[test]
fn events_are_ignored_when_another_run_came_first() {
    assert!(events_still_unapplied(7, 7));
    assert!(!events_still_unapplied(7, 8));
}
