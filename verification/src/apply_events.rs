//! The rules for applying the Stripe event stream to the local copy of an account:
//! which events delete rows, which events still have to be applied, how the applied
//! events are summarised, and which events carry an API version other than the one
//! this library was written for.
use vstd::prelude::*;
use crate::outside::{format_duration_secs, humantime_text};
use crate::req_params::{GetEvents, RangeQuerySpecs, UniCreated};
use crate::responses::UniPolymorphic70BAFA;
use crate::types::{NotificationEvent, UniNotificationEventDataObject};
use crate::types::{
    UniStrObject00DC3E, UniStrObject04CB4A, UniStrObject08D5B1, UniStrObject166EB7,
    UniStrObject24E2D4, UniStrObject2726CE, UniStrObject31593E, UniStrObject397A62,
    UniStrObject43B2E2, UniStrObject59F834, UniStrObject5E6A4A, UniStrObject5F868A,
    UniStrObject67F833, UniStrObject710D46, UniStrObject736393, UniStrObject765808,
    UniStrObject7F3E77, UniStrObject877A57, UniStrObject8D07E7, UniStrObject95EBF9,
    UniStrObject9677B5, UniStrObject97B705, UniStrObject9D4B89, UniStrObjectA84719,
    UniStrObjectA93110, UniStrObjectADCEF8, UniStrObjectAFEDA0, UniStrObjectB3640E,
    UniStrObjectB4F7D7, UniStrObjectB5E468, UniStrObjectB95344, UniStrObjectBAC623,
    UniStrObjectBACBB3, UniStrObjectC1E2CE, UniStrObjectC7795E, UniStrObjectCB017F,
    UniStrObjectD09910, UniStrObjectD362B6, UniStrObjectD4FACD, UniStrObjectD816FE,
    UniStrObjectDA5FE2, UniStrObjectDB9846, UniStrObjectDBA102, UniStrObjectE07375,
    UniStrObjectE09BD0, UniStrObjectE37CA2, UniStrObjectE479DB, UniStrObjectE5311B,
    UniStrObjectE55DBC, UniStrObjectF7EF2D,
};
use crate::text::{vec_reversed, concat, seq_ends_with, seq_starts_with, str_ends_with, str_eq, str_starts_with};

verus! {

/// Events applied after a download start this many seconds before the download started.
pub const EVENTS_BEFORE_DOWNLOAD_SECS: i64 = 120;

/// Events requested per page.
pub const EVENTS_PAGE_LIMIT: i64 = 100;

/// Why an event did not write a row.
#[derive(Debug, Clone)]
pub enum Skip {
    /// Either the event is a general notification that never writes a row, or it is a data
    /// write that is not applied yet.
    NotDataWrite,
}

/// What applying one event did.
#[derive(Debug, Clone)]
pub enum Action {
    /// The ids of the writes that one event caused (child rows may be written too).
    Write(Vec<i64>),
    Skip(Skip),
}

/// The key under which an action is logged.
pub open spec fn action_key(a: Action) -> Seq<char> {
    match a {
        Action::Write(_) => "write"@,
        Action::Skip(Skip::NotDataWrite) => "skip.not_data_write"@,
    }
}

impl Action {
    /// Returns the `x.y` key for the action's log row, such as `skip.not_data_write`.
    pub fn get_key(&self) -> (r: String)
        ensures
            r@ == action_key(*self),
    {
        match self {
            Action::Write(_) => "write".to_owned(),
            Action::Skip(Skip::NotDataWrite) => "skip.not_data_write".to_owned(),
        }
    }
}

/// Event types ending in `.deleted` that do not delete the row: the object is detached,
/// ended or made invalid, and stays queryable.
pub open spec fn delete_exceptions() -> Seq<Seq<char>> {
    seq![
        "customer.source.deleted"@,
        "customer.subscription.deleted"@,
        "customer.discount.deleted"@,
        "coupon.deleted"@,
    ]
}

/// Whether an event of type `t` deletes the object's row.
pub open spec fn is_delete_type(t: Seq<char>) -> bool {
    seq_ends_with(t, ".deleted"@) && !delete_exceptions().contains(t)
}

/// Whether the event deletes the row of its object. The event type decides only this:
/// every other event is new data for its object's row.
pub fn is_delete(e: &NotificationEvent) -> (r: bool)
    ensures
        r == is_delete_type(e.type_x@),
{
    let t = e.type_x.as_str();
    if !str_ends_with(t, ".deleted") {
        return false;
    }
    let except: Vec<&str> = vec![
        "customer.source.deleted",
        "customer.subscription.deleted",
        "customer.discount.deleted",
        "coupon.deleted",
    ];
    assert(except@.map_values(|x: &str| x@) =~= delete_exceptions());
    let mut i: usize = 0;
    while i < except.len()
        invariant
            i <= except@.len(),
            t@ == e.type_x@,
            except@.map_values(|x: &str| x@) == delete_exceptions(),
            forall|k: int| 0 <= k < i ==> delete_exceptions()[k] != e.type_x@,
        decreases except@.len() - i,
    {
        assert(except@.map_values(|x: &str| x@)[i as int] == except@[i as int]@);
        let x: &str = except[i];
        assert(x@ == delete_exceptions()[i as int]);
        if str_eq(t, x) {
            assert(delete_exceptions()[i as int] == e.type_x@);
            return false;
        }
        i = i + 1;
    }
    assert(!delete_exceptions().contains(e.type_x@));
    true
}

/// Whether a discount event also rewrites the `discount` field of the customer that owns
/// the discount: `customer.discount.*` events on a discount owned by a customer alone
/// trigger no `customer.updated` event.
pub fn discount_updates_customer(
    event_type: &str,
    has_customer: bool,
    has_subscription: bool,
    has_invoice: bool,
    has_invoice_item: bool,
) -> (r: bool)
    ensures
        r == (seq_starts_with(event_type@, "customer.discount."@) && has_customer && !has_subscription
            && !has_invoice && !has_invoice_item),
{
    str_starts_with(event_type, "customer.discount.") && has_customer && !has_subscription
        && !has_invoice && !has_invoice_item
}

/// The kind of object that an event carries in `data.object`.
#[derive(Debug, Clone, Copy, PartialEq, Eq, Structural)]
pub enum EventObjectKind {
    Account,
    PlatformFee,
    Balance,
    AccountCapability,
    Charge,
    Session,
    Coupon,
    CreditNote,
    Customer,
    Discount,
    Dispute,
    RadarEarlyFraudWarning,
    BankAccount,
    Card,
    FeeRefund,
    File,
    Invoice,
    InvoiceItem,
    IssuingAuthorization,
    IssuingCard,
    IssuingCardholder,
    IssuingDispute,
    IssuingTransaction,
    Mandate,
    Order,
    OrderReturn,
    PaymentIntent,
    PaymentMethod,
    Payout,
    Person,
    Plan,
    Price,
    Product,
    PromotionCode,
    TransferRecipient,
    Refund,
    ReportingReportRun,
    ReportingReportType,
    RadarReview,
    ScheduledQueryRun,
    SetupIntent,
    Sku,
    Source,
    SourceTransaction,
    Subscription,
    SubscriptionSchedule,
    TaxId,
    TaxRate,
    Topup,
    Transfer,
    UnknownEvent,
}

/// The tables that events are written to.
#[derive(Debug, Clone, Copy, PartialEq, Eq, Structural)]
pub enum TableWrite {
    Charge,
    Coupon,
    CreditNote,
    Customer,
    Discount,
    Dispute,
    BankAccount,
    Card,
    Invoice,
    InvoiceItem,
    Order,
    OrderReturn,
    PaymentIntent,
    PaymentMethod,
    Price,
    Product,
    PromotionCode,
    Refund,
    SetupIntent,
    Sku,
    Source,
    Subscription,
    SubscriptionSchedule,
    TaxId,
    TaxRate,
}

/// The table that events carrying objects of kind `k` are written to; `None` for the kinds
/// that are not applied (plans are mirrored to prices, so prices are written instead).
pub open spec fn table_of(k: EventObjectKind) -> Option<TableWrite> {
    match k {
        EventObjectKind::Charge => Some(TableWrite::Charge),
        EventObjectKind::Coupon => Some(TableWrite::Coupon),
        EventObjectKind::CreditNote => Some(TableWrite::CreditNote),
        EventObjectKind::Customer => Some(TableWrite::Customer),
        EventObjectKind::Discount => Some(TableWrite::Discount),
        EventObjectKind::Dispute => Some(TableWrite::Dispute),
        EventObjectKind::BankAccount => Some(TableWrite::BankAccount),
        EventObjectKind::Card => Some(TableWrite::Card),
        EventObjectKind::Invoice => Some(TableWrite::Invoice),
        EventObjectKind::InvoiceItem => Some(TableWrite::InvoiceItem),
        EventObjectKind::Order => Some(TableWrite::Order),
        EventObjectKind::OrderReturn => Some(TableWrite::OrderReturn),
        EventObjectKind::PaymentIntent => Some(TableWrite::PaymentIntent),
        EventObjectKind::PaymentMethod => Some(TableWrite::PaymentMethod),
        EventObjectKind::Price => Some(TableWrite::Price),
        EventObjectKind::Product => Some(TableWrite::Product),
        EventObjectKind::PromotionCode => Some(TableWrite::PromotionCode),
        EventObjectKind::Refund => Some(TableWrite::Refund),
        EventObjectKind::SetupIntent => Some(TableWrite::SetupIntent),
        EventObjectKind::Sku => Some(TableWrite::Sku),
        EventObjectKind::Source => Some(TableWrite::Source),
        EventObjectKind::Subscription => Some(TableWrite::Subscription),
        EventObjectKind::SubscriptionSchedule => Some(TableWrite::SubscriptionSchedule),
        EventObjectKind::TaxId => Some(TableWrite::TaxId),
        EventObjectKind::TaxRate => Some(TableWrite::TaxRate),
        _ => None,
    }
}

/// The table that events carrying objects of kind `k` are written to.
pub fn table_for(k: EventObjectKind) -> (r: Option<TableWrite>)
    ensures
        r == table_of(k),
{
    match k {
        EventObjectKind::Charge => Some(TableWrite::Charge),
        EventObjectKind::Coupon => Some(TableWrite::Coupon),
        EventObjectKind::CreditNote => Some(TableWrite::CreditNote),
        EventObjectKind::Customer => Some(TableWrite::Customer),
        EventObjectKind::Discount => Some(TableWrite::Discount),
        EventObjectKind::Dispute => Some(TableWrite::Dispute),
        EventObjectKind::BankAccount => Some(TableWrite::BankAccount),
        EventObjectKind::Card => Some(TableWrite::Card),
        EventObjectKind::Invoice => Some(TableWrite::Invoice),
        EventObjectKind::InvoiceItem => Some(TableWrite::InvoiceItem),
        EventObjectKind::Order => Some(TableWrite::Order),
        EventObjectKind::OrderReturn => Some(TableWrite::OrderReturn),
        EventObjectKind::PaymentIntent => Some(TableWrite::PaymentIntent),
        EventObjectKind::PaymentMethod => Some(TableWrite::PaymentMethod),
        EventObjectKind::Price => Some(TableWrite::Price),
        EventObjectKind::Product => Some(TableWrite::Product),
        EventObjectKind::PromotionCode => Some(TableWrite::PromotionCode),
        EventObjectKind::Refund => Some(TableWrite::Refund),
        EventObjectKind::SetupIntent => Some(TableWrite::SetupIntent),
        EventObjectKind::Sku => Some(TableWrite::Sku),
        EventObjectKind::Source => Some(TableWrite::Source),
        EventObjectKind::Subscription => Some(TableWrite::Subscription),
        EventObjectKind::SubscriptionSchedule => Some(TableWrite::SubscriptionSchedule),
        EventObjectKind::TaxId => Some(TableWrite::TaxId),
        EventObjectKind::TaxRate => Some(TableWrite::TaxRate),
        _ => None,
    }
}

/// What applying one event does.
#[derive(Debug, Clone, Copy, PartialEq, Eq, Structural)]
pub enum EventStep {
    /// Log the event as `skip.not_data_write`.
    SkipNotDataWrite,
    /// Delete the object's row (and the rows below it).
    Delete(TableWrite),
    /// Insert or update the object's row (and the rows below it).
    Upsert(TableWrite),
}

/// Whether an event whose object has kind `k` can be applied: its kind is written to a
/// table, and an invoice or credit note carries all of its lines (the event list is lossy
/// for longer line lists, and applying a partial list would give wrong query results).
pub open spec fn event_applicable(k: EventObjectKind, lines_has_more: bool) -> bool {
    table_of(k) is Some && !(lines_has_more && (k == EventObjectKind::Invoice || k == EventObjectKind::CreditNote))
}

/// Decides what applying the event `e` does: an event that is not a table write is skipped;
/// otherwise its object's row is deleted when the event type says so, else upserted.
pub fn plan_event(e: &NotificationEvent, is_table_write: bool, object: EventObjectKind, lines_has_more: bool) -> (r: EventStep)
    requires
        is_table_write ==> event_applicable(object, lines_has_more),
    ensures
        !is_table_write ==> r == EventStep::SkipNotDataWrite,
        is_table_write ==> r == if is_delete_type(e.type_x@) {
            EventStep::Delete(table_of(object).unwrap())
        } else {
            EventStep::Upsert(table_of(object).unwrap())
        },
{
    if !is_table_write {
        return EventStep::SkipNotDataWrite;
    }
    let table = match table_for(object) {
        Some(t) => t,
        None => {
            assert(false);
            TableWrite::Charge
        },
    };
    if is_delete(e) {
        EventStep::Delete(table)
    } else {
        EventStep::Upsert(table)
    }
}

/// The kind of object that an event carries.
pub open spec fn object_kind_of(o: UniNotificationEventDataObject) -> EventObjectKind {
    match o {
        UniNotificationEventDataObject::Account(_) => EventObjectKind::Account,
        UniNotificationEventDataObject::PlatformFee(_) => EventObjectKind::PlatformFee,
        UniNotificationEventDataObject::Balance(_) => EventObjectKind::Balance,
        UniNotificationEventDataObject::AccountCapability(_) => EventObjectKind::AccountCapability,
        UniNotificationEventDataObject::Charge(_) => EventObjectKind::Charge,
        UniNotificationEventDataObject::Session(_) => EventObjectKind::Session,
        UniNotificationEventDataObject::Coupon(_) => EventObjectKind::Coupon,
        UniNotificationEventDataObject::CreditNote(_) => EventObjectKind::CreditNote,
        UniNotificationEventDataObject::Customer(_) => EventObjectKind::Customer,
        UniNotificationEventDataObject::Discount(_) => EventObjectKind::Discount,
        UniNotificationEventDataObject::Dispute(_) => EventObjectKind::Dispute,
        UniNotificationEventDataObject::RadarEarlyFraudWarning(_) => EventObjectKind::RadarEarlyFraudWarning,
        UniNotificationEventDataObject::UniPolymorphic70BAFA(x) => match x {
            UniPolymorphic70BAFA::BankAccount(_) => EventObjectKind::BankAccount,
            UniPolymorphic70BAFA::Card(_) => EventObjectKind::Card,
        },
        UniNotificationEventDataObject::FeeRefund(_) => EventObjectKind::FeeRefund,
        UniNotificationEventDataObject::File(_) => EventObjectKind::File,
        UniNotificationEventDataObject::Invoice(_) => EventObjectKind::Invoice,
        UniNotificationEventDataObject::InvoiceItem(_) => EventObjectKind::InvoiceItem,
        UniNotificationEventDataObject::IssuingAuthorization(_) => EventObjectKind::IssuingAuthorization,
        UniNotificationEventDataObject::IssuingCard(_) => EventObjectKind::IssuingCard,
        UniNotificationEventDataObject::IssuingCardholder(_) => EventObjectKind::IssuingCardholder,
        UniNotificationEventDataObject::IssuingDispute(_) => EventObjectKind::IssuingDispute,
        UniNotificationEventDataObject::IssuingTransaction(_) => EventObjectKind::IssuingTransaction,
        UniNotificationEventDataObject::Mandate(_) => EventObjectKind::Mandate,
        UniNotificationEventDataObject::Order(_) => EventObjectKind::Order,
        UniNotificationEventDataObject::OrderReturn(_) => EventObjectKind::OrderReturn,
        UniNotificationEventDataObject::PaymentIntent(_) => EventObjectKind::PaymentIntent,
        UniNotificationEventDataObject::PaymentMethod(_) => EventObjectKind::PaymentMethod,
        UniNotificationEventDataObject::Payout(_) => EventObjectKind::Payout,
        UniNotificationEventDataObject::Person(_) => EventObjectKind::Person,
        UniNotificationEventDataObject::Plan(_) => EventObjectKind::Plan,
        UniNotificationEventDataObject::Price(_) => EventObjectKind::Price,
        UniNotificationEventDataObject::Product(_) => EventObjectKind::Product,
        UniNotificationEventDataObject::PromotionCode(_) => EventObjectKind::PromotionCode,
        UniNotificationEventDataObject::TransferRecipient(_) => EventObjectKind::TransferRecipient,
        UniNotificationEventDataObject::Refund(_) => EventObjectKind::Refund,
        UniNotificationEventDataObject::ReportingReportRun(_) => EventObjectKind::ReportingReportRun,
        UniNotificationEventDataObject::ReportingReportType(_) => EventObjectKind::ReportingReportType,
        UniNotificationEventDataObject::RadarReview(_) => EventObjectKind::RadarReview,
        UniNotificationEventDataObject::ScheduledQueryRun(_) => EventObjectKind::ScheduledQueryRun,
        UniNotificationEventDataObject::SetupIntent(_) => EventObjectKind::SetupIntent,
        UniNotificationEventDataObject::Sku(_) => EventObjectKind::Sku,
        UniNotificationEventDataObject::Source(_) => EventObjectKind::Source,
        UniNotificationEventDataObject::SourceTransaction(_) => EventObjectKind::SourceTransaction,
        UniNotificationEventDataObject::Subscription(_) => EventObjectKind::Subscription,
        UniNotificationEventDataObject::SubscriptionSchedule(_) => EventObjectKind::SubscriptionSchedule,
        UniNotificationEventDataObject::TaxId(_) => EventObjectKind::TaxId,
        UniNotificationEventDataObject::TaxRate(_) => EventObjectKind::TaxRate,
        UniNotificationEventDataObject::Topup(_) => EventObjectKind::Topup,
        UniNotificationEventDataObject::Transfer(_) => EventObjectKind::Transfer,
        UniNotificationEventDataObject::UnknownEvent(_) => EventObjectKind::UnknownEvent,
    }
}

/// The kind of object that the event `e` carries.
pub fn event_object_kind(e: &NotificationEvent) -> (r: EventObjectKind)
    ensures
        r == object_kind_of(*e.data.object),
{
    match &*e.data.object {
        UniNotificationEventDataObject::Account(_) => EventObjectKind::Account,
        UniNotificationEventDataObject::PlatformFee(_) => EventObjectKind::PlatformFee,
        UniNotificationEventDataObject::Balance(_) => EventObjectKind::Balance,
        UniNotificationEventDataObject::AccountCapability(_) => EventObjectKind::AccountCapability,
        UniNotificationEventDataObject::Charge(_) => EventObjectKind::Charge,
        UniNotificationEventDataObject::Session(_) => EventObjectKind::Session,
        UniNotificationEventDataObject::Coupon(_) => EventObjectKind::Coupon,
        UniNotificationEventDataObject::CreditNote(_) => EventObjectKind::CreditNote,
        UniNotificationEventDataObject::Customer(_) => EventObjectKind::Customer,
        UniNotificationEventDataObject::Discount(_) => EventObjectKind::Discount,
        UniNotificationEventDataObject::Dispute(_) => EventObjectKind::Dispute,
        UniNotificationEventDataObject::RadarEarlyFraudWarning(_) => EventObjectKind::RadarEarlyFraudWarning,
        UniNotificationEventDataObject::UniPolymorphic70BAFA(x) => match x {
            UniPolymorphic70BAFA::BankAccount(_) => EventObjectKind::BankAccount,
            UniPolymorphic70BAFA::Card(_) => EventObjectKind::Card,
        },
        UniNotificationEventDataObject::FeeRefund(_) => EventObjectKind::FeeRefund,
        UniNotificationEventDataObject::File(_) => EventObjectKind::File,
        UniNotificationEventDataObject::Invoice(_) => EventObjectKind::Invoice,
        UniNotificationEventDataObject::InvoiceItem(_) => EventObjectKind::InvoiceItem,
        UniNotificationEventDataObject::IssuingAuthorization(_) => EventObjectKind::IssuingAuthorization,
        UniNotificationEventDataObject::IssuingCard(_) => EventObjectKind::IssuingCard,
        UniNotificationEventDataObject::IssuingCardholder(_) => EventObjectKind::IssuingCardholder,
        UniNotificationEventDataObject::IssuingDispute(_) => EventObjectKind::IssuingDispute,
        UniNotificationEventDataObject::IssuingTransaction(_) => EventObjectKind::IssuingTransaction,
        UniNotificationEventDataObject::Mandate(_) => EventObjectKind::Mandate,
        UniNotificationEventDataObject::Order(_) => EventObjectKind::Order,
        UniNotificationEventDataObject::OrderReturn(_) => EventObjectKind::OrderReturn,
        UniNotificationEventDataObject::PaymentIntent(_) => EventObjectKind::PaymentIntent,
        UniNotificationEventDataObject::PaymentMethod(_) => EventObjectKind::PaymentMethod,
        UniNotificationEventDataObject::Payout(_) => EventObjectKind::Payout,
        UniNotificationEventDataObject::Person(_) => EventObjectKind::Person,
        UniNotificationEventDataObject::Plan(_) => EventObjectKind::Plan,
        UniNotificationEventDataObject::Price(_) => EventObjectKind::Price,
        UniNotificationEventDataObject::Product(_) => EventObjectKind::Product,
        UniNotificationEventDataObject::PromotionCode(_) => EventObjectKind::PromotionCode,
        UniNotificationEventDataObject::TransferRecipient(_) => EventObjectKind::TransferRecipient,
        UniNotificationEventDataObject::Refund(_) => EventObjectKind::Refund,
        UniNotificationEventDataObject::ReportingReportRun(_) => EventObjectKind::ReportingReportRun,
        UniNotificationEventDataObject::ReportingReportType(_) => EventObjectKind::ReportingReportType,
        UniNotificationEventDataObject::RadarReview(_) => EventObjectKind::RadarReview,
        UniNotificationEventDataObject::ScheduledQueryRun(_) => EventObjectKind::ScheduledQueryRun,
        UniNotificationEventDataObject::SetupIntent(_) => EventObjectKind::SetupIntent,
        UniNotificationEventDataObject::Sku(_) => EventObjectKind::Sku,
        UniNotificationEventDataObject::Source(_) => EventObjectKind::Source,
        UniNotificationEventDataObject::SourceTransaction(_) => EventObjectKind::SourceTransaction,
        UniNotificationEventDataObject::Subscription(_) => EventObjectKind::Subscription,
        UniNotificationEventDataObject::SubscriptionSchedule(_) => EventObjectKind::SubscriptionSchedule,
        UniNotificationEventDataObject::TaxId(_) => EventObjectKind::TaxId,
        UniNotificationEventDataObject::TaxRate(_) => EventObjectKind::TaxRate,
        UniNotificationEventDataObject::Topup(_) => EventObjectKind::Topup,
        UniNotificationEventDataObject::Transfer(_) => EventObjectKind::Transfer,
        UniNotificationEventDataObject::UnknownEvent(_) => EventObjectKind::UnknownEvent,
    }
}

/// Whether the event carries an invoice or a credit note whose line list has more lines than
/// the event holds.
pub open spec fn lines_has_more_of(o: UniNotificationEventDataObject) -> bool {
    match o {
        UniNotificationEventDataObject::Invoice(x) => x.lines.has_more,
        UniNotificationEventDataObject::CreditNote(x) => x.lines.has_more,
        _ => false,
    }
}

/// Whether the event carries a discount owned by a customer alone.
pub open spec fn customer_owned_discount(o: UniNotificationEventDataObject) -> bool {
    match o {
        UniNotificationEventDataObject::Discount(x) => x.customer is Some && x.subscription is None
            && x.invoice is None && x.invoice_item is None,
        _ => false,
    }
}

/// The writes that applying one event makes.
#[derive(Debug, Clone, Copy, PartialEq, Eq, Structural)]
pub struct EventWrite {
    /// The write of the event's object.
    pub step: EventStep,
    /// Whether the `discount` field of the customer that owns the discount is rewritten too.
    pub update_customer_discount: bool,
}

/// Whether the event `e`, which writes a table, can be applied (see `event_applicable`).
pub open spec fn write_applicable(e: NotificationEvent) -> bool {
    event_applicable(object_kind_of(*e.data.object), lines_has_more_of(*e.data.object))
}

/// Whether the event `e`, as a table write, can be applied: its object is written to a
/// table and, for an invoice or a credit note, the event holds all of its lines. The apply
/// run stops on a table write that cannot be applied rather than write partial data.
pub fn write_is_applicable(e: &NotificationEvent) -> (r: bool)
    ensures
        r == write_applicable(*e),
{
    let kind = event_object_kind(e);
    let has_more = match &*e.data.object {
        UniNotificationEventDataObject::Invoice(x) => x.lines.has_more,
        UniNotificationEventDataObject::CreditNote(x) => x.lines.has_more,
        _ => false,
    };
    let in_table = table_for(kind).is_some();
    let lines_kind = kind == EventObjectKind::Invoice || kind == EventObjectKind::CreditNote;
    in_table && !(has_more && lines_kind)
}

/// Decides the writes of an event that writes a table: its object's row is deleted when the
/// event type says so and upserted otherwise, and a `customer.discount.*` event on a discount
/// owned by a customer alone also rewrites that customer's `discount` (no `customer.updated`
/// event is sent for it).
pub fn write_one_event(e: &NotificationEvent) -> (r: EventWrite)
    requires
        write_applicable(*e),
    ensures
        r.step == if is_delete_type(e.type_x@) {
            EventStep::Delete(table_of(object_kind_of(*e.data.object)).unwrap())
        } else {
            EventStep::Upsert(table_of(object_kind_of(*e.data.object)).unwrap())
        },
        r.update_customer_discount == (seq_starts_with(e.type_x@, "customer.discount."@)
            && customer_owned_discount(*e.data.object)),
{
    let kind = event_object_kind(e);
    let has_more = match &*e.data.object {
        UniNotificationEventDataObject::Invoice(x) => x.lines.has_more,
        UniNotificationEventDataObject::CreditNote(x) => x.lines.has_more,
        _ => false,
    };
    let step = plan_event(e, true, kind, has_more);
    let update_customer_discount = match step {
        EventStep::Upsert(_) | EventStep::Delete(_) => match &*e.data.object {
            UniNotificationEventDataObject::Discount(x) => {
                discount_updates_customer(
                    e.type_x.as_str(),
                    x.customer.is_some(),
                    x.subscription.is_some(),
                    x.invoice.is_some(),
                    x.invoice_item.is_some(),
                )
            },
            _ => false,
        },
        EventStep::SkipNotDataWrite => false,
    };
    EventWrite { step, update_customer_discount }
}

/// What applying the event `e` writes, `None` when it writes no table (logged as
/// `skip.not_data_write`).
pub open spec fn event_plan(e: NotificationEvent, is_table_write: bool) -> Option<EventWrite> {
    if !is_table_write {
        None
    } else {
        Some(EventWrite {
            step: if is_delete_type(e.type_x@) {
                EventStep::Delete(table_of(object_kind_of(*e.data.object)).unwrap())
            } else {
                EventStep::Upsert(table_of(object_kind_of(*e.data.object)).unwrap())
            },
            update_customer_discount: seq_starts_with(e.type_x@, "customer.discount."@)
                && customer_owned_discount(*e.data.object),
        })
    }
}

/// Decides, event by event and in order, what applying `events` (oldest first) writes;
/// `table_write[i]` tells whether event `i` is a write of a table. The events must be in
/// creation order, and every table write must be applicable.
pub fn apply_events_body(events: &Vec<NotificationEvent>, table_write: &Vec<bool>) -> (plan: Vec<Option<EventWrite>>)
    requires
        table_write@.len() == events@.len(),
        events_ordered(events@),
        forall|i: int| 0 <= i < events@.len() && #[trigger] table_write@[i] ==> write_applicable(events@[i]),
    ensures
        plan@.len() == events@.len(),
        forall|i: int| 0 <= i < events@.len() ==> #[trigger] plan@[i] == event_plan(events@[i], table_write@[i]),
{
    let mut plan: Vec<Option<EventWrite>> = Vec::new();
    let mut i: usize = 0;
    while i < events.len()
        invariant
            i <= events@.len(),
            table_write@.len() == events@.len(),
            forall|k: int| 0 <= k < events@.len() && #[trigger] table_write@[k] ==> write_applicable(events@[k]),
            plan@.len() == i,
            forall|k: int| 0 <= k < i ==> #[trigger] plan@[k] == event_plan(events@[k], table_write@[k]),
        decreases events@.len() - i,
    {
        if table_write[i] {
            let w = write_one_event(&events[i]);
            plan.push(Some(w));
        } else {
            plan.push(None);
        }
        i = i + 1;
    }
    plan
}

/// Whether the events are listed oldest first, as far as the first and the last tell.
pub open spec fn events_ordered(e: Seq<NotificationEvent>) -> bool {
    e.len() > 1 ==> e[0].created <= e.last().created
}

/// Checks that a list of events to apply is ordered by creation time, oldest first.
pub fn events_in_apply_order(events: &Vec<NotificationEvent>) -> (r: bool)
    ensures
        r == events_ordered(events@),
{
    if events.len() > 1 {
        events[0].created <= events[events.len() - 1].created
    } else {
        true
    }
}

/// Whether the events collected before the write transaction opened may still be applied:
/// the last run read inside the transaction is the one read before it. When another process
/// recorded a run in between, it has applied the same events, and these are ignored.
pub fn events_still_unapplied(last_run_before: i64, last_run_in_tx: i64) -> (r: bool)
    ensures
        r == (last_run_before == last_run_in_tx),
{
    last_run_before == last_run_in_tx
}

/// The `created` lower bound for the first events applied after a download that started
/// at `download_start` (seconds): two minutes earlier.
pub fn events_since_download(download_start: i64) -> (r: i64)
    requires
        download_start >= i64::MIN + EVENTS_BEFORE_DOWNLOAD_SECS,
    ensures
        r == download_start - 2 * 60,
{
    download_start - 2 * 60
}

/// The request for the newest event after `last_event`: used to skip the event walk when
/// nothing new happened.
pub fn has_events_after_params(last_event: &String) -> (p: GetEvents)
    ensures
        p == (GetEvents {
            type_x: None,
            created: None,
            delivery_success: None,
            ending_before: Some(*last_event),
            expand: None,
            limit: Some(1),
            starting_after: None,
            types: None,
        }),
{
    GetEvents {
        type_x: None,
        created: None,
        delivery_success: None,
        ending_before: Some(last_event.clone()),
        expand: None,
        limit: Some(1),
        starting_after: None,
        types: None,
    }
}

/// The `created` filter that lists events created at or after `gte`.
pub open spec fn created_gte_filter(gte: Option<i64>) -> Option<UniCreated> {
    match gte {
        Some(x) => Some(UniCreated::RangeQuerySpecs(RangeQuerySpecs { gt: None, gte: Some(x), lt: None, lte: None })),
        None => None,
    }
}

/// The request that walks the event list from now back in time, 100 events a page,
/// optionally limited to events created at or after `created_gte`.
pub fn unapplied_events_params(created_gte: Option<i64>) -> (p: GetEvents)
    ensures
        p == (GetEvents {
            type_x: None,
            created: created_gte_filter(created_gte),
            delivery_success: None,
            ending_before: None,
            expand: None,
            limit: Some(EVENTS_PAGE_LIMIT),
            starting_after: None,
            types: None,
        }),
{
    let created = match created_gte {
        Some(x) => Some(UniCreated::RangeQuerySpecs(RangeQuerySpecs { gt: None, gte: Some(x), lt: None, lte: None })),
        None => None,
    };
    GetEvents {
        type_x: None,
        created,
        delivery_success: None,
        ending_before: None,
        expand: None,
        limit: Some(EVENTS_PAGE_LIMIT),
        starting_after: None,
        types: None,
    }
}

/// Whether `id` is the id of the last applied event.
pub open spec fn is_last_applied(last_event_id: Option<String>, id: String) -> bool {
    last_event_id matches Some(last) && last@ == id@
}

/// The events of `s` before the first one that is the last applied event.
pub open spec fn take_until(s: Seq<NotificationEvent>, last_event_id: Option<String>) -> Seq<NotificationEvent>
    decreases s.len(),
{
    if s.len() == 0 {
        Seq::empty()
    } else if is_last_applied(last_event_id, s[0].id) {
        Seq::empty()
    } else {
        seq![s[0]] + take_until(s.drop_first(), last_event_id)
    }
}

/// Whether the last applied event is among `s`.
pub open spec fn reaches(s: Seq<NotificationEvent>, last_event_id: Option<String>) -> bool {
    exists|j: int| 0 <= j < s.len() && is_last_applied(last_event_id, #[trigger] s[j].id)
}

/// The prefix of `s` up to (not including) its first event with the last applied id is
/// `take_until`.
pub proof fn lemma_take_until_prefix(s: Seq<NotificationEvent>, last_event_id: Option<String>, k: int)
    requires
        0 <= k <= s.len(),
        forall|j: int| 0 <= j < k ==> !is_last_applied(last_event_id, #[trigger] s[j].id),
        k < s.len() ==> is_last_applied(last_event_id, s[k].id),
    ensures
        take_until(s, last_event_id) == s.subrange(0, k),
        reaches(s, last_event_id) <==> k < s.len(),
    decreases s.len(),
{
    if s.len() == 0 {
        assert(s.subrange(0, k) =~= Seq::<NotificationEvent>::empty());
    } else if k == 0 {
        assert(s.subrange(0, k) =~= Seq::<NotificationEvent>::empty());
    } else {
        let t = s.drop_first();
        assert forall|j: int| 0 <= j < k - 1 implies !is_last_applied(last_event_id, #[trigger] t[j].id) by {
            assert(t[j] == s[j + 1]);
        }
        if k - 1 < t.len() {
            assert(t[k - 1] == s[k]);
        }
        lemma_take_until_prefix(t, last_event_id, k - 1);
        assert(s.subrange(0, k) =~= seq![s[0]] + t.subrange(0, k - 1));
        if reaches(t, last_event_id) {
            let j = choose|j: int| 0 <= j < t.len() && is_last_applied(last_event_id, #[trigger] t[j].id);
            assert(s[j + 1] == t[j]);
        }
        if reaches(s, last_event_id) {
            let j = choose|j: int| 0 <= j < s.len() && is_last_applied(last_event_id, #[trigger] s[j].id);
            if j > 0 {
                assert(t[j - 1] == s[j]);
            }
        }
    }
}

/// Walking the event list page by page collects the same events as one walk over the whole
/// list: when the last applied event is not on the first page, the events taken from the two
/// pages together are the first page followed by what is taken from the second.
pub proof fn law_walk_pages_compose(p1: Seq<NotificationEvent>, p2: Seq<NotificationEvent>, last_event_id: Option<String>)
    requires
        !reaches(p1, last_event_id),
    ensures
        take_until(p1 + p2, last_event_id) == p1 + take_until(p2, last_event_id),
        reaches(p1 + p2, last_event_id) == reaches(p2, last_event_id),
    decreases p1.len(),
{
    if p1.len() == 0 {
        assert(p1 + p2 =~= p2);
    } else {
        let t = p1.drop_first();
        assert(!is_last_applied(last_event_id, p1[0].id));
        assert(!reaches(t, last_event_id)) by {
            if reaches(t, last_event_id) {
                let j = choose|j: int| 0 <= j < t.len() && is_last_applied(last_event_id, #[trigger] t[j].id);
                assert(p1[j + 1] == t[j]);
            }
        }
        law_walk_pages_compose(t, p2, last_event_id);
        assert((p1 + p2).drop_first() =~= t + p2);
        assert((p1 + p2)[0] == p1[0]);
        assert(p1 =~= seq![p1[0]] + t);
        if reaches(p1 + p2, last_event_id) {
            let j = choose|j: int| 0 <= j < (p1 + p2).len() && is_last_applied(last_event_id, #[trigger] (p1 + p2)[j].id);
            if j > 0 {
                assert((t + p2)[j - 1] == (p1 + p2)[j]);
            }
        }
        if reaches(t + p2, last_event_id) {
            let j = choose|j: int| 0 <= j < (t + p2).len() && is_last_applied(last_event_id, #[trigger] (t + p2)[j].id);
            assert((p1 + p2)[j + 1] == (t + p2)[j]);
        }
    }
}

/// Takes the events of one page (newest first) into `o`, up to the last applied event;
/// returns whether that event was reached, which ends the walk.
pub fn walk_events_page(o: &mut Vec<NotificationEvent>, page: Vec<NotificationEvent>, last_event_id: &Option<String>) -> (reached: bool)
    ensures
        old(o)@.len() <= final(o)@.len() <= old(o)@.len() + page@.len(),
        final(o)@ == old(o)@ + page@.subrange(0, final(o)@.len() - old(o)@.len()),
        forall|j: int|
            0 <= j < final(o)@.len() - old(o)@.len() ==> !is_last_applied(*last_event_id, #[trigger] page@[j].id),
        reached <==> final(o)@.len() - old(o)@.len() < page@.len(),
        reached ==> is_last_applied(*last_event_id, page@[final(o)@.len() - old(o)@.len()].id),
        final(o)@ == old(o)@ + take_until(page@, *last_event_id),
        reached == reaches(page@, *last_event_id),
{
    let ghost start = o@;
    let mut k: usize = 0;
    let n: usize = page.len();
    let mut rest = vec_reversed(page);
    while k < n
        invariant
            n == page@.len(),
            k <= n,
            rest@ == page@.subrange(k as int, n as int).reverse(),
            o@ == start + page@.subrange(0, k as int),
            start == old(o)@,
            forall|j: int| 0 <= j < k ==> !is_last_applied(*last_event_id, #[trigger] page@[j].id),
        decreases n - k,
    {
        let ghost before = rest@;
        let e = rest.pop().unwrap();
        assert(e == page@[k as int]);
        assert(rest@ =~= page@.subrange(k + 1, n as int).reverse());
        let hit = match last_event_id {
            Some(last) => e.id == *last,
            None => false,
        };
        if hit {
            assert(o@.len() - start.len() == k);
            proof {
                lemma_take_until_prefix(page@, *last_event_id, k as int);
            }
            return true;
        }
        o.push(e);
        k = k + 1;
        assert(o@ =~= start + page@.subrange(0, k as int));
    }
    assert(page@.subrange(0, n as int) =~= page@);
    proof {
        lemma_take_until_prefix(page@, *last_event_id, n as int);
    }
    false
}

/// How an event is shown in the log of an apply run.
#[derive(Debug, Clone)]
pub struct EventSummary {
    pub id: String,
    pub created: String,
    /// How long ago the event was created, such as `1h 2m 3s ago`.
    pub created_rel: String,
}

/// Seconds from `created` to `now`, zero when `now` reads earlier (the API may round the
/// creation time up to a second that has not passed yet).
pub open spec fn age_secs(created: i64, now: i64) -> u64 {
    if now > created {
        (now - created) as u64
    } else {
        0
    }
}

/// Whether `s` summarises the event `x`, created at the ISO date `created_iso`, as seen at
/// `now` (seconds since the Unix epoch).
pub open spec fn summarises(s: EventSummary, x: NotificationEvent, created_iso: String, now: i64) -> bool {
    &&& s.id == x.id
    &&& s.created == created_iso
    &&& s.created_rel@ == humantime_text(age_secs(x.created, now)) + " ago"@
}

impl EventSummary {
    /// Summarises the event `x`, created at the ISO date `created_iso`, as seen at `now_secs`.
    pub fn from_event(x: &NotificationEvent, created_iso: &String, now_secs: i64) -> (r: EventSummary)
        ensures
            summarises(r, *x, *created_iso, now_secs),
    {
        let age: u64 = if now_secs > x.created {
            (now_secs as i128 - x.created as i128) as u64
        } else {
            0
        };
        let human = format_duration_secs(age);
        EventSummary::with_duration_text(x, created_iso, &human)
    }

    /// Summarises the event `x`, created at the ISO date `created_iso`, whose age reads
    /// `human` (such as `1h 2m 3s`).
    pub fn with_duration_text(x: &NotificationEvent, created_iso: &String, human: &String) -> (r: EventSummary)
        ensures
            r.id == x.id,
            r.created == *created_iso,
            r.created_rel@ == human@ + " ago"@,
    {
        let created_rel = concat(human.as_str(), " ago");
        EventSummary { id: x.id.clone(), created: created_iso.clone(), created_rel }
    }
}

/// How many of the events `e` have the type `t`.
pub open spec fn type_count(e: Seq<NotificationEvent>, t: Seq<char>) -> nat
    decreases e.len(),
{
    if e.len() == 0 {
        0
    } else {
        type_count(e.drop_last(), t) + if e.last().type_x@ == t {
            1nat
        } else {
            0nat
        }
    }
}

/// A count is never more than the number of events.
pub proof fn lemma_type_count_bound(e: Seq<NotificationEvent>, t: Seq<char>)
    ensures
        type_count(e, t) <= e.len(),
    decreases e.len(),
{
    if e.len() > 0 {
        lemma_type_count_bound(e.drop_last(), t);
    }
}

/// A type that no event has is counted zero times.
pub proof fn lemma_type_count_absent(e: Seq<NotificationEvent>, t: Seq<char>)
    requires
        forall|k: int| 0 <= k < e.len() ==> #[trigger] e[k].type_x@ != t,
    ensures
        type_count(e, t) == 0,
    decreases e.len(),
{
    if e.len() > 0 {
        assert forall|k: int| 0 <= k < e.drop_last().len() implies #[trigger] e.drop_last()[k].type_x@ != t by {
            assert(e.drop_last()[k] == e[k]);
        }
        lemma_type_count_absent(e.drop_last(), t);
    }
}

/// Whether `c` counts the events of `e` by type: each type once, each with its number of
/// events, and every type that occurs in `e` listed.
pub open spec fn counts_types(c: Seq<(String, u32)>, e: Seq<NotificationEvent>) -> bool {
    &&& forall|i: int, j: int| 0 <= i < c.len() && 0 <= j < c.len() && i != j ==> #[trigger] c[i].0@ != #[trigger] c[j].0@
    &&& forall|i: int| 0 <= i < c.len() ==> #[trigger] c[i].1 == type_count(e, c[i].0@) && c[i].1 > 0
    &&& forall|k: int| #![trigger e[k]] 0 <= k < e.len() ==> exists|i: int| #![trigger c[i]] 0 <= i < c.len() && c[i].0@ == e[k].type_x@
}

/// Counts the events of `e` by type.
pub fn count_event_types(e: &Vec<NotificationEvent>) -> (c: Vec<(String, u32)>)
    requires
        e@.len() < u32::MAX,
    ensures
        counts_types(c@, e@),
{
    let mut keys: Vec<String> = Vec::new();
    let mut counts: Vec<u32> = Vec::new();
    let mut i: usize = 0;
    while i < e.len()
        invariant
            e@.len() < u32::MAX,
            i <= e@.len(),
            keys@.len() == counts@.len(),
            forall|a: int, b: int| 0 <= a < keys@.len() && 0 <= b < keys@.len() && a != b
                ==> #[trigger] keys@[a]@ != #[trigger] keys@[b]@,
            forall|a: int| 0 <= a < keys@.len() ==> #[trigger] counts@[a] == type_count(e@.take(i as int), keys@[a]@),
            forall|a: int| 0 <= a < counts@.len() ==> #[trigger] counts@[a] > 0,
            forall|k: int| #![trigger e@[k]] 0 <= k < i ==> exists|a: int| #![trigger keys@[a]] 0 <= a < keys@.len() && keys@[a]@ == e@[k].type_x@,
        decreases e@.len() - i,
    {
        let t = e[i].type_x.as_str();
        let ghost p = e@.take(i as int);
        let ghost p1 = e@.take(i + 1);
        assert(p1.drop_last() =~= p);
        assert(p1.last() == e@[i as int]);
        let mut j: usize = 0;
        let mut found = false;
        while j < keys.len()
            invariant_except_break
                !found,
            invariant
                j <= keys@.len(),
                t@ == e@[i as int].type_x@,
                forall|a: int| 0 <= a < j ==> keys@[a]@ != t@,
            ensures
                j <= keys@.len(),
                found ==> j < keys@.len() && keys@[j as int]@ == t@,
                !found ==> j == keys@.len(),
                forall|a: int| 0 <= a < j ==> keys@[a]@ != t@,
            decreases keys@.len() - j,
        {
            if str_eq(keys[j].as_str(), t) {
                found = true;
                break;
            }
            j = j + 1;
        }
        let ghost keys0 = keys@;
        let ghost counts0 = counts@;
        if found {
            proof {
                lemma_type_count_bound(p, keys@[j as int]@);
            }
            counts.set(j, counts[j] + 1);
        } else {
            proof {
                assert forall|k: int| 0 <= k < p.len() implies #[trigger] p[k].type_x@ != t@ by {
                    assert(p[k] == e@[k]);
                    let a = choose|a: int| #![trigger keys0[a]] 0 <= a < keys0.len() && keys0[a]@ == e@[k].type_x@;
                }
                lemma_type_count_absent(p, t@);
            }
            keys.push(e[i].type_x.clone());
            counts.push(1);
        }
        assert forall|a: int| 0 <= a < keys@.len() implies #[trigger] counts@[a] == type_count(p1, keys@[a]@) by {
            if a < keys0.len() {
                assert(keys@[a] == keys0[a]);
                if a != j {
                    assert(counts@[a] == counts0[a]);
                }
            }
        }
        assert forall|a: int| 0 <= a < counts@.len() implies #[trigger] counts@[a] > 0 by {
            if a < counts0.len() && a != j {
                assert(counts@[a] == counts0[a]);
            }
        }
        assert forall|a: int, b: int| 0 <= a < keys@.len() && 0 <= b < keys@.len() && a != b
            implies #[trigger] keys@[a]@ != #[trigger] keys@[b]@ by {
            if a < keys0.len() {
                assert(keys@[a] == keys0[a]);
            }
            if b < keys0.len() {
                assert(keys@[b] == keys0[b]);
            }
        }
        assert forall|k: int| #![trigger e@[k]] 0 <= k < i + 1 implies exists|a: int| #![trigger keys@[a]] 0 <= a < keys@.len() && keys@[a]@ == e@[k].type_x@ by {
            if k == i {
                assert(keys@[j as int]@ == e@[k].type_x@);
            } else {
                let a = choose|a: int| #![trigger keys0[a]] 0 <= a < keys0.len() && keys0[a]@ == e@[k].type_x@;
                assert(keys@[a] == keys0[a]);
            }
        }
        i = i + 1;
    }
    assert(e@.take(e@.len() as int) =~= e@);
    assert(i == e@.len());
    assert(keys@.len() == counts@.len());
    assert(e@.len() > 0 ==> exists|a: int| #![trigger keys@[a]] 0 <= a < keys@.len() && keys@[a]@ == e@[0].type_x@);
    assert(forall|k: int| #![trigger e@[k]] 0 <= k < i ==> exists|a: int| #![trigger keys@[a]] 0 <= a < keys@.len() && keys@[a]@ == e@[k].type_x@);
    assert(forall|k: int| #![trigger e@[k]] 0 <= k < e@.len() ==> exists|a: int| #![trigger keys@[a]] 0 <= a < keys@.len() && keys@[a]@ == e@[k].type_x@);
    let mut c: Vec<(String, u32)> = Vec::new();
    let mut j: usize = 0;
    while j < keys.len()
        invariant
            j <= keys@.len(),
            keys@.len() == counts@.len(),
            c@.len() == j,
            forall|a: int| 0 <= a < j ==> #[trigger] c@[a] == (keys@[a], counts@[a]),
            forall|a: int| 0 <= a < counts@.len() ==> #[trigger] counts@[a] > 0,
            forall|k: int| #![trigger e@[k]] 0 <= k < e@.len() ==> exists|a: int| #![trigger keys@[a]] 0 <= a < keys@.len() && keys@[a]@ == e@[k].type_x@,
        decreases keys@.len() - j,
    {
        c.push((keys[j].clone(), counts[j]));
        j = j + 1;
    }
    assert forall|k: int| #![trigger e@[k]] 0 <= k < e@.len() implies exists|a: int| #![trigger c@[a]] 0 <= a < c@.len() && c@[a].0@ == e@[k].type_x@ by {
        let a = choose|a: int| #![trigger keys@[a]] 0 <= a < keys@.len() && keys@[a]@ == e@[k].type_x@;
        assert(c@[a] == (keys@[a], counts@[a]));
    }
    assert forall|a: int| 0 <= a < c@.len() implies #[trigger] c@[a].1 == type_count(e@, c@[a].0@) && c@[a].1 > 0 by {
        assert(c@[a] == (keys@[a], counts@[a]));
    }
    c
}

/// The sum of the counts of `c`.
pub open spec fn total_count(c: Seq<(String, u32)>) -> int
    decreases c.len(),
{
    if c.len() == 0 {
        0
    } else {
        total_count(c.drop_last()) + c.last().1
    }
}

/// The sum over the keys of `c` of the number of events of `e` with that type.
pub open spec fn sum_type_counts(c: Seq<(String, u32)>, e: Seq<NotificationEvent>) -> int
    decreases c.len(),
{
    if c.len() == 0 {
        0
    } else {
        sum_type_counts(c.drop_last(), e) + type_count(e, c.last().0@)
    }
}

/// How many keys of `c` are `t`.
pub open spec fn key_hits(c: Seq<(String, u32)>, t: Seq<char>) -> int
    decreases c.len(),
{
    if c.len() == 0 {
        0
    } else {
        key_hits(c.drop_last(), t) + if c.last().0@ == t {
            1int
        } else {
            0int
        }
    }
}

proof fn lemma_total_is_sum(c: Seq<(String, u32)>, e: Seq<NotificationEvent>)
    requires
        forall|i: int| 0 <= i < c.len() ==> #[trigger] c[i].1 == type_count(e, c[i].0@),
    ensures
        total_count(c) == sum_type_counts(c, e),
    decreases c.len(),
{
    if c.len() > 0 {
        let d = c.drop_last();
        assert forall|i: int| 0 <= i < d.len() implies #[trigger] d[i].1 == type_count(e, d[i].0@) by {
            assert(d[i] == c[i]);
        }
        lemma_total_is_sum(d, e);
        assert(c.last() == c[c.len() - 1]);
    }
}

proof fn lemma_sum_empty(c: Seq<(String, u32)>, e: Seq<NotificationEvent>)
    requires
        e.len() == 0,
    ensures
        sum_type_counts(c, e) == 0,
    decreases c.len(),
{
    if c.len() > 0 {
        lemma_sum_empty(c.drop_last(), e);
    }
}

proof fn lemma_sum_step(c: Seq<(String, u32)>, e: Seq<NotificationEvent>)
    requires
        e.len() > 0,
    ensures
        sum_type_counts(c, e) == sum_type_counts(c, e.drop_last()) + key_hits(c, e.last().type_x@),
    decreases c.len(),
{
    if c.len() > 0 {
        lemma_sum_step(c.drop_last(), e);
    }
}

proof fn lemma_key_hits_one(c: Seq<(String, u32)>, t: Seq<char>, k: int)
    requires
        0 <= k < c.len(),
        c[k].0@ == t,
        forall|i: int, j: int| 0 <= i < c.len() && 0 <= j < c.len() && i != j ==> #[trigger] c[i].0@ != #[trigger] c[j].0@,
    ensures
        key_hits(c, t) == 1,
    decreases c.len(),
{
    let d = c.drop_last();
    assert forall|i: int, j: int| 0 <= i < d.len() && 0 <= j < d.len() && i != j implies #[trigger] d[i].0@ != #[trigger] d[j].0@ by {
        assert(d[i] == c[i]);
        assert(d[j] == c[j]);
    }
    if k == c.len() - 1 {
        lemma_key_hits_none(d, t, c);
    } else {
        assert(d[k] == c[k]);
        lemma_key_hits_one(d, t, k);
        assert(c.last() == c[c.len() - 1]);
    }
}

proof fn lemma_key_hits_none(d: Seq<(String, u32)>, t: Seq<char>, c: Seq<(String, u32)>)
    requires
        c.len() > 0,
        d == c.drop_last(),
        c.last().0@ == t,
        forall|i: int, j: int| 0 <= i < c.len() && 0 <= j < c.len() && i != j ==> #[trigger] c[i].0@ != #[trigger] c[j].0@,
    ensures
        key_hits(d, t) == 0,
{
    assert forall|i: int| 0 <= i < d.len() implies #[trigger] d[i].0@ != t by {
        assert(d[i] == c[i]);
        assert(c.last() == c[c.len() - 1]);
    }
    lemma_key_hits_absent(d, t);
}

proof fn lemma_key_hits_absent(d: Seq<(String, u32)>, t: Seq<char>)
    requires
        forall|i: int| 0 <= i < d.len() ==> #[trigger] d[i].0@ != t,
    ensures
        key_hits(d, t) == 0,
    decreases d.len(),
{
    if d.len() > 0 {
        let dd = d.drop_last();
        assert forall|i: int| 0 <= i < dd.len() implies #[trigger] dd[i].0@ != t by {
            assert(dd[i] == d[i]);
        }
        lemma_key_hits_absent(dd, t);
        assert(d.last() == d[d.len() - 1]);
    }
}

proof fn lemma_sum_is_len(c: Seq<(String, u32)>, e: Seq<NotificationEvent>)
    requires
        forall|i: int, j: int| 0 <= i < c.len() && 0 <= j < c.len() && i != j ==> #[trigger] c[i].0@ != #[trigger] c[j].0@,
        forall|k: int| #![trigger e[k]] 0 <= k < e.len() ==> exists|i: int| #![trigger c[i]] 0 <= i < c.len() && c[i].0@ == e[k].type_x@,
    ensures
        sum_type_counts(c, e) == e.len(),
    decreases e.len(),
{
    if e.len() == 0 {
        lemma_sum_empty(c, e);
    } else {
        let d = e.drop_last();
        assert forall|k: int| #![trigger d[k]] 0 <= k < d.len() implies exists|i: int| #![trigger c[i]] 0 <= i < c.len() && c[i].0@ == d[k].type_x@ by {
            assert(d[k] == e[k]);
        }
        lemma_sum_is_len(c, d);
        lemma_sum_step(c, e);
        let last: int = e.len() - 1;
        assert(e[last] == e.last());
        let i = choose|i: int| #![trigger c[i]] 0 <= i < c.len() && c[i].0@ == e[last].type_x@;
        lemma_key_hits_one(c, e.last().type_x@, i);
    }
}

/// The summary accounts for every event exactly once: the counts by type add up to the
/// number of events.
pub proof fn law_type_counts_add_up(c: Seq<(String, u32)>, e: Seq<NotificationEvent>)
    requires
        counts_types(c, e),
    ensures
        total_count(c) == e.len(),
{
    lemma_total_is_sum(c, e);
    lemma_sum_is_len(c, e);
}

/// The summary of one apply run.
#[derive(Debug, Clone)]
pub struct ApplySummary {
    pub run_id: i64,
    /// The first event, when there is more than one.
    pub from: Option<EventSummary>,
    /// The last event.
    pub to: EventSummary,
    /// How many events of each type were applied.
    pub event_type_count: Vec<(String, u32)>,
}

impl ApplySummary {
    /// Summarises the events `e` (oldest first) of the apply run `run_id`, as seen at
    /// `now_secs`; `created_iso` holds the ISO creation date of each event.
    pub fn from_event_list(run_id: i64, e: &Vec<NotificationEvent>, created_iso: &Vec<String>, now_secs: i64) -> (r: ApplySummary)
        requires
            e@.len() > 0,
            e@.len() < u32::MAX,
            created_iso@.len() == e@.len(),
        ensures
            r.run_id == run_id,
            e@.len() > 1 ==> (r.from matches Some(f) && summarises(f, e@[0], created_iso@[0], now_secs)),
            e@.len() == 1 ==> r.from is None,
            summarises(r.to, e@.last(), created_iso@.last(), now_secs),
            counts_types(r.event_type_count@, e@),
    {
        let hm = count_event_types(e);
        let from = if e.len() > 1 {
            Some(EventSummary::from_event(&e[0], &created_iso[0], now_secs))
        } else {
            None
        };
        let last: usize = e.len() - 1;
        ApplySummary { run_id, from, to: EventSummary::from_event(&e[last], &created_iso[last], now_secs), event_type_count: hm }
    }
}

/// The `(created, id, created date)` entries of the events of `e` that carry the API version
/// `v`, in the order of `e`; `iso` holds the creation date of each event as an ISO date string.
pub open spec fn version_group(e: Seq<NotificationEvent>, iso: Seq<String>, v: Seq<char>) -> Seq<(i64, String, String)>
    decreases e.len(),
{
    if e.len() == 0 || iso.len() == 0 {
        Seq::empty()
    } else {
        let g = version_group(e.drop_last(), iso.drop_last(), v);
        if e.last().api_version matches Some(x) && x@ == v {
            g.push((e.last().created, e.last().id, iso.last()))
        } else {
            g
        }
    }
}

/// `s` with `x` put after the last entry whose creation time is not later than `x`'s.
pub open spec fn insert_by_created(s: Seq<(i64, String, String)>, x: (i64, String, String)) -> Seq<(i64, String, String)>
    decreases s.len(),
{
    if s.len() == 0 {
        seq![x]
    } else if s.last().0 <= x.0 {
        s.push(x)
    } else {
        insert_by_created(s.drop_last(), x).push(s.last())
    }
}

/// The entries of `s` sorted by creation time, oldest first; entries created at the same
/// time keep their order in `s` (a stable sort).
pub open spec fn sort_by_created(s: Seq<(i64, String, String)>) -> Seq<(i64, String, String)>
    decreases s.len(),
{
    if s.len() == 0 {
        s
    } else {
        insert_by_created(sort_by_created(s.drop_last()), s.last())
    }
}

/// Whether the entries of `s` are ordered by creation time, oldest first.
pub open spec fn created_ascending(s: Seq<(i64, String, String)>) -> bool {
    forall|i: int, j: int| 0 <= i <= j < s.len() ==> #[trigger] s[i].0 <= #[trigger] s[j].0
}

/// The `(id, created date)` pairs of the entries of `s`, in order.
pub open spec fn ids_and_dates(s: Seq<(i64, String, String)>) -> Seq<(String, String)> {
    s.map_values(|t: (i64, String, String)| (t.1, t.2))
}

/// Inserting puts `x` between the entries not later than it and those later than it.
proof fn lemma_insert_shape(s: Seq<(i64, String, String)>, x: (i64, String, String)) -> (j: int)
    ensures
        0 <= j <= s.len(),
        insert_by_created(s, x) == s.take(j) + seq![x] + s.skip(j),
        forall|k: int| j <= k < s.len() ==> #[trigger] s[k].0 > x.0,
        j > 0 ==> s[j - 1].0 <= x.0,
    decreases s.len(),
{
    if s.len() == 0 {
        assert(s.take(0) + seq![x] + s.skip(0) =~= seq![x]);
        0
    } else if s.last().0 <= x.0 {
        let j = s.len() as int;
        assert(s.take(j) + seq![x] + s.skip(j) =~= s.push(x));
        j
    } else {
        let d = s.drop_last();
        let j = lemma_insert_shape(d, x);
        assert(d.take(j) =~= s.take(j));
        assert((d.take(j) + seq![x] + d.skip(j)).push(s.last()) =~= s.take(j) + seq![x] + s.skip(j));
        assert forall|k: int| j <= k < s.len() implies #[trigger] s[k].0 > x.0 by {
            if k < d.len() {
                assert(s[k] == d[k]);
            }
        }
        if j > 0 {
            assert(s[j - 1] == d[j - 1]);
        }
        j
    }
}

/// Sorting keeps the entries (as a multiset) and orders them by creation time, oldest first.
pub proof fn law_sort_by_created(s: Seq<(i64, String, String)>)
    ensures
        created_ascending(sort_by_created(s)),
        sort_by_created(s).to_multiset() == s.to_multiset(),
        sort_by_created(s).len() == s.len(),
    decreases s.len(),
{
    broadcast use vstd::seq_lib::group_to_multiset_ensures;
    if s.len() > 0 {
        let d = s.drop_last();
        let x = s.last();
        law_sort_by_created(d);
        let t = sort_by_created(d);
        let j = lemma_insert_shape(t, x);
        let r = t.take(j) + seq![x] + t.skip(j);
        assert(sort_by_created(s) == r);
        assert forall|a: int, b: int| 0 <= a <= b < r.len() implies #[trigger] r[a].0 <= #[trigger] r[b].0 by {
            if a < j && b < j {
                assert(r[a] == t[a] && r[b] == t[b]);
            } else if a < j && b == j {
                assert(r[a] == t[a]);
                assert(t[a].0 <= t[j - 1].0);
            } else if a < j {
                assert(r[a] == t[a] && r[b] == t[b - 1]);
            } else if a == j && b > j {
                assert(r[b] == t[b - 1]);
            } else if a > j {
                assert(r[a] == t[a - 1] && r[b] == t[b - 1]);
            }
        }
        assert(t =~= t.take(j) + t.skip(j));
        vstd::seq_lib::lemma_multiset_commutative(t.take(j), t.skip(j));
        vstd::seq_lib::lemma_multiset_commutative(t.take(j) + seq![x], t.skip(j));
        vstd::seq_lib::lemma_multiset_commutative(t.take(j), seq![x]);
        assert(s =~= d.push(x));
        assert(r.to_multiset() =~= s.to_multiset());
    }
}

/// Inserts `x` into `s` after the last entry whose creation time is not later than `x`'s.
fn insert_entry_by_created(s: &mut Vec<(i64, String, String)>, x: (i64, String, String))
    ensures
        final(s)@ == insert_by_created(old(s)@, x),
{
    let mut j: usize = s.len();
    while j > 0
        invariant_except_break
            j <= s@.len(),
            forall|k: int| j <= k < s@.len() ==> #[trigger] s@[k].0 > x.0,
        invariant
            s@ == old(s)@,
        ensures
            j <= s@.len(),
            forall|k: int| j <= k < s@.len() ==> #[trigger] s@[k].0 > x.0,
            j > 0 ==> s@[j - 1].0 <= x.0,
        decreases j,
    {
        if s[j - 1].0 <= x.0 {
            break;
        }
        j = j - 1;
    }
    proof {
        let j2 = lemma_insert_shape(s@, x);
        if j2 < j {
            assert(s@[j - 1].0 <= x.0);
            assert(s@[j - 1].0 > x.0);
        }
        if j < j2 {
            assert(s@[j2 - 1].0 <= x.0);
            assert(s@[j2 - 1].0 > x.0);
        }
    }
    let ghost before = s@;
    s.insert(j, x);
    assert(s@ =~= before.take(j as int) + seq![x] + before.skip(j as int));
}

/// The `(id, created date)` pairs of the entries of `g`, sorted by creation time, oldest first;
/// entries created at the same time keep their order in `g`.
pub fn sorted_ids_and_dates(g: &Vec<(i64, String, String)>) -> (r: Vec<(String, String)>)
    ensures
        r@ == ids_and_dates(sort_by_created(g@)),
{
    let mut sorted: Vec<(i64, String, String)> = Vec::new();
    let mut i: usize = 0;
    while i < g.len()
        invariant
            i <= g@.len(),
            sorted@ == sort_by_created(g@.take(i as int)),
        decreases g@.len() - i,
    {
        assert(g@.take(i + 1).drop_last() =~= g@.take(i as int));
        assert(g@.take(i + 1).last() == g@[i as int]);
        let x = (g[i].0, g[i].1.clone(), g[i].2.clone());
        insert_entry_by_created(&mut sorted, x);
        i = i + 1;
    }
    assert(g@.take(g@.len() as int) =~= g@);
    let mut r: Vec<(String, String)> = Vec::new();
    let mut k: usize = 0;
    while k < sorted.len()
        invariant
            k <= sorted@.len(),
            r@ == ids_and_dates(sorted@.take(k as int)),
        decreases sorted@.len() - k,
    {
        r.push((sorted[k].1.clone(), sorted[k].2.clone()));
        k = k + 1;
        assert(r@ =~= ids_and_dates(sorted@.take(k as int)));
    }
    assert(sorted@.take(sorted@.len() as int) =~= sorted@);
    r
}

/// No event of `e` carries the version `v`: its group is empty.
pub proof fn lemma_version_group_absent(e: Seq<NotificationEvent>, iso: Seq<String>, v: Seq<char>)
    requires
        forall|k: int| 0 <= k < e.len() ==> !(#[trigger] e[k].api_version matches Some(x) && x@ == v),
    ensures
        version_group(e, iso, v) == Seq::<(i64, String, String)>::empty(),
    decreases e.len(),
{
    if e.len() > 0 {
        assert forall|k: int| 0 <= k < e.drop_last().len() implies !(#[trigger] e.drop_last()[k].api_version matches Some(x) && x@ == v) by {
            assert(e.drop_last()[k] == e[k]);
        }
        lemma_version_group_absent(e.drop_last(), iso.drop_last(), v);
    }
}

/// The API version of an event, which every event applied here carries.
pub open spec fn version_of(x: NotificationEvent) -> Seq<char> {
    x.api_version.unwrap()@
}

/// Whether `g` groups the events of `e` whose version is not `target` by their version:
/// each such version once, with the id and creation date of the events that carry it,
/// sorted by creation time, oldest first (events created at the same time in the order of `e`).
pub open spec fn groups_other_versions(
    g: Seq<(String, Vec<(String, String)>)>,
    e: Seq<NotificationEvent>,
    iso: Seq<String>,
    target: Seq<char>,
) -> bool {
    &&& forall|i: int, j: int| 0 <= i < g.len() && 0 <= j < g.len() && i != j ==> #[trigger] g[i].0@ != #[trigger] g[j].0@
    &&& forall|i: int| #![trigger g[i]] 0 <= i < g.len() ==> g[i].0@ != target
        && g[i].1@ == ids_and_dates(sort_by_created(version_group(e, iso, g[i].0@))) && g[i].1@.len() > 0
    &&& forall|k: int| #![trigger e[k]] 0 <= k < e.len() && version_of(e[k]) != target
        ==> exists|i: int| #![trigger g[i]] 0 <= i < g.len() && g[i].0@ == version_of(e[k])
}

/// Groups the events whose API version differs from `target_version` by version, with
/// the id and creation date of each event (`created_iso` holds the ISO date of each event).
/// Applying such events could leave rows out of queries, so they are not applied.
pub fn get_incorrect_versions(e: &Vec<NotificationEvent>, created_iso: &Vec<String>, target_version: &str) -> (g: Vec<(String, Vec<(String, String)>)>)
    requires
        created_iso@.len() == e@.len(),
        forall|k: int| 0 <= k < e@.len() ==> (#[trigger] e@[k]).api_version is Some,
    ensures
        groups_other_versions(g@, e@, created_iso@, target_version@),
{
    let mut keys: Vec<String> = Vec::new();
    let mut groups: Vec<Vec<(i64, String, String)>> = Vec::new();
    let mut i: usize = 0;
    while i < e.len()
        invariant
            i <= e@.len(),
            forall|k: int| 0 <= k < e@.len() ==> (#[trigger] e@[k]).api_version is Some,
            keys@.len() == groups@.len(),
            forall|a: int, b: int| 0 <= a < keys@.len() && 0 <= b < keys@.len() && a != b
                ==> #[trigger] keys@[a]@ != #[trigger] keys@[b]@,
            created_iso@.len() == e@.len(),
            forall|a: int| #![trigger keys@[a]] 0 <= a < keys@.len() ==> keys@[a]@ != target_version@
                && groups@[a]@ == version_group(e@.take(i as int), created_iso@.take(i as int), keys@[a]@),
            forall|a: int| 0 <= a < groups@.len() ==> (#[trigger] groups@[a])@.len() > 0,
            forall|k: int| #![trigger e@[k]] 0 <= k < i && version_of(e@[k]) != target_version@
                ==> exists|a: int| #![trigger keys@[a]] 0 <= a < keys@.len() && keys@[a]@ == version_of(e@[k]),
        decreases e@.len() - i,
    {
        let ghost p = e@.take(i as int);
        let ghost p1 = e@.take(i + 1);
        let ghost q = created_iso@.take(i as int);
        let ghost q1 = created_iso@.take(i + 1);
        assert(p1.drop_last() =~= p);
        assert(p1.last() == e@[i as int]);
        assert(q1.drop_last() =~= q);
        assert(q1.last() == created_iso@[i as int]);
        let ghost keys0 = keys@;
        let ghost groups0 = groups@;
        let v = match &e[i].api_version {
            Some(v) => v.as_str(),
            None => {
                assert(false);
                ""
            },
        };
        assert(v@ == version_of(e@[i as int]));
        if !str_eq(v, target_version) {
            let mut j: usize = 0;
            let mut found = false;
            while j < keys.len()
                invariant_except_break
                    !found,
                invariant
                    j <= keys@.len(),
                    forall|a: int| 0 <= a < j ==> keys@[a]@ != v@,
                ensures
                    j <= keys@.len(),
                    found ==> j < keys@.len() && keys@[j as int]@ == v@,
                    !found ==> j == keys@.len(),
                    forall|a: int| 0 <= a < j ==> keys@[a]@ != v@,
                decreases keys@.len() - j,
            {
                if str_eq(keys[j].as_str(), v) {
                    found = true;
                    break;
                }
                j = j + 1;
            }
            let item = (e[i].created, e[i].id.clone(), created_iso[i].clone());
            if found {
                groups[j].push(item);
                assert forall|a: int| 0 <= a < groups@.len() implies (#[trigger] groups@[a])@.len() > 0 by {
                    if a != j {
                        assert(groups@[a] == groups0[a]);
                    }
                }
            } else {
                proof {
                    assert forall|k: int| 0 <= k < p.len() implies !(#[trigger] p[k].api_version matches Some(x) && x@ == v@) by {
                        assert(p[k] == e@[k]);
                        if version_of(e@[k]) == v@ {
                            let a = choose|a: int| #![trigger keys0[a]] 0 <= a < keys0.len() && keys0[a]@ == version_of(e@[k]);
                        }
                    }
                    lemma_version_group_absent(p, q, v@);
                }
                keys.push(v.to_owned());
                let mut g: Vec<(i64, String, String)> = Vec::new();
                g.push(item);
                groups.push(g);
            }
            assert forall|a: int| #![trigger keys@[a]] 0 <= a < keys@.len() implies keys@[a]@ != target_version@
                && groups@[a]@ == version_group(p1, q1, keys@[a]@) by {
                if a < keys0.len() {
                    assert(keys@[a] == keys0[a]);
                    if a != j {
                        assert(groups@[a] == groups0[a]);
                    }
                }
            }
            assert forall|a: int, b: int| 0 <= a < keys@.len() && 0 <= b < keys@.len() && a != b
                implies #[trigger] keys@[a]@ != #[trigger] keys@[b]@ by {
                if a < keys0.len() {
                    assert(keys@[a] == keys0[a]);
                }
                if b < keys0.len() {
                    assert(keys@[b] == keys0[b]);
                }
            }
            assert forall|k: int| #![trigger e@[k]] 0 <= k < i + 1 && version_of(e@[k]) != target_version@
                implies exists|a: int| #![trigger keys@[a]] 0 <= a < keys@.len() && keys@[a]@ == version_of(e@[k]) by {
                if k == i {
                    assert(keys@[j as int]@ == version_of(e@[k]));
                } else {
                    let a = choose|a: int| #![trigger keys0[a]] 0 <= a < keys0.len() && keys0[a]@ == version_of(e@[k]);
                    assert(keys@[a] == keys0[a]);
                }
            }
        } else {
            assert forall|a: int| #![trigger keys@[a]] 0 <= a < keys@.len() implies keys@[a]@ != target_version@
                && groups@[a]@ == version_group(p1, q1, keys@[a]@) by {
            }
        }
        i = i + 1;
    }
    assert(e@.take(e@.len() as int) =~= e@);
    assert(created_iso@.take(e@.len() as int) =~= created_iso@);
    assert(i == e@.len());
    let mut out: Vec<(String, Vec<(String, String)>)> = Vec::new();
    let mut keys = keys;
    let mut groups = groups;
    let ghost keys_all = keys@;
    let ghost groups_all = groups@;
    while keys.len() > 0
        invariant
            keys@.len() == groups@.len(),
            keys@ == keys_all.subrange(0, keys@.len() as int),
            groups@ == groups_all.subrange(0, groups@.len() as int),
            keys_all.len() == groups_all.len(),
            out@.len() + keys@.len() == keys_all.len(),
            forall|a: int| 0 <= a < out@.len() ==> #[trigger] out@[a].0 == keys_all[keys_all.len() - 1 - a]
                && out@[a].1@ == ids_and_dates(sort_by_created(groups_all[keys_all.len() - 1 - a]@)),
        decreases keys@.len(),
    {
        let k = keys.pop().unwrap();
        let g = groups.pop().unwrap();
        let sorted = sorted_ids_and_dates(&g);
        out.push((k, sorted));
        assert(keys@ =~= keys_all.subrange(0, keys@.len() as int));
        assert(groups@ =~= groups_all.subrange(0, groups@.len() as int));
    }
    assert forall|x: int, y: int| 0 <= x < out@.len() && 0 <= y < out@.len() && x != y
        implies #[trigger] out@[x].0@ != #[trigger] out@[y].0@ by {
        assert(out@[x].0 == keys_all[keys_all.len() - 1 - x]);
        assert(out@[y].0 == keys_all[keys_all.len() - 1 - y]);
    }
    assert forall|x: int| #![trigger out@[x]] 0 <= x < out@.len() implies out@[x].0@ != target_version@
        && out@[x].1@ == ids_and_dates(sort_by_created(version_group(e@, created_iso@, out@[x].0@)))
        && out@[x].1@.len() > 0 by {
        let gx = groups_all[keys_all.len() - 1 - x]@;
        assert(keys_all[keys_all.len() - 1 - x] == keys_all[keys_all.len() - 1 - x]);
        assert(gx.len() > 0);
        law_sort_by_created(gx);
    }
    assert forall|k: int| #![trigger e@[k]] 0 <= k < e@.len() && version_of(e@[k]) != target_version@
        implies exists|x: int| #![trigger out@[x]] 0 <= x < out@.len() && out@[x].0@ == version_of(e@[k]) by {
        let a = choose|a: int| #![trigger keys_all[a]] 0 <= a < keys_all.len() && keys_all[a]@ == version_of(e@[k]);
        assert(out@[keys_all.len() - 1 - a].0 == keys_all[a]);
    }
    out
}

/// A non-empty group of version `v` comes from an event that carries `v`.
pub proof fn lemma_version_group_witness(e: Seq<NotificationEvent>, iso: Seq<String>, v: Seq<char>)
    requires
        version_group(e, iso, v).len() > 0,
    ensures
        exists|k: int| 0 <= k < e.len() && (#[trigger] e[k].api_version matches Some(x) && x@ == v),
    decreases e.len(),
{
    if e.len() > 0 && iso.len() > 0 {
        if e.last().api_version matches Some(x) && x@ == v {
            assert(e[e.len() - 1].api_version matches Some(x) && x@ == v);
        } else {
            lemma_version_group_witness(e.drop_last(), iso.drop_last(), v);
            let k = choose|k: int| 0 <= k < e.drop_last().len() && (#[trigger] e.drop_last()[k].api_version matches Some(x) && x@ == v);
            assert(e[k] == e.drop_last()[k]);
        }
    }
}

/// Whether every event carries the API version `target`.
pub open spec fn all_versions_are(e: Seq<NotificationEvent>, target: Seq<char>) -> bool {
    forall|k: int| 0 <= k < e.len() ==> version_of(#[trigger] e[k]) == target
}

/// Events are applied only when every one of them carries the API version that this
/// library's types follow; otherwise the events of other versions, grouped by version, are
/// the error.
pub fn check_correct_version(e: &Vec<NotificationEvent>, created_iso: &Vec<String>, target_version: &str) -> (r: Result<(), Vec<(String, Vec<(String, String)>)>>)
    requires
        created_iso@.len() == e@.len(),
        forall|k: int| 0 <= k < e@.len() ==> (#[trigger] e@[k]).api_version is Some,
    ensures
        r is Ok <==> all_versions_are(e@, target_version@),
        r matches Err(g) ==> g@.len() > 0 && groups_other_versions(g@, e@, created_iso@, target_version@),
{
    let g = get_incorrect_versions(e, created_iso, target_version);
    if g.len() == 0 {
        assert forall|k: int| 0 <= k < e@.len() implies version_of(#[trigger] e@[k]) == target_version@ by {
            if version_of(e@[k]) != target_version@ {
                assert(e@[k] == e@[k]);
            }
        }
        Ok(())
    } else {
        proof {
            let g0 = g@[0];
            assert(g0.1@ == ids_and_dates(sort_by_created(version_group(e@, created_iso@, g0.0@))) && g0.1@.len() > 0
                && g0.0@ != target_version@);
            law_sort_by_created(version_group(e@, created_iso@, g0.0@));
            lemma_version_group_witness(e@, created_iso@, g0.0@);
            let k = choose|k: int| 0 <= k < e@.len() && (#[trigger] e@[k].api_version matches Some(x) && x@ == g0.0@);
            assert(version_of(e@[k]) != target_version@);
        }
        Err(g)
    }
}

/// Puts the collected events (gathered newest first) in the order they happened.
pub fn events_oldest_first(o: Vec<NotificationEvent>) -> (r: Vec<NotificationEvent>)
    ensures
        r@ == o@.reverse(),
{
    vec_reversed(o)
}

/// The Stripe object type of an event's object, as the object's own `object` field names it;
/// `None` for an object of a type this library does not know.
pub open spec fn object_type_of(o: UniNotificationEventDataObject) -> Option<Seq<char>> {
    match o {
        UniNotificationEventDataObject::Account(x) => Some(match x.object {
            UniStrObject9D4B89::Account => "account"@,
        }),
        UniNotificationEventDataObject::PlatformFee(x) => Some(match x.object {
            UniStrObjectD09910::ApplicationFee => "application_fee"@,
        }),
        UniNotificationEventDataObject::Balance(x) => Some(match x.object {
            UniStrObjectD816FE::Balance => "balance"@,
        }),
        UniNotificationEventDataObject::AccountCapability(x) => Some(match x.object {
            UniStrObjectADCEF8::Capability => "capability"@,
        }),
        UniNotificationEventDataObject::Charge(x) => Some(match x.object {
            UniStrObjectA84719::Charge => "charge"@,
        }),
        UniNotificationEventDataObject::Session(x) => Some(match x.object {
            UniStrObject67F833::CheckoutDotSession => "checkout.session"@,
        }),
        UniNotificationEventDataObject::Coupon(x) => Some(match x.object {
            UniStrObjectDA5FE2::Coupon => "coupon"@,
        }),
        UniNotificationEventDataObject::CreditNote(x) => Some(match x.object {
            UniStrObjectD362B6::CreditNote => "credit_note"@,
        }),
        UniNotificationEventDataObject::Customer(x) => Some(match x.object {
            UniStrObject877A57::Customer => "customer"@,
        }),
        UniNotificationEventDataObject::Discount(x) => Some(match x.object {
            UniStrObjectE5311B::Discount => "discount"@,
        }),
        UniNotificationEventDataObject::Dispute(x) => Some(match x.object {
            UniStrObjectB4F7D7::Dispute => "dispute"@,
        }),
        UniNotificationEventDataObject::RadarEarlyFraudWarning(x) => Some(match x.object {
            UniStrObject08D5B1::RadarDotEarlyFraudWarning => "radar.early_fraud_warning"@,
        }),
        UniNotificationEventDataObject::UniPolymorphic70BAFA(x) => match x {
            UniPolymorphic70BAFA::BankAccount(a) => Some(match a.object {
                UniStrObject5F868A::BankAccount => "bank_account"@,
            }),
            UniPolymorphic70BAFA::Card(a) => Some(match a.object {
                UniStrObjectBAC623::Card => "card"@,
            }),
        },
        UniNotificationEventDataObject::FeeRefund(x) => Some(match x.object {
            UniStrObjectC7795E::FeeRefund => "fee_refund"@,
        }),
        UniNotificationEventDataObject::File(x) => Some(match x.object {
            UniStrObjectE55DBC::File => "file"@,
        }),
        UniNotificationEventDataObject::Invoice(x) => Some(match x.object {
            UniStrObject5E6A4A::Invoice => "invoice"@,
        }),
        UniNotificationEventDataObject::InvoiceItem(x) => Some(match x.object {
            UniStrObjectA93110::Invoiceitem => "invoiceitem"@,
        }),
        UniNotificationEventDataObject::IssuingAuthorization(x) => Some(match x.object {
            UniStrObjectE07375::IssuingDotAuthorization => "issuing.authorization"@,
        }),
        UniNotificationEventDataObject::IssuingCard(x) => Some(match x.object {
            UniStrObjectDBA102::IssuingDotCard => "issuing.card"@,
        }),
        UniNotificationEventDataObject::IssuingCardholder(x) => Some(match x.object {
            UniStrObject9677B5::IssuingDotCardholder => "issuing.cardholder"@,
        }),
        UniNotificationEventDataObject::IssuingDispute(x) => Some(match x.object {
            UniStrObjectB5E468::IssuingDotDispute => "issuing.dispute"@,
        }),
        UniNotificationEventDataObject::IssuingTransaction(x) => Some(match x.object {
            UniStrObjectE479DB::IssuingDotTransaction => "issuing.transaction"@,
        }),
        UniNotificationEventDataObject::Mandate(x) => Some(match x.object {
            UniStrObject166EB7::Mandate => "mandate"@,
        }),
        UniNotificationEventDataObject::Order(x) => Some(match x.object {
            UniStrObject43B2E2::Order => "order"@,
        }),
        UniNotificationEventDataObject::OrderReturn(x) => Some(match x.object {
            UniStrObject765808::OrderReturn => "order_return"@,
        }),
        UniNotificationEventDataObject::PaymentIntent(x) => Some(match x.object {
            UniStrObjectD4FACD::PaymentIntent => "payment_intent"@,
        }),
        UniNotificationEventDataObject::PaymentMethod(x) => Some(match x.object {
            UniStrObject8D07E7::PaymentMethod => "payment_method"@,
        }),
        UniNotificationEventDataObject::Payout(x) => Some(match x.object {
            UniStrObject736393::Payout => "payout"@,
        }),
        UniNotificationEventDataObject::Person(x) => Some(match x.object {
            UniStrObjectAFEDA0::Person => "person"@,
        }),
        UniNotificationEventDataObject::Plan(x) => Some(match x.object {
            UniStrObjectB95344::Plan => "plan"@,
        }),
        UniNotificationEventDataObject::Price(x) => Some(match x.object {
            UniStrObjectDB9846::Price => "price"@,
        }),
        UniNotificationEventDataObject::Product(x) => Some(match x.object {
            UniStrObject04CB4A::Product => "product"@,
        }),
        UniNotificationEventDataObject::PromotionCode(x) => Some(match x.object {
            UniStrObjectB3640E::PromotionCode => "promotion_code"@,
        }),
        UniNotificationEventDataObject::TransferRecipient(x) => Some(match x.object {
            UniStrObject00DC3E::Recipient => "recipient"@,
        }),
        UniNotificationEventDataObject::Refund(x) => Some(match x.object {
            UniStrObject95EBF9::Refund => "refund"@,
        }),
        UniNotificationEventDataObject::ReportingReportRun(x) => Some(match x.object {
            UniStrObject24E2D4::ReportingDotReportRun => "reporting.report_run"@,
        }),
        UniNotificationEventDataObject::ReportingReportType(x) => Some(match x.object {
            UniStrObjectCB017F::ReportingDotReportType => "reporting.report_type"@,
        }),
        UniNotificationEventDataObject::RadarReview(x) => Some(match x.object {
            UniStrObject31593E::Review => "review"@,
        }),
        UniNotificationEventDataObject::ScheduledQueryRun(x) => Some(match x.object {
            UniStrObject7F3E77::ScheduledQueryRun => "scheduled_query_run"@,
        }),
        UniNotificationEventDataObject::SetupIntent(x) => Some(match x.object {
            UniStrObjectE09BD0::SetupIntent => "setup_intent"@,
        }),
        UniNotificationEventDataObject::Sku(x) => Some(match x.object {
            UniStrObject97B705::Sku => "sku"@,
        }),
        UniNotificationEventDataObject::Source(x) => Some(match x.object {
            UniStrObjectF7EF2D::Source => "source"@,
        }),
        UniNotificationEventDataObject::SourceTransaction(x) => Some(match x.object {
            UniStrObject710D46::SourceTransaction => "source_transaction"@,
        }),
        UniNotificationEventDataObject::Subscription(x) => Some(match x.object {
            UniStrObject59F834::Subscription => "subscription"@,
        }),
        UniNotificationEventDataObject::SubscriptionSchedule(x) => Some(match x.object {
            UniStrObject2726CE::SubscriptionSchedule => "subscription_schedule"@,
        }),
        UniNotificationEventDataObject::TaxId(x) => Some(match x.object {
            UniStrObject397A62::TaxId => "tax_id"@,
        }),
        UniNotificationEventDataObject::TaxRate(x) => Some(match x.object {
            UniStrObjectC1E2CE::TaxRate => "tax_rate"@,
        }),
        UniNotificationEventDataObject::Topup(x) => Some(match x.object {
            UniStrObjectBACBB3::Topup => "topup"@,
        }),
        UniNotificationEventDataObject::Transfer(x) => Some(match x.object {
            UniStrObjectE37CA2::Transfer => "transfer"@,
        }),
        UniNotificationEventDataObject::UnknownEvent(_) => None,
    }
}

/// The Stripe object type that a kind of event object stands for; `None` for an unknown one.
pub open spec fn kind_object_type(k: EventObjectKind) -> Option<Seq<char>> {
    match k {
        EventObjectKind::Account => Some("account"@),
        EventObjectKind::PlatformFee => Some("application_fee"@),
        EventObjectKind::Balance => Some("balance"@),
        EventObjectKind::AccountCapability => Some("capability"@),
        EventObjectKind::Charge => Some("charge"@),
        EventObjectKind::Session => Some("checkout.session"@),
        EventObjectKind::Coupon => Some("coupon"@),
        EventObjectKind::CreditNote => Some("credit_note"@),
        EventObjectKind::Customer => Some("customer"@),
        EventObjectKind::Discount => Some("discount"@),
        EventObjectKind::Dispute => Some("dispute"@),
        EventObjectKind::RadarEarlyFraudWarning => Some("radar.early_fraud_warning"@),
        EventObjectKind::BankAccount => Some("bank_account"@),
        EventObjectKind::Card => Some("card"@),
        EventObjectKind::FeeRefund => Some("fee_refund"@),
        EventObjectKind::File => Some("file"@),
        EventObjectKind::Invoice => Some("invoice"@),
        EventObjectKind::InvoiceItem => Some("invoiceitem"@),
        EventObjectKind::IssuingAuthorization => Some("issuing.authorization"@),
        EventObjectKind::IssuingCard => Some("issuing.card"@),
        EventObjectKind::IssuingCardholder => Some("issuing.cardholder"@),
        EventObjectKind::IssuingDispute => Some("issuing.dispute"@),
        EventObjectKind::IssuingTransaction => Some("issuing.transaction"@),
        EventObjectKind::Mandate => Some("mandate"@),
        EventObjectKind::Order => Some("order"@),
        EventObjectKind::OrderReturn => Some("order_return"@),
        EventObjectKind::PaymentIntent => Some("payment_intent"@),
        EventObjectKind::PaymentMethod => Some("payment_method"@),
        EventObjectKind::Payout => Some("payout"@),
        EventObjectKind::Person => Some("person"@),
        EventObjectKind::Plan => Some("plan"@),
        EventObjectKind::Price => Some("price"@),
        EventObjectKind::Product => Some("product"@),
        EventObjectKind::PromotionCode => Some("promotion_code"@),
        EventObjectKind::TransferRecipient => Some("recipient"@),
        EventObjectKind::Refund => Some("refund"@),
        EventObjectKind::ReportingReportRun => Some("reporting.report_run"@),
        EventObjectKind::ReportingReportType => Some("reporting.report_type"@),
        EventObjectKind::RadarReview => Some("review"@),
        EventObjectKind::ScheduledQueryRun => Some("scheduled_query_run"@),
        EventObjectKind::SetupIntent => Some("setup_intent"@),
        EventObjectKind::Sku => Some("sku"@),
        EventObjectKind::Source => Some("source"@),
        EventObjectKind::SourceTransaction => Some("source_transaction"@),
        EventObjectKind::Subscription => Some("subscription"@),
        EventObjectKind::SubscriptionSchedule => Some("subscription_schedule"@),
        EventObjectKind::TaxId => Some("tax_id"@),
        EventObjectKind::TaxRate => Some("tax_rate"@),
        EventObjectKind::Topup => Some("topup"@),
        EventObjectKind::Transfer => Some("transfer"@),
        EventObjectKind::UnknownEvent => None,
    }
}

/// The Stripe object type whose rows the table holds.
pub open spec fn table_object_type(t: TableWrite) -> Seq<char> {
    match t {
        TableWrite::Charge => "charge"@,
        TableWrite::Coupon => "coupon"@,
        TableWrite::CreditNote => "credit_note"@,
        TableWrite::Customer => "customer"@,
        TableWrite::Discount => "discount"@,
        TableWrite::Dispute => "dispute"@,
        TableWrite::BankAccount => "bank_account"@,
        TableWrite::Card => "card"@,
        TableWrite::Invoice => "invoice"@,
        TableWrite::InvoiceItem => "invoiceitem"@,
        TableWrite::Order => "order"@,
        TableWrite::OrderReturn => "order_return"@,
        TableWrite::PaymentIntent => "payment_intent"@,
        TableWrite::PaymentMethod => "payment_method"@,
        TableWrite::Price => "price"@,
        TableWrite::Product => "product"@,
        TableWrite::PromotionCode => "promotion_code"@,
        TableWrite::Refund => "refund"@,
        TableWrite::SetupIntent => "setup_intent"@,
        TableWrite::Sku => "sku"@,
        TableWrite::Source => "source"@,
        TableWrite::Subscription => "subscription"@,
        TableWrite::SubscriptionSchedule => "subscription_schedule"@,
        TableWrite::TaxId => "tax_id"@,
        TableWrite::TaxRate => "tax_rate"@,
    }
}

/// The kind of an event's object is the object's own type: the kind stands for the Stripe
/// object type that the object's `object` field names.
pub proof fn law_object_kind_is_object_type(o: UniNotificationEventDataObject)
    ensures
        kind_object_type(object_kind_of(o)) == object_type_of(o),
{
}

/// An event object is written to the table that holds objects of its own type, and every
/// table is written by the events that carry objects of its type.
pub proof fn law_table_holds_kind_type(k: EventObjectKind)
    ensures
        table_of(k) matches Some(t) ==> kind_object_type(k) == Some(table_object_type(t)),
        forall|t: TableWrite| #![trigger table_object_type(t)] exists|j: EventObjectKind| #![trigger table_of(j)]
            kind_object_type(j) == Some(table_object_type(t)) && table_of(j) == Some(t),
{
    assert forall|t: TableWrite| #![trigger table_object_type(t)] exists|j: EventObjectKind| #![trigger table_of(j)]
        kind_object_type(j) == Some(table_object_type(t)) && table_of(j) == Some(t) by {
        match t {
            TableWrite::Charge => {
                assert(table_of(EventObjectKind::Charge) == Some(t));
                assert(kind_object_type(EventObjectKind::Charge) == Some(table_object_type(t)));
            },
            TableWrite::Coupon => {
                assert(table_of(EventObjectKind::Coupon) == Some(t));
                assert(kind_object_type(EventObjectKind::Coupon) == Some(table_object_type(t)));
            },
            TableWrite::CreditNote => {
                assert(table_of(EventObjectKind::CreditNote) == Some(t));
                assert(kind_object_type(EventObjectKind::CreditNote) == Some(table_object_type(t)));
            },
            TableWrite::Customer => {
                assert(table_of(EventObjectKind::Customer) == Some(t));
                assert(kind_object_type(EventObjectKind::Customer) == Some(table_object_type(t)));
            },
            TableWrite::Discount => {
                assert(table_of(EventObjectKind::Discount) == Some(t));
                assert(kind_object_type(EventObjectKind::Discount) == Some(table_object_type(t)));
            },
            TableWrite::Dispute => {
                assert(table_of(EventObjectKind::Dispute) == Some(t));
                assert(kind_object_type(EventObjectKind::Dispute) == Some(table_object_type(t)));
            },
            TableWrite::BankAccount => {
                assert(table_of(EventObjectKind::BankAccount) == Some(t));
                assert(kind_object_type(EventObjectKind::BankAccount) == Some(table_object_type(t)));
            },
            TableWrite::Card => {
                assert(table_of(EventObjectKind::Card) == Some(t));
                assert(kind_object_type(EventObjectKind::Card) == Some(table_object_type(t)));
            },
            TableWrite::Invoice => {
                assert(table_of(EventObjectKind::Invoice) == Some(t));
                assert(kind_object_type(EventObjectKind::Invoice) == Some(table_object_type(t)));
            },
            TableWrite::InvoiceItem => {
                assert(table_of(EventObjectKind::InvoiceItem) == Some(t));
                assert(kind_object_type(EventObjectKind::InvoiceItem) == Some(table_object_type(t)));
            },
            TableWrite::Order => {
                assert(table_of(EventObjectKind::Order) == Some(t));
                assert(kind_object_type(EventObjectKind::Order) == Some(table_object_type(t)));
            },
            TableWrite::OrderReturn => {
                assert(table_of(EventObjectKind::OrderReturn) == Some(t));
                assert(kind_object_type(EventObjectKind::OrderReturn) == Some(table_object_type(t)));
            },
            TableWrite::PaymentIntent => {
                assert(table_of(EventObjectKind::PaymentIntent) == Some(t));
                assert(kind_object_type(EventObjectKind::PaymentIntent) == Some(table_object_type(t)));
            },
            TableWrite::PaymentMethod => {
                assert(table_of(EventObjectKind::PaymentMethod) == Some(t));
                assert(kind_object_type(EventObjectKind::PaymentMethod) == Some(table_object_type(t)));
            },
            TableWrite::Price => {
                assert(table_of(EventObjectKind::Price) == Some(t));
                assert(kind_object_type(EventObjectKind::Price) == Some(table_object_type(t)));
            },
            TableWrite::Product => {
                assert(table_of(EventObjectKind::Product) == Some(t));
                assert(kind_object_type(EventObjectKind::Product) == Some(table_object_type(t)));
            },
            TableWrite::PromotionCode => {
                assert(table_of(EventObjectKind::PromotionCode) == Some(t));
                assert(kind_object_type(EventObjectKind::PromotionCode) == Some(table_object_type(t)));
            },
            TableWrite::Refund => {
                assert(table_of(EventObjectKind::Refund) == Some(t));
                assert(kind_object_type(EventObjectKind::Refund) == Some(table_object_type(t)));
            },
            TableWrite::SetupIntent => {
                assert(table_of(EventObjectKind::SetupIntent) == Some(t));
                assert(kind_object_type(EventObjectKind::SetupIntent) == Some(table_object_type(t)));
            },
            TableWrite::Sku => {
                assert(table_of(EventObjectKind::Sku) == Some(t));
                assert(kind_object_type(EventObjectKind::Sku) == Some(table_object_type(t)));
            },
            TableWrite::Source => {
                assert(table_of(EventObjectKind::Source) == Some(t));
                assert(kind_object_type(EventObjectKind::Source) == Some(table_object_type(t)));
            },
            TableWrite::Subscription => {
                assert(table_of(EventObjectKind::Subscription) == Some(t));
                assert(kind_object_type(EventObjectKind::Subscription) == Some(table_object_type(t)));
            },
            TableWrite::SubscriptionSchedule => {
                assert(table_of(EventObjectKind::SubscriptionSchedule) == Some(t));
                assert(kind_object_type(EventObjectKind::SubscriptionSchedule) == Some(table_object_type(t)));
            },
            TableWrite::TaxId => {
                assert(table_of(EventObjectKind::TaxId) == Some(t));
                assert(kind_object_type(EventObjectKind::TaxId) == Some(table_object_type(t)));
            },
            TableWrite::TaxRate => {
                assert(table_of(EventObjectKind::TaxRate) == Some(t));
                assert(kind_object_type(EventObjectKind::TaxRate) == Some(table_object_type(t)));
            },
        }
    }
}

/// Applying an event that writes a table writes the table of the event object's own type.
pub proof fn law_event_writes_its_object_table(e: NotificationEvent)
    requires
        write_applicable(e),
    ensures
        event_plan(e, true) matches Some(w) && match w.step {
            EventStep::Upsert(t) | EventStep::Delete(t) => object_type_of(*e.data.object) == Some(table_object_type(t)),
            EventStep::SkipNotDataWrite => false,
        },
{
    law_object_kind_is_object_type(*e.data.object);
    law_table_holds_kind_type(object_kind_of(*e.data.object));
}

/// An event deletes its object's row exactly when its type ends in `.deleted`, except the
/// four types that detach, end or invalidate an object that stays queryable.
pub proof fn law_delete_types(t: Seq<char>)
    ensures
        is_delete_type(t) <==> seq_ends_with(t, ".deleted"@) && t != "customer.source.deleted"@
            && t != "customer.subscription.deleted"@ && t != "customer.discount.deleted"@ && t != "coupon.deleted"@,
{
    let ex = delete_exceptions();
    if ex.contains(t) {
        let i = choose|i: int| 0 <= i < ex.len() && ex[i] == t;
        assert(i == 0 || i == 1 || i == 2 || i == 3);
    }
    if t == "customer.source.deleted"@ {
        assert(ex[0] == t);
    }
    if t == "customer.subscription.deleted"@ {
        assert(ex[1] == t);
    }
    if t == "customer.discount.deleted"@ {
        assert(ex[2] == t);
    }
    if t == "coupon.deleted"@ {
        assert(ex[3] == t);
    }
}

} // verus!
