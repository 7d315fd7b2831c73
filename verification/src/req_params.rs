use vstd::prelude::*;
use std::collections::HashMap;
use crate::paging::{PageParam};

verus! {

/// String-keyed map as sent by the Stripe API.
pub type AttributesD48725 = HashMap<String, String>;

/// String-keyed map as sent by the Stripe API.
pub type Metadata = HashMap<String, String>;

/// Stripe API location: `credit_note.reason`, `/v1/credit_notes/preview.get.GetCreditNotesPreview.reason`, `/v1/credit_notes/preview/lines.get.GetCreditNotesPreviewLines.reason`.
#[derive(Debug, Clone)]
pub enum UniStrReasonAB5E91 {
    /// JSON value: `"duplicate"`.
    Duplicate,
    /// JSON value: `"fraudulent"`.
    Fraudulent,
    /// JSON value: `"order_change"`.
    OrderChange,
    /// JSON value: `"product_unsatisfactory"`.
    ProductUnsatisfactory,
}

/// Stripe API location: `credit_note_line_item.type`, `/v1/credit_notes/preview.get.GetCreditNotesPreview.lines.items.type`, `/v1/credit_notes/preview/lines.get.GetCreditNotesPreviewLines.lines.items.type`.
#[derive(Debug, Clone)]
pub enum UniStrType00DF75 {
    /// JSON value: `"custom_line_item"`.
    CustomLineItem,
    /// JSON value: `"invoice_line_item"`.
    InvoiceLineItem,
}

/// Stripe API location: `customer_acceptance.type`, `/v1/terminal/readers.get.GetTerminalReaders.status`.
#[derive(Debug, Clone)]
pub enum UniStrTypeD153A1 {
    /// JSON value: `"offline"`.
    Offline,
    /// JSON value: `"online"`.
    Online,
}

/// Stripe API location: `invoice.collection_method`, `subscription.collection_method`, `subscription_schedule_phase_configuration.collection_method` (and 3 more).
#[derive(Debug, Clone)]
pub enum UniStrCollectionMethod {
    /// JSON value: `"charge_automatically"`.
    ChargeAutomatically,
    /// JSON value: `"send_invoice"`.
    SendInvoice,
}

/// Stripe API location: `issuing.authorization.status`, `/v1/issuing/authorizations.get.GetIssuingAuthorizations.status`.
#[derive(Debug, Clone)]
pub enum UniStrStatus957169 {
    /// JSON value: `"closed"`.
    Closed,
    /// JSON value: `"pending"`.
    Pending,
    /// JSON value: `"reversed"`.
    Reversed,
}

/// Stripe API location: `issuing.card.status`, `/v1/issuing/cards.get.GetIssuingCards.status`.
#[derive(Debug, Clone)]
pub enum UniStrStatusA4138B {
    /// JSON value: `"active"`.
    Active,
    /// JSON value: `"canceled"`.
    Canceled,
    /// JSON value: `"inactive"`.
    Inactive,
}

/// Stripe API location: `issuing.card.type`, `/v1/issuing/cards.get.GetIssuingCards.type`.
#[derive(Debug, Clone)]
pub enum UniStrTypeA467AF {
    /// JSON value: `"physical"`.
    Physical,
    /// JSON value: `"virtual"`.
    Virtual,
}

/// Stripe API location: `issuing.cardholder.status`, `/v1/issuing/cardholders.get.GetIssuingCardholders.status`.
#[derive(Debug, Clone)]
pub enum UniStrStatusD5D208 {
    /// JSON value: `"active"`.
    Active,
    /// JSON value: `"blocked"`.
    Blocked,
    /// JSON value: `"inactive"`.
    Inactive,
}

/// Stripe API location: `issuing.cardholder.type`, `payment_method_details_ach_debit.account_holder_type`, `/v1/issuing/cardholders.get.GetIssuingCardholders.type`.
#[derive(Debug, Clone)]
pub enum UniStrType947A77 {
    /// JSON value: `"company"`.
    Company,
    /// JSON value: `"individual"`.
    Individual,
}

/// Stripe API location: `issuing.dispute.status`, `/v1/issuing/disputes.get.GetIssuingDisputes.status`.
#[derive(Debug, Clone)]
pub enum UniStrStatusE71251 {
    /// JSON value: `"expired"`.
    Expired,
    /// JSON value: `"lost"`.
    Lost,
    /// JSON value: `"submitted"`.
    Submitted,
    /// JSON value: `"unsubmitted"`.
    Unsubmitted,
    /// JSON value: `"won"`.
    Won,
}

/// Stripe API location: `plan.interval`, `recurring.interval`, `subscription_pending_invoice_item_interval.interval` (and 3 more).
#[derive(Debug, Clone)]
pub enum UniStrInterval {
    /// JSON value: `"day"`.
    Day,
    /// JSON value: `"month"`.
    Month,
    /// JSON value: `"week"`.
    Week,
    /// JSON value: `"year"`.
    Year,
}

/// Stripe API location: `plan.usage_type`, `recurring.usage_type`, `/v1/prices.get.GetPrices.recurring.usage_type`.
#[derive(Debug, Clone)]
pub enum UniStrUsageType {
    /// JSON value: `"licensed"`.
    Licensed,
    /// JSON value: `"metered"`.
    Metered,
}

/// Stripe API location: `price.type`, `/v1/prices.get.GetPrices.type`.
#[derive(Debug, Clone)]
pub enum UniStrTypeFC33AE {
    /// JSON value: `"one_time"`.
    OneTime,
    /// JSON value: `"recurring"`.
    Recurring,
}

/// Stripe API location: `subscription_schedule_phase_configuration.proration_behavior`, `/v1/invoices/upcoming.get.GetInvoicesUpcoming.subscription_proration_behavior`, `/v1/invoices/upcoming/lines.get.GetInvoicesUpcomingLines.subscription_proration_behavior`.
#[derive(Debug, Clone)]
pub enum UniStrProrationBehavior {
    /// JSON value: `"always_invoice"`.
    AlwaysInvoice,
    /// JSON value: `"create_prorations"`.
    CreateProrations,
    /// JSON value: `"none"`.
    NoneX,
}

/// Stripe API location: `terminal.reader.device_type`, `/v1/terminal/readers.get.GetTerminalReaders.device_type`.
#[derive(Debug, Clone)]
pub enum UniStrDeviceType {
    /// JSON value: `"bbpos_chipper2x"`.
    BbposChipper2x,
    /// JSON value: `"verifone_P400"`.
    VerifoneP400,
}

/// Stripe API location: `/v1/3d_secure/{three_d_secure}.get.Get3dSecureThreeDSecure`, `/v1/account.get.GetAccount`, `/v1/account/bank_accounts/{id}.get.GetAccountBankAccountsId` (and 82 more).
#[derive(Debug, Clone)]
pub struct GetAccount {
    pub expand: Option<Vec<String>>,
}

/// Stripe API location: `/v1/account/external_accounts.get.GetAccountExternalAccounts`, `/v1/accounts/{account}/external_accounts.get.GetAccountsAccountExternalAccounts`, `/v1/charges/{charge}/refunds.get.GetChargesChargeRefunds` (and 2 more).
#[derive(Debug, Clone)]
pub struct GetChargesChargeRefunds {
    pub ending_before: Option<String>,
    pub expand: Option<Vec<String>>,
    pub limit: Option<i64>,
    pub starting_after: Option<String>,
}

impl PageParam for GetChargesChargeRefunds {
    open spec fn before_cursor(&self) -> Option<String> {
        self.ending_before
    }

    open spec fn after_cursor(&self) -> Option<String> {
        self.starting_after
    }

    open spec fn same_query(&self, other: &Self) -> bool {
        self.expand == other.expand && self.limit == other.limit
    }

    proof fn lemma_same_query_is_equivalence(a: &Self, b: &Self, c: &Self) {
    }

    proof fn lemma_same_query_and_cursors(a: &Self, b: &Self) {
    }

    fn set_before(&mut self, s: String) {
        self.ending_before = Some(s);
        self.starting_after = None;
    }

    fn set_after(&mut self, s: String) {
        self.starting_after = Some(s);
        self.ending_before = None;
    }
}

/// Stripe API location: `/v1/account/people.get.GetAccountPeople`, `/v1/account/persons.get.GetAccountPersons`, `/v1/accounts/{account}/people.get.GetAccountsAccountPeople` (and 1 more).
#[derive(Debug, Clone)]
pub struct GetAccountPeople {
    pub ending_before: Option<String>,
    pub expand: Option<Vec<String>>,
    pub limit: Option<i64>,
    pub relationship: Option<AllPeopleRelationshipSpecs>,
    pub starting_after: Option<String>,
}

impl PageParam for GetAccountPeople {
    open spec fn before_cursor(&self) -> Option<String> {
        self.ending_before
    }

    open spec fn after_cursor(&self) -> Option<String> {
        self.starting_after
    }

    open spec fn same_query(&self, other: &Self) -> bool {
        self.expand == other.expand && self.limit == other.limit && self.relationship == other.relationship
    }

    proof fn lemma_same_query_is_equivalence(a: &Self, b: &Self, c: &Self) {
    }

    proof fn lemma_same_query_and_cursors(a: &Self, b: &Self) {
    }

    fn set_before(&mut self, s: String) {
        self.ending_before = Some(s);
        self.starting_after = None;
    }

    fn set_after(&mut self, s: String) {
        self.starting_after = Some(s);
        self.ending_before = None;
    }
}

/// Stripe API location: `/v1/account/people.get.GetAccountPeople.relationship`, `/v1/account/persons.get.GetAccountPersons.relationship`, `/v1/accounts/{account}/people.get.GetAccountsAccountPeople.relationship` (and 1 more).
#[derive(Debug, Clone)]
pub struct AllPeopleRelationshipSpecs {
    pub director: Option<bool>,
    pub executive: Option<bool>,
    pub owner: Option<bool>,
    pub representative: Option<bool>,
}

/// Stripe API location: `/v1/accounts.get.GetAccounts`.
#[derive(Debug, Clone)]
pub struct GetAccounts {
    pub created: Option<UniCreated>,
    pub ending_before: Option<String>,
    pub expand: Option<Vec<String>>,
    pub limit: Option<i64>,
    pub starting_after: Option<String>,
}

impl PageParam for GetAccounts {
    open spec fn before_cursor(&self) -> Option<String> {
        self.ending_before
    }

    open spec fn after_cursor(&self) -> Option<String> {
        self.starting_after
    }

    open spec fn same_query(&self, other: &Self) -> bool {
        self.created == other.created && self.expand == other.expand && self.limit == other.limit
    }

    proof fn lemma_same_query_is_equivalence(a: &Self, b: &Self, c: &Self) {
    }

    proof fn lemma_same_query_and_cursors(a: &Self, b: &Self) {
    }

    fn set_before(&mut self, s: String) {
        self.ending_before = Some(s);
        self.starting_after = None;
    }

    fn set_after(&mut self, s: String) {
        self.starting_after = Some(s);
        self.ending_before = None;
    }
}

/// Stripe API location: `/v1/accounts.get.GetAccounts.created`, `/v1/application_fees.get.GetApplicationFees.created`, `/v1/balance/history.get.GetBalanceHistory.available_on` (and 51 more).
/// Encoded in JSON without a tag: the variant is chosen by the shape of the value.
#[derive(Debug, Clone)]
pub enum UniCreated {
    RangeQuerySpecs(RangeQuerySpecs),
    I64(i64),
}

/// Stripe API location: `/v1/accounts.get.GetAccounts.created.anyOf.0`, `/v1/application_fees.get.GetApplicationFees.created.anyOf.0`, `/v1/balance/history.get.GetBalanceHistory.available_on.anyOf.0` (and 51 more).
#[derive(Debug, Clone)]
pub struct RangeQuerySpecs {
    pub gt: Option<i64>,
    pub gte: Option<i64>,
    pub lt: Option<i64>,
    pub lte: Option<i64>,
}

/// Stripe API location: `/v1/apple_pay/domains.get.GetApplePayDomains`.
#[derive(Debug, Clone)]
pub struct GetApplePayDomains {
    pub domain_name: Option<String>,
    pub ending_before: Option<String>,
    pub expand: Option<Vec<String>>,
    pub limit: Option<i64>,
    pub starting_after: Option<String>,
}

impl PageParam for GetApplePayDomains {
    open spec fn before_cursor(&self) -> Option<String> {
        self.ending_before
    }

    open spec fn after_cursor(&self) -> Option<String> {
        self.starting_after
    }

    open spec fn same_query(&self, other: &Self) -> bool {
        self.domain_name == other.domain_name && self.expand == other.expand && self.limit == other.limit
    }

    proof fn lemma_same_query_is_equivalence(a: &Self, b: &Self, c: &Self) {
    }

    proof fn lemma_same_query_and_cursors(a: &Self, b: &Self) {
    }

    fn set_before(&mut self, s: String) {
        self.ending_before = Some(s);
        self.starting_after = None;
    }

    fn set_after(&mut self, s: String) {
        self.starting_after = Some(s);
        self.ending_before = None;
    }
}

/// Stripe API location: `/v1/application_fees.get.GetApplicationFees`.
#[derive(Debug, Clone)]
pub struct GetApplicationFees {
    pub created: Option<UniCreated>,
    pub charge: Option<String>,
    pub ending_before: Option<String>,
    pub expand: Option<Vec<String>>,
    pub limit: Option<i64>,
    pub starting_after: Option<String>,
}

impl PageParam for GetApplicationFees {
    open spec fn before_cursor(&self) -> Option<String> {
        self.ending_before
    }

    open spec fn after_cursor(&self) -> Option<String> {
        self.starting_after
    }

    open spec fn same_query(&self, other: &Self) -> bool {
        self.created == other.created && self.charge == other.charge && self.expand == other.expand && self.limit == other.limit
    }

    proof fn lemma_same_query_is_equivalence(a: &Self, b: &Self, c: &Self) {
    }

    proof fn lemma_same_query_and_cursors(a: &Self, b: &Self) {
    }

    fn set_before(&mut self, s: String) {
        self.ending_before = Some(s);
        self.starting_after = None;
    }

    fn set_after(&mut self, s: String) {
        self.starting_after = Some(s);
        self.ending_before = None;
    }
}

/// Stripe API location: `/v1/application_fees/{id}/refunds.get.GetApplicationFeesIdRefunds`, `/v1/checkout/sessions/{session}/line_items.get.GetCheckoutSessionsSessionLineItems`, `/v1/country_specs.get.GetCountrySpecs` (and 12 more).
#[derive(Debug, Clone)]
pub struct GetCountrySpecs {
    pub ending_before: Option<String>,
    pub expand: Option<Vec<String>>,
    pub limit: Option<i64>,
    pub starting_after: Option<String>,
}

impl PageParam for GetCountrySpecs {
    open spec fn before_cursor(&self) -> Option<String> {
        self.ending_before
    }

    open spec fn after_cursor(&self) -> Option<String> {
        self.starting_after
    }

    open spec fn same_query(&self, other: &Self) -> bool {
        self.expand == other.expand && self.limit == other.limit
    }

    proof fn lemma_same_query_is_equivalence(a: &Self, b: &Self, c: &Self) {
    }

    proof fn lemma_same_query_and_cursors(a: &Self, b: &Self) {
    }

    fn set_before(&mut self, s: String) {
        self.ending_before = Some(s);
        self.starting_after = None;
    }

    fn set_after(&mut self, s: String) {
        self.starting_after = Some(s);
        self.ending_before = None;
    }
}

/// Stripe API location: `/v1/balance/history.get.GetBalanceHistory`, `/v1/balance_transactions.get.GetBalanceTransactions`.
#[derive(Debug, Clone)]
pub struct GetBalanceHistory {
    /// JSON key: `type`.
    pub type_x: Option<String>,
    pub available_on: Option<UniCreated>,
    pub created: Option<UniCreated>,
    pub currency: Option<String>,
    pub ending_before: Option<String>,
    pub expand: Option<Vec<String>>,
    pub limit: Option<i64>,
    pub payout: Option<String>,
    pub source: Option<String>,
    pub starting_after: Option<String>,
}

impl PageParam for GetBalanceHistory {
    open spec fn before_cursor(&self) -> Option<String> {
        self.ending_before
    }

    open spec fn after_cursor(&self) -> Option<String> {
        self.starting_after
    }

    open spec fn same_query(&self, other: &Self) -> bool {
        self.type_x == other.type_x && self.available_on == other.available_on && self.created == other.created && self.currency == other.currency && self.expand == other.expand && self.limit == other.limit && self.payout == other.payout && self.source == other.source
    }

    proof fn lemma_same_query_is_equivalence(a: &Self, b: &Self, c: &Self) {
    }

    proof fn lemma_same_query_and_cursors(a: &Self, b: &Self) {
    }

    fn set_before(&mut self, s: String) {
        self.ending_before = Some(s);
        self.starting_after = None;
    }

    fn set_after(&mut self, s: String) {
        self.starting_after = Some(s);
        self.ending_before = None;
    }
}

/// Stripe API location: `/v1/bitcoin/receivers.get.GetBitcoinReceivers`.
#[derive(Debug, Clone)]
pub struct GetBitcoinReceivers {
    pub active: Option<bool>,
    pub ending_before: Option<String>,
    pub expand: Option<Vec<String>>,
    pub filled: Option<bool>,
    pub limit: Option<i64>,
    pub starting_after: Option<String>,
    pub uncaptured_funds: Option<bool>,
}

impl PageParam for GetBitcoinReceivers {
    open spec fn before_cursor(&self) -> Option<String> {
        self.ending_before
    }

    open spec fn after_cursor(&self) -> Option<String> {
        self.starting_after
    }

    open spec fn same_query(&self, other: &Self) -> bool {
        self.active == other.active && self.expand == other.expand && self.filled == other.filled && self.limit == other.limit && self.uncaptured_funds == other.uncaptured_funds
    }

    proof fn lemma_same_query_is_equivalence(a: &Self, b: &Self, c: &Self) {
    }

    proof fn lemma_same_query_and_cursors(a: &Self, b: &Self) {
    }

    fn set_before(&mut self, s: String) {
        self.ending_before = Some(s);
        self.starting_after = None;
    }

    fn set_after(&mut self, s: String) {
        self.starting_after = Some(s);
        self.ending_before = None;
    }
}

/// Stripe API location: `/v1/bitcoin/receivers/{receiver}/transactions.get.GetBitcoinReceiversReceiverTransactions`.
#[derive(Debug, Clone)]
pub struct GetBitcoinReceiversReceiverTransactions {
    pub customer: Option<String>,
    pub ending_before: Option<String>,
    pub expand: Option<Vec<String>>,
    pub limit: Option<i64>,
    pub starting_after: Option<String>,
}

impl PageParam for GetBitcoinReceiversReceiverTransactions {
    open spec fn before_cursor(&self) -> Option<String> {
        self.ending_before
    }

    open spec fn after_cursor(&self) -> Option<String> {
        self.starting_after
    }

    open spec fn same_query(&self, other: &Self) -> bool {
        self.customer == other.customer && self.expand == other.expand && self.limit == other.limit
    }

    proof fn lemma_same_query_is_equivalence(a: &Self, b: &Self, c: &Self) {
    }

    proof fn lemma_same_query_and_cursors(a: &Self, b: &Self) {
    }

    fn set_before(&mut self, s: String) {
        self.ending_before = Some(s);
        self.starting_after = None;
    }

    fn set_after(&mut self, s: String) {
        self.starting_after = Some(s);
        self.ending_before = None;
    }
}

/// Stripe API location: `/v1/bitcoin/transactions.get.GetBitcoinTransactions`.
#[derive(Debug, Clone)]
pub struct GetBitcoinTransactions {
    pub customer: Option<String>,
    pub ending_before: Option<String>,
    pub expand: Option<Vec<String>>,
    pub limit: Option<i64>,
    pub receiver: Option<String>,
    pub starting_after: Option<String>,
}

impl PageParam for GetBitcoinTransactions {
    open spec fn before_cursor(&self) -> Option<String> {
        self.ending_before
    }

    open spec fn after_cursor(&self) -> Option<String> {
        self.starting_after
    }

    open spec fn same_query(&self, other: &Self) -> bool {
        self.customer == other.customer && self.expand == other.expand && self.limit == other.limit && self.receiver == other.receiver
    }

    proof fn lemma_same_query_is_equivalence(a: &Self, b: &Self, c: &Self) {
    }

    proof fn lemma_same_query_and_cursors(a: &Self, b: &Self) {
    }

    fn set_before(&mut self, s: String) {
        self.ending_before = Some(s);
        self.starting_after = None;
    }

    fn set_after(&mut self, s: String) {
        self.starting_after = Some(s);
        self.ending_before = None;
    }
}

/// Stripe API location: `/v1/charges.get.GetCharges`.
#[derive(Debug, Clone)]
pub struct GetCharges {
    pub created: Option<UniCreated>,
    pub customer: Option<String>,
    pub ending_before: Option<String>,
    pub expand: Option<Vec<String>>,
    pub limit: Option<i64>,
    pub payment_intent: Option<String>,
    pub starting_after: Option<String>,
    pub transfer_group: Option<String>,
}

impl PageParam for GetCharges {
    open spec fn before_cursor(&self) -> Option<String> {
        self.ending_before
    }

    open spec fn after_cursor(&self) -> Option<String> {
        self.starting_after
    }

    open spec fn same_query(&self, other: &Self) -> bool {
        self.created == other.created && self.customer == other.customer && self.expand == other.expand && self.limit == other.limit && self.payment_intent == other.payment_intent && self.transfer_group == other.transfer_group
    }

    proof fn lemma_same_query_is_equivalence(a: &Self, b: &Self, c: &Self) {
    }

    proof fn lemma_same_query_and_cursors(a: &Self, b: &Self) {
    }

    fn set_before(&mut self, s: String) {
        self.ending_before = Some(s);
        self.starting_after = None;
    }

    fn set_after(&mut self, s: String) {
        self.starting_after = Some(s);
        self.ending_before = None;
    }
}

/// Stripe API location: `/v1/checkout/sessions.get.GetCheckoutSessions`.
#[derive(Debug, Clone)]
pub struct GetCheckoutSessions {
    pub ending_before: Option<String>,
    pub expand: Option<Vec<String>>,
    pub limit: Option<i64>,
    pub payment_intent: Option<String>,
    pub starting_after: Option<String>,
    pub subscription: Option<String>,
}

impl PageParam for GetCheckoutSessions {
    open spec fn before_cursor(&self) -> Option<String> {
        self.ending_before
    }

    open spec fn after_cursor(&self) -> Option<String> {
        self.starting_after
    }

    open spec fn same_query(&self, other: &Self) -> bool {
        self.expand == other.expand && self.limit == other.limit && self.payment_intent == other.payment_intent && self.subscription == other.subscription
    }

    proof fn lemma_same_query_is_equivalence(a: &Self, b: &Self, c: &Self) {
    }

    proof fn lemma_same_query_and_cursors(a: &Self, b: &Self) {
    }

    fn set_before(&mut self, s: String) {
        self.ending_before = Some(s);
        self.starting_after = None;
    }

    fn set_after(&mut self, s: String) {
        self.starting_after = Some(s);
        self.ending_before = None;
    }
}

/// Stripe API location: `/v1/coupons.get.GetCoupons`, `/v1/issuing/settlements.get.GetIssuingSettlements`, `/v1/reporting/report_runs.get.GetReportingReportRuns` (and 1 more).
#[derive(Debug, Clone)]
pub struct GetCoupons {
    pub created: Option<UniCreated>,
    pub ending_before: Option<String>,
    pub expand: Option<Vec<String>>,
    pub limit: Option<i64>,
    pub starting_after: Option<String>,
}

impl PageParam for GetCoupons {
    open spec fn before_cursor(&self) -> Option<String> {
        self.ending_before
    }

    open spec fn after_cursor(&self) -> Option<String> {
        self.starting_after
    }

    open spec fn same_query(&self, other: &Self) -> bool {
        self.created == other.created && self.expand == other.expand && self.limit == other.limit
    }

    proof fn lemma_same_query_is_equivalence(a: &Self, b: &Self, c: &Self) {
    }

    proof fn lemma_same_query_and_cursors(a: &Self, b: &Self) {
    }

    fn set_before(&mut self, s: String) {
        self.ending_before = Some(s);
        self.starting_after = None;
    }

    fn set_after(&mut self, s: String) {
        self.starting_after = Some(s);
        self.ending_before = None;
    }
}

/// Stripe API location: `/v1/credit_notes.get.GetCreditNotes`.
#[derive(Debug, Clone)]
pub struct GetCreditNotes {
    pub customer: Option<String>,
    pub ending_before: Option<String>,
    pub expand: Option<Vec<String>>,
    pub invoice: Option<String>,
    pub limit: Option<i64>,
    pub starting_after: Option<String>,
}

impl PageParam for GetCreditNotes {
    open spec fn before_cursor(&self) -> Option<String> {
        self.ending_before
    }

    open spec fn after_cursor(&self) -> Option<String> {
        self.starting_after
    }

    open spec fn same_query(&self, other: &Self) -> bool {
        self.customer == other.customer && self.expand == other.expand && self.invoice == other.invoice && self.limit == other.limit
    }

    proof fn lemma_same_query_is_equivalence(a: &Self, b: &Self, c: &Self) {
    }

    proof fn lemma_same_query_and_cursors(a: &Self, b: &Self) {
    }

    fn set_before(&mut self, s: String) {
        self.ending_before = Some(s);
        self.starting_after = None;
    }

    fn set_after(&mut self, s: String) {
        self.starting_after = Some(s);
        self.ending_before = None;
    }
}

/// Stripe API location: `/v1/credit_notes/preview.get.GetCreditNotesPreview`.
#[derive(Debug, Clone)]
pub struct GetCreditNotesPreview {
    pub amount: Option<i64>,
    pub credit_amount: Option<i64>,
    pub expand: Option<Vec<String>>,
    pub invoice: String,
    pub lines: Option<Vec<CreditNoteLineItemParams>>,
    pub memo: Option<String>,
    pub out_of_band_amount: Option<i64>,
    pub reason: Option<UniStrReasonAB5E91>,
    pub refund: Option<String>,
    pub refund_amount: Option<i64>,
    pub metadata: Option<Metadata>,
}

/// Stripe API location: `/v1/credit_notes/preview.get.GetCreditNotesPreview.lines.items`, `/v1/credit_notes/preview/lines.get.GetCreditNotesPreviewLines.lines.items`.
#[derive(Debug, Clone)]
pub struct CreditNoteLineItemParams {
    /// JSON key: `type`.
    pub type_x: UniStrType00DF75,
    pub tax_rates: Option<UniTaxRates>,
    pub amount: Option<i64>,
    pub description: Option<String>,
    pub invoice_line_item: Option<String>,
    pub quantity: Option<i64>,
    pub unit_amount: Option<i64>,
    pub unit_amount_decimal: Option<String>,
}

/// Stripe API location: `/v1/credit_notes/preview.get.GetCreditNotesPreview.lines.items.tax_rates`, `/v1/credit_notes/preview/lines.get.GetCreditNotesPreviewLines.lines.items.tax_rates`, `/v1/invoices/upcoming.get.GetInvoicesUpcoming.invoice_items.items.tax_rates` (and 5 more).
/// Encoded in JSON without a tag: the variant is chosen by the shape of the value.
#[derive(Debug, Clone)]
pub enum UniTaxRates {
    VecString(Vec<String>),
    UniStr1(UniStr1),
}

/// Stripe API location: `/v1/credit_notes/preview.get.GetCreditNotesPreview.lines.items.tax_rates.anyOf.1`, `/v1/credit_notes/preview/lines.get.GetCreditNotesPreviewLines.lines.items.tax_rates.anyOf.1`, `/v1/invoices/upcoming.get.GetInvoicesUpcoming.discounts.anyOf.1` (and 17 more).
#[derive(Debug, Clone)]
pub enum UniStr1 {
    Empty,
}

/// Stripe API location: `/v1/credit_notes/preview/lines.get.GetCreditNotesPreviewLines`.
#[derive(Debug, Clone)]
pub struct GetCreditNotesPreviewLines {
    pub amount: Option<i64>,
    pub credit_amount: Option<i64>,
    pub ending_before: Option<String>,
    pub expand: Option<Vec<String>>,
    pub invoice: String,
    pub limit: Option<i64>,
    pub lines: Option<Vec<CreditNoteLineItemParams>>,
    pub memo: Option<String>,
    pub out_of_band_amount: Option<i64>,
    pub reason: Option<UniStrReasonAB5E91>,
    pub refund: Option<String>,
    pub refund_amount: Option<i64>,
    pub starting_after: Option<String>,
    pub metadata: Option<Metadata>,
}

impl PageParam for GetCreditNotesPreviewLines {
    open spec fn before_cursor(&self) -> Option<String> {
        self.ending_before
    }

    open spec fn after_cursor(&self) -> Option<String> {
        self.starting_after
    }

    open spec fn same_query(&self, other: &Self) -> bool {
        self.amount == other.amount && self.credit_amount == other.credit_amount && self.expand == other.expand && self.invoice == other.invoice && self.limit == other.limit && self.lines == other.lines && self.memo == other.memo && self.out_of_band_amount == other.out_of_band_amount && self.reason == other.reason && self.refund == other.refund && self.refund_amount == other.refund_amount && self.metadata == other.metadata
    }

    proof fn lemma_same_query_is_equivalence(a: &Self, b: &Self, c: &Self) {
    }

    proof fn lemma_same_query_and_cursors(a: &Self, b: &Self) {
    }

    fn set_before(&mut self, s: String) {
        self.ending_before = Some(s);
        self.starting_after = None;
    }

    fn set_after(&mut self, s: String) {
        self.starting_after = Some(s);
        self.ending_before = None;
    }
}

/// Stripe API location: `/v1/customers.get.GetCustomers`.
#[derive(Debug, Clone)]
pub struct GetCustomers {
    pub created: Option<UniCreated>,
    pub email: Option<String>,
    pub ending_before: Option<String>,
    pub expand: Option<Vec<String>>,
    pub limit: Option<i64>,
    pub starting_after: Option<String>,
}

impl PageParam for GetCustomers {
    open spec fn before_cursor(&self) -> Option<String> {
        self.ending_before
    }

    open spec fn after_cursor(&self) -> Option<String> {
        self.starting_after
    }

    open spec fn same_query(&self, other: &Self) -> bool {
        self.created == other.created && self.email == other.email && self.expand == other.expand && self.limit == other.limit
    }

    proof fn lemma_same_query_is_equivalence(a: &Self, b: &Self, c: &Self) {
    }

    proof fn lemma_same_query_and_cursors(a: &Self, b: &Self) {
    }

    fn set_before(&mut self, s: String) {
        self.ending_before = Some(s);
        self.starting_after = None;
    }

    fn set_after(&mut self, s: String) {
        self.starting_after = Some(s);
        self.ending_before = None;
    }
}

/// Stripe API location: `/v1/customers/{customer}/sources.get.GetCustomersCustomerSources`.
#[derive(Debug, Clone)]
pub struct GetCustomersCustomerSources {
    pub object: Option<String>,
    pub ending_before: Option<String>,
    pub expand: Option<Vec<String>>,
    pub limit: Option<i64>,
    pub starting_after: Option<String>,
}

impl PageParam for GetCustomersCustomerSources {
    open spec fn before_cursor(&self) -> Option<String> {
        self.ending_before
    }

    open spec fn after_cursor(&self) -> Option<String> {
        self.starting_after
    }

    open spec fn same_query(&self, other: &Self) -> bool {
        self.object == other.object && self.expand == other.expand && self.limit == other.limit
    }

    proof fn lemma_same_query_is_equivalence(a: &Self, b: &Self, c: &Self) {
    }

    proof fn lemma_same_query_and_cursors(a: &Self, b: &Self) {
    }

    fn set_before(&mut self, s: String) {
        self.ending_before = Some(s);
        self.starting_after = None;
    }

    fn set_after(&mut self, s: String) {
        self.starting_after = Some(s);
        self.ending_before = None;
    }
}

/// Stripe API location: `/v1/disputes.get.GetDisputes`.
#[derive(Debug, Clone)]
pub struct GetDisputes {
    pub created: Option<UniCreated>,
    pub charge: Option<String>,
    pub ending_before: Option<String>,
    pub expand: Option<Vec<String>>,
    pub limit: Option<i64>,
    pub payment_intent: Option<String>,
    pub starting_after: Option<String>,
}

impl PageParam for GetDisputes {
    open spec fn before_cursor(&self) -> Option<String> {
        self.ending_before
    }

    open spec fn after_cursor(&self) -> Option<String> {
        self.starting_after
    }

    open spec fn same_query(&self, other: &Self) -> bool {
        self.created == other.created && self.charge == other.charge && self.expand == other.expand && self.limit == other.limit && self.payment_intent == other.payment_intent
    }

    proof fn lemma_same_query_is_equivalence(a: &Self, b: &Self, c: &Self) {
    }

    proof fn lemma_same_query_and_cursors(a: &Self, b: &Self) {
    }

    fn set_before(&mut self, s: String) {
        self.ending_before = Some(s);
        self.starting_after = None;
    }

    fn set_after(&mut self, s: String) {
        self.starting_after = Some(s);
        self.ending_before = None;
    }
}

/// Stripe API location: `/v1/events.get.GetEvents`.
#[derive(Debug, Clone)]
pub struct GetEvents {
    /// JSON key: `type`.
    pub type_x: Option<String>,
    pub created: Option<UniCreated>,
    pub delivery_success: Option<bool>,
    pub ending_before: Option<String>,
    pub expand: Option<Vec<String>>,
    pub limit: Option<i64>,
    pub starting_after: Option<String>,
    pub types: Option<Vec<String>>,
}

impl PageParam for GetEvents {
    open spec fn before_cursor(&self) -> Option<String> {
        self.ending_before
    }

    open spec fn after_cursor(&self) -> Option<String> {
        self.starting_after
    }

    open spec fn same_query(&self, other: &Self) -> bool {
        self.type_x == other.type_x && self.created == other.created && self.delivery_success == other.delivery_success && self.expand == other.expand && self.limit == other.limit && self.types == other.types
    }

    proof fn lemma_same_query_is_equivalence(a: &Self, b: &Self, c: &Self) {
    }

    proof fn lemma_same_query_and_cursors(a: &Self, b: &Self) {
    }

    fn set_before(&mut self, s: String) {
        self.ending_before = Some(s);
        self.starting_after = None;
    }

    fn set_after(&mut self, s: String) {
        self.starting_after = Some(s);
        self.ending_before = None;
    }
}

/// Stripe API location: `/v1/file_links.get.GetFileLinks`.
#[derive(Debug, Clone)]
pub struct GetFileLinks {
    pub created: Option<UniCreated>,
    pub ending_before: Option<String>,
    pub expand: Option<Vec<String>>,
    pub expired: Option<bool>,
    pub file: Option<String>,
    pub limit: Option<i64>,
    pub starting_after: Option<String>,
}

impl PageParam for GetFileLinks {
    open spec fn before_cursor(&self) -> Option<String> {
        self.ending_before
    }

    open spec fn after_cursor(&self) -> Option<String> {
        self.starting_after
    }

    open spec fn same_query(&self, other: &Self) -> bool {
        self.created == other.created && self.expand == other.expand && self.expired == other.expired && self.file == other.file && self.limit == other.limit
    }

    proof fn lemma_same_query_is_equivalence(a: &Self, b: &Self, c: &Self) {
    }

    proof fn lemma_same_query_and_cursors(a: &Self, b: &Self) {
    }

    fn set_before(&mut self, s: String) {
        self.ending_before = Some(s);
        self.starting_after = None;
    }

    fn set_after(&mut self, s: String) {
        self.starting_after = Some(s);
        self.ending_before = None;
    }
}

/// Stripe API location: `/v1/files.get.GetFiles`.
#[derive(Debug, Clone)]
pub struct GetFiles {
    pub created: Option<UniCreated>,
    pub ending_before: Option<String>,
    pub expand: Option<Vec<String>>,
    pub limit: Option<i64>,
    pub purpose: Option<UniStrPurposeA778EA>,
    pub starting_after: Option<String>,
}

impl PageParam for GetFiles {
    open spec fn before_cursor(&self) -> Option<String> {
        self.ending_before
    }

    open spec fn after_cursor(&self) -> Option<String> {
        self.starting_after
    }

    open spec fn same_query(&self, other: &Self) -> bool {
        self.created == other.created && self.expand == other.expand && self.limit == other.limit && self.purpose == other.purpose
    }

    proof fn lemma_same_query_is_equivalence(a: &Self, b: &Self, c: &Self) {
    }

    proof fn lemma_same_query_and_cursors(a: &Self, b: &Self) {
    }

    fn set_before(&mut self, s: String) {
        self.ending_before = Some(s);
        self.starting_after = None;
    }

    fn set_after(&mut self, s: String) {
        self.starting_after = Some(s);
        self.ending_before = None;
    }
}

/// Stripe API location: `/v1/files.get.GetFiles.purpose`.
#[derive(Debug, Clone)]
pub enum UniStrPurposeA778EA {
    /// JSON value: `"additional_verification"`.
    AdditionalVerification,
    /// JSON value: `"business_icon"`.
    BusinessIcon,
    /// JSON value: `"business_logo"`.
    BusinessLogo,
    /// JSON value: `"customer_signature"`.
    CustomerSignature,
    /// JSON value: `"dispute_evidence"`.
    DisputeEvidence,
    /// JSON value: `"document_provider_identity_document"`.
    DocumentProviderIdentityDocument,
    /// JSON value: `"finance_report_run"`.
    FinanceReportRun,
    /// JSON value: `"identity_document"`.
    IdentityDocument,
    /// JSON value: `"pci_document"`.
    PciDocument,
    /// JSON value: `"sigma_scheduled_query"`.
    SigmaScheduledQuery,
    /// JSON value: `"tax_document_user_upload"`.
    TaxDocumentUserUpload,
}

/// Stripe API location: `/v1/invoiceitems.get.GetInvoiceitems`.
#[derive(Debug, Clone)]
pub struct GetInvoiceitems {
    pub created: Option<UniCreated>,
    pub customer: Option<String>,
    pub ending_before: Option<String>,
    pub expand: Option<Vec<String>>,
    pub invoice: Option<String>,
    pub limit: Option<i64>,
    pub pending: Option<bool>,
    pub starting_after: Option<String>,
}

impl PageParam for GetInvoiceitems {
    open spec fn before_cursor(&self) -> Option<String> {
        self.ending_before
    }

    open spec fn after_cursor(&self) -> Option<String> {
        self.starting_after
    }

    open spec fn same_query(&self, other: &Self) -> bool {
        self.created == other.created && self.customer == other.customer && self.expand == other.expand && self.invoice == other.invoice && self.limit == other.limit && self.pending == other.pending
    }

    proof fn lemma_same_query_is_equivalence(a: &Self, b: &Self, c: &Self) {
    }

    proof fn lemma_same_query_and_cursors(a: &Self, b: &Self) {
    }

    fn set_before(&mut self, s: String) {
        self.ending_before = Some(s);
        self.starting_after = None;
    }

    fn set_after(&mut self, s: String) {
        self.starting_after = Some(s);
        self.ending_before = None;
    }
}

/// Stripe API location: `/v1/invoices.get.GetInvoices`.
#[derive(Debug, Clone)]
pub struct GetInvoices {
    pub created: Option<UniCreated>,
    pub due_date: Option<UniCreated>,
    pub collection_method: Option<UniStrCollectionMethod>,
    pub customer: Option<String>,
    pub ending_before: Option<String>,
    pub expand: Option<Vec<String>>,
    pub limit: Option<i64>,
    pub starting_after: Option<String>,
    pub status: Option<UniStrStatus536EDD>,
    pub subscription: Option<String>,
}

impl PageParam for GetInvoices {
    open spec fn before_cursor(&self) -> Option<String> {
        self.ending_before
    }

    open spec fn after_cursor(&self) -> Option<String> {
        self.starting_after
    }

    open spec fn same_query(&self, other: &Self) -> bool {
        self.created == other.created && self.due_date == other.due_date && self.collection_method == other.collection_method && self.customer == other.customer && self.expand == other.expand && self.limit == other.limit && self.status == other.status && self.subscription == other.subscription
    }

    proof fn lemma_same_query_is_equivalence(a: &Self, b: &Self, c: &Self) {
    }

    proof fn lemma_same_query_and_cursors(a: &Self, b: &Self) {
    }

    fn set_before(&mut self, s: String) {
        self.ending_before = Some(s);
        self.starting_after = None;
    }

    fn set_after(&mut self, s: String) {
        self.starting_after = Some(s);
        self.ending_before = None;
    }
}

/// Stripe API location: `/v1/invoices.get.GetInvoices.status`.
#[derive(Debug, Clone)]
pub enum UniStrStatus536EDD {
    /// JSON value: `"draft"`.
    Draft,
    /// JSON value: `"open"`.
    Open,
    /// JSON value: `"paid"`.
    Paid,
    /// JSON value: `"uncollectible"`.
    Uncollectible,
    /// JSON value: `"void"`.
    Void,
}

/// Stripe API location: `/v1/invoices/upcoming.get.GetInvoicesUpcoming`.
#[derive(Debug, Clone)]
pub struct GetInvoicesUpcoming {
    pub discounts: Option<UniDiscounts>,
    pub subscription_billing_cycle_anchor: Option<UniSubscriptionBillingCycleAnchor>,
    pub subscription_cancel_at: Option<UniSubscriptionCancelAt>,
    pub subscription_default_tax_rates: Option<UniTaxRates>,
    pub subscription_trial_end: Option<UniSubscriptionTrialEnd>,
    pub coupon: Option<String>,
    pub customer: Option<String>,
    pub expand: Option<Vec<String>>,
    pub invoice_items: Option<Vec<InvoiceItemPreviewParams>>,
    pub schedule: Option<String>,
    pub subscription: Option<String>,
    pub subscription_cancel_at_period_end: Option<bool>,
    pub subscription_cancel_now: Option<bool>,
    pub subscription_items: Option<Vec<SubscriptionItemUpdateParams>>,
    pub subscription_proration_behavior: Option<UniStrProrationBehavior>,
    pub subscription_proration_date: Option<i64>,
    pub subscription_start_date: Option<i64>,
    pub subscription_trial_from_plan: Option<bool>,
}

/// Stripe API location: `/v1/invoices/upcoming.get.GetInvoicesUpcoming.discounts`, `/v1/invoices/upcoming.get.GetInvoicesUpcoming.invoice_items.items.discounts`, `/v1/invoices/upcoming/lines.get.GetInvoicesUpcomingLines.discounts` (and 1 more).
/// Encoded in JSON without a tag: the variant is chosen by the shape of the value.
#[derive(Debug, Clone)]
pub enum UniDiscounts {
    VecDiscountsDataParam(Vec<DiscountsDataParam>),
    UniStr1(UniStr1),
}

/// Stripe API location: `/v1/invoices/upcoming.get.GetInvoicesUpcoming.discounts.anyOf.0.items`, `/v1/invoices/upcoming.get.GetInvoicesUpcoming.invoice_items.items.discounts.anyOf.0.items`, `/v1/invoices/upcoming/lines.get.GetInvoicesUpcomingLines.discounts.anyOf.0.items` (and 1 more).
#[derive(Debug, Clone)]
pub struct DiscountsDataParam {
    pub coupon: Option<String>,
    pub discount: Option<String>,
}

/// Stripe API location: `/v1/invoices/upcoming.get.GetInvoicesUpcoming.invoice_items.items`, `/v1/invoices/upcoming/lines.get.GetInvoicesUpcomingLines.invoice_items.items`.
#[derive(Debug, Clone)]
pub struct InvoiceItemPreviewParams {
    pub discounts: Option<UniDiscounts>,
    pub metadata: Option<UniMetadata>,
    pub tax_rates: Option<UniTaxRates>,
    pub amount: Option<i64>,
    pub currency: Option<String>,
    pub description: Option<String>,
    pub discountable: Option<bool>,
    pub invoiceitem: Option<String>,
    pub period: Option<Period0B71D6>,
    pub price: Option<String>,
    pub price_data: Option<OneTimePriceData>,
    pub quantity: Option<i64>,
    pub unit_amount: Option<i64>,
    pub unit_amount_decimal: Option<String>,
}

/// Stripe API location: `/v1/invoices/upcoming.get.GetInvoicesUpcoming.invoice_items.items.metadata`, `/v1/invoices/upcoming.get.GetInvoicesUpcoming.subscription_items.items.metadata`, `/v1/invoices/upcoming/lines.get.GetInvoicesUpcomingLines.invoice_items.items.metadata` (and 1 more).
/// Encoded in JSON without a tag: the variant is chosen by the shape of the value.
#[derive(Debug, Clone)]
pub enum UniMetadata {
    Metadata(Metadata),
    UniStr1(UniStr1),
}

/// Stripe API location: `/v1/invoices/upcoming.get.GetInvoicesUpcoming.invoice_items.items.period`, `/v1/invoices/upcoming/lines.get.GetInvoicesUpcomingLines.invoice_items.items.period`.
#[derive(Debug, Clone)]
pub struct Period0B71D6 {
    pub end: i64,
    pub start: i64,
}

/// Stripe API location: `/v1/invoices/upcoming.get.GetInvoicesUpcoming.invoice_items.items.price_data`, `/v1/invoices/upcoming/lines.get.GetInvoicesUpcomingLines.invoice_items.items.price_data`.
#[derive(Debug, Clone)]
pub struct OneTimePriceData {
    pub currency: String,
    pub product: String,
    pub unit_amount: Option<i64>,
    pub unit_amount_decimal: Option<String>,
}

/// Stripe API location: `/v1/invoices/upcoming.get.GetInvoicesUpcoming.subscription_billing_cycle_anchor`, `/v1/invoices/upcoming/lines.get.GetInvoicesUpcomingLines.subscription_billing_cycle_anchor`.
/// Encoded in JSON without a tag: the variant is chosen by the shape of the value.
#[derive(Debug, Clone)]
pub enum UniSubscriptionBillingCycleAnchor {
    UniStr03014CD(UniStr03014CD),
    I64(i64),
}

/// Stripe API location: `/v1/invoices/upcoming.get.GetInvoicesUpcoming.subscription_billing_cycle_anchor.anyOf.0`, `/v1/invoices/upcoming/lines.get.GetInvoicesUpcomingLines.subscription_billing_cycle_anchor.anyOf.0`.
#[derive(Debug, Clone)]
pub enum UniStr03014CD {
    /// JSON value: `"now"`.
    Now,
    /// JSON value: `"unchanged"`.
    Unchanged,
}

/// Stripe API location: `/v1/invoices/upcoming.get.GetInvoicesUpcoming.subscription_cancel_at`, `/v1/invoices/upcoming/lines.get.GetInvoicesUpcomingLines.subscription_cancel_at`.
/// Encoded in JSON without a tag: the variant is chosen by the shape of the value.
#[derive(Debug, Clone)]
pub enum UniSubscriptionCancelAt {
    I64(i64),
    UniStr1(UniStr1),
}

/// Stripe API location: `/v1/invoices/upcoming.get.GetInvoicesUpcoming.subscription_items.items`, `/v1/invoices/upcoming/lines.get.GetInvoicesUpcomingLines.subscription_items.items`.
#[derive(Debug, Clone)]
pub struct SubscriptionItemUpdateParams {
    pub id: Option<String>,
    pub billing_thresholds: Option<UniBillingThresholds>,
    pub metadata: Option<UniMetadata>,
    pub tax_rates: Option<UniTaxRates>,
    pub clear_usage: Option<bool>,
    pub deleted: Option<bool>,
    pub price: Option<String>,
    pub price_data: Option<RecurringPriceData>,
    pub quantity: Option<i64>,
}

/// Stripe API location: `/v1/invoices/upcoming.get.GetInvoicesUpcoming.subscription_items.items.billing_thresholds`, `/v1/invoices/upcoming/lines.get.GetInvoicesUpcomingLines.subscription_items.items.billing_thresholds`.
/// Encoded in JSON without a tag: the variant is chosen by the shape of the value.
#[derive(Debug, Clone)]
pub enum UniBillingThresholds {
    ItemBillingThresholdsParam(ItemBillingThresholdsParam),
    UniStr1(UniStr1),
}

/// Stripe API location: `/v1/invoices/upcoming.get.GetInvoicesUpcoming.subscription_items.items.billing_thresholds.anyOf.0`, `/v1/invoices/upcoming/lines.get.GetInvoicesUpcomingLines.subscription_items.items.billing_thresholds.anyOf.0`.
#[derive(Debug, Clone)]
pub struct ItemBillingThresholdsParam {
    pub usage_gte: i64,
}

/// Stripe API location: `/v1/invoices/upcoming.get.GetInvoicesUpcoming.subscription_items.items.price_data`, `/v1/invoices/upcoming/lines.get.GetInvoicesUpcomingLines.subscription_items.items.price_data`.
#[derive(Debug, Clone)]
pub struct RecurringPriceData {
    pub currency: String,
    pub product: String,
    pub recurring: RecurringAdhoc,
    pub unit_amount: Option<i64>,
    pub unit_amount_decimal: Option<String>,
}

/// Stripe API location: `/v1/invoices/upcoming.get.GetInvoicesUpcoming.subscription_items.items.price_data.recurring`, `/v1/invoices/upcoming/lines.get.GetInvoicesUpcomingLines.subscription_items.items.price_data.recurring`.
#[derive(Debug, Clone)]
pub struct RecurringAdhoc {
    pub interval: UniStrInterval,
    pub interval_count: Option<i64>,
}

/// Stripe API location: `/v1/invoices/upcoming.get.GetInvoicesUpcoming.subscription_trial_end`, `/v1/invoices/upcoming/lines.get.GetInvoicesUpcomingLines.subscription_trial_end`.
/// Encoded in JSON without a tag: the variant is chosen by the shape of the value.
#[derive(Debug, Clone)]
pub enum UniSubscriptionTrialEnd {
    UniStr0104DCB(UniStr0104DCB),
    I64(i64),
}

/// Stripe API location: `/v1/invoices/upcoming.get.GetInvoicesUpcoming.subscription_trial_end.anyOf.0`, `/v1/invoices/upcoming/lines.get.GetInvoicesUpcomingLines.subscription_trial_end.anyOf.0`.
#[derive(Debug, Clone)]
pub enum UniStr0104DCB {
    /// JSON value: `"now"`.
    Now,
}

/// Stripe API location: `/v1/invoices/upcoming/lines.get.GetInvoicesUpcomingLines`.
#[derive(Debug, Clone)]
pub struct GetInvoicesUpcomingLines {
    pub discounts: Option<UniDiscounts>,
    pub subscription_billing_cycle_anchor: Option<UniSubscriptionBillingCycleAnchor>,
    pub subscription_cancel_at: Option<UniSubscriptionCancelAt>,
    pub subscription_default_tax_rates: Option<UniTaxRates>,
    pub subscription_trial_end: Option<UniSubscriptionTrialEnd>,
    pub coupon: Option<String>,
    pub customer: Option<String>,
    pub ending_before: Option<String>,
    pub expand: Option<Vec<String>>,
    pub invoice_items: Option<Vec<InvoiceItemPreviewParams>>,
    pub limit: Option<i64>,
    pub schedule: Option<String>,
    pub starting_after: Option<String>,
    pub subscription: Option<String>,
    pub subscription_cancel_at_period_end: Option<bool>,
    pub subscription_cancel_now: Option<bool>,
    pub subscription_items: Option<Vec<SubscriptionItemUpdateParams>>,
    pub subscription_proration_behavior: Option<UniStrProrationBehavior>,
    pub subscription_proration_date: Option<i64>,
    pub subscription_start_date: Option<i64>,
    pub subscription_trial_from_plan: Option<bool>,
}

impl PageParam for GetInvoicesUpcomingLines {
    open spec fn before_cursor(&self) -> Option<String> {
        self.ending_before
    }

    open spec fn after_cursor(&self) -> Option<String> {
        self.starting_after
    }

    open spec fn same_query(&self, other: &Self) -> bool {
        self.discounts == other.discounts && self.subscription_billing_cycle_anchor == other.subscription_billing_cycle_anchor && self.subscription_cancel_at == other.subscription_cancel_at && self.subscription_default_tax_rates == other.subscription_default_tax_rates && self.subscription_trial_end == other.subscription_trial_end && self.coupon == other.coupon && self.customer == other.customer && self.expand == other.expand && self.invoice_items == other.invoice_items && self.limit == other.limit && self.schedule == other.schedule && self.subscription == other.subscription && self.subscription_cancel_at_period_end == other.subscription_cancel_at_period_end && self.subscription_cancel_now == other.subscription_cancel_now && self.subscription_items == other.subscription_items && self.subscription_proration_behavior == other.subscription_proration_behavior && self.subscription_proration_date == other.subscription_proration_date && self.subscription_start_date == other.subscription_start_date && self.subscription_trial_from_plan == other.subscription_trial_from_plan
    }

    proof fn lemma_same_query_is_equivalence(a: &Self, b: &Self, c: &Self) {
    }

    proof fn lemma_same_query_and_cursors(a: &Self, b: &Self) {
    }

    fn set_before(&mut self, s: String) {
        self.ending_before = Some(s);
        self.starting_after = None;
    }

    fn set_after(&mut self, s: String) {
        self.starting_after = Some(s);
        self.ending_before = None;
    }
}

/// Stripe API location: `/v1/issuer_fraud_records.get.GetIssuerFraudRecords`, `/v1/radar/early_fraud_warnings.get.GetRadarEarlyFraudWarnings`.
#[derive(Debug, Clone)]
pub struct GetIssuerFraudRecords {
    pub charge: Option<String>,
    pub ending_before: Option<String>,
    pub expand: Option<Vec<String>>,
    pub limit: Option<i64>,
    pub starting_after: Option<String>,
}

impl PageParam for GetIssuerFraudRecords {
    open spec fn before_cursor(&self) -> Option<String> {
        self.ending_before
    }

    open spec fn after_cursor(&self) -> Option<String> {
        self.starting_after
    }

    open spec fn same_query(&self, other: &Self) -> bool {
        self.charge == other.charge && self.expand == other.expand && self.limit == other.limit
    }

    proof fn lemma_same_query_is_equivalence(a: &Self, b: &Self, c: &Self) {
    }

    proof fn lemma_same_query_and_cursors(a: &Self, b: &Self) {
    }

    fn set_before(&mut self, s: String) {
        self.ending_before = Some(s);
        self.starting_after = None;
    }

    fn set_after(&mut self, s: String) {
        self.starting_after = Some(s);
        self.ending_before = None;
    }
}

/// Stripe API location: `/v1/issuing/authorizations.get.GetIssuingAuthorizations`.
#[derive(Debug, Clone)]
pub struct GetIssuingAuthorizations {
    pub created: Option<UniCreated>,
    pub card: Option<String>,
    pub cardholder: Option<String>,
    pub ending_before: Option<String>,
    pub expand: Option<Vec<String>>,
    pub limit: Option<i64>,
    pub starting_after: Option<String>,
    pub status: Option<UniStrStatus957169>,
}

impl PageParam for GetIssuingAuthorizations {
    open spec fn before_cursor(&self) -> Option<String> {
        self.ending_before
    }

    open spec fn after_cursor(&self) -> Option<String> {
        self.starting_after
    }

    open spec fn same_query(&self, other: &Self) -> bool {
        self.created == other.created && self.card == other.card && self.cardholder == other.cardholder && self.expand == other.expand && self.limit == other.limit && self.status == other.status
    }

    proof fn lemma_same_query_is_equivalence(a: &Self, b: &Self, c: &Self) {
    }

    proof fn lemma_same_query_and_cursors(a: &Self, b: &Self) {
    }

    fn set_before(&mut self, s: String) {
        self.ending_before = Some(s);
        self.starting_after = None;
    }

    fn set_after(&mut self, s: String) {
        self.starting_after = Some(s);
        self.ending_before = None;
    }
}

/// Stripe API location: `/v1/issuing/cardholders.get.GetIssuingCardholders`.
#[derive(Debug, Clone)]
pub struct GetIssuingCardholders {
    /// JSON key: `type`.
    pub type_x: Option<UniStrType947A77>,
    pub created: Option<UniCreated>,
    pub email: Option<String>,
    pub ending_before: Option<String>,
    pub expand: Option<Vec<String>>,
    pub limit: Option<i64>,
    pub phone_number: Option<String>,
    pub starting_after: Option<String>,
    pub status: Option<UniStrStatusD5D208>,
}

impl PageParam for GetIssuingCardholders {
    open spec fn before_cursor(&self) -> Option<String> {
        self.ending_before
    }

    open spec fn after_cursor(&self) -> Option<String> {
        self.starting_after
    }

    open spec fn same_query(&self, other: &Self) -> bool {
        self.type_x == other.type_x && self.created == other.created && self.email == other.email && self.expand == other.expand && self.limit == other.limit && self.phone_number == other.phone_number && self.status == other.status
    }

    proof fn lemma_same_query_is_equivalence(a: &Self, b: &Self, c: &Self) {
    }

    proof fn lemma_same_query_and_cursors(a: &Self, b: &Self) {
    }

    fn set_before(&mut self, s: String) {
        self.ending_before = Some(s);
        self.starting_after = None;
    }

    fn set_after(&mut self, s: String) {
        self.starting_after = Some(s);
        self.ending_before = None;
    }
}

/// Stripe API location: `/v1/issuing/cards.get.GetIssuingCards`.
#[derive(Debug, Clone)]
pub struct GetIssuingCards {
    /// JSON key: `type`.
    pub type_x: Option<UniStrTypeA467AF>,
    pub created: Option<UniCreated>,
    pub cardholder: Option<String>,
    pub ending_before: Option<String>,
    pub exp_month: Option<i64>,
    pub exp_year: Option<i64>,
    pub expand: Option<Vec<String>>,
    pub last4: Option<String>,
    pub limit: Option<i64>,
    pub starting_after: Option<String>,
    pub status: Option<UniStrStatusA4138B>,
}

impl PageParam for GetIssuingCards {
    open spec fn before_cursor(&self) -> Option<String> {
        self.ending_before
    }

    open spec fn after_cursor(&self) -> Option<String> {
        self.starting_after
    }

    open spec fn same_query(&self, other: &Self) -> bool {
        self.type_x == other.type_x && self.created == other.created && self.cardholder == other.cardholder && self.exp_month == other.exp_month && self.exp_year == other.exp_year && self.expand == other.expand && self.last4 == other.last4 && self.limit == other.limit && self.status == other.status
    }

    proof fn lemma_same_query_is_equivalence(a: &Self, b: &Self, c: &Self) {
    }

    proof fn lemma_same_query_and_cursors(a: &Self, b: &Self) {
    }

    fn set_before(&mut self, s: String) {
        self.ending_before = Some(s);
        self.starting_after = None;
    }

    fn set_after(&mut self, s: String) {
        self.starting_after = Some(s);
        self.ending_before = None;
    }
}

/// Stripe API location: `/v1/issuing/disputes.get.GetIssuingDisputes`.
#[derive(Debug, Clone)]
pub struct GetIssuingDisputes {
    pub created: Option<UniCreated>,
    pub ending_before: Option<String>,
    pub expand: Option<Vec<String>>,
    pub limit: Option<i64>,
    pub starting_after: Option<String>,
    pub status: Option<UniStrStatusE71251>,
    pub transaction: Option<String>,
}

impl PageParam for GetIssuingDisputes {
    open spec fn before_cursor(&self) -> Option<String> {
        self.ending_before
    }

    open spec fn after_cursor(&self) -> Option<String> {
        self.starting_after
    }

    open spec fn same_query(&self, other: &Self) -> bool {
        self.created == other.created && self.expand == other.expand && self.limit == other.limit && self.status == other.status && self.transaction == other.transaction
    }

    proof fn lemma_same_query_is_equivalence(a: &Self, b: &Self, c: &Self) {
    }

    proof fn lemma_same_query_and_cursors(a: &Self, b: &Self) {
    }

    fn set_before(&mut self, s: String) {
        self.ending_before = Some(s);
        self.starting_after = None;
    }

    fn set_after(&mut self, s: String) {
        self.starting_after = Some(s);
        self.ending_before = None;
    }
}

/// Stripe API location: `/v1/issuing/transactions.get.GetIssuingTransactions`.
#[derive(Debug, Clone)]
pub struct GetIssuingTransactions {
    pub created: Option<UniCreated>,
    pub card: Option<String>,
    pub cardholder: Option<String>,
    pub ending_before: Option<String>,
    pub expand: Option<Vec<String>>,
    pub limit: Option<i64>,
    pub starting_after: Option<String>,
}

impl PageParam for GetIssuingTransactions {
    open spec fn before_cursor(&self) -> Option<String> {
        self.ending_before
    }

    open spec fn after_cursor(&self) -> Option<String> {
        self.starting_after
    }

    open spec fn same_query(&self, other: &Self) -> bool {
        self.created == other.created && self.card == other.card && self.cardholder == other.cardholder && self.expand == other.expand && self.limit == other.limit
    }

    proof fn lemma_same_query_is_equivalence(a: &Self, b: &Self, c: &Self) {
    }

    proof fn lemma_same_query_and_cursors(a: &Self, b: &Self) {
    }

    fn set_before(&mut self, s: String) {
        self.ending_before = Some(s);
        self.starting_after = None;
    }

    fn set_after(&mut self, s: String) {
        self.starting_after = Some(s);
        self.ending_before = None;
    }
}

/// Stripe API location: `/v1/order_returns.get.GetOrderReturns`.
#[derive(Debug, Clone)]
pub struct GetOrderReturns {
    pub created: Option<UniCreated>,
    pub ending_before: Option<String>,
    pub expand: Option<Vec<String>>,
    pub limit: Option<i64>,
    pub order: Option<String>,
    pub starting_after: Option<String>,
}

impl PageParam for GetOrderReturns {
    open spec fn before_cursor(&self) -> Option<String> {
        self.ending_before
    }

    open spec fn after_cursor(&self) -> Option<String> {
        self.starting_after
    }

    open spec fn same_query(&self, other: &Self) -> bool {
        self.created == other.created && self.expand == other.expand && self.limit == other.limit && self.order == other.order
    }

    proof fn lemma_same_query_is_equivalence(a: &Self, b: &Self, c: &Self) {
    }

    proof fn lemma_same_query_and_cursors(a: &Self, b: &Self) {
    }

    fn set_before(&mut self, s: String) {
        self.ending_before = Some(s);
        self.starting_after = None;
    }

    fn set_after(&mut self, s: String) {
        self.starting_after = Some(s);
        self.ending_before = None;
    }
}

/// Stripe API location: `/v1/orders.get.GetOrders`.
#[derive(Debug, Clone)]
pub struct GetOrders {
    pub created: Option<UniCreated>,
    pub customer: Option<String>,
    pub ending_before: Option<String>,
    pub expand: Option<Vec<String>>,
    pub ids: Option<Vec<String>>,
    pub limit: Option<i64>,
    pub starting_after: Option<String>,
    pub status: Option<String>,
    pub status_transitions: Option<OrderTimestampSpecs>,
    pub upstream_ids: Option<Vec<String>>,
}

impl PageParam for GetOrders {
    open spec fn before_cursor(&self) -> Option<String> {
        self.ending_before
    }

    open spec fn after_cursor(&self) -> Option<String> {
        self.starting_after
    }

    open spec fn same_query(&self, other: &Self) -> bool {
        self.created == other.created && self.customer == other.customer && self.expand == other.expand && self.ids == other.ids && self.limit == other.limit && self.status == other.status && self.status_transitions == other.status_transitions && self.upstream_ids == other.upstream_ids
    }

    proof fn lemma_same_query_is_equivalence(a: &Self, b: &Self, c: &Self) {
    }

    proof fn lemma_same_query_and_cursors(a: &Self, b: &Self) {
    }

    fn set_before(&mut self, s: String) {
        self.ending_before = Some(s);
        self.starting_after = None;
    }

    fn set_after(&mut self, s: String) {
        self.starting_after = Some(s);
        self.ending_before = None;
    }
}

/// Stripe API location: `/v1/orders.get.GetOrders.status_transitions`.
#[derive(Debug, Clone)]
pub struct OrderTimestampSpecs {
    pub paid: Option<UniCreated>,
    pub canceled: Option<UniCreated>,
    pub fulfilled: Option<UniCreated>,
    pub returned: Option<UniCreated>,
}

/// Stripe API location: `/v1/payment_intents.get.GetPaymentIntents`.
#[derive(Debug, Clone)]
pub struct GetPaymentIntents {
    pub created: Option<UniCreated>,
    pub customer: Option<String>,
    pub ending_before: Option<String>,
    pub expand: Option<Vec<String>>,
    pub limit: Option<i64>,
    pub starting_after: Option<String>,
}

impl PageParam for GetPaymentIntents {
    open spec fn before_cursor(&self) -> Option<String> {
        self.ending_before
    }

    open spec fn after_cursor(&self) -> Option<String> {
        self.starting_after
    }

    open spec fn same_query(&self, other: &Self) -> bool {
        self.created == other.created && self.customer == other.customer && self.expand == other.expand && self.limit == other.limit
    }

    proof fn lemma_same_query_is_equivalence(a: &Self, b: &Self, c: &Self) {
    }

    proof fn lemma_same_query_and_cursors(a: &Self, b: &Self) {
    }

    fn set_before(&mut self, s: String) {
        self.ending_before = Some(s);
        self.starting_after = None;
    }

    fn set_after(&mut self, s: String) {
        self.starting_after = Some(s);
        self.ending_before = None;
    }
}

/// Stripe API location: `/v1/payment_intents/{intent}.get.GetPaymentIntentsIntent`, `/v1/setup_intents/{intent}.get.GetSetupIntentsIntent`, `/v1/sources/{source}.get.GetSourcesSource`.
#[derive(Debug, Clone)]
pub struct GetSourcesSource {
    pub client_secret: Option<String>,
    pub expand: Option<Vec<String>>,
}

/// Stripe API location: `/v1/payment_methods.get.GetPaymentMethods`.
#[derive(Debug, Clone)]
pub struct GetPaymentMethods {
    /// JSON key: `type`.
    pub type_x: UniStrTypeBAE85E,
    pub customer: String,
    pub ending_before: Option<String>,
    pub expand: Option<Vec<String>>,
    pub limit: Option<i64>,
    pub starting_after: Option<String>,
}

impl PageParam for GetPaymentMethods {
    open spec fn before_cursor(&self) -> Option<String> {
        self.ending_before
    }

    open spec fn after_cursor(&self) -> Option<String> {
        self.starting_after
    }

    open spec fn same_query(&self, other: &Self) -> bool {
        self.type_x == other.type_x && self.customer == other.customer && self.expand == other.expand && self.limit == other.limit
    }

    proof fn lemma_same_query_is_equivalence(a: &Self, b: &Self, c: &Self) {
    }

    proof fn lemma_same_query_and_cursors(a: &Self, b: &Self) {
    }

    fn set_before(&mut self, s: String) {
        self.ending_before = Some(s);
        self.starting_after = None;
    }

    fn set_after(&mut self, s: String) {
        self.starting_after = Some(s);
        self.ending_before = None;
    }
}

/// Stripe API location: `/v1/payment_methods.get.GetPaymentMethods.type`.
#[derive(Debug, Clone)]
pub enum UniStrTypeBAE85E {
    /// JSON value: `"alipay"`.
    Alipay,
    /// JSON value: `"au_becs_debit"`.
    AuBecsDebit,
    /// JSON value: `"bacs_debit"`.
    BacsDebit,
    /// JSON value: `"bancontact"`.
    Bancontact,
    /// JSON value: `"card"`.
    Card,
    /// JSON value: `"eps"`.
    Eps,
    /// JSON value: `"fpx"`.
    Fpx,
    /// JSON value: `"giropay"`.
    Giropay,
    /// JSON value: `"grabpay"`.
    Grabpay,
    /// JSON value: `"ideal"`.
    Ideal,
    /// JSON value: `"oxxo"`.
    Oxxo,
    /// JSON value: `"p24"`.
    P24,
    /// JSON value: `"sepa_debit"`.
    SepaDebit,
    /// JSON value: `"sofort"`.
    Sofort,
}

/// Stripe API location: `/v1/payouts.get.GetPayouts`.
#[derive(Debug, Clone)]
pub struct GetPayouts {
    pub arrival_date: Option<UniCreated>,
    pub created: Option<UniCreated>,
    pub destination: Option<String>,
    pub ending_before: Option<String>,
    pub expand: Option<Vec<String>>,
    pub limit: Option<i64>,
    pub starting_after: Option<String>,
    pub status: Option<String>,
}

impl PageParam for GetPayouts {
    open spec fn before_cursor(&self) -> Option<String> {
        self.ending_before
    }

    open spec fn after_cursor(&self) -> Option<String> {
        self.starting_after
    }

    open spec fn same_query(&self, other: &Self) -> bool {
        self.arrival_date == other.arrival_date && self.created == other.created && self.destination == other.destination && self.expand == other.expand && self.limit == other.limit && self.status == other.status
    }

    proof fn lemma_same_query_is_equivalence(a: &Self, b: &Self, c: &Self) {
    }

    proof fn lemma_same_query_and_cursors(a: &Self, b: &Self) {
    }

    fn set_before(&mut self, s: String) {
        self.ending_before = Some(s);
        self.starting_after = None;
    }

    fn set_after(&mut self, s: String) {
        self.starting_after = Some(s);
        self.ending_before = None;
    }
}

/// Stripe API location: `/v1/plans.get.GetPlans`.
#[derive(Debug, Clone)]
pub struct GetPlans {
    pub created: Option<UniCreated>,
    pub active: Option<bool>,
    pub ending_before: Option<String>,
    pub expand: Option<Vec<String>>,
    pub limit: Option<i64>,
    pub product: Option<String>,
    pub starting_after: Option<String>,
}

impl PageParam for GetPlans {
    open spec fn before_cursor(&self) -> Option<String> {
        self.ending_before
    }

    open spec fn after_cursor(&self) -> Option<String> {
        self.starting_after
    }

    open spec fn same_query(&self, other: &Self) -> bool {
        self.created == other.created && self.active == other.active && self.expand == other.expand && self.limit == other.limit && self.product == other.product
    }

    proof fn lemma_same_query_is_equivalence(a: &Self, b: &Self, c: &Self) {
    }

    proof fn lemma_same_query_and_cursors(a: &Self, b: &Self) {
    }

    fn set_before(&mut self, s: String) {
        self.ending_before = Some(s);
        self.starting_after = None;
    }

    fn set_after(&mut self, s: String) {
        self.starting_after = Some(s);
        self.ending_before = None;
    }
}

/// Stripe API location: `/v1/prices.get.GetPrices`.
#[derive(Debug, Clone)]
pub struct GetPrices {
    /// JSON key: `type`.
    pub type_x: Option<UniStrTypeFC33AE>,
    pub created: Option<UniCreated>,
    pub active: Option<bool>,
    pub currency: Option<String>,
    pub ending_before: Option<String>,
    pub expand: Option<Vec<String>>,
    pub limit: Option<i64>,
    pub lookup_keys: Option<Vec<String>>,
    pub product: Option<String>,
    pub recurring: Option<AllPricesRecurringParams>,
    pub starting_after: Option<String>,
}

impl PageParam for GetPrices {
    open spec fn before_cursor(&self) -> Option<String> {
        self.ending_before
    }

    open spec fn after_cursor(&self) -> Option<String> {
        self.starting_after
    }

    open spec fn same_query(&self, other: &Self) -> bool {
        self.type_x == other.type_x && self.created == other.created && self.active == other.active && self.currency == other.currency && self.expand == other.expand && self.limit == other.limit && self.lookup_keys == other.lookup_keys && self.product == other.product && self.recurring == other.recurring
    }

    proof fn lemma_same_query_is_equivalence(a: &Self, b: &Self, c: &Self) {
    }

    proof fn lemma_same_query_and_cursors(a: &Self, b: &Self) {
    }

    fn set_before(&mut self, s: String) {
        self.ending_before = Some(s);
        self.starting_after = None;
    }

    fn set_after(&mut self, s: String) {
        self.starting_after = Some(s);
        self.ending_before = None;
    }
}

/// Stripe API location: `/v1/prices.get.GetPrices.recurring`.
#[derive(Debug, Clone)]
pub struct AllPricesRecurringParams {
    pub interval: Option<UniStrInterval>,
    pub usage_type: Option<UniStrUsageType>,
}

/// Stripe API location: `/v1/products.get.GetProducts`.
#[derive(Debug, Clone)]
pub struct GetProducts {
    pub created: Option<UniCreated>,
    pub active: Option<bool>,
    pub ending_before: Option<String>,
    pub expand: Option<Vec<String>>,
    pub ids: Option<Vec<String>>,
    pub limit: Option<i64>,
    pub shippable: Option<bool>,
    pub starting_after: Option<String>,
    pub url: Option<String>,
}

impl PageParam for GetProducts {
    open spec fn before_cursor(&self) -> Option<String> {
        self.ending_before
    }

    open spec fn after_cursor(&self) -> Option<String> {
        self.starting_after
    }

    open spec fn same_query(&self, other: &Self) -> bool {
        self.created == other.created && self.active == other.active && self.expand == other.expand && self.ids == other.ids && self.limit == other.limit && self.shippable == other.shippable && self.url == other.url
    }

    proof fn lemma_same_query_is_equivalence(a: &Self, b: &Self, c: &Self) {
    }

    proof fn lemma_same_query_and_cursors(a: &Self, b: &Self) {
    }

    fn set_before(&mut self, s: String) {
        self.ending_before = Some(s);
        self.starting_after = None;
    }

    fn set_after(&mut self, s: String) {
        self.starting_after = Some(s);
        self.ending_before = None;
    }
}

/// Stripe API location: `/v1/promotion_codes.get.GetPromotionCodes`.
#[derive(Debug, Clone)]
pub struct GetPromotionCodes {
    pub created: Option<UniCreated>,
    pub active: Option<bool>,
    pub code: Option<String>,
    pub coupon: Option<String>,
    pub customer: Option<String>,
    pub ending_before: Option<String>,
    pub expand: Option<Vec<String>>,
    pub limit: Option<i64>,
    pub starting_after: Option<String>,
}

impl PageParam for GetPromotionCodes {
    open spec fn before_cursor(&self) -> Option<String> {
        self.ending_before
    }

    open spec fn after_cursor(&self) -> Option<String> {
        self.starting_after
    }

    open spec fn same_query(&self, other: &Self) -> bool {
        self.created == other.created && self.active == other.active && self.code == other.code && self.coupon == other.coupon && self.customer == other.customer && self.expand == other.expand && self.limit == other.limit
    }

    proof fn lemma_same_query_is_equivalence(a: &Self, b: &Self, c: &Self) {
    }

    proof fn lemma_same_query_and_cursors(a: &Self, b: &Self) {
    }

    fn set_before(&mut self, s: String) {
        self.ending_before = Some(s);
        self.starting_after = None;
    }

    fn set_after(&mut self, s: String) {
        self.starting_after = Some(s);
        self.ending_before = None;
    }
}

/// Stripe API location: `/v1/radar/value_list_items.get.GetRadarValueListItems`.
#[derive(Debug, Clone)]
pub struct GetRadarValueListItems {
    pub created: Option<UniCreated>,
    pub ending_before: Option<String>,
    pub expand: Option<Vec<String>>,
    pub limit: Option<i64>,
    pub starting_after: Option<String>,
    pub value: Option<String>,
    pub value_list: String,
}

impl PageParam for GetRadarValueListItems {
    open spec fn before_cursor(&self) -> Option<String> {
        self.ending_before
    }

    open spec fn after_cursor(&self) -> Option<String> {
        self.starting_after
    }

    open spec fn same_query(&self, other: &Self) -> bool {
        self.created == other.created && self.expand == other.expand && self.limit == other.limit && self.value == other.value && self.value_list == other.value_list
    }

    proof fn lemma_same_query_is_equivalence(a: &Self, b: &Self, c: &Self) {
    }

    proof fn lemma_same_query_and_cursors(a: &Self, b: &Self) {
    }

    fn set_before(&mut self, s: String) {
        self.ending_before = Some(s);
        self.starting_after = None;
    }

    fn set_after(&mut self, s: String) {
        self.starting_after = Some(s);
        self.ending_before = None;
    }
}

/// Stripe API location: `/v1/radar/value_lists.get.GetRadarValueLists`.
#[derive(Debug, Clone)]
pub struct GetRadarValueLists {
    pub created: Option<UniCreated>,
    pub alias: Option<String>,
    pub contains: Option<String>,
    pub ending_before: Option<String>,
    pub expand: Option<Vec<String>>,
    pub limit: Option<i64>,
    pub starting_after: Option<String>,
}

impl PageParam for GetRadarValueLists {
    open spec fn before_cursor(&self) -> Option<String> {
        self.ending_before
    }

    open spec fn after_cursor(&self) -> Option<String> {
        self.starting_after
    }

    open spec fn same_query(&self, other: &Self) -> bool {
        self.created == other.created && self.alias == other.alias && self.contains == other.contains && self.expand == other.expand && self.limit == other.limit
    }

    proof fn lemma_same_query_is_equivalence(a: &Self, b: &Self, c: &Self) {
    }

    proof fn lemma_same_query_and_cursors(a: &Self, b: &Self) {
    }

    fn set_before(&mut self, s: String) {
        self.ending_before = Some(s);
        self.starting_after = None;
    }

    fn set_after(&mut self, s: String) {
        self.starting_after = Some(s);
        self.ending_before = None;
    }
}

/// Stripe API location: `/v1/recipients.get.GetRecipients`.
#[derive(Debug, Clone)]
pub struct GetRecipients {
    /// JSON key: `type`.
    pub type_x: Option<UniStrType>,
    pub created: Option<UniCreated>,
    pub ending_before: Option<String>,
    pub expand: Option<Vec<String>>,
    pub limit: Option<i64>,
    pub starting_after: Option<String>,
    pub verified: Option<bool>,
}

impl PageParam for GetRecipients {
    open spec fn before_cursor(&self) -> Option<String> {
        self.ending_before
    }

    open spec fn after_cursor(&self) -> Option<String> {
        self.starting_after
    }

    open spec fn same_query(&self, other: &Self) -> bool {
        self.type_x == other.type_x && self.created == other.created && self.expand == other.expand && self.limit == other.limit && self.verified == other.verified
    }

    proof fn lemma_same_query_is_equivalence(a: &Self, b: &Self, c: &Self) {
    }

    proof fn lemma_same_query_and_cursors(a: &Self, b: &Self) {
    }

    fn set_before(&mut self, s: String) {
        self.ending_before = Some(s);
        self.starting_after = None;
    }

    fn set_after(&mut self, s: String) {
        self.starting_after = Some(s);
        self.ending_before = None;
    }
}

/// Stripe API location: `/v1/recipients.get.GetRecipients.type`.
#[derive(Debug, Clone)]
pub enum UniStrType {
    /// JSON value: `"corporation"`.
    Corporation,
    /// JSON value: `"individual"`.
    Individual,
}

/// Stripe API location: `/v1/refunds.get.GetRefunds`.
#[derive(Debug, Clone)]
pub struct GetRefunds {
    pub created: Option<UniCreated>,
    pub charge: Option<String>,
    pub ending_before: Option<String>,
    pub expand: Option<Vec<String>>,
    pub limit: Option<i64>,
    pub payment_intent: Option<String>,
    pub starting_after: Option<String>,
}

impl PageParam for GetRefunds {
    open spec fn before_cursor(&self) -> Option<String> {
        self.ending_before
    }

    open spec fn after_cursor(&self) -> Option<String> {
        self.starting_after
    }

    open spec fn same_query(&self, other: &Self) -> bool {
        self.created == other.created && self.charge == other.charge && self.expand == other.expand && self.limit == other.limit && self.payment_intent == other.payment_intent
    }

    proof fn lemma_same_query_is_equivalence(a: &Self, b: &Self, c: &Self) {
    }

    proof fn lemma_same_query_and_cursors(a: &Self, b: &Self) {
    }

    fn set_before(&mut self, s: String) {
        self.ending_before = Some(s);
        self.starting_after = None;
    }

    fn set_after(&mut self, s: String) {
        self.starting_after = Some(s);
        self.ending_before = None;
    }
}

/// Stripe API location: `/v1/setup_attempts.get.GetSetupAttempts`.
#[derive(Debug, Clone)]
pub struct GetSetupAttempts {
    pub created: Option<UniCreated>,
    pub ending_before: Option<String>,
    pub expand: Option<Vec<String>>,
    pub limit: Option<i64>,
    pub setup_intent: String,
    pub starting_after: Option<String>,
}

impl PageParam for GetSetupAttempts {
    open spec fn before_cursor(&self) -> Option<String> {
        self.ending_before
    }

    open spec fn after_cursor(&self) -> Option<String> {
        self.starting_after
    }

    open spec fn same_query(&self, other: &Self) -> bool {
        self.created == other.created && self.expand == other.expand && self.limit == other.limit && self.setup_intent == other.setup_intent
    }

    proof fn lemma_same_query_is_equivalence(a: &Self, b: &Self, c: &Self) {
    }

    proof fn lemma_same_query_and_cursors(a: &Self, b: &Self) {
    }

    fn set_before(&mut self, s: String) {
        self.ending_before = Some(s);
        self.starting_after = None;
    }

    fn set_after(&mut self, s: String) {
        self.starting_after = Some(s);
        self.ending_before = None;
    }
}

/// Stripe API location: `/v1/setup_intents.get.GetSetupIntents`.
#[derive(Debug, Clone)]
pub struct GetSetupIntents {
    pub created: Option<UniCreated>,
    pub customer: Option<String>,
    pub ending_before: Option<String>,
    pub expand: Option<Vec<String>>,
    pub limit: Option<i64>,
    pub payment_method: Option<String>,
    pub starting_after: Option<String>,
}

impl PageParam for GetSetupIntents {
    open spec fn before_cursor(&self) -> Option<String> {
        self.ending_before
    }

    open spec fn after_cursor(&self) -> Option<String> {
        self.starting_after
    }

    open spec fn same_query(&self, other: &Self) -> bool {
        self.created == other.created && self.customer == other.customer && self.expand == other.expand && self.limit == other.limit && self.payment_method == other.payment_method
    }

    proof fn lemma_same_query_is_equivalence(a: &Self, b: &Self, c: &Self) {
    }

    proof fn lemma_same_query_and_cursors(a: &Self, b: &Self) {
    }

    fn set_before(&mut self, s: String) {
        self.ending_before = Some(s);
        self.starting_after = None;
    }

    fn set_after(&mut self, s: String) {
        self.starting_after = Some(s);
        self.ending_before = None;
    }
}

/// Stripe API location: `/v1/skus.get.GetSkus`.
#[derive(Debug, Clone)]
pub struct GetSkus {
    pub active: Option<bool>,
    pub attributes: Option<AttributesD48725>,
    pub ending_before: Option<String>,
    pub expand: Option<Vec<String>>,
    pub ids: Option<Vec<String>>,
    pub in_stock: Option<bool>,
    pub limit: Option<i64>,
    pub product: Option<String>,
    pub starting_after: Option<String>,
}

impl PageParam for GetSkus {
    open spec fn before_cursor(&self) -> Option<String> {
        self.ending_before
    }

    open spec fn after_cursor(&self) -> Option<String> {
        self.starting_after
    }

    open spec fn same_query(&self, other: &Self) -> bool {
        self.active == other.active && self.attributes == other.attributes && self.expand == other.expand && self.ids == other.ids && self.in_stock == other.in_stock && self.limit == other.limit && self.product == other.product
    }

    proof fn lemma_same_query_is_equivalence(a: &Self, b: &Self, c: &Self) {
    }

    proof fn lemma_same_query_and_cursors(a: &Self, b: &Self) {
    }

    fn set_before(&mut self, s: String) {
        self.ending_before = Some(s);
        self.starting_after = None;
    }

    fn set_after(&mut self, s: String) {
        self.starting_after = Some(s);
        self.ending_before = None;
    }
}

/// Stripe API location: `/v1/subscription_items.get.GetSubscriptionItems`.
#[derive(Debug, Clone)]
pub struct GetSubscriptionItems {
    pub ending_before: Option<String>,
    pub expand: Option<Vec<String>>,
    pub limit: Option<i64>,
    pub starting_after: Option<String>,
    pub subscription: String,
}

impl PageParam for GetSubscriptionItems {
    open spec fn before_cursor(&self) -> Option<String> {
        self.ending_before
    }

    open spec fn after_cursor(&self) -> Option<String> {
        self.starting_after
    }

    open spec fn same_query(&self, other: &Self) -> bool {
        self.expand == other.expand && self.limit == other.limit && self.subscription == other.subscription
    }

    proof fn lemma_same_query_is_equivalence(a: &Self, b: &Self, c: &Self) {
    }

    proof fn lemma_same_query_and_cursors(a: &Self, b: &Self) {
    }

    fn set_before(&mut self, s: String) {
        self.ending_before = Some(s);
        self.starting_after = None;
    }

    fn set_after(&mut self, s: String) {
        self.starting_after = Some(s);
        self.ending_before = None;
    }
}

/// Stripe API location: `/v1/subscription_schedules.get.GetSubscriptionSchedules`.
#[derive(Debug, Clone)]
pub struct GetSubscriptionSchedules {
    pub canceled_at: Option<UniCreated>,
    pub completed_at: Option<UniCreated>,
    pub created: Option<UniCreated>,
    pub released_at: Option<UniCreated>,
    pub customer: Option<String>,
    pub ending_before: Option<String>,
    pub expand: Option<Vec<String>>,
    pub limit: Option<i64>,
    pub scheduled: Option<bool>,
    pub starting_after: Option<String>,
}

impl PageParam for GetSubscriptionSchedules {
    open spec fn before_cursor(&self) -> Option<String> {
        self.ending_before
    }

    open spec fn after_cursor(&self) -> Option<String> {
        self.starting_after
    }

    open spec fn same_query(&self, other: &Self) -> bool {
        self.canceled_at == other.canceled_at && self.completed_at == other.completed_at && self.created == other.created && self.released_at == other.released_at && self.customer == other.customer && self.expand == other.expand && self.limit == other.limit && self.scheduled == other.scheduled
    }

    proof fn lemma_same_query_is_equivalence(a: &Self, b: &Self, c: &Self) {
    }

    proof fn lemma_same_query_and_cursors(a: &Self, b: &Self) {
    }

    fn set_before(&mut self, s: String) {
        self.ending_before = Some(s);
        self.starting_after = None;
    }

    fn set_after(&mut self, s: String) {
        self.starting_after = Some(s);
        self.ending_before = None;
    }
}

/// Stripe API location: `/v1/subscriptions.get.GetSubscriptions`.
#[derive(Debug, Clone)]
pub struct GetSubscriptions {
    pub created: Option<UniCreated>,
    pub current_period_end: Option<UniCreated>,
    pub current_period_start: Option<UniCreated>,
    pub collection_method: Option<UniStrCollectionMethod>,
    pub customer: Option<String>,
    pub ending_before: Option<String>,
    pub expand: Option<Vec<String>>,
    pub limit: Option<i64>,
    pub price: Option<String>,
    pub starting_after: Option<String>,
    pub status: Option<UniStrStatus3EB683>,
}

impl PageParam for GetSubscriptions {
    open spec fn before_cursor(&self) -> Option<String> {
        self.ending_before
    }

    open spec fn after_cursor(&self) -> Option<String> {
        self.starting_after
    }

    open spec fn same_query(&self, other: &Self) -> bool {
        self.created == other.created && self.current_period_end == other.current_period_end && self.current_period_start == other.current_period_start && self.collection_method == other.collection_method && self.customer == other.customer && self.expand == other.expand && self.limit == other.limit && self.price == other.price && self.status == other.status
    }

    proof fn lemma_same_query_is_equivalence(a: &Self, b: &Self, c: &Self) {
    }

    proof fn lemma_same_query_and_cursors(a: &Self, b: &Self) {
    }

    fn set_before(&mut self, s: String) {
        self.ending_before = Some(s);
        self.starting_after = None;
    }

    fn set_after(&mut self, s: String) {
        self.starting_after = Some(s);
        self.ending_before = None;
    }
}

/// Stripe API location: `/v1/subscriptions.get.GetSubscriptions.status`.
#[derive(Debug, Clone)]
pub enum UniStrStatus3EB683 {
    /// JSON value: `"active"`.
    Active,
    /// JSON value: `"all"`.
    All,
    /// JSON value: `"canceled"`.
    Canceled,
    /// JSON value: `"ended"`.
    Ended,
    /// JSON value: `"incomplete"`.
    Incomplete,
    /// JSON value: `"incomplete_expired"`.
    IncompleteExpired,
    /// JSON value: `"past_due"`.
    PastDue,
    /// JSON value: `"trialing"`.
    Trialing,
    /// JSON value: `"unpaid"`.
    Unpaid,
}

/// Stripe API location: `/v1/tax_rates.get.GetTaxRates`.
#[derive(Debug, Clone)]
pub struct GetTaxRates {
    pub created: Option<UniCreated>,
    pub active: Option<bool>,
    pub ending_before: Option<String>,
    pub expand: Option<Vec<String>>,
    pub inclusive: Option<bool>,
    pub limit: Option<i64>,
    pub starting_after: Option<String>,
}

impl PageParam for GetTaxRates {
    open spec fn before_cursor(&self) -> Option<String> {
        self.ending_before
    }

    open spec fn after_cursor(&self) -> Option<String> {
        self.starting_after
    }

    open spec fn same_query(&self, other: &Self) -> bool {
        self.created == other.created && self.active == other.active && self.expand == other.expand && self.inclusive == other.inclusive && self.limit == other.limit
    }

    proof fn lemma_same_query_is_equivalence(a: &Self, b: &Self, c: &Self) {
    }

    proof fn lemma_same_query_and_cursors(a: &Self, b: &Self) {
    }

    fn set_before(&mut self, s: String) {
        self.ending_before = Some(s);
        self.starting_after = None;
    }

    fn set_after(&mut self, s: String) {
        self.starting_after = Some(s);
        self.ending_before = None;
    }
}

/// Stripe API location: `/v1/terminal/readers.get.GetTerminalReaders`.
#[derive(Debug, Clone)]
pub struct GetTerminalReaders {
    pub device_type: Option<UniStrDeviceType>,
    pub ending_before: Option<String>,
    pub expand: Option<Vec<String>>,
    pub limit: Option<i64>,
    pub location: Option<String>,
    pub starting_after: Option<String>,
    pub status: Option<UniStrTypeD153A1>,
}

impl PageParam for GetTerminalReaders {
    open spec fn before_cursor(&self) -> Option<String> {
        self.ending_before
    }

    open spec fn after_cursor(&self) -> Option<String> {
        self.starting_after
    }

    open spec fn same_query(&self, other: &Self) -> bool {
        self.device_type == other.device_type && self.expand == other.expand && self.limit == other.limit && self.location == other.location && self.status == other.status
    }

    proof fn lemma_same_query_is_equivalence(a: &Self, b: &Self, c: &Self) {
    }

    proof fn lemma_same_query_and_cursors(a: &Self, b: &Self) {
    }

    fn set_before(&mut self, s: String) {
        self.ending_before = Some(s);
        self.starting_after = None;
    }

    fn set_after(&mut self, s: String) {
        self.starting_after = Some(s);
        self.ending_before = None;
    }
}

/// Stripe API location: `/v1/topups.get.GetTopups`.
#[derive(Debug, Clone)]
pub struct GetTopups {
    pub amount: Option<UniCreated>,
    pub created: Option<UniCreated>,
    pub ending_before: Option<String>,
    pub expand: Option<Vec<String>>,
    pub limit: Option<i64>,
    pub starting_after: Option<String>,
    pub status: Option<UniStrStatus>,
}

impl PageParam for GetTopups {
    open spec fn before_cursor(&self) -> Option<String> {
        self.ending_before
    }

    open spec fn after_cursor(&self) -> Option<String> {
        self.starting_after
    }

    open spec fn same_query(&self, other: &Self) -> bool {
        self.amount == other.amount && self.created == other.created && self.expand == other.expand && self.limit == other.limit && self.status == other.status
    }

    proof fn lemma_same_query_is_equivalence(a: &Self, b: &Self, c: &Self) {
    }

    proof fn lemma_same_query_and_cursors(a: &Self, b: &Self) {
    }

    fn set_before(&mut self, s: String) {
        self.ending_before = Some(s);
        self.starting_after = None;
    }

    fn set_after(&mut self, s: String) {
        self.starting_after = Some(s);
        self.ending_before = None;
    }
}

/// Stripe API location: `/v1/topups.get.GetTopups.status`.
#[derive(Debug, Clone)]
pub enum UniStrStatus {
    /// JSON value: `"canceled"`.
    Canceled,
    /// JSON value: `"failed"`.
    Failed,
    /// JSON value: `"pending"`.
    Pending,
    /// JSON value: `"succeeded"`.
    Succeeded,
}

/// Stripe API location: `/v1/transfers.get.GetTransfers`.
#[derive(Debug, Clone)]
pub struct GetTransfers {
    pub created: Option<UniCreated>,
    pub destination: Option<String>,
    pub ending_before: Option<String>,
    pub expand: Option<Vec<String>>,
    pub limit: Option<i64>,
    pub starting_after: Option<String>,
    pub transfer_group: Option<String>,
}

impl PageParam for GetTransfers {
    open spec fn before_cursor(&self) -> Option<String> {
        self.ending_before
    }

    open spec fn after_cursor(&self) -> Option<String> {
        self.starting_after
    }

    open spec fn same_query(&self, other: &Self) -> bool {
        self.created == other.created && self.destination == other.destination && self.expand == other.expand && self.limit == other.limit && self.transfer_group == other.transfer_group
    }

    proof fn lemma_same_query_is_equivalence(a: &Self, b: &Self, c: &Self) {
    }

    proof fn lemma_same_query_and_cursors(a: &Self, b: &Self) {
    }

    fn set_before(&mut self, s: String) {
        self.ending_before = Some(s);
        self.starting_after = None;
    }

    fn set_after(&mut self, s: String) {
        self.starting_after = Some(s);
        self.ending_before = None;
    }
}

} // verus!
