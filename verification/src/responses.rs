use vstd::prelude::*;
use crate::paging::{PageMeta};
use crate::types::{
    Account, AccountCapability, AlipayAccount, ApplePayDomain, BalanceTransaction, BankAccount,
    BitcoinReceiver, BitcoinTransaction, Card, Charge, CountrySpec, Coupon,
    CreditNote, CreditNoteLineItem, Customer, CustomerBalanceTransaction, DeletedCustomer, DeletedSku,
    DeletedTransferRecipient, Dispute, ExchangeRate, FeeRefund, File, FileLink,
    Invoice, InvoiceItem, InvoiceLineItem, IssuerFraudRecord, IssuingAuthorization, IssuingCard,
    IssuingCardholder, IssuingDispute, IssuingSettlement, IssuingTransaction, LineItems, NotificationEvent,
    NotificationWebhookEndpoint, Order, OrderReturn, PaymentFlowsSetupIntentSetupAttempt, PaymentIntent, PaymentMethod,
    Payout, Person, Plan, PlatformFee, Price, Product,
    PromotionCode, RadarEarlyFraudWarning, RadarListList, RadarListListItem, RadarReview, Refund,
    ReportingReportRun, ReportingReportType, ScheduledQueryRun, Session, SetupIntent, Sku,
    Source, SourceTransaction, Subscription, SubscriptionItem, SubscriptionSchedule, TaxId,
    TaxRate, TerminalLocationLocation, TerminalReaderReader, Topup, Transfer, TransferRecipient,
    TransferReversal, UsageRecordSummary,
};

verus! {

/// Stripe API location: `account.external_accounts.data.items`, `external_account`, `/v1/account/external_accounts.get.200.GetAccountExternalAccountsRes.data.items` (and 1 more).
/// Encoded in JSON without a tag: the variant is chosen by the shape of the value.
#[derive(Debug)]
pub enum UniPolymorphic70BAFA {
    BankAccount(BankAccount),
    Card(Box<Card>),
}

/// Stripe API location: `account.external_accounts.object`, `application_fee.refunds.object`, `bitcoin_receiver.transactions.object` (and 96 more).
#[derive(Debug, Clone)]
pub enum UniStrObject344B0E {
    /// JSON value: `"list"`.
    List,
}

/// Stripe API location: `customer.sources.data.items`, `/v1/customers/{customer}/sources.get.200.GetCustomersCustomerSourcesRes.data.items`.
/// Encoded in JSON without a tag: the variant is chosen by the shape of the value.
#[derive(Debug)]
pub enum UniPolymorphic646C3F {
    AlipayAccount(AlipayAccount),
    BankAccount(BankAccount),
    BitcoinReceiver(BitcoinReceiver),
    Card(Box<Card>),
    Source(Source),
}

/// Stripe API location: `/v1/account/capabilities.get.200.GetAccountCapabilitiesRes`, `/v1/accounts/{account}/capabilities.get.200.GetAccountsAccountCapabilitiesRes`.
#[derive(Debug)]
pub struct ListAccountCapability {
    pub object: UniStrObject344B0E,
    pub data: Vec<AccountCapability>,
    pub has_more: bool,
    pub url: String,
}

impl PageMeta for ListAccountCapability {
    open spec fn page_ready(&self) -> bool {
        true
    }

    open spec fn page_ids(&self) -> Seq<String> {
        self.data@.map_values(|x: AccountCapability| x.id)
    }

    open spec fn page_has_more(&self) -> bool {
        self.has_more
    }

    fn get_from_to(&self) -> (r: Option<(String, String)>) {
        if self.data.len() == 0 {
            return None;
        }
        Some((self.data[0].id.clone(), self.data[self.data.len() - 1].id.clone()))
    }

    fn get_has_more(&self) -> (r: bool) {
        self.has_more
    }
}

/// Stripe API location: `/v1/account/external_accounts.get.200.GetAccountExternalAccountsRes`, `/v1/accounts/{account}/external_accounts.get.200.GetAccountsAccountExternalAccountsRes`.
#[derive(Debug)]
pub struct ExternalAccountListADE54B {
    pub object: UniStrObject344B0E,
    pub data: Vec<UniPolymorphic70BAFA>,
    pub has_more: bool,
    pub url: String,
}

/// Stripe API location: `/v1/account/people.get.200.GetAccountPeopleRes`, `/v1/account/persons.get.200.GetAccountPersonsRes`, `/v1/accounts/{account}/people.get.200.GetAccountsAccountPeopleRes` (and 1 more).
#[derive(Debug)]
pub struct GetAccountPeopleRes {
    pub object: UniStrObject344B0E,
    pub data: Vec<Person>,
    pub has_more: bool,
    pub url: String,
}

impl PageMeta for GetAccountPeopleRes {
    open spec fn page_ready(&self) -> bool {
        true
    }

    open spec fn page_ids(&self) -> Seq<String> {
        self.data@.map_values(|x: Person| x.id)
    }

    open spec fn page_has_more(&self) -> bool {
        self.has_more
    }

    fn get_from_to(&self) -> (r: Option<(String, String)>) {
        if self.data.len() == 0 {
            return None;
        }
        Some((self.data[0].id.clone(), self.data[self.data.len() - 1].id.clone()))
    }

    fn get_has_more(&self) -> (r: bool) {
        self.has_more
    }
}

/// Stripe API location: `/v1/accounts.get.200.GetAccountsRes`.
#[derive(Debug)]
pub struct GetAccountsRes {
    pub object: UniStrObject344B0E,
    pub data: Vec<Account>,
    pub has_more: bool,
    pub url: String,
}

impl PageMeta for GetAccountsRes {
    open spec fn page_ready(&self) -> bool {
        true
    }

    open spec fn page_ids(&self) -> Seq<String> {
        self.data@.map_values(|x: Account| x.id)
    }

    open spec fn page_has_more(&self) -> bool {
        self.has_more
    }

    fn get_from_to(&self) -> (r: Option<(String, String)>) {
        if self.data.len() == 0 {
            return None;
        }
        Some((self.data[0].id.clone(), self.data[self.data.len() - 1].id.clone()))
    }

    fn get_has_more(&self) -> (r: bool) {
        self.has_more
    }
}

/// Stripe API location: `/v1/apple_pay/domains.get.200.GetApplePayDomainsRes`.
#[derive(Debug, Clone)]
pub struct ApplePayDomainList {
    pub object: UniStrObject344B0E,
    pub data: Vec<ApplePayDomain>,
    pub has_more: bool,
    pub url: String,
}

impl PageMeta for ApplePayDomainList {
    open spec fn page_ready(&self) -> bool {
        true
    }

    open spec fn page_ids(&self) -> Seq<String> {
        self.data@.map_values(|x: ApplePayDomain| x.id)
    }

    open spec fn page_has_more(&self) -> bool {
        self.has_more
    }

    fn get_from_to(&self) -> (r: Option<(String, String)>) {
        if self.data.len() == 0 {
            return None;
        }
        Some((self.data[0].id.clone(), self.data[self.data.len() - 1].id.clone()))
    }

    fn get_has_more(&self) -> (r: bool) {
        self.has_more
    }
}

/// Stripe API location: `/v1/application_fees.get.200.GetApplicationFeesRes`.
#[derive(Debug)]
pub struct GetApplicationFeesRes {
    pub object: UniStrObject344B0E,
    pub data: Vec<PlatformFee>,
    pub has_more: bool,
    pub url: String,
}

impl PageMeta for GetApplicationFeesRes {
    open spec fn page_ready(&self) -> bool {
        true
    }

    open spec fn page_ids(&self) -> Seq<String> {
        self.data@.map_values(|x: PlatformFee| x.id)
    }

    open spec fn page_has_more(&self) -> bool {
        self.has_more
    }

    fn get_from_to(&self) -> (r: Option<(String, String)>) {
        if self.data.len() == 0 {
            return None;
        }
        Some((self.data[0].id.clone(), self.data[self.data.len() - 1].id.clone()))
    }

    fn get_has_more(&self) -> (r: bool) {
        self.has_more
    }
}

/// Stripe API location: `/v1/application_fees/{id}/refunds.get.200.GetApplicationFeesIdRefundsRes`.
#[derive(Debug)]
pub struct FeeRefundListFDC0D1 {
    pub object: UniStrObject344B0E,
    pub data: Vec<FeeRefund>,
    pub has_more: bool,
    pub url: String,
}

impl PageMeta for FeeRefundListFDC0D1 {
    open spec fn page_ready(&self) -> bool {
        true
    }

    open spec fn page_ids(&self) -> Seq<String> {
        self.data@.map_values(|x: FeeRefund| x.id)
    }

    open spec fn page_has_more(&self) -> bool {
        self.has_more
    }

    fn get_from_to(&self) -> (r: Option<(String, String)>) {
        if self.data.len() == 0 {
            return None;
        }
        Some((self.data[0].id.clone(), self.data[self.data.len() - 1].id.clone()))
    }

    fn get_has_more(&self) -> (r: bool) {
        self.has_more
    }
}

/// Stripe API location: `/v1/balance/history.get.200.GetBalanceHistoryRes`, `/v1/balance_transactions.get.200.GetBalanceTransactionsRes`.
#[derive(Debug)]
pub struct BalanceTransactionsList {
    pub object: UniStrObject344B0E,
    pub data: Vec<BalanceTransaction>,
    pub has_more: bool,
    pub url: String,
}

impl PageMeta for BalanceTransactionsList {
    open spec fn page_ready(&self) -> bool {
        true
    }

    open spec fn page_ids(&self) -> Seq<String> {
        self.data@.map_values(|x: BalanceTransaction| x.id)
    }

    open spec fn page_has_more(&self) -> bool {
        self.has_more
    }

    fn get_from_to(&self) -> (r: Option<(String, String)>) {
        if self.data.len() == 0 {
            return None;
        }
        Some((self.data[0].id.clone(), self.data[self.data.len() - 1].id.clone()))
    }

    fn get_has_more(&self) -> (r: bool) {
        self.has_more
    }
}

/// Stripe API location: `/v1/bitcoin/receivers.get.200.GetBitcoinReceiversRes`.
#[derive(Debug, Clone)]
pub struct GetBitcoinReceiversRes {
    pub object: UniStrObject344B0E,
    pub data: Vec<BitcoinReceiver>,
    pub has_more: bool,
    pub url: String,
}

impl PageMeta for GetBitcoinReceiversRes {
    open spec fn page_ready(&self) -> bool {
        true
    }

    open spec fn page_ids(&self) -> Seq<String> {
        self.data@.map_values(|x: BitcoinReceiver| x.id)
    }

    open spec fn page_has_more(&self) -> bool {
        self.has_more
    }

    fn get_from_to(&self) -> (r: Option<(String, String)>) {
        if self.data.len() == 0 {
            return None;
        }
        Some((self.data[0].id.clone(), self.data[self.data.len() - 1].id.clone()))
    }

    fn get_has_more(&self) -> (r: bool) {
        self.has_more
    }
}

/// Stripe API location: `/v1/bitcoin/receivers/{receiver}/transactions.get.200.GetBitcoinReceiversReceiverTransactionsRes`, `/v1/bitcoin/transactions.get.200.GetBitcoinTransactionsRes`.
#[derive(Debug, Clone)]
pub struct BitcoinTransactionListC3C538 {
    pub object: UniStrObject344B0E,
    pub data: Vec<BitcoinTransaction>,
    pub has_more: bool,
    pub url: String,
}

impl PageMeta for BitcoinTransactionListC3C538 {
    open spec fn page_ready(&self) -> bool {
        true
    }

    open spec fn page_ids(&self) -> Seq<String> {
        self.data@.map_values(|x: BitcoinTransaction| x.id)
    }

    open spec fn page_has_more(&self) -> bool {
        self.has_more
    }

    fn get_from_to(&self) -> (r: Option<(String, String)>) {
        if self.data.len() == 0 {
            return None;
        }
        Some((self.data[0].id.clone(), self.data[self.data.len() - 1].id.clone()))
    }

    fn get_has_more(&self) -> (r: bool) {
        self.has_more
    }
}

/// Stripe API location: `/v1/charges.get.200.GetChargesRes`.
#[derive(Debug)]
pub struct GetChargesRes {
    pub object: UniStrObject344B0E,
    pub data: Vec<Charge>,
    pub has_more: bool,
    pub url: String,
}

impl PageMeta for GetChargesRes {
    open spec fn page_ready(&self) -> bool {
        true
    }

    open spec fn page_ids(&self) -> Seq<String> {
        self.data@.map_values(|x: Charge| x.id)
    }

    open spec fn page_has_more(&self) -> bool {
        self.has_more
    }

    fn get_from_to(&self) -> (r: Option<(String, String)>) {
        if self.data.len() == 0 {
            return None;
        }
        Some((self.data[0].id.clone(), self.data[self.data.len() - 1].id.clone()))
    }

    fn get_has_more(&self) -> (r: bool) {
        self.has_more
    }
}

/// Stripe API location: `/v1/charges/{charge}/refunds.get.200.GetChargesChargeRefundsRes`.
#[derive(Debug)]
pub struct RefundListBBCF51 {
    pub object: UniStrObject344B0E,
    pub data: Vec<Refund>,
    pub has_more: bool,
    pub url: String,
}

impl PageMeta for RefundListBBCF51 {
    open spec fn page_ready(&self) -> bool {
        true
    }

    open spec fn page_ids(&self) -> Seq<String> {
        self.data@.map_values(|x: Refund| x.id)
    }

    open spec fn page_has_more(&self) -> bool {
        self.has_more
    }

    fn get_from_to(&self) -> (r: Option<(String, String)>) {
        if self.data.len() == 0 {
            return None;
        }
        Some((self.data[0].id.clone(), self.data[self.data.len() - 1].id.clone()))
    }

    fn get_has_more(&self) -> (r: bool) {
        self.has_more
    }
}

/// Stripe API location: `/v1/checkout/sessions.get.200.GetCheckoutSessionsRes`.
#[derive(Debug)]
pub struct PaymentPagesCheckoutSessionList {
    pub object: UniStrObject344B0E,
    pub data: Vec<Session>,
    pub has_more: bool,
    pub url: String,
}

impl PageMeta for PaymentPagesCheckoutSessionList {
    open spec fn page_ready(&self) -> bool {
        true
    }

    open spec fn page_ids(&self) -> Seq<String> {
        self.data@.map_values(|x: Session| x.id)
    }

    open spec fn page_has_more(&self) -> bool {
        self.has_more
    }

    fn get_from_to(&self) -> (r: Option<(String, String)>) {
        if self.data.len() == 0 {
            return None;
        }
        Some((self.data[0].id.clone(), self.data[self.data.len() - 1].id.clone()))
    }

    fn get_has_more(&self) -> (r: bool) {
        self.has_more
    }
}

/// Stripe API location: `/v1/checkout/sessions/{session}/line_items.get.200.GetCheckoutSessionsSessionLineItemsRes`.
#[derive(Debug)]
pub struct PaymentPagesCheckoutSessionListLineItems404A63 {
    pub object: UniStrObject344B0E,
    pub data: Vec<LineItems>,
    pub has_more: bool,
    pub url: String,
}

impl PageMeta for PaymentPagesCheckoutSessionListLineItems404A63 {
    open spec fn page_ready(&self) -> bool {
        true
    }

    open spec fn page_ids(&self) -> Seq<String> {
        self.data@.map_values(|x: LineItems| x.id)
    }

    open spec fn page_has_more(&self) -> bool {
        self.has_more
    }

    fn get_from_to(&self) -> (r: Option<(String, String)>) {
        if self.data.len() == 0 {
            return None;
        }
        Some((self.data[0].id.clone(), self.data[self.data.len() - 1].id.clone()))
    }

    fn get_has_more(&self) -> (r: bool) {
        self.has_more
    }
}

/// Stripe API location: `/v1/country_specs.get.200.GetCountrySpecsRes`.
#[derive(Debug, Clone)]
pub struct GetCountrySpecsRes {
    pub object: UniStrObject344B0E,
    pub data: Vec<CountrySpec>,
    pub has_more: bool,
    pub url: String,
}

impl PageMeta for GetCountrySpecsRes {
    open spec fn page_ready(&self) -> bool {
        true
    }

    open spec fn page_ids(&self) -> Seq<String> {
        self.data@.map_values(|x: CountrySpec| x.id)
    }

    open spec fn page_has_more(&self) -> bool {
        self.has_more
    }

    fn get_from_to(&self) -> (r: Option<(String, String)>) {
        if self.data.len() == 0 {
            return None;
        }
        Some((self.data[0].id.clone(), self.data[self.data.len() - 1].id.clone()))
    }

    fn get_has_more(&self) -> (r: bool) {
        self.has_more
    }
}

/// Stripe API location: `/v1/coupons.get.200.GetCouponsRes`.
#[derive(Debug, Clone)]
pub struct GetCouponsRes {
    pub object: UniStrObject344B0E,
    pub data: Vec<Coupon>,
    pub has_more: bool,
    pub url: String,
}

impl PageMeta for GetCouponsRes {
    open spec fn page_ready(&self) -> bool {
        true
    }

    open spec fn page_ids(&self) -> Seq<String> {
        self.data@.map_values(|x: Coupon| x.id)
    }

    open spec fn page_has_more(&self) -> bool {
        self.has_more
    }

    fn get_from_to(&self) -> (r: Option<(String, String)>) {
        if self.data.len() == 0 {
            return None;
        }
        Some((self.data[0].id.clone(), self.data[self.data.len() - 1].id.clone()))
    }

    fn get_has_more(&self) -> (r: bool) {
        self.has_more
    }
}

/// Stripe API location: `/v1/credit_notes.get.200.GetCreditNotesRes`.
#[derive(Debug)]
pub struct CreditNotesList {
    pub object: UniStrObject344B0E,
    pub data: Vec<CreditNote>,
    pub has_more: bool,
    pub url: String,
}

impl PageMeta for CreditNotesList {
    open spec fn page_ready(&self) -> bool {
        true
    }

    open spec fn page_ids(&self) -> Seq<String> {
        self.data@.map_values(|x: CreditNote| x.id)
    }

    open spec fn page_has_more(&self) -> bool {
        self.has_more
    }

    fn get_from_to(&self) -> (r: Option<(String, String)>) {
        if self.data.len() == 0 {
            return None;
        }
        Some((self.data[0].id.clone(), self.data[self.data.len() - 1].id.clone()))
    }

    fn get_has_more(&self) -> (r: bool) {
        self.has_more
    }
}

/// Stripe API location: `/v1/credit_notes/preview/lines.get.200.GetCreditNotesPreviewLinesRes`, `/v1/credit_notes/{credit_note}/lines.get.200.GetCreditNotesCreditNoteLinesRes`.
#[derive(Debug)]
pub struct CreditNoteLinesList34EE1C {
    pub object: UniStrObject344B0E,
    pub data: Vec<CreditNoteLineItem>,
    pub has_more: bool,
    pub url: String,
}

impl PageMeta for CreditNoteLinesList34EE1C {
    open spec fn page_ready(&self) -> bool {
        true
    }

    open spec fn page_ids(&self) -> Seq<String> {
        self.data@.map_values(|x: CreditNoteLineItem| x.id)
    }

    open spec fn page_has_more(&self) -> bool {
        self.has_more
    }

    fn get_from_to(&self) -> (r: Option<(String, String)>) {
        if self.data.len() == 0 {
            return None;
        }
        Some((self.data[0].id.clone(), self.data[self.data.len() - 1].id.clone()))
    }

    fn get_has_more(&self) -> (r: bool) {
        self.has_more
    }
}

/// Stripe API location: `/v1/customers.get.200.GetCustomersRes`.
#[derive(Debug)]
pub struct GetCustomersRes {
    pub object: UniStrObject344B0E,
    pub data: Vec<Customer>,
    pub has_more: bool,
    pub url: String,
}

impl PageMeta for GetCustomersRes {
    open spec fn page_ready(&self) -> bool {
        true
    }

    open spec fn page_ids(&self) -> Seq<String> {
        self.data@.map_values(|x: Customer| x.id)
    }

    open spec fn page_has_more(&self) -> bool {
        self.has_more
    }

    fn get_from_to(&self) -> (r: Option<(String, String)>) {
        if self.data.len() == 0 {
            return None;
        }
        Some((self.data[0].id.clone(), self.data[self.data.len() - 1].id.clone()))
    }

    fn get_has_more(&self) -> (r: bool) {
        self.has_more
    }
}

/// Stripe API location: `/v1/customers/{customer}.get.200.GetCustomersCustomerRes`.
/// Encoded in JSON without a tag: the variant is chosen by the shape of the value.
#[derive(Debug)]
pub enum UniGetCustomersCustomerRes {
    Customer(Box<Customer>),
    DeletedCustomer(DeletedCustomer),
}

/// Stripe API location: `/v1/customers/{customer}/balance_transactions.get.200.GetCustomersCustomerBalanceTransactionsRes`.
#[derive(Debug)]
pub struct CustomerBalanceTransactionList {
    pub object: UniStrObject344B0E,
    pub data: Vec<CustomerBalanceTransaction>,
    pub has_more: bool,
    pub url: String,
}

impl PageMeta for CustomerBalanceTransactionList {
    open spec fn page_ready(&self) -> bool {
        true
    }

    open spec fn page_ids(&self) -> Seq<String> {
        self.data@.map_values(|x: CustomerBalanceTransaction| x.id)
    }

    open spec fn page_has_more(&self) -> bool {
        self.has_more
    }

    fn get_from_to(&self) -> (r: Option<(String, String)>) {
        if self.data.len() == 0 {
            return None;
        }
        Some((self.data[0].id.clone(), self.data[self.data.len() - 1].id.clone()))
    }

    fn get_has_more(&self) -> (r: bool) {
        self.has_more
    }
}

/// Stripe API location: `/v1/customers/{customer}/bank_accounts.get.200.GetCustomersCustomerBankAccountsRes`.
#[derive(Debug)]
pub struct BankAccountList {
    pub object: UniStrObject344B0E,
    pub data: Vec<BankAccount>,
    pub has_more: bool,
    pub url: String,
}

impl PageMeta for BankAccountList {
    open spec fn page_ready(&self) -> bool {
        true
    }

    open spec fn page_ids(&self) -> Seq<String> {
        self.data@.map_values(|x: BankAccount| x.id)
    }

    open spec fn page_has_more(&self) -> bool {
        self.has_more
    }

    fn get_from_to(&self) -> (r: Option<(String, String)>) {
        if self.data.len() == 0 {
            return None;
        }
        Some((self.data[0].id.clone(), self.data[self.data.len() - 1].id.clone()))
    }

    fn get_has_more(&self) -> (r: bool) {
        self.has_more
    }
}

/// Stripe API location: `/v1/customers/{customer}/cards.get.200.GetCustomersCustomerCardsRes`.
#[derive(Debug)]
pub struct CardList81180B {
    pub object: UniStrObject344B0E,
    pub data: Vec<Card>,
    pub has_more: bool,
    pub url: String,
}

impl PageMeta for CardList81180B {
    open spec fn page_ready(&self) -> bool {
        true
    }

    open spec fn page_ids(&self) -> Seq<String> {
        self.data@.map_values(|x: Card| x.id)
    }

    open spec fn page_has_more(&self) -> bool {
        self.has_more
    }

    fn get_from_to(&self) -> (r: Option<(String, String)>) {
        if self.data.len() == 0 {
            return None;
        }
        Some((self.data[0].id.clone(), self.data[self.data.len() - 1].id.clone()))
    }

    fn get_has_more(&self) -> (r: bool) {
        self.has_more
    }
}

/// Stripe API location: `/v1/customers/{customer}/sources.get.200.GetCustomersCustomerSourcesRes`.
#[derive(Debug)]
pub struct ApmsSourcesSourceListF0771E {
    pub object: UniStrObject344B0E,
    pub data: Vec<UniPolymorphic646C3F>,
    pub has_more: bool,
    pub url: String,
}

/// Stripe API location: `/v1/customers/{customer}/subscriptions.get.200.GetCustomersCustomerSubscriptionsRes`.
#[derive(Debug)]
pub struct SubscriptionList5B5899 {
    pub object: UniStrObject344B0E,
    pub data: Vec<Subscription>,
    pub has_more: bool,
    pub url: String,
}

impl PageMeta for SubscriptionList5B5899 {
    open spec fn page_ready(&self) -> bool {
        true
    }

    open spec fn page_ids(&self) -> Seq<String> {
        self.data@.map_values(|x: Subscription| x.id)
    }

    open spec fn page_has_more(&self) -> bool {
        self.has_more
    }

    fn get_from_to(&self) -> (r: Option<(String, String)>) {
        if self.data.len() == 0 {
            return None;
        }
        Some((self.data[0].id.clone(), self.data[self.data.len() - 1].id.clone()))
    }

    fn get_has_more(&self) -> (r: bool) {
        self.has_more
    }
}

/// Stripe API location: `/v1/customers/{customer}/tax_ids.get.200.GetCustomersCustomerTaxIdsRes`.
#[derive(Debug)]
pub struct TaxIDsListAFDA6E {
    pub object: UniStrObject344B0E,
    pub data: Vec<TaxId>,
    pub has_more: bool,
    pub url: String,
}

impl PageMeta for TaxIDsListAFDA6E {
    open spec fn page_ready(&self) -> bool {
        true
    }

    open spec fn page_ids(&self) -> Seq<String> {
        self.data@.map_values(|x: TaxId| x.id)
    }

    open spec fn page_has_more(&self) -> bool {
        self.has_more
    }

    fn get_from_to(&self) -> (r: Option<(String, String)>) {
        if self.data.len() == 0 {
            return None;
        }
        Some((self.data[0].id.clone(), self.data[self.data.len() - 1].id.clone()))
    }

    fn get_has_more(&self) -> (r: bool) {
        self.has_more
    }
}

/// Stripe API location: `/v1/disputes.get.200.GetDisputesRes`.
#[derive(Debug)]
pub struct GetDisputesRes {
    pub object: UniStrObject344B0E,
    pub data: Vec<Dispute>,
    pub has_more: bool,
    pub url: String,
}

impl PageMeta for GetDisputesRes {
    open spec fn page_ready(&self) -> bool {
        true
    }

    open spec fn page_ids(&self) -> Seq<String> {
        self.data@.map_values(|x: Dispute| x.id)
    }

    open spec fn page_has_more(&self) -> bool {
        self.has_more
    }

    fn get_from_to(&self) -> (r: Option<(String, String)>) {
        if self.data.len() == 0 {
            return None;
        }
        Some((self.data[0].id.clone(), self.data[self.data.len() - 1].id.clone()))
    }

    fn get_has_more(&self) -> (r: bool) {
        self.has_more
    }
}

/// Stripe API location: `/v1/events.get.200.GetEventsRes`.
#[derive(Debug)]
pub struct NotificationEventList {
    pub object: UniStrObject344B0E,
    pub data: Vec<NotificationEvent>,
    pub has_more: bool,
    pub url: String,
}

impl PageMeta for NotificationEventList {
    open spec fn page_ready(&self) -> bool {
        true
    }

    open spec fn page_ids(&self) -> Seq<String> {
        self.data@.map_values(|x: NotificationEvent| x.id)
    }

    open spec fn page_has_more(&self) -> bool {
        self.has_more
    }

    fn get_from_to(&self) -> (r: Option<(String, String)>) {
        if self.data.len() == 0 {
            return None;
        }
        Some((self.data[0].id.clone(), self.data[self.data.len() - 1].id.clone()))
    }

    fn get_has_more(&self) -> (r: bool) {
        self.has_more
    }
}

/// Stripe API location: `/v1/exchange_rates.get.200.GetExchangeRatesRes`.
#[derive(Debug, Clone)]
pub struct GetExchangeRatesRes {
    pub object: UniStrObject344B0E,
    pub data: Vec<ExchangeRate>,
    pub has_more: bool,
    pub url: String,
}

impl PageMeta for GetExchangeRatesRes {
    open spec fn page_ready(&self) -> bool {
        true
    }

    open spec fn page_ids(&self) -> Seq<String> {
        self.data@.map_values(|x: ExchangeRate| x.id)
    }

    open spec fn page_has_more(&self) -> bool {
        self.has_more
    }

    fn get_from_to(&self) -> (r: Option<(String, String)>) {
        if self.data.len() == 0 {
            return None;
        }
        Some((self.data[0].id.clone(), self.data[self.data.len() - 1].id.clone()))
    }

    fn get_has_more(&self) -> (r: bool) {
        self.has_more
    }
}

/// Stripe API location: `/v1/file_links.get.200.GetFileLinksRes`.
#[derive(Debug)]
pub struct GetFileLinksRes {
    pub object: UniStrObject344B0E,
    pub data: Vec<FileLink>,
    pub has_more: bool,
    pub url: String,
}

impl PageMeta for GetFileLinksRes {
    open spec fn page_ready(&self) -> bool {
        true
    }

    open spec fn page_ids(&self) -> Seq<String> {
        self.data@.map_values(|x: FileLink| x.id)
    }

    open spec fn page_has_more(&self) -> bool {
        self.has_more
    }

    fn get_from_to(&self) -> (r: Option<(String, String)>) {
        if self.data.len() == 0 {
            return None;
        }
        Some((self.data[0].id.clone(), self.data[self.data.len() - 1].id.clone()))
    }

    fn get_has_more(&self) -> (r: bool) {
        self.has_more
    }
}

/// Stripe API location: `/v1/files.get.200.GetFilesRes`.
#[derive(Debug)]
pub struct GetFilesRes {
    pub object: UniStrObject344B0E,
    pub data: Vec<File>,
    pub has_more: bool,
    pub url: String,
}

impl PageMeta for GetFilesRes {
    open spec fn page_ready(&self) -> bool {
        true
    }

    open spec fn page_ids(&self) -> Seq<String> {
        self.data@.map_values(|x: File| x.id)
    }

    open spec fn page_has_more(&self) -> bool {
        self.has_more
    }

    fn get_from_to(&self) -> (r: Option<(String, String)>) {
        if self.data.len() == 0 {
            return None;
        }
        Some((self.data[0].id.clone(), self.data[self.data.len() - 1].id.clone()))
    }

    fn get_has_more(&self) -> (r: bool) {
        self.has_more
    }
}

/// Stripe API location: `/v1/invoiceitems.get.200.GetInvoiceitemsRes`.
#[derive(Debug)]
pub struct GetInvoiceitemsRes {
    pub object: UniStrObject344B0E,
    pub data: Vec<InvoiceItem>,
    pub has_more: bool,
    pub url: String,
}

impl PageMeta for GetInvoiceitemsRes {
    open spec fn page_ready(&self) -> bool {
        true
    }

    open spec fn page_ids(&self) -> Seq<String> {
        self.data@.map_values(|x: InvoiceItem| x.id)
    }

    open spec fn page_has_more(&self) -> bool {
        self.has_more
    }

    fn get_from_to(&self) -> (r: Option<(String, String)>) {
        if self.data.len() == 0 {
            return None;
        }
        Some((self.data[0].id.clone(), self.data[self.data.len() - 1].id.clone()))
    }

    fn get_has_more(&self) -> (r: bool) {
        self.has_more
    }
}

/// Stripe API location: `/v1/invoices.get.200.GetInvoicesRes`.
#[derive(Debug)]
pub struct InvoicesList {
    pub object: UniStrObject344B0E,
    pub data: Vec<Invoice>,
    pub has_more: bool,
    pub url: String,
}

impl PageMeta for InvoicesList {
    open spec fn page_ready(&self) -> bool {
        self.data@.len() > 0 ==> self.data@[0].id is Some && self.data@.last().id is Some
    }

    open spec fn page_ids(&self) -> Seq<String> {
        self.data@.map_values(|x: Invoice| x.id.unwrap())
    }

    open spec fn page_has_more(&self) -> bool {
        self.has_more
    }

    fn get_from_to(&self) -> (r: Option<(String, String)>) {
        if self.data.len() == 0 {
            return None;
        }
        Some((
            self.data[0].id.as_ref().unwrap().clone(),
            self.data[self.data.len() - 1].id.as_ref().unwrap().clone(),
        ))
    }

    fn get_has_more(&self) -> (r: bool) {
        self.has_more
    }
}

/// Stripe API location: `/v1/invoices/upcoming/lines.get.200.GetInvoicesUpcomingLinesRes`, `/v1/invoices/{invoice}/lines.get.200.GetInvoicesInvoiceLinesRes`.
#[derive(Debug)]
pub struct InvoiceLinesList9B8534 {
    pub object: UniStrObject344B0E,
    pub data: Vec<InvoiceLineItem>,
    pub has_more: bool,
    pub url: String,
}

impl PageMeta for InvoiceLinesList9B8534 {
    open spec fn page_ready(&self) -> bool {
        true
    }

    open spec fn page_ids(&self) -> Seq<String> {
        self.data@.map_values(|x: InvoiceLineItem| x.id)
    }

    open spec fn page_has_more(&self) -> bool {
        self.has_more
    }

    fn get_from_to(&self) -> (r: Option<(String, String)>) {
        if self.data.len() == 0 {
            return None;
        }
        Some((self.data[0].id.clone(), self.data[self.data.len() - 1].id.clone()))
    }

    fn get_has_more(&self) -> (r: bool) {
        self.has_more
    }
}

/// Stripe API location: `/v1/issuer_fraud_records.get.200.GetIssuerFraudRecordsRes`.
#[derive(Debug)]
pub struct RadarIssuerFraudRecordList {
    pub object: UniStrObject344B0E,
    pub data: Vec<IssuerFraudRecord>,
    pub has_more: bool,
    pub url: String,
}

impl PageMeta for RadarIssuerFraudRecordList {
    open spec fn page_ready(&self) -> bool {
        true
    }

    open spec fn page_ids(&self) -> Seq<String> {
        self.data@.map_values(|x: IssuerFraudRecord| x.id)
    }

    open spec fn page_has_more(&self) -> bool {
        self.has_more
    }

    fn get_from_to(&self) -> (r: Option<(String, String)>) {
        if self.data.len() == 0 {
            return None;
        }
        Some((self.data[0].id.clone(), self.data[self.data.len() - 1].id.clone()))
    }

    fn get_has_more(&self) -> (r: bool) {
        self.has_more
    }
}

/// Stripe API location: `/v1/issuing/authorizations.get.200.GetIssuingAuthorizationsRes`.
#[derive(Debug)]
pub struct GetIssuingAuthorizationsRes {
    pub object: UniStrObject344B0E,
    pub data: Vec<IssuingAuthorization>,
    pub has_more: bool,
    pub url: String,
}

impl PageMeta for GetIssuingAuthorizationsRes {
    open spec fn page_ready(&self) -> bool {
        true
    }

    open spec fn page_ids(&self) -> Seq<String> {
        self.data@.map_values(|x: IssuingAuthorization| x.id)
    }

    open spec fn page_has_more(&self) -> bool {
        self.has_more
    }

    fn get_from_to(&self) -> (r: Option<(String, String)>) {
        if self.data.len() == 0 {
            return None;
        }
        Some((self.data[0].id.clone(), self.data[self.data.len() - 1].id.clone()))
    }

    fn get_has_more(&self) -> (r: bool) {
        self.has_more
    }
}

/// Stripe API location: `/v1/issuing/cardholders.get.200.GetIssuingCardholdersRes`.
#[derive(Debug)]
pub struct GetIssuingCardholdersRes {
    pub object: UniStrObject344B0E,
    pub data: Vec<IssuingCardholder>,
    pub has_more: bool,
    pub url: String,
}

impl PageMeta for GetIssuingCardholdersRes {
    open spec fn page_ready(&self) -> bool {
        true
    }

    open spec fn page_ids(&self) -> Seq<String> {
        self.data@.map_values(|x: IssuingCardholder| x.id)
    }

    open spec fn page_has_more(&self) -> bool {
        self.has_more
    }

    fn get_from_to(&self) -> (r: Option<(String, String)>) {
        if self.data.len() == 0 {
            return None;
        }
        Some((self.data[0].id.clone(), self.data[self.data.len() - 1].id.clone()))
    }

    fn get_has_more(&self) -> (r: bool) {
        self.has_more
    }
}

/// Stripe API location: `/v1/issuing/cards.get.200.GetIssuingCardsRes`.
#[derive(Debug)]
pub struct GetIssuingCardsRes {
    pub object: UniStrObject344B0E,
    pub data: Vec<IssuingCard>,
    pub has_more: bool,
    pub url: String,
}

impl PageMeta for GetIssuingCardsRes {
    open spec fn page_ready(&self) -> bool {
        true
    }

    open spec fn page_ids(&self) -> Seq<String> {
        self.data@.map_values(|x: IssuingCard| x.id)
    }

    open spec fn page_has_more(&self) -> bool {
        self.has_more
    }

    fn get_from_to(&self) -> (r: Option<(String, String)>) {
        if self.data.len() == 0 {
            return None;
        }
        Some((self.data[0].id.clone(), self.data[self.data.len() - 1].id.clone()))
    }

    fn get_has_more(&self) -> (r: bool) {
        self.has_more
    }
}

/// Stripe API location: `/v1/issuing/disputes.get.200.GetIssuingDisputesRes`.
#[derive(Debug)]
pub struct IssuingDisputeList {
    pub object: UniStrObject344B0E,
    pub data: Vec<IssuingDispute>,
    pub has_more: bool,
    pub url: String,
}

impl PageMeta for IssuingDisputeList {
    open spec fn page_ready(&self) -> bool {
        true
    }

    open spec fn page_ids(&self) -> Seq<String> {
        self.data@.map_values(|x: IssuingDispute| x.id)
    }

    open spec fn page_has_more(&self) -> bool {
        self.has_more
    }

    fn get_from_to(&self) -> (r: Option<(String, String)>) {
        if self.data.len() == 0 {
            return None;
        }
        Some((self.data[0].id.clone(), self.data[self.data.len() - 1].id.clone()))
    }

    fn get_has_more(&self) -> (r: bool) {
        self.has_more
    }
}

/// Stripe API location: `/v1/issuing/settlements.get.200.GetIssuingSettlementsRes`.
#[derive(Debug, Clone)]
pub struct GetIssuingSettlementsRes {
    pub object: UniStrObject344B0E,
    pub data: Vec<IssuingSettlement>,
    pub has_more: bool,
    pub url: String,
}

impl PageMeta for GetIssuingSettlementsRes {
    open spec fn page_ready(&self) -> bool {
        true
    }

    open spec fn page_ids(&self) -> Seq<String> {
        self.data@.map_values(|x: IssuingSettlement| x.id)
    }

    open spec fn page_has_more(&self) -> bool {
        self.has_more
    }

    fn get_from_to(&self) -> (r: Option<(String, String)>) {
        if self.data.len() == 0 {
            return None;
        }
        Some((self.data[0].id.clone(), self.data[self.data.len() - 1].id.clone()))
    }

    fn get_has_more(&self) -> (r: bool) {
        self.has_more
    }
}

/// Stripe API location: `/v1/issuing/transactions.get.200.GetIssuingTransactionsRes`.
#[derive(Debug)]
pub struct GetIssuingTransactionsRes {
    pub object: UniStrObject344B0E,
    pub data: Vec<IssuingTransaction>,
    pub has_more: bool,
    pub url: String,
}

impl PageMeta for GetIssuingTransactionsRes {
    open spec fn page_ready(&self) -> bool {
        true
    }

    open spec fn page_ids(&self) -> Seq<String> {
        self.data@.map_values(|x: IssuingTransaction| x.id)
    }

    open spec fn page_has_more(&self) -> bool {
        self.has_more
    }

    fn get_from_to(&self) -> (r: Option<(String, String)>) {
        if self.data.len() == 0 {
            return None;
        }
        Some((self.data[0].id.clone(), self.data[self.data.len() - 1].id.clone()))
    }

    fn get_has_more(&self) -> (r: bool) {
        self.has_more
    }
}

/// Stripe API location: `/v1/order_returns.get.200.GetOrderReturnsRes`.
#[derive(Debug)]
pub struct GetOrderReturnsRes {
    pub object: UniStrObject344B0E,
    pub data: Vec<OrderReturn>,
    pub has_more: bool,
    pub url: String,
}

impl PageMeta for GetOrderReturnsRes {
    open spec fn page_ready(&self) -> bool {
        true
    }

    open spec fn page_ids(&self) -> Seq<String> {
        self.data@.map_values(|x: OrderReturn| x.id)
    }

    open spec fn page_has_more(&self) -> bool {
        self.has_more
    }

    fn get_from_to(&self) -> (r: Option<(String, String)>) {
        if self.data.len() == 0 {
            return None;
        }
        Some((self.data[0].id.clone(), self.data[self.data.len() - 1].id.clone()))
    }

    fn get_has_more(&self) -> (r: bool) {
        self.has_more
    }
}

/// Stripe API location: `/v1/orders.get.200.GetOrdersRes`.
#[derive(Debug)]
pub struct GetOrdersRes {
    pub object: UniStrObject344B0E,
    pub data: Vec<Order>,
    pub has_more: bool,
    pub url: String,
}

impl PageMeta for GetOrdersRes {
    open spec fn page_ready(&self) -> bool {
        true
    }

    open spec fn page_ids(&self) -> Seq<String> {
        self.data@.map_values(|x: Order| x.id)
    }

    open spec fn page_has_more(&self) -> bool {
        self.has_more
    }

    fn get_from_to(&self) -> (r: Option<(String, String)>) {
        if self.data.len() == 0 {
            return None;
        }
        Some((self.data[0].id.clone(), self.data[self.data.len() - 1].id.clone()))
    }

    fn get_has_more(&self) -> (r: bool) {
        self.has_more
    }
}

/// Stripe API location: `/v1/payment_intents.get.200.GetPaymentIntentsRes`.
#[derive(Debug)]
pub struct PaymentFlowsPaymentIntentList {
    pub object: UniStrObject344B0E,
    pub data: Vec<PaymentIntent>,
    pub has_more: bool,
    pub url: String,
}

impl PageMeta for PaymentFlowsPaymentIntentList {
    open spec fn page_ready(&self) -> bool {
        true
    }

    open spec fn page_ids(&self) -> Seq<String> {
        self.data@.map_values(|x: PaymentIntent| x.id)
    }

    open spec fn page_has_more(&self) -> bool {
        self.has_more
    }

    fn get_from_to(&self) -> (r: Option<(String, String)>) {
        if self.data.len() == 0 {
            return None;
        }
        Some((self.data[0].id.clone(), self.data[self.data.len() - 1].id.clone()))
    }

    fn get_has_more(&self) -> (r: bool) {
        self.has_more
    }
}

/// Stripe API location: `/v1/payment_methods.get.200.GetPaymentMethodsRes`.
#[derive(Debug)]
pub struct PaymentFlowsPaymentMethodList {
    pub object: UniStrObject344B0E,
    pub data: Vec<PaymentMethod>,
    pub has_more: bool,
    pub url: String,
}

impl PageMeta for PaymentFlowsPaymentMethodList {
    open spec fn page_ready(&self) -> bool {
        true
    }

    open spec fn page_ids(&self) -> Seq<String> {
        self.data@.map_values(|x: PaymentMethod| x.id)
    }

    open spec fn page_has_more(&self) -> bool {
        self.has_more
    }

    fn get_from_to(&self) -> (r: Option<(String, String)>) {
        if self.data.len() == 0 {
            return None;
        }
        Some((self.data[0].id.clone(), self.data[self.data.len() - 1].id.clone()))
    }

    fn get_has_more(&self) -> (r: bool) {
        self.has_more
    }
}

/// Stripe API location: `/v1/payouts.get.200.GetPayoutsRes`.
#[derive(Debug)]
pub struct PayoutList {
    pub object: UniStrObject344B0E,
    pub data: Vec<Payout>,
    pub has_more: bool,
    pub url: String,
}

impl PageMeta for PayoutList {
    open spec fn page_ready(&self) -> bool {
        true
    }

    open spec fn page_ids(&self) -> Seq<String> {
        self.data@.map_values(|x: Payout| x.id)
    }

    open spec fn page_has_more(&self) -> bool {
        self.has_more
    }

    fn get_from_to(&self) -> (r: Option<(String, String)>) {
        if self.data.len() == 0 {
            return None;
        }
        Some((self.data[0].id.clone(), self.data[self.data.len() - 1].id.clone()))
    }

    fn get_has_more(&self) -> (r: bool) {
        self.has_more
    }
}

/// Stripe API location: `/v1/plans.get.200.GetPlansRes`.
#[derive(Debug, Clone)]
pub struct PlanList {
    pub object: UniStrObject344B0E,
    pub data: Vec<Plan>,
    pub has_more: bool,
    pub url: String,
}

impl PageMeta for PlanList {
    open spec fn page_ready(&self) -> bool {
        true
    }

    open spec fn page_ids(&self) -> Seq<String> {
        self.data@.map_values(|x: Plan| x.id)
    }

    open spec fn page_has_more(&self) -> bool {
        self.has_more
    }

    fn get_from_to(&self) -> (r: Option<(String, String)>) {
        if self.data.len() == 0 {
            return None;
        }
        Some((self.data[0].id.clone(), self.data[self.data.len() - 1].id.clone()))
    }

    fn get_has_more(&self) -> (r: bool) {
        self.has_more
    }
}

/// Stripe API location: `/v1/prices.get.200.GetPricesRes`.
#[derive(Debug, Clone)]
pub struct PriceList {
    pub object: UniStrObject344B0E,
    pub data: Vec<Price>,
    pub has_more: bool,
    pub url: String,
}

impl PageMeta for PriceList {
    open spec fn page_ready(&self) -> bool {
        true
    }

    open spec fn page_ids(&self) -> Seq<String> {
        self.data@.map_values(|x: Price| x.id)
    }

    open spec fn page_has_more(&self) -> bool {
        self.has_more
    }

    fn get_from_to(&self) -> (r: Option<(String, String)>) {
        if self.data.len() == 0 {
            return None;
        }
        Some((self.data[0].id.clone(), self.data[self.data.len() - 1].id.clone()))
    }

    fn get_has_more(&self) -> (r: bool) {
        self.has_more
    }
}

/// Stripe API location: `/v1/products.get.200.GetProductsRes`.
#[derive(Debug, Clone)]
pub struct GetProductsRes {
    pub object: UniStrObject344B0E,
    pub data: Vec<Product>,
    pub has_more: bool,
    pub url: String,
}

impl PageMeta for GetProductsRes {
    open spec fn page_ready(&self) -> bool {
        true
    }

    open spec fn page_ids(&self) -> Seq<String> {
        self.data@.map_values(|x: Product| x.id)
    }

    open spec fn page_has_more(&self) -> bool {
        self.has_more
    }

    fn get_from_to(&self) -> (r: Option<(String, String)>) {
        if self.data.len() == 0 {
            return None;
        }
        Some((self.data[0].id.clone(), self.data[self.data.len() - 1].id.clone()))
    }

    fn get_has_more(&self) -> (r: bool) {
        self.has_more
    }
}

/// Stripe API location: `/v1/promotion_codes.get.200.GetPromotionCodesRes`.
#[derive(Debug)]
pub struct GetPromotionCodesRes {
    pub object: UniStrObject344B0E,
    pub data: Vec<PromotionCode>,
    pub has_more: bool,
    pub url: String,
}

impl PageMeta for GetPromotionCodesRes {
    open spec fn page_ready(&self) -> bool {
        true
    }

    open spec fn page_ids(&self) -> Seq<String> {
        self.data@.map_values(|x: PromotionCode| x.id)
    }

    open spec fn page_has_more(&self) -> bool {
        self.has_more
    }

    fn get_from_to(&self) -> (r: Option<(String, String)>) {
        if self.data.len() == 0 {
            return None;
        }
        Some((self.data[0].id.clone(), self.data[self.data.len() - 1].id.clone()))
    }

    fn get_has_more(&self) -> (r: bool) {
        self.has_more
    }
}

/// Stripe API location: `/v1/radar/early_fraud_warnings.get.200.GetRadarEarlyFraudWarningsRes`.
#[derive(Debug)]
pub struct RadarEarlyFraudWarningList {
    pub object: UniStrObject344B0E,
    pub data: Vec<RadarEarlyFraudWarning>,
    pub has_more: bool,
    pub url: String,
}

impl PageMeta for RadarEarlyFraudWarningList {
    open spec fn page_ready(&self) -> bool {
        true
    }

    open spec fn page_ids(&self) -> Seq<String> {
        self.data@.map_values(|x: RadarEarlyFraudWarning| x.id)
    }

    open spec fn page_has_more(&self) -> bool {
        self.has_more
    }

    fn get_from_to(&self) -> (r: Option<(String, String)>) {
        if self.data.len() == 0 {
            return None;
        }
        Some((self.data[0].id.clone(), self.data[self.data.len() - 1].id.clone()))
    }

    fn get_has_more(&self) -> (r: bool) {
        self.has_more
    }
}

/// Stripe API location: `/v1/radar/value_list_items.get.200.GetRadarValueListItemsRes`.
#[derive(Debug, Clone)]
pub struct GetRadarValueListItemsRes {
    pub object: UniStrObject344B0E,
    pub data: Vec<RadarListListItem>,
    pub has_more: bool,
    pub url: String,
}

impl PageMeta for GetRadarValueListItemsRes {
    open spec fn page_ready(&self) -> bool {
        true
    }

    open spec fn page_ids(&self) -> Seq<String> {
        self.data@.map_values(|x: RadarListListItem| x.id)
    }

    open spec fn page_has_more(&self) -> bool {
        self.has_more
    }

    fn get_from_to(&self) -> (r: Option<(String, String)>) {
        if self.data.len() == 0 {
            return None;
        }
        Some((self.data[0].id.clone(), self.data[self.data.len() - 1].id.clone()))
    }

    fn get_has_more(&self) -> (r: bool) {
        self.has_more
    }
}

/// Stripe API location: `/v1/radar/value_lists.get.200.GetRadarValueListsRes`.
#[derive(Debug, Clone)]
pub struct GetRadarValueListsRes {
    pub object: UniStrObject344B0E,
    pub data: Vec<RadarListList>,
    pub has_more: bool,
    pub url: String,
}

impl PageMeta for GetRadarValueListsRes {
    open spec fn page_ready(&self) -> bool {
        true
    }

    open spec fn page_ids(&self) -> Seq<String> {
        self.data@.map_values(|x: RadarListList| x.id)
    }

    open spec fn page_has_more(&self) -> bool {
        self.has_more
    }

    fn get_from_to(&self) -> (r: Option<(String, String)>) {
        if self.data.len() == 0 {
            return None;
        }
        Some((self.data[0].id.clone(), self.data[self.data.len() - 1].id.clone()))
    }

    fn get_has_more(&self) -> (r: bool) {
        self.has_more
    }
}

/// Stripe API location: `/v1/recipients.get.200.GetRecipientsRes`.
#[derive(Debug)]
pub struct GetRecipientsRes {
    pub object: UniStrObject344B0E,
    pub data: Vec<TransferRecipient>,
    pub has_more: bool,
    pub url: String,
}

impl PageMeta for GetRecipientsRes {
    open spec fn page_ready(&self) -> bool {
        true
    }

    open spec fn page_ids(&self) -> Seq<String> {
        self.data@.map_values(|x: TransferRecipient| x.id)
    }

    open spec fn page_has_more(&self) -> bool {
        self.has_more
    }

    fn get_from_to(&self) -> (r: Option<(String, String)>) {
        if self.data.len() == 0 {
            return None;
        }
        Some((self.data[0].id.clone(), self.data[self.data.len() - 1].id.clone()))
    }

    fn get_has_more(&self) -> (r: bool) {
        self.has_more
    }
}

/// Stripe API location: `/v1/recipients/{id}.get.200.GetRecipientsIdRes`.
/// Encoded in JSON without a tag: the variant is chosen by the shape of the value.
#[derive(Debug)]
pub enum UniGetRecipientsIdRes {
    TransferRecipient(TransferRecipient),
    DeletedTransferRecipient(DeletedTransferRecipient),
}

/// Stripe API location: `/v1/refunds.get.200.GetRefundsRes`.
#[derive(Debug)]
pub struct GetRefundsRes {
    pub object: UniStrObject344B0E,
    pub data: Vec<Refund>,
    pub has_more: bool,
    pub url: String,
}

impl PageMeta for GetRefundsRes {
    open spec fn page_ready(&self) -> bool {
        true
    }

    open spec fn page_ids(&self) -> Seq<String> {
        self.data@.map_values(|x: Refund| x.id)
    }

    open spec fn page_has_more(&self) -> bool {
        self.has_more
    }

    fn get_from_to(&self) -> (r: Option<(String, String)>) {
        if self.data.len() == 0 {
            return None;
        }
        Some((self.data[0].id.clone(), self.data[self.data.len() - 1].id.clone()))
    }

    fn get_has_more(&self) -> (r: bool) {
        self.has_more
    }
}

/// Stripe API location: `/v1/reporting/report_runs.get.200.GetReportingReportRunsRes`.
#[derive(Debug)]
pub struct GetReportingReportRunsRes {
    pub object: UniStrObject344B0E,
    pub data: Vec<ReportingReportRun>,
    pub has_more: bool,
    pub url: String,
}

impl PageMeta for GetReportingReportRunsRes {
    open spec fn page_ready(&self) -> bool {
        true
    }

    open spec fn page_ids(&self) -> Seq<String> {
        self.data@.map_values(|x: ReportingReportRun| x.id)
    }

    open spec fn page_has_more(&self) -> bool {
        self.has_more
    }

    fn get_from_to(&self) -> (r: Option<(String, String)>) {
        if self.data.len() == 0 {
            return None;
        }
        Some((self.data[0].id.clone(), self.data[self.data.len() - 1].id.clone()))
    }

    fn get_has_more(&self) -> (r: bool) {
        self.has_more
    }
}

/// Stripe API location: `/v1/reporting/report_types.get.200.GetReportingReportTypesRes`.
#[derive(Debug, Clone)]
pub struct FinancialReportingFinanceReportTypeList {
    pub object: UniStrObject344B0E,
    pub data: Vec<ReportingReportType>,
    pub has_more: bool,
    pub url: String,
}

impl PageMeta for FinancialReportingFinanceReportTypeList {
    open spec fn page_ready(&self) -> bool {
        true
    }

    open spec fn page_ids(&self) -> Seq<String> {
        self.data@.map_values(|x: ReportingReportType| x.id)
    }

    open spec fn page_has_more(&self) -> bool {
        self.has_more
    }

    fn get_from_to(&self) -> (r: Option<(String, String)>) {
        if self.data.len() == 0 {
            return None;
        }
        Some((self.data[0].id.clone(), self.data[self.data.len() - 1].id.clone()))
    }

    fn get_has_more(&self) -> (r: bool) {
        self.has_more
    }
}

/// Stripe API location: `/v1/reviews.get.200.GetReviewsRes`.
#[derive(Debug)]
pub struct GetReviewsRes {
    pub object: UniStrObject344B0E,
    pub data: Vec<RadarReview>,
    pub has_more: bool,
    pub url: String,
}

impl PageMeta for GetReviewsRes {
    open spec fn page_ready(&self) -> bool {
        true
    }

    open spec fn page_ids(&self) -> Seq<String> {
        self.data@.map_values(|x: RadarReview| x.id)
    }

    open spec fn page_has_more(&self) -> bool {
        self.has_more
    }

    fn get_from_to(&self) -> (r: Option<(String, String)>) {
        if self.data.len() == 0 {
            return None;
        }
        Some((self.data[0].id.clone(), self.data[self.data.len() - 1].id.clone()))
    }

    fn get_has_more(&self) -> (r: bool) {
        self.has_more
    }
}

/// Stripe API location: `/v1/setup_attempts.get.200.GetSetupAttemptsRes`.
#[derive(Debug)]
pub struct PaymentFlowsSetupIntentSetupAttemptList {
    pub object: UniStrObject344B0E,
    pub data: Vec<PaymentFlowsSetupIntentSetupAttempt>,
    pub has_more: bool,
    pub url: String,
}

impl PageMeta for PaymentFlowsSetupIntentSetupAttemptList {
    open spec fn page_ready(&self) -> bool {
        true
    }

    open spec fn page_ids(&self) -> Seq<String> {
        self.data@.map_values(|x: PaymentFlowsSetupIntentSetupAttempt| x.id)
    }

    open spec fn page_has_more(&self) -> bool {
        self.has_more
    }

    fn get_from_to(&self) -> (r: Option<(String, String)>) {
        if self.data.len() == 0 {
            return None;
        }
        Some((self.data[0].id.clone(), self.data[self.data.len() - 1].id.clone()))
    }

    fn get_has_more(&self) -> (r: bool) {
        self.has_more
    }
}

/// Stripe API location: `/v1/setup_intents.get.200.GetSetupIntentsRes`.
#[derive(Debug)]
pub struct PaymentFlowsSetupIntentList {
    pub object: UniStrObject344B0E,
    pub data: Vec<SetupIntent>,
    pub has_more: bool,
    pub url: String,
}

impl PageMeta for PaymentFlowsSetupIntentList {
    open spec fn page_ready(&self) -> bool {
        true
    }

    open spec fn page_ids(&self) -> Seq<String> {
        self.data@.map_values(|x: SetupIntent| x.id)
    }

    open spec fn page_has_more(&self) -> bool {
        self.has_more
    }

    fn get_from_to(&self) -> (r: Option<(String, String)>) {
        if self.data.len() == 0 {
            return None;
        }
        Some((self.data[0].id.clone(), self.data[self.data.len() - 1].id.clone()))
    }

    fn get_has_more(&self) -> (r: bool) {
        self.has_more
    }
}

/// Stripe API location: `/v1/sigma/scheduled_query_runs.get.200.GetSigmaScheduledQueryRunsRes`.
#[derive(Debug)]
pub struct GetSigmaScheduledQueryRunsRes {
    pub object: UniStrObject344B0E,
    pub data: Vec<ScheduledQueryRun>,
    pub has_more: bool,
    pub url: String,
}

impl PageMeta for GetSigmaScheduledQueryRunsRes {
    open spec fn page_ready(&self) -> bool {
        true
    }

    open spec fn page_ids(&self) -> Seq<String> {
        self.data@.map_values(|x: ScheduledQueryRun| x.id)
    }

    open spec fn page_has_more(&self) -> bool {
        self.has_more
    }

    fn get_from_to(&self) -> (r: Option<(String, String)>) {
        if self.data.len() == 0 {
            return None;
        }
        Some((self.data[0].id.clone(), self.data[self.data.len() - 1].id.clone()))
    }

    fn get_has_more(&self) -> (r: bool) {
        self.has_more
    }
}

/// Stripe API location: `/v1/skus.get.200.GetSkusRes`.
#[derive(Debug, Clone)]
pub struct GetSkusRes {
    pub object: UniStrObject344B0E,
    pub data: Vec<Sku>,
    pub has_more: bool,
    pub url: String,
}

impl PageMeta for GetSkusRes {
    open spec fn page_ready(&self) -> bool {
        true
    }

    open spec fn page_ids(&self) -> Seq<String> {
        self.data@.map_values(|x: Sku| x.id)
    }

    open spec fn page_has_more(&self) -> bool {
        self.has_more
    }

    fn get_from_to(&self) -> (r: Option<(String, String)>) {
        if self.data.len() == 0 {
            return None;
        }
        Some((self.data[0].id.clone(), self.data[self.data.len() - 1].id.clone()))
    }

    fn get_has_more(&self) -> (r: bool) {
        self.has_more
    }
}

/// Stripe API location: `/v1/skus/{id}.get.200.GetSkusIdRes`.
/// Encoded in JSON without a tag: the variant is chosen by the shape of the value.
#[derive(Debug, Clone)]
pub enum UniGetSkusIdRes {
    Sku(Sku),
    DeletedSku(DeletedSku),
}

/// Stripe API location: `/v1/sources/{source}/source_transactions.get.200.GetSourcesSourceSourceTransactionsRes`.
#[derive(Debug, Clone)]
pub struct ApmsSourcesSourceTransactionList {
    pub object: UniStrObject344B0E,
    pub data: Vec<SourceTransaction>,
    pub has_more: bool,
    pub url: String,
}

impl PageMeta for ApmsSourcesSourceTransactionList {
    open spec fn page_ready(&self) -> bool {
        true
    }

    open spec fn page_ids(&self) -> Seq<String> {
        self.data@.map_values(|x: SourceTransaction| x.id)
    }

    open spec fn page_has_more(&self) -> bool {
        self.has_more
    }

    fn get_from_to(&self) -> (r: Option<(String, String)>) {
        if self.data.len() == 0 {
            return None;
        }
        Some((self.data[0].id.clone(), self.data[self.data.len() - 1].id.clone()))
    }

    fn get_has_more(&self) -> (r: bool) {
        self.has_more
    }
}

/// Stripe API location: `/v1/subscription_items.get.200.GetSubscriptionItemsRes`.
#[derive(Debug, Clone)]
pub struct GetSubscriptionItemsRes {
    pub object: UniStrObject344B0E,
    pub data: Vec<SubscriptionItem>,
    pub has_more: bool,
    pub url: String,
}

impl PageMeta for GetSubscriptionItemsRes {
    open spec fn page_ready(&self) -> bool {
        true
    }

    open spec fn page_ids(&self) -> Seq<String> {
        self.data@.map_values(|x: SubscriptionItem| x.id)
    }

    open spec fn page_has_more(&self) -> bool {
        self.has_more
    }

    fn get_from_to(&self) -> (r: Option<(String, String)>) {
        if self.data.len() == 0 {
            return None;
        }
        Some((self.data[0].id.clone(), self.data[self.data.len() - 1].id.clone()))
    }

    fn get_has_more(&self) -> (r: bool) {
        self.has_more
    }
}

/// Stripe API location: `/v1/subscription_items/{subscription_item}/usage_record_summaries.get.200.GetSubscriptionItemsSubscriptionItemUsageRecordSummariesRes`.
#[derive(Debug, Clone)]
pub struct GetSubscriptionItemsSubscriptionItemUsageRecordSummariesRes {
    pub object: UniStrObject344B0E,
    pub data: Vec<UsageRecordSummary>,
    pub has_more: bool,
    pub url: String,
}

impl PageMeta for GetSubscriptionItemsSubscriptionItemUsageRecordSummariesRes {
    open spec fn page_ready(&self) -> bool {
        true
    }

    open spec fn page_ids(&self) -> Seq<String> {
        self.data@.map_values(|x: UsageRecordSummary| x.id)
    }

    open spec fn page_has_more(&self) -> bool {
        self.has_more
    }

    fn get_from_to(&self) -> (r: Option<(String, String)>) {
        if self.data.len() == 0 {
            return None;
        }
        Some((self.data[0].id.clone(), self.data[self.data.len() - 1].id.clone()))
    }

    fn get_has_more(&self) -> (r: bool) {
        self.has_more
    }
}

/// Stripe API location: `/v1/subscription_schedules.get.200.GetSubscriptionSchedulesRes`.
#[derive(Debug)]
pub struct GetSubscriptionSchedulesRes {
    pub object: UniStrObject344B0E,
    pub data: Vec<SubscriptionSchedule>,
    pub has_more: bool,
    pub url: String,
}

impl PageMeta for GetSubscriptionSchedulesRes {
    open spec fn page_ready(&self) -> bool {
        true
    }

    open spec fn page_ids(&self) -> Seq<String> {
        self.data@.map_values(|x: SubscriptionSchedule| x.id)
    }

    open spec fn page_has_more(&self) -> bool {
        self.has_more
    }

    fn get_from_to(&self) -> (r: Option<(String, String)>) {
        if self.data.len() == 0 {
            return None;
        }
        Some((self.data[0].id.clone(), self.data[self.data.len() - 1].id.clone()))
    }

    fn get_has_more(&self) -> (r: bool) {
        self.has_more
    }
}

/// Stripe API location: `/v1/subscriptions.get.200.GetSubscriptionsRes`.
#[derive(Debug)]
pub struct GetSubscriptionsRes {
    pub object: UniStrObject344B0E,
    pub data: Vec<Subscription>,
    pub has_more: bool,
    pub url: String,
}

impl PageMeta for GetSubscriptionsRes {
    open spec fn page_ready(&self) -> bool {
        true
    }

    open spec fn page_ids(&self) -> Seq<String> {
        self.data@.map_values(|x: Subscription| x.id)
    }

    open spec fn page_has_more(&self) -> bool {
        self.has_more
    }

    fn get_from_to(&self) -> (r: Option<(String, String)>) {
        if self.data.len() == 0 {
            return None;
        }
        Some((self.data[0].id.clone(), self.data[self.data.len() - 1].id.clone()))
    }

    fn get_has_more(&self) -> (r: bool) {
        self.has_more
    }
}

/// Stripe API location: `/v1/tax_rates.get.200.GetTaxRatesRes`.
#[derive(Debug, Clone)]
pub struct GetTaxRatesRes {
    pub object: UniStrObject344B0E,
    pub data: Vec<TaxRate>,
    pub has_more: bool,
    pub url: String,
}

impl PageMeta for GetTaxRatesRes {
    open spec fn page_ready(&self) -> bool {
        true
    }

    open spec fn page_ids(&self) -> Seq<String> {
        self.data@.map_values(|x: TaxRate| x.id)
    }

    open spec fn page_has_more(&self) -> bool {
        self.has_more
    }

    fn get_from_to(&self) -> (r: Option<(String, String)>) {
        if self.data.len() == 0 {
            return None;
        }
        Some((self.data[0].id.clone(), self.data[self.data.len() - 1].id.clone()))
    }

    fn get_has_more(&self) -> (r: bool) {
        self.has_more
    }
}

/// Stripe API location: `/v1/terminal/locations.get.200.GetTerminalLocationsRes`.
#[derive(Debug, Clone)]
pub struct TerminalLocationLocationList {
    pub object: UniStrObject344B0E,
    pub data: Vec<TerminalLocationLocation>,
    pub has_more: bool,
    pub url: String,
}

impl PageMeta for TerminalLocationLocationList {
    open spec fn page_ready(&self) -> bool {
        true
    }

    open spec fn page_ids(&self) -> Seq<String> {
        self.data@.map_values(|x: TerminalLocationLocation| x.id)
    }

    open spec fn page_has_more(&self) -> bool {
        self.has_more
    }

    fn get_from_to(&self) -> (r: Option<(String, String)>) {
        if self.data.len() == 0 {
            return None;
        }
        Some((self.data[0].id.clone(), self.data[self.data.len() - 1].id.clone()))
    }

    fn get_has_more(&self) -> (r: bool) {
        self.has_more
    }
}

/// Stripe API location: `/v1/terminal/readers.get.200.GetTerminalReadersRes`.
#[derive(Debug, Clone)]
pub struct TerminalReaderRetrieveReader {
    pub object: UniStrObject344B0E,
    pub data: Vec<TerminalReaderReader>,
    pub has_more: bool,
    pub url: String,
}

impl PageMeta for TerminalReaderRetrieveReader {
    open spec fn page_ready(&self) -> bool {
        true
    }

    open spec fn page_ids(&self) -> Seq<String> {
        self.data@.map_values(|x: TerminalReaderReader| x.id)
    }

    open spec fn page_has_more(&self) -> bool {
        self.has_more
    }

    fn get_from_to(&self) -> (r: Option<(String, String)>) {
        if self.data.len() == 0 {
            return None;
        }
        Some((self.data[0].id.clone(), self.data[self.data.len() - 1].id.clone()))
    }

    fn get_has_more(&self) -> (r: bool) {
        self.has_more
    }
}

/// Stripe API location: `/v1/topups.get.200.GetTopupsRes`.
#[derive(Debug)]
pub struct TopupList {
    pub object: UniStrObject344B0E,
    pub data: Vec<Topup>,
    pub has_more: bool,
    pub url: String,
}

impl PageMeta for TopupList {
    open spec fn page_ready(&self) -> bool {
        true
    }

    open spec fn page_ids(&self) -> Seq<String> {
        self.data@.map_values(|x: Topup| x.id)
    }

    open spec fn page_has_more(&self) -> bool {
        self.has_more
    }

    fn get_from_to(&self) -> (r: Option<(String, String)>) {
        if self.data.len() == 0 {
            return None;
        }
        Some((self.data[0].id.clone(), self.data[self.data.len() - 1].id.clone()))
    }

    fn get_has_more(&self) -> (r: bool) {
        self.has_more
    }
}

/// Stripe API location: `/v1/transfers.get.200.GetTransfersRes`.
#[derive(Debug)]
pub struct TransferList {
    pub object: UniStrObject344B0E,
    pub data: Vec<Transfer>,
    pub has_more: bool,
    pub url: String,
}

impl PageMeta for TransferList {
    open spec fn page_ready(&self) -> bool {
        true
    }

    open spec fn page_ids(&self) -> Seq<String> {
        self.data@.map_values(|x: Transfer| x.id)
    }

    open spec fn page_has_more(&self) -> bool {
        self.has_more
    }

    fn get_from_to(&self) -> (r: Option<(String, String)>) {
        if self.data.len() == 0 {
            return None;
        }
        Some((self.data[0].id.clone(), self.data[self.data.len() - 1].id.clone()))
    }

    fn get_has_more(&self) -> (r: bool) {
        self.has_more
    }
}

/// Stripe API location: `/v1/transfers/{id}/reversals.get.200.GetTransfersIdReversalsRes`.
#[derive(Debug)]
pub struct TransferReversalList620BF1 {
    pub object: UniStrObject344B0E,
    pub data: Vec<TransferReversal>,
    pub has_more: bool,
    pub url: String,
}

impl PageMeta for TransferReversalList620BF1 {
    open spec fn page_ready(&self) -> bool {
        true
    }

    open spec fn page_ids(&self) -> Seq<String> {
        self.data@.map_values(|x: TransferReversal| x.id)
    }

    open spec fn page_has_more(&self) -> bool {
        self.has_more
    }

    fn get_from_to(&self) -> (r: Option<(String, String)>) {
        if self.data.len() == 0 {
            return None;
        }
        Some((self.data[0].id.clone(), self.data[self.data.len() - 1].id.clone()))
    }

    fn get_has_more(&self) -> (r: bool) {
        self.has_more
    }
}

/// Stripe API location: `/v1/webhook_endpoints.get.200.GetWebhookEndpointsRes`.
#[derive(Debug, Clone)]
pub struct GetWebhookEndpointsRes {
    pub object: UniStrObject344B0E,
    pub data: Vec<NotificationWebhookEndpoint>,
    pub has_more: bool,
    pub url: String,
}

impl PageMeta for GetWebhookEndpointsRes {
    open spec fn page_ready(&self) -> bool {
        true
    }

    open spec fn page_ids(&self) -> Seq<String> {
        self.data@.map_values(|x: NotificationWebhookEndpoint| x.id)
    }

    open spec fn page_has_more(&self) -> bool {
        self.has_more
    }

    fn get_from_to(&self) -> (r: Option<(String, String)>) {
        if self.data.len() == 0 {
            return None;
        }
        Some((self.data[0].id.clone(), self.data[self.data.len() - 1].id.clone()))
    }

    fn get_has_more(&self) -> (r: bool) {
        self.has_more
    }
}

impl UniPolymorphic70BAFA {
    /// Whether `other` is the same variant as `self`, with the same payload where it is a plain
    /// value, and a payload that agrees by its own `clone_agrees` where it has one.
    pub open spec fn clone_agrees(&self, other: &Self) -> bool {
        match self {
            UniPolymorphic70BAFA::BankAccount(x) => other matches UniPolymorphic70BAFA::BankAccount(y) && x.clone_agrees(&y),
            UniPolymorphic70BAFA::Card(x) => other matches UniPolymorphic70BAFA::Card(y) && (*x).clone_agrees(&*y),
        }
    }
}

impl Clone for UniPolymorphic70BAFA {
    fn clone(&self) -> (r: Self)
        ensures
            self.clone_agrees(&r),
        decreases self,
    {
        match self {
            UniPolymorphic70BAFA::BankAccount(x) => UniPolymorphic70BAFA::BankAccount(x.clone()),
            UniPolymorphic70BAFA::Card(x) => UniPolymorphic70BAFA::Card(Box::new((&**x).clone())),
        }
    }
}

impl UniPolymorphic646C3F {
    /// Whether `other` is the same variant as `self`, with the same payload where it is a plain
    /// value, and a payload that agrees by its own `clone_agrees` where it has one.
    pub open spec fn clone_agrees(&self, other: &Self) -> bool {
        match self {
            UniPolymorphic646C3F::AlipayAccount(x) => other matches UniPolymorphic646C3F::AlipayAccount(y) && x.clone_agrees(&y),
            UniPolymorphic646C3F::BankAccount(x) => other matches UniPolymorphic646C3F::BankAccount(y) && x.clone_agrees(&y),
            UniPolymorphic646C3F::BitcoinReceiver(_) => other is BitcoinReceiver,
            UniPolymorphic646C3F::Card(x) => other matches UniPolymorphic646C3F::Card(y) && (*x).clone_agrees(&*y),
            UniPolymorphic646C3F::Source(_) => other is Source,
        }
    }
}

impl Clone for UniPolymorphic646C3F {
    fn clone(&self) -> (r: Self)
        ensures
            self.clone_agrees(&r),
        decreases self,
    {
        match self {
            UniPolymorphic646C3F::AlipayAccount(x) => UniPolymorphic646C3F::AlipayAccount(x.clone()),
            UniPolymorphic646C3F::BankAccount(x) => UniPolymorphic646C3F::BankAccount(x.clone()),
            UniPolymorphic646C3F::BitcoinReceiver(x) => UniPolymorphic646C3F::BitcoinReceiver(x.clone()),
            UniPolymorphic646C3F::Card(x) => UniPolymorphic646C3F::Card(Box::new((&**x).clone())),
            UniPolymorphic646C3F::Source(x) => UniPolymorphic646C3F::Source(x.clone()),
        }
    }
}

impl ListAccountCapability {
    /// Whether `other` copies the fields of `self` that are plain values (`has_more`, `url`).
    pub open spec fn clone_agrees(&self, other: &Self) -> bool {
        &&& self.has_more == other.has_more
        &&& self.url == other.url
    }
}

impl Clone for ListAccountCapability {
    fn clone(&self) -> (r: Self)
        ensures
            self.clone_agrees(&r),
        decreases self,
    {
        ListAccountCapability {
            object: self.object.clone(),
            data: crate::types::clone_vec_account_capability(&self.data),
            has_more: self.has_more,
            url: self.url.clone(),
        }
    }
}

impl ExternalAccountListADE54B {
    /// Whether `other` copies the fields of `self` that are plain values (`has_more`, `url`).
    pub open spec fn clone_agrees(&self, other: &Self) -> bool {
        &&& self.has_more == other.has_more
        &&& self.url == other.url
    }
}

impl Clone for ExternalAccountListADE54B {
    fn clone(&self) -> (r: Self)
        ensures
            self.clone_agrees(&r),
        decreases self,
    {
        ExternalAccountListADE54B {
            object: self.object.clone(),
            data: crate::responses::clone_vec_uni_polymorphic70_b_a_f_a(&self.data),
            has_more: self.has_more,
            url: self.url.clone(),
        }
    }
}

impl GetAccountPeopleRes {
    /// Whether `other` copies the fields of `self` that are plain values (`has_more`, `url`).
    pub open spec fn clone_agrees(&self, other: &Self) -> bool {
        &&& self.has_more == other.has_more
        &&& self.url == other.url
    }
}

impl Clone for GetAccountPeopleRes {
    fn clone(&self) -> (r: Self)
        ensures
            self.clone_agrees(&r),
        decreases self,
    {
        GetAccountPeopleRes {
            object: self.object.clone(),
            data: crate::types::clone_vec_person(&self.data),
            has_more: self.has_more,
            url: self.url.clone(),
        }
    }
}

impl GetAccountsRes {
    /// Whether `other` copies the fields of `self` that are plain values (`has_more`, `url`).
    pub open spec fn clone_agrees(&self, other: &Self) -> bool {
        &&& self.has_more == other.has_more
        &&& self.url == other.url
    }
}

impl Clone for GetAccountsRes {
    fn clone(&self) -> (r: Self)
        ensures
            self.clone_agrees(&r),
        decreases self,
    {
        GetAccountsRes {
            object: self.object.clone(),
            data: crate::types::clone_vec_account(&self.data),
            has_more: self.has_more,
            url: self.url.clone(),
        }
    }
}

impl GetApplicationFeesRes {
    /// Whether `other` copies the fields of `self` that are plain values (`has_more`, `url`).
    pub open spec fn clone_agrees(&self, other: &Self) -> bool {
        &&& self.has_more == other.has_more
        &&& self.url == other.url
    }
}

impl Clone for GetApplicationFeesRes {
    fn clone(&self) -> (r: Self)
        ensures
            self.clone_agrees(&r),
        decreases self,
    {
        GetApplicationFeesRes {
            object: self.object.clone(),
            data: crate::types::clone_vec_platform_fee(&self.data),
            has_more: self.has_more,
            url: self.url.clone(),
        }
    }
}

impl FeeRefundListFDC0D1 {
    /// Whether `other` copies the fields of `self` that are plain values (`has_more`, `url`).
    pub open spec fn clone_agrees(&self, other: &Self) -> bool {
        &&& self.has_more == other.has_more
        &&& self.url == other.url
    }
}

impl Clone for FeeRefundListFDC0D1 {
    fn clone(&self) -> (r: Self)
        ensures
            self.clone_agrees(&r),
        decreases self,
    {
        FeeRefundListFDC0D1 {
            object: self.object.clone(),
            data: crate::types::clone_vec_fee_refund(&self.data),
            has_more: self.has_more,
            url: self.url.clone(),
        }
    }
}

impl BalanceTransactionsList {
    /// Whether `other` copies the fields of `self` that are plain values (`has_more`, `url`).
    pub open spec fn clone_agrees(&self, other: &Self) -> bool {
        &&& self.has_more == other.has_more
        &&& self.url == other.url
    }
}

impl Clone for BalanceTransactionsList {
    fn clone(&self) -> (r: Self)
        ensures
            self.clone_agrees(&r),
        decreases self,
    {
        BalanceTransactionsList {
            object: self.object.clone(),
            data: crate::types::clone_vec_balance_transaction(&self.data),
            has_more: self.has_more,
            url: self.url.clone(),
        }
    }
}

impl GetChargesRes {
    /// Whether `other` copies the fields of `self` that are plain values (`has_more`, `url`).
    pub open spec fn clone_agrees(&self, other: &Self) -> bool {
        &&& self.has_more == other.has_more
        &&& self.url == other.url
    }
}

impl Clone for GetChargesRes {
    fn clone(&self) -> (r: Self)
        ensures
            self.clone_agrees(&r),
        decreases self,
    {
        GetChargesRes {
            object: self.object.clone(),
            data: crate::types::clone_vec_charge(&self.data),
            has_more: self.has_more,
            url: self.url.clone(),
        }
    }
}

impl RefundListBBCF51 {
    /// Whether `other` copies the fields of `self` that are plain values (`has_more`, `url`).
    pub open spec fn clone_agrees(&self, other: &Self) -> bool {
        &&& self.has_more == other.has_more
        &&& self.url == other.url
    }
}

impl Clone for RefundListBBCF51 {
    fn clone(&self) -> (r: Self)
        ensures
            self.clone_agrees(&r),
        decreases self,
    {
        RefundListBBCF51 {
            object: self.object.clone(),
            data: crate::types::clone_vec_refund(&self.data),
            has_more: self.has_more,
            url: self.url.clone(),
        }
    }
}

impl PaymentPagesCheckoutSessionList {
    /// Whether `other` copies the fields of `self` that are plain values (`has_more`, `url`).
    pub open spec fn clone_agrees(&self, other: &Self) -> bool {
        &&& self.has_more == other.has_more
        &&& self.url == other.url
    }
}

impl Clone for PaymentPagesCheckoutSessionList {
    fn clone(&self) -> (r: Self)
        ensures
            self.clone_agrees(&r),
        decreases self,
    {
        PaymentPagesCheckoutSessionList {
            object: self.object.clone(),
            data: crate::types::clone_vec_session(&self.data),
            has_more: self.has_more,
            url: self.url.clone(),
        }
    }
}

impl PaymentPagesCheckoutSessionListLineItems404A63 {
    /// Whether `other` copies the fields of `self` that are plain values (`has_more`, `url`).
    pub open spec fn clone_agrees(&self, other: &Self) -> bool {
        &&& self.has_more == other.has_more
        &&& self.url == other.url
    }
}

impl Clone for PaymentPagesCheckoutSessionListLineItems404A63 {
    fn clone(&self) -> (r: Self)
        ensures
            self.clone_agrees(&r),
        decreases self,
    {
        PaymentPagesCheckoutSessionListLineItems404A63 {
            object: self.object.clone(),
            data: crate::types::clone_vec_line_items(&self.data),
            has_more: self.has_more,
            url: self.url.clone(),
        }
    }
}

impl CreditNotesList {
    /// Whether `other` copies the fields of `self` that are plain values (`has_more`, `url`).
    pub open spec fn clone_agrees(&self, other: &Self) -> bool {
        &&& self.has_more == other.has_more
        &&& self.url == other.url
    }
}

impl Clone for CreditNotesList {
    fn clone(&self) -> (r: Self)
        ensures
            self.clone_agrees(&r),
        decreases self,
    {
        CreditNotesList {
            object: self.object.clone(),
            data: crate::types::clone_vec_credit_note(&self.data),
            has_more: self.has_more,
            url: self.url.clone(),
        }
    }
}

impl CreditNoteLinesList34EE1C {
    /// Whether `other` copies the fields of `self` that are plain values (`has_more`, `url`).
    pub open spec fn clone_agrees(&self, other: &Self) -> bool {
        &&& self.has_more == other.has_more
        &&& self.url == other.url
    }
}

impl Clone for CreditNoteLinesList34EE1C {
    fn clone(&self) -> (r: Self)
        ensures
            self.clone_agrees(&r),
        decreases self,
    {
        CreditNoteLinesList34EE1C {
            object: self.object.clone(),
            data: crate::types::clone_vec_credit_note_line_item(&self.data),
            has_more: self.has_more,
            url: self.url.clone(),
        }
    }
}

impl GetCustomersRes {
    /// Whether `other` copies the fields of `self` that are plain values (`has_more`, `url`).
    pub open spec fn clone_agrees(&self, other: &Self) -> bool {
        &&& self.has_more == other.has_more
        &&& self.url == other.url
    }
}

impl Clone for GetCustomersRes {
    fn clone(&self) -> (r: Self)
        ensures
            self.clone_agrees(&r),
        decreases self,
    {
        GetCustomersRes {
            object: self.object.clone(),
            data: crate::types::clone_vec_customer(&self.data),
            has_more: self.has_more,
            url: self.url.clone(),
        }
    }
}

impl UniGetCustomersCustomerRes {
    /// Whether `other` is the same variant as `self`, with the same payload where it is a plain
    /// value, and a payload that agrees by its own `clone_agrees` where it has one.
    pub open spec fn clone_agrees(&self, other: &Self) -> bool {
        match self {
            UniGetCustomersCustomerRes::Customer(x) => other matches UniGetCustomersCustomerRes::Customer(y) && (*x).clone_agrees(&*y),
            UniGetCustomersCustomerRes::DeletedCustomer(_) => other is DeletedCustomer,
        }
    }
}

impl Clone for UniGetCustomersCustomerRes {
    fn clone(&self) -> (r: Self)
        ensures
            self.clone_agrees(&r),
        decreases self,
    {
        match self {
            UniGetCustomersCustomerRes::Customer(x) => UniGetCustomersCustomerRes::Customer(Box::new((&**x).clone())),
            UniGetCustomersCustomerRes::DeletedCustomer(x) => UniGetCustomersCustomerRes::DeletedCustomer(x.clone()),
        }
    }
}

impl CustomerBalanceTransactionList {
    /// Whether `other` copies the fields of `self` that are plain values (`has_more`, `url`).
    pub open spec fn clone_agrees(&self, other: &Self) -> bool {
        &&& self.has_more == other.has_more
        &&& self.url == other.url
    }
}

impl Clone for CustomerBalanceTransactionList {
    fn clone(&self) -> (r: Self)
        ensures
            self.clone_agrees(&r),
        decreases self,
    {
        CustomerBalanceTransactionList {
            object: self.object.clone(),
            data: crate::types::clone_vec_customer_balance_transaction(&self.data),
            has_more: self.has_more,
            url: self.url.clone(),
        }
    }
}

impl BankAccountList {
    /// Whether `other` copies the fields of `self` that are plain values (`has_more`, `url`).
    pub open spec fn clone_agrees(&self, other: &Self) -> bool {
        &&& self.has_more == other.has_more
        &&& self.url == other.url
    }
}

impl Clone for BankAccountList {
    fn clone(&self) -> (r: Self)
        ensures
            self.clone_agrees(&r),
        decreases self,
    {
        BankAccountList {
            object: self.object.clone(),
            data: crate::types::clone_vec_bank_account(&self.data),
            has_more: self.has_more,
            url: self.url.clone(),
        }
    }
}

impl CardList81180B {
    /// Whether `other` copies the fields of `self` that are plain values (`has_more`, `url`).
    pub open spec fn clone_agrees(&self, other: &Self) -> bool {
        &&& self.has_more == other.has_more
        &&& self.url == other.url
    }
}

impl Clone for CardList81180B {
    fn clone(&self) -> (r: Self)
        ensures
            self.clone_agrees(&r),
        decreases self,
    {
        CardList81180B {
            object: self.object.clone(),
            data: crate::types::clone_vec_card(&self.data),
            has_more: self.has_more,
            url: self.url.clone(),
        }
    }
}

impl ApmsSourcesSourceListF0771E {
    /// Whether `other` copies the fields of `self` that are plain values (`has_more`, `url`).
    pub open spec fn clone_agrees(&self, other: &Self) -> bool {
        &&& self.has_more == other.has_more
        &&& self.url == other.url
    }
}

impl Clone for ApmsSourcesSourceListF0771E {
    fn clone(&self) -> (r: Self)
        ensures
            self.clone_agrees(&r),
        decreases self,
    {
        ApmsSourcesSourceListF0771E {
            object: self.object.clone(),
            data: crate::responses::clone_vec_uni_polymorphic646_c3_f(&self.data),
            has_more: self.has_more,
            url: self.url.clone(),
        }
    }
}

impl SubscriptionList5B5899 {
    /// Whether `other` copies the fields of `self` that are plain values (`has_more`, `url`).
    pub open spec fn clone_agrees(&self, other: &Self) -> bool {
        &&& self.has_more == other.has_more
        &&& self.url == other.url
    }
}

impl Clone for SubscriptionList5B5899 {
    fn clone(&self) -> (r: Self)
        ensures
            self.clone_agrees(&r),
        decreases self,
    {
        SubscriptionList5B5899 {
            object: self.object.clone(),
            data: crate::types::clone_vec_subscription(&self.data),
            has_more: self.has_more,
            url: self.url.clone(),
        }
    }
}

impl TaxIDsListAFDA6E {
    /// Whether `other` copies the fields of `self` that are plain values (`has_more`, `url`).
    pub open spec fn clone_agrees(&self, other: &Self) -> bool {
        &&& self.has_more == other.has_more
        &&& self.url == other.url
    }
}

impl Clone for TaxIDsListAFDA6E {
    fn clone(&self) -> (r: Self)
        ensures
            self.clone_agrees(&r),
        decreases self,
    {
        TaxIDsListAFDA6E {
            object: self.object.clone(),
            data: crate::types::clone_vec_tax_id(&self.data),
            has_more: self.has_more,
            url: self.url.clone(),
        }
    }
}

impl GetDisputesRes {
    /// Whether `other` copies the fields of `self` that are plain values (`has_more`, `url`).
    pub open spec fn clone_agrees(&self, other: &Self) -> bool {
        &&& self.has_more == other.has_more
        &&& self.url == other.url
    }
}

impl Clone for GetDisputesRes {
    fn clone(&self) -> (r: Self)
        ensures
            self.clone_agrees(&r),
        decreases self,
    {
        GetDisputesRes {
            object: self.object.clone(),
            data: crate::types::clone_vec_dispute(&self.data),
            has_more: self.has_more,
            url: self.url.clone(),
        }
    }
}

impl NotificationEventList {
    /// Whether `other` copies the fields of `self` that are plain values (`has_more`, `url`).
    pub open spec fn clone_agrees(&self, other: &Self) -> bool {
        &&& self.has_more == other.has_more
        &&& self.url == other.url
    }
}

impl Clone for NotificationEventList {
    fn clone(&self) -> (r: Self)
        ensures
            self.clone_agrees(&r),
        decreases self,
    {
        NotificationEventList {
            object: self.object.clone(),
            data: crate::types::clone_vec_notification_event(&self.data),
            has_more: self.has_more,
            url: self.url.clone(),
        }
    }
}

impl GetFileLinksRes {
    /// Whether `other` copies the fields of `self` that are plain values (`has_more`, `url`).
    pub open spec fn clone_agrees(&self, other: &Self) -> bool {
        &&& self.has_more == other.has_more
        &&& self.url == other.url
    }
}

impl Clone for GetFileLinksRes {
    fn clone(&self) -> (r: Self)
        ensures
            self.clone_agrees(&r),
        decreases self,
    {
        GetFileLinksRes {
            object: self.object.clone(),
            data: crate::types::clone_vec_file_link(&self.data),
            has_more: self.has_more,
            url: self.url.clone(),
        }
    }
}

impl GetFilesRes {
    /// Whether `other` copies the fields of `self` that are plain values (`has_more`, `url`).
    pub open spec fn clone_agrees(&self, other: &Self) -> bool {
        &&& self.has_more == other.has_more
        &&& self.url == other.url
    }
}

impl Clone for GetFilesRes {
    fn clone(&self) -> (r: Self)
        ensures
            self.clone_agrees(&r),
        decreases self,
    {
        GetFilesRes {
            object: self.object.clone(),
            data: crate::types::clone_vec_file(&self.data),
            has_more: self.has_more,
            url: self.url.clone(),
        }
    }
}

impl GetInvoiceitemsRes {
    /// Whether `other` copies the fields of `self` that are plain values (`has_more`, `url`).
    pub open spec fn clone_agrees(&self, other: &Self) -> bool {
        &&& self.has_more == other.has_more
        &&& self.url == other.url
    }
}

impl Clone for GetInvoiceitemsRes {
    fn clone(&self) -> (r: Self)
        ensures
            self.clone_agrees(&r),
        decreases self,
    {
        GetInvoiceitemsRes {
            object: self.object.clone(),
            data: crate::types::clone_vec_invoice_item(&self.data),
            has_more: self.has_more,
            url: self.url.clone(),
        }
    }
}

impl InvoicesList {
    /// Whether `other` copies the fields of `self` that are plain values (`has_more`, `url`).
    pub open spec fn clone_agrees(&self, other: &Self) -> bool {
        &&& self.has_more == other.has_more
        &&& self.url == other.url
    }
}

impl Clone for InvoicesList {
    fn clone(&self) -> (r: Self)
        ensures
            self.clone_agrees(&r),
        decreases self,
    {
        InvoicesList {
            object: self.object.clone(),
            data: crate::types::clone_vec_invoice(&self.data),
            has_more: self.has_more,
            url: self.url.clone(),
        }
    }
}

impl InvoiceLinesList9B8534 {
    /// Whether `other` copies the fields of `self` that are plain values (`has_more`, `url`).
    pub open spec fn clone_agrees(&self, other: &Self) -> bool {
        &&& self.has_more == other.has_more
        &&& self.url == other.url
    }
}

impl Clone for InvoiceLinesList9B8534 {
    fn clone(&self) -> (r: Self)
        ensures
            self.clone_agrees(&r),
        decreases self,
    {
        InvoiceLinesList9B8534 {
            object: self.object.clone(),
            data: crate::types::clone_vec_invoice_line_item(&self.data),
            has_more: self.has_more,
            url: self.url.clone(),
        }
    }
}

impl RadarIssuerFraudRecordList {
    /// Whether `other` copies the fields of `self` that are plain values (`has_more`, `url`).
    pub open spec fn clone_agrees(&self, other: &Self) -> bool {
        &&& self.has_more == other.has_more
        &&& self.url == other.url
    }
}

impl Clone for RadarIssuerFraudRecordList {
    fn clone(&self) -> (r: Self)
        ensures
            self.clone_agrees(&r),
        decreases self,
    {
        RadarIssuerFraudRecordList {
            object: self.object.clone(),
            data: crate::types::clone_vec_issuer_fraud_record(&self.data),
            has_more: self.has_more,
            url: self.url.clone(),
        }
    }
}

impl GetIssuingAuthorizationsRes {
    /// Whether `other` copies the fields of `self` that are plain values (`has_more`, `url`).
    pub open spec fn clone_agrees(&self, other: &Self) -> bool {
        &&& self.has_more == other.has_more
        &&& self.url == other.url
    }
}

impl Clone for GetIssuingAuthorizationsRes {
    fn clone(&self) -> (r: Self)
        ensures
            self.clone_agrees(&r),
        decreases self,
    {
        GetIssuingAuthorizationsRes {
            object: self.object.clone(),
            data: crate::types::clone_vec_issuing_authorization(&self.data),
            has_more: self.has_more,
            url: self.url.clone(),
        }
    }
}

impl GetIssuingCardholdersRes {
    /// Whether `other` copies the fields of `self` that are plain values (`has_more`, `url`).
    pub open spec fn clone_agrees(&self, other: &Self) -> bool {
        &&& self.has_more == other.has_more
        &&& self.url == other.url
    }
}

impl Clone for GetIssuingCardholdersRes {
    fn clone(&self) -> (r: Self)
        ensures
            self.clone_agrees(&r),
        decreases self,
    {
        GetIssuingCardholdersRes {
            object: self.object.clone(),
            data: crate::types::clone_vec_issuing_cardholder(&self.data),
            has_more: self.has_more,
            url: self.url.clone(),
        }
    }
}

impl GetIssuingCardsRes {
    /// Whether `other` copies the fields of `self` that are plain values (`has_more`, `url`).
    pub open spec fn clone_agrees(&self, other: &Self) -> bool {
        &&& self.has_more == other.has_more
        &&& self.url == other.url
    }
}

impl Clone for GetIssuingCardsRes {
    fn clone(&self) -> (r: Self)
        ensures
            self.clone_agrees(&r),
        decreases self,
    {
        GetIssuingCardsRes {
            object: self.object.clone(),
            data: crate::types::clone_vec_issuing_card(&self.data),
            has_more: self.has_more,
            url: self.url.clone(),
        }
    }
}

impl IssuingDisputeList {
    /// Whether `other` copies the fields of `self` that are plain values (`has_more`, `url`).
    pub open spec fn clone_agrees(&self, other: &Self) -> bool {
        &&& self.has_more == other.has_more
        &&& self.url == other.url
    }
}

impl Clone for IssuingDisputeList {
    fn clone(&self) -> (r: Self)
        ensures
            self.clone_agrees(&r),
        decreases self,
    {
        IssuingDisputeList {
            object: self.object.clone(),
            data: crate::types::clone_vec_issuing_dispute(&self.data),
            has_more: self.has_more,
            url: self.url.clone(),
        }
    }
}

impl GetIssuingTransactionsRes {
    /// Whether `other` copies the fields of `self` that are plain values (`has_more`, `url`).
    pub open spec fn clone_agrees(&self, other: &Self) -> bool {
        &&& self.has_more == other.has_more
        &&& self.url == other.url
    }
}

impl Clone for GetIssuingTransactionsRes {
    fn clone(&self) -> (r: Self)
        ensures
            self.clone_agrees(&r),
        decreases self,
    {
        GetIssuingTransactionsRes {
            object: self.object.clone(),
            data: crate::types::clone_vec_issuing_transaction(&self.data),
            has_more: self.has_more,
            url: self.url.clone(),
        }
    }
}

impl GetOrderReturnsRes {
    /// Whether `other` copies the fields of `self` that are plain values (`has_more`, `url`).
    pub open spec fn clone_agrees(&self, other: &Self) -> bool {
        &&& self.has_more == other.has_more
        &&& self.url == other.url
    }
}

impl Clone for GetOrderReturnsRes {
    fn clone(&self) -> (r: Self)
        ensures
            self.clone_agrees(&r),
        decreases self,
    {
        GetOrderReturnsRes {
            object: self.object.clone(),
            data: crate::types::clone_vec_order_return(&self.data),
            has_more: self.has_more,
            url: self.url.clone(),
        }
    }
}

impl GetOrdersRes {
    /// Whether `other` copies the fields of `self` that are plain values (`has_more`, `url`).
    pub open spec fn clone_agrees(&self, other: &Self) -> bool {
        &&& self.has_more == other.has_more
        &&& self.url == other.url
    }
}

impl Clone for GetOrdersRes {
    fn clone(&self) -> (r: Self)
        ensures
            self.clone_agrees(&r),
        decreases self,
    {
        GetOrdersRes {
            object: self.object.clone(),
            data: crate::types::clone_vec_order(&self.data),
            has_more: self.has_more,
            url: self.url.clone(),
        }
    }
}

impl PaymentFlowsPaymentIntentList {
    /// Whether `other` copies the fields of `self` that are plain values (`has_more`, `url`).
    pub open spec fn clone_agrees(&self, other: &Self) -> bool {
        &&& self.has_more == other.has_more
        &&& self.url == other.url
    }
}

impl Clone for PaymentFlowsPaymentIntentList {
    fn clone(&self) -> (r: Self)
        ensures
            self.clone_agrees(&r),
        decreases self,
    {
        PaymentFlowsPaymentIntentList {
            object: self.object.clone(),
            data: crate::types::clone_vec_payment_intent(&self.data),
            has_more: self.has_more,
            url: self.url.clone(),
        }
    }
}

impl PaymentFlowsPaymentMethodList {
    /// Whether `other` copies the fields of `self` that are plain values (`has_more`, `url`).
    pub open spec fn clone_agrees(&self, other: &Self) -> bool {
        &&& self.has_more == other.has_more
        &&& self.url == other.url
    }
}

impl Clone for PaymentFlowsPaymentMethodList {
    fn clone(&self) -> (r: Self)
        ensures
            self.clone_agrees(&r),
        decreases self,
    {
        PaymentFlowsPaymentMethodList {
            object: self.object.clone(),
            data: crate::types::clone_vec_payment_method(&self.data),
            has_more: self.has_more,
            url: self.url.clone(),
        }
    }
}

impl PayoutList {
    /// Whether `other` copies the fields of `self` that are plain values (`has_more`, `url`).
    pub open spec fn clone_agrees(&self, other: &Self) -> bool {
        &&& self.has_more == other.has_more
        &&& self.url == other.url
    }
}

impl Clone for PayoutList {
    fn clone(&self) -> (r: Self)
        ensures
            self.clone_agrees(&r),
        decreases self,
    {
        PayoutList {
            object: self.object.clone(),
            data: crate::types::clone_vec_payout(&self.data),
            has_more: self.has_more,
            url: self.url.clone(),
        }
    }
}

impl GetPromotionCodesRes {
    /// Whether `other` copies the fields of `self` that are plain values (`has_more`, `url`).
    pub open spec fn clone_agrees(&self, other: &Self) -> bool {
        &&& self.has_more == other.has_more
        &&& self.url == other.url
    }
}

impl Clone for GetPromotionCodesRes {
    fn clone(&self) -> (r: Self)
        ensures
            self.clone_agrees(&r),
        decreases self,
    {
        GetPromotionCodesRes {
            object: self.object.clone(),
            data: crate::types::clone_vec_promotion_code(&self.data),
            has_more: self.has_more,
            url: self.url.clone(),
        }
    }
}

impl RadarEarlyFraudWarningList {
    /// Whether `other` copies the fields of `self` that are plain values (`has_more`, `url`).
    pub open spec fn clone_agrees(&self, other: &Self) -> bool {
        &&& self.has_more == other.has_more
        &&& self.url == other.url
    }
}

impl Clone for RadarEarlyFraudWarningList {
    fn clone(&self) -> (r: Self)
        ensures
            self.clone_agrees(&r),
        decreases self,
    {
        RadarEarlyFraudWarningList {
            object: self.object.clone(),
            data: crate::types::clone_vec_radar_early_fraud_warning(&self.data),
            has_more: self.has_more,
            url: self.url.clone(),
        }
    }
}

impl GetRecipientsRes {
    /// Whether `other` copies the fields of `self` that are plain values (`has_more`, `url`).
    pub open spec fn clone_agrees(&self, other: &Self) -> bool {
        &&& self.has_more == other.has_more
        &&& self.url == other.url
    }
}

impl Clone for GetRecipientsRes {
    fn clone(&self) -> (r: Self)
        ensures
            self.clone_agrees(&r),
        decreases self,
    {
        GetRecipientsRes {
            object: self.object.clone(),
            data: crate::types::clone_vec_transfer_recipient(&self.data),
            has_more: self.has_more,
            url: self.url.clone(),
        }
    }
}

impl UniGetRecipientsIdRes {
    /// Whether `other` is the same variant as `self`, with the same payload where it is a plain
    /// value, and a payload that agrees by its own `clone_agrees` where it has one.
    pub open spec fn clone_agrees(&self, other: &Self) -> bool {
        match self {
            UniGetRecipientsIdRes::TransferRecipient(x) => other matches UniGetRecipientsIdRes::TransferRecipient(y) && x.clone_agrees(&y),
            UniGetRecipientsIdRes::DeletedTransferRecipient(_) => other is DeletedTransferRecipient,
        }
    }
}

impl Clone for UniGetRecipientsIdRes {
    fn clone(&self) -> (r: Self)
        ensures
            self.clone_agrees(&r),
        decreases self,
    {
        match self {
            UniGetRecipientsIdRes::TransferRecipient(x) => UniGetRecipientsIdRes::TransferRecipient(x.clone()),
            UniGetRecipientsIdRes::DeletedTransferRecipient(x) => UniGetRecipientsIdRes::DeletedTransferRecipient(x.clone()),
        }
    }
}

impl GetRefundsRes {
    /// Whether `other` copies the fields of `self` that are plain values (`has_more`, `url`).
    pub open spec fn clone_agrees(&self, other: &Self) -> bool {
        &&& self.has_more == other.has_more
        &&& self.url == other.url
    }
}

impl Clone for GetRefundsRes {
    fn clone(&self) -> (r: Self)
        ensures
            self.clone_agrees(&r),
        decreases self,
    {
        GetRefundsRes {
            object: self.object.clone(),
            data: crate::types::clone_vec_refund(&self.data),
            has_more: self.has_more,
            url: self.url.clone(),
        }
    }
}

impl GetReportingReportRunsRes {
    /// Whether `other` copies the fields of `self` that are plain values (`has_more`, `url`).
    pub open spec fn clone_agrees(&self, other: &Self) -> bool {
        &&& self.has_more == other.has_more
        &&& self.url == other.url
    }
}

impl Clone for GetReportingReportRunsRes {
    fn clone(&self) -> (r: Self)
        ensures
            self.clone_agrees(&r),
        decreases self,
    {
        GetReportingReportRunsRes {
            object: self.object.clone(),
            data: crate::types::clone_vec_reporting_report_run(&self.data),
            has_more: self.has_more,
            url: self.url.clone(),
        }
    }
}

impl GetReviewsRes {
    /// Whether `other` copies the fields of `self` that are plain values (`has_more`, `url`).
    pub open spec fn clone_agrees(&self, other: &Self) -> bool {
        &&& self.has_more == other.has_more
        &&& self.url == other.url
    }
}

impl Clone for GetReviewsRes {
    fn clone(&self) -> (r: Self)
        ensures
            self.clone_agrees(&r),
        decreases self,
    {
        GetReviewsRes {
            object: self.object.clone(),
            data: crate::types::clone_vec_radar_review(&self.data),
            has_more: self.has_more,
            url: self.url.clone(),
        }
    }
}

impl PaymentFlowsSetupIntentSetupAttemptList {
    /// Whether `other` copies the fields of `self` that are plain values (`has_more`, `url`).
    pub open spec fn clone_agrees(&self, other: &Self) -> bool {
        &&& self.has_more == other.has_more
        &&& self.url == other.url
    }
}

impl Clone for PaymentFlowsSetupIntentSetupAttemptList {
    fn clone(&self) -> (r: Self)
        ensures
            self.clone_agrees(&r),
        decreases self,
    {
        PaymentFlowsSetupIntentSetupAttemptList {
            object: self.object.clone(),
            data: crate::types::clone_vec_payment_flows_setup_intent_setup_attempt(&self.data),
            has_more: self.has_more,
            url: self.url.clone(),
        }
    }
}

impl PaymentFlowsSetupIntentList {
    /// Whether `other` copies the fields of `self` that are plain values (`has_more`, `url`).
    pub open spec fn clone_agrees(&self, other: &Self) -> bool {
        &&& self.has_more == other.has_more
        &&& self.url == other.url
    }
}

impl Clone for PaymentFlowsSetupIntentList {
    fn clone(&self) -> (r: Self)
        ensures
            self.clone_agrees(&r),
        decreases self,
    {
        PaymentFlowsSetupIntentList {
            object: self.object.clone(),
            data: crate::types::clone_vec_setup_intent(&self.data),
            has_more: self.has_more,
            url: self.url.clone(),
        }
    }
}

impl GetSigmaScheduledQueryRunsRes {
    /// Whether `other` copies the fields of `self` that are plain values (`has_more`, `url`).
    pub open spec fn clone_agrees(&self, other: &Self) -> bool {
        &&& self.has_more == other.has_more
        &&& self.url == other.url
    }
}

impl Clone for GetSigmaScheduledQueryRunsRes {
    fn clone(&self) -> (r: Self)
        ensures
            self.clone_agrees(&r),
        decreases self,
    {
        GetSigmaScheduledQueryRunsRes {
            object: self.object.clone(),
            data: crate::types::clone_vec_scheduled_query_run(&self.data),
            has_more: self.has_more,
            url: self.url.clone(),
        }
    }
}

impl GetSubscriptionSchedulesRes {
    /// Whether `other` copies the fields of `self` that are plain values (`has_more`, `url`).
    pub open spec fn clone_agrees(&self, other: &Self) -> bool {
        &&& self.has_more == other.has_more
        &&& self.url == other.url
    }
}

impl Clone for GetSubscriptionSchedulesRes {
    fn clone(&self) -> (r: Self)
        ensures
            self.clone_agrees(&r),
        decreases self,
    {
        GetSubscriptionSchedulesRes {
            object: self.object.clone(),
            data: crate::types::clone_vec_subscription_schedule(&self.data),
            has_more: self.has_more,
            url: self.url.clone(),
        }
    }
}

impl GetSubscriptionsRes {
    /// Whether `other` copies the fields of `self` that are plain values (`has_more`, `url`).
    pub open spec fn clone_agrees(&self, other: &Self) -> bool {
        &&& self.has_more == other.has_more
        &&& self.url == other.url
    }
}

impl Clone for GetSubscriptionsRes {
    fn clone(&self) -> (r: Self)
        ensures
            self.clone_agrees(&r),
        decreases self,
    {
        GetSubscriptionsRes {
            object: self.object.clone(),
            data: crate::types::clone_vec_subscription(&self.data),
            has_more: self.has_more,
            url: self.url.clone(),
        }
    }
}

impl TopupList {
    /// Whether `other` copies the fields of `self` that are plain values (`has_more`, `url`).
    pub open spec fn clone_agrees(&self, other: &Self) -> bool {
        &&& self.has_more == other.has_more
        &&& self.url == other.url
    }
}

impl Clone for TopupList {
    fn clone(&self) -> (r: Self)
        ensures
            self.clone_agrees(&r),
        decreases self,
    {
        TopupList {
            object: self.object.clone(),
            data: crate::types::clone_vec_topup(&self.data),
            has_more: self.has_more,
            url: self.url.clone(),
        }
    }
}

impl TransferList {
    /// Whether `other` copies the fields of `self` that are plain values (`has_more`, `url`).
    pub open spec fn clone_agrees(&self, other: &Self) -> bool {
        &&& self.has_more == other.has_more
        &&& self.url == other.url
    }
}

impl Clone for TransferList {
    fn clone(&self) -> (r: Self)
        ensures
            self.clone_agrees(&r),
        decreases self,
    {
        TransferList {
            object: self.object.clone(),
            data: crate::types::clone_vec_transfer(&self.data),
            has_more: self.has_more,
            url: self.url.clone(),
        }
    }
}

impl TransferReversalList620BF1 {
    /// Whether `other` copies the fields of `self` that are plain values (`has_more`, `url`).
    pub open spec fn clone_agrees(&self, other: &Self) -> bool {
        &&& self.has_more == other.has_more
        &&& self.url == other.url
    }
}

impl Clone for TransferReversalList620BF1 {
    fn clone(&self) -> (r: Self)
        ensures
            self.clone_agrees(&r),
        decreases self,
    {
        TransferReversalList620BF1 {
            object: self.object.clone(),
            data: crate::types::clone_vec_transfer_reversal(&self.data),
            has_more: self.has_more,
            url: self.url.clone(),
        }
    }
}

/// A copy of each item of `v`, in order: item `i` of the result is what `clone` gives for
/// item `i` of `v`.
pub(crate) fn clone_vec_uni_polymorphic70_b_a_f_a(v: &Vec<UniPolymorphic70BAFA>) -> (r: Vec<UniPolymorphic70BAFA>)
    ensures
        r@.len() == v@.len(),
        forall|i: int| 0 <= i < v@.len() ==> (#[trigger] v@[i]).clone_agrees(&r@[i]),
    decreases v,
{
    let mut r: Vec<UniPolymorphic70BAFA> = Vec::new();
    let mut i: usize = 0;
    while i < v.len()
        invariant
            i <= v@.len(),
            r@.len() == i,
            forall|k: int| 0 <= k < i ==> (#[trigger] v@[k]).clone_agrees(&r@[k]),
        decreases v@.len() - i,
    {
        let x = v[i].clone();
        r.push(x);
        i = i + 1;
    }
    r
}

/// A copy of each item of `v`, in order: item `i` of the result is what `clone` gives for
/// item `i` of `v`.
pub(crate) fn clone_vec_uni_polymorphic646_c3_f(v: &Vec<UniPolymorphic646C3F>) -> (r: Vec<UniPolymorphic646C3F>)
    ensures
        r@.len() == v@.len(),
        forall|i: int| 0 <= i < v@.len() ==> (#[trigger] v@[i]).clone_agrees(&r@[i]),
    decreases v,
{
    let mut r: Vec<UniPolymorphic646C3F> = Vec::new();
    let mut i: usize = 0;
    while i < v.len()
        invariant
            i <= v@.len(),
            r@.len() == i,
            forall|k: int| 0 <= k < i ==> (#[trigger] v@[k]).clone_agrees(&r@[k]),
        decreases v@.len() - i,
    {
        let x = v[i].clone();
        r.push(x);
        i = i + 1;
    }
    r
}

} // verus!
