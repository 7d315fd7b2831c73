use vstd::prelude::*;
use std::collections::HashMap;
use serde_json::Value;
use crate::paging::{GetId, PageMeta};
use crate::req_params::{
    UniStrCollectionMethod, UniStrDeviceType, UniStrInterval, UniStrProrationBehavior, UniStrReasonAB5E91, UniStrStatus957169,
    UniStrStatusA4138B, UniStrStatusD5D208, UniStrStatusE71251, UniStrType00DF75, UniStrType947A77, UniStrTypeA467AF,
    UniStrTypeD153A1, UniStrTypeFC33AE, UniStrUsageType,
};
use crate::responses::{
    UniPolymorphic646C3F, UniPolymorphic70BAFA, UniStrObject344B0E,
};

verus! {

/// A 64-bit floating-point number from the Stripe API, held as its IEEE 754 bit pattern
/// (`f64::to_bits`); the library only carries these numbers.
#[derive(Debug, Clone, Copy, PartialEq, Eq, Structural)]
pub struct F64Bits {
    pub bits: u64,
}

/// String-keyed map as sent by the Stripe API.
pub type Attributes95B11A = HashMap<String, String>;

/// Any JSON value, as sent by the Stripe API.
pub type CardMandatePaymentMethodDetails = Value;

/// Any JSON value, as sent by the Stripe API.
pub type MandateMultiUse = Value;

/// String-keyed map as sent by the Stripe API.
pub type Metadata3CAB08 = HashMap<String, String>;

/// String-keyed map as sent by the Stripe API.
pub type Metadata7CCA3C = Option<HashMap<String, String>>;

/// String-keyed map as sent by the Stripe API.
pub type Metadata8076DB = HashMap<String, String>;

/// String-keyed map as sent by the Stripe API.
pub type MetadataE2C46F = HashMap<String, String>;

/// Any JSON value, as sent by the Stripe API.
pub type OfflineAcceptance = Value;

/// Any JSON value, as sent by the Stripe API.
pub type PaymentFlowsPrivatePaymentMethodsAlipay = Value;

/// Any JSON value, as sent by the Stripe API.
pub type PaymentMethodBancontact = Value;

/// Any JSON value, as sent by the Stripe API.
pub type PaymentMethodCardPresent = Value;

/// Any JSON value, as sent by the Stripe API.
pub type PaymentMethodCardWalletAmexExpressCheckout = Value;

/// Any JSON value, as sent by the Stripe API.
pub type PaymentMethodCardWalletApplePay = Value;

/// Any JSON value, as sent by the Stripe API.
pub type PaymentMethodCardWalletGooglePay = Value;

/// Any JSON value, as sent by the Stripe API.
pub type PaymentMethodCardWalletSamsungPay = Value;

/// Any JSON value, as sent by the Stripe API.
pub type PaymentMethodDetailsCardWalletAmexExpressCheckout = Value;

/// Any JSON value, as sent by the Stripe API.
pub type PaymentMethodDetailsCardWalletApplePay = Value;

/// Any JSON value, as sent by the Stripe API.
pub type PaymentMethodDetailsCardWalletGooglePay = Value;

/// Any JSON value, as sent by the Stripe API.
pub type PaymentMethodDetailsCardWalletSamsungPay = Value;

/// Any JSON value, as sent by the Stripe API.
pub type PaymentMethodDetailsKlarna = Value;

/// Any JSON value, as sent by the Stripe API.
pub type PaymentMethodDetailsStripeAccount = Value;

/// Any JSON value, as sent by the Stripe API.
pub type PaymentMethodDetailsWechat = Value;

/// Any JSON value, as sent by the Stripe API.
pub type PaymentMethodEps = Value;

/// Any JSON value, as sent by the Stripe API.
pub type PaymentMethodGiropay = Value;

/// Any JSON value, as sent by the Stripe API.
pub type PaymentMethodGrabpay = Value;

/// Any JSON value, as sent by the Stripe API.
pub type PaymentMethodInteracPresent = Value;

/// Any JSON value, as sent by the Stripe API.
pub type PaymentMethodOptionsAlipay = Value;

/// Any JSON value, as sent by the Stripe API.
pub type PaymentMethodOptionsP24 = Value;

/// Any JSON value, as sent by the Stripe API.
pub type PaymentMethodOxxo = Value;

/// Any JSON value, as sent by the Stripe API.
pub type PreviousAttributes = Value;

/// String-keyed map as sent by the Stripe API.
pub type Rates = HashMap<String, F64Bits>;

/// Any JSON value, as sent by the Stripe API.
pub type SetupIntentPaymentMethodOptionsMandateOptionsSepaDebit = Value;

/// String-keyed map as sent by the Stripe API.
pub type SupportedBankAccountCurrencies = HashMap<String, Vec<String>>;

/// Any JSON value, as sent by the Stripe API.
pub type UnknownEvent = Value;

/// Any JSON value, as sent by the Stripe API.
pub type UseStripeSdk2470E2 = Value;

/// Any JSON value, as sent by the Stripe API.
pub type UseStripeSdkDAE5BB = Value;

/// Stripe API location: `account`.
#[derive(Debug)]
pub struct Account {
    pub object: UniStrObject9D4B89,
    /// JSON key: `type`.
    pub type_x: Option<UniStrType3680CD>,
    pub id: String,
    pub business_profile: Option<AccountBusinessProfile>,
    pub business_type: Option<UniStrBusinessType>,
    pub capabilities: Option<AccountCapabilities>,
    pub charges_enabled: Option<bool>,
    pub company: Option<LegalEntityCompany>,
    pub country: Option<String>,
    pub default_currency: Option<String>,
    pub details_submitted: Option<bool>,
    pub email: Option<String>,
    pub external_accounts: Option<ExternalAccountList0165E1>,
    pub individual: Option<Person>,
    pub payouts_enabled: Option<bool>,
    pub requirements: Option<AccountRequirements>,
    pub settings: Option<AccountSettings>,
    pub tos_acceptance: Option<AccountTOSAcceptance>,
    pub created: Option<i64>,
    pub metadata: Option<Metadata8076DB>,
}

impl GetId for Account {
    open spec fn has_id(&self) -> bool {
        true
    }

    open spec fn id_of(&self) -> String {
        self.id
    }

    fn get_id(&self) -> (r: String) {
        self.id.clone()
    }
}

/// Stripe API location: `account.business_type`.
#[derive(Debug, Clone)]
pub enum UniStrBusinessType {
    /// JSON value: `"company"`.
    Company,
    /// JSON value: `"government_entity"`.
    GovernmentEntity,
    /// JSON value: `"individual"`.
    Individual,
    /// JSON value: `"non_profit"`.
    NonProfit,
}

/// Stripe API location: `account.external_accounts`.
#[derive(Debug)]
pub struct ExternalAccountList0165E1 {
    pub object: UniStrObject344B0E,
    pub data: Vec<UniPolymorphic70BAFA>,
    pub has_more: bool,
    pub url: String,
}

/// Stripe API location: `account.object`, `deleted_account.object`.
#[derive(Debug, Clone)]
pub enum UniStrObject9D4B89 {
    /// JSON value: `"account"`.
    Account,
}

/// Stripe API location: `account.type`.
#[derive(Debug, Clone)]
pub enum UniStrType3680CD {
    /// JSON value: `"custom"`.
    Custom,
    /// JSON value: `"express"`.
    Express,
    /// JSON value: `"standard"`.
    Standard,
}

/// Stripe API location: `account_bacs_debit_payments_settings`.
#[derive(Debug, Clone)]
pub struct AccountBacsDebitPaymentsSettings {
    pub display_name: Option<String>,
}

/// Stripe API location: `account_branding_settings`.
#[derive(Debug)]
pub struct AccountBrandingSettings {
    pub icon: Option<UniFile5BD414>,
    pub logo: Option<UniFile5BD414>,
    pub primary_color: Option<String>,
    pub secondary_color: Option<String>,
}

/// Stripe API location: `account_branding_settings.icon`, `account_branding_settings.logo`, `dispute_evidence.cancellation_policy` (and 25 more).
/// Encoded in JSON without a tag: the variant is chosen by the shape of the value.
#[derive(Debug)]
pub enum UniFile5BD414 {
    String(String),
    File(File),
}

/// Stripe API location: `account_business_profile`.
#[derive(Debug, Clone)]
pub struct AccountBusinessProfile {
    pub name: Option<String>,
    pub mcc: Option<String>,
    pub product_description: Option<String>,
    pub support_address: Option<Address>,
    pub support_email: Option<String>,
    pub support_phone: Option<String>,
    pub support_url: Option<String>,
    pub url: Option<String>,
}

/// Stripe API location: `account_capabilities`.
#[derive(Debug, Clone)]
pub struct AccountCapabilities {
    pub au_becs_debit_payments: Option<UniStrStatusBA4125>,
    pub bacs_debit_payments: Option<UniStrStatusBA4125>,
    pub bancontact_payments: Option<UniStrStatusBA4125>,
    pub card_issuing: Option<UniStrStatusBA4125>,
    pub card_payments: Option<UniStrStatusBA4125>,
    pub cartes_bancaires_payments: Option<UniStrStatusBA4125>,
    pub eps_payments: Option<UniStrStatusBA4125>,
    pub fpx_payments: Option<UniStrStatusBA4125>,
    pub giropay_payments: Option<UniStrStatusBA4125>,
    pub ideal_payments: Option<UniStrStatusBA4125>,
    pub jcb_payments: Option<UniStrStatusBA4125>,
    pub legacy_payments: Option<UniStrStatusBA4125>,
    pub oxxo_payments: Option<UniStrStatusBA4125>,
    pub p24_payments: Option<UniStrStatusBA4125>,
    pub sepa_debit_payments: Option<UniStrStatusBA4125>,
    pub sofort_payments: Option<UniStrStatusBA4125>,
    pub tax_reporting_us_1099_k: Option<UniStrStatusBA4125>,
    pub tax_reporting_us_1099_misc: Option<UniStrStatusBA4125>,
    pub transfers: Option<UniStrStatusBA4125>,
}

/// Stripe API location: `account_capabilities.au_becs_debit_payments`, `account_capabilities.bacs_debit_payments`, `account_capabilities.bancontact_payments` (and 17 more).
#[derive(Debug, Clone)]
pub enum UniStrStatusBA4125 {
    /// JSON value: `"active"`.
    Active,
    /// JSON value: `"inactive"`.
    Inactive,
    /// JSON value: `"pending"`.
    Pending,
}

/// Stripe API location: `account_capability_requirements`.
#[derive(Debug, Clone)]
pub struct AccountCapabilityRequirements {
    pub current_deadline: Option<i64>,
    pub currently_due: Vec<String>,
    pub disabled_reason: Option<String>,
    pub errors: Vec<AccountRequirementsError>,
    pub eventually_due: Vec<String>,
    pub past_due: Vec<String>,
    pub pending_verification: Vec<String>,
}

/// Stripe API location: `account_card_payments_settings`.
#[derive(Debug, Clone)]
pub struct AccountCardPaymentsSettings {
    pub decline_on: Option<AccountDeclineChargeOn>,
    pub statement_descriptor_prefix: Option<String>,
}

/// Stripe API location: `account_dashboard_settings`.
#[derive(Debug, Clone)]
pub struct AccountDashboardSettings {
    pub display_name: Option<String>,
    pub timezone: Option<String>,
}

/// Stripe API location: `account_decline_charge_on`.
#[derive(Debug, Clone)]
pub struct AccountDeclineChargeOn {
    pub avs_failure: bool,
    pub cvc_failure: bool,
}

/// Stripe API location: `account_link`.
#[derive(Debug, Clone)]
pub struct AccountLink {
    pub object: UniStrObject4F3637,
    pub expires_at: i64,
    pub url: String,
    pub created: i64,
}

/// Stripe API location: `account_link.object`.
#[derive(Debug, Clone)]
pub enum UniStrObject4F3637 {
    /// JSON value: `"account_link"`.
    AccountLink,
}

/// Stripe API location: `account_payments_settings`.
#[derive(Debug, Clone)]
pub struct AccountPaymentsSettings {
    pub statement_descriptor: Option<String>,
    pub statement_descriptor_kana: Option<String>,
    pub statement_descriptor_kanji: Option<String>,
}

/// Stripe API location: `account_payout_settings`.
#[derive(Debug, Clone)]
pub struct AccountPayoutSettings {
    pub debit_negative_balances: bool,
    pub schedule: TransferSchedule,
    pub statement_descriptor: Option<String>,
}

/// Stripe API location: `account_requirements`.
#[derive(Debug, Clone)]
pub struct AccountRequirements {
    pub current_deadline: Option<i64>,
    pub currently_due: Option<Vec<String>>,
    pub disabled_reason: Option<String>,
    pub errors: Option<Vec<AccountRequirementsError>>,
    pub eventually_due: Option<Vec<String>>,
    pub past_due: Option<Vec<String>>,
    pub pending_verification: Option<Vec<String>>,
}

/// Stripe API location: `account_requirements_error`.
#[derive(Debug, Clone)]
pub struct AccountRequirementsError {
    pub code: UniStrCode,
    pub reason: String,
    pub requirement: String,
}

/// Stripe API location: `account_requirements_error.code`.
#[derive(Debug, Clone)]
pub enum UniStrCode {
    /// JSON value: `"invalid_address_city_state_postal_code"`.
    InvalidAddressCityStatePostalCode,
    /// JSON value: `"invalid_street_address"`.
    InvalidStreetAddress,
    /// JSON value: `"invalid_value_other"`.
    InvalidValueOther,
    /// JSON value: `"verification_document_address_mismatch"`.
    VerificationDocumentAddressMismatch,
    /// JSON value: `"verification_document_address_missing"`.
    VerificationDocumentAddressMissing,
    /// JSON value: `"verification_document_corrupt"`.
    VerificationDocumentCorrupt,
    /// JSON value: `"verification_document_country_not_supported"`.
    VerificationDocumentCountryNotSupported,
    /// JSON value: `"verification_document_dob_mismatch"`.
    VerificationDocumentDobMismatch,
    /// JSON value: `"verification_document_duplicate_type"`.
    VerificationDocumentDuplicateType,
    /// JSON value: `"verification_document_expired"`.
    VerificationDocumentExpired,
    /// JSON value: `"verification_document_failed_copy"`.
    VerificationDocumentFailedCopy,
    /// JSON value: `"verification_document_failed_greyscale"`.
    VerificationDocumentFailedGreyscale,
    /// JSON value: `"verification_document_failed_other"`.
    VerificationDocumentFailedOther,
    /// JSON value: `"verification_document_failed_test_mode"`.
    VerificationDocumentFailedTestMode,
    /// JSON value: `"verification_document_fraudulent"`.
    VerificationDocumentFraudulent,
    /// JSON value: `"verification_document_id_number_mismatch"`.
    VerificationDocumentIdNumberMismatch,
    /// JSON value: `"verification_document_id_number_missing"`.
    VerificationDocumentIdNumberMissing,
    /// JSON value: `"verification_document_incomplete"`.
    VerificationDocumentIncomplete,
    /// JSON value: `"verification_document_invalid"`.
    VerificationDocumentInvalid,
    /// JSON value: `"verification_document_issue_or_expiry_date_missing"`.
    VerificationDocumentIssueOrExpiryDateMissing,
    /// JSON value: `"verification_document_manipulated"`.
    VerificationDocumentManipulated,
    /// JSON value: `"verification_document_missing_back"`.
    VerificationDocumentMissingBack,
    /// JSON value: `"verification_document_missing_front"`.
    VerificationDocumentMissingFront,
    /// JSON value: `"verification_document_name_mismatch"`.
    VerificationDocumentNameMismatch,
    /// JSON value: `"verification_document_name_missing"`.
    VerificationDocumentNameMissing,
    /// JSON value: `"verification_document_nationality_mismatch"`.
    VerificationDocumentNationalityMismatch,
    /// JSON value: `"verification_document_not_readable"`.
    VerificationDocumentNotReadable,
    /// JSON value: `"verification_document_not_signed"`.
    VerificationDocumentNotSigned,
    /// JSON value: `"verification_document_not_uploaded"`.
    VerificationDocumentNotUploaded,
    /// JSON value: `"verification_document_photo_mismatch"`.
    VerificationDocumentPhotoMismatch,
    /// JSON value: `"verification_document_too_large"`.
    VerificationDocumentTooLarge,
    /// JSON value: `"verification_document_type_not_supported"`.
    VerificationDocumentTypeNotSupported,
    /// JSON value: `"verification_failed_address_match"`.
    VerificationFailedAddressMatch,
    /// JSON value: `"verification_failed_business_iec_number"`.
    VerificationFailedBusinessIecNumber,
    /// JSON value: `"verification_failed_document_match"`.
    VerificationFailedDocumentMatch,
    /// JSON value: `"verification_failed_id_number_match"`.
    VerificationFailedIdNumberMatch,
    /// JSON value: `"verification_failed_keyed_identity"`.
    VerificationFailedKeyedIdentity,
    /// JSON value: `"verification_failed_keyed_match"`.
    VerificationFailedKeyedMatch,
    /// JSON value: `"verification_failed_name_match"`.
    VerificationFailedNameMatch,
    /// JSON value: `"verification_failed_other"`.
    VerificationFailedOther,
    /// JSON value: `"verification_failed_tax_id_match"`.
    VerificationFailedTaxIdMatch,
    /// JSON value: `"verification_failed_tax_id_not_issued"`.
    VerificationFailedTaxIdNotIssued,
}

/// Stripe API location: `account_sepa_debit_payments_settings`.
#[derive(Debug, Clone)]
pub struct AccountSepaDebitPaymentsSettings {
    pub creditor_id: Option<String>,
}

/// Stripe API location: `account_settings`.
#[derive(Debug)]
pub struct AccountSettings {
    pub bacs_debit_payments: Option<AccountBacsDebitPaymentsSettings>,
    pub branding: AccountBrandingSettings,
    pub card_payments: AccountCardPaymentsSettings,
    pub dashboard: AccountDashboardSettings,
    pub payments: AccountPaymentsSettings,
    pub payouts: Option<AccountPayoutSettings>,
    pub sepa_debit_payments: Option<AccountSepaDebitPaymentsSettings>,
}

/// Stripe API location: `account_tos_acceptance`.
#[derive(Debug, Clone)]
pub struct AccountTOSAcceptance {
    pub date: Option<i64>,
    pub ip: Option<String>,
    pub service_agreement: Option<String>,
    pub user_agent: Option<String>,
}

/// Stripe API location: `address`.
#[derive(Debug, Clone)]
pub struct Address {
    pub city: Option<String>,
    pub country: Option<String>,
    pub line1: Option<String>,
    pub line2: Option<String>,
    pub postal_code: Option<String>,
    pub state: Option<String>,
}

/// Stripe API location: `alipay_account`.
#[derive(Debug)]
pub struct AlipayAccount {
    pub object: UniStrObject2AE122,
    pub id: String,
    pub customer: Option<UniCustomerC00F6E>,
    pub fingerprint: String,
    pub payment_amount: Option<i64>,
    pub payment_currency: Option<String>,
    pub reusable: bool,
    pub used: bool,
    pub username: String,
    pub created: i64,
    pub livemode: bool,
    pub metadata: Option<Metadata8076DB>,
}

impl GetId for AlipayAccount {
    open spec fn has_id(&self) -> bool {
        true
    }

    open spec fn id_of(&self) -> String {
        self.id
    }

    fn get_id(&self) -> (r: String) {
        self.id.clone()
    }
}

/// Stripe API location: `alipay_account.customer`, `bank_account.customer`, `card.customer` (and 14 more).
/// Encoded in JSON without a tag: the variant is chosen by the shape of the value.
#[derive(Debug)]
pub enum UniCustomerC00F6E {
    String(String),
    Customer(Box<Customer>),
    DeletedCustomer(DeletedCustomer),
}

/// Stripe API location: `alipay_account.object`, `deleted_alipay_account.object`.
#[derive(Debug, Clone)]
pub enum UniStrObject2AE122 {
    /// JSON value: `"alipay_account"`.
    AlipayAccount,
}

/// Stripe API location: `api_errors`.
#[derive(Debug)]
pub struct APIErrors {
    /// JSON key: `type`.
    pub type_x: UniStrTypeA3B873,
    pub source: Option<UniSourceEC1AE6>,
    pub charge: Option<String>,
    pub code: Option<String>,
    pub decline_code: Option<String>,
    pub doc_url: Option<String>,
    pub message: Option<String>,
    pub param: Option<String>,
    pub payment_intent: Box<Option<PaymentIntent>>,
    pub payment_method: Box<Option<PaymentMethod>>,
    pub payment_method_type: Option<String>,
    pub setup_intent: Box<Option<SetupIntent>>,
}

/// Stripe API location: `api_errors.source`.
/// Encoded in JSON without a tag: the variant is chosen by the shape of the value.
#[derive(Debug)]
pub enum UniSourceEC1AE6 {
    BankAccount(BankAccount),
    Card(Box<Card>),
    Source(Source),
}

/// Stripe API location: `api_errors.type`.
#[derive(Debug, Clone)]
pub enum UniStrTypeA3B873 {
    /// JSON value: `"api_connection_error"`.
    ApiConnectionError,
    /// JSON value: `"api_error"`.
    ApiError,
    /// JSON value: `"authentication_error"`.
    AuthenticationError,
    /// JSON value: `"card_error"`.
    CardError,
    /// JSON value: `"idempotency_error"`.
    IdempotencyError,
    /// JSON value: `"invalid_request_error"`.
    InvalidRequestError,
    /// JSON value: `"rate_limit_error"`.
    RateLimitError,
}

/// Stripe API location: `apple_pay_domain`.
#[derive(Debug, Clone)]
pub struct ApplePayDomain {
    pub object: UniStrObjectBA0885,
    pub id: String,
    pub domain_name: String,
    pub created: i64,
    pub livemode: bool,
}

impl GetId for ApplePayDomain {
    open spec fn has_id(&self) -> bool {
        true
    }

    open spec fn id_of(&self) -> String {
        self.id
    }

    fn get_id(&self) -> (r: String) {
        self.id.clone()
    }
}

/// Stripe API location: `apple_pay_domain.object`, `deleted_apple_pay_domain.object`.
#[derive(Debug, Clone)]
pub enum UniStrObjectBA0885 {
    /// JSON value: `"apple_pay_domain"`.
    ApplePayDomain,
}

/// Stripe API location: `application`.
#[derive(Debug, Clone)]
pub struct Application {
    pub object: UniStrObject938E08,
    pub id: String,
    pub name: Option<String>,
}

impl GetId for Application {
    open spec fn has_id(&self) -> bool {
        true
    }

    open spec fn id_of(&self) -> String {
        self.id
    }

    fn get_id(&self) -> (r: String) {
        self.id.clone()
    }
}

/// Stripe API location: `application.object`.
#[derive(Debug, Clone)]
pub enum UniStrObject938E08 {
    /// JSON value: `"application"`.
    Application,
}

/// Stripe API location: `application_fee`.
#[derive(Debug)]
pub struct PlatformFee {
    pub object: UniStrObjectD09910,
    pub id: String,
    pub account: UniAccount,
    pub application: UniApplication,
    pub balance_transaction: Option<UniBalanceTransaction>,
    pub charge: UniCharge,
    pub originating_transaction: Option<UniCharge>,
    pub amount: i64,
    pub amount_refunded: i64,
    pub currency: String,
    pub refunded: bool,
    pub refunds: FeeRefundListC565F2,
    pub created: i64,
    pub livemode: bool,
}

impl GetId for PlatformFee {
    open spec fn has_id(&self) -> bool {
        true
    }

    open spec fn id_of(&self) -> String {
        self.id
    }

    fn get_id(&self) -> (r: String) {
        self.id.clone()
    }
}

/// Stripe API location: `application_fee.account`, `bank_account.account`, `capability.account` (and 13 more).
/// Encoded in JSON without a tag: the variant is chosen by the shape of the value.
#[derive(Debug)]
pub enum UniAccount {
    String(String),
    Account(Account),
}

/// Stripe API location: `application_fee.application`, `charge.application`, `payment_intent.application` (and 2 more).
/// Encoded in JSON without a tag: the variant is chosen by the shape of the value.
#[derive(Debug, Clone)]
pub enum UniApplication {
    String(String),
    Application(Application),
}

/// Stripe API location: `application_fee.balance_transaction`, `charge.balance_transaction`, `fee_refund.balance_transaction` (and 8 more).
/// Encoded in JSON without a tag: the variant is chosen by the shape of the value.
#[derive(Debug)]
pub enum UniBalanceTransaction {
    String(String),
    BalanceTransaction(BalanceTransaction),
}

/// Stripe API location: `application_fee.charge`, `application_fee.originating_transaction`, `dispute.charge` (and 9 more).
/// Encoded in JSON without a tag: the variant is chosen by the shape of the value.
#[derive(Debug)]
pub enum UniCharge {
    String(String),
    Charge(Box<Charge>),
}

/// Stripe API location: `application_fee.object`.
#[derive(Debug, Clone)]
pub enum UniStrObjectD09910 {
    /// JSON value: `"application_fee"`.
    ApplicationFee,
}

/// Stripe API location: `application_fee.refunds`.
#[derive(Debug)]
pub struct FeeRefundListC565F2 {
    pub object: UniStrObject344B0E,
    pub data: Vec<FeeRefund>,
    pub has_more: bool,
    pub url: String,
}

impl PageMeta for FeeRefundListC565F2 {
    open spec fn page_ready(&self) -> bool {
        true
    }

    open spec fn page_ids(&self) -> Seq<String> {
        self.data@.map_values(|x: FeeRefund| x.id)
    }

    open spec fn page_has_more(&self) -> bool {
        self.has_more
    }

    fn get_from_to(&self) -> (r: Option<(String, String)>) {
        if self.data.len() == 0 {
            return None;
        }
        Some((self.data[0].id.clone(), self.data[self.data.len() - 1].id.clone()))
    }

    fn get_has_more(&self) -> (r: bool) {
        self.has_more
    }
}

/// Stripe API location: `balance`.
#[derive(Debug, Clone)]
pub struct Balance {
    pub object: UniStrObjectD816FE,
    pub available: Vec<BalanceAmount>,
    pub connect_reserved: Option<Vec<BalanceAmount>>,
    pub instant_available: Option<Vec<BalanceAmount>>,
    pub issuing: Option<BalanceDetail>,
    pub pending: Vec<BalanceAmount>,
    pub livemode: bool,
}

/// Stripe API location: `balance.object`.
#[derive(Debug, Clone)]
pub enum UniStrObjectD816FE {
    /// JSON value: `"balance"`.
    Balance,
}

/// Stripe API location: `balance_amount`.
#[derive(Debug, Clone)]
pub struct BalanceAmount {
    pub amount: i64,
    pub currency: String,
    pub source_types: Option<BalanceAmountBySourceType>,
}

/// Stripe API location: `balance_amount_by_source_type`.
#[derive(Debug, Clone)]
pub struct BalanceAmountBySourceType {
    pub bank_account: Option<i64>,
    pub card: Option<i64>,
    pub fpx: Option<i64>,
}

/// Stripe API location: `balance_detail`.
#[derive(Debug, Clone)]
pub struct BalanceDetail {
    pub available: Vec<BalanceAmount>,
}

/// Stripe API location: `balance_transaction`.
#[derive(Debug)]
pub struct BalanceTransaction {
    pub object: UniStrObject489413,
    /// JSON key: `type`.
    pub type_x: UniStrTypeFA7E57,
    pub id: String,
    pub source: Box<Option<UniSource231860>>,
    pub amount: i64,
    pub available_on: i64,
    pub currency: String,
    pub description: Option<String>,
    pub exchange_rate: Option<F64Bits>,
    pub fee: i64,
    pub fee_details: Vec<Fee>,
    pub net: i64,
    pub reporting_category: String,
    pub status: String,
    pub created: i64,
}

impl GetId for BalanceTransaction {
    open spec fn has_id(&self) -> bool {
        true
    }

    open spec fn id_of(&self) -> String {
        self.id
    }

    fn get_id(&self) -> (r: String) {
        self.id.clone()
    }
}

/// Stripe API location: `balance_transaction.object`.
#[derive(Debug, Clone)]
pub enum UniStrObject489413 {
    /// JSON value: `"balance_transaction"`.
    BalanceTransaction,
}

/// Stripe API location: `balance_transaction.source`.
/// Encoded in JSON without a tag: the variant is chosen by the shape of the value.
#[derive(Debug)]
pub enum UniSource231860 {
    String(String),
    PlatformFee(PlatformFee),
    Charge(Box<Charge>),
    ConnectCollectionTransfer(ConnectCollectionTransfer),
    Dispute(Dispute),
    FeeRefund(FeeRefund),
    IssuingAuthorization(IssuingAuthorization),
    IssuingDispute(IssuingDispute),
    IssuingTransaction(Box<IssuingTransaction>),
    Payout(Box<Payout>),
    PlatformTax(PlatformTax),
    Refund(Box<Refund>),
    ReserveTransaction(ReserveTransaction),
    TaxDeductedAtSource(TaxDeductedAtSource),
    Topup(Topup),
    Transfer(Transfer),
    TransferReversal(TransferReversal),
}

/// Stripe API location: `balance_transaction.type`.
#[derive(Debug, Clone)]
pub enum UniStrTypeFA7E57 {
    /// JSON value: `"adjustment"`.
    Adjustment,
    /// JSON value: `"advance"`.
    Advance,
    /// JSON value: `"advance_funding"`.
    AdvanceFunding,
    /// JSON value: `"anticipation_repayment"`.
    AnticipationRepayment,
    /// JSON value: `"application_fee"`.
    ApplicationFee,
    /// JSON value: `"application_fee_refund"`.
    ApplicationFeeRefund,
    /// JSON value: `"charge"`.
    Charge,
    /// JSON value: `"connect_collection_transfer"`.
    ConnectCollectionTransfer,
    /// JSON value: `"contribution"`.
    Contribution,
    /// JSON value: `"issuing_authorization_hold"`.
    IssuingAuthorizationHold,
    /// JSON value: `"issuing_authorization_release"`.
    IssuingAuthorizationRelease,
    /// JSON value: `"issuing_dispute"`.
    IssuingDispute,
    /// JSON value: `"issuing_transaction"`.
    IssuingTransaction,
    /// JSON value: `"payment"`.
    Payment,
    /// JSON value: `"payment_failure_refund"`.
    PaymentFailureRefund,
    /// JSON value: `"payment_refund"`.
    PaymentRefund,
    /// JSON value: `"payout"`.
    Payout,
    /// JSON value: `"payout_cancel"`.
    PayoutCancel,
    /// JSON value: `"payout_failure"`.
    PayoutFailure,
    /// JSON value: `"refund"`.
    Refund,
    /// JSON value: `"refund_failure"`.
    RefundFailure,
    /// JSON value: `"reserve_transaction"`.
    ReserveTransaction,
    /// JSON value: `"reserved_funds"`.
    ReservedFunds,
    /// JSON value: `"stripe_fee"`.
    StripeFee,
    /// JSON value: `"stripe_fx_fee"`.
    StripeFxFee,
    /// JSON value: `"tax_fee"`.
    TaxFee,
    /// JSON value: `"topup"`.
    Topup,
    /// JSON value: `"topup_reversal"`.
    TopupReversal,
    /// JSON value: `"transfer"`.
    Transfer,
    /// JSON value: `"transfer_cancel"`.
    TransferCancel,
    /// JSON value: `"transfer_failure"`.
    TransferFailure,
    /// JSON value: `"transfer_refund"`.
    TransferRefund,
}

/// Stripe API location: `bank_account`.
#[derive(Debug)]
pub struct BankAccount {
    pub object: UniStrObject5F868A,
    pub id: String,
    pub account: Option<UniAccount>,
    pub customer: Option<UniCustomerC00F6E>,
    pub account_holder_name: Option<String>,
    pub account_holder_type: Option<String>,
    pub available_payout_methods: Option<Vec<UniStrItemsD0C1A3>>,
    pub bank_name: Option<String>,
    pub country: String,
    pub currency: String,
    pub default_for_currency: Option<bool>,
    pub fingerprint: Option<String>,
    pub last4: String,
    pub routing_number: Option<String>,
    pub status: String,
    pub metadata: Option<Metadata7CCA3C>,
}

impl GetId for BankAccount {
    open spec fn has_id(&self) -> bool {
        true
    }

    open spec fn id_of(&self) -> String {
        self.id
    }

    fn get_id(&self) -> (r: String) {
        self.id.clone()
    }
}

/// Stripe API location: `bank_account.available_payout_methods.items`, `card.available_payout_methods.items`.
#[derive(Debug, Clone)]
pub enum UniStrItemsD0C1A3 {
    /// JSON value: `"instant"`.
    Instant,
    /// JSON value: `"standard"`.
    Standard,
}

/// Stripe API location: `bank_account.object`, `deleted_bank_account.object`.
#[derive(Debug, Clone)]
pub enum UniStrObject5F868A {
    /// JSON value: `"bank_account"`.
    BankAccount,
}

/// Stripe API location: `billing_details`.
#[derive(Debug, Clone)]
pub struct BillingDetails {
    pub name: Option<String>,
    pub address: Option<Address>,
    pub email: Option<String>,
    pub phone: Option<String>,
}

/// Stripe API location: `billing_portal.session`.
#[derive(Debug, Clone)]
pub struct PortalSession {
    pub object: UniStrObject94B3D3,
    pub id: String,
    pub customer: String,
    pub return_url: String,
    pub url: String,
    pub created: i64,
    pub livemode: bool,
}

impl GetId for PortalSession {
    open spec fn has_id(&self) -> bool {
        true
    }

    open spec fn id_of(&self) -> String {
        self.id
    }

    fn get_id(&self) -> (r: String) {
        self.id.clone()
    }
}

/// Stripe API location: `billing_portal.session.object`.
#[derive(Debug, Clone)]
pub enum UniStrObject94B3D3 {
    /// JSON value: `"billing_portal.session"`.
    BillingPortalDotSession,
}

/// Stripe API location: `bitcoin_receiver`.
#[derive(Debug, Clone)]
pub struct BitcoinReceiver {
    pub object: UniStrObject041746,
    pub id: String,
    pub active: bool,
    pub amount: i64,
    pub amount_received: i64,
    pub bitcoin_amount: i64,
    pub bitcoin_amount_received: i64,
    pub bitcoin_uri: String,
    pub currency: String,
    pub customer: Option<String>,
    pub description: Option<String>,
    pub email: Option<String>,
    pub filled: bool,
    pub inbound_address: String,
    pub payment: Option<String>,
    pub refund_address: Option<String>,
    pub transactions: Option<BitcoinTransactionListC35081>,
    pub uncaptured_funds: bool,
    pub used_for_payment: Option<bool>,
    pub created: i64,
    pub livemode: bool,
    pub metadata: Option<Metadata7CCA3C>,
}

impl GetId for BitcoinReceiver {
    open spec fn has_id(&self) -> bool {
        true
    }

    open spec fn id_of(&self) -> String {
        self.id
    }

    fn get_id(&self) -> (r: String) {
        self.id.clone()
    }
}

/// Stripe API location: `bitcoin_receiver.object`, `deleted_bitcoin_receiver.object`.
#[derive(Debug, Clone)]
pub enum UniStrObject041746 {
    /// JSON value: `"bitcoin_receiver"`.
    BitcoinReceiver,
}

/// Stripe API location: `bitcoin_receiver.transactions`.
#[derive(Debug, Clone)]
pub struct BitcoinTransactionListC35081 {
    pub object: UniStrObject344B0E,
    pub data: Vec<BitcoinTransaction>,
    pub has_more: bool,
    pub url: String,
}

impl PageMeta for BitcoinTransactionListC35081 {
    open spec fn page_ready(&self) -> bool {
        true
    }

    open spec fn page_ids(&self) -> Seq<String> {
        self.data@.map_values(|x: BitcoinTransaction| x.id)
    }

    open spec fn page_has_more(&self) -> bool {
        self.has_more
    }

    fn get_from_to(&self) -> (r: Option<(String, String)>) {
        if self.data.len() == 0 {
            return None;
        }
        Some((self.data[0].id.clone(), self.data[self.data.len() - 1].id.clone()))
    }

    fn get_has_more(&self) -> (r: bool) {
        self.has_more
    }
}

/// Stripe API location: `bitcoin_transaction`.
#[derive(Debug, Clone)]
pub struct BitcoinTransaction {
    pub object: UniStrObjectD009EA,
    pub id: String,
    pub amount: i64,
    pub bitcoin_amount: i64,
    pub currency: String,
    pub receiver: String,
    pub created: i64,
}

impl GetId for BitcoinTransaction {
    open spec fn has_id(&self) -> bool {
        true
    }

    open spec fn id_of(&self) -> String {
        self.id
    }

    fn get_id(&self) -> (r: String) {
        self.id.clone()
    }
}

/// Stripe API location: `bitcoin_transaction.object`.
#[derive(Debug, Clone)]
pub enum UniStrObjectD009EA {
    /// JSON value: `"bitcoin_transaction"`.
    BitcoinTransaction,
}

/// Stripe API location: `capability`.
#[derive(Debug)]
pub struct AccountCapability {
    pub object: UniStrObjectADCEF8,
    pub id: String,
    pub account: UniAccount,
    pub requested: bool,
    pub requested_at: Option<i64>,
    pub requirements: Option<AccountCapabilityRequirements>,
    pub status: UniStrStatus97E37F,
}

impl GetId for AccountCapability {
    open spec fn has_id(&self) -> bool {
        true
    }

    open spec fn id_of(&self) -> String {
        self.id
    }

    fn get_id(&self) -> (r: String) {
        self.id.clone()
    }
}

/// Stripe API location: `capability.object`.
#[derive(Debug, Clone)]
pub enum UniStrObjectADCEF8 {
    /// JSON value: `"capability"`.
    Capability,
}

/// Stripe API location: `capability.status`.
#[derive(Debug, Clone)]
pub enum UniStrStatus97E37F {
    /// JSON value: `"active"`.
    Active,
    /// JSON value: `"disabled"`.
    Disabled,
    /// JSON value: `"inactive"`.
    Inactive,
    /// JSON value: `"pending"`.
    Pending,
    /// JSON value: `"unrequested"`.
    Unrequested,
}

/// Stripe API location: `card`.
#[derive(Debug)]
pub struct Card {
    pub object: UniStrObjectBAC623,
    pub id: String,
    pub name: Option<String>,
    pub account: Option<UniAccount>,
    pub customer: Option<UniCustomerC00F6E>,
    pub recipient: Option<UniRecipient>,
    pub address_city: Option<String>,
    pub address_country: Option<String>,
    pub address_line1: Option<String>,
    pub address_line1_check: Option<String>,
    pub address_line2: Option<String>,
    pub address_state: Option<String>,
    pub address_zip: Option<String>,
    pub address_zip_check: Option<String>,
    pub available_payout_methods: Option<Vec<UniStrItemsD0C1A3>>,
    pub brand: String,
    pub country: Option<String>,
    pub currency: Option<String>,
    pub cvc_check: Option<String>,
    pub default_for_currency: Option<bool>,
    pub dynamic_last4: Option<String>,
    pub exp_month: i64,
    pub exp_year: i64,
    pub fingerprint: Option<String>,
    pub funding: String,
    pub last4: String,
    pub tokenization_method: Option<String>,
    pub metadata: Option<Metadata7CCA3C>,
}

impl GetId for Card {
    open spec fn has_id(&self) -> bool {
        true
    }

    open spec fn id_of(&self) -> String {
        self.id
    }

    fn get_id(&self) -> (r: String) {
        self.id.clone()
    }
}

/// Stripe API location: `card.object`, `deleted_card.object`.
#[derive(Debug, Clone)]
pub enum UniStrObjectBAC623 {
    /// JSON value: `"card"`.
    Card,
}

/// Stripe API location: `card.recipient`.
/// Encoded in JSON without a tag: the variant is chosen by the shape of the value.
#[derive(Debug)]
pub enum UniRecipient {
    String(String),
    TransferRecipient(TransferRecipient),
}

/// Stripe API location: `card_generated_from_payment_method_details`.
#[derive(Debug, Clone)]
pub struct CardGeneratedFromPaymentMethodDetails {
    /// JSON key: `type`.
    pub type_x: String,
    pub card_present: Option<PaymentMethodDetailsCardPresent>,
}

/// Stripe API location: `charge`.
#[derive(Debug)]
pub struct Charge {
    pub object: UniStrObjectA84719,
    pub id: String,
    pub paid: bool,
    pub application: Option<UniApplication>,
    pub application_fee: Option<UniFee>,
    pub balance_transaction: Option<UniBalanceTransaction>,
    pub customer: Option<UniCustomerC00F6E>,
    pub invoice: Option<UniInvoice>,
    pub on_behalf_of: Option<UniAccount>,
    pub order: Option<UniOrder>,
    pub payment_intent: Option<UniPaymentIntent>,
    pub review: Option<UniReview>,
    pub source_transfer: Option<UniTransfer>,
    pub transfer: Option<UniTransfer>,
    pub amount: i64,
    pub amount_captured: i64,
    pub amount_refunded: i64,
    pub application_fee_amount: Option<i64>,
    pub billing_details: BillingDetails,
    pub calculated_statement_descriptor: Option<String>,
    pub captured: bool,
    pub currency: String,
    pub description: Option<String>,
    pub disputed: bool,
    pub failure_code: Option<String>,
    pub failure_message: Option<String>,
    pub fraud_details: Option<ChargeFraudDetails>,
    pub outcome: Option<ChargeOutcome>,
    pub payment_method: Option<String>,
    pub payment_method_details: Option<PaymentMethodDetails>,
    pub receipt_email: Option<String>,
    pub receipt_number: Option<String>,
    pub receipt_url: Option<String>,
    pub refunded: bool,
    pub refunds: RefundList4E41A7,
    pub shipping: Option<Shipping>,
    pub statement_descriptor: Option<String>,
    pub statement_descriptor_suffix: Option<String>,
    pub status: String,
    pub transfer_data: Option<ChargeTransferData>,
    pub transfer_group: Option<String>,
    pub created: i64,
    pub livemode: bool,
    pub metadata: Metadata8076DB,
}

impl GetId for Charge {
    open spec fn has_id(&self) -> bool {
        true
    }

    open spec fn id_of(&self) -> String {
        self.id
    }

    fn get_id(&self) -> (r: String) {
        self.id.clone()
    }
}

/// Stripe API location: `charge.application_fee`, `fee_refund.fee`.
/// Encoded in JSON without a tag: the variant is chosen by the shape of the value.
#[derive(Debug)]
pub enum UniFee {
    String(String),
    PlatformFee(PlatformFee),
}

/// Stripe API location: `charge.invoice`, `credit_note.invoice`, `customer_balance_transaction.invoice` (and 3 more).
/// Encoded in JSON without a tag: the variant is chosen by the shape of the value.
#[derive(Debug)]
pub enum UniInvoice {
    String(String),
    Invoice(Box<Invoice>),
}

/// Stripe API location: `charge.object`.
#[derive(Debug, Clone)]
pub enum UniStrObjectA84719 {
    /// JSON value: `"charge"`.
    Charge,
}

/// Stripe API location: `charge.order`, `order_return.order`.
/// Encoded in JSON without a tag: the variant is chosen by the shape of the value.
#[derive(Debug)]
pub enum UniOrder {
    String(String),
    Order(Order),
}

/// Stripe API location: `charge.payment_intent`, `checkout.session.payment_intent`, `dispute.payment_intent` (and 3 more).
/// Encoded in JSON without a tag: the variant is chosen by the shape of the value.
#[derive(Debug)]
pub enum UniPaymentIntent {
    String(String),
    PaymentIntent(Box<PaymentIntent>),
}

/// Stripe API location: `charge.refunds`.
#[derive(Debug)]
pub struct RefundList4E41A7 {
    pub object: UniStrObject344B0E,
    pub data: Vec<Refund>,
    pub has_more: bool,
    pub url: String,
}

impl PageMeta for RefundList4E41A7 {
    open spec fn page_ready(&self) -> bool {
        true
    }

    open spec fn page_ids(&self) -> Seq<String> {
        self.data@.map_values(|x: Refund| x.id)
    }

    open spec fn page_has_more(&self) -> bool {
        self.has_more
    }

    fn get_from_to(&self) -> (r: Option<(String, String)>) {
        if self.data.len() == 0 {
            return None;
        }
        Some((self.data[0].id.clone(), self.data[self.data.len() - 1].id.clone()))
    }

    fn get_has_more(&self) -> (r: bool) {
        self.has_more
    }
}

/// Stripe API location: `charge.review`, `payment_intent.review`.
/// Encoded in JSON without a tag: the variant is chosen by the shape of the value.
#[derive(Debug)]
pub enum UniReview {
    String(String),
    RadarReview(RadarReview),
}

/// Stripe API location: `charge.source_transfer`, `charge.transfer`, `transfer_reversal.transfer`.
/// Encoded in JSON without a tag: the variant is chosen by the shape of the value.
#[derive(Debug)]
pub enum UniTransfer {
    String(String),
    Transfer(Transfer),
}

/// Stripe API location: `charge_fraud_details`.
#[derive(Debug, Clone)]
pub struct ChargeFraudDetails {
    pub stripe_report: Option<String>,
    pub user_report: Option<String>,
}

/// Stripe API location: `charge_outcome`.
#[derive(Debug, Clone)]
pub struct ChargeOutcome {
    /// JSON key: `type`.
    pub type_x: String,
    pub rule: Option<UniRule>,
    pub network_status: Option<String>,
    pub reason: Option<String>,
    pub risk_level: Option<String>,
    pub risk_score: Option<i64>,
    pub seller_message: Option<String>,
}

/// Stripe API location: `charge_outcome.rule`.
/// Encoded in JSON without a tag: the variant is chosen by the shape of the value.
#[derive(Debug, Clone)]
pub enum UniRule {
    String(String),
    RadarRule(RadarRule),
}

/// Stripe API location: `charge_transfer_data`.
#[derive(Debug)]
pub struct ChargeTransferData {
    pub destination: UniAccount,
    pub amount: Option<i64>,
}

/// Stripe API location: `checkout.session`.
#[derive(Debug)]
pub struct Session {
    pub object: UniStrObject67F833,
    pub client_reference_id: Option<String>,
    pub id: String,
    pub customer: Option<UniCustomerC00F6E>,
    pub payment_intent: Option<UniPaymentIntent>,
    pub setup_intent: Option<UniSetupIntent>,
    pub subscription: Option<UniSubscription>,
    pub allow_promotion_codes: Option<bool>,
    pub amount_subtotal: Option<i64>,
    pub amount_total: Option<i64>,
    pub billing_address_collection: Option<UniStrBillingAddressCollection>,
    pub cancel_url: String,
    pub currency: Option<String>,
    pub customer_email: Option<String>,
    pub line_items: Option<PaymentPagesCheckoutSessionListLineItems46D5C8>,
    pub locale: Option<UniStrLocale>,
    pub mode: UniStrMode,
    pub payment_method_types: Vec<String>,
    pub payment_status: UniStrPaymentStatus,
    pub shipping: Option<Shipping>,
    pub shipping_address_collection: Option<PaymentPagesPaymentPageResourcesShippingAddressCollection>,
    pub submit_type: Option<UniStrSubmitType>,
    pub success_url: String,
    pub total_details: Option<PaymentPagesCheckoutSessionTotalDetails>,
    pub livemode: bool,
    pub metadata: Option<Metadata7CCA3C>,
}

impl GetId for Session {
    open spec fn has_id(&self) -> bool {
        true
    }

    open spec fn id_of(&self) -> String {
        self.id
    }

    fn get_id(&self) -> (r: String) {
        self.id.clone()
    }
}

/// Stripe API location: `checkout.session.billing_address_collection`.
#[derive(Debug, Clone)]
pub enum UniStrBillingAddressCollection {
    /// JSON value: `"auto"`.
    Auto,
    /// JSON value: `"required"`.
    Required,
}

/// Stripe API location: `checkout.session.line_items`.
#[derive(Debug)]
pub struct PaymentPagesCheckoutSessionListLineItems46D5C8 {
    pub object: UniStrObject344B0E,
    pub data: Vec<LineItems>,
    pub has_more: bool,
    pub url: String,
}

impl PageMeta for PaymentPagesCheckoutSessionListLineItems46D5C8 {
    open spec fn page_ready(&self) -> bool {
        true
    }

    open spec fn page_ids(&self) -> Seq<String> {
        self.data@.map_values(|x: LineItems| x.id)
    }

    open spec fn page_has_more(&self) -> bool {
        self.has_more
    }

    fn get_from_to(&self) -> (r: Option<(String, String)>) {
        if self.data.len() == 0 {
            return None;
        }
        Some((self.data[0].id.clone(), self.data[self.data.len() - 1].id.clone()))
    }

    fn get_has_more(&self) -> (r: bool) {
        self.has_more
    }
}

/// Stripe API location: `checkout.session.locale`.
#[derive(Debug, Clone)]
pub enum UniStrLocale {
    /// JSON value: `"auto"`.
    Auto,
    /// JSON value: `"bg"`.
    Bg,
    /// JSON value: `"cs"`.
    Cs,
    /// JSON value: `"da"`.
    Da,
    /// JSON value: `"de"`.
    De,
    /// JSON value: `"el"`.
    El,
    /// JSON value: `"en"`.
    En,
    /// JSON value: `"en-GB"`.
    EnGB,
    /// JSON value: `"es"`.
    Es,
    /// JSON value: `"es-419"`.
    Es419,
    /// JSON value: `"et"`.
    Et,
    /// JSON value: `"fi"`.
    Fi,
    /// JSON value: `"fr"`.
    Fr,
    /// JSON value: `"fr-CA"`.
    FrCA,
    /// JSON value: `"hu"`.
    Hu,
    /// JSON value: `"id"`.
    Id,
    /// JSON value: `"it"`.
    It,
    /// JSON value: `"ja"`.
    Ja,
    /// JSON value: `"lt"`.
    Lt,
    /// JSON value: `"lv"`.
    Lv,
    /// JSON value: `"ms"`.
    Ms,
    /// JSON value: `"mt"`.
    Mt,
    /// JSON value: `"nb"`.
    Nb,
    /// JSON value: `"nl"`.
    Nl,
    /// JSON value: `"pl"`.
    Pl,
    /// JSON value: `"pt"`.
    Pt,
    /// JSON value: `"pt-BR"`.
    PtBR,
    /// JSON value: `"ro"`.
    Ro,
    /// JSON value: `"ru"`.
    Ru,
    /// JSON value: `"sk"`.
    Sk,
    /// JSON value: `"sl"`.
    Sl,
    /// JSON value: `"sv"`.
    Sv,
    /// JSON value: `"tr"`.
    Tr,
    /// JSON value: `"zh"`.
    Zh,
    /// JSON value: `"zh-HK"`.
    ZhHK,
    /// JSON value: `"zh-TW"`.
    ZhTW,
}

/// Stripe API location: `checkout.session.mode`.
#[derive(Debug, Clone)]
pub enum UniStrMode {
    /// JSON value: `"payment"`.
    Payment,
    /// JSON value: `"setup"`.
    Setup,
    /// JSON value: `"subscription"`.
    Subscription,
}

/// Stripe API location: `checkout.session.object`.
#[derive(Debug, Clone)]
pub enum UniStrObject67F833 {
    /// JSON value: `"checkout.session"`.
    CheckoutDotSession,
}

/// Stripe API location: `checkout.session.payment_status`.
#[derive(Debug, Clone)]
pub enum UniStrPaymentStatus {
    /// JSON value: `"no_payment_required"`.
    NoPaymentRequired,
    /// JSON value: `"paid"`.
    Paid,
    /// JSON value: `"unpaid"`.
    Unpaid,
}

/// Stripe API location: `checkout.session.setup_intent`, `setup_attempt.setup_intent`, `subscription.pending_setup_intent`.
/// Encoded in JSON without a tag: the variant is chosen by the shape of the value.
#[derive(Debug)]
pub enum UniSetupIntent {
    String(String),
    SetupIntent(Box<SetupIntent>),
}

/// Stripe API location: `checkout.session.submit_type`.
#[derive(Debug, Clone)]
pub enum UniStrSubmitType {
    /// JSON value: `"auto"`.
    Auto,
    /// JSON value: `"book"`.
    Book,
    /// JSON value: `"donate"`.
    Donate,
    /// JSON value: `"pay"`.
    Pay,
}

/// Stripe API location: `checkout.session.subscription`, `invoice.subscription`, `invoiceitem.subscription` (and 1 more).
/// Encoded in JSON without a tag: the variant is chosen by the shape of the value.
#[derive(Debug)]
pub enum UniSubscription {
    String(String),
    Subscription(Box<Subscription>),
}

/// Stripe API location: `connect_collection_transfer`.
#[derive(Debug)]
pub struct ConnectCollectionTransfer {
    pub object: UniStrObject014065,
    pub id: String,
    pub destination: UniAccount,
    pub amount: i64,
    pub currency: String,
    pub livemode: bool,
}

impl GetId for ConnectCollectionTransfer {
    open spec fn has_id(&self) -> bool {
        true
    }

    open spec fn id_of(&self) -> String {
        self.id
    }

    fn get_id(&self) -> (r: String) {
        self.id.clone()
    }
}

/// Stripe API location: `connect_collection_transfer.object`.
#[derive(Debug, Clone)]
pub enum UniStrObject014065 {
    /// JSON value: `"connect_collection_transfer"`.
    ConnectCollectionTransfer,
}

/// Stripe API location: `country_spec`.
#[derive(Debug, Clone)]
pub struct CountrySpec {
    pub object: UniStrObjectF72038,
    pub id: String,
    pub default_currency: String,
    pub supported_bank_account_currencies: SupportedBankAccountCurrencies,
    pub supported_payment_currencies: Vec<String>,
    pub supported_payment_methods: Vec<String>,
    pub supported_transfer_countries: Vec<String>,
    pub verification_fields: CountrySpecVerificationFields,
}

impl GetId for CountrySpec {
    open spec fn has_id(&self) -> bool {
        true
    }

    open spec fn id_of(&self) -> String {
        self.id
    }

    fn get_id(&self) -> (r: String) {
        self.id.clone()
    }
}

/// Stripe API location: `country_spec.object`.
#[derive(Debug, Clone)]
pub enum UniStrObjectF72038 {
    /// JSON value: `"country_spec"`.
    CountrySpec,
}

/// Stripe API location: `country_spec_verification_field_details`.
#[derive(Debug, Clone)]
pub struct CountrySpecVerificationFieldDetails {
    pub additional: Vec<String>,
    pub minimum: Vec<String>,
}

/// Stripe API location: `country_spec_verification_fields`.
#[derive(Debug, Clone)]
pub struct CountrySpecVerificationFields {
    pub company: CountrySpecVerificationFieldDetails,
    pub individual: CountrySpecVerificationFieldDetails,
}

/// Stripe API location: `coupon`.
#[derive(Debug, Clone)]
pub struct Coupon {
    pub object: UniStrObjectDA5FE2,
    pub id: String,
    pub valid: bool,
    pub name: Option<String>,
    pub amount_off: Option<i64>,
    pub applies_to: Option<CouponAppliesTo>,
    pub currency: Option<String>,
    pub duration: UniStrDuration,
    pub duration_in_months: Option<i64>,
    pub max_redemptions: Option<i64>,
    pub percent_off: Option<F64Bits>,
    pub redeem_by: Option<i64>,
    pub times_redeemed: i64,
    pub created: i64,
    pub livemode: bool,
    pub metadata: Option<Metadata7CCA3C>,
}

impl GetId for Coupon {
    open spec fn has_id(&self) -> bool {
        true
    }

    open spec fn id_of(&self) -> String {
        self.id
    }

    fn get_id(&self) -> (r: String) {
        self.id.clone()
    }
}

/// Stripe API location: `coupon.duration`.
#[derive(Debug, Clone)]
pub enum UniStrDuration {
    /// JSON value: `"forever"`.
    Forever,
    /// JSON value: `"once"`.
    Once,
    /// JSON value: `"repeating"`.
    Repeating,
}

/// Stripe API location: `coupon.object`, `deleted_coupon.object`.
#[derive(Debug, Clone)]
pub enum UniStrObjectDA5FE2 {
    /// JSON value: `"coupon"`.
    Coupon,
}

/// Stripe API location: `coupon_applies_to`.
#[derive(Debug, Clone)]
pub struct CouponAppliesTo {
    pub products: Vec<String>,
}

/// Stripe API location: `credit_note`.
#[derive(Debug)]
pub struct CreditNote {
    pub object: UniStrObjectD362B6,
    /// JSON key: `type`.
    pub type_x: UniStrTypeC2237F,
    pub id: String,
    pub customer: UniCustomerC00F6E,
    pub customer_balance_transaction: Option<UniCustomerBalanceTransaction>,
    pub invoice: UniInvoice,
    pub refund: Option<UniRefund>,
    pub amount: i64,
    pub currency: String,
    pub discount_amount: i64,
    pub discount_amounts: Vec<DiscountsResourceDiscountAmount>,
    pub lines: CreditNoteLinesListF7B44B,
    pub memo: Option<String>,
    pub number: String,
    pub out_of_band_amount: Option<i64>,
    pub pdf: String,
    pub reason: Option<UniStrReasonAB5E91>,
    pub status: UniStrStatus476873,
    pub subtotal: i64,
    pub tax_amounts: Vec<CreditNoteTaxAmount>,
    pub total: i64,
    pub voided_at: Option<i64>,
    pub created: i64,
    pub livemode: bool,
    pub metadata: Option<Metadata7CCA3C>,
}

impl GetId for CreditNote {
    open spec fn has_id(&self) -> bool {
        true
    }

    open spec fn id_of(&self) -> String {
        self.id
    }

    fn get_id(&self) -> (r: String) {
        self.id.clone()
    }
}

/// Stripe API location: `credit_note.customer_balance_transaction`.
/// Encoded in JSON without a tag: the variant is chosen by the shape of the value.
#[derive(Debug)]
pub enum UniCustomerBalanceTransaction {
    String(String),
    CustomerBalanceTransaction(CustomerBalanceTransaction),
}

/// Stripe API location: `credit_note.lines`.
#[derive(Debug)]
pub struct CreditNoteLinesListF7B44B {
    pub object: UniStrObject344B0E,
    pub data: Vec<CreditNoteLineItem>,
    pub has_more: bool,
    pub url: String,
}

impl PageMeta for CreditNoteLinesListF7B44B {
    open spec fn page_ready(&self) -> bool {
        true
    }

    open spec fn page_ids(&self) -> Seq<String> {
        self.data@.map_values(|x: CreditNoteLineItem| x.id)
    }

    open spec fn page_has_more(&self) -> bool {
        self.has_more
    }

    fn get_from_to(&self) -> (r: Option<(String, String)>) {
        if self.data.len() == 0 {
            return None;
        }
        Some((self.data[0].id.clone(), self.data[self.data.len() - 1].id.clone()))
    }

    fn get_has_more(&self) -> (r: bool) {
        self.has_more
    }
}

/// Stripe API location: `credit_note.object`.
#[derive(Debug, Clone)]
pub enum UniStrObjectD362B6 {
    /// JSON value: `"credit_note"`.
    CreditNote,
}

/// Stripe API location: `credit_note.refund`, `order_return.refund`, `transfer_reversal.destination_payment_refund` (and 1 more).
/// Encoded in JSON without a tag: the variant is chosen by the shape of the value.
#[derive(Debug)]
pub enum UniRefund {
    String(String),
    Refund(Box<Refund>),
}

/// Stripe API location: `credit_note.status`.
#[derive(Debug, Clone)]
pub enum UniStrStatus476873 {
    /// JSON value: `"issued"`.
    Issued,
    /// JSON value: `"void"`.
    Void,
}

/// Stripe API location: `credit_note.type`.
#[derive(Debug, Clone)]
pub enum UniStrTypeC2237F {
    /// JSON value: `"post_payment"`.
    PostPayment,
    /// JSON value: `"pre_payment"`.
    PrePayment,
}

/// Stripe API location: `credit_note_line_item`.
#[derive(Debug)]
pub struct CreditNoteLineItem {
    pub object: UniStrObjectEE08F6,
    /// JSON key: `type`.
    pub type_x: UniStrType00DF75,
    pub id: String,
    pub amount: i64,
    pub description: Option<String>,
    pub discount_amount: i64,
    pub discount_amounts: Vec<DiscountsResourceDiscountAmount>,
    pub invoice_line_item: Option<String>,
    pub quantity: Option<i64>,
    pub tax_amounts: Vec<CreditNoteTaxAmount>,
    pub tax_rates: Vec<TaxRate>,
    pub unit_amount: Option<i64>,
    pub unit_amount_decimal: Option<String>,
    pub livemode: bool,
}

impl GetId for CreditNoteLineItem {
    open spec fn has_id(&self) -> bool {
        true
    }

    open spec fn id_of(&self) -> String {
        self.id
    }

    fn get_id(&self) -> (r: String) {
        self.id.clone()
    }
}

/// Stripe API location: `credit_note_line_item.object`.
#[derive(Debug, Clone)]
pub enum UniStrObjectEE08F6 {
    /// JSON value: `"credit_note_line_item"`.
    CreditNoteLineItem,
}

/// Stripe API location: `credit_note_tax_amount`.
#[derive(Debug, Clone)]
pub struct CreditNoteTaxAmount {
    pub tax_rate: UniTaxRate,
    pub amount: i64,
    pub inclusive: bool,
}

/// Stripe API location: `credit_note_tax_amount.tax_rate`, `invoice_tax_amount.tax_rate`.
/// Encoded in JSON without a tag: the variant is chosen by the shape of the value.
#[derive(Debug, Clone)]
pub enum UniTaxRate {
    String(String),
    TaxRate(TaxRate),
}

/// Stripe API location: `customer`.
#[derive(Debug)]
pub struct Customer {
    pub object: UniStrObject877A57,
    pub id: String,
    pub name: Option<String>,
    pub default_source: Box<Option<UniDefaultSource>>,
    pub address: Option<Address>,
    pub balance: Option<i64>,
    pub currency: Option<String>,
    pub delinquent: Option<bool>,
    pub description: Option<String>,
    pub discount: Option<Discount>,
    pub email: Option<String>,
    pub invoice_prefix: Option<String>,
    pub invoice_settings: Option<InvoiceSettingCustomerSetting>,
    pub next_invoice_sequence: Option<i64>,
    pub phone: Option<String>,
    pub preferred_locales: Option<Vec<String>>,
    pub shipping: Option<Shipping>,
    pub sources: Option<ApmsSourcesSourceListC6CBF8>,
    pub subscriptions: Option<SubscriptionListAFDD89>,
    pub tax_exempt: Option<UniStrTaxExempt>,
    pub tax_ids: Option<TaxIDsList05E0C9>,
    pub created: i64,
    pub livemode: bool,
    pub metadata: Option<Metadata8076DB>,
}

impl GetId for Customer {
    open spec fn has_id(&self) -> bool {
        true
    }

    open spec fn id_of(&self) -> String {
        self.id
    }

    fn get_id(&self) -> (r: String) {
        self.id.clone()
    }
}

/// Stripe API location: `customer.default_source`, `invoice.default_source`, `subscription.default_source`.
/// Encoded in JSON without a tag: the variant is chosen by the shape of the value.
#[derive(Debug)]
pub enum UniDefaultSource {
    String(String),
    AlipayAccount(AlipayAccount),
    BankAccount(BankAccount),
    BitcoinReceiver(BitcoinReceiver),
    Card(Box<Card>),
    Source(Source),
}

/// Stripe API location: `customer.object`, `deleted_customer.object`.
#[derive(Debug, Clone)]
pub enum UniStrObject877A57 {
    /// JSON value: `"customer"`.
    Customer,
}

/// Stripe API location: `customer.sources`.
#[derive(Debug)]
pub struct ApmsSourcesSourceListC6CBF8 {
    pub object: UniStrObject344B0E,
    pub data: Vec<UniPolymorphic646C3F>,
    pub has_more: bool,
    pub url: String,
}

/// Stripe API location: `customer.subscriptions`.
#[derive(Debug)]
pub struct SubscriptionListAFDD89 {
    pub object: UniStrObject344B0E,
    pub data: Vec<Subscription>,
    pub has_more: bool,
    pub url: String,
}

impl PageMeta for SubscriptionListAFDD89 {
    open spec fn page_ready(&self) -> bool {
        true
    }

    open spec fn page_ids(&self) -> Seq<String> {
        self.data@.map_values(|x: Subscription| x.id)
    }

    open spec fn page_has_more(&self) -> bool {
        self.has_more
    }

    fn get_from_to(&self) -> (r: Option<(String, String)>) {
        if self.data.len() == 0 {
            return None;
        }
        Some((self.data[0].id.clone(), self.data[self.data.len() - 1].id.clone()))
    }

    fn get_has_more(&self) -> (r: bool) {
        self.has_more
    }
}

/// Stripe API location: `customer.tax_exempt`, `invoice.customer_tax_exempt`.
#[derive(Debug, Clone)]
pub enum UniStrTaxExempt {
    /// JSON value: `"exempt"`.
    Exempt,
    /// JSON value: `"none"`.
    NoneX,
    /// JSON value: `"reverse"`.
    Reverse,
}

/// Stripe API location: `customer.tax_ids`.
#[derive(Debug)]
pub struct TaxIDsList05E0C9 {
    pub object: UniStrObject344B0E,
    pub data: Vec<TaxId>,
    pub has_more: bool,
    pub url: String,
}

impl PageMeta for TaxIDsList05E0C9 {
    open spec fn page_ready(&self) -> bool {
        true
    }

    open spec fn page_ids(&self) -> Seq<String> {
        self.data@.map_values(|x: TaxId| x.id)
    }

    open spec fn page_has_more(&self) -> bool {
        self.has_more
    }

    fn get_from_to(&self) -> (r: Option<(String, String)>) {
        if self.data.len() == 0 {
            return None;
        }
        Some((self.data[0].id.clone(), self.data[self.data.len() - 1].id.clone()))
    }

    fn get_has_more(&self) -> (r: bool) {
        self.has_more
    }
}

/// Stripe API location: `customer_acceptance`.
#[derive(Debug, Clone)]
pub struct CustomerAcceptance {
    /// JSON key: `type`.
    pub type_x: UniStrTypeD153A1,
    pub accepted_at: Option<i64>,
    pub offline: Option<OfflineAcceptance>,
    pub online: Option<OnlineAcceptance>,
}

/// Stripe API location: `customer_balance_transaction`.
#[derive(Debug)]
pub struct CustomerBalanceTransaction {
    pub object: UniStrObjectA5E76E,
    /// JSON key: `type`.
    pub type_x: UniStrTypeBC72A1,
    pub id: String,
    pub credit_note: Option<UniCreditNote>,
    pub customer: UniCustomerEDC00A,
    pub invoice: Option<UniInvoice>,
    pub amount: i64,
    pub currency: String,
    pub description: Option<String>,
    pub ending_balance: i64,
    pub created: i64,
    pub livemode: bool,
    pub metadata: Option<Metadata7CCA3C>,
}

impl GetId for CustomerBalanceTransaction {
    open spec fn has_id(&self) -> bool {
        true
    }

    open spec fn id_of(&self) -> String {
        self.id
    }

    fn get_id(&self) -> (r: String) {
        self.id.clone()
    }
}

/// Stripe API location: `customer_balance_transaction.credit_note`.
/// Encoded in JSON without a tag: the variant is chosen by the shape of the value.
#[derive(Debug)]
pub enum UniCreditNote {
    String(String),
    CreditNote(Box<CreditNote>),
}

/// Stripe API location: `customer_balance_transaction.customer`, `payment_method.customer`, `tax_id.customer`.
/// Encoded in JSON without a tag: the variant is chosen by the shape of the value.
#[derive(Debug)]
pub enum UniCustomerEDC00A {
    String(String),
    Customer(Box<Customer>),
}

/// Stripe API location: `customer_balance_transaction.object`.
#[derive(Debug, Clone)]
pub enum UniStrObjectA5E76E {
    /// JSON value: `"customer_balance_transaction"`.
    CustomerBalanceTransaction,
}

/// Stripe API location: `customer_balance_transaction.type`.
#[derive(Debug, Clone)]
pub enum UniStrTypeBC72A1 {
    /// JSON value: `"adjustment"`.
    Adjustment,
    /// JSON value: `"applied_to_invoice"`.
    AppliedToInvoice,
    /// JSON value: `"credit_note"`.
    CreditNote,
    /// JSON value: `"initial"`.
    Initial,
    /// JSON value: `"invoice_too_large"`.
    InvoiceTooLarge,
    /// JSON value: `"invoice_too_small"`.
    InvoiceTooSmall,
    /// JSON value: `"migration"`.
    Migration,
    /// JSON value: `"unapplied_from_invoice"`.
    UnappliedFromInvoice,
    /// JSON value: `"unspent_receiver_credit"`.
    UnspentReceiverCredit,
}

/// Stripe API location: `deleted_account`.
#[derive(Debug, Clone)]
pub struct DeletedAccount {
    pub object: UniStrObject9D4B89,
    pub id: String,
    pub deleted: bool,
}

impl GetId for DeletedAccount {
    open spec fn has_id(&self) -> bool {
        true
    }

    open spec fn id_of(&self) -> String {
        self.id
    }

    fn get_id(&self) -> (r: String) {
        self.id.clone()
    }
}

/// Stripe API location: `deleted_alipay_account`.
#[derive(Debug, Clone)]
pub struct AlipayDeletedAccount {
    pub object: UniStrObject2AE122,
    pub id: String,
    pub deleted: bool,
}

impl GetId for AlipayDeletedAccount {
    open spec fn has_id(&self) -> bool {
        true
    }

    open spec fn id_of(&self) -> String {
        self.id
    }

    fn get_id(&self) -> (r: String) {
        self.id.clone()
    }
}

/// Stripe API location: `deleted_apple_pay_domain`.
#[derive(Debug, Clone)]
pub struct DeletedApplePayDomain {
    pub object: UniStrObjectBA0885,
    pub id: String,
    pub deleted: bool,
}

impl GetId for DeletedApplePayDomain {
    open spec fn has_id(&self) -> bool {
        true
    }

    open spec fn id_of(&self) -> String {
        self.id
    }

    fn get_id(&self) -> (r: String) {
        self.id.clone()
    }
}

/// Stripe API location: `deleted_bank_account`.
#[derive(Debug, Clone)]
pub struct DeletedBankAccount {
    pub object: UniStrObject5F868A,
    pub id: String,
    pub currency: Option<String>,
    pub deleted: bool,
}

impl GetId for DeletedBankAccount {
    open spec fn has_id(&self) -> bool {
        true
    }

    open spec fn id_of(&self) -> String {
        self.id
    }

    fn get_id(&self) -> (r: String) {
        self.id.clone()
    }
}

/// Stripe API location: `deleted_bitcoin_receiver`.
#[derive(Debug, Clone)]
pub struct BitcoinDeletedReceiver {
    pub object: UniStrObject041746,
    pub id: String,
    pub deleted: bool,
}

impl GetId for BitcoinDeletedReceiver {
    open spec fn has_id(&self) -> bool {
        true
    }

    open spec fn id_of(&self) -> String {
        self.id
    }

    fn get_id(&self) -> (r: String) {
        self.id.clone()
    }
}

/// Stripe API location: `deleted_card`.
#[derive(Debug, Clone)]
pub struct DeletedCard {
    pub object: UniStrObjectBAC623,
    pub id: String,
    pub currency: Option<String>,
    pub deleted: bool,
}

impl GetId for DeletedCard {
    open spec fn has_id(&self) -> bool {
        true
    }

    open spec fn id_of(&self) -> String {
        self.id
    }

    fn get_id(&self) -> (r: String) {
        self.id.clone()
    }
}

/// Stripe API location: `deleted_coupon`.
#[derive(Debug, Clone)]
pub struct DeletedCoupon {
    pub object: UniStrObjectDA5FE2,
    pub id: String,
    pub deleted: bool,
}

impl GetId for DeletedCoupon {
    open spec fn has_id(&self) -> bool {
        true
    }

    open spec fn id_of(&self) -> String {
        self.id
    }

    fn get_id(&self) -> (r: String) {
        self.id.clone()
    }
}

/// Stripe API location: `deleted_customer`.
#[derive(Debug, Clone)]
pub struct DeletedCustomer {
    pub object: UniStrObject877A57,
    pub id: String,
    pub deleted: bool,
}

impl GetId for DeletedCustomer {
    open spec fn has_id(&self) -> bool {
        true
    }

    open spec fn id_of(&self) -> String {
        self.id
    }

    fn get_id(&self) -> (r: String) {
        self.id.clone()
    }
}

/// Stripe API location: `deleted_discount`.
#[derive(Debug)]
pub struct DeletedDiscount {
    pub object: UniStrObjectE5311B,
    pub id: String,
    pub customer: Option<UniCustomerC00F6E>,
    pub promotion_code: Option<UniPromotionCode>,
    pub checkout_session: Option<String>,
    pub coupon: Coupon,
    pub deleted: bool,
    pub invoice: Option<String>,
    pub invoice_item: Option<String>,
    pub start: i64,
    pub subscription: Option<String>,
}

impl GetId for DeletedDiscount {
    open spec fn has_id(&self) -> bool {
        true
    }

    open spec fn id_of(&self) -> String {
        self.id
    }

    fn get_id(&self) -> (r: String) {
        self.id.clone()
    }
}

/// Stripe API location: `deleted_discount.object`, `discount.object`.
#[derive(Debug, Clone)]
pub enum UniStrObjectE5311B {
    /// JSON value: `"discount"`.
    Discount,
}

/// Stripe API location: `deleted_discount.promotion_code`, `discount.promotion_code`.
/// Encoded in JSON without a tag: the variant is chosen by the shape of the value.
#[derive(Debug)]
pub enum UniPromotionCode {
    String(String),
    PromotionCode(PromotionCode),
}

/// Stripe API location: `deleted_external_account`.
/// Encoded in JSON without a tag: the variant is chosen by the shape of the value.
#[derive(Debug, Clone)]
pub enum UniPolymorphicB71A40 {
    DeletedBankAccount(DeletedBankAccount),
    DeletedCard(DeletedCard),
}

/// Stripe API location: `deleted_invoice`.
#[derive(Debug, Clone)]
pub struct DeletedInvoice {
    pub object: UniStrObject5E6A4A,
    pub id: String,
    pub deleted: bool,
}

impl GetId for DeletedInvoice {
    open spec fn has_id(&self) -> bool {
        true
    }

    open spec fn id_of(&self) -> String {
        self.id
    }

    fn get_id(&self) -> (r: String) {
        self.id.clone()
    }
}

/// Stripe API location: `deleted_invoice.object`, `invoice.object`.
#[derive(Debug, Clone)]
pub enum UniStrObject5E6A4A {
    /// JSON value: `"invoice"`.
    Invoice,
}

/// Stripe API location: `deleted_invoiceitem`.
#[derive(Debug, Clone)]
pub struct DeletedInvoiceItem {
    pub object: UniStrObjectA93110,
    pub id: String,
    pub deleted: bool,
}

impl GetId for DeletedInvoiceItem {
    open spec fn has_id(&self) -> bool {
        true
    }

    open spec fn id_of(&self) -> String {
        self.id
    }

    fn get_id(&self) -> (r: String) {
        self.id.clone()
    }
}

/// Stripe API location: `deleted_invoiceitem.object`, `invoiceitem.object`.
#[derive(Debug, Clone)]
pub enum UniStrObjectA93110 {
    /// JSON value: `"invoiceitem"`.
    Invoiceitem,
}

/// Stripe API location: `deleted_payment_source`.
/// Encoded in JSON without a tag: the variant is chosen by the shape of the value.
#[derive(Debug, Clone)]
pub enum UniPolymorphic94C032 {
    AlipayDeletedAccount(AlipayDeletedAccount),
    DeletedBankAccount(DeletedBankAccount),
    BitcoinDeletedReceiver(BitcoinDeletedReceiver),
    DeletedCard(DeletedCard),
}

/// Stripe API location: `deleted_person`.
#[derive(Debug, Clone)]
pub struct DeletedPerson {
    pub object: UniStrObjectAFEDA0,
    pub id: String,
    pub deleted: bool,
}

impl GetId for DeletedPerson {
    open spec fn has_id(&self) -> bool {
        true
    }

    open spec fn id_of(&self) -> String {
        self.id
    }

    fn get_id(&self) -> (r: String) {
        self.id.clone()
    }
}

/// Stripe API location: `deleted_person.object`, `person.object`.
#[derive(Debug, Clone)]
pub enum UniStrObjectAFEDA0 {
    /// JSON value: `"person"`.
    Person,
}

/// Stripe API location: `deleted_plan`.
#[derive(Debug, Clone)]
pub struct DeletedPlan {
    pub object: UniStrObjectB95344,
    pub id: String,
    pub deleted: bool,
}

impl GetId for DeletedPlan {
    open spec fn has_id(&self) -> bool {
        true
    }

    open spec fn id_of(&self) -> String {
        self.id
    }

    fn get_id(&self) -> (r: String) {
        self.id.clone()
    }
}

/// Stripe API location: `deleted_plan.object`, `plan.object`.
#[derive(Debug, Clone)]
pub enum UniStrObjectB95344 {
    /// JSON value: `"plan"`.
    Plan,
}

/// Stripe API location: `deleted_price`.
#[derive(Debug, Clone)]
pub struct DeletedPrice {
    pub object: UniStrObjectDB9846,
    pub id: String,
    pub deleted: bool,
}

impl GetId for DeletedPrice {
    open spec fn has_id(&self) -> bool {
        true
    }

    open spec fn id_of(&self) -> String {
        self.id
    }

    fn get_id(&self) -> (r: String) {
        self.id.clone()
    }
}

/// Stripe API location: `deleted_price.object`, `price.object`.
#[derive(Debug, Clone)]
pub enum UniStrObjectDB9846 {
    /// JSON value: `"price"`.
    Price,
}

/// Stripe API location: `deleted_product`.
#[derive(Debug, Clone)]
pub struct DeletedProduct {
    pub object: UniStrObject04CB4A,
    pub id: String,
    pub deleted: bool,
}

impl GetId for DeletedProduct {
    open spec fn has_id(&self) -> bool {
        true
    }

    open spec fn id_of(&self) -> String {
        self.id
    }

    fn get_id(&self) -> (r: String) {
        self.id.clone()
    }
}

/// Stripe API location: `deleted_product.object`, `product.object`.
#[derive(Debug, Clone)]
pub enum UniStrObject04CB4A {
    /// JSON value: `"product"`.
    Product,
}

/// Stripe API location: `deleted_radar.value_list`.
#[derive(Debug, Clone)]
pub struct RadarListDeletedList {
    pub object: UniStrObjectF61F9F,
    pub id: String,
    pub deleted: bool,
}

impl GetId for RadarListDeletedList {
    open spec fn has_id(&self) -> bool {
        true
    }

    open spec fn id_of(&self) -> String {
        self.id
    }

    fn get_id(&self) -> (r: String) {
        self.id.clone()
    }
}

/// Stripe API location: `deleted_radar.value_list.object`, `radar.value_list.object`.
#[derive(Debug, Clone)]
pub enum UniStrObjectF61F9F {
    /// JSON value: `"radar.value_list"`.
    RadarDotValueList,
}

/// Stripe API location: `deleted_radar.value_list_item`.
#[derive(Debug, Clone)]
pub struct RadarListDeletedListItem {
    pub object: UniStrObject2EE88E,
    pub id: String,
    pub deleted: bool,
}

impl GetId for RadarListDeletedListItem {
    open spec fn has_id(&self) -> bool {
        true
    }

    open spec fn id_of(&self) -> String {
        self.id
    }

    fn get_id(&self) -> (r: String) {
        self.id.clone()
    }
}

/// Stripe API location: `deleted_radar.value_list_item.object`, `radar.value_list_item.object`.
#[derive(Debug, Clone)]
pub enum UniStrObject2EE88E {
    /// JSON value: `"radar.value_list_item"`.
    RadarDotValueListItem,
}

/// Stripe API location: `deleted_recipient`.
#[derive(Debug, Clone)]
pub struct DeletedTransferRecipient {
    pub object: UniStrObject00DC3E,
    pub id: String,
    pub deleted: bool,
}

impl GetId for DeletedTransferRecipient {
    open spec fn has_id(&self) -> bool {
        true
    }

    open spec fn id_of(&self) -> String {
        self.id
    }

    fn get_id(&self) -> (r: String) {
        self.id.clone()
    }
}

/// Stripe API location: `deleted_recipient.object`, `recipient.object`.
#[derive(Debug, Clone)]
pub enum UniStrObject00DC3E {
    /// JSON value: `"recipient"`.
    Recipient,
}

/// Stripe API location: `deleted_sku`.
#[derive(Debug, Clone)]
pub struct DeletedSku {
    pub object: UniStrObject97B705,
    pub id: String,
    pub deleted: bool,
}

impl GetId for DeletedSku {
    open spec fn has_id(&self) -> bool {
        true
    }

    open spec fn id_of(&self) -> String {
        self.id
    }

    fn get_id(&self) -> (r: String) {
        self.id.clone()
    }
}

/// Stripe API location: `deleted_sku.object`, `sku.object`.
#[derive(Debug, Clone)]
pub enum UniStrObject97B705 {
    /// JSON value: `"sku"`.
    Sku,
}

/// Stripe API location: `deleted_subscription_item`.
#[derive(Debug, Clone)]
pub struct DeletedSubscriptionItem {
    pub object: UniStrObject36C70C,
    pub id: String,
    pub deleted: bool,
}

impl GetId for DeletedSubscriptionItem {
    open spec fn has_id(&self) -> bool {
        true
    }

    open spec fn id_of(&self) -> String {
        self.id
    }

    fn get_id(&self) -> (r: String) {
        self.id.clone()
    }
}

/// Stripe API location: `deleted_subscription_item.object`, `subscription_item.object`.
#[derive(Debug, Clone)]
pub enum UniStrObject36C70C {
    /// JSON value: `"subscription_item"`.
    SubscriptionItem,
}

/// Stripe API location: `deleted_tax_id`.
#[derive(Debug, Clone)]
pub struct DeletedTaxId {
    pub object: UniStrObject397A62,
    pub id: String,
    pub deleted: bool,
}

impl GetId for DeletedTaxId {
    open spec fn has_id(&self) -> bool {
        true
    }

    open spec fn id_of(&self) -> String {
        self.id
    }

    fn get_id(&self) -> (r: String) {
        self.id.clone()
    }
}

/// Stripe API location: `deleted_tax_id.object`, `tax_id.object`.
#[derive(Debug, Clone)]
pub enum UniStrObject397A62 {
    /// JSON value: `"tax_id"`.
    TaxId,
}

/// Stripe API location: `deleted_terminal.location`.
#[derive(Debug, Clone)]
pub struct TerminalLocationDeletedLocation {
    pub object: UniStrObject95542E,
    pub id: String,
    pub deleted: bool,
}

impl GetId for TerminalLocationDeletedLocation {
    open spec fn has_id(&self) -> bool {
        true
    }

    open spec fn id_of(&self) -> String {
        self.id
    }

    fn get_id(&self) -> (r: String) {
        self.id.clone()
    }
}

/// Stripe API location: `deleted_terminal.location.object`, `terminal.location.object`.
#[derive(Debug, Clone)]
pub enum UniStrObject95542E {
    /// JSON value: `"terminal.location"`.
    TerminalDotLocation,
}

/// Stripe API location: `deleted_terminal.reader`.
#[derive(Debug, Clone)]
pub struct TerminalReaderDeletedReader {
    pub object: UniStrObjectEAD5C5,
    pub id: String,
    pub deleted: bool,
}

impl GetId for TerminalReaderDeletedReader {
    open spec fn has_id(&self) -> bool {
        true
    }

    open spec fn id_of(&self) -> String {
        self.id
    }

    fn get_id(&self) -> (r: String) {
        self.id.clone()
    }
}

/// Stripe API location: `deleted_terminal.reader.object`, `terminal.reader.object`.
#[derive(Debug, Clone)]
pub enum UniStrObjectEAD5C5 {
    /// JSON value: `"terminal.reader"`.
    TerminalDotReader,
}

/// Stripe API location: `deleted_webhook_endpoint`.
#[derive(Debug, Clone)]
pub struct NotificationWebhookEndpointDeleted {
    pub object: UniStrObjectBDDC67,
    pub id: String,
    pub deleted: bool,
}

impl GetId for NotificationWebhookEndpointDeleted {
    open spec fn has_id(&self) -> bool {
        true
    }

    open spec fn id_of(&self) -> String {
        self.id
    }

    fn get_id(&self) -> (r: String) {
        self.id.clone()
    }
}

/// Stripe API location: `deleted_webhook_endpoint.object`, `webhook_endpoint.object`.
#[derive(Debug, Clone)]
pub enum UniStrObjectBDDC67 {
    /// JSON value: `"webhook_endpoint"`.
    WebhookEndpoint,
}

/// Stripe API location: `delivery_estimate`.
#[derive(Debug, Clone)]
pub struct DeliveryEstimate {
    /// JSON key: `type`.
    pub type_x: String,
    pub date: Option<String>,
    pub earliest: Option<String>,
    pub latest: Option<String>,
}

/// Stripe API location: `discount`.
#[derive(Debug)]
pub struct Discount {
    pub object: UniStrObjectE5311B,
    pub id: String,
    pub customer: Option<UniCustomerC00F6E>,
    pub promotion_code: Option<UniPromotionCode>,
    pub checkout_session: Option<String>,
    pub coupon: Coupon,
    pub end: Option<i64>,
    pub invoice: Option<String>,
    pub invoice_item: Option<String>,
    pub start: i64,
    pub subscription: Option<String>,
}

impl GetId for Discount {
    open spec fn has_id(&self) -> bool {
        true
    }

    open spec fn id_of(&self) -> String {
        self.id
    }

    fn get_id(&self) -> (r: String) {
        self.id.clone()
    }
}

/// Stripe API location: `discounts_resource_discount_amount`.
#[derive(Debug)]
pub struct DiscountsResourceDiscountAmount {
    pub discount: UniItems6F859C,
    pub amount: i64,
}

/// Stripe API location: `discounts_resource_discount_amount.discount`, `invoice.discounts.items`.
/// Encoded in JSON without a tag: the variant is chosen by the shape of the value.
#[derive(Debug)]
pub enum UniItems6F859C {
    String(String),
    Discount(Discount),
    DeletedDiscount(DeletedDiscount),
}

/// Stripe API location: `dispute`.
#[derive(Debug)]
pub struct Dispute {
    pub object: UniStrObjectB4F7D7,
    pub id: String,
    pub charge: UniCharge,
    pub payment_intent: Option<UniPaymentIntent>,
    pub amount: i64,
    pub balance_transactions: Vec<BalanceTransaction>,
    pub currency: String,
    pub evidence: DisputeEvidence,
    pub evidence_details: DisputeEvidenceDetails,
    pub is_charge_refundable: bool,
    pub reason: String,
    pub status: UniStrStatusEEF70E,
    pub created: i64,
    pub livemode: bool,
    pub metadata: Metadata8076DB,
}

impl GetId for Dispute {
    open spec fn has_id(&self) -> bool {
        true
    }

    open spec fn id_of(&self) -> String {
        self.id
    }

    fn get_id(&self) -> (r: String) {
        self.id.clone()
    }
}

/// Stripe API location: `dispute.object`.
#[derive(Debug, Clone)]
pub enum UniStrObjectB4F7D7 {
    /// JSON value: `"dispute"`.
    Dispute,
}

/// Stripe API location: `dispute.status`.
#[derive(Debug, Clone)]
pub enum UniStrStatusEEF70E {
    /// JSON value: `"charge_refunded"`.
    ChargeRefunded,
    /// JSON value: `"lost"`.
    Lost,
    /// JSON value: `"needs_response"`.
    NeedsResponse,
    /// JSON value: `"under_review"`.
    UnderReview,
    /// JSON value: `"warning_closed"`.
    WarningClosed,
    /// JSON value: `"warning_needs_response"`.
    WarningNeedsResponse,
    /// JSON value: `"warning_under_review"`.
    WarningUnderReview,
    /// JSON value: `"won"`.
    Won,
}

/// Stripe API location: `dispute_evidence`.
#[derive(Debug)]
pub struct DisputeEvidence {
    pub duplicate_charge_id: Option<String>,
    pub cancellation_policy: Option<UniFile5BD414>,
    pub customer_communication: Option<UniFile5BD414>,
    pub customer_signature: Option<UniFile5BD414>,
    pub duplicate_charge_documentation: Option<UniFile5BD414>,
    pub receipt: Option<UniFile5BD414>,
    pub refund_policy: Option<UniFile5BD414>,
    pub service_documentation: Option<UniFile5BD414>,
    pub shipping_documentation: Option<UniFile5BD414>,
    pub uncategorized_file: Option<UniFile5BD414>,
    pub access_activity_log: Option<String>,
    pub billing_address: Option<String>,
    pub cancellation_policy_disclosure: Option<String>,
    pub cancellation_rebuttal: Option<String>,
    pub customer_email_address: Option<String>,
    pub customer_name: Option<String>,
    pub customer_purchase_ip: Option<String>,
    pub duplicate_charge_explanation: Option<String>,
    pub product_description: Option<String>,
    pub refund_policy_disclosure: Option<String>,
    pub refund_refusal_explanation: Option<String>,
    pub service_date: Option<String>,
    pub shipping_address: Option<String>,
    pub shipping_carrier: Option<String>,
    pub shipping_date: Option<String>,
    pub shipping_tracking_number: Option<String>,
    pub uncategorized_text: Option<String>,
}

/// Stripe API location: `dispute_evidence_details`.
#[derive(Debug, Clone)]
pub struct DisputeEvidenceDetails {
    pub due_by: Option<i64>,
    pub has_evidence: bool,
    pub past_due: bool,
    pub submission_count: i64,
}

/// Stripe API location: `ephemeral_key`.
#[derive(Debug, Clone)]
pub struct EphemeralKey {
    pub object: UniStrObjectB95117,
    pub id: String,
    pub expires: i64,
    pub secret: Option<String>,
    pub created: i64,
    pub livemode: bool,
}

impl GetId for EphemeralKey {
    open spec fn has_id(&self) -> bool {
        true
    }

    open spec fn id_of(&self) -> String {
        self.id
    }

    fn get_id(&self) -> (r: String) {
        self.id.clone()
    }
}

/// Stripe API location: `ephemeral_key.object`.
#[derive(Debug, Clone)]
pub enum UniStrObjectB95117 {
    /// JSON value: `"ephemeral_key"`.
    EphemeralKey,
}

/// Stripe API location: `error`.
#[derive(Debug)]
pub struct Error {
    pub error: Box<APIErrors>,
}

/// Stripe API location: `event`.
#[derive(Debug)]
pub struct NotificationEvent {
    pub object: UniStrObject6D0693,
    /// JSON key: `type`.
    pub type_x: String,
    pub id: String,
    pub account: Option<String>,
    pub api_version: Option<String>,
    pub data: NotificationEventData,
    pub pending_webhooks: i64,
    pub request: Option<NotificationEventRequest>,
    pub created: i64,
    pub livemode: bool,
}

impl GetId for NotificationEvent {
    open spec fn has_id(&self) -> bool {
        true
    }

    open spec fn id_of(&self) -> String {
        self.id
    }

    fn get_id(&self) -> (r: String) {
        self.id.clone()
    }
}

/// Stripe API location: `event.object`.
#[derive(Debug, Clone)]
pub enum UniStrObject6D0693 {
    /// JSON value: `"event"`.
    Event,
}

/// Stripe API location: `exchange_rate`.
#[derive(Debug, Clone)]
pub struct ExchangeRate {
    pub object: UniStrObject51F9DF,
    pub id: String,
    pub rates: Rates,
}

impl GetId for ExchangeRate {
    open spec fn has_id(&self) -> bool {
        true
    }

    open spec fn id_of(&self) -> String {
        self.id
    }

    fn get_id(&self) -> (r: String) {
        self.id.clone()
    }
}

/// Stripe API location: `exchange_rate.object`.
#[derive(Debug, Clone)]
pub enum UniStrObject51F9DF {
    /// JSON value: `"exchange_rate"`.
    ExchangeRate,
}

/// Stripe API location: `fee`.
#[derive(Debug, Clone)]
pub struct Fee {
    /// JSON key: `type`.
    pub type_x: String,
    pub amount: i64,
    pub application: Option<String>,
    pub currency: String,
    pub description: Option<String>,
}

/// Stripe API location: `fee_refund`.
#[derive(Debug)]
pub struct FeeRefund {
    pub object: UniStrObjectC7795E,
    pub id: String,
    pub balance_transaction: Option<UniBalanceTransaction>,
    pub fee: UniFee,
    pub amount: i64,
    pub currency: String,
    pub created: i64,
    pub metadata: Option<Metadata7CCA3C>,
}

impl GetId for FeeRefund {
    open spec fn has_id(&self) -> bool {
        true
    }

    open spec fn id_of(&self) -> String {
        self.id
    }

    fn get_id(&self) -> (r: String) {
        self.id.clone()
    }
}

/// Stripe API location: `fee_refund.object`.
#[derive(Debug, Clone)]
pub enum UniStrObjectC7795E {
    /// JSON value: `"fee_refund"`.
    FeeRefund,
}

/// Stripe API location: `file`.
#[derive(Debug)]
pub struct File {
    pub object: UniStrObjectE55DBC,
    /// JSON key: `type`.
    pub type_x: Option<String>,
    pub id: String,
    pub expires_at: Option<i64>,
    pub filename: Option<String>,
    pub links: Option<FileFileLinkList>,
    pub purpose: UniStrPurpose58AA54,
    pub size: i64,
    pub title: Option<String>,
    pub url: Option<String>,
    pub created: i64,
}

impl GetId for File {
    open spec fn has_id(&self) -> bool {
        true
    }

    open spec fn id_of(&self) -> String {
        self.id
    }

    fn get_id(&self) -> (r: String) {
        self.id.clone()
    }
}

/// Stripe API location: `file.links`.
#[derive(Debug)]
pub struct FileFileLinkList {
    pub object: UniStrObject344B0E,
    pub data: Vec<FileLink>,
    pub has_more: bool,
    pub url: String,
}

impl PageMeta for FileFileLinkList {
    open spec fn page_ready(&self) -> bool {
        true
    }

    open spec fn page_ids(&self) -> Seq<String> {
        self.data@.map_values(|x: FileLink| x.id)
    }

    open spec fn page_has_more(&self) -> bool {
        self.has_more
    }

    fn get_from_to(&self) -> (r: Option<(String, String)>) {
        if self.data.len() == 0 {
            return None;
        }
        Some((self.data[0].id.clone(), self.data[self.data.len() - 1].id.clone()))
    }

    fn get_has_more(&self) -> (r: bool) {
        self.has_more
    }
}

/// Stripe API location: `file.object`.
#[derive(Debug, Clone)]
pub enum UniStrObjectE55DBC {
    /// JSON value: `"file"`.
    File,
}

/// Stripe API location: `file.purpose`.
#[derive(Debug, Clone)]
pub enum UniStrPurpose58AA54 {
    /// JSON value: `"additional_verification"`.
    AdditionalVerification,
    /// JSON value: `"business_icon"`.
    BusinessIcon,
    /// JSON value: `"business_logo"`.
    BusinessLogo,
    /// JSON value: `"customer_signature"`.
    CustomerSignature,
    /// JSON value: `"dispute_evidence"`.
    DisputeEvidence,
    /// JSON value: `"identity_document"`.
    IdentityDocument,
    /// JSON value: `"pci_document"`.
    PciDocument,
    /// JSON value: `"tax_document_user_upload"`.
    TaxDocumentUserUpload,
}

/// Stripe API location: `file_link`.
#[derive(Debug)]
pub struct FileLink {
    pub object: UniStrObject325187,
    pub id: String,
    pub file: UniFile5BD414,
    pub expired: bool,
    pub expires_at: Option<i64>,
    pub url: Option<String>,
    pub created: i64,
    pub livemode: bool,
    pub metadata: Metadata8076DB,
}

impl GetId for FileLink {
    open spec fn has_id(&self) -> bool {
        true
    }

    open spec fn id_of(&self) -> String {
        self.id
    }

    fn get_id(&self) -> (r: String) {
        self.id.clone()
    }
}

/// Stripe API location: `file_link.object`.
#[derive(Debug, Clone)]
pub enum UniStrObject325187 {
    /// JSON value: `"file_link"`.
    FileLink,
}

/// Stripe API location: `financial_reporting_finance_report_run_run_parameters`.
#[derive(Debug, Clone)]
pub struct FinancialReportingFinanceReportRunRunParameters {
    pub columns: Option<Vec<String>>,
    pub connected_account: Option<String>,
    pub currency: Option<String>,
    pub interval_end: Option<i64>,
    pub interval_start: Option<i64>,
    pub payout: Option<String>,
    pub reporting_category: Option<String>,
    pub timezone: Option<String>,
}

/// Stripe API location: `inventory`.
#[derive(Debug, Clone)]
pub struct Inventory {
    /// JSON key: `type`.
    pub type_x: String,
    pub quantity: Option<i64>,
    pub value: Option<String>,
}

/// Stripe API location: `invoice`.
#[derive(Debug)]
pub struct Invoice {
    pub object: UniStrObject5E6A4A,
    pub amount_paid: i64,
    pub id: Option<String>,
    pub paid: bool,
    pub charge: Option<UniCharge>,
    pub customer: UniCustomerC00F6E,
    pub default_payment_method: Option<UniPaymentMethod>,
    pub default_source: Box<Option<UniDefaultSource>>,
    pub discounts: Option<Vec<UniItems6F859C>>,
    pub payment_intent: Option<UniPaymentIntent>,
    pub subscription: Option<UniSubscription>,
    pub account_country: Option<String>,
    pub account_name: Option<String>,
    pub amount_due: i64,
    pub amount_remaining: i64,
    pub application_fee_amount: Option<i64>,
    pub attempt_count: i64,
    pub attempted: bool,
    pub auto_advance: Option<bool>,
    pub billing_reason: Option<UniStrBillingReason>,
    pub collection_method: Option<UniStrCollectionMethod>,
    pub currency: String,
    pub custom_fields: Option<Vec<InvoiceSettingCustomField>>,
    pub customer_address: Option<Address>,
    pub customer_email: Option<String>,
    pub customer_name: Option<String>,
    pub customer_phone: Option<String>,
    pub customer_shipping: Option<Shipping>,
    pub customer_tax_exempt: Option<UniStrTaxExempt>,
    pub customer_tax_ids: Option<Vec<InvoicesResourceInvoiceTaxID>>,
    pub default_tax_rates: Vec<TaxRate>,
    pub description: Option<String>,
    pub discount: Option<Discount>,
    pub due_date: Option<i64>,
    pub ending_balance: Option<i64>,
    pub footer: Option<String>,
    pub hosted_invoice_url: Option<String>,
    pub invoice_pdf: Option<String>,
    pub last_finalization_error: Box<Option<APIErrors>>,
    pub lines: InvoiceLinesList95797E,
    pub next_payment_attempt: Option<i64>,
    pub number: Option<String>,
    pub period_end: i64,
    pub period_start: i64,
    pub post_payment_credit_notes_amount: i64,
    pub pre_payment_credit_notes_amount: i64,
    pub receipt_number: Option<String>,
    pub starting_balance: i64,
    pub statement_descriptor: Option<String>,
    pub status: Option<UniStrStatusDA9FBD>,
    pub status_transitions: InvoicesStatusTransitions,
    pub subscription_proration_date: Option<i64>,
    pub subtotal: i64,
    pub tax: Option<i64>,
    pub threshold_reason: Option<InvoiceThresholdReason>,
    pub total: i64,
    pub total_discount_amounts: Option<Vec<DiscountsResourceDiscountAmount>>,
    pub total_tax_amounts: Vec<InvoiceTaxAmount>,
    pub transfer_data: Option<InvoiceTransferData>,
    pub webhooks_delivered_at: Option<i64>,
    pub created: i64,
    pub livemode: bool,
    pub metadata: Option<Metadata7CCA3C>,
}

impl GetId for Invoice {
    open spec fn has_id(&self) -> bool {
        self.id is Some
    }

    open spec fn id_of(&self) -> String {
        self.id.unwrap()
    }

    fn get_id(&self) -> (r: String) {
        self.id.as_ref().unwrap().clone()
    }
}

/// Stripe API location: `invoice.billing_reason`.
#[derive(Debug, Clone)]
pub enum UniStrBillingReason {
    /// JSON value: `"automatic_pending_invoice_item_invoice"`.
    AutomaticPendingInvoiceItemInvoice,
    /// JSON value: `"manual"`.
    Manual,
    /// JSON value: `"subscription"`.
    Subscription,
    /// JSON value: `"subscription_create"`.
    SubscriptionCreate,
    /// JSON value: `"subscription_cycle"`.
    SubscriptionCycle,
    /// JSON value: `"subscription_threshold"`.
    SubscriptionThreshold,
    /// JSON value: `"subscription_update"`.
    SubscriptionUpdate,
    /// JSON value: `"upcoming"`.
    Upcoming,
}

/// Stripe API location: `invoice.default_payment_method`, `invoice_setting_customer_setting.default_payment_method`, `mandate.payment_method` (and 12 more).
/// Encoded in JSON without a tag: the variant is chosen by the shape of the value.
#[derive(Debug)]
pub enum UniPaymentMethod {
    String(String),
    PaymentMethod(Box<PaymentMethod>),
}

/// Stripe API location: `invoice.lines`.
#[derive(Debug)]
pub struct InvoiceLinesList95797E {
    pub object: UniStrObject344B0E,
    pub data: Vec<InvoiceLineItem>,
    pub has_more: bool,
    pub url: String,
}

impl PageMeta for InvoiceLinesList95797E {
    open spec fn page_ready(&self) -> bool {
        true
    }

    open spec fn page_ids(&self) -> Seq<String> {
        self.data@.map_values(|x: InvoiceLineItem| x.id)
    }

    open spec fn page_has_more(&self) -> bool {
        self.has_more
    }

    fn get_from_to(&self) -> (r: Option<(String, String)>) {
        if self.data.len() == 0 {
            return None;
        }
        Some((self.data[0].id.clone(), self.data[self.data.len() - 1].id.clone()))
    }

    fn get_has_more(&self) -> (r: bool) {
        self.has_more
    }
}

/// Stripe API location: `invoice.status`.
#[derive(Debug, Clone)]
pub enum UniStrStatusDA9FBD {
    /// JSON value: `"deleted"`.
    Deleted,
    /// JSON value: `"draft"`.
    Draft,
    /// JSON value: `"open"`.
    Open,
    /// JSON value: `"paid"`.
    Paid,
    /// JSON value: `"uncollectible"`.
    Uncollectible,
    /// JSON value: `"void"`.
    Void,
}

/// Stripe API location: `invoice_item_threshold_reason`.
#[derive(Debug, Clone)]
pub struct InvoiceItemThresholdReason {
    pub line_item_ids: Vec<String>,
    pub usage_gte: i64,
}

/// Stripe API location: `invoice_line_item_period`.
#[derive(Debug, Clone)]
pub struct InvoiceLineItemPeriod {
    pub end: i64,
    pub start: i64,
}

/// Stripe API location: `invoice_setting_custom_field`.
#[derive(Debug, Clone)]
pub struct InvoiceSettingCustomField {
    pub name: String,
    pub value: String,
}

/// Stripe API location: `invoice_setting_customer_setting`.
#[derive(Debug)]
pub struct InvoiceSettingCustomerSetting {
    pub default_payment_method: Option<UniPaymentMethod>,
    pub custom_fields: Option<Vec<InvoiceSettingCustomField>>,
    pub footer: Option<String>,
}

/// Stripe API location: `invoice_setting_subscription_schedule_setting`.
#[derive(Debug, Clone)]
pub struct InvoiceSettingSubscriptionScheduleSetting {
    pub days_until_due: Option<i64>,
}

/// Stripe API location: `invoice_tax_amount`.
#[derive(Debug, Clone)]
pub struct InvoiceTaxAmount {
    pub tax_rate: UniTaxRate,
    pub amount: i64,
    pub inclusive: bool,
}

/// Stripe API location: `invoice_threshold_reason`.
#[derive(Debug, Clone)]
pub struct InvoiceThresholdReason {
    pub amount_gte: Option<i64>,
    pub item_reasons: Vec<InvoiceItemThresholdReason>,
}

/// Stripe API location: `invoice_transfer_data`.
#[derive(Debug)]
pub struct InvoiceTransferData {
    pub destination: UniAccount,
    pub amount: Option<i64>,
}

/// Stripe API location: `invoiceitem`.
#[derive(Debug)]
pub struct InvoiceItem {
    pub object: UniStrObjectA93110,
    pub id: String,
    pub customer: UniCustomerC00F6E,
    pub discounts: Option<Vec<UniItemsE47473>>,
    pub invoice: Option<UniInvoice>,
    pub subscription: Option<UniSubscription>,
    pub amount: i64,
    pub currency: String,
    pub date: i64,
    pub description: Option<String>,
    pub discountable: bool,
    pub period: InvoiceLineItemPeriod,
    pub price: Option<Price>,
    pub proration: bool,
    pub quantity: i64,
    pub subscription_item: Option<String>,
    pub tax_rates: Option<Vec<TaxRate>>,
    pub unit_amount: Option<i64>,
    pub unit_amount_decimal: Option<String>,
    pub livemode: bool,
    pub metadata: Option<Metadata7CCA3C>,
}

impl GetId for InvoiceItem {
    open spec fn has_id(&self) -> bool {
        true
    }

    open spec fn id_of(&self) -> String {
        self.id
    }

    fn get_id(&self) -> (r: String) {
        self.id.clone()
    }
}

/// Stripe API location: `invoiceitem.discounts.items`, `line_item.discounts.items`.
/// Encoded in JSON without a tag: the variant is chosen by the shape of the value.
#[derive(Debug)]
pub enum UniItemsE47473 {
    String(String),
    Discount(Discount),
}

/// Stripe API location: `invoices_resource_invoice_tax_id`.
#[derive(Debug, Clone)]
pub struct InvoicesResourceInvoiceTaxID {
    /// JSON key: `type`.
    pub type_x: UniStrType805F73,
    pub value: Option<String>,
}

/// Stripe API location: `invoices_resource_invoice_tax_id.type`, `tax_id.type`.
#[derive(Debug, Clone)]
pub enum UniStrType805F73 {
    /// JSON value: `"ae_trn"`.
    AeTrn,
    /// JSON value: `"au_abn"`.
    AuAbn,
    /// JSON value: `"br_cnpj"`.
    BrCnpj,
    /// JSON value: `"br_cpf"`.
    BrCpf,
    /// JSON value: `"ca_bn"`.
    CaBn,
    /// JSON value: `"ca_qst"`.
    CaQst,
    /// JSON value: `"ch_vat"`.
    ChVat,
    /// JSON value: `"cl_tin"`.
    ClTin,
    /// JSON value: `"es_cif"`.
    EsCif,
    /// JSON value: `"eu_vat"`.
    EuVat,
    /// JSON value: `"hk_br"`.
    HkBr,
    /// JSON value: `"id_npwp"`.
    IdNpwp,
    /// JSON value: `"in_gst"`.
    InGst,
    /// JSON value: `"jp_cn"`.
    JpCn,
    /// JSON value: `"jp_rn"`.
    JpRn,
    /// JSON value: `"kr_brn"`.
    KrBrn,
    /// JSON value: `"li_uid"`.
    LiUid,
    /// JSON value: `"mx_rfc"`.
    MxRfc,
    /// JSON value: `"my_frp"`.
    MyFrp,
    /// JSON value: `"my_itn"`.
    MyItn,
    /// JSON value: `"my_sst"`.
    MySst,
    /// JSON value: `"no_vat"`.
    NoVat,
    /// JSON value: `"nz_gst"`.
    NzGst,
    /// JSON value: `"ru_inn"`.
    RuInn,
    /// JSON value: `"ru_kpp"`.
    RuKpp,
    /// JSON value: `"sa_vat"`.
    SaVat,
    /// JSON value: `"sg_gst"`.
    SgGst,
    /// JSON value: `"sg_uen"`.
    SgUen,
    /// JSON value: `"th_vat"`.
    ThVat,
    /// JSON value: `"tw_vat"`.
    TwVat,
    /// JSON value: `"unknown"`.
    Unknown,
    /// JSON value: `"us_ein"`.
    UsEin,
    /// JSON value: `"za_vat"`.
    ZaVat,
}

/// Stripe API location: `invoices_status_transitions`.
#[derive(Debug, Clone)]
pub struct InvoicesStatusTransitions {
    pub finalized_at: Option<i64>,
    pub marked_uncollectible_at: Option<i64>,
    pub paid_at: Option<i64>,
    pub voided_at: Option<i64>,
}

/// Stripe API location: `issuer_fraud_record`.
#[derive(Debug)]
pub struct IssuerFraudRecord {
    pub object: UniStrObject94010F,
    pub id: String,
    pub charge: UniCharge,
    pub actionable: bool,
    pub fraud_type: String,
    pub has_liability_shift: bool,
    pub post_date: i64,
    pub created: i64,
    pub livemode: bool,
}

impl GetId for IssuerFraudRecord {
    open spec fn has_id(&self) -> bool {
        true
    }

    open spec fn id_of(&self) -> String {
        self.id
    }

    fn get_id(&self) -> (r: String) {
        self.id.clone()
    }
}

/// Stripe API location: `issuer_fraud_record.object`.
#[derive(Debug, Clone)]
pub enum UniStrObject94010F {
    /// JSON value: `"issuer_fraud_record"`.
    IssuerFraudRecord,
}

/// Stripe API location: `issuing.authorization`.
#[derive(Debug)]
pub struct IssuingAuthorization {
    pub object: UniStrObjectE07375,
    pub id: String,
    pub cardholder: Option<UniCardholder>,
    pub amount: i64,
    pub amount_details: Option<IssuingAuthorizationAmountDetails>,
    pub approved: bool,
    pub authorization_method: UniStrAuthorizationMethod,
    pub balance_transactions: Vec<BalanceTransaction>,
    pub card: Box<IssuingCard>,
    pub currency: String,
    pub merchant_amount: i64,
    pub merchant_currency: String,
    pub merchant_data: IssuingAuthorizationMerchantData,
    pub pending_request: Option<IssuingAuthorizationPendingRequest>,
    pub request_history: Vec<IssuingAuthorizationRequest>,
    pub status: UniStrStatus957169,
    pub transactions: Vec<IssuingTransaction>,
    pub verification_data: IssuingAuthorizationVerificationData,
    pub wallet: Option<String>,
    pub created: i64,
    pub livemode: bool,
    pub metadata: Metadata8076DB,
}

impl GetId for IssuingAuthorization {
    open spec fn has_id(&self) -> bool {
        true
    }

    open spec fn id_of(&self) -> String {
        self.id
    }

    fn get_id(&self) -> (r: String) {
        self.id.clone()
    }
}

/// Stripe API location: `issuing.authorization.authorization_method`.
#[derive(Debug, Clone)]
pub enum UniStrAuthorizationMethod {
    /// JSON value: `"chip"`.
    Chip,
    /// JSON value: `"contactless"`.
    Contactless,
    /// JSON value: `"keyed_in"`.
    KeyedIn,
    /// JSON value: `"online"`.
    Online,
    /// JSON value: `"swipe"`.
    Swipe,
}

/// Stripe API location: `issuing.authorization.cardholder`, `issuing.transaction.cardholder`.
/// Encoded in JSON without a tag: the variant is chosen by the shape of the value.
#[derive(Debug)]
pub enum UniCardholder {
    String(String),
    IssuingCardholder(IssuingCardholder),
}

/// Stripe API location: `issuing.authorization.object`.
#[derive(Debug, Clone)]
pub enum UniStrObjectE07375 {
    /// JSON value: `"issuing.authorization"`.
    IssuingDotAuthorization,
}

/// Stripe API location: `issuing.card`.
#[derive(Debug)]
pub struct IssuingCard {
    pub object: UniStrObjectDBA102,
    /// JSON key: `type`.
    pub type_x: UniStrTypeA467AF,
    pub id: String,
    pub replaced_by: Option<UniReplacedBy>,
    pub replacement_for: Option<UniReplacedBy>,
    pub brand: String,
    pub cancellation_reason: Option<UniStrCancellationReason6C5A3F>,
    pub cardholder: IssuingCardholder,
    pub currency: String,
    pub cvc: Option<String>,
    pub exp_month: i64,
    pub exp_year: i64,
    pub last4: String,
    pub number: Option<String>,
    pub replacement_reason: Option<UniStrReplacementReason>,
    pub shipping: Option<IssuingCardShipping>,
    pub spending_controls: IssuingCardAuthorizationControls,
    pub status: UniStrStatusA4138B,
    pub created: i64,
    pub livemode: bool,
    pub metadata: Metadata8076DB,
}

impl GetId for IssuingCard {
    open spec fn has_id(&self) -> bool {
        true
    }

    open spec fn id_of(&self) -> String {
        self.id
    }

    fn get_id(&self) -> (r: String) {
        self.id.clone()
    }
}

/// Stripe API location: `issuing.card.cancellation_reason`.
#[derive(Debug, Clone)]
pub enum UniStrCancellationReason6C5A3F {
    /// JSON value: `"lost"`.
    Lost,
    /// JSON value: `"stolen"`.
    Stolen,
}

/// Stripe API location: `issuing.card.object`.
#[derive(Debug, Clone)]
pub enum UniStrObjectDBA102 {
    /// JSON value: `"issuing.card"`.
    IssuingDotCard,
}

/// Stripe API location: `issuing.card.replaced_by`, `issuing.card.replacement_for`, `issuing.transaction.card`.
/// Encoded in JSON without a tag: the variant is chosen by the shape of the value.
#[derive(Debug)]
pub enum UniReplacedBy {
    String(String),
    IssuingCard(Box<IssuingCard>),
}

/// Stripe API location: `issuing.card.replacement_reason`.
#[derive(Debug, Clone)]
pub enum UniStrReplacementReason {
    /// JSON value: `"damaged"`.
    Damaged,
    /// JSON value: `"expired"`.
    Expired,
    /// JSON value: `"lost"`.
    Lost,
    /// JSON value: `"stolen"`.
    Stolen,
}

/// Stripe API location: `issuing.cardholder`.
#[derive(Debug)]
pub struct IssuingCardholder {
    pub object: UniStrObject9677B5,
    /// JSON key: `type`.
    pub type_x: UniStrType947A77,
    pub id: String,
    pub name: String,
    pub billing: IssuingCardholderAddress,
    pub company: Option<IssuingCardholderCompany>,
    pub email: Option<String>,
    pub individual: Option<IssuingCardholderIndividual>,
    pub phone_number: Option<String>,
    pub requirements: IssuingCardholderRequirements,
    pub spending_controls: Option<IssuingCardholderAuthorizationControls>,
    pub status: UniStrStatusD5D208,
    pub created: i64,
    pub livemode: bool,
    pub metadata: Metadata8076DB,
}

impl GetId for IssuingCardholder {
    open spec fn has_id(&self) -> bool {
        true
    }

    open spec fn id_of(&self) -> String {
        self.id
    }

    fn get_id(&self) -> (r: String) {
        self.id.clone()
    }
}

/// Stripe API location: `issuing.cardholder.object`.
#[derive(Debug, Clone)]
pub enum UniStrObject9677B5 {
    /// JSON value: `"issuing.cardholder"`.
    IssuingDotCardholder,
}

/// Stripe API location: `issuing.dispute`.
#[derive(Debug)]
pub struct IssuingDispute {
    pub object: UniStrObjectB5E468,
    pub id: String,
    pub transaction: UniTransaction,
    pub amount: Option<i64>,
    pub balance_transactions: Option<Vec<BalanceTransaction>>,
    pub currency: Option<String>,
    pub evidence: Option<IssuingDisputeEvidence>,
    pub status: Option<UniStrStatusE71251>,
    pub created: Option<i64>,
    pub livemode: bool,
    pub metadata: Option<Metadata8076DB>,
}

impl GetId for IssuingDispute {
    open spec fn has_id(&self) -> bool {
        true
    }

    open spec fn id_of(&self) -> String {
        self.id
    }

    fn get_id(&self) -> (r: String) {
        self.id.clone()
    }
}

/// Stripe API location: `issuing.dispute.object`.
#[derive(Debug, Clone)]
pub enum UniStrObjectB5E468 {
    /// JSON value: `"issuing.dispute"`.
    IssuingDotDispute,
}

/// Stripe API location: `issuing.dispute.transaction`.
/// Encoded in JSON without a tag: the variant is chosen by the shape of the value.
#[derive(Debug)]
pub enum UniTransaction {
    String(String),
    IssuingTransaction(Box<IssuingTransaction>),
}

/// Stripe API location: `issuing.settlement`.
#[derive(Debug, Clone)]
pub struct IssuingSettlement {
    pub object: UniStrObject0316F5,
    pub id: String,
    pub bin: String,
    pub clearing_date: i64,
    pub currency: String,
    pub interchange_fees: i64,
    pub net_total: i64,
    pub network: UniStrNetwork143EDB,
    pub network_fees: i64,
    pub network_settlement_identifier: String,
    pub settlement_service: String,
    pub transaction_count: i64,
    pub transaction_volume: i64,
    pub created: i64,
    pub livemode: bool,
    pub metadata: Metadata8076DB,
}

impl GetId for IssuingSettlement {
    open spec fn has_id(&self) -> bool {
        true
    }

    open spec fn id_of(&self) -> String {
        self.id
    }

    fn get_id(&self) -> (r: String) {
        self.id.clone()
    }
}

/// Stripe API location: `issuing.settlement.network`.
#[derive(Debug, Clone)]
pub enum UniStrNetwork143EDB {
    /// JSON value: `"visa"`.
    Visa,
}

/// Stripe API location: `issuing.settlement.object`.
#[derive(Debug, Clone)]
pub enum UniStrObject0316F5 {
    /// JSON value: `"issuing.settlement"`.
    IssuingDotSettlement,
}

/// Stripe API location: `issuing.transaction`.
#[derive(Debug)]
pub struct IssuingTransaction {
    pub object: UniStrObjectE479DB,
    /// JSON key: `type`.
    pub type_x: UniStrType39A4A4,
    pub id: String,
    pub authorization: Option<UniAuthorization>,
    pub balance_transaction: Option<UniBalanceTransaction>,
    pub card: UniReplacedBy,
    pub cardholder: Option<UniCardholder>,
    pub dispute: Option<UniDispute>,
    pub amount: i64,
    pub amount_details: Option<IssuingTransactionAmountDetails>,
    pub currency: String,
    pub merchant_amount: i64,
    pub merchant_currency: String,
    pub merchant_data: IssuingAuthorizationMerchantData,
    pub purchase_details: Option<IssuingTransactionPurchaseDetails>,
    pub created: i64,
    pub livemode: bool,
    pub metadata: Metadata8076DB,
}

impl GetId for IssuingTransaction {
    open spec fn has_id(&self) -> bool {
        true
    }

    open spec fn id_of(&self) -> String {
        self.id
    }

    fn get_id(&self) -> (r: String) {
        self.id.clone()
    }
}

/// Stripe API location: `issuing.transaction.authorization`.
/// Encoded in JSON without a tag: the variant is chosen by the shape of the value.
#[derive(Debug)]
pub enum UniAuthorization {
    String(String),
    IssuingAuthorization(IssuingAuthorization),
}

/// Stripe API location: `issuing.transaction.dispute`.
/// Encoded in JSON without a tag: the variant is chosen by the shape of the value.
#[derive(Debug)]
pub enum UniDispute {
    String(String),
    IssuingDispute(IssuingDispute),
}

/// Stripe API location: `issuing.transaction.object`.
#[derive(Debug, Clone)]
pub enum UniStrObjectE479DB {
    /// JSON value: `"issuing.transaction"`.
    IssuingDotTransaction,
}

/// Stripe API location: `issuing.transaction.type`.
#[derive(Debug, Clone)]
pub enum UniStrType39A4A4 {
    /// JSON value: `"capture"`.
    Capture,
    /// JSON value: `"dispute"`.
    Dispute,
    /// JSON value: `"refund"`.
    Refund,
}

/// Stripe API location: `issuing_authorization_amount_details`.
#[derive(Debug, Clone)]
pub struct IssuingAuthorizationAmountDetails {
    pub atm_fee: Option<i64>,
}

/// Stripe API location: `issuing_authorization_merchant_data`.
#[derive(Debug, Clone)]
pub struct IssuingAuthorizationMerchantData {
    pub network_id: String,
    pub name: Option<String>,
    pub category: String,
    pub city: Option<String>,
    pub country: Option<String>,
    pub postal_code: Option<String>,
    pub state: Option<String>,
}

/// Stripe API location: `issuing_authorization_pending_request`.
#[derive(Debug, Clone)]
pub struct IssuingAuthorizationPendingRequest {
    pub amount: i64,
    pub amount_details: Option<IssuingAuthorizationAmountDetails>,
    pub currency: String,
    pub is_amount_controllable: bool,
    pub merchant_amount: i64,
    pub merchant_currency: String,
}

/// Stripe API location: `issuing_authorization_request`.
#[derive(Debug, Clone)]
pub struct IssuingAuthorizationRequest {
    pub amount: i64,
    pub amount_details: Option<IssuingAuthorizationAmountDetails>,
    pub approved: bool,
    pub currency: String,
    pub merchant_amount: i64,
    pub merchant_currency: String,
    pub reason: UniStrReasonEDBD38,
    pub created: i64,
}

/// Stripe API location: `issuing_authorization_request.reason`.
#[derive(Debug, Clone)]
pub enum UniStrReasonEDBD38 {
    /// JSON value: `"account_disabled"`.
    AccountDisabled,
    /// JSON value: `"card_active"`.
    CardActive,
    /// JSON value: `"card_inactive"`.
    CardInactive,
    /// JSON value: `"cardholder_inactive"`.
    CardholderInactive,
    /// JSON value: `"cardholder_verification_required"`.
    CardholderVerificationRequired,
    /// JSON value: `"insufficient_funds"`.
    InsufficientFunds,
    /// JSON value: `"not_allowed"`.
    NotAllowed,
    /// JSON value: `"spending_controls"`.
    SpendingControls,
    /// JSON value: `"suspected_fraud"`.
    SuspectedFraud,
    /// JSON value: `"verification_failed"`.
    VerificationFailed,
    /// JSON value: `"webhook_approved"`.
    WebhookApproved,
    /// JSON value: `"webhook_declined"`.
    WebhookDeclined,
    /// JSON value: `"webhook_timeout"`.
    WebhookTimeout,
}

/// Stripe API location: `issuing_authorization_verification_data`.
#[derive(Debug, Clone)]
pub struct IssuingAuthorizationVerificationData {
    pub address_line1_check: UniStrCvcCheck,
    pub address_postal_code_check: UniStrCvcCheck,
    pub cvc_check: UniStrCvcCheck,
    pub expiry_check: UniStrCvcCheck,
}

/// Stripe API location: `issuing_authorization_verification_data.address_line1_check`, `issuing_authorization_verification_data.address_postal_code_check`, `issuing_authorization_verification_data.cvc_check` (and 1 more).
#[derive(Debug, Clone)]
pub enum UniStrCvcCheck {
    /// JSON value: `"match"`.
    Match,
    /// JSON value: `"mismatch"`.
    Mismatch,
    /// JSON value: `"not_provided"`.
    NotProvided,
}

/// Stripe API location: `issuing_card_authorization_controls`.
#[derive(Debug, Clone)]
pub struct IssuingCardAuthorizationControls {
    pub allowed_categories: Option<Vec<UniStrItems6A79F4>>,
    pub blocked_categories: Option<Vec<UniStrItems6A79F4>>,
    pub spending_limits: Option<Vec<IssuingCardSpendingLimit>>,
    pub spending_limits_currency: Option<String>,
}

/// Stripe API location: `issuing_card_authorization_controls.allowed_categories.items`, `issuing_card_authorization_controls.blocked_categories.items`, `issuing_card_spending_limit.categories.items` (and 3 more).
#[derive(Debug, Clone)]
pub enum UniStrItems6A79F4 {
    /// JSON value: `"ac_refrigeration_repair"`.
    AcRefrigerationRepair,
    /// JSON value: `"accounting_bookkeeping_services"`.
    AccountingBookkeepingServices,
    /// JSON value: `"advertising_services"`.
    AdvertisingServices,
    /// JSON value: `"agricultural_cooperative"`.
    AgriculturalCooperative,
    /// JSON value: `"airlines_air_carriers"`.
    AirlinesAirCarriers,
    /// JSON value: `"airports_flying_fields"`.
    AirportsFlyingFields,
    /// JSON value: `"ambulance_services"`.
    AmbulanceServices,
    /// JSON value: `"amusement_parks_carnivals"`.
    AmusementParksCarnivals,
    /// JSON value: `"antique_reproductions"`.
    AntiqueReproductions,
    /// JSON value: `"antique_shops"`.
    AntiqueShops,
    /// JSON value: `"aquariums"`.
    Aquariums,
    /// JSON value: `"architectural_surveying_services"`.
    ArchitecturalSurveyingServices,
    /// JSON value: `"art_dealers_and_galleries"`.
    ArtDealersAndGalleries,
    /// JSON value: `"artists_supply_and_craft_shops"`.
    ArtistsSupplyAndCraftShops,
    /// JSON value: `"auto_and_home_supply_stores"`.
    AutoAndHomeSupplyStores,
    /// JSON value: `"auto_body_repair_shops"`.
    AutoBodyRepairShops,
    /// JSON value: `"auto_paint_shops"`.
    AutoPaintShops,
    /// JSON value: `"auto_service_shops"`.
    AutoServiceShops,
    /// JSON value: `"automated_cash_disburse"`.
    AutomatedCashDisburse,
    /// JSON value: `"automated_fuel_dispensers"`.
    AutomatedFuelDispensers,
    /// JSON value: `"automobile_associations"`.
    AutomobileAssociations,
    /// JSON value: `"automotive_parts_and_accessories_stores"`.
    AutomotivePartsAndAccessoriesStores,
    /// JSON value: `"automotive_tire_stores"`.
    AutomotiveTireStores,
    /// JSON value: `"bail_and_bond_payments"`.
    BailAndBondPayments,
    /// JSON value: `"bakeries"`.
    Bakeries,
    /// JSON value: `"bands_orchestras"`.
    BandsOrchestras,
    /// JSON value: `"barber_and_beauty_shops"`.
    BarberAndBeautyShops,
    /// JSON value: `"betting_casino_gambling"`.
    BettingCasinoGambling,
    /// JSON value: `"bicycle_shops"`.
    BicycleShops,
    /// JSON value: `"billiard_pool_establishments"`.
    BilliardPoolEstablishments,
    /// JSON value: `"boat_dealers"`.
    BoatDealers,
    /// JSON value: `"boat_rentals_and_leases"`.
    BoatRentalsAndLeases,
    /// JSON value: `"book_stores"`.
    BookStores,
    /// JSON value: `"books_periodicals_and_newspapers"`.
    BooksPeriodicalsAndNewspapers,
    /// JSON value: `"bowling_alleys"`.
    BowlingAlleys,
    /// JSON value: `"bus_lines"`.
    BusLines,
    /// JSON value: `"business_secretarial_schools"`.
    BusinessSecretarialSchools,
    /// JSON value: `"buying_shopping_services"`.
    BuyingShoppingServices,
    /// JSON value: `"cable_satellite_and_other_pay_television_and_radio"`.
    CableSatelliteAndOtherPayTelevisionAndRadio,
    /// JSON value: `"camera_and_photographic_supply_stores"`.
    CameraAndPhotographicSupplyStores,
    /// JSON value: `"candy_nut_and_confectionery_stores"`.
    CandyNutAndConfectioneryStores,
    /// JSON value: `"car_and_truck_dealers_new_used"`.
    CarAndTruckDealersNewUsed,
    /// JSON value: `"car_and_truck_dealers_used_only"`.
    CarAndTruckDealersUsedOnly,
    /// JSON value: `"car_rental_agencies"`.
    CarRentalAgencies,
    /// JSON value: `"car_washes"`.
    CarWashes,
    /// JSON value: `"carpentry_services"`.
    CarpentryServices,
    /// JSON value: `"carpet_upholstery_cleaning"`.
    CarpetUpholsteryCleaning,
    /// JSON value: `"caterers"`.
    Caterers,
    /// JSON value: `"charitable_and_social_service_organizations_fundraising"`.
    CharitableAndSocialServiceOrganizationsFundraising,
    /// JSON value: `"chemicals_and_allied_products"`.
    ChemicalsAndAlliedProducts,
    /// JSON value: `"child_care_services"`.
    ChildCareServices,
    /// JSON value: `"childrens_and_infants_wear_stores"`.
    ChildrensAndInfantsWearStores,
    /// JSON value: `"chiropodists_podiatrists"`.
    ChiropodistsPodiatrists,
    /// JSON value: `"chiropractors"`.
    Chiropractors,
    /// JSON value: `"cigar_stores_and_stands"`.
    CigarStoresAndStands,
    /// JSON value: `"civic_social_fraternal_associations"`.
    CivicSocialFraternalAssociations,
    /// JSON value: `"cleaning_and_maintenance"`.
    CleaningAndMaintenance,
    /// JSON value: `"clothing_rental"`.
    ClothingRental,
    /// JSON value: `"colleges_universities"`.
    CollegesUniversities,
    /// JSON value: `"commercial_equipment"`.
    CommercialEquipment,
    /// JSON value: `"commercial_footwear"`.
    CommercialFootwear,
    /// JSON value: `"commercial_photography_art_and_graphics"`.
    CommercialPhotographyArtAndGraphics,
    /// JSON value: `"commuter_transport_and_ferries"`.
    CommuterTransportAndFerries,
    /// JSON value: `"computer_network_services"`.
    ComputerNetworkServices,
    /// JSON value: `"computer_programming"`.
    ComputerProgramming,
    /// JSON value: `"computer_repair"`.
    ComputerRepair,
    /// JSON value: `"computer_software_stores"`.
    ComputerSoftwareStores,
    /// JSON value: `"computers_peripherals_and_software"`.
    ComputersPeripheralsAndSoftware,
    /// JSON value: `"concrete_work_services"`.
    ConcreteWorkServices,
    /// JSON value: `"construction_materials"`.
    ConstructionMaterials,
    /// JSON value: `"consulting_public_relations"`.
    ConsultingPublicRelations,
    /// JSON value: `"correspondence_schools"`.
    CorrespondenceSchools,
    /// JSON value: `"cosmetic_stores"`.
    CosmeticStores,
    /// JSON value: `"counseling_services"`.
    CounselingServices,
    /// JSON value: `"country_clubs"`.
    CountryClubs,
    /// JSON value: `"courier_services"`.
    CourierServices,
    /// JSON value: `"court_costs"`.
    CourtCosts,
    /// JSON value: `"credit_reporting_agencies"`.
    CreditReportingAgencies,
    /// JSON value: `"cruise_lines"`.
    CruiseLines,
    /// JSON value: `"dairy_products_stores"`.
    DairyProductsStores,
    /// JSON value: `"dance_hall_studios_schools"`.
    DanceHallStudiosSchools,
    /// JSON value: `"dating_escort_services"`.
    DatingEscortServices,
    /// JSON value: `"dentists_orthodontists"`.
    DentistsOrthodontists,
    /// JSON value: `"department_stores"`.
    DepartmentStores,
    /// JSON value: `"detective_agencies"`.
    DetectiveAgencies,
    /// JSON value: `"digital_goods_applications"`.
    DigitalGoodsApplications,
    /// JSON value: `"digital_goods_games"`.
    DigitalGoodsGames,
    /// JSON value: `"digital_goods_large_volume"`.
    DigitalGoodsLargeVolume,
    /// JSON value: `"digital_goods_media"`.
    DigitalGoodsMedia,
    /// JSON value: `"direct_marketing_catalog_merchant"`.
    DirectMarketingCatalogMerchant,
    /// JSON value: `"direct_marketing_combination_catalog_and_retail_merchant"`.
    DirectMarketingCombinationCatalogAndRetailMerchant,
    /// JSON value: `"direct_marketing_inbound_telemarketing"`.
    DirectMarketingInboundTelemarketing,
    /// JSON value: `"direct_marketing_insurance_services"`.
    DirectMarketingInsuranceServices,
    /// JSON value: `"direct_marketing_other"`.
    DirectMarketingOther,
    /// JSON value: `"direct_marketing_outbound_telemarketing"`.
    DirectMarketingOutboundTelemarketing,
    /// JSON value: `"direct_marketing_subscription"`.
    DirectMarketingSubscription,
    /// JSON value: `"direct_marketing_travel"`.
    DirectMarketingTravel,
    /// JSON value: `"discount_stores"`.
    DiscountStores,
    /// JSON value: `"doctors"`.
    Doctors,
    /// JSON value: `"door_to_door_sales"`.
    DoorToDoorSales,
    /// JSON value: `"drapery_window_covering_and_upholstery_stores"`.
    DraperyWindowCoveringAndUpholsteryStores,
    /// JSON value: `"drinking_places"`.
    DrinkingPlaces,
    /// JSON value: `"drug_stores_and_pharmacies"`.
    DrugStoresAndPharmacies,
    /// JSON value: `"drugs_drug_proprietaries_and_druggist_sundries"`.
    DrugsDrugProprietariesAndDruggistSundries,
    /// JSON value: `"dry_cleaners"`.
    DryCleaners,
    /// JSON value: `"durable_goods"`.
    DurableGoods,
    /// JSON value: `"duty_free_stores"`.
    DutyFreeStores,
    /// JSON value: `"eating_places_restaurants"`.
    EatingPlacesRestaurants,
    /// JSON value: `"educational_services"`.
    EducationalServices,
    /// JSON value: `"electric_razor_stores"`.
    ElectricRazorStores,
    /// JSON value: `"electrical_parts_and_equipment"`.
    ElectricalPartsAndEquipment,
    /// JSON value: `"electrical_services"`.
    ElectricalServices,
    /// JSON value: `"electronics_repair_shops"`.
    ElectronicsRepairShops,
    /// JSON value: `"electronics_stores"`.
    ElectronicsStores,
    /// JSON value: `"elementary_secondary_schools"`.
    ElementarySecondarySchools,
    /// JSON value: `"employment_temp_agencies"`.
    EmploymentTempAgencies,
    /// JSON value: `"equipment_rental"`.
    EquipmentRental,
    /// JSON value: `"exterminating_services"`.
    ExterminatingServices,
    /// JSON value: `"family_clothing_stores"`.
    FamilyClothingStores,
    /// JSON value: `"fast_food_restaurants"`.
    FastFoodRestaurants,
    /// JSON value: `"financial_institutions"`.
    FinancialInstitutions,
    /// JSON value: `"fines_government_administrative_entities"`.
    FinesGovernmentAdministrativeEntities,
    /// JSON value: `"fireplace_fireplace_screens_and_accessories_stores"`.
    FireplaceFireplaceScreensAndAccessoriesStores,
    /// JSON value: `"floor_covering_stores"`.
    FloorCoveringStores,
    /// JSON value: `"florists"`.
    Florists,
    /// JSON value: `"florists_supplies_nursery_stock_and_flowers"`.
    FloristsSuppliesNurseryStockAndFlowers,
    /// JSON value: `"freezer_and_locker_meat_provisioners"`.
    FreezerAndLockerMeatProvisioners,
    /// JSON value: `"fuel_dealers_non_automotive"`.
    FuelDealersNonAutomotive,
    /// JSON value: `"funeral_services_crematories"`.
    FuneralServicesCrematories,
    /// JSON value: `"furniture_home_furnishings_and_equipment_stores_except_appliances"`.
    FurnitureHomeFurnishingsAndEquipmentStoresExceptAppliances,
    /// JSON value: `"furniture_repair_refinishing"`.
    FurnitureRepairRefinishing,
    /// JSON value: `"furriers_and_fur_shops"`.
    FurriersAndFurShops,
    /// JSON value: `"general_services"`.
    GeneralServices,
    /// JSON value: `"gift_card_novelty_and_souvenir_shops"`.
    GiftCardNoveltyAndSouvenirShops,
    /// JSON value: `"glass_paint_and_wallpaper_stores"`.
    GlassPaintAndWallpaperStores,
    /// JSON value: `"glassware_crystal_stores"`.
    GlasswareCrystalStores,
    /// JSON value: `"golf_courses_public"`.
    GolfCoursesPublic,
    /// JSON value: `"government_services"`.
    GovernmentServices,
    /// JSON value: `"grocery_stores_supermarkets"`.
    GroceryStoresSupermarkets,
    /// JSON value: `"hardware_equipment_and_supplies"`.
    HardwareEquipmentAndSupplies,
    /// JSON value: `"hardware_stores"`.
    HardwareStores,
    /// JSON value: `"health_and_beauty_spas"`.
    HealthAndBeautySpas,
    /// JSON value: `"hearing_aids_sales_and_supplies"`.
    HearingAidsSalesAndSupplies,
    /// JSON value: `"heating_plumbing_a_c"`.
    HeatingPlumbingAC,
    /// JSON value: `"hobby_toy_and_game_shops"`.
    HobbyToyAndGameShops,
    /// JSON value: `"home_supply_warehouse_stores"`.
    HomeSupplyWarehouseStores,
    /// JSON value: `"hospitals"`.
    Hospitals,
    /// JSON value: `"hotels_motels_and_resorts"`.
    HotelsMotelsAndResorts,
    /// JSON value: `"household_appliance_stores"`.
    HouseholdApplianceStores,
    /// JSON value: `"industrial_supplies"`.
    IndustrialSupplies,
    /// JSON value: `"information_retrieval_services"`.
    InformationRetrievalServices,
    /// JSON value: `"insurance_default"`.
    InsuranceDefault,
    /// JSON value: `"insurance_underwriting_premiums"`.
    InsuranceUnderwritingPremiums,
    /// JSON value: `"intra_company_purchases"`.
    IntraCompanyPurchases,
    /// JSON value: `"jewelry_stores_watches_clocks_and_silverware_stores"`.
    JewelryStoresWatchesClocksAndSilverwareStores,
    /// JSON value: `"landscaping_services"`.
    LandscapingServices,
    /// JSON value: `"laundries"`.
    Laundries,
    /// JSON value: `"laundry_cleaning_services"`.
    LaundryCleaningServices,
    /// JSON value: `"legal_services_attorneys"`.
    LegalServicesAttorneys,
    /// JSON value: `"luggage_and_leather_goods_stores"`.
    LuggageAndLeatherGoodsStores,
    /// JSON value: `"lumber_building_materials_stores"`.
    LumberBuildingMaterialsStores,
    /// JSON value: `"manual_cash_disburse"`.
    ManualCashDisburse,
    /// JSON value: `"marinas_service_and_supplies"`.
    MarinasServiceAndSupplies,
    /// JSON value: `"masonry_stonework_and_plaster"`.
    MasonryStoneworkAndPlaster,
    /// JSON value: `"massage_parlors"`.
    MassageParlors,
    /// JSON value: `"medical_and_dental_labs"`.
    MedicalAndDentalLabs,
    /// JSON value: `"medical_dental_ophthalmic_and_hospital_equipment_and_supplies"`.
    MedicalDentalOphthalmicAndHospitalEquipmentAndSupplies,
    /// JSON value: `"medical_services"`.
    MedicalServices,
    /// JSON value: `"membership_organizations"`.
    MembershipOrganizations,
    /// JSON value: `"mens_and_boys_clothing_and_accessories_stores"`.
    MensAndBoysClothingAndAccessoriesStores,
    /// JSON value: `"mens_womens_clothing_stores"`.
    MensWomensClothingStores,
    /// JSON value: `"metal_service_centers"`.
    MetalServiceCenters,
    /// JSON value: `"miscellaneous"`.
    Miscellaneous,
    /// JSON value: `"miscellaneous_apparel_and_accessory_shops"`.
    MiscellaneousApparelAndAccessoryShops,
    /// JSON value: `"miscellaneous_auto_dealers"`.
    MiscellaneousAutoDealers,
    /// JSON value: `"miscellaneous_business_services"`.
    MiscellaneousBusinessServices,
    /// JSON value: `"miscellaneous_food_stores"`.
    MiscellaneousFoodStores,
    /// JSON value: `"miscellaneous_general_merchandise"`.
    MiscellaneousGeneralMerchandise,
    /// JSON value: `"miscellaneous_general_services"`.
    MiscellaneousGeneralServices,
    /// JSON value: `"miscellaneous_home_furnishing_specialty_stores"`.
    MiscellaneousHomeFurnishingSpecialtyStores,
    /// JSON value: `"miscellaneous_publishing_and_printing"`.
    MiscellaneousPublishingAndPrinting,
    /// JSON value: `"miscellaneous_recreation_services"`.
    MiscellaneousRecreationServices,
    /// JSON value: `"miscellaneous_repair_shops"`.
    MiscellaneousRepairShops,
    /// JSON value: `"miscellaneous_specialty_retail"`.
    MiscellaneousSpecialtyRetail,
    /// JSON value: `"mobile_home_dealers"`.
    MobileHomeDealers,
    /// JSON value: `"motion_picture_theaters"`.
    MotionPictureTheaters,
    /// JSON value: `"motor_freight_carriers_and_trucking"`.
    MotorFreightCarriersAndTrucking,
    /// JSON value: `"motor_homes_dealers"`.
    MotorHomesDealers,
    /// JSON value: `"motor_vehicle_supplies_and_new_parts"`.
    MotorVehicleSuppliesAndNewParts,
    /// JSON value: `"motorcycle_shops_and_dealers"`.
    MotorcycleShopsAndDealers,
    /// JSON value: `"motorcycle_shops_dealers"`.
    MotorcycleShopsDealers,
    /// JSON value: `"music_stores_musical_instruments_pianos_and_sheet_music"`.
    MusicStoresMusicalInstrumentsPianosAndSheetMusic,
    /// JSON value: `"news_dealers_and_newsstands"`.
    NewsDealersAndNewsstands,
    /// JSON value: `"non_fi_money_orders"`.
    NonFiMoneyOrders,
    /// JSON value: `"non_fi_stored_value_card_purchase_load"`.
    NonFiStoredValueCardPurchaseLoad,
    /// JSON value: `"nondurable_goods"`.
    NondurableGoods,
    /// JSON value: `"nurseries_lawn_and_garden_supply_stores"`.
    NurseriesLawnAndGardenSupplyStores,
    /// JSON value: `"nursing_personal_care"`.
    NursingPersonalCare,
    /// JSON value: `"office_and_commercial_furniture"`.
    OfficeAndCommercialFurniture,
    /// JSON value: `"opticians_eyeglasses"`.
    OpticiansEyeglasses,
    /// JSON value: `"optometrists_ophthalmologist"`.
    OptometristsOphthalmologist,
    /// JSON value: `"orthopedic_goods_prosthetic_devices"`.
    OrthopedicGoodsProstheticDevices,
    /// JSON value: `"osteopaths"`.
    Osteopaths,
    /// JSON value: `"package_stores_beer_wine_and_liquor"`.
    PackageStoresBeerWineAndLiquor,
    /// JSON value: `"paints_varnishes_and_supplies"`.
    PaintsVarnishesAndSupplies,
    /// JSON value: `"parking_lots_garages"`.
    ParkingLotsGarages,
    /// JSON value: `"passenger_railways"`.
    PassengerRailways,
    /// JSON value: `"pawn_shops"`.
    PawnShops,
    /// JSON value: `"pet_shops_pet_food_and_supplies"`.
    PetShopsPetFoodAndSupplies,
    /// JSON value: `"petroleum_and_petroleum_products"`.
    PetroleumAndPetroleumProducts,
    /// JSON value: `"photo_developing"`.
    PhotoDeveloping,
    /// JSON value: `"photographic_photocopy_microfilm_equipment_and_supplies"`.
    PhotographicPhotocopyMicrofilmEquipmentAndSupplies,
    /// JSON value: `"photographic_studios"`.
    PhotographicStudios,
    /// JSON value: `"picture_video_production"`.
    PictureVideoProduction,
    /// JSON value: `"piece_goods_notions_and_other_dry_goods"`.
    PieceGoodsNotionsAndOtherDryGoods,
    /// JSON value: `"plumbing_heating_equipment_and_supplies"`.
    PlumbingHeatingEquipmentAndSupplies,
    /// JSON value: `"political_organizations"`.
    PoliticalOrganizations,
    /// JSON value: `"postal_services_government_only"`.
    PostalServicesGovernmentOnly,
    /// JSON value: `"precious_stones_and_metals_watches_and_jewelry"`.
    PreciousStonesAndMetalsWatchesAndJewelry,
    /// JSON value: `"professional_services"`.
    ProfessionalServices,
    /// JSON value: `"public_warehousing_and_storage"`.
    PublicWarehousingAndStorage,
    /// JSON value: `"quick_copy_repro_and_blueprint"`.
    QuickCopyReproAndBlueprint,
    /// JSON value: `"railroads"`.
    Railroads,
    /// JSON value: `"real_estate_agents_and_managers_rentals"`.
    RealEstateAgentsAndManagersRentals,
    /// JSON value: `"record_stores"`.
    RecordStores,
    /// JSON value: `"recreational_vehicle_rentals"`.
    RecreationalVehicleRentals,
    /// JSON value: `"religious_goods_stores"`.
    ReligiousGoodsStores,
    /// JSON value: `"religious_organizations"`.
    ReligiousOrganizations,
    /// JSON value: `"roofing_siding_sheet_metal"`.
    RoofingSidingSheetMetal,
    /// JSON value: `"secretarial_support_services"`.
    SecretarialSupportServices,
    /// JSON value: `"security_brokers_dealers"`.
    SecurityBrokersDealers,
    /// JSON value: `"service_stations"`.
    ServiceStations,
    /// JSON value: `"sewing_needlework_fabric_and_piece_goods_stores"`.
    SewingNeedleworkFabricAndPieceGoodsStores,
    /// JSON value: `"shoe_repair_hat_cleaning"`.
    ShoeRepairHatCleaning,
    /// JSON value: `"shoe_stores"`.
    ShoeStores,
    /// JSON value: `"small_appliance_repair"`.
    SmallApplianceRepair,
    /// JSON value: `"snowmobile_dealers"`.
    SnowmobileDealers,
    /// JSON value: `"special_trade_services"`.
    SpecialTradeServices,
    /// JSON value: `"specialty_cleaning"`.
    SpecialtyCleaning,
    /// JSON value: `"sporting_goods_stores"`.
    SportingGoodsStores,
    /// JSON value: `"sporting_recreation_camps"`.
    SportingRecreationCamps,
    /// JSON value: `"sports_and_riding_apparel_stores"`.
    SportsAndRidingApparelStores,
    /// JSON value: `"sports_clubs_fields"`.
    SportsClubsFields,
    /// JSON value: `"stamp_and_coin_stores"`.
    StampAndCoinStores,
    /// JSON value: `"stationary_office_supplies_printing_and_writing_paper"`.
    StationaryOfficeSuppliesPrintingAndWritingPaper,
    /// JSON value: `"stationery_stores_office_and_school_supply_stores"`.
    StationeryStoresOfficeAndSchoolSupplyStores,
    /// JSON value: `"swimming_pools_sales"`.
    SwimmingPoolsSales,
    /// JSON value: `"t_ui_travel_germany"`.
    TUiTravelGermany,
    /// JSON value: `"tailors_alterations"`.
    TailorsAlterations,
    /// JSON value: `"tax_payments_government_agencies"`.
    TaxPaymentsGovernmentAgencies,
    /// JSON value: `"tax_preparation_services"`.
    TaxPreparationServices,
    /// JSON value: `"taxicabs_limousines"`.
    TaxicabsLimousines,
    /// JSON value: `"telecommunication_equipment_and_telephone_sales"`.
    TelecommunicationEquipmentAndTelephoneSales,
    /// JSON value: `"telecommunication_services"`.
    TelecommunicationServices,
    /// JSON value: `"telegraph_services"`.
    TelegraphServices,
    /// JSON value: `"tent_and_awning_shops"`.
    TentAndAwningShops,
    /// JSON value: `"testing_laboratories"`.
    TestingLaboratories,
    /// JSON value: `"theatrical_ticket_agencies"`.
    TheatricalTicketAgencies,
    /// JSON value: `"timeshares"`.
    Timeshares,
    /// JSON value: `"tire_retreading_and_repair"`.
    TireRetreadingAndRepair,
    /// JSON value: `"tolls_bridge_fees"`.
    TollsBridgeFees,
    /// JSON value: `"tourist_attractions_and_exhibits"`.
    TouristAttractionsAndExhibits,
    /// JSON value: `"towing_services"`.
    TowingServices,
    /// JSON value: `"trailer_parks_campgrounds"`.
    TrailerParksCampgrounds,
    /// JSON value: `"transportation_services"`.
    TransportationServices,
    /// JSON value: `"travel_agencies_tour_operators"`.
    TravelAgenciesTourOperators,
    /// JSON value: `"truck_stop_iteration"`.
    TruckStopIteration,
    /// JSON value: `"truck_utility_trailer_rentals"`.
    TruckUtilityTrailerRentals,
    /// JSON value: `"typesetting_plate_making_and_related_services"`.
    TypesettingPlateMakingAndRelatedServices,
    /// JSON value: `"typewriter_stores"`.
    TypewriterStores,
    /// JSON value: `"u_s_federal_government_agencies_or_departments"`.
    USFederalGovernmentAgenciesOrDepartments,
    /// JSON value: `"uniforms_commercial_clothing"`.
    UniformsCommercialClothing,
    /// JSON value: `"used_merchandise_and_secondhand_stores"`.
    UsedMerchandiseAndSecondhandStores,
    /// JSON value: `"utilities"`.
    Utilities,
    /// JSON value: `"variety_stores"`.
    VarietyStores,
    /// JSON value: `"veterinary_services"`.
    VeterinaryServices,
    /// JSON value: `"video_amusement_game_supplies"`.
    VideoAmusementGameSupplies,
    /// JSON value: `"video_game_arcades"`.
    VideoGameArcades,
    /// JSON value: `"video_tape_rental_stores"`.
    VideoTapeRentalStores,
    /// JSON value: `"vocational_trade_schools"`.
    VocationalTradeSchools,
    /// JSON value: `"watch_jewelry_repair"`.
    WatchJewelryRepair,
    /// JSON value: `"welding_repair"`.
    WeldingRepair,
    /// JSON value: `"wholesale_clubs"`.
    WholesaleClubs,
    /// JSON value: `"wig_and_toupee_stores"`.
    WigAndToupeeStores,
    /// JSON value: `"wires_money_orders"`.
    WiresMoneyOrders,
    /// JSON value: `"womens_accessory_and_specialty_shops"`.
    WomensAccessoryAndSpecialtyShops,
    /// JSON value: `"womens_ready_to_wear_stores"`.
    WomensReadyToWearStores,
    /// JSON value: `"wrecking_and_salvage_yards"`.
    WreckingAndSalvageYards,
}

/// Stripe API location: `issuing_card_shipping`.
#[derive(Debug, Clone)]
pub struct IssuingCardShipping {
    /// JSON key: `type`.
    pub type_x: UniStrTypeF00519,
    pub name: String,
    pub address: Address,
    pub carrier: Option<UniStrCarrier>,
    pub eta: Option<i64>,
    pub service: UniStrService,
    pub status: Option<UniStrStatus24CF53>,
    pub tracking_number: Option<String>,
    pub tracking_url: Option<String>,
}

/// Stripe API location: `issuing_card_shipping.carrier`.
#[derive(Debug, Clone)]
pub enum UniStrCarrier {
    /// JSON value: `"fedex"`.
    Fedex,
    /// JSON value: `"usps"`.
    Usps,
}

/// Stripe API location: `issuing_card_shipping.service`.
#[derive(Debug, Clone)]
pub enum UniStrService {
    /// JSON value: `"express"`.
    Express,
    /// JSON value: `"priority"`.
    Priority,
    /// JSON value: `"standard"`.
    Standard,
}

/// Stripe API location: `issuing_card_shipping.status`.
#[derive(Debug, Clone)]
pub enum UniStrStatus24CF53 {
    /// JSON value: `"canceled"`.
    Canceled,
    /// JSON value: `"delivered"`.
    Delivered,
    /// JSON value: `"failure"`.
    Failure,
    /// JSON value: `"pending"`.
    Pending,
    /// JSON value: `"returned"`.
    Returned,
    /// JSON value: `"shipped"`.
    Shipped,
}

/// Stripe API location: `issuing_card_shipping.type`.
#[derive(Debug, Clone)]
pub enum UniStrTypeF00519 {
    /// JSON value: `"bulk"`.
    Bulk,
    /// JSON value: `"individual"`.
    Individual,
}

/// Stripe API location: `issuing_card_spending_limit`.
#[derive(Debug, Clone)]
pub struct IssuingCardSpendingLimit {
    pub amount: i64,
    pub categories: Option<Vec<UniStrItems6A79F4>>,
    pub interval: UniStrInterval98ED8A,
}

/// Stripe API location: `issuing_card_spending_limit.interval`, `issuing_cardholder_spending_limit.interval`.
#[derive(Debug, Clone)]
pub enum UniStrInterval98ED8A {
    /// JSON value: `"all_time"`.
    AllTime,
    /// JSON value: `"daily"`.
    Daily,
    /// JSON value: `"monthly"`.
    Monthly,
    /// JSON value: `"per_authorization"`.
    PerAuthorization,
    /// JSON value: `"weekly"`.
    Weekly,
    /// JSON value: `"yearly"`.
    Yearly,
}

/// Stripe API location: `issuing_cardholder_address`.
#[derive(Debug, Clone)]
pub struct IssuingCardholderAddress {
    pub address: Address,
}

/// Stripe API location: `issuing_cardholder_authorization_controls`.
#[derive(Debug, Clone)]
pub struct IssuingCardholderAuthorizationControls {
    pub allowed_categories: Option<Vec<UniStrItems6A79F4>>,
    pub blocked_categories: Option<Vec<UniStrItems6A79F4>>,
    pub spending_limits: Option<Vec<IssuingCardholderSpendingLimit>>,
    pub spending_limits_currency: Option<String>,
}

/// Stripe API location: `issuing_cardholder_company`.
#[derive(Debug, Clone)]
pub struct IssuingCardholderCompany {
    pub tax_id_provided: bool,
}

/// Stripe API location: `issuing_cardholder_id_document`.
#[derive(Debug)]
pub struct IssuingCardholderIdDocument {
    pub back: Option<UniFile5BD414>,
    pub front: Option<UniFile5BD414>,
}

/// Stripe API location: `issuing_cardholder_individual`.
#[derive(Debug)]
pub struct IssuingCardholderIndividual {
    pub dob: Option<IssuingCardholderIndividualDOB>,
    pub first_name: String,
    pub last_name: String,
    pub verification: Option<IssuingCardholderVerification>,
}

/// Stripe API location: `issuing_cardholder_individual_dob`.
#[derive(Debug, Clone)]
pub struct IssuingCardholderIndividualDOB {
    pub day: Option<i64>,
    pub month: Option<i64>,
    pub year: Option<i64>,
}

/// Stripe API location: `issuing_cardholder_requirements`.
#[derive(Debug, Clone)]
pub struct IssuingCardholderRequirements {
    pub disabled_reason: Option<UniStrDisabledReason>,
    pub past_due: Option<Vec<UniStrItems6966B7>>,
}

/// Stripe API location: `issuing_cardholder_requirements.disabled_reason`.
#[derive(Debug, Clone)]
pub enum UniStrDisabledReason {
    /// JSON value: `"listed"`.
    Listed,
    /// JSON value: `"rejected.listed"`.
    RejectedDotListed,
    /// JSON value: `"under_review"`.
    UnderReview,
}

/// Stripe API location: `issuing_cardholder_requirements.past_due.items`.
#[derive(Debug, Clone)]
pub enum UniStrItems6966B7 {
    /// JSON value: `"company.tax_id"`.
    CompanyDotTaxId,
    /// JSON value: `"individual.dob.day"`.
    IndividualDotDobDotDay,
    /// JSON value: `"individual.dob.month"`.
    IndividualDotDobDotMonth,
    /// JSON value: `"individual.dob.year"`.
    IndividualDotDobDotYear,
    /// JSON value: `"individual.first_name"`.
    IndividualDotFirstName,
    /// JSON value: `"individual.last_name"`.
    IndividualDotLastName,
    /// JSON value: `"individual.verification.document"`.
    IndividualDotVerificationDotDocument,
}

/// Stripe API location: `issuing_cardholder_spending_limit`.
#[derive(Debug, Clone)]
pub struct IssuingCardholderSpendingLimit {
    pub amount: i64,
    pub categories: Option<Vec<UniStrItems6A79F4>>,
    pub interval: UniStrInterval98ED8A,
}

/// Stripe API location: `issuing_cardholder_verification`.
#[derive(Debug)]
pub struct IssuingCardholderVerification {
    pub document: Option<IssuingCardholderIdDocument>,
}

/// Stripe API location: `issuing_dispute_canceled_evidence`.
#[derive(Debug)]
pub struct IssuingDisputeCanceledEvidence {
    pub additional_documentation: Option<UniFile5BD414>,
    pub canceled_at: Option<i64>,
    pub cancellation_policy_provided: Option<bool>,
    pub cancellation_reason: Option<String>,
    pub expected_at: Option<i64>,
    pub explanation: Option<String>,
    pub product_description: Option<String>,
    pub product_type: Option<UniStrProductType>,
    pub return_status: Option<UniStrReturnStatus>,
    pub returned_at: Option<i64>,
}

/// Stripe API location: `issuing_dispute_canceled_evidence.product_type`, `issuing_dispute_not_received_evidence.product_type`, `issuing_dispute_other_evidence.product_type`.
#[derive(Debug, Clone)]
pub enum UniStrProductType {
    /// JSON value: `"merchandise"`.
    Merchandise,
    /// JSON value: `"service"`.
    Service,
}

/// Stripe API location: `issuing_dispute_canceled_evidence.return_status`, `issuing_dispute_merchandise_not_as_described_evidence.return_status`.
#[derive(Debug, Clone)]
pub enum UniStrReturnStatus {
    /// JSON value: `"merchant_rejected"`.
    MerchantRejected,
    /// JSON value: `"successful"`.
    Successful,
}

/// Stripe API location: `issuing_dispute_duplicate_evidence`.
#[derive(Debug)]
pub struct IssuingDisputeDuplicateEvidence {
    pub additional_documentation: Option<UniFile5BD414>,
    pub card_statement: Option<UniFile5BD414>,
    pub cash_receipt: Option<UniFile5BD414>,
    pub check_image: Option<UniFile5BD414>,
    pub explanation: Option<String>,
    pub original_transaction: Option<String>,
}

/// Stripe API location: `issuing_dispute_evidence`.
#[derive(Debug)]
pub struct IssuingDisputeEvidence {
    pub canceled: Option<IssuingDisputeCanceledEvidence>,
    pub duplicate: Option<IssuingDisputeDuplicateEvidence>,
    pub fraudulent: Option<IssuingDisputeFraudulentEvidence>,
    pub merchandise_not_as_described: Option<IssuingDisputeMerchandiseNotAsDescribedEvidence>,
    pub not_received: Option<IssuingDisputeNotReceivedEvidence>,
    pub other: Option<IssuingDisputeOtherEvidence>,
    pub reason: UniStrReason,
    pub service_not_as_described: Option<IssuingDisputeServiceNotAsDescribedEvidence>,
}

/// Stripe API location: `issuing_dispute_evidence.reason`.
#[derive(Debug, Clone)]
pub enum UniStrReason {
    /// JSON value: `"canceled"`.
    Canceled,
    /// JSON value: `"duplicate"`.
    Duplicate,
    /// JSON value: `"fraudulent"`.
    Fraudulent,
    /// JSON value: `"merchandise_not_as_described"`.
    MerchandiseNotAsDescribed,
    /// JSON value: `"not_received"`.
    NotReceived,
    /// JSON value: `"other"`.
    Other,
    /// JSON value: `"service_not_as_described"`.
    ServiceNotAsDescribed,
}

/// Stripe API location: `issuing_dispute_fraudulent_evidence`.
#[derive(Debug)]
pub struct IssuingDisputeFraudulentEvidence {
    pub additional_documentation: Option<UniFile5BD414>,
    pub explanation: Option<String>,
}

/// Stripe API location: `issuing_dispute_merchandise_not_as_described_evidence`.
#[derive(Debug)]
pub struct IssuingDisputeMerchandiseNotAsDescribedEvidence {
    pub additional_documentation: Option<UniFile5BD414>,
    pub explanation: Option<String>,
    pub received_at: Option<i64>,
    pub return_description: Option<String>,
    pub return_status: Option<UniStrReturnStatus>,
    pub returned_at: Option<i64>,
}

/// Stripe API location: `issuing_dispute_not_received_evidence`.
#[derive(Debug)]
pub struct IssuingDisputeNotReceivedEvidence {
    pub additional_documentation: Option<UniFile5BD414>,
    pub expected_at: Option<i64>,
    pub explanation: Option<String>,
    pub product_description: Option<String>,
    pub product_type: Option<UniStrProductType>,
}

/// Stripe API location: `issuing_dispute_other_evidence`.
#[derive(Debug)]
pub struct IssuingDisputeOtherEvidence {
    pub additional_documentation: Option<UniFile5BD414>,
    pub explanation: Option<String>,
    pub product_description: Option<String>,
    pub product_type: Option<UniStrProductType>,
}

/// Stripe API location: `issuing_dispute_service_not_as_described_evidence`.
#[derive(Debug)]
pub struct IssuingDisputeServiceNotAsDescribedEvidence {
    pub additional_documentation: Option<UniFile5BD414>,
    pub canceled_at: Option<i64>,
    pub cancellation_reason: Option<String>,
    pub explanation: Option<String>,
    pub received_at: Option<i64>,
}

/// Stripe API location: `issuing_transaction_amount_details`.
#[derive(Debug, Clone)]
pub struct IssuingTransactionAmountDetails {
    pub atm_fee: Option<i64>,
}

/// Stripe API location: `issuing_transaction_flight_data`.
#[derive(Debug, Clone)]
pub struct IssuingTransactionFlightData {
    pub departure_at: Option<i64>,
    pub passenger_name: Option<String>,
    pub refundable: Option<bool>,
    pub segments: Option<Vec<IssuingTransactionFlightDataLeg>>,
    pub travel_agency: Option<String>,
}

/// Stripe API location: `issuing_transaction_flight_data_leg`.
#[derive(Debug, Clone)]
pub struct IssuingTransactionFlightDataLeg {
    pub arrival_airport_code: Option<String>,
    pub carrier: Option<String>,
    pub departure_airport_code: Option<String>,
    pub flight_number: Option<String>,
    pub service_class: Option<String>,
    pub stopover_allowed: Option<bool>,
}

/// Stripe API location: `issuing_transaction_fuel_data`.
#[derive(Debug, Clone)]
pub struct IssuingTransactionFuelData {
    /// JSON key: `type`.
    pub type_x: String,
    pub unit: String,
    pub unit_cost_decimal: String,
    pub volume_decimal: Option<String>,
}

/// Stripe API location: `issuing_transaction_lodging_data`.
#[derive(Debug, Clone)]
pub struct IssuingTransactionLodgingData {
    pub check_in_at: Option<i64>,
    pub nights: Option<i64>,
}

/// Stripe API location: `issuing_transaction_purchase_details`.
#[derive(Debug, Clone)]
pub struct IssuingTransactionPurchaseDetails {
    pub flight: Option<IssuingTransactionFlightData>,
    pub fuel: Option<IssuingTransactionFuelData>,
    pub lodging: Option<IssuingTransactionLodgingData>,
    pub receipt: Option<Vec<IssuingTransactionReceiptData>>,
    pub reference: Option<String>,
}

/// Stripe API location: `issuing_transaction_receipt_data`.
#[derive(Debug, Clone)]
pub struct IssuingTransactionReceiptData {
    pub description: Option<String>,
    pub quantity: Option<F64Bits>,
    pub total: Option<i64>,
    pub unit_cost: Option<i64>,
}

/// Stripe API location: `item`.
#[derive(Debug)]
pub struct LineItems {
    pub object: UniStrObjectDE5E3A,
    pub id: String,
    pub amount_subtotal: Option<i64>,
    pub amount_total: Option<i64>,
    pub currency: String,
    pub description: String,
    pub discounts: Option<Vec<LineItemsDiscountAmount>>,
    pub price: Price,
    pub quantity: Option<i64>,
    pub taxes: Option<Vec<LineItemsTaxAmount>>,
}

impl GetId for LineItems {
    open spec fn has_id(&self) -> bool {
        true
    }

    open spec fn id_of(&self) -> String {
        self.id
    }

    fn get_id(&self) -> (r: String) {
        self.id.clone()
    }
}

/// Stripe API location: `item.object`.
#[derive(Debug, Clone)]
pub enum UniStrObjectDE5E3A {
    /// JSON value: `"item"`.
    Item,
}

/// Stripe API location: `legal_entity_company`.
#[derive(Debug)]
pub struct LegalEntityCompany {
    pub name: Option<String>,
    pub address: Option<Address>,
    pub address_kana: Option<LegalEntityJapanAddress>,
    pub address_kanji: Option<LegalEntityJapanAddress>,
    pub directors_provided: Option<bool>,
    pub executives_provided: Option<bool>,
    pub name_kana: Option<String>,
    pub name_kanji: Option<String>,
    pub owners_provided: Option<bool>,
    pub phone: Option<String>,
    pub structure: Option<UniStrStructure>,
    pub tax_id_provided: Option<bool>,
    pub tax_id_registrar: Option<String>,
    pub vat_id_provided: Option<bool>,
    pub verification: Option<LegalEntityCompanyVerification>,
}

/// Stripe API location: `legal_entity_company.structure`.
#[derive(Debug, Clone)]
pub enum UniStrStructure {
    /// JSON value: `"government_instrumentality"`.
    GovernmentInstrumentality,
    /// JSON value: `"governmental_unit"`.
    GovernmentalUnit,
    /// JSON value: `"incorporated_non_profit"`.
    IncorporatedNonProfit,
    /// JSON value: `"limited_liability_partnership"`.
    LimitedLiabilityPartnership,
    /// JSON value: `"multi_member_llc"`.
    MultiMemberLlc,
    /// JSON value: `"private_company"`.
    PrivateCompany,
    /// JSON value: `"private_corporation"`.
    PrivateCorporation,
    /// JSON value: `"private_partnership"`.
    PrivatePartnership,
    /// JSON value: `"public_company"`.
    PublicCompany,
    /// JSON value: `"public_corporation"`.
    PublicCorporation,
    /// JSON value: `"public_partnership"`.
    PublicPartnership,
    /// JSON value: `"sole_proprietorship"`.
    SoleProprietorship,
    /// JSON value: `"tax_exempt_government_instrumentality"`.
    TaxExemptGovernmentInstrumentality,
    /// JSON value: `"unincorporated_association"`.
    UnincorporatedAssociation,
    /// JSON value: `"unincorporated_non_profit"`.
    UnincorporatedNonProfit,
}

/// Stripe API location: `legal_entity_company_verification`.
#[derive(Debug)]
pub struct LegalEntityCompanyVerification {
    pub document: LegalEntityCompanyVerificationDocument,
}

/// Stripe API location: `legal_entity_company_verification_document`.
#[derive(Debug)]
pub struct LegalEntityCompanyVerificationDocument {
    pub back: Option<UniFile5BD414>,
    pub front: Option<UniFile5BD414>,
    pub details: Option<String>,
    pub details_code: Option<String>,
}

/// Stripe API location: `legal_entity_dob`.
#[derive(Debug, Clone)]
pub struct LegalEntityDOB {
    pub day: Option<i64>,
    pub month: Option<i64>,
    pub year: Option<i64>,
}

/// Stripe API location: `legal_entity_japan_address`.
#[derive(Debug, Clone)]
pub struct LegalEntityJapanAddress {
    pub city: Option<String>,
    pub country: Option<String>,
    pub line1: Option<String>,
    pub line2: Option<String>,
    pub postal_code: Option<String>,
    pub state: Option<String>,
    pub town: Option<String>,
}

/// Stripe API location: `legal_entity_person_verification`.
#[derive(Debug)]
pub struct LegalEntityPersonVerification {
    pub additional_document: Option<LegalEntityPersonVerificationDocument>,
    pub details: Option<String>,
    pub details_code: Option<String>,
    pub document: Option<LegalEntityPersonVerificationDocument>,
    pub status: String,
}

/// Stripe API location: `legal_entity_person_verification_document`.
#[derive(Debug)]
pub struct LegalEntityPersonVerificationDocument {
    pub back: Option<UniFile5BD414>,
    pub front: Option<UniFile5BD414>,
    pub details: Option<String>,
    pub details_code: Option<String>,
}

/// Stripe API location: `line_item`.
#[derive(Debug)]
pub struct InvoiceLineItem {
    pub object: UniStrObject0B3778,
    /// JSON key: `type`.
    pub type_x: UniStrType5768DB,
    pub id: String,
    pub discounts: Option<Vec<UniItemsE47473>>,
    pub amount: i64,
    pub currency: String,
    pub description: Option<String>,
    pub discount_amounts: Option<Vec<DiscountsResourceDiscountAmount>>,
    pub discountable: bool,
    pub invoice_item: Option<String>,
    pub period: InvoiceLineItemPeriod,
    pub price: Option<Price>,
    pub proration: bool,
    pub quantity: Option<i64>,
    pub subscription: Option<String>,
    pub subscription_item: Option<String>,
    pub tax_amounts: Option<Vec<InvoiceTaxAmount>>,
    pub tax_rates: Option<Vec<TaxRate>>,
    pub livemode: bool,
    pub metadata: MetadataE2C46F,
}

impl GetId for InvoiceLineItem {
    open spec fn has_id(&self) -> bool {
        true
    }

    open spec fn id_of(&self) -> String {
        self.id
    }

    fn get_id(&self) -> (r: String) {
        self.id.clone()
    }
}

/// Stripe API location: `line_item.object`.
#[derive(Debug, Clone)]
pub enum UniStrObject0B3778 {
    /// JSON value: `"line_item"`.
    LineItem,
}

/// Stripe API location: `line_item.type`.
#[derive(Debug, Clone)]
pub enum UniStrType5768DB {
    /// JSON value: `"invoiceitem"`.
    Invoiceitem,
    /// JSON value: `"subscription"`.
    Subscription,
}

/// Stripe API location: `line_items_discount_amount`.
#[derive(Debug)]
pub struct LineItemsDiscountAmount {
    pub amount: i64,
    pub discount: Discount,
}

/// Stripe API location: `line_items_tax_amount`.
#[derive(Debug, Clone)]
pub struct LineItemsTaxAmount {
    pub amount: i64,
    pub rate: TaxRate,
}

/// Stripe API location: `login_link`.
#[derive(Debug, Clone)]
pub struct LoginLink {
    pub object: UniStrObjectCEBEB6,
    pub url: String,
    pub created: i64,
}

/// Stripe API location: `login_link.object`.
#[derive(Debug, Clone)]
pub enum UniStrObjectCEBEB6 {
    /// JSON value: `"login_link"`.
    LoginLink,
}

/// Stripe API location: `mandate`.
#[derive(Debug)]
pub struct Mandate {
    pub object: UniStrObject166EB7,
    /// JSON key: `type`.
    pub type_x: UniStrType312965,
    pub id: String,
    pub payment_method: UniPaymentMethod,
    pub customer_acceptance: CustomerAcceptance,
    pub multi_use: Option<MandateMultiUse>,
    pub payment_method_details: MandatePaymentMethodDetails,
    pub single_use: Option<MandateSingleUse>,
    pub status: UniStrStatusBA4125,
    pub livemode: bool,
}

impl GetId for Mandate {
    open spec fn has_id(&self) -> bool {
        true
    }

    open spec fn id_of(&self) -> String {
        self.id
    }

    fn get_id(&self) -> (r: String) {
        self.id.clone()
    }
}

/// Stripe API location: `mandate.object`.
#[derive(Debug, Clone)]
pub enum UniStrObject166EB7 {
    /// JSON value: `"mandate"`.
    Mandate,
}

/// Stripe API location: `mandate.type`.
#[derive(Debug, Clone)]
pub enum UniStrType312965 {
    /// JSON value: `"multi_use"`.
    MultiUse,
    /// JSON value: `"single_use"`.
    SingleUse,
}

/// Stripe API location: `mandate_au_becs_debit`.
#[derive(Debug, Clone)]
pub struct MandateAuBecsDebit {
    pub url: String,
}

/// Stripe API location: `mandate_bacs_debit`.
#[derive(Debug, Clone)]
pub struct MandateBacsDebit {
    pub network_status: UniStrNetworkStatus,
    pub reference: String,
    pub url: String,
}

/// Stripe API location: `mandate_bacs_debit.network_status`.
#[derive(Debug, Clone)]
pub enum UniStrNetworkStatus {
    /// JSON value: `"accepted"`.
    Accepted,
    /// JSON value: `"pending"`.
    Pending,
    /// JSON value: `"refused"`.
    Refused,
    /// JSON value: `"revoked"`.
    Revoked,
}

/// Stripe API location: `mandate_payment_method_details`.
#[derive(Debug, Clone)]
pub struct MandatePaymentMethodDetails {
    /// JSON key: `type`.
    pub type_x: String,
    pub au_becs_debit: Option<MandateAuBecsDebit>,
    pub bacs_debit: Option<MandateBacsDebit>,
    pub card: Option<CardMandatePaymentMethodDetails>,
    pub sepa_debit: Option<MandateSepaDebit>,
}

/// Stripe API location: `mandate_sepa_debit`.
#[derive(Debug, Clone)]
pub struct MandateSepaDebit {
    pub reference: String,
    pub url: String,
}

/// Stripe API location: `mandate_single_use`.
#[derive(Debug, Clone)]
pub struct MandateSingleUse {
    pub amount: i64,
    pub currency: String,
}

/// Stripe API location: `networks`.
#[derive(Debug, Clone)]
pub struct Networks {
    pub available: Vec<String>,
    pub preferred: Option<String>,
}

/// Stripe API location: `notification_event_data`.
#[derive(Debug)]
pub struct NotificationEventData {
    pub object: Box<UniNotificationEventDataObject>,
    pub previous_attributes: Option<PreviousAttributes>,
}

/// Stripe API location: `notification_event_data.object`.
/// Encoded in JSON without a tag: the variant is chosen by the shape of the value.
#[derive(Debug)]
pub enum UniNotificationEventDataObject {
    Account(Account),
    PlatformFee(PlatformFee),
    Balance(Balance),
    AccountCapability(AccountCapability),
    Charge(Box<Charge>),
    Session(Session),
    Coupon(Coupon),
    CreditNote(Box<CreditNote>),
    Customer(Box<Customer>),
    Discount(Discount),
    Dispute(Dispute),
    RadarEarlyFraudWarning(RadarEarlyFraudWarning),
    UniPolymorphic70BAFA(UniPolymorphic70BAFA),
    FeeRefund(FeeRefund),
    File(File),
    Invoice(Box<Invoice>),
    InvoiceItem(InvoiceItem),
    IssuingAuthorization(IssuingAuthorization),
    IssuingCard(Box<IssuingCard>),
    IssuingCardholder(IssuingCardholder),
    IssuingDispute(IssuingDispute),
    IssuingTransaction(Box<IssuingTransaction>),
    Mandate(Mandate),
    Order(Order),
    OrderReturn(OrderReturn),
    PaymentIntent(Box<PaymentIntent>),
    PaymentMethod(Box<PaymentMethod>),
    Payout(Box<Payout>),
    Person(Person),
    Plan(Plan),
    Price(Price),
    Product(Product),
    PromotionCode(PromotionCode),
    TransferRecipient(TransferRecipient),
    Refund(Box<Refund>),
    ReportingReportRun(ReportingReportRun),
    ReportingReportType(ReportingReportType),
    RadarReview(RadarReview),
    ScheduledQueryRun(ScheduledQueryRun),
    SetupIntent(Box<SetupIntent>),
    Sku(Sku),
    Source(Source),
    SourceTransaction(SourceTransaction),
    Subscription(Box<Subscription>),
    SubscriptionSchedule(SubscriptionSchedule),
    TaxId(TaxId),
    TaxRate(TaxRate),
    Topup(Topup),
    Transfer(Transfer),
    UnknownEvent(UnknownEvent),
}

/// Stripe API location: `notification_event_request`.
#[derive(Debug, Clone)]
pub struct NotificationEventRequest {
    pub id: Option<String>,
    pub idempotency_key: Option<String>,
}

/// Stripe API location: `online_acceptance`.
#[derive(Debug, Clone)]
pub struct OnlineAcceptance {
    pub ip_address: Option<String>,
    pub user_agent: Option<String>,
}

/// Stripe API location: `order`.
#[derive(Debug)]
pub struct Order {
    pub object: UniStrObject43B2E2,
    pub id: String,
    pub upstream_id: Option<String>,
    pub charge: Option<UniCharge>,
    pub customer: Option<UniCustomerC00F6E>,
    pub amount: i64,
    pub amount_returned: Option<i64>,
    pub application: Option<String>,
    pub application_fee: Option<i64>,
    pub currency: String,
    pub email: Option<String>,
    pub external_coupon_code: Option<String>,
    pub items: Vec<OrderItem>,
    pub returns: Option<OrdersResourceOrderReturnList>,
    pub selected_shipping_method: Option<String>,
    pub shipping: Option<Shipping>,
    pub shipping_methods: Option<Vec<ShippingMethod>>,
    pub status: String,
    pub status_transitions: Option<StatusTransitions>,
    pub created: i64,
    pub updated: Option<i64>,
    pub livemode: bool,
    pub metadata: Option<Metadata7CCA3C>,
}

impl GetId for Order {
    open spec fn has_id(&self) -> bool {
        true
    }

    open spec fn id_of(&self) -> String {
        self.id
    }

    fn get_id(&self) -> (r: String) {
        self.id.clone()
    }
}

/// Stripe API location: `order.object`.
#[derive(Debug, Clone)]
pub enum UniStrObject43B2E2 {
    /// JSON value: `"order"`.
    Order,
}

/// Stripe API location: `order.returns`.
#[derive(Debug)]
pub struct OrdersResourceOrderReturnList {
    pub object: UniStrObject344B0E,
    pub data: Vec<OrderReturn>,
    pub has_more: bool,
    pub url: String,
}

impl PageMeta for OrdersResourceOrderReturnList {
    open spec fn page_ready(&self) -> bool {
        true
    }

    open spec fn page_ids(&self) -> Seq<String> {
        self.data@.map_values(|x: OrderReturn| x.id)
    }

    open spec fn page_has_more(&self) -> bool {
        self.has_more
    }

    fn get_from_to(&self) -> (r: Option<(String, String)>) {
        if self.data.len() == 0 {
            return None;
        }
        Some((self.data[0].id.clone(), self.data[self.data.len() - 1].id.clone()))
    }

    fn get_has_more(&self) -> (r: bool) {
        self.has_more
    }
}

/// Stripe API location: `order_item`.
#[derive(Debug, Clone)]
pub struct OrderItem {
    pub object: UniStrObject347C00,
    /// JSON key: `type`.
    pub type_x: String,
    pub parent: Option<UniParent>,
    pub amount: i64,
    pub currency: String,
    pub description: String,
    pub quantity: Option<i64>,
}

/// Stripe API location: `order_item.object`.
#[derive(Debug, Clone)]
pub enum UniStrObject347C00 {
    /// JSON value: `"order_item"`.
    OrderItem,
}

/// Stripe API location: `order_item.parent`.
/// Encoded in JSON without a tag: the variant is chosen by the shape of the value.
#[derive(Debug, Clone)]
pub enum UniParent {
    String(String),
    Sku(Sku),
}

/// Stripe API location: `order_return`.
#[derive(Debug)]
pub struct OrderReturn {
    pub object: UniStrObject765808,
    pub id: String,
    pub order: Option<UniOrder>,
    pub refund: Option<UniRefund>,
    pub amount: i64,
    pub currency: String,
    pub items: Vec<OrderItem>,
    pub created: i64,
    pub livemode: bool,
}

impl GetId for OrderReturn {
    open spec fn has_id(&self) -> bool {
        true
    }

    open spec fn id_of(&self) -> String {
        self.id
    }

    fn get_id(&self) -> (r: String) {
        self.id.clone()
    }
}

/// Stripe API location: `order_return.object`.
#[derive(Debug, Clone)]
pub enum UniStrObject765808 {
    /// JSON value: `"order_return"`.
    OrderReturn,
}

/// Stripe API location: `package_dimensions`.
#[derive(Debug, Clone)]
pub struct PackageDimensions {
    pub height: F64Bits,
    pub length: F64Bits,
    pub weight: F64Bits,
    pub width: F64Bits,
}

/// Stripe API location: `payment_flows_private_payment_methods_alipay_details`.
#[derive(Debug, Clone)]
pub struct PaymentFlowsPrivatePaymentMethodsAlipayDetails {
    pub transaction_id: Option<String>,
    pub fingerprint: Option<String>,
}

/// Stripe API location: `payment_intent`.
#[derive(Debug)]
pub struct PaymentIntent {
    pub object: UniStrObjectD4FACD,
    pub id: String,
    pub application: Option<UniApplication>,
    pub customer: Option<UniCustomerC00F6E>,
    pub invoice: Option<UniInvoice>,
    pub on_behalf_of: Option<UniAccount>,
    pub payment_method: Option<UniPaymentMethod>,
    pub review: Option<UniReview>,
    pub amount: i64,
    pub amount_capturable: Option<i64>,
    pub amount_received: Option<i64>,
    pub application_fee_amount: Option<i64>,
    pub canceled_at: Option<i64>,
    pub cancellation_reason: Option<UniStrCancellationReasonB1131D>,
    pub capture_method: UniStrCaptureMethod,
    pub charges: Option<PaymentFlowsPaymentIntentResourceChargeList>,
    pub client_secret: Option<String>,
    pub confirmation_method: UniStrCaptureMethod,
    pub currency: String,
    pub description: Option<String>,
    pub last_payment_error: Box<Option<APIErrors>>,
    pub next_action: Option<PaymentIntentNextAction>,
    pub payment_method_options: Option<PaymentIntentPaymentMethodOptions>,
    pub payment_method_types: Vec<String>,
    pub receipt_email: Option<String>,
    pub setup_future_usage: Option<UniStrSetupFutureUsage>,
    pub shipping: Option<Shipping>,
    pub statement_descriptor: Option<String>,
    pub statement_descriptor_suffix: Option<String>,
    pub status: UniStrStatus2A8B48,
    pub transfer_data: Option<TransferData>,
    pub transfer_group: Option<String>,
    pub created: i64,
    pub livemode: bool,
    pub metadata: Option<Metadata3CAB08>,
}

impl GetId for PaymentIntent {
    open spec fn has_id(&self) -> bool {
        true
    }

    open spec fn id_of(&self) -> String {
        self.id
    }

    fn get_id(&self) -> (r: String) {
        self.id.clone()
    }
}

/// Stripe API location: `payment_intent.cancellation_reason`.
#[derive(Debug, Clone)]
pub enum UniStrCancellationReasonB1131D {
    /// JSON value: `"abandoned"`.
    Abandoned,
    /// JSON value: `"automatic"`.
    Automatic,
    /// JSON value: `"duplicate"`.
    Duplicate,
    /// JSON value: `"failed_invoice"`.
    FailedInvoice,
    /// JSON value: `"fraudulent"`.
    Fraudulent,
    /// JSON value: `"requested_by_customer"`.
    RequestedByCustomer,
    /// JSON value: `"void_invoice"`.
    VoidInvoice,
}

/// Stripe API location: `payment_intent.capture_method`, `payment_intent.confirmation_method`.
#[derive(Debug, Clone)]
pub enum UniStrCaptureMethod {
    /// JSON value: `"automatic"`.
    Automatic,
    /// JSON value: `"manual"`.
    Manual,
}

/// Stripe API location: `payment_intent.charges`.
#[derive(Debug)]
pub struct PaymentFlowsPaymentIntentResourceChargeList {
    pub object: UniStrObject344B0E,
    pub data: Vec<Charge>,
    pub has_more: bool,
    pub url: String,
}

impl PageMeta for PaymentFlowsPaymentIntentResourceChargeList {
    open spec fn page_ready(&self) -> bool {
        true
    }

    open spec fn page_ids(&self) -> Seq<String> {
        self.data@.map_values(|x: Charge| x.id)
    }

    open spec fn page_has_more(&self) -> bool {
        self.has_more
    }

    fn get_from_to(&self) -> (r: Option<(String, String)>) {
        if self.data.len() == 0 {
            return None;
        }
        Some((self.data[0].id.clone(), self.data[self.data.len() - 1].id.clone()))
    }

    fn get_has_more(&self) -> (r: bool) {
        self.has_more
    }
}

/// Stripe API location: `payment_intent.object`.
#[derive(Debug, Clone)]
pub enum UniStrObjectD4FACD {
    /// JSON value: `"payment_intent"`.
    PaymentIntent,
}

/// Stripe API location: `payment_intent.setup_future_usage`.
#[derive(Debug, Clone)]
pub enum UniStrSetupFutureUsage {
    /// JSON value: `"off_session"`.
    OffSession,
    /// JSON value: `"on_session"`.
    OnSession,
}

/// Stripe API location: `payment_intent.status`.
#[derive(Debug, Clone)]
pub enum UniStrStatus2A8B48 {
    /// JSON value: `"canceled"`.
    Canceled,
    /// JSON value: `"processing"`.
    Processing,
    /// JSON value: `"requires_action"`.
    RequiresAction,
    /// JSON value: `"requires_capture"`.
    RequiresCapture,
    /// JSON value: `"requires_confirmation"`.
    RequiresConfirmation,
    /// JSON value: `"requires_payment_method"`.
    RequiresPaymentMethod,
    /// JSON value: `"succeeded"`.
    Succeeded,
}

/// Stripe API location: `payment_intent_next_action`.
#[derive(Debug, Clone)]
pub struct PaymentIntentNextAction {
    /// JSON key: `type`.
    pub type_x: String,
    pub alipay_handle_redirect: Option<PaymentIntentNextActionAlipayHandleRedirect>,
    pub oxxo_display_details: Option<PaymentIntentNextActionDisplayOxxoDetails>,
    pub redirect_to_url: Option<PaymentIntentNextActionRedirectToUrl>,
    pub use_stripe_sdk: Option<UseStripeSdkDAE5BB>,
}

/// Stripe API location: `payment_intent_next_action_alipay_handle_redirect`.
#[derive(Debug, Clone)]
pub struct PaymentIntentNextActionAlipayHandleRedirect {
    pub native_data: Option<String>,
    pub native_url: Option<String>,
    pub return_url: Option<String>,
    pub url: Option<String>,
}

/// Stripe API location: `payment_intent_next_action_display_oxxo_details`.
#[derive(Debug, Clone)]
pub struct PaymentIntentNextActionDisplayOxxoDetails {
    pub expires_after: Option<i64>,
    pub hosted_voucher_url: Option<String>,
    pub number: Option<String>,
}

/// Stripe API location: `payment_intent_next_action_redirect_to_url`.
#[derive(Debug, Clone)]
pub struct PaymentIntentNextActionRedirectToUrl {
    pub return_url: Option<String>,
    pub url: Option<String>,
}

/// Stripe API location: `payment_intent_payment_method_options`.
#[derive(Debug, Clone)]
pub struct PaymentIntentPaymentMethodOptions {
    pub alipay: Option<PaymentMethodOptionsAlipay>,
    pub bancontact: Option<PaymentMethodOptionsBancontact>,
    pub card: Option<PaymentIntentPaymentMethodOptionsCard>,
    pub oxxo: Option<PaymentMethodOptionsOxxo>,
    pub p24: Option<PaymentMethodOptionsP24>,
    pub sofort: Option<PaymentMethodOptionsSofort>,
}

/// Stripe API location: `payment_intent_payment_method_options_card`.
#[derive(Debug, Clone)]
pub struct PaymentIntentPaymentMethodOptionsCard {
    pub installments: Option<PaymentMethodOptionsCardInstallments>,
    pub network: Option<UniStrNetworkA1E06C>,
    pub request_three_d_secure: Option<UniStrRequestThreeDSecure>,
}

/// Stripe API location: `payment_intent_payment_method_options_card.network`.
#[derive(Debug, Clone)]
pub enum UniStrNetworkA1E06C {
    /// JSON value: `"amex"`.
    Amex,
    /// JSON value: `"cartes_bancaires"`.
    CartesBancaires,
    /// JSON value: `"diners"`.
    Diners,
    /// JSON value: `"discover"`.
    Discover,
    /// JSON value: `"interac"`.
    Interac,
    /// JSON value: `"jcb"`.
    Jcb,
    /// JSON value: `"mastercard"`.
    Mastercard,
    /// JSON value: `"unionpay"`.
    Unionpay,
    /// JSON value: `"unknown"`.
    Unknown,
    /// JSON value: `"visa"`.
    Visa,
}

/// Stripe API location: `payment_intent_payment_method_options_card.request_three_d_secure`, `setup_intent_payment_method_options_card.request_three_d_secure`.
#[derive(Debug, Clone)]
pub enum UniStrRequestThreeDSecure {
    /// JSON value: `"any"`.
    Any,
    /// JSON value: `"automatic"`.
    Automatic,
    /// JSON value: `"challenge_only"`.
    ChallengeOnly,
}

/// Stripe API location: `payment_method`.
#[derive(Debug)]
pub struct PaymentMethod {
    pub object: UniStrObject8D07E7,
    /// JSON key: `type`.
    pub type_x: UniStrType661F1A,
    pub id: String,
    pub customer: Option<UniCustomerEDC00A>,
    pub alipay: Option<PaymentFlowsPrivatePaymentMethodsAlipay>,
    pub au_becs_debit: Option<PaymentMethodAuBecsDebit>,
    pub bacs_debit: Option<PaymentMethodBacsDebit>,
    pub bancontact: Option<PaymentMethodBancontact>,
    pub billing_details: BillingDetails,
    pub card: Option<PaymentMethodCard>,
    pub card_present: Option<PaymentMethodCardPresent>,
    pub eps: Option<PaymentMethodEps>,
    pub fpx: Option<PaymentMethodFpx>,
    pub giropay: Option<PaymentMethodGiropay>,
    pub grabpay: Option<PaymentMethodGrabpay>,
    pub ideal: Option<PaymentMethodIdeal>,
    pub interac_present: Option<PaymentMethodInteracPresent>,
    pub oxxo: Option<PaymentMethodOxxo>,
    pub p24: Option<PaymentMethodP24>,
    pub sepa_debit: Option<PaymentMethodSepaDebit>,
    pub sofort: Option<PaymentMethodSofort>,
    pub created: i64,
    pub livemode: bool,
    pub metadata: Option<Metadata7CCA3C>,
}

impl GetId for PaymentMethod {
    open spec fn has_id(&self) -> bool {
        true
    }

    open spec fn id_of(&self) -> String {
        self.id
    }

    fn get_id(&self) -> (r: String) {
        self.id.clone()
    }
}

/// Stripe API location: `payment_method.object`.
#[derive(Debug, Clone)]
pub enum UniStrObject8D07E7 {
    /// JSON value: `"payment_method"`.
    PaymentMethod,
}

/// Stripe API location: `payment_method.type`.
#[derive(Debug, Clone)]
pub enum UniStrType661F1A {
    /// JSON value: `"alipay"`.
    Alipay,
    /// JSON value: `"au_becs_debit"`.
    AuBecsDebit,
    /// JSON value: `"bacs_debit"`.
    BacsDebit,
    /// JSON value: `"bancontact"`.
    Bancontact,
    /// JSON value: `"card"`.
    Card,
    /// JSON value: `"card_present"`.
    CardPresent,
    /// JSON value: `"eps"`.
    Eps,
    /// JSON value: `"fpx"`.
    Fpx,
    /// JSON value: `"giropay"`.
    Giropay,
    /// JSON value: `"grabpay"`.
    Grabpay,
    /// JSON value: `"ideal"`.
    Ideal,
    /// JSON value: `"interac_present"`.
    InteracPresent,
    /// JSON value: `"oxxo"`.
    Oxxo,
    /// JSON value: `"p24"`.
    P24,
    /// JSON value: `"sepa_debit"`.
    SepaDebit,
    /// JSON value: `"sofort"`.
    Sofort,
}

/// Stripe API location: `payment_method_au_becs_debit`.
#[derive(Debug, Clone)]
pub struct PaymentMethodAuBecsDebit {
    pub bsb_number: Option<String>,
    pub fingerprint: Option<String>,
    pub last4: Option<String>,
}

/// Stripe API location: `payment_method_bacs_debit`.
#[derive(Debug, Clone)]
pub struct PaymentMethodBacsDebit {
    pub fingerprint: Option<String>,
    pub last4: Option<String>,
    pub sort_code: Option<String>,
}

/// Stripe API location: `payment_method_card`.
#[derive(Debug, Clone)]
pub struct PaymentMethodCard {
    pub brand: String,
    pub checks: Option<PaymentMethodCardChecks>,
    pub country: Option<String>,
    pub exp_month: i64,
    pub exp_year: i64,
    pub fingerprint: Option<String>,
    pub funding: String,
    pub generated_from: Option<PaymentMethodCardGeneratedCard>,
    pub last4: String,
    pub networks: Option<Networks>,
    pub three_d_secure_usage: Option<ThreeDSecureUsage>,
    pub wallet: Option<PaymentMethodCardWallet>,
}

/// Stripe API location: `payment_method_card_checks`.
#[derive(Debug, Clone)]
pub struct PaymentMethodCardChecks {
    pub address_line1_check: Option<String>,
    pub address_postal_code_check: Option<String>,
    pub cvc_check: Option<String>,
}

/// Stripe API location: `payment_method_card_generated_card`.
#[derive(Debug, Clone)]
pub struct PaymentMethodCardGeneratedCard {
    pub charge: Option<String>,
    pub payment_method_details: Option<CardGeneratedFromPaymentMethodDetails>,
}

/// Stripe API location: `payment_method_card_wallet`.
#[derive(Debug, Clone)]
pub struct PaymentMethodCardWallet {
    /// JSON key: `type`.
    pub type_x: UniStrType0A6777,
    pub amex_express_checkout: Option<PaymentMethodCardWalletAmexExpressCheckout>,
    pub apple_pay: Option<PaymentMethodCardWalletApplePay>,
    pub dynamic_last4: Option<String>,
    pub google_pay: Option<PaymentMethodCardWalletGooglePay>,
    pub masterpass: Option<PaymentMethodCardWalletMasterpass>,
    pub samsung_pay: Option<PaymentMethodCardWalletSamsungPay>,
    pub visa_checkout: Option<PaymentMethodCardWalletVisaCheckout>,
}

/// Stripe API location: `payment_method_card_wallet.type`, `payment_method_details_card_wallet.type`.
#[derive(Debug, Clone)]
pub enum UniStrType0A6777 {
    /// JSON value: `"amex_express_checkout"`.
    AmexExpressCheckout,
    /// JSON value: `"apple_pay"`.
    ApplePay,
    /// JSON value: `"google_pay"`.
    GooglePay,
    /// JSON value: `"masterpass"`.
    Masterpass,
    /// JSON value: `"samsung_pay"`.
    SamsungPay,
    /// JSON value: `"visa_checkout"`.
    VisaCheckout,
}

/// Stripe API location: `payment_method_card_wallet_masterpass`.
#[derive(Debug, Clone)]
pub struct PaymentMethodCardWalletMasterpass {
    pub name: Option<String>,
    pub billing_address: Option<Address>,
    pub email: Option<String>,
    pub shipping_address: Option<Address>,
}

/// Stripe API location: `payment_method_card_wallet_visa_checkout`.
#[derive(Debug, Clone)]
pub struct PaymentMethodCardWalletVisaCheckout {
    pub name: Option<String>,
    pub billing_address: Option<Address>,
    pub email: Option<String>,
    pub shipping_address: Option<Address>,
}

/// Stripe API location: `payment_method_details`.
#[derive(Debug)]
pub struct PaymentMethodDetails {
    /// JSON key: `type`.
    pub type_x: String,
    pub ach_credit_transfer: Option<PaymentMethodDetailsAchCreditTransfer>,
    pub ach_debit: Option<PaymentMethodDetailsAchDebit>,
    pub alipay: Option<PaymentFlowsPrivatePaymentMethodsAlipayDetails>,
    pub au_becs_debit: Option<PaymentMethodDetailsAuBecsDebit>,
    pub bacs_debit: Option<PaymentMethodDetailsBacsDebit>,
    pub bancontact: Option<PaymentMethodDetailsBancontact>,
    pub card: Option<PaymentMethodDetailsCard>,
    pub card_present: Option<PaymentMethodDetailsCardPresent>,
    pub eps: Option<PaymentMethodDetailsEps>,
    pub fpx: Option<PaymentMethodDetailsFpx>,
    pub giropay: Option<PaymentMethodDetailsGiropay>,
    pub grabpay: Option<PaymentMethodDetailsGrabpay>,
    pub ideal: Option<PaymentMethodDetailsIdeal>,
    pub interac_present: Option<PaymentMethodDetailsInteracPresent>,
    pub klarna: Option<PaymentMethodDetailsKlarna>,
    pub multibanco: Option<PaymentMethodDetailsMultibanco>,
    pub oxxo: Option<PaymentMethodDetailsOxxo>,
    pub p24: Option<PaymentMethodDetailsP24>,
    pub sepa_debit: Option<PaymentMethodDetailsSepaDebit>,
    pub sofort: Option<PaymentMethodDetailsSofort>,
    pub stripe_account: Option<PaymentMethodDetailsStripeAccount>,
    pub wechat: Option<PaymentMethodDetailsWechat>,
}

/// Stripe API location: `payment_method_details_ach_credit_transfer`.
#[derive(Debug, Clone)]
pub struct PaymentMethodDetailsAchCreditTransfer {
    pub account_number: Option<String>,
    pub bank_name: Option<String>,
    pub routing_number: Option<String>,
    pub swift_code: Option<String>,
}

/// Stripe API location: `payment_method_details_ach_debit`.
#[derive(Debug, Clone)]
pub struct PaymentMethodDetailsAchDebit {
    pub account_holder_type: Option<UniStrType947A77>,
    pub bank_name: Option<String>,
    pub country: Option<String>,
    pub fingerprint: Option<String>,
    pub last4: Option<String>,
    pub routing_number: Option<String>,
}

/// Stripe API location: `payment_method_details_au_becs_debit`.
#[derive(Debug, Clone)]
pub struct PaymentMethodDetailsAuBecsDebit {
    pub bsb_number: Option<String>,
    pub fingerprint: Option<String>,
    pub last4: Option<String>,
    pub mandate: Option<String>,
}

/// Stripe API location: `payment_method_details_bacs_debit`.
#[derive(Debug, Clone)]
pub struct PaymentMethodDetailsBacsDebit {
    pub fingerprint: Option<String>,
    pub last4: Option<String>,
    pub mandate: Option<String>,
    pub sort_code: Option<String>,
}

/// Stripe API location: `payment_method_details_bancontact`.
#[derive(Debug)]
pub struct PaymentMethodDetailsBancontact {
    pub generated_sepa_debit: Option<UniPaymentMethod>,
    pub generated_sepa_debit_mandate: Option<UniMandate>,
    pub bank_code: Option<String>,
    pub bank_name: Option<String>,
    pub bic: Option<String>,
    pub iban_last4: Option<String>,
    pub preferred_language: Option<UniStrPreferredLanguageD97AA3>,
    pub verified_name: Option<String>,
}

/// Stripe API location: `payment_method_details_bancontact.generated_sepa_debit_mandate`, `payment_method_details_ideal.generated_sepa_debit_mandate`, `payment_method_details_sofort.generated_sepa_debit_mandate` (and 5 more).
/// Encoded in JSON without a tag: the variant is chosen by the shape of the value.
#[derive(Debug)]
pub enum UniMandate {
    String(String),
    Mandate(Mandate),
}

/// Stripe API location: `payment_method_details_bancontact.preferred_language`, `payment_method_options_bancontact.preferred_language`, `setup_attempt_payment_method_details_bancontact.preferred_language` (and 1 more).
#[derive(Debug, Clone)]
pub enum UniStrPreferredLanguageD97AA3 {
    /// JSON value: `"de"`.
    De,
    /// JSON value: `"en"`.
    En,
    /// JSON value: `"fr"`.
    Fr,
    /// JSON value: `"nl"`.
    Nl,
}

/// Stripe API location: `payment_method_details_card`.
#[derive(Debug, Clone)]
pub struct PaymentMethodDetailsCard {
    pub brand: Option<String>,
    pub checks: Option<PaymentMethodDetailsCardChecks>,
    pub country: Option<String>,
    pub exp_month: i64,
    pub exp_year: i64,
    pub fingerprint: Option<String>,
    pub funding: Option<String>,
    pub installments: Option<PaymentMethodDetailsCardInstallments>,
    pub last4: Option<String>,
    pub network: Option<String>,
    pub three_d_secure: Option<ThreeDSecureDetails>,
    pub wallet: Option<PaymentMethodDetailsCardWallet>,
}

/// Stripe API location: `payment_method_details_card_checks`.
#[derive(Debug, Clone)]
pub struct PaymentMethodDetailsCardChecks {
    pub address_line1_check: Option<String>,
    pub address_postal_code_check: Option<String>,
    pub cvc_check: Option<String>,
}

/// Stripe API location: `payment_method_details_card_installments`.
#[derive(Debug, Clone)]
pub struct PaymentMethodDetailsCardInstallments {
    pub plan: Option<PaymentMethodDetailsCardInstallmentsPlan>,
}

/// Stripe API location: `payment_method_details_card_installments_plan`.
#[derive(Debug, Clone)]
pub struct PaymentMethodDetailsCardInstallmentsPlan {
    /// JSON key: `type`.
    pub type_x: UniStrType16A5D0,
    pub count: Option<i64>,
    pub interval: Option<UniStrIntervalC620AD>,
}

/// Stripe API location: `payment_method_details_card_installments_plan.interval`.
#[derive(Debug, Clone)]
pub enum UniStrIntervalC620AD {
    /// JSON value: `"month"`.
    Month,
}

/// Stripe API location: `payment_method_details_card_installments_plan.type`.
#[derive(Debug, Clone)]
pub enum UniStrType16A5D0 {
    /// JSON value: `"fixed_count"`.
    FixedCount,
}

/// Stripe API location: `payment_method_details_card_present`.
#[derive(Debug, Clone)]
pub struct PaymentMethodDetailsCardPresent {
    pub brand: Option<String>,
    pub cardholder_name: Option<String>,
    pub country: Option<String>,
    pub emv_auth_data: Option<String>,
    pub exp_month: i64,
    pub exp_year: i64,
    pub fingerprint: Option<String>,
    pub funding: Option<String>,
    pub generated_card: Option<String>,
    pub last4: Option<String>,
    pub network: Option<String>,
    pub read_method: Option<UniStrReadMethod>,
    pub receipt: Option<PaymentMethodDetailsCardPresentReceipt>,
}

/// Stripe API location: `payment_method_details_card_present.read_method`, `payment_method_details_interac_present.read_method`.
#[derive(Debug, Clone)]
pub enum UniStrReadMethod {
    /// JSON value: `"contact_emv"`.
    ContactEmv,
    /// JSON value: `"contactless_emv"`.
    ContactlessEmv,
    /// JSON value: `"contactless_magstripe_mode"`.
    ContactlessMagstripeMode,
    /// JSON value: `"magnetic_stripe_fallback"`.
    MagneticStripeFallback,
    /// JSON value: `"magnetic_stripe_track2"`.
    MagneticStripeTrack2,
}

/// Stripe API location: `payment_method_details_card_present_receipt`.
#[derive(Debug, Clone)]
pub struct PaymentMethodDetailsCardPresentReceipt {
    pub account_type: Option<UniStrAccountType769528>,
    pub application_cryptogram: Option<String>,
    pub application_preferred_name: Option<String>,
    pub authorization_code: Option<String>,
    pub authorization_response_code: Option<String>,
    pub cardholder_verification_method: Option<String>,
    pub dedicated_file_name: Option<String>,
    pub terminal_verification_results: Option<String>,
    pub transaction_status_information: Option<String>,
}

/// Stripe API location: `payment_method_details_card_present_receipt.account_type`.
#[derive(Debug, Clone)]
pub enum UniStrAccountType769528 {
    /// JSON value: `"checking"`.
    Checking,
    /// JSON value: `"credit"`.
    Credit,
    /// JSON value: `"prepaid"`.
    Prepaid,
    /// JSON value: `"unknown"`.
    Unknown,
}

/// Stripe API location: `payment_method_details_card_wallet`.
#[derive(Debug, Clone)]
pub struct PaymentMethodDetailsCardWallet {
    /// JSON key: `type`.
    pub type_x: UniStrType0A6777,
    pub amex_express_checkout: Option<PaymentMethodDetailsCardWalletAmexExpressCheckout>,
    pub apple_pay: Option<PaymentMethodDetailsCardWalletApplePay>,
    pub dynamic_last4: Option<String>,
    pub google_pay: Option<PaymentMethodDetailsCardWalletGooglePay>,
    pub masterpass: Option<PaymentMethodDetailsCardWalletMasterpass>,
    pub samsung_pay: Option<PaymentMethodDetailsCardWalletSamsungPay>,
    pub visa_checkout: Option<PaymentMethodDetailsCardWalletVisaCheckout>,
}

/// Stripe API location: `payment_method_details_card_wallet_masterpass`.
#[derive(Debug, Clone)]
pub struct PaymentMethodDetailsCardWalletMasterpass {
    pub name: Option<String>,
    pub billing_address: Option<Address>,
    pub email: Option<String>,
    pub shipping_address: Option<Address>,
}

/// Stripe API location: `payment_method_details_card_wallet_visa_checkout`.
#[derive(Debug, Clone)]
pub struct PaymentMethodDetailsCardWalletVisaCheckout {
    pub name: Option<String>,
    pub billing_address: Option<Address>,
    pub email: Option<String>,
    pub shipping_address: Option<Address>,
}

/// Stripe API location: `payment_method_details_eps`.
#[derive(Debug, Clone)]
pub struct PaymentMethodDetailsEps {
    pub verified_name: Option<String>,
}

/// Stripe API location: `payment_method_details_fpx`.
#[derive(Debug, Clone)]
pub struct PaymentMethodDetailsFpx {
    pub transaction_id: Option<String>,
    pub bank: UniStrBank211045,
}

/// Stripe API location: `payment_method_details_fpx.bank`, `payment_method_fpx.bank`.
#[derive(Debug, Clone)]
pub enum UniStrBank211045 {
    /// JSON value: `"affin_bank"`.
    AffinBank,
    /// JSON value: `"alliance_bank"`.
    AllianceBank,
    /// JSON value: `"ambank"`.
    Ambank,
    /// JSON value: `"bank_islam"`.
    BankIslam,
    /// JSON value: `"bank_muamalat"`.
    BankMuamalat,
    /// JSON value: `"bank_rakyat"`.
    BankRakyat,
    /// JSON value: `"bsn"`.
    Bsn,
    /// JSON value: `"cimb"`.
    Cimb,
    /// JSON value: `"deutsche_bank"`.
    DeutscheBank,
    /// JSON value: `"hong_leong_bank"`.
    HongLeongBank,
    /// JSON value: `"hsbc"`.
    Hsbc,
    /// JSON value: `"kfh"`.
    Kfh,
    /// JSON value: `"maybank2e"`.
    Maybank2e,
    /// JSON value: `"maybank2u"`.
    Maybank2u,
    /// JSON value: `"ocbc"`.
    Ocbc,
    /// JSON value: `"pb_enterprise"`.
    PbEnterprise,
    /// JSON value: `"public_bank"`.
    PublicBank,
    /// JSON value: `"rhb"`.
    Rhb,
    /// JSON value: `"standard_chartered"`.
    StandardChartered,
    /// JSON value: `"uob"`.
    Uob,
}

/// Stripe API location: `payment_method_details_giropay`.
#[derive(Debug, Clone)]
pub struct PaymentMethodDetailsGiropay {
    pub bank_code: Option<String>,
    pub bank_name: Option<String>,
    pub bic: Option<String>,
    pub verified_name: Option<String>,
}

/// Stripe API location: `payment_method_details_grabpay`.
#[derive(Debug, Clone)]
pub struct PaymentMethodDetailsGrabpay {
    pub transaction_id: Option<String>,
}

/// Stripe API location: `payment_method_details_ideal`.
#[derive(Debug)]
pub struct PaymentMethodDetailsIdeal {
    pub generated_sepa_debit: Option<UniPaymentMethod>,
    pub generated_sepa_debit_mandate: Option<UniMandate>,
    pub bank: Option<UniStrBank3AE87A>,
    pub bic: Option<UniStrBic>,
    pub iban_last4: Option<String>,
    pub verified_name: Option<String>,
}

/// Stripe API location: `payment_method_details_ideal.bank`, `payment_method_ideal.bank`, `setup_attempt_payment_method_details_ideal.bank`.
#[derive(Debug, Clone)]
pub enum UniStrBank3AE87A {
    /// JSON value: `"abn_amro"`.
    AbnAmro,
    /// JSON value: `"asn_bank"`.
    AsnBank,
    /// JSON value: `"bunq"`.
    Bunq,
    /// JSON value: `"handelsbanken"`.
    Handelsbanken,
    /// JSON value: `"ing"`.
    Ing,
    /// JSON value: `"knab"`.
    Knab,
    /// JSON value: `"moneyou"`.
    Moneyou,
    /// JSON value: `"rabobank"`.
    Rabobank,
    /// JSON value: `"regiobank"`.
    Regiobank,
    /// JSON value: `"sns_bank"`.
    SnsBank,
    /// JSON value: `"triodos_bank"`.
    TriodosBank,
    /// JSON value: `"van_lanschot"`.
    VanLanschot,
}

/// Stripe API location: `payment_method_details_ideal.bic`, `payment_method_ideal.bic`, `setup_attempt_payment_method_details_ideal.bic`.
#[derive(Debug, Clone)]
pub enum UniStrBic {
    /// JSON value: `"ABNANL2A"`.
    ABNANL2A,
    /// JSON value: `"ASNBNL21"`.
    ASNBNL21,
    /// JSON value: `"BUNQNL2A"`.
    BUNQNL2A,
    /// JSON value: `"FVLBNL22"`.
    FVLBNL22,
    /// JSON value: `"HANDNL2A"`.
    HANDNL2A,
    /// JSON value: `"INGBNL2A"`.
    INGBNL2A,
    /// JSON value: `"KNABNL2H"`.
    KNABNL2H,
    /// JSON value: `"MOYONL21"`.
    MOYONL21,
    /// JSON value: `"RABONL2U"`.
    RABONL2U,
    /// JSON value: `"RBRBNL21"`.
    RBRBNL21,
    /// JSON value: `"SNSBNL2A"`.
    SNSBNL2A,
    /// JSON value: `"TRIONL2U"`.
    TRIONL2U,
}

/// Stripe API location: `payment_method_details_interac_present`.
#[derive(Debug, Clone)]
pub struct PaymentMethodDetailsInteracPresent {
    pub brand: Option<String>,
    pub cardholder_name: Option<String>,
    pub country: Option<String>,
    pub emv_auth_data: Option<String>,
    pub exp_month: i64,
    pub exp_year: i64,
    pub fingerprint: Option<String>,
    pub funding: Option<String>,
    pub generated_card: Option<String>,
    pub last4: Option<String>,
    pub network: Option<String>,
    pub preferred_locales: Option<Vec<String>>,
    pub read_method: Option<UniStrReadMethod>,
    pub receipt: Option<PaymentMethodDetailsInteracPresentReceipt>,
}

/// Stripe API location: `payment_method_details_interac_present_receipt`.
#[derive(Debug, Clone)]
pub struct PaymentMethodDetailsInteracPresentReceipt {
    pub account_type: Option<UniStrAccountTypeE55AAC>,
    pub application_cryptogram: Option<String>,
    pub application_preferred_name: Option<String>,
    pub authorization_code: Option<String>,
    pub authorization_response_code: Option<String>,
    pub cardholder_verification_method: Option<String>,
    pub dedicated_file_name: Option<String>,
    pub terminal_verification_results: Option<String>,
    pub transaction_status_information: Option<String>,
}

/// Stripe API location: `payment_method_details_interac_present_receipt.account_type`.
#[derive(Debug, Clone)]
pub enum UniStrAccountTypeE55AAC {
    /// JSON value: `"checking"`.
    Checking,
    /// JSON value: `"savings"`.
    Savings,
    /// JSON value: `"unknown"`.
    Unknown,
}

/// Stripe API location: `payment_method_details_multibanco`.
#[derive(Debug, Clone)]
pub struct PaymentMethodDetailsMultibanco {
    pub entity: Option<String>,
    pub reference: Option<String>,
}

/// Stripe API location: `payment_method_details_oxxo`.
#[derive(Debug, Clone)]
pub struct PaymentMethodDetailsOxxo {
    pub number: Option<String>,
}

/// Stripe API location: `payment_method_details_p24`.
#[derive(Debug, Clone)]
pub struct PaymentMethodDetailsP24 {
    pub reference: Option<String>,
    pub verified_name: Option<String>,
}

/// Stripe API location: `payment_method_details_sepa_debit`.
#[derive(Debug, Clone)]
pub struct PaymentMethodDetailsSepaDebit {
    pub bank_code: Option<String>,
    pub branch_code: Option<String>,
    pub country: Option<String>,
    pub fingerprint: Option<String>,
    pub last4: Option<String>,
    pub mandate: Option<String>,
}

/// Stripe API location: `payment_method_details_sofort`.
#[derive(Debug)]
pub struct PaymentMethodDetailsSofort {
    pub generated_sepa_debit: Option<UniPaymentMethod>,
    pub generated_sepa_debit_mandate: Option<UniMandate>,
    pub bank_code: Option<String>,
    pub bank_name: Option<String>,
    pub bic: Option<String>,
    pub country: Option<String>,
    pub iban_last4: Option<String>,
    pub preferred_language: Option<UniStrPreferredLanguage5C252C>,
    pub verified_name: Option<String>,
}

/// Stripe API location: `payment_method_details_sofort.preferred_language`, `payment_method_options_sofort.preferred_language`.
#[derive(Debug, Clone)]
pub enum UniStrPreferredLanguage5C252C {
    /// JSON value: `"de"`.
    De,
    /// JSON value: `"en"`.
    En,
    /// JSON value: `"es"`.
    Es,
    /// JSON value: `"fr"`.
    Fr,
    /// JSON value: `"it"`.
    It,
    /// JSON value: `"nl"`.
    Nl,
    /// JSON value: `"pl"`.
    Pl,
}

/// Stripe API location: `payment_method_fpx`.
#[derive(Debug, Clone)]
pub struct PaymentMethodFpx {
    pub bank: UniStrBank211045,
}

/// Stripe API location: `payment_method_ideal`.
#[derive(Debug, Clone)]
pub struct PaymentMethodIdeal {
    pub bank: Option<UniStrBank3AE87A>,
    pub bic: Option<UniStrBic>,
}

/// Stripe API location: `payment_method_options_bancontact`.
#[derive(Debug, Clone)]
pub struct PaymentMethodOptionsBancontact {
    pub preferred_language: UniStrPreferredLanguageD97AA3,
}

/// Stripe API location: `payment_method_options_card_installments`.
#[derive(Debug, Clone)]
pub struct PaymentMethodOptionsCardInstallments {
    pub available_plans: Option<Vec<PaymentMethodDetailsCardInstallmentsPlan>>,
    pub enabled: bool,
    pub plan: Option<PaymentMethodDetailsCardInstallmentsPlan>,
}

/// Stripe API location: `payment_method_options_oxxo`.
#[derive(Debug, Clone)]
pub struct PaymentMethodOptionsOxxo {
    pub expires_after_days: i64,
}

/// Stripe API location: `payment_method_options_sofort`.
#[derive(Debug, Clone)]
pub struct PaymentMethodOptionsSofort {
    pub preferred_language: Option<UniStrPreferredLanguage5C252C>,
}

/// Stripe API location: `payment_method_p24`.
#[derive(Debug, Clone)]
pub struct PaymentMethodP24 {
    pub bank: Option<UniStrBank>,
}

/// Stripe API location: `payment_method_p24.bank`.
#[derive(Debug, Clone)]
pub enum UniStrBank {
    /// JSON value: `"alior_bank"`.
    AliorBank,
    /// JSON value: `"bank_millennium"`.
    BankMillennium,
    /// JSON value: `"bank_nowy_bfg_sa"`.
    BankNowyBfgSa,
    /// JSON value: `"bank_pekao_sa"`.
    BankPekaoSa,
    /// JSON value: `"banki_spbdzielcze"`.
    BankiSpbdzielcze,
    /// JSON value: `"blik"`.
    Blik,
    /// JSON value: `"bnp_paribas"`.
    BnpParibas,
    /// JSON value: `"boz"`.
    Boz,
    /// JSON value: `"citi_handlowy"`.
    CitiHandlowy,
    /// JSON value: `"credit_agricole"`.
    CreditAgricole,
    /// JSON value: `"envelobank"`.
    Envelobank,
    /// JSON value: `"etransfer_pocztowy24"`.
    EtransferPocztowy24,
    /// JSON value: `"getin_bank"`.
    GetinBank,
    /// JSON value: `"ideabank"`.
    Ideabank,
    /// JSON value: `"ing"`.
    Ing,
    /// JSON value: `"inteligo"`.
    Inteligo,
    /// JSON value: `"mbank_mtransfer"`.
    MbankMtransfer,
    /// JSON value: `"nest_przelew"`.
    NestPrzelew,
    /// JSON value: `"noble_pay"`.
    NoblePay,
    /// JSON value: `"pbac_z_ipko"`.
    PbacZIpko,
    /// JSON value: `"plus_bank"`.
    PlusBank,
    /// JSON value: `"santander_przelew24"`.
    SantanderPrzelew24,
    /// JSON value: `"tmobile_usbugi_bankowe"`.
    TmobileUsbugiBankowe,
    /// JSON value: `"toyota_bank"`.
    ToyotaBank,
    /// JSON value: `"volkswagen_bank"`.
    VolkswagenBank,
}

/// Stripe API location: `payment_method_sepa_debit`.
#[derive(Debug)]
pub struct PaymentMethodSepaDebit {
    pub bank_code: Option<String>,
    pub branch_code: Option<String>,
    pub country: Option<String>,
    pub fingerprint: Option<String>,
    pub generated_from: Option<SepaDebitGeneratedFrom>,
    pub last4: Option<String>,
}

/// Stripe API location: `payment_method_sofort`.
#[derive(Debug, Clone)]
pub struct PaymentMethodSofort {
    pub country: Option<String>,
}

/// Stripe API location: `payment_pages_checkout_session_total_details`.
#[derive(Debug)]
pub struct PaymentPagesCheckoutSessionTotalDetails {
    pub amount_discount: i64,
    pub amount_tax: i64,
    pub breakdown: Option<PaymentPagesCheckoutSessionTotalDetailsResourceBreakdown>,
}

/// Stripe API location: `payment_pages_checkout_session_total_details_resource_breakdown`.
#[derive(Debug)]
pub struct PaymentPagesCheckoutSessionTotalDetailsResourceBreakdown {
    pub discounts: Vec<LineItemsDiscountAmount>,
    pub taxes: Vec<LineItemsTaxAmount>,
}

/// Stripe API location: `payment_pages_payment_page_resources_shipping_address_collection`.
#[derive(Debug, Clone)]
pub struct PaymentPagesPaymentPageResourcesShippingAddressCollection {
    pub allowed_countries: Vec<UniStrItems670930>,
}

/// Stripe API location: `payment_pages_payment_page_resources_shipping_address_collection.allowed_countries.items`.
#[derive(Debug, Clone)]
pub enum UniStrItems670930 {
    /// JSON value: `"AC"`.
    AC,
    /// JSON value: `"AD"`.
    AD,
    /// JSON value: `"AE"`.
    AE,
    /// JSON value: `"AF"`.
    AF,
    /// JSON value: `"AG"`.
    AG,
    /// JSON value: `"AI"`.
    AI,
    /// JSON value: `"AL"`.
    AL,
    /// JSON value: `"AM"`.
    AM,
    /// JSON value: `"AO"`.
    AO,
    /// JSON value: `"AQ"`.
    AQ,
    /// JSON value: `"AR"`.
    AR,
    /// JSON value: `"AT"`.
    AT,
    /// JSON value: `"AU"`.
    AU,
    /// JSON value: `"AW"`.
    AW,
    /// JSON value: `"AX"`.
    AX,
    /// JSON value: `"AZ"`.
    AZ,
    /// JSON value: `"BA"`.
    BA,
    /// JSON value: `"BB"`.
    BB,
    /// JSON value: `"BD"`.
    BD,
    /// JSON value: `"BE"`.
    BE,
    /// JSON value: `"BF"`.
    BF,
    /// JSON value: `"BG"`.
    BG,
    /// JSON value: `"BH"`.
    BH,
    /// JSON value: `"BI"`.
    BI,
    /// JSON value: `"BJ"`.
    BJ,
    /// JSON value: `"BL"`.
    BL,
    /// JSON value: `"BM"`.
    BM,
    /// JSON value: `"BN"`.
    BN,
    /// JSON value: `"BO"`.
    BO,
    /// JSON value: `"BQ"`.
    BQ,
    /// JSON value: `"BR"`.
    BR,
    /// JSON value: `"BS"`.
    BS,
    /// JSON value: `"BT"`.
    BT,
    /// JSON value: `"BV"`.
    BV,
    /// JSON value: `"BW"`.
    BW,
    /// JSON value: `"BY"`.
    BY,
    /// JSON value: `"BZ"`.
    BZ,
    /// JSON value: `"CA"`.
    CA,
    /// JSON value: `"CD"`.
    CD,
    /// JSON value: `"CF"`.
    CF,
    /// JSON value: `"CG"`.
    CG,
    /// JSON value: `"CH"`.
    CH,
    /// JSON value: `"CI"`.
    CI,
    /// JSON value: `"CK"`.
    CK,
    /// JSON value: `"CL"`.
    CL,
    /// JSON value: `"CM"`.
    CM,
    /// JSON value: `"CN"`.
    CN,
    /// JSON value: `"CO"`.
    CO,
    /// JSON value: `"CR"`.
    CR,
    /// JSON value: `"CV"`.
    CV,
    /// JSON value: `"CW"`.
    CW,
    /// JSON value: `"CY"`.
    CY,
    /// JSON value: `"CZ"`.
    CZ,
    /// JSON value: `"DE"`.
    DE,
    /// JSON value: `"DJ"`.
    DJ,
    /// JSON value: `"DK"`.
    DK,
    /// JSON value: `"DM"`.
    DM,
    /// JSON value: `"DO"`.
    DO,
    /// JSON value: `"DZ"`.
    DZ,
    /// JSON value: `"EC"`.
    EC,
    /// JSON value: `"EE"`.
    EE,
    /// JSON value: `"EG"`.
    EG,
    /// JSON value: `"EH"`.
    EH,
    /// JSON value: `"ER"`.
    ER,
    /// JSON value: `"ES"`.
    ES,
    /// JSON value: `"ET"`.
    ET,
    /// JSON value: `"FI"`.
    FI,
    /// JSON value: `"FJ"`.
    FJ,
    /// JSON value: `"FK"`.
    FK,
    /// JSON value: `"FO"`.
    FO,
    /// JSON value: `"FR"`.
    FR,
    /// JSON value: `"GA"`.
    GA,
    /// JSON value: `"GB"`.
    GB,
    /// JSON value: `"GD"`.
    GD,
    /// JSON value: `"GE"`.
    GE,
    /// JSON value: `"GF"`.
    GF,
    /// JSON value: `"GG"`.
    GG,
    /// JSON value: `"GH"`.
    GH,
    /// JSON value: `"GI"`.
    GI,
    /// JSON value: `"GL"`.
    GL,
    /// JSON value: `"GM"`.
    GM,
    /// JSON value: `"GN"`.
    GN,
    /// JSON value: `"GP"`.
    GP,
    /// JSON value: `"GQ"`.
    GQ,
    /// JSON value: `"GR"`.
    GR,
    /// JSON value: `"GS"`.
    GS,
    /// JSON value: `"GT"`.
    GT,
    /// JSON value: `"GU"`.
    GU,
    /// JSON value: `"GW"`.
    GW,
    /// JSON value: `"GY"`.
    GY,
    /// JSON value: `"HK"`.
    HK,
    /// JSON value: `"HN"`.
    HN,
    /// JSON value: `"HR"`.
    HR,
    /// JSON value: `"HT"`.
    HT,
    /// JSON value: `"HU"`.
    HU,
    /// JSON value: `"ID"`.
    ID,
    /// JSON value: `"IE"`.
    IE,
    /// JSON value: `"IL"`.
    IL,
    /// JSON value: `"IM"`.
    IM,
    /// JSON value: `"IN"`.
    IN,
    /// JSON value: `"IO"`.
    IO,
    /// JSON value: `"IQ"`.
    IQ,
    /// JSON value: `"IS"`.
    IS,
    /// JSON value: `"IT"`.
    IT,
    /// JSON value: `"JE"`.
    JE,
    /// JSON value: `"JM"`.
    JM,
    /// JSON value: `"JO"`.
    JO,
    /// JSON value: `"JP"`.
    JP,
    /// JSON value: `"KE"`.
    KE,
    /// JSON value: `"KG"`.
    KG,
    /// JSON value: `"KH"`.
    KH,
    /// JSON value: `"KI"`.
    KI,
    /// JSON value: `"KM"`.
    KM,
    /// JSON value: `"KN"`.
    KN,
    /// JSON value: `"KR"`.
    KR,
    /// JSON value: `"KW"`.
    KW,
    /// JSON value: `"KY"`.
    KY,
    /// JSON value: `"KZ"`.
    KZ,
    /// JSON value: `"LA"`.
    LA,
    /// JSON value: `"LB"`.
    LB,
    /// JSON value: `"LC"`.
    LC,
    /// JSON value: `"LI"`.
    LI,
    /// JSON value: `"LK"`.
    LK,
    /// JSON value: `"LR"`.
    LR,
    /// JSON value: `"LS"`.
    LS,
    /// JSON value: `"LT"`.
    LT,
    /// JSON value: `"LU"`.
    LU,
    /// JSON value: `"LV"`.
    LV,
    /// JSON value: `"LY"`.
    LY,
    /// JSON value: `"MA"`.
    MA,
    /// JSON value: `"MC"`.
    MC,
    /// JSON value: `"MD"`.
    MD,
    /// JSON value: `"ME"`.
    ME,
    /// JSON value: `"MF"`.
    MF,
    /// JSON value: `"MG"`.
    MG,
    /// JSON value: `"MK"`.
    MK,
    /// JSON value: `"ML"`.
    ML,
    /// JSON value: `"MM"`.
    MM,
    /// JSON value: `"MN"`.
    MN,
    /// JSON value: `"MO"`.
    MO,
    /// JSON value: `"MQ"`.
    MQ,
    /// JSON value: `"MR"`.
    MR,
    /// JSON value: `"MS"`.
    MS,
    /// JSON value: `"MT"`.
    MT,
    /// JSON value: `"MU"`.
    MU,
    /// JSON value: `"MV"`.
    MV,
    /// JSON value: `"MW"`.
    MW,
    /// JSON value: `"MX"`.
    MX,
    /// JSON value: `"MY"`.
    MY,
    /// JSON value: `"MZ"`.
    MZ,
    /// JSON value: `"NA"`.
    NA,
    /// JSON value: `"NC"`.
    NC,
    /// JSON value: `"NE"`.
    NE,
    /// JSON value: `"NG"`.
    NG,
    /// JSON value: `"NI"`.
    NI,
    /// JSON value: `"NL"`.
    NL,
    /// JSON value: `"NO"`.
    NO,
    /// JSON value: `"NP"`.
    NP,
    /// JSON value: `"NR"`.
    NR,
    /// JSON value: `"NU"`.
    NU,
    /// JSON value: `"NZ"`.
    NZ,
    /// JSON value: `"OM"`.
    OM,
    /// JSON value: `"PA"`.
    PA,
    /// JSON value: `"PE"`.
    PE,
    /// JSON value: `"PF"`.
    PF,
    /// JSON value: `"PG"`.
    PG,
    /// JSON value: `"PH"`.
    PH,
    /// JSON value: `"PK"`.
    PK,
    /// JSON value: `"PL"`.
    PL,
    /// JSON value: `"PM"`.
    PM,
    /// JSON value: `"PN"`.
    PN,
    /// JSON value: `"PR"`.
    PR,
    /// JSON value: `"PS"`.
    PS,
    /// JSON value: `"PT"`.
    PT,
    /// JSON value: `"PY"`.
    PY,
    /// JSON value: `"QA"`.
    QA,
    /// JSON value: `"RE"`.
    RE,
    /// JSON value: `"RO"`.
    RO,
    /// JSON value: `"RS"`.
    RS,
    /// JSON value: `"RU"`.
    RU,
    /// JSON value: `"RW"`.
    RW,
    /// JSON value: `"SA"`.
    SA,
    /// JSON value: `"SB"`.
    SB,
    /// JSON value: `"SC"`.
    SC,
    /// JSON value: `"SE"`.
    SE,
    /// JSON value: `"SG"`.
    SG,
    /// JSON value: `"SH"`.
    SH,
    /// JSON value: `"SI"`.
    SI,
    /// JSON value: `"SJ"`.
    SJ,
    /// JSON value: `"SK"`.
    SK,
    /// JSON value: `"SL"`.
    SL,
    /// JSON value: `"SM"`.
    SM,
    /// JSON value: `"SN"`.
    SN,
    /// JSON value: `"SO"`.
    SO,
    /// JSON value: `"SR"`.
    SR,
    /// JSON value: `"SS"`.
    SS,
    /// JSON value: `"ST"`.
    ST,
    /// JSON value: `"SV"`.
    SV,
    /// JSON value: `"SX"`.
    SX,
    /// JSON value: `"SZ"`.
    SZ,
    /// JSON value: `"TA"`.
    TA,
    /// JSON value: `"TC"`.
    TC,
    /// JSON value: `"TD"`.
    TD,
    /// JSON value: `"TF"`.
    TF,
    /// JSON value: `"TG"`.
    TG,
    /// JSON value: `"TH"`.
    TH,
    /// JSON value: `"TJ"`.
    TJ,
    /// JSON value: `"TK"`.
    TK,
    /// JSON value: `"TL"`.
    TL,
    /// JSON value: `"TM"`.
    TM,
    /// JSON value: `"TN"`.
    TN,
    /// JSON value: `"TO"`.
    TO,
    /// JSON value: `"TR"`.
    TR,
    /// JSON value: `"TT"`.
    TT,
    /// JSON value: `"TV"`.
    TV,
    /// JSON value: `"TW"`.
    TW,
    /// JSON value: `"TZ"`.
    TZ,
    /// JSON value: `"UA"`.
    UA,
    /// JSON value: `"UG"`.
    UG,
    /// JSON value: `"US"`.
    US,
    /// JSON value: `"UY"`.
    UY,
    /// JSON value: `"UZ"`.
    UZ,
    /// JSON value: `"VA"`.
    VA,
    /// JSON value: `"VC"`.
    VC,
    /// JSON value: `"VE"`.
    VE,
    /// JSON value: `"VG"`.
    VG,
    /// JSON value: `"VN"`.
    VN,
    /// JSON value: `"VU"`.
    VU,
    /// JSON value: `"WF"`.
    WF,
    /// JSON value: `"WS"`.
    WS,
    /// JSON value: `"XK"`.
    XK,
    /// JSON value: `"YE"`.
    YE,
    /// JSON value: `"YT"`.
    YT,
    /// JSON value: `"ZA"`.
    ZA,
    /// JSON value: `"ZM"`.
    ZM,
    /// JSON value: `"ZW"`.
    ZW,
    /// JSON value: `"ZZ"`.
    ZZ,
}

/// Stripe API location: `payment_source`.
/// Encoded in JSON without a tag: the variant is chosen by the shape of the value.
#[derive(Debug)]
pub enum UniPolymorphic {
    Account(Account),
    AlipayAccount(AlipayAccount),
    BankAccount(BankAccount),
    BitcoinReceiver(BitcoinReceiver),
    Card(Box<Card>),
    Source(Source),
}

/// Stripe API location: `payout`.
#[derive(Debug)]
pub struct Payout {
    pub object: UniStrObject736393,
    /// JSON key: `type`.
    pub type_x: UniStrTypeB8E5F5,
    pub id: String,
    pub balance_transaction: Option<UniBalanceTransaction>,
    pub destination: Option<UniDestination>,
    pub failure_balance_transaction: Option<UniBalanceTransaction>,
    pub original_payout: Option<UniReversedBy>,
    pub reversed_by: Option<UniReversedBy>,
    pub amount: i64,
    pub arrival_date: i64,
    pub automatic: bool,
    pub currency: String,
    pub description: Option<String>,
    pub failure_code: Option<String>,
    pub failure_message: Option<String>,
    pub method: String,
    pub source_type: String,
    pub statement_descriptor: Option<String>,
    pub status: String,
    pub created: i64,
    pub livemode: bool,
    pub metadata: Option<Metadata7CCA3C>,
}

impl GetId for Payout {
    open spec fn has_id(&self) -> bool {
        true
    }

    open spec fn id_of(&self) -> String {
        self.id
    }

    fn get_id(&self) -> (r: String) {
        self.id.clone()
    }
}

/// Stripe API location: `payout.destination`.
/// Encoded in JSON without a tag: the variant is chosen by the shape of the value.
#[derive(Debug)]
pub enum UniDestination {
    String(String),
    BankAccount(BankAccount),
    Card(Box<Card>),
    DeletedBankAccount(DeletedBankAccount),
    DeletedCard(DeletedCard),
}

/// Stripe API location: `payout.object`.
#[derive(Debug, Clone)]
pub enum UniStrObject736393 {
    /// JSON value: `"payout"`.
    Payout,
}

/// Stripe API location: `payout.original_payout`, `payout.reversed_by`.
/// Encoded in JSON without a tag: the variant is chosen by the shape of the value.
#[derive(Debug)]
pub enum UniReversedBy {
    String(String),
    Payout(Box<Payout>),
}

/// Stripe API location: `payout.type`.
#[derive(Debug, Clone)]
pub enum UniStrTypeB8E5F5 {
    /// JSON value: `"bank_account"`.
    BankAccount,
    /// JSON value: `"card"`.
    Card,
}

/// Stripe API location: `period`.
#[derive(Debug, Clone)]
pub struct Period640F9C {
    pub end: Option<i64>,
    pub start: Option<i64>,
}

/// Stripe API location: `person`.
#[derive(Debug)]
pub struct Person {
    pub object: UniStrObjectAFEDA0,
    pub id: String,
    pub account: String,
    pub address: Option<Address>,
    pub address_kana: Option<LegalEntityJapanAddress>,
    pub address_kanji: Option<LegalEntityJapanAddress>,
    pub dob: Option<LegalEntityDOB>,
    pub email: Option<String>,
    pub first_name: Option<String>,
    pub first_name_kana: Option<String>,
    pub first_name_kanji: Option<String>,
    pub gender: Option<String>,
    pub id_number_provided: Option<bool>,
    pub last_name: Option<String>,
    pub last_name_kana: Option<String>,
    pub last_name_kanji: Option<String>,
    pub maiden_name: Option<String>,
    pub phone: Option<String>,
    pub political_exposure: Option<UniStrPoliticalExposure>,
    pub relationship: Option<PersonRelationship>,
    pub requirements: Option<PersonRequirements>,
    pub ssn_last_4_provided: Option<bool>,
    pub verification: Option<LegalEntityPersonVerification>,
    pub created: i64,
    pub metadata: Option<Metadata8076DB>,
}

impl GetId for Person {
    open spec fn has_id(&self) -> bool {
        true
    }

    open spec fn id_of(&self) -> String {
        self.id
    }

    fn get_id(&self) -> (r: String) {
        self.id.clone()
    }
}

/// Stripe API location: `person.political_exposure`.
#[derive(Debug, Clone)]
pub enum UniStrPoliticalExposure {
    /// JSON value: `"existing"`.
    Existing,
    /// JSON value: `"none"`.
    NoneX,
}

/// Stripe API location: `person_relationship`.
#[derive(Debug, Clone)]
pub struct PersonRelationship {
    pub director: Option<bool>,
    pub executive: Option<bool>,
    pub owner: Option<bool>,
    pub percent_ownership: Option<F64Bits>,
    pub representative: Option<bool>,
    pub title: Option<String>,
}

/// Stripe API location: `person_requirements`.
#[derive(Debug, Clone)]
pub struct PersonRequirements {
    pub currently_due: Vec<String>,
    pub errors: Vec<AccountRequirementsError>,
    pub eventually_due: Vec<String>,
    pub past_due: Vec<String>,
    pub pending_verification: Vec<String>,
}

/// Stripe API location: `plan`.
#[derive(Debug, Clone)]
pub struct Plan {
    pub object: UniStrObjectB95344,
    pub id: String,
    pub product: Option<UniProduct297E1E>,
    pub active: bool,
    pub aggregate_usage: Option<UniStrAggregateUsage>,
    pub amount: Option<i64>,
    pub amount_decimal: Option<String>,
    pub billing_scheme: UniStrBillingScheme,
    pub currency: String,
    pub interval: UniStrInterval,
    pub interval_count: i64,
    pub nickname: Option<String>,
    pub tiers: Option<Vec<PlanTier>>,
    pub tiers_mode: Option<UniStrTiersMode>,
    pub transform_usage: Option<TransformUsage>,
    pub trial_period_days: Option<i64>,
    pub usage_type: UniStrUsageType,
    pub created: i64,
    pub livemode: bool,
    pub metadata: Option<Metadata7CCA3C>,
}

impl GetId for Plan {
    open spec fn has_id(&self) -> bool {
        true
    }

    open spec fn id_of(&self) -> String {
        self.id
    }

    fn get_id(&self) -> (r: String) {
        self.id.clone()
    }
}

/// Stripe API location: `plan.aggregate_usage`, `recurring.aggregate_usage`.
#[derive(Debug, Clone)]
pub enum UniStrAggregateUsage {
    /// JSON value: `"last_during_period"`.
    LastDuringPeriod,
    /// JSON value: `"last_ever"`.
    LastEver,
    /// JSON value: `"max"`.
    Max,
    /// JSON value: `"sum"`.
    Sum,
}

/// Stripe API location: `plan.billing_scheme`, `price.billing_scheme`.
#[derive(Debug, Clone)]
pub enum UniStrBillingScheme {
    /// JSON value: `"per_unit"`.
    PerUnit,
    /// JSON value: `"tiered"`.
    Tiered,
}

/// Stripe API location: `plan.product`, `price.product`.
/// Encoded in JSON without a tag: the variant is chosen by the shape of the value.
#[derive(Debug, Clone)]
pub enum UniProduct297E1E {
    String(String),
    Product(Product),
    DeletedProduct(DeletedProduct),
}

/// Stripe API location: `plan.tiers_mode`, `price.tiers_mode`.
#[derive(Debug, Clone)]
pub enum UniStrTiersMode {
    /// JSON value: `"graduated"`.
    Graduated,
    /// JSON value: `"volume"`.
    Volume,
}

/// Stripe API location: `plan_tier`.
#[derive(Debug, Clone)]
pub struct PlanTier {
    pub flat_amount: Option<i64>,
    pub flat_amount_decimal: Option<String>,
    pub unit_amount: Option<i64>,
    pub unit_amount_decimal: Option<String>,
    pub up_to: Option<i64>,
}

/// Stripe API location: `platform_tax_fee`.
#[derive(Debug, Clone)]
pub struct PlatformTax {
    pub object: UniStrObject1A472C,
    /// JSON key: `type`.
    pub type_x: String,
    pub id: String,
    pub account: String,
    pub source_transaction: String,
}

impl GetId for PlatformTax {
    open spec fn has_id(&self) -> bool {
        true
    }

    open spec fn id_of(&self) -> String {
        self.id
    }

    fn get_id(&self) -> (r: String) {
        self.id.clone()
    }
}

/// Stripe API location: `platform_tax_fee.object`.
#[derive(Debug, Clone)]
pub enum UniStrObject1A472C {
    /// JSON value: `"platform_tax_fee"`.
    PlatformTaxFee,
}

/// Stripe API location: `price`.
#[derive(Debug, Clone)]
pub struct Price {
    pub object: UniStrObjectDB9846,
    /// JSON key: `type`.
    pub type_x: UniStrTypeFC33AE,
    pub id: String,
    pub product: UniProduct297E1E,
    pub active: bool,
    pub billing_scheme: UniStrBillingScheme,
    pub currency: String,
    pub lookup_key: Option<String>,
    pub nickname: Option<String>,
    pub recurring: Option<Recurring>,
    pub tiers: Option<Vec<PriceTier>>,
    pub tiers_mode: Option<UniStrTiersMode>,
    pub transform_quantity: Option<TransformQuantity>,
    pub unit_amount: Option<i64>,
    pub unit_amount_decimal: Option<String>,
    pub created: i64,
    pub livemode: bool,
    pub metadata: Metadata8076DB,
}

impl GetId for Price {
    open spec fn has_id(&self) -> bool {
        true
    }

    open spec fn id_of(&self) -> String {
        self.id
    }

    fn get_id(&self) -> (r: String) {
        self.id.clone()
    }
}

/// Stripe API location: `price_tier`.
#[derive(Debug, Clone)]
pub struct PriceTier {
    pub flat_amount: Option<i64>,
    pub flat_amount_decimal: Option<String>,
    pub unit_amount: Option<i64>,
    pub unit_amount_decimal: Option<String>,
    pub up_to: Option<i64>,
}

/// Stripe API location: `product`.
#[derive(Debug, Clone)]
pub struct Product {
    pub object: UniStrObject04CB4A,
    pub id: String,
    pub name: String,
    pub active: bool,
    pub attributes: Option<Vec<String>>,
    pub caption: Option<String>,
    pub deactivate_on: Option<Vec<String>>,
    pub description: Option<String>,
    pub images: Vec<String>,
    pub package_dimensions: Option<PackageDimensions>,
    pub shippable: Option<bool>,
    pub statement_descriptor: Option<String>,
    pub unit_label: Option<String>,
    pub url: Option<String>,
    pub created: i64,
    pub updated: i64,
    pub livemode: bool,
    pub metadata: Metadata8076DB,
}

impl GetId for Product {
    open spec fn has_id(&self) -> bool {
        true
    }

    open spec fn id_of(&self) -> String {
        self.id
    }

    fn get_id(&self) -> (r: String) {
        self.id.clone()
    }
}

/// Stripe API location: `promotion_code`.
#[derive(Debug)]
pub struct PromotionCode {
    pub object: UniStrObjectB3640E,
    pub id: String,
    pub customer: Option<UniCustomerC00F6E>,
    pub active: bool,
    pub code: String,
    pub coupon: Coupon,
    pub expires_at: Option<i64>,
    pub max_redemptions: Option<i64>,
    pub restrictions: PromotionCodesResourceRestrictions,
    pub times_redeemed: i64,
    pub created: i64,
    pub livemode: bool,
    pub metadata: Option<Metadata7CCA3C>,
}

impl GetId for PromotionCode {
    open spec fn has_id(&self) -> bool {
        true
    }

    open spec fn id_of(&self) -> String {
        self.id
    }

    fn get_id(&self) -> (r: String) {
        self.id.clone()
    }
}

/// Stripe API location: `promotion_code.object`.
#[derive(Debug, Clone)]
pub enum UniStrObjectB3640E {
    /// JSON value: `"promotion_code"`.
    PromotionCode,
}

/// Stripe API location: `promotion_codes_resource_restrictions`.
#[derive(Debug, Clone)]
pub struct PromotionCodesResourceRestrictions {
    pub first_time_transaction: bool,
    pub minimum_amount: Option<i64>,
    pub minimum_amount_currency: Option<String>,
}

/// Stripe API location: `radar.early_fraud_warning`.
#[derive(Debug)]
pub struct RadarEarlyFraudWarning {
    pub object: UniStrObject08D5B1,
    pub id: String,
    pub charge: UniCharge,
    pub actionable: bool,
    pub fraud_type: String,
    pub created: i64,
    pub livemode: bool,
}

impl GetId for RadarEarlyFraudWarning {
    open spec fn has_id(&self) -> bool {
        true
    }

    open spec fn id_of(&self) -> String {
        self.id
    }

    fn get_id(&self) -> (r: String) {
        self.id.clone()
    }
}

/// Stripe API location: `radar.early_fraud_warning.object`.
#[derive(Debug, Clone)]
pub enum UniStrObject08D5B1 {
    /// JSON value: `"radar.early_fraud_warning"`.
    RadarDotEarlyFraudWarning,
}

/// Stripe API location: `radar.value_list`.
#[derive(Debug, Clone)]
pub struct RadarListList {
    pub object: UniStrObjectF61F9F,
    pub id: String,
    pub name: String,
    pub alias: String,
    pub created_by: String,
    pub item_type: UniStrItemType,
    pub list_items: RadarListListItemList,
    pub created: i64,
    pub livemode: bool,
    pub metadata: Metadata8076DB,
}

impl GetId for RadarListList {
    open spec fn has_id(&self) -> bool {
        true
    }

    open spec fn id_of(&self) -> String {
        self.id
    }

    fn get_id(&self) -> (r: String) {
        self.id.clone()
    }
}

/// Stripe API location: `radar.value_list.item_type`.
#[derive(Debug, Clone)]
pub enum UniStrItemType {
    /// JSON value: `"card_bin"`.
    CardBin,
    /// JSON value: `"card_fingerprint"`.
    CardFingerprint,
    /// JSON value: `"case_sensitive_string"`.
    CaseSensitiveString,
    /// JSON value: `"country"`.
    Country,
    /// JSON value: `"email"`.
    Email,
    /// JSON value: `"ip_address"`.
    IpAddress,
    /// JSON value: `"string"`.
    String,
}

/// Stripe API location: `radar.value_list.list_items`.
#[derive(Debug, Clone)]
pub struct RadarListListItemList {
    pub object: UniStrObject344B0E,
    pub data: Vec<RadarListListItem>,
    pub has_more: bool,
    pub url: String,
}

impl PageMeta for RadarListListItemList {
    open spec fn page_ready(&self) -> bool {
        true
    }

    open spec fn page_ids(&self) -> Seq<String> {
        self.data@.map_values(|x: RadarListListItem| x.id)
    }

    open spec fn page_has_more(&self) -> bool {
        self.has_more
    }

    fn get_from_to(&self) -> (r: Option<(String, String)>) {
        if self.data.len() == 0 {
            return None;
        }
        Some((self.data[0].id.clone(), self.data[self.data.len() - 1].id.clone()))
    }

    fn get_has_more(&self) -> (r: bool) {
        self.has_more
    }
}

/// Stripe API location: `radar.value_list_item`.
#[derive(Debug, Clone)]
pub struct RadarListListItem {
    pub object: UniStrObject2EE88E,
    pub id: String,
    pub created_by: String,
    pub value: String,
    pub value_list: String,
    pub created: i64,
    pub livemode: bool,
}

impl GetId for RadarListListItem {
    open spec fn has_id(&self) -> bool {
        true
    }

    open spec fn id_of(&self) -> String {
        self.id
    }

    fn get_id(&self) -> (r: String) {
        self.id.clone()
    }
}

/// Stripe API location: `radar_review_resource_location`.
#[derive(Debug, Clone)]
pub struct RadarReviewResourceLocation {
    pub city: Option<String>,
    pub country: Option<String>,
    pub latitude: Option<F64Bits>,
    pub longitude: Option<F64Bits>,
    pub region: Option<String>,
}

/// Stripe API location: `radar_review_resource_session`.
#[derive(Debug, Clone)]
pub struct RadarReviewResourceSession {
    pub browser: Option<String>,
    pub device: Option<String>,
    pub platform: Option<String>,
    pub version: Option<String>,
}

/// Stripe API location: `recipient`.
#[derive(Debug)]
pub struct TransferRecipient {
    pub object: UniStrObject00DC3E,
    /// JSON key: `type`.
    pub type_x: String,
    pub id: String,
    pub name: Option<String>,
    pub default_card: Option<UniDefaultCard>,
    pub migrated_to: Option<UniAccount>,
    pub rolled_back_from: Option<UniAccount>,
    pub active_account: Option<BankAccount>,
    pub cards: Option<CardList93D321>,
    pub description: Option<String>,
    pub email: Option<String>,
    pub created: i64,
    pub livemode: bool,
    pub metadata: Metadata8076DB,
}

impl GetId for TransferRecipient {
    open spec fn has_id(&self) -> bool {
        true
    }

    open spec fn id_of(&self) -> String {
        self.id
    }

    fn get_id(&self) -> (r: String) {
        self.id.clone()
    }
}

/// Stripe API location: `recipient.cards`.
#[derive(Debug)]
pub struct CardList93D321 {
    pub object: UniStrObject344B0E,
    pub data: Vec<Card>,
    pub has_more: bool,
    pub url: String,
}

impl PageMeta for CardList93D321 {
    open spec fn page_ready(&self) -> bool {
        true
    }

    open spec fn page_ids(&self) -> Seq<String> {
        self.data@.map_values(|x: Card| x.id)
    }

    open spec fn page_has_more(&self) -> bool {
        self.has_more
    }

    fn get_from_to(&self) -> (r: Option<(String, String)>) {
        if self.data.len() == 0 {
            return None;
        }
        Some((self.data[0].id.clone(), self.data[self.data.len() - 1].id.clone()))
    }

    fn get_has_more(&self) -> (r: bool) {
        self.has_more
    }
}

/// Stripe API location: `recipient.default_card`.
/// Encoded in JSON without a tag: the variant is chosen by the shape of the value.
#[derive(Debug)]
pub enum UniDefaultCard {
    String(String),
    Card(Box<Card>),
}

/// Stripe API location: `recurring`.
#[derive(Debug, Clone)]
pub struct Recurring {
    pub aggregate_usage: Option<UniStrAggregateUsage>,
    pub interval: UniStrInterval,
    pub interval_count: i64,
    pub usage_type: UniStrUsageType,
}

/// Stripe API location: `refund`.
#[derive(Debug)]
pub struct Refund {
    pub object: UniStrObject95EBF9,
    pub id: String,
    pub balance_transaction: Option<UniBalanceTransaction>,
    pub charge: Option<UniCharge>,
    pub failure_balance_transaction: Option<UniBalanceTransaction>,
    pub payment_intent: Option<UniPaymentIntent>,
    pub source_transfer_reversal: Option<UniTransferReversal>,
    pub transfer_reversal: Option<UniTransferReversal>,
    pub amount: i64,
    pub currency: String,
    pub description: Option<String>,
    pub failure_reason: Option<String>,
    pub reason: Option<String>,
    pub receipt_number: Option<String>,
    pub status: Option<String>,
    pub created: i64,
    pub metadata: Option<Metadata7CCA3C>,
}

impl GetId for Refund {
    open spec fn has_id(&self) -> bool {
        true
    }

    open spec fn id_of(&self) -> String {
        self.id
    }

    fn get_id(&self) -> (r: String) {
        self.id.clone()
    }
}

/// Stripe API location: `refund.object`.
#[derive(Debug, Clone)]
pub enum UniStrObject95EBF9 {
    /// JSON value: `"refund"`.
    Refund,
}

/// Stripe API location: `refund.source_transfer_reversal`, `refund.transfer_reversal`.
/// Encoded in JSON without a tag: the variant is chosen by the shape of the value.
#[derive(Debug)]
pub enum UniTransferReversal {
    String(String),
    TransferReversal(TransferReversal),
}

/// Stripe API location: `reporting.report_run`.
#[derive(Debug)]
pub struct ReportingReportRun {
    pub object: UniStrObject24E2D4,
    pub id: String,
    pub error: Option<String>,
    pub parameters: FinancialReportingFinanceReportRunRunParameters,
    pub report_type: String,
    pub result: Option<File>,
    pub status: String,
    pub succeeded_at: Option<i64>,
    pub created: i64,
    pub livemode: bool,
}

impl GetId for ReportingReportRun {
    open spec fn has_id(&self) -> bool {
        true
    }

    open spec fn id_of(&self) -> String {
        self.id
    }

    fn get_id(&self) -> (r: String) {
        self.id.clone()
    }
}

/// Stripe API location: `reporting.report_run.object`.
#[derive(Debug, Clone)]
pub enum UniStrObject24E2D4 {
    /// JSON value: `"reporting.report_run"`.
    ReportingDotReportRun,
}

/// Stripe API location: `reporting.report_type`.
#[derive(Debug, Clone)]
pub struct ReportingReportType {
    pub object: UniStrObjectCB017F,
    pub id: String,
    pub name: String,
    pub data_available_end: i64,
    pub data_available_start: i64,
    pub default_columns: Option<Vec<String>>,
    pub version: i64,
    pub updated: i64,
}

impl GetId for ReportingReportType {
    open spec fn has_id(&self) -> bool {
        true
    }

    open spec fn id_of(&self) -> String {
        self.id
    }

    fn get_id(&self) -> (r: String) {
        self.id.clone()
    }
}

/// Stripe API location: `reporting.report_type.object`.
#[derive(Debug, Clone)]
pub enum UniStrObjectCB017F {
    /// JSON value: `"reporting.report_type"`.
    ReportingDotReportType,
}

/// Stripe API location: `reserve_transaction`.
#[derive(Debug, Clone)]
pub struct ReserveTransaction {
    pub object: UniStrObjectF852AF,
    pub id: String,
    pub amount: i64,
    pub currency: String,
    pub description: Option<String>,
}

impl GetId for ReserveTransaction {
    open spec fn has_id(&self) -> bool {
        true
    }

    open spec fn id_of(&self) -> String {
        self.id
    }

    fn get_id(&self) -> (r: String) {
        self.id.clone()
    }
}

/// Stripe API location: `reserve_transaction.object`.
#[derive(Debug, Clone)]
pub enum UniStrObjectF852AF {
    /// JSON value: `"reserve_transaction"`.
    ReserveTransaction,
}

/// Stripe API location: `review`.
#[derive(Debug)]
pub struct RadarReview {
    pub object: UniStrObject31593E,
    pub id: String,
    pub charge: Option<UniCharge>,
    pub payment_intent: Option<UniPaymentIntent>,
    pub billing_zip: Option<String>,
    pub closed_reason: Option<UniStrClosedReason>,
    pub ip_address: Option<String>,
    pub ip_address_location: Option<RadarReviewResourceLocation>,
    pub open: bool,
    pub opened_reason: UniStrOpenedReason,
    pub reason: String,
    pub session: Option<RadarReviewResourceSession>,
    pub created: i64,
    pub livemode: bool,
}

impl GetId for RadarReview {
    open spec fn has_id(&self) -> bool {
        true
    }

    open spec fn id_of(&self) -> String {
        self.id
    }

    fn get_id(&self) -> (r: String) {
        self.id.clone()
    }
}

/// Stripe API location: `review.closed_reason`.
#[derive(Debug, Clone)]
pub enum UniStrClosedReason {
    /// JSON value: `"approved"`.
    Approved,
    /// JSON value: `"disputed"`.
    Disputed,
    /// JSON value: `"refunded"`.
    Refunded,
    /// JSON value: `"refunded_as_fraud"`.
    RefundedAsFraud,
}

/// Stripe API location: `review.object`.
#[derive(Debug, Clone)]
pub enum UniStrObject31593E {
    /// JSON value: `"review"`.
    Review,
}

/// Stripe API location: `review.opened_reason`.
#[derive(Debug, Clone)]
pub enum UniStrOpenedReason {
    /// JSON value: `"manual"`.
    Manual,
    /// JSON value: `"rule"`.
    Rule,
}

/// Stripe API location: `rule`.
#[derive(Debug, Clone)]
pub struct RadarRule {
    pub id: String,
    pub action: String,
    pub predicate: String,
}

impl GetId for RadarRule {
    open spec fn has_id(&self) -> bool {
        true
    }

    open spec fn id_of(&self) -> String {
        self.id
    }

    fn get_id(&self) -> (r: String) {
        self.id.clone()
    }
}

/// Stripe API location: `scheduled_query_run`.
#[derive(Debug)]
pub struct ScheduledQueryRun {
    pub object: UniStrObject7F3E77,
    pub id: String,
    pub data_load_time: i64,
    pub error: Option<SigmaScheduledQueryRunError>,
    pub file: Option<File>,
    pub result_available_until: i64,
    pub sql: String,
    pub status: String,
    pub title: String,
    pub created: i64,
    pub livemode: bool,
}

impl GetId for ScheduledQueryRun {
    open spec fn has_id(&self) -> bool {
        true
    }

    open spec fn id_of(&self) -> String {
        self.id
    }

    fn get_id(&self) -> (r: String) {
        self.id.clone()
    }
}

/// Stripe API location: `scheduled_query_run.object`.
#[derive(Debug, Clone)]
pub enum UniStrObject7F3E77 {
    /// JSON value: `"scheduled_query_run"`.
    ScheduledQueryRun,
}

/// Stripe API location: `sepa_debit_generated_from`.
#[derive(Debug)]
pub struct SepaDebitGeneratedFrom {
    pub charge: Option<UniCharge>,
    pub setup_attempt: Option<UniLatestAttempt>,
}

/// Stripe API location: `sepa_debit_generated_from.setup_attempt`, `setup_intent.latest_attempt`.
/// Encoded in JSON without a tag: the variant is chosen by the shape of the value.
#[derive(Debug)]
pub enum UniLatestAttempt {
    String(String),
    PaymentFlowsSetupIntentSetupAttempt(PaymentFlowsSetupIntentSetupAttempt),
}

/// Stripe API location: `setup_attempt`.
#[derive(Debug)]
pub struct PaymentFlowsSetupIntentSetupAttempt {
    pub object: UniStrObject165299,
    pub id: String,
    pub application: Option<UniApplication>,
    pub customer: Option<UniCustomerC00F6E>,
    pub on_behalf_of: Option<UniAccount>,
    pub payment_method: UniPaymentMethod,
    pub setup_intent: UniSetupIntent,
    pub payment_method_details: SetupAttemptPaymentMethodDetails,
    pub setup_error: Box<Option<APIErrors>>,
    pub status: String,
    pub usage: String,
    pub created: i64,
    pub livemode: bool,
}

impl GetId for PaymentFlowsSetupIntentSetupAttempt {
    open spec fn has_id(&self) -> bool {
        true
    }

    open spec fn id_of(&self) -> String {
        self.id
    }

    fn get_id(&self) -> (r: String) {
        self.id.clone()
    }
}

/// Stripe API location: `setup_attempt.object`.
#[derive(Debug, Clone)]
pub enum UniStrObject165299 {
    /// JSON value: `"setup_attempt"`.
    SetupAttempt,
}

/// Stripe API location: `setup_attempt_payment_method_details`.
#[derive(Debug)]
pub struct SetupAttemptPaymentMethodDetails {
    /// JSON key: `type`.
    pub type_x: String,
    pub bancontact: Option<SetupAttemptPaymentMethodDetailsBancontact>,
    pub card: Option<SetupAttemptPaymentMethodDetailsCard>,
    pub ideal: Option<SetupAttemptPaymentMethodDetailsIdeal>,
    pub sofort: Option<SetupAttemptPaymentMethodDetailsSofort>,
}

/// Stripe API location: `setup_attempt_payment_method_details_bancontact`.
#[derive(Debug)]
pub struct SetupAttemptPaymentMethodDetailsBancontact {
    pub generated_sepa_debit: Option<UniPaymentMethod>,
    pub generated_sepa_debit_mandate: Option<UniMandate>,
    pub bank_code: Option<String>,
    pub bank_name: Option<String>,
    pub bic: Option<String>,
    pub iban_last4: Option<String>,
    pub preferred_language: Option<UniStrPreferredLanguageD97AA3>,
    pub verified_name: Option<String>,
}

/// Stripe API location: `setup_attempt_payment_method_details_card`.
#[derive(Debug, Clone)]
pub struct SetupAttemptPaymentMethodDetailsCard {
    pub three_d_secure: Option<ThreeDSecureDetails>,
}

/// Stripe API location: `setup_attempt_payment_method_details_ideal`.
#[derive(Debug)]
pub struct SetupAttemptPaymentMethodDetailsIdeal {
    pub generated_sepa_debit: Option<UniPaymentMethod>,
    pub generated_sepa_debit_mandate: Option<UniMandate>,
    pub bank: Option<UniStrBank3AE87A>,
    pub bic: Option<UniStrBic>,
    pub iban_last4: Option<String>,
    pub verified_name: Option<String>,
}

/// Stripe API location: `setup_attempt_payment_method_details_sofort`.
#[derive(Debug)]
pub struct SetupAttemptPaymentMethodDetailsSofort {
    pub generated_sepa_debit: Option<UniPaymentMethod>,
    pub generated_sepa_debit_mandate: Option<UniMandate>,
    pub bank_code: Option<String>,
    pub bank_name: Option<String>,
    pub bic: Option<String>,
    pub iban_last4: Option<String>,
    pub preferred_language: Option<UniStrPreferredLanguageD97AA3>,
    pub verified_name: Option<String>,
}

/// Stripe API location: `setup_intent`.
#[derive(Debug)]
pub struct SetupIntent {
    pub object: UniStrObjectE09BD0,
    pub id: String,
    pub application: Option<UniApplication>,
    pub customer: Option<UniCustomerC00F6E>,
    pub latest_attempt: Option<UniLatestAttempt>,
    pub mandate: Option<UniMandate>,
    pub on_behalf_of: Option<UniAccount>,
    pub payment_method: Option<UniPaymentMethod>,
    pub single_use_mandate: Option<UniMandate>,
    pub cancellation_reason: Option<UniStrCancellationReason>,
    pub client_secret: Option<String>,
    pub description: Option<String>,
    pub last_setup_error: Box<Option<APIErrors>>,
    pub next_action: Option<SetupIntentNextAction>,
    pub payment_method_options: Option<SetupIntentPaymentMethodOptions>,
    pub payment_method_types: Vec<String>,
    pub status: UniStrStatus87966D,
    pub usage: String,
    pub created: i64,
    pub livemode: bool,
    pub metadata: Option<Metadata7CCA3C>,
}

impl GetId for SetupIntent {
    open spec fn has_id(&self) -> bool {
        true
    }

    open spec fn id_of(&self) -> String {
        self.id
    }

    fn get_id(&self) -> (r: String) {
        self.id.clone()
    }
}

/// Stripe API location: `setup_intent.cancellation_reason`.
#[derive(Debug, Clone)]
pub enum UniStrCancellationReason {
    /// JSON value: `"abandoned"`.
    Abandoned,
    /// JSON value: `"duplicate"`.
    Duplicate,
    /// JSON value: `"requested_by_customer"`.
    RequestedByCustomer,
}

/// Stripe API location: `setup_intent.object`.
#[derive(Debug, Clone)]
pub enum UniStrObjectE09BD0 {
    /// JSON value: `"setup_intent"`.
    SetupIntent,
}

/// Stripe API location: `setup_intent.status`.
#[derive(Debug, Clone)]
pub enum UniStrStatus87966D {
    /// JSON value: `"canceled"`.
    Canceled,
    /// JSON value: `"processing"`.
    Processing,
    /// JSON value: `"requires_action"`.
    RequiresAction,
    /// JSON value: `"requires_confirmation"`.
    RequiresConfirmation,
    /// JSON value: `"requires_payment_method"`.
    RequiresPaymentMethod,
    /// JSON value: `"succeeded"`.
    Succeeded,
}

/// Stripe API location: `setup_intent_next_action`.
#[derive(Debug, Clone)]
pub struct SetupIntentNextAction {
    /// JSON key: `type`.
    pub type_x: String,
    pub redirect_to_url: Option<SetupIntentNextActionRedirectToUrl>,
    pub use_stripe_sdk: Option<UseStripeSdk2470E2>,
}

/// Stripe API location: `setup_intent_next_action_redirect_to_url`.
#[derive(Debug, Clone)]
pub struct SetupIntentNextActionRedirectToUrl {
    pub return_url: Option<String>,
    pub url: Option<String>,
}

/// Stripe API location: `setup_intent_payment_method_options`.
#[derive(Debug, Clone)]
pub struct SetupIntentPaymentMethodOptions {
    pub card: Option<SetupIntentPaymentMethodOptionsCard>,
    pub sepa_debit: Option<SetupIntentPaymentMethodOptionsSepaDebit>,
}

/// Stripe API location: `setup_intent_payment_method_options_card`.
#[derive(Debug, Clone)]
pub struct SetupIntentPaymentMethodOptionsCard {
    pub request_three_d_secure: Option<UniStrRequestThreeDSecure>,
}

/// Stripe API location: `setup_intent_payment_method_options_sepa_debit`.
#[derive(Debug, Clone)]
pub struct SetupIntentPaymentMethodOptionsSepaDebit {
    pub mandate_options: Option<SetupIntentPaymentMethodOptionsMandateOptionsSepaDebit>,
}

/// Stripe API location: `shipping`.
#[derive(Debug, Clone)]
pub struct Shipping {
    pub name: Option<String>,
    pub address: Option<Address>,
    pub carrier: Option<String>,
    pub phone: Option<String>,
    pub tracking_number: Option<String>,
}

/// Stripe API location: `shipping_method`.
#[derive(Debug, Clone)]
pub struct ShippingMethod {
    pub id: String,
    pub amount: i64,
    pub currency: String,
    pub delivery_estimate: Option<DeliveryEstimate>,
    pub description: String,
}

impl GetId for ShippingMethod {
    open spec fn has_id(&self) -> bool {
        true
    }

    open spec fn id_of(&self) -> String {
        self.id
    }

    fn get_id(&self) -> (r: String) {
        self.id.clone()
    }
}

/// Stripe API location: `sigma_scheduled_query_run_error`.
#[derive(Debug, Clone)]
pub struct SigmaScheduledQueryRunError {
    pub message: String,
}

/// Stripe API location: `sku`.
#[derive(Debug, Clone)]
pub struct Sku {
    pub object: UniStrObject97B705,
    pub id: String,
    pub product: UniProduct2CB1D4,
    pub active: bool,
    pub attributes: Attributes95B11A,
    pub currency: String,
    pub image: Option<String>,
    pub inventory: Inventory,
    pub package_dimensions: Option<PackageDimensions>,
    pub price: i64,
    pub created: i64,
    pub updated: i64,
    pub livemode: bool,
    pub metadata: Metadata8076DB,
}

impl GetId for Sku {
    open spec fn has_id(&self) -> bool {
        true
    }

    open spec fn id_of(&self) -> String {
        self.id
    }

    fn get_id(&self) -> (r: String) {
        self.id.clone()
    }
}

/// Stripe API location: `sku.product`.
/// Encoded in JSON without a tag: the variant is chosen by the shape of the value.
#[derive(Debug, Clone)]
pub enum UniProduct2CB1D4 {
    String(String),
    Product(Product),
}

/// Stripe API location: `source`.
#[derive(Debug, Clone)]
pub struct Source {
    pub object: UniStrObjectF7EF2D,
    /// JSON key: `type`.
    pub type_x: UniStrType08BCE8,
    pub id: String,
    pub ach_credit_transfer: Option<SourceTypeAchCreditTransfer>,
    pub ach_debit: Option<SourceTypeAchDebit>,
    pub alipay: Option<SourceTypeAlipay>,
    pub amount: Option<i64>,
    pub au_becs_debit: Option<SourceTypeAuBecsDebit>,
    pub bancontact: Option<SourceTypeBancontact>,
    pub card: Option<SourceTypeCard>,
    pub card_present: Option<SourceTypeCardPresent>,
    pub client_secret: String,
    pub code_verification: Option<SourceCodeVerificationFlow>,
    pub currency: Option<String>,
    pub customer: Option<String>,
    pub eps: Option<SourceTypeEps>,
    pub flow: String,
    pub giropay: Option<SourceTypeGiropay>,
    pub ideal: Option<SourceTypeIdeal>,
    pub klarna: Option<SourceTypeKlarna>,
    pub multibanco: Option<SourceTypeMultibanco>,
    pub owner: Option<SourceOwner>,
    pub p24: Option<SourceTypeP24>,
    pub receiver: Option<SourceReceiverFlow>,
    pub redirect: Option<SourceRedirectFlow>,
    pub sepa_debit: Option<SourceTypeSepaDebit>,
    pub sofort: Option<SourceTypeSofort>,
    pub source_order: Option<SourceOrder>,
    pub statement_descriptor: Option<String>,
    pub status: String,
    pub three_d_secure: Option<SourceTypeThreeDSecure>,
    pub usage: Option<String>,
    pub wechat: Option<SourceTypeWechat>,
    pub created: i64,
    pub livemode: bool,
    pub metadata: Option<Metadata7CCA3C>,
}

impl GetId for Source {
    open spec fn has_id(&self) -> bool {
        true
    }

    open spec fn id_of(&self) -> String {
        self.id
    }

    fn get_id(&self) -> (r: String) {
        self.id.clone()
    }
}

/// Stripe API location: `source.object`.
#[derive(Debug, Clone)]
pub enum UniStrObjectF7EF2D {
    /// JSON value: `"source"`.
    Source,
}

/// Stripe API location: `source.type`.
#[derive(Debug, Clone)]
pub enum UniStrType08BCE8 {
    /// JSON value: `"ach_credit_transfer"`.
    AchCreditTransfer,
    /// JSON value: `"ach_debit"`.
    AchDebit,
    /// JSON value: `"alipay"`.
    Alipay,
    /// JSON value: `"au_becs_debit"`.
    AuBecsDebit,
    /// JSON value: `"bancontact"`.
    Bancontact,
    /// JSON value: `"card"`.
    Card,
    /// JSON value: `"card_present"`.
    CardPresent,
    /// JSON value: `"eps"`.
    Eps,
    /// JSON value: `"giropay"`.
    Giropay,
    /// JSON value: `"ideal"`.
    Ideal,
    /// JSON value: `"klarna"`.
    Klarna,
    /// JSON value: `"multibanco"`.
    Multibanco,
    /// JSON value: `"p24"`.
    P24,
    /// JSON value: `"sepa_debit"`.
    SepaDebit,
    /// JSON value: `"sofort"`.
    Sofort,
    /// JSON value: `"three_d_secure"`.
    ThreeDSecure,
    /// JSON value: `"wechat"`.
    Wechat,
}

/// Stripe API location: `source_code_verification_flow`.
#[derive(Debug, Clone)]
pub struct SourceCodeVerificationFlow {
    pub attempts_remaining: i64,
    pub status: String,
}

/// Stripe API location: `source_mandate_notification`.
#[derive(Debug, Clone)]
pub struct SourceMandateNotification {
    pub object: UniStrObjectE9082A,
    /// JSON key: `type`.
    pub type_x: String,
    pub id: String,
    pub acss_debit: Option<SourceMandateNotificationAcssDebitData>,
    pub amount: Option<i64>,
    pub bacs_debit: Option<SourceMandateNotificationBacsDebitData>,
    pub reason: String,
    pub sepa_debit: Option<SourceMandateNotificationSepaDebitData>,
    pub source: Source,
    pub status: String,
    pub created: i64,
    pub livemode: bool,
}

impl GetId for SourceMandateNotification {
    open spec fn has_id(&self) -> bool {
        true
    }

    open spec fn id_of(&self) -> String {
        self.id
    }

    fn get_id(&self) -> (r: String) {
        self.id.clone()
    }
}

/// Stripe API location: `source_mandate_notification.object`.
#[derive(Debug, Clone)]
pub enum UniStrObjectE9082A {
    /// JSON value: `"source_mandate_notification"`.
    SourceMandateNotification,
}

/// Stripe API location: `source_mandate_notification_acss_debit_data`.
#[derive(Debug, Clone)]
pub struct SourceMandateNotificationAcssDebitData {
    pub statement_descriptor: Option<String>,
}

/// Stripe API location: `source_mandate_notification_bacs_debit_data`.
#[derive(Debug, Clone)]
pub struct SourceMandateNotificationBacsDebitData {
    pub last4: Option<String>,
}

/// Stripe API location: `source_mandate_notification_sepa_debit_data`.
#[derive(Debug, Clone)]
pub struct SourceMandateNotificationSepaDebitData {
    pub creditor_identifier: Option<String>,
    pub last4: Option<String>,
    pub mandate_reference: Option<String>,
}

/// Stripe API location: `source_order`.
#[derive(Debug, Clone)]
pub struct SourceOrder {
    pub amount: i64,
    pub currency: String,
    pub email: Option<String>,
    pub items: Option<Vec<SourceOrderItem>>,
    pub shipping: Option<Shipping>,
}

/// Stripe API location: `source_order_item`.
#[derive(Debug, Clone)]
pub struct SourceOrderItem {
    /// JSON key: `type`.
    pub type_x: Option<String>,
    pub amount: Option<i64>,
    pub currency: Option<String>,
    pub description: Option<String>,
    pub parent: Option<String>,
    pub quantity: Option<i64>,
}

/// Stripe API location: `source_owner`.
#[derive(Debug, Clone)]
pub struct SourceOwner {
    pub name: Option<String>,
    pub address: Option<Address>,
    pub email: Option<String>,
    pub phone: Option<String>,
    pub verified_address: Option<Address>,
    pub verified_email: Option<String>,
    pub verified_name: Option<String>,
    pub verified_phone: Option<String>,
}

/// Stripe API location: `source_receiver_flow`.
#[derive(Debug, Clone)]
pub struct SourceReceiverFlow {
    pub address: Option<String>,
    pub amount_charged: i64,
    pub amount_received: i64,
    pub amount_returned: i64,
    pub refund_attributes_method: String,
    pub refund_attributes_status: String,
}

/// Stripe API location: `source_redirect_flow`.
#[derive(Debug, Clone)]
pub struct SourceRedirectFlow {
    pub failure_reason: Option<String>,
    pub return_url: String,
    pub status: String,
    pub url: String,
}

/// Stripe API location: `source_transaction`.
#[derive(Debug, Clone)]
pub struct SourceTransaction {
    pub object: UniStrObject710D46,
    /// JSON key: `type`.
    pub type_x: UniStrTypeA4C338,
    pub id: String,
    pub ach_credit_transfer: Option<SourceTransactionAchCreditTransferData>,
    pub amount: i64,
    pub chf_credit_transfer: Option<SourceTransactionChfCreditTransferData>,
    pub currency: String,
    pub gbp_credit_transfer: Option<SourceTransactionGbpCreditTransferData>,
    pub paper_check: Option<SourceTransactionPaperCheckData>,
    pub sepa_credit_transfer: Option<SourceTransactionSepaCreditTransferData>,
    pub source: String,
    pub status: String,
    pub created: i64,
    pub livemode: bool,
}

impl GetId for SourceTransaction {
    open spec fn has_id(&self) -> bool {
        true
    }

    open spec fn id_of(&self) -> String {
        self.id
    }

    fn get_id(&self) -> (r: String) {
        self.id.clone()
    }
}

/// Stripe API location: `source_transaction.object`.
#[derive(Debug, Clone)]
pub enum UniStrObject710D46 {
    /// JSON value: `"source_transaction"`.
    SourceTransaction,
}

/// Stripe API location: `source_transaction.type`.
#[derive(Debug, Clone)]
pub enum UniStrTypeA4C338 {
    /// JSON value: `"ach_credit_transfer"`.
    AchCreditTransfer,
    /// JSON value: `"ach_debit"`.
    AchDebit,
    /// JSON value: `"alipay"`.
    Alipay,
    /// JSON value: `"bancontact"`.
    Bancontact,
    /// JSON value: `"card"`.
    Card,
    /// JSON value: `"card_present"`.
    CardPresent,
    /// JSON value: `"eps"`.
    Eps,
    /// JSON value: `"giropay"`.
    Giropay,
    /// JSON value: `"ideal"`.
    Ideal,
    /// JSON value: `"klarna"`.
    Klarna,
    /// JSON value: `"multibanco"`.
    Multibanco,
    /// JSON value: `"p24"`.
    P24,
    /// JSON value: `"sepa_debit"`.
    SepaDebit,
    /// JSON value: `"sofort"`.
    Sofort,
    /// JSON value: `"three_d_secure"`.
    ThreeDSecure,
    /// JSON value: `"wechat"`.
    Wechat,
}

/// Stripe API location: `source_transaction_ach_credit_transfer_data`.
#[derive(Debug, Clone)]
pub struct SourceTransactionAchCreditTransferData {
    pub customer_data: Option<String>,
    pub fingerprint: Option<String>,
    pub last4: Option<String>,
    pub routing_number: Option<String>,
}

/// Stripe API location: `source_transaction_chf_credit_transfer_data`.
#[derive(Debug, Clone)]
pub struct SourceTransactionChfCreditTransferData {
    pub reference: Option<String>,
    pub sender_address_country: Option<String>,
    pub sender_address_line1: Option<String>,
    pub sender_iban: Option<String>,
    pub sender_name: Option<String>,
}

/// Stripe API location: `source_transaction_gbp_credit_transfer_data`.
#[derive(Debug, Clone)]
pub struct SourceTransactionGbpCreditTransferData {
    pub fingerprint: Option<String>,
    pub funding_method: Option<String>,
    pub last4: Option<String>,
    pub reference: Option<String>,
    pub sender_account_number: Option<String>,
    pub sender_name: Option<String>,
    pub sender_sort_code: Option<String>,
}

/// Stripe API location: `source_transaction_paper_check_data`.
#[derive(Debug, Clone)]
pub struct SourceTransactionPaperCheckData {
    pub available_at: Option<String>,
    pub invoices: Option<String>,
}

/// Stripe API location: `source_transaction_sepa_credit_transfer_data`.
#[derive(Debug, Clone)]
pub struct SourceTransactionSepaCreditTransferData {
    pub reference: Option<String>,
    pub sender_iban: Option<String>,
    pub sender_name: Option<String>,
}

/// Stripe API location: `source_type_ach_credit_transfer`.
#[derive(Debug, Clone)]
pub struct SourceTypeAchCreditTransfer {
    pub account_number: Option<String>,
    pub bank_name: Option<String>,
    pub fingerprint: Option<String>,
    pub refund_account_holder_name: Option<String>,
    pub refund_account_holder_type: Option<String>,
    pub refund_routing_number: Option<String>,
    pub routing_number: Option<String>,
    pub swift_code: Option<String>,
}

/// Stripe API location: `source_type_ach_debit`.
#[derive(Debug, Clone)]
pub struct SourceTypeAchDebit {
    /// JSON key: `type`.
    pub type_x: Option<String>,
    pub bank_name: Option<String>,
    pub country: Option<String>,
    pub fingerprint: Option<String>,
    pub last4: Option<String>,
    pub routing_number: Option<String>,
}

/// Stripe API location: `source_type_alipay`.
#[derive(Debug, Clone)]
pub struct SourceTypeAlipay {
    pub data_string: Option<String>,
    pub native_url: Option<String>,
    pub statement_descriptor: Option<String>,
}

/// Stripe API location: `source_type_au_becs_debit`.
#[derive(Debug, Clone)]
pub struct SourceTypeAuBecsDebit {
    pub bsb_number: Option<String>,
    pub fingerprint: Option<String>,
    pub last4: Option<String>,
}

/// Stripe API location: `source_type_bancontact`.
#[derive(Debug, Clone)]
pub struct SourceTypeBancontact {
    pub bank_code: Option<String>,
    pub bank_name: Option<String>,
    pub bic: Option<String>,
    pub iban_last4: Option<String>,
    pub preferred_language: Option<String>,
    pub statement_descriptor: Option<String>,
}

/// Stripe API location: `source_type_card`.
#[derive(Debug, Clone)]
pub struct SourceTypeCard {
    pub name: Option<String>,
    pub address_line1_check: Option<String>,
    pub address_zip_check: Option<String>,
    pub brand: Option<String>,
    pub country: Option<String>,
    pub cvc_check: Option<String>,
    pub dynamic_last4: Option<String>,
    pub exp_month: Option<i64>,
    pub exp_year: Option<i64>,
    pub fingerprint: Option<String>,
    pub funding: Option<String>,
    pub last4: Option<String>,
    pub three_d_secure: Option<String>,
    pub tokenization_method: Option<String>,
}

/// Stripe API location: `source_type_card_present`.
#[derive(Debug, Clone)]
pub struct SourceTypeCardPresent {
    pub pos_device_id: Option<String>,
    pub application_cryptogram: Option<String>,
    pub application_preferred_name: Option<String>,
    pub authorization_code: Option<String>,
    pub authorization_response_code: Option<String>,
    pub brand: Option<String>,
    pub country: Option<String>,
    pub cvm_type: Option<String>,
    pub data_type: Option<String>,
    pub dedicated_file_name: Option<String>,
    pub emv_auth_data: Option<String>,
    pub evidence_customer_signature: Option<String>,
    pub evidence_transaction_certificate: Option<String>,
    pub exp_month: Option<i64>,
    pub exp_year: Option<i64>,
    pub fingerprint: Option<String>,
    pub funding: Option<String>,
    pub last4: Option<String>,
    pub pos_entry_mode: Option<String>,
    pub read_method: Option<String>,
    pub reader: Option<String>,
    pub terminal_verification_results: Option<String>,
    pub transaction_status_information: Option<String>,
}

/// Stripe API location: `source_type_eps`.
#[derive(Debug, Clone)]
pub struct SourceTypeEps {
    pub reference: Option<String>,
    pub statement_descriptor: Option<String>,
}

/// Stripe API location: `source_type_giropay`.
#[derive(Debug, Clone)]
pub struct SourceTypeGiropay {
    pub bank_code: Option<String>,
    pub bank_name: Option<String>,
    pub bic: Option<String>,
    pub statement_descriptor: Option<String>,
}

/// Stripe API location: `source_type_ideal`.
#[derive(Debug, Clone)]
pub struct SourceTypeIdeal {
    pub bank: Option<String>,
    pub bic: Option<String>,
    pub iban_last4: Option<String>,
    pub statement_descriptor: Option<String>,
}

/// Stripe API location: `source_type_klarna`.
#[derive(Debug, Clone)]
pub struct SourceTypeKlarna {
    pub background_image_url: Option<String>,
    pub client_token: Option<String>,
    pub first_name: Option<String>,
    pub last_name: Option<String>,
    pub locale: Option<String>,
    pub logo_url: Option<String>,
    pub page_title: Option<String>,
    pub pay_later_asset_urls_descriptive: Option<String>,
    pub pay_later_asset_urls_standard: Option<String>,
    pub pay_later_name: Option<String>,
    pub pay_later_redirect_url: Option<String>,
    pub pay_now_asset_urls_descriptive: Option<String>,
    pub pay_now_asset_urls_standard: Option<String>,
    pub pay_now_name: Option<String>,
    pub pay_now_redirect_url: Option<String>,
    pub pay_over_time_asset_urls_descriptive: Option<String>,
    pub pay_over_time_asset_urls_standard: Option<String>,
    pub pay_over_time_name: Option<String>,
    pub pay_over_time_redirect_url: Option<String>,
    pub payment_method_categories: Option<String>,
    pub purchase_country: Option<String>,
    pub purchase_type: Option<String>,
    pub redirect_url: Option<String>,
    pub shipping_delay: Option<i64>,
    pub shipping_first_name: Option<String>,
    pub shipping_last_name: Option<String>,
}

/// Stripe API location: `source_type_multibanco`.
#[derive(Debug, Clone)]
pub struct SourceTypeMultibanco {
    pub entity: Option<String>,
    pub reference: Option<String>,
    pub refund_account_holder_address_city: Option<String>,
    pub refund_account_holder_address_country: Option<String>,
    pub refund_account_holder_address_line1: Option<String>,
    pub refund_account_holder_address_line2: Option<String>,
    pub refund_account_holder_address_postal_code: Option<String>,
    pub refund_account_holder_address_state: Option<String>,
    pub refund_account_holder_name: Option<String>,
    pub refund_iban: Option<String>,
}

/// Stripe API location: `source_type_p24`.
#[derive(Debug, Clone)]
pub struct SourceTypeP24 {
    pub reference: Option<String>,
}

/// Stripe API location: `source_type_sepa_debit`.
#[derive(Debug, Clone)]
pub struct SourceTypeSepaDebit {
    pub bank_code: Option<String>,
    pub branch_code: Option<String>,
    pub country: Option<String>,
    pub fingerprint: Option<String>,
    pub last4: Option<String>,
    pub mandate_reference: Option<String>,
    pub mandate_url: Option<String>,
}

/// Stripe API location: `source_type_sofort`.
#[derive(Debug, Clone)]
pub struct SourceTypeSofort {
    pub bank_code: Option<String>,
    pub bank_name: Option<String>,
    pub bic: Option<String>,
    pub country: Option<String>,
    pub iban_last4: Option<String>,
    pub preferred_language: Option<String>,
    pub statement_descriptor: Option<String>,
}

/// Stripe API location: `source_type_three_d_secure`.
#[derive(Debug, Clone)]
pub struct SourceTypeThreeDSecure {
    pub name: Option<String>,
    pub address_line1_check: Option<String>,
    pub address_zip_check: Option<String>,
    pub authenticated: Option<bool>,
    pub brand: Option<String>,
    pub card: Option<String>,
    pub country: Option<String>,
    pub customer: Option<String>,
    pub cvc_check: Option<String>,
    pub dynamic_last4: Option<String>,
    pub exp_month: Option<i64>,
    pub exp_year: Option<i64>,
    pub fingerprint: Option<String>,
    pub funding: Option<String>,
    pub last4: Option<String>,
    pub three_d_secure: Option<String>,
    pub tokenization_method: Option<String>,
}

/// Stripe API location: `source_type_wechat`.
#[derive(Debug, Clone)]
pub struct SourceTypeWechat {
    pub prepay_id: Option<String>,
    pub qr_code_url: Option<String>,
    pub statement_descriptor: Option<String>,
}

/// Stripe API location: `status_transitions`.
#[derive(Debug, Clone)]
pub struct StatusTransitions {
    pub paid: Option<i64>,
    pub canceled: Option<i64>,
    pub fulfiled: Option<i64>,
    pub returned: Option<i64>,
}

/// Stripe API location: `subscription`.
#[derive(Debug)]
pub struct Subscription {
    pub object: UniStrObject59F834,
    pub id: String,
    pub customer: UniCustomerC00F6E,
    pub default_payment_method: Option<UniPaymentMethod>,
    pub default_source: Box<Option<UniDefaultSource>>,
    pub latest_invoice: Option<UniInvoice>,
    pub pending_setup_intent: Option<UniSetupIntent>,
    pub schedule: Option<UniSchedule>,
    pub application_fee_percent: Option<F64Bits>,
    pub billing_cycle_anchor: i64,
    pub billing_thresholds: Option<SubscriptionBillingThresholds>,
    pub cancel_at: Option<i64>,
    pub cancel_at_period_end: bool,
    pub canceled_at: Option<i64>,
    pub collection_method: Option<UniStrCollectionMethod>,
    pub current_period_end: i64,
    pub current_period_start: i64,
    pub days_until_due: Option<i64>,
    pub default_tax_rates: Option<Vec<TaxRate>>,
    pub discount: Option<Discount>,
    pub ended_at: Option<i64>,
    pub items: SubscriptionItemList,
    pub next_pending_invoice_item_invoice: Option<i64>,
    pub pause_collection: Option<SubscriptionsResourcePauseCollection>,
    pub pending_invoice_item_interval: Option<SubscriptionPendingInvoiceItemInterval>,
    pub pending_update: Option<SubscriptionsResourcePendingUpdate>,
    pub start_date: i64,
    pub status: UniStrStatusA5F622,
    pub transfer_data: Option<SubscriptionTransferData>,
    pub trial_end: Option<i64>,
    pub trial_start: Option<i64>,
    pub created: i64,
    pub livemode: bool,
    pub metadata: Metadata8076DB,
}

impl GetId for Subscription {
    open spec fn has_id(&self) -> bool {
        true
    }

    open spec fn id_of(&self) -> String {
        self.id
    }

    fn get_id(&self) -> (r: String) {
        self.id.clone()
    }
}

/// Stripe API location: `subscription.items`.
#[derive(Debug, Clone)]
pub struct SubscriptionItemList {
    pub object: UniStrObject344B0E,
    pub data: Vec<SubscriptionItem>,
    pub has_more: bool,
    pub url: String,
}

impl PageMeta for SubscriptionItemList {
    open spec fn page_ready(&self) -> bool {
        true
    }

    open spec fn page_ids(&self) -> Seq<String> {
        self.data@.map_values(|x: SubscriptionItem| x.id)
    }

    open spec fn page_has_more(&self) -> bool {
        self.has_more
    }

    fn get_from_to(&self) -> (r: Option<(String, String)>) {
        if self.data.len() == 0 {
            return None;
        }
        Some((self.data[0].id.clone(), self.data[self.data.len() - 1].id.clone()))
    }

    fn get_has_more(&self) -> (r: bool) {
        self.has_more
    }
}

/// Stripe API location: `subscription.object`.
#[derive(Debug, Clone)]
pub enum UniStrObject59F834 {
    /// JSON value: `"subscription"`.
    Subscription,
}

/// Stripe API location: `subscription.schedule`.
/// Encoded in JSON without a tag: the variant is chosen by the shape of the value.
#[derive(Debug)]
pub enum UniSchedule {
    String(String),
    SubscriptionSchedule(SubscriptionSchedule),
}

/// Stripe API location: `subscription.status`.
#[derive(Debug, Clone)]
pub enum UniStrStatusA5F622 {
    /// JSON value: `"active"`.
    Active,
    /// JSON value: `"canceled"`.
    Canceled,
    /// JSON value: `"incomplete"`.
    Incomplete,
    /// JSON value: `"incomplete_expired"`.
    IncompleteExpired,
    /// JSON value: `"past_due"`.
    PastDue,
    /// JSON value: `"trialing"`.
    Trialing,
    /// JSON value: `"unpaid"`.
    Unpaid,
}

/// Stripe API location: `subscription_billing_thresholds`.
#[derive(Debug, Clone)]
pub struct SubscriptionBillingThresholds {
    pub amount_gte: Option<i64>,
    pub reset_billing_cycle_anchor: Option<bool>,
}

/// Stripe API location: `subscription_item`.
#[derive(Debug, Clone)]
pub struct SubscriptionItem {
    pub object: UniStrObject36C70C,
    pub id: String,
    pub billing_thresholds: Option<SubscriptionItemBillingThresholds>,
    pub price: Price,
    pub quantity: Option<i64>,
    pub subscription: String,
    pub tax_rates: Option<Vec<TaxRate>>,
    pub created: i64,
    pub metadata: Metadata8076DB,
}

impl GetId for SubscriptionItem {
    open spec fn has_id(&self) -> bool {
        true
    }

    open spec fn id_of(&self) -> String {
        self.id
    }

    fn get_id(&self) -> (r: String) {
        self.id.clone()
    }
}

/// Stripe API location: `subscription_item_billing_thresholds`.
#[derive(Debug, Clone)]
pub struct SubscriptionItemBillingThresholds {
    pub usage_gte: Option<i64>,
}

/// Stripe API location: `subscription_pending_invoice_item_interval`.
#[derive(Debug, Clone)]
pub struct SubscriptionPendingInvoiceItemInterval {
    pub interval: UniStrInterval,
    pub interval_count: i64,
}

/// Stripe API location: `subscription_schedule`.
#[derive(Debug)]
pub struct SubscriptionSchedule {
    pub object: UniStrObject2726CE,
    pub id: String,
    pub customer: UniCustomerC00F6E,
    pub subscription: Option<UniSubscription>,
    pub canceled_at: Option<i64>,
    pub completed_at: Option<i64>,
    pub current_phase: Option<SubscriptionScheduleCurrentPhase>,
    pub default_settings: SubscriptionSchedulesResourceDefaultSettings,
    pub end_behavior: UniStrEndBehavior,
    pub phases: Vec<SubscriptionSchedulePhaseConfiguration>,
    pub released_at: Option<i64>,
    pub released_subscription: Option<String>,
    pub status: UniStrStatus826DFA,
    pub created: i64,
    pub livemode: bool,
    pub metadata: Option<Metadata7CCA3C>,
}

impl GetId for SubscriptionSchedule {
    open spec fn has_id(&self) -> bool {
        true
    }

    open spec fn id_of(&self) -> String {
        self.id
    }

    fn get_id(&self) -> (r: String) {
        self.id.clone()
    }
}

/// Stripe API location: `subscription_schedule.end_behavior`.
#[derive(Debug, Clone)]
pub enum UniStrEndBehavior {
    /// JSON value: `"cancel"`.
    Cancel,
    /// JSON value: `"none"`.
    NoneX,
    /// JSON value: `"release"`.
    Release,
    /// JSON value: `"renew"`.
    Renew,
}

/// Stripe API location: `subscription_schedule.object`.
#[derive(Debug, Clone)]
pub enum UniStrObject2726CE {
    /// JSON value: `"subscription_schedule"`.
    SubscriptionSchedule,
}

/// Stripe API location: `subscription_schedule.status`.
#[derive(Debug, Clone)]
pub enum UniStrStatus826DFA {
    /// JSON value: `"active"`.
    Active,
    /// JSON value: `"canceled"`.
    Canceled,
    /// JSON value: `"completed"`.
    Completed,
    /// JSON value: `"not_started"`.
    NotStarted,
    /// JSON value: `"released"`.
    Released,
}

/// Stripe API location: `subscription_schedule_add_invoice_item`.
#[derive(Debug, Clone)]
pub struct SubscriptionScheduleAddInvoiceItem {
    pub price: UniPrice82FA7B,
    pub quantity: Option<i64>,
    pub tax_rates: Option<Vec<TaxRate>>,
}

/// Stripe API location: `subscription_schedule_add_invoice_item.price`, `subscription_schedule_configuration_item.price`.
/// Encoded in JSON without a tag: the variant is chosen by the shape of the value.
#[derive(Debug, Clone)]
pub enum UniPrice82FA7B {
    String(String),
    Price(Price),
    DeletedPrice(DeletedPrice),
}

/// Stripe API location: `subscription_schedule_configuration_item`.
#[derive(Debug, Clone)]
pub struct SubscriptionScheduleConfigurationItem {
    pub price: UniPrice82FA7B,
    pub billing_thresholds: Option<SubscriptionItemBillingThresholds>,
    pub quantity: Option<i64>,
    pub tax_rates: Option<Vec<TaxRate>>,
}

/// Stripe API location: `subscription_schedule_current_phase`.
#[derive(Debug, Clone)]
pub struct SubscriptionScheduleCurrentPhase {
    pub end_date: i64,
    pub start_date: i64,
}

/// Stripe API location: `subscription_schedule_phase_configuration`.
#[derive(Debug)]
pub struct SubscriptionSchedulePhaseConfiguration {
    pub coupon: Option<UniCoupon>,
    pub default_payment_method: Option<UniPaymentMethod>,
    pub add_invoice_items: Vec<SubscriptionScheduleAddInvoiceItem>,
    pub application_fee_percent: Option<F64Bits>,
    pub billing_cycle_anchor: Option<UniStrBillingCycleAnchor>,
    pub billing_thresholds: Option<SubscriptionBillingThresholds>,
    pub collection_method: Option<UniStrCollectionMethod>,
    pub default_tax_rates: Option<Vec<TaxRate>>,
    pub end_date: i64,
    pub invoice_settings: Option<InvoiceSettingSubscriptionScheduleSetting>,
    pub items: Vec<SubscriptionScheduleConfigurationItem>,
    pub proration_behavior: UniStrProrationBehavior,
    pub start_date: i64,
    pub transfer_data: Option<SubscriptionTransferData>,
    pub trial_end: Option<i64>,
}

/// Stripe API location: `subscription_schedule_phase_configuration.billing_cycle_anchor`, `subscription_schedules_resource_default_settings.billing_cycle_anchor`.
#[derive(Debug, Clone)]
pub enum UniStrBillingCycleAnchor {
    /// JSON value: `"automatic"`.
    Automatic,
    /// JSON value: `"phase_start"`.
    PhaseStart,
}

/// Stripe API location: `subscription_schedule_phase_configuration.coupon`.
/// Encoded in JSON without a tag: the variant is chosen by the shape of the value.
#[derive(Debug, Clone)]
pub enum UniCoupon {
    String(String),
    Coupon(Coupon),
    DeletedCoupon(DeletedCoupon),
}

/// Stripe API location: `subscription_schedules_resource_default_settings`.
#[derive(Debug)]
pub struct SubscriptionSchedulesResourceDefaultSettings {
    pub default_payment_method: Option<UniPaymentMethod>,
    pub billing_cycle_anchor: UniStrBillingCycleAnchor,
    pub billing_thresholds: Option<SubscriptionBillingThresholds>,
    pub collection_method: Option<UniStrCollectionMethod>,
    pub invoice_settings: Option<InvoiceSettingSubscriptionScheduleSetting>,
    pub transfer_data: Option<SubscriptionTransferData>,
}

/// Stripe API location: `subscription_transfer_data`.
#[derive(Debug)]
pub struct SubscriptionTransferData {
    pub destination: UniAccount,
    pub amount_percent: Option<F64Bits>,
}

/// Stripe API location: `subscriptions_resource_pause_collection`.
#[derive(Debug, Clone)]
pub struct SubscriptionsResourcePauseCollection {
    pub behavior: UniStrBehavior,
    pub resumes_at: Option<i64>,
}

/// Stripe API location: `subscriptions_resource_pause_collection.behavior`.
#[derive(Debug, Clone)]
pub enum UniStrBehavior {
    /// JSON value: `"keep_as_draft"`.
    KeepAsDraft,
    /// JSON value: `"mark_uncollectible"`.
    MarkUncollectible,
    /// JSON value: `"void"`.
    Void,
}

/// Stripe API location: `subscriptions_resource_pending_update`.
#[derive(Debug, Clone)]
pub struct SubscriptionsResourcePendingUpdate {
    pub billing_cycle_anchor: Option<i64>,
    pub expires_at: i64,
    pub subscription_items: Option<Vec<SubscriptionItem>>,
    pub trial_end: Option<i64>,
    pub trial_from_plan: Option<bool>,
}

/// Stripe API location: `tax_deducted_at_source`.
#[derive(Debug, Clone)]
pub struct TaxDeductedAtSource {
    pub object: UniStrObject1FDC9D,
    pub id: String,
    pub period_end: i64,
    pub period_start: i64,
    pub tax_deduction_account_number: String,
}

impl GetId for TaxDeductedAtSource {
    open spec fn has_id(&self) -> bool {
        true
    }

    open spec fn id_of(&self) -> String {
        self.id
    }

    fn get_id(&self) -> (r: String) {
        self.id.clone()
    }
}

/// Stripe API location: `tax_deducted_at_source.object`.
#[derive(Debug, Clone)]
pub enum UniStrObject1FDC9D {
    /// JSON value: `"tax_deducted_at_source"`.
    TaxDeductedAtSource,
}

/// Stripe API location: `tax_id`.
#[derive(Debug)]
pub struct TaxId {
    pub object: UniStrObject397A62,
    /// JSON key: `type`.
    pub type_x: UniStrType805F73,
    pub id: String,
    pub customer: Option<UniCustomerEDC00A>,
    pub country: Option<String>,
    pub value: String,
    pub verification: Option<TaxIdVerification>,
    pub created: i64,
    pub livemode: bool,
}

impl GetId for TaxId {
    open spec fn has_id(&self) -> bool {
        true
    }

    open spec fn id_of(&self) -> String {
        self.id
    }

    fn get_id(&self) -> (r: String) {
        self.id.clone()
    }
}

/// Stripe API location: `tax_id_verification`.
#[derive(Debug, Clone)]
pub struct TaxIdVerification {
    pub status: UniStrStatusF68D8E,
    pub verified_address: Option<String>,
    pub verified_name: Option<String>,
}

/// Stripe API location: `tax_id_verification.status`.
#[derive(Debug, Clone)]
pub enum UniStrStatusF68D8E {
    /// JSON value: `"pending"`.
    Pending,
    /// JSON value: `"unavailable"`.
    Unavailable,
    /// JSON value: `"unverified"`.
    Unverified,
    /// JSON value: `"verified"`.
    Verified,
}

/// Stripe API location: `tax_rate`.
#[derive(Debug, Clone)]
pub struct TaxRate {
    pub object: UniStrObjectC1E2CE,
    pub id: String,
    pub active: bool,
    pub description: Option<String>,
    pub display_name: String,
    pub inclusive: bool,
    pub jurisdiction: Option<String>,
    pub percentage: F64Bits,
    pub created: i64,
    pub livemode: bool,
    pub metadata: Option<Metadata7CCA3C>,
}

impl GetId for TaxRate {
    open spec fn has_id(&self) -> bool {
        true
    }

    open spec fn id_of(&self) -> String {
        self.id
    }

    fn get_id(&self) -> (r: String) {
        self.id.clone()
    }
}

/// Stripe API location: `tax_rate.object`.
#[derive(Debug, Clone)]
pub enum UniStrObjectC1E2CE {
    /// JSON value: `"tax_rate"`.
    TaxRate,
}

/// Stripe API location: `terminal.connection_token`.
#[derive(Debug, Clone)]
pub struct TerminalConnectionToken {
    pub object: UniStrObject1B6726,
    pub location: Option<String>,
    pub secret: String,
}

/// Stripe API location: `terminal.connection_token.object`.
#[derive(Debug, Clone)]
pub enum UniStrObject1B6726 {
    /// JSON value: `"terminal.connection_token"`.
    TerminalDotConnectionToken,
}

/// Stripe API location: `terminal.location`.
#[derive(Debug, Clone)]
pub struct TerminalLocationLocation {
    pub object: UniStrObject95542E,
    pub id: String,
    pub address: Address,
    pub display_name: String,
    pub livemode: bool,
    pub metadata: Metadata8076DB,
}

impl GetId for TerminalLocationLocation {
    open spec fn has_id(&self) -> bool {
        true
    }

    open spec fn id_of(&self) -> String {
        self.id
    }

    fn get_id(&self) -> (r: String) {
        self.id.clone()
    }
}

/// Stripe API location: `terminal.reader`.
#[derive(Debug, Clone)]
pub struct TerminalReaderReader {
    pub object: UniStrObjectEAD5C5,
    pub id: String,
    pub device_sw_version: Option<String>,
    pub device_type: UniStrDeviceType,
    pub ip_address: Option<String>,
    pub label: String,
    pub location: Option<String>,
    pub serial_number: String,
    pub status: Option<String>,
    pub livemode: bool,
    pub metadata: Metadata8076DB,
}

impl GetId for TerminalReaderReader {
    open spec fn has_id(&self) -> bool {
        true
    }

    open spec fn id_of(&self) -> String {
        self.id
    }

    fn get_id(&self) -> (r: String) {
        self.id.clone()
    }
}

/// Stripe API location: `three_d_secure`.
#[derive(Debug)]
pub struct ThreeDSecure {
    pub object: UniStrObject9E785A,
    pub id: String,
    pub amount: i64,
    pub authenticated: bool,
    pub card: Box<Card>,
    pub currency: String,
    pub redirect_url: Option<String>,
    pub status: String,
    pub created: i64,
    pub livemode: bool,
}

impl GetId for ThreeDSecure {
    open spec fn has_id(&self) -> bool {
        true
    }

    open spec fn id_of(&self) -> String {
        self.id
    }

    fn get_id(&self) -> (r: String) {
        self.id.clone()
    }
}

/// Stripe API location: `three_d_secure.object`.
#[derive(Debug, Clone)]
pub enum UniStrObject9E785A {
    /// JSON value: `"three_d_secure"`.
    ThreeDSecure,
}

/// Stripe API location: `three_d_secure_details`.
#[derive(Debug, Clone)]
pub struct ThreeDSecureDetails {
    pub authentication_flow: Option<UniStrAuthenticationFlow>,
    pub result: UniStrResult,
    pub result_reason: Option<UniStrResultReason>,
    pub version: UniStrVersion,
}

/// Stripe API location: `three_d_secure_details.authentication_flow`.
#[derive(Debug, Clone)]
pub enum UniStrAuthenticationFlow {
    /// JSON value: `"challenge"`.
    Challenge,
    /// JSON value: `"frictionless"`.
    Frictionless,
}

/// Stripe API location: `three_d_secure_details.result`.
#[derive(Debug, Clone)]
pub enum UniStrResult {
    /// JSON value: `"attempt_acknowledged"`.
    AttemptAcknowledged,
    /// JSON value: `"authenticated"`.
    Authenticated,
    /// JSON value: `"failed"`.
    Failed,
    /// JSON value: `"not_supported"`.
    NotSupported,
    /// JSON value: `"processing_error"`.
    ProcessingError,
}

/// Stripe API location: `three_d_secure_details.result_reason`.
#[derive(Debug, Clone)]
pub enum UniStrResultReason {
    /// JSON value: `"abandoned"`.
    Abandoned,
    /// JSON value: `"bypassed"`.
    Bypassed,
    /// JSON value: `"canceled"`.
    Canceled,
    /// JSON value: `"card_not_enrolled"`.
    CardNotEnrolled,
    /// JSON value: `"network_not_supported"`.
    NetworkNotSupported,
    /// JSON value: `"protocol_error"`.
    ProtocolError,
    /// JSON value: `"rejected"`.
    Rejected,
}

/// Stripe API location: `three_d_secure_details.version`.
#[derive(Debug, Clone)]
pub enum UniStrVersion {
    /// JSON value: `"1.0.2"`.
    X1Dot0Dot2,
    /// JSON value: `"2.1.0"`.
    X2Dot1Dot0,
    /// JSON value: `"2.2.0"`.
    X2Dot2Dot0,
}

/// Stripe API location: `three_d_secure_usage`.
#[derive(Debug, Clone)]
pub struct ThreeDSecureUsage {
    pub supported: bool,
}

/// Stripe API location: `token`.
#[derive(Debug)]
pub struct Token {
    pub object: UniStrObjectE216BE,
    /// JSON key: `type`.
    pub type_x: String,
    pub id: String,
    pub bank_account: Option<BankAccount>,
    pub card: Box<Option<Card>>,
    pub client_ip: Option<String>,
    pub used: bool,
    pub created: i64,
    pub livemode: bool,
}

impl GetId for Token {
    open spec fn has_id(&self) -> bool {
        true
    }

    open spec fn id_of(&self) -> String {
        self.id
    }

    fn get_id(&self) -> (r: String) {
        self.id.clone()
    }
}

/// Stripe API location: `token.object`.
#[derive(Debug, Clone)]
pub enum UniStrObjectE216BE {
    /// JSON value: `"token"`.
    Token,
}

/// Stripe API location: `topup`.
#[derive(Debug)]
pub struct Topup {
    pub object: UniStrObjectBACBB3,
    pub id: String,
    pub balance_transaction: Option<UniBalanceTransaction>,
    pub amount: i64,
    pub currency: String,
    pub description: Option<String>,
    pub expected_availability_date: Option<i64>,
    pub failure_code: Option<String>,
    pub failure_message: Option<String>,
    pub source: Source,
    pub statement_descriptor: Option<String>,
    pub status: UniStrStatus433A86,
    pub transfer_group: Option<String>,
    pub created: i64,
    pub livemode: bool,
    pub metadata: Metadata8076DB,
}

impl GetId for Topup {
    open spec fn has_id(&self) -> bool {
        true
    }

    open spec fn id_of(&self) -> String {
        self.id
    }

    fn get_id(&self) -> (r: String) {
        self.id.clone()
    }
}

/// Stripe API location: `topup.object`.
#[derive(Debug, Clone)]
pub enum UniStrObjectBACBB3 {
    /// JSON value: `"topup"`.
    Topup,
}

/// Stripe API location: `topup.status`.
#[derive(Debug, Clone)]
pub enum UniStrStatus433A86 {
    /// JSON value: `"canceled"`.
    Canceled,
    /// JSON value: `"failed"`.
    Failed,
    /// JSON value: `"pending"`.
    Pending,
    /// JSON value: `"reversed"`.
    Reversed,
    /// JSON value: `"succeeded"`.
    Succeeded,
}

/// Stripe API location: `transfer`.
#[derive(Debug)]
pub struct Transfer {
    pub object: UniStrObjectE37CA2,
    pub id: String,
    pub balance_transaction: Option<UniBalanceTransaction>,
    pub destination: Option<UniAccount>,
    pub destination_payment: Option<UniCharge>,
    pub source_transaction: Option<UniCharge>,
    pub amount: i64,
    pub amount_reversed: i64,
    pub currency: String,
    pub description: Option<String>,
    pub reversals: TransferReversalList675B54,
    pub reversed: bool,
    pub source_type: Option<String>,
    pub transfer_group: Option<String>,
    pub created: i64,
    pub livemode: bool,
    pub metadata: Metadata8076DB,
}

impl GetId for Transfer {
    open spec fn has_id(&self) -> bool {
        true
    }

    open spec fn id_of(&self) -> String {
        self.id
    }

    fn get_id(&self) -> (r: String) {
        self.id.clone()
    }
}

/// Stripe API location: `transfer.object`.
#[derive(Debug, Clone)]
pub enum UniStrObjectE37CA2 {
    /// JSON value: `"transfer"`.
    Transfer,
}

/// Stripe API location: `transfer.reversals`.
#[derive(Debug)]
pub struct TransferReversalList675B54 {
    pub object: UniStrObject344B0E,
    pub data: Vec<TransferReversal>,
    pub has_more: bool,
    pub url: String,
}

impl PageMeta for TransferReversalList675B54 {
    open spec fn page_ready(&self) -> bool {
        true
    }

    open spec fn page_ids(&self) -> Seq<String> {
        self.data@.map_values(|x: TransferReversal| x.id)
    }

    open spec fn page_has_more(&self) -> bool {
        self.has_more
    }

    fn get_from_to(&self) -> (r: Option<(String, String)>) {
        if self.data.len() == 0 {
            return None;
        }
        Some((self.data[0].id.clone(), self.data[self.data.len() - 1].id.clone()))
    }

    fn get_has_more(&self) -> (r: bool) {
        self.has_more
    }
}

/// Stripe API location: `transfer_data`.
#[derive(Debug)]
pub struct TransferData {
    pub destination: UniAccount,
    pub amount: Option<i64>,
}

/// Stripe API location: `transfer_reversal`.
#[derive(Debug)]
pub struct TransferReversal {
    pub object: UniStrObject1EB608,
    pub id: String,
    pub balance_transaction: Option<UniBalanceTransaction>,
    pub destination_payment_refund: Option<UniRefund>,
    pub source_refund: Option<UniRefund>,
    pub transfer: UniTransfer,
    pub amount: i64,
    pub currency: String,
    pub created: i64,
    pub metadata: Option<Metadata7CCA3C>,
}

impl GetId for TransferReversal {
    open spec fn has_id(&self) -> bool {
        true
    }

    open spec fn id_of(&self) -> String {
        self.id
    }

    fn get_id(&self) -> (r: String) {
        self.id.clone()
    }
}

/// Stripe API location: `transfer_reversal.object`.
#[derive(Debug, Clone)]
pub enum UniStrObject1EB608 {
    /// JSON value: `"transfer_reversal"`.
    TransferReversal,
}

/// Stripe API location: `transfer_schedule`.
#[derive(Debug, Clone)]
pub struct TransferSchedule {
    pub delay_days: i64,
    pub interval: String,
    pub monthly_anchor: Option<i64>,
    pub weekly_anchor: Option<String>,
}

/// Stripe API location: `transform_quantity`.
#[derive(Debug, Clone)]
pub struct TransformQuantity {
    pub divide_by: i64,
    pub round: UniStrRound,
}

/// Stripe API location: `transform_quantity.round`, `transform_usage.round`.
#[derive(Debug, Clone)]
pub enum UniStrRound {
    /// JSON value: `"down"`.
    Down,
    /// JSON value: `"up"`.
    Up,
}

/// Stripe API location: `transform_usage`.
#[derive(Debug, Clone)]
pub struct TransformUsage {
    pub divide_by: i64,
    pub round: UniStrRound,
}

/// Stripe API location: `usage_record`.
#[derive(Debug, Clone)]
pub struct UsageRecord {
    pub object: UniStrObject1E9E51,
    pub id: String,
    pub quantity: i64,
    pub subscription_item: String,
    pub timestamp: i64,
    pub livemode: bool,
}

impl GetId for UsageRecord {
    open spec fn has_id(&self) -> bool {
        true
    }

    open spec fn id_of(&self) -> String {
        self.id
    }

    fn get_id(&self) -> (r: String) {
        self.id.clone()
    }
}

/// Stripe API location: `usage_record.object`.
#[derive(Debug, Clone)]
pub enum UniStrObject1E9E51 {
    /// JSON value: `"usage_record"`.
    UsageRecord,
}

/// Stripe API location: `usage_record_summary`.
#[derive(Debug, Clone)]
pub struct UsageRecordSummary {
    pub object: UniStrObjectB59933,
    pub id: String,
    pub invoice: Option<String>,
    pub period: Period640F9C,
    pub subscription_item: String,
    pub total_usage: i64,
    pub livemode: bool,
}

impl GetId for UsageRecordSummary {
    open spec fn has_id(&self) -> bool {
        true
    }

    open spec fn id_of(&self) -> String {
        self.id
    }

    fn get_id(&self) -> (r: String) {
        self.id.clone()
    }
}

/// Stripe API location: `usage_record_summary.object`.
#[derive(Debug, Clone)]
pub enum UniStrObjectB59933 {
    /// JSON value: `"usage_record_summary"`.
    UsageRecordSummary,
}

/// Stripe API location: `webhook_endpoint`.
#[derive(Debug, Clone)]
pub struct NotificationWebhookEndpoint {
    pub object: UniStrObjectBDDC67,
    pub id: String,
    pub api_version: Option<String>,
    pub application: Option<String>,
    pub description: Option<String>,
    pub enabled_events: Vec<String>,
    pub secret: Option<String>,
    pub status: String,
    pub url: String,
    pub created: i64,
    pub livemode: bool,
    pub metadata: Metadata8076DB,
}

impl GetId for NotificationWebhookEndpoint {
    open spec fn has_id(&self) -> bool {
        true
    }

    open spec fn id_of(&self) -> String {
        self.id
    }

    fn get_id(&self) -> (r: String) {
        self.id.clone()
    }
}

impl Account {
    /// Whether `other` copies the fields of `self` that are plain values (`id`, `charges_enabled`, `country`, `default_currency`, `details_submitted`, `email`, `payouts_enabled`, `created`).
    pub open spec fn clone_agrees(&self, other: &Self) -> bool {
        &&& self.id == other.id
        &&& self.charges_enabled == other.charges_enabled
        &&& self.country == other.country
        &&& self.default_currency == other.default_currency
        &&& self.details_submitted == other.details_submitted
        &&& self.email == other.email
        &&& self.payouts_enabled == other.payouts_enabled
        &&& self.created == other.created
    }
}

impl Clone for Account {
    fn clone(&self) -> (r: Self)
        ensures
            self.clone_agrees(&r),
        decreases self,
    {
        Account {
            object: self.object.clone(),
            type_x: self.type_x.clone(),
            id: self.id.clone(),
            business_profile: self.business_profile.clone(),
            business_type: self.business_type.clone(),
            capabilities: self.capabilities.clone(),
            charges_enabled: self.charges_enabled,
            company: (match &self.company { Some(x) => Some(x.clone()), None => None }),
            country: (match &self.country { Some(x) => Some(x.clone()), None => None }),
            default_currency: (match &self.default_currency { Some(x) => Some(x.clone()), None => None }),
            details_submitted: self.details_submitted,
            email: (match &self.email { Some(x) => Some(x.clone()), None => None }),
            external_accounts: (match &self.external_accounts { Some(x) => Some(x.clone()), None => None }),
            individual: (match &self.individual { Some(x) => Some(x.clone()), None => None }),
            payouts_enabled: self.payouts_enabled,
            requirements: self.requirements.clone(),
            settings: (match &self.settings { Some(x) => Some(x.clone()), None => None }),
            tos_acceptance: self.tos_acceptance.clone(),
            created: self.created,
            metadata: self.metadata.clone(),
        }
    }
}

impl ExternalAccountList0165E1 {
    /// Whether `other` copies the fields of `self` that are plain values (`has_more`, `url`).
    pub open spec fn clone_agrees(&self, other: &Self) -> bool {
        &&& self.has_more == other.has_more
        &&& self.url == other.url
    }
}

impl Clone for ExternalAccountList0165E1 {
    fn clone(&self) -> (r: Self)
        ensures
            self.clone_agrees(&r),
        decreases self,
    {
        ExternalAccountList0165E1 {
            object: self.object.clone(),
            data: crate::responses::clone_vec_uni_polymorphic70_b_a_f_a(&self.data),
            has_more: self.has_more,
            url: self.url.clone(),
        }
    }
}

impl AccountBrandingSettings {
    /// Whether `other` copies the fields of `self` that are plain values (`primary_color`, `secondary_color`).
    pub open spec fn clone_agrees(&self, other: &Self) -> bool {
        &&& self.primary_color == other.primary_color
        &&& self.secondary_color == other.secondary_color
    }
}

impl Clone for AccountBrandingSettings {
    fn clone(&self) -> (r: Self)
        ensures
            self.clone_agrees(&r),
        decreases self,
    {
        AccountBrandingSettings {
            icon: (match &self.icon { Some(x) => Some(x.clone()), None => None }),
            logo: (match &self.logo { Some(x) => Some(x.clone()), None => None }),
            primary_color: (match &self.primary_color { Some(x) => Some(x.clone()), None => None }),
            secondary_color: (match &self.secondary_color { Some(x) => Some(x.clone()), None => None }),
        }
    }
}

impl UniFile5BD414 {
    /// Whether `other` is the same variant as `self`, with the same payload where it is a plain
    /// value, and a payload that agrees by its own `clone_agrees` where it has one.
    pub open spec fn clone_agrees(&self, other: &Self) -> bool {
        match self {
            UniFile5BD414::String(x) => other matches UniFile5BD414::String(y) && x == y,
            UniFile5BD414::File(x) => other matches UniFile5BD414::File(y) && x.clone_agrees(&y),
        }
    }
}

impl Clone for UniFile5BD414 {
    fn clone(&self) -> (r: Self)
        ensures
            self.clone_agrees(&r),
        decreases self,
    {
        match self {
            UniFile5BD414::String(x) => UniFile5BD414::String(x.clone()),
            UniFile5BD414::File(x) => UniFile5BD414::File(x.clone()),
        }
    }
}

impl AccountSettings {
    /// Whether `other` copies `self` as far as its plain fields go (it has none).
    pub open spec fn clone_agrees(&self, other: &Self) -> bool {
        true
    }
}

impl Clone for AccountSettings {
    fn clone(&self) -> (r: Self)
        ensures
            self.clone_agrees(&r),
        decreases self,
    {
        AccountSettings {
            bacs_debit_payments: self.bacs_debit_payments.clone(),
            branding: self.branding.clone(),
            card_payments: self.card_payments.clone(),
            dashboard: self.dashboard.clone(),
            payments: self.payments.clone(),
            payouts: self.payouts.clone(),
            sepa_debit_payments: self.sepa_debit_payments.clone(),
        }
    }
}

impl AlipayAccount {
    /// Whether `other` copies the fields of `self` that are plain values (`id`, `fingerprint`, `payment_amount`, `payment_currency`, `reusable`, `used`, `username`, `created`, `livemode`).
    pub open spec fn clone_agrees(&self, other: &Self) -> bool {
        &&& self.id == other.id
        &&& self.fingerprint == other.fingerprint
        &&& self.payment_amount == other.payment_amount
        &&& self.payment_currency == other.payment_currency
        &&& self.reusable == other.reusable
        &&& self.used == other.used
        &&& self.username == other.username
        &&& self.created == other.created
        &&& self.livemode == other.livemode
    }
}

impl Clone for AlipayAccount {
    fn clone(&self) -> (r: Self)
        ensures
            self.clone_agrees(&r),
        decreases self,
    {
        AlipayAccount {
            object: self.object.clone(),
            id: self.id.clone(),
            customer: (match &self.customer { Some(x) => Some(x.clone()), None => None }),
            fingerprint: self.fingerprint.clone(),
            payment_amount: self.payment_amount,
            payment_currency: (match &self.payment_currency { Some(x) => Some(x.clone()), None => None }),
            reusable: self.reusable,
            used: self.used,
            username: self.username.clone(),
            created: self.created,
            livemode: self.livemode,
            metadata: self.metadata.clone(),
        }
    }
}

impl UniCustomerC00F6E {
    /// Whether `other` is the same variant as `self`, with the same payload where it is a plain
    /// value, and a payload that agrees by its own `clone_agrees` where it has one.
    pub open spec fn clone_agrees(&self, other: &Self) -> bool {
        match self {
            UniCustomerC00F6E::String(x) => other matches UniCustomerC00F6E::String(y) && x == y,
            UniCustomerC00F6E::Customer(x) => other matches UniCustomerC00F6E::Customer(y) && (*x).clone_agrees(&*y),
            UniCustomerC00F6E::DeletedCustomer(_) => other is DeletedCustomer,
        }
    }
}

impl Clone for UniCustomerC00F6E {
    fn clone(&self) -> (r: Self)
        ensures
            self.clone_agrees(&r),
        decreases self,
    {
        match self {
            UniCustomerC00F6E::String(x) => UniCustomerC00F6E::String(x.clone()),
            UniCustomerC00F6E::Customer(x) => UniCustomerC00F6E::Customer(Box::new((&**x).clone())),
            UniCustomerC00F6E::DeletedCustomer(x) => UniCustomerC00F6E::DeletedCustomer(x.clone()),
        }
    }
}

impl APIErrors {
    /// Whether `other` copies the fields of `self` that are plain values (`charge`, `code`, `decline_code`, `doc_url`, `message`, `param`, `payment_method_type`).
    pub open spec fn clone_agrees(&self, other: &Self) -> bool {
        &&& self.charge == other.charge
        &&& self.code == other.code
        &&& self.decline_code == other.decline_code
        &&& self.doc_url == other.doc_url
        &&& self.message == other.message
        &&& self.param == other.param
        &&& self.payment_method_type == other.payment_method_type
    }
}

impl Clone for APIErrors {
    fn clone(&self) -> (r: Self)
        ensures
            self.clone_agrees(&r),
        decreases self,
    {
        APIErrors {
            type_x: self.type_x.clone(),
            source: (match &self.source { Some(x) => Some(x.clone()), None => None }),
            charge: (match &self.charge { Some(x) => Some(x.clone()), None => None }),
            code: (match &self.code { Some(x) => Some(x.clone()), None => None }),
            decline_code: (match &self.decline_code { Some(x) => Some(x.clone()), None => None }),
            doc_url: (match &self.doc_url { Some(x) => Some(x.clone()), None => None }),
            message: (match &self.message { Some(x) => Some(x.clone()), None => None }),
            param: (match &self.param { Some(x) => Some(x.clone()), None => None }),
            payment_intent: Box::new((match (&*self.payment_intent) { Some(x) => Some(x.clone()), None => None })),
            payment_method: Box::new((match (&*self.payment_method) { Some(x) => Some(x.clone()), None => None })),
            payment_method_type: (match &self.payment_method_type { Some(x) => Some(x.clone()), None => None }),
            setup_intent: Box::new((match (&*self.setup_intent) { Some(x) => Some(x.clone()), None => None })),
        }
    }
}

impl UniSourceEC1AE6 {
    /// Whether `other` is the same variant as `self`, with the same payload where it is a plain
    /// value, and a payload that agrees by its own `clone_agrees` where it has one.
    pub open spec fn clone_agrees(&self, other: &Self) -> bool {
        match self {
            UniSourceEC1AE6::BankAccount(x) => other matches UniSourceEC1AE6::BankAccount(y) && x.clone_agrees(&y),
            UniSourceEC1AE6::Card(x) => other matches UniSourceEC1AE6::Card(y) && (*x).clone_agrees(&*y),
            UniSourceEC1AE6::Source(_) => other is Source,
        }
    }
}

impl Clone for UniSourceEC1AE6 {
    fn clone(&self) -> (r: Self)
        ensures
            self.clone_agrees(&r),
        decreases self,
    {
        match self {
            UniSourceEC1AE6::BankAccount(x) => UniSourceEC1AE6::BankAccount(x.clone()),
            UniSourceEC1AE6::Card(x) => UniSourceEC1AE6::Card(Box::new((&**x).clone())),
            UniSourceEC1AE6::Source(x) => UniSourceEC1AE6::Source(x.clone()),
        }
    }
}

impl PlatformFee {
    /// Whether `other` copies the fields of `self` that are plain values (`id`, `amount`, `amount_refunded`, `currency`, `refunded`, `created`, `livemode`).
    pub open spec fn clone_agrees(&self, other: &Self) -> bool {
        &&& self.id == other.id
        &&& self.amount == other.amount
        &&& self.amount_refunded == other.amount_refunded
        &&& self.currency == other.currency
        &&& self.refunded == other.refunded
        &&& self.created == other.created
        &&& self.livemode == other.livemode
    }
}

impl Clone for PlatformFee {
    fn clone(&self) -> (r: Self)
        ensures
            self.clone_agrees(&r),
        decreases self,
    {
        PlatformFee {
            object: self.object.clone(),
            id: self.id.clone(),
            account: self.account.clone(),
            application: self.application.clone(),
            balance_transaction: (match &self.balance_transaction { Some(x) => Some(x.clone()), None => None }),
            charge: self.charge.clone(),
            originating_transaction: (match &self.originating_transaction { Some(x) => Some(x.clone()), None => None }),
            amount: self.amount,
            amount_refunded: self.amount_refunded,
            currency: self.currency.clone(),
            refunded: self.refunded,
            refunds: self.refunds.clone(),
            created: self.created,
            livemode: self.livemode,
        }
    }
}

impl UniAccount {
    /// Whether `other` is the same variant as `self`, with the same payload where it is a plain
    /// value, and a payload that agrees by its own `clone_agrees` where it has one.
    pub open spec fn clone_agrees(&self, other: &Self) -> bool {
        match self {
            UniAccount::String(x) => other matches UniAccount::String(y) && x == y,
            UniAccount::Account(x) => other matches UniAccount::Account(y) && x.clone_agrees(&y),
        }
    }
}

impl Clone for UniAccount {
    fn clone(&self) -> (r: Self)
        ensures
            self.clone_agrees(&r),
        decreases self,
    {
        match self {
            UniAccount::String(x) => UniAccount::String(x.clone()),
            UniAccount::Account(x) => UniAccount::Account(x.clone()),
        }
    }
}

impl UniBalanceTransaction {
    /// Whether `other` is the same variant as `self`, with the same payload where it is a plain
    /// value, and a payload that agrees by its own `clone_agrees` where it has one.
    pub open spec fn clone_agrees(&self, other: &Self) -> bool {
        match self {
            UniBalanceTransaction::String(x) => other matches UniBalanceTransaction::String(y) && x == y,
            UniBalanceTransaction::BalanceTransaction(x) => other matches UniBalanceTransaction::BalanceTransaction(y) && x.clone_agrees(&y),
        }
    }
}

impl Clone for UniBalanceTransaction {
    fn clone(&self) -> (r: Self)
        ensures
            self.clone_agrees(&r),
        decreases self,
    {
        match self {
            UniBalanceTransaction::String(x) => UniBalanceTransaction::String(x.clone()),
            UniBalanceTransaction::BalanceTransaction(x) => UniBalanceTransaction::BalanceTransaction(x.clone()),
        }
    }
}

impl UniCharge {
    /// Whether `other` is the same variant as `self`, with the same payload where it is a plain
    /// value, and a payload that agrees by its own `clone_agrees` where it has one.
    pub open spec fn clone_agrees(&self, other: &Self) -> bool {
        match self {
            UniCharge::String(x) => other matches UniCharge::String(y) && x == y,
            UniCharge::Charge(x) => other matches UniCharge::Charge(y) && (*x).clone_agrees(&*y),
        }
    }
}

impl Clone for UniCharge {
    fn clone(&self) -> (r: Self)
        ensures
            self.clone_agrees(&r),
        decreases self,
    {
        match self {
            UniCharge::String(x) => UniCharge::String(x.clone()),
            UniCharge::Charge(x) => UniCharge::Charge(Box::new((&**x).clone())),
        }
    }
}

impl FeeRefundListC565F2 {
    /// Whether `other` copies the fields of `self` that are plain values (`has_more`, `url`).
    pub open spec fn clone_agrees(&self, other: &Self) -> bool {
        &&& self.has_more == other.has_more
        &&& self.url == other.url
    }
}

impl Clone for FeeRefundListC565F2 {
    fn clone(&self) -> (r: Self)
        ensures
            self.clone_agrees(&r),
        decreases self,
    {
        FeeRefundListC565F2 {
            object: self.object.clone(),
            data: crate::types::clone_vec_fee_refund(&self.data),
            has_more: self.has_more,
            url: self.url.clone(),
        }
    }
}

impl BalanceTransaction {
    /// Whether `other` copies the fields of `self` that are plain values (`id`, `amount`, `available_on`, `currency`, `description`, `exchange_rate`, `fee`, `net`, `reporting_category`, `status`, `created`).
    pub open spec fn clone_agrees(&self, other: &Self) -> bool {
        &&& self.id == other.id
        &&& self.amount == other.amount
        &&& self.available_on == other.available_on
        &&& self.currency == other.currency
        &&& self.description == other.description
        &&& self.exchange_rate == other.exchange_rate
        &&& self.fee == other.fee
        &&& self.net == other.net
        &&& self.reporting_category == other.reporting_category
        &&& self.status == other.status
        &&& self.created == other.created
    }
}

impl Clone for BalanceTransaction {
    fn clone(&self) -> (r: Self)
        ensures
            self.clone_agrees(&r),
        decreases self,
    {
        BalanceTransaction {
            object: self.object.clone(),
            type_x: self.type_x.clone(),
            id: self.id.clone(),
            source: Box::new((match (&*self.source) { Some(x) => Some(x.clone()), None => None })),
            amount: self.amount,
            available_on: self.available_on,
            currency: self.currency.clone(),
            description: (match &self.description { Some(x) => Some(x.clone()), None => None }),
            exchange_rate: self.exchange_rate,
            fee: self.fee,
            fee_details: self.fee_details.clone(),
            net: self.net,
            reporting_category: self.reporting_category.clone(),
            status: self.status.clone(),
            created: self.created,
        }
    }
}

impl UniSource231860 {
    /// Whether `other` is the same variant as `self`, with the same payload where it is a plain
    /// value, and a payload that agrees by its own `clone_agrees` where it has one.
    pub open spec fn clone_agrees(&self, other: &Self) -> bool {
        match self {
            UniSource231860::String(x) => other matches UniSource231860::String(y) && x == y,
            UniSource231860::PlatformFee(x) => other matches UniSource231860::PlatformFee(y) && x.clone_agrees(&y),
            UniSource231860::Charge(x) => other matches UniSource231860::Charge(y) && (*x).clone_agrees(&*y),
            UniSource231860::ConnectCollectionTransfer(x) => other matches UniSource231860::ConnectCollectionTransfer(y) && x.clone_agrees(&y),
            UniSource231860::Dispute(x) => other matches UniSource231860::Dispute(y) && x.clone_agrees(&y),
            UniSource231860::FeeRefund(x) => other matches UniSource231860::FeeRefund(y) && x.clone_agrees(&y),
            UniSource231860::IssuingAuthorization(x) => other matches UniSource231860::IssuingAuthorization(y) && x.clone_agrees(&y),
            UniSource231860::IssuingDispute(x) => other matches UniSource231860::IssuingDispute(y) && x.clone_agrees(&y),
            UniSource231860::IssuingTransaction(x) => other matches UniSource231860::IssuingTransaction(y) && (*x).clone_agrees(&*y),
            UniSource231860::Payout(x) => other matches UniSource231860::Payout(y) && (*x).clone_agrees(&*y),
            UniSource231860::PlatformTax(_) => other is PlatformTax,
            UniSource231860::Refund(x) => other matches UniSource231860::Refund(y) && (*x).clone_agrees(&*y),
            UniSource231860::ReserveTransaction(_) => other is ReserveTransaction,
            UniSource231860::TaxDeductedAtSource(_) => other is TaxDeductedAtSource,
            UniSource231860::Topup(x) => other matches UniSource231860::Topup(y) && x.clone_agrees(&y),
            UniSource231860::Transfer(x) => other matches UniSource231860::Transfer(y) && x.clone_agrees(&y),
            UniSource231860::TransferReversal(x) => other matches UniSource231860::TransferReversal(y) && x.clone_agrees(&y),
        }
    }
}

impl Clone for UniSource231860 {
    fn clone(&self) -> (r: Self)
        ensures
            self.clone_agrees(&r),
        decreases self,
    {
        match self {
            UniSource231860::String(x) => UniSource231860::String(x.clone()),
            UniSource231860::PlatformFee(x) => UniSource231860::PlatformFee(x.clone()),
            UniSource231860::Charge(x) => UniSource231860::Charge(Box::new((&**x).clone())),
            UniSource231860::ConnectCollectionTransfer(x) => UniSource231860::ConnectCollectionTransfer(x.clone()),
            UniSource231860::Dispute(x) => UniSource231860::Dispute(x.clone()),
            UniSource231860::FeeRefund(x) => UniSource231860::FeeRefund(x.clone()),
            UniSource231860::IssuingAuthorization(x) => UniSource231860::IssuingAuthorization(x.clone()),
            UniSource231860::IssuingDispute(x) => UniSource231860::IssuingDispute(x.clone()),
            UniSource231860::IssuingTransaction(x) => UniSource231860::IssuingTransaction(Box::new((&**x).clone())),
            UniSource231860::Payout(x) => UniSource231860::Payout(Box::new((&**x).clone())),
            UniSource231860::PlatformTax(x) => UniSource231860::PlatformTax(x.clone()),
            UniSource231860::Refund(x) => UniSource231860::Refund(Box::new((&**x).clone())),
            UniSource231860::ReserveTransaction(x) => UniSource231860::ReserveTransaction(x.clone()),
            UniSource231860::TaxDeductedAtSource(x) => UniSource231860::TaxDeductedAtSource(x.clone()),
            UniSource231860::Topup(x) => UniSource231860::Topup(x.clone()),
            UniSource231860::Transfer(x) => UniSource231860::Transfer(x.clone()),
            UniSource231860::TransferReversal(x) => UniSource231860::TransferReversal(x.clone()),
        }
    }
}

impl BankAccount {
    /// Whether `other` copies the fields of `self` that are plain values (`id`, `account_holder_name`, `account_holder_type`, `bank_name`, `country`, `currency`, `default_for_currency`, `fingerprint`, `last4`, `routing_number`, `status`).
    pub open spec fn clone_agrees(&self, other: &Self) -> bool {
        &&& self.id == other.id
        &&& self.account_holder_name == other.account_holder_name
        &&& self.account_holder_type == other.account_holder_type
        &&& self.bank_name == other.bank_name
        &&& self.country == other.country
        &&& self.currency == other.currency
        &&& self.default_for_currency == other.default_for_currency
        &&& self.fingerprint == other.fingerprint
        &&& self.last4 == other.last4
        &&& self.routing_number == other.routing_number
        &&& self.status == other.status
    }
}

impl Clone for BankAccount {
    fn clone(&self) -> (r: Self)
        ensures
            self.clone_agrees(&r),
        decreases self,
    {
        BankAccount {
            object: self.object.clone(),
            id: self.id.clone(),
            account: (match &self.account { Some(x) => Some(x.clone()), None => None }),
            customer: (match &self.customer { Some(x) => Some(x.clone()), None => None }),
            account_holder_name: (match &self.account_holder_name { Some(x) => Some(x.clone()), None => None }),
            account_holder_type: (match &self.account_holder_type { Some(x) => Some(x.clone()), None => None }),
            available_payout_methods: self.available_payout_methods.clone(),
            bank_name: (match &self.bank_name { Some(x) => Some(x.clone()), None => None }),
            country: self.country.clone(),
            currency: self.currency.clone(),
            default_for_currency: self.default_for_currency,
            fingerprint: (match &self.fingerprint { Some(x) => Some(x.clone()), None => None }),
            last4: self.last4.clone(),
            routing_number: (match &self.routing_number { Some(x) => Some(x.clone()), None => None }),
            status: self.status.clone(),
            metadata: self.metadata.clone(),
        }
    }
}

impl AccountCapability {
    /// Whether `other` copies the fields of `self` that are plain values (`id`, `requested`, `requested_at`).
    pub open spec fn clone_agrees(&self, other: &Self) -> bool {
        &&& self.id == other.id
        &&& self.requested == other.requested
        &&& self.requested_at == other.requested_at
    }
}

impl Clone for AccountCapability {
    fn clone(&self) -> (r: Self)
        ensures
            self.clone_agrees(&r),
        decreases self,
    {
        AccountCapability {
            object: self.object.clone(),
            id: self.id.clone(),
            account: self.account.clone(),
            requested: self.requested,
            requested_at: self.requested_at,
            requirements: self.requirements.clone(),
            status: self.status.clone(),
        }
    }
}

impl Card {
    /// Whether `other` copies the fields of `self` that are plain values (`id`, `name`, `address_city`, `address_country`, `address_line1`, `address_line1_check`, `address_line2`, `address_state`, `address_zip`, `address_zip_check`, `brand`, `country`, `currency`, `cvc_check`, `default_for_currency`, `dynamic_last4`, `exp_month`, `exp_year`, `fingerprint`, `funding`, `last4`, `tokenization_method`).
    pub open spec fn clone_agrees(&self, other: &Self) -> bool {
        &&& self.id == other.id
        &&& self.name == other.name
        &&& self.address_city == other.address_city
        &&& self.address_country == other.address_country
        &&& self.address_line1 == other.address_line1
        &&& self.address_line1_check == other.address_line1_check
        &&& self.address_line2 == other.address_line2
        &&& self.address_state == other.address_state
        &&& self.address_zip == other.address_zip
        &&& self.address_zip_check == other.address_zip_check
        &&& self.brand == other.brand
        &&& self.country == other.country
        &&& self.currency == other.currency
        &&& self.cvc_check == other.cvc_check
        &&& self.default_for_currency == other.default_for_currency
        &&& self.dynamic_last4 == other.dynamic_last4
        &&& self.exp_month == other.exp_month
        &&& self.exp_year == other.exp_year
        &&& self.fingerprint == other.fingerprint
        &&& self.funding == other.funding
        &&& self.last4 == other.last4
        &&& self.tokenization_method == other.tokenization_method
    }
}

impl Clone for Card {
    fn clone(&self) -> (r: Self)
        ensures
            self.clone_agrees(&r),
        decreases self,
    {
        Card {
            object: self.object.clone(),
            id: self.id.clone(),
            name: (match &self.name { Some(x) => Some(x.clone()), None => None }),
            account: (match &self.account { Some(x) => Some(x.clone()), None => None }),
            customer: (match &self.customer { Some(x) => Some(x.clone()), None => None }),
            recipient: (match &self.recipient { Some(x) => Some(x.clone()), None => None }),
            address_city: (match &self.address_city { Some(x) => Some(x.clone()), None => None }),
            address_country: (match &self.address_country { Some(x) => Some(x.clone()), None => None }),
            address_line1: (match &self.address_line1 { Some(x) => Some(x.clone()), None => None }),
            address_line1_check: (match &self.address_line1_check { Some(x) => Some(x.clone()), None => None }),
            address_line2: (match &self.address_line2 { Some(x) => Some(x.clone()), None => None }),
            address_state: (match &self.address_state { Some(x) => Some(x.clone()), None => None }),
            address_zip: (match &self.address_zip { Some(x) => Some(x.clone()), None => None }),
            address_zip_check: (match &self.address_zip_check { Some(x) => Some(x.clone()), None => None }),
            available_payout_methods: self.available_payout_methods.clone(),
            brand: self.brand.clone(),
            country: (match &self.country { Some(x) => Some(x.clone()), None => None }),
            currency: (match &self.currency { Some(x) => Some(x.clone()), None => None }),
            cvc_check: (match &self.cvc_check { Some(x) => Some(x.clone()), None => None }),
            default_for_currency: self.default_for_currency,
            dynamic_last4: (match &self.dynamic_last4 { Some(x) => Some(x.clone()), None => None }),
            exp_month: self.exp_month,
            exp_year: self.exp_year,
            fingerprint: (match &self.fingerprint { Some(x) => Some(x.clone()), None => None }),
            funding: self.funding.clone(),
            last4: self.last4.clone(),
            tokenization_method: (match &self.tokenization_method { Some(x) => Some(x.clone()), None => None }),
            metadata: self.metadata.clone(),
        }
    }
}

impl UniRecipient {
    /// Whether `other` is the same variant as `self`, with the same payload where it is a plain
    /// value, and a payload that agrees by its own `clone_agrees` where it has one.
    pub open spec fn clone_agrees(&self, other: &Self) -> bool {
        match self {
            UniRecipient::String(x) => other matches UniRecipient::String(y) && x == y,
            UniRecipient::TransferRecipient(x) => other matches UniRecipient::TransferRecipient(y) && x.clone_agrees(&y),
        }
    }
}

impl Clone for UniRecipient {
    fn clone(&self) -> (r: Self)
        ensures
            self.clone_agrees(&r),
        decreases self,
    {
        match self {
            UniRecipient::String(x) => UniRecipient::String(x.clone()),
            UniRecipient::TransferRecipient(x) => UniRecipient::TransferRecipient(x.clone()),
        }
    }
}

impl Charge {
    /// Whether `other` copies the fields of `self` that are plain values (`id`, `paid`, `amount`, `amount_captured`, `amount_refunded`, `application_fee_amount`, `calculated_statement_descriptor`, `captured`, `currency`, `description`, `disputed`, `failure_code`, `failure_message`, `payment_method`, `receipt_email`, `receipt_number`, `receipt_url`, `refunded`, `statement_descriptor`, `statement_descriptor_suffix`, `status`, `transfer_group`, `created`, `livemode`, `metadata`).
    pub open spec fn clone_agrees(&self, other: &Self) -> bool {
        &&& self.id == other.id
        &&& self.paid == other.paid
        &&& self.amount == other.amount
        &&& self.amount_captured == other.amount_captured
        &&& self.amount_refunded == other.amount_refunded
        &&& self.application_fee_amount == other.application_fee_amount
        &&& self.calculated_statement_descriptor == other.calculated_statement_descriptor
        &&& self.captured == other.captured
        &&& self.currency == other.currency
        &&& self.description == other.description
        &&& self.disputed == other.disputed
        &&& self.failure_code == other.failure_code
        &&& self.failure_message == other.failure_message
        &&& self.payment_method == other.payment_method
        &&& self.receipt_email == other.receipt_email
        &&& self.receipt_number == other.receipt_number
        &&& self.receipt_url == other.receipt_url
        &&& self.refunded == other.refunded
        &&& self.statement_descriptor == other.statement_descriptor
        &&& self.statement_descriptor_suffix == other.statement_descriptor_suffix
        &&& self.status == other.status
        &&& self.transfer_group == other.transfer_group
        &&& self.created == other.created
        &&& self.livemode == other.livemode
        &&& self.metadata@ == other.metadata@
    }
}

impl Clone for Charge {
    fn clone(&self) -> (r: Self)
        ensures
            self.clone_agrees(&r),
        decreases self,
    {
        Charge {
            object: self.object.clone(),
            id: self.id.clone(),
            paid: self.paid,
            application: self.application.clone(),
            application_fee: (match &self.application_fee { Some(x) => Some(x.clone()), None => None }),
            balance_transaction: (match &self.balance_transaction { Some(x) => Some(x.clone()), None => None }),
            customer: (match &self.customer { Some(x) => Some(x.clone()), None => None }),
            invoice: (match &self.invoice { Some(x) => Some(x.clone()), None => None }),
            on_behalf_of: (match &self.on_behalf_of { Some(x) => Some(x.clone()), None => None }),
            order: (match &self.order { Some(x) => Some(x.clone()), None => None }),
            payment_intent: (match &self.payment_intent { Some(x) => Some(x.clone()), None => None }),
            review: (match &self.review { Some(x) => Some(x.clone()), None => None }),
            source_transfer: (match &self.source_transfer { Some(x) => Some(x.clone()), None => None }),
            transfer: (match &self.transfer { Some(x) => Some(x.clone()), None => None }),
            amount: self.amount,
            amount_captured: self.amount_captured,
            amount_refunded: self.amount_refunded,
            application_fee_amount: self.application_fee_amount,
            billing_details: self.billing_details.clone(),
            calculated_statement_descriptor: (match &self.calculated_statement_descriptor { Some(x) => Some(x.clone()), None => None }),
            captured: self.captured,
            currency: self.currency.clone(),
            description: (match &self.description { Some(x) => Some(x.clone()), None => None }),
            disputed: self.disputed,
            failure_code: (match &self.failure_code { Some(x) => Some(x.clone()), None => None }),
            failure_message: (match &self.failure_message { Some(x) => Some(x.clone()), None => None }),
            fraud_details: self.fraud_details.clone(),
            outcome: self.outcome.clone(),
            payment_method: (match &self.payment_method { Some(x) => Some(x.clone()), None => None }),
            payment_method_details: (match &self.payment_method_details { Some(x) => Some(x.clone()), None => None }),
            receipt_email: (match &self.receipt_email { Some(x) => Some(x.clone()), None => None }),
            receipt_number: (match &self.receipt_number { Some(x) => Some(x.clone()), None => None }),
            receipt_url: (match &self.receipt_url { Some(x) => Some(x.clone()), None => None }),
            refunded: self.refunded,
            refunds: self.refunds.clone(),
            shipping: self.shipping.clone(),
            statement_descriptor: (match &self.statement_descriptor { Some(x) => Some(x.clone()), None => None }),
            statement_descriptor_suffix: (match &self.statement_descriptor_suffix { Some(x) => Some(x.clone()), None => None }),
            status: self.status.clone(),
            transfer_data: (match &self.transfer_data { Some(x) => Some(x.clone()), None => None }),
            transfer_group: (match &self.transfer_group { Some(x) => Some(x.clone()), None => None }),
            created: self.created,
            livemode: self.livemode,
            metadata: self.metadata.clone(),
        }
    }
}

impl UniFee {
    /// Whether `other` is the same variant as `self`, with the same payload where it is a plain
    /// value, and a payload that agrees by its own `clone_agrees` where it has one.
    pub open spec fn clone_agrees(&self, other: &Self) -> bool {
        match self {
            UniFee::String(x) => other matches UniFee::String(y) && x == y,
            UniFee::PlatformFee(x) => other matches UniFee::PlatformFee(y) && x.clone_agrees(&y),
        }
    }
}

impl Clone for UniFee {
    fn clone(&self) -> (r: Self)
        ensures
            self.clone_agrees(&r),
        decreases self,
    {
        match self {
            UniFee::String(x) => UniFee::String(x.clone()),
            UniFee::PlatformFee(x) => UniFee::PlatformFee(x.clone()),
        }
    }
}

impl UniInvoice {
    /// Whether `other` is the same variant as `self`, with the same payload where it is a plain
    /// value, and a payload that agrees by its own `clone_agrees` where it has one.
    pub open spec fn clone_agrees(&self, other: &Self) -> bool {
        match self {
            UniInvoice::String(x) => other matches UniInvoice::String(y) && x == y,
            UniInvoice::Invoice(x) => other matches UniInvoice::Invoice(y) && (*x).clone_agrees(&*y),
        }
    }
}

impl Clone for UniInvoice {
    fn clone(&self) -> (r: Self)
        ensures
            self.clone_agrees(&r),
        decreases self,
    {
        match self {
            UniInvoice::String(x) => UniInvoice::String(x.clone()),
            UniInvoice::Invoice(x) => UniInvoice::Invoice(Box::new((&**x).clone())),
        }
    }
}

impl UniOrder {
    /// Whether `other` is the same variant as `self`, with the same payload where it is a plain
    /// value, and a payload that agrees by its own `clone_agrees` where it has one.
    pub open spec fn clone_agrees(&self, other: &Self) -> bool {
        match self {
            UniOrder::String(x) => other matches UniOrder::String(y) && x == y,
            UniOrder::Order(x) => other matches UniOrder::Order(y) && x.clone_agrees(&y),
        }
    }
}

impl Clone for UniOrder {
    fn clone(&self) -> (r: Self)
        ensures
            self.clone_agrees(&r),
        decreases self,
    {
        match self {
            UniOrder::String(x) => UniOrder::String(x.clone()),
            UniOrder::Order(x) => UniOrder::Order(x.clone()),
        }
    }
}

impl UniPaymentIntent {
    /// Whether `other` is the same variant as `self`, with the same payload where it is a plain
    /// value, and a payload that agrees by its own `clone_agrees` where it has one.
    pub open spec fn clone_agrees(&self, other: &Self) -> bool {
        match self {
            UniPaymentIntent::String(x) => other matches UniPaymentIntent::String(y) && x == y,
            UniPaymentIntent::PaymentIntent(x) => other matches UniPaymentIntent::PaymentIntent(y) && (*x).clone_agrees(&*y),
        }
    }
}

impl Clone for UniPaymentIntent {
    fn clone(&self) -> (r: Self)
        ensures
            self.clone_agrees(&r),
        decreases self,
    {
        match self {
            UniPaymentIntent::String(x) => UniPaymentIntent::String(x.clone()),
            UniPaymentIntent::PaymentIntent(x) => UniPaymentIntent::PaymentIntent(Box::new((&**x).clone())),
        }
    }
}

impl RefundList4E41A7 {
    /// Whether `other` copies the fields of `self` that are plain values (`has_more`, `url`).
    pub open spec fn clone_agrees(&self, other: &Self) -> bool {
        &&& self.has_more == other.has_more
        &&& self.url == other.url
    }
}

impl Clone for RefundList4E41A7 {
    fn clone(&self) -> (r: Self)
        ensures
            self.clone_agrees(&r),
        decreases self,
    {
        RefundList4E41A7 {
            object: self.object.clone(),
            data: crate::types::clone_vec_refund(&self.data),
            has_more: self.has_more,
            url: self.url.clone(),
        }
    }
}

impl UniReview {
    /// Whether `other` is the same variant as `self`, with the same payload where it is a plain
    /// value, and a payload that agrees by its own `clone_agrees` where it has one.
    pub open spec fn clone_agrees(&self, other: &Self) -> bool {
        match self {
            UniReview::String(x) => other matches UniReview::String(y) && x == y,
            UniReview::RadarReview(x) => other matches UniReview::RadarReview(y) && x.clone_agrees(&y),
        }
    }
}

impl Clone for UniReview {
    fn clone(&self) -> (r: Self)
        ensures
            self.clone_agrees(&r),
        decreases self,
    {
        match self {
            UniReview::String(x) => UniReview::String(x.clone()),
            UniReview::RadarReview(x) => UniReview::RadarReview(x.clone()),
        }
    }
}

impl UniTransfer {
    /// Whether `other` is the same variant as `self`, with the same payload where it is a plain
    /// value, and a payload that agrees by its own `clone_agrees` where it has one.
    pub open spec fn clone_agrees(&self, other: &Self) -> bool {
        match self {
            UniTransfer::String(x) => other matches UniTransfer::String(y) && x == y,
            UniTransfer::Transfer(x) => other matches UniTransfer::Transfer(y) && x.clone_agrees(&y),
        }
    }
}

impl Clone for UniTransfer {
    fn clone(&self) -> (r: Self)
        ensures
            self.clone_agrees(&r),
        decreases self,
    {
        match self {
            UniTransfer::String(x) => UniTransfer::String(x.clone()),
            UniTransfer::Transfer(x) => UniTransfer::Transfer(x.clone()),
        }
    }
}

impl ChargeTransferData {
    /// Whether `other` copies the fields of `self` that are plain values (`amount`).
    pub open spec fn clone_agrees(&self, other: &Self) -> bool {
        &&& self.amount == other.amount
    }
}

impl Clone for ChargeTransferData {
    fn clone(&self) -> (r: Self)
        ensures
            self.clone_agrees(&r),
        decreases self,
    {
        ChargeTransferData {
            destination: self.destination.clone(),
            amount: self.amount,
        }
    }
}

impl Session {
    /// Whether `other` copies the fields of `self` that are plain values (`client_reference_id`, `id`, `allow_promotion_codes`, `amount_subtotal`, `amount_total`, `cancel_url`, `currency`, `customer_email`, `success_url`, `livemode`).
    pub open spec fn clone_agrees(&self, other: &Self) -> bool {
        &&& self.client_reference_id == other.client_reference_id
        &&& self.id == other.id
        &&& self.allow_promotion_codes == other.allow_promotion_codes
        &&& self.amount_subtotal == other.amount_subtotal
        &&& self.amount_total == other.amount_total
        &&& self.cancel_url == other.cancel_url
        &&& self.currency == other.currency
        &&& self.customer_email == other.customer_email
        &&& self.success_url == other.success_url
        &&& self.livemode == other.livemode
    }
}

impl Clone for Session {
    fn clone(&self) -> (r: Self)
        ensures
            self.clone_agrees(&r),
        decreases self,
    {
        Session {
            object: self.object.clone(),
            client_reference_id: (match &self.client_reference_id { Some(x) => Some(x.clone()), None => None }),
            id: self.id.clone(),
            customer: (match &self.customer { Some(x) => Some(x.clone()), None => None }),
            payment_intent: (match &self.payment_intent { Some(x) => Some(x.clone()), None => None }),
            setup_intent: (match &self.setup_intent { Some(x) => Some(x.clone()), None => None }),
            subscription: (match &self.subscription { Some(x) => Some(x.clone()), None => None }),
            allow_promotion_codes: self.allow_promotion_codes,
            amount_subtotal: self.amount_subtotal,
            amount_total: self.amount_total,
            billing_address_collection: self.billing_address_collection.clone(),
            cancel_url: self.cancel_url.clone(),
            currency: (match &self.currency { Some(x) => Some(x.clone()), None => None }),
            customer_email: (match &self.customer_email { Some(x) => Some(x.clone()), None => None }),
            line_items: (match &self.line_items { Some(x) => Some(x.clone()), None => None }),
            locale: self.locale.clone(),
            mode: self.mode.clone(),
            payment_method_types: self.payment_method_types.clone(),
            payment_status: self.payment_status.clone(),
            shipping: self.shipping.clone(),
            shipping_address_collection: self.shipping_address_collection.clone(),
            submit_type: self.submit_type.clone(),
            success_url: self.success_url.clone(),
            total_details: (match &self.total_details { Some(x) => Some(x.clone()), None => None }),
            livemode: self.livemode,
            metadata: self.metadata.clone(),
        }
    }
}

impl PaymentPagesCheckoutSessionListLineItems46D5C8 {
    /// Whether `other` copies the fields of `self` that are plain values (`has_more`, `url`).
    pub open spec fn clone_agrees(&self, other: &Self) -> bool {
        &&& self.has_more == other.has_more
        &&& self.url == other.url
    }
}

impl Clone for PaymentPagesCheckoutSessionListLineItems46D5C8 {
    fn clone(&self) -> (r: Self)
        ensures
            self.clone_agrees(&r),
        decreases self,
    {
        PaymentPagesCheckoutSessionListLineItems46D5C8 {
            object: self.object.clone(),
            data: crate::types::clone_vec_line_items(&self.data),
            has_more: self.has_more,
            url: self.url.clone(),
        }
    }
}

impl UniSetupIntent {
    /// Whether `other` is the same variant as `self`, with the same payload where it is a plain
    /// value, and a payload that agrees by its own `clone_agrees` where it has one.
    pub open spec fn clone_agrees(&self, other: &Self) -> bool {
        match self {
            UniSetupIntent::String(x) => other matches UniSetupIntent::String(y) && x == y,
            UniSetupIntent::SetupIntent(x) => other matches UniSetupIntent::SetupIntent(y) && (*x).clone_agrees(&*y),
        }
    }
}

impl Clone for UniSetupIntent {
    fn clone(&self) -> (r: Self)
        ensures
            self.clone_agrees(&r),
        decreases self,
    {
        match self {
            UniSetupIntent::String(x) => UniSetupIntent::String(x.clone()),
            UniSetupIntent::SetupIntent(x) => UniSetupIntent::SetupIntent(Box::new((&**x).clone())),
        }
    }
}

impl UniSubscription {
    /// Whether `other` is the same variant as `self`, with the same payload where it is a plain
    /// value, and a payload that agrees by its own `clone_agrees` where it has one.
    pub open spec fn clone_agrees(&self, other: &Self) -> bool {
        match self {
            UniSubscription::String(x) => other matches UniSubscription::String(y) && x == y,
            UniSubscription::Subscription(x) => other matches UniSubscription::Subscription(y) && (*x).clone_agrees(&*y),
        }
    }
}

impl Clone for UniSubscription {
    fn clone(&self) -> (r: Self)
        ensures
            self.clone_agrees(&r),
        decreases self,
    {
        match self {
            UniSubscription::String(x) => UniSubscription::String(x.clone()),
            UniSubscription::Subscription(x) => UniSubscription::Subscription(Box::new((&**x).clone())),
        }
    }
}

impl ConnectCollectionTransfer {
    /// Whether `other` copies the fields of `self` that are plain values (`id`, `amount`, `currency`, `livemode`).
    pub open spec fn clone_agrees(&self, other: &Self) -> bool {
        &&& self.id == other.id
        &&& self.amount == other.amount
        &&& self.currency == other.currency
        &&& self.livemode == other.livemode
    }
}

impl Clone for ConnectCollectionTransfer {
    fn clone(&self) -> (r: Self)
        ensures
            self.clone_agrees(&r),
        decreases self,
    {
        ConnectCollectionTransfer {
            object: self.object.clone(),
            id: self.id.clone(),
            destination: self.destination.clone(),
            amount: self.amount,
            currency: self.currency.clone(),
            livemode: self.livemode,
        }
    }
}

impl CreditNote {
    /// Whether `other` copies the fields of `self` that are plain values (`id`, `amount`, `currency`, `discount_amount`, `memo`, `number`, `out_of_band_amount`, `pdf`, `subtotal`, `total`, `voided_at`, `created`, `livemode`).
    pub open spec fn clone_agrees(&self, other: &Self) -> bool {
        &&& self.id == other.id
        &&& self.amount == other.amount
        &&& self.currency == other.currency
        &&& self.discount_amount == other.discount_amount
        &&& self.memo == other.memo
        &&& self.number == other.number
        &&& self.out_of_band_amount == other.out_of_band_amount
        &&& self.pdf == other.pdf
        &&& self.subtotal == other.subtotal
        &&& self.total == other.total
        &&& self.voided_at == other.voided_at
        &&& self.created == other.created
        &&& self.livemode == other.livemode
    }
}

impl Clone for CreditNote {
    fn clone(&self) -> (r: Self)
        ensures
            self.clone_agrees(&r),
        decreases self,
    {
        CreditNote {
            object: self.object.clone(),
            type_x: self.type_x.clone(),
            id: self.id.clone(),
            customer: self.customer.clone(),
            customer_balance_transaction: (match &self.customer_balance_transaction { Some(x) => Some(x.clone()), None => None }),
            invoice: self.invoice.clone(),
            refund: (match &self.refund { Some(x) => Some(x.clone()), None => None }),
            amount: self.amount,
            currency: self.currency.clone(),
            discount_amount: self.discount_amount,
            discount_amounts: crate::types::clone_vec_discounts_resource_discount_amount(&self.discount_amounts),
            lines: self.lines.clone(),
            memo: (match &self.memo { Some(x) => Some(x.clone()), None => None }),
            number: self.number.clone(),
            out_of_band_amount: self.out_of_band_amount,
            pdf: self.pdf.clone(),
            reason: self.reason.clone(),
            status: self.status.clone(),
            subtotal: self.subtotal,
            tax_amounts: self.tax_amounts.clone(),
            total: self.total,
            voided_at: self.voided_at,
            created: self.created,
            livemode: self.livemode,
            metadata: self.metadata.clone(),
        }
    }
}

impl UniCustomerBalanceTransaction {
    /// Whether `other` is the same variant as `self`, with the same payload where it is a plain
    /// value, and a payload that agrees by its own `clone_agrees` where it has one.
    pub open spec fn clone_agrees(&self, other: &Self) -> bool {
        match self {
            UniCustomerBalanceTransaction::String(x) => other matches UniCustomerBalanceTransaction::String(y) && x == y,
            UniCustomerBalanceTransaction::CustomerBalanceTransaction(x) => other matches UniCustomerBalanceTransaction::CustomerBalanceTransaction(y) && x.clone_agrees(&y),
        }
    }
}

impl Clone for UniCustomerBalanceTransaction {
    fn clone(&self) -> (r: Self)
        ensures
            self.clone_agrees(&r),
        decreases self,
    {
        match self {
            UniCustomerBalanceTransaction::String(x) => UniCustomerBalanceTransaction::String(x.clone()),
            UniCustomerBalanceTransaction::CustomerBalanceTransaction(x) => UniCustomerBalanceTransaction::CustomerBalanceTransaction(x.clone()),
        }
    }
}

impl CreditNoteLinesListF7B44B {
    /// Whether `other` copies the fields of `self` that are plain values (`has_more`, `url`).
    pub open spec fn clone_agrees(&self, other: &Self) -> bool {
        &&& self.has_more == other.has_more
        &&& self.url == other.url
    }
}

impl Clone for CreditNoteLinesListF7B44B {
    fn clone(&self) -> (r: Self)
        ensures
            self.clone_agrees(&r),
        decreases self,
    {
        CreditNoteLinesListF7B44B {
            object: self.object.clone(),
            data: crate::types::clone_vec_credit_note_line_item(&self.data),
            has_more: self.has_more,
            url: self.url.clone(),
        }
    }
}

impl UniRefund {
    /// Whether `other` is the same variant as `self`, with the same payload where it is a plain
    /// value, and a payload that agrees by its own `clone_agrees` where it has one.
    pub open spec fn clone_agrees(&self, other: &Self) -> bool {
        match self {
            UniRefund::String(x) => other matches UniRefund::String(y) && x == y,
            UniRefund::Refund(x) => other matches UniRefund::Refund(y) && (*x).clone_agrees(&*y),
        }
    }
}

impl Clone for UniRefund {
    fn clone(&self) -> (r: Self)
        ensures
            self.clone_agrees(&r),
        decreases self,
    {
        match self {
            UniRefund::String(x) => UniRefund::String(x.clone()),
            UniRefund::Refund(x) => UniRefund::Refund(Box::new((&**x).clone())),
        }
    }
}

impl CreditNoteLineItem {
    /// Whether `other` copies the fields of `self` that are plain values (`id`, `amount`, `description`, `discount_amount`, `invoice_line_item`, `quantity`, `unit_amount`, `unit_amount_decimal`, `livemode`).
    pub open spec fn clone_agrees(&self, other: &Self) -> bool {
        &&& self.id == other.id
        &&& self.amount == other.amount
        &&& self.description == other.description
        &&& self.discount_amount == other.discount_amount
        &&& self.invoice_line_item == other.invoice_line_item
        &&& self.quantity == other.quantity
        &&& self.unit_amount == other.unit_amount
        &&& self.unit_amount_decimal == other.unit_amount_decimal
        &&& self.livemode == other.livemode
    }
}

impl Clone for CreditNoteLineItem {
    fn clone(&self) -> (r: Self)
        ensures
            self.clone_agrees(&r),
        decreases self,
    {
        CreditNoteLineItem {
            object: self.object.clone(),
            type_x: self.type_x.clone(),
            id: self.id.clone(),
            amount: self.amount,
            description: (match &self.description { Some(x) => Some(x.clone()), None => None }),
            discount_amount: self.discount_amount,
            discount_amounts: crate::types::clone_vec_discounts_resource_discount_amount(&self.discount_amounts),
            invoice_line_item: (match &self.invoice_line_item { Some(x) => Some(x.clone()), None => None }),
            quantity: self.quantity,
            tax_amounts: self.tax_amounts.clone(),
            tax_rates: self.tax_rates.clone(),
            unit_amount: self.unit_amount,
            unit_amount_decimal: (match &self.unit_amount_decimal { Some(x) => Some(x.clone()), None => None }),
            livemode: self.livemode,
        }
    }
}

impl Customer {
    /// Whether `other` copies the fields of `self` that are plain values (`id`, `name`, `balance`, `currency`, `delinquent`, `description`, `email`, `invoice_prefix`, `next_invoice_sequence`, `phone`, `created`, `livemode`).
    pub open spec fn clone_agrees(&self, other: &Self) -> bool {
        &&& self.id == other.id
        &&& self.name == other.name
        &&& self.balance == other.balance
        &&& self.currency == other.currency
        &&& self.delinquent == other.delinquent
        &&& self.description == other.description
        &&& self.email == other.email
        &&& self.invoice_prefix == other.invoice_prefix
        &&& self.next_invoice_sequence == other.next_invoice_sequence
        &&& self.phone == other.phone
        &&& self.created == other.created
        &&& self.livemode == other.livemode
    }
}

impl Clone for Customer {
    fn clone(&self) -> (r: Self)
        ensures
            self.clone_agrees(&r),
        decreases self,
    {
        Customer {
            object: self.object.clone(),
            id: self.id.clone(),
            name: (match &self.name { Some(x) => Some(x.clone()), None => None }),
            default_source: Box::new((match (&*self.default_source) { Some(x) => Some(x.clone()), None => None })),
            address: self.address.clone(),
            balance: self.balance,
            currency: (match &self.currency { Some(x) => Some(x.clone()), None => None }),
            delinquent: self.delinquent,
            description: (match &self.description { Some(x) => Some(x.clone()), None => None }),
            discount: (match &self.discount { Some(x) => Some(x.clone()), None => None }),
            email: (match &self.email { Some(x) => Some(x.clone()), None => None }),
            invoice_prefix: (match &self.invoice_prefix { Some(x) => Some(x.clone()), None => None }),
            invoice_settings: (match &self.invoice_settings { Some(x) => Some(x.clone()), None => None }),
            next_invoice_sequence: self.next_invoice_sequence,
            phone: (match &self.phone { Some(x) => Some(x.clone()), None => None }),
            preferred_locales: self.preferred_locales.clone(),
            shipping: self.shipping.clone(),
            sources: (match &self.sources { Some(x) => Some(x.clone()), None => None }),
            subscriptions: (match &self.subscriptions { Some(x) => Some(x.clone()), None => None }),
            tax_exempt: self.tax_exempt.clone(),
            tax_ids: (match &self.tax_ids { Some(x) => Some(x.clone()), None => None }),
            created: self.created,
            livemode: self.livemode,
            metadata: self.metadata.clone(),
        }
    }
}

impl UniDefaultSource {
    /// Whether `other` is the same variant as `self`, with the same payload where it is a plain
    /// value, and a payload that agrees by its own `clone_agrees` where it has one.
    pub open spec fn clone_agrees(&self, other: &Self) -> bool {
        match self {
            UniDefaultSource::String(x) => other matches UniDefaultSource::String(y) && x == y,
            UniDefaultSource::AlipayAccount(x) => other matches UniDefaultSource::AlipayAccount(y) && x.clone_agrees(&y),
            UniDefaultSource::BankAccount(x) => other matches UniDefaultSource::BankAccount(y) && x.clone_agrees(&y),
            UniDefaultSource::BitcoinReceiver(_) => other is BitcoinReceiver,
            UniDefaultSource::Card(x) => other matches UniDefaultSource::Card(y) && (*x).clone_agrees(&*y),
            UniDefaultSource::Source(_) => other is Source,
        }
    }
}

impl Clone for UniDefaultSource {
    fn clone(&self) -> (r: Self)
        ensures
            self.clone_agrees(&r),
        decreases self,
    {
        match self {
            UniDefaultSource::String(x) => UniDefaultSource::String(x.clone()),
            UniDefaultSource::AlipayAccount(x) => UniDefaultSource::AlipayAccount(x.clone()),
            UniDefaultSource::BankAccount(x) => UniDefaultSource::BankAccount(x.clone()),
            UniDefaultSource::BitcoinReceiver(x) => UniDefaultSource::BitcoinReceiver(x.clone()),
            UniDefaultSource::Card(x) => UniDefaultSource::Card(Box::new((&**x).clone())),
            UniDefaultSource::Source(x) => UniDefaultSource::Source(x.clone()),
        }
    }
}

impl ApmsSourcesSourceListC6CBF8 {
    /// Whether `other` copies the fields of `self` that are plain values (`has_more`, `url`).
    pub open spec fn clone_agrees(&self, other: &Self) -> bool {
        &&& self.has_more == other.has_more
        &&& self.url == other.url
    }
}

impl Clone for ApmsSourcesSourceListC6CBF8 {
    fn clone(&self) -> (r: Self)
        ensures
            self.clone_agrees(&r),
        decreases self,
    {
        ApmsSourcesSourceListC6CBF8 {
            object: self.object.clone(),
            data: crate::responses::clone_vec_uni_polymorphic646_c3_f(&self.data),
            has_more: self.has_more,
            url: self.url.clone(),
        }
    }
}

impl SubscriptionListAFDD89 {
    /// Whether `other` copies the fields of `self` that are plain values (`has_more`, `url`).
    pub open spec fn clone_agrees(&self, other: &Self) -> bool {
        &&& self.has_more == other.has_more
        &&& self.url == other.url
    }
}

impl Clone for SubscriptionListAFDD89 {
    fn clone(&self) -> (r: Self)
        ensures
            self.clone_agrees(&r),
        decreases self,
    {
        SubscriptionListAFDD89 {
            object: self.object.clone(),
            data: crate::types::clone_vec_subscription(&self.data),
            has_more: self.has_more,
            url: self.url.clone(),
        }
    }
}

impl TaxIDsList05E0C9 {
    /// Whether `other` copies the fields of `self` that are plain values (`has_more`, `url`).
    pub open spec fn clone_agrees(&self, other: &Self) -> bool {
        &&& self.has_more == other.has_more
        &&& self.url == other.url
    }
}

impl Clone for TaxIDsList05E0C9 {
    fn clone(&self) -> (r: Self)
        ensures
            self.clone_agrees(&r),
        decreases self,
    {
        TaxIDsList05E0C9 {
            object: self.object.clone(),
            data: crate::types::clone_vec_tax_id(&self.data),
            has_more: self.has_more,
            url: self.url.clone(),
        }
    }
}

impl CustomerBalanceTransaction {
    /// Whether `other` copies the fields of `self` that are plain values (`id`, `amount`, `currency`, `description`, `ending_balance`, `created`, `livemode`).
    pub open spec fn clone_agrees(&self, other: &Self) -> bool {
        &&& self.id == other.id
        &&& self.amount == other.amount
        &&& self.currency == other.currency
        &&& self.description == other.description
        &&& self.ending_balance == other.ending_balance
        &&& self.created == other.created
        &&& self.livemode == other.livemode
    }
}

impl Clone for CustomerBalanceTransaction {
    fn clone(&self) -> (r: Self)
        ensures
            self.clone_agrees(&r),
        decreases self,
    {
        CustomerBalanceTransaction {
            object: self.object.clone(),
            type_x: self.type_x.clone(),
            id: self.id.clone(),
            credit_note: (match &self.credit_note { Some(x) => Some(x.clone()), None => None }),
            customer: self.customer.clone(),
            invoice: (match &self.invoice { Some(x) => Some(x.clone()), None => None }),
            amount: self.amount,
            currency: self.currency.clone(),
            description: (match &self.description { Some(x) => Some(x.clone()), None => None }),
            ending_balance: self.ending_balance,
            created: self.created,
            livemode: self.livemode,
            metadata: self.metadata.clone(),
        }
    }
}

impl UniCreditNote {
    /// Whether `other` is the same variant as `self`, with the same payload where it is a plain
    /// value, and a payload that agrees by its own `clone_agrees` where it has one.
    pub open spec fn clone_agrees(&self, other: &Self) -> bool {
        match self {
            UniCreditNote::String(x) => other matches UniCreditNote::String(y) && x == y,
            UniCreditNote::CreditNote(x) => other matches UniCreditNote::CreditNote(y) && (*x).clone_agrees(&*y),
        }
    }
}

impl Clone for UniCreditNote {
    fn clone(&self) -> (r: Self)
        ensures
            self.clone_agrees(&r),
        decreases self,
    {
        match self {
            UniCreditNote::String(x) => UniCreditNote::String(x.clone()),
            UniCreditNote::CreditNote(x) => UniCreditNote::CreditNote(Box::new((&**x).clone())),
        }
    }
}

impl UniCustomerEDC00A {
    /// Whether `other` is the same variant as `self`, with the same payload where it is a plain
    /// value, and a payload that agrees by its own `clone_agrees` where it has one.
    pub open spec fn clone_agrees(&self, other: &Self) -> bool {
        match self {
            UniCustomerEDC00A::String(x) => other matches UniCustomerEDC00A::String(y) && x == y,
            UniCustomerEDC00A::Customer(x) => other matches UniCustomerEDC00A::Customer(y) && (*x).clone_agrees(&*y),
        }
    }
}

impl Clone for UniCustomerEDC00A {
    fn clone(&self) -> (r: Self)
        ensures
            self.clone_agrees(&r),
        decreases self,
    {
        match self {
            UniCustomerEDC00A::String(x) => UniCustomerEDC00A::String(x.clone()),
            UniCustomerEDC00A::Customer(x) => UniCustomerEDC00A::Customer(Box::new((&**x).clone())),
        }
    }
}

impl DeletedDiscount {
    /// Whether `other` copies the fields of `self` that are plain values (`id`, `checkout_session`, `deleted`, `invoice`, `invoice_item`, `start`, `subscription`).
    pub open spec fn clone_agrees(&self, other: &Self) -> bool {
        &&& self.id == other.id
        &&& self.checkout_session == other.checkout_session
        &&& self.deleted == other.deleted
        &&& self.invoice == other.invoice
        &&& self.invoice_item == other.invoice_item
        &&& self.start == other.start
        &&& self.subscription == other.subscription
    }
}

impl Clone for DeletedDiscount {
    fn clone(&self) -> (r: Self)
        ensures
            self.clone_agrees(&r),
        decreases self,
    {
        DeletedDiscount {
            object: self.object.clone(),
            id: self.id.clone(),
            customer: (match &self.customer { Some(x) => Some(x.clone()), None => None }),
            promotion_code: (match &self.promotion_code { Some(x) => Some(x.clone()), None => None }),
            checkout_session: (match &self.checkout_session { Some(x) => Some(x.clone()), None => None }),
            coupon: self.coupon.clone(),
            deleted: self.deleted,
            invoice: (match &self.invoice { Some(x) => Some(x.clone()), None => None }),
            invoice_item: (match &self.invoice_item { Some(x) => Some(x.clone()), None => None }),
            start: self.start,
            subscription: (match &self.subscription { Some(x) => Some(x.clone()), None => None }),
        }
    }
}

impl UniPromotionCode {
    /// Whether `other` is the same variant as `self`, with the same payload where it is a plain
    /// value, and a payload that agrees by its own `clone_agrees` where it has one.
    pub open spec fn clone_agrees(&self, other: &Self) -> bool {
        match self {
            UniPromotionCode::String(x) => other matches UniPromotionCode::String(y) && x == y,
            UniPromotionCode::PromotionCode(x) => other matches UniPromotionCode::PromotionCode(y) && x.clone_agrees(&y),
        }
    }
}

impl Clone for UniPromotionCode {
    fn clone(&self) -> (r: Self)
        ensures
            self.clone_agrees(&r),
        decreases self,
    {
        match self {
            UniPromotionCode::String(x) => UniPromotionCode::String(x.clone()),
            UniPromotionCode::PromotionCode(x) => UniPromotionCode::PromotionCode(x.clone()),
        }
    }
}

impl Discount {
    /// Whether `other` copies the fields of `self` that are plain values (`id`, `checkout_session`, `end`, `invoice`, `invoice_item`, `start`, `subscription`).
    pub open spec fn clone_agrees(&self, other: &Self) -> bool {
        &&& self.id == other.id
        &&& self.checkout_session == other.checkout_session
        &&& self.end == other.end
        &&& self.invoice == other.invoice
        &&& self.invoice_item == other.invoice_item
        &&& self.start == other.start
        &&& self.subscription == other.subscription
    }
}

impl Clone for Discount {
    fn clone(&self) -> (r: Self)
        ensures
            self.clone_agrees(&r),
        decreases self,
    {
        Discount {
            object: self.object.clone(),
            id: self.id.clone(),
            customer: (match &self.customer { Some(x) => Some(x.clone()), None => None }),
            promotion_code: (match &self.promotion_code { Some(x) => Some(x.clone()), None => None }),
            checkout_session: (match &self.checkout_session { Some(x) => Some(x.clone()), None => None }),
            coupon: self.coupon.clone(),
            end: self.end,
            invoice: (match &self.invoice { Some(x) => Some(x.clone()), None => None }),
            invoice_item: (match &self.invoice_item { Some(x) => Some(x.clone()), None => None }),
            start: self.start,
            subscription: (match &self.subscription { Some(x) => Some(x.clone()), None => None }),
        }
    }
}

impl DiscountsResourceDiscountAmount {
    /// Whether `other` copies the fields of `self` that are plain values (`amount`).
    pub open spec fn clone_agrees(&self, other: &Self) -> bool {
        &&& self.amount == other.amount
    }
}

impl Clone for DiscountsResourceDiscountAmount {
    fn clone(&self) -> (r: Self)
        ensures
            self.clone_agrees(&r),
        decreases self,
    {
        DiscountsResourceDiscountAmount {
            discount: self.discount.clone(),
            amount: self.amount,
        }
    }
}

impl UniItems6F859C {
    /// Whether `other` is the same variant as `self`, with the same payload where it is a plain
    /// value, and a payload that agrees by its own `clone_agrees` where it has one.
    pub open spec fn clone_agrees(&self, other: &Self) -> bool {
        match self {
            UniItems6F859C::String(x) => other matches UniItems6F859C::String(y) && x == y,
            UniItems6F859C::Discount(x) => other matches UniItems6F859C::Discount(y) && x.clone_agrees(&y),
            UniItems6F859C::DeletedDiscount(x) => other matches UniItems6F859C::DeletedDiscount(y) && x.clone_agrees(&y),
        }
    }
}

impl Clone for UniItems6F859C {
    fn clone(&self) -> (r: Self)
        ensures
            self.clone_agrees(&r),
        decreases self,
    {
        match self {
            UniItems6F859C::String(x) => UniItems6F859C::String(x.clone()),
            UniItems6F859C::Discount(x) => UniItems6F859C::Discount(x.clone()),
            UniItems6F859C::DeletedDiscount(x) => UniItems6F859C::DeletedDiscount(x.clone()),
        }
    }
}

impl Dispute {
    /// Whether `other` copies the fields of `self` that are plain values (`id`, `amount`, `currency`, `is_charge_refundable`, `reason`, `created`, `livemode`, `metadata`).
    pub open spec fn clone_agrees(&self, other: &Self) -> bool {
        &&& self.id == other.id
        &&& self.amount == other.amount
        &&& self.currency == other.currency
        &&& self.is_charge_refundable == other.is_charge_refundable
        &&& self.reason == other.reason
        &&& self.created == other.created
        &&& self.livemode == other.livemode
        &&& self.metadata@ == other.metadata@
    }
}

impl Clone for Dispute {
    fn clone(&self) -> (r: Self)
        ensures
            self.clone_agrees(&r),
        decreases self,
    {
        Dispute {
            object: self.object.clone(),
            id: self.id.clone(),
            charge: self.charge.clone(),
            payment_intent: (match &self.payment_intent { Some(x) => Some(x.clone()), None => None }),
            amount: self.amount,
            balance_transactions: crate::types::clone_vec_balance_transaction(&self.balance_transactions),
            currency: self.currency.clone(),
            evidence: self.evidence.clone(),
            evidence_details: self.evidence_details.clone(),
            is_charge_refundable: self.is_charge_refundable,
            reason: self.reason.clone(),
            status: self.status.clone(),
            created: self.created,
            livemode: self.livemode,
            metadata: self.metadata.clone(),
        }
    }
}

impl DisputeEvidence {
    /// Whether `other` copies the fields of `self` that are plain values (`duplicate_charge_id`, `access_activity_log`, `billing_address`, `cancellation_policy_disclosure`, `cancellation_rebuttal`, `customer_email_address`, `customer_name`, `customer_purchase_ip`, `duplicate_charge_explanation`, `product_description`, `refund_policy_disclosure`, `refund_refusal_explanation`, `service_date`, `shipping_address`, `shipping_carrier`, `shipping_date`, `shipping_tracking_number`, `uncategorized_text`).
    pub open spec fn clone_agrees(&self, other: &Self) -> bool {
        &&& self.duplicate_charge_id == other.duplicate_charge_id
        &&& self.access_activity_log == other.access_activity_log
        &&& self.billing_address == other.billing_address
        &&& self.cancellation_policy_disclosure == other.cancellation_policy_disclosure
        &&& self.cancellation_rebuttal == other.cancellation_rebuttal
        &&& self.customer_email_address == other.customer_email_address
        &&& self.customer_name == other.customer_name
        &&& self.customer_purchase_ip == other.customer_purchase_ip
        &&& self.duplicate_charge_explanation == other.duplicate_charge_explanation
        &&& self.product_description == other.product_description
        &&& self.refund_policy_disclosure == other.refund_policy_disclosure
        &&& self.refund_refusal_explanation == other.refund_refusal_explanation
        &&& self.service_date == other.service_date
        &&& self.shipping_address == other.shipping_address
        &&& self.shipping_carrier == other.shipping_carrier
        &&& self.shipping_date == other.shipping_date
        &&& self.shipping_tracking_number == other.shipping_tracking_number
        &&& self.uncategorized_text == other.uncategorized_text
    }
}

impl Clone for DisputeEvidence {
    fn clone(&self) -> (r: Self)
        ensures
            self.clone_agrees(&r),
        decreases self,
    {
        DisputeEvidence {
            duplicate_charge_id: (match &self.duplicate_charge_id { Some(x) => Some(x.clone()), None => None }),
            cancellation_policy: (match &self.cancellation_policy { Some(x) => Some(x.clone()), None => None }),
            customer_communication: (match &self.customer_communication { Some(x) => Some(x.clone()), None => None }),
            customer_signature: (match &self.customer_signature { Some(x) => Some(x.clone()), None => None }),
            duplicate_charge_documentation: (match &self.duplicate_charge_documentation { Some(x) => Some(x.clone()), None => None }),
            receipt: (match &self.receipt { Some(x) => Some(x.clone()), None => None }),
            refund_policy: (match &self.refund_policy { Some(x) => Some(x.clone()), None => None }),
            service_documentation: (match &self.service_documentation { Some(x) => Some(x.clone()), None => None }),
            shipping_documentation: (match &self.shipping_documentation { Some(x) => Some(x.clone()), None => None }),
            uncategorized_file: (match &self.uncategorized_file { Some(x) => Some(x.clone()), None => None }),
            access_activity_log: (match &self.access_activity_log { Some(x) => Some(x.clone()), None => None }),
            billing_address: (match &self.billing_address { Some(x) => Some(x.clone()), None => None }),
            cancellation_policy_disclosure: (match &self.cancellation_policy_disclosure { Some(x) => Some(x.clone()), None => None }),
            cancellation_rebuttal: (match &self.cancellation_rebuttal { Some(x) => Some(x.clone()), None => None }),
            customer_email_address: (match &self.customer_email_address { Some(x) => Some(x.clone()), None => None }),
            customer_name: (match &self.customer_name { Some(x) => Some(x.clone()), None => None }),
            customer_purchase_ip: (match &self.customer_purchase_ip { Some(x) => Some(x.clone()), None => None }),
            duplicate_charge_explanation: (match &self.duplicate_charge_explanation { Some(x) => Some(x.clone()), None => None }),
            product_description: (match &self.product_description { Some(x) => Some(x.clone()), None => None }),
            refund_policy_disclosure: (match &self.refund_policy_disclosure { Some(x) => Some(x.clone()), None => None }),
            refund_refusal_explanation: (match &self.refund_refusal_explanation { Some(x) => Some(x.clone()), None => None }),
            service_date: (match &self.service_date { Some(x) => Some(x.clone()), None => None }),
            shipping_address: (match &self.shipping_address { Some(x) => Some(x.clone()), None => None }),
            shipping_carrier: (match &self.shipping_carrier { Some(x) => Some(x.clone()), None => None }),
            shipping_date: (match &self.shipping_date { Some(x) => Some(x.clone()), None => None }),
            shipping_tracking_number: (match &self.shipping_tracking_number { Some(x) => Some(x.clone()), None => None }),
            uncategorized_text: (match &self.uncategorized_text { Some(x) => Some(x.clone()), None => None }),
        }
    }
}

impl Error {
    /// Whether `other` copies `self` as far as its plain fields go (it has none).
    pub open spec fn clone_agrees(&self, other: &Self) -> bool {
        true
    }
}

impl Clone for Error {
    fn clone(&self) -> (r: Self)
        ensures
            self.clone_agrees(&r),
        decreases self,
    {
        Error {
            error: Box::new((&*self.error).clone()),
        }
    }
}

impl NotificationEvent {
    /// Whether `other` copies the fields of `self` that are plain values (`type_x`, `id`, `account`, `api_version`, `pending_webhooks`, `created`, `livemode`).
    pub open spec fn clone_agrees(&self, other: &Self) -> bool {
        &&& self.type_x == other.type_x
        &&& self.id == other.id
        &&& self.account == other.account
        &&& self.api_version == other.api_version
        &&& self.pending_webhooks == other.pending_webhooks
        &&& self.created == other.created
        &&& self.livemode == other.livemode
    }
}

impl Clone for NotificationEvent {
    fn clone(&self) -> (r: Self)
        ensures
            self.clone_agrees(&r),
        decreases self,
    {
        NotificationEvent {
            object: self.object.clone(),
            type_x: self.type_x.clone(),
            id: self.id.clone(),
            account: (match &self.account { Some(x) => Some(x.clone()), None => None }),
            api_version: (match &self.api_version { Some(x) => Some(x.clone()), None => None }),
            data: self.data.clone(),
            pending_webhooks: self.pending_webhooks,
            request: self.request.clone(),
            created: self.created,
            livemode: self.livemode,
        }
    }
}

impl FeeRefund {
    /// Whether `other` copies the fields of `self` that are plain values (`id`, `amount`, `currency`, `created`).
    pub open spec fn clone_agrees(&self, other: &Self) -> bool {
        &&& self.id == other.id
        &&& self.amount == other.amount
        &&& self.currency == other.currency
        &&& self.created == other.created
    }
}

impl Clone for FeeRefund {
    fn clone(&self) -> (r: Self)
        ensures
            self.clone_agrees(&r),
        decreases self,
    {
        FeeRefund {
            object: self.object.clone(),
            id: self.id.clone(),
            balance_transaction: (match &self.balance_transaction { Some(x) => Some(x.clone()), None => None }),
            fee: self.fee.clone(),
            amount: self.amount,
            currency: self.currency.clone(),
            created: self.created,
            metadata: self.metadata.clone(),
        }
    }
}

impl File {
    /// Whether `other` copies the fields of `self` that are plain values (`type_x`, `id`, `expires_at`, `filename`, `size`, `title`, `url`, `created`).
    pub open spec fn clone_agrees(&self, other: &Self) -> bool {
        &&& self.type_x == other.type_x
        &&& self.id == other.id
        &&& self.expires_at == other.expires_at
        &&& self.filename == other.filename
        &&& self.size == other.size
        &&& self.title == other.title
        &&& self.url == other.url
        &&& self.created == other.created
    }
}

impl Clone for File {
    fn clone(&self) -> (r: Self)
        ensures
            self.clone_agrees(&r),
        decreases self,
    {
        File {
            object: self.object.clone(),
            type_x: (match &self.type_x { Some(x) => Some(x.clone()), None => None }),
            id: self.id.clone(),
            expires_at: self.expires_at,
            filename: (match &self.filename { Some(x) => Some(x.clone()), None => None }),
            links: (match &self.links { Some(x) => Some(x.clone()), None => None }),
            purpose: self.purpose.clone(),
            size: self.size,
            title: (match &self.title { Some(x) => Some(x.clone()), None => None }),
            url: (match &self.url { Some(x) => Some(x.clone()), None => None }),
            created: self.created,
        }
    }
}

impl FileFileLinkList {
    /// Whether `other` copies the fields of `self` that are plain values (`has_more`, `url`).
    pub open spec fn clone_agrees(&self, other: &Self) -> bool {
        &&& self.has_more == other.has_more
        &&& self.url == other.url
    }
}

impl Clone for FileFileLinkList {
    fn clone(&self) -> (r: Self)
        ensures
            self.clone_agrees(&r),
        decreases self,
    {
        FileFileLinkList {
            object: self.object.clone(),
            data: crate::types::clone_vec_file_link(&self.data),
            has_more: self.has_more,
            url: self.url.clone(),
        }
    }
}

impl FileLink {
    /// Whether `other` copies the fields of `self` that are plain values (`id`, `expired`, `expires_at`, `url`, `created`, `livemode`, `metadata`).
    pub open spec fn clone_agrees(&self, other: &Self) -> bool {
        &&& self.id == other.id
        &&& self.expired == other.expired
        &&& self.expires_at == other.expires_at
        &&& self.url == other.url
        &&& self.created == other.created
        &&& self.livemode == other.livemode
        &&& self.metadata@ == other.metadata@
    }
}

impl Clone for FileLink {
    fn clone(&self) -> (r: Self)
        ensures
            self.clone_agrees(&r),
        decreases self,
    {
        FileLink {
            object: self.object.clone(),
            id: self.id.clone(),
            file: self.file.clone(),
            expired: self.expired,
            expires_at: self.expires_at,
            url: (match &self.url { Some(x) => Some(x.clone()), None => None }),
            created: self.created,
            livemode: self.livemode,
            metadata: self.metadata.clone(),
        }
    }
}

impl Invoice {
    /// Whether `other` copies the fields of `self` that are plain values (`amount_paid`, `id`, `paid`, `account_country`, `account_name`, `amount_due`, `amount_remaining`, `application_fee_amount`, `attempt_count`, `attempted`, `auto_advance`, `currency`, `customer_email`, `customer_name`, `customer_phone`, `description`, `due_date`, `ending_balance`, `footer`, `hosted_invoice_url`, `invoice_pdf`, `next_payment_attempt`, `number`, `period_end`, `period_start`, `post_payment_credit_notes_amount`, `pre_payment_credit_notes_amount`, `receipt_number`, `starting_balance`, `statement_descriptor`, `subscription_proration_date`, `subtotal`, `tax`, `total`, `webhooks_delivered_at`, `created`, `livemode`).
    pub open spec fn clone_agrees(&self, other: &Self) -> bool {
        &&& self.amount_paid == other.amount_paid
        &&& self.id == other.id
        &&& self.paid == other.paid
        &&& self.account_country == other.account_country
        &&& self.account_name == other.account_name
        &&& self.amount_due == other.amount_due
        &&& self.amount_remaining == other.amount_remaining
        &&& self.application_fee_amount == other.application_fee_amount
        &&& self.attempt_count == other.attempt_count
        &&& self.attempted == other.attempted
        &&& self.auto_advance == other.auto_advance
        &&& self.currency == other.currency
        &&& self.customer_email == other.customer_email
        &&& self.customer_name == other.customer_name
        &&& self.customer_phone == other.customer_phone
        &&& self.description == other.description
        &&& self.due_date == other.due_date
        &&& self.ending_balance == other.ending_balance
        &&& self.footer == other.footer
        &&& self.hosted_invoice_url == other.hosted_invoice_url
        &&& self.invoice_pdf == other.invoice_pdf
        &&& self.next_payment_attempt == other.next_payment_attempt
        &&& self.number == other.number
        &&& self.period_end == other.period_end
        &&& self.period_start == other.period_start
        &&& self.post_payment_credit_notes_amount == other.post_payment_credit_notes_amount
        &&& self.pre_payment_credit_notes_amount == other.pre_payment_credit_notes_amount
        &&& self.receipt_number == other.receipt_number
        &&& self.starting_balance == other.starting_balance
        &&& self.statement_descriptor == other.statement_descriptor
        &&& self.subscription_proration_date == other.subscription_proration_date
        &&& self.subtotal == other.subtotal
        &&& self.tax == other.tax
        &&& self.total == other.total
        &&& self.webhooks_delivered_at == other.webhooks_delivered_at
        &&& self.created == other.created
        &&& self.livemode == other.livemode
    }
}

impl Clone for Invoice {
    fn clone(&self) -> (r: Self)
        ensures
            self.clone_agrees(&r),
        decreases self,
    {
        Invoice {
            object: self.object.clone(),
            amount_paid: self.amount_paid,
            id: (match &self.id { Some(x) => Some(x.clone()), None => None }),
            paid: self.paid,
            charge: (match &self.charge { Some(x) => Some(x.clone()), None => None }),
            customer: self.customer.clone(),
            default_payment_method: (match &self.default_payment_method { Some(x) => Some(x.clone()), None => None }),
            default_source: Box::new((match (&*self.default_source) { Some(x) => Some(x.clone()), None => None })),
            discounts: (match &self.discounts { Some(x) => Some(crate::types::clone_vec_uni_items6_f859_c(x)), None => None }),
            payment_intent: (match &self.payment_intent { Some(x) => Some(x.clone()), None => None }),
            subscription: (match &self.subscription { Some(x) => Some(x.clone()), None => None }),
            account_country: (match &self.account_country { Some(x) => Some(x.clone()), None => None }),
            account_name: (match &self.account_name { Some(x) => Some(x.clone()), None => None }),
            amount_due: self.amount_due,
            amount_remaining: self.amount_remaining,
            application_fee_amount: self.application_fee_amount,
            attempt_count: self.attempt_count,
            attempted: self.attempted,
            auto_advance: self.auto_advance,
            billing_reason: self.billing_reason.clone(),
            collection_method: self.collection_method.clone(),
            currency: self.currency.clone(),
            custom_fields: self.custom_fields.clone(),
            customer_address: self.customer_address.clone(),
            customer_email: (match &self.customer_email { Some(x) => Some(x.clone()), None => None }),
            customer_name: (match &self.customer_name { Some(x) => Some(x.clone()), None => None }),
            customer_phone: (match &self.customer_phone { Some(x) => Some(x.clone()), None => None }),
            customer_shipping: self.customer_shipping.clone(),
            customer_tax_exempt: self.customer_tax_exempt.clone(),
            customer_tax_ids: self.customer_tax_ids.clone(),
            default_tax_rates: self.default_tax_rates.clone(),
            description: (match &self.description { Some(x) => Some(x.clone()), None => None }),
            discount: (match &self.discount { Some(x) => Some(x.clone()), None => None }),
            due_date: self.due_date,
            ending_balance: self.ending_balance,
            footer: (match &self.footer { Some(x) => Some(x.clone()), None => None }),
            hosted_invoice_url: (match &self.hosted_invoice_url { Some(x) => Some(x.clone()), None => None }),
            invoice_pdf: (match &self.invoice_pdf { Some(x) => Some(x.clone()), None => None }),
            last_finalization_error: Box::new((match (&*self.last_finalization_error) { Some(x) => Some(x.clone()), None => None })),
            lines: self.lines.clone(),
            next_payment_attempt: self.next_payment_attempt,
            number: (match &self.number { Some(x) => Some(x.clone()), None => None }),
            period_end: self.period_end,
            period_start: self.period_start,
            post_payment_credit_notes_amount: self.post_payment_credit_notes_amount,
            pre_payment_credit_notes_amount: self.pre_payment_credit_notes_amount,
            receipt_number: (match &self.receipt_number { Some(x) => Some(x.clone()), None => None }),
            starting_balance: self.starting_balance,
            statement_descriptor: (match &self.statement_descriptor { Some(x) => Some(x.clone()), None => None }),
            status: self.status.clone(),
            status_transitions: self.status_transitions.clone(),
            subscription_proration_date: self.subscription_proration_date,
            subtotal: self.subtotal,
            tax: self.tax,
            threshold_reason: self.threshold_reason.clone(),
            total: self.total,
            total_discount_amounts: (match &self.total_discount_amounts { Some(x) => Some(crate::types::clone_vec_discounts_resource_discount_amount(x)), None => None }),
            total_tax_amounts: self.total_tax_amounts.clone(),
            transfer_data: (match &self.transfer_data { Some(x) => Some(x.clone()), None => None }),
            webhooks_delivered_at: self.webhooks_delivered_at,
            created: self.created,
            livemode: self.livemode,
            metadata: self.metadata.clone(),
        }
    }
}

impl UniPaymentMethod {
    /// Whether `other` is the same variant as `self`, with the same payload where it is a plain
    /// value, and a payload that agrees by its own `clone_agrees` where it has one.
    pub open spec fn clone_agrees(&self, other: &Self) -> bool {
        match self {
            UniPaymentMethod::String(x) => other matches UniPaymentMethod::String(y) && x == y,
            UniPaymentMethod::PaymentMethod(x) => other matches UniPaymentMethod::PaymentMethod(y) && (*x).clone_agrees(&*y),
        }
    }
}

impl Clone for UniPaymentMethod {
    fn clone(&self) -> (r: Self)
        ensures
            self.clone_agrees(&r),
        decreases self,
    {
        match self {
            UniPaymentMethod::String(x) => UniPaymentMethod::String(x.clone()),
            UniPaymentMethod::PaymentMethod(x) => UniPaymentMethod::PaymentMethod(Box::new((&**x).clone())),
        }
    }
}

impl InvoiceLinesList95797E {
    /// Whether `other` copies the fields of `self` that are plain values (`has_more`, `url`).
    pub open spec fn clone_agrees(&self, other: &Self) -> bool {
        &&& self.has_more == other.has_more
        &&& self.url == other.url
    }
}

impl Clone for InvoiceLinesList95797E {
    fn clone(&self) -> (r: Self)
        ensures
            self.clone_agrees(&r),
        decreases self,
    {
        InvoiceLinesList95797E {
            object: self.object.clone(),
            data: crate::types::clone_vec_invoice_line_item(&self.data),
            has_more: self.has_more,
            url: self.url.clone(),
        }
    }
}

impl InvoiceSettingCustomerSetting {
    /// Whether `other` copies the fields of `self` that are plain values (`footer`).
    pub open spec fn clone_agrees(&self, other: &Self) -> bool {
        &&& self.footer == other.footer
    }
}

impl Clone for InvoiceSettingCustomerSetting {
    fn clone(&self) -> (r: Self)
        ensures
            self.clone_agrees(&r),
        decreases self,
    {
        InvoiceSettingCustomerSetting {
            default_payment_method: (match &self.default_payment_method { Some(x) => Some(x.clone()), None => None }),
            custom_fields: self.custom_fields.clone(),
            footer: (match &self.footer { Some(x) => Some(x.clone()), None => None }),
        }
    }
}

impl InvoiceTransferData {
    /// Whether `other` copies the fields of `self` that are plain values (`amount`).
    pub open spec fn clone_agrees(&self, other: &Self) -> bool {
        &&& self.amount == other.amount
    }
}

impl Clone for InvoiceTransferData {
    fn clone(&self) -> (r: Self)
        ensures
            self.clone_agrees(&r),
        decreases self,
    {
        InvoiceTransferData {
            destination: self.destination.clone(),
            amount: self.amount,
        }
    }
}

impl InvoiceItem {
    /// Whether `other` copies the fields of `self` that are plain values (`id`, `amount`, `currency`, `date`, `description`, `discountable`, `proration`, `quantity`, `subscription_item`, `unit_amount`, `unit_amount_decimal`, `livemode`).
    pub open spec fn clone_agrees(&self, other: &Self) -> bool {
        &&& self.id == other.id
        &&& self.amount == other.amount
        &&& self.currency == other.currency
        &&& self.date == other.date
        &&& self.description == other.description
        &&& self.discountable == other.discountable
        &&& self.proration == other.proration
        &&& self.quantity == other.quantity
        &&& self.subscription_item == other.subscription_item
        &&& self.unit_amount == other.unit_amount
        &&& self.unit_amount_decimal == other.unit_amount_decimal
        &&& self.livemode == other.livemode
    }
}

impl Clone for InvoiceItem {
    fn clone(&self) -> (r: Self)
        ensures
            self.clone_agrees(&r),
        decreases self,
    {
        InvoiceItem {
            object: self.object.clone(),
            id: self.id.clone(),
            customer: self.customer.clone(),
            discounts: (match &self.discounts { Some(x) => Some(crate::types::clone_vec_uni_items_e47473(x)), None => None }),
            invoice: (match &self.invoice { Some(x) => Some(x.clone()), None => None }),
            subscription: (match &self.subscription { Some(x) => Some(x.clone()), None => None }),
            amount: self.amount,
            currency: self.currency.clone(),
            date: self.date,
            description: (match &self.description { Some(x) => Some(x.clone()), None => None }),
            discountable: self.discountable,
            period: self.period.clone(),
            price: self.price.clone(),
            proration: self.proration,
            quantity: self.quantity,
            subscription_item: (match &self.subscription_item { Some(x) => Some(x.clone()), None => None }),
            tax_rates: self.tax_rates.clone(),
            unit_amount: self.unit_amount,
            unit_amount_decimal: (match &self.unit_amount_decimal { Some(x) => Some(x.clone()), None => None }),
            livemode: self.livemode,
            metadata: self.metadata.clone(),
        }
    }
}

impl UniItemsE47473 {
    /// Whether `other` is the same variant as `self`, with the same payload where it is a plain
    /// value, and a payload that agrees by its own `clone_agrees` where it has one.
    pub open spec fn clone_agrees(&self, other: &Self) -> bool {
        match self {
            UniItemsE47473::String(x) => other matches UniItemsE47473::String(y) && x == y,
            UniItemsE47473::Discount(x) => other matches UniItemsE47473::Discount(y) && x.clone_agrees(&y),
        }
    }
}

impl Clone for UniItemsE47473 {
    fn clone(&self) -> (r: Self)
        ensures
            self.clone_agrees(&r),
        decreases self,
    {
        match self {
            UniItemsE47473::String(x) => UniItemsE47473::String(x.clone()),
            UniItemsE47473::Discount(x) => UniItemsE47473::Discount(x.clone()),
        }
    }
}

impl IssuerFraudRecord {
    /// Whether `other` copies the fields of `self` that are plain values (`id`, `actionable`, `fraud_type`, `has_liability_shift`, `post_date`, `created`, `livemode`).
    pub open spec fn clone_agrees(&self, other: &Self) -> bool {
        &&& self.id == other.id
        &&& self.actionable == other.actionable
        &&& self.fraud_type == other.fraud_type
        &&& self.has_liability_shift == other.has_liability_shift
        &&& self.post_date == other.post_date
        &&& self.created == other.created
        &&& self.livemode == other.livemode
    }
}

impl Clone for IssuerFraudRecord {
    fn clone(&self) -> (r: Self)
        ensures
            self.clone_agrees(&r),
        decreases self,
    {
        IssuerFraudRecord {
            object: self.object.clone(),
            id: self.id.clone(),
            charge: self.charge.clone(),
            actionable: self.actionable,
            fraud_type: self.fraud_type.clone(),
            has_liability_shift: self.has_liability_shift,
            post_date: self.post_date,
            created: self.created,
            livemode: self.livemode,
        }
    }
}

impl IssuingAuthorization {
    /// Whether `other` copies the fields of `self` that are plain values (`id`, `amount`, `approved`, `currency`, `merchant_amount`, `merchant_currency`, `wallet`, `created`, `livemode`, `metadata`).
    pub open spec fn clone_agrees(&self, other: &Self) -> bool {
        &&& self.id == other.id
        &&& self.amount == other.amount
        &&& self.approved == other.approved
        &&& self.currency == other.currency
        &&& self.merchant_amount == other.merchant_amount
        &&& self.merchant_currency == other.merchant_currency
        &&& self.wallet == other.wallet
        &&& self.created == other.created
        &&& self.livemode == other.livemode
        &&& self.metadata@ == other.metadata@
    }
}

impl Clone for IssuingAuthorization {
    fn clone(&self) -> (r: Self)
        ensures
            self.clone_agrees(&r),
        decreases self,
    {
        IssuingAuthorization {
            object: self.object.clone(),
            id: self.id.clone(),
            cardholder: (match &self.cardholder { Some(x) => Some(x.clone()), None => None }),
            amount: self.amount,
            amount_details: self.amount_details.clone(),
            approved: self.approved,
            authorization_method: self.authorization_method.clone(),
            balance_transactions: crate::types::clone_vec_balance_transaction(&self.balance_transactions),
            card: Box::new((&*self.card).clone()),
            currency: self.currency.clone(),
            merchant_amount: self.merchant_amount,
            merchant_currency: self.merchant_currency.clone(),
            merchant_data: self.merchant_data.clone(),
            pending_request: self.pending_request.clone(),
            request_history: self.request_history.clone(),
            status: self.status.clone(),
            transactions: crate::types::clone_vec_issuing_transaction(&self.transactions),
            verification_data: self.verification_data.clone(),
            wallet: (match &self.wallet { Some(x) => Some(x.clone()), None => None }),
            created: self.created,
            livemode: self.livemode,
            metadata: self.metadata.clone(),
        }
    }
}

impl UniCardholder {
    /// Whether `other` is the same variant as `self`, with the same payload where it is a plain
    /// value, and a payload that agrees by its own `clone_agrees` where it has one.
    pub open spec fn clone_agrees(&self, other: &Self) -> bool {
        match self {
            UniCardholder::String(x) => other matches UniCardholder::String(y) && x == y,
            UniCardholder::IssuingCardholder(x) => other matches UniCardholder::IssuingCardholder(y) && x.clone_agrees(&y),
        }
    }
}

impl Clone for UniCardholder {
    fn clone(&self) -> (r: Self)
        ensures
            self.clone_agrees(&r),
        decreases self,
    {
        match self {
            UniCardholder::String(x) => UniCardholder::String(x.clone()),
            UniCardholder::IssuingCardholder(x) => UniCardholder::IssuingCardholder(x.clone()),
        }
    }
}

impl IssuingCard {
    /// Whether `other` copies the fields of `self` that are plain values (`id`, `brand`, `currency`, `cvc`, `exp_month`, `exp_year`, `last4`, `number`, `created`, `livemode`, `metadata`).
    pub open spec fn clone_agrees(&self, other: &Self) -> bool {
        &&& self.id == other.id
        &&& self.brand == other.brand
        &&& self.currency == other.currency
        &&& self.cvc == other.cvc
        &&& self.exp_month == other.exp_month
        &&& self.exp_year == other.exp_year
        &&& self.last4 == other.last4
        &&& self.number == other.number
        &&& self.created == other.created
        &&& self.livemode == other.livemode
        &&& self.metadata@ == other.metadata@
    }
}

impl Clone for IssuingCard {
    fn clone(&self) -> (r: Self)
        ensures
            self.clone_agrees(&r),
        decreases self,
    {
        IssuingCard {
            object: self.object.clone(),
            type_x: self.type_x.clone(),
            id: self.id.clone(),
            replaced_by: (match &self.replaced_by { Some(x) => Some(x.clone()), None => None }),
            replacement_for: (match &self.replacement_for { Some(x) => Some(x.clone()), None => None }),
            brand: self.brand.clone(),
            cancellation_reason: self.cancellation_reason.clone(),
            cardholder: self.cardholder.clone(),
            currency: self.currency.clone(),
            cvc: (match &self.cvc { Some(x) => Some(x.clone()), None => None }),
            exp_month: self.exp_month,
            exp_year: self.exp_year,
            last4: self.last4.clone(),
            number: (match &self.number { Some(x) => Some(x.clone()), None => None }),
            replacement_reason: self.replacement_reason.clone(),
            shipping: self.shipping.clone(),
            spending_controls: self.spending_controls.clone(),
            status: self.status.clone(),
            created: self.created,
            livemode: self.livemode,
            metadata: self.metadata.clone(),
        }
    }
}

impl UniReplacedBy {
    /// Whether `other` is the same variant as `self`, with the same payload where it is a plain
    /// value, and a payload that agrees by its own `clone_agrees` where it has one.
    pub open spec fn clone_agrees(&self, other: &Self) -> bool {
        match self {
            UniReplacedBy::String(x) => other matches UniReplacedBy::String(y) && x == y,
            UniReplacedBy::IssuingCard(x) => other matches UniReplacedBy::IssuingCard(y) && (*x).clone_agrees(&*y),
        }
    }
}

impl Clone for UniReplacedBy {
    fn clone(&self) -> (r: Self)
        ensures
            self.clone_agrees(&r),
        decreases self,
    {
        match self {
            UniReplacedBy::String(x) => UniReplacedBy::String(x.clone()),
            UniReplacedBy::IssuingCard(x) => UniReplacedBy::IssuingCard(Box::new((&**x).clone())),
        }
    }
}

impl IssuingCardholder {
    /// Whether `other` copies the fields of `self` that are plain values (`id`, `name`, `email`, `phone_number`, `created`, `livemode`, `metadata`).
    pub open spec fn clone_agrees(&self, other: &Self) -> bool {
        &&& self.id == other.id
        &&& self.name == other.name
        &&& self.email == other.email
        &&& self.phone_number == other.phone_number
        &&& self.created == other.created
        &&& self.livemode == other.livemode
        &&& self.metadata@ == other.metadata@
    }
}

impl Clone for IssuingCardholder {
    fn clone(&self) -> (r: Self)
        ensures
            self.clone_agrees(&r),
        decreases self,
    {
        IssuingCardholder {
            object: self.object.clone(),
            type_x: self.type_x.clone(),
            id: self.id.clone(),
            name: self.name.clone(),
            billing: self.billing.clone(),
            company: self.company.clone(),
            email: (match &self.email { Some(x) => Some(x.clone()), None => None }),
            individual: (match &self.individual { Some(x) => Some(x.clone()), None => None }),
            phone_number: (match &self.phone_number { Some(x) => Some(x.clone()), None => None }),
            requirements: self.requirements.clone(),
            spending_controls: self.spending_controls.clone(),
            status: self.status.clone(),
            created: self.created,
            livemode: self.livemode,
            metadata: self.metadata.clone(),
        }
    }
}

impl IssuingDispute {
    /// Whether `other` copies the fields of `self` that are plain values (`id`, `amount`, `currency`, `created`, `livemode`).
    pub open spec fn clone_agrees(&self, other: &Self) -> bool {
        &&& self.id == other.id
        &&& self.amount == other.amount
        &&& self.currency == other.currency
        &&& self.created == other.created
        &&& self.livemode == other.livemode
    }
}

impl Clone for IssuingDispute {
    fn clone(&self) -> (r: Self)
        ensures
            self.clone_agrees(&r),
        decreases self,
    {
        IssuingDispute {
            object: self.object.clone(),
            id: self.id.clone(),
            transaction: self.transaction.clone(),
            amount: self.amount,
            balance_transactions: (match &self.balance_transactions { Some(x) => Some(crate::types::clone_vec_balance_transaction(x)), None => None }),
            currency: (match &self.currency { Some(x) => Some(x.clone()), None => None }),
            evidence: (match &self.evidence { Some(x) => Some(x.clone()), None => None }),
            status: self.status.clone(),
            created: self.created,
            livemode: self.livemode,
            metadata: self.metadata.clone(),
        }
    }
}

impl UniTransaction {
    /// Whether `other` is the same variant as `self`, with the same payload where it is a plain
    /// value, and a payload that agrees by its own `clone_agrees` where it has one.
    pub open spec fn clone_agrees(&self, other: &Self) -> bool {
        match self {
            UniTransaction::String(x) => other matches UniTransaction::String(y) && x == y,
            UniTransaction::IssuingTransaction(x) => other matches UniTransaction::IssuingTransaction(y) && (*x).clone_agrees(&*y),
        }
    }
}

impl Clone for UniTransaction {
    fn clone(&self) -> (r: Self)
        ensures
            self.clone_agrees(&r),
        decreases self,
    {
        match self {
            UniTransaction::String(x) => UniTransaction::String(x.clone()),
            UniTransaction::IssuingTransaction(x) => UniTransaction::IssuingTransaction(Box::new((&**x).clone())),
        }
    }
}

impl IssuingTransaction {
    /// Whether `other` copies the fields of `self` that are plain values (`id`, `amount`, `currency`, `merchant_amount`, `merchant_currency`, `created`, `livemode`, `metadata`).
    pub open spec fn clone_agrees(&self, other: &Self) -> bool {
        &&& self.id == other.id
        &&& self.amount == other.amount
        &&& self.currency == other.currency
        &&& self.merchant_amount == other.merchant_amount
        &&& self.merchant_currency == other.merchant_currency
        &&& self.created == other.created
        &&& self.livemode == other.livemode
        &&& self.metadata@ == other.metadata@
    }
}

impl Clone for IssuingTransaction {
    fn clone(&self) -> (r: Self)
        ensures
            self.clone_agrees(&r),
        decreases self,
    {
        IssuingTransaction {
            object: self.object.clone(),
            type_x: self.type_x.clone(),
            id: self.id.clone(),
            authorization: (match &self.authorization { Some(x) => Some(x.clone()), None => None }),
            balance_transaction: (match &self.balance_transaction { Some(x) => Some(x.clone()), None => None }),
            card: self.card.clone(),
            cardholder: (match &self.cardholder { Some(x) => Some(x.clone()), None => None }),
            dispute: (match &self.dispute { Some(x) => Some(x.clone()), None => None }),
            amount: self.amount,
            amount_details: self.amount_details.clone(),
            currency: self.currency.clone(),
            merchant_amount: self.merchant_amount,
            merchant_currency: self.merchant_currency.clone(),
            merchant_data: self.merchant_data.clone(),
            purchase_details: self.purchase_details.clone(),
            created: self.created,
            livemode: self.livemode,
            metadata: self.metadata.clone(),
        }
    }
}

impl UniAuthorization {
    /// Whether `other` is the same variant as `self`, with the same payload where it is a plain
    /// value, and a payload that agrees by its own `clone_agrees` where it has one.
    pub open spec fn clone_agrees(&self, other: &Self) -> bool {
        match self {
            UniAuthorization::String(x) => other matches UniAuthorization::String(y) && x == y,
            UniAuthorization::IssuingAuthorization(x) => other matches UniAuthorization::IssuingAuthorization(y) && x.clone_agrees(&y),
        }
    }
}

impl Clone for UniAuthorization {
    fn clone(&self) -> (r: Self)
        ensures
            self.clone_agrees(&r),
        decreases self,
    {
        match self {
            UniAuthorization::String(x) => UniAuthorization::String(x.clone()),
            UniAuthorization::IssuingAuthorization(x) => UniAuthorization::IssuingAuthorization(x.clone()),
        }
    }
}

impl UniDispute {
    /// Whether `other` is the same variant as `self`, with the same payload where it is a plain
    /// value, and a payload that agrees by its own `clone_agrees` where it has one.
    pub open spec fn clone_agrees(&self, other: &Self) -> bool {
        match self {
            UniDispute::String(x) => other matches UniDispute::String(y) && x == y,
            UniDispute::IssuingDispute(x) => other matches UniDispute::IssuingDispute(y) && x.clone_agrees(&y),
        }
    }
}

impl Clone for UniDispute {
    fn clone(&self) -> (r: Self)
        ensures
            self.clone_agrees(&r),
        decreases self,
    {
        match self {
            UniDispute::String(x) => UniDispute::String(x.clone()),
            UniDispute::IssuingDispute(x) => UniDispute::IssuingDispute(x.clone()),
        }
    }
}

impl IssuingCardholderIdDocument {
    /// Whether `other` copies `self` as far as its plain fields go (it has none).
    pub open spec fn clone_agrees(&self, other: &Self) -> bool {
        true
    }
}

impl Clone for IssuingCardholderIdDocument {
    fn clone(&self) -> (r: Self)
        ensures
            self.clone_agrees(&r),
        decreases self,
    {
        IssuingCardholderIdDocument {
            back: (match &self.back { Some(x) => Some(x.clone()), None => None }),
            front: (match &self.front { Some(x) => Some(x.clone()), None => None }),
        }
    }
}

impl IssuingCardholderIndividual {
    /// Whether `other` copies the fields of `self` that are plain values (`first_name`, `last_name`).
    pub open spec fn clone_agrees(&self, other: &Self) -> bool {
        &&& self.first_name == other.first_name
        &&& self.last_name == other.last_name
    }
}

impl Clone for IssuingCardholderIndividual {
    fn clone(&self) -> (r: Self)
        ensures
            self.clone_agrees(&r),
        decreases self,
    {
        IssuingCardholderIndividual {
            dob: self.dob.clone(),
            first_name: self.first_name.clone(),
            last_name: self.last_name.clone(),
            verification: (match &self.verification { Some(x) => Some(x.clone()), None => None }),
        }
    }
}

impl IssuingCardholderVerification {
    /// Whether `other` copies `self` as far as its plain fields go (it has none).
    pub open spec fn clone_agrees(&self, other: &Self) -> bool {
        true
    }
}

impl Clone for IssuingCardholderVerification {
    fn clone(&self) -> (r: Self)
        ensures
            self.clone_agrees(&r),
        decreases self,
    {
        IssuingCardholderVerification {
            document: (match &self.document { Some(x) => Some(x.clone()), None => None }),
        }
    }
}

impl IssuingDisputeCanceledEvidence {
    /// Whether `other` copies the fields of `self` that are plain values (`canceled_at`, `cancellation_policy_provided`, `cancellation_reason`, `expected_at`, `explanation`, `product_description`, `returned_at`).
    pub open spec fn clone_agrees(&self, other: &Self) -> bool {
        &&& self.canceled_at == other.canceled_at
        &&& self.cancellation_policy_provided == other.cancellation_policy_provided
        &&& self.cancellation_reason == other.cancellation_reason
        &&& self.expected_at == other.expected_at
        &&& self.explanation == other.explanation
        &&& self.product_description == other.product_description
        &&& self.returned_at == other.returned_at
    }
}

impl Clone for IssuingDisputeCanceledEvidence {
    fn clone(&self) -> (r: Self)
        ensures
            self.clone_agrees(&r),
        decreases self,
    {
        IssuingDisputeCanceledEvidence {
            additional_documentation: (match &self.additional_documentation { Some(x) => Some(x.clone()), None => None }),
            canceled_at: self.canceled_at,
            cancellation_policy_provided: self.cancellation_policy_provided,
            cancellation_reason: (match &self.cancellation_reason { Some(x) => Some(x.clone()), None => None }),
            expected_at: self.expected_at,
            explanation: (match &self.explanation { Some(x) => Some(x.clone()), None => None }),
            product_description: (match &self.product_description { Some(x) => Some(x.clone()), None => None }),
            product_type: self.product_type.clone(),
            return_status: self.return_status.clone(),
            returned_at: self.returned_at,
        }
    }
}

impl IssuingDisputeDuplicateEvidence {
    /// Whether `other` copies the fields of `self` that are plain values (`explanation`, `original_transaction`).
    pub open spec fn clone_agrees(&self, other: &Self) -> bool {
        &&& self.explanation == other.explanation
        &&& self.original_transaction == other.original_transaction
    }
}

impl Clone for IssuingDisputeDuplicateEvidence {
    fn clone(&self) -> (r: Self)
        ensures
            self.clone_agrees(&r),
        decreases self,
    {
        IssuingDisputeDuplicateEvidence {
            additional_documentation: (match &self.additional_documentation { Some(x) => Some(x.clone()), None => None }),
            card_statement: (match &self.card_statement { Some(x) => Some(x.clone()), None => None }),
            cash_receipt: (match &self.cash_receipt { Some(x) => Some(x.clone()), None => None }),
            check_image: (match &self.check_image { Some(x) => Some(x.clone()), None => None }),
            explanation: (match &self.explanation { Some(x) => Some(x.clone()), None => None }),
            original_transaction: (match &self.original_transaction { Some(x) => Some(x.clone()), None => None }),
        }
    }
}

impl IssuingDisputeEvidence {
    /// Whether `other` copies `self` as far as its plain fields go (it has none).
    pub open spec fn clone_agrees(&self, other: &Self) -> bool {
        true
    }
}

impl Clone for IssuingDisputeEvidence {
    fn clone(&self) -> (r: Self)
        ensures
            self.clone_agrees(&r),
        decreases self,
    {
        IssuingDisputeEvidence {
            canceled: (match &self.canceled { Some(x) => Some(x.clone()), None => None }),
            duplicate: (match &self.duplicate { Some(x) => Some(x.clone()), None => None }),
            fraudulent: (match &self.fraudulent { Some(x) => Some(x.clone()), None => None }),
            merchandise_not_as_described: (match &self.merchandise_not_as_described { Some(x) => Some(x.clone()), None => None }),
            not_received: (match &self.not_received { Some(x) => Some(x.clone()), None => None }),
            other: (match &self.other { Some(x) => Some(x.clone()), None => None }),
            reason: self.reason.clone(),
            service_not_as_described: (match &self.service_not_as_described { Some(x) => Some(x.clone()), None => None }),
        }
    }
}

impl IssuingDisputeFraudulentEvidence {
    /// Whether `other` copies the fields of `self` that are plain values (`explanation`).
    pub open spec fn clone_agrees(&self, other: &Self) -> bool {
        &&& self.explanation == other.explanation
    }
}

impl Clone for IssuingDisputeFraudulentEvidence {
    fn clone(&self) -> (r: Self)
        ensures
            self.clone_agrees(&r),
        decreases self,
    {
        IssuingDisputeFraudulentEvidence {
            additional_documentation: (match &self.additional_documentation { Some(x) => Some(x.clone()), None => None }),
            explanation: (match &self.explanation { Some(x) => Some(x.clone()), None => None }),
        }
    }
}

impl IssuingDisputeMerchandiseNotAsDescribedEvidence {
    /// Whether `other` copies the fields of `self` that are plain values (`explanation`, `received_at`, `return_description`, `returned_at`).
    pub open spec fn clone_agrees(&self, other: &Self) -> bool {
        &&& self.explanation == other.explanation
        &&& self.received_at == other.received_at
        &&& self.return_description == other.return_description
        &&& self.returned_at == other.returned_at
    }
}

impl Clone for IssuingDisputeMerchandiseNotAsDescribedEvidence {
    fn clone(&self) -> (r: Self)
        ensures
            self.clone_agrees(&r),
        decreases self,
    {
        IssuingDisputeMerchandiseNotAsDescribedEvidence {
            additional_documentation: (match &self.additional_documentation { Some(x) => Some(x.clone()), None => None }),
            explanation: (match &self.explanation { Some(x) => Some(x.clone()), None => None }),
            received_at: self.received_at,
            return_description: (match &self.return_description { Some(x) => Some(x.clone()), None => None }),
            return_status: self.return_status.clone(),
            returned_at: self.returned_at,
        }
    }
}

impl IssuingDisputeNotReceivedEvidence {
    /// Whether `other` copies the fields of `self` that are plain values (`expected_at`, `explanation`, `product_description`).
    pub open spec fn clone_agrees(&self, other: &Self) -> bool {
        &&& self.expected_at == other.expected_at
        &&& self.explanation == other.explanation
        &&& self.product_description == other.product_description
    }
}

impl Clone for IssuingDisputeNotReceivedEvidence {
    fn clone(&self) -> (r: Self)
        ensures
            self.clone_agrees(&r),
        decreases self,
    {
        IssuingDisputeNotReceivedEvidence {
            additional_documentation: (match &self.additional_documentation { Some(x) => Some(x.clone()), None => None }),
            expected_at: self.expected_at,
            explanation: (match &self.explanation { Some(x) => Some(x.clone()), None => None }),
            product_description: (match &self.product_description { Some(x) => Some(x.clone()), None => None }),
            product_type: self.product_type.clone(),
        }
    }
}

impl IssuingDisputeOtherEvidence {
    /// Whether `other` copies the fields of `self` that are plain values (`explanation`, `product_description`).
    pub open spec fn clone_agrees(&self, other: &Self) -> bool {
        &&& self.explanation == other.explanation
        &&& self.product_description == other.product_description
    }
}

impl Clone for IssuingDisputeOtherEvidence {
    fn clone(&self) -> (r: Self)
        ensures
            self.clone_agrees(&r),
        decreases self,
    {
        IssuingDisputeOtherEvidence {
            additional_documentation: (match &self.additional_documentation { Some(x) => Some(x.clone()), None => None }),
            explanation: (match &self.explanation { Some(x) => Some(x.clone()), None => None }),
            product_description: (match &self.product_description { Some(x) => Some(x.clone()), None => None }),
            product_type: self.product_type.clone(),
        }
    }
}

impl IssuingDisputeServiceNotAsDescribedEvidence {
    /// Whether `other` copies the fields of `self` that are plain values (`canceled_at`, `cancellation_reason`, `explanation`, `received_at`).
    pub open spec fn clone_agrees(&self, other: &Self) -> bool {
        &&& self.canceled_at == other.canceled_at
        &&& self.cancellation_reason == other.cancellation_reason
        &&& self.explanation == other.explanation
        &&& self.received_at == other.received_at
    }
}

impl Clone for IssuingDisputeServiceNotAsDescribedEvidence {
    fn clone(&self) -> (r: Self)
        ensures
            self.clone_agrees(&r),
        decreases self,
    {
        IssuingDisputeServiceNotAsDescribedEvidence {
            additional_documentation: (match &self.additional_documentation { Some(x) => Some(x.clone()), None => None }),
            canceled_at: self.canceled_at,
            cancellation_reason: (match &self.cancellation_reason { Some(x) => Some(x.clone()), None => None }),
            explanation: (match &self.explanation { Some(x) => Some(x.clone()), None => None }),
            received_at: self.received_at,
        }
    }
}

impl LineItems {
    /// Whether `other` copies the fields of `self` that are plain values (`id`, `amount_subtotal`, `amount_total`, `currency`, `description`, `quantity`).
    pub open spec fn clone_agrees(&self, other: &Self) -> bool {
        &&& self.id == other.id
        &&& self.amount_subtotal == other.amount_subtotal
        &&& self.amount_total == other.amount_total
        &&& self.currency == other.currency
        &&& self.description == other.description
        &&& self.quantity == other.quantity
    }
}

impl Clone for LineItems {
    fn clone(&self) -> (r: Self)
        ensures
            self.clone_agrees(&r),
        decreases self,
    {
        LineItems {
            object: self.object.clone(),
            id: self.id.clone(),
            amount_subtotal: self.amount_subtotal,
            amount_total: self.amount_total,
            currency: self.currency.clone(),
            description: self.description.clone(),
            discounts: (match &self.discounts { Some(x) => Some(crate::types::clone_vec_line_items_discount_amount(x)), None => None }),
            price: self.price.clone(),
            quantity: self.quantity,
            taxes: self.taxes.clone(),
        }
    }
}

impl LegalEntityCompany {
    /// Whether `other` copies the fields of `self` that are plain values (`name`, `directors_provided`, `executives_provided`, `name_kana`, `name_kanji`, `owners_provided`, `phone`, `tax_id_provided`, `tax_id_registrar`, `vat_id_provided`).
    pub open spec fn clone_agrees(&self, other: &Self) -> bool {
        &&& self.name == other.name
        &&& self.directors_provided == other.directors_provided
        &&& self.executives_provided == other.executives_provided
        &&& self.name_kana == other.name_kana
        &&& self.name_kanji == other.name_kanji
        &&& self.owners_provided == other.owners_provided
        &&& self.phone == other.phone
        &&& self.tax_id_provided == other.tax_id_provided
        &&& self.tax_id_registrar == other.tax_id_registrar
        &&& self.vat_id_provided == other.vat_id_provided
    }
}

impl Clone for LegalEntityCompany {
    fn clone(&self) -> (r: Self)
        ensures
            self.clone_agrees(&r),
        decreases self,
    {
        LegalEntityCompany {
            name: (match &self.name { Some(x) => Some(x.clone()), None => None }),
            address: self.address.clone(),
            address_kana: self.address_kana.clone(),
            address_kanji: self.address_kanji.clone(),
            directors_provided: self.directors_provided,
            executives_provided: self.executives_provided,
            name_kana: (match &self.name_kana { Some(x) => Some(x.clone()), None => None }),
            name_kanji: (match &self.name_kanji { Some(x) => Some(x.clone()), None => None }),
            owners_provided: self.owners_provided,
            phone: (match &self.phone { Some(x) => Some(x.clone()), None => None }),
            structure: self.structure.clone(),
            tax_id_provided: self.tax_id_provided,
            tax_id_registrar: (match &self.tax_id_registrar { Some(x) => Some(x.clone()), None => None }),
            vat_id_provided: self.vat_id_provided,
            verification: (match &self.verification { Some(x) => Some(x.clone()), None => None }),
        }
    }
}

impl LegalEntityCompanyVerification {
    /// Whether `other` copies `self` as far as its plain fields go (it has none).
    pub open spec fn clone_agrees(&self, other: &Self) -> bool {
        true
    }
}

impl Clone for LegalEntityCompanyVerification {
    fn clone(&self) -> (r: Self)
        ensures
            self.clone_agrees(&r),
        decreases self,
    {
        LegalEntityCompanyVerification {
            document: self.document.clone(),
        }
    }
}

impl LegalEntityCompanyVerificationDocument {
    /// Whether `other` copies the fields of `self` that are plain values (`details`, `details_code`).
    pub open spec fn clone_agrees(&self, other: &Self) -> bool {
        &&& self.details == other.details
        &&& self.details_code == other.details_code
    }
}

impl Clone for LegalEntityCompanyVerificationDocument {
    fn clone(&self) -> (r: Self)
        ensures
            self.clone_agrees(&r),
        decreases self,
    {
        LegalEntityCompanyVerificationDocument {
            back: (match &self.back { Some(x) => Some(x.clone()), None => None }),
            front: (match &self.front { Some(x) => Some(x.clone()), None => None }),
            details: (match &self.details { Some(x) => Some(x.clone()), None => None }),
            details_code: (match &self.details_code { Some(x) => Some(x.clone()), None => None }),
        }
    }
}

impl LegalEntityPersonVerification {
    /// Whether `other` copies the fields of `self` that are plain values (`details`, `details_code`, `status`).
    pub open spec fn clone_agrees(&self, other: &Self) -> bool {
        &&& self.details == other.details
        &&& self.details_code == other.details_code
        &&& self.status == other.status
    }
}

impl Clone for LegalEntityPersonVerification {
    fn clone(&self) -> (r: Self)
        ensures
            self.clone_agrees(&r),
        decreases self,
    {
        LegalEntityPersonVerification {
            additional_document: (match &self.additional_document { Some(x) => Some(x.clone()), None => None }),
            details: (match &self.details { Some(x) => Some(x.clone()), None => None }),
            details_code: (match &self.details_code { Some(x) => Some(x.clone()), None => None }),
            document: (match &self.document { Some(x) => Some(x.clone()), None => None }),
            status: self.status.clone(),
        }
    }
}

impl LegalEntityPersonVerificationDocument {
    /// Whether `other` copies the fields of `self` that are plain values (`details`, `details_code`).
    pub open spec fn clone_agrees(&self, other: &Self) -> bool {
        &&& self.details == other.details
        &&& self.details_code == other.details_code
    }
}

impl Clone for LegalEntityPersonVerificationDocument {
    fn clone(&self) -> (r: Self)
        ensures
            self.clone_agrees(&r),
        decreases self,
    {
        LegalEntityPersonVerificationDocument {
            back: (match &self.back { Some(x) => Some(x.clone()), None => None }),
            front: (match &self.front { Some(x) => Some(x.clone()), None => None }),
            details: (match &self.details { Some(x) => Some(x.clone()), None => None }),
            details_code: (match &self.details_code { Some(x) => Some(x.clone()), None => None }),
        }
    }
}

impl InvoiceLineItem {
    /// Whether `other` copies the fields of `self` that are plain values (`id`, `amount`, `currency`, `description`, `discountable`, `invoice_item`, `proration`, `quantity`, `subscription`, `subscription_item`, `livemode`, `metadata`).
    pub open spec fn clone_agrees(&self, other: &Self) -> bool {
        &&& self.id == other.id
        &&& self.amount == other.amount
        &&& self.currency == other.currency
        &&& self.description == other.description
        &&& self.discountable == other.discountable
        &&& self.invoice_item == other.invoice_item
        &&& self.proration == other.proration
        &&& self.quantity == other.quantity
        &&& self.subscription == other.subscription
        &&& self.subscription_item == other.subscription_item
        &&& self.livemode == other.livemode
        &&& self.metadata@ == other.metadata@
    }
}

impl Clone for InvoiceLineItem {
    fn clone(&self) -> (r: Self)
        ensures
            self.clone_agrees(&r),
        decreases self,
    {
        InvoiceLineItem {
            object: self.object.clone(),
            type_x: self.type_x.clone(),
            id: self.id.clone(),
            discounts: (match &self.discounts { Some(x) => Some(crate::types::clone_vec_uni_items_e47473(x)), None => None }),
            amount: self.amount,
            currency: self.currency.clone(),
            description: (match &self.description { Some(x) => Some(x.clone()), None => None }),
            discount_amounts: (match &self.discount_amounts { Some(x) => Some(crate::types::clone_vec_discounts_resource_discount_amount(x)), None => None }),
            discountable: self.discountable,
            invoice_item: (match &self.invoice_item { Some(x) => Some(x.clone()), None => None }),
            period: self.period.clone(),
            price: self.price.clone(),
            proration: self.proration,
            quantity: self.quantity,
            subscription: (match &self.subscription { Some(x) => Some(x.clone()), None => None }),
            subscription_item: (match &self.subscription_item { Some(x) => Some(x.clone()), None => None }),
            tax_amounts: self.tax_amounts.clone(),
            tax_rates: self.tax_rates.clone(),
            livemode: self.livemode,
            metadata: self.metadata.clone(),
        }
    }
}

impl LineItemsDiscountAmount {
    /// Whether `other` copies the fields of `self` that are plain values (`amount`).
    pub open spec fn clone_agrees(&self, other: &Self) -> bool {
        &&& self.amount == other.amount
    }
}

impl Clone for LineItemsDiscountAmount {
    fn clone(&self) -> (r: Self)
        ensures
            self.clone_agrees(&r),
        decreases self,
    {
        LineItemsDiscountAmount {
            amount: self.amount,
            discount: self.discount.clone(),
        }
    }
}

impl Mandate {
    /// Whether `other` copies the fields of `self` that are plain values (`id`, `multi_use`, `livemode`).
    pub open spec fn clone_agrees(&self, other: &Self) -> bool {
        &&& self.id == other.id
        &&& self.multi_use == other.multi_use
        &&& self.livemode == other.livemode
    }
}

impl Clone for Mandate {
    fn clone(&self) -> (r: Self)
        ensures
            self.clone_agrees(&r),
        decreases self,
    {
        Mandate {
            object: self.object.clone(),
            type_x: self.type_x.clone(),
            id: self.id.clone(),
            payment_method: self.payment_method.clone(),
            customer_acceptance: self.customer_acceptance.clone(),
            multi_use: (match &self.multi_use { Some(x) => Some(x.clone()), None => None }),
            payment_method_details: self.payment_method_details.clone(),
            single_use: self.single_use.clone(),
            status: self.status.clone(),
            livemode: self.livemode,
        }
    }
}

impl NotificationEventData {
    /// Whether `other` copies the fields of `self` that are plain values (`previous_attributes`).
    pub open spec fn clone_agrees(&self, other: &Self) -> bool {
        &&& self.previous_attributes == other.previous_attributes
    }
}

impl Clone for NotificationEventData {
    fn clone(&self) -> (r: Self)
        ensures
            self.clone_agrees(&r),
        decreases self,
    {
        NotificationEventData {
            object: Box::new((&*self.object).clone()),
            previous_attributes: (match &self.previous_attributes { Some(x) => Some(x.clone()), None => None }),
        }
    }
}

impl UniNotificationEventDataObject {
    /// Whether `other` is the same variant as `self`, with the same payload where it is a plain
    /// value, and a payload that agrees by its own `clone_agrees` where it has one.
    pub open spec fn clone_agrees(&self, other: &Self) -> bool {
        match self {
            UniNotificationEventDataObject::Account(x) => other matches UniNotificationEventDataObject::Account(y) && x.clone_agrees(&y),
            UniNotificationEventDataObject::PlatformFee(x) => other matches UniNotificationEventDataObject::PlatformFee(y) && x.clone_agrees(&y),
            UniNotificationEventDataObject::Balance(_) => other is Balance,
            UniNotificationEventDataObject::AccountCapability(x) => other matches UniNotificationEventDataObject::AccountCapability(y) && x.clone_agrees(&y),
            UniNotificationEventDataObject::Charge(x) => other matches UniNotificationEventDataObject::Charge(y) && (*x).clone_agrees(&*y),
            UniNotificationEventDataObject::Session(x) => other matches UniNotificationEventDataObject::Session(y) && x.clone_agrees(&y),
            UniNotificationEventDataObject::Coupon(_) => other is Coupon,
            UniNotificationEventDataObject::CreditNote(x) => other matches UniNotificationEventDataObject::CreditNote(y) && (*x).clone_agrees(&*y),
            UniNotificationEventDataObject::Customer(x) => other matches UniNotificationEventDataObject::Customer(y) && (*x).clone_agrees(&*y),
            UniNotificationEventDataObject::Discount(x) => other matches UniNotificationEventDataObject::Discount(y) && x.clone_agrees(&y),
            UniNotificationEventDataObject::Dispute(x) => other matches UniNotificationEventDataObject::Dispute(y) && x.clone_agrees(&y),
            UniNotificationEventDataObject::RadarEarlyFraudWarning(x) => other matches UniNotificationEventDataObject::RadarEarlyFraudWarning(y) && x.clone_agrees(&y),
            UniNotificationEventDataObject::UniPolymorphic70BAFA(_) => other is UniPolymorphic70BAFA,
            UniNotificationEventDataObject::FeeRefund(x) => other matches UniNotificationEventDataObject::FeeRefund(y) && x.clone_agrees(&y),
            UniNotificationEventDataObject::File(x) => other matches UniNotificationEventDataObject::File(y) && x.clone_agrees(&y),
            UniNotificationEventDataObject::Invoice(x) => other matches UniNotificationEventDataObject::Invoice(y) && (*x).clone_agrees(&*y),
            UniNotificationEventDataObject::InvoiceItem(x) => other matches UniNotificationEventDataObject::InvoiceItem(y) && x.clone_agrees(&y),
            UniNotificationEventDataObject::IssuingAuthorization(x) => other matches UniNotificationEventDataObject::IssuingAuthorization(y) && x.clone_agrees(&y),
            UniNotificationEventDataObject::IssuingCard(x) => other matches UniNotificationEventDataObject::IssuingCard(y) && (*x).clone_agrees(&*y),
            UniNotificationEventDataObject::IssuingCardholder(x) => other matches UniNotificationEventDataObject::IssuingCardholder(y) && x.clone_agrees(&y),
            UniNotificationEventDataObject::IssuingDispute(x) => other matches UniNotificationEventDataObject::IssuingDispute(y) && x.clone_agrees(&y),
            UniNotificationEventDataObject::IssuingTransaction(x) => other matches UniNotificationEventDataObject::IssuingTransaction(y) && (*x).clone_agrees(&*y),
            UniNotificationEventDataObject::Mandate(x) => other matches UniNotificationEventDataObject::Mandate(y) && x.clone_agrees(&y),
            UniNotificationEventDataObject::Order(x) => other matches UniNotificationEventDataObject::Order(y) && x.clone_agrees(&y),
            UniNotificationEventDataObject::OrderReturn(x) => other matches UniNotificationEventDataObject::OrderReturn(y) && x.clone_agrees(&y),
            UniNotificationEventDataObject::PaymentIntent(x) => other matches UniNotificationEventDataObject::PaymentIntent(y) && (*x).clone_agrees(&*y),
            UniNotificationEventDataObject::PaymentMethod(x) => other matches UniNotificationEventDataObject::PaymentMethod(y) && (*x).clone_agrees(&*y),
            UniNotificationEventDataObject::Payout(x) => other matches UniNotificationEventDataObject::Payout(y) && (*x).clone_agrees(&*y),
            UniNotificationEventDataObject::Person(x) => other matches UniNotificationEventDataObject::Person(y) && x.clone_agrees(&y),
            UniNotificationEventDataObject::Plan(_) => other is Plan,
            UniNotificationEventDataObject::Price(_) => other is Price,
            UniNotificationEventDataObject::Product(_) => other is Product,
            UniNotificationEventDataObject::PromotionCode(x) => other matches UniNotificationEventDataObject::PromotionCode(y) && x.clone_agrees(&y),
            UniNotificationEventDataObject::TransferRecipient(x) => other matches UniNotificationEventDataObject::TransferRecipient(y) && x.clone_agrees(&y),
            UniNotificationEventDataObject::Refund(x) => other matches UniNotificationEventDataObject::Refund(y) && (*x).clone_agrees(&*y),
            UniNotificationEventDataObject::ReportingReportRun(x) => other matches UniNotificationEventDataObject::ReportingReportRun(y) && x.clone_agrees(&y),
            UniNotificationEventDataObject::ReportingReportType(_) => other is ReportingReportType,
            UniNotificationEventDataObject::RadarReview(x) => other matches UniNotificationEventDataObject::RadarReview(y) && x.clone_agrees(&y),
            UniNotificationEventDataObject::ScheduledQueryRun(x) => other matches UniNotificationEventDataObject::ScheduledQueryRun(y) && x.clone_agrees(&y),
            UniNotificationEventDataObject::SetupIntent(x) => other matches UniNotificationEventDataObject::SetupIntent(y) && (*x).clone_agrees(&*y),
            UniNotificationEventDataObject::Sku(_) => other is Sku,
            UniNotificationEventDataObject::Source(_) => other is Source,
            UniNotificationEventDataObject::SourceTransaction(_) => other is SourceTransaction,
            UniNotificationEventDataObject::Subscription(x) => other matches UniNotificationEventDataObject::Subscription(y) && (*x).clone_agrees(&*y),
            UniNotificationEventDataObject::SubscriptionSchedule(x) => other matches UniNotificationEventDataObject::SubscriptionSchedule(y) && x.clone_agrees(&y),
            UniNotificationEventDataObject::TaxId(x) => other matches UniNotificationEventDataObject::TaxId(y) && x.clone_agrees(&y),
            UniNotificationEventDataObject::TaxRate(_) => other is TaxRate,
            UniNotificationEventDataObject::Topup(x) => other matches UniNotificationEventDataObject::Topup(y) && x.clone_agrees(&y),
            UniNotificationEventDataObject::Transfer(x) => other matches UniNotificationEventDataObject::Transfer(y) && x.clone_agrees(&y),
            UniNotificationEventDataObject::UnknownEvent(x) => other matches UniNotificationEventDataObject::UnknownEvent(y) && x == y,
        }
    }
}

impl Clone for UniNotificationEventDataObject {
    fn clone(&self) -> (r: Self)
        ensures
            self.clone_agrees(&r),
        decreases self,
    {
        match self {
            UniNotificationEventDataObject::Account(x) => UniNotificationEventDataObject::Account(x.clone()),
            UniNotificationEventDataObject::PlatformFee(x) => UniNotificationEventDataObject::PlatformFee(x.clone()),
            UniNotificationEventDataObject::Balance(x) => UniNotificationEventDataObject::Balance(x.clone()),
            UniNotificationEventDataObject::AccountCapability(x) => UniNotificationEventDataObject::AccountCapability(x.clone()),
            UniNotificationEventDataObject::Charge(x) => UniNotificationEventDataObject::Charge(Box::new((&**x).clone())),
            UniNotificationEventDataObject::Session(x) => UniNotificationEventDataObject::Session(x.clone()),
            UniNotificationEventDataObject::Coupon(x) => UniNotificationEventDataObject::Coupon(x.clone()),
            UniNotificationEventDataObject::CreditNote(x) => UniNotificationEventDataObject::CreditNote(Box::new((&**x).clone())),
            UniNotificationEventDataObject::Customer(x) => UniNotificationEventDataObject::Customer(Box::new((&**x).clone())),
            UniNotificationEventDataObject::Discount(x) => UniNotificationEventDataObject::Discount(x.clone()),
            UniNotificationEventDataObject::Dispute(x) => UniNotificationEventDataObject::Dispute(x.clone()),
            UniNotificationEventDataObject::RadarEarlyFraudWarning(x) => UniNotificationEventDataObject::RadarEarlyFraudWarning(x.clone()),
            UniNotificationEventDataObject::UniPolymorphic70BAFA(x) => UniNotificationEventDataObject::UniPolymorphic70BAFA(x.clone()),
            UniNotificationEventDataObject::FeeRefund(x) => UniNotificationEventDataObject::FeeRefund(x.clone()),
            UniNotificationEventDataObject::File(x) => UniNotificationEventDataObject::File(x.clone()),
            UniNotificationEventDataObject::Invoice(x) => UniNotificationEventDataObject::Invoice(Box::new((&**x).clone())),
            UniNotificationEventDataObject::InvoiceItem(x) => UniNotificationEventDataObject::InvoiceItem(x.clone()),
            UniNotificationEventDataObject::IssuingAuthorization(x) => UniNotificationEventDataObject::IssuingAuthorization(x.clone()),
            UniNotificationEventDataObject::IssuingCard(x) => UniNotificationEventDataObject::IssuingCard(Box::new((&**x).clone())),
            UniNotificationEventDataObject::IssuingCardholder(x) => UniNotificationEventDataObject::IssuingCardholder(x.clone()),
            UniNotificationEventDataObject::IssuingDispute(x) => UniNotificationEventDataObject::IssuingDispute(x.clone()),
            UniNotificationEventDataObject::IssuingTransaction(x) => UniNotificationEventDataObject::IssuingTransaction(Box::new((&**x).clone())),
            UniNotificationEventDataObject::Mandate(x) => UniNotificationEventDataObject::Mandate(x.clone()),
            UniNotificationEventDataObject::Order(x) => UniNotificationEventDataObject::Order(x.clone()),
            UniNotificationEventDataObject::OrderReturn(x) => UniNotificationEventDataObject::OrderReturn(x.clone()),
            UniNotificationEventDataObject::PaymentIntent(x) => UniNotificationEventDataObject::PaymentIntent(Box::new((&**x).clone())),
            UniNotificationEventDataObject::PaymentMethod(x) => UniNotificationEventDataObject::PaymentMethod(Box::new((&**x).clone())),
            UniNotificationEventDataObject::Payout(x) => UniNotificationEventDataObject::Payout(Box::new((&**x).clone())),
            UniNotificationEventDataObject::Person(x) => UniNotificationEventDataObject::Person(x.clone()),
            UniNotificationEventDataObject::Plan(x) => UniNotificationEventDataObject::Plan(x.clone()),
            UniNotificationEventDataObject::Price(x) => UniNotificationEventDataObject::Price(x.clone()),
            UniNotificationEventDataObject::Product(x) => UniNotificationEventDataObject::Product(x.clone()),
            UniNotificationEventDataObject::PromotionCode(x) => UniNotificationEventDataObject::PromotionCode(x.clone()),
            UniNotificationEventDataObject::TransferRecipient(x) => UniNotificationEventDataObject::TransferRecipient(x.clone()),
            UniNotificationEventDataObject::Refund(x) => UniNotificationEventDataObject::Refund(Box::new((&**x).clone())),
            UniNotificationEventDataObject::ReportingReportRun(x) => UniNotificationEventDataObject::ReportingReportRun(x.clone()),
            UniNotificationEventDataObject::ReportingReportType(x) => UniNotificationEventDataObject::ReportingReportType(x.clone()),
            UniNotificationEventDataObject::RadarReview(x) => UniNotificationEventDataObject::RadarReview(x.clone()),
            UniNotificationEventDataObject::ScheduledQueryRun(x) => UniNotificationEventDataObject::ScheduledQueryRun(x.clone()),
            UniNotificationEventDataObject::SetupIntent(x) => UniNotificationEventDataObject::SetupIntent(Box::new((&**x).clone())),
            UniNotificationEventDataObject::Sku(x) => UniNotificationEventDataObject::Sku(x.clone()),
            UniNotificationEventDataObject::Source(x) => UniNotificationEventDataObject::Source(x.clone()),
            UniNotificationEventDataObject::SourceTransaction(x) => UniNotificationEventDataObject::SourceTransaction(x.clone()),
            UniNotificationEventDataObject::Subscription(x) => UniNotificationEventDataObject::Subscription(Box::new((&**x).clone())),
            UniNotificationEventDataObject::SubscriptionSchedule(x) => UniNotificationEventDataObject::SubscriptionSchedule(x.clone()),
            UniNotificationEventDataObject::TaxId(x) => UniNotificationEventDataObject::TaxId(x.clone()),
            UniNotificationEventDataObject::TaxRate(x) => UniNotificationEventDataObject::TaxRate(x.clone()),
            UniNotificationEventDataObject::Topup(x) => UniNotificationEventDataObject::Topup(x.clone()),
            UniNotificationEventDataObject::Transfer(x) => UniNotificationEventDataObject::Transfer(x.clone()),
            UniNotificationEventDataObject::UnknownEvent(x) => UniNotificationEventDataObject::UnknownEvent(x.clone()),
        }
    }
}

impl Order {
    /// Whether `other` copies the fields of `self` that are plain values (`id`, `upstream_id`, `amount`, `amount_returned`, `application`, `application_fee`, `currency`, `email`, `external_coupon_code`, `selected_shipping_method`, `status`, `created`, `updated`, `livemode`).
    pub open spec fn clone_agrees(&self, other: &Self) -> bool {
        &&& self.id == other.id
        &&& self.upstream_id == other.upstream_id
        &&& self.amount == other.amount
        &&& self.amount_returned == other.amount_returned
        &&& self.application == other.application
        &&& self.application_fee == other.application_fee
        &&& self.currency == other.currency
        &&& self.email == other.email
        &&& self.external_coupon_code == other.external_coupon_code
        &&& self.selected_shipping_method == other.selected_shipping_method
        &&& self.status == other.status
        &&& self.created == other.created
        &&& self.updated == other.updated
        &&& self.livemode == other.livemode
    }
}

impl Clone for Order {
    fn clone(&self) -> (r: Self)
        ensures
            self.clone_agrees(&r),
        decreases self,
    {
        Order {
            object: self.object.clone(),
            id: self.id.clone(),
            upstream_id: (match &self.upstream_id { Some(x) => Some(x.clone()), None => None }),
            charge: (match &self.charge { Some(x) => Some(x.clone()), None => None }),
            customer: (match &self.customer { Some(x) => Some(x.clone()), None => None }),
            amount: self.amount,
            amount_returned: self.amount_returned,
            application: (match &self.application { Some(x) => Some(x.clone()), None => None }),
            application_fee: self.application_fee,
            currency: self.currency.clone(),
            email: (match &self.email { Some(x) => Some(x.clone()), None => None }),
            external_coupon_code: (match &self.external_coupon_code { Some(x) => Some(x.clone()), None => None }),
            items: self.items.clone(),
            returns: (match &self.returns { Some(x) => Some(x.clone()), None => None }),
            selected_shipping_method: (match &self.selected_shipping_method { Some(x) => Some(x.clone()), None => None }),
            shipping: self.shipping.clone(),
            shipping_methods: self.shipping_methods.clone(),
            status: self.status.clone(),
            status_transitions: self.status_transitions.clone(),
            created: self.created,
            updated: self.updated,
            livemode: self.livemode,
            metadata: self.metadata.clone(),
        }
    }
}

impl OrdersResourceOrderReturnList {
    /// Whether `other` copies the fields of `self` that are plain values (`has_more`, `url`).
    pub open spec fn clone_agrees(&self, other: &Self) -> bool {
        &&& self.has_more == other.has_more
        &&& self.url == other.url
    }
}

impl Clone for OrdersResourceOrderReturnList {
    fn clone(&self) -> (r: Self)
        ensures
            self.clone_agrees(&r),
        decreases self,
    {
        OrdersResourceOrderReturnList {
            object: self.object.clone(),
            data: crate::types::clone_vec_order_return(&self.data),
            has_more: self.has_more,
            url: self.url.clone(),
        }
    }
}

impl OrderReturn {
    /// Whether `other` copies the fields of `self` that are plain values (`id`, `amount`, `currency`, `created`, `livemode`).
    pub open spec fn clone_agrees(&self, other: &Self) -> bool {
        &&& self.id == other.id
        &&& self.amount == other.amount
        &&& self.currency == other.currency
        &&& self.created == other.created
        &&& self.livemode == other.livemode
    }
}

impl Clone for OrderReturn {
    fn clone(&self) -> (r: Self)
        ensures
            self.clone_agrees(&r),
        decreases self,
    {
        OrderReturn {
            object: self.object.clone(),
            id: self.id.clone(),
            order: (match &self.order { Some(x) => Some(x.clone()), None => None }),
            refund: (match &self.refund { Some(x) => Some(x.clone()), None => None }),
            amount: self.amount,
            currency: self.currency.clone(),
            items: self.items.clone(),
            created: self.created,
            livemode: self.livemode,
        }
    }
}

impl PaymentIntent {
    /// Whether `other` copies the fields of `self` that are plain values (`id`, `amount`, `amount_capturable`, `amount_received`, `application_fee_amount`, `canceled_at`, `client_secret`, `currency`, `description`, `receipt_email`, `statement_descriptor`, `statement_descriptor_suffix`, `transfer_group`, `created`, `livemode`).
    pub open spec fn clone_agrees(&self, other: &Self) -> bool {
        &&& self.id == other.id
        &&& self.amount == other.amount
        &&& self.amount_capturable == other.amount_capturable
        &&& self.amount_received == other.amount_received
        &&& self.application_fee_amount == other.application_fee_amount
        &&& self.canceled_at == other.canceled_at
        &&& self.client_secret == other.client_secret
        &&& self.currency == other.currency
        &&& self.description == other.description
        &&& self.receipt_email == other.receipt_email
        &&& self.statement_descriptor == other.statement_descriptor
        &&& self.statement_descriptor_suffix == other.statement_descriptor_suffix
        &&& self.transfer_group == other.transfer_group
        &&& self.created == other.created
        &&& self.livemode == other.livemode
    }
}

impl Clone for PaymentIntent {
    fn clone(&self) -> (r: Self)
        ensures
            self.clone_agrees(&r),
        decreases self,
    {
        PaymentIntent {
            object: self.object.clone(),
            id: self.id.clone(),
            application: self.application.clone(),
            customer: (match &self.customer { Some(x) => Some(x.clone()), None => None }),
            invoice: (match &self.invoice { Some(x) => Some(x.clone()), None => None }),
            on_behalf_of: (match &self.on_behalf_of { Some(x) => Some(x.clone()), None => None }),
            payment_method: (match &self.payment_method { Some(x) => Some(x.clone()), None => None }),
            review: (match &self.review { Some(x) => Some(x.clone()), None => None }),
            amount: self.amount,
            amount_capturable: self.amount_capturable,
            amount_received: self.amount_received,
            application_fee_amount: self.application_fee_amount,
            canceled_at: self.canceled_at,
            cancellation_reason: self.cancellation_reason.clone(),
            capture_method: self.capture_method.clone(),
            charges: (match &self.charges { Some(x) => Some(x.clone()), None => None }),
            client_secret: (match &self.client_secret { Some(x) => Some(x.clone()), None => None }),
            confirmation_method: self.confirmation_method.clone(),
            currency: self.currency.clone(),
            description: (match &self.description { Some(x) => Some(x.clone()), None => None }),
            last_payment_error: Box::new((match (&*self.last_payment_error) { Some(x) => Some(x.clone()), None => None })),
            next_action: self.next_action.clone(),
            payment_method_options: self.payment_method_options.clone(),
            payment_method_types: self.payment_method_types.clone(),
            receipt_email: (match &self.receipt_email { Some(x) => Some(x.clone()), None => None }),
            setup_future_usage: self.setup_future_usage.clone(),
            shipping: self.shipping.clone(),
            statement_descriptor: (match &self.statement_descriptor { Some(x) => Some(x.clone()), None => None }),
            statement_descriptor_suffix: (match &self.statement_descriptor_suffix { Some(x) => Some(x.clone()), None => None }),
            status: self.status.clone(),
            transfer_data: (match &self.transfer_data { Some(x) => Some(x.clone()), None => None }),
            transfer_group: (match &self.transfer_group { Some(x) => Some(x.clone()), None => None }),
            created: self.created,
            livemode: self.livemode,
            metadata: self.metadata.clone(),
        }
    }
}

impl PaymentFlowsPaymentIntentResourceChargeList {
    /// Whether `other` copies the fields of `self` that are plain values (`has_more`, `url`).
    pub open spec fn clone_agrees(&self, other: &Self) -> bool {
        &&& self.has_more == other.has_more
        &&& self.url == other.url
    }
}

impl Clone for PaymentFlowsPaymentIntentResourceChargeList {
    fn clone(&self) -> (r: Self)
        ensures
            self.clone_agrees(&r),
        decreases self,
    {
        PaymentFlowsPaymentIntentResourceChargeList {
            object: self.object.clone(),
            data: crate::types::clone_vec_charge(&self.data),
            has_more: self.has_more,
            url: self.url.clone(),
        }
    }
}

impl PaymentMethod {
    /// Whether `other` copies the fields of `self` that are plain values (`id`, `alipay`, `bancontact`, `card_present`, `eps`, `giropay`, `grabpay`, `interac_present`, `oxxo`, `created`, `livemode`).
    pub open spec fn clone_agrees(&self, other: &Self) -> bool {
        &&& self.id == other.id
        &&& self.alipay == other.alipay
        &&& self.bancontact == other.bancontact
        &&& self.card_present == other.card_present
        &&& self.eps == other.eps
        &&& self.giropay == other.giropay
        &&& self.grabpay == other.grabpay
        &&& self.interac_present == other.interac_present
        &&& self.oxxo == other.oxxo
        &&& self.created == other.created
        &&& self.livemode == other.livemode
    }
}

impl Clone for PaymentMethod {
    fn clone(&self) -> (r: Self)
        ensures
            self.clone_agrees(&r),
        decreases self,
    {
        PaymentMethod {
            object: self.object.clone(),
            type_x: self.type_x.clone(),
            id: self.id.clone(),
            customer: (match &self.customer { Some(x) => Some(x.clone()), None => None }),
            alipay: (match &self.alipay { Some(x) => Some(x.clone()), None => None }),
            au_becs_debit: self.au_becs_debit.clone(),
            bacs_debit: self.bacs_debit.clone(),
            bancontact: (match &self.bancontact { Some(x) => Some(x.clone()), None => None }),
            billing_details: self.billing_details.clone(),
            card: self.card.clone(),
            card_present: (match &self.card_present { Some(x) => Some(x.clone()), None => None }),
            eps: (match &self.eps { Some(x) => Some(x.clone()), None => None }),
            fpx: self.fpx.clone(),
            giropay: (match &self.giropay { Some(x) => Some(x.clone()), None => None }),
            grabpay: (match &self.grabpay { Some(x) => Some(x.clone()), None => None }),
            ideal: self.ideal.clone(),
            interac_present: (match &self.interac_present { Some(x) => Some(x.clone()), None => None }),
            oxxo: (match &self.oxxo { Some(x) => Some(x.clone()), None => None }),
            p24: self.p24.clone(),
            sepa_debit: (match &self.sepa_debit { Some(x) => Some(x.clone()), None => None }),
            sofort: self.sofort.clone(),
            created: self.created,
            livemode: self.livemode,
            metadata: self.metadata.clone(),
        }
    }
}

impl PaymentMethodDetails {
    /// Whether `other` copies the fields of `self` that are plain values (`type_x`, `klarna`, `stripe_account`, `wechat`).
    pub open spec fn clone_agrees(&self, other: &Self) -> bool {
        &&& self.type_x == other.type_x
        &&& self.klarna == other.klarna
        &&& self.stripe_account == other.stripe_account
        &&& self.wechat == other.wechat
    }
}

impl Clone for PaymentMethodDetails {
    fn clone(&self) -> (r: Self)
        ensures
            self.clone_agrees(&r),
        decreases self,
    {
        PaymentMethodDetails {
            type_x: self.type_x.clone(),
            ach_credit_transfer: self.ach_credit_transfer.clone(),
            ach_debit: self.ach_debit.clone(),
            alipay: self.alipay.clone(),
            au_becs_debit: self.au_becs_debit.clone(),
            bacs_debit: self.bacs_debit.clone(),
            bancontact: (match &self.bancontact { Some(x) => Some(x.clone()), None => None }),
            card: self.card.clone(),
            card_present: self.card_present.clone(),
            eps: self.eps.clone(),
            fpx: self.fpx.clone(),
            giropay: self.giropay.clone(),
            grabpay: self.grabpay.clone(),
            ideal: (match &self.ideal { Some(x) => Some(x.clone()), None => None }),
            interac_present: self.interac_present.clone(),
            klarna: (match &self.klarna { Some(x) => Some(x.clone()), None => None }),
            multibanco: self.multibanco.clone(),
            oxxo: self.oxxo.clone(),
            p24: self.p24.clone(),
            sepa_debit: self.sepa_debit.clone(),
            sofort: (match &self.sofort { Some(x) => Some(x.clone()), None => None }),
            stripe_account: (match &self.stripe_account { Some(x) => Some(x.clone()), None => None }),
            wechat: (match &self.wechat { Some(x) => Some(x.clone()), None => None }),
        }
    }
}

impl PaymentMethodDetailsBancontact {
    /// Whether `other` copies the fields of `self` that are plain values (`bank_code`, `bank_name`, `bic`, `iban_last4`, `verified_name`).
    pub open spec fn clone_agrees(&self, other: &Self) -> bool {
        &&& self.bank_code == other.bank_code
        &&& self.bank_name == other.bank_name
        &&& self.bic == other.bic
        &&& self.iban_last4 == other.iban_last4
        &&& self.verified_name == other.verified_name
    }
}

impl Clone for PaymentMethodDetailsBancontact {
    fn clone(&self) -> (r: Self)
        ensures
            self.clone_agrees(&r),
        decreases self,
    {
        PaymentMethodDetailsBancontact {
            generated_sepa_debit: (match &self.generated_sepa_debit { Some(x) => Some(x.clone()), None => None }),
            generated_sepa_debit_mandate: (match &self.generated_sepa_debit_mandate { Some(x) => Some(x.clone()), None => None }),
            bank_code: (match &self.bank_code { Some(x) => Some(x.clone()), None => None }),
            bank_name: (match &self.bank_name { Some(x) => Some(x.clone()), None => None }),
            bic: (match &self.bic { Some(x) => Some(x.clone()), None => None }),
            iban_last4: (match &self.iban_last4 { Some(x) => Some(x.clone()), None => None }),
            preferred_language: self.preferred_language.clone(),
            verified_name: (match &self.verified_name { Some(x) => Some(x.clone()), None => None }),
        }
    }
}

impl UniMandate {
    /// Whether `other` is the same variant as `self`, with the same payload where it is a plain
    /// value, and a payload that agrees by its own `clone_agrees` where it has one.
    pub open spec fn clone_agrees(&self, other: &Self) -> bool {
        match self {
            UniMandate::String(x) => other matches UniMandate::String(y) && x == y,
            UniMandate::Mandate(x) => other matches UniMandate::Mandate(y) && x.clone_agrees(&y),
        }
    }
}

impl Clone for UniMandate {
    fn clone(&self) -> (r: Self)
        ensures
            self.clone_agrees(&r),
        decreases self,
    {
        match self {
            UniMandate::String(x) => UniMandate::String(x.clone()),
            UniMandate::Mandate(x) => UniMandate::Mandate(x.clone()),
        }
    }
}

impl PaymentMethodDetailsIdeal {
    /// Whether `other` copies the fields of `self` that are plain values (`iban_last4`, `verified_name`).
    pub open spec fn clone_agrees(&self, other: &Self) -> bool {
        &&& self.iban_last4 == other.iban_last4
        &&& self.verified_name == other.verified_name
    }
}

impl Clone for PaymentMethodDetailsIdeal {
    fn clone(&self) -> (r: Self)
        ensures
            self.clone_agrees(&r),
        decreases self,
    {
        PaymentMethodDetailsIdeal {
            generated_sepa_debit: (match &self.generated_sepa_debit { Some(x) => Some(x.clone()), None => None }),
            generated_sepa_debit_mandate: (match &self.generated_sepa_debit_mandate { Some(x) => Some(x.clone()), None => None }),
            bank: self.bank.clone(),
            bic: self.bic.clone(),
            iban_last4: (match &self.iban_last4 { Some(x) => Some(x.clone()), None => None }),
            verified_name: (match &self.verified_name { Some(x) => Some(x.clone()), None => None }),
        }
    }
}

impl PaymentMethodDetailsSofort {
    /// Whether `other` copies the fields of `self` that are plain values (`bank_code`, `bank_name`, `bic`, `country`, `iban_last4`, `verified_name`).
    pub open spec fn clone_agrees(&self, other: &Self) -> bool {
        &&& self.bank_code == other.bank_code
        &&& self.bank_name == other.bank_name
        &&& self.bic == other.bic
        &&& self.country == other.country
        &&& self.iban_last4 == other.iban_last4
        &&& self.verified_name == other.verified_name
    }
}

impl Clone for PaymentMethodDetailsSofort {
    fn clone(&self) -> (r: Self)
        ensures
            self.clone_agrees(&r),
        decreases self,
    {
        PaymentMethodDetailsSofort {
            generated_sepa_debit: (match &self.generated_sepa_debit { Some(x) => Some(x.clone()), None => None }),
            generated_sepa_debit_mandate: (match &self.generated_sepa_debit_mandate { Some(x) => Some(x.clone()), None => None }),
            bank_code: (match &self.bank_code { Some(x) => Some(x.clone()), None => None }),
            bank_name: (match &self.bank_name { Some(x) => Some(x.clone()), None => None }),
            bic: (match &self.bic { Some(x) => Some(x.clone()), None => None }),
            country: (match &self.country { Some(x) => Some(x.clone()), None => None }),
            iban_last4: (match &self.iban_last4 { Some(x) => Some(x.clone()), None => None }),
            preferred_language: self.preferred_language.clone(),
            verified_name: (match &self.verified_name { Some(x) => Some(x.clone()), None => None }),
        }
    }
}

impl PaymentMethodSepaDebit {
    /// Whether `other` copies the fields of `self` that are plain values (`bank_code`, `branch_code`, `country`, `fingerprint`, `last4`).
    pub open spec fn clone_agrees(&self, other: &Self) -> bool {
        &&& self.bank_code == other.bank_code
        &&& self.branch_code == other.branch_code
        &&& self.country == other.country
        &&& self.fingerprint == other.fingerprint
        &&& self.last4 == other.last4
    }
}

impl Clone for PaymentMethodSepaDebit {
    fn clone(&self) -> (r: Self)
        ensures
            self.clone_agrees(&r),
        decreases self,
    {
        PaymentMethodSepaDebit {
            bank_code: (match &self.bank_code { Some(x) => Some(x.clone()), None => None }),
            branch_code: (match &self.branch_code { Some(x) => Some(x.clone()), None => None }),
            country: (match &self.country { Some(x) => Some(x.clone()), None => None }),
            fingerprint: (match &self.fingerprint { Some(x) => Some(x.clone()), None => None }),
            generated_from: (match &self.generated_from { Some(x) => Some(x.clone()), None => None }),
            last4: (match &self.last4 { Some(x) => Some(x.clone()), None => None }),
        }
    }
}

impl PaymentPagesCheckoutSessionTotalDetails {
    /// Whether `other` copies the fields of `self` that are plain values (`amount_discount`, `amount_tax`).
    pub open spec fn clone_agrees(&self, other: &Self) -> bool {
        &&& self.amount_discount == other.amount_discount
        &&& self.amount_tax == other.amount_tax
    }
}

impl Clone for PaymentPagesCheckoutSessionTotalDetails {
    fn clone(&self) -> (r: Self)
        ensures
            self.clone_agrees(&r),
        decreases self,
    {
        PaymentPagesCheckoutSessionTotalDetails {
            amount_discount: self.amount_discount,
            amount_tax: self.amount_tax,
            breakdown: (match &self.breakdown { Some(x) => Some(x.clone()), None => None }),
        }
    }
}

impl PaymentPagesCheckoutSessionTotalDetailsResourceBreakdown {
    /// Whether `other` copies `self` as far as its plain fields go (it has none).
    pub open spec fn clone_agrees(&self, other: &Self) -> bool {
        true
    }
}

impl Clone for PaymentPagesCheckoutSessionTotalDetailsResourceBreakdown {
    fn clone(&self) -> (r: Self)
        ensures
            self.clone_agrees(&r),
        decreases self,
    {
        PaymentPagesCheckoutSessionTotalDetailsResourceBreakdown {
            discounts: crate::types::clone_vec_line_items_discount_amount(&self.discounts),
            taxes: self.taxes.clone(),
        }
    }
}

impl UniPolymorphic {
    /// Whether `other` is the same variant as `self`, with the same payload where it is a plain
    /// value, and a payload that agrees by its own `clone_agrees` where it has one.
    pub open spec fn clone_agrees(&self, other: &Self) -> bool {
        match self {
            UniPolymorphic::Account(x) => other matches UniPolymorphic::Account(y) && x.clone_agrees(&y),
            UniPolymorphic::AlipayAccount(x) => other matches UniPolymorphic::AlipayAccount(y) && x.clone_agrees(&y),
            UniPolymorphic::BankAccount(x) => other matches UniPolymorphic::BankAccount(y) && x.clone_agrees(&y),
            UniPolymorphic::BitcoinReceiver(_) => other is BitcoinReceiver,
            UniPolymorphic::Card(x) => other matches UniPolymorphic::Card(y) && (*x).clone_agrees(&*y),
            UniPolymorphic::Source(_) => other is Source,
        }
    }
}

impl Clone for UniPolymorphic {
    fn clone(&self) -> (r: Self)
        ensures
            self.clone_agrees(&r),
        decreases self,
    {
        match self {
            UniPolymorphic::Account(x) => UniPolymorphic::Account(x.clone()),
            UniPolymorphic::AlipayAccount(x) => UniPolymorphic::AlipayAccount(x.clone()),
            UniPolymorphic::BankAccount(x) => UniPolymorphic::BankAccount(x.clone()),
            UniPolymorphic::BitcoinReceiver(x) => UniPolymorphic::BitcoinReceiver(x.clone()),
            UniPolymorphic::Card(x) => UniPolymorphic::Card(Box::new((&**x).clone())),
            UniPolymorphic::Source(x) => UniPolymorphic::Source(x.clone()),
        }
    }
}

impl Payout {
    /// Whether `other` copies the fields of `self` that are plain values (`id`, `amount`, `arrival_date`, `automatic`, `currency`, `description`, `failure_code`, `failure_message`, `method`, `source_type`, `statement_descriptor`, `status`, `created`, `livemode`).
    pub open spec fn clone_agrees(&self, other: &Self) -> bool {
        &&& self.id == other.id
        &&& self.amount == other.amount
        &&& self.arrival_date == other.arrival_date
        &&& self.automatic == other.automatic
        &&& self.currency == other.currency
        &&& self.description == other.description
        &&& self.failure_code == other.failure_code
        &&& self.failure_message == other.failure_message
        &&& self.method == other.method
        &&& self.source_type == other.source_type
        &&& self.statement_descriptor == other.statement_descriptor
        &&& self.status == other.status
        &&& self.created == other.created
        &&& self.livemode == other.livemode
    }
}

impl Clone for Payout {
    fn clone(&self) -> (r: Self)
        ensures
            self.clone_agrees(&r),
        decreases self,
    {
        Payout {
            object: self.object.clone(),
            type_x: self.type_x.clone(),
            id: self.id.clone(),
            balance_transaction: (match &self.balance_transaction { Some(x) => Some(x.clone()), None => None }),
            destination: (match &self.destination { Some(x) => Some(x.clone()), None => None }),
            failure_balance_transaction: (match &self.failure_balance_transaction { Some(x) => Some(x.clone()), None => None }),
            original_payout: (match &self.original_payout { Some(x) => Some(x.clone()), None => None }),
            reversed_by: (match &self.reversed_by { Some(x) => Some(x.clone()), None => None }),
            amount: self.amount,
            arrival_date: self.arrival_date,
            automatic: self.automatic,
            currency: self.currency.clone(),
            description: (match &self.description { Some(x) => Some(x.clone()), None => None }),
            failure_code: (match &self.failure_code { Some(x) => Some(x.clone()), None => None }),
            failure_message: (match &self.failure_message { Some(x) => Some(x.clone()), None => None }),
            method: self.method.clone(),
            source_type: self.source_type.clone(),
            statement_descriptor: (match &self.statement_descriptor { Some(x) => Some(x.clone()), None => None }),
            status: self.status.clone(),
            created: self.created,
            livemode: self.livemode,
            metadata: self.metadata.clone(),
        }
    }
}

impl UniDestination {
    /// Whether `other` is the same variant as `self`, with the same payload where it is a plain
    /// value, and a payload that agrees by its own `clone_agrees` where it has one.
    pub open spec fn clone_agrees(&self, other: &Self) -> bool {
        match self {
            UniDestination::String(x) => other matches UniDestination::String(y) && x == y,
            UniDestination::BankAccount(x) => other matches UniDestination::BankAccount(y) && x.clone_agrees(&y),
            UniDestination::Card(x) => other matches UniDestination::Card(y) && (*x).clone_agrees(&*y),
            UniDestination::DeletedBankAccount(_) => other is DeletedBankAccount,
            UniDestination::DeletedCard(_) => other is DeletedCard,
        }
    }
}

impl Clone for UniDestination {
    fn clone(&self) -> (r: Self)
        ensures
            self.clone_agrees(&r),
        decreases self,
    {
        match self {
            UniDestination::String(x) => UniDestination::String(x.clone()),
            UniDestination::BankAccount(x) => UniDestination::BankAccount(x.clone()),
            UniDestination::Card(x) => UniDestination::Card(Box::new((&**x).clone())),
            UniDestination::DeletedBankAccount(x) => UniDestination::DeletedBankAccount(x.clone()),
            UniDestination::DeletedCard(x) => UniDestination::DeletedCard(x.clone()),
        }
    }
}

impl UniReversedBy {
    /// Whether `other` is the same variant as `self`, with the same payload where it is a plain
    /// value, and a payload that agrees by its own `clone_agrees` where it has one.
    pub open spec fn clone_agrees(&self, other: &Self) -> bool {
        match self {
            UniReversedBy::String(x) => other matches UniReversedBy::String(y) && x == y,
            UniReversedBy::Payout(x) => other matches UniReversedBy::Payout(y) && (*x).clone_agrees(&*y),
        }
    }
}

impl Clone for UniReversedBy {
    fn clone(&self) -> (r: Self)
        ensures
            self.clone_agrees(&r),
        decreases self,
    {
        match self {
            UniReversedBy::String(x) => UniReversedBy::String(x.clone()),
            UniReversedBy::Payout(x) => UniReversedBy::Payout(Box::new((&**x).clone())),
        }
    }
}

impl Person {
    /// Whether `other` copies the fields of `self` that are plain values (`id`, `account`, `email`, `first_name`, `first_name_kana`, `first_name_kanji`, `gender`, `id_number_provided`, `last_name`, `last_name_kana`, `last_name_kanji`, `maiden_name`, `phone`, `ssn_last_4_provided`, `created`).
    pub open spec fn clone_agrees(&self, other: &Self) -> bool {
        &&& self.id == other.id
        &&& self.account == other.account
        &&& self.email == other.email
        &&& self.first_name == other.first_name
        &&& self.first_name_kana == other.first_name_kana
        &&& self.first_name_kanji == other.first_name_kanji
        &&& self.gender == other.gender
        &&& self.id_number_provided == other.id_number_provided
        &&& self.last_name == other.last_name
        &&& self.last_name_kana == other.last_name_kana
        &&& self.last_name_kanji == other.last_name_kanji
        &&& self.maiden_name == other.maiden_name
        &&& self.phone == other.phone
        &&& self.ssn_last_4_provided == other.ssn_last_4_provided
        &&& self.created == other.created
    }
}

impl Clone for Person {
    fn clone(&self) -> (r: Self)
        ensures
            self.clone_agrees(&r),
        decreases self,
    {
        Person {
            object: self.object.clone(),
            id: self.id.clone(),
            account: self.account.clone(),
            address: self.address.clone(),
            address_kana: self.address_kana.clone(),
            address_kanji: self.address_kanji.clone(),
            dob: self.dob.clone(),
            email: (match &self.email { Some(x) => Some(x.clone()), None => None }),
            first_name: (match &self.first_name { Some(x) => Some(x.clone()), None => None }),
            first_name_kana: (match &self.first_name_kana { Some(x) => Some(x.clone()), None => None }),
            first_name_kanji: (match &self.first_name_kanji { Some(x) => Some(x.clone()), None => None }),
            gender: (match &self.gender { Some(x) => Some(x.clone()), None => None }),
            id_number_provided: self.id_number_provided,
            last_name: (match &self.last_name { Some(x) => Some(x.clone()), None => None }),
            last_name_kana: (match &self.last_name_kana { Some(x) => Some(x.clone()), None => None }),
            last_name_kanji: (match &self.last_name_kanji { Some(x) => Some(x.clone()), None => None }),
            maiden_name: (match &self.maiden_name { Some(x) => Some(x.clone()), None => None }),
            phone: (match &self.phone { Some(x) => Some(x.clone()), None => None }),
            political_exposure: self.political_exposure.clone(),
            relationship: self.relationship.clone(),
            requirements: self.requirements.clone(),
            ssn_last_4_provided: self.ssn_last_4_provided,
            verification: (match &self.verification { Some(x) => Some(x.clone()), None => None }),
            created: self.created,
            metadata: self.metadata.clone(),
        }
    }
}

impl PromotionCode {
    /// Whether `other` copies the fields of `self` that are plain values (`id`, `active`, `code`, `expires_at`, `max_redemptions`, `times_redeemed`, `created`, `livemode`).
    pub open spec fn clone_agrees(&self, other: &Self) -> bool {
        &&& self.id == other.id
        &&& self.active == other.active
        &&& self.code == other.code
        &&& self.expires_at == other.expires_at
        &&& self.max_redemptions == other.max_redemptions
        &&& self.times_redeemed == other.times_redeemed
        &&& self.created == other.created
        &&& self.livemode == other.livemode
    }
}

impl Clone for PromotionCode {
    fn clone(&self) -> (r: Self)
        ensures
            self.clone_agrees(&r),
        decreases self,
    {
        PromotionCode {
            object: self.object.clone(),
            id: self.id.clone(),
            customer: (match &self.customer { Some(x) => Some(x.clone()), None => None }),
            active: self.active,
            code: self.code.clone(),
            coupon: self.coupon.clone(),
            expires_at: self.expires_at,
            max_redemptions: self.max_redemptions,
            restrictions: self.restrictions.clone(),
            times_redeemed: self.times_redeemed,
            created: self.created,
            livemode: self.livemode,
            metadata: self.metadata.clone(),
        }
    }
}

impl RadarEarlyFraudWarning {
    /// Whether `other` copies the fields of `self` that are plain values (`id`, `actionable`, `fraud_type`, `created`, `livemode`).
    pub open spec fn clone_agrees(&self, other: &Self) -> bool {
        &&& self.id == other.id
        &&& self.actionable == other.actionable
        &&& self.fraud_type == other.fraud_type
        &&& self.created == other.created
        &&& self.livemode == other.livemode
    }
}

impl Clone for RadarEarlyFraudWarning {
    fn clone(&self) -> (r: Self)
        ensures
            self.clone_agrees(&r),
        decreases self,
    {
        RadarEarlyFraudWarning {
            object: self.object.clone(),
            id: self.id.clone(),
            charge: self.charge.clone(),
            actionable: self.actionable,
            fraud_type: self.fraud_type.clone(),
            created: self.created,
            livemode: self.livemode,
        }
    }
}

impl TransferRecipient {
    /// Whether `other` copies the fields of `self` that are plain values (`type_x`, `id`, `name`, `description`, `email`, `created`, `livemode`, `metadata`).
    pub open spec fn clone_agrees(&self, other: &Self) -> bool {
        &&& self.type_x == other.type_x
        &&& self.id == other.id
        &&& self.name == other.name
        &&& self.description == other.description
        &&& self.email == other.email
        &&& self.created == other.created
        &&& self.livemode == other.livemode
        &&& self.metadata@ == other.metadata@
    }
}

impl Clone for TransferRecipient {
    fn clone(&self) -> (r: Self)
        ensures
            self.clone_agrees(&r),
        decreases self,
    {
        TransferRecipient {
            object: self.object.clone(),
            type_x: self.type_x.clone(),
            id: self.id.clone(),
            name: (match &self.name { Some(x) => Some(x.clone()), None => None }),
            default_card: (match &self.default_card { Some(x) => Some(x.clone()), None => None }),
            migrated_to: (match &self.migrated_to { Some(x) => Some(x.clone()), None => None }),
            rolled_back_from: (match &self.rolled_back_from { Some(x) => Some(x.clone()), None => None }),
            active_account: (match &self.active_account { Some(x) => Some(x.clone()), None => None }),
            cards: (match &self.cards { Some(x) => Some(x.clone()), None => None }),
            description: (match &self.description { Some(x) => Some(x.clone()), None => None }),
            email: (match &self.email { Some(x) => Some(x.clone()), None => None }),
            created: self.created,
            livemode: self.livemode,
            metadata: self.metadata.clone(),
        }
    }
}

impl CardList93D321 {
    /// Whether `other` copies the fields of `self` that are plain values (`has_more`, `url`).
    pub open spec fn clone_agrees(&self, other: &Self) -> bool {
        &&& self.has_more == other.has_more
        &&& self.url == other.url
    }
}

impl Clone for CardList93D321 {
    fn clone(&self) -> (r: Self)
        ensures
            self.clone_agrees(&r),
        decreases self,
    {
        CardList93D321 {
            object: self.object.clone(),
            data: crate::types::clone_vec_card(&self.data),
            has_more: self.has_more,
            url: self.url.clone(),
        }
    }
}

impl UniDefaultCard {
    /// Whether `other` is the same variant as `self`, with the same payload where it is a plain
    /// value, and a payload that agrees by its own `clone_agrees` where it has one.
    pub open spec fn clone_agrees(&self, other: &Self) -> bool {
        match self {
            UniDefaultCard::String(x) => other matches UniDefaultCard::String(y) && x == y,
            UniDefaultCard::Card(x) => other matches UniDefaultCard::Card(y) && (*x).clone_agrees(&*y),
        }
    }
}

impl Clone for UniDefaultCard {
    fn clone(&self) -> (r: Self)
        ensures
            self.clone_agrees(&r),
        decreases self,
    {
        match self {
            UniDefaultCard::String(x) => UniDefaultCard::String(x.clone()),
            UniDefaultCard::Card(x) => UniDefaultCard::Card(Box::new((&**x).clone())),
        }
    }
}

impl Refund {
    /// Whether `other` copies the fields of `self` that are plain values (`id`, `amount`, `currency`, `description`, `failure_reason`, `reason`, `receipt_number`, `status`, `created`).
    pub open spec fn clone_agrees(&self, other: &Self) -> bool {
        &&& self.id == other.id
        &&& self.amount == other.amount
        &&& self.currency == other.currency
        &&& self.description == other.description
        &&& self.failure_reason == other.failure_reason
        &&& self.reason == other.reason
        &&& self.receipt_number == other.receipt_number
        &&& self.status == other.status
        &&& self.created == other.created
    }
}

impl Clone for Refund {
    fn clone(&self) -> (r: Self)
        ensures
            self.clone_agrees(&r),
        decreases self,
    {
        Refund {
            object: self.object.clone(),
            id: self.id.clone(),
            balance_transaction: (match &self.balance_transaction { Some(x) => Some(x.clone()), None => None }),
            charge: (match &self.charge { Some(x) => Some(x.clone()), None => None }),
            failure_balance_transaction: (match &self.failure_balance_transaction { Some(x) => Some(x.clone()), None => None }),
            payment_intent: (match &self.payment_intent { Some(x) => Some(x.clone()), None => None }),
            source_transfer_reversal: (match &self.source_transfer_reversal { Some(x) => Some(x.clone()), None => None }),
            transfer_reversal: (match &self.transfer_reversal { Some(x) => Some(x.clone()), None => None }),
            amount: self.amount,
            currency: self.currency.clone(),
            description: (match &self.description { Some(x) => Some(x.clone()), None => None }),
            failure_reason: (match &self.failure_reason { Some(x) => Some(x.clone()), None => None }),
            reason: (match &self.reason { Some(x) => Some(x.clone()), None => None }),
            receipt_number: (match &self.receipt_number { Some(x) => Some(x.clone()), None => None }),
            status: (match &self.status { Some(x) => Some(x.clone()), None => None }),
            created: self.created,
            metadata: self.metadata.clone(),
        }
    }
}

impl UniTransferReversal {
    /// Whether `other` is the same variant as `self`, with the same payload where it is a plain
    /// value, and a payload that agrees by its own `clone_agrees` where it has one.
    pub open spec fn clone_agrees(&self, other: &Self) -> bool {
        match self {
            UniTransferReversal::String(x) => other matches UniTransferReversal::String(y) && x == y,
            UniTransferReversal::TransferReversal(x) => other matches UniTransferReversal::TransferReversal(y) && x.clone_agrees(&y),
        }
    }
}

impl Clone for UniTransferReversal {
    fn clone(&self) -> (r: Self)
        ensures
            self.clone_agrees(&r),
        decreases self,
    {
        match self {
            UniTransferReversal::String(x) => UniTransferReversal::String(x.clone()),
            UniTransferReversal::TransferReversal(x) => UniTransferReversal::TransferReversal(x.clone()),
        }
    }
}

impl ReportingReportRun {
    /// Whether `other` copies the fields of `self` that are plain values (`id`, `error`, `report_type`, `status`, `succeeded_at`, `created`, `livemode`).
    pub open spec fn clone_agrees(&self, other: &Self) -> bool {
        &&& self.id == other.id
        &&& self.error == other.error
        &&& self.report_type == other.report_type
        &&& self.status == other.status
        &&& self.succeeded_at == other.succeeded_at
        &&& self.created == other.created
        &&& self.livemode == other.livemode
    }
}

impl Clone for ReportingReportRun {
    fn clone(&self) -> (r: Self)
        ensures
            self.clone_agrees(&r),
        decreases self,
    {
        ReportingReportRun {
            object: self.object.clone(),
            id: self.id.clone(),
            error: (match &self.error { Some(x) => Some(x.clone()), None => None }),
            parameters: self.parameters.clone(),
            report_type: self.report_type.clone(),
            result: (match &self.result { Some(x) => Some(x.clone()), None => None }),
            status: self.status.clone(),
            succeeded_at: self.succeeded_at,
            created: self.created,
            livemode: self.livemode,
        }
    }
}

impl RadarReview {
    /// Whether `other` copies the fields of `self` that are plain values (`id`, `billing_zip`, `ip_address`, `open`, `reason`, `created`, `livemode`).
    pub open spec fn clone_agrees(&self, other: &Self) -> bool {
        &&& self.id == other.id
        &&& self.billing_zip == other.billing_zip
        &&& self.ip_address == other.ip_address
        &&& self.open == other.open
        &&& self.reason == other.reason
        &&& self.created == other.created
        &&& self.livemode == other.livemode
    }
}

impl Clone for RadarReview {
    fn clone(&self) -> (r: Self)
        ensures
            self.clone_agrees(&r),
        decreases self,
    {
        RadarReview {
            object: self.object.clone(),
            id: self.id.clone(),
            charge: (match &self.charge { Some(x) => Some(x.clone()), None => None }),
            payment_intent: (match &self.payment_intent { Some(x) => Some(x.clone()), None => None }),
            billing_zip: (match &self.billing_zip { Some(x) => Some(x.clone()), None => None }),
            closed_reason: self.closed_reason.clone(),
            ip_address: (match &self.ip_address { Some(x) => Some(x.clone()), None => None }),
            ip_address_location: self.ip_address_location.clone(),
            open: self.open,
            opened_reason: self.opened_reason.clone(),
            reason: self.reason.clone(),
            session: self.session.clone(),
            created: self.created,
            livemode: self.livemode,
        }
    }
}

impl ScheduledQueryRun {
    /// Whether `other` copies the fields of `self` that are plain values (`id`, `data_load_time`, `result_available_until`, `sql`, `status`, `title`, `created`, `livemode`).
    pub open spec fn clone_agrees(&self, other: &Self) -> bool {
        &&& self.id == other.id
        &&& self.data_load_time == other.data_load_time
        &&& self.result_available_until == other.result_available_until
        &&& self.sql == other.sql
        &&& self.status == other.status
        &&& self.title == other.title
        &&& self.created == other.created
        &&& self.livemode == other.livemode
    }
}

impl Clone for ScheduledQueryRun {
    fn clone(&self) -> (r: Self)
        ensures
            self.clone_agrees(&r),
        decreases self,
    {
        ScheduledQueryRun {
            object: self.object.clone(),
            id: self.id.clone(),
            data_load_time: self.data_load_time,
            error: self.error.clone(),
            file: (match &self.file { Some(x) => Some(x.clone()), None => None }),
            result_available_until: self.result_available_until,
            sql: self.sql.clone(),
            status: self.status.clone(),
            title: self.title.clone(),
            created: self.created,
            livemode: self.livemode,
        }
    }
}

impl SepaDebitGeneratedFrom {
    /// Whether `other` copies `self` as far as its plain fields go (it has none).
    pub open spec fn clone_agrees(&self, other: &Self) -> bool {
        true
    }
}

impl Clone for SepaDebitGeneratedFrom {
    fn clone(&self) -> (r: Self)
        ensures
            self.clone_agrees(&r),
        decreases self,
    {
        SepaDebitGeneratedFrom {
            charge: (match &self.charge { Some(x) => Some(x.clone()), None => None }),
            setup_attempt: (match &self.setup_attempt { Some(x) => Some(x.clone()), None => None }),
        }
    }
}

impl UniLatestAttempt {
    /// Whether `other` is the same variant as `self`, with the same payload where it is a plain
    /// value, and a payload that agrees by its own `clone_agrees` where it has one.
    pub open spec fn clone_agrees(&self, other: &Self) -> bool {
        match self {
            UniLatestAttempt::String(x) => other matches UniLatestAttempt::String(y) && x == y,
            UniLatestAttempt::PaymentFlowsSetupIntentSetupAttempt(x) => other matches UniLatestAttempt::PaymentFlowsSetupIntentSetupAttempt(y) && x.clone_agrees(&y),
        }
    }
}

impl Clone for UniLatestAttempt {
    fn clone(&self) -> (r: Self)
        ensures
            self.clone_agrees(&r),
        decreases self,
    {
        match self {
            UniLatestAttempt::String(x) => UniLatestAttempt::String(x.clone()),
            UniLatestAttempt::PaymentFlowsSetupIntentSetupAttempt(x) => UniLatestAttempt::PaymentFlowsSetupIntentSetupAttempt(x.clone()),
        }
    }
}

impl PaymentFlowsSetupIntentSetupAttempt {
    /// Whether `other` copies the fields of `self` that are plain values (`id`, `status`, `usage`, `created`, `livemode`).
    pub open spec fn clone_agrees(&self, other: &Self) -> bool {
        &&& self.id == other.id
        &&& self.status == other.status
        &&& self.usage == other.usage
        &&& self.created == other.created
        &&& self.livemode == other.livemode
    }
}

impl Clone for PaymentFlowsSetupIntentSetupAttempt {
    fn clone(&self) -> (r: Self)
        ensures
            self.clone_agrees(&r),
        decreases self,
    {
        PaymentFlowsSetupIntentSetupAttempt {
            object: self.object.clone(),
            id: self.id.clone(),
            application: self.application.clone(),
            customer: (match &self.customer { Some(x) => Some(x.clone()), None => None }),
            on_behalf_of: (match &self.on_behalf_of { Some(x) => Some(x.clone()), None => None }),
            payment_method: self.payment_method.clone(),
            setup_intent: self.setup_intent.clone(),
            payment_method_details: self.payment_method_details.clone(),
            setup_error: Box::new((match (&*self.setup_error) { Some(x) => Some(x.clone()), None => None })),
            status: self.status.clone(),
            usage: self.usage.clone(),
            created: self.created,
            livemode: self.livemode,
        }
    }
}

impl SetupAttemptPaymentMethodDetails {
    /// Whether `other` copies the fields of `self` that are plain values (`type_x`).
    pub open spec fn clone_agrees(&self, other: &Self) -> bool {
        &&& self.type_x == other.type_x
    }
}

impl Clone for SetupAttemptPaymentMethodDetails {
    fn clone(&self) -> (r: Self)
        ensures
            self.clone_agrees(&r),
        decreases self,
    {
        SetupAttemptPaymentMethodDetails {
            type_x: self.type_x.clone(),
            bancontact: (match &self.bancontact { Some(x) => Some(x.clone()), None => None }),
            card: self.card.clone(),
            ideal: (match &self.ideal { Some(x) => Some(x.clone()), None => None }),
            sofort: (match &self.sofort { Some(x) => Some(x.clone()), None => None }),
        }
    }
}

impl SetupAttemptPaymentMethodDetailsBancontact {
    /// Whether `other` copies the fields of `self` that are plain values (`bank_code`, `bank_name`, `bic`, `iban_last4`, `verified_name`).
    pub open spec fn clone_agrees(&self, other: &Self) -> bool {
        &&& self.bank_code == other.bank_code
        &&& self.bank_name == other.bank_name
        &&& self.bic == other.bic
        &&& self.iban_last4 == other.iban_last4
        &&& self.verified_name == other.verified_name
    }
}

impl Clone for SetupAttemptPaymentMethodDetailsBancontact {
    fn clone(&self) -> (r: Self)
        ensures
            self.clone_agrees(&r),
        decreases self,
    {
        SetupAttemptPaymentMethodDetailsBancontact {
            generated_sepa_debit: (match &self.generated_sepa_debit { Some(x) => Some(x.clone()), None => None }),
            generated_sepa_debit_mandate: (match &self.generated_sepa_debit_mandate { Some(x) => Some(x.clone()), None => None }),
            bank_code: (match &self.bank_code { Some(x) => Some(x.clone()), None => None }),
            bank_name: (match &self.bank_name { Some(x) => Some(x.clone()), None => None }),
            bic: (match &self.bic { Some(x) => Some(x.clone()), None => None }),
            iban_last4: (match &self.iban_last4 { Some(x) => Some(x.clone()), None => None }),
            preferred_language: self.preferred_language.clone(),
            verified_name: (match &self.verified_name { Some(x) => Some(x.clone()), None => None }),
        }
    }
}

impl SetupAttemptPaymentMethodDetailsIdeal {
    /// Whether `other` copies the fields of `self` that are plain values (`iban_last4`, `verified_name`).
    pub open spec fn clone_agrees(&self, other: &Self) -> bool {
        &&& self.iban_last4 == other.iban_last4
        &&& self.verified_name == other.verified_name
    }
}

impl Clone for SetupAttemptPaymentMethodDetailsIdeal {
    fn clone(&self) -> (r: Self)
        ensures
            self.clone_agrees(&r),
        decreases self,
    {
        SetupAttemptPaymentMethodDetailsIdeal {
            generated_sepa_debit: (match &self.generated_sepa_debit { Some(x) => Some(x.clone()), None => None }),
            generated_sepa_debit_mandate: (match &self.generated_sepa_debit_mandate { Some(x) => Some(x.clone()), None => None }),
            bank: self.bank.clone(),
            bic: self.bic.clone(),
            iban_last4: (match &self.iban_last4 { Some(x) => Some(x.clone()), None => None }),
            verified_name: (match &self.verified_name { Some(x) => Some(x.clone()), None => None }),
        }
    }
}

impl SetupAttemptPaymentMethodDetailsSofort {
    /// Whether `other` copies the fields of `self` that are plain values (`bank_code`, `bank_name`, `bic`, `iban_last4`, `verified_name`).
    pub open spec fn clone_agrees(&self, other: &Self) -> bool {
        &&& self.bank_code == other.bank_code
        &&& self.bank_name == other.bank_name
        &&& self.bic == other.bic
        &&& self.iban_last4 == other.iban_last4
        &&& self.verified_name == other.verified_name
    }
}

impl Clone for SetupAttemptPaymentMethodDetailsSofort {
    fn clone(&self) -> (r: Self)
        ensures
            self.clone_agrees(&r),
        decreases self,
    {
        SetupAttemptPaymentMethodDetailsSofort {
            generated_sepa_debit: (match &self.generated_sepa_debit { Some(x) => Some(x.clone()), None => None }),
            generated_sepa_debit_mandate: (match &self.generated_sepa_debit_mandate { Some(x) => Some(x.clone()), None => None }),
            bank_code: (match &self.bank_code { Some(x) => Some(x.clone()), None => None }),
            bank_name: (match &self.bank_name { Some(x) => Some(x.clone()), None => None }),
            bic: (match &self.bic { Some(x) => Some(x.clone()), None => None }),
            iban_last4: (match &self.iban_last4 { Some(x) => Some(x.clone()), None => None }),
            preferred_language: self.preferred_language.clone(),
            verified_name: (match &self.verified_name { Some(x) => Some(x.clone()), None => None }),
        }
    }
}

impl SetupIntent {
    /// Whether `other` copies the fields of `self` that are plain values (`id`, `client_secret`, `description`, `usage`, `created`, `livemode`).
    pub open spec fn clone_agrees(&self, other: &Self) -> bool {
        &&& self.id == other.id
        &&& self.client_secret == other.client_secret
        &&& self.description == other.description
        &&& self.usage == other.usage
        &&& self.created == other.created
        &&& self.livemode == other.livemode
    }
}

impl Clone for SetupIntent {
    fn clone(&self) -> (r: Self)
        ensures
            self.clone_agrees(&r),
        decreases self,
    {
        SetupIntent {
            object: self.object.clone(),
            id: self.id.clone(),
            application: self.application.clone(),
            customer: (match &self.customer { Some(x) => Some(x.clone()), None => None }),
            latest_attempt: (match &self.latest_attempt { Some(x) => Some(x.clone()), None => None }),
            mandate: (match &self.mandate { Some(x) => Some(x.clone()), None => None }),
            on_behalf_of: (match &self.on_behalf_of { Some(x) => Some(x.clone()), None => None }),
            payment_method: (match &self.payment_method { Some(x) => Some(x.clone()), None => None }),
            single_use_mandate: (match &self.single_use_mandate { Some(x) => Some(x.clone()), None => None }),
            cancellation_reason: self.cancellation_reason.clone(),
            client_secret: (match &self.client_secret { Some(x) => Some(x.clone()), None => None }),
            description: (match &self.description { Some(x) => Some(x.clone()), None => None }),
            last_setup_error: Box::new((match (&*self.last_setup_error) { Some(x) => Some(x.clone()), None => None })),
            next_action: self.next_action.clone(),
            payment_method_options: self.payment_method_options.clone(),
            payment_method_types: self.payment_method_types.clone(),
            status: self.status.clone(),
            usage: self.usage.clone(),
            created: self.created,
            livemode: self.livemode,
            metadata: self.metadata.clone(),
        }
    }
}

impl Subscription {
    /// Whether `other` copies the fields of `self` that are plain values (`id`, `application_fee_percent`, `billing_cycle_anchor`, `cancel_at`, `cancel_at_period_end`, `canceled_at`, `current_period_end`, `current_period_start`, `days_until_due`, `ended_at`, `next_pending_invoice_item_invoice`, `start_date`, `trial_end`, `trial_start`, `created`, `livemode`, `metadata`).
    pub open spec fn clone_agrees(&self, other: &Self) -> bool {
        &&& self.id == other.id
        &&& self.application_fee_percent == other.application_fee_percent
        &&& self.billing_cycle_anchor == other.billing_cycle_anchor
        &&& self.cancel_at == other.cancel_at
        &&& self.cancel_at_period_end == other.cancel_at_period_end
        &&& self.canceled_at == other.canceled_at
        &&& self.current_period_end == other.current_period_end
        &&& self.current_period_start == other.current_period_start
        &&& self.days_until_due == other.days_until_due
        &&& self.ended_at == other.ended_at
        &&& self.next_pending_invoice_item_invoice == other.next_pending_invoice_item_invoice
        &&& self.start_date == other.start_date
        &&& self.trial_end == other.trial_end
        &&& self.trial_start == other.trial_start
        &&& self.created == other.created
        &&& self.livemode == other.livemode
        &&& self.metadata@ == other.metadata@
    }
}

impl Clone for Subscription {
    fn clone(&self) -> (r: Self)
        ensures
            self.clone_agrees(&r),
        decreases self,
    {
        Subscription {
            object: self.object.clone(),
            id: self.id.clone(),
            customer: self.customer.clone(),
            default_payment_method: (match &self.default_payment_method { Some(x) => Some(x.clone()), None => None }),
            default_source: Box::new((match (&*self.default_source) { Some(x) => Some(x.clone()), None => None })),
            latest_invoice: (match &self.latest_invoice { Some(x) => Some(x.clone()), None => None }),
            pending_setup_intent: (match &self.pending_setup_intent { Some(x) => Some(x.clone()), None => None }),
            schedule: (match &self.schedule { Some(x) => Some(x.clone()), None => None }),
            application_fee_percent: self.application_fee_percent,
            billing_cycle_anchor: self.billing_cycle_anchor,
            billing_thresholds: self.billing_thresholds.clone(),
            cancel_at: self.cancel_at,
            cancel_at_period_end: self.cancel_at_period_end,
            canceled_at: self.canceled_at,
            collection_method: self.collection_method.clone(),
            current_period_end: self.current_period_end,
            current_period_start: self.current_period_start,
            days_until_due: self.days_until_due,
            default_tax_rates: self.default_tax_rates.clone(),
            discount: (match &self.discount { Some(x) => Some(x.clone()), None => None }),
            ended_at: self.ended_at,
            items: self.items.clone(),
            next_pending_invoice_item_invoice: self.next_pending_invoice_item_invoice,
            pause_collection: self.pause_collection.clone(),
            pending_invoice_item_interval: self.pending_invoice_item_interval.clone(),
            pending_update: self.pending_update.clone(),
            start_date: self.start_date,
            status: self.status.clone(),
            transfer_data: (match &self.transfer_data { Some(x) => Some(x.clone()), None => None }),
            trial_end: self.trial_end,
            trial_start: self.trial_start,
            created: self.created,
            livemode: self.livemode,
            metadata: self.metadata.clone(),
        }
    }
}

impl UniSchedule {
    /// Whether `other` is the same variant as `self`, with the same payload where it is a plain
    /// value, and a payload that agrees by its own `clone_agrees` where it has one.
    pub open spec fn clone_agrees(&self, other: &Self) -> bool {
        match self {
            UniSchedule::String(x) => other matches UniSchedule::String(y) && x == y,
            UniSchedule::SubscriptionSchedule(x) => other matches UniSchedule::SubscriptionSchedule(y) && x.clone_agrees(&y),
        }
    }
}

impl Clone for UniSchedule {
    fn clone(&self) -> (r: Self)
        ensures
            self.clone_agrees(&r),
        decreases self,
    {
        match self {
            UniSchedule::String(x) => UniSchedule::String(x.clone()),
            UniSchedule::SubscriptionSchedule(x) => UniSchedule::SubscriptionSchedule(x.clone()),
        }
    }
}

impl SubscriptionSchedule {
    /// Whether `other` copies the fields of `self` that are plain values (`id`, `canceled_at`, `completed_at`, `released_at`, `released_subscription`, `created`, `livemode`).
    pub open spec fn clone_agrees(&self, other: &Self) -> bool {
        &&& self.id == other.id
        &&& self.canceled_at == other.canceled_at
        &&& self.completed_at == other.completed_at
        &&& self.released_at == other.released_at
        &&& self.released_subscription == other.released_subscription
        &&& self.created == other.created
        &&& self.livemode == other.livemode
    }
}

impl Clone for SubscriptionSchedule {
    fn clone(&self) -> (r: Self)
        ensures
            self.clone_agrees(&r),
        decreases self,
    {
        SubscriptionSchedule {
            object: self.object.clone(),
            id: self.id.clone(),
            customer: self.customer.clone(),
            subscription: (match &self.subscription { Some(x) => Some(x.clone()), None => None }),
            canceled_at: self.canceled_at,
            completed_at: self.completed_at,
            current_phase: self.current_phase.clone(),
            default_settings: self.default_settings.clone(),
            end_behavior: self.end_behavior.clone(),
            phases: crate::types::clone_vec_subscription_schedule_phase_configuration(&self.phases),
            released_at: self.released_at,
            released_subscription: (match &self.released_subscription { Some(x) => Some(x.clone()), None => None }),
            status: self.status.clone(),
            created: self.created,
            livemode: self.livemode,
            metadata: self.metadata.clone(),
        }
    }
}

impl SubscriptionSchedulePhaseConfiguration {
    /// Whether `other` copies the fields of `self` that are plain values (`application_fee_percent`, `end_date`, `start_date`, `trial_end`).
    pub open spec fn clone_agrees(&self, other: &Self) -> bool {
        &&& self.application_fee_percent == other.application_fee_percent
        &&& self.end_date == other.end_date
        &&& self.start_date == other.start_date
        &&& self.trial_end == other.trial_end
    }
}

impl Clone for SubscriptionSchedulePhaseConfiguration {
    fn clone(&self) -> (r: Self)
        ensures
            self.clone_agrees(&r),
        decreases self,
    {
        SubscriptionSchedulePhaseConfiguration {
            coupon: self.coupon.clone(),
            default_payment_method: (match &self.default_payment_method { Some(x) => Some(x.clone()), None => None }),
            add_invoice_items: self.add_invoice_items.clone(),
            application_fee_percent: self.application_fee_percent,
            billing_cycle_anchor: self.billing_cycle_anchor.clone(),
            billing_thresholds: self.billing_thresholds.clone(),
            collection_method: self.collection_method.clone(),
            default_tax_rates: self.default_tax_rates.clone(),
            end_date: self.end_date,
            invoice_settings: self.invoice_settings.clone(),
            items: self.items.clone(),
            proration_behavior: self.proration_behavior.clone(),
            start_date: self.start_date,
            transfer_data: (match &self.transfer_data { Some(x) => Some(x.clone()), None => None }),
            trial_end: self.trial_end,
        }
    }
}

impl SubscriptionSchedulesResourceDefaultSettings {
    /// Whether `other` copies `self` as far as its plain fields go (it has none).
    pub open spec fn clone_agrees(&self, other: &Self) -> bool {
        true
    }
}

impl Clone for SubscriptionSchedulesResourceDefaultSettings {
    fn clone(&self) -> (r: Self)
        ensures
            self.clone_agrees(&r),
        decreases self,
    {
        SubscriptionSchedulesResourceDefaultSettings {
            default_payment_method: (match &self.default_payment_method { Some(x) => Some(x.clone()), None => None }),
            billing_cycle_anchor: self.billing_cycle_anchor.clone(),
            billing_thresholds: self.billing_thresholds.clone(),
            collection_method: self.collection_method.clone(),
            invoice_settings: self.invoice_settings.clone(),
            transfer_data: (match &self.transfer_data { Some(x) => Some(x.clone()), None => None }),
        }
    }
}

impl SubscriptionTransferData {
    /// Whether `other` copies the fields of `self` that are plain values (`amount_percent`).
    pub open spec fn clone_agrees(&self, other: &Self) -> bool {
        &&& self.amount_percent == other.amount_percent
    }
}

impl Clone for SubscriptionTransferData {
    fn clone(&self) -> (r: Self)
        ensures
            self.clone_agrees(&r),
        decreases self,
    {
        SubscriptionTransferData {
            destination: self.destination.clone(),
            amount_percent: self.amount_percent,
        }
    }
}

impl TaxId {
    /// Whether `other` copies the fields of `self` that are plain values (`id`, `country`, `value`, `created`, `livemode`).
    pub open spec fn clone_agrees(&self, other: &Self) -> bool {
        &&& self.id == other.id
        &&& self.country == other.country
        &&& self.value == other.value
        &&& self.created == other.created
        &&& self.livemode == other.livemode
    }
}

impl Clone for TaxId {
    fn clone(&self) -> (r: Self)
        ensures
            self.clone_agrees(&r),
        decreases self,
    {
        TaxId {
            object: self.object.clone(),
            type_x: self.type_x.clone(),
            id: self.id.clone(),
            customer: (match &self.customer { Some(x) => Some(x.clone()), None => None }),
            country: (match &self.country { Some(x) => Some(x.clone()), None => None }),
            value: self.value.clone(),
            verification: self.verification.clone(),
            created: self.created,
            livemode: self.livemode,
        }
    }
}

impl ThreeDSecure {
    /// Whether `other` copies the fields of `self` that are plain values (`id`, `amount`, `authenticated`, `currency`, `redirect_url`, `status`, `created`, `livemode`).
    pub open spec fn clone_agrees(&self, other: &Self) -> bool {
        &&& self.id == other.id
        &&& self.amount == other.amount
        &&& self.authenticated == other.authenticated
        &&& self.currency == other.currency
        &&& self.redirect_url == other.redirect_url
        &&& self.status == other.status
        &&& self.created == other.created
        &&& self.livemode == other.livemode
    }
}

impl Clone for ThreeDSecure {
    fn clone(&self) -> (r: Self)
        ensures
            self.clone_agrees(&r),
        decreases self,
    {
        ThreeDSecure {
            object: self.object.clone(),
            id: self.id.clone(),
            amount: self.amount,
            authenticated: self.authenticated,
            card: Box::new((&*self.card).clone()),
            currency: self.currency.clone(),
            redirect_url: (match &self.redirect_url { Some(x) => Some(x.clone()), None => None }),
            status: self.status.clone(),
            created: self.created,
            livemode: self.livemode,
        }
    }
}

impl Token {
    /// Whether `other` copies the fields of `self` that are plain values (`type_x`, `id`, `client_ip`, `used`, `created`, `livemode`).
    pub open spec fn clone_agrees(&self, other: &Self) -> bool {
        &&& self.type_x == other.type_x
        &&& self.id == other.id
        &&& self.client_ip == other.client_ip
        &&& self.used == other.used
        &&& self.created == other.created
        &&& self.livemode == other.livemode
    }
}

impl Clone for Token {
    fn clone(&self) -> (r: Self)
        ensures
            self.clone_agrees(&r),
        decreases self,
    {
        Token {
            object: self.object.clone(),
            type_x: self.type_x.clone(),
            id: self.id.clone(),
            bank_account: (match &self.bank_account { Some(x) => Some(x.clone()), None => None }),
            card: Box::new((match (&*self.card) { Some(x) => Some(x.clone()), None => None })),
            client_ip: (match &self.client_ip { Some(x) => Some(x.clone()), None => None }),
            used: self.used,
            created: self.created,
            livemode: self.livemode,
        }
    }
}

impl Topup {
    /// Whether `other` copies the fields of `self` that are plain values (`id`, `amount`, `currency`, `description`, `expected_availability_date`, `failure_code`, `failure_message`, `statement_descriptor`, `transfer_group`, `created`, `livemode`, `metadata`).
    pub open spec fn clone_agrees(&self, other: &Self) -> bool {
        &&& self.id == other.id
        &&& self.amount == other.amount
        &&& self.currency == other.currency
        &&& self.description == other.description
        &&& self.expected_availability_date == other.expected_availability_date
        &&& self.failure_code == other.failure_code
        &&& self.failure_message == other.failure_message
        &&& self.statement_descriptor == other.statement_descriptor
        &&& self.transfer_group == other.transfer_group
        &&& self.created == other.created
        &&& self.livemode == other.livemode
        &&& self.metadata@ == other.metadata@
    }
}

impl Clone for Topup {
    fn clone(&self) -> (r: Self)
        ensures
            self.clone_agrees(&r),
        decreases self,
    {
        Topup {
            object: self.object.clone(),
            id: self.id.clone(),
            balance_transaction: (match &self.balance_transaction { Some(x) => Some(x.clone()), None => None }),
            amount: self.amount,
            currency: self.currency.clone(),
            description: (match &self.description { Some(x) => Some(x.clone()), None => None }),
            expected_availability_date: self.expected_availability_date,
            failure_code: (match &self.failure_code { Some(x) => Some(x.clone()), None => None }),
            failure_message: (match &self.failure_message { Some(x) => Some(x.clone()), None => None }),
            source: self.source.clone(),
            statement_descriptor: (match &self.statement_descriptor { Some(x) => Some(x.clone()), None => None }),
            status: self.status.clone(),
            transfer_group: (match &self.transfer_group { Some(x) => Some(x.clone()), None => None }),
            created: self.created,
            livemode: self.livemode,
            metadata: self.metadata.clone(),
        }
    }
}

impl Transfer {
    /// Whether `other` copies the fields of `self` that are plain values (`id`, `amount`, `amount_reversed`, `currency`, `description`, `reversed`, `source_type`, `transfer_group`, `created`, `livemode`, `metadata`).
    pub open spec fn clone_agrees(&self, other: &Self) -> bool {
        &&& self.id == other.id
        &&& self.amount == other.amount
        &&& self.amount_reversed == other.amount_reversed
        &&& self.currency == other.currency
        &&& self.description == other.description
        &&& self.reversed == other.reversed
        &&& self.source_type == other.source_type
        &&& self.transfer_group == other.transfer_group
        &&& self.created == other.created
        &&& self.livemode == other.livemode
        &&& self.metadata@ == other.metadata@
    }
}

impl Clone for Transfer {
    fn clone(&self) -> (r: Self)
        ensures
            self.clone_agrees(&r),
        decreases self,
    {
        Transfer {
            object: self.object.clone(),
            id: self.id.clone(),
            balance_transaction: (match &self.balance_transaction { Some(x) => Some(x.clone()), None => None }),
            destination: (match &self.destination { Some(x) => Some(x.clone()), None => None }),
            destination_payment: (match &self.destination_payment { Some(x) => Some(x.clone()), None => None }),
            source_transaction: (match &self.source_transaction { Some(x) => Some(x.clone()), None => None }),
            amount: self.amount,
            amount_reversed: self.amount_reversed,
            currency: self.currency.clone(),
            description: (match &self.description { Some(x) => Some(x.clone()), None => None }),
            reversals: self.reversals.clone(),
            reversed: self.reversed,
            source_type: (match &self.source_type { Some(x) => Some(x.clone()), None => None }),
            transfer_group: (match &self.transfer_group { Some(x) => Some(x.clone()), None => None }),
            created: self.created,
            livemode: self.livemode,
            metadata: self.metadata.clone(),
        }
    }
}

impl TransferReversalList675B54 {
    /// Whether `other` copies the fields of `self` that are plain values (`has_more`, `url`).
    pub open spec fn clone_agrees(&self, other: &Self) -> bool {
        &&& self.has_more == other.has_more
        &&& self.url == other.url
    }
}

impl Clone for TransferReversalList675B54 {
    fn clone(&self) -> (r: Self)
        ensures
            self.clone_agrees(&r),
        decreases self,
    {
        TransferReversalList675B54 {
            object: self.object.clone(),
            data: crate::types::clone_vec_transfer_reversal(&self.data),
            has_more: self.has_more,
            url: self.url.clone(),
        }
    }
}

impl TransferData {
    /// Whether `other` copies the fields of `self` that are plain values (`amount`).
    pub open spec fn clone_agrees(&self, other: &Self) -> bool {
        &&& self.amount == other.amount
    }
}

impl Clone for TransferData {
    fn clone(&self) -> (r: Self)
        ensures
            self.clone_agrees(&r),
        decreases self,
    {
        TransferData {
            destination: self.destination.clone(),
            amount: self.amount,
        }
    }
}

impl TransferReversal {
    /// Whether `other` copies the fields of `self` that are plain values (`id`, `amount`, `currency`, `created`).
    pub open spec fn clone_agrees(&self, other: &Self) -> bool {
        &&& self.id == other.id
        &&& self.amount == other.amount
        &&& self.currency == other.currency
        &&& self.created == other.created
    }
}

impl Clone for TransferReversal {
    fn clone(&self) -> (r: Self)
        ensures
            self.clone_agrees(&r),
        decreases self,
    {
        TransferReversal {
            object: self.object.clone(),
            id: self.id.clone(),
            balance_transaction: (match &self.balance_transaction { Some(x) => Some(x.clone()), None => None }),
            destination_payment_refund: (match &self.destination_payment_refund { Some(x) => Some(x.clone()), None => None }),
            source_refund: (match &self.source_refund { Some(x) => Some(x.clone()), None => None }),
            transfer: self.transfer.clone(),
            amount: self.amount,
            currency: self.currency.clone(),
            created: self.created,
            metadata: self.metadata.clone(),
        }
    }
}

/// A copy of each item of `v`, in order: item `i` of the result is what `clone` gives for
/// item `i` of `v`.
pub(crate) fn clone_vec_fee_refund(v: &Vec<FeeRefund>) -> (r: Vec<FeeRefund>)
    ensures
        r@.len() == v@.len(),
        forall|i: int| 0 <= i < v@.len() ==> (#[trigger] v@[i]).clone_agrees(&r@[i]),
    decreases v,
{
    let mut r: Vec<FeeRefund> = Vec::new();
    let mut i: usize = 0;
    while i < v.len()
        invariant
            i <= v@.len(),
            r@.len() == i,
            forall|k: int| 0 <= k < i ==> (#[trigger] v@[k]).clone_agrees(&r@[k]),
        decreases v@.len() - i,
    {
        let x = v[i].clone();
        r.push(x);
        i = i + 1;
    }
    r
}

/// A copy of each item of `v`, in order: item `i` of the result is what `clone` gives for
/// item `i` of `v`.
pub(crate) fn clone_vec_refund(v: &Vec<Refund>) -> (r: Vec<Refund>)
    ensures
        r@.len() == v@.len(),
        forall|i: int| 0 <= i < v@.len() ==> (#[trigger] v@[i]).clone_agrees(&r@[i]),
    decreases v,
{
    let mut r: Vec<Refund> = Vec::new();
    let mut i: usize = 0;
    while i < v.len()
        invariant
            i <= v@.len(),
            r@.len() == i,
            forall|k: int| 0 <= k < i ==> (#[trigger] v@[k]).clone_agrees(&r@[k]),
        decreases v@.len() - i,
    {
        let x = v[i].clone();
        r.push(x);
        i = i + 1;
    }
    r
}

/// A copy of each item of `v`, in order: item `i` of the result is what `clone` gives for
/// item `i` of `v`.
pub(crate) fn clone_vec_line_items(v: &Vec<LineItems>) -> (r: Vec<LineItems>)
    ensures
        r@.len() == v@.len(),
        forall|i: int| 0 <= i < v@.len() ==> (#[trigger] v@[i]).clone_agrees(&r@[i]),
    decreases v,
{
    let mut r: Vec<LineItems> = Vec::new();
    let mut i: usize = 0;
    while i < v.len()
        invariant
            i <= v@.len(),
            r@.len() == i,
            forall|k: int| 0 <= k < i ==> (#[trigger] v@[k]).clone_agrees(&r@[k]),
        decreases v@.len() - i,
    {
        let x = v[i].clone();
        r.push(x);
        i = i + 1;
    }
    r
}

/// A copy of each item of `v`, in order: item `i` of the result is what `clone` gives for
/// item `i` of `v`.
pub(crate) fn clone_vec_discounts_resource_discount_amount(v: &Vec<DiscountsResourceDiscountAmount>) -> (r: Vec<DiscountsResourceDiscountAmount>)
    ensures
        r@.len() == v@.len(),
        forall|i: int| 0 <= i < v@.len() ==> (#[trigger] v@[i]).clone_agrees(&r@[i]),
    decreases v,
{
    let mut r: Vec<DiscountsResourceDiscountAmount> = Vec::new();
    let mut i: usize = 0;
    while i < v.len()
        invariant
            i <= v@.len(),
            r@.len() == i,
            forall|k: int| 0 <= k < i ==> (#[trigger] v@[k]).clone_agrees(&r@[k]),
        decreases v@.len() - i,
    {
        let x = v[i].clone();
        r.push(x);
        i = i + 1;
    }
    r
}

/// A copy of each item of `v`, in order: item `i` of the result is what `clone` gives for
/// item `i` of `v`.
pub(crate) fn clone_vec_credit_note_line_item(v: &Vec<CreditNoteLineItem>) -> (r: Vec<CreditNoteLineItem>)
    ensures
        r@.len() == v@.len(),
        forall|i: int| 0 <= i < v@.len() ==> (#[trigger] v@[i]).clone_agrees(&r@[i]),
    decreases v,
{
    let mut r: Vec<CreditNoteLineItem> = Vec::new();
    let mut i: usize = 0;
    while i < v.len()
        invariant
            i <= v@.len(),
            r@.len() == i,
            forall|k: int| 0 <= k < i ==> (#[trigger] v@[k]).clone_agrees(&r@[k]),
        decreases v@.len() - i,
    {
        let x = v[i].clone();
        r.push(x);
        i = i + 1;
    }
    r
}

/// A copy of each item of `v`, in order: item `i` of the result is what `clone` gives for
/// item `i` of `v`.
pub(crate) fn clone_vec_subscription(v: &Vec<Subscription>) -> (r: Vec<Subscription>)
    ensures
        r@.len() == v@.len(),
        forall|i: int| 0 <= i < v@.len() ==> (#[trigger] v@[i]).clone_agrees(&r@[i]),
    decreases v,
{
    let mut r: Vec<Subscription> = Vec::new();
    let mut i: usize = 0;
    while i < v.len()
        invariant
            i <= v@.len(),
            r@.len() == i,
            forall|k: int| 0 <= k < i ==> (#[trigger] v@[k]).clone_agrees(&r@[k]),
        decreases v@.len() - i,
    {
        let x = v[i].clone();
        r.push(x);
        i = i + 1;
    }
    r
}

/// A copy of each item of `v`, in order: item `i` of the result is what `clone` gives for
/// item `i` of `v`.
pub(crate) fn clone_vec_tax_id(v: &Vec<TaxId>) -> (r: Vec<TaxId>)
    ensures
        r@.len() == v@.len(),
        forall|i: int| 0 <= i < v@.len() ==> (#[trigger] v@[i]).clone_agrees(&r@[i]),
    decreases v,
{
    let mut r: Vec<TaxId> = Vec::new();
    let mut i: usize = 0;
    while i < v.len()
        invariant
            i <= v@.len(),
            r@.len() == i,
            forall|k: int| 0 <= k < i ==> (#[trigger] v@[k]).clone_agrees(&r@[k]),
        decreases v@.len() - i,
    {
        let x = v[i].clone();
        r.push(x);
        i = i + 1;
    }
    r
}

/// A copy of each item of `v`, in order: item `i` of the result is what `clone` gives for
/// item `i` of `v`.
pub(crate) fn clone_vec_balance_transaction(v: &Vec<BalanceTransaction>) -> (r: Vec<BalanceTransaction>)
    ensures
        r@.len() == v@.len(),
        forall|i: int| 0 <= i < v@.len() ==> (#[trigger] v@[i]).clone_agrees(&r@[i]),
    decreases v,
{
    let mut r: Vec<BalanceTransaction> = Vec::new();
    let mut i: usize = 0;
    while i < v.len()
        invariant
            i <= v@.len(),
            r@.len() == i,
            forall|k: int| 0 <= k < i ==> (#[trigger] v@[k]).clone_agrees(&r@[k]),
        decreases v@.len() - i,
    {
        let x = v[i].clone();
        r.push(x);
        i = i + 1;
    }
    r
}

/// A copy of each item of `v`, in order: item `i` of the result is what `clone` gives for
/// item `i` of `v`.
pub(crate) fn clone_vec_file_link(v: &Vec<FileLink>) -> (r: Vec<FileLink>)
    ensures
        r@.len() == v@.len(),
        forall|i: int| 0 <= i < v@.len() ==> (#[trigger] v@[i]).clone_agrees(&r@[i]),
    decreases v,
{
    let mut r: Vec<FileLink> = Vec::new();
    let mut i: usize = 0;
    while i < v.len()
        invariant
            i <= v@.len(),
            r@.len() == i,
            forall|k: int| 0 <= k < i ==> (#[trigger] v@[k]).clone_agrees(&r@[k]),
        decreases v@.len() - i,
    {
        let x = v[i].clone();
        r.push(x);
        i = i + 1;
    }
    r
}

/// A copy of each item of `v`, in order: item `i` of the result is what `clone` gives for
/// item `i` of `v`.
pub(crate) fn clone_vec_uni_items6_f859_c(v: &Vec<UniItems6F859C>) -> (r: Vec<UniItems6F859C>)
    ensures
        r@.len() == v@.len(),
        forall|i: int| 0 <= i < v@.len() ==> (#[trigger] v@[i]).clone_agrees(&r@[i]),
    decreases v,
{
    let mut r: Vec<UniItems6F859C> = Vec::new();
    let mut i: usize = 0;
    while i < v.len()
        invariant
            i <= v@.len(),
            r@.len() == i,
            forall|k: int| 0 <= k < i ==> (#[trigger] v@[k]).clone_agrees(&r@[k]),
        decreases v@.len() - i,
    {
        let x = v[i].clone();
        r.push(x);
        i = i + 1;
    }
    r
}

/// A copy of each item of `v`, in order: item `i` of the result is what `clone` gives for
/// item `i` of `v`.
pub(crate) fn clone_vec_invoice_line_item(v: &Vec<InvoiceLineItem>) -> (r: Vec<InvoiceLineItem>)
    ensures
        r@.len() == v@.len(),
        forall|i: int| 0 <= i < v@.len() ==> (#[trigger] v@[i]).clone_agrees(&r@[i]),
    decreases v,
{
    let mut r: Vec<InvoiceLineItem> = Vec::new();
    let mut i: usize = 0;
    while i < v.len()
        invariant
            i <= v@.len(),
            r@.len() == i,
            forall|k: int| 0 <= k < i ==> (#[trigger] v@[k]).clone_agrees(&r@[k]),
        decreases v@.len() - i,
    {
        let x = v[i].clone();
        r.push(x);
        i = i + 1;
    }
    r
}

/// A copy of each item of `v`, in order: item `i` of the result is what `clone` gives for
/// item `i` of `v`.
pub(crate) fn clone_vec_uni_items_e47473(v: &Vec<UniItemsE47473>) -> (r: Vec<UniItemsE47473>)
    ensures
        r@.len() == v@.len(),
        forall|i: int| 0 <= i < v@.len() ==> (#[trigger] v@[i]).clone_agrees(&r@[i]),
    decreases v,
{
    let mut r: Vec<UniItemsE47473> = Vec::new();
    let mut i: usize = 0;
    while i < v.len()
        invariant
            i <= v@.len(),
            r@.len() == i,
            forall|k: int| 0 <= k < i ==> (#[trigger] v@[k]).clone_agrees(&r@[k]),
        decreases v@.len() - i,
    {
        let x = v[i].clone();
        r.push(x);
        i = i + 1;
    }
    r
}

/// A copy of each item of `v`, in order: item `i` of the result is what `clone` gives for
/// item `i` of `v`.
pub(crate) fn clone_vec_issuing_transaction(v: &Vec<IssuingTransaction>) -> (r: Vec<IssuingTransaction>)
    ensures
        r@.len() == v@.len(),
        forall|i: int| 0 <= i < v@.len() ==> (#[trigger] v@[i]).clone_agrees(&r@[i]),
    decreases v,
{
    let mut r: Vec<IssuingTransaction> = Vec::new();
    let mut i: usize = 0;
    while i < v.len()
        invariant
            i <= v@.len(),
            r@.len() == i,
            forall|k: int| 0 <= k < i ==> (#[trigger] v@[k]).clone_agrees(&r@[k]),
        decreases v@.len() - i,
    {
        let x = v[i].clone();
        r.push(x);
        i = i + 1;
    }
    r
}

/// A copy of each item of `v`, in order: item `i` of the result is what `clone` gives for
/// item `i` of `v`.
pub(crate) fn clone_vec_line_items_discount_amount(v: &Vec<LineItemsDiscountAmount>) -> (r: Vec<LineItemsDiscountAmount>)
    ensures
        r@.len() == v@.len(),
        forall|i: int| 0 <= i < v@.len() ==> (#[trigger] v@[i]).clone_agrees(&r@[i]),
    decreases v,
{
    let mut r: Vec<LineItemsDiscountAmount> = Vec::new();
    let mut i: usize = 0;
    while i < v.len()
        invariant
            i <= v@.len(),
            r@.len() == i,
            forall|k: int| 0 <= k < i ==> (#[trigger] v@[k]).clone_agrees(&r@[k]),
        decreases v@.len() - i,
    {
        let x = v[i].clone();
        r.push(x);
        i = i + 1;
    }
    r
}

/// A copy of each item of `v`, in order: item `i` of the result is what `clone` gives for
/// item `i` of `v`.
pub(crate) fn clone_vec_order_return(v: &Vec<OrderReturn>) -> (r: Vec<OrderReturn>)
    ensures
        r@.len() == v@.len(),
        forall|i: int| 0 <= i < v@.len() ==> (#[trigger] v@[i]).clone_agrees(&r@[i]),
    decreases v,
{
    let mut r: Vec<OrderReturn> = Vec::new();
    let mut i: usize = 0;
    while i < v.len()
        invariant
            i <= v@.len(),
            r@.len() == i,
            forall|k: int| 0 <= k < i ==> (#[trigger] v@[k]).clone_agrees(&r@[k]),
        decreases v@.len() - i,
    {
        let x = v[i].clone();
        r.push(x);
        i = i + 1;
    }
    r
}

/// A copy of each item of `v`, in order: item `i` of the result is what `clone` gives for
/// item `i` of `v`.
pub(crate) fn clone_vec_charge(v: &Vec<Charge>) -> (r: Vec<Charge>)
    ensures
        r@.len() == v@.len(),
        forall|i: int| 0 <= i < v@.len() ==> (#[trigger] v@[i]).clone_agrees(&r@[i]),
    decreases v,
{
    let mut r: Vec<Charge> = Vec::new();
    let mut i: usize = 0;
    while i < v.len()
        invariant
            i <= v@.len(),
            r@.len() == i,
            forall|k: int| 0 <= k < i ==> (#[trigger] v@[k]).clone_agrees(&r@[k]),
        decreases v@.len() - i,
    {
        let x = v[i].clone();
        r.push(x);
        i = i + 1;
    }
    r
}

/// A copy of each item of `v`, in order: item `i` of the result is what `clone` gives for
/// item `i` of `v`.
pub(crate) fn clone_vec_card(v: &Vec<Card>) -> (r: Vec<Card>)
    ensures
        r@.len() == v@.len(),
        forall|i: int| 0 <= i < v@.len() ==> (#[trigger] v@[i]).clone_agrees(&r@[i]),
    decreases v,
{
    let mut r: Vec<Card> = Vec::new();
    let mut i: usize = 0;
    while i < v.len()
        invariant
            i <= v@.len(),
            r@.len() == i,
            forall|k: int| 0 <= k < i ==> (#[trigger] v@[k]).clone_agrees(&r@[k]),
        decreases v@.len() - i,
    {
        let x = v[i].clone();
        r.push(x);
        i = i + 1;
    }
    r
}

/// A copy of each item of `v`, in order: item `i` of the result is what `clone` gives for
/// item `i` of `v`.
pub(crate) fn clone_vec_subscription_schedule_phase_configuration(v: &Vec<SubscriptionSchedulePhaseConfiguration>) -> (r: Vec<SubscriptionSchedulePhaseConfiguration>)
    ensures
        r@.len() == v@.len(),
        forall|i: int| 0 <= i < v@.len() ==> (#[trigger] v@[i]).clone_agrees(&r@[i]),
    decreases v,
{
    let mut r: Vec<SubscriptionSchedulePhaseConfiguration> = Vec::new();
    let mut i: usize = 0;
    while i < v.len()
        invariant
            i <= v@.len(),
            r@.len() == i,
            forall|k: int| 0 <= k < i ==> (#[trigger] v@[k]).clone_agrees(&r@[k]),
        decreases v@.len() - i,
    {
        let x = v[i].clone();
        r.push(x);
        i = i + 1;
    }
    r
}

/// A copy of each item of `v`, in order: item `i` of the result is what `clone` gives for
/// item `i` of `v`.
pub(crate) fn clone_vec_transfer_reversal(v: &Vec<TransferReversal>) -> (r: Vec<TransferReversal>)
    ensures
        r@.len() == v@.len(),
        forall|i: int| 0 <= i < v@.len() ==> (#[trigger] v@[i]).clone_agrees(&r@[i]),
    decreases v,
{
    let mut r: Vec<TransferReversal> = Vec::new();
    let mut i: usize = 0;
    while i < v.len()
        invariant
            i <= v@.len(),
            r@.len() == i,
            forall|k: int| 0 <= k < i ==> (#[trigger] v@[k]).clone_agrees(&r@[k]),
        decreases v@.len() - i,
    {
        let x = v[i].clone();
        r.push(x);
        i = i + 1;
    }
    r
}

/// A copy of each item of `v`, in order: item `i` of the result is what `clone` gives for
/// item `i` of `v`.
pub(crate) fn clone_vec_account_capability(v: &Vec<AccountCapability>) -> (r: Vec<AccountCapability>)
    ensures
        r@.len() == v@.len(),
        forall|i: int| 0 <= i < v@.len() ==> (#[trigger] v@[i]).clone_agrees(&r@[i]),
    decreases v,
{
    let mut r: Vec<AccountCapability> = Vec::new();
    let mut i: usize = 0;
    while i < v.len()
        invariant
            i <= v@.len(),
            r@.len() == i,
            forall|k: int| 0 <= k < i ==> (#[trigger] v@[k]).clone_agrees(&r@[k]),
        decreases v@.len() - i,
    {
        let x = v[i].clone();
        r.push(x);
        i = i + 1;
    }
    r
}

/// A copy of each item of `v`, in order: item `i` of the result is what `clone` gives for
/// item `i` of `v`.
pub(crate) fn clone_vec_person(v: &Vec<Person>) -> (r: Vec<Person>)
    ensures
        r@.len() == v@.len(),
        forall|i: int| 0 <= i < v@.len() ==> (#[trigger] v@[i]).clone_agrees(&r@[i]),
    decreases v,
{
    let mut r: Vec<Person> = Vec::new();
    let mut i: usize = 0;
    while i < v.len()
        invariant
            i <= v@.len(),
            r@.len() == i,
            forall|k: int| 0 <= k < i ==> (#[trigger] v@[k]).clone_agrees(&r@[k]),
        decreases v@.len() - i,
    {
        let x = v[i].clone();
        r.push(x);
        i = i + 1;
    }
    r
}

/// A copy of each item of `v`, in order: item `i` of the result is what `clone` gives for
/// item `i` of `v`.
pub(crate) fn clone_vec_account(v: &Vec<Account>) -> (r: Vec<Account>)
    ensures
        r@.len() == v@.len(),
        forall|i: int| 0 <= i < v@.len() ==> (#[trigger] v@[i]).clone_agrees(&r@[i]),
    decreases v,
{
    let mut r: Vec<Account> = Vec::new();
    let mut i: usize = 0;
    while i < v.len()
        invariant
            i <= v@.len(),
            r@.len() == i,
            forall|k: int| 0 <= k < i ==> (#[trigger] v@[k]).clone_agrees(&r@[k]),
        decreases v@.len() - i,
    {
        let x = v[i].clone();
        r.push(x);
        i = i + 1;
    }
    r
}

/// A copy of each item of `v`, in order: item `i` of the result is what `clone` gives for
/// item `i` of `v`.
pub(crate) fn clone_vec_platform_fee(v: &Vec<PlatformFee>) -> (r: Vec<PlatformFee>)
    ensures
        r@.len() == v@.len(),
        forall|i: int| 0 <= i < v@.len() ==> (#[trigger] v@[i]).clone_agrees(&r@[i]),
    decreases v,
{
    let mut r: Vec<PlatformFee> = Vec::new();
    let mut i: usize = 0;
    while i < v.len()
        invariant
            i <= v@.len(),
            r@.len() == i,
            forall|k: int| 0 <= k < i ==> (#[trigger] v@[k]).clone_agrees(&r@[k]),
        decreases v@.len() - i,
    {
        let x = v[i].clone();
        r.push(x);
        i = i + 1;
    }
    r
}

/// A copy of each item of `v`, in order: item `i` of the result is what `clone` gives for
/// item `i` of `v`.
pub(crate) fn clone_vec_session(v: &Vec<Session>) -> (r: Vec<Session>)
    ensures
        r@.len() == v@.len(),
        forall|i: int| 0 <= i < v@.len() ==> (#[trigger] v@[i]).clone_agrees(&r@[i]),
    decreases v,
{
    let mut r: Vec<Session> = Vec::new();
    let mut i: usize = 0;
    while i < v.len()
        invariant
            i <= v@.len(),
            r@.len() == i,
            forall|k: int| 0 <= k < i ==> (#[trigger] v@[k]).clone_agrees(&r@[k]),
        decreases v@.len() - i,
    {
        let x = v[i].clone();
        r.push(x);
        i = i + 1;
    }
    r
}

/// A copy of each item of `v`, in order: item `i` of the result is what `clone` gives for
/// item `i` of `v`.
pub(crate) fn clone_vec_credit_note(v: &Vec<CreditNote>) -> (r: Vec<CreditNote>)
    ensures
        r@.len() == v@.len(),
        forall|i: int| 0 <= i < v@.len() ==> (#[trigger] v@[i]).clone_agrees(&r@[i]),
    decreases v,
{
    let mut r: Vec<CreditNote> = Vec::new();
    let mut i: usize = 0;
    while i < v.len()
        invariant
            i <= v@.len(),
            r@.len() == i,
            forall|k: int| 0 <= k < i ==> (#[trigger] v@[k]).clone_agrees(&r@[k]),
        decreases v@.len() - i,
    {
        let x = v[i].clone();
        r.push(x);
        i = i + 1;
    }
    r
}

/// A copy of each item of `v`, in order: item `i` of the result is what `clone` gives for
/// item `i` of `v`.
pub(crate) fn clone_vec_customer(v: &Vec<Customer>) -> (r: Vec<Customer>)
    ensures
        r@.len() == v@.len(),
        forall|i: int| 0 <= i < v@.len() ==> (#[trigger] v@[i]).clone_agrees(&r@[i]),
    decreases v,
{
    let mut r: Vec<Customer> = Vec::new();
    let mut i: usize = 0;
    while i < v.len()
        invariant
            i <= v@.len(),
            r@.len() == i,
            forall|k: int| 0 <= k < i ==> (#[trigger] v@[k]).clone_agrees(&r@[k]),
        decreases v@.len() - i,
    {
        let x = v[i].clone();
        r.push(x);
        i = i + 1;
    }
    r
}

/// A copy of each item of `v`, in order: item `i` of the result is what `clone` gives for
/// item `i` of `v`.
pub(crate) fn clone_vec_customer_balance_transaction(v: &Vec<CustomerBalanceTransaction>) -> (r: Vec<CustomerBalanceTransaction>)
    ensures
        r@.len() == v@.len(),
        forall|i: int| 0 <= i < v@.len() ==> (#[trigger] v@[i]).clone_agrees(&r@[i]),
    decreases v,
{
    let mut r: Vec<CustomerBalanceTransaction> = Vec::new();
    let mut i: usize = 0;
    while i < v.len()
        invariant
            i <= v@.len(),
            r@.len() == i,
            forall|k: int| 0 <= k < i ==> (#[trigger] v@[k]).clone_agrees(&r@[k]),
        decreases v@.len() - i,
    {
        let x = v[i].clone();
        r.push(x);
        i = i + 1;
    }
    r
}

/// A copy of each item of `v`, in order: item `i` of the result is what `clone` gives for
/// item `i` of `v`.
pub(crate) fn clone_vec_bank_account(v: &Vec<BankAccount>) -> (r: Vec<BankAccount>)
    ensures
        r@.len() == v@.len(),
        forall|i: int| 0 <= i < v@.len() ==> (#[trigger] v@[i]).clone_agrees(&r@[i]),
    decreases v,
{
    let mut r: Vec<BankAccount> = Vec::new();
    let mut i: usize = 0;
    while i < v.len()
        invariant
            i <= v@.len(),
            r@.len() == i,
            forall|k: int| 0 <= k < i ==> (#[trigger] v@[k]).clone_agrees(&r@[k]),
        decreases v@.len() - i,
    {
        let x = v[i].clone();
        r.push(x);
        i = i + 1;
    }
    r
}

/// A copy of each item of `v`, in order: item `i` of the result is what `clone` gives for
/// item `i` of `v`.
pub(crate) fn clone_vec_dispute(v: &Vec<Dispute>) -> (r: Vec<Dispute>)
    ensures
        r@.len() == v@.len(),
        forall|i: int| 0 <= i < v@.len() ==> (#[trigger] v@[i]).clone_agrees(&r@[i]),
    decreases v,
{
    let mut r: Vec<Dispute> = Vec::new();
    let mut i: usize = 0;
    while i < v.len()
        invariant
            i <= v@.len(),
            r@.len() == i,
            forall|k: int| 0 <= k < i ==> (#[trigger] v@[k]).clone_agrees(&r@[k]),
        decreases v@.len() - i,
    {
        let x = v[i].clone();
        r.push(x);
        i = i + 1;
    }
    r
}

/// A copy of each item of `v`, in order: item `i` of the result is what `clone` gives for
/// item `i` of `v`.
pub(crate) fn clone_vec_notification_event(v: &Vec<NotificationEvent>) -> (r: Vec<NotificationEvent>)
    ensures
        r@.len() == v@.len(),
        forall|i: int| 0 <= i < v@.len() ==> (#[trigger] v@[i]).clone_agrees(&r@[i]),
    decreases v,
{
    let mut r: Vec<NotificationEvent> = Vec::new();
    let mut i: usize = 0;
    while i < v.len()
        invariant
            i <= v@.len(),
            r@.len() == i,
            forall|k: int| 0 <= k < i ==> (#[trigger] v@[k]).clone_agrees(&r@[k]),
        decreases v@.len() - i,
    {
        let x = v[i].clone();
        r.push(x);
        i = i + 1;
    }
    r
}

/// A copy of each item of `v`, in order: item `i` of the result is what `clone` gives for
/// item `i` of `v`.
pub(crate) fn clone_vec_file(v: &Vec<File>) -> (r: Vec<File>)
    ensures
        r@.len() == v@.len(),
        forall|i: int| 0 <= i < v@.len() ==> (#[trigger] v@[i]).clone_agrees(&r@[i]),
    decreases v,
{
    let mut r: Vec<File> = Vec::new();
    let mut i: usize = 0;
    while i < v.len()
        invariant
            i <= v@.len(),
            r@.len() == i,
            forall|k: int| 0 <= k < i ==> (#[trigger] v@[k]).clone_agrees(&r@[k]),
        decreases v@.len() - i,
    {
        let x = v[i].clone();
        r.push(x);
        i = i + 1;
    }
    r
}

/// A copy of each item of `v`, in order: item `i` of the result is what `clone` gives for
/// item `i` of `v`.
pub(crate) fn clone_vec_invoice_item(v: &Vec<InvoiceItem>) -> (r: Vec<InvoiceItem>)
    ensures
        r@.len() == v@.len(),
        forall|i: int| 0 <= i < v@.len() ==> (#[trigger] v@[i]).clone_agrees(&r@[i]),
    decreases v,
{
    let mut r: Vec<InvoiceItem> = Vec::new();
    let mut i: usize = 0;
    while i < v.len()
        invariant
            i <= v@.len(),
            r@.len() == i,
            forall|k: int| 0 <= k < i ==> (#[trigger] v@[k]).clone_agrees(&r@[k]),
        decreases v@.len() - i,
    {
        let x = v[i].clone();
        r.push(x);
        i = i + 1;
    }
    r
}

/// A copy of each item of `v`, in order: item `i` of the result is what `clone` gives for
/// item `i` of `v`.
pub(crate) fn clone_vec_invoice(v: &Vec<Invoice>) -> (r: Vec<Invoice>)
    ensures
        r@.len() == v@.len(),
        forall|i: int| 0 <= i < v@.len() ==> (#[trigger] v@[i]).clone_agrees(&r@[i]),
    decreases v,
{
    let mut r: Vec<Invoice> = Vec::new();
    let mut i: usize = 0;
    while i < v.len()
        invariant
            i <= v@.len(),
            r@.len() == i,
            forall|k: int| 0 <= k < i ==> (#[trigger] v@[k]).clone_agrees(&r@[k]),
        decreases v@.len() - i,
    {
        let x = v[i].clone();
        r.push(x);
        i = i + 1;
    }
    r
}

/// A copy of each item of `v`, in order: item `i` of the result is what `clone` gives for
/// item `i` of `v`.
pub(crate) fn clone_vec_issuer_fraud_record(v: &Vec<IssuerFraudRecord>) -> (r: Vec<IssuerFraudRecord>)
    ensures
        r@.len() == v@.len(),
        forall|i: int| 0 <= i < v@.len() ==> (#[trigger] v@[i]).clone_agrees(&r@[i]),
    decreases v,
{
    let mut r: Vec<IssuerFraudRecord> = Vec::new();
    let mut i: usize = 0;
    while i < v.len()
        invariant
            i <= v@.len(),
            r@.len() == i,
            forall|k: int| 0 <= k < i ==> (#[trigger] v@[k]).clone_agrees(&r@[k]),
        decreases v@.len() - i,
    {
        let x = v[i].clone();
        r.push(x);
        i = i + 1;
    }
    r
}

/// A copy of each item of `v`, in order: item `i` of the result is what `clone` gives for
/// item `i` of `v`.
pub(crate) fn clone_vec_issuing_authorization(v: &Vec<IssuingAuthorization>) -> (r: Vec<IssuingAuthorization>)
    ensures
        r@.len() == v@.len(),
        forall|i: int| 0 <= i < v@.len() ==> (#[trigger] v@[i]).clone_agrees(&r@[i]),
    decreases v,
{
    let mut r: Vec<IssuingAuthorization> = Vec::new();
    let mut i: usize = 0;
    while i < v.len()
        invariant
            i <= v@.len(),
            r@.len() == i,
            forall|k: int| 0 <= k < i ==> (#[trigger] v@[k]).clone_agrees(&r@[k]),
        decreases v@.len() - i,
    {
        let x = v[i].clone();
        r.push(x);
        i = i + 1;
    }
    r
}

/// A copy of each item of `v`, in order: item `i` of the result is what `clone` gives for
/// item `i` of `v`.
pub(crate) fn clone_vec_issuing_cardholder(v: &Vec<IssuingCardholder>) -> (r: Vec<IssuingCardholder>)
    ensures
        r@.len() == v@.len(),
        forall|i: int| 0 <= i < v@.len() ==> (#[trigger] v@[i]).clone_agrees(&r@[i]),
    decreases v,
{
    let mut r: Vec<IssuingCardholder> = Vec::new();
    let mut i: usize = 0;
    while i < v.len()
        invariant
            i <= v@.len(),
            r@.len() == i,
            forall|k: int| 0 <= k < i ==> (#[trigger] v@[k]).clone_agrees(&r@[k]),
        decreases v@.len() - i,
    {
        let x = v[i].clone();
        r.push(x);
        i = i + 1;
    }
    r
}

/// A copy of each item of `v`, in order: item `i` of the result is what `clone` gives for
/// item `i` of `v`.
pub(crate) fn clone_vec_issuing_card(v: &Vec<IssuingCard>) -> (r: Vec<IssuingCard>)
    ensures
        r@.len() == v@.len(),
        forall|i: int| 0 <= i < v@.len() ==> (#[trigger] v@[i]).clone_agrees(&r@[i]),
    decreases v,
{
    let mut r: Vec<IssuingCard> = Vec::new();
    let mut i: usize = 0;
    while i < v.len()
        invariant
            i <= v@.len(),
            r@.len() == i,
            forall|k: int| 0 <= k < i ==> (#[trigger] v@[k]).clone_agrees(&r@[k]),
        decreases v@.len() - i,
    {
        let x = v[i].clone();
        r.push(x);
        i = i + 1;
    }
    r
}

/// A copy of each item of `v`, in order: item `i` of the result is what `clone` gives for
/// item `i` of `v`.
pub(crate) fn clone_vec_issuing_dispute(v: &Vec<IssuingDispute>) -> (r: Vec<IssuingDispute>)
    ensures
        r@.len() == v@.len(),
        forall|i: int| 0 <= i < v@.len() ==> (#[trigger] v@[i]).clone_agrees(&r@[i]),
    decreases v,
{
    let mut r: Vec<IssuingDispute> = Vec::new();
    let mut i: usize = 0;
    while i < v.len()
        invariant
            i <= v@.len(),
            r@.len() == i,
            forall|k: int| 0 <= k < i ==> (#[trigger] v@[k]).clone_agrees(&r@[k]),
        decreases v@.len() - i,
    {
        let x = v[i].clone();
        r.push(x);
        i = i + 1;
    }
    r
}

/// A copy of each item of `v`, in order: item `i` of the result is what `clone` gives for
/// item `i` of `v`.
pub(crate) fn clone_vec_order(v: &Vec<Order>) -> (r: Vec<Order>)
    ensures
        r@.len() == v@.len(),
        forall|i: int| 0 <= i < v@.len() ==> (#[trigger] v@[i]).clone_agrees(&r@[i]),
    decreases v,
{
    let mut r: Vec<Order> = Vec::new();
    let mut i: usize = 0;
    while i < v.len()
        invariant
            i <= v@.len(),
            r@.len() == i,
            forall|k: int| 0 <= k < i ==> (#[trigger] v@[k]).clone_agrees(&r@[k]),
        decreases v@.len() - i,
    {
        let x = v[i].clone();
        r.push(x);
        i = i + 1;
    }
    r
}

/// A copy of each item of `v`, in order: item `i` of the result is what `clone` gives for
/// item `i` of `v`.
pub(crate) fn clone_vec_payment_intent(v: &Vec<PaymentIntent>) -> (r: Vec<PaymentIntent>)
    ensures
        r@.len() == v@.len(),
        forall|i: int| 0 <= i < v@.len() ==> (#[trigger] v@[i]).clone_agrees(&r@[i]),
    decreases v,
{
    let mut r: Vec<PaymentIntent> = Vec::new();
    let mut i: usize = 0;
    while i < v.len()
        invariant
            i <= v@.len(),
            r@.len() == i,
            forall|k: int| 0 <= k < i ==> (#[trigger] v@[k]).clone_agrees(&r@[k]),
        decreases v@.len() - i,
    {
        let x = v[i].clone();
        r.push(x);
        i = i + 1;
    }
    r
}

/// A copy of each item of `v`, in order: item `i` of the result is what `clone` gives for
/// item `i` of `v`.
pub(crate) fn clone_vec_payment_method(v: &Vec<PaymentMethod>) -> (r: Vec<PaymentMethod>)
    ensures
        r@.len() == v@.len(),
        forall|i: int| 0 <= i < v@.len() ==> (#[trigger] v@[i]).clone_agrees(&r@[i]),
    decreases v,
{
    let mut r: Vec<PaymentMethod> = Vec::new();
    let mut i: usize = 0;
    while i < v.len()
        invariant
            i <= v@.len(),
            r@.len() == i,
            forall|k: int| 0 <= k < i ==> (#[trigger] v@[k]).clone_agrees(&r@[k]),
        decreases v@.len() - i,
    {
        let x = v[i].clone();
        r.push(x);
        i = i + 1;
    }
    r
}

/// A copy of each item of `v`, in order: item `i` of the result is what `clone` gives for
/// item `i` of `v`.
pub(crate) fn clone_vec_payout(v: &Vec<Payout>) -> (r: Vec<Payout>)
    ensures
        r@.len() == v@.len(),
        forall|i: int| 0 <= i < v@.len() ==> (#[trigger] v@[i]).clone_agrees(&r@[i]),
    decreases v,
{
    let mut r: Vec<Payout> = Vec::new();
    let mut i: usize = 0;
    while i < v.len()
        invariant
            i <= v@.len(),
            r@.len() == i,
            forall|k: int| 0 <= k < i ==> (#[trigger] v@[k]).clone_agrees(&r@[k]),
        decreases v@.len() - i,
    {
        let x = v[i].clone();
        r.push(x);
        i = i + 1;
    }
    r
}

/// A copy of each item of `v`, in order: item `i` of the result is what `clone` gives for
/// item `i` of `v`.
pub(crate) fn clone_vec_promotion_code(v: &Vec<PromotionCode>) -> (r: Vec<PromotionCode>)
    ensures
        r@.len() == v@.len(),
        forall|i: int| 0 <= i < v@.len() ==> (#[trigger] v@[i]).clone_agrees(&r@[i]),
    decreases v,
{
    let mut r: Vec<PromotionCode> = Vec::new();
    let mut i: usize = 0;
    while i < v.len()
        invariant
            i <= v@.len(),
            r@.len() == i,
            forall|k: int| 0 <= k < i ==> (#[trigger] v@[k]).clone_agrees(&r@[k]),
        decreases v@.len() - i,
    {
        let x = v[i].clone();
        r.push(x);
        i = i + 1;
    }
    r
}

/// A copy of each item of `v`, in order: item `i` of the result is what `clone` gives for
/// item `i` of `v`.
pub(crate) fn clone_vec_radar_early_fraud_warning(v: &Vec<RadarEarlyFraudWarning>) -> (r: Vec<RadarEarlyFraudWarning>)
    ensures
        r@.len() == v@.len(),
        forall|i: int| 0 <= i < v@.len() ==> (#[trigger] v@[i]).clone_agrees(&r@[i]),
    decreases v,
{
    let mut r: Vec<RadarEarlyFraudWarning> = Vec::new();
    let mut i: usize = 0;
    while i < v.len()
        invariant
            i <= v@.len(),
            r@.len() == i,
            forall|k: int| 0 <= k < i ==> (#[trigger] v@[k]).clone_agrees(&r@[k]),
        decreases v@.len() - i,
    {
        let x = v[i].clone();
        r.push(x);
        i = i + 1;
    }
    r
}

/// A copy of each item of `v`, in order: item `i` of the result is what `clone` gives for
/// item `i` of `v`.
pub(crate) fn clone_vec_transfer_recipient(v: &Vec<TransferRecipient>) -> (r: Vec<TransferRecipient>)
    ensures
        r@.len() == v@.len(),
        forall|i: int| 0 <= i < v@.len() ==> (#[trigger] v@[i]).clone_agrees(&r@[i]),
    decreases v,
{
    let mut r: Vec<TransferRecipient> = Vec::new();
    let mut i: usize = 0;
    while i < v.len()
        invariant
            i <= v@.len(),
            r@.len() == i,
            forall|k: int| 0 <= k < i ==> (#[trigger] v@[k]).clone_agrees(&r@[k]),
        decreases v@.len() - i,
    {
        let x = v[i].clone();
        r.push(x);
        i = i + 1;
    }
    r
}

/// A copy of each item of `v`, in order: item `i` of the result is what `clone` gives for
/// item `i` of `v`.
pub(crate) fn clone_vec_reporting_report_run(v: &Vec<ReportingReportRun>) -> (r: Vec<ReportingReportRun>)
    ensures
        r@.len() == v@.len(),
        forall|i: int| 0 <= i < v@.len() ==> (#[trigger] v@[i]).clone_agrees(&r@[i]),
    decreases v,
{
    let mut r: Vec<ReportingReportRun> = Vec::new();
    let mut i: usize = 0;
    while i < v.len()
        invariant
            i <= v@.len(),
            r@.len() == i,
            forall|k: int| 0 <= k < i ==> (#[trigger] v@[k]).clone_agrees(&r@[k]),
        decreases v@.len() - i,
    {
        let x = v[i].clone();
        r.push(x);
        i = i + 1;
    }
    r
}

/// A copy of each item of `v`, in order: item `i` of the result is what `clone` gives for
/// item `i` of `v`.
pub(crate) fn clone_vec_radar_review(v: &Vec<RadarReview>) -> (r: Vec<RadarReview>)
    ensures
        r@.len() == v@.len(),
        forall|i: int| 0 <= i < v@.len() ==> (#[trigger] v@[i]).clone_agrees(&r@[i]),
    decreases v,
{
    let mut r: Vec<RadarReview> = Vec::new();
    let mut i: usize = 0;
    while i < v.len()
        invariant
            i <= v@.len(),
            r@.len() == i,
            forall|k: int| 0 <= k < i ==> (#[trigger] v@[k]).clone_agrees(&r@[k]),
        decreases v@.len() - i,
    {
        let x = v[i].clone();
        r.push(x);
        i = i + 1;
    }
    r
}

/// A copy of each item of `v`, in order: item `i` of the result is what `clone` gives for
/// item `i` of `v`.
pub(crate) fn clone_vec_payment_flows_setup_intent_setup_attempt(v: &Vec<PaymentFlowsSetupIntentSetupAttempt>) -> (r: Vec<PaymentFlowsSetupIntentSetupAttempt>)
    ensures
        r@.len() == v@.len(),
        forall|i: int| 0 <= i < v@.len() ==> (#[trigger] v@[i]).clone_agrees(&r@[i]),
    decreases v,
{
    let mut r: Vec<PaymentFlowsSetupIntentSetupAttempt> = Vec::new();
    let mut i: usize = 0;
    while i < v.len()
        invariant
            i <= v@.len(),
            r@.len() == i,
            forall|k: int| 0 <= k < i ==> (#[trigger] v@[k]).clone_agrees(&r@[k]),
        decreases v@.len() - i,
    {
        let x = v[i].clone();
        r.push(x);
        i = i + 1;
    }
    r
}

/// A copy of each item of `v`, in order: item `i` of the result is what `clone` gives for
/// item `i` of `v`.
pub(crate) fn clone_vec_setup_intent(v: &Vec<SetupIntent>) -> (r: Vec<SetupIntent>)
    ensures
        r@.len() == v@.len(),
        forall|i: int| 0 <= i < v@.len() ==> (#[trigger] v@[i]).clone_agrees(&r@[i]),
    decreases v,
{
    let mut r: Vec<SetupIntent> = Vec::new();
    let mut i: usize = 0;
    while i < v.len()
        invariant
            i <= v@.len(),
            r@.len() == i,
            forall|k: int| 0 <= k < i ==> (#[trigger] v@[k]).clone_agrees(&r@[k]),
        decreases v@.len() - i,
    {
        let x = v[i].clone();
        r.push(x);
        i = i + 1;
    }
    r
}

/// A copy of each item of `v`, in order: item `i` of the result is what `clone` gives for
/// item `i` of `v`.
pub(crate) fn clone_vec_scheduled_query_run(v: &Vec<ScheduledQueryRun>) -> (r: Vec<ScheduledQueryRun>)
    ensures
        r@.len() == v@.len(),
        forall|i: int| 0 <= i < v@.len() ==> (#[trigger] v@[i]).clone_agrees(&r@[i]),
    decreases v,
{
    let mut r: Vec<ScheduledQueryRun> = Vec::new();
    let mut i: usize = 0;
    while i < v.len()
        invariant
            i <= v@.len(),
            r@.len() == i,
            forall|k: int| 0 <= k < i ==> (#[trigger] v@[k]).clone_agrees(&r@[k]),
        decreases v@.len() - i,
    {
        let x = v[i].clone();
        r.push(x);
        i = i + 1;
    }
    r
}

/// A copy of each item of `v`, in order: item `i` of the result is what `clone` gives for
/// item `i` of `v`.
pub(crate) fn clone_vec_subscription_schedule(v: &Vec<SubscriptionSchedule>) -> (r: Vec<SubscriptionSchedule>)
    ensures
        r@.len() == v@.len(),
        forall|i: int| 0 <= i < v@.len() ==> (#[trigger] v@[i]).clone_agrees(&r@[i]),
    decreases v,
{
    let mut r: Vec<SubscriptionSchedule> = Vec::new();
    let mut i: usize = 0;
    while i < v.len()
        invariant
            i <= v@.len(),
            r@.len() == i,
            forall|k: int| 0 <= k < i ==> (#[trigger] v@[k]).clone_agrees(&r@[k]),
        decreases v@.len() - i,
    {
        let x = v[i].clone();
        r.push(x);
        i = i + 1;
    }
    r
}

/// A copy of each item of `v`, in order: item `i` of the result is what `clone` gives for
/// item `i` of `v`.
pub(crate) fn clone_vec_topup(v: &Vec<Topup>) -> (r: Vec<Topup>)
    ensures
        r@.len() == v@.len(),
        forall|i: int| 0 <= i < v@.len() ==> (#[trigger] v@[i]).clone_agrees(&r@[i]),
    decreases v,
{
    let mut r: Vec<Topup> = Vec::new();
    let mut i: usize = 0;
    while i < v.len()
        invariant
            i <= v@.len(),
            r@.len() == i,
            forall|k: int| 0 <= k < i ==> (#[trigger] v@[k]).clone_agrees(&r@[k]),
        decreases v@.len() - i,
    {
        let x = v[i].clone();
        r.push(x);
        i = i + 1;
    }
    r
}

/// A copy of each item of `v`, in order: item `i` of the result is what `clone` gives for
/// item `i` of `v`.
pub(crate) fn clone_vec_transfer(v: &Vec<Transfer>) -> (r: Vec<Transfer>)
    ensures
        r@.len() == v@.len(),
        forall|i: int| 0 <= i < v@.len() ==> (#[trigger] v@[i]).clone_agrees(&r@[i]),
    decreases v,
{
    let mut r: Vec<Transfer> = Vec::new();
    let mut i: usize = 0;
    while i < v.len()
        invariant
            i <= v@.len(),
            r@.len() == i,
            forall|k: int| 0 <= k < i ==> (#[trigger] v@[k]).clone_agrees(&r@[k]),
        decreases v@.len() - i,
    {
        let x = v[i].clone();
        r.push(x);
        i = i + 1;
    }
    r
}

} // verus!
