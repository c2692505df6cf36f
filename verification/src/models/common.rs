//! Wire vocabularies and shared data shapes: the enum families with
//! their exact wire spellings, identifiers, prices, buyers, pagination
//! shapes, and the typed readers for timestamp and identifier fields.

use vstd::prelude::*;
use vstd::string::StrSliceExecFns;
use crate::strutil::str_eq;
use crate::json::{
    JsonValue, JsonModel, WireNumber, spec_field, field, spec_req_str, req_str, spec_opt_str,
    opt_str, spec_opt_num, opt_num, spec_req_num, req_num, spec_json_matches, spec_entries_match,
    lemma_entries_match_push,
};
use crate::http::{spec_url_parse, parse_url};
use crate::error::LavaTopError;
use crate::date::{UtcTimestamp, spec_parse_rfc3339, parse_rfc3339};

verus! {

/// Settlement currency of a purchase; a closed wire vocabulary.
#[derive(Debug, Clone, Copy, PartialEq, Eq, Hash, Structural)]
pub enum CurrencyDto {
    Rub,
    Usd,
    Eur,
}

impl CurrencyDto {
    /// The wire spelling of each variant.
    pub open spec fn spec_wire_name(self) -> Seq<char> {
        match self {
            CurrencyDto::Rub => "RUB"@,
            CurrencyDto::Usd => "USD"@,
            CurrencyDto::Eur => "EUR"@,
        }
    }

    pub fn wire_name(&self) -> (r: String)
        ensures
            r@ == self.spec_wire_name(),
    {
        match self {
            CurrencyDto::Rub => "RUB".to_owned(),
            CurrencyDto::Usd => "USD".to_owned(),
            CurrencyDto::Eur => "EUR".to_owned(),
        }
    }

    /// The variant a wire string denotes; an unrecognized string is
    /// rejected, this vocabulary being closed.
    pub open spec fn spec_from_wire(s: Seq<char>) -> Option<CurrencyDto> {
        if s == "RUB"@ {
            Some(CurrencyDto::Rub)
        } else if s == "USD"@ {
            Some(CurrencyDto::Usd)
        } else if s == "EUR"@ {
            Some(CurrencyDto::Eur)
        } else {
            None
        }
    }

    pub fn from_wire(s: &str) -> (r: Option<CurrencyDto>)
        ensures
            r == CurrencyDto::spec_from_wire(s@),
    {
        if str_eq(s, "RUB") {
            Some(CurrencyDto::Rub)
        } else if str_eq(s, "USD") {
            Some(CurrencyDto::Usd)
        } else if str_eq(s, "EUR") {
            Some(CurrencyDto::Eur)
        } else {
            None
        }
    }
}

impl core::default::Default for CurrencyDto {
    fn default() -> (r: Self)
        ensures
            r == CurrencyDto::Rub,
    {
        CurrencyDto::Rub
    }
}

/// Buyer notification language; a closed wire vocabulary.
#[derive(Debug, Clone, Copy, PartialEq, Eq, Hash, Structural)]
pub enum LanguageDto {
    En,
    Ru,
    Es,
}

impl LanguageDto {
    /// The wire spelling of each variant.
    pub open spec fn spec_wire_name(self) -> Seq<char> {
        match self {
            LanguageDto::En => "EN"@,
            LanguageDto::Ru => "RU"@,
            LanguageDto::Es => "ES"@,
        }
    }

    pub fn wire_name(&self) -> (r: String)
        ensures
            r@ == self.spec_wire_name(),
    {
        match self {
            LanguageDto::En => "EN".to_owned(),
            LanguageDto::Ru => "RU".to_owned(),
            LanguageDto::Es => "ES".to_owned(),
        }
    }

    /// The variant a wire string denotes; an unrecognized string is
    /// rejected, this vocabulary being closed.
    pub open spec fn spec_from_wire(s: Seq<char>) -> Option<LanguageDto> {
        if s == "EN"@ {
            Some(LanguageDto::En)
        } else if s == "RU"@ {
            Some(LanguageDto::Ru)
        } else if s == "ES"@ {
            Some(LanguageDto::Es)
        } else {
            None
        }
    }

    pub fn from_wire(s: &str) -> (r: Option<LanguageDto>)
        ensures
            r == LanguageDto::spec_from_wire(s@),
    {
        if str_eq(s, "EN") {
            Some(LanguageDto::En)
        } else if str_eq(s, "RU") {
            Some(LanguageDto::Ru)
        } else if str_eq(s, "ES") {
            Some(LanguageDto::Es)
        } else {
            None
        }
    }
}

impl core::default::Default for LanguageDto {
    fn default() -> (r: Self)
        ensures
            r == LanguageDto::En,
    {
        LanguageDto::En
    }
}

/// Payment provider; a closed wire vocabulary.
#[derive(Debug, Clone, Copy, PartialEq, Eq, Hash, Structural)]
pub enum PaymentMethod {
    Bank131,
    Unlimint,
    Paypal,
    Stripe,
}

impl PaymentMethod {
    /// The wire spelling of each variant.
    pub open spec fn spec_wire_name(self) -> Seq<char> {
        match self {
            PaymentMethod::Bank131 => "BANK131"@,
            PaymentMethod::Unlimint => "UNLIMINT"@,
            PaymentMethod::Paypal => "PAYPAL"@,
            PaymentMethod::Stripe => "STRIPE"@,
        }
    }

    pub fn wire_name(&self) -> (r: String)
        ensures
            r@ == self.spec_wire_name(),
    {
        match self {
            PaymentMethod::Bank131 => "BANK131".to_owned(),
            PaymentMethod::Unlimint => "UNLIMINT".to_owned(),
            PaymentMethod::Paypal => "PAYPAL".to_owned(),
            PaymentMethod::Stripe => "STRIPE".to_owned(),
        }
    }

    /// The variant a wire string denotes; an unrecognized string is
    /// rejected, this vocabulary being closed.
    pub open spec fn spec_from_wire(s: Seq<char>) -> Option<PaymentMethod> {
        if s == "BANK131"@ {
            Some(PaymentMethod::Bank131)
        } else if s == "UNLIMINT"@ {
            Some(PaymentMethod::Unlimint)
        } else if s == "PAYPAL"@ {
            Some(PaymentMethod::Paypal)
        } else if s == "STRIPE"@ {
            Some(PaymentMethod::Stripe)
        } else {
            None
        }
    }

    pub fn from_wire(s: &str) -> (r: Option<PaymentMethod>)
        ensures
            r == PaymentMethod::spec_from_wire(s@),
    {
        if str_eq(s, "BANK131") {
            Some(PaymentMethod::Bank131)
        } else if str_eq(s, "UNLIMINT") {
            Some(PaymentMethod::Unlimint)
        } else if str_eq(s, "PAYPAL") {
            Some(PaymentMethod::Paypal)
        } else if str_eq(s, "STRIPE") {
            Some(PaymentMethod::Stripe)
        } else {
            None
        }
    }
}

/// Billing cadence of a subscription offer; a closed wire vocabulary.
#[derive(Debug, Clone, Copy, PartialEq, Eq, Hash, Structural)]
pub enum Periodicity {
    OneTime,
    Monthly,
    Period90Days,
    Period180Days,
    PeriodYear,
}

impl Periodicity {
    /// The wire spelling of each variant.
    pub open spec fn spec_wire_name(self) -> Seq<char> {
        match self {
            Periodicity::OneTime => "ONE_TIME"@,
            Periodicity::Monthly => "MONTHLY"@,
            Periodicity::Period90Days => "PERIOD90_DAYS"@,
            Periodicity::Period180Days => "PERIOD180_DAYS"@,
            Periodicity::PeriodYear => "PERIOD_YEAR"@,
        }
    }

    pub fn wire_name(&self) -> (r: String)
        ensures
            r@ == self.spec_wire_name(),
    {
        match self {
            Periodicity::OneTime => "ONE_TIME".to_owned(),
            Periodicity::Monthly => "MONTHLY".to_owned(),
            Periodicity::Period90Days => "PERIOD90_DAYS".to_owned(),
            Periodicity::Period180Days => "PERIOD180_DAYS".to_owned(),
            Periodicity::PeriodYear => "PERIOD_YEAR".to_owned(),
        }
    }

    /// The variant a wire string denotes; an unrecognized string is
    /// rejected, this vocabulary being closed.
    pub open spec fn spec_from_wire(s: Seq<char>) -> Option<Periodicity> {
        if s == "ONE_TIME"@ {
            Some(Periodicity::OneTime)
        } else if s == "MONTHLY"@ {
            Some(Periodicity::Monthly)
        } else if s == "PERIOD90_DAYS"@ {
            Some(Periodicity::Period90Days)
        } else if s == "PERIOD180_DAYS"@ {
            Some(Periodicity::Period180Days)
        } else if s == "PERIOD_YEAR"@ {
            Some(Periodicity::PeriodYear)
        } else {
            None
        }
    }

    pub fn from_wire(s: &str) -> (r: Option<Periodicity>)
        ensures
            r == Periodicity::spec_from_wire(s@),
    {
        if str_eq(s, "ONE_TIME") {
            Some(Periodicity::OneTime)
        } else if str_eq(s, "MONTHLY") {
            Some(Periodicity::Monthly)
        } else if str_eq(s, "PERIOD90_DAYS") {
            Some(Periodicity::Period90Days)
        } else if str_eq(s, "PERIOD180_DAYS") {
            Some(Periodicity::Period180Days)
        } else if str_eq(s, "PERIOD_YEAR") {
            Some(Periodicity::PeriodYear)
        } else {
            None
        }
    }
}

/// Lifecycle status of a contract, in kebab-case on the wire; unrecognized wire values fall back to `Unknown`.
#[derive(Debug, Clone, Copy, PartialEq, Eq, Hash, Structural)]
pub enum ContractStatusDto {
    New,
    InProgress,
    Completed,
    Failed,
    Cancelled,
    SubscriptionActive,
    SubscriptionExpired,
    SubscriptionCancelled,
    SubscriptionFailed,
    Unknown,
}

impl ContractStatusDto {
    /// The wire spelling of each variant.
    pub open spec fn spec_wire_name(self) -> Seq<char> {
        match self {
            ContractStatusDto::New => "new"@,
            ContractStatusDto::InProgress => "in-progress"@,
            ContractStatusDto::Completed => "completed"@,
            ContractStatusDto::Failed => "failed"@,
            ContractStatusDto::Cancelled => "cancelled"@,
            ContractStatusDto::SubscriptionActive => "subscription-active"@,
            ContractStatusDto::SubscriptionExpired => "subscription-expired"@,
            ContractStatusDto::SubscriptionCancelled => "subscription-cancelled"@,
            ContractStatusDto::SubscriptionFailed => "subscription-failed"@,
            ContractStatusDto::Unknown => "unknown"@,
        }
    }

    pub fn wire_name(&self) -> (r: String)
        ensures
            r@ == self.spec_wire_name(),
    {
        match self {
            ContractStatusDto::New => "new".to_owned(),
            ContractStatusDto::InProgress => "in-progress".to_owned(),
            ContractStatusDto::Completed => "completed".to_owned(),
            ContractStatusDto::Failed => "failed".to_owned(),
            ContractStatusDto::Cancelled => "cancelled".to_owned(),
            ContractStatusDto::SubscriptionActive => "subscription-active".to_owned(),
            ContractStatusDto::SubscriptionExpired => "subscription-expired".to_owned(),
            ContractStatusDto::SubscriptionCancelled => "subscription-cancelled".to_owned(),
            ContractStatusDto::SubscriptionFailed => "subscription-failed".to_owned(),
            ContractStatusDto::Unknown => "unknown".to_owned(),
        }
    }

    /// The variant a wire string denotes; any unrecognized string
    /// falls back to `Unknown`, so decoding never fails.
    pub open spec fn spec_from_wire(s: Seq<char>) -> ContractStatusDto {
        if s == "new"@ {
            ContractStatusDto::New
        } else if s == "in-progress"@ {
            ContractStatusDto::InProgress
        } else if s == "completed"@ {
            ContractStatusDto::Completed
        } else if s == "failed"@ {
            ContractStatusDto::Failed
        } else if s == "cancelled"@ {
            ContractStatusDto::Cancelled
        } else if s == "subscription-active"@ {
            ContractStatusDto::SubscriptionActive
        } else if s == "subscription-expired"@ {
            ContractStatusDto::SubscriptionExpired
        } else if s == "subscription-cancelled"@ {
            ContractStatusDto::SubscriptionCancelled
        } else if s == "subscription-failed"@ {
            ContractStatusDto::SubscriptionFailed
        } else {
            ContractStatusDto::Unknown
        }
    }

    pub fn from_wire(s: &str) -> (r: ContractStatusDto)
        ensures
            r == ContractStatusDto::spec_from_wire(s@),
    {
        if str_eq(s, "new") {
            ContractStatusDto::New
        } else if str_eq(s, "in-progress") {
            ContractStatusDto::InProgress
        } else if str_eq(s, "completed") {
            ContractStatusDto::Completed
        } else if str_eq(s, "failed") {
            ContractStatusDto::Failed
        } else if str_eq(s, "cancelled") {
            ContractStatusDto::Cancelled
        } else if str_eq(s, "subscription-active") {
            ContractStatusDto::SubscriptionActive
        } else if str_eq(s, "subscription-expired") {
            ContractStatusDto::SubscriptionExpired
        } else if str_eq(s, "subscription-cancelled") {
            ContractStatusDto::SubscriptionCancelled
        } else if str_eq(s, "subscription-failed") {
            ContractStatusDto::SubscriptionFailed
        } else {
            ContractStatusDto::Unknown
        }
    }
}

/// Status of an invoice; unrecognized wire values fall back to `Unknown`.
#[derive(Debug, Clone, Copy, PartialEq, Eq, Hash, Structural)]
pub enum InvoiceStatus {
    New,
    InProgress,
    Completed,
    Failed,
    Unknown,
}

impl InvoiceStatus {
    /// The wire spelling of each variant.
    pub open spec fn spec_wire_name(self) -> Seq<char> {
        match self {
            InvoiceStatus::New => "NEW"@,
            InvoiceStatus::InProgress => "IN_PROGRESS"@,
            InvoiceStatus::Completed => "COMPLETED"@,
            InvoiceStatus::Failed => "FAILED"@,
            InvoiceStatus::Unknown => "UNKNOWN"@,
        }
    }

    pub fn wire_name(&self) -> (r: String)
        ensures
            r@ == self.spec_wire_name(),
    {
        match self {
            InvoiceStatus::New => "NEW".to_owned(),
            InvoiceStatus::InProgress => "IN_PROGRESS".to_owned(),
            InvoiceStatus::Completed => "COMPLETED".to_owned(),
            InvoiceStatus::Failed => "FAILED".to_owned(),
            InvoiceStatus::Unknown => "UNKNOWN".to_owned(),
        }
    }

    /// The variant a wire string denotes; any unrecognized string
    /// falls back to `Unknown`, so decoding never fails.
    pub open spec fn spec_from_wire(s: Seq<char>) -> InvoiceStatus {
        if s == "NEW"@ {
            InvoiceStatus::New
        } else if s == "IN_PROGRESS"@ {
            InvoiceStatus::InProgress
        } else if s == "COMPLETED"@ {
            InvoiceStatus::Completed
        } else if s == "FAILED"@ {
            InvoiceStatus::Failed
        } else {
            InvoiceStatus::Unknown
        }
    }

    pub fn from_wire(s: &str) -> (r: InvoiceStatus)
        ensures
            r == InvoiceStatus::spec_from_wire(s@),
    {
        if str_eq(s, "NEW") {
            InvoiceStatus::New
        } else if str_eq(s, "IN_PROGRESS") {
            InvoiceStatus::InProgress
        } else if str_eq(s, "COMPLETED") {
            InvoiceStatus::Completed
        } else if str_eq(s, "FAILED") {
            InvoiceStatus::Failed
        } else {
            InvoiceStatus::Unknown
        }
    }
}

/// Whether an invoice is a one-off purchase or a recurring charge.
#[derive(Debug, Clone, Copy, PartialEq, Eq, Hash, Structural)]
pub enum InvoiceType {
    OneTime,
    Recurring,
}

impl InvoiceType {
    /// The wire spelling of each variant.
    pub open spec fn spec_wire_name(self) -> Seq<char> {
        match self {
            InvoiceType::OneTime => "ONE_TIME"@,
            InvoiceType::Recurring => "RECURRING"@,
        }
    }

    pub fn wire_name(&self) -> (r: String)
        ensures
            r@ == self.spec_wire_name(),
    {
        match self {
            InvoiceType::OneTime => "ONE_TIME".to_owned(),
            InvoiceType::Recurring => "RECURRING".to_owned(),
        }
    }

    /// The variant a wire string denotes; an unrecognized string is
    /// rejected, this vocabulary being closed.
    pub open spec fn spec_from_wire(s: Seq<char>) -> Option<InvoiceType> {
        if s == "ONE_TIME"@ {
            Some(InvoiceType::OneTime)
        } else if s == "RECURRING"@ {
            Some(InvoiceType::Recurring)
        } else {
            None
        }
    }

    pub fn from_wire(s: &str) -> (r: Option<InvoiceType>)
        ensures
            r == InvoiceType::spec_from_wire(s@),
    {
        if str_eq(s, "ONE_TIME") {
            Some(InvoiceType::OneTime)
        } else if str_eq(s, "RECURRING") {
            Some(InvoiceType::Recurring)
        } else {
            None
        }
    }
}

/// Status of a subscription attached to an invoice.
#[derive(Debug, Clone, Copy, PartialEq, Eq, Hash, Structural)]
pub enum SubscriptionStatus {
    Active,
    Cancelled,
    Failed,
}

impl SubscriptionStatus {
    /// The wire spelling of each variant.
    pub open spec fn spec_wire_name(self) -> Seq<char> {
        match self {
            SubscriptionStatus::Active => "ACTIVE"@,
            SubscriptionStatus::Cancelled => "CANCELLED"@,
            SubscriptionStatus::Failed => "FAILED"@,
        }
    }

    pub fn wire_name(&self) -> (r: String)
        ensures
            r@ == self.spec_wire_name(),
    {
        match self {
            SubscriptionStatus::Active => "ACTIVE".to_owned(),
            SubscriptionStatus::Cancelled => "CANCELLED".to_owned(),
            SubscriptionStatus::Failed => "FAILED".to_owned(),
        }
    }

    /// The variant a wire string denotes; an unrecognized string is
    /// rejected, this vocabulary being closed.
    pub open spec fn spec_from_wire(s: Seq<char>) -> Option<SubscriptionStatus> {
        if s == "ACTIVE"@ {
            Some(SubscriptionStatus::Active)
        } else if s == "CANCELLED"@ {
            Some(SubscriptionStatus::Cancelled)
        } else if s == "FAILED"@ {
            Some(SubscriptionStatus::Failed)
        } else {
            None
        }
    }

    pub fn from_wire(s: &str) -> (r: Option<SubscriptionStatus>)
        ensures
            r == SubscriptionStatus::spec_from_wire(s@),
    {
        if str_eq(s, "ACTIVE") {
            Some(SubscriptionStatus::Active)
        } else if str_eq(s, "CANCELLED") {
            Some(SubscriptionStatus::Cancelled)
        } else if str_eq(s, "FAILED") {
            Some(SubscriptionStatus::Failed)
        } else {
            None
        }
    }
}

/// Kind of a feed entry.
#[derive(Debug, Clone, Copy, PartialEq, Eq, Hash, Structural)]
pub enum FeedItemType {
    Post,
    Product,
}

impl FeedItemType {
    /// The wire spelling of each variant.
    pub open spec fn spec_wire_name(self) -> Seq<char> {
        match self {
            FeedItemType::Post => "POST"@,
            FeedItemType::Product => "PRODUCT"@,
        }
    }

    pub fn wire_name(&self) -> (r: String)
        ensures
            r@ == self.spec_wire_name(),
    {
        match self {
            FeedItemType::Post => "POST".to_owned(),
            FeedItemType::Product => "PRODUCT".to_owned(),
        }
    }

    /// The variant a wire string denotes; an unrecognized string is
    /// rejected, this vocabulary being closed.
    pub open spec fn spec_from_wire(s: Seq<char>) -> Option<FeedItemType> {
        if s == "POST"@ {
            Some(FeedItemType::Post)
        } else if s == "PRODUCT"@ {
            Some(FeedItemType::Product)
        } else {
            None
        }
    }

    pub fn from_wire(s: &str) -> (r: Option<FeedItemType>)
        ensures
            r == FeedItemType::spec_from_wire(s@),
    {
        if str_eq(s, "POST") {
            Some(FeedItemType::Post)
        } else if str_eq(s, "PRODUCT") {
            Some(FeedItemType::Product)
        } else {
            None
        }
    }
}

/// Kind of a product.
#[derive(Debug, Clone, Copy, PartialEq, Eq, Hash, Structural)]
pub enum ProductType {
    Course,
    DigitalProduct,
    Book,
    Guide,
    Subscription,
    Audio,
    Mods,
    Consultation,
}

impl ProductType {
    /// The wire spelling of each variant.
    pub open spec fn spec_wire_name(self) -> Seq<char> {
        match self {
            ProductType::Course => "COURSE"@,
            ProductType::DigitalProduct => "DIGITAL_PRODUCT"@,
            ProductType::Book => "BOOK"@,
            ProductType::Guide => "GUIDE"@,
            ProductType::Subscription => "SUBSCRIPTION"@,
            ProductType::Audio => "AUDIO"@,
            ProductType::Mods => "MODS"@,
            ProductType::Consultation => "CONSULTATION"@,
        }
    }

    pub fn wire_name(&self) -> (r: String)
        ensures
            r@ == self.spec_wire_name(),
    {
        match self {
            ProductType::Course => "COURSE".to_owned(),
            ProductType::DigitalProduct => "DIGITAL_PRODUCT".to_owned(),
            ProductType::Book => "BOOK".to_owned(),
            ProductType::Guide => "GUIDE".to_owned(),
            ProductType::Subscription => "SUBSCRIPTION".to_owned(),
            ProductType::Audio => "AUDIO".to_owned(),
            ProductType::Mods => "MODS".to_owned(),
            ProductType::Consultation => "CONSULTATION".to_owned(),
        }
    }

    /// The variant a wire string denotes; an unrecognized string is
    /// rejected, this vocabulary being closed.
    pub open spec fn spec_from_wire(s: Seq<char>) -> Option<ProductType> {
        if s == "COURSE"@ {
            Some(ProductType::Course)
        } else if s == "DIGITAL_PRODUCT"@ {
            Some(ProductType::DigitalProduct)
        } else if s == "BOOK"@ {
            Some(ProductType::Book)
        } else if s == "GUIDE"@ {
            Some(ProductType::Guide)
        } else if s == "SUBSCRIPTION"@ {
            Some(ProductType::Subscription)
        } else if s == "AUDIO"@ {
            Some(ProductType::Audio)
        } else if s == "MODS"@ {
            Some(ProductType::Mods)
        } else if s == "CONSULTATION"@ {
            Some(ProductType::Consultation)
        } else {
            None
        }
    }

    pub fn from_wire(s: &str) -> (r: Option<ProductType>)
        ensures
            r == ProductType::spec_from_wire(s@),
    {
        if str_eq(s, "COURSE") {
            Some(ProductType::Course)
        } else if str_eq(s, "DIGITAL_PRODUCT") {
            Some(ProductType::DigitalProduct)
        } else if str_eq(s, "BOOK") {
            Some(ProductType::Book)
        } else if str_eq(s, "GUIDE") {
            Some(ProductType::Guide)
        } else if str_eq(s, "SUBSCRIPTION") {
            Some(ProductType::Subscription)
        } else if str_eq(s, "AUDIO") {
            Some(ProductType::Audio)
        } else if str_eq(s, "MODS") {
            Some(ProductType::Mods)
        } else if str_eq(s, "CONSULTATION") {
            Some(ProductType::Consultation)
        } else {
            None
        }
    }
}

/// Visibility filter for feed listings.
#[derive(Debug, Clone, Copy, PartialEq, Eq, Hash, Structural)]
pub enum FeedVisibility {
    All,
    OnlyVisible,
    OnlyHidden,
}

impl FeedVisibility {
    /// The wire spelling of each variant.
    pub open spec fn spec_wire_name(self) -> Seq<char> {
        match self {
            FeedVisibility::All => "ALL"@,
            FeedVisibility::OnlyVisible => "ONLY_VISIBLE"@,
            FeedVisibility::OnlyHidden => "ONLY_HIDDEN"@,
        }
    }

    pub fn wire_name(&self) -> (r: String)
        ensures
            r@ == self.spec_wire_name(),
    {
        match self {
            FeedVisibility::All => "ALL".to_owned(),
            FeedVisibility::OnlyVisible => "ONLY_VISIBLE".to_owned(),
            FeedVisibility::OnlyHidden => "ONLY_HIDDEN".to_owned(),
        }
    }

    /// The variant a wire string denotes; an unrecognized string is
    /// rejected, this vocabulary being closed.
    pub open spec fn spec_from_wire(s: Seq<char>) -> Option<FeedVisibility> {
        if s == "ALL"@ {
            Some(FeedVisibility::All)
        } else if s == "ONLY_VISIBLE"@ {
            Some(FeedVisibility::OnlyVisible)
        } else if s == "ONLY_HIDDEN"@ {
            Some(FeedVisibility::OnlyHidden)
        } else {
            None
        }
    }

    pub fn from_wire(s: &str) -> (r: Option<FeedVisibility>)
        ensures
            r == FeedVisibility::spec_from_wire(s@),
    {
        if str_eq(s, "ALL") {
            Some(FeedVisibility::All)
        } else if str_eq(s, "ONLY_VISIBLE") {
            Some(FeedVisibility::OnlyVisible)
        } else if str_eq(s, "ONLY_HIDDEN") {
            Some(FeedVisibility::OnlyHidden)
        } else {
            None
        }
    }
}

impl core::default::Default for FeedVisibility {
    fn default() -> (r: Self)
        ensures
            r == FeedVisibility::OnlyVisible,
    {
        FeedVisibility::OnlyVisible
    }
}

/// Kind of a post.
#[derive(Debug, Clone, Copy, PartialEq, Eq, Hash, Structural)]
pub enum PostType {
    Lesson,
    Post,
}

impl PostType {
    /// The wire spelling of each variant.
    pub open spec fn spec_wire_name(self) -> Seq<char> {
        match self {
            PostType::Lesson => "LESSON"@,
            PostType::Post => "POST"@,
        }
    }

    pub fn wire_name(&self) -> (r: String)
        ensures
            r@ == self.spec_wire_name(),
    {
        match self {
            PostType::Lesson => "LESSON".to_owned(),
            PostType::Post => "POST".to_owned(),
        }
    }

    /// The variant a wire string denotes; an unrecognized string is
    /// rejected, this vocabulary being closed.
    pub open spec fn spec_from_wire(s: Seq<char>) -> Option<PostType> {
        if s == "LESSON"@ {
            Some(PostType::Lesson)
        } else if s == "POST"@ {
            Some(PostType::Post)
        } else {
            None
        }
    }

    pub fn from_wire(s: &str) -> (r: Option<PostType>)
        ensures
            r == PostType::spec_from_wire(s@),
    {
        if str_eq(s, "LESSON") {
            Some(PostType::Lesson)
        } else if str_eq(s, "POST") {
            Some(PostType::Post)
        } else {
            None
        }
    }
}

/// Publication status of a product; unrecognized wire values fall back to `Unknown`.
#[derive(Debug, Clone, Copy, PartialEq, Eq, Hash, Structural)]
pub enum Status {
    Published,
    Unknown,
}

impl Status {
    /// The wire spelling of each variant.
    pub open spec fn spec_wire_name(self) -> Seq<char> {
        match self {
            Status::Published => "PUBLISHED"@,
            Status::Unknown => "UNKNOWN"@,
        }
    }

    pub fn wire_name(&self) -> (r: String)
        ensures
            r@ == self.spec_wire_name(),
    {
        match self {
            Status::Published => "PUBLISHED".to_owned(),
            Status::Unknown => "UNKNOWN".to_owned(),
        }
    }

    /// The variant a wire string denotes; any unrecognized string
    /// falls back to `Unknown`, so decoding never fails.
    pub open spec fn spec_from_wire(s: Seq<char>) -> Status {
        if s == "PUBLISHED"@ {
            Status::Published
        } else {
            Status::Unknown
        }
    }

    pub fn from_wire(s: &str) -> (r: Status)
        ensures
            r == Status::spec_from_wire(s@),
    {
        if str_eq(s, "PUBLISHED") {
            Status::Published
        } else {
            Status::Unknown
        }
    }
}

/// Moderation status of a product; unrecognized wire values fall back to `Unknown`.
#[derive(Debug, Clone, Copy, PartialEq, Eq, Hash, Structural)]
pub enum ModerationStatus {
    New,
    Rejected,
    Approved,
    Blocked,
    Unknown,
}

impl ModerationStatus {
    /// The wire spelling of each variant.
    pub open spec fn spec_wire_name(self) -> Seq<char> {
        match self {
            ModerationStatus::New => "NEW"@,
            ModerationStatus::Rejected => "REJECTED"@,
            ModerationStatus::Approved => "APPROVED"@,
            ModerationStatus::Blocked => "BLOCKED"@,
            ModerationStatus::Unknown => "UNKNOWN"@,
        }
    }

    pub fn wire_name(&self) -> (r: String)
        ensures
            r@ == self.spec_wire_name(),
    {
        match self {
            ModerationStatus::New => "NEW".to_owned(),
            ModerationStatus::Rejected => "REJECTED".to_owned(),
            ModerationStatus::Approved => "APPROVED".to_owned(),
            ModerationStatus::Blocked => "BLOCKED".to_owned(),
            ModerationStatus::Unknown => "UNKNOWN".to_owned(),
        }
    }

    /// The variant a wire string denotes; any unrecognized string
    /// falls back to `Unknown`, so decoding never fails.
    pub open spec fn spec_from_wire(s: Seq<char>) -> ModerationStatus {
        if s == "NEW"@ {
            ModerationStatus::New
        } else if s == "REJECTED"@ {
            ModerationStatus::Rejected
        } else if s == "APPROVED"@ {
            ModerationStatus::Approved
        } else if s == "BLOCKED"@ {
            ModerationStatus::Blocked
        } else {
            ModerationStatus::Unknown
        }
    }

    pub fn from_wire(s: &str) -> (r: ModerationStatus)
        ensures
            r == ModerationStatus::spec_from_wire(s@),
    {
        if str_eq(s, "NEW") {
            ModerationStatus::New
        } else if str_eq(s, "REJECTED") {
            ModerationStatus::Rejected
        } else if str_eq(s, "APPROVED") {
            ModerationStatus::Approved
        } else if str_eq(s, "BLOCKED") {
            ModerationStatus::Blocked
        } else {
            ModerationStatus::Unknown
        }
    }
}

/// Why an offer cannot be deleted.
#[derive(Debug, Clone, Copy, PartialEq, Eq, Hash, Structural)]
pub enum DeleteNotAllowedReason {
    HasSales,
    HasPosts,
}

impl DeleteNotAllowedReason {
    /// The wire spelling of each variant.
    pub open spec fn spec_wire_name(self) -> Seq<char> {
        match self {
            DeleteNotAllowedReason::HasSales => "HAS_SALES"@,
            DeleteNotAllowedReason::HasPosts => "HAS_POSTS"@,
        }
    }

    pub fn wire_name(&self) -> (r: String)
        ensures
            r@ == self.spec_wire_name(),
    {
        match self {
            DeleteNotAllowedReason::HasSales => "HAS_SALES".to_owned(),
            DeleteNotAllowedReason::HasPosts => "HAS_POSTS".to_owned(),
        }
    }

    /// The variant a wire string denotes; an unrecognized string is
    /// rejected, this vocabulary being closed.
    pub open spec fn spec_from_wire(s: Seq<char>) -> Option<DeleteNotAllowedReason> {
        if s == "HAS_SALES"@ {
            Some(DeleteNotAllowedReason::HasSales)
        } else if s == "HAS_POSTS"@ {
            Some(DeleteNotAllowedReason::HasPosts)
        } else {
            None
        }
    }

    pub fn from_wire(s: &str) -> (r: Option<DeleteNotAllowedReason>)
        ensures
            r == DeleteNotAllowedReason::spec_from_wire(s@),
    {
        if str_eq(s, "HAS_SALES") {
            Some(DeleteNotAllowedReason::HasSales)
        } else if str_eq(s, "HAS_POSTS") {
            Some(DeleteNotAllowedReason::HasPosts)
        } else {
            None
        }
    }
}

impl ContractStatusDto {
    /// The wire spelling of the status as a plain string; building it
    /// cannot fail.
    pub fn to_snake_case_string(&self) -> (r: Result<String, LavaTopError>)
        ensures
            r matches Ok(s) && s@ == self.spec_wire_name(),
    {
        Ok(self.wire_name())
    }
}

// --- Identifiers ---

/// A hexadecimal digit, either case.
pub open spec fn spec_is_hex(c: char) -> bool {
    ('0' <= c && c <= '9') || ('a' <= c && c <= 'f') || ('A' <= c && c <= 'F')
}

/// The hyphen positions of the canonical textual UUID form.
pub open spec fn spec_uuid_hyphen_at(i: int) -> bool {
    i == 8 || i == 13 || i == 18 || i == 23
}

/// Text in the canonical 8-4-4-4-12 UUID form, either case.
pub open spec fn spec_is_uuid_text(s: Seq<char>) -> bool {
    &&& s.len() == 36
    &&& forall|i: int|
        0 <= i < 36 ==> (if spec_uuid_hyphen_at(i) {
            s[i] == '-'
        } else {
            spec_is_hex(s[i])
        })
}

fn check_uuid_text(s: &str) -> (r: bool)
    ensures
        r == spec_is_uuid_text(s@),
{
    let n = s.unicode_len();
    if n != 36 {
        return false;
    }
    let mut i: usize = 0;
    while i < 36
        invariant
            s@.len() == 36,
            0 <= i <= 36,
            forall|j: int|
                0 <= j < i ==> (if spec_uuid_hyphen_at(j) {
                    s@[j] == '-'
                } else {
                    spec_is_hex(s@[j])
                }),
        decreases 36 - i,
    {
        let c = s.get_char(i);
        if i == 8 || i == 13 || i == 18 || i == 23 {
            if c != '-' {
                return false;
            }
        } else {
            if !(('0' <= c && c <= '9') || ('a' <= c && c <= 'f') || ('A' <= c && c <= 'F')) {
                return false;
            }
        }
        i = i + 1;
    }
    true
}

/// A UUID, held in its canonical textual form as it stood on the wire.
#[derive(Debug, Clone, PartialEq, Eq, Hash)]
pub struct Uuid {
    pub text: String,
}

impl Uuid {
    /// The canonical form: 36 characters, hyphens at the four fixed
    /// positions, hex digits elsewhere.
    pub open spec fn wf(self) -> bool {
        spec_is_uuid_text(self.text@)
    }

    /// Reads a UUID from text; accepted exactly when the text is in the
    /// canonical form.
    pub fn parse(s: &str) -> (r: Option<Uuid>)
        ensures
            match r {
                Some(u) => spec_is_uuid_text(s@) && u.text@ == s@ && u.wf(),
                None => !spec_is_uuid_text(s@),
            },
    {
        if check_uuid_text(s) {
            Some(Uuid { text: s.to_owned() })
        } else {
            None
        }
    }

    pub fn as_str(&self) -> (r: &str)
        ensures
            r@ == self.text@,
    {
        self.text.as_str()
    }
}

// --- Typed field readers over identifiers and timestamps ---

/// A required UUID field: present, a string, and in canonical form.
pub open spec fn spec_req_uuid(v: JsonValue, key: Seq<char>) -> Option<Uuid> {
    match spec_req_str(v, key) {
        Some(s) => if spec_is_uuid_text(s@) {
            Some(Uuid { text: s })
        } else {
            None
        },
        None => None,
    }
}

pub fn req_uuid(v: &JsonValue, key: &str) -> (r: Option<Uuid>)
    ensures
        r == spec_req_uuid(*v, key@),
        r matches Some(u) ==> u.wf(),
{
    match req_str(v, key) {
        Some(s) => if check_uuid_text(s.as_str()) {
            Some(Uuid { text: s })
        } else {
            None
        },
        None => None,
    }
}

/// An optional UUID field: absent or null stands for no value.
pub open spec fn spec_opt_uuid(v: JsonValue, key: Seq<char>) -> Option<Option<Uuid>> {
    match spec_opt_str(v, key) {
        Some(None) => Some(None),
        Some(Some(s)) => if spec_is_uuid_text(s@) {
            Some(Some(Uuid { text: s }))
        } else {
            None
        },
        None => None,
    }
}

pub fn opt_uuid(v: &JsonValue, key: &str) -> (r: Option<Option<Uuid>>)
    ensures
        r == spec_opt_uuid(*v, key@),
        r matches Some(Some(u)) ==> u.wf(),
{
    match opt_str(v, key) {
        Some(None) => Some(None),
        Some(Some(s)) => if check_uuid_text(s.as_str()) {
            Some(Some(Uuid { text: s }))
        } else {
            None
        },
        None => None,
    }
}

/// A required timestamp field: present, a string, and RFC 3339.
pub open spec fn spec_req_ts(v: JsonValue, key: Seq<char>) -> Option<UtcTimestamp> {
    match spec_req_str(v, key) {
        Some(s) => spec_parse_rfc3339(s@),
        None => None,
    }
}

pub fn req_ts(v: &JsonValue, key: &str) -> (r: Option<UtcTimestamp>)
    ensures
        r == spec_req_ts(*v, key@),
{
    match req_str(v, key) {
        Some(s) => parse_rfc3339(s.as_str()),
        None => None,
    }
}

/// An optional timestamp field: absent or null stands for no value; a
/// present string must be RFC 3339.
pub open spec fn spec_opt_ts(v: JsonValue, key: Seq<char>) -> Option<Option<UtcTimestamp>> {
    match spec_opt_str(v, key) {
        Some(None) => Some(None),
        Some(Some(s)) => match spec_parse_rfc3339(s@) {
            Some(t) => Some(Some(t)),
            None => None,
        },
        None => None,
    }
}

pub fn opt_ts(v: &JsonValue, key: &str) -> (r: Option<Option<UtcTimestamp>>)
    ensures
        r == spec_opt_ts(*v, key@),
{
    match opt_str(v, key) {
        Some(None) => Some(None),
        Some(Some(s)) => match parse_rfc3339(s.as_str()) {
            Some(t) => Some(Some(t)),
            None => None,
        },
        None => None,
    }
}

// --- Shared data shapes ---

/// One price of an offer. The amount is kept as it stood on the wire.
#[derive(Debug, Clone, PartialEq, Eq)]
pub struct PriceDto {
    pub amount: Option<WireNumber>,
    pub currency: CurrencyDto,
    pub periodicity: Option<Periodicity>,
}

/// Marketing attribution tags attached to a purchase.
#[derive(Debug, Clone, PartialEq, Eq)]
pub struct ClientUtmDto {
    pub utm_source: Option<String>,
    pub utm_medium: Option<String>,
    pub utm_campaign: Option<String>,
    pub utm_term: Option<String>,
    pub utm_content: Option<String>,
}

impl core::default::Default for ClientUtmDto {
    fn default() -> (r: Self)
        ensures
            r.utm_source is None,
            r.utm_medium is None,
            r.utm_campaign is None,
            r.utm_term is None,
            r.utm_content is None,
    {
        ClientUtmDto {
            utm_source: None,
            utm_medium: None,
            utm_campaign: None,
            utm_term: None,
            utm_content: None,
        }
    }
}

/// The structured failure payload the service sends on errors.
#[derive(Debug, PartialEq, Eq)]
pub struct ErrorResponse {
    pub error: Option<String>,
    pub details: Option<JsonValue>,
    pub timestamp: Option<UtcTimestamp>,
}

/// An offset-paginated page of results.
#[derive(Debug, PartialEq, Eq)]
pub struct PagedResponse<T> {
    pub items: Vec<T>,
    pub total: i64,
    pub page: i64,
    pub size: i64,
    pub total_pages: Option<i64>,
}

/// A cursor-paginated page of results: the `nextPage` URL is absent
/// exactly when no further page is available.
#[derive(Debug, PartialEq, Eq)]
pub struct PagedResponseV2<T> {
    pub items: Vec<T>,
    pub next_page: Option<String>,
}

impl<T> PagedResponseV2<T> {
    /// Whether the service named a further page to fetch.
    pub fn has_next_page(&self) -> (r: bool)
        ensures
            r == (self.next_page is Some),
    {
        match &self.next_page {
            Some(_) => true,
            None => false,
        }
    }
}

/// A total in one currency.
#[derive(Debug, Clone, PartialEq, Eq)]
pub struct AmountTotalDto {
    pub currency: CurrencyDto,
    pub amount: WireNumber,
}

/// A buyer, identified by email.
#[derive(Debug, Clone, PartialEq, Eq)]
pub struct BuyerDto {
    pub email: String,
}

// --- URL-valued fields ---

/// A required URL field: present, a string, and accepted by the URL
/// parser; the text is kept as it stood on the wire.
pub open spec fn spec_req_url(v: JsonValue, key: Seq<char>) -> Option<String> {
    match spec_req_str(v, key) {
        Some(s) => if spec_url_parse(s@) is Some {
            Some(s)
        } else {
            None
        },
        None => None,
    }
}

pub fn req_url(v: &JsonValue, key: &str) -> (r: Option<String>)
    ensures
        r == spec_req_url(*v, key@),
{
    match req_str(v, key) {
        Some(s) => match parse_url(s.as_str()) {
            Some(_) => Some(s),
            None => None,
        },
        None => None,
    }
}

/// An optional URL field: absent or null stands for no value.
pub open spec fn spec_opt_url(v: JsonValue, key: Seq<char>) -> Option<Option<String>> {
    match spec_opt_str(v, key) {
        Some(None) => Some(None),
        Some(Some(s)) => if spec_url_parse(s@) is Some {
            Some(Some(s))
        } else {
            None
        },
        None => None,
    }
}

pub fn opt_url(v: &JsonValue, key: &str) -> (r: Option<Option<String>>)
    ensures
        r == spec_opt_url(*v, key@),
{
    match opt_str(v, key) {
        Some(None) => Some(None),
        Some(Some(s)) => match parse_url(s.as_str()) {
            Some(_) => Some(Some(s)),
            None => None,
        },
        None => None,
    }
}

// --- Decoders of the shared shapes ---

/// How a price decodes: an optional number `amount`, a closed-vocabulary
/// `currency`, and an optional `periodicity`.
pub open spec fn spec_decode_price(v: JsonValue) -> Option<PriceDto> {
    if !(v is Obj) {
        None
    } else {
        match spec_opt_num(v, "amount"@) {
            None => None,
            Some(am) => match spec_req_str(v, "currency"@) {
                None => None,
                Some(c) => match CurrencyDto::spec_from_wire(c@) {
                    None => None,
                    Some(cur) => match spec_opt_str(v, "periodicity"@) {
                        None => None,
                        Some(None) => Some(
                            PriceDto { amount: am, currency: cur, periodicity: None },
                        ),
                        Some(Some(p)) => match Periodicity::spec_from_wire(p@) {
                            None => None,
                            Some(per) => Some(
                                PriceDto { amount: am, currency: cur, periodicity: Some(per) },
                            ),
                        },
                    },
                },
            },
        }
    }
}

pub fn decode_price(v: &JsonValue) -> (r: Option<PriceDto>)
    ensures
        r == spec_decode_price(*v),
{
    match v {
        JsonValue::Obj(_) => {},
        _ => {
            return None;
        },
    }
    let am = match opt_num(v, "amount") {
        Some(x) => x,
        None => {
            return None;
        },
    };
    let c = match req_str(v, "currency") {
        Some(x) => x,
        None => {
            return None;
        },
    };
    let cur = match CurrencyDto::from_wire(c.as_str()) {
        Some(x) => x,
        None => {
            return None;
        },
    };
    match opt_str(v, "periodicity") {
        Some(None) => Some(PriceDto { amount: am, currency: cur, periodicity: None }),
        Some(Some(p)) => match Periodicity::from_wire(p.as_str()) {
            Some(per) => Some(PriceDto { amount: am, currency: cur, periodicity: Some(per) }),
            None => None,
        },
        None => None,
    }
}

/// How a per-currency total decodes: a closed `currency` and a required
/// number `amount`.
pub open spec fn spec_decode_amount_total(v: JsonValue) -> Option<AmountTotalDto> {
    if !(v is Obj) {
        None
    } else {
        match spec_req_str(v, "currency"@) {
            None => None,
            Some(c) => match CurrencyDto::spec_from_wire(c@) {
                None => None,
                Some(cur) => match spec_req_num(v, "amount"@) {
                    None => None,
                    Some(am) => Some(AmountTotalDto { currency: cur, amount: am }),
                },
            },
        }
    }
}

pub fn decode_amount_total(v: &JsonValue) -> (r: Option<AmountTotalDto>)
    ensures
        r == spec_decode_amount_total(*v),
{
    match v {
        JsonValue::Obj(_) => {},
        _ => {
            return None;
        },
    }
    let c = match req_str(v, "currency") {
        Some(x) => x,
        None => {
            return None;
        },
    };
    let cur = match CurrencyDto::from_wire(c.as_str()) {
        Some(x) => x,
        None => {
            return None;
        },
    };
    match req_num(v, "amount") {
        Some(am) => Some(AmountTotalDto { currency: cur, amount: am }),
        None => None,
    }
}

/// How a buyer decodes: a required string `email`.
pub open spec fn spec_decode_buyer(v: JsonValue) -> Option<BuyerDto> {
    if !(v is Obj) {
        None
    } else {
        match spec_req_str(v, "email"@) {
            Some(e) => Some(BuyerDto { email: e }),
            None => None,
        }
    }
}

pub fn decode_buyer(v: &JsonValue) -> (r: Option<BuyerDto>)
    ensures
        r == spec_decode_buyer(*v),
{
    match v {
        JsonValue::Obj(_) => {},
        _ => {
            return None;
        },
    }
    match req_str(v, "email") {
        Some(e) => Some(BuyerDto { email: e }),
        None => None,
    }
}

/// How attribution tags decode: five optional strings under their own
/// names.
pub open spec fn spec_decode_client_utm(v: JsonValue) -> Option<ClientUtmDto> {
    if !(v is Obj) {
        None
    } else {
        match spec_opt_str(v, "utm_source"@) {
            None => None,
            Some(src) => match spec_opt_str(v, "utm_medium"@) {
                None => None,
                Some(med) => match spec_opt_str(v, "utm_campaign"@) {
                    None => None,
                    Some(cam) => match spec_opt_str(v, "utm_term"@) {
                        None => None,
                        Some(term) => match spec_opt_str(v, "utm_content"@) {
                            None => None,
                            Some(con) => Some(
                                ClientUtmDto {
                                    utm_source: src,
                                    utm_medium: med,
                                    utm_campaign: cam,
                                    utm_term: term,
                                    utm_content: con,
                                },
                            ),
                        },
                    },
                },
            },
        }
    }
}

pub fn decode_client_utm(v: &JsonValue) -> (r: Option<ClientUtmDto>)
    ensures
        r == spec_decode_client_utm(*v),
{
    match v {
        JsonValue::Obj(_) => {},
        _ => {
            return None;
        },
    }
    let src = match opt_str(v, "utm_source") {
        Some(x) => x,
        None => {
            return None;
        },
    };
    let med = match opt_str(v, "utm_medium") {
        Some(x) => x,
        None => {
            return None;
        },
    };
    let cam = match opt_str(v, "utm_campaign") {
        Some(x) => x,
        None => {
            return None;
        },
    };
    let term = match opt_str(v, "utm_term") {
        Some(x) => x,
        None => {
            return None;
        },
    };
    let con = match opt_str(v, "utm_content") {
        Some(x) => x,
        None => {
            return None;
        },
    };
    Some(
        ClientUtmDto {
            utm_source: src,
            utm_medium: med,
            utm_campaign: cam,
            utm_term: term,
            utm_content: con,
        },
    )
}

/// An optional attribution-tags field of an enclosing object.
pub open spec fn spec_opt_utm(v: JsonValue, key: Seq<char>) -> Option<Option<ClientUtmDto>> {
    match spec_field(v, key) {
        None => Some(None),
        Some(JsonValue::Null) => Some(None),
        Some(x) => match spec_decode_client_utm(x) {
            Some(u) => Some(Some(u)),
            None => None,
        },
    }
}

pub fn opt_utm(v: &JsonValue, key: &str) -> (r: Option<Option<ClientUtmDto>>)
    ensures
        r == spec_opt_utm(*v, key@),
{
    match field(v, key) {
        None => Some(None),
        Some(JsonValue::Null) => Some(None),
        Some(x) => match decode_client_utm(x) {
            Some(u) => Some(Some(u)),
            None => None,
        },
    }
}

// --- Encoding of attribution tags ---

/// The object members an encoded `ClientUtmDto` carries: one per set
/// field, under the field's own name, in declaration order.
pub open spec fn spec_utm_entries(u: ClientUtmDto) -> Seq<(Seq<char>, JsonModel)> {
    (if u.utm_source is Some {
        seq![("utm_source"@, JsonModel::Str(u.utm_source->0@))]
    } else {
        seq![]
    }) + (if u.utm_medium is Some {
        seq![("utm_medium"@, JsonModel::Str(u.utm_medium->0@))]
    } else {
        seq![]
    }) + (if u.utm_campaign is Some {
        seq![("utm_campaign"@, JsonModel::Str(u.utm_campaign->0@))]
    } else {
        seq![]
    }) + (if u.utm_term is Some {
        seq![("utm_term"@, JsonModel::Str(u.utm_term->0@))]
    } else {
        seq![]
    }) + (if u.utm_content is Some {
        seq![("utm_content"@, JsonModel::Str(u.utm_content->0@))]
    } else {
        seq![]
    })
}

/// Encodes attribution tags as a JSON object, omitting unset fields.
pub fn encode_client_utm(u: &ClientUtmDto) -> (r: JsonValue)
    ensures
        spec_json_matches(r, JsonModel::Obj(spec_utm_entries(*u))),
{
    let mut pairs: Vec<(String, JsonValue)> = Vec::new();
    let ghost mut es: Seq<(Seq<char>, JsonModel)> = Seq::empty();
    assert(spec_entries_match(pairs@, es));
    if let Some(x) = &u.utm_source {
        let p = ("utm_source".to_owned(), JsonValue::Str(x.clone()));
        proof {
            lemma_entries_match_push(pairs@, es, p, ("utm_source"@, JsonModel::Str(x@)));
            es = es.push(("utm_source"@, JsonModel::Str(x@)));
        }
        pairs.push(p);
    }
    if let Some(x) = &u.utm_medium {
        let p = ("utm_medium".to_owned(), JsonValue::Str(x.clone()));
        proof {
            lemma_entries_match_push(pairs@, es, p, ("utm_medium"@, JsonModel::Str(x@)));
            es = es.push(("utm_medium"@, JsonModel::Str(x@)));
        }
        pairs.push(p);
    }
    if let Some(x) = &u.utm_campaign {
        let p = ("utm_campaign".to_owned(), JsonValue::Str(x.clone()));
        proof {
            lemma_entries_match_push(pairs@, es, p, ("utm_campaign"@, JsonModel::Str(x@)));
            es = es.push(("utm_campaign"@, JsonModel::Str(x@)));
        }
        pairs.push(p);
    }
    if let Some(x) = &u.utm_term {
        let p = ("utm_term".to_owned(), JsonValue::Str(x.clone()));
        proof {
            lemma_entries_match_push(pairs@, es, p, ("utm_term"@, JsonModel::Str(x@)));
            es = es.push(("utm_term"@, JsonModel::Str(x@)));
        }
        pairs.push(p);
    }
    if let Some(x) = &u.utm_content {
        let p = ("utm_content".to_owned(), JsonValue::Str(x.clone()));
        proof {
            lemma_entries_match_push(pairs@, es, p, ("utm_content"@, JsonModel::Str(x@)));
            es = es.push(("utm_content"@, JsonModel::Str(x@)));
        }
        pairs.push(p);
    }
    proof {
        assert(es =~= spec_utm_entries(*u));
    }
    JsonValue::Obj(pairs)
}

// --- Wire-vocabulary laws ---

/// Each wire spelling denotes its own variant: decoding an encoded
/// name yields the variant back.
pub proof fn lemma_currency_dto_wire_round_trip(v: CurrencyDto)
    ensures
        CurrencyDto::spec_from_wire(v.spec_wire_name()) == Some(v),
{
    reveal_strlit("RUB");
    reveal_strlit("USD");
    reveal_strlit("EUR");
    assert("RUB"@.len() == 3);
    assert("USD"@.len() == 3);
    assert("EUR"@.len() == 3);
    assert("RUB"@[0] != "USD"@[0]);
    assert("RUB"@[0] != "EUR"@[0]);
    assert("USD"@[0] != "EUR"@[0]);
}

/// Each wire spelling denotes its own variant: decoding an encoded
/// name yields the variant back.
pub proof fn lemma_language_dto_wire_round_trip(v: LanguageDto)
    ensures
        LanguageDto::spec_from_wire(v.spec_wire_name()) == Some(v),
{
    reveal_strlit("EN");
    reveal_strlit("RU");
    reveal_strlit("ES");
    assert("EN"@.len() == 2);
    assert("RU"@.len() == 2);
    assert("ES"@.len() == 2);
    assert("EN"@[0] != "RU"@[0]);
    assert("EN"@[1] != "ES"@[1]);
    assert("RU"@[0] != "ES"@[0]);
}

/// Each wire spelling denotes its own variant: decoding an encoded
/// name yields the variant back.
pub proof fn lemma_payment_method_wire_round_trip(v: PaymentMethod)
    ensures
        PaymentMethod::spec_from_wire(v.spec_wire_name()) == Some(v),
{
    reveal_strlit("BANK131");
    reveal_strlit("UNLIMINT");
    reveal_strlit("PAYPAL");
    reveal_strlit("STRIPE");
    assert("BANK131"@.len() == 7);
    assert("UNLIMINT"@.len() == 8);
    assert("PAYPAL"@.len() == 6);
    assert("STRIPE"@.len() == 6);
    assert("PAYPAL"@[0] != "STRIPE"@[0]);
}

/// Each wire spelling denotes its own variant: decoding an encoded
/// name yields the variant back.
pub proof fn lemma_periodicity_wire_round_trip(v: Periodicity)
    ensures
        Periodicity::spec_from_wire(v.spec_wire_name()) == Some(v),
{
    reveal_strlit("ONE_TIME");
    reveal_strlit("MONTHLY");
    reveal_strlit("PERIOD90_DAYS");
    reveal_strlit("PERIOD180_DAYS");
    reveal_strlit("PERIOD_YEAR");
    assert("ONE_TIME"@.len() == 8);
    assert("MONTHLY"@.len() == 7);
    assert("PERIOD90_DAYS"@.len() == 13);
    assert("PERIOD180_DAYS"@.len() == 14);
    assert("PERIOD_YEAR"@.len() == 11);
}

/// Each wire spelling denotes its own variant: decoding an encoded
/// name yields the variant back.
pub proof fn lemma_invoice_type_wire_round_trip(v: InvoiceType)
    ensures
        InvoiceType::spec_from_wire(v.spec_wire_name()) == Some(v),
{
    reveal_strlit("ONE_TIME");
    reveal_strlit("RECURRING");
    assert("ONE_TIME"@.len() == 8);
    assert("RECURRING"@.len() == 9);
}

/// Each wire spelling denotes its own variant: decoding an encoded
/// name yields the variant back.
pub proof fn lemma_subscription_status_wire_round_trip(v: SubscriptionStatus)
    ensures
        SubscriptionStatus::spec_from_wire(v.spec_wire_name()) == Some(v),
{
    reveal_strlit("ACTIVE");
    reveal_strlit("CANCELLED");
    reveal_strlit("FAILED");
    assert("ACTIVE"@.len() == 6);
    assert("CANCELLED"@.len() == 9);
    assert("FAILED"@.len() == 6);
    assert("ACTIVE"@[0] != "FAILED"@[0]);
}

/// Each wire spelling denotes its own variant: decoding an encoded
/// name yields the variant back.
pub proof fn lemma_feed_item_type_wire_round_trip(v: FeedItemType)
    ensures
        FeedItemType::spec_from_wire(v.spec_wire_name()) == Some(v),
{
    reveal_strlit("POST");
    reveal_strlit("PRODUCT");
    assert("POST"@.len() == 4);
    assert("PRODUCT"@.len() == 7);
}

/// Each wire spelling denotes its own variant: decoding an encoded
/// name yields the variant back.
pub proof fn lemma_product_type_wire_round_trip(v: ProductType)
    ensures
        ProductType::spec_from_wire(v.spec_wire_name()) == Some(v),
{
    reveal_strlit("COURSE");
    reveal_strlit("DIGITAL_PRODUCT");
    reveal_strlit("BOOK");
    reveal_strlit("GUIDE");
    reveal_strlit("SUBSCRIPTION");
    reveal_strlit("AUDIO");
    reveal_strlit("MODS");
    reveal_strlit("CONSULTATION");
    assert("COURSE"@.len() == 6);
    assert("DIGITAL_PRODUCT"@.len() == 15);
    assert("BOOK"@.len() == 4);
    assert("GUIDE"@.len() == 5);
    assert("SUBSCRIPTION"@.len() == 12);
    assert("AUDIO"@.len() == 5);
    assert("MODS"@.len() == 4);
    assert("CONSULTATION"@.len() == 12);
    assert("BOOK"@[0] != "MODS"@[0]);
    assert("GUIDE"@[0] != "AUDIO"@[0]);
    assert("SUBSCRIPTION"@[0] != "CONSULTATION"@[0]);
}

/// Each wire spelling denotes its own variant: decoding an encoded
/// name yields the variant back.
pub proof fn lemma_feed_visibility_wire_round_trip(v: FeedVisibility)
    ensures
        FeedVisibility::spec_from_wire(v.spec_wire_name()) == Some(v),
{
    reveal_strlit("ALL");
    reveal_strlit("ONLY_VISIBLE");
    reveal_strlit("ONLY_HIDDEN");
    assert("ALL"@.len() == 3);
    assert("ONLY_VISIBLE"@.len() == 12);
    assert("ONLY_HIDDEN"@.len() == 11);
}

/// Each wire spelling denotes its own variant: decoding an encoded
/// name yields the variant back.
pub proof fn lemma_post_type_wire_round_trip(v: PostType)
    ensures
        PostType::spec_from_wire(v.spec_wire_name()) == Some(v),
{
    reveal_strlit("LESSON");
    reveal_strlit("POST");
    assert("LESSON"@.len() == 6);
    assert("POST"@.len() == 4);
}

/// Each wire spelling denotes its own variant: decoding an encoded
/// name yields the variant back.
pub proof fn lemma_delete_not_allowed_reason_wire_round_trip(v: DeleteNotAllowedReason)
    ensures
        DeleteNotAllowedReason::spec_from_wire(v.spec_wire_name()) == Some(v),
{
    reveal_strlit("HAS_SALES");
    reveal_strlit("HAS_POSTS");
    assert("HAS_SALES"@.len() == 9);
    assert("HAS_POSTS"@.len() == 9);
    assert("HAS_SALES"@[4] != "HAS_POSTS"@[4]);
}

/// Each wire spelling denotes its own variant: decoding an encoded
/// name yields the variant back.
pub proof fn lemma_contract_status_dto_wire_round_trip(v: ContractStatusDto)
    ensures
        ContractStatusDto::spec_from_wire(v.spec_wire_name()) == v,
{
    reveal_strlit("new");
    reveal_strlit("in-progress");
    reveal_strlit("completed");
    reveal_strlit("failed");
    reveal_strlit("cancelled");
    reveal_strlit("subscription-active");
    reveal_strlit("subscription-expired");
    reveal_strlit("subscription-cancelled");
    reveal_strlit("subscription-failed");
    reveal_strlit("unknown");
    assert("new"@.len() == 3);
    assert("in-progress"@.len() == 11);
    assert("completed"@.len() == 9);
    assert("failed"@.len() == 6);
    assert("cancelled"@.len() == 9);
    assert("subscription-active"@.len() == 19);
    assert("subscription-expired"@.len() == 20);
    assert("subscription-cancelled"@.len() == 22);
    assert("subscription-failed"@.len() == 19);
    assert("unknown"@.len() == 7);
    assert("completed"@[1] != "cancelled"@[1]);
    assert("subscription-active"@[13] != "subscription-failed"@[13]);
}

/// Each wire spelling denotes its own variant: decoding an encoded
/// name yields the variant back.
pub proof fn lemma_invoice_status_wire_round_trip(v: InvoiceStatus)
    ensures
        InvoiceStatus::spec_from_wire(v.spec_wire_name()) == v,
{
    reveal_strlit("NEW");
    reveal_strlit("IN_PROGRESS");
    reveal_strlit("COMPLETED");
    reveal_strlit("FAILED");
    reveal_strlit("UNKNOWN");
    assert("NEW"@.len() == 3);
    assert("IN_PROGRESS"@.len() == 11);
    assert("COMPLETED"@.len() == 9);
    assert("FAILED"@.len() == 6);
    assert("UNKNOWN"@.len() == 7);
}

/// Each wire spelling denotes its own variant: decoding an encoded
/// name yields the variant back.
pub proof fn lemma_status_wire_round_trip(v: Status)
    ensures
        Status::spec_from_wire(v.spec_wire_name()) == v,
{
    reveal_strlit("PUBLISHED");
    reveal_strlit("UNKNOWN");
    assert("PUBLISHED"@.len() == 9);
    assert("UNKNOWN"@.len() == 7);
}

/// Each wire spelling denotes its own variant: decoding an encoded
/// name yields the variant back.
pub proof fn lemma_moderation_status_wire_round_trip(v: ModerationStatus)
    ensures
        ModerationStatus::spec_from_wire(v.spec_wire_name()) == v,
{
    reveal_strlit("NEW");
    reveal_strlit("REJECTED");
    reveal_strlit("APPROVED");
    reveal_strlit("BLOCKED");
    reveal_strlit("UNKNOWN");
    assert("NEW"@.len() == 3);
    assert("REJECTED"@.len() == 8);
    assert("APPROVED"@.len() == 8);
    assert("BLOCKED"@.len() == 7);
    assert("UNKNOWN"@.len() == 7);
    assert("REJECTED"@[0] != "APPROVED"@[0]);
    assert("BLOCKED"@[0] != "UNKNOWN"@[0]);
}

} // verus!
