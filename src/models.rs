use vstd::prelude::*;

use bson::oid::ObjectId;

use vstd::string::*;

use crate::ids::{Timestamp, MILLIS_PER_DAY};

verus! {

/// The value of an optional 32-bit counter as an optional mathematical integer.
pub open spec fn counter_value(c: Option<i32>) -> Option<int> {
    match c {
        Some(v) => Some(v as int),
        None => None,
    }
}

/// Sparse per-subject call counters. An absent counter has never been recorded,
/// which is not the same as a counter recorded as zero.
#[derive(Clone, Copy, Debug, PartialEq, Eq)]
pub struct Usage {
    pub api_calls: Option<i32>,
    pub api_calls_monday: Option<i32>,
    pub api_calls_tuesday: Option<i32>,
    pub api_calls_wednesday: Option<i32>,
    pub api_calls_thursday: Option<i32>,
    pub api_calls_friday: Option<i32>,
    pub api_calls_saturday: Option<i32>,
    pub api_calls_sunday: Option<i32>,
    pub api_calls_success: Option<i32>,
    pub api_calls_fail: Option<i32>,
}

/// Number of named counters in a usage record.
pub const USAGE_COUNTERS: usize = 10;

impl View for Usage {
    type V = Seq<Option<int>>;

    /// The counters in declaration order.
    open spec fn view(&self) -> Seq<Option<int>> {
        seq![
            counter_value(self.api_calls),
            counter_value(self.api_calls_monday),
            counter_value(self.api_calls_tuesday),
            counter_value(self.api_calls_wednesday),
            counter_value(self.api_calls_thursday),
            counter_value(self.api_calls_friday),
            counter_value(self.api_calls_saturday),
            counter_value(self.api_calls_sunday),
            counter_value(self.api_calls_success),
            counter_value(self.api_calls_fail),
        ]
    }
}

impl Usage {
    /// A record in which no counter has been set.
    pub fn empty() -> (r: Usage)
        ensures
            r@ == Seq::new(USAGE_COUNTERS as nat, |i: int| None::<int>),
    {
        let r = Usage {
            api_calls: None,
            api_calls_monday: None,
            api_calls_tuesday: None,
            api_calls_wednesday: None,
            api_calls_thursday: None,
            api_calls_friday: None,
            api_calls_saturday: None,
            api_calls_sunday: None,
            api_calls_success: None,
            api_calls_fail: None,
        };
        assert(r@ =~= Seq::new(USAGE_COUNTERS as nat, |i: int| None::<int>));
        r
    }
}

/// A subject's cumulative usage record.
#[derive(Clone, Copy, Debug)]
pub struct Statistics {
    pub _id: ObjectId,
    pub created_at: Timestamp,
    pub updated_at: Option<Timestamp>,
    pub usage: Option<Usage>,
    #[allow(non_snake_case)]
    pub userId: ObjectId,
}

/// A subject's prepaid credit ledger.
#[derive(Clone, Copy, Debug)]
pub struct Credits {
    pub _id: ObjectId,
    pub used_amount: Option<i32>,
    pub current_amount: Option<i32>,
    #[allow(non_snake_case)]
    pub userId: ObjectId,
}

/// An issued API credential. A tombstoned credential is revoked and admits nothing.
#[derive(Clone, Debug)]
pub struct Tokens {
    pub _id: ObjectId,
    pub token: String,
    pub created_at: Timestamp,
    pub updated_at: Option<Timestamp>,
    pub tomestoned: bool,
    #[allow(non_snake_case)]
    pub userId: ObjectId,
}

/// The role of an account.
#[derive(Clone, Copy, Debug, PartialEq, Eq)]
pub enum UserRole {
    USER,
    CONTRIBUTOR,
    MODERATOR,
    ADMIN,
    SYSTEM,
    TEST,
}

/// An account of the identity service; this library only reads its identifier.
#[derive(Clone, Debug)]
pub struct User {
    pub _id: ObjectId,
    pub name: Option<String>,
    pub username: Option<String>,
    pub bio: Option<String>,
    pub email: String,
    pub email_verified: Option<Timestamp>,
    pub image: String,
    pub roles: Vec<UserRole>,
    pub telemetry: bool,
    pub tomestoned: bool,
}

/// A purchase of credits.
#[derive(Clone, Debug)]
pub struct Payment {
    pub _id: ObjectId,
    pub active: bool,
    pub subscription_id: String,
    pub subscription_date: Timestamp,
    pub subscription_end_date: Timestamp,
    pub subscription_cancelled: bool,
    pub subscription_cancelled_date: Option<Timestamp>,
    pub subscription_cancelled_reason: Option<String>,
    pub credits_purchased: i32,
    #[allow(non_snake_case)]
    pub userId: ObjectId,
}

/// The state of a report.
#[derive(Clone, Copy, Debug, PartialEq, Eq)]
pub enum ReportStatus {
    InProgress,
    RESOLVED,
    CLOSED,
}

/// A report raised by a subject about the system.
#[derive(Clone, Debug)]
pub struct SystemReport {
    pub _id: ObjectId,
    pub title: String,
    pub description: String,
    pub status: ReportStatus,
    pub created_at: Timestamp,
    #[allow(non_snake_case)]
    pub userId: ObjectId,
}

/// A report about a user, assigned to a handler.
#[derive(Clone, Debug)]
pub struct UserReport {
    pub _id: ObjectId,
    pub title: String,
    pub description: String,
    pub status: ReportStatus,
    pub created_at: Timestamp,
    #[allow(non_snake_case)]
    pub assignedToId: ObjectId,
}

/// The collections of the document store.
pub enum CollectionNames {
    User,
    Account,
    Session,
    Tokens,
    Credits,
    Payment,
    Statistics,
    SystemReport,
    UserReport,
    Custom(String),
}

/// The name under which the store keeps a collection.
pub open spec fn collection_name_of(c: CollectionNames) -> Seq<char> {
    match c {
        CollectionNames::User => "users"@,
        CollectionNames::Account => "accounts"@,
        CollectionNames::Session => "sessions"@,
        CollectionNames::Tokens => "tokens"@,
        CollectionNames::Credits => "credits"@,
        CollectionNames::Payment => "payments"@,
        CollectionNames::Statistics => "statistics"@,
        CollectionNames::SystemReport => "system_reports"@,
        CollectionNames::UserReport => "user_reports"@,
        CollectionNames::Custom(name) => name@,
    }
}

impl CollectionNames {
    /// The name under which the store keeps this collection.
    pub fn collection_name(&self) -> (r: String)
        ensures
            r@ == collection_name_of(*self),
    {
        match self {
            CollectionNames::User => String::from_str("users"),
            CollectionNames::Account => String::from_str("accounts"),
            CollectionNames::Session => String::from_str("sessions"),
            CollectionNames::Tokens => String::from_str("tokens"),
            CollectionNames::Credits => String::from_str("credits"),
            CollectionNames::Payment => String::from_str("payments"),
            CollectionNames::Statistics => String::from_str("statistics"),
            CollectionNames::SystemReport => String::from_str("system_reports"),
            CollectionNames::UserReport => String::from_str("user_reports"),
            CollectionNames::Custom(name) => name.clone(),
        }
    }
}

/// Days a subscription runs from its purchase.
pub const SUBSCRIPTION_DAYS: i64 = 30;

impl Payment {
    /// An active subscription `id` of `user_id`, bought at `now` for `credits_purchased`
    /// credits, ending `SUBSCRIPTION_DAYS` days later.
    pub fn new_subscription(
        id: ObjectId,
        user_id: ObjectId,
        subscription_id: String,
        credits_purchased: i32,
        now: Timestamp,
    ) -> (r: Payment)
        requires
            now.millis + SUBSCRIPTION_DAYS * MILLIS_PER_DAY <= i64::MAX,
        ensures
            r._id == id,
            r.userId == user_id,
            r.active,
            r.subscription_id@ == subscription_id@,
            r.subscription_date == now,
            r.subscription_end_date.millis == now.millis + SUBSCRIPTION_DAYS * MILLIS_PER_DAY,
            !r.subscription_cancelled,
            r.subscription_cancelled_date is None,
            r.subscription_cancelled_reason is None,
            r.credits_purchased == credits_purchased,
    {
        Payment {
            _id: id,
            active: true,
            subscription_id,
            subscription_date: now,
            subscription_end_date: now.plus_days(SUBSCRIPTION_DAYS),
            subscription_cancelled: false,
            subscription_cancelled_date: None,
            subscription_cancelled_reason: None,
            credits_purchased,
            userId: user_id,
        }
    }
}

impl Tokens {
    /// A live credential `token` of `user_id` with identifier `id`, created at `now`.
    pub fn issue(id: ObjectId, user_id: ObjectId, token: String, now: Timestamp) -> (r: Tokens)
        ensures
            r._id == id,
            r.userId == user_id,
            r.token@ == token@,
            r.created_at == now,
            r.updated_at is None,
            !r.tomestoned,
    {
        Tokens {
            _id: id,
            token,
            created_at: now,
            updated_at: None,
            tomestoned: false,
            userId: user_id,
        }
    }
}

impl SystemReport {
    /// A new report `id` by `user_id`, in progress from `now`.
    pub fn open(
        id: ObjectId,
        title: String,
        user_id: ObjectId,
        description: String,
        now: Timestamp,
    ) -> (r: SystemReport)
        ensures
            r._id == id,
            r.title@ == title@,
            r.description@ == description@,
            r.status == ReportStatus::InProgress,
            r.created_at == now,
            r.userId == user_id,
    {
        SystemReport {
            _id: id,
            title,
            description,
            status: ReportStatus::InProgress,
            created_at: now,
            userId: user_id,
        }
    }
}

impl UserReport {
    /// A new report `id` assigned to `assigned_to_id`, in progress from `now`.
    pub fn open(
        id: ObjectId,
        title: String,
        description: String,
        assigned_to_id: ObjectId,
        now: Timestamp,
    ) -> (r: UserReport)
        ensures
            r._id == id,
            r.title@ == title@,
            r.description@ == description@,
            r.status == ReportStatus::InProgress,
            r.created_at == now,
            r.assignedToId == assigned_to_id,
    {
        UserReport {
            _id: id,
            title,
            description,
            status: ReportStatus::InProgress,
            created_at: now,
            assignedToId: assigned_to_id,
        }
    }
}

} // verus!
