use vstd::prelude::*;

use super::value_objects::{PlanId, SubscriptionId, TenantId};

verus! {

/// The RFC 3339 text that chrono prints for the UTC moment `seconds` whole
/// seconds after the Unix epoch and `nanoseconds` past that second, or `None`
/// where chrono has no date and time for these two numbers.
pub uninterp spec fn rfc3339_text(seconds: int, nanoseconds: int) -> Option<Seq<char>>;

/// Calls `chrono::DateTime::from_timestamp` and, where it gives a moment,
/// `chrono::DateTime::to_rfc3339` on it. The contract only names the outcome:
/// the text comes back exactly where chrono accepts the two numbers.
#[verifier::external_body]
fn chrono_rfc3339(seconds: i64, nanoseconds: u32) -> (text: Option<String>)
    ensures
        match text {
            Some(t) => rfc3339_text(seconds as int, nanoseconds as int) == Some(t@),
            None => rfc3339_text(seconds as int, nanoseconds as int) is None,
        },
{
    match chrono::DateTime::from_timestamp(seconds, nanoseconds) {
        Some(moment) => Some(moment.to_rfc3339()),
        None => None,
    }
}

/// Calls `chrono::Utc::now` and reads the moment back with `timestamp` and
/// `timestamp_subsec_nanos`. Of the clock only this is claimed: the numbers lead
/// back to the moment, as chrono documents, and the nanoseconds are the part of
/// a second that std reads. A clock before 1970 makes chrono panic.
#[verifier::external_body]
fn chrono_now() -> (parts: (i64, u32))
    ensures
        rfc3339_text(parts.0 as int, parts.1 as int) is Some,
        parts.1 < 1_000_000_000,
{
    let now = chrono::Utc::now();
    (now.timestamp(), now.timestamp_subsec_nanos())
}

/// A moment in UTC: whole seconds since the Unix epoch and the nanoseconds
/// past that second. Every value stands for a date and time that can be
/// written out in RFC 3339.
#[derive(Debug, Clone, Copy)]
pub struct Timestamp {
    seconds: i64,
    nanoseconds: u32,
}

impl Timestamp {
    #[verifier::type_invariant]
    spec fn representable(self) -> bool {
        rfc3339_text(self.seconds as int, self.nanoseconds as int) is Some
    }

    /// Whole seconds since the Unix epoch.
    pub closed spec fn spec_seconds(self) -> int {
        self.seconds as int
    }

    /// Nanoseconds past the whole second.
    pub closed spec fn spec_nanoseconds(self) -> int {
        self.nanoseconds as int
    }

    /// The RFC 3339 text of this moment.
    pub open spec fn text(self) -> Seq<char> {
        rfc3339_text(self.spec_seconds(), self.spec_nanoseconds()).unwrap()
    }

    /// The moment the clock shows now: one that can be written out, and no leap second.
    pub fn now() -> (moment: Timestamp)
        ensures
            rfc3339_text(moment.spec_seconds(), moment.spec_nanoseconds()) is Some,
            moment.spec_nanoseconds() < 1_000_000_000,
    {
        let parts = chrono_now();
        Timestamp { seconds: parts.0, nanoseconds: parts.1 }
    }

    /// The moment `seconds` after the Unix epoch plus `nanoseconds`, or `None`
    /// where no date and time answers to these numbers.
    pub fn from_unix(seconds: i64, nanoseconds: u32) -> (moment: Option<Timestamp>)
        ensures
            moment is Some <==> rfc3339_text(seconds as int, nanoseconds as int) is Some,
            moment matches Some(m) ==> m.spec_seconds() == seconds && m.spec_nanoseconds()
                == nanoseconds,
    {
        match chrono_rfc3339(seconds, nanoseconds) {
            Some(_) => Some(Timestamp { seconds, nanoseconds }),
            None => None,
        }
    }

    /// Whole seconds since the Unix epoch.
    pub fn seconds(&self) -> (seconds: i64)
        ensures
            seconds == self.spec_seconds(),
    {
        self.seconds
    }

    /// Nanoseconds past the whole second.
    pub fn nanoseconds(&self) -> (nanoseconds: u32)
        ensures
            nanoseconds == self.spec_nanoseconds(),
    {
        self.nanoseconds
    }

    /// Writes the moment out as RFC 3339.
    pub fn to_rfc3339(&self) -> (text: String)
        ensures
            text@ == self.text(),
    {
        proof {
            use_type_invariant(self);
        }
        match chrono_rfc3339(self.seconds, self.nanoseconds) {
            Some(text) => text,
            None => String::new(),
        }
    }
}

/// A billable offering with a seat limit and a payment requirement.
///
/// The catalog is expected to keep `max_seats` at one or more; nothing here
/// depends on it.
#[derive(Debug)]
pub struct Plan {
    pub id: PlanId,
    pub name: String,
    pub max_seats: u32,
    pub requires_card_on_file: bool,
}

impl Clone for Plan {
    fn clone(&self) -> (copy: Plan)
        ensures
            copy == *self,
    {
        Plan {
            id: self.id.clone(),
            name: self.name.clone(),
            max_seats: self.max_seats,
            requires_card_on_file: self.requires_card_on_file,
        }
    }
}

/// The payment status of a tenant, as the payment system keeps it. The
/// workflow never builds or stores one; it only learns the flag through its
/// billing provider.
#[derive(Debug)]
pub struct BillingProfile {
    pub tenant_id: TenantId,
    pub has_active_payment_method: bool,
    pub payment_provider_customer_id: Option<String>,
}

impl Clone for BillingProfile {
    fn clone(&self) -> (copy: BillingProfile)
        ensures
            copy == *self,
    {
        BillingProfile {
            tenant_id: self.tenant_id.clone(),
            has_active_payment_method: self.has_active_payment_method,
            payment_provider_customer_id: match &self.payment_provider_customer_id {
                Some(id) => Some(id.clone()),
                None => None,
            },
        }
    }
}

/// The durable record that binds a tenant to a plan.
#[derive(Debug)]
pub struct Subscription {
    pub id: SubscriptionId,
    pub tenant_id: TenantId,
    pub plan_id: PlanId,
    pub created_at: Timestamp,
}

impl Subscription {
    /// A record for `tenant_id` on `plan_id` under `id`, stamped with the
    /// moment of the call.
    pub fn new(id: SubscriptionId, tenant_id: TenantId, plan_id: PlanId) -> (record: Subscription)
        ensures
            record.id == id,
            record.tenant_id == tenant_id,
            record.plan_id == plan_id,
    {
        Subscription { id, tenant_id, plan_id, created_at: Timestamp::now() }
    }

    /// Whether this record binds `tenant_id` to `plan_id` under an id that is
    /// not empty: what every record handed out for that pair has to satisfy.
    pub open spec fn binds(&self, tenant_id: &TenantId, plan_id: &PlanId) -> bool {
        &&& self.tenant_id@ == tenant_id@
        &&& self.plan_id@ == plan_id@
        &&& self.id@.len() > 0
    }
}

impl Clone for Subscription {
    fn clone(&self) -> (copy: Subscription)
        ensures
            copy == *self,
    {
        Subscription {
            id: self.id.clone(),
            tenant_id: self.tenant_id.clone(),
            plan_id: self.plan_id.clone(),
            created_at: self.created_at,
        }
    }
}

} // verus!
