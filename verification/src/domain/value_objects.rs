use vstd::prelude::*;
use vstd::std_specs::cmp::PartialEqSpecImpl;
use vstd::std_specs::convert::FromSpecImpl;

verus! {

/// Names the customer account that asks for a subscription.
///
/// The token is opaque: two identifiers are the same exactly when their
/// texts are the same, character for character.
#[derive(Debug, Hash)]
pub struct TenantId(pub String);

impl View for TenantId {
    type V = Seq<char>;

    open spec fn view(&self) -> Seq<char> {
        self.0@
    }
}

impl TenantId {
    /// Wraps `id` without looking into it.
    pub fn new(id: String) -> (wrapped: TenantId)
        ensures
            wrapped.0 == id,
    {
        TenantId(id)
    }

    /// The token as text.
    pub fn as_str(&self) -> (text: &str)
        ensures
            text@ == self@,
    {
        self.0.as_str()
    }

    /// The token as an owned string, as it is shown to a reader.
    pub fn to_string(&self) -> (text: String)
        ensures
            text == self.0,
    {
        self.0.clone()
    }
}

impl Clone for TenantId {
    fn clone(&self) -> (copy: TenantId)
        ensures
            copy == *self,
    {
        TenantId(self.0.clone())
    }
}

impl PartialEq for TenantId {
    fn eq(&self, other: &TenantId) -> (same: bool) {
        self.0 == other.0
    }
}

impl Eq for TenantId {
}

impl PartialEqSpecImpl for TenantId {
    open spec fn obeys_eq_spec() -> bool {
        true
    }

    open spec fn eq_spec(&self, other: &TenantId) -> bool {
        self@ == other@
    }
}

impl From<String> for TenantId {
    fn from(id: String) -> (wrapped: TenantId) {
        TenantId(id)
    }
}

impl FromSpecImpl<String> for TenantId {
    open spec fn obeys_from_spec() -> bool {
        true
    }

    open spec fn from_spec(id: String) -> TenantId {
        TenantId(id)
    }
}

impl<'a> From<&'a str> for TenantId {
    fn from(id: &'a str) -> (wrapped: TenantId)
        ensures
            wrapped@ == id@,
    {
        TenantId(String::from_str(id))
    }
}

impl<'a> FromSpecImpl<&'a str> for TenantId {
    /// The id is fixed by its text, which `from` states itself; no string
    /// is singled out to hold it.
    open spec fn obeys_from_spec() -> bool {
        false
    }

    open spec fn from_spec(id: &'a str) -> TenantId {
        arbitrary()
    }
}

impl AsRef<str> for TenantId {
    fn as_ref(&self) -> (text: &str)
        ensures
            text@ == self@,
    {
        self.0.as_str()
    }
}

/// Names a billable plan in the catalog.
///
/// The token is opaque: two identifiers are the same exactly when their
/// texts are the same, character for character.
#[derive(Debug, Hash)]
pub struct PlanId(pub String);

impl View for PlanId {
    type V = Seq<char>;

    open spec fn view(&self) -> Seq<char> {
        self.0@
    }
}

impl PlanId {
    /// Wraps `id` without looking into it.
    pub fn new(id: String) -> (wrapped: PlanId)
        ensures
            wrapped.0 == id,
    {
        PlanId(id)
    }

    /// The token as text.
    pub fn as_str(&self) -> (text: &str)
        ensures
            text@ == self@,
    {
        self.0.as_str()
    }

    /// The token as an owned string, as it is shown to a reader.
    pub fn to_string(&self) -> (text: String)
        ensures
            text == self.0,
    {
        self.0.clone()
    }
}

impl Clone for PlanId {
    fn clone(&self) -> (copy: PlanId)
        ensures
            copy == *self,
    {
        PlanId(self.0.clone())
    }
}

impl PartialEq for PlanId {
    fn eq(&self, other: &PlanId) -> (same: bool) {
        self.0 == other.0
    }
}

impl Eq for PlanId {
}

impl PartialEqSpecImpl for PlanId {
    open spec fn obeys_eq_spec() -> bool {
        true
    }

    open spec fn eq_spec(&self, other: &PlanId) -> bool {
        self@ == other@
    }
}

impl From<String> for PlanId {
    fn from(id: String) -> (wrapped: PlanId) {
        PlanId(id)
    }
}

impl FromSpecImpl<String> for PlanId {
    open spec fn obeys_from_spec() -> bool {
        true
    }

    open spec fn from_spec(id: String) -> PlanId {
        PlanId(id)
    }
}

impl<'a> From<&'a str> for PlanId {
    fn from(id: &'a str) -> (wrapped: PlanId)
        ensures
            wrapped@ == id@,
    {
        PlanId(String::from_str(id))
    }
}

impl<'a> FromSpecImpl<&'a str> for PlanId {
    /// The id is fixed by its text, which `from` states itself; no string
    /// is singled out to hold it.
    open spec fn obeys_from_spec() -> bool {
        false
    }

    open spec fn from_spec(id: &'a str) -> PlanId {
        arbitrary()
    }
}

impl AsRef<str> for PlanId {
    fn as_ref(&self) -> (text: &str)
        ensures
            text@ == self@,
    {
        self.0.as_str()
    }
}

/// Names one durable subscription record.
///
/// The token is opaque: two identifiers are the same exactly when their
/// texts are the same, character for character.
#[derive(Debug, Hash)]
pub struct SubscriptionId(pub String);

impl View for SubscriptionId {
    type V = Seq<char>;

    open spec fn view(&self) -> Seq<char> {
        self.0@
    }
}

impl SubscriptionId {
    /// Wraps `id` without looking into it.
    pub fn new(id: String) -> (wrapped: SubscriptionId)
        ensures
            wrapped.0 == id,
    {
        SubscriptionId(id)
    }

    /// The token as text.
    pub fn as_str(&self) -> (text: &str)
        ensures
            text@ == self@,
    {
        self.0.as_str()
    }

    /// The token as an owned string, as it is shown to a reader.
    pub fn to_string(&self) -> (text: String)
        ensures
            text == self.0,
    {
        self.0.clone()
    }
}

impl Clone for SubscriptionId {
    fn clone(&self) -> (copy: SubscriptionId)
        ensures
            copy == *self,
    {
        SubscriptionId(self.0.clone())
    }
}

impl PartialEq for SubscriptionId {
    fn eq(&self, other: &SubscriptionId) -> (same: bool) {
        self.0 == other.0
    }
}

impl Eq for SubscriptionId {
}

impl PartialEqSpecImpl for SubscriptionId {
    open spec fn obeys_eq_spec() -> bool {
        true
    }

    open spec fn eq_spec(&self, other: &SubscriptionId) -> bool {
        self@ == other@
    }
}

impl From<String> for SubscriptionId {
    fn from(id: String) -> (wrapped: SubscriptionId) {
        SubscriptionId(id)
    }
}

impl FromSpecImpl<String> for SubscriptionId {
    open spec fn obeys_from_spec() -> bool {
        true
    }

    open spec fn from_spec(id: String) -> SubscriptionId {
        SubscriptionId(id)
    }
}

impl<'a> From<&'a str> for SubscriptionId {
    fn from(id: &'a str) -> (wrapped: SubscriptionId)
        ensures
            wrapped@ == id@,
    {
        SubscriptionId(String::from_str(id))
    }
}

impl<'a> FromSpecImpl<&'a str> for SubscriptionId {
    /// The id is fixed by its text, which `from` states itself; no string
    /// is singled out to hold it.
    open spec fn obeys_from_spec() -> bool {
        false
    }

    open spec fn from_spec(id: &'a str) -> SubscriptionId {
        arbitrary()
    }
}

impl AsRef<str> for SubscriptionId {
    fn as_ref(&self) -> (text: &str)
        ensures
            text@ == self@,
    {
        self.0.as_str()
    }
}

} // verus!
