use vstd::prelude::*;
use vstd::std_specs::convert::FromSpecImpl;

use crate::domain::CreateSubscriptionError;

verus! {

/// A rejection as it is shown to the caller of the HTTP interface.
///
/// `message` and `code` go into the response; `error_type` and
/// `error_attributes` are for the trace. The attributes are pairs of a name
/// and a value, and no name occurs twice.
#[derive(Debug)]
pub struct ApiError {
    pub message: String,
    pub code: u16,
    pub error_type: Option<String>,
    pub error_attributes: Vec<(String, String)>,
}

/// An `ApiError` with every text as a sequence of characters.
pub struct ApiErrorView {
    pub message: Seq<char>,
    pub code: u16,
    pub error_type: Option<Seq<char>>,
    pub error_attributes: Seq<(Seq<char>, Seq<char>)>,
}

impl View for ApiError {
    type V = ApiErrorView;

    open spec fn view(&self) -> ApiErrorView {
        ApiErrorView {
            message: self.message@,
            code: self.code,
            error_type: match self.error_type {
                Some(name) => Some(name@),
                None => None,
            },
            error_attributes: Seq::new(
                self.error_attributes@.len(),
                |i: int| (self.error_attributes@[i].0@, self.error_attributes@[i].1@),
            ),
        }
    }
}

impl ApiErrorView {
    /// No attribute name occurs twice.
    pub open spec fn names_are_distinct(self) -> bool {
        forall|i: int, j: int|
            0 <= i < j < self.error_attributes.len() ==> self.error_attributes[i].0
                != self.error_attributes[j].0
    }
}

impl ApiError {
    /// How each rejection is shown: not found as 404, not allowed as 403, a
    /// missing payment method as 422, and every unexpected failure as 500
    /// under a message that says nothing of its cause.
    pub open spec fn shown(error: CreateSubscriptionError) -> ApiErrorView {
        match error {
            CreateSubscriptionError::PlanNotFound(plan_id) => ApiErrorView {
                message: "Plan "@ + plan_id@ + " not found"@,
                code: 404,
                error_type: Some("PlanNotFound"@),
                error_attributes: seq![("plan_id"@, plan_id@)],
            },
            CreateSubscriptionError::PlanNotAllowed(tenant_id, plan_id) => ApiErrorView {
                message: "Tenant "@ + tenant_id@ + " is not allowed on plan "@ + plan_id@,
                code: 403,
                error_type: Some("PlanNotAllowed"@),
                error_attributes: seq![("tenant_id"@, tenant_id@), ("plan_id"@, plan_id@)],
            },
            CreateSubscriptionError::MissingPaymentMethod(tenant_id) => ApiErrorView {
                message: "Tenant "@ + tenant_id@ + " has no active payment method on file"@,
                code: 422,
                error_type: Some("MissingPaymentMethod"@),
                error_attributes: seq![("tenant_id"@, tenant_id@)],
            },
            CreateSubscriptionError::Unexpected(_) => ApiErrorView {
                message: "Internal server error"@,
                code: 500,
                error_type: Some("Unexpected"@),
                error_attributes: Seq::empty(),
            },
        }
    }
}

impl From<CreateSubscriptionError> for ApiError {
    fn from(error: CreateSubscriptionError) -> (shown: ApiError)
        ensures
            shown@ == ApiError::shown(error),
            shown@.names_are_distinct(),
    {
        match error {
            CreateSubscriptionError::PlanNotFound(plan_id) => {
                let mut message = String::from_str("Plan ");
                message.append(plan_id.as_str());
                message.append(" not found");
                let mut attributes: Vec<(String, String)> = Vec::new();
                attributes.push((String::from_str("plan_id"), plan_id.to_string()));
                let shown = ApiError {
                    message,
                    code: 404,
                    error_type: Some(String::from_str("PlanNotFound")),
                    error_attributes: attributes,
                };
                assert(shown@.error_attributes =~= seq![("plan_id"@, plan_id@)]);
                shown
            },
            CreateSubscriptionError::PlanNotAllowed(tenant_id, plan_id) => {
                let mut message = String::from_str("Tenant ");
                message.append(tenant_id.as_str());
                message.append(" is not allowed on plan ");
                message.append(plan_id.as_str());
                let mut attributes: Vec<(String, String)> = Vec::new();
                attributes.push((String::from_str("tenant_id"), tenant_id.to_string()));
                attributes.push((String::from_str("plan_id"), plan_id.to_string()));
                let shown = ApiError {
                    message,
                    code: 403,
                    error_type: Some(String::from_str("PlanNotAllowed")),
                    error_attributes: attributes,
                };
                proof {
                    reveal_strlit("tenant_id");
                    reveal_strlit("plan_id");
                    assert(shown@.error_attributes =~= seq![
                        ("tenant_id"@, tenant_id@),
                        ("plan_id"@, plan_id@),
                    ]);
                    assert("tenant_id"@.len() != "plan_id"@.len());
                }
                shown
            },
            CreateSubscriptionError::MissingPaymentMethod(tenant_id) => {
                let mut message = String::from_str("Tenant ");
                message.append(tenant_id.as_str());
                message.append(" has no active payment method on file");
                let mut attributes: Vec<(String, String)> = Vec::new();
                attributes.push((String::from_str("tenant_id"), tenant_id.to_string()));
                let shown = ApiError {
                    message,
                    code: 422,
                    error_type: Some(String::from_str("MissingPaymentMethod")),
                    error_attributes: attributes,
                };
                assert(shown@.error_attributes =~= seq![("tenant_id"@, tenant_id@)]);
                shown
            },
            CreateSubscriptionError::Unexpected(_) => {
                let shown = ApiError {
                    message: String::from_str("Internal server error"),
                    code: 500,
                    error_type: Some(String::from_str("Unexpected")),
                    error_attributes: Vec::new(),
                };
                assert(shown@.error_attributes =~= Seq::empty());
                shown
            },
        }
    }
}

impl FromSpecImpl<CreateSubscriptionError> for ApiError {
    /// The shown error is fixed by its texts, which `from` states itself; no
    /// value of the error type is singled out.
    open spec fn obeys_from_spec() -> bool {
        false
    }

    open spec fn from_spec(error: CreateSubscriptionError) -> ApiError {
        arbitrary()
    }
}

} // verus!
