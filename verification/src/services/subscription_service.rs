use vstd::prelude::*;

use super::authorization::{AllowAll, TenantPlanAuthorizer};
use super::workflow::{
    next_stays_on_course, on_course, outcome, PortAnswers, PortCall, PortReply, Stage, Step,
    Workflow,
};
use crate::domain::{
    CreateSubscriptionError, CreateSubscriptionRequest, InfrastructureError, Subscription,
};
use crate::ports::{BillingProfileRepository, PlanRepository, SubscriptionRepository};

verus! {

/// Creates subscriptions against three data providers and a policy.
///
/// The service holds no state of its own: every invocation runs one
/// `Workflow` to its end, asking the providers as the workflow says.
pub struct SubscriptionService<P, B, S, A> where
    P: PlanRepository,
    B: BillingProfileRepository,
    S: SubscriptionRepository,
    A: TenantPlanAuthorizer,
 {
    plans: P,
    billing_profiles: B,
    subscriptions: S,
    authorizer: A,
}

impl<P, B, S> SubscriptionService<P, B, S, AllowAll> where
    P: PlanRepository,
    B: BillingProfileRepository,
    S: SubscriptionRepository,
 {
    /// A service under the default policy, which allows every tenant on
    /// every plan.
    pub fn new(plans: P, billing_profiles: B, subscriptions: S) -> (service: Self)
        ensures
            service.plans() == plans,
            service.billing_profiles() == billing_profiles,
            service.subscriptions() == subscriptions,
            service.authorizer() == AllowAll,
    {
        SubscriptionService { plans, billing_profiles, subscriptions, authorizer: AllowAll }
    }
}

impl<P, B, S, A> SubscriptionService<P, B, S, A> where
    P: PlanRepository,
    B: BillingProfileRepository,
    S: SubscriptionRepository,
    A: TenantPlanAuthorizer,
 {
    /// The plan catalog that this service asks.
    pub closed spec fn plans(&self) -> P {
        self.plans
    }

    /// The billing provider that this service asks.
    pub closed spec fn billing_profiles(&self) -> B {
        self.billing_profiles
    }

    /// The subscription store that this service writes to.
    pub closed spec fn subscriptions(&self) -> S {
        self.subscriptions
    }

    /// The policy that this service asks.
    pub closed spec fn authorizer(&self) -> A {
        self.authorizer
    }

    /// A service under a policy of the caller's choice.
    pub fn with_authorizer(plans: P, billing_profiles: B, subscriptions: S, authorizer: A) -> (service:
        Self)
        ensures
            service.plans() == plans,
            service.billing_profiles() == billing_profiles,
            service.subscriptions() == subscriptions,
            service.authorizer() == authorizer,
    {
        SubscriptionService { plans, billing_profiles, subscriptions, authorizer }
    }

    /// Validates the request and, where every check passes, records the
    /// subscription.
    ///
    /// What the providers answer is not known before they are asked, so the
    /// contract speaks of every run: the result is the `outcome` of the
    /// request for the answers that the providers gave, each provider having
    /// been asked at most once, and the record of a success is the one the
    /// store returned for this tenant and this plan.
    pub fn create_subscription(&self, request: &CreateSubscriptionRequest) -> (result: Result<
        Subscription,
        CreateSubscriptionError,
    >)
        ensures
            exists|answers: PortAnswers|
                {
                    &&& #[trigger] outcome(*request, &self.authorizer(), answers) == result
                    &&& answers.inserted matches Ok(record) ==> record.binds(
                        &request.tenant_id,
                        &request.plan_id,
                    )
                },
            result matches Ok(record) ==> record.binds(&request.tenant_id, &request.plan_id),
            result matches Err(CreateSubscriptionError::PlanNotFound(plan_id)) ==> plan_id
                == request.plan_id,
            result matches Err(CreateSubscriptionError::PlanNotAllowed(tenant_id, _))
                ==> tenant_id == request.tenant_id,
            result matches Err(CreateSubscriptionError::MissingPaymentMethod(tenant_id))
                ==> tenant_id == request.tenant_id,
    {
        let (mut workflow, first) = Workflow::start(request.clone());
        let mut step = Step::Call(first);
        let ghost mut answers = PortAnswers {
            plan: Ok(None),
            payment_method: Ok(false),
            inserted: Err(arbitrary()),
        };
        loop
            invariant
                workflow.request() == *request,
                on_course(*request, &self.authorizer, answers, workflow.stage(), step),
                answers.inserted matches Ok(record) ==> record.binds(
                    &request.tenant_id,
                    &request.plan_id,
                ),
            decreases workflow.stage().calls_left(),
        {
            match step {
                Step::Done(result) => {
                    assert(outcome(*request, &self.authorizer(), answers) == result);
                    return result;
                },
                Step::Call(call) => {
                    let reply = match call {
                        PortCall::FindPlan(plan_id) => {
                            let found = self.plans.find_plan(&plan_id);
                            proof {
                                answers = PortAnswers { plan: found, ..answers };
                            }
                            PortReply::Plan(found)
                        },
                        PortCall::HasActivePaymentMethod(tenant_id) => {
                            let active = self.billing_profiles.has_active_payment_method(
                                &tenant_id,
                            );
                            proof {
                                answers = PortAnswers { payment_method: active, ..answers };
                            }
                            PortReply::PaymentMethod(active)
                        },
                        PortCall::InsertSubscription(tenant_id, plan_id) => {
                            let inserted = self.subscriptions.insert_subscription(
                                &tenant_id,
                                &plan_id,
                            );
                            proof {
                                answers = PortAnswers { inserted, ..answers };
                            }
                            PortReply::Inserted(inserted)
                        },
                    };
                    proof {
                        next_stays_on_course(
                            *request,
                            &self.authorizer,
                            answers,
                            workflow.stage(),
                            call,
                        );
                    }
                    match workflow.advance(reply, &self.authorizer) {
                        Some(wanted) => {
                            step = wanted;
                        },
                        None => {
                            return vstd::pervasive::unreached();
                        },
                    }
                },
            }
        }
    }
}

} // verus!
