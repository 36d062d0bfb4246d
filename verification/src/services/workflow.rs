use vstd::prelude::*;

use super::authorization::TenantPlanAuthorizer;
use crate::domain::{
    CreateSubscriptionError, CreateSubscriptionRequest, InfrastructureError, Plan, PlanId,
    Subscription, TenantId,
};

verus! {

/// A question that the workflow puts to one of its data providers.
#[derive(Debug)]
pub enum PortCall {
    /// Look the plan up in the catalog.
    FindPlan(PlanId),
    /// Ask whether the tenant has a payment method that can be charged.
    HasActivePaymentMethod(TenantId),
    /// Record a subscription of the tenant to the plan.
    InsertSubscription(TenantId, PlanId),
}

/// What a data provider answered.
#[derive(Debug)]
pub enum PortReply {
    Plan(Result<Option<Plan>, InfrastructureError>),
    PaymentMethod(Result<bool, InfrastructureError>),
    Inserted(Result<Subscription, InfrastructureError>),
}

/// What the workflow wants next: an answer to a call, or nothing more.
#[derive(Debug)]
pub enum Step {
    Call(PortCall),
    Done(Result<Subscription, CreateSubscriptionError>),
}

/// How far one invocation has come.
#[derive(Debug, Clone, Copy, PartialEq, Eq, Structural)]
pub enum Stage {
    AwaitingPlan,
    AwaitingPaymentMethod,
    AwaitingInsert,
    Finished,
}

impl Stage {
    /// Whether `reply` is an answer to the call that is open at this stage.
    pub open spec fn awaits(self, reply: PortReply) -> bool {
        match (self, reply) {
            (Stage::AwaitingPlan, PortReply::Plan(_)) => true,
            (Stage::AwaitingPaymentMethod, PortReply::PaymentMethod(_)) => true,
            (Stage::AwaitingInsert, PortReply::Inserted(_)) => true,
            _ => false,
        }
    }

    /// The number of calls that can still follow.
    pub open spec fn calls_left(self) -> nat {
        match self {
            Stage::AwaitingPlan => 3,
            Stage::AwaitingPaymentMethod => 2,
            Stage::AwaitingInsert => 1,
            Stage::Finished => 0,
        }
    }
}

/// The decision once the catalog has answered.
pub open spec fn after_plan<A: TenantPlanAuthorizer>(
    request: CreateSubscriptionRequest,
    found: Result<Option<Plan>, InfrastructureError>,
    authorizer: &A,
) -> (Stage, Step) {
    match found {
        Err(cause) => (Stage::Finished, Step::Done(Err(CreateSubscriptionError::Unexpected(cause)))),
        Ok(None) => (
            Stage::Finished,
            Step::Done(Err(CreateSubscriptionError::PlanNotFound(request.plan_id))),
        ),
        Ok(Some(plan)) => if !authorizer.permits(&request.tenant_id, &plan) {
            (
                Stage::Finished,
                Step::Done(
                    Err(CreateSubscriptionError::PlanNotAllowed(request.tenant_id, plan.id)),
                ),
            )
        } else if plan.requires_card_on_file {
            (
                Stage::AwaitingPaymentMethod,
                Step::Call(PortCall::HasActivePaymentMethod(request.tenant_id)),
            )
        } else {
            (
                Stage::AwaitingInsert,
                Step::Call(PortCall::InsertSubscription(request.tenant_id, request.plan_id)),
            )
        },
    }
}

/// The decision once the payment status is known.
pub open spec fn after_payment_method(
    request: CreateSubscriptionRequest,
    active: Result<bool, InfrastructureError>,
) -> (Stage, Step) {
    match active {
        Err(cause) => (Stage::Finished, Step::Done(Err(CreateSubscriptionError::Unexpected(cause)))),
        Ok(false) => (
            Stage::Finished,
            Step::Done(Err(CreateSubscriptionError::MissingPaymentMethod(request.tenant_id))),
        ),
        Ok(true) => (
            Stage::AwaitingInsert,
            Step::Call(PortCall::InsertSubscription(request.tenant_id, request.plan_id)),
        ),
    }
}

/// The end of the invocation once the store has answered: its record is
/// handed on as it is, its failure becomes the unexpected kind.
pub open spec fn after_insert(inserted: Result<Subscription, InfrastructureError>) -> (Stage, Step) {
    match inserted {
        Err(cause) => (Stage::Finished, Step::Done(Err(CreateSubscriptionError::Unexpected(cause)))),
        Ok(record) => (Stage::Finished, Step::Done(Ok(record))),
    }
}

/// The transition of the workflow: from a stage and the answer to its open
/// call to the next stage and what is wanted there.
pub open spec fn next<A: TenantPlanAuthorizer>(
    request: CreateSubscriptionRequest,
    stage: Stage,
    reply: PortReply,
    authorizer: &A,
) -> (Stage, Step)
    recommends
        stage.awaits(reply),
{
    match reply {
        PortReply::Plan(found) => after_plan(request, found, authorizer),
        PortReply::PaymentMethod(active) => after_payment_method(request, active),
        PortReply::Inserted(inserted) => after_insert(inserted),
    }
}

/// One invocation of the subscription workflow, as a machine that is told
/// what the data providers answered and says what to ask next.
///
/// The caller performs each call and hands the answer to `advance`, until
/// `advance` says `Step::Done`. The machine never asks twice and never asks
/// for an insert before the plan was found, the policy agreed and, where the
/// plan wants a card on file, the tenant was seen to have one.
#[derive(Debug)]
pub struct Workflow {
    request: CreateSubscriptionRequest,
    stage: Stage,
}

impl Workflow {
    /// The request that this invocation serves.
    pub closed spec fn request(&self) -> CreateSubscriptionRequest {
        self.request
    }

    /// The stage that this invocation has reached.
    pub closed spec fn stage(&self) -> Stage {
        self.stage
    }

    /// Opens an invocation. The first call is always the plan lookup.
    pub fn start(request: CreateSubscriptionRequest) -> (started: (Workflow, PortCall))
        ensures
            started.0.request() == request,
            started.0.stage() == Stage::AwaitingPlan,
            started.1 == PortCall::FindPlan(request.plan_id),
    {
        let first = PortCall::FindPlan(request.plan_id.clone());
        (Workflow { request, stage: Stage::AwaitingPlan }, first)
    }

    /// The stage that this invocation has reached.
    pub fn current_stage(&self) -> (stage: Stage)
        ensures
            stage == self.stage(),
    {
        self.stage
    }

    /// Takes the answer to the open call and decides what follows.
    ///
    /// An answer that does not belong to the open call, or any answer once the
    /// invocation is finished, is not taken: the result is `None` and nothing
    /// changes.
    pub fn advance<A: TenantPlanAuthorizer>(&mut self, reply: PortReply, authorizer: &A) -> (step:
        Option<Step>)
        ensures
            final(self).request() == old(self).request(),
            old(self).stage().awaits(reply) ==> {
                let (stage, wanted) = next(old(self).request(), old(self).stage(), reply, authorizer);
                final(self).stage() == stage && step == Some(wanted)
            },
            !old(self).stage().awaits(reply) ==> step is None && final(self).stage() == old(
                self,
            ).stage(),
    {
        match (self.stage, reply) {
            (Stage::AwaitingPlan, PortReply::Plan(found)) => {
                match found {
                    Err(cause) => {
                        self.stage = Stage::Finished;
                        Some(Step::Done(Err(CreateSubscriptionError::from(cause))))
                    },
                    Ok(None) => {
                        self.stage = Stage::Finished;
                        Some(
                            Step::Done(
                                Err(
                                    CreateSubscriptionError::PlanNotFound(
                                        self.request.plan_id.clone(),
                                    ),
                                ),
                            ),
                        )
                    },
                    Ok(Some(plan)) => {
                        if !authorizer.is_allowed(&self.request.tenant_id, &plan) {
                            self.stage = Stage::Finished;
                            Some(
                                Step::Done(
                                    Err(
                                        CreateSubscriptionError::PlanNotAllowed(
                                            self.request.tenant_id.clone(),
                                            plan.id,
                                        ),
                                    ),
                                ),
                            )
                        } else if plan.requires_card_on_file {
                            self.stage = Stage::AwaitingPaymentMethod;
                            Some(
                                Step::Call(
                                    PortCall::HasActivePaymentMethod(
                                        self.request.tenant_id.clone(),
                                    ),
                                ),
                            )
                        } else {
                            self.stage = Stage::AwaitingInsert;
                            Some(
                                Step::Call(
                                    PortCall::InsertSubscription(
                                        self.request.tenant_id.clone(),
                                        self.request.plan_id.clone(),
                                    ),
                                ),
                            )
                        }
                    },
                }
            },
            (Stage::AwaitingPaymentMethod, PortReply::PaymentMethod(active)) => {
                match active {
                    Err(cause) => {
                        self.stage = Stage::Finished;
                        Some(Step::Done(Err(CreateSubscriptionError::from(cause))))
                    },
                    Ok(false) => {
                        self.stage = Stage::Finished;
                        Some(
                            Step::Done(
                                Err(
                                    CreateSubscriptionError::MissingPaymentMethod(
                                        self.request.tenant_id.clone(),
                                    ),
                                ),
                            ),
                        )
                    },
                    Ok(true) => {
                        self.stage = Stage::AwaitingInsert;
                        Some(
                            Step::Call(
                                PortCall::InsertSubscription(
                                    self.request.tenant_id.clone(),
                                    self.request.plan_id.clone(),
                                ),
                            ),
                        )
                    },
                }
            },
            (Stage::AwaitingInsert, PortReply::Inserted(inserted)) => {
                self.stage = Stage::Finished;
                match inserted {
                    Err(cause) => Some(Step::Done(Err(CreateSubscriptionError::from(cause)))),
                    Ok(record) => Some(Step::Done(Ok(record))),
                }
            },
            _ => None,
        }
    }
}

/// What the three data providers answer when one invocation asks them.
///
/// An invocation asks each provider at most once, so one answer each says
/// all that the providers contribute to it.
pub struct PortAnswers {
    pub plan: Result<Option<Plan>, InfrastructureError>,
    pub payment_method: Result<bool, InfrastructureError>,
    pub inserted: Result<Subscription, InfrastructureError>,
}

impl PortAnswers {
    /// The answer to `call`.
    pub open spec fn reply_to(self, call: PortCall) -> PortReply {
        match call {
            PortCall::FindPlan(_) => PortReply::Plan(self.plan),
            PortCall::HasActivePaymentMethod(_) => PortReply::PaymentMethod(self.payment_method),
            PortCall::InsertSubscription(_, _) => PortReply::Inserted(self.inserted),
        }
    }
}

/// Whether the checks that come before the insert all pass: the plan exists,
/// the policy agrees, and a plan that wants a card on file meets a tenant who
/// has one.
pub open spec fn eligible<A: TenantPlanAuthorizer>(
    request: CreateSubscriptionRequest,
    authorizer: &A,
    answers: PortAnswers,
) -> bool {
    &&& answers.plan matches Ok(Some(plan))
    &&& authorizer.permits(&request.tenant_id, &plan)
    &&& plan.requires_card_on_file ==> answers.payment_method == Ok::<bool, InfrastructureError>(
        true,
    )
}

/// The result of one invocation, given what the providers answer.
pub open spec fn outcome<A: TenantPlanAuthorizer>(
    request: CreateSubscriptionRequest,
    authorizer: &A,
    answers: PortAnswers,
) -> Result<Subscription, CreateSubscriptionError> {
    match answers.plan {
        Err(cause) => Err(CreateSubscriptionError::Unexpected(cause)),
        Ok(None) => Err(CreateSubscriptionError::PlanNotFound(request.plan_id)),
        Ok(Some(plan)) => if !authorizer.permits(&request.tenant_id, &plan) {
            Err(CreateSubscriptionError::PlanNotAllowed(request.tenant_id, plan.id))
        } else {
            match (plan.requires_card_on_file, answers.payment_method) {
                (true, Err(cause)) => Err(CreateSubscriptionError::Unexpected(cause)),
                (true, Ok(false)) => Err(
                    CreateSubscriptionError::MissingPaymentMethod(request.tenant_id),
                ),
                _ => match answers.inserted {
                    Err(cause) => Err(CreateSubscriptionError::Unexpected(cause)),
                    Ok(record) => Ok(record),
                },
            }
        },
    }
}

/// The calls that one invocation makes, in order, given what the providers
/// answer.
pub open spec fn port_calls<A: TenantPlanAuthorizer>(
    request: CreateSubscriptionRequest,
    authorizer: &A,
    answers: PortAnswers,
) -> Seq<PortCall> {
    let lookup = PortCall::FindPlan(request.plan_id);
    let billing = PortCall::HasActivePaymentMethod(request.tenant_id);
    let insert = PortCall::InsertSubscription(request.tenant_id, request.plan_id);
    match answers.plan {
        Ok(Some(plan)) => if !authorizer.permits(&request.tenant_id, &plan) {
            seq![lookup]
        } else if !plan.requires_card_on_file {
            seq![lookup, insert]
        } else if answers.payment_method == Ok::<bool, InfrastructureError>(true) {
            seq![lookup, billing, insert]
        } else {
            seq![lookup, billing]
        },
        _ => seq![lookup],
    }
}

/// The calls made and the result reached when the machine is driven to its
/// end.
pub struct Run {
    pub calls: Seq<PortCall>,
    pub result: Result<Subscription, CreateSubscriptionError>,
}

/// Drives the machine from `stage`, where it wants `step`, to its end: each
/// call is answered from `answers` and the answer is fed to `next`. There is
/// no run where `step` is a call that `stage` does not wait for.
pub open spec fn drive<A: TenantPlanAuthorizer>(
    request: CreateSubscriptionRequest,
    authorizer: &A,
    answers: PortAnswers,
    stage: Stage,
    step: Step,
) -> Option<Run>
    decreases stage.calls_left(),
{
    match step {
        Step::Done(result) => Some(Run { calls: Seq::empty(), result }),
        Step::Call(call) => {
            let reply = answers.reply_to(call);
            if stage.awaits(reply) {
                let (stage_after, step_after) = next(request, stage, reply, authorizer);
                match drive(request, authorizer, answers, stage_after, step_after) {
                    Some(rest) => Some(
                        Run { calls: seq![call] + rest.calls, result: rest.result },
                    ),
                    None => None,
                }
            } else {
                None
            }
        },
    }
}

/// Every transition that takes an answer leaves fewer calls to come, so an
/// invocation makes at most three.
pub proof fn next_comes_closer<A: TenantPlanAuthorizer>(
    request: CreateSubscriptionRequest,
    stage: Stage,
    reply: PortReply,
    authorizer: &A,
)
    requires
        stage.awaits(reply),
    ensures
        next(request, stage, reply, authorizer).0.calls_left() < stage.calls_left(),
        next(request, stage, reply, authorizer).1 is Done <==> next(
            request,
            stage,
            reply,
            authorizer,
        ).0 == Stage::Finished,
{
}

/// The machine, driven from its start, makes exactly the calls of
/// `port_calls` and ends with `outcome`.
pub proof fn machine_follows_the_rules<A: TenantPlanAuthorizer>(
    request: CreateSubscriptionRequest,
    authorizer: &A,
    answers: PortAnswers,
)
    ensures
        drive(
            request,
            authorizer,
            answers,
            Stage::AwaitingPlan,
            Step::Call(PortCall::FindPlan(request.plan_id)),
        ) == Some(
            Run {
                calls: port_calls(request, authorizer, answers),
                result: outcome(request, authorizer, answers),
            },
        ),
{
    reveal_with_fuel(drive, 4);
    let run = drive(
        request,
        authorizer,
        answers,
        Stage::AwaitingPlan,
        Step::Call(PortCall::FindPlan(request.plan_id)),
    );
    assert(run->0.calls =~= port_calls(request, authorizer, answers));
}

/// Whether the machine can stand at `stage` and want `step` in an invocation
/// whose providers answer as in `answers`.
pub open spec fn on_course<A: TenantPlanAuthorizer>(
    request: CreateSubscriptionRequest,
    authorizer: &A,
    answers: PortAnswers,
    stage: Stage,
    step: Step,
) -> bool {
    match stage {
        Stage::AwaitingPlan => step == Step::Call(PortCall::FindPlan(request.plan_id)),
        Stage::AwaitingPaymentMethod => {
            &&& step == Step::Call(PortCall::HasActivePaymentMethod(request.tenant_id))
            &&& answers.plan matches Ok(Some(plan))
            &&& authorizer.permits(&request.tenant_id, &plan)
            &&& plan.requires_card_on_file
        },
        Stage::AwaitingInsert => {
            &&& step == Step::Call(
                PortCall::InsertSubscription(request.tenant_id, request.plan_id),
            )
            &&& eligible(request, authorizer, answers)
        },
        Stage::Finished => step == Step::Done(outcome(request, authorizer, answers)),
    }
}

/// A machine that is on course stays on course when it is given the answer
/// to the call it wants.
pub proof fn next_stays_on_course<A: TenantPlanAuthorizer>(
    request: CreateSubscriptionRequest,
    authorizer: &A,
    answers: PortAnswers,
    stage: Stage,
    call: PortCall,
)
    requires
        on_course(request, authorizer, answers, stage, Step::Call(call)),
    ensures
        stage.awaits(answers.reply_to(call)),
        ({
            let (stage_after, step_after) = next(
                request,
                stage,
                answers.reply_to(call),
                authorizer,
            );
            on_course(request, authorizer, answers, stage_after, step_after)
        }),
{
}

/// A plan that the catalog does not hold is reported as not found, with the
/// id that was asked for, whoever the tenant is; nothing but the lookup is
/// called.
pub proof fn unknown_plan_is_not_found<A: TenantPlanAuthorizer>(
    request: CreateSubscriptionRequest,
    authorizer: &A,
    answers: PortAnswers,
)
    requires
        answers.plan == Ok::<Option<Plan>, InfrastructureError>(None),
    ensures
        outcome(request, authorizer, answers) == Err::<Subscription, CreateSubscriptionError>(
            CreateSubscriptionError::PlanNotFound(request.plan_id),
        ),
        port_calls(request, authorizer, answers) == seq![PortCall::FindPlan(request.plan_id)],
{
}

/// For a plan that wants no card on file and that the policy allows, the
/// billing provider is never asked: the lookup is followed at once by the
/// insert, and the invocation succeeds exactly when the insert does.
pub proof fn plan_without_card_skips_billing<A: TenantPlanAuthorizer>(
    request: CreateSubscriptionRequest,
    authorizer: &A,
    answers: PortAnswers,
    plan: Plan,
)
    requires
        answers.plan == Ok::<Option<Plan>, InfrastructureError>(Some(plan)),
        !plan.requires_card_on_file,
        authorizer.permits(&request.tenant_id, &plan),
    ensures
        port_calls(request, authorizer, answers) == seq![
            PortCall::FindPlan(request.plan_id),
            PortCall::InsertSubscription(request.tenant_id, request.plan_id),
        ],
        forall|i: int|
            0 <= i < port_calls(request, authorizer, answers).len() ==> !(#[trigger] port_calls(
                request,
                authorizer,
                answers,
            )[i] is HasActivePaymentMethod),
        answers.inserted matches Ok(record) ==> outcome(request, authorizer, answers) == Ok::<
            Subscription,
            CreateSubscriptionError,
        >(record),
        answers.inserted matches Err(cause) ==> outcome(request, authorizer, answers) == Err::<
            Subscription,
            CreateSubscriptionError,
        >(CreateSubscriptionError::Unexpected(cause)),
{
}

/// For a plan that wants a card on file and that the policy allows, a tenant
/// without an active payment method is turned away under the tenant's own id,
/// and the subscription store is never asked.
pub proof fn missing_payment_method_stops_before_insert<A: TenantPlanAuthorizer>(
    request: CreateSubscriptionRequest,
    authorizer: &A,
    answers: PortAnswers,
    plan: Plan,
)
    requires
        answers.plan == Ok::<Option<Plan>, InfrastructureError>(Some(plan)),
        plan.requires_card_on_file,
        authorizer.permits(&request.tenant_id, &plan),
        answers.payment_method == Ok::<bool, InfrastructureError>(false),
    ensures
        outcome(request, authorizer, answers) == Err::<Subscription, CreateSubscriptionError>(
            CreateSubscriptionError::MissingPaymentMethod(request.tenant_id),
        ),
        port_calls(request, authorizer, answers) == seq![
            PortCall::FindPlan(request.plan_id),
            PortCall::HasActivePaymentMethod(request.tenant_id),
        ],
        forall|i: int|
            0 <= i < port_calls(request, authorizer, answers).len() ==> !(#[trigger] port_calls(
                request,
                authorizer,
                answers,
            )[i] is InsertSubscription),
{
}

/// The subscription store is asked exactly when every check has passed, and
/// then as the last call, once, for the tenant and the plan of the request.
pub proof fn insert_only_when_eligible<A: TenantPlanAuthorizer>(
    request: CreateSubscriptionRequest,
    authorizer: &A,
    answers: PortAnswers,
)
    ensures
        eligible(request, authorizer, answers) <==> exists|i: int|
            0 <= i < port_calls(request, authorizer, answers).len() && #[trigger] port_calls(
                request,
                authorizer,
                answers,
            )[i] is InsertSubscription,
        eligible(request, authorizer, answers) ==> port_calls(
            request,
            authorizer,
            answers,
        ).last() == PortCall::InsertSubscription(request.tenant_id, request.plan_id),
        forall|i: int|
            0 <= i < port_calls(request, authorizer, answers).len() - 1 ==> !(#[trigger] port_calls(
                request,
                authorizer,
                answers,
            )[i] is InsertSubscription),
        outcome(request, authorizer, answers) is Ok ==> eligible(request, authorizer, answers),
{
}

/// A success hands on the very record that the subscription store returned.
/// Where the store keeps its word, that record names the tenant and the plan
/// of the request and has an id that is not empty.
pub proof fn success_is_the_stored_record<A: TenantPlanAuthorizer>(
    request: CreateSubscriptionRequest,
    authorizer: &A,
    answers: PortAnswers,
    record: Subscription,
)
    requires
        outcome(request, authorizer, answers) == Ok::<Subscription, CreateSubscriptionError>(
            record,
        ),
        answers.inserted matches Ok(stored) ==> stored.binds(
            &request.tenant_id,
            &request.plan_id,
        ),
    ensures
        answers.inserted == Ok::<Subscription, InfrastructureError>(record),
        record.tenant_id@ == request.tenant_id@,
        record.plan_id@ == request.plan_id@,
        record.id@.len() > 0,
{
}

/// The workflow keeps no memory of earlier invocations: a request that was
/// served once is checked and inserted again when it comes a second time, and
/// each invocation hands on the record of its own insert. Two records with
/// different ids make two different results.
pub proof fn repeated_request_is_inserted_again<A: TenantPlanAuthorizer>(
    request: CreateSubscriptionRequest,
    authorizer: &A,
    first: PortAnswers,
    second: PortAnswers,
)
    requires
        first.plan == second.plan,
        first.payment_method == second.payment_method,
        outcome(request, authorizer, first) is Ok,
    ensures
        port_calls(request, authorizer, second) == port_calls(request, authorizer, first),
        port_calls(request, authorizer, second).last() == PortCall::InsertSubscription(
            request.tenant_id,
            request.plan_id,
        ),
        second.inserted matches Ok(record) ==> outcome(request, authorizer, second) == Ok::<
            Subscription,
            CreateSubscriptionError,
        >(record),
        (first.inserted matches Ok(one) && second.inserted matches Ok(other) && one.id@
            != other.id@) ==> outcome(request, authorizer, first) != outcome(
            request,
            authorizer,
            second,
        ),
{
}

} // verus!
