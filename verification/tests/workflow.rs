use hexagonal_rust::domain::{
    CreateSubscriptionError, CreateSubscriptionRequest, InfrastructureError, Plan, PlanId,
    Subscription, SubscriptionId, TenantId,
};
use hexagonal_rust::services::{AllowAll, PortCall, PortReply, Stage, Step, Workflow};

fn request(tenant: &str, plan: &str) -> CreateSubscriptionRequest {
    CreateSubscriptionRequest {
        tenant_id: TenantId(tenant.to_string()),
        plan_id: PlanId(plan.to_string()),
    }
}

fn plan(id: &str, requires_card_on_file: bool) -> Plan {
    Plan {
        id: PlanId(id.to_string()),
        name: format!("{} plan", id),
        max_seats: 10,
        requires_card_on_file,
    }
}

fn record(id: &str, tenant: &str, plan: &str) -> Subscription {
    Subscription::new(
        SubscriptionId(id.to_string()),
        TenantId(tenant.to_string()),
        PlanId(plan.to_string()),
    )
}

#[test]
fn workflow_starts_with_the_plan_lookup() {
    let (workflow, first) = Workflow::start(request("t1", "pro"));
    assert_eq!(workflow.current_stage(), Stage::AwaitingPlan);
    match first {
        PortCall::FindPlan(id) => assert_eq!(id.as_str(), "pro"),
        other => panic!("unexpected call: {:?}", other),
    }
}

#[test]
fn workflow_runs_lookup_billing_insert_for_a_paid_plan() {
    let (mut workflow, _) = Workflow::start(request("t1", "pro"));

    let step = workflow.advance(PortReply::Plan(Ok(Some(plan("pro", true)))), &AllowAll);
    match step {
        Some(Step::Call(PortCall::HasActivePaymentMethod(tenant))) => {
            assert_eq!(tenant.as_str(), "t1")
        }
        other => panic!("unexpected step: {:?}", other),
    }
    assert_eq!(workflow.current_stage(), Stage::AwaitingPaymentMethod);

    let step = workflow.advance(PortReply::PaymentMethod(Ok(true)), &AllowAll);
    match step {
        Some(Step::Call(PortCall::InsertSubscription(tenant, plan))) => {
            assert_eq!(tenant.as_str(), "t1");
            assert_eq!(plan.as_str(), "pro");
        }
        other => panic!("unexpected step: {:?}", other),
    }
    assert_eq!(workflow.current_stage(), Stage::AwaitingInsert);

    let step = workflow.advance(PortReply::Inserted(Ok(record("sub_1", "t1", "pro"))), &AllowAll);
    match step {
        Some(Step::Done(Ok(subscription))) => {
            assert_eq!(subscription.id.as_str(), "sub_1");
            assert_eq!(subscription.tenant_id.as_str(), "t1");
            assert_eq!(subscription.plan_id.as_str(), "pro");
        }
        other => panic!("unexpected step: {:?}", other),
    }
    assert_eq!(workflow.current_stage(), Stage::Finished);
}

#[test]
fn workflow_goes_from_lookup_to_insert_for_a_free_plan() {
    let (mut workflow, _) = Workflow::start(request("t1", "free"));
    let step = workflow.advance(PortReply::Plan(Ok(Some(plan("free", false)))), &AllowAll);
    assert!(matches!(step, Some(Step::Call(PortCall::InsertSubscription(_, _)))));
    assert_eq!(workflow.current_stage(), Stage::AwaitingInsert);
}

#[test]
fn workflow_ends_on_a_missing_plan() {
    let (mut workflow, _) = Workflow::start(request("t1", "ghost"));
    let step = workflow.advance(PortReply::Plan(Ok(None)), &AllowAll);
    match step {
        Some(Step::Done(Err(CreateSubscriptionError::PlanNotFound(id)))) => {
            assert_eq!(id.as_str(), "ghost")
        }
        other => panic!("unexpected step: {:?}", other),
    }
    assert_eq!(workflow.current_stage(), Stage::Finished);
}

#[test]
fn workflow_ends_on_a_missing_payment_method() {
    let (mut workflow, _) = Workflow::start(request("t1", "pro"));
    workflow.advance(PortReply::Plan(Ok(Some(plan("pro", true)))), &AllowAll);
    let step = workflow.advance(PortReply::PaymentMethod(Ok(false)), &AllowAll);
    match step {
        Some(Step::Done(Err(CreateSubscriptionError::MissingPaymentMethod(tenant)))) => {
            assert_eq!(tenant.as_str(), "t1")
        }
        other => panic!("unexpected step: {:?}", other),
    }
    assert_eq!(workflow.current_stage(), Stage::Finished);
}

#[test]
fn workflow_turns_every_fault_into_unexpected() {
    let fault = || InfrastructureError::new("boom".to_string());

    let (mut workflow, _) = Workflow::start(request("t1", "pro"));
    let step = workflow.advance(PortReply::Plan(Err(fault())), &AllowAll);
    assert!(matches!(step, Some(Step::Done(Err(CreateSubscriptionError::Unexpected(_))))));

    let (mut workflow, _) = Workflow::start(request("t1", "pro"));
    workflow.advance(PortReply::Plan(Ok(Some(plan("pro", true)))), &AllowAll);
    let step = workflow.advance(PortReply::PaymentMethod(Err(fault())), &AllowAll);
    assert!(matches!(step, Some(Step::Done(Err(CreateSubscriptionError::Unexpected(_))))));

    let (mut workflow, _) = Workflow::start(request("t1", "free"));
    workflow.advance(PortReply::Plan(Ok(Some(plan("free", false)))), &AllowAll);
    let step = workflow.advance(PortReply::Inserted(Err(fault())), &AllowAll);
    match step {
        Some(Step::Done(Err(CreateSubscriptionError::Unexpected(cause)))) => {
            assert_eq!(cause.message, "boom")
        }
        other => panic!("unexpected step: {:?}", other),
    }
}

#[test]
fn workflow_takes_no_answer_out_of_turn() {
    let (mut workflow, _) = Workflow::start(request("t1", "pro"));
    assert!(workflow.advance(PortReply::PaymentMethod(Ok(true)), &AllowAll).is_none());
    assert!(workflow
        .advance(PortReply::Inserted(Ok(record("sub_1", "t1", "pro"))), &AllowAll)
        .is_none());
    assert_eq!(workflow.current_stage(), Stage::AwaitingPlan);

    workflow.advance(PortReply::Plan(Ok(None)), &AllowAll);
    assert_eq!(workflow.current_stage(), Stage::Finished);
    assert!(workflow.advance(PortReply::Plan(Ok(None)), &AllowAll).is_none());
    assert!(workflow.advance(PortReply::PaymentMethod(Ok(true)), &AllowAll).is_none());
    assert_eq!(workflow.current_stage(), Stage::Finished);
}
