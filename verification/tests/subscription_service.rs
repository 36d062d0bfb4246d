use std::cell::Cell;

use hexagonal_rust::domain::{
    CreateSubscriptionError, CreateSubscriptionRequest, InfrastructureError, Plan, PlanId,
    Subscription, SubscriptionId, TenantId,
};
use hexagonal_rust::ports::{BillingProfileRepository, PlanRepository, SubscriptionRepository};
use hexagonal_rust::services::{SubscriptionService, TenantPlanAuthorizer};

struct MockPlanRepository {
    plans: Vec<Plan>,
}

impl MockPlanRepository {
    fn new() -> Self {
        Self {
            plans: vec![
                Plan {
                    id: PlanId("pro".to_string()),
                    name: "Pro Plan".to_string(),
                    max_seats: 10,
                    requires_card_on_file: true,
                },
                Plan {
                    id: PlanId("free".to_string()),
                    name: "Free Plan".to_string(),
                    max_seats: 1,
                    requires_card_on_file: false,
                },
            ],
        }
    }
}

impl PlanRepository for MockPlanRepository {
    fn find_plan(&self, plan_id: &PlanId) -> Result<Option<Plan>, InfrastructureError> {
        Ok(self.plans.iter().find(|p| &p.id == plan_id).cloned())
    }
}

struct MockBillingProfileRepository {
    has_payment_method: bool,
}

impl BillingProfileRepository for MockBillingProfileRepository {
    fn has_active_payment_method(&self, _tenant_id: &TenantId) -> Result<bool, InfrastructureError> {
        Ok(self.has_payment_method)
    }
}

struct MockSubscriptionRepository;

impl SubscriptionRepository for MockSubscriptionRepository {
    fn insert_subscription(
        &self,
        tenant_id: &TenantId,
        plan_id: &PlanId,
    ) -> Result<Subscription, InfrastructureError> {
        Ok(Subscription::new(
            SubscriptionId("sub_123".to_string()),
            tenant_id.clone(),
            plan_id.clone(),
        ))
    }
}

/// A billing provider that counts how often it is asked.
struct SpyBilling<'a> {
    has_payment_method: bool,
    calls: &'a Cell<u32>,
}

impl BillingProfileRepository for SpyBilling<'_> {
    fn has_active_payment_method(&self, _tenant_id: &TenantId) -> Result<bool, InfrastructureError> {
        self.calls.set(self.calls.get() + 1);
        Ok(self.has_payment_method)
    }
}

/// A subscription store that counts how often it is asked and numbers its
/// records.
struct SpySubscriptions<'a> {
    calls: &'a Cell<u32>,
}

impl SubscriptionRepository for SpySubscriptions<'_> {
    fn insert_subscription(
        &self,
        tenant_id: &TenantId,
        plan_id: &PlanId,
    ) -> Result<Subscription, InfrastructureError> {
        self.calls.set(self.calls.get() + 1);
        Ok(Subscription::new(
            SubscriptionId(format!("sub_{}", self.calls.get())),
            tenant_id.clone(),
            plan_id.clone(),
        ))
    }
}

struct FailingPlans;

impl PlanRepository for FailingPlans {
    fn find_plan(&self, _plan_id: &PlanId) -> Result<Option<Plan>, InfrastructureError> {
        Err(InfrastructureError::new("catalog unreachable".to_string()))
    }
}

struct FailingBilling;

impl BillingProfileRepository for FailingBilling {
    fn has_active_payment_method(&self, _tenant_id: &TenantId) -> Result<bool, InfrastructureError> {
        Err(InfrastructureError::new("billing unreachable".to_string()))
    }
}

struct FailingSubscriptions;

impl SubscriptionRepository for FailingSubscriptions {
    fn insert_subscription(
        &self,
        _tenant_id: &TenantId,
        _plan_id: &PlanId,
    ) -> Result<Subscription, InfrastructureError> {
        Err(InfrastructureError::new("disk full".to_string()))
    }
}

struct DenyAll;

impl TenantPlanAuthorizer for DenyAll {
    fn permits(&self, _tenant_id: &TenantId, _plan: &Plan) -> bool {
        false
    }

    fn is_allowed(&self, _tenant_id: &TenantId, _plan: &Plan) -> bool {
        false
    }
}

fn request(tenant: &str, plan: &str) -> CreateSubscriptionRequest {
    CreateSubscriptionRequest {
        tenant_id: TenantId(tenant.to_string()),
        plan_id: PlanId(plan.to_string()),
    }
}

#[test]
fn test_create_subscription_success() {
    let service = SubscriptionService::new(
        MockPlanRepository::new(),
        MockBillingProfileRepository { has_payment_method: true },
        MockSubscriptionRepository,
    );

    let request = CreateSubscriptionRequest {
        tenant_id: TenantId("tenant_1".to_string()),
        plan_id: PlanId("pro".to_string()),
    };

    let result = service.create_subscription(&request);
    assert!(result.is_ok());

    let subscription = result.unwrap();
    assert_eq!(subscription.tenant_id, request.tenant_id);
    assert_eq!(subscription.plan_id, request.plan_id);
}

#[test]
fn test_create_subscription_plan_not_found() {
    let service = SubscriptionService::new(
        MockPlanRepository::new(),
        MockBillingProfileRepository { has_payment_method: true },
        MockSubscriptionRepository,
    );

    let request = CreateSubscriptionRequest {
        tenant_id: TenantId("tenant_1".to_string()),
        plan_id: PlanId("nonexistent".to_string()),
    };

    let result = service.create_subscription(&request);
    assert!(matches!(result, Err(CreateSubscriptionError::PlanNotFound(_))));
}

#[test]
fn test_create_subscription_missing_payment_method() {
    let service = SubscriptionService::new(
        MockPlanRepository::new(),
        MockBillingProfileRepository { has_payment_method: false },
        MockSubscriptionRepository,
    );

    let request = CreateSubscriptionRequest {
        tenant_id: TenantId("tenant_1".to_string()),
        plan_id: PlanId("pro".to_string()),
    };

    let result = service.create_subscription(&request);
    assert!(matches!(result, Err(CreateSubscriptionError::MissingPaymentMethod(_))));
}

#[test]
fn test_create_subscription_free_plan_no_payment_required() {
    let service = SubscriptionService::new(
        MockPlanRepository::new(),
        MockBillingProfileRepository { has_payment_method: false },
        MockSubscriptionRepository,
    );

    let request = CreateSubscriptionRequest {
        tenant_id: TenantId("tenant_1".to_string()),
        plan_id: PlanId("free".to_string()),
    };

    let result = service.create_subscription(&request);
    assert!(result.is_ok());
}

#[test]
fn paid_plan_with_card_on_file_succeeds() {
    let service = SubscriptionService::new(
        MockPlanRepository::new(),
        MockBillingProfileRepository { has_payment_method: true },
        MockSubscriptionRepository,
    );
    let subscription = service.create_subscription(&request("t1", "pro")).unwrap();
    assert_eq!(subscription.tenant_id.as_str(), "t1");
    assert_eq!(subscription.plan_id.as_str(), "pro");
    assert_eq!(subscription.id.as_str(), "sub_123");
}

#[test]
fn paid_plan_without_card_is_rejected_with_the_tenant() {
    let service = SubscriptionService::new(
        MockPlanRepository::new(),
        MockBillingProfileRepository { has_payment_method: false },
        MockSubscriptionRepository,
    );
    match service.create_subscription(&request("t1", "pro")) {
        Err(CreateSubscriptionError::MissingPaymentMethod(tenant)) => {
            assert_eq!(tenant, TenantId("t1".to_string()))
        }
        other => panic!("unexpected result: {:?}", other),
    }
}

#[test]
fn free_plan_ignores_the_payment_status() {
    let service = SubscriptionService::new(
        MockPlanRepository::new(),
        MockBillingProfileRepository { has_payment_method: false },
        MockSubscriptionRepository,
    );
    let subscription = service.create_subscription(&request("t1", "free")).unwrap();
    assert_eq!(subscription.tenant_id.as_str(), "t1");
    assert_eq!(subscription.plan_id.as_str(), "free");
}

#[test]
fn unknown_plan_is_reported_with_its_id() {
    let service = SubscriptionService::new(
        MockPlanRepository::new(),
        MockBillingProfileRepository { has_payment_method: true },
        MockSubscriptionRepository,
    );
    match service.create_subscription(&request("t1", "ghost")) {
        Err(CreateSubscriptionError::PlanNotFound(plan)) => {
            assert_eq!(plan, PlanId("ghost".to_string()))
        }
        other => panic!("unexpected result: {:?}", other),
    }
}

#[test]
fn unknown_plan_is_reported_whoever_asks() {
    for tenant in ["t1", "t2", "", "someone else"] {
        let billing_calls = Cell::new(0);
        let insert_calls = Cell::new(0);
        let service = SubscriptionService::new(
            MockPlanRepository::new(),
            SpyBilling { has_payment_method: true, calls: &billing_calls },
            SpySubscriptions { calls: &insert_calls },
        );
        match service.create_subscription(&request(tenant, "enterprise")) {
            Err(CreateSubscriptionError::PlanNotFound(plan)) => {
                assert_eq!(plan.as_str(), "enterprise")
            }
            other => panic!("unexpected result: {:?}", other),
        }
        assert_eq!(billing_calls.get(), 0);
        assert_eq!(insert_calls.get(), 0);
    }
}

#[test]
fn free_plan_never_asks_the_billing_provider() {
    for has_payment_method in [true, false] {
        let billing_calls = Cell::new(0);
        let insert_calls = Cell::new(0);
        let service = SubscriptionService::new(
            MockPlanRepository::new(),
            SpyBilling { has_payment_method, calls: &billing_calls },
            SpySubscriptions { calls: &insert_calls },
        );
        assert!(service.create_subscription(&request("t1", "free")).is_ok());
        assert_eq!(billing_calls.get(), 0);
        assert_eq!(insert_calls.get(), 1);
    }
}

#[test]
fn missing_payment_method_never_reaches_the_store() {
    let billing_calls = Cell::new(0);
    let insert_calls = Cell::new(0);
    let service = SubscriptionService::new(
        MockPlanRepository::new(),
        SpyBilling { has_payment_method: false, calls: &billing_calls },
        SpySubscriptions { calls: &insert_calls },
    );
    let result = service.create_subscription(&request("t9", "pro"));
    match result {
        Err(CreateSubscriptionError::MissingPaymentMethod(tenant)) => {
            assert_eq!(tenant.as_str(), "t9")
        }
        other => panic!("unexpected result: {:?}", other),
    }
    assert_eq!(billing_calls.get(), 1);
    assert_eq!(insert_calls.get(), 0);
}

#[test]
fn success_echoes_the_request_under_a_fresh_id() {
    let billing_calls = Cell::new(0);
    let insert_calls = Cell::new(0);
    let service = SubscriptionService::new(
        MockPlanRepository::new(),
        SpyBilling { has_payment_method: true, calls: &billing_calls },
        SpySubscriptions { calls: &insert_calls },
    );
    let mut issued: Vec<SubscriptionId> = Vec::new();
    for (tenant, plan) in [("t1", "pro"), ("t2", "free"), ("t3", "pro")] {
        let wanted = request(tenant, plan);
        let subscription = service.create_subscription(&wanted).unwrap();
        assert_eq!(subscription.tenant_id, wanted.tenant_id);
        assert_eq!(subscription.plan_id, wanted.plan_id);
        assert!(!subscription.id.as_str().is_empty());
        assert!(!issued.contains(&subscription.id));
        issued.push(subscription.id);
    }
    assert_eq!(insert_calls.get(), 3);
    assert_eq!(billing_calls.get(), 2);
}

#[test]
fn the_same_request_twice_gives_two_records() {
    let billing_calls = Cell::new(0);
    let insert_calls = Cell::new(0);
    let service = SubscriptionService::new(
        MockPlanRepository::new(),
        SpyBilling { has_payment_method: true, calls: &billing_calls },
        SpySubscriptions { calls: &insert_calls },
    );
    let wanted = request("t1", "pro");
    let first = service.create_subscription(&wanted).unwrap();
    let second = service.create_subscription(&wanted).unwrap();
    assert_ne!(first.id, second.id);
    assert_eq!(first.tenant_id, second.tenant_id);
    assert_eq!(first.plan_id, second.plan_id);
    assert_eq!(insert_calls.get(), 2);
    assert_eq!(billing_calls.get(), 2);
}

#[test]
fn a_denying_policy_rejects_before_billing_is_asked() {
    let billing_calls = Cell::new(0);
    let insert_calls = Cell::new(0);
    let service = SubscriptionService::with_authorizer(
        MockPlanRepository::new(),
        SpyBilling { has_payment_method: true, calls: &billing_calls },
        SpySubscriptions { calls: &insert_calls },
        DenyAll,
    );
    match service.create_subscription(&request("t1", "pro")) {
        Err(CreateSubscriptionError::PlanNotAllowed(tenant, plan)) => {
            assert_eq!(tenant.as_str(), "t1");
            assert_eq!(plan.as_str(), "pro");
        }
        other => panic!("unexpected result: {:?}", other),
    }
    assert_eq!(billing_calls.get(), 0);
    assert_eq!(insert_calls.get(), 0);
}

#[test]
fn a_failing_catalog_is_unexpected() {
    let service = SubscriptionService::new(
        FailingPlans,
        MockBillingProfileRepository { has_payment_method: true },
        MockSubscriptionRepository,
    );
    match service.create_subscription(&request("t1", "pro")) {
        Err(CreateSubscriptionError::Unexpected(cause)) => {
            assert_eq!(cause.message, "catalog unreachable")
        }
        other => panic!("unexpected result: {:?}", other),
    }
}

#[test]
fn a_failing_billing_provider_is_unexpected() {
    let insert_calls = Cell::new(0);
    let service = SubscriptionService::new(
        MockPlanRepository::new(),
        FailingBilling,
        SpySubscriptions { calls: &insert_calls },
    );
    match service.create_subscription(&request("t1", "pro")) {
        Err(CreateSubscriptionError::Unexpected(cause)) => {
            assert_eq!(cause.message, "billing unreachable")
        }
        other => panic!("unexpected result: {:?}", other),
    }
    assert_eq!(insert_calls.get(), 0);
    assert!(service.create_subscription(&request("t1", "free")).is_ok());
}

#[test]
fn a_failing_store_is_unexpected() {
    let service = SubscriptionService::new(
        MockPlanRepository::new(),
        MockBillingProfileRepository { has_payment_method: true },
        FailingSubscriptions,
    );
    for plan in ["pro", "free"] {
        match service.create_subscription(&request("t1", plan)) {
            Err(CreateSubscriptionError::Unexpected(cause)) => {
                assert_eq!(cause.message, "disk full")
            }
            other => panic!("unexpected result: {:?}", other),
        }
    }
}
