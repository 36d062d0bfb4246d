use hexagonal_rust::adapters::outbound::payment::client::{
    created_id, customers_url, payment_methods_url,
};
use hexagonal_rust::adapters::outbound::sqlite::{
    has_active_payment_method, BillingProfileRow, NewSubscriptionRow, PlanRow,
};
use hexagonal_rust::domain::{Plan, PlanId, TenantId};

fn row(max_seats: i64) -> PlanRow {
    PlanRow {
        id: "pro".to_string(),
        name: "Pro Plan".to_string(),
        max_seats,
        requires_card_on_file: true,
    }
}

#[test]
fn plan_row_becomes_plan() {
    let plan = Plan::from(row(10));
    assert_eq!(plan.id, PlanId("pro".to_string()));
    assert_eq!(plan.name, "Pro Plan");
    assert_eq!(plan.max_seats, 10);
    assert!(plan.requires_card_on_file);
}

#[test]
fn plan_row_seats_keep_their_low_32_bits() {
    assert_eq!(Plan::from(row(0)).max_seats, 0);
    assert_eq!(Plan::from(row(4_294_967_295)).max_seats, 4_294_967_295);
    assert_eq!(Plan::from(row(4_294_967_296)).max_seats, 0);
    assert_eq!(Plan::from(row(4_294_967_297)).max_seats, 1);
    assert_eq!(Plan::from(row(-1)).max_seats, 4_294_967_295);
    assert_eq!(Plan::from(row(i64::MIN)).max_seats, 0);
    assert_eq!(Plan::from(row(i64::MAX)).max_seats, 4_294_967_295);
}

#[test]
fn tenant_without_profile_has_no_payment_method() {
    assert!(!has_active_payment_method(None));
    assert!(!has_active_payment_method(Some(BillingProfileRow {
        has_active_payment_method: false
    })));
    assert!(has_active_payment_method(Some(BillingProfileRow {
        has_active_payment_method: true
    })));
}

#[test]
fn new_row_gets_a_fresh_hyphenated_id() {
    let tenant = TenantId("t1".to_string());
    let plan = PlanId("pro".to_string());
    let first = NewSubscriptionRow::new(&tenant, &plan);
    let second = NewSubscriptionRow::new(&tenant, &plan);
    assert_eq!(first.tenant_id, "t1");
    assert_eq!(first.plan_id, "pro");
    assert_eq!(first.id.chars().count(), 36);
    assert_eq!(second.id.chars().count(), 36);
    assert_ne!(first.id, second.id);
    for (i, c) in first.id.chars().enumerate() {
        if i == 8 || i == 13 || i == 18 || i == 23 {
            assert_eq!(c, '-');
        } else {
            assert!(c.is_ascii_hexdigit() && !c.is_ascii_uppercase());
        }
    }
    assert_eq!(first.id.chars().nth(14), Some('4'));
}

#[test]
fn stored_row_becomes_the_record() {
    let tenant = TenantId("t1".to_string());
    let plan = PlanId("pro".to_string());
    let row = NewSubscriptionRow::new(&tenant, &plan);
    let id = row.id.clone();
    let record = row.into_subscription();
    assert_eq!(record.id.as_str(), id);
    assert_eq!(record.tenant_id, tenant);
    assert_eq!(record.plan_id, plan);
}

#[test]
fn payment_provider_addresses() {
    assert_eq!(customers_url("https://pay.example"), "https://pay.example/customers");
    assert_eq!(
        payment_methods_url("https://pay.example"),
        "https://pay.example/payment_methods"
    );
    assert_eq!(customers_url(""), "/customers");
    assert_eq!(payment_methods_url("http://localhost:8080/"), "http://localhost:8080//payment_methods");
}

#[test]
fn payment_provider_answer_must_name_an_id() {
    assert_eq!(created_id(Some("cus_42".to_string())).unwrap(), "cus_42");
    assert_eq!(created_id(Some(String::new())).unwrap(), "");
    let fault = created_id(None).unwrap_err();
    assert_eq!(fault.message, "payment provider response missing `id` field");
}
