use travel_gateway::bonuses::{
    balance_after, loyalty_effect, loyalty_history_post, plan_refund, privilege_history_to_web,
    privilege_view, purchase_answer,
};
use travel_gateway::records::{Privilege, PrivilegeHistory};

fn account() -> Privilege {
    Privilege {
        id: 1,
        username: "someone".to_string(),
        status: "BRONZE".to_string(),
        balance: 2000,
    }
}

fn ledger_entry(privilege_id: i32, operation_type: &str, diff: i32) -> PrivilegeHistory {
    PrivilegeHistory {
        id: 10,
        privilege_id,
        ticket_uid: "17ea0b3b-9efb-4be1-8db5-81512fe77c88".to_string(),
        datetime: "2021-10-08T20:00:00Z".to_string(),
        balance_diff: diff,
        operation_type: operation_type.to_string(),
    }
}

#[test]
fn purchase_in_money_credits_a_tenth() {
    // paid_from_balance = false: no points spent, full price due in money,
    // a truncated tenth of the price credited.
    let e = loyalty_effect(2000, 1555, false);
    assert_eq!(e.paid_by_bonuses, 0);
    assert_eq!(e.paid_by_money, 1555);
    assert_eq!(e.operation_type, "FILL_IN_BALANCE");
    assert_eq!(e.balance_diff, 155);

    let e = loyalty_effect(0, 9, false);
    assert_eq!(e.balance_diff, 0);
    assert_eq!(e.paid_by_money, 9);
}

#[test]
fn purchase_from_balance_spends_min_of_balance_and_price() {
    // Balance covers part of the price.
    let e = loyalty_effect(300, 1500, true);
    assert_eq!(e.paid_by_bonuses, 300);
    assert_eq!(e.paid_by_money, 1200);
    assert_eq!(e.operation_type, "DEBIT_THE_ACCOUNT");
    assert_eq!(e.balance_diff, 300);

    // Balance covers the whole price.
    let e = loyalty_effect(2000, 1500, true);
    assert_eq!(e.paid_by_bonuses, 1500);
    assert_eq!(e.paid_by_money, 0);
    assert_eq!(e.balance_diff, 1500);
}

#[test]
fn ledger_post_records_the_effect() {
    let e = loyalty_effect(2000, 1500, true);
    let p = loyalty_history_post(
        &"someone".to_string(),
        &"17ea0b3b-9efb-4be1-8db5-81512fe77c88".to_string(),
        &e,
    );
    assert_eq!(p.username, "someone");
    assert_eq!(p.ticket_uid, "17ea0b3b-9efb-4be1-8db5-81512fe77c88");
    assert_eq!(p.balance_diff, 1500);
    assert_eq!(p.operation_type, "DEBIT_THE_ACCOUNT");
}

#[test]
fn purchase_answer_combines_effect_and_account() {
    let e = loyalty_effect(2000, 1500, true);
    let mut updated = account();
    updated.balance = 500;
    let r = purchase_answer(&e, &updated);
    assert_eq!(r.paid_by_bonuses, 1500);
    assert_eq!(r.paid_by_money, 0);
    assert_eq!(r.balance, 500);
    assert_eq!(r.status, "BRONZE");
}

#[test]
fn balance_application_clamps_at_zero() {
    assert_eq!(balance_after(100, &"FILL_IN_BALANCE".to_string(), 40), 140);
    assert_eq!(balance_after(100, &"DEBIT_THE_ACCOUNT".to_string(), 40), 60);
    // A debit past zero leaves an empty balance, not a negative one.
    assert_eq!(balance_after(30, &"DEBIT_THE_ACCOUNT".to_string(), 40), 0);
}

#[test]
fn refund_reverses_operations_in_order() {
    let ops = vec![
        ledger_entry(1, "DEBIT_THE_ACCOUNT", 300),
        ledger_entry(1, "FILL_IN_BALANCE", 150),
    ];
    let plan = plan_refund(
        1,
        &"someone".to_string(),
        &"17ea0b3b-9efb-4be1-8db5-81512fe77c88".to_string(),
        &ops,
    );
    assert!(!plan.forbidden);
    assert_eq!(plan.posts.len(), 2);
    assert_eq!(plan.posts[0].operation_type, "FILL_IN_BALANCE");
    assert_eq!(plan.posts[0].balance_diff, 300);
    assert_eq!(plan.posts[1].operation_type, "DEBIT_THE_ACCOUNT");
    assert_eq!(plan.posts[1].balance_diff, 150);
    assert_eq!(plan.posts[0].username, "someone");
}

#[test]
fn refund_of_anothers_operation_is_forbidden() {
    let ops = vec![
        ledger_entry(1, "DEBIT_THE_ACCOUNT", 300),
        ledger_entry(2, "DEBIT_THE_ACCOUNT", 100),
    ];
    let plan = plan_refund(
        1,
        &"someone".to_string(),
        &"17ea0b3b-9efb-4be1-8db5-81512fe77c88".to_string(),
        &ops,
    );
    assert!(plan.forbidden);
    // The plan stops at the foreign operation; the first is still reversed.
    assert_eq!(plan.posts.len(), 1);
}

#[test]
fn get_privilege() {
    // The loyalty view of an account with an empty ledger.
    let r = privilege_view(&account(), Vec::new());
    assert_eq!(r.balance, 2000);
    assert_eq!(r.status, "BRONZE");
    assert!(r.history.is_empty());
}

#[test]
fn ledger_entry_web_mapping() {
    let w = privilege_history_to_web(&ledger_entry(1, "FILL_IN_BALANCE", 150));
    assert_eq!(w.date, "2021-10-08T20:00:00Z");
    assert_eq!(w.ticketUid, "17ea0b3b-9efb-4be1-8db5-81512fe77c88");
    assert_eq!(w.balanceDiff, 150);
    assert_eq!(w.operationType, "FILL_IN_BALANCE");
}
