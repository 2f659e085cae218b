use vstd::prelude::*;

use crate::records::{
    Privilege, PrivilegeGet, PrivilegeHistory, PrivilegeHistoryGet, PrivilegeHistoryPost,
    PurchaseResponse,
};

verus! {

/// The loyalty effect of one purchase: how the price splits into money and
/// points, and the ledger entry that records it.
pub struct LoyaltyEffect {
    pub paid_by_money: i32,
    pub paid_by_bonuses: i32,
    pub operation_type: String,
    pub balance_diff: i32,
}

/// Points spent on a purchase: when paying from the balance, as many points
/// as the balance covers, capped by the price; otherwise none.
pub open spec fn spec_paid_by_bonuses(balance: int, price: int, paid_from_balance: bool) -> int {
    if paid_from_balance {
        if balance < price {
            balance
        } else {
            price
        }
    } else {
        0
    }
}

/// Money due on a purchase: whatever the points did not cover.
pub open spec fn spec_paid_by_money(balance: int, price: int, paid_from_balance: bool) -> int {
    price - spec_paid_by_bonuses(balance, price, paid_from_balance)
}

/// Points credited for a purchase paid in money: a tenth of the price,
/// truncated to a whole number.
pub open spec fn spec_loyalty_credit(price: int) -> int {
    price / 10
}

/// Compute the loyalty effect of a purchase: the money/points split and the
/// ledger entry (a debit of the spent points, or a credit of a tenth of the
/// price).
pub fn loyalty_effect(balance: i32, price: i32, paid_from_balance: bool) -> (e: LoyaltyEffect)
    requires
        0 <= balance,
        0 <= price,
    ensures
        e.paid_by_bonuses == spec_paid_by_bonuses(balance as int, price as int, paid_from_balance),
        e.paid_by_money == spec_paid_by_money(balance as int, price as int, paid_from_balance),
        paid_from_balance ==> e.operation_type@ == "DEBIT_THE_ACCOUNT"@ && e.balance_diff
            == e.paid_by_bonuses,
        !paid_from_balance ==> e.operation_type@ == "FILL_IN_BALANCE"@ && e.balance_diff
            == spec_loyalty_credit(price as int),
{
    if paid_from_balance {
        let spent: i32 = if balance < price {
            balance
        } else {
            price
        };
        LoyaltyEffect {
            paid_by_money: price - spent,
            paid_by_bonuses: spent,
            operation_type: "DEBIT_THE_ACCOUNT".to_owned(),
            balance_diff: spent,
        }
    } else {
        LoyaltyEffect {
            paid_by_money: price,
            paid_by_bonuses: 0,
            operation_type: "FILL_IN_BALANCE".to_owned(),
            balance_diff: price / 10,
        }
    }
}

/// A purchase not paid from the balance spends no points, is due in money in
/// full, and credits a tenth of the price, truncated: ten times the credit
/// never exceeds the price, and one more tenth would.
pub proof fn lemma_purchase_money_only(balance: int, price: int)
    requires
        0 <= balance,
        0 <= price,
    ensures
        spec_paid_by_bonuses(balance, price, false) == 0,
        spec_paid_by_money(balance, price, false) == price,
        10 * spec_loyalty_credit(price) <= price,
        price < 10 * (spec_loyalty_credit(price) + 1),
{
}

/// A purchase paid from balance `B` at price `P` spends `min(B, P)` points
/// and is due `P - min(B, P)` in money; neither the points nor the money are
/// ever negative, and the spent points never exceed the balance.
pub proof fn lemma_purchase_from_balance(balance: int, price: int)
    requires
        0 <= balance,
        0 <= price,
    ensures
        spec_paid_by_bonuses(balance, price, true) == if balance < price {
            balance
        } else {
            price
        },
        spec_paid_by_bonuses(balance, price, true) <= balance,
        spec_paid_by_bonuses(balance, price, true) <= price,
        spec_paid_by_money(balance, price, true) == price - spec_paid_by_bonuses(
            balance,
            price,
            true,
        ),
        0 <= spec_paid_by_money(balance, price, true),
        0 <= spec_paid_by_bonuses(balance, price, true),
{
}

/// The ledger entry that records a loyalty effect for a user and ticket.
pub fn loyalty_history_post(username: &String, ticket_uid: &String, effect: &LoyaltyEffect) -> (p:
    PrivilegeHistoryPost)
    ensures
        p.username@ == username@,
        p.ticket_uid@ == ticket_uid@,
        p.balance_diff == effect.balance_diff,
        p.operation_type@ == effect.operation_type@,
{
    PrivilegeHistoryPost {
        username: username.clone(),
        ticket_uid: ticket_uid.clone(),
        balance_diff: effect.balance_diff,
        operation_type: effect.operation_type.clone(),
    }
}

/// The bonus service's answer to a purchase: the computed split plus the
/// account as it stands after the ledger entry was applied.
pub fn purchase_answer(effect: &LoyaltyEffect, updated: &Privilege) -> (r: PurchaseResponse)
    ensures
        r.paid_by_money == effect.paid_by_money,
        r.paid_by_bonuses == effect.paid_by_bonuses,
        r.balance == updated.balance,
        r.status@ == updated.status@,
{
    PurchaseResponse {
        paid_by_money: effect.paid_by_money,
        paid_by_bonuses: effect.paid_by_bonuses,
        balance: updated.balance,
        status: updated.status.clone(),
    }
}

/// The balance after a ledger entry: a fill-in adds its difference, a debit
/// subtracts it, and the balance never goes below zero.
pub open spec fn spec_balance_after(balance: int, fill: bool, diff: int) -> int {
    let signed = if fill {
        diff
    } else {
        -diff
    };
    if balance + signed < 0 {
        0
    } else {
        balance + signed
    }
}

/// Apply one ledger entry to a balance.
pub fn balance_after(balance: i32, operation_type: &String, balance_diff: i32) -> (nb: i32)
    requires
        0 <= balance,
        0 <= balance_diff,
        operation_type@ == "FILL_IN_BALANCE"@ ==> balance + balance_diff <= i32::MAX,
    ensures
        nb == spec_balance_after(
            balance as int,
            operation_type@ == "FILL_IN_BALANCE"@,
            balance_diff as int,
        ),
        0 <= nb,
{
    if *operation_type == "FILL_IN_BALANCE".to_owned() {
        balance + balance_diff
    } else {
        if balance - balance_diff < 0 {
            0
        } else {
            balance - balance_diff
        }
    }
}

/// What a refund appends for one recorded operation: the same difference
/// under the opposite operation type, for the refunding user and ticket.
pub open spec fn spec_reversal(
    op: PrivilegeHistory,
    username: Seq<char>,
    ticket_uid: Seq<char>,
    p: PrivilegeHistoryPost,
) -> bool {
    &&& p.username@ == username
    &&& p.ticket_uid@ == ticket_uid
    &&& p.balance_diff == op.balance_diff
    &&& (op.operation_type@ == "DEBIT_THE_ACCOUNT"@ ==> p.operation_type@ == "FILL_IN_BALANCE"@)
    &&& (op.operation_type@ != "DEBIT_THE_ACCOUNT"@ ==> p.operation_type@ == "DEBIT_THE_ACCOUNT"@)
}

/// The ledger entries a refund will append: one reversal per recorded
/// operation of the ticket, stopping at (and reporting) the first operation
/// that belongs to some other account.
pub struct RefundPlan {
    pub posts: Vec<PrivilegeHistoryPost>,
    pub forbidden: bool,
}

/// Plan the refund of a ticket: reverse, in order, every recorded operation
/// of the ticket that belongs to the account; an operation of another
/// account stops the plan and marks the refund forbidden.
pub fn plan_refund(
    privilege_id: i32,
    username: &String,
    ticket_uid: &String,
    operations: &Vec<PrivilegeHistory>,
) -> (r: RefundPlan)
    ensures
        r.posts@.len() <= operations@.len(),
        forall|i: int|
            0 <= i < r.posts@.len() ==> operations@[i].privilege_id == privilege_id
                && spec_reversal(operations@[i], username@, ticket_uid@, r.posts@[i]),
        r.forbidden ==> r.posts@.len() < operations@.len()
            && operations@[r.posts@.len() as int].privilege_id != privilege_id,
        !r.forbidden ==> r.posts@.len() == operations@.len(),
{
    let mut posts: Vec<PrivilegeHistoryPost> = Vec::new();
    let mut i: usize = 0;
    while i < operations.len()
        invariant
            i <= operations@.len(),
            posts@.len() == i,
            forall|j: int|
                0 <= j < i ==> operations@[j].privilege_id == privilege_id && spec_reversal(
                    operations@[j],
                    username@,
                    ticket_uid@,
                    posts@[j],
                ),
        decreases operations@.len() - i,
    {
        let op = &operations[i];
        if op.privilege_id != privilege_id {
            return RefundPlan { posts, forbidden: true };
        }
        let reversed_type: String = if op.operation_type == "DEBIT_THE_ACCOUNT".to_owned() {
            "FILL_IN_BALANCE".to_owned()
        } else {
            "DEBIT_THE_ACCOUNT".to_owned()
        };
        posts.push(
            PrivilegeHistoryPost {
                username: username.clone(),
                ticket_uid: ticket_uid.clone(),
                balance_diff: op.balance_diff,
                operation_type: reversed_type,
            },
        );
        i = i + 1;
    }
    RefundPlan { posts, forbidden: false }
}

/// One ledger entry as the loyalty view shows it.
pub fn privilege_history_to_web(h: &PrivilegeHistory) -> (w: PrivilegeHistoryGet)
    ensures
        w.date@ == h.datetime@,
        w.ticketUid@ == h.ticket_uid@,
        w.balanceDiff == h.balance_diff,
        w.operationType@ == h.operation_type@,
{
    PrivilegeHistoryGet {
        date: h.datetime.clone(),
        ticketUid: h.ticket_uid.clone(),
        balanceDiff: h.balance_diff,
        operationType: h.operation_type.clone(),
    }
}

/// The loyalty view of an account: its balance and tier with its ledger.
pub fn privilege_view(privilege: &Privilege, history: Vec<PrivilegeHistoryGet>) -> (r: PrivilegeGet)
    ensures
        r.balance == privilege.balance,
        r.status@ == privilege.status@,
        r.history == history,
{
    PrivilegeGet {
        balance: privilege.balance,
        status: privilege.status.clone(),
        history,
    }
}

} // verus!
