use orca_runtime::budget::{BudgetSpec, BudgetUsage};
use orca_runtime::child_budget_ledger::{
    ChildBudgetReservation, Ledger, LedgerError, PendingChildBudget, Settlement,
};

fn limit(cost: u64) -> BudgetSpec {
    BudgetSpec {
        max_cost_usd_micros: Some(cost),
        ..BudgetSpec::unlimited()
    }
}

fn cost(cost_usd_micros: u64) -> BudgetUsage {
    BudgetUsage {
        cost_usd_micros,
        ..BudgetUsage::zero()
    }
}

#[test]
fn parallel_reservations_cannot_double_spend_and_receipts_survive_reopen() {
    let mut ledger = Ledger::new();
    let leases = (0..40)
        .filter_map(|id: u32| {
            ChildBudgetReservation::reserve(
                &mut ledger,
                id.to_string(),
                limit(1_000),
                limit(32_000),
                BudgetUsage::zero(),
            )
            .ok()
        })
        .collect::<Vec<_>>();
    assert_eq!(leases.len(), 32);
    let receipt = cost(250);
    leases[0].settle(&mut ledger, receipt).unwrap();
    leases[0].settle(&mut ledger, receipt).unwrap();
    assert!(leases[0].settle(&mut ledger, BudgetUsage::zero()).is_err());
    assert_eq!(
        ledger.entry(&leases[0].id).unwrap().receipt,
        Some(receipt)
    );
    assert_eq!(
        leases
            .iter()
            .filter(|lease| ledger.entry(&lease.id).unwrap().receipt.is_none())
            .count(),
        31
    );

    let mut reopened = Ledger::new();
    for place in (0..ledger.len()).rev() {
        let (id, entry) = ledger.entry_at(place);
        reopened.load(id.clone(), entry.duplicate());
    }
    assert_eq!(reopened.len(), 32);
    let first = ChildBudgetReservation::existing(&reopened, leases[0].id.clone()).unwrap();
    assert_eq!(first.spec, limit(1_000));
    assert_eq!(
        reopened.entry(&leases[0].id).unwrap().receipt,
        Some(receipt)
    );
    assert_eq!(
        leases
            .iter()
            .filter(|lease| reopened.entry(&lease.id).unwrap().receipt.is_none())
            .count(),
        31
    );
    let mut reserve = |id: &str, amount| {
        ChildBudgetReservation::reserve(
            &mut reopened,
            id.to_string(),
            limit(amount),
            limit(32_000),
            BudgetUsage::zero(),
        )
    };
    assert!(matches!(
        reserve("too much", 751),
        Err(LedgerError::ExceedsCapacity)
    ));
    assert!(reserve("the rest", 750).is_ok());
}

#[test]
fn settled_receipts_free_what_was_not_spent() {
    let mut ledger = Ledger::new();
    let reserve = |ledger: &mut Ledger, id: &str| {
        ChildBudgetReservation::reserve(
            ledger,
            id.to_string(),
            limit(600),
            limit(1_000),
            BudgetUsage::zero(),
        )
    };
    let first = reserve(&mut ledger, "first").unwrap();
    assert!(matches!(
        reserve(&mut ledger, "second"),
        Err(LedgerError::ExceedsCapacity)
    ));
    first.settle(&mut ledger, cost(100)).unwrap();
    assert!(reserve(&mut ledger, "second").is_ok());
}

#[test]
fn reservations_are_idempotent_but_cannot_change() {
    let mut ledger = Ledger::new();
    let reserve = |ledger: &mut Ledger, amount: u64| {
        ChildBudgetReservation::reserve(
            ledger,
            "child".to_string(),
            limit(amount),
            limit(1_000),
            BudgetUsage::zero(),
        )
    };
    reserve(&mut ledger, 600).unwrap();
    reserve(&mut ledger, 600).unwrap();
    assert!(matches!(
        reserve(&mut ledger, 700),
        Err(LedgerError::ReservationChanged)
    ));
    assert!(ChildBudgetReservation::existing(&ledger, "child".to_string()).is_some());
    assert!(ChildBudgetReservation::existing(&ledger, "other".to_string()).is_none());
}

#[test]
fn bindings_are_made_once() {
    let mut ledger = Ledger::new();
    let child = ChildBudgetReservation::reserve(
        &mut ledger,
        "child".to_string(),
        limit(10),
        limit(100),
        BudgetUsage::zero(),
    )
    .unwrap();
    assert_eq!(child.bound_task(&ledger).unwrap(), None);
    child.bind_task(&mut ledger, &"task".to_string()).unwrap();
    child.bind_task(&mut ledger, &"task".to_string()).unwrap();
    assert!(child.bind_task(&mut ledger, &"other".to_string()).is_err());
    assert_eq!(child.bound_task(&ledger).unwrap().as_deref(), Some("task"));
    child.refund_unsubmitted(&mut ledger).unwrap();
    assert!(!child.settled_without_submission(&ledger).unwrap());
    assert!(ledger.entry(&child.id).unwrap().receipt.is_none());
}

#[test]
fn receipts_are_acknowledged_after_settlement() {
    let mut ledger = Ledger::new();
    let child = ChildBudgetReservation::reserve(
        &mut ledger,
        "child".to_string(),
        limit(10),
        limit(100),
        BudgetUsage::zero(),
    )
    .unwrap();
    assert!(matches!(
        ledger.acknowledge(&"child".to_string()),
        Err(LedgerError::MissingReceipt)
    ));
    assert!(matches!(
        ledger.acknowledge(&"nobody".to_string()),
        Err(LedgerError::UnknownReservation)
    ));
    child.settle(&mut ledger, cost(4)).unwrap();
    ledger.acknowledge(&"child".to_string()).unwrap();
    let seen = child.observation(Some(&ledger));
    assert_eq!(seen.actual_usage, Some(cost(4)));
    assert_eq!(seen.parent_accounted, Some(true));
    assert!(matches!(seen.settlement, Settlement::Settled));
    assert!(matches!(
        child.observation(None).settlement,
        Settlement::Unavailable
    ));
}

#[test]
fn a_child_that_never_started_gives_its_budget_back() {
    let mut ledger = Ledger::new();
    let child = ChildBudgetReservation::reserve(
        &mut ledger,
        "child".to_string(),
        limit(10),
        limit(100),
        BudgetUsage::zero(),
    )
    .unwrap();
    let watched = ChildBudgetReservation::existing(&ledger, "child".to_string()).unwrap();
    let pending = PendingChildBudget::new(Some(child));
    pending.release(&mut ledger);
    assert!(watched.settled_without_submission(&ledger).unwrap());

    let kept = ChildBudgetReservation::reserve(
        &mut ledger,
        "kept".to_string(),
        limit(10),
        limit(100),
        BudgetUsage::zero(),
    )
    .unwrap();
    let watched = ChildBudgetReservation::existing(&ledger, "kept".to_string()).unwrap();
    let mut pending = PendingChildBudget::new(Some(kept));
    pending.start();
    pending.release(&mut ledger);
    assert!(!watched.settled_without_submission(&ledger).unwrap());
}
