//! Reservations for children that outlive their submission call.
//!
//! A missing receipt retains its reservation; process death never refunds it.

use vstd::prelude::*;
use crate::budget::{BudgetSpec, BudgetUsage};
use crate::text::clone_opt_text;
use crate::text_map::{key_at, TextMap};

verus! {

/// One reservation of the ledger.
#[derive(Debug)]
pub struct Entry {
    pub spec: BudgetSpec,
    pub receipt: Option<BudgetUsage>,
    /// The parent has accounted for the receipt.
    pub accounted: bool,
    /// The task that the reservation is bound to.
    pub task_id: Option<String>,
}

impl Entry {
    pub fn duplicate(&self) -> (r: Self)
        ensures
            r == *self,
    {
        Entry {
            spec: self.spec,
            receipt: self.receipt,
            accounted: self.accounted,
            task_id: clone_opt_text(&self.task_id),
        }
    }
}

/// Why the ledger refuses.
#[derive(Clone, Copy, Debug, PartialEq, Eq, Structural)]
pub enum LedgerError {
    ReservationChanged,
    ExceedsCapacity,
    UnknownReservation,
    MissingReceipt,
    MissingBinding,
    AlreadyBound,
    BindingMismatch,
    ConflictingReceipt,
}

impl LedgerError {
    pub open spec fn message(self) -> Seq<char> {
        match self {
            LedgerError::ReservationChanged => "child reservation changed during replay"@,
            LedgerError::ExceedsCapacity =>
                "child budget reservation exceeds unreserved parent capacity"@,
            LedgerError::UnknownReservation => "unknown child budget reservation"@,
            LedgerError::MissingReceipt => "cannot account for a missing child receipt"@,
            LedgerError::MissingBinding => "missing child budget binding"@,
            LedgerError::AlreadyBound => "child budget is already bound"@,
            LedgerError::BindingMismatch => "child budget binding mismatch"@,
            LedgerError::ConflictingReceipt => "conflicting child budget receipt"@,
        }
    }

    pub fn as_str(self) -> (r: &'static str)
        ensures
            r@ == self.message(),
    {
        match self {
            LedgerError::ReservationChanged => "child reservation changed during replay",
            LedgerError::ExceedsCapacity =>
                "child budget reservation exceeds unreserved parent capacity",
            LedgerError::UnknownReservation => "unknown child budget reservation",
            LedgerError::MissingReceipt => "cannot account for a missing child receipt",
            LedgerError::MissingBinding => "missing child budget binding",
            LedgerError::AlreadyBound => "child budget is already bound",
            LedgerError::BindingMismatch => "child budget binding mismatch",
            LedgerError::ConflictingReceipt => "conflicting child budget receipt",
        }
    }
}

/// What a reservation holds back. Wall time is not reserved.
pub open spec fn reserved_usage(spec: BudgetSpec) -> BudgetUsage {
    BudgetUsage {
        turns: match spec.max_turns {
            Some(n) => n,
            None => 0,
        },
        tool_calls: match spec.max_tool_calls {
            Some(n) => n,
            None => 0,
        },
        cost_usd_micros: match spec.max_cost_usd_micros {
            Some(n) => n,
            None => 0,
        },
        wall_time_ms: 0,
    }
}

pub fn reserved(spec: BudgetSpec) -> (r: BudgetUsage)
    ensures
        r == reserved_usage(spec),
{
    BudgetUsage {
        turns: match spec.max_turns {
            Some(n) => n,
            None => 0,
        },
        tool_calls: match spec.max_tool_calls {
            Some(n) => n,
            None => 0,
        },
        cost_usd_micros: match spec.max_cost_usd_micros {
            Some(n) => n,
            None => 0,
        },
        wall_time_ms: 0,
    }
}

/// What an entry charges the parent: its receipt, or else all it reserved; and
/// nothing once the parent has accounted for it.
pub open spec fn charge(entry: Entry) -> BudgetUsage {
    if entry.accounted {
        BudgetUsage::zero_spec()
    } else {
        match entry.receipt {
            Some(receipt) => receipt,
            None => reserved_usage(entry.spec),
        }
    }
}

/// What the parent consumed and what all entries charge.
pub open spec fn charged(entries: Seq<(String, Entry)>, consumed: BudgetUsage) -> BudgetUsage
    decreases entries.len(),
{
    if entries.len() == 0 {
        consumed
    } else {
        charged(entries.drop_last(), consumed).merged(charge(entries.last().1))
    }
}

/// The usage stays within the turn, tool-call and cost limits.
pub open spec fn fits(usage: BudgetUsage, limit: BudgetSpec) -> bool {
    &&& limit.max_turns is Some ==> usage.turns <= limit.max_turns->0
    &&& limit.max_tool_calls is Some ==> usage.tool_calls <= limit.max_tool_calls->0
    &&& limit.max_cost_usd_micros is Some ==> usage.cost_usd_micros
        <= limit.max_cost_usd_micros->0
}

fn exceeds(usage: &BudgetUsage, limit: &BudgetSpec) -> (r: bool)
    ensures
        r == !fits(*usage, *limit),
{
    (match limit.max_turns {
        Some(max) => usage.turns > max,
        None => false,
    }) || (match limit.max_tool_calls {
        Some(max) => usage.tool_calls > max,
        None => false,
    }) || (match limit.max_cost_usd_micros {
        Some(max) => usage.cost_usd_micros > max,
        None => false,
    })
}

/// The reservations of one parent operation, by identity.
pub struct Ledger {
    entries: TextMap<String, Entry>,
}

impl View for Ledger {
    type V = Map<Seq<char>, Entry>;

    closed spec fn view(&self) -> Map<Seq<char>, Entry> {
        self.entries@
    }
}

/// A reservation that a child holds.
#[derive(Debug)]
pub struct ChildBudgetReservation {
    pub id: String,
    pub spec: BudgetSpec,
}

/// How far a reservation is settled.
#[derive(Clone, Copy, Debug, PartialEq, Eq, Structural)]
pub enum Settlement {
    Settled,
    Unsettled,
    Unavailable,
}

/// What a reservation looks like from outside.
#[derive(Clone, Copy, Debug, PartialEq, Eq, Structural)]
pub struct BudgetObservation {
    pub limit: BudgetSpec,
    pub actual_usage: Option<BudgetUsage>,
    pub settlement: Settlement,
    pub parent_accounted: Option<bool>,
}

impl Ledger {
    pub closed spec fn wf(&self) -> bool {
        self.entries.wf()
    }

    /// The entries in the order of their reservation.
    pub closed spec fn listing(&self) -> Seq<(String, Entry)> {
        self.entries.listing()
    }

    pub fn new() -> (r: Self)
        ensures
            r.wf(),
            r@ == Map::<Seq<char>, Entry>::empty(),
            r.listing() == Seq::<(String, Entry)>::empty(),
    {
        Ledger { entries: TextMap::new() }
    }

    /// The number of reservations.
    pub fn len(&self) -> (r: usize)
        ensures
            r == self.listing().len(),
    {
        self.entries.len()
    }

    /// The reservation at a place in the listing.
    pub fn entry_at(&self, i: usize) -> (r: &(String, Entry))
        requires
            self.wf(),
            i < self.listing().len(),
        ensures
            *r == self.listing()[i as int],
            self@.dom().contains(r.0@),
            self@[r.0@] == r.1,
    {
        self.entries.entry(i)
    }

    /// Takes over a reservation that was stored before: at the end of the
    /// listing, or in the place of an earlier one with its identity.
    pub fn load(&mut self, id: String, entry: Entry)
        requires
            old(self).wf(),
        ensures
            final(self).wf(),
            final(self)@ == old(self)@.insert(id@, entry),
            if old(self)@.dom().contains(id@) {
                final(self).changed_at(old(self), id@, entry)
            } else {
                final(self).listing() == old(self).listing().push((id, entry))
            },
    {
        if self.entries.contains(&id) {
            self.put(&id, entry);
        } else {
            self.entries.insert(id, entry);
        }
    }

    /// The entry of a reservation.
    pub fn entry(&self, id: &String) -> (r: Option<&Entry>)
        requires
            self.wf(),
        ensures
            match r {
                Some(entry) => self@.dom().contains(id@) && *entry == self@[id@],
                None => !self@.dom().contains(id@),
            },
    {
        self.entries.get(id)
    }

    fn charged_so_far(&self, consumed: BudgetUsage) -> (r: BudgetUsage)
        requires
            self.wf(),
        ensures
            r == charged(self.listing(), consumed),
    {
        let mut total = consumed;
        let ghost all = self.entries.listing();
        let mut i: usize = 0;
        assert(all.take(0) =~= Seq::<(String, Entry)>::empty());
        while i < self.entries.len()
            invariant
                self.wf(),
                all == self.entries.listing(),
                i <= all.len(),
                total == charged(all.take(i as int), consumed),
            decreases all.len() - i,
        {
            let entry = self.entries.entry(i);
            proof {
                assert(all.take(i + 1).drop_last() =~= all.take(i as int));
                assert(all.take(i + 1).last() == all[i as int]);
            }
            if !entry.1.accounted {
                total.merge(
                    match entry.1.receipt {
                        Some(receipt) => receipt,
                        None => reserved(entry.1.spec),
                    },
                );
            }
            i += 1;
        }
        assert(all.take(all.len() as int) =~= all);
        total
    }

    /// The same ledger with one entry changed.
    pub open spec fn changed_at(&self, old: &Self, id: Seq<char>, entry: Entry) -> bool {
        &&& self@ == old@.insert(id, entry)
        &&& exists|i: int, key: String| #[trigger]
            key_at(old.listing(), id, i) && key@ == id && self.listing() == #[trigger] old.listing().update(
                i,
                (key, entry),
            )
    }

    fn put(&mut self, id: &String, entry: Entry)
        requires
            old(self).wf(),
            old(self)@.dom().contains(id@),
        ensures
            final(self).wf(),
            final(self).changed_at(old(self), id@, entry),
    {
        let key = id.clone();
        self.entries.insert(key, entry);
        proof {
            let i = choose|i: int| #[trigger]
                key_at(old(self).entries.listing(), id@, i) && self.entries.listing() == old(
                    self,
                ).entries.listing().update(i, (*id, entry));
            assert(key_at(old(self).listing(), id@, i) && self.listing() == old(
                self,
            ).listing().update(i, (*id, entry)));
        }
    }

    /// Marks a receipt as accounted for by the parent.
    pub fn acknowledge(&mut self, id: &String) -> (r: Result<(), LedgerError>)
        requires
            old(self).wf(),
        ensures
            final(self).wf(),
            if !old(self)@.dom().contains(id@) {
                r == Err::<(), LedgerError>(LedgerError::UnknownReservation) && *final(self)
                    == *old(self)
            } else if old(self)@[id@].receipt is None {
                r == Err::<(), LedgerError>(LedgerError::MissingReceipt) && *final(self) == *old(
                    self,
                )
            } else {
                r == Ok::<(), LedgerError>(()) && final(self).changed_at(
                    old(self),
                    id@,
                    (Entry { accounted: true, ..old(self)@[id@] }),
                )
            },
            r is Ok ==> final(self)@.dom().contains(id@) && final(self)@[id@].accounted
                && final(self)@[id@].receipt is Some,
    {
        let mut entry = match self.entries.get(id) {
            Some(entry) => entry.duplicate(),
            None => {
                return Err(LedgerError::UnknownReservation);
            },
        };
        if entry.receipt.is_none() {
            return Err(LedgerError::MissingReceipt);
        }
        entry.accounted = true;
        self.put(id, entry);
        Ok(())
    }
}

impl ChildBudgetReservation {
    /// The reservation that the ledger already holds under an identity.
    pub fn existing(ledger: &Ledger, id: String) -> (r: Option<Self>)
        requires
            ledger.wf(),
        ensures
            match r {
                Some(reservation) => ledger@.dom().contains(id@) && reservation.id == id
                    && reservation.spec == ledger@[id@].spec,
                None => !ledger@.dom().contains(id@),
            },
    {
        match ledger.entries.get(&id) {
            Some(entry) => {
                let spec = entry.spec;
                Some(ChildBudgetReservation { id, spec })
            },
            None => None,
        }
    }

    /// The task that the reservation is bound to.
    pub fn bound_task(&self, ledger: &Ledger) -> (r: Result<Option<String>, LedgerError>)
        requires
            ledger.wf(),
        ensures
            if ledger@.dom().contains(self.id@) {
                r == Ok::<Option<String>, LedgerError>(ledger@[self.id@].task_id)
            } else {
                r == Err::<Option<String>, LedgerError>(LedgerError::MissingBinding)
            },
    {
        match ledger.entries.get(&self.id) {
            Some(entry) => Ok(clone_opt_text(&entry.task_id)),
            None => Err(LedgerError::MissingBinding),
        }
    }

    /// Whether the reservation was settled before a task was bound to it.
    pub fn settled_without_submission(&self, ledger: &Ledger) -> (r: Result<bool, LedgerError>)
        requires
            ledger.wf(),
        ensures
            if ledger@.dom().contains(self.id@) {
                r == Ok::<bool, LedgerError>(
                    ledger@[self.id@].task_id is None && ledger@[self.id@].receipt is Some,
                )
            } else {
                r == Err::<bool, LedgerError>(LedgerError::MissingBinding)
            },
    {
        match ledger.entries.get(&self.id) {
            Some(entry) => Ok(entry.task_id.is_none() && entry.receipt.is_some()),
            None => Err(LedgerError::MissingBinding),
        }
    }

    /// What the reservation looks like from outside. There is no ledger where
    /// it could not be read.
    pub fn observation(&self, ledger: Option<&Ledger>) -> (r: BudgetObservation)
        requires
            ledger is Some ==> ledger->0.wf(),
        ensures
            r == (if ledger is Some && ledger->0@.dom().contains(self.id@) {
                let entry = ledger->0@[self.id@];
                BudgetObservation {
                    limit: entry.spec,
                    actual_usage: entry.receipt,
                    settlement: if entry.receipt is Some {
                        Settlement::Settled
                    } else {
                        Settlement::Unsettled
                    },
                    parent_accounted: Some(entry.accounted),
                }
            } else {
                BudgetObservation {
                    limit: self.spec,
                    actual_usage: None,
                    settlement: Settlement::Unavailable,
                    parent_accounted: None,
                }
            }),
    {
        if let Some(ledger) = ledger {
            if let Some(entry) = ledger.entries.get(&self.id) {
                return BudgetObservation {
                    limit: entry.spec,
                    actual_usage: entry.receipt,
                    settlement: if entry.receipt.is_some() {
                        Settlement::Settled
                    } else {
                        Settlement::Unsettled
                    },
                    parent_accounted: Some(entry.accounted),
                };
            }
        }
        BudgetObservation {
            limit: self.spec,
            actual_usage: None,
            settlement: Settlement::Unavailable,
            parent_accounted: None,
        }
    }

    /// Reserves a child budget where the parent's capacity allows it. Reserving
    /// the same again is no error and holds nothing more back.
    pub fn reserve(
        ledger: &mut Ledger,
        id: String,
        spec: BudgetSpec,
        limit: BudgetSpec,
        consumed: BudgetUsage,
    ) -> (r: Result<Self, LedgerError>)
        requires
            old(ledger).wf(),
        ensures
            final(ledger).wf(),
            r matches Ok(reservation) ==> reservation.id == id && reservation.spec == spec,
            if old(ledger)@.dom().contains(id@) {
                &&& *final(ledger) == *old(ledger)
                &&& if old(ledger)@[id@].spec == spec {
                    r is Ok
                } else {
                    r == Err::<Self, LedgerError>(LedgerError::ReservationChanged)
                }
            } else if fits(
                charged(old(ledger).listing(), consumed).merged(reserved_usage(spec)),
                limit,
            ) {
                &&& r is Ok
                &&& final(ledger)@ == old(ledger)@.insert(id@, fresh_entry(spec))
                &&& final(ledger).listing() == old(ledger).listing().push((id, fresh_entry(spec)))
            } else {
                r == Err::<Self, LedgerError>(LedgerError::ExceedsCapacity) && *final(ledger)
                    == *old(ledger)
            },
            !old(ledger)@.dom().contains(id@) ==> (r is Ok <==> fits(
                charged(old(ledger).listing().push((id, fresh_entry(spec))), consumed),
                limit,
            )),
            r is Ok ==> final(ledger)@.dom().contains(id@) && final(ledger)@[id@].spec == spec,
    {
        assert(ledger.listing().push((id, fresh_entry(spec))).drop_last() =~= ledger.listing());
        if let Some(existing) = ledger.entries.get(&id) {
            if existing.spec != spec {
                return Err(LedgerError::ReservationChanged);
            }
            return Ok(ChildBudgetReservation { id, spec });
        }
        let mut charged = ledger.charged_so_far(consumed);
        charged.merge(reserved(spec));
        if exceeds(&charged, &limit) {
            return Err(LedgerError::ExceedsCapacity);
        }
        ledger.entries.insert(
            id.clone(),
            Entry { spec, receipt: None, accounted: false, task_id: None },
        );
        Ok(ChildBudgetReservation { id, spec })
    }

    /// Binds the reservation to a task, once.
    pub fn bind_task(&self, ledger: &mut Ledger, task_id: &String) -> (r: Result<(), LedgerError>)
        requires
            old(ledger).wf(),
        ensures
            final(ledger).wf(),
            if !old(ledger)@.dom().contains(self.id@) {
                r == Err::<(), LedgerError>(LedgerError::UnknownReservation) && *final(ledger)
                    == *old(ledger)
            } else if old(ledger)@[self.id@].task_id is Some
                && old(ledger)@[self.id@].task_id->0@ != task_id@ {
                r == Err::<(), LedgerError>(LedgerError::AlreadyBound) && *final(ledger) == *old(
                    ledger,
                )
            } else {
                r == Ok::<(), LedgerError>(()) && final(ledger).changed_at(
                    old(ledger),
                    self.id@,
                    (Entry { task_id: Some(*task_id), ..old(ledger)@[self.id@] }),
                )
            },
    {
        let mut entry = match ledger.entries.get(&self.id) {
            Some(entry) => entry.duplicate(),
            None => {
                return Err(LedgerError::UnknownReservation);
            },
        };
        if let Some(bound) = &entry.task_id {
            if *bound != *task_id {
                return Err(LedgerError::AlreadyBound);
            }
        }
        entry.task_id = Some(task_id.clone());
        ledger.put(&self.id, entry);
        Ok(())
    }

    /// Gives back a reservation that was never submitted: its receipt is empty.
    pub fn refund_unsubmitted(&self, ledger: &mut Ledger) -> (r: Result<(), LedgerError>)
        requires
            old(ledger).wf(),
        ensures
            final(ledger).wf(),
            if !old(ledger)@.dom().contains(self.id@) {
                r == Err::<(), LedgerError>(LedgerError::UnknownReservation) && *final(ledger)
                    == *old(ledger)
            } else if old(ledger)@[self.id@].task_id is None && old(ledger)@[self.id@].receipt
                is None {
                r == Ok::<(), LedgerError>(()) && final(ledger).changed_at(
                    old(ledger),
                    self.id@,
                    (Entry { receipt: Some(BudgetUsage::zero_spec()), ..old(ledger)@[self.id@] }),
                )
            } else {
                r == Ok::<(), LedgerError>(()) && *final(ledger) == *old(ledger)
            },
    {
        let mut entry = match ledger.entries.get(&self.id) {
            Some(entry) => entry.duplicate(),
            None => {
                return Err(LedgerError::UnknownReservation);
            },
        };
        if entry.task_id.is_none() && entry.receipt.is_none() {
            entry.receipt = Some(BudgetUsage::zero());
            ledger.put(&self.id, entry);
        }
        Ok(())
    }

    /// Records the final receipt. Identical retries are harmless; a conflicting
    /// bill is never silently accepted.
    pub fn settle(&self, ledger: &mut Ledger, usage: BudgetUsage) -> (r: Result<(), LedgerError>)
        requires
            old(ledger).wf(),
        ensures
            final(ledger).wf(),
            ({
                let bill = BudgetUsage { wall_time_ms: 0, ..usage };
                if !old(ledger)@.dom().contains(self.id@) {
                    r == Err::<(), LedgerError>(LedgerError::UnknownReservation) && *final(ledger)
                        == *old(ledger)
                } else if old(ledger)@[self.id@].spec != self.spec {
                    r == Err::<(), LedgerError>(LedgerError::BindingMismatch) && *final(ledger)
                        == *old(ledger)
                } else {
                    match old(ledger)@[self.id@].receipt {
                        Some(previous) => *final(ledger) == *old(ledger) && r == (if previous
                            == bill {
                            Ok::<(), LedgerError>(())
                        } else {
                            Err::<(), LedgerError>(LedgerError::ConflictingReceipt)
                        }),
                        None => r == Ok::<(), LedgerError>(()) && final(ledger).changed_at(
                            old(ledger),
                            self.id@,
                            (Entry { receipt: Some(bill), ..old(ledger)@[self.id@] }),
                        ),
                    }
                }
            }),
            r is Ok ==> final(ledger)@.dom().contains(self.id@) && (
            final(ledger)@[self.id@].receipt matches Some(bill) && bill.turns == usage.turns
                && bill.tool_calls == usage.tool_calls && bill.cost_usd_micros
                == usage.cost_usd_micros && bill.wall_time_ms == 0),
    {
        let bill = BudgetUsage {
            turns: usage.turns,
            tool_calls: usage.tool_calls,
            cost_usd_micros: usage.cost_usd_micros,
            wall_time_ms: 0,
        };
        let mut entry = match ledger.entries.get(&self.id) {
            Some(entry) => entry.duplicate(),
            None => {
                return Err(LedgerError::UnknownReservation);
            },
        };
        if entry.spec != self.spec {
            return Err(LedgerError::BindingMismatch);
        }
        if let Some(previous) = entry.receipt {
            if previous != bill {
                return Err(LedgerError::ConflictingReceipt);
            }
            return Ok(());
        }
        entry.receipt = Some(bill);
        ledger.put(&self.id, entry);
        Ok(())
    }
}

/// A reservation that nobody has used yet.
pub open spec fn fresh_entry(spec: BudgetSpec) -> Entry {
    Entry { spec, receipt: None, accounted: false, task_id: None }
}

/// A queued launch. As long as it has not started, letting go of it returns the
/// allocation; once started, only an explicit receipt settles it.
#[derive(Debug)]
pub struct PendingChildBudget {
    pub reservation: Option<ChildBudgetReservation>,
    pub started: bool,
}

impl PendingChildBudget {
    pub fn new(reservation: Option<ChildBudgetReservation>) -> (r: Self)
        ensures
            r.reservation == reservation,
            !r.started,
    {
        PendingChildBudget { reservation, started: false }
    }

    pub fn start(&mut self)
        ensures
            final(self).started,
            final(self).reservation == old(self).reservation,
    {
        self.started = true;
    }

    /// Lets go of the launch. A refusal of the ledger is ignored.
    pub fn release(&self, ledger: &mut Ledger)
        requires
            old(ledger).wf(),
        ensures
            final(ledger).wf(),
            self.started || self.reservation is None ==> *final(ledger) == *old(ledger),
            !self.started && self.reservation is Some ==> {
                let held = self.reservation->0;
                if old(ledger)@.dom().contains(held.id@) && old(ledger)@[held.id@].spec == held.spec
                    && old(ledger)@[held.id@].receipt is None {
                    final(ledger).changed_at(
                        old(ledger),
                        held.id@,
                        (Entry {
                            receipt: Some(BudgetUsage::zero_spec()),
                            ..old(ledger)@[held.id@]
                        }),
                    )
                } else {
                    *final(ledger) == *old(ledger)
                }
            },
    {
        if !self.started {
            if let Some(reservation) = &self.reservation {
                let _ = reservation.settle(ledger, BudgetUsage::zero());
            }
        }
    }
}

/// Reservations cannot be spent twice: after a granted reservation everything
/// that is consumed, settled or held back fits the parent's limits.
pub proof fn reservations_fit_the_parent(
    entries: Seq<(String, Entry)>,
    consumed: BudgetUsage,
    id: String,
    spec: BudgetSpec,
    limit: BudgetSpec,
)
    requires
        fits(charged(entries, consumed).merged(reserved_usage(spec)), limit),
    ensures
        fits(charged(entries.push((id, fresh_entry(spec))), consumed), limit),
{
    let next = entries.push((id, fresh_entry(spec)));
    assert(next.drop_last() =~= entries);
}

/// A missing receipt retains the whole reservation.
pub proof fn missing_receipts_hold_their_reservation(entry: Entry)
    requires
        entry.receipt is None,
        !entry.accounted,
    ensures
        charge(entry) == reserved_usage(entry.spec),
{
}

/// Changing one entry to a smaller charge never raises what is charged in all.
pub proof fn smaller_charges_free_capacity(
    entries: Seq<(String, Entry)>,
    consumed: BudgetUsage,
    i: int,
    key: String,
    entry: Entry,
)
    requires
        0 <= i < entries.len(),
        charge(entry).within(charge(entries[i].1)),
    ensures
        charged(entries.update(i, (key, entry)), consumed).within(charged(entries, consumed)),
    decreases entries.len(),
{
    let next = entries.update(i, (key, entry));
    if i == entries.len() - 1 {
        assert(next.drop_last() =~= entries.drop_last());
    } else {
        assert(next.drop_last() =~= entries.drop_last().update(i, (key, entry)));
        smaller_charges_free_capacity(entries.drop_last(), consumed, i, key, entry);
    }
}

/// A parent that accounts for a receipt is no longer charged for it here.
pub proof fn accounted_entries_charge_nothing(entry: Entry)
    ensures
        charge(Entry { accounted: true, ..entry }) == BudgetUsage::zero_spec(),
{
}

/// The order in which a ledger lists its reservations does not change what they
/// charge: one that was stored and read back in another order leaves as much as
/// before.
pub proof fn order_does_not_change_the_charge(
    listed: Seq<(String, Entry)>,
    reread: Seq<(String, Entry)>,
    consumed: BudgetUsage,
)
    requires
        listed.to_multiset() == reread.to_multiset(),
    ensures
        charged(listed, consumed) == charged(reread, consumed),
    decreases reread.len(),
{
    broadcast use vstd::seq_lib::group_to_multiset_ensures;

    assert(listed.len() == listed.to_multiset().len());
    assert(reread.len() == reread.to_multiset().len());
    if reread.len() > 0 {
        let last = reread.last();
        assert(reread.contains(last));
        assert(reread.to_multiset().count(last) > 0);
        assert(listed.contains(last));
        let i = choose|i: int| 0 <= i < listed.len() && listed[i] == last;
        charges_can_come_last(listed, consumed, i);
        assert(reread.drop_last() =~= reread.remove(reread.len() - 1));
        assert(listed.remove(i).to_multiset() =~= reread.drop_last().to_multiset());
        order_does_not_change_the_charge(listed.remove(i), reread.drop_last(), consumed);
    }
}

/// The sum of amounts.
pub open spec fn sum(amounts: Seq<int>) -> int
    decreases amounts.len(),
{
    if amounts.len() == 0 {
        0
    } else {
        sum(amounts.drop_last()) + amounts.last()
    }
}

/// An open entry holds back all that its child may spend; a settled one charges
/// what its receipt says; and one that the parent accounted for charges nothing.
pub proof fn entries_charge_what_they_hold(entry: Entry)
    ensures
        entry.accounted ==> charge(entry).turns == 0 && charge(entry).tool_calls == 0 && charge(
            entry,
        ).cost_usd_micros == 0 && charge(entry).wall_time_ms == 0,
        !entry.accounted && entry.receipt is Some ==> charge(entry) == entry.receipt->0,
        !entry.accounted && entry.receipt is None ==> {
            &&& entry.spec.max_turns is Some ==> charge(entry).turns == entry.spec.max_turns->0
            &&& entry.spec.max_turns is None ==> charge(entry).turns == 0
            &&& entry.spec.max_tool_calls is Some ==> charge(entry).tool_calls
                == entry.spec.max_tool_calls->0
            &&& entry.spec.max_tool_calls is None ==> charge(entry).tool_calls == 0
            &&& entry.spec.max_cost_usd_micros is Some ==> charge(entry).cost_usd_micros
                == entry.spec.max_cost_usd_micros->0
            &&& entry.spec.max_cost_usd_micros is None ==> charge(entry).cost_usd_micros == 0
            &&& charge(entry).wall_time_ms == 0
        },
{
}

proof fn charges_add_up(
    entries: Seq<(String, Entry)>,
    consumed: BudgetUsage,
    turns: Seq<int>,
    tool_calls: Seq<int>,
    costs: Seq<int>,
)
    requires
        turns.len() == entries.len(),
        tool_calls.len() == entries.len(),
        costs.len() == entries.len(),
        forall|i: int|
            0 <= i < entries.len() ==> charge((#[trigger] entries[i]).1).turns == turns[i] && charge(
                entries[i].1,
            ).tool_calls == tool_calls[i] && charge(entries[i].1).cost_usd_micros == costs[i],
    ensures
        sum(turns) >= 0,
        sum(tool_calls) >= 0,
        sum(costs) >= 0,
        charged(entries, consumed).turns == (if consumed.turns + sum(turns) > u32::MAX {
            u32::MAX as int
        } else {
            consumed.turns + sum(turns)
        }),
        charged(entries, consumed).tool_calls == (if consumed.tool_calls + sum(tool_calls)
            > u32::MAX {
            u32::MAX as int
        } else {
            consumed.tool_calls + sum(tool_calls)
        }),
        charged(entries, consumed).cost_usd_micros == (if consumed.cost_usd_micros + sum(costs)
            > u64::MAX {
            u64::MAX as int
        } else {
            consumed.cost_usd_micros + sum(costs)
        }),
    decreases entries.len(),
{
    if entries.len() > 0 {
        let front = entries.drop_last();
        assert forall|i: int| 0 <= i < front.len() implies charge((#[trigger] front[i]).1).turns
            == turns.drop_last()[i] && charge(front[i].1).tool_calls == tool_calls.drop_last()[i]
            && charge(front[i].1).cost_usd_micros == costs.drop_last()[i] by {
            assert(front[i] == entries[i]);
        }
        charges_add_up(
            front,
            consumed,
            turns.drop_last(),
            tool_calls.drop_last(),
            costs.drop_last(),
        );
        assert(entries.last() == entries[entries.len() - 1]);
    }
}

/// The entries of a ledger fit a limit exactly if in each dimension that it limits
/// the parent's own consumption and what the entries hold add up to no more:
/// nothing of an entry that is accounted for, the receipt of one that is settled,
/// and all that its child may spend of one that is open. (Counters stop at their
/// largest value, so that a limit of that value limits nothing.)
pub proof fn ledgers_fit_by_their_sums(
    entries: Seq<(String, Entry)>,
    consumed: BudgetUsage,
    limit: BudgetSpec,
    turns: Seq<int>,
    tool_calls: Seq<int>,
    costs: Seq<int>,
)
    requires
        turns.len() == entries.len(),
        tool_calls.len() == entries.len(),
        costs.len() == entries.len(),
        forall|i: int|
            0 <= i < entries.len() && (#[trigger] entries[i]).1.accounted ==> turns[i] == 0
                && tool_calls[i] == 0 && costs[i] == 0,
        forall|i: int|
            0 <= i < entries.len() && !(#[trigger] entries[i]).1.accounted
                && entries[i].1.receipt is Some ==> turns[i] == entries[i].1.receipt->0.turns
                && tool_calls[i] == entries[i].1.receipt->0.tool_calls && costs[i]
                == entries[i].1.receipt->0.cost_usd_micros,
        forall|i: int|
            0 <= i < entries.len() && !(#[trigger] entries[i]).1.accounted
                && entries[i].1.receipt is None ==> {
                &&& turns[i] == (match entries[i].1.spec.max_turns {
                    Some(max) => max as int,
                    None => 0,
                })
                &&& tool_calls[i] == (match entries[i].1.spec.max_tool_calls {
                    Some(max) => max as int,
                    None => 0,
                })
                &&& costs[i] == (match entries[i].1.spec.max_cost_usd_micros {
                    Some(max) => max as int,
                    None => 0,
                })
            },
    ensures
        fits(charged(entries, consumed), limit) <==> {
            &&& limit.max_turns matches Some(max) ==> (max < u32::MAX ==> consumed.turns + sum(
                turns,
            ) <= max)
            &&& limit.max_tool_calls matches Some(max) ==> (max < u32::MAX
                ==> consumed.tool_calls + sum(tool_calls) <= max)
            &&& limit.max_cost_usd_micros matches Some(max) ==> (max < u64::MAX
                ==> consumed.cost_usd_micros + sum(costs) <= max)
        },
{
    charges_add_up(entries, consumed, turns, tool_calls, costs);
}

/// A reservation is granted exactly if all that its child may spend still fits
/// beside what the parent consumed and what the other entries hold, in each
/// dimension that the parent limits.
pub proof fn grants_count_the_whole_reservation(
    entries: Seq<(String, Entry)>,
    consumed: BudgetUsage,
    id: String,
    spec: BudgetSpec,
    limit: BudgetSpec,
)
    ensures
        ({
            let held = charged(entries, consumed);
            fits(charged(entries.push((id, fresh_entry(spec))), consumed), limit) <==> {
                &&& limit.max_turns matches Some(max) ==> held.turns <= max && (
                spec.max_turns matches Some(more) ==> max == u32::MAX || held.turns + more <= max)
                &&& limit.max_tool_calls matches Some(max) ==> held.tool_calls <= max && (
                spec.max_tool_calls matches Some(more) ==> max == u32::MAX || held.tool_calls
                    + more <= max)
                &&& limit.max_cost_usd_micros matches Some(max) ==> held.cost_usd_micros <= max && (
                spec.max_cost_usd_micros matches Some(more) ==> max == u64::MAX
                    || held.cost_usd_micros + more <= max)
            }
        }),
        fits(charged(entries.push((id, fresh_entry(spec))), consumed), limit) == fits(
            charged(entries, consumed).merged(reserved_usage(spec)),
            limit,
        ),
{
    let next = entries.push((id, fresh_entry(spec)));
    assert(next.drop_last() =~= entries);
}

/// Two children never get more together than the parent may spend: once one is
/// granted, the other is granted only what is left.
pub proof fn later_reservations_get_what_is_left(
    entries: Seq<(String, Entry)>,
    consumed: BudgetUsage,
    first_id: String,
    first: BudgetSpec,
    second_id: String,
    second: BudgetSpec,
    limit: BudgetSpec,
)
    requires
        fits(
            charged(
                entries.push((first_id, fresh_entry(first))).push((second_id, fresh_entry(second))),
                consumed,
            ),
            limit,
        ),
    ensures
        limit.max_turns matches Some(max) ==> (max < u32::MAX && first.max_turns is Some
            && second.max_turns is Some ==> consumed.turns + first.max_turns->0
            + second.max_turns->0 <= max),
        limit.max_tool_calls matches Some(max) ==> (max < u32::MAX && first.max_tool_calls is Some
            && second.max_tool_calls is Some ==> consumed.tool_calls + first.max_tool_calls->0
            + second.max_tool_calls->0 <= max),
        limit.max_cost_usd_micros matches Some(max) ==> (max < u64::MAX
            && first.max_cost_usd_micros is Some && second.max_cost_usd_micros is Some
            ==> consumed.cost_usd_micros + first.max_cost_usd_micros->0
            + second.max_cost_usd_micros->0 <= max),
{
    let one = entries.push((first_id, fresh_entry(first)));
    let two = one.push((second_id, fresh_entry(second)));
    assert(one.drop_last() =~= entries);
    assert(two.drop_last() =~= one);
    assert(charged(one, consumed) == charged(entries, consumed).merged(charge(one.last().1)));
    assert(charged(two, consumed) == charged(one, consumed).merged(charge(two.last().1)));
    entries_add_to_the_charge(entries, consumed);
}

/// No entry takes anything off what was consumed.
proof fn entries_add_to_the_charge(entries: Seq<(String, Entry)>, consumed: BudgetUsage)
    ensures
        consumed.within(charged(entries, consumed)),
    decreases entries.len(),
{
    if entries.len() > 0 {
        entries_add_to_the_charge(entries.drop_last(), consumed);
    }
}

/// Any entry may be charged last.
proof fn charges_can_come_last(entries: Seq<(String, Entry)>, consumed: BudgetUsage, i: int)
    requires
        0 <= i < entries.len(),
    ensures
        charged(entries, consumed) == charged(entries.remove(i), consumed).merged(
            charge(entries[i].1),
        ),
    decreases entries.len(),
{
    if i == entries.len() - 1 {
        assert(entries.remove(i) =~= entries.drop_last());
    } else {
        charges_can_come_last(entries.drop_last(), consumed, i);
        assert(entries.drop_last().remove(i) =~= entries.remove(i).drop_last());
        assert(entries.remove(i).last() == entries.last());
    }
}

/// A change touches the entry of one reservation: that one becomes the new entry, and
/// every other keeps its place, its identity and what it holds.
pub proof fn changes_touch_one_entry(
    before: Ledger,
    after: Ledger,
    id: Seq<char>,
    entry: Entry,
    other: Seq<char>,
    j: int,
)
    requires
        after.changed_at(&before, id, entry),
        before.wf(),
        before@.dom().contains(id),
        before@.dom().contains(other),
        other != id,
        0 <= j < before.listing().len(),
    ensures
        after@.dom() == before@.dom(),
        after@[id] == entry,
        after@[other] == before@[other],
        after.listing().len() == before.listing().len(),
        after.listing()[j].0@ == before.listing()[j].0@,
        after.listing()[j].1 == (if before.listing()[j].0@ == id {
            entry
        } else {
            before.listing()[j].1
        }),
{
    assert(after@.dom() =~= before@.dom());
    before.entries.listed_is_mapped(j);
    let (i, key): (int, String) = choose|i: int, key: String| #[trigger]
        key_at(before.listing(), id, i) && key@ == id && after.listing()
            == #[trigger] before.listing().update(i, (key, entry));
    assert(before.listing()[i].0@ == id);
}

} // verus!
