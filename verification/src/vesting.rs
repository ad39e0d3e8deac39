//! The vesting ledger: one schedule per participant, claims and revocations
//! settled through an external transfer whose failure is compensated.
//!
//! The vested amount is a pure function of the schedule and the current
//! time: zero before the start, the full amount at or after the finish (or
//! once revoked), and otherwise one truncated per-release share for every
//! whole release period elapsed. `claim` and `revoke` apply their mutation
//! optimistically and mark the participant pending; the matching callback
//! consumes that marker exactly once and, when the transfer failed, restores
//! the mutated fields to their exact previous values.

use std::collections::HashMap;
use vstd::prelude::*;

use crate::errors::Error;
use crate::settlement::PendingSettlement;
use crate::settlement::SettlementCoordinator;
use crate::settlement::SettlementKind;
use vstd::arithmetic::div_mod::lemma_div_is_ordered;
use vstd::arithmetic::div_mod::lemma_fundamental_div_mod;
use vstd::arithmetic::div_mod::lemma_multiply_divide_lt;
use vstd::arithmetic::mul::lemma_mul_inequality;

verus! {

broadcast use vstd::std_specs::hash::group_hash_axioms;

/// One vesting schedule.
#[derive(Clone, Copy, Debug, PartialEq, Eq, Structural)]
pub struct VestingAccount {
    /// Total amount released over the whole schedule.
    pub total_amount: u128,
    /// Amount already claimed (monotonic except for compensation).
    pub claimed_amount: u128,
    /// First second of vesting; the cliff is already included.
    pub start_timestamp: u64,
    /// First second at which the whole amount is vested.
    pub finish_timestamp: u64,
    /// Seconds per release.
    pub duration: u64,
    /// Number of releases in the schedule.
    pub releases_count: u64,
    /// Whether the schedule was revoked.
    pub is_revoked: bool,
    /// Whether the owner may revoke the schedule.
    pub is_revocable: bool,
}

impl VestingAccount {
    /// What every stored schedule satisfies: nothing over-claimed, and the
    /// finish timestamp consistent with the release plan.
    pub open spec fn wf(self) -> bool {
        &&& self.claimed_amount <= self.total_amount
        &&& self.finish_timestamp == self.start_timestamp + self.releases_count * self.duration
    }

    /// The vested amount, as an executable value.
    pub fn vested_amount(&self, now: u64) -> (r: u128)
        requires
            self.wf(),
        ensures
            r == spec_vested_amount(*self, now),
            r <= self.total_amount,
    {
        proof {
            lemma_vested_bounds(*self, now);
        }
        if now < self.start_timestamp {
            0
        } else if now >= self.finish_timestamp || self.is_revoked {
            self.total_amount
        } else {
            proof {
                lemma_vesting_window_positive(*self, now);
            }
            let elapsed = (now - self.start_timestamp) / self.duration;
            let per_release = self.total_amount / (self.releases_count as u128);
            proof {
                lemma_vested_product_fits(*self, now);
            }
            (elapsed as u128) * per_release
        }
    }
}

/// The vested amount of a schedule at a moment in time: zero before the
/// start; the full amount at or after the finish, or once revoked; and
/// otherwise the number of whole release periods elapsed times the truncated
/// per-release share.
pub open spec fn spec_vested_amount(a: VestingAccount, now: u64) -> int {
    if now < a.start_timestamp {
        0
    } else if now >= a.finish_timestamp || a.is_revoked {
        a.total_amount as int
    } else {
        ((now - a.start_timestamp) as int / a.duration as int) * (a.total_amount as int
            / a.releases_count as int)
    }
}

/// Inside the vesting window both the duration and the release count are
/// positive, so the divisions of the vesting formula are well defined.
proof fn lemma_vesting_window_positive(a: VestingAccount, now: u64)
    requires
        a.wf(),
        a.start_timestamp <= now < a.finish_timestamp,
    ensures
        a.duration > 0,
        a.releases_count > 0,
{
    let rc = a.releases_count as int;
    let d = a.duration as int;
    assert(rc * d > 0);
    assert(d > 0 && rc > 0) by (nonlinear_arith)
        requires
            rc * d > 0,
            rc >= 0,
            d >= 0,
    ;
}

/// The product of the vesting formula stays within the total amount.
proof fn lemma_vested_product_fits(a: VestingAccount, now: u64)
    requires
        a.wf(),
        a.start_timestamp <= now < a.finish_timestamp,
    ensures
        0 <= ((now - a.start_timestamp) as int / a.duration as int) * (a.total_amount as int
            / a.releases_count as int) <= a.total_amount,
{
    lemma_vesting_window_positive(a, now);
    let d = a.duration as int;
    let rc = a.releases_count as int;
    let t = a.total_amount as int;
    let gap = (now - a.start_timestamp) as int;
    let e = gap / d;
    let p = t / rc;
    assert(rc * d == d * rc) by (nonlinear_arith);
    lemma_multiply_divide_lt(gap, d, rc);
    assert(e >= 0) by (nonlinear_arith)
        requires
            gap >= 0,
            d > 0,
            e == gap / d,
    ;
    assert(p >= 0) by (nonlinear_arith)
        requires
            t >= 0,
            rc > 0,
            p == t / rc,
    ;
    lemma_fundamental_div_mod(t, rc);
    assert(t % rc >= 0) by (nonlinear_arith)
        requires
            t >= 0,
            rc > 0,
    ;
    assert(e * p <= t) by (nonlinear_arith)
        requires
            0 <= e,
            e <= rc - 1,
            0 <= p,
            rc * p <= t,
    ;
    assert(e * p >= 0) by (nonlinear_arith)
        requires
            e >= 0,
            p >= 0,
    ;
}

/// The vested amount never leaves `[0, total_amount]`.
pub proof fn lemma_vested_bounds(a: VestingAccount, now: u64)
    requires
        a.wf(),
    ensures
        0 <= spec_vested_amount(a, now) <= a.total_amount,
{
    if a.start_timestamp <= now && now < a.finish_timestamp && !a.is_revoked {
        lemma_vested_product_fits(a, now);
    }
}

/// The vested amount is non-decreasing in time.
pub proof fn lemma_vested_monotonic(a: VestingAccount, now1: u64, now2: u64)
    requires
        a.wf(),
        now1 <= now2,
    ensures
        spec_vested_amount(a, now1) <= spec_vested_amount(a, now2),
{
    lemma_vested_bounds(a, now1);
    lemma_vested_bounds(a, now2);
    if a.start_timestamp <= now1 && now1 < a.finish_timestamp && !a.is_revoked
        && a.start_timestamp <= now2 && now2 < a.finish_timestamp {
        lemma_vesting_window_positive(a, now1);
        let d = a.duration as int;
        let rc = a.releases_count as int;
        let t = a.total_amount as int;
        let p = t / rc;
        let e1 = (now1 - a.start_timestamp) as int / d;
        let e2 = (now2 - a.start_timestamp) as int / d;
        lemma_div_is_ordered((now1 - a.start_timestamp) as int, (now2 - a.start_timestamp) as int, d);
        assert(p >= 0) by (nonlinear_arith)
            requires
                t >= 0,
                rc > 0,
                p == t / rc,
        ;
        lemma_mul_inequality(e1, e2, p);
    }
}

/// At the start of a schedule with a non-empty vesting window nothing is
/// vested yet.
pub proof fn lemma_vested_zero_at_start(a: VestingAccount)
    requires
        a.wf(),
        !a.is_revoked,
        a.start_timestamp < a.finish_timestamp,
    ensures
        spec_vested_amount(a, a.start_timestamp) == 0,
{
    lemma_vesting_window_positive(a, a.start_timestamp);
    let d = a.duration as int;
    let t = a.total_amount as int;
    let p = t / a.releases_count as int;
    assert(0int / d == 0) by (nonlinear_arith)
        requires
            d > 0,
    ;
    assert(0int * p == 0) by (nonlinear_arith);
}

/// At or after the finish of a schedule the whole amount is vested, dust
/// from per-release truncation included.
pub proof fn lemma_vested_total_at_finish(a: VestingAccount, now: u64)
    requires
        a.wf(),
        now >= a.finish_timestamp,
    ensures
        spec_vested_amount(a, now) == a.total_amount,
{
}

/// Parameters of one schedule in a creation batch. The cliff is handed in
/// separately and folded into the start timestamp.
#[derive(Clone, Copy, Debug, PartialEq, Eq, Structural)]
pub struct AccountParams {
    pub account_id: u64,
    pub total_amount: u128,
    pub start: u64,
    pub cliff: u64,
    pub duration: u64,
    pub releases_count: u64,
    pub is_revocable: bool,
}

/// Why one batch entry is rejected: a schedule with neither cliff nor
/// releases, or timestamps that leave the integer range.
pub open spec fn params_error(p: AccountParams) -> Option<Error> {
    if p.cliff == 0 && p.releases_count == 0 {
        Some(Error::InvalidParams)
    } else if p.start + p.cliff + p.releases_count * p.duration > u64::MAX {
        Some(Error::ArithmeticOverflow)
    } else {
        None
    }
}

/// The first rejection in a batch, scanning in order; `None` when every
/// entry is acceptable.
pub open spec fn batch_error(batch: Seq<AccountParams>) -> Option<Error>
    decreases batch.len(),
{
    if batch.len() == 0 {
        None
    } else if params_error(batch[0]) is Some {
        params_error(batch[0])
    } else {
        batch_error(batch.drop_first())
    }
}

/// The schedule created from acceptable parameters.
pub open spec fn account_of(p: AccountParams) -> VestingAccount {
    VestingAccount {
        total_amount: p.total_amount,
        claimed_amount: 0,
        start_timestamp: (p.start + p.cliff) as u64,
        finish_timestamp: (p.start + p.cliff + p.releases_count * p.duration) as u64,
        duration: p.duration,
        releases_count: p.releases_count,
        is_revoked: false,
        is_revocable: p.is_revocable,
    }
}

/// The effect of a creation batch: each entry inserts its schedule unless
/// the id already has one — creation is idempotent per id, and the first
/// entry for an id wins within one batch.
pub open spec fn apply_batch(m: Map<u64, VestingAccount>, batch: Seq<AccountParams>) -> Map<
    u64,
    VestingAccount,
>
    decreases batch.len(),
{
    if batch.len() == 0 {
        m
    } else {
        let m1 = if m.contains_key(batch[0].account_id) {
            m
        } else {
            m.insert(batch[0].account_id, account_of(batch[0]))
        };
        apply_batch(m1, batch.drop_first())
    }
}

/// Appending one entry to a batch applies it to the result of the batch.
proof fn lemma_apply_batch_push(m: Map<u64, VestingAccount>, batch: Seq<AccountParams>, p: AccountParams)
    ensures
        apply_batch(m, batch.push(p)) == (if apply_batch(m, batch).contains_key(p.account_id) {
            apply_batch(m, batch)
        } else {
            apply_batch(m, batch).insert(p.account_id, account_of(p))
        }),
    decreases batch.len(),
{
    if batch.len() == 0 {
        assert(batch.push(p)[0] == p);
        assert(batch.push(p).drop_first() =~= Seq::<AccountParams>::empty());
        let m1 = if m.contains_key(p.account_id) {
            m
        } else {
            m.insert(p.account_id, account_of(p))
        };
        assert(apply_batch(m1, batch.push(p).drop_first()) == m1);
        assert(apply_batch(m, batch.push(p)) == m1);
        assert(apply_batch(m, batch) == m);
    } else {
        assert(batch.push(p)[0] == batch[0]);
        assert(batch.push(p).drop_first() =~= batch.drop_first().push(p));
        let m1 = if m.contains_key(batch[0].account_id) {
            m
        } else {
            m.insert(batch[0].account_id, account_of(batch[0]))
        };
        lemma_apply_batch_push(m1, batch.drop_first(), p);
        assert(apply_batch(m, batch.push(p)) == apply_batch(m1, batch.push(p).drop_first()));
        assert(apply_batch(m, batch) == apply_batch(m1, batch.drop_first()));
    }
}

/// A batch whose entries are all acceptable has no batch error.
proof fn lemma_batch_error_none(batch: Seq<AccountParams>)
    requires
        forall|j: int| 0 <= j < batch.len() ==> params_error(#[trigger] batch[j]) is None,
    ensures
        batch_error(batch) is None,
    decreases batch.len(),
{
    if batch.len() > 0 {
        assert(forall|j: int|
            0 <= j < batch.drop_first().len() ==> #[trigger] batch.drop_first()[j] == batch[j + 1]);
        lemma_batch_error_none(batch.drop_first());
    }
}

/// The batch error is the error of the first unacceptable entry.
proof fn lemma_batch_error_at(batch: Seq<AccountParams>, i: int)
    requires
        0 <= i < batch.len(),
        forall|j: int| 0 <= j < i ==> params_error(#[trigger] batch[j]) is None,
        params_error(batch[i]) is Some,
    ensures
        batch_error(batch) == params_error(batch[i]),
    decreases batch.len(),
{
    if i > 0 {
        assert(forall|j: int|
            0 <= j < batch.drop_first().len() ==> #[trigger] batch.drop_first()[j] == batch[j + 1]);
        lemma_batch_error_at(batch.drop_first(), i - 1);
    }
}

/// The whole vesting ledger as a mathematical value.
#[verifier::ext_equal]
pub struct VestingView {
    pub owner_id: u64,
    pub token_account_id: u64,
    pub accounts: Map<u64, VestingAccount>,
    pub pending: Map<u64, PendingSettlement>,
    pub total_claimed: u128,
}

/// What a pending settlement promises about the schedule it locks: a
/// pending claim has already moved its amount into `claimed_amount` of an
/// unrevoked schedule; a pending revocation has already set the flag of a
/// revocable schedule and carries exactly the unclaimed remainder.
pub open spec fn pending_wf(p: PendingSettlement, a: VestingAccount) -> bool {
    match p.kind {
        SettlementKind::Claim => p.amount <= a.claimed_amount && !a.is_revoked,
        SettlementKind::Revoke => a.is_revoked && a.is_revocable && p.amount == a.total_amount
            - a.claimed_amount,
        SettlementKind::Register => false,
    }
}

impl VestingView {
    /// Every schedule is well formed, and every pending settlement locks an
    /// existing schedule in the state its optimistic mutation left behind.
    pub open spec fn wf(self) -> bool {
        &&& forall|id: u64|
            #[trigger] self.accounts.contains_key(id) ==> self.accounts[id].wf()
        &&& forall|id: u64|
            #[trigger] self.pending.contains_key(id) ==> self.accounts.contains_key(id)
                && pending_wf(self.pending[id], self.accounts[id])
    }
}

/// Why a claim is rejected, in the order the checks run; `None` when it is
/// accepted.
pub open spec fn claim_error(v: VestingView, id: u64, now: u64) -> Option<Error> {
    if !v.accounts.contains_key(id) {
        Some(Error::NotBeneficiary)
    } else if v.pending.contains_key(id) {
        Some(Error::OperationInProgress)
    } else if v.accounts[id].is_revoked {
        Some(Error::AlreadyRevoked)
    } else if spec_vested_amount(v.accounts[id], now) <= v.accounts[id].claimed_amount {
        Some(Error::NothingClaimable)
    } else if v.total_claimed + claimable_amount(v, id, now) > u128::MAX {
        Some(Error::ArithmeticOverflow)
    } else {
        None
    }
}

/// What a claim pays out: the vested amount minus what was already claimed.
pub open spec fn claimable_amount(v: VestingView, id: u64, now: u64) -> int {
    spec_vested_amount(v.accounts[id], now) - v.accounts[id].claimed_amount
}

/// The optimistic effect of an accepted claim: the amount moves into
/// `claimed_amount` and the running total, and the participant becomes
/// pending under a claim settlement of that amount.
pub open spec fn claim_apply(v: VestingView, id: u64, amount: int) -> VestingView {
    VestingView {
        accounts: v.accounts.insert(
            id,
            VestingAccount {
                claimed_amount: (v.accounts[id].claimed_amount + amount) as u128,
                ..v.accounts[id]
            },
        ),
        pending: v.pending.insert(
            id,
            PendingSettlement { kind: SettlementKind::Claim, amount: amount as u128 },
        ),
        total_claimed: (v.total_claimed + amount) as u128,
        ..v
    }
}

/// Why a claim resolution is rejected: no claim settlement is pending under
/// this correlation id (it was already resolved once, or never started), or
/// the compensation of a failed transfer would underflow the running total.
pub open spec fn claim_resolve_error(v: VestingView, id: u64, success: bool) -> Option<Error> {
    if !(v.pending.contains_key(id) && v.pending[id].kind == SettlementKind::Claim) {
        Some(Error::DuplicateResolution)
    } else if !success && v.total_claimed < v.pending[id].amount {
        Some(Error::ArithmeticUnderflow)
    } else {
        None
    }
}

/// Resolution of a successful transfer: the pending marker is consumed and
/// nothing else changes.
pub open spec fn claim_finalize(v: VestingView, id: u64) -> VestingView {
    VestingView { pending: v.pending.remove(id), ..v }
}

/// Resolution of a failed transfer: the pending marker is consumed and the
/// recorded amount is taken back out of `claimed_amount` and the running
/// total — the exact inverse of the optimistic mutation.
pub open spec fn claim_compensate(v: VestingView, id: u64) -> VestingView {
    let a = v.pending[id].amount;
    VestingView {
        accounts: v.accounts.insert(
            id,
            VestingAccount {
                claimed_amount: (v.accounts[id].claimed_amount - a) as u128,
                ..v.accounts[id]
            },
        ),
        pending: v.pending.remove(id),
        total_claimed: (v.total_claimed - a) as u128,
        ..v
    }
}

/// Why a revocation is rejected, in the order the checks run.
pub open spec fn revoke_error(v: VestingView, id: u64) -> Option<Error> {
    if !v.accounts.contains_key(id) {
        Some(Error::NotFound)
    } else if v.pending.contains_key(id) {
        Some(Error::OperationInProgress)
    } else if !v.accounts[id].is_revocable {
        Some(Error::NotRevocable)
    } else if v.accounts[id].is_revoked {
        Some(Error::AlreadyRevoked)
    } else {
        None
    }
}

/// What a revocation returns to the owner: the unclaimed remainder.
pub open spec fn remaining_amount(v: VestingView, id: u64) -> int {
    v.accounts[id].total_amount - v.accounts[id].claimed_amount
}

/// The optimistic effect of an accepted revocation: the flag is set and the
/// participant becomes pending under a revoke settlement of the remainder.
pub open spec fn revoke_apply(v: VestingView, id: u64) -> VestingView {
    VestingView {
        accounts: v.accounts.insert(
            id,
            VestingAccount { is_revoked: true, ..v.accounts[id] },
        ),
        pending: v.pending.insert(
            id,
            PendingSettlement {
                kind: SettlementKind::Revoke,
                amount: remaining_amount(v, id) as u128,
            },
        ),
        ..v
    }
}

/// Why a revoke resolution is rejected: no revoke settlement is pending
/// under this correlation id.
pub open spec fn revoke_resolve_error(v: VestingView, id: u64) -> Option<Error> {
    if !(v.pending.contains_key(id) && v.pending[id].kind == SettlementKind::Revoke) {
        Some(Error::DuplicateResolution)
    } else {
        None
    }
}

/// Resolution of a successful transfer: the pending marker is consumed.
pub open spec fn revoke_finalize(v: VestingView, id: u64) -> VestingView {
    VestingView { pending: v.pending.remove(id), ..v }
}

/// Resolution of a failed transfer: the pending marker is consumed and the
/// revocation flag is cleared again.
pub open spec fn revoke_compensate(v: VestingView, id: u64) -> VestingView {
    VestingView {
        accounts: v.accounts.insert(
            id,
            VestingAccount { is_revoked: false, ..v.accounts[id] },
        ),
        pending: v.pending.remove(id),
        ..v
    }
}

/// Read-only projection of the ledger's global fields.
#[derive(Clone, Copy, Debug, PartialEq, Eq, Structural)]
pub struct Stats {
    pub owner_id: u64,
    pub token_account_id: u64,
    pub total_claimed: u128,
}

/// Read-only projection of one schedule.
#[derive(Clone, Copy, Debug, PartialEq, Eq, Structural)]
pub struct AccountOutput {
    pub total_amount: u128,
    pub claimed_amount: u128,
    pub start_timestamp: u64,
    pub finish_timestamp: u64,
    pub duration: u64,
    pub releases_count: u64,
    pub is_revoked: bool,
    pub is_revocable: bool,
}

/// The vesting ledger.
pub struct VestingLedger {
    pub owner_id: u64,
    pub token_account_id: u64,
    pub accounts: HashMap<u64, VestingAccount>,
    pub total_claimed: u128,
    pub coordinator: SettlementCoordinator,
}

impl View for VestingLedger {
    type V = VestingView;

    open spec fn view(&self) -> VestingView {
        VestingView {
            owner_id: self.owner_id,
            token_account_id: self.token_account_id,
            accounts: self.accounts@,
            pending: self.coordinator@,
            total_claimed: self.total_claimed,
        }
    }
}

impl VestingLedger {
    /// An empty ledger.
    pub fn new(owner_id: u64, token_account_id: u64) -> (l: VestingLedger)
        ensures
            l@.wf(),
            l@.owner_id == owner_id,
            l@.token_account_id == token_account_id,
            l@.accounts == Map::<u64, VestingAccount>::empty(),
            l@.pending == Map::<u64, PendingSettlement>::empty(),
            l@.total_claimed == 0,
    {
        VestingLedger {
            owner_id,
            token_account_id,
            accounts: HashMap::new(),
            total_claimed: 0,
            coordinator: SettlementCoordinator::new(),
        }
    }

    /// Creates the schedules of a batch, skipping ids that already have
    /// one. All entries are validated before anything is inserted, so a
    /// rejected batch changes nothing.
    pub fn add_accounts(&mut self, batch: Vec<AccountParams>) -> (r: Result<bool, Error>)
        requires
            old(self)@.wf(),
        ensures
            final(self)@.wf(),
            match batch_error(batch@) {
                Some(e) => r == Err::<bool, Error>(e) && final(self)@ == old(self)@,
                None => r == Ok::<bool, Error>(true) && final(self)@ == (VestingView {
                    accounts: apply_batch(old(self)@.accounts, batch@),
                    ..old(self)@
                }),
            },
    {
        let n = batch.len();
        let mut i: usize = 0;
        while i < n
            invariant
                n == batch.len(),
                0 <= i <= n,
                forall|j: int| 0 <= j < i ==> params_error(#[trigger] batch@[j]) is None,
                *self == *old(self),
                self@.wf(),
            decreases n - i,
        {
            let p = batch[i];
            if p.cliff == 0 && p.releases_count == 0 {
                proof {
                    lemma_batch_error_at(batch@, i as int);
                }
                return Err(Error::InvalidParams);
            }
            let started = match p.start.checked_add(p.cliff) {
                Some(s) => s,
                None => {
                    proof {
                        lemma_batch_error_at(batch@, i as int);
                    }
                    return Err(Error::ArithmeticOverflow);
                },
            };
            let span = match p.releases_count.checked_mul(p.duration) {
                Some(s) => s,
                None => {
                    proof {
                        lemma_batch_error_at(batch@, i as int);
                    }
                    return Err(Error::ArithmeticOverflow);
                },
            };
            match started.checked_add(span) {
                Some(_) => {},
                None => {
                    proof {
                        lemma_batch_error_at(batch@, i as int);
                    }
                    return Err(Error::ArithmeticOverflow);
                },
            };
            i = i + 1;
        }
        proof {
            lemma_batch_error_none(batch@);
            assert(batch@.take(0) =~= Seq::<AccountParams>::empty());
        }
        let ghost pre = self@;
        let mut k: usize = 0;
        while k < n
            invariant
                n == batch.len(),
                0 <= k <= n,
                forall|j: int| 0 <= j < n ==> params_error(#[trigger] batch@[j]) is None,
                self.owner_id == pre.owner_id,
                self.token_account_id == pre.token_account_id,
                self.total_claimed == pre.total_claimed,
                self.coordinator@ == pre.pending,
                self.accounts@ == apply_batch(pre.accounts, batch@.take(k as int)),
                self@.wf(),
            decreases n - k,
        {
            let p = batch[k];
            let ghost v0 = self@;
            if !self.accounts.contains_key(&p.account_id) {
                let started = p.start + p.cliff;
                let finish = started + p.releases_count * p.duration;
                let account = VestingAccount {
                    total_amount: p.total_amount,
                    claimed_amount: 0,
                    start_timestamp: started,
                    finish_timestamp: finish,
                    duration: p.duration,
                    releases_count: p.releases_count,
                    is_revoked: false,
                    is_revocable: p.is_revocable,
                };
                self.accounts.insert(p.account_id, account);
                proof {
                    assert(self@.accounts == v0.accounts.insert(p.account_id, account));
                    assert(self@.pending == v0.pending);
                    assert(account == account_of(p));
                    assert(account.wf());
                    assert forall|id: u64| #[trigger] self@.accounts.contains_key(id) implies self@
                        .accounts[id].wf() by {
                        if id == p.account_id {
                            assert(self@.accounts[id] == account);
                        } else {
                            assert(v0.accounts.contains_key(id));
                            assert(v0.accounts[id].wf());
                            assert(self@.accounts[id] == v0.accounts[id]);
                        }
                    }
                    assert forall|id: u64| #[trigger] self@.pending.contains_key(id) implies self@
                        .accounts.contains_key(id) && pending_wf(
                        self@.pending[id],
                        self@.accounts[id],
                    ) by {
                        assert(v0.pending.contains_key(id));
                        assert(v0.accounts.contains_key(id));
                        assert(id != p.account_id);
                        assert(self@.accounts[id] == v0.accounts[id]);
                        assert(self@.pending[id] == v0.pending[id]);
                    }
                }
            }
            proof {
                lemma_apply_batch_push(pre.accounts, batch@.take(k as int), p);
                assert(batch@.take(k as int).push(p) =~= batch@.take(k + 1));
            }
            k = k + 1;
        }
        proof {
            assert(batch@.take(n as int) =~= batch@);
            assert(self@ =~= (VestingView { accounts: apply_batch(pre.accounts, batch@), ..pre }));
        }
        Ok(true)
    }

    /// The vested amount of a participant's schedule at the given time.
    pub fn get_vested_amount(&self, account_id: u64, now: u64) -> (r: Result<u128, Error>)
        requires
            self@.wf(),
        ensures
            !self@.accounts.contains_key(account_id) ==> r == Err::<u128, Error>(Error::NotFound),
            self@.accounts.contains_key(account_id) ==> r == Ok::<u128, Error>(
                spec_vested_amount(self@.accounts[account_id], now) as u128,
            ),
    {
        let account = match self.accounts.get(&account_id) {
            Some(a) => *a,
            None => {
                return Err(Error::NotFound);
            },
        };
        proof {
            assert(self@.accounts.contains_key(account_id));
        }
        Ok(account.vested_amount(now))
    }

    /// Starts a claim: pays out the difference between the vested and the
    /// already claimed amount. The mutation is optimistic — the caller owes
    /// the returned amount to the participant and must deliver the
    /// transfer's outcome to [`Self::callback_claim_transfer`] exactly once.
    pub fn claim(&mut self, account_id: u64, now: u64) -> (r: Result<u128, Error>)
        requires
            old(self)@.wf(),
        ensures
            final(self)@.wf(),
            match claim_error(old(self)@, account_id, now) {
                Some(e) => r == Err::<u128, Error>(e) && final(self)@ == old(self)@,
                None => {
                    let a = claimable_amount(old(self)@, account_id, now);
                    r == Ok::<u128, Error>(a as u128) && final(self)@ == claim_apply(
                        old(self)@,
                        account_id,
                        a,
                    )
                },
            },
    {
        let account = match self.accounts.get(&account_id) {
            Some(a) => *a,
            None => {
                return Err(Error::NotBeneficiary);
            },
        };
        if self.coordinator.is_pending(account_id) {
            return Err(Error::OperationInProgress);
        }
        if account.is_revoked {
            return Err(Error::AlreadyRevoked);
        }
        let vested = account.vested_amount(now);
        if vested <= account.claimed_amount {
            return Err(Error::NothingClaimable);
        }
        let claimable = vested - account.claimed_amount;
        let new_total = match self.total_claimed.checked_add(claimable) {
            Some(t) => t,
            None => {
                return Err(Error::ArithmeticOverflow);
            },
        };
        let updated = VestingAccount { claimed_amount: vested, ..account };
        self.accounts.insert(account_id, updated);
        self.total_claimed = new_total;
        let _ = self.coordinator.begin(account_id, SettlementKind::Claim, claimable);
        proof {
            let ghost post = claim_apply(old(self)@, account_id, claimable as int);
            assert(self@.accounts =~= post.accounts);
            assert(self@.pending =~= post.pending);
            assert(self@ =~= post);
        }
        Ok(claimable)
    }

    /// Resolves a claim settlement. On success only the pending marker is
    /// consumed; on failure the claimed amount and the running total return
    /// to their exact values from before the claim.
    pub fn callback_claim_transfer(&mut self, account_id: u64, success: bool) -> (r: Result<
        u128,
        Error,
    >)
        requires
            old(self)@.wf(),
        ensures
            final(self)@.wf(),
            match claim_resolve_error(old(self)@, account_id, success) {
                Some(e) => r == Err::<u128, Error>(e) && final(self)@ == old(self)@,
                None => r == Ok::<u128, Error>(old(self)@.pending[account_id].amount)
                    && final(self)@ == (if success {
                    claim_finalize(old(self)@, account_id)
                } else {
                    claim_compensate(old(self)@, account_id)
                }),
            },
    {
        let entry = match self.coordinator.get(account_id) {
            Some(p) => p,
            None => {
                return Err(Error::DuplicateResolution);
            },
        };
        if !(matches!(entry.kind, SettlementKind::Claim)) {
            return Err(Error::DuplicateResolution);
        }
        if success {
            let _ = self.coordinator.resolve(account_id, SettlementKind::Claim);
            proof {
                assert(self@ =~= claim_finalize(old(self)@, account_id));
            }
            Ok(entry.amount)
        } else {
            let new_total = match self.total_claimed.checked_sub(entry.amount) {
                Some(t) => t,
                None => {
                    return Err(Error::ArithmeticUnderflow);
                },
            };
            let account = match self.accounts.get(&account_id) {
                Some(a) => *a,
                None => {
                    return Err(Error::NotFound);
                },
            };
            let updated = VestingAccount {
                claimed_amount: account.claimed_amount - entry.amount,
                ..account
            };
            self.accounts.insert(account_id, updated);
            self.total_claimed = new_total;
            let _ = self.coordinator.resolve(account_id, SettlementKind::Claim);
            proof {
                let ghost post = claim_compensate(old(self)@, account_id);
                assert(self@.accounts =~= post.accounts);
                assert(self@.pending =~= post.pending);
                assert(self@ =~= post);
            }
            Ok(entry.amount)
        }
    }

    /// Starts a revocation: marks the schedule revoked and owes the
    /// unclaimed remainder to the owner. The caller must deliver the
    /// transfer's outcome to [`Self::callback_revoke_transfer`] exactly
    /// once.
    pub fn revoke(&mut self, account_id: u64) -> (r: Result<u128, Error>)
        requires
            old(self)@.wf(),
        ensures
            final(self)@.wf(),
            match revoke_error(old(self)@, account_id) {
                Some(e) => r == Err::<u128, Error>(e) && final(self)@ == old(self)@,
                None => r == Ok::<u128, Error>(remaining_amount(old(self)@, account_id) as u128)
                    && final(self)@ == revoke_apply(old(self)@, account_id),
            },
    {
        let account = match self.accounts.get(&account_id) {
            Some(a) => *a,
            None => {
                return Err(Error::NotFound);
            },
        };
        if self.coordinator.is_pending(account_id) {
            return Err(Error::OperationInProgress);
        }
        if !account.is_revocable {
            return Err(Error::NotRevocable);
        }
        if account.is_revoked {
            return Err(Error::AlreadyRevoked);
        }
        let remaining = account.total_amount - account.claimed_amount;
        let updated = VestingAccount { is_revoked: true, ..account };
        self.accounts.insert(account_id, updated);
        let _ = self.coordinator.begin(account_id, SettlementKind::Revoke, remaining);
        proof {
            let ghost post = revoke_apply(old(self)@, account_id);
            assert(self@.accounts =~= post.accounts);
            assert(self@.pending =~= post.pending);
            assert(self@ =~= post);
        }
        Ok(remaining)
    }

    /// Resolves a revoke settlement. On success only the pending marker is
    /// consumed; on failure the revocation flag is cleared again.
    pub fn callback_revoke_transfer(&mut self, account_id: u64, success: bool) -> (r: Result<
        u128,
        Error,
    >)
        requires
            old(self)@.wf(),
        ensures
            final(self)@.wf(),
            match revoke_resolve_error(old(self)@, account_id) {
                Some(e) => r == Err::<u128, Error>(e) && final(self)@ == old(self)@,
                None => r == Ok::<u128, Error>(old(self)@.pending[account_id].amount)
                    && final(self)@ == (if success {
                    revoke_finalize(old(self)@, account_id)
                } else {
                    revoke_compensate(old(self)@, account_id)
                }),
            },
    {
        let entry = match self.coordinator.get(account_id) {
            Some(p) => p,
            None => {
                return Err(Error::DuplicateResolution);
            },
        };
        if !(matches!(entry.kind, SettlementKind::Revoke)) {
            return Err(Error::DuplicateResolution);
        }
        if success {
            let _ = self.coordinator.resolve(account_id, SettlementKind::Revoke);
            proof {
                assert(self@ =~= revoke_finalize(old(self)@, account_id));
            }
            Ok(entry.amount)
        } else {
            let account = match self.accounts.get(&account_id) {
                Some(a) => *a,
                None => {
                    return Err(Error::NotFound);
                },
            };
            let updated = VestingAccount { is_revoked: false, ..account };
            self.accounts.insert(account_id, updated);
            let _ = self.coordinator.resolve(account_id, SettlementKind::Revoke);
            proof {
                let ghost post = revoke_compensate(old(self)@, account_id);
                assert(self@.accounts =~= post.accounts);
                assert(self@.pending =~= post.pending);
                assert(self@ =~= post);
            }
            Ok(entry.amount)
        }
    }

    /// The ledger's global fields.
    pub fn get_stats(&self) -> (s: Stats)
        ensures
            s.owner_id == self@.owner_id,
            s.token_account_id == self@.token_account_id,
            s.total_claimed == self@.total_claimed,
    {
        Stats {
            owner_id: self.owner_id,
            token_account_id: self.token_account_id,
            total_claimed: self.total_claimed,
        }
    }

    /// One participant's schedule, if any.
    pub fn get_account(&self, account_id: u64) -> (r: Option<AccountOutput>)
        ensures
            match r {
                Some(out) => self@.accounts.contains_key(account_id) && out == (AccountOutput {
                    total_amount: self@.accounts[account_id].total_amount,
                    claimed_amount: self@.accounts[account_id].claimed_amount,
                    start_timestamp: self@.accounts[account_id].start_timestamp,
                    finish_timestamp: self@.accounts[account_id].finish_timestamp,
                    duration: self@.accounts[account_id].duration,
                    releases_count: self@.accounts[account_id].releases_count,
                    is_revoked: self@.accounts[account_id].is_revoked,
                    is_revocable: self@.accounts[account_id].is_revocable,
                }),
                None => !self@.accounts.contains_key(account_id),
            },
    {
        match self.accounts.get(&account_id) {
            Some(a) => Some(
                AccountOutput {
                    total_amount: a.total_amount,
                    claimed_amount: a.claimed_amount,
                    start_timestamp: a.start_timestamp,
                    finish_timestamp: a.finish_timestamp,
                    duration: a.duration,
                    releases_count: a.releases_count,
                    is_revoked: a.is_revoked,
                    is_revocable: a.is_revocable,
                },
            ),
            None => None,
        }
    }
}

/// A failed transfer restores the ledger exactly: compensating the state
/// that an accepted claim left behind yields the state from before the
/// claim, and once a resolution has consumed the pending marker, a second
/// resolution for the same correlation id is rejected.
pub proof fn lemma_claim_compensation_exact(v: VestingView, id: u64, now: u64)
    requires
        v.wf(),
        claim_error(v, id, now) is None,
    ensures
        claim_resolve_error(claim_apply(v, id, claimable_amount(v, id, now)), id, false) is None,
        claim_compensate(claim_apply(v, id, claimable_amount(v, id, now)), id) == v,
        claim_resolve_error(
            claim_compensate(claim_apply(v, id, claimable_amount(v, id, now)), id),
            id,
            false,
        ) == Some(Error::DuplicateResolution),
        claim_resolve_error(
            claim_finalize(claim_apply(v, id, claimable_amount(v, id, now)), id),
            id,
            true,
        ) == Some(Error::DuplicateResolution),
{
    let a = claimable_amount(v, id, now);
    let v1 = claim_apply(v, id, a);
    lemma_vested_bounds(v.accounts[id], now);
    let v2 = claim_compensate(v1, id);
    assert(v2.accounts =~= v.accounts);
    assert(v2.pending =~= v.pending);
    assert(v2 =~= v);
}

/// The analogue for revocations: compensating the state that an accepted
/// revocation left behind yields the state from before it, and a second
/// resolution is rejected.
pub proof fn lemma_revoke_compensation_exact(v: VestingView, id: u64)
    requires
        v.wf(),
        revoke_error(v, id) is None,
    ensures
        revoke_resolve_error(revoke_apply(v, id), id) is None,
        revoke_compensate(revoke_apply(v, id), id) == v,
        revoke_resolve_error(revoke_compensate(revoke_apply(v, id), id), id) == Some(
            Error::DuplicateResolution,
        ),
        revoke_resolve_error(revoke_finalize(revoke_apply(v, id), id), id) == Some(
            Error::DuplicateResolution,
        ),
{
    let v1 = revoke_apply(v, id);
    let v2 = revoke_compensate(v1, id);
    assert(v2.accounts =~= v.accounts);
    assert(v2.pending =~= v.pending);
    assert(v2 =~= v);
}

} // verus!
