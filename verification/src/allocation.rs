//! The sale ledger: stake-based registration and cap-bounded purchases.
//!
//! A participant first deposits storage, which creates an untiered record.
//! `register` locks the participant and asks the stake oracle for the
//! participant's stake; the oracle's single answer goes to
//! `on_get_account`, which consumes the lock exactly once and either
//! assigns the stake's tier (counting the participant into the tier table)
//! or leaves the record untiered. Purchases convert a payment into tokens
//! at a fixed-point price and must land strictly between the tier's minimum
//! and maximum cap.

use std::collections::HashMap;
use vstd::prelude::*;

use crate::errors::Error;
use crate::settlement::PendingSettlement;
use crate::settlement::SettlementCoordinator;
use crate::settlement::SettlementKind;
use crate::tier::DENO;
use crate::tier::Tier;
use crate::tier::TierConfig;
use crate::tier::TierRegistry;
use crate::tier::default_tier_table;
use crate::tier::highest_qualifying;
use crate::tier::spec_allocation_cap;
use crate::tier::tier_index;
use crate::tier::tier_of_index;
use crate::tier::tier_table_wf;
use crate::tier::total_weight;

verus! {

broadcast use vstd::std_specs::hash::group_hash_axioms;

/// Payments are converted to tokens with 18 decimals of fixed-point
/// precision: `tokens = payment * PRICE_SCALE / price`.
pub const PRICE_SCALE: u128 = 1_000_000_000_000_000_000;

/// One asset position as the stake oracle reports it.
#[derive(Clone, Copy, Debug, PartialEq, Eq, Structural)]
pub struct AssetView {
    pub token_id: u64,
    pub balance: u128,
}

/// The stake oracle's answer: the assets the participant supplied.
/// Only the first one is consulted.
pub struct AccountDetailedView {
    pub supplied: Vec<AssetView>,
}

impl View for AccountDetailedView {
    type V = Seq<AssetView>;

    open spec fn view(&self) -> Seq<AssetView> {
        self.supplied@
    }
}

/// One sale record.
#[derive(Clone, Copy, Debug, PartialEq, Eq, Structural)]
pub struct IdoAccount {
    /// Tokens purchased so far; non-decreasing.
    pub purchased_amount: u128,
    /// `Tier0` until the registration callback assigns a qualifying tier,
    /// exactly once.
    pub tier: Tier,
}

/// The whole sale ledger as a mathematical value.
#[verifier::ext_equal]
pub struct SaleView {
    pub owner_id: u64,
    pub staking_contract_id: u64,
    pub payment_token_id: u64,
    pub dangel_token_id: u64,
    pub total_ido: u128,
    pub ido_price: u128,
    pub total_purchased: u128,
    pub register_start_timestamp: u64,
    pub register_end_timestamp: u64,
    pub sale_start_timestamp: u64,
    pub sale_end_timestamp: u64,
    pub min_tier_cap_rate: u32,
    pub accounts: Map<u64, IdoAccount>,
    pub pending: Map<u64, PendingSettlement>,
    pub tiers: Seq<TierConfig>,
}

impl SaleView {
    /// The tier table is well formed, and every pending settlement is a
    /// registration lock on an existing, still untiered record.
    pub open spec fn wf(self) -> bool {
        &&& tier_table_wf(self.tiers)
        &&& forall|id: u64|
            #[trigger] self.pending.contains_key(id) ==> self.accounts.contains_key(id)
                && self.pending[id].kind == SettlementKind::Register && self.accounts[id].tier
                == Tier::Tier0
    }
}

/// Why a registration is rejected, in the order the checks run.
pub open spec fn register_error(v: SaleView, id: u64, now: u64) -> Option<Error> {
    if !(v.register_start_timestamp < now < v.register_end_timestamp) {
        Some(Error::RegistrationClosed)
    } else if !v.accounts.contains_key(id) {
        Some(Error::NotFound)
    } else if v.pending.contains_key(id) {
        Some(Error::OperationInProgress)
    } else if v.accounts[id].tier != Tier::Tier0 {
        Some(Error::AlreadyRegistered)
    } else {
        None
    }
}

/// The effect of an accepted registration: the participant becomes pending
/// under a registration settlement; nothing else changes until the oracle
/// answers.
pub open spec fn register_apply(v: SaleView, id: u64) -> SaleView {
    SaleView {
        pending: v.pending.insert(
            id,
            PendingSettlement { kind: SettlementKind::Register, amount: 0 },
        ),
        ..v
    }
}

/// The oracle's answer as a mathematical value.
pub open spec fn stake_of(o: Option<AccountDetailedView>) -> Option<Seq<AssetView>> {
    match o {
        Some(a) => Some(a@),
        None => None,
    }
}

/// Why a registration resolution is rejected, in the order the checks run:
/// no registration settlement under this correlation id; a failed oracle
/// call; an answer whose first asset is not the expected token; a stake
/// that qualifies for no tier; a full participant counter.
pub open spec fn register_resolve_error(
    v: SaleView,
    id: u64,
    stake: Option<Seq<AssetView>>,
) -> Option<Error> {
    if !(v.pending.contains_key(id) && v.pending[id].kind == SettlementKind::Register) {
        Some(Error::DuplicateResolution)
    } else if stake is None {
        Some(Error::ExternalCallFailed)
    } else if stake.unwrap().len() == 0 || stake.unwrap()[0].token_id != v.dangel_token_id {
        Some(Error::WrongToken)
    } else if highest_qualifying(v.tiers, stake.unwrap()[0].balance) == 0 {
        Some(Error::InsufficientStake)
    } else if v.tiers[highest_qualifying(v.tiers, stake.unwrap()[0].balance)].number_of_participants
        == u32::MAX {
        Some(Error::ArithmeticOverflow)
    } else {
        None
    }
}

/// A resolution that assigns no tier still consumes the pending marker;
/// the record stays untiered and the participant may register again.
pub open spec fn register_clear(v: SaleView, id: u64) -> SaleView {
    SaleView { pending: v.pending.remove(id), ..v }
}

/// A successful resolution: the pending marker is consumed, the stake's
/// tier is assigned, and the participant is counted into that tier.
pub open spec fn register_finalize(v: SaleView, id: u64, stake: u128) -> SaleView {
    let t = highest_qualifying(v.tiers, stake);
    let c = v.tiers[t];
    SaleView {
        accounts: v.accounts.insert(id, IdoAccount { tier: tier_of_index(t), ..v.accounts[id] }),
        pending: v.pending.remove(id),
        tiers: v.tiers.update(
            t,
            TierConfig { number_of_participants: (c.number_of_participants + 1) as u32, ..c },
        ),
        ..v
    }
}

/// What a purchase pays out in tokens.
pub open spec fn token_amount(v: SaleView, payment: u128) -> int {
    payment * PRICE_SCALE / (v.ido_price as int)
}

/// The minimum cap derived from a maximum cap.
pub open spec fn min_cap_of(cap: int, rate: u32) -> int {
    cap * rate / (DENO as int)
}

/// Why a purchase is rejected, in the order the checks run. The cap bounds
/// are strict: a purchase landing exactly on either cap is rejected.
pub open spec fn purchase_error(v: SaleView, id: u64, payment: u128, now: u64) -> Option<Error> {
    if !(v.sale_start_timestamp < now < v.sale_end_timestamp) {
        Some(Error::SaleClosed)
    } else if !v.accounts.contains_key(id) {
        Some(Error::NotRegistered)
    } else if v.pending.contains_key(id) {
        Some(Error::OperationInProgress)
    } else if v.accounts[id].tier == Tier::Tier0 {
        Some(Error::NotRegistered)
    } else if v.ido_price == 0 {
        Some(Error::DivisionByZero)
    } else if payment * PRICE_SCALE > u128::MAX {
        Some(Error::ArithmeticOverflow)
    } else if total_weight(v.tiers) == 0 {
        Some(Error::NoParticipants)
    } else if spec_allocation_cap(v.tiers, v.accounts[id].tier, v.total_ido) > u128::MAX {
        Some(Error::ArithmeticOverflow)
    } else if spec_allocation_cap(v.tiers, v.accounts[id].tier, v.total_ido) * v.min_tier_cap_rate
        > u128::MAX {
        Some(Error::ArithmeticOverflow)
    } else {
        let amount = token_amount(v, payment);
        let max_cap = spec_allocation_cap(v.tiers, v.accounts[id].tier, v.total_ido);
        let min_cap = min_cap_of(max_cap, v.min_tier_cap_rate);
        if v.accounts[id].purchased_amount + amount > u128::MAX {
            Some(Error::ArithmeticOverflow)
        } else if v.accounts[id].purchased_amount + amount <= min_cap {
            Some(Error::BelowMinimumCap)
        } else if v.accounts[id].purchased_amount + amount >= max_cap {
            Some(Error::AboveMaximumCap)
        } else if v.total_purchased + amount > u128::MAX {
            Some(Error::ArithmeticOverflow)
        } else {
            None
        }
    }
}

/// The effect of an accepted purchase: the token amount moves into the
/// record and the running total, atomically with the validation.
pub open spec fn purchase_apply(v: SaleView, id: u64, amount: int) -> SaleView {
    SaleView {
        accounts: v.accounts.insert(
            id,
            IdoAccount {
                purchased_amount: (v.accounts[id].purchased_amount + amount) as u128,
                ..v.accounts[id]
            },
        ),
        total_purchased: (v.total_purchased + amount) as u128,
        ..v
    }
}

/// Read-only projection of the ledger's global fields.
#[derive(Clone, Copy, Debug, PartialEq, Eq, Structural)]
pub struct Stats {
    pub owner_id: u64,
    pub total_ido: u128,
    pub staking_contract_id: u64,
    pub payment_token_id: u64,
    pub dangel_token_id: u64,
    pub ido_price: u128,
    pub total_purchased: u128,
    pub register_start_timestamp: u64,
    pub register_end_timestamp: u64,
    pub sale_start_timestamp: u64,
    pub sale_end_timestamp: u64,
    pub min_tier_cap_rate: u32,
}

/// Read-only projection of one sale record.
#[derive(Clone, Copy, Debug, PartialEq, Eq, Structural)]
pub struct AccountOutput {
    pub purchased_amount: u128,
    pub tier: Tier,
}

/// The sale ledger.
pub struct AllocationLedger {
    pub owner_id: u64,
    pub staking_contract_id: u64,
    pub payment_token_id: u64,
    pub dangel_token_id: u64,
    pub total_ido: u128,
    pub ido_price: u128,
    pub total_purchased: u128,
    pub register_start_timestamp: u64,
    pub register_end_timestamp: u64,
    pub sale_start_timestamp: u64,
    pub sale_end_timestamp: u64,
    pub min_tier_cap_rate: u32,
    pub accounts: HashMap<u64, IdoAccount>,
    pub coordinator: SettlementCoordinator,
    pub tier_configs: TierRegistry,
}

impl View for AllocationLedger {
    type V = SaleView;

    open spec fn view(&self) -> SaleView {
        SaleView {
            owner_id: self.owner_id,
            staking_contract_id: self.staking_contract_id,
            payment_token_id: self.payment_token_id,
            dangel_token_id: self.dangel_token_id,
            total_ido: self.total_ido,
            ido_price: self.ido_price,
            total_purchased: self.total_purchased,
            register_start_timestamp: self.register_start_timestamp,
            register_end_timestamp: self.register_end_timestamp,
            sale_start_timestamp: self.sale_start_timestamp,
            sale_end_timestamp: self.sale_end_timestamp,
            min_tier_cap_rate: self.min_tier_cap_rate,
            accounts: self.accounts@,
            pending: self.coordinator@,
            tiers: self.tier_configs.configs@,
        }
    }
}

impl AllocationLedger {
    /// A ledger with no records, the default tier table and the given sale
    /// parameters.
    pub fn new(
        owner_id: u64,
        total_ido: u128,
        staking_contract_id: u64,
        payment_token_id: u64,
        dangel_token_id: u64,
        ido_price: u128,
        register_start_timestamp: u64,
        register_end_timestamp: u64,
        sale_start_timestamp: u64,
        sale_end_timestamp: u64,
        min_tier_cap_rate: u32,
    ) -> (l: AllocationLedger)
        ensures
            l@.wf(),
            l@ == (SaleView {
                owner_id,
                staking_contract_id,
                payment_token_id,
                dangel_token_id,
                total_ido,
                ido_price,
                total_purchased: 0,
                register_start_timestamp,
                register_end_timestamp,
                sale_start_timestamp,
                sale_end_timestamp,
                min_tier_cap_rate,
                accounts: Map::<u64, IdoAccount>::empty(),
                pending: Map::<u64, PendingSettlement>::empty(),
                tiers: default_tier_table(),
            }),
    {
        let l = AllocationLedger {
            owner_id,
            staking_contract_id,
            payment_token_id,
            dangel_token_id,
            total_ido,
            ido_price,
            total_purchased: 0,
            register_start_timestamp,
            register_end_timestamp,
            sale_start_timestamp,
            sale_end_timestamp,
            min_tier_cap_rate,
            accounts: HashMap::new(),
            coordinator: SettlementCoordinator::new(),
            tier_configs: TierRegistry::new_default(),
        };
        proof {
            assert(l@ =~= (SaleView {
                owner_id,
                staking_contract_id,
                payment_token_id,
                dangel_token_id,
                total_ido,
                ido_price,
                total_purchased: 0,
                register_start_timestamp,
                register_end_timestamp,
                sale_start_timestamp,
                sale_end_timestamp,
                min_tier_cap_rate,
                accounts: Map::<u64, IdoAccount>::empty(),
                pending: Map::<u64, PendingSettlement>::empty(),
                tiers: default_tier_table(),
            }));
        }
        l
    }

    /// Whether the participant has deposited storage: one where a deposit
    /// exists, zero where one is still needed.
    pub fn storage_balance_of(&self, account_id: u64) -> (r: u128)
        ensures
            r == (if self@.accounts.contains_key(account_id) {
                1u128
            } else {
                0u128
            }),
    {
        if self.accounts.contains_key(&account_id) {
            1
        } else {
            0
        }
    }

    /// Creates the participant's record, untiered and empty; a second
    /// deposit changes nothing. Returns whether a record was created.
    pub fn storage_deposit(&mut self, account_id: u64) -> (created: bool)
        requires
            old(self)@.wf(),
        ensures
            final(self)@.wf(),
            old(self)@.accounts.contains_key(account_id) ==> !created && final(self)@ == old(
                self,
            )@,
            !old(self)@.accounts.contains_key(account_id) ==> created && final(self)@ == (SaleView {
                accounts: old(self)@.accounts.insert(
                    account_id,
                    IdoAccount { purchased_amount: 0, tier: Tier::Tier0 },
                ),
                ..old(self)@
            }),
    {
        if self.accounts.contains_key(&account_id) {
            false
        } else {
            self.accounts.insert(account_id, IdoAccount { purchased_amount: 0, tier: Tier::Tier0 });
            proof {
                assert(self@ =~= (SaleView {
                    accounts: old(self)@.accounts.insert(
                        account_id,
                        IdoAccount { purchased_amount: 0, tier: Tier::Tier0 },
                    ),
                    ..old(self)@
                }));
            }
            true
        }
    }

    /// Starts a registration: locks the participant and asks the caller to
    /// query the stake oracle, whose single answer must go to
    /// [`Self::on_get_account`] exactly once.
    pub fn register(&mut self, account_id: u64, now: u64) -> (r: Result<(), Error>)
        requires
            old(self)@.wf(),
        ensures
            final(self)@.wf(),
            match register_error(old(self)@, account_id, now) {
                Some(e) => r == Err::<(), Error>(e) && final(self)@ == old(self)@,
                None => r == Ok::<(), Error>(()) && final(self)@ == register_apply(
                    old(self)@,
                    account_id,
                ),
            },
    {
        if !(self.register_start_timestamp < now && now < self.register_end_timestamp) {
            return Err(Error::RegistrationClosed);
        }
        let account = match self.accounts.get(&account_id) {
            Some(a) => *a,
            None => {
                return Err(Error::NotFound);
            },
        };
        if self.coordinator.is_pending(account_id) {
            return Err(Error::OperationInProgress);
        }
        if !(matches!(account.tier, Tier::Tier0)) {
            return Err(Error::AlreadyRegistered);
        }
        let _ = self.coordinator.begin(account_id, SettlementKind::Register, 0);
        proof {
            assert(self@ =~= register_apply(old(self)@, account_id));
        }
        Ok(())
    }

    /// Resolves a registration with the stake oracle's answer (`None` for
    /// a failed call). Every outcome but a duplicate resolution consumes
    /// the pending marker; only an answer whose first asset is the expected
    /// token and whose balance reaches a tier assigns that tier and counts
    /// the participant into it.
    pub fn on_get_account(&mut self, account_id: u64, account_stake: Option<AccountDetailedView>) -> (r:
        Result<u128, Error>)
        requires
            old(self)@.wf(),
        ensures
            final(self)@.wf(),
            ({
                let e = register_resolve_error(old(self)@, account_id, stake_of(account_stake));
                &&& (e == Some(Error::DuplicateResolution) ==> r == Err::<u128, Error>(
                    Error::DuplicateResolution,
                ) && final(self)@ == old(self)@)
                &&& (e is Some && e != Some(Error::DuplicateResolution) ==> r == Err::<u128, Error>(
                    e.unwrap(),
                ) && final(self)@ == register_clear(old(self)@, account_id))
                &&& (e is None ==> r == Ok::<u128, Error>(
                    stake_of(account_stake).unwrap()[0].balance,
                ) && final(self)@ == register_finalize(
                    old(self)@,
                    account_id,
                    stake_of(account_stake).unwrap()[0].balance,
                ))
            }),
    {
        let entry = match self.coordinator.get(account_id) {
            Some(p) => p,
            None => {
                return Err(Error::DuplicateResolution);
            },
        };
        if !(matches!(entry.kind, SettlementKind::Register)) {
            return Err(Error::DuplicateResolution);
        }
        let _ = self.coordinator.resolve(account_id, SettlementKind::Register);
        let info = match account_stake {
            Some(a) => a,
            None => {
                proof {
                    assert(self@ =~= register_clear(old(self)@, account_id));
                }
                return Err(Error::ExternalCallFailed);
            },
        };
        proof {
            assert(self@ =~= register_clear(old(self)@, account_id));
        }
        if info.supplied.len() == 0 {
            return Err(Error::WrongToken);
        }
        let asset = info.supplied[0];
        if asset.token_id != self.dangel_token_id {
            return Err(Error::WrongToken);
        }
        let tier = self.tier_configs.tier_for(asset.balance);
        let tier_idx = tier.index();
        if tier_idx == 0 {
            return Err(Error::InsufficientStake);
        }
        match self.tier_configs.record_participant(tier) {
            Ok(()) => {},
            Err(e) => {
                return Err(e);
            },
        };
        let account = match self.accounts.get(&account_id) {
            Some(a) => *a,
            None => {
                return Err(Error::NotFound);
            },
        };
        let updated = IdoAccount { tier, ..account };
        self.accounts.insert(account_id, updated);
        proof {
            let ghost post = register_finalize(old(self)@, account_id, asset.balance);
            assert(self@.accounts =~= post.accounts);
            assert(self@.pending =~= post.pending);
            assert(self@.tiers =~= post.tiers);
            assert(self@ =~= post);
            assert forall|id: u64| #[trigger] self@.pending.contains_key(id) implies self@
                .accounts.contains_key(id) && self@.pending[id].kind == SettlementKind::Register
                && self@.accounts[id].tier == Tier::Tier0 by {
                assert(old(self)@.pending.contains_key(id));
                assert(id != account_id);
            }
        }
        Ok(asset.balance)
    }

    /// A purchase by the payment flow: converts the payment into tokens
    /// and applies it if the new total lands strictly between the tier's
    /// minimum and maximum cap. Nothing changes on any rejection.
    pub fn purchase(&mut self, account_id: u64, payment_amount: u128, now: u64) -> (r: Result<
        u128,
        Error,
    >)
        requires
            old(self)@.wf(),
        ensures
            final(self)@.wf(),
            match purchase_error(old(self)@, account_id, payment_amount, now) {
                Some(e) => r == Err::<u128, Error>(e) && final(self)@ == old(self)@,
                None => r == Ok::<u128, Error>(token_amount(old(self)@, payment_amount) as u128)
                    && final(self)@ == purchase_apply(
                    old(self)@,
                    account_id,
                    token_amount(old(self)@, payment_amount),
                ),
            },
    {
        if !(self.sale_start_timestamp < now && now < self.sale_end_timestamp) {
            return Err(Error::SaleClosed);
        }
        let account = match self.accounts.get(&account_id) {
            Some(a) => *a,
            None => {
                return Err(Error::NotRegistered);
            },
        };
        if self.coordinator.is_pending(account_id) {
            return Err(Error::OperationInProgress);
        }
        if matches!(account.tier, Tier::Tier0) {
            return Err(Error::NotRegistered);
        }
        if self.ido_price == 0 {
            return Err(Error::DivisionByZero);
        }
        let scaled = match payment_amount.checked_mul(PRICE_SCALE) {
            Some(s) => s,
            None => {
                return Err(Error::ArithmeticOverflow);
            },
        };
        let amount = scaled / self.ido_price;
        let max_cap = match self.tier_configs.allocation_cap(account.tier, self.total_ido) {
            Ok(c) => c,
            Err(e) => {
                return Err(e);
            },
        };
        proof {
            crate::tier::lemma_total_weight_bounds(self@.tiers);
            let w = total_weight(self@.tiers);
            let q = self.total_ido as int / w;
            let pw = self@.tiers[tier_index(account.tier)].pool_weight as int;
            assert(q >= 0) by (nonlinear_arith)
                requires
                    w > 0,
                    self.total_ido >= 0,
                    q == self.total_ido as int / w,
            ;
            assert(q * pw >= 0) by (nonlinear_arith)
                requires
                    q >= 0,
                    pw >= 0,
            ;
        }
        let min_cap = match max_cap.checked_mul(self.min_tier_cap_rate as u128) {
            Some(x) => x / (DENO as u128),
            None => {
                return Err(Error::ArithmeticOverflow);
            },
        };
        let new_purchased = match account.purchased_amount.checked_add(amount) {
            Some(x) => x,
            None => {
                return Err(Error::ArithmeticOverflow);
            },
        };
        if new_purchased <= min_cap {
            return Err(Error::BelowMinimumCap);
        }
        if new_purchased >= max_cap {
            return Err(Error::AboveMaximumCap);
        }
        let new_total = match self.total_purchased.checked_add(amount) {
            Some(x) => x,
            None => {
                return Err(Error::ArithmeticOverflow);
            },
        };
        self.accounts.insert(account_id, IdoAccount { purchased_amount: new_purchased, ..account });
        self.total_purchased = new_total;
        proof {
            let ghost post = purchase_apply(old(self)@, account_id, amount as int);
            assert(self@.accounts =~= post.accounts);
            assert(self@ =~= post);
            assert forall|id: u64| #[trigger] self@.pending.contains_key(id) implies self@
                .accounts.contains_key(id) && self@.pending[id].kind == SettlementKind::Register
                && self@.accounts[id].tier == Tier::Tier0 by {
                assert(old(self)@.pending.contains_key(id));
                assert(id != account_id);
            }
        }
        Ok(amount)
    }

    /// Entry point of the payment flow: an empty message means a purchase
    /// by the sender over the transferred amount; any other message leaves
    /// the ledger unchanged. Returns the unused amount, which is always
    /// zero.
    pub fn ft_on_transfer(&mut self, sender_id: u64, amount: u128, msg: String, now: u64) -> (r:
        Result<u128, Error>)
        requires
            old(self)@.wf(),
        ensures
            final(self)@.wf(),
            msg@.len() != 0 ==> r == Ok::<u128, Error>(0) && final(self)@ == old(self)@,
            msg@.len() == 0 ==> match purchase_error(old(self)@, sender_id, amount, now) {
                Some(e) => r == Err::<u128, Error>(e) && final(self)@ == old(self)@,
                None => r == Ok::<u128, Error>(0) && final(self)@ == purchase_apply(
                    old(self)@,
                    sender_id,
                    token_amount(old(self)@, amount),
                ),
            },
    {
        if msg.as_str().is_empty() {
            match self.purchase(sender_id, amount, now) {
                Ok(_) => Ok(0),
                Err(e) => Err(e),
            }
        } else {
            Ok(0)
        }
    }

    /// The ledger's global fields.
    pub fn get_stats(&self) -> (s: Stats)
        ensures
            s == (Stats {
                owner_id: self@.owner_id,
                total_ido: self@.total_ido,
                staking_contract_id: self@.staking_contract_id,
                payment_token_id: self@.payment_token_id,
                dangel_token_id: self@.dangel_token_id,
                ido_price: self@.ido_price,
                total_purchased: self@.total_purchased,
                register_start_timestamp: self@.register_start_timestamp,
                register_end_timestamp: self@.register_end_timestamp,
                sale_start_timestamp: self@.sale_start_timestamp,
                sale_end_timestamp: self@.sale_end_timestamp,
                min_tier_cap_rate: self@.min_tier_cap_rate,
            }),
    {
        Stats {
            owner_id: self.owner_id,
            total_ido: self.total_ido,
            staking_contract_id: self.staking_contract_id,
            payment_token_id: self.payment_token_id,
            dangel_token_id: self.dangel_token_id,
            ido_price: self.ido_price,
            total_purchased: self.total_purchased,
            register_start_timestamp: self.register_start_timestamp,
            register_end_timestamp: self.register_end_timestamp,
            sale_start_timestamp: self.sale_start_timestamp,
            sale_end_timestamp: self.sale_end_timestamp,
            min_tier_cap_rate: self.min_tier_cap_rate,
        }
    }

    /// One participant's sale record, if any.
    pub fn get_account(&self, account_id: u64) -> (r: Option<AccountOutput>)
        ensures
            match r {
                Some(out) => self@.accounts.contains_key(account_id) && out == (AccountOutput {
                    purchased_amount: self@.accounts[account_id].purchased_amount,
                    tier: self@.accounts[account_id].tier,
                }),
                None => !self@.accounts.contains_key(account_id),
            },
    {
        match self.accounts.get(&account_id) {
            Some(a) => Some(
                AccountOutput { purchased_amount: a.purchased_amount, tier: a.tier },
            ),
            None => None,
        }
    }

    /// A tier's maximum allocation cap under the current participant
    /// counts.
    pub fn get_tier_allocation(&self, tier: Tier) -> (r: Result<u128, Error>)
        requires
            self@.wf(),
        ensures
            total_weight(self@.tiers) == 0 ==> r == Err::<u128, Error>(Error::NoParticipants),
            total_weight(self@.tiers) != 0 && spec_allocation_cap(self@.tiers, tier, self@.total_ido)
                > u128::MAX ==> r == Err::<u128, Error>(Error::ArithmeticOverflow),
            total_weight(self@.tiers) != 0 && spec_allocation_cap(self@.tiers, tier, self@.total_ido)
                <= u128::MAX ==> r == Ok::<u128, Error>(
                spec_allocation_cap(self@.tiers, tier, self@.total_ido) as u128,
            ),
    {
        self.tier_configs.allocation_cap(tier, self.total_ido)
    }

    /// A tier's minimum allocation cap under the current participant
    /// counts.
    pub fn get_min_tier_cap(&self, tier: Tier) -> (r: Result<u128, Error>)
        requires
            self@.wf(),
        ensures
            ({
                let cap = spec_allocation_cap(self@.tiers, tier, self@.total_ido);
                &&& total_weight(self@.tiers) == 0 ==> r == Err::<u128, Error>(Error::NoParticipants)
                &&& total_weight(self@.tiers) != 0 && cap > u128::MAX ==> r == Err::<u128, Error>(
                    Error::ArithmeticOverflow,
                )
                &&& total_weight(self@.tiers) != 0 && cap <= u128::MAX && cap
                    * self@.min_tier_cap_rate > u128::MAX ==> r == Err::<u128, Error>(
                    Error::ArithmeticOverflow,
                )
                &&& total_weight(self@.tiers) != 0 && cap <= u128::MAX && cap
                    * self@.min_tier_cap_rate <= u128::MAX ==> r == Ok::<u128, Error>(
                    min_cap_of(cap, self@.min_tier_cap_rate) as u128,
                )
            }),
    {
        self.tier_configs.min_allocation_cap(tier, self.total_ido, self.min_tier_cap_rate)
    }

    /// The table the registry starts from: the defaults, not the live
    /// counts.
    pub fn get_tier_configs(&self) -> (v: Vec<TierConfig>)
        ensures
            v@ == default_tier_table(),
    {
        TierConfig::get_default_tier_configs()
    }
}

/// Of two registrations for the same participant issued before either
/// resolves, exactly one acquires the lock: the second is rejected as
/// `OperationInProgress` and changes nothing.
pub proof fn lemma_second_register_rejected(v: SaleView, id: u64, now1: u64, now2: u64)
    requires
        v.wf(),
        register_error(v, id, now1) is None,
        v.register_start_timestamp < now2 < v.register_end_timestamp,
    ensures
        register_error(register_apply(v, id), id, now2) == Some(Error::OperationInProgress),
{
}

} // verus!
