//! The campaign's side of the term-exchange economy: an outbox that queues
//! each economic intent exactly once, the wallet effects of verified
//! receipts, the reserve / settle / consume purchase of a tradeable item and
//! the bookkeeping of a reconciliation pass.
//!
//! The protocol's own checks (validation of an intent, the progression class
//! of a receipt) are verdicts handed in by the caller; everything the
//! campaign decides from them is here.

use vstd::prelude::*;
use crate::error::CampaignError;
use crate::settlement::{EconomyReconciliationReport, OfflineLocalEconomyBackend, SettlementReceiptV1, SettlementReceiptView};
use crate::clock::{decimal, push_decimal};
use crate::loot::{LootStack, LootView};
use crate::settlement::{TradeablePurchaseStage, ValueEventRecord, ValueSettlementPolicy};
use crate::text::{is_blank, spec_is_blank, str_eq};

verus! {

/// Whether the campaign settles against a connected CEX wallet or locally.
#[derive(Debug, Clone, Copy, Default, PartialEq, Eq, Hash, Structural)]
pub enum EconomyMode {
    #[default]
    OfflineLocal,
    CexConnected,
}

/// What an economic intent asks of the settlement backend.
#[derive(Debug, Clone, Copy, PartialEq, Eq, Hash, Structural)]
pub enum EconomicIntentKind {
    Quote,
    Reserve,
    Settle,
    Consume,
    Refund,
    Chargeback,
    ReleaseReward,
    CompleteContract,
    VerifyReceipt,
}

/// How a verified receipt lets the outbox go on.
#[derive(Debug, Clone, Copy, PartialEq, Eq, Hash, Structural)]
pub enum ReceiptProgressionClass {
    ProgressionAllowed,
    TerminalSkip,
    RecoverableHold,
    HardFail,
}

/// The account an intent is issued for.
#[derive(Debug, Clone, PartialEq, Eq)]
pub struct EconomyAccountBinding {
    pub actor_id: String,
    pub account_id: String,
    pub binding_revision: u64,
}

pub struct BindingView {
    pub actor_id: Seq<char>,
    pub account_id: Seq<char>,
    pub binding_revision: u64,
}

impl View for EconomyAccountBinding {
    type V = BindingView;

    open spec fn view(&self) -> BindingView {
        BindingView { actor_id: self.actor_id@, account_id: self.account_id@, binding_revision: self.binding_revision }
    }
}

impl EconomyAccountBinding {
    fn copied(&self) -> (r: Self)
        ensures
            r@ == self@,
    {
        EconomyAccountBinding {
            actor_id: self.actor_id.clone(),
            account_id: self.account_id.clone(),
            binding_revision: self.binding_revision,
        }
    }
}

/// The wallet account of a campaign that is not bound to a CEX account.
pub const OFFLINE_LOCAL_ACCOUNT_ID: &'static str = "trnm-offline-local-account";

/// The binding intents are issued under: the bound CEX account, or else the
/// player's character on the offline local account at the current revision.
pub fn effective_economy_binding(
    binding: &Option<EconomyAccountBinding>,
    character_id: &str,
    revision: u64,
) -> (r: EconomyAccountBinding)
    ensures
        match binding {
            Some(b) => r@ == b@,
            None => r@ == (BindingView {
                actor_id: character_id@,
                account_id: OFFLINE_LOCAL_ACCOUNT_ID@,
                binding_revision: revision,
            }),
        },
{
    match binding {
        Some(b) => b.copied(),
        None => EconomyAccountBinding {
            actor_id: character_id.to_owned(),
            account_id: OFFLINE_LOCAL_ACCOUNT_ID.to_owned(),
            binding_revision: revision,
        },
    }
}

pub open spec fn msg_cex_binding_required() -> Seq<char> {
    "CEX actor_id and account_id are required"@
}

/// The binding of a campaign to a CEX account at `revision`; both the actor
/// and the account must be named (not blank).
pub fn bind_cex_account(actor_id: String, account_id: String, revision: u64) -> (r: Result<EconomyAccountBinding, CampaignError>)
    ensures
        spec_is_blank(actor_id@) || spec_is_blank(account_id@) ==> (r matches Err(e) && e.is_state(msg_cex_binding_required())),
        !(spec_is_blank(actor_id@) || spec_is_blank(account_id@)) ==> (r matches Ok(b) && b@ == (BindingView {
            actor_id: actor_id@,
            account_id: account_id@,
            binding_revision: revision,
        })),
{
    if is_blank(actor_id.as_str()) || is_blank(account_id.as_str()) {
        return Err(CampaignError::InvalidState("CEX actor_id and account_id are required".to_owned()));
    }
    Ok(EconomyAccountBinding { actor_id, account_id, binding_revision: revision })
}

/// An intent before the outbox gives it its idempotency key and time.
#[derive(Debug, Clone, PartialEq, Eq)]
pub struct EconomicIntentDraft {
    pub kind: EconomicIntentKind,
    pub term_id: String,
    pub intent_id: String,
    pub binding: EconomyAccountBinding,
    pub asset_id: String,
    pub quantity: i64,
    pub amount_credits: i64,
}

pub struct DraftView {
    pub kind: EconomicIntentKind,
    pub term_id: Seq<char>,
    pub intent_id: Seq<char>,
    pub binding: BindingView,
    pub asset_id: Seq<char>,
    pub quantity: i64,
    pub amount_credits: i64,
}

impl View for EconomicIntentDraft {
    type V = DraftView;

    open spec fn view(&self) -> DraftView {
        DraftView {
            kind: self.kind,
            term_id: self.term_id@,
            intent_id: self.intent_id@,
            binding: self.binding@,
            asset_id: self.asset_id@,
            quantity: self.quantity,
            amount_credits: self.amount_credits,
        }
    }
}

/// An intent waiting in the outbox for the settlement backend.
#[derive(Debug, Clone, PartialEq, Eq)]
pub struct QueuedIntent {
    pub draft: EconomicIntentDraft,
    pub idempotency_key: String,
    pub created_at_epoch: i64,
}

pub struct QueuedIntentView {
    pub draft: DraftView,
    pub idempotency_key: Seq<char>,
    pub created_at_epoch: i64,
}

impl View for QueuedIntent {
    type V = QueuedIntentView;

    open spec fn view(&self) -> QueuedIntentView {
        QueuedIntentView { draft: self.draft@, idempotency_key: self.idempotency_key@, created_at_epoch: self.created_at_epoch }
    }
}

/// The idempotency key of an intent: `{campaign_id}:{intent_id}`.
pub open spec fn spec_idempotency_key(campaign_id: Seq<char>, intent_id: Seq<char>) -> Seq<char> {
    campaign_id + ":"@ + intent_id
}

pub fn economic_idempotency_key(campaign_id: &str, intent_id: &str) -> (r: String)
    ensures
        r@ == spec_idempotency_key(campaign_id@, intent_id@),
{
    proof {
        reveal_strlit(":");
    }
    let mut key = campaign_id.to_owned();
    key.append(":");
    key.append(intent_id);
    key
}

/// The time stamp of an intent created at `minute_of_day` of `day`, in
/// seconds since the campaign's first day.
pub fn intent_epoch(day: u32, minute_of_day: u16) -> (r: i64)
    ensures
        r == day as int * 86_400 + minute_of_day as int * 60,
{
    day as i64 * 86_400 + minute_of_day as i64 * 60
}

/// The most intents the outbox holds at once.
pub const ECONOMIC_OUTBOX_CAPACITY: usize = 128;

pub open spec fn msg_outbox_full() -> Seq<char> {
    "economic outbox reached its bounded capacity"@
}

/// Economic intents waiting for the backend, intents that failed for good,
/// and every idempotency key ever queued.
#[derive(Debug, Clone, PartialEq, Eq)]
pub struct EconomicOutbox {
    pub idempotency_keys: Vec<String>,
    pub pending: Vec<QueuedIntent>,
    pub dead_letters: Vec<QueuedIntent>,
}

pub struct OutboxView {
    pub keys: Seq<Seq<char>>,
    pub pending: Seq<QueuedIntentView>,
    pub dead_letters: Seq<QueuedIntentView>,
}

impl View for EconomicOutbox {
    type V = OutboxView;

    open spec fn view(&self) -> OutboxView {
        OutboxView {
            keys: self.idempotency_keys@.map_values(|k: String| k@),
            pending: self.pending@.map_values(|q: QueuedIntent| q@),
            dead_letters: self.dead_letters@.map_values(|q: QueuedIntent| q@),
        }
    }
}

impl OutboxView {
    /// The outbox holds at most its capacity, every pending intent's key is
    /// recorded, and no key is recorded twice nor pending twice.
    pub open spec fn well_formed(self) -> bool {
        &&& self.pending.len() <= ECONOMIC_OUTBOX_CAPACITY
        &&& forall|i: int| 0 <= i < self.pending.len() ==> self.keys.contains(#[trigger] self.pending[i].idempotency_key)
        &&& forall|i: int, j: int| 0 <= i < j < self.keys.len() ==> #[trigger] self.keys[i] != #[trigger] self.keys[j]
        &&& forall|i: int, j: int| 0 <= i < j < self.pending.len()
            ==> #[trigger] self.pending[i].idempotency_key != #[trigger] self.pending[j].idempotency_key
    }
}

/// What queueing `draft` does to the outbox and answers: an intent whose
/// key was queued before is a no-op answered `false`; otherwise the
/// protocol's verdict on the intent refuses it, then a full outbox refuses
/// it; otherwise it is queued, its key recorded, and `true` answered.
pub open spec fn spec_queue(
    outbox: OutboxView,
    campaign_id: Seq<char>,
    draft: DraftView,
    created_at_epoch: i64,
    verdict: Result<(), Seq<char>>,
) -> (OutboxView, Result<bool, Seq<char>>) {
    let key = spec_idempotency_key(campaign_id, draft.intent_id);
    if outbox.keys.contains(key) {
        (outbox, Ok(false))
    } else if verdict is Err {
        (outbox, Err(verdict->Err_0))
    } else if outbox.pending.len() >= ECONOMIC_OUTBOX_CAPACITY {
        (outbox, Err(msg_outbox_full()))
    } else {
        (OutboxView {
            keys: outbox.keys.push(key),
            pending: outbox.pending.push(QueuedIntentView { draft, idempotency_key: key, created_at_epoch }),
            dead_letters: outbox.dead_letters,
        }, Ok(true))
    }
}

impl EconomicOutbox {
    pub fn new() -> (r: Self)
        ensures
            r@.keys.len() == 0,
            r@.pending.len() == 0,
            r@.dead_letters.len() == 0,
            r@.well_formed(),
    {
        EconomicOutbox { idempotency_keys: Vec::new(), pending: Vec::new(), dead_letters: Vec::new() }
    }

    /// Whether `key` was ever queued.
    pub fn has_key(&self, key: &str) -> (r: bool)
        ensures
            r == self@.keys.contains(key@),
    {
        let mut i: usize = 0;
        while i < self.idempotency_keys.len()
            invariant
                i <= self.idempotency_keys@.len(),
                forall|j: int| 0 <= j < i ==> self@.keys[j] != key@,
            decreases self.idempotency_keys@.len() - i,
        {
            if str_eq(self.idempotency_keys[i].as_str(), key) {
                assert(self@.keys[i as int] == key@);
                return true;
            }
            i = i + 1;
        }
        false
    }

    /// Queues `draft` unless its intent was queued before. `verdict` is what
    /// the term-exchange protocol's validation said of the intent built from
    /// `draft`; a refusal there is reported as an invalid state.
    pub fn queue(
        &mut self,
        campaign_id: &str,
        draft: EconomicIntentDraft,
        created_at_epoch: i64,
        verdict: Result<(), String>,
    ) -> (r: Result<bool, CampaignError>)
        requires
            old(self)@.well_formed(),
        ensures
            final(self)@.well_formed(),
            ({
                let (after, answer) = spec_queue(old(self)@, campaign_id@, draft@, created_at_epoch,
                    match verdict { Ok(_) => Ok(()), Err(m) => Err(m@) });
                &&& final(self)@ == after
                &&& match answer {
                    Ok(b) => r == Ok::<bool, CampaignError>(b),
                    Err(m) => r matches Err(e) && e.is_state(m),
                }
            }),
    {
        let key = economic_idempotency_key(campaign_id, draft.intent_id.as_str());
        if self.has_key(key.as_str()) {
            return Ok(false);
        }
        if let Err(message) = verdict {
            return Err(CampaignError::InvalidState(message));
        }
        if self.pending.len() >= ECONOMIC_OUTBOX_CAPACITY {
            return Err(CampaignError::InvalidState("economic outbox reached its bounded capacity".to_owned()));
        }
        let ghost before = self@;
        let stored_key = key.clone();
        self.idempotency_keys.push(key);
        self.pending.push(QueuedIntent { draft, idempotency_key: stored_key, created_at_epoch });
        proof {
            let k = spec_idempotency_key(campaign_id@, draft@.intent_id);
            assert(self@.keys =~= before.keys.push(k));
            assert(self@.pending =~= before.pending.push(QueuedIntentView { draft: draft@, idempotency_key: k, created_at_epoch }));
            assert(self@.dead_letters =~= before.dead_letters);
            assert forall|i: int| 0 <= i < self@.pending.len() implies self@.keys.contains(#[trigger] self@.pending[i].idempotency_key) by {
                if i < before.pending.len() {
                    let j = choose|j: int| 0 <= j < before.keys.len() && before.keys[j] == before.pending[i].idempotency_key;
                    assert(self@.keys[j] == before.keys[j]);
                } else {
                    assert(self@.keys[before.keys.len() as int] == k);
                }
            }
            assert forall|i: int, j: int| 0 <= i < j < self@.pending.len()
                implies #[trigger] self@.pending[i].idempotency_key != #[trigger] self@.pending[j].idempotency_key by {
                if j == before.pending.len() {
                    assert(before.keys.contains(before.pending[i].idempotency_key));
                }
            }
        }
        Ok(true)
    }
}

impl EconomicOutbox {
    /// Takes the oldest pending intent off the outbox; keys are kept.
    pub fn complete_front(&mut self) -> (r: QueuedIntent)
        requires
            old(self)@.well_formed(),
            old(self)@.pending.len() > 0,
        ensures
            final(self)@.well_formed(),
            r@ == old(self)@.pending[0],
            final(self)@.pending == old(self)@.pending.drop_first(),
            final(self)@.keys == old(self)@.keys,
            final(self)@.dead_letters == old(self)@.dead_letters,
    {
        let ghost before = self@;
        let r = self.pending.remove(0);
        proof {
            assert(self@.pending =~= before.pending.drop_first());
            assert(self@.keys =~= before.keys);
            assert(self@.dead_letters =~= before.dead_letters);
            assert forall|i: int| 0 <= i < self@.pending.len() implies self@.keys.contains(#[trigger] self@.pending[i].idempotency_key) by {
                assert(self@.pending[i] == before.pending[i + 1]);
            }
            assert forall|i: int, j: int| 0 <= i < j < self@.pending.len()
                implies #[trigger] self@.pending[i].idempotency_key != #[trigger] self@.pending[j].idempotency_key by {
                assert(self@.pending[i] == before.pending[i + 1]);
                assert(self@.pending[j] == before.pending[j + 1]);
            }
        }
        r
    }

    /// Moves the oldest pending intent to the dead letters; keys are kept,
    /// so a dead-lettered intent is never queued again.
    pub fn dead_letter_front(&mut self)
        requires
            old(self)@.well_formed(),
            old(self)@.pending.len() > 0,
        ensures
            final(self)@.well_formed(),
            final(self)@.pending == old(self)@.pending.drop_first(),
            final(self)@.keys == old(self)@.keys,
            final(self)@.dead_letters == old(self)@.dead_letters.push(old(self)@.pending[0]),
    {
        let ghost before = self@;
        let front = self.complete_front();
        self.dead_letters.push(front);
        assert(self@.dead_letters =~= before.dead_letters.push(before.pending[0]));
    }
}

/// What a reconciliation pass does with the intent at the head of the
/// outbox after the backend was asked to execute it.
#[derive(Debug, Clone, Copy, PartialEq, Eq, Hash, Structural)]
pub enum ReconcileAction {
    /// Stop the pass and leave the intent pending.
    Hold,
    /// The receipt did not verify: dead-letter the intent and go on.
    DeadLetter,
    /// Take the intent off the outbox and apply its receipt.
    Apply,
    /// Dead-letter the intent and apply its (hard-failed) receipt.
    DeadLetterAndApply,
}

impl ReconcileAction {
    /// Whether the pass goes on to the next intent.
    pub open spec fn continues(self) -> bool {
        self != ReconcileAction::Hold
    }

    /// Whether the reconciliation cursor moves past the intent.
    pub open spec fn advances_cursor(self) -> bool {
        self == ReconcileAction::Apply || self == ReconcileAction::DeadLetterAndApply
    }
}

/// What came back from the backend for one intent: no receipt, a receipt
/// that failed verification against the intent, or a verified receipt.
#[derive(Debug, Clone, PartialEq, Eq)]
pub enum ExecutionOutcome {
    BackendError(String),
    InvalidReceipt(String),
    Verified { class: ReceiptProgressionClass, reason: Option<String> },
}

pub open spec fn sat_inc(n: u16) -> u16 {
    if n == u16::MAX { n } else { (n + 1) as u16 }
}

impl EconomyReconciliationReport {
    /// Counts one executed intent and decides what happens to it: a missing
    /// receipt or a recoverable hold stops the pass with the intent still
    /// pending (fail-closed); a receipt that does not verify dead-letters
    /// the intent; a hard failure dead-letters it and applies the receipt;
    /// any other verified receipt is applied. Counters saturate.
    pub fn record(&mut self, outcome: ExecutionOutcome) -> (r: ReconcileAction)
        ensures
            final(self).attempted == sat_inc(old(self).attempted),
            final(self).remaining == old(self).remaining,
            match outcome {
                ExecutionOutcome::BackendError(error) => r == ReconcileAction::Hold
                    && final(self).recoverable_holds == sat_inc(old(self).recoverable_holds)
                    && final(self).applied == old(self).applied
                    && final(self).hard_failures == old(self).hard_failures
                    && (final(self).last_error matches Some(e) && e@ == error@),
                ExecutionOutcome::InvalidReceipt(error) => r == ReconcileAction::DeadLetter
                    && final(self).hard_failures == sat_inc(old(self).hard_failures)
                    && final(self).applied == old(self).applied
                    && final(self).recoverable_holds == old(self).recoverable_holds
                    && (final(self).last_error matches Some(e) && e@ == error@),
                ExecutionOutcome::Verified { class, reason } => match class {
                    ReceiptProgressionClass::ProgressionAllowed | ReceiptProgressionClass::TerminalSkip =>
                        r == ReconcileAction::Apply
                        && final(self).applied == sat_inc(old(self).applied)
                        && final(self).recoverable_holds == old(self).recoverable_holds
                        && final(self).hard_failures == old(self).hard_failures
                        && final(self).last_error == old(self).last_error,
                    ReceiptProgressionClass::RecoverableHold => r == ReconcileAction::Hold
                        && final(self).recoverable_holds == sat_inc(old(self).recoverable_holds)
                        && final(self).applied == old(self).applied
                        && final(self).hard_failures == old(self).hard_failures
                        && final(self).last_error == reason,
                    ReceiptProgressionClass::HardFail => r == ReconcileAction::DeadLetterAndApply
                        && final(self).hard_failures == sat_inc(old(self).hard_failures)
                        && final(self).applied == old(self).applied
                        && final(self).recoverable_holds == old(self).recoverable_holds
                        && final(self).last_error == old(self).last_error,
                },
            },
    {
        self.attempted = self.attempted.saturating_add(1);
        match outcome {
            ExecutionOutcome::BackendError(error) => {
                self.recoverable_holds = self.recoverable_holds.saturating_add(1);
                self.last_error = Some(error);
                ReconcileAction::Hold
            },
            ExecutionOutcome::InvalidReceipt(error) => {
                self.hard_failures = self.hard_failures.saturating_add(1);
                self.last_error = Some(error);
                ReconcileAction::DeadLetter
            },
            ExecutionOutcome::Verified { class, reason } => match class {
                ReceiptProgressionClass::ProgressionAllowed | ReceiptProgressionClass::TerminalSkip => {
                    self.applied = self.applied.saturating_add(1);
                    ReconcileAction::Apply
                },
                ReceiptProgressionClass::RecoverableHold => {
                    self.recoverable_holds = self.recoverable_holds.saturating_add(1);
                    self.last_error = reason;
                    ReconcileAction::Hold
                },
                ReceiptProgressionClass::HardFail => {
                    self.hard_failures = self.hard_failures.saturating_add(1);
                    ReconcileAction::DeadLetterAndApply
                },
            },
        }
    }
}

/// The CEX wallet balances the campaign mirrors.
#[derive(Debug, Clone, Copy, Default, PartialEq, Eq, Hash, Structural)]
pub struct WalletBalances {
    pub available_credits: i64,
    pub reserved_credits: i64,
}

/// `x` clamped to the range of `i64`.
pub open spec fn clamp_i64(x: int) -> i64 {
    if x > i64::MAX {
        i64::MAX
    } else if x < i64::MIN {
        i64::MIN
    } else {
        x as i64
    }
}

fn saturating_add_i64(a: i64, b: i64) -> (r: i64)
    ensures
        r == clamp_i64(a + b),
{
    match a.checked_add(b) {
        Some(sum) => sum,
        None => if b > 0 { i64::MAX } else { i64::MIN },
    }
}

fn saturating_sub_i64(a: i64, b: i64) -> (r: i64)
    ensures
        r == clamp_i64(a - b),
{
    match a.checked_sub(b) {
        Some(difference) => difference,
        None => if b > 0 { i64::MIN } else { i64::MAX },
    }
}

/// The wallet after a progression-allowing receipt for an intent of `kind`
/// moving `amount` credits: rewards and settlements credit the available
/// balance, a reservation moves credits from available to reserved, a
/// consumption spends reserved credits, a refund moves them back; other
/// kinds leave the wallet alone. Balances saturate.
pub open spec fn spec_wallet_after(wallet: WalletBalances, kind: EconomicIntentKind, amount: i64) -> WalletBalances {
    match kind {
        EconomicIntentKind::ReleaseReward | EconomicIntentKind::Settle => WalletBalances {
            available_credits: clamp_i64(wallet.available_credits + amount),
            reserved_credits: wallet.reserved_credits,
        },
        EconomicIntentKind::Reserve => WalletBalances {
            available_credits: clamp_i64(wallet.available_credits - amount),
            reserved_credits: clamp_i64(wallet.reserved_credits + amount),
        },
        EconomicIntentKind::Consume => WalletBalances {
            available_credits: wallet.available_credits,
            reserved_credits: clamp_i64(wallet.reserved_credits - amount),
        },
        EconomicIntentKind::Refund => WalletBalances {
            available_credits: clamp_i64(wallet.available_credits + amount),
            reserved_credits: clamp_i64(wallet.reserved_credits - amount),
        },
        _ => wallet,
    }
}

/// Applies a verified receipt for `intent` to the mirrored wallet. Only a
/// receipt that allows progression, for an intent issued to the bound
/// account, moves credits; the amount is the intent's, never below zero.
pub fn apply_receipt_to_wallet(
    wallet: &mut WalletBalances,
    intent: &QueuedIntent,
    bound_account_id: &str,
    allows_progression: bool,
)
    ensures
        ({
            let amount: i64 = if intent.draft.amount_credits < 0 { 0 } else { intent.draft.amount_credits };
            if allows_progression && intent.draft.binding.account_id@ == bound_account_id@ {
                *final(wallet) == spec_wallet_after(*old(wallet), intent.draft.kind, amount)
            } else {
                *final(wallet) == *old(wallet)
            }
        }),
{
    if !allows_progression || !str_eq(intent.draft.binding.account_id.as_str(), bound_account_id) {
        return;
    }
    let amount: i64 = if intent.draft.amount_credits < 0 { 0 } else { intent.draft.amount_credits };
    match intent.draft.kind {
        EconomicIntentKind::ReleaseReward | EconomicIntentKind::Settle => {
            wallet.available_credits = saturating_add_i64(wallet.available_credits, amount);
        },
        EconomicIntentKind::Reserve => {
            wallet.available_credits = saturating_sub_i64(wallet.available_credits, amount);
            wallet.reserved_credits = saturating_add_i64(wallet.reserved_credits, amount);
        },
        EconomicIntentKind::Consume => {
            wallet.reserved_credits = saturating_sub_i64(wallet.reserved_credits, amount);
        },
        EconomicIntentKind::Refund => {
            wallet.available_credits = saturating_add_i64(wallet.available_credits, amount);
            wallet.reserved_credits = saturating_sub_i64(wallet.reserved_credits, amount);
        },
        _ => {},
    }
}

/// A reservation that is refunded leaves the wallet as it was, and one that
/// is consumed has spent exactly the reserved amount from the available
/// balance, unless a balance saturated on the way.
pub proof fn lemma_reservations_round_trip(wallet: WalletBalances, amount: i64)
    requires
        amount >= 0,
        wallet.available_credits - amount >= i64::MIN,
        wallet.reserved_credits + amount <= i64::MAX,
    ensures
        spec_wallet_after(spec_wallet_after(wallet, EconomicIntentKind::Reserve, amount), EconomicIntentKind::Refund, amount)
            == wallet,
        spec_wallet_after(spec_wallet_after(wallet, EconomicIntentKind::Reserve, amount), EconomicIntentKind::Consume, amount)
            == (WalletBalances {
                available_credits: (wallet.available_credits - amount) as i64,
                reserved_credits: wallet.reserved_credits,
            }),
{
}

/// The term under which battle rewards are released to the wallet.
pub const BATTLE_REWARD_TERM_ID: &'static str = "trnm_battle_reward";

/// The asset battle rewards are released in.
pub const WALLET_CREDIT_ASSET_ID: &'static str = "cex-wallet-credit";

/// The reward intent owed for a settlement receipt: none for a duplicate
/// receipt or one that earned no credits; otherwise the release of the
/// earned credits to `binding`, identified by the battle.
pub fn battle_reward_intent(receipt: &SettlementReceiptV1, binding: EconomyAccountBinding) -> (r: Option<EconomicIntentDraft>)
    ensures
        (receipt.duplicate || receipt.credit_delta <= 0) ==> r is None,
        !(receipt.duplicate || receipt.credit_delta <= 0) ==> (r matches Some(d) && d@ == DraftView {
            kind: EconomicIntentKind::ReleaseReward,
            term_id: BATTLE_REWARD_TERM_ID@,
            intent_id: "battle-reward:"@ + receipt.battle_id@,
            binding: binding@,
            asset_id: WALLET_CREDIT_ASSET_ID@,
            quantity: receipt.credit_delta,
            amount_credits: receipt.credit_delta,
        }),
{
    if receipt.duplicate || receipt.credit_delta <= 0 {
        return None;
    }
    let mut intent_id = "battle-reward:".to_owned();
    intent_id.append(receipt.battle_id.as_str());
    Some(EconomicIntentDraft {
        kind: EconomicIntentKind::ReleaseReward,
        term_id: BATTLE_REWARD_TERM_ID.to_owned(),
        intent_id,
        binding,
        asset_id: WALLET_CREDIT_ASSET_ID.to_owned(),
        quantity: receipt.credit_delta,
        amount_credits: receipt.credit_delta,
    })
}

pub open spec fn msg_connected_trade_needs_account() -> Seq<char> {
    "connected trade requires a configured CEX market account"@
}

/// The account a regional market sells from: a connected campaign must name
/// a non-blank CEX market account; an offline campaign sells from the
/// region's offline market.
pub fn seller_account_id(mode: EconomyMode, connected_seller_account_id: Option<&str>, region_id: &str) -> (r: Result<String, CampaignError>)
    ensures
        match mode {
            EconomyMode::CexConnected => match connected_seller_account_id {
                Some(a) if !spec_is_blank(a@) => r matches Ok(id) && id@ == a@,
                _ => r matches Err(e) && e.is_state(msg_connected_trade_needs_account()),
            },
            EconomyMode::OfflineLocal => r matches Ok(id) && id@ == "offline-market:"@ + region_id@,
        },
{
    match mode {
        EconomyMode::CexConnected => match connected_seller_account_id {
            Some(a) => {
                if is_blank(a) {
                    Err(CampaignError::InvalidState("connected trade requires a configured CEX market account".to_owned()))
                } else {
                    Ok(a.to_owned())
                }
            },
            None => Err(CampaignError::InvalidState("connected trade requires a configured CEX market account".to_owned())),
        },
        EconomyMode::OfflineLocal => {
            let mut id = "offline-market:".to_owned();
            id.append(region_id);
            Ok(id)
        },
    }
}

/// A purchase of a tradeable item between the player's wallet and a
/// regional market, carried out by a chain of economic intents.
#[derive(Debug, Clone, PartialEq, Eq)]
pub struct PendingTradeablePurchase {
    pub purchase_id: String,
    pub item_id: String,
    pub quantity: u16,
    pub price_wallet_credits: i64,
    pub buyer: EconomyAccountBinding,
    pub seller: EconomyAccountBinding,
    pub stage: TradeablePurchaseStage,
    pub reserve_intent_id: String,
    pub settle_intent_id: Option<String>,
    pub consume_intent_id: Option<String>,
    pub refund_intent_id: Option<String>,
}

pub struct PurchaseView {
    pub purchase_id: Seq<char>,
    pub item_id: Seq<char>,
    pub quantity: u16,
    pub price_wallet_credits: i64,
    pub buyer: BindingView,
    pub seller: BindingView,
    pub stage: TradeablePurchaseStage,
    pub reserve_intent_id: Seq<char>,
    pub settle_intent_id: Option<Seq<char>>,
    pub consume_intent_id: Option<Seq<char>>,
    pub refund_intent_id: Option<Seq<char>>,
}

pub open spec fn opt_view(o: Option<String>) -> Option<Seq<char>> {
    match o {
        Some(s) => Some(s@),
        None => None,
    }
}

impl View for PendingTradeablePurchase {
    type V = PurchaseView;

    open spec fn view(&self) -> PurchaseView {
        PurchaseView {
            purchase_id: self.purchase_id@,
            item_id: self.item_id@,
            quantity: self.quantity,
            price_wallet_credits: self.price_wallet_credits,
            buyer: self.buyer@,
            seller: self.seller@,
            stage: self.stage,
            reserve_intent_id: self.reserve_intent_id@,
            settle_intent_id: opt_view(self.settle_intent_id),
            consume_intent_id: opt_view(self.consume_intent_id),
            refund_intent_id: opt_view(self.refund_intent_id),
        }
    }
}

/// The term of the intents that carry a purchase.
pub const TRADEABLE_PURCHASE_TERM_ID: &'static str = "trnm_tradeable_purchase";

/// The term of the intent that unwinds a cancelled purchase.
pub const TRADEABLE_RECOVERY_TERM_ID: &'static str = "trnm_tradeable_purchase_recovery";

/// `trade:{campaign_id}:{item_id}:{cursor}`.
pub open spec fn spec_purchase_id(campaign_id: Seq<char>, item_id: Seq<char>, cursor: u64) -> Seq<char> {
    "trade:"@ + campaign_id + ":"@ + item_id + ":"@ + decimal(cursor as nat)
}

/// The purchase of one unit of `item_id` at `price`, opened at reconciliation
/// cursor `cursor`, and the reservation intent that starts it: the buyer's
/// price is reserved first. The seller is the region's market account.
pub open spec fn spec_begin_purchase(
    campaign_id: Seq<char>,
    item_id: Seq<char>,
    cursor: u64,
    price: i64,
    buyer: BindingView,
    seller_account_id: Seq<char>,
    region_id: Seq<char>,
    revision: u64,
) -> (PurchaseView, DraftView) {
    let purchase_id = spec_purchase_id(campaign_id, item_id, cursor);
    let reserve_id = purchase_id + ":reserve"@;
    (PurchaseView {
        purchase_id,
        item_id,
        quantity: 1,
        price_wallet_credits: price,
        buyer,
        seller: BindingView { actor_id: "trnm-market:"@ + region_id, account_id: seller_account_id, binding_revision: revision },
        stage: TradeablePurchaseStage::ReservePending,
        reserve_intent_id: reserve_id,
        settle_intent_id: None,
        consume_intent_id: None,
        refund_intent_id: None,
    }, DraftView {
        kind: EconomicIntentKind::Reserve,
        term_id: TRADEABLE_PURCHASE_TERM_ID@,
        intent_id: reserve_id,
        binding: buyer,
        asset_id: item_id,
        quantity: 1,
        amount_credits: price,
    })
}

pub fn begin_tradeable_purchase(
    campaign_id: &str,
    item_id: &str,
    cursor: u64,
    price: i64,
    buyer: EconomyAccountBinding,
    seller_account_id: String,
    region_id: &str,
    revision: u64,
) -> (r: (PendingTradeablePurchase, EconomicIntentDraft))
    ensures
        (r.0@, r.1@) == spec_begin_purchase(campaign_id@, item_id@, cursor, price, buyer@, seller_account_id@, region_id@, revision),
{
    proof {
        reveal_strlit(":");
    }
    let mut purchase_id = "trade:".to_owned();
    purchase_id.append(campaign_id);
    purchase_id.append(":");
    purchase_id.append(item_id);
    purchase_id.append(":");
    push_decimal(&mut purchase_id, cursor);
    let mut reserve_intent_id = purchase_id.clone();
    reserve_intent_id.append(":reserve");
    let mut seller_actor = "trnm-market:".to_owned();
    seller_actor.append(region_id);
    let draft = EconomicIntentDraft {
        kind: EconomicIntentKind::Reserve,
        term_id: TRADEABLE_PURCHASE_TERM_ID.to_owned(),
        intent_id: reserve_intent_id.clone(),
        binding: buyer.copied(),
        asset_id: item_id.to_owned(),
        quantity: 1,
        amount_credits: price,
    };
    let purchase = PendingTradeablePurchase {
        purchase_id,
        item_id: item_id.to_owned(),
        quantity: 1,
        price_wallet_credits: price,
        buyer,
        seller: EconomyAccountBinding { actor_id: seller_actor, account_id: seller_account_id, binding_revision: revision },
        stage: TradeablePurchaseStage::ReservePending,
        reserve_intent_id,
        settle_intent_id: None,
        consume_intent_id: None,
        refund_intent_id: None,
    };
    (purchase, draft)
}

/// What a purchase asks for after a receipt: nothing, the next intent of
/// the chain, or delivery of the bought item to the buyer's inventory.
#[derive(Debug, Clone, PartialEq, Eq)]
pub enum PurchaseStep {
    Nothing,
    Queue(EconomicIntentDraft),
    Deliver(LootStack),
}

pub enum PurchaseStepView {
    Nothing,
    Queue(DraftView),
    Deliver(LootView),
}

impl View for PurchaseStep {
    type V = PurchaseStepView;

    open spec fn view(&self) -> PurchaseStepView {
        match self {
            PurchaseStep::Nothing => PurchaseStepView::Nothing,
            PurchaseStep::Queue(d) => PurchaseStepView::Queue(d@),
            PurchaseStep::Deliver(l) => PurchaseStepView::Deliver(l@),
        }
    }
}

/// Whether `intent_id` is one of the intents the purchase issued.
pub open spec fn answers(p: PurchaseView, intent_id: Seq<char>) -> bool {
    p.reserve_intent_id == intent_id || p.settle_intent_id == Some(intent_id)
        || p.consume_intent_id == Some(intent_id) || p.refund_intent_id == Some(intent_id)
}

/// The purchase after a verified receipt for `intent_id`. A receipt for an
/// intent it did not issue changes nothing. A receipt that does not allow
/// progression stops it for good when it is a hard failure and otherwise
/// leaves it waiting. Otherwise a reserved price moves on to settling the
/// seller, a settled seller to consuming the buyer's reservation, a consumed
/// reservation delivers the item, and a refund closes the purchase.
pub open spec fn spec_after_receipt(
    p: PurchaseView,
    intent_id: Seq<char>,
    allows_progression: bool,
    hard_fail: bool,
) -> (PurchaseView, PurchaseStepView) {
    if !answers(p, intent_id) {
        (p, PurchaseStepView::Nothing)
    } else if !allows_progression {
        (if hard_fail { PurchaseView { stage: TradeablePurchaseStage::HardFailed, ..p } } else { p }, PurchaseStepView::Nothing)
    } else if p.reserve_intent_id == intent_id {
        let next = p.purchase_id + ":settle"@;
        (PurchaseView { stage: TradeablePurchaseStage::SellerSettlementPending, settle_intent_id: Some(next), ..p },
            PurchaseStepView::Queue(DraftView {
                kind: EconomicIntentKind::Settle,
                term_id: TRADEABLE_PURCHASE_TERM_ID@,
                intent_id: next,
                binding: p.seller,
                asset_id: p.item_id,
                quantity: p.quantity as i64,
                amount_credits: p.price_wallet_credits,
            }))
    } else if p.settle_intent_id == Some(intent_id) {
        let next = p.purchase_id + ":consume"@;
        (PurchaseView { stage: TradeablePurchaseStage::BuyerConsumePending, consume_intent_id: Some(next), ..p },
            PurchaseStepView::Queue(DraftView {
                kind: EconomicIntentKind::Consume,
                term_id: TRADEABLE_PURCHASE_TERM_ID@,
                intent_id: next,
                binding: p.buyer,
                asset_id: p.item_id,
                quantity: p.quantity as i64,
                amount_credits: p.price_wallet_credits,
            }))
    } else if p.consume_intent_id == Some(intent_id) {
        (PurchaseView { stage: TradeablePurchaseStage::Consumed, ..p },
            PurchaseStepView::Deliver(LootView { item_id: p.item_id, quantity: p.quantity }))
    } else {
        (PurchaseView { stage: TradeablePurchaseStage::Refunded, ..p }, PurchaseStepView::Nothing)
    }
}

fn opt_str_eq(o: &Option<String>, s: &str) -> (r: bool)
    ensures
        r == (opt_view(*o) == Some(s@)),
{
    match o {
        Some(x) => str_eq(x.as_str(), s),
        None => false,
    }
}

fn item_stack(item_id: &String, quantity: u16) -> (r: LootStack)
    ensures
        r@ == (LootView { item_id: item_id@, quantity }),
{
    LootStack { item_id: item_id.clone(), quantity }
}

impl PendingTradeablePurchase {
    /// Moves the purchase on after a verified receipt for `intent_id`;
    /// `allows_progression` and `hard_fail` are what the protocol says of
    /// the receipt.
    pub fn after_receipt(&mut self, intent_id: &str, allows_progression: bool, hard_fail: bool) -> (r: PurchaseStep)
        ensures
            (final(self)@, r@) == spec_after_receipt(old(self)@, intent_id@, allows_progression, hard_fail),
    {
        let is_reserve = str_eq(self.reserve_intent_id.as_str(), intent_id);
        let is_settle = opt_str_eq(&self.settle_intent_id, intent_id);
        let is_consume = opt_str_eq(&self.consume_intent_id, intent_id);
        let is_refund = opt_str_eq(&self.refund_intent_id, intent_id);
        if !(is_reserve || is_settle || is_consume || is_refund) {
            return PurchaseStep::Nothing;
        }
        if !allows_progression {
            if hard_fail {
                self.stage = TradeablePurchaseStage::HardFailed;
            }
            return PurchaseStep::Nothing;
        }
        if is_reserve {
            let mut next = self.purchase_id.clone();
            next.append(":settle");
            self.stage = TradeablePurchaseStage::SellerSettlementPending;
            self.settle_intent_id = Some(next.clone());
            PurchaseStep::Queue(EconomicIntentDraft {
                kind: EconomicIntentKind::Settle,
                term_id: TRADEABLE_PURCHASE_TERM_ID.to_owned(),
                intent_id: next,
                binding: self.seller.copied(),
                asset_id: self.item_id.clone(),
                quantity: self.quantity as i64,
                amount_credits: self.price_wallet_credits,
            })
        } else if is_settle {
            let mut next = self.purchase_id.clone();
            next.append(":consume");
            self.stage = TradeablePurchaseStage::BuyerConsumePending;
            self.consume_intent_id = Some(next.clone());
            PurchaseStep::Queue(EconomicIntentDraft {
                kind: EconomicIntentKind::Consume,
                term_id: TRADEABLE_PURCHASE_TERM_ID.to_owned(),
                intent_id: next,
                binding: self.buyer.copied(),
                asset_id: self.item_id.clone(),
                quantity: self.quantity as i64,
                amount_credits: self.price_wallet_credits,
            })
        } else if is_consume {
            self.stage = TradeablePurchaseStage::Consumed;
            PurchaseStep::Deliver(item_stack(&self.item_id, self.quantity))
        } else {
            self.stage = TradeablePurchaseStage::Refunded;
            PurchaseStep::Nothing
        }
    }

    /// Cancels the purchase: it waits for a refund, and the recovery intent
    /// returns the price: charged back from the seller when the item was
    /// already consumed, refunded to the buyer otherwise.
    pub fn cancel(&mut self) -> (r: EconomicIntentDraft)
        ensures
            final(self)@ == (PurchaseView {
                stage: TradeablePurchaseStage::RefundPending,
                refund_intent_id: Some(old(self)@.purchase_id + ":recovery"@),
                ..old(self)@
            }),
            r@ == (DraftView {
                kind: if old(self).stage == TradeablePurchaseStage::Consumed { EconomicIntentKind::Chargeback } else { EconomicIntentKind::Refund },
                term_id: TRADEABLE_RECOVERY_TERM_ID@,
                intent_id: old(self)@.purchase_id + ":recovery"@,
                binding: if old(self).stage == TradeablePurchaseStage::Consumed { old(self)@.seller } else { old(self)@.buyer },
                asset_id: old(self)@.item_id,
                quantity: old(self).quantity as i64,
                amount_credits: old(self).price_wallet_credits,
            }),
    {
        let consumed = self.stage == TradeablePurchaseStage::Consumed;
        let (kind, binding) = if consumed {
            (EconomicIntentKind::Chargeback, self.seller.copied())
        } else {
            (EconomicIntentKind::Refund, self.buyer.copied())
        };
        let mut intent_id = self.purchase_id.clone();
        intent_id.append(":recovery");
        self.stage = TradeablePurchaseStage::RefundPending;
        self.refund_intent_id = Some(intent_id.clone());
        EconomicIntentDraft {
            kind,
            term_id: TRADEABLE_RECOVERY_TERM_ID.to_owned(),
            intent_id,
            binding,
            asset_id: self.item_id.clone(),
            quantity: self.quantity as i64,
            amount_credits: self.price_wallet_credits,
        }
    }
}

/// A purchase runs reserve, settle, consume in that order: answering each
/// intent it issues with a progression-allowing receipt takes a new
/// purchase through seller settlement and buyer consumption to `Consumed`,
/// the seller settled and the buyer charged the price, and delivers the
/// bought unit exactly at the last step.
pub proof fn lemma_purchase_runs_reserve_settle_consume(
    campaign_id: Seq<char>,
    item_id: Seq<char>,
    cursor: u64,
    price: i64,
    buyer: BindingView,
    seller_account_id: Seq<char>,
    region_id: Seq<char>,
    revision: u64,
)
    ensures
        ({
            let (p0, reserve) = spec_begin_purchase(campaign_id, item_id, cursor, price, buyer, seller_account_id, region_id, revision);
            let (p1, s1) = spec_after_receipt(p0, reserve.intent_id, true, false);
            &&& p1.stage == TradeablePurchaseStage::SellerSettlementPending
            &&& s1 matches PurchaseStepView::Queue(settle) && settle.kind == EconomicIntentKind::Settle
                && settle.binding == p0.seller && settle.amount_credits == price && {
                let (p2, s2) = spec_after_receipt(p1, settle.intent_id, true, false);
                &&& p2.stage == TradeablePurchaseStage::BuyerConsumePending
                &&& s2 matches PurchaseStepView::Queue(consume) && consume.kind == EconomicIntentKind::Consume
                    && consume.binding == buyer && consume.amount_credits == price && {
                    let (p3, s3) = spec_after_receipt(p2, consume.intent_id, true, false);
                    &&& p3.stage == TradeablePurchaseStage::Consumed
                    &&& s3 matches PurchaseStepView::Deliver(l) && l.item_id == item_id && l.quantity == 1
                }
            }
        }),
{
    let (p0, reserve) = spec_begin_purchase(campaign_id, item_id, cursor, price, buyer, seller_account_id, region_id, revision);
    let settle_id = p0.purchase_id + ":settle"@;
    let consume_id = p0.purchase_id + ":consume"@;
    reveal_strlit(":reserve");
    reveal_strlit(":settle");
    reveal_strlit(":consume");
    let n: int = p0.purchase_id.len() as int;
    assert(reserve.intent_id != settle_id) by {
        assert(reserve.intent_id[n + 1] == 'r');
        assert(settle_id[n + 1] == 's');
    }
    assert(reserve.intent_id != consume_id) by {
        assert(reserve.intent_id[n + 1] == 'r');
        assert(consume_id[n + 1] == 'c');
    }
    assert(settle_id != consume_id) by {
        assert(settle_id[n + 1] == 's');
        assert(consume_id[n + 1] == 'c');
    }
}

/// A purchase stopped by a hard failure, or closed by a refund, stays where
/// it is whatever receipt arrives for an intent it did not issue.
pub proof fn lemma_foreign_receipts_leave_purchases_alone(p: PurchaseView, intent_id: Seq<char>, allows: bool, hard: bool)
    requires
        !answers(p, intent_id),
    ensures
        spec_after_receipt(p, intent_id, allows, hard) == (p, PurchaseStepView::Nothing),
{
}

/// The status a settlement backend reports on an executed intent.
#[derive(Debug, Clone, Copy, PartialEq, Eq, Hash, Structural)]
pub enum ReceiptStatus {
    Reserved,
    Settled,
    Consumed,
    Refunded,
    SellerChargebackConsumed,
    ApprovedRelease,
    SkippedZeroPrice,
    Duplicate,
}

pub open spec fn spec_offline_status(kind: EconomicIntentKind) -> ReceiptStatus {
    match kind {
        EconomicIntentKind::Reserve => ReceiptStatus::Reserved,
        EconomicIntentKind::Settle => ReceiptStatus::Settled,
        EconomicIntentKind::Consume => ReceiptStatus::Consumed,
        EconomicIntentKind::Refund => ReceiptStatus::Refunded,
        EconomicIntentKind::Chargeback => ReceiptStatus::SellerChargebackConsumed,
        EconomicIntentKind::ReleaseReward | EconomicIntentKind::CompleteContract => ReceiptStatus::ApprovedRelease,
        EconomicIntentKind::Quote => ReceiptStatus::SkippedZeroPrice,
        EconomicIntentKind::VerifyReceipt => ReceiptStatus::Duplicate,
    }
}

impl OfflineLocalEconomyBackend {
    /// The offline backend grants every valid intent what it asks for: the
    /// status that completes the intent's kind.
    pub fn receipt_status(&self, kind: EconomicIntentKind) -> (r: ReceiptStatus)
        ensures
            r == spec_offline_status(kind),
    {
        match kind {
            EconomicIntentKind::Reserve => ReceiptStatus::Reserved,
            EconomicIntentKind::Settle => ReceiptStatus::Settled,
            EconomicIntentKind::Consume => ReceiptStatus::Consumed,
            EconomicIntentKind::Refund => ReceiptStatus::Refunded,
            EconomicIntentKind::Chargeback => ReceiptStatus::SellerChargebackConsumed,
            EconomicIntentKind::ReleaseReward | EconomicIntentKind::CompleteContract => ReceiptStatus::ApprovedRelease,
            EconomicIntentKind::Quote => ReceiptStatus::SkippedZeroPrice,
            EconomicIntentKind::VerifyReceipt => ReceiptStatus::Duplicate,
        }
    }

    /// The id of the offline receipt for `intent_id`: `offline-receipt:{intent_id}`.
    pub fn receipt_id(&self, intent_id: &str) -> (r: String)
        ensures
            r@ == "offline-receipt:"@ + intent_id@,
    {
        let mut id = "offline-receipt:".to_owned();
        id.append(intent_id);
        id
    }
}

/// The first settlement receipt, from index `start` on, that issued the
/// economic intent `intent_id`; -1 if none.
pub open spec fn find_settlement_for_intent(receipts: Seq<SettlementReceiptV1>, intent_id: Seq<char>, start: int) -> int
    decreases receipts.len() - start,
{
    if start < 0 || start >= receipts.len() {
        -1
    } else if receipts[start]@.economic_intent_id == Some(intent_id) {
        start
    } else {
        find_settlement_for_intent(receipts, intent_id, start + 1)
    }
}

/// Records on the battle's settlement receipt which economic receipt paid
/// its reward: only for a progression-allowing receipt of a battle-reward
/// intent, and only on the first settlement that issued that intent.
pub fn link_reward_receipt(
    settlements: &mut Vec<SettlementReceiptV1>,
    intent: &QueuedIntent,
    receipt_id: &str,
    allows_progression: bool,
)
    ensures
        ({
            let k = find_settlement_for_intent(old(settlements)@, intent.draft.intent_id@, 0);
            if allows_progression && intent.draft.term_id@ == BATTLE_REWARD_TERM_ID@ && k >= 0 {
                &&& final(settlements)@.len() == old(settlements)@.len()
                &&& final(settlements)@[k]@ == (SettlementReceiptView {
                    economic_receipt_id: Some(receipt_id@),
                    ..old(settlements)@[k]@
                })
                &&& forall|i: int| 0 <= i < old(settlements)@.len() && i != k ==> final(settlements)@[i] == old(settlements)@[i]
            } else {
                final(settlements)@ == old(settlements)@
            }
        }),
{
    if !allows_progression || !str_eq(intent.draft.term_id.as_str(), BATTLE_REWARD_TERM_ID) {
        return;
    }
    let ghost s0 = settlements@;
    match find_settlement(settlements, intent.draft.intent_id.as_str()) {
        None => {},
        Some(i) => {
            let mut linked = settlements.remove(i);
            assert(linked == s0[i as int]);
            linked.economic_receipt_id = Some(receipt_id.to_owned());
            settlements.insert(i, linked);
            assert(settlements@ =~= s0.update(i as int, linked));
        },
    }
}

fn find_settlement(settlements: &Vec<SettlementReceiptV1>, intent_id: &str) -> (r: Option<usize>)
    ensures
        match r {
            Some(i) => i < settlements@.len() && find_settlement_for_intent(settlements@, intent_id@, 0) == i as int,
            None => find_settlement_for_intent(settlements@, intent_id@, 0) == -1,
        },
{
    let mut i: usize = 0;
    while i < settlements.len()
        invariant
            i <= settlements@.len(),
            find_settlement_for_intent(settlements@, intent_id@, 0) == find_settlement_for_intent(settlements@, intent_id@, i as int),
        decreases settlements@.len() - i,
    {
        if opt_str_eq(&settlements[i].economic_intent_id, intent_id) {
            return Some(i);
        }
        i = i + 1;
    }
    None
}

impl PurchaseView {
    /// A purchase the save accepts: a positive quantity and price, and a
    /// named item, buyer account and seller account.
    pub open spec fn well_formed(self) -> bool {
        &&& self.quantity > 0
        &&& self.price_wallet_credits > 0
        &&& !spec_is_blank(self.item_id)
        &&& !spec_is_blank(self.buyer.account_id)
        &&& !spec_is_blank(self.seller.account_id)
    }
}

impl PendingTradeablePurchase {
    pub fn is_well_formed(&self) -> (r: bool)
        ensures
            r == self@.well_formed(),
    {
        self.quantity > 0 && self.price_wallet_credits > 0 && !is_blank(self.item_id.as_str())
            && !is_blank(self.buyer.account_id.as_str()) && !is_blank(self.seller.account_id.as_str())
    }
}

/// Purchases stay acceptable to the save through their whole life: a
/// purchase opened at a positive price for a named item between named
/// accounts is well formed, and receipts and cancellation keep it so.
pub proof fn lemma_purchases_stay_well_formed(
    campaign_id: Seq<char>,
    item_id: Seq<char>,
    cursor: u64,
    price: i64,
    buyer: BindingView,
    seller_account_id: Seq<char>,
    region_id: Seq<char>,
    revision: u64,
    p: PurchaseView,
    intent_id: Seq<char>,
    allows: bool,
    hard: bool,
)
    requires
        price > 0,
        !spec_is_blank(item_id),
        !spec_is_blank(buyer.account_id),
        !spec_is_blank(seller_account_id),
        p.well_formed(),
    ensures
        spec_begin_purchase(campaign_id, item_id, cursor, price, buyer, seller_account_id, region_id, revision).0.well_formed(),
        spec_after_receipt(p, intent_id, allows, hard).0.well_formed(),
        (PurchaseView {
            stage: TradeablePurchaseStage::RefundPending,
            refund_intent_id: Some(p.purchase_id + ":recovery"@),
            ..p
        }).well_formed(),
{
}

impl ValueEventRecord {
    /// A value event the save accepts, given the most a single event may
    /// pay to the wallet: named event and intent, no negative delta, and
    /// deltas that match the policy: a local-only event pays nothing to
    /// the wallet, a wallet-only event nothing locally, and a dual-track
    /// event pays the wallet no more than it pays locally nor more than the
    /// per-event cap.
    pub open spec fn well_formed(self, per_event_cap: i64) -> bool {
        &&& !spec_is_blank(self.event_id@)
        &&& !spec_is_blank(self.economic_intent_id@)
        &&& self.local_soft_credit_delta >= 0
        &&& self.wallet_credit_delta >= 0
        &&& match self.policy {
            ValueSettlementPolicy::LocalSoftOnly => self.wallet_credit_delta == 0,
            ValueSettlementPolicy::WalletOnly => self.local_soft_credit_delta == 0,
            ValueSettlementPolicy::DualTrack => self.wallet_credit_delta <= self.local_soft_credit_delta
                && self.wallet_credit_delta <= per_event_cap,
        }
    }

    pub fn is_well_formed(&self, per_event_cap: i64) -> (r: bool)
        ensures
            r == self.well_formed(per_event_cap),
    {
        if is_blank(self.event_id.as_str()) || is_blank(self.economic_intent_id.as_str())
            || self.local_soft_credit_delta < 0 || self.wallet_credit_delta < 0 {
            return false;
        }
        match self.policy {
            ValueSettlementPolicy::LocalSoftOnly => self.wallet_credit_delta == 0,
            ValueSettlementPolicy::WalletOnly => self.local_soft_credit_delta == 0,
            ValueSettlementPolicy::DualTrack => self.wallet_credit_delta <= self.local_soft_credit_delta
                && self.wallet_credit_delta <= per_event_cap,
        }
    }
}

fn texts_distinct(keys: &Vec<String>) -> (r: bool)
    ensures
        r == forall|i: int, j: int| 0 <= i < j < keys@.len() ==> #[trigger] keys@[i]@ != #[trigger] keys@[j]@,
{
    let n = keys.len();
    let mut i: usize = 0;
    while i < n
        invariant
            n == keys@.len(),
            i <= n,
            forall|a: int, b: int| 0 <= a < b < n && a < i ==> #[trigger] keys@[a]@ != #[trigger] keys@[b]@,
        decreases n - i,
    {
        let mut j: usize = i + 1;
        while j < n
            invariant
                n == keys@.len(),
                i < n,
                i + 1 <= j <= n,
                forall|a: int, b: int| 0 <= a < b < n && a < i ==> #[trigger] keys@[a]@ != #[trigger] keys@[b]@,
                forall|b: int| i < b < j ==> keys@[i as int]@ != #[trigger] keys@[b]@,
            decreases n - j,
        {
            if str_eq(keys[i].as_str(), keys[j].as_str()) {
                return false;
            }
            j = j + 1;
        }
        i = i + 1;
    }
    true
}

fn pending_keys_distinct(pending: &Vec<QueuedIntent>) -> (r: bool)
    ensures
        r == forall|i: int, j: int| 0 <= i < j < pending@.len()
            ==> #[trigger] pending@[i].idempotency_key@ != #[trigger] pending@[j].idempotency_key@,
{
    let n = pending.len();
    let mut i: usize = 0;
    while i < n
        invariant
            n == pending@.len(),
            i <= n,
            forall|a: int, b: int| 0 <= a < b < n && a < i ==> #[trigger] pending@[a].idempotency_key@ != #[trigger] pending@[b].idempotency_key@,
        decreases n - i,
    {
        let mut j: usize = i + 1;
        while j < n
            invariant
                n == pending@.len(),
                i < n,
                i + 1 <= j <= n,
                forall|a: int, b: int| 0 <= a < b < n && a < i ==> #[trigger] pending@[a].idempotency_key@ != #[trigger] pending@[b].idempotency_key@,
                forall|b: int| i < b < j ==> pending@[i as int].idempotency_key@ != #[trigger] pending@[b].idempotency_key@,
            decreases n - j,
        {
            if str_eq(pending[i].idempotency_key.as_str(), pending[j].idempotency_key.as_str()) {
                return false;
            }
            j = j + 1;
        }
        i = i + 1;
    }
    true
}

impl EconomicOutbox {
    fn pending_keys_recorded(&self) -> (r: bool)
        ensures
            r == forall|j: int| 0 <= j < self@.pending.len() ==> self@.keys.contains(#[trigger] self@.pending[j].idempotency_key),
    {
        let mut i: usize = 0;
        while i < self.pending.len()
            invariant
                i <= self.pending@.len(),
                forall|j: int| 0 <= j < i ==> self@.keys.contains(#[trigger] self@.pending[j].idempotency_key),
            decreases self.pending@.len() - i,
        {
            if !self.has_key(self.pending[i].idempotency_key.as_str()) {
                assert(!self@.keys.contains(self@.pending[i as int].idempotency_key));
                return false;
            }
            i = i + 1;
        }
        true
    }

    /// Whether the outbox is well formed (see `OutboxView::well_formed`).
    pub fn is_well_formed(&self) -> (r: bool)
        ensures
            r == self@.well_formed(),
    {
        let ghost v = self@;
        if self.pending.len() > ECONOMIC_OUTBOX_CAPACITY {
            return false;
        }
        let recorded = self.pending_keys_recorded();
        let keys_ok = texts_distinct(&self.idempotency_keys);
        assert(keys_ok == forall|a: int, b: int| 0 <= a < b < v.keys.len() ==> #[trigger] v.keys[a] != #[trigger] v.keys[b]) by {
            if !keys_ok {
                let (a, b) = choose|a: int, b: int| 0 <= a < b < self.idempotency_keys@.len()
                    && #[trigger] self.idempotency_keys@[a]@ == #[trigger] self.idempotency_keys@[b]@;
                assert(v.keys[a] == v.keys[b]);
            }
        }
        let pending_ok = pending_keys_distinct(&self.pending);
        assert(pending_ok == forall|a: int, b: int| 0 <= a < b < v.pending.len()
            ==> #[trigger] v.pending[a].idempotency_key != #[trigger] v.pending[b].idempotency_key) by {
            if !pending_ok {
                let (a, b) = choose|a: int, b: int| 0 <= a < b < self.pending@.len()
                    && #[trigger] self.pending@[a].idempotency_key@ == #[trigger] self.pending@[b].idempotency_key@;
                assert(v.pending[a].idempotency_key == v.pending[b].idempotency_key);
            }
        }
        recorded && keys_ok && pending_ok
    }
}

/// Each intent is queued at most once: once queueing an intent has not
/// failed, queueing any intent with the same id again, whatever the
/// verdict, changes nothing and answers `false`.
pub proof fn lemma_intents_are_queued_at_most_once(
    outbox: OutboxView,
    campaign_id: Seq<char>,
    first: DraftView,
    first_epoch: i64,
    first_verdict: Result<(), Seq<char>>,
    again: DraftView,
    again_epoch: i64,
    again_verdict: Result<(), Seq<char>>,
)
    requires
        again.intent_id == first.intent_id,
        spec_queue(outbox, campaign_id, first, first_epoch, first_verdict).1 is Ok,
    ensures
        ({
            let after = spec_queue(outbox, campaign_id, first, first_epoch, first_verdict).0;
            spec_queue(after, campaign_id, again, again_epoch, again_verdict) == (after, Ok::<bool, Seq<char>>(false))
        }),
{
    let key = spec_idempotency_key(campaign_id, first.intent_id);
    let after = spec_queue(outbox, campaign_id, first, first_epoch, first_verdict).0;
    if !outbox.keys.contains(key) {
        assert(after.keys[after.keys.len() - 1] == key);
    }
    assert(after.keys.contains(key));
}

/// Queueing never forgets a key: every key recorded before is recorded after.
pub proof fn lemma_queue_keeps_keys(
    outbox: OutboxView,
    campaign_id: Seq<char>,
    draft: DraftView,
    created_at_epoch: i64,
    verdict: Result<(), Seq<char>>,
    key: Seq<char>,
)
    requires
        outbox.keys.contains(key),
    ensures
        spec_queue(outbox, campaign_id, draft, created_at_epoch, verdict).0.keys.contains(key),
{
    let after = spec_queue(outbox, campaign_id, draft, created_at_epoch, verdict).0;
    let i = choose|i: int| 0 <= i < outbox.keys.len() && outbox.keys[i] == key;
    assert(after.keys[i] == key);
}

} // verus!
