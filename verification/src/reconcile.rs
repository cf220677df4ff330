//! Reconciling the economic outbox against the offline local backend: each
//! pending intent is executed locally, the term-exchange protocol's verdict
//! on the local receipt decides what happens to it, and a verified battle
//! reward is linked to the settlement that earned it.

use vstd::prelude::*;
use crate::economy::{
    link_reward_receipt, spec_offline_status, EconomicOutbox, ExecutionOutcome, OutboxView,
    QueuedIntentView, ReceiptProgressionClass, ReceiptStatus, BATTLE_REWARD_TERM_ID, find_settlement_for_intent,
};
use crate::settlement::{OfflineLocalEconomyBackend, SettlementReceiptV1, SettlementReceiptView};
use crate::text::str_eq;

verus! {

/// A receipt the campaign verified against the intent it answers.
#[derive(Debug, Clone, PartialEq, Eq)]
pub struct VerifiedEconomicReceipt {
    pub receipt_id: String,
    pub intent_id: String,
    pub status: ReceiptStatus,
}

pub struct VerifiedView {
    pub receipt_id: Seq<char>,
    pub intent_id: Seq<char>,
    pub status: ReceiptStatus,
}

impl View for VerifiedEconomicReceipt {
    type V = VerifiedView;

    open spec fn view(&self) -> VerifiedView {
        VerifiedView { receipt_id: self.receipt_id@, intent_id: self.intent_id@, status: self.status }
    }
}

pub open spec fn verified_view(s: Seq<VerifiedEconomicReceipt>) -> Seq<VerifiedView> {
    s.map_values(|r: VerifiedEconomicReceipt| r@)
}

pub open spec fn receipts_view(s: Seq<SettlementReceiptV1>) -> Seq<SettlementReceiptView> {
    s.map_values(|r: SettlementReceiptV1| r@)
}

/// The outbox, the verified receipts and the settlement receipts, as a
/// reconciliation pass sees them.
pub struct LedgerView {
    pub outbox: OutboxView,
    pub verified: Seq<VerifiedView>,
    pub settlements: Seq<SettlementReceiptView>,
}

/// The id of the offline receipt for an intent: `offline-receipt:{intent_id}`.
pub open spec fn offline_receipt_id(intent_id: Seq<char>) -> Seq<char> {
    "offline-receipt:"@ + intent_id
}

/// The first settlement, from `start` on, that issued the intent `intent_id`.
pub open spec fn find_link(s: Seq<SettlementReceiptView>, intent_id: Seq<char>, start: int) -> int
    decreases s.len() - start,
{
    if start < 0 || start >= s.len() {
        -1
    } else if s[start].economic_intent_id == Some(intent_id) {
        start
    } else {
        find_link(s, intent_id, start + 1)
    }
}

/// The first verified receipt, from `start` on, with the id `receipt_id`.
pub open spec fn find_verified(s: Seq<VerifiedView>, receipt_id: Seq<char>, start: int) -> int
    decreases s.len() - start,
{
    if start < 0 || start >= s.len() {
        -1
    } else if s[start].receipt_id == receipt_id {
        start
    } else {
        find_verified(s, receipt_id, start + 1)
    }
}

/// `v` recorded among the verified receipts: replacing the one with its id,
/// or appended.
pub open spec fn upsert(s: Seq<VerifiedView>, v: VerifiedView) -> Seq<VerifiedView> {
    let k = find_verified(s, v.receipt_id, 0);
    if k >= 0 { s.update(k, v) } else { s.push(v) }
}

/// The settlements after the receipt `receipt_id` paid the intent `q`: a
/// battle reward is linked on the first settlement that issued it.
pub open spec fn linked(s: Seq<SettlementReceiptView>, q: QueuedIntentView, receipt_id: Seq<char>) -> Seq<SettlementReceiptView> {
    let k = find_link(s, q.draft.intent_id, 0);
    if q.draft.term_id == BATTLE_REWARD_TERM_ID@ && k >= 0 {
        s.update(k, SettlementReceiptView { economic_receipt_id: Some(receipt_id), ..s[k] })
    } else {
        s
    }
}

pub open spec fn drop_front(o: OutboxView) -> OutboxView {
    OutboxView { pending: o.pending.drop_first(), ..o }
}

pub open spec fn dead_letter(o: OutboxView) -> OutboxView {
    OutboxView { pending: o.pending.drop_first(), dead_letters: o.dead_letters.push(o.pending[0]), ..o }
}

/// One step of the pass on the intent at the head of the outbox, given the
/// protocol's verdict on its offline receipt, and whether the pass goes on:
/// no receipt stops the pass; a receipt that does not verify dead-letters
/// the intent; otherwise the receipt is recorded as verified and, by its
/// class, the intent is taken off the outbox and its reward linked
/// (progression allowed), taken off (terminal skip), left pending with the
/// pass stopped (recoverable hold), or dead-lettered (hard failure).
pub open spec fn reconcile_step(l: LedgerView, outcome: ExecutionOutcome) -> (LedgerView, bool) {
    let q = l.outbox.pending[0];
    let rid = offline_receipt_id(q.draft.intent_id);
    let v = VerifiedView { receipt_id: rid, intent_id: q.draft.intent_id, status: spec_offline_status(q.draft.kind) };
    match outcome {
        ExecutionOutcome::BackendError(_) => (l, false),
        ExecutionOutcome::InvalidReceipt(_) => (LedgerView { outbox: dead_letter(l.outbox), ..l }, true),
        ExecutionOutcome::Verified { class, reason } => match class {
            ReceiptProgressionClass::ProgressionAllowed => (LedgerView {
                outbox: drop_front(l.outbox),
                verified: upsert(l.verified, v),
                settlements: linked(l.settlements, q, rid),
            }, true),
            ReceiptProgressionClass::TerminalSkip => (LedgerView {
                outbox: drop_front(l.outbox),
                verified: upsert(l.verified, v),
                ..l
            }, true),
            ReceiptProgressionClass::RecoverableHold => (LedgerView { verified: upsert(l.verified, v), ..l }, false),
            ReceiptProgressionClass::HardFail => (LedgerView {
                outbox: dead_letter(l.outbox),
                verified: upsert(l.verified, v),
                ..l
            }, true),
        },
    }
}

/// The pass from the `i`-th verdict on, over at most `max` intents.
pub open spec fn spec_reconcile(l: LedgerView, outcomes: Seq<ExecutionOutcome>, i: int, max: int) -> LedgerView
    decreases max - i,
{
    if i < 0 || i >= max || i >= outcomes.len() || l.outbox.pending.len() == 0 {
        l
    } else {
        let (next, go) = reconcile_step(l, outcomes[i]);
        if go { spec_reconcile(next, outcomes, i + 1, max) } else { next }
    }
}

proof fn lemma_find_link(s: Seq<SettlementReceiptV1>, intent_id: Seq<char>, start: int)
    requires
        0 <= start,
    ensures
        find_settlement_for_intent(s, intent_id, start) == find_link(receipts_view(s), intent_id, start),
        find_settlement_for_intent(s, intent_id, start) < s.len(),
    decreases s.len() - start,
{
    if start < s.len() {
        lemma_find_link(s, intent_id, start + 1);
    }
}

fn verified_index(verified: &Vec<VerifiedEconomicReceipt>, receipt_id: &str) -> (r: Option<usize>)
    ensures
        match r {
            Some(k) => k < verified@.len() && find_verified(verified_view(verified@), receipt_id@, 0) == k as int,
            None => find_verified(verified_view(verified@), receipt_id@, 0) == -1,
        },
{
    let ghost vv = verified_view(verified@);
    let mut i: usize = 0;
    while i < verified.len()
        invariant
            i <= verified@.len(),
            vv == verified_view(verified@),
            find_verified(vv, receipt_id@, 0) == find_verified(vv, receipt_id@, i as int),
        decreases verified@.len() - i,
    {
        if str_eq(verified[i].receipt_id.as_str(), receipt_id) {
            return Some(i);
        }
        i = i + 1;
    }
    None
}

fn upsert_verified(verified: &mut Vec<VerifiedEconomicReceipt>, v: VerifiedEconomicReceipt)
    ensures
        verified_view(final(verified)@) == upsert(verified_view(old(verified)@), v@),
{
    let ghost before = verified_view(verified@);
    match verified_index(verified, v.receipt_id.as_str()) {
        Some(k) => {
            let ghost vv = v@;
            verified.set(k, v);
            assert(verified_view(verified@) =~= before.update(k as int, vv));
        },
        None => {
            let ghost vv = v@;
            verified.push(v);
            assert(verified_view(verified@) =~= before.push(vv));
        },
    }
}

impl OfflineLocalEconomyBackend {
    /// Runs a reconciliation pass over at most `max` pending intents against
    /// the offline backend. `outcomes[i]` is the term-exchange protocol's
    /// verdict on the offline receipt of the `i`-th intent the pass meets;
    /// the pass also stops when the verdicts run out.
    pub fn reconcile(
        &self,
        outbox: &mut EconomicOutbox,
        verified: &mut Vec<VerifiedEconomicReceipt>,
        settlements: &mut Vec<SettlementReceiptV1>,
        outcomes: &[ExecutionOutcome],
        max: usize,
    )
        requires
            old(outbox)@.well_formed(),
        ensures
            final(outbox)@.well_formed(),
            (LedgerView { outbox: final(outbox)@, verified: verified_view(final(verified)@), settlements: receipts_view(final(settlements)@) })
                == spec_reconcile(LedgerView {
                    outbox: old(outbox)@,
                    verified: verified_view(old(verified)@),
                    settlements: receipts_view(old(settlements)@),
                }, outcomes@, 0, max as int),
    {
        let ghost target = spec_reconcile(LedgerView {
            outbox: outbox@,
            verified: verified_view(verified@),
            settlements: receipts_view(settlements@),
        }, outcomes@, 0, max as int);
        let mut i: usize = 0;
        while i < max && i < outcomes.len() && outbox.pending.len() > 0
            invariant_except_break
                outbox@.well_formed(),
                spec_reconcile(LedgerView {
                    outbox: outbox@,
                    verified: verified_view(verified@),
                    settlements: receipts_view(settlements@),
                }, outcomes@, i as int, max as int) == target,
            ensures
                outbox@.well_formed(),
                (LedgerView { outbox: outbox@, verified: verified_view(verified@), settlements: receipts_view(settlements@) }) == target,
            decreases max - i,
        {
            let ghost l = LedgerView { outbox: outbox@, verified: verified_view(verified@), settlements: receipts_view(settlements@) };
            let intent_id = outbox.pending[0].draft.intent_id.as_str();
            let receipt_id = self.receipt_id(intent_id);
            let record = VerifiedEconomicReceipt {
                receipt_id: receipt_id.clone(),
                intent_id: intent_id.to_owned(),
                status: self.receipt_status(outbox.pending[0].draft.kind),
            };
            match &outcomes[i] {
                ExecutionOutcome::BackendError(_) => {
                    break;
                },
                ExecutionOutcome::InvalidReceipt(_) => {
                    outbox.dead_letter_front();
                    assert(outbox@ =~= dead_letter(l.outbox));
                },
                ExecutionOutcome::Verified { class, reason } => match class {
                    ReceiptProgressionClass::ProgressionAllowed => {
                        let front = outbox.complete_front();
                        upsert_verified(verified, record);
                        let ghost before = settlements@;
                        proof {
                            lemma_find_link(before, front.draft.intent_id@, 0);
                        }
                        link_reward_receipt(settlements, &front, receipt_id.as_str(), true);
                        proof {
                            let k = find_settlement_for_intent(before, front.draft.intent_id@, 0);
                            if front.draft.term_id@ == BATTLE_REWARD_TERM_ID@ && k >= 0 {
                                assert(settlements@.len() == before.len());
                                assert(settlements@[k]@ == (SettlementReceiptView { economic_receipt_id: Some(receipt_id@), ..before[k]@ }));
                                assert forall|j: int| 0 <= j < before.len() implies #[trigger] receipts_view(settlements@)[j]
                                    == receipts_view(before).update(k, SettlementReceiptView {
                                        economic_receipt_id: Some(receipt_id@),
                                        ..receipts_view(before)[k]
                                    })[j] by {
                                    if j != k {
                                        assert(settlements@[j] == before[j]);
                                    }
                                }
                            }
                            assert(receipts_view(settlements@) =~= linked(receipts_view(before), front@, receipt_id@));
                            assert(outbox@ =~= drop_front(l.outbox));
                        }
                    },
                    ReceiptProgressionClass::TerminalSkip => {
                        outbox.complete_front();
                        upsert_verified(verified, record);
                        assert(outbox@ =~= drop_front(l.outbox));
                    },
                    ReceiptProgressionClass::RecoverableHold => {
                        upsert_verified(verified, record);
                        break;
                    },
                    ReceiptProgressionClass::HardFail => {
                        outbox.dead_letter_front();
                        upsert_verified(verified, record);
                        assert(outbox@ =~= dead_letter(l.outbox));
                    },
                },
            }
            i = i + 1;
        }
    }
}

} // verus!
