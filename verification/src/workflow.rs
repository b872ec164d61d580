use vstd::prelude::*;

verus! {

use crate::errors::TransferError;
use crate::fees::FeeEnvelope;
use crate::fees::GasBudget;
use crate::fees::spec_final_max_fee;
use crate::fees::spec_gas_limit;
use crate::fees::worst_case_total;
use crate::intent::TransferIntent;

/// The unsigned transaction before gas estimation: the chain binding for the
/// signer, the value, and the fee envelope.  The driver adds sender,
/// recipient, and signature.
#[derive(Clone, Copy, Debug)]
pub struct TxDraft {
    pub chain_id: u64,
    pub amount: u128,
    pub max_fee_per_gas: u128,
    pub max_priority_fee_per_gas: u128,
}

/// The complete transaction request: the draft plus the gas limit.
#[derive(Clone, Copy, Debug)]
pub struct TxPlan {
    pub draft: TxDraft,
    pub gas_limit: u128,
}

/// Where a broadcast transaction stands.
#[derive(Clone, Copy, Debug, PartialEq, Eq, Structural)]
pub enum TxStatus {
    /// Broadcast; no receipt seen yet.
    Pending,
    /// A receipt was observed.
    Confirmed,
    /// The bounded wait elapsed without a receipt; the hash stays valid for a
    /// later lookup.
    Unknown,
}

/// A broadcast transaction: its hash, printable before confirmation is
/// known, and its status.
#[derive(Clone, Debug)]
pub struct SubmittedTransaction {
    pub hash: Vec<u8>,
    pub status: TxStatus,
}

/// How a finished workflow ended.
#[derive(Debug)]
pub enum Outcome {
    /// The transfer was broadcast and tracked to a final status.
    Completed { tx: SubmittedTransaction },
    /// The workflow stopped before anything reached the network.
    Failed { error: TransferError },
    /// The broadcast succeeded but waiting for the receipt errored; the
    /// transaction may still be included, so its hash is kept.
    WaitFailed { hash: Vec<u8> },
}

impl Outcome {
    /// The error the outcome stands for, if any: a pre-broadcast failure
    /// carries its own error, and an errored receipt wait is
    /// `ConfirmationWaitFailed` — distinct from `SubmissionFailed`, because
    /// the broadcast did happen and must not be repeated blindly.
    pub fn error(&self) -> (r: Option<TransferError>)
        ensures
            match self {
                Outcome::Completed { .. } => r is None,
                Outcome::Failed { error } => r == Some(*error),
                Outcome::WaitFailed { .. } => r == Some(TransferError::ConfirmationWaitFailed),
            },
    {
        match self {
            Outcome::Completed { .. } => None,
            Outcome::Failed { error } => Some(*error),
            Outcome::WaitFailed { .. } => Some(TransferError::ConfirmationWaitFailed),
        }
    }
}

/// The step the workflow is waiting on.  Phases past the balance check carry
/// the observed sender balance; the gas phases carry the transaction being
/// assembled.
#[derive(Debug)]
pub enum Phase {
    NeedChainId,
    NeedBalances { chain_id: u64 },
    NeedBaseFee { chain_id: u64, sender_balance: u128 },
    NeedFeeSuggestion { chain_id: u64, sender_balance: u128, base_fee: u128 },
    NeedGasEstimate { sender_balance: u128, draft: TxDraft },
    NeedBroadcast { sender_balance: u128, plan: TxPlan },
    NeedReceipt { tx: SubmittedTransaction },
    Finished { outcome: Outcome },
}

/// What the driver reports back for the workflow's last request.  A `None`
/// payload stands for a definitive miss (an absent field, a rejected call);
/// `QueryFailed` stands for a read-only query that errored.
#[derive(Debug)]
pub enum ChainEvent {
    ChainId { id: u64 },
    Balances { sender: u128, recipient: u128 },
    LatestBaseFee { base_fee: Option<u128> },
    FeeSuggestion { max_fee: u128, tip: u128 },
    GasEstimate { gas: Option<u128> },
    BroadcastResult { hash: Option<Vec<u8>> },
    ReceiptObserved { success: bool },
    ReceiptTimeout,
    ReceiptWaitError,
    QueryFailed,
}

/// What the workflow asks the driver to do next.  `Stop` means the workflow
/// is finished and its outcome is in the `Finished` phase.
#[derive(Debug)]
pub enum Action {
    QueryChainId,
    QueryBalances,
    QueryBaseFee,
    QueryFeeSuggestion,
    EstimateGas { draft: TxDraft },
    Broadcast { plan: TxPlan },
    AwaitReceipt,
    Stop,
}

/// An action that changes, or commits the workflow to changing, chain state:
/// estimating gas against the node or broadcasting the transaction.
pub open spec fn is_mutating(a: Action) -> bool {
    a matches Action::EstimateGas { .. } || a matches Action::Broadcast { .. }
}

impl Phase {
    /// Which event answers this phase.  A finished workflow accepts nothing.
    pub open spec fn expects(self, e: ChainEvent) -> bool {
        match self {
            Phase::NeedChainId => e matches ChainEvent::ChainId { .. } || e
                matches ChainEvent::QueryFailed,
            Phase::NeedBalances { .. } => e matches ChainEvent::Balances { .. } || e
                matches ChainEvent::QueryFailed,
            Phase::NeedBaseFee { .. } => e matches ChainEvent::LatestBaseFee { .. } || e
                matches ChainEvent::QueryFailed,
            Phase::NeedFeeSuggestion { .. } => e matches ChainEvent::FeeSuggestion { .. } || e
                matches ChainEvent::QueryFailed,
            Phase::NeedGasEstimate { .. } => e matches ChainEvent::GasEstimate { .. },
            Phase::NeedBroadcast { .. } => e matches ChainEvent::BroadcastResult { .. },
            Phase::NeedReceipt { .. } => e matches ChainEvent::ReceiptObserved { .. } || e
                matches ChainEvent::ReceiptTimeout || e matches ChainEvent::ReceiptWaitError,
            Phase::Finished { .. } => false,
        }
    }
}

/// The guarded transfer workflow: one transfer intent driven from chain-id
/// resolution to a final outcome, failing fast before any mutating call.
#[derive(Debug)]
pub struct Workflow {
    pub amount: u128,
    pub phase: Phase,
}

/// A workflow that has failed with the given error before broadcast.
pub open spec fn spec_fail(amount: u128, error: TransferError) -> Workflow {
    Workflow { amount, phase: Phase::Finished { outcome: Outcome::Failed { error } } }
}

/// The transition relation of the workflow, one event at a time.  Unexpected
/// pairings are settled by `Phase::expects` and never reached.
pub open spec fn spec_step(w: Workflow, e: ChainEvent) -> (Workflow, Action) {
    let a = w.amount;
    match (w.phase, e) {
        (Phase::NeedChainId, ChainEvent::ChainId { id }) => (
            Workflow { amount: a, phase: Phase::NeedBalances { chain_id: id } },
            Action::QueryBalances,
        ),
        (Phase::NeedBalances { chain_id }, ChainEvent::Balances { sender, .. }) => {
            if a > sender {
                (spec_fail(a, TransferError::InsufficientFunds), Action::Stop)
            } else {
                (
                    Workflow {
                        amount: a,
                        phase: Phase::NeedBaseFee { chain_id, sender_balance: sender },
                    },
                    Action::QueryBaseFee,
                )
            }
        },
        (
            Phase::NeedBaseFee { chain_id, sender_balance },
            ChainEvent::LatestBaseFee { base_fee },
        ) => {
            match base_fee {
                None => (spec_fail(a, TransferError::FeeDataUnavailable), Action::Stop),
                Some(b) => (
                    Workflow {
                        amount: a,
                        phase: Phase::NeedFeeSuggestion {
                            chain_id,
                            sender_balance,
                            base_fee: b,
                        },
                    },
                    Action::QueryFeeSuggestion,
                ),
            }
        },
        (
            Phase::NeedFeeSuggestion { chain_id, sender_balance, base_fee },
            ChainEvent::FeeSuggestion { max_fee, tip },
        ) => {
            if spec_final_max_fee(base_fee as int, tip as int, max_fee as int) > u128::MAX {
                (spec_fail(a, TransferError::FeeDataUnavailable), Action::Stop)
            } else {
                let draft = TxDraft {
                    chain_id,
                    amount: a,
                    max_fee_per_gas: spec_final_max_fee(
                        base_fee as int,
                        tip as int,
                        max_fee as int,
                    ) as u128,
                    max_priority_fee_per_gas: tip,
                };
                (
                    Workflow { amount: a, phase: Phase::NeedGasEstimate { sender_balance, draft } },
                    Action::EstimateGas { draft },
                )
            }
        },
        (Phase::NeedGasEstimate { sender_balance, draft }, ChainEvent::GasEstimate { gas }) => {
            match gas {
                None => (spec_fail(a, TransferError::EstimationFailed), Action::Stop),
                Some(g) => {
                    if spec_gas_limit(g as int) > u128::MAX {
                        (spec_fail(a, TransferError::EstimationFailed), Action::Stop)
                    } else {
                        let limit = spec_gas_limit(g as int) as u128;
                        if a + limit * draft.max_fee_per_gas > sender_balance {
                            (spec_fail(a, TransferError::InsufficientFundsForGas), Action::Stop)
                        } else {
                            let plan = TxPlan { draft, gas_limit: limit };
                            (
                                Workflow {
                                    amount: a,
                                    phase: Phase::NeedBroadcast { sender_balance, plan },
                                },
                                Action::Broadcast { plan },
                            )
                        }
                    }
                },
            }
        },
        (Phase::NeedBroadcast { .. }, ChainEvent::BroadcastResult { hash }) => {
            match hash {
                None => (spec_fail(a, TransferError::SubmissionFailed), Action::Stop),
                Some(h) => (
                    Workflow {
                        amount: a,
                        phase: Phase::NeedReceipt {
                            tx: SubmittedTransaction { hash: h, status: TxStatus::Pending },
                        },
                    },
                    Action::AwaitReceipt,
                ),
            }
        },
        (Phase::NeedReceipt { tx }, ChainEvent::ReceiptObserved { .. }) => (
            Workflow {
                amount: a,
                phase: Phase::Finished {
                    outcome: Outcome::Completed {
                        tx: SubmittedTransaction { hash: tx.hash, status: TxStatus::Confirmed },
                    },
                },
            },
            Action::Stop,
        ),
        (Phase::NeedReceipt { tx }, ChainEvent::ReceiptTimeout) => (
            Workflow {
                amount: a,
                phase: Phase::Finished {
                    outcome: Outcome::Completed {
                        tx: SubmittedTransaction { hash: tx.hash, status: TxStatus::Unknown },
                    },
                },
            },
            Action::Stop,
        ),
        (Phase::NeedReceipt { tx }, ChainEvent::ReceiptWaitError) => (
            Workflow {
                amount: a,
                phase: Phase::Finished { outcome: Outcome::WaitFailed { hash: tx.hash } },
            },
            Action::Stop,
        ),
        (Phase::NeedChainId, ChainEvent::QueryFailed) => (
            spec_fail(a, TransferError::ConnectionError),
            Action::Stop,
        ),
        (Phase::NeedBalances { .. }, ChainEvent::QueryFailed) => (
            spec_fail(a, TransferError::ConnectionError),
            Action::Stop,
        ),
        (Phase::NeedBaseFee { .. }, ChainEvent::QueryFailed) => (
            spec_fail(a, TransferError::ConnectionError),
            Action::Stop,
        ),
        (Phase::NeedFeeSuggestion { .. }, ChainEvent::QueryFailed) => (
            spec_fail(a, TransferError::ConnectionError),
            Action::Stop,
        ),
        _ => (w, Action::Stop),
    }
}

impl Workflow {
    /// Well-formedness: the amount is positive; every phase past the cheap
    /// balance check has seen a covering balance; a broadcast-ready plan
    /// passed the worst-case affordability check; a tracked transaction is
    /// still pending.
    pub open spec fn wf(self) -> bool {
        &&& self.amount > 0
        &&& match self.phase {
            Phase::NeedBaseFee { sender_balance, .. } => self.amount <= sender_balance,
            Phase::NeedFeeSuggestion { sender_balance, .. } => self.amount <= sender_balance,
            Phase::NeedGasEstimate { sender_balance, draft } => self.amount <= sender_balance
                && draft.amount == self.amount,
            Phase::NeedBroadcast { sender_balance, plan } => self.amount <= sender_balance
                && plan.draft.amount == self.amount && self.amount + plan.gas_limit
                * plan.draft.max_fee_per_gas <= sender_balance,
            Phase::NeedReceipt { tx } => tx.status is Pending,
            _ => true,
        }
    }

    /// Starts the workflow for an intent: the first step resolves the chain
    /// identifier, to bind the signing credential before any use.
    pub fn start(intent: &TransferIntent) -> (r: (Workflow, Action))
        requires
            intent.wf(),
        ensures
            r.0 == (Workflow { amount: intent.amount, phase: Phase::NeedChainId }),
            r.0.wf(),
            r.1 == Action::QueryChainId,
    {
        (Workflow { amount: intent.amount, phase: Phase::NeedChainId }, Action::QueryChainId)
    }

    /// Advances the workflow by one driver event, returning the successor
    /// state and the next requested action, exactly as `spec_step` lays the
    /// transition down.
    pub fn step(self, event: ChainEvent) -> (r: (Workflow, Action))
        requires
            self.wf(),
            self.phase.expects(event),
        ensures
            r == spec_step(self, event),
            r.0.wf(),
    {
        let amount = self.amount;
        match (self.phase, event) {
            (Phase::NeedChainId, ChainEvent::ChainId { id }) => (
                Workflow { amount, phase: Phase::NeedBalances { chain_id: id } },
                Action::QueryBalances,
            ),
            (Phase::NeedBalances { chain_id }, ChainEvent::Balances { sender, recipient: _ }) => {
                if amount > sender {
                    (fail(amount, TransferError::InsufficientFunds), Action::Stop)
                } else {
                    (
                        Workflow {
                            amount,
                            phase: Phase::NeedBaseFee { chain_id, sender_balance: sender },
                        },
                        Action::QueryBaseFee,
                    )
                }
            },
            (
                Phase::NeedBaseFee { chain_id, sender_balance },
                ChainEvent::LatestBaseFee { base_fee },
            ) => {
                match base_fee {
                    None => (fail(amount, TransferError::FeeDataUnavailable), Action::Stop),
                    Some(b) => (
                        Workflow {
                            amount,
                            phase: Phase::NeedFeeSuggestion {
                                chain_id,
                                sender_balance,
                                base_fee: b,
                            },
                        },
                        Action::QueryFeeSuggestion,
                    ),
                }
            },
            (
                Phase::NeedFeeSuggestion { chain_id, sender_balance, base_fee },
                ChainEvent::FeeSuggestion { max_fee, tip },
            ) => {
                match FeeEnvelope::compute(base_fee, tip, max_fee) {
                    None => (fail(amount, TransferError::FeeDataUnavailable), Action::Stop),
                    Some(envelope) => {
                        let draft = TxDraft {
                            chain_id,
                            amount,
                            max_fee_per_gas: envelope.final_max_fee,
                            max_priority_fee_per_gas: tip,
                        };
                        (
                            Workflow {
                                amount,
                                phase: Phase::NeedGasEstimate { sender_balance, draft },
                            },
                            Action::EstimateGas { draft },
                        )
                    },
                }
            },
            (
                Phase::NeedGasEstimate { sender_balance, draft },
                ChainEvent::GasEstimate { gas },
            ) => {
                match gas {
                    None => (fail(amount, TransferError::EstimationFailed), Action::Stop),
                    Some(g) => {
                        match GasBudget::compute(g) {
                            None => (fail(amount, TransferError::EstimationFailed), Action::Stop),
                            Some(budget) => {
                                let limit = budget.gas_limit;
                                match worst_case_total(amount, limit, draft.max_fee_per_gas) {
                                    None => (
                                        fail(amount, TransferError::InsufficientFundsForGas),
                                        Action::Stop,
                                    ),
                                    Some(total) => {
                                        if total > sender_balance {
                                            (
                                                fail(
                                                    amount,
                                                    TransferError::InsufficientFundsForGas,
                                                ),
                                                Action::Stop,
                                            )
                                        } else {
                                            let plan = TxPlan { draft, gas_limit: limit };
                                            (
                                                Workflow {
                                                    amount,
                                                    phase: Phase::NeedBroadcast {
                                                        sender_balance,
                                                        plan,
                                                    },
                                                },
                                                Action::Broadcast { plan },
                                            )
                                        }
                                    },
                                }
                            },
                        }
                    },
                }
            },
            (Phase::NeedBroadcast { .. }, ChainEvent::BroadcastResult { hash }) => {
                match hash {
                    None => (fail(amount, TransferError::SubmissionFailed), Action::Stop),
                    Some(h) => (
                        Workflow {
                            amount,
                            phase: Phase::NeedReceipt {
                                tx: SubmittedTransaction { hash: h, status: TxStatus::Pending },
                            },
                        },
                        Action::AwaitReceipt,
                    ),
                }
            },
            (Phase::NeedReceipt { tx }, ChainEvent::ReceiptObserved { .. }) => {
                let SubmittedTransaction { hash, status: _ } = tx;
                (
                    Workflow {
                        amount,
                        phase: Phase::Finished {
                            outcome: Outcome::Completed {
                                tx: SubmittedTransaction { hash, status: TxStatus::Confirmed },
                            },
                        },
                    },
                    Action::Stop,
                )
            },
            (Phase::NeedReceipt { tx }, ChainEvent::ReceiptTimeout) => {
                let SubmittedTransaction { hash, status: _ } = tx;
                (
                    Workflow {
                        amount,
                        phase: Phase::Finished {
                            outcome: Outcome::Completed {
                                tx: SubmittedTransaction { hash, status: TxStatus::Unknown },
                            },
                        },
                    },
                    Action::Stop,
                )
            },
            (Phase::NeedReceipt { tx }, ChainEvent::ReceiptWaitError) => {
                let SubmittedTransaction { hash, status: _ } = tx;
                (
                    Workflow {
                        amount,
                        phase: Phase::Finished { outcome: Outcome::WaitFailed { hash } },
                    },
                    Action::Stop,
                )
            },
            (Phase::NeedChainId, ChainEvent::QueryFailed) => (
                fail(amount, TransferError::ConnectionError),
                Action::Stop,
            ),
            (Phase::NeedBalances { .. }, ChainEvent::QueryFailed) => (
                fail(amount, TransferError::ConnectionError),
                Action::Stop,
            ),
            (Phase::NeedBaseFee { .. }, ChainEvent::QueryFailed) => (
                fail(amount, TransferError::ConnectionError),
                Action::Stop,
            ),
            (Phase::NeedFeeSuggestion { .. }, ChainEvent::QueryFailed) => (
                fail(amount, TransferError::ConnectionError),
                Action::Stop,
            ),
            _ => {
                proof {
                    assert(false);
                }
                (Workflow { amount, phase: Phase::NeedChainId }, Action::Stop)
            },
        }
    }
}

/// A finished, failed workflow.
fn fail(amount: u128, error: TransferError) -> (r: Workflow)
    ensures
        r == spec_fail(amount, error),
        amount > 0 ==> r.wf(),
{
    Workflow { amount, phase: Phase::Finished { outcome: Outcome::Failed { error } } }
}

/// An intent whose amount exceeds the observed sender balance fails at the
/// balance check with `InsufficientFunds`, and the workflow stops there.
pub proof fn lemma_underfunded_fails_fast(w: Workflow, sender: u128, recipient: u128)
    requires
        w.wf(),
        w.phase matches Phase::NeedBalances { .. },
        sender < w.amount,
    ensures
        ({
            let (w2, a) = spec_step(w, ChainEvent::Balances { sender, recipient });
            &&& w2 == spec_fail(w.amount, TransferError::InsufficientFunds)
            &&& a == Action::Stop
        }),
{
}

/// A finished workflow accepts no further event: after a failure, no action
/// at all — in particular no gas estimate and no broadcast — is ever
/// requested again.
pub proof fn lemma_finished_accepts_nothing(w: Workflow, e: ChainEvent)
    requires
        w.phase matches Phase::Finished { .. },
    ensures
        !w.phase.expects(e),
{
}

/// Every step preserves well-formedness, and mutating actions are guarded: a
/// gas estimate is requested only after the amount was seen to be covered,
/// with the fee cap computed by the margin policy from the observed fee
/// data; a broadcast only after the worst-case cost — amount plus the whole
/// gas budget at the fee cap — was seen to be covered as well, with the gas
/// limit the margined estimate.
pub proof fn lemma_mutations_are_guarded(w: Workflow, e: ChainEvent)
    requires
        w.wf(),
        w.phase.expects(e),
    ensures
        ({
            let (w2, a) = spec_step(w, e);
            &&& w2.wf()
            &&& (is_mutating(a) ==> w.phase matches Phase::NeedFeeSuggestion { .. } || w.phase
                matches Phase::NeedGasEstimate { .. })
            &&& (a matches Action::EstimateGas { draft } ==> w.phase matches
                Phase::NeedFeeSuggestion { sender_balance, base_fee, .. } && e matches
                ChainEvent::FeeSuggestion { max_fee, tip } && w.amount <= sender_balance
                && draft.amount == w.amount && draft.max_priority_fee_per_gas == tip
                && draft.max_fee_per_gas == spec_final_max_fee(
                base_fee as int,
                tip as int,
                max_fee as int,
            ))
            &&& (a matches Action::Broadcast { plan } ==> w.phase matches Phase::NeedGasEstimate {
                sender_balance,
                draft,
            } && e matches ChainEvent::GasEstimate { gas } && gas matches Some(g) && plan.draft
                == draft && plan.gas_limit == spec_gas_limit(g as int) && plan.draft.amount
                == w.amount && w.amount + plan.gas_limit * plan.draft.max_fee_per_gas
                <= sender_balance)
        }),
{
}

/// Once a transaction is tracked, a receipt observed with any status marks it
/// `Confirmed`; an elapsed wait window marks it `Unknown` with the hash still
/// populated — neither case is an error.  Only an explicit wait error ends
/// the workflow with the hash set aside and `ConfirmationWaitFailed` implied.
pub proof fn lemma_receipt_resolution(w: Workflow, tx0: SubmittedTransaction, success: bool)
    requires
        w.wf(),
        w.phase == (Phase::NeedReceipt { tx: tx0 }),
    ensures
        ({
            let (w2, a) = spec_step(w, ChainEvent::ReceiptObserved { success });
            &&& w2.phase == (Phase::Finished {
                outcome: Outcome::Completed {
                    tx: SubmittedTransaction { hash: tx0.hash, status: TxStatus::Confirmed },
                },
            })
            &&& a == Action::Stop
        }),
        ({
            let (w2, a) = spec_step(w, ChainEvent::ReceiptTimeout);
            &&& w2.phase == (Phase::Finished {
                outcome: Outcome::Completed {
                    tx: SubmittedTransaction { hash: tx0.hash, status: TxStatus::Unknown },
                },
            })
            &&& a == Action::Stop
        }),
        ({
            let (w2, a) = spec_step(w, ChainEvent::ReceiptWaitError);
            &&& w2.phase == (Phase::Finished {
                outcome: Outcome::WaitFailed { hash: tx0.hash },
            })
            &&& a == Action::Stop
        }),
{
}

} // verus!
