//! The two capabilities of a sink, and the sink that only logs.

use crate::effect::{Effect, EffectView, LogRecord, LogRecordView};
use crate::hex::{encode, hex_text};
use crate::types::{
    CertifiedCheckpointSummary, CertifiedCheckpointSummaryView, CheckpointContents,
    CheckpointSummary, ExecutionDigests,
};
use vstd::prelude::*;

verus! {

/// Takes each checkpoint that was built here, before it is certified.
pub trait CheckpointOutput {
    /// Called once for each checkpoint. `last_checkpoint_of_epoch` says that
    /// the epoch ends with it. Answers with what the caller has to do, in
    /// order.
    fn checkpoint_created(
        &self,
        summary: &CheckpointSummary,
        contents: &CheckpointContents,
        last_checkpoint_of_epoch: bool,
    ) -> (effects: Vec<Effect>);
}

/// Takes each checkpoint once it has its quorum certificate.
pub trait CertifiedCheckpointOutput {
    /// Called once for each certified checkpoint. Answers with what the
    /// caller has to do, in order.
    fn certified_checkpoint_created(&self, summary: &CertifiedCheckpointSummary) -> (effects: Vec<
        Effect,
    >);
}

/// The record of the transactions that go into a checkpoint.
pub open spec fn transactions_record(
    summary: CheckpointSummary,
    transactions: Seq<ExecutionDigests>,
) -> LogRecordView {
    LogRecordView::IncludedTransactions { sequence_number: summary.sequence_number, transactions }
}

/// The record of a checkpoint that was built.
pub open spec fn created_record(
    summary: CheckpointSummary,
    transactions: Seq<ExecutionDigests>,
    last_checkpoint_of_epoch: bool,
) -> LogRecordView {
    LogRecordView::CheckpointCreated {
        digest: hex_text(summary.digest.bytes@),
        sequence_number: summary.sequence_number,
        previous_digest: summary.previous_digest,
        transaction_count: transactions.len() as usize,
        content_digest: hex_text(summary.content_digest.bytes@),
        last_checkpoint_of_epoch,
    }
}

/// The record of a checkpoint that was certified.
pub open spec fn certified_record(certified: CertifiedCheckpointSummaryView) -> LogRecordView {
    LogRecordView::CheckpointCertified {
        sequence_number: certified.summary.sequence_number,
        digest: hex_text(certified.summary.digest.bytes@),
    }
}

/// Builds the record of a certified checkpoint.
pub fn certified_log_record(summary: &CertifiedCheckpointSummary) -> (record: LogRecord)
    ensures
        record@ == certified_record(summary@),
{
    LogRecord::CheckpointCertified {
        sequence_number: summary.summary.sequence_number,
        digest: encode(summary.summary.digest.bytes.as_slice()),
    }
}

/// The sink that only logs. It holds nothing, and what it asks for is never
/// more than log records, so a call on it cannot fail.
///
/// For a checkpoint that was built it asks for two records: first the one of
/// its transactions, then the one of the checkpoint. For a certified
/// checkpoint it asks for one.
#[derive(Clone, Copy, Debug)]
pub struct LogCheckpointOutput;

impl CheckpointOutput for LogCheckpointOutput {
    fn checkpoint_created(
        &self,
        summary: &CheckpointSummary,
        contents: &CheckpointContents,
        last_checkpoint_of_epoch: bool,
    ) -> (effects: Vec<Effect>)
        ensures
            effects@.len() == 2,
            effects@[0]@ == EffectView::Log(transactions_record(*summary, contents@)),
            effects@[1]@ == EffectView::Log(
                created_record(*summary, contents@, last_checkpoint_of_epoch),
            ),
    {
        let included = LogRecord::IncludedTransactions {
            sequence_number: summary.sequence_number,
            transactions: contents.to_vec(),
        };
        let created = LogRecord::CheckpointCreated {
            digest: encode(summary.digest().bytes.as_slice()),
            sequence_number: summary.sequence_number,
            previous_digest: summary.previous_digest,
            transaction_count: contents.size(),
            content_digest: encode(summary.content_digest.bytes.as_slice()),
            last_checkpoint_of_epoch,
        };
        let mut effects: Vec<Effect> = Vec::new();
        effects.push(Effect::Log(included));
        effects.push(Effect::Log(created));
        effects
    }
}

impl CertifiedCheckpointOutput for LogCheckpointOutput {
    fn certified_checkpoint_created(&self, summary: &CertifiedCheckpointSummary) -> (effects: Vec<
        Effect,
    >)
        ensures
            effects@.len() == 1,
            effects@[0]@ == EffectView::Log(certified_record(summary@)),
    {
        let mut effects: Vec<Effect> = Vec::new();
        effects.push(Effect::Log(certified_log_record(summary)));
        effects
    }
}

impl LogCheckpointOutput {
    /// The logging sink behind the capability of taking built checkpoints.
    pub fn boxed() -> Box<dyn CheckpointOutput> {
        Box::new(LogCheckpointOutput)
    }

    /// The logging sink behind the capability of taking certified
    /// checkpoints.
    pub fn boxed_certified() -> Box<dyn CertifiedCheckpointOutput> {
        Box::new(LogCheckpointOutput)
    }
}

} // verus!
