//! What a sink asks its caller to do, and what the outcome means.

use crate::types::{
    CertifiedCheckpointSummary, CertifiedCheckpointSummaryView, ConsensusTransaction, Digest,
    ExecutionDigests, OutputError,
};
use vstd::prelude::*;

verus! {

/// How loud a log record is.
#[derive(Clone, Copy, Debug, PartialEq, Eq, Structural)]
pub enum LogLevel {
    Debug,
    Info,
    Error,
}

/// A structured log record.
#[derive(Debug, PartialEq, Eq)]
pub enum LogRecord {
    /// The transactions that go into a checkpoint.
    IncludedTransactions { sequence_number: u64, transactions: Vec<ExecutionDigests> },
    /// A checkpoint was built. The two digests are hexadecimal text.
    CheckpointCreated {
        digest: String,
        sequence_number: u64,
        previous_digest: Option<Digest>,
        transaction_count: usize,
        content_digest: String,
        last_checkpoint_of_epoch: bool,
    },
    /// A checkpoint got its quorum certificate. The digest is hexadecimal
    /// text.
    CheckpointCertified { sequence_number: u64, digest: String },
    /// A certificate could not be handed to state sync.
    ForwardingFailed { error: OutputError },
}

/// A log record as mathematical values.
pub enum LogRecordView {
    IncludedTransactions { sequence_number: u64, transactions: Seq<ExecutionDigests> },
    CheckpointCreated {
        digest: Seq<char>,
        sequence_number: u64,
        previous_digest: Option<Digest>,
        transaction_count: usize,
        content_digest: Seq<char>,
        last_checkpoint_of_epoch: bool,
    },
    CheckpointCertified { sequence_number: u64, digest: Seq<char> },
    ForwardingFailed { error: OutputError },
}

impl LogRecordView {
    /// The level at which a record of this kind is emitted.
    pub open spec fn level(self) -> LogLevel {
        match self {
            LogRecordView::IncludedTransactions { .. } => LogLevel::Debug,
            LogRecordView::CheckpointCreated { .. } => LogLevel::Info,
            LogRecordView::CheckpointCertified { .. } => LogLevel::Info,
            LogRecordView::ForwardingFailed { .. } => LogLevel::Error,
        }
    }
}

impl View for LogRecord {
    type V = LogRecordView;

    open spec fn view(&self) -> LogRecordView {
        match *self {
            LogRecord::IncludedTransactions { sequence_number, transactions } => {
                LogRecordView::IncludedTransactions { sequence_number, transactions: transactions@ }
            },
            LogRecord::CheckpointCreated {
                digest,
                sequence_number,
                previous_digest,
                transaction_count,
                content_digest,
                last_checkpoint_of_epoch,
            } => LogRecordView::CheckpointCreated {
                digest: digest@,
                sequence_number,
                previous_digest,
                transaction_count,
                content_digest: content_digest@,
                last_checkpoint_of_epoch,
            },
            LogRecord::CheckpointCertified { sequence_number, digest } => {
                LogRecordView::CheckpointCertified { sequence_number, digest: digest@ }
            },
            LogRecord::ForwardingFailed { error } => LogRecordView::ForwardingFailed { error },
        }
    }
}

impl LogRecord {
    /// The level at which this record is emitted.
    pub fn level(&self) -> (level: LogLevel)
        ensures
            level == self@.level(),
    {
        match self {
            LogRecord::IncludedTransactions { .. } => LogLevel::Debug,
            LogRecord::CheckpointCreated { .. } => LogLevel::Info,
            LogRecord::CheckpointCertified { .. } => LogLevel::Info,
            LogRecord::ForwardingFailed { .. } => LogLevel::Error,
        }
    }

    /// The sequence number of the checkpoint that the record is about, where
    /// it names one.
    pub fn sequence_number(&self) -> (number: Option<u64>)
        ensures
            number == match self@ {
                LogRecordView::IncludedTransactions { sequence_number, .. } => Some(
                    sequence_number,
                ),
                LogRecordView::CheckpointCreated { sequence_number, .. } => Some(sequence_number),
                LogRecordView::CheckpointCertified { sequence_number, .. } => Some(
                    sequence_number,
                ),
                LogRecordView::ForwardingFailed { .. } => None,
            },
    {
        match self {
            LogRecord::IncludedTransactions { sequence_number, .. } => Some(*sequence_number),
            LogRecord::CheckpointCreated { sequence_number, .. } => Some(*sequence_number),
            LogRecord::CheckpointCertified { sequence_number, .. } => Some(*sequence_number),
            LogRecord::ForwardingFailed { .. } => None,
        }
    }
}

/// One thing that a sink asks its caller to do. The caller carries the
/// effects of a call out in their order.
#[derive(Debug, PartialEq, Eq)]
pub enum Effect {
    /// Emit the record.
    Log(LogRecord),
    /// Submit the transaction to consensus, once.
    SubmitToConsensus(ConsensusTransaction),
    /// Put the certificate on the queue to state sync, waiting while the
    /// queue is full.
    SendToStateSync(CertifiedCheckpointSummary),
}

/// An effect as mathematical values.
pub enum EffectView {
    Log(LogRecordView),
    SubmitToConsensus(ConsensusTransaction),
    SendToStateSync(CertifiedCheckpointSummaryView),
}

impl View for Effect {
    type V = EffectView;

    open spec fn view(&self) -> EffectView {
        match *self {
            Effect::Log(record) => EffectView::Log(record@),
            Effect::SubmitToConsensus(transaction) => EffectView::SubmitToConsensus(transaction),
            Effect::SendToStateSync(certified) => EffectView::SendToStateSync(certified@),
        }
    }
}

/// The record of a certificate that state sync did not take, with the cause.
pub open spec fn failure_record(error: OutputError) -> LogRecordView {
    LogRecordView::ForwardingFailed { error }
}

/// What the outcome of one effect means for the sink's call.
#[derive(Debug, PartialEq, Eq)]
pub struct Settlement {
    /// A record to emit on top, if any.
    pub record: Option<LogRecord>,
    /// The result that the effect contributes to the call.
    pub result: Result<(), OutputError>,
}

/// What [`settle`] answers, as mathematical values.
///
/// Logging never fails, so its outcome is not looked at. What consensus
/// answers to a submission is the call's result, unchanged. A certificate
/// that state sync did not take costs a log record and nothing else: the call
/// succeeds all the same.
pub open spec fn settlement(effect: EffectView, outcome: Result<(), OutputError>) -> (
    Option<LogRecordView>,
    Result<(), OutputError>,
) {
    match effect {
        EffectView::Log(_) => (None, Ok(())),
        EffectView::SubmitToConsensus(_) => (None, outcome),
        EffectView::SendToStateSync(_) => match outcome {
            Ok(_) => (None, Ok(())),
            Err(error) => (Some(failure_record(error)), Ok(())),
        },
    }
}

impl Settlement {
    /// The record and the result, as mathematical values.
    pub open spec fn parts(self) -> (Option<LogRecordView>, Result<(), OutputError>) {
        (
            match self.record {
                Some(record) => Some(record@),
                None => None,
            },
            self.result,
        )
    }
}

/// Says what the caller does after it has carried out `effect` and got
/// `outcome`: the record to emit on top, and the result for the sink's call.
pub fn settle(effect: &Effect, outcome: Result<(), OutputError>) -> (settled: Settlement)
    ensures
        settled.parts() == settlement(effect@, outcome),
{
    match effect {
        Effect::Log(_) => Settlement { record: None, result: Ok(()) },
        Effect::SubmitToConsensus(_) => Settlement { record: None, result: outcome },
        Effect::SendToStateSync(_) => match outcome {
            Ok(_) => Settlement { record: None, result: Ok(()) },
            Err(error) => Settlement {
                record: Some(LogRecord::ForwardingFailed { error }),
                result: Ok(()),
            },
        },
    }
}

/// Logging never fails: whatever came back from emitting a record, the call
/// goes on as a success and nothing is logged on top.
pub proof fn logging_never_fails(record: LogRecordView, outcome: Result<(), OutputError>)
    ensures
        (settlement(EffectView::Log(record), outcome).0 is None),
        (settlement(EffectView::Log(record), outcome).1 is Ok),
{
}

/// What consensus answers to a submission is the result of the call,
/// unchanged, be it success or failure, and nothing is logged on top.
pub proof fn submission_outcome_is_the_result(
    transaction: ConsensusTransaction,
    outcome: Result<(), OutputError>,
)
    ensures
        (settlement(EffectView::SubmitToConsensus(transaction), outcome).0 is None),
        settlement(EffectView::SubmitToConsensus(transaction), outcome).1 == outcome,
{
}

/// A certificate that could not be handed to state sync never fails the
/// call: the failure is logged, as an error and with its cause, exactly when
/// there was one.
pub proof fn forwarding_failure_is_logged_not_returned(
    certified: CertifiedCheckpointSummaryView,
    outcome: Result<(), OutputError>,
)
    ensures
        (settlement(EffectView::SendToStateSync(certified), outcome).1 is Ok),
        (outcome is Ok) ==> (settlement(EffectView::SendToStateSync(certified), outcome).0
            is None),
        (outcome is Err) ==> settlement(EffectView::SendToStateSync(certified), outcome).0
            == Some(failure_record(outcome->Err_0)),
        failure_record(outcome->Err_0).level() == LogLevel::Error,
{
}

} // verus!
