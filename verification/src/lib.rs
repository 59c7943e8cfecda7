//! Dispatch of checkpoint outputs.
//!
//! A locally built checkpoint, and later its quorum-certified form, is handed
//! to a sink. A sink never performs I/O itself: it answers with the ordered
//! list of [`Effect`]s that its caller has to carry out (emit a log record,
//! submit a transaction to consensus, hand a certificate to state sync), and
//! [`settle`] says what the outcome of an effect means for the call.
//! Every function here is verified against the contract it carries.

pub mod consensus;
pub mod effect;
pub mod hex;
pub mod history;
pub mod output;
pub mod signer;
pub mod state_sync;
pub mod types;

pub use consensus::{
    checkpoint_signature_transaction, AuthoritySigner, SubmitCheckpointToConsensus,
};
pub use effect::{settle, Effect, EffectView, LogLevel, LogRecord, LogRecordView, Settlement};
pub use output::{
    certified_log_record, CertifiedCheckpointOutput, CheckpointOutput, LogCheckpointOutput,
};
pub use signer::KeyPairSigner;
pub use state_sync::{
    CheckpointQueue, Dequeued, Enqueued, ForwardToStateSyncTask, QueueView,
    SendCheckpointToStateSync, TaskState, QUEUE_CAPACITY,
};
pub use types::{
    AuthorityName, AuthoritySignature, CertifiedCheckpointSummary,
    CertifiedCheckpointSummaryView, CheckpointContents, CheckpointSignatureMessage,
    CheckpointSummary, ConsensusTransaction, ConsensusTransactionKind, Digest, ExecutionDigests,
    OutputError, SignedCheckpointSummary, VerifiedCheckpoint,
};
