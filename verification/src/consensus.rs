//! The sink that tells consensus this validator's signature over a
//! checkpoint.

use crate::effect::{Effect, EffectView};
use crate::output::{created_record, transactions_record, CheckpointOutput, LogCheckpointOutput};
use crate::types::{
    AuthorityName, AuthoritySignature, CheckpointContents, CheckpointSignatureMessage,
    CheckpointSummary, ConsensusTransaction, ConsensusTransactionKind, SignedCheckpointSummary,
};
use vstd::prelude::*;

verus! {

/// The capability to sign with this validator's key.
pub trait AuthoritySigner {
    /// Whether `signature` is one that this signer gives for `message`. A
    /// scheme may give more than one; a signer that says nothing gives any.
    open spec fn signs(&self, message: Seq<u8>, signature: AuthoritySignature) -> bool {
        true
    }

    /// Signs `message`. It does not fail.
    fn sign(&self, message: &[u8]) -> (signature: AuthoritySignature)
        ensures
            self.signs(message@, signature),
    ;
}

/// The bytes that a validator signs for `summary`: those of its digest.
pub open spec fn signing_message(summary: CheckpointSummary) -> Seq<u8> {
    summary.digest.bytes@
}

/// The transaction that carries `signature`, made by `authority` over
/// `summary`: its one payload is a checkpoint signature message around the
/// signed summary.
pub open spec fn signature_transaction(
    summary: CheckpointSummary,
    authority: AuthorityName,
    signature: AuthoritySignature,
) -> ConsensusTransaction {
    ConsensusTransaction {
        kind: ConsensusTransactionKind::CheckpointSignature(
            CheckpointSignatureMessage {
                summary: SignedCheckpointSummary { summary, authority, signature },
            },
        ),
    }
}

/// Whether `transaction` carries a signature by `authority` over `summary`,
/// whatever the signature is.
pub open spec fn carries_signature_of(
    transaction: ConsensusTransaction,
    summary: CheckpointSummary,
    authority: AuthorityName,
) -> bool {
    transaction == signature_transaction(
        summary,
        authority,
        transaction.kind->CheckpointSignature_0.summary.signature,
    )
}

impl SignedCheckpointSummary {
    /// Has `signer` sign the digest of `summary`, and pairs the summary with
    /// the signature and with `authority`.
    pub fn new_from_summary<S: AuthoritySigner>(
        summary: CheckpointSummary,
        authority: AuthorityName,
        signer: &S,
    ) -> (signed: Self)
        ensures
            signed.summary == summary,
            signed.authority == authority,
            signer.signs(signing_message(summary), signed.signature),
    {
        let signature = signer.sign(summary.digest().bytes.as_slice());
        SignedCheckpointSummary::new(summary, authority, signature)
    }
}

/// Wraps a signed summary for consensus.
pub fn checkpoint_signature_transaction(signed: SignedCheckpointSummary) -> (transaction:
    ConsensusTransaction)
    ensures
        transaction == signature_transaction(signed.summary, signed.authority, signed.signature),
{
    let message = CheckpointSignatureMessage { summary: signed };
    ConsensusTransaction::new_checkpoint_signature_message(message)
}

/// The sink that signs each built checkpoint and asks for the signature to
/// be submitted to consensus.
///
/// `sender` is the caller's handle to consensus. The sink does not touch it:
/// the caller submits through it what the sink asks for, once, and takes
/// what consensus answers as the result of the call. Nothing is retried or
/// buffered here.
pub struct SubmitCheckpointToConsensus<T, S> {
    pub sender: T,
    pub signer: S,
    pub authority: AuthorityName,
}

impl<T, S: AuthoritySigner> CheckpointOutput for SubmitCheckpointToConsensus<T, S> {
    /// Asks for three things, in this order: the two records of the logging
    /// sink, then one submission. So the checkpoint is logged whatever
    /// becomes of the submission.
    ///
    /// At the last checkpoint of an epoch nothing is added to the
    /// submission: the flag goes into the log record and changes nothing
    /// else.
    fn checkpoint_created(
        &self,
        summary: &CheckpointSummary,
        contents: &CheckpointContents,
        last_checkpoint_of_epoch: bool,
    ) -> (effects: Vec<Effect>)
        ensures
            effects@.len() == 3,
            effects@[0]@ == EffectView::Log(transactions_record(*summary, contents@)),
            effects@[1]@ == EffectView::Log(
                created_record(*summary, contents@, last_checkpoint_of_epoch),
            ),
            (effects@[2]@ is SubmitToConsensus),
            carries_signature_of(
                effects@[2]@->SubmitToConsensus_0,
                *summary,
                self.authority,
            ),
            self.signer.signs(
                signing_message(*summary),
                effects@[2]@->SubmitToConsensus_0.kind->CheckpointSignature_0.summary.signature,
            ),
    {
        let mut effects = LogCheckpointOutput.checkpoint_created(
            summary,
            contents,
            last_checkpoint_of_epoch,
        );
        let signed = SignedCheckpointSummary::new_from_summary(
            *summary,
            self.authority,
            &self.signer,
        );
        let transaction = checkpoint_signature_transaction(signed);
        effects.push(Effect::SubmitToConsensus(transaction));
        effects
    }
}

/// The sink's answer never depends on the handle to consensus, and its
/// submission holds the summary and the identity that went in: for every
/// signature, the transaction that carries it holds exactly one checkpoint
/// signature message, around exactly that summary and that identity.
pub proof fn signed_transaction_holds_summary_and_identity(
    summary: CheckpointSummary,
    authority: AuthorityName,
    signature: AuthoritySignature,
)
    ensures
        (signature_transaction(summary, authority, signature).kind is CheckpointSignature),
        signature_transaction(
            summary,
            authority,
            signature,
        ).kind->CheckpointSignature_0.summary.summary == summary,
        signature_transaction(
            summary,
            authority,
            signature,
        ).kind->CheckpointSignature_0.summary.authority == authority,
        carries_signature_of(signature_transaction(summary, authority, signature), summary, authority),
{
}

} // verus!
