//! The values that flow through the sinks.

use vstd::prelude::*;

verus! {

/// A 32-byte digest: of a checkpoint, of its contents, of a transaction or of
/// a transaction's effects.
#[derive(Clone, Copy, Debug, PartialEq, Eq, Hash)]
pub struct Digest {
    pub bytes: [u8; 32],
}

/// The public identity of a validator: the bytes of its public key.
#[derive(Clone, Copy, Debug, PartialEq, Eq, Hash)]
pub struct AuthorityName {
    pub bytes: [u8; 96],
}

/// A signature, of one validator or aggregated over a quorum of them.
#[derive(Clone, Copy, Debug, PartialEq, Eq, Hash)]
pub struct AuthoritySignature {
    pub bytes: [u8; 48],
}

/// Why a sink's call did not succeed.
#[derive(Clone, Copy, Debug, PartialEq, Eq, Structural)]
pub enum OutputError {
    /// Consensus refused the submitted transaction. The sink hands this on
    /// unchanged; retrying is the caller's business.
    SubmissionError,
    /// The receiving end of the state-sync queue is gone. The sink logs this
    /// and never returns it.
    ForwardingChannelClosed,
}

/// One executed transaction of a checkpoint, with the digest of its effects.
#[derive(Clone, Copy, Debug, PartialEq, Eq, Hash)]
pub struct ExecutionDigests {
    pub transaction: Digest,
    pub effects: Digest,
}

/// The executed transactions of a checkpoint, in order.
#[derive(Debug, PartialEq, Eq)]
pub struct CheckpointContents {
    pub transactions: Vec<ExecutionDigests>,
}

impl View for CheckpointContents {
    type V = Seq<ExecutionDigests>;

    open spec fn view(&self) -> Seq<ExecutionDigests> {
        self.transactions@
    }
}

impl CheckpointContents {
    pub fn new(transactions: Vec<ExecutionDigests>) -> (contents: Self)
        ensures
            contents@ == transactions@,
    {
        CheckpointContents { transactions }
    }

    /// The number of transactions.
    pub fn size(&self) -> (count: usize)
        ensures
            count == self@.len(),
    {
        self.transactions.len()
    }

    /// A copy of the transactions, in their order.
    pub fn to_vec(&self) -> (copy: Vec<ExecutionDigests>)
        ensures
            copy@ == self@,
    {
        let mut copy: Vec<ExecutionDigests> = Vec::new();
        let mut i: usize = 0;
        while i < self.transactions.len()
            invariant
                i <= self.transactions.len(),
                copy@ == self.transactions@.take(i as int),
            decreases self.transactions.len() - i,
        {
            copy.push(self.transactions[i]);
            proof {
                assert(self.transactions@.take(i + 1) == self.transactions@.take(i as int).push(
                    self.transactions@[i as int],
                ));
            }
            i += 1;
        }
        proof {
            assert(self.transactions@.take(i as int) == self.transactions@);
        }
        copy
    }
}

/// What identifies a checkpoint. Built once, elsewhere; only read here.
#[derive(Clone, Copy, Debug, PartialEq, Eq)]
pub struct CheckpointSummary {
    /// Grows from one checkpoint of an epoch to the next.
    pub sequence_number: u64,
    /// The digest of the summary's own canonical encoding.
    pub digest: Digest,
    /// The digest of the checkpoint before this one; none at the start of an
    /// epoch.
    pub previous_digest: Option<Digest>,
    /// The digest of the checkpoint's contents.
    pub content_digest: Digest,
}

impl CheckpointSummary {
    pub fn new(
        sequence_number: u64,
        digest: Digest,
        previous_digest: Option<Digest>,
        content_digest: Digest,
    ) -> (summary: Self)
        ensures
            summary == (CheckpointSummary {
                sequence_number,
                digest,
                previous_digest,
                content_digest,
            }),
    {
        CheckpointSummary { sequence_number, digest, previous_digest, content_digest }
    }

    /// The digest of this summary.
    pub fn digest(&self) -> (digest: Digest)
        ensures
            digest == self.digest,
    {
        self.digest
    }
}

/// A summary with the signature of one validator over its digest.
#[derive(Clone, Copy, Debug, PartialEq, Eq)]
pub struct SignedCheckpointSummary {
    pub summary: CheckpointSummary,
    pub authority: AuthorityName,
    pub signature: AuthoritySignature,
}

impl SignedCheckpointSummary {
    /// Pairs `summary` with `signature`, made by `authority`.
    pub fn new(
        summary: CheckpointSummary,
        authority: AuthorityName,
        signature: AuthoritySignature,
    ) -> (signed: Self)
        ensures
            signed == (SignedCheckpointSummary { summary, authority, signature }),
    {
        SignedCheckpointSummary { summary, authority, signature }
    }
}

/// The payload by which a validator tells consensus its signature over a
/// checkpoint.
#[derive(Clone, Copy, Debug, PartialEq, Eq)]
pub struct CheckpointSignatureMessage {
    pub summary: SignedCheckpointSummary,
}

/// The kinds of payload that a consensus transaction carries.
#[derive(Clone, Copy, Debug, PartialEq, Eq)]
pub enum ConsensusTransactionKind {
    CheckpointSignature(CheckpointSignatureMessage),
    EndOfPublish(AuthorityName),
}

/// The envelope that is handed to consensus.
#[derive(Clone, Copy, Debug, PartialEq, Eq)]
pub struct ConsensusTransaction {
    pub kind: ConsensusTransactionKind,
}

impl ConsensusTransaction {
    /// The transaction whose one payload is `message`.
    pub fn new_checkpoint_signature_message(message: CheckpointSignatureMessage) -> (transaction:
        Self)
        ensures
            transaction.kind == ConsensusTransactionKind::CheckpointSignature(message),
    {
        ConsensusTransaction { kind: ConsensusTransactionKind::CheckpointSignature(message) }
    }

    /// Whether the payload is a checkpoint signature message.
    pub fn is_checkpoint_signature(&self) -> (yes: bool)
        ensures
            yes == (self.kind is CheckpointSignature),
    {
        match self.kind {
            ConsensusTransactionKind::CheckpointSignature(_) => true,
            ConsensusTransactionKind::EndOfPublish(_) => false,
        }
    }
}

/// A summary with the aggregated signature of a quorum of validators.
/// It comes from certificate assembly; nothing here checks the signature.
#[derive(Debug, PartialEq, Eq)]
pub struct CertifiedCheckpointSummary {
    pub summary: CheckpointSummary,
    pub signature: AuthoritySignature,
    /// The committee indices of the validators that signed.
    pub signers: Vec<u32>,
}

/// What a certified summary holds, as mathematical values.
pub struct CertifiedCheckpointSummaryView {
    pub summary: CheckpointSummary,
    pub signature: AuthoritySignature,
    pub signers: Seq<u32>,
}

impl View for CertifiedCheckpointSummary {
    type V = CertifiedCheckpointSummaryView;

    open spec fn view(&self) -> CertifiedCheckpointSummaryView {
        CertifiedCheckpointSummaryView {
            summary: self.summary,
            signature: self.signature,
            signers: self.signers@,
        }
    }
}

impl Clone for CertifiedCheckpointSummary {
    fn clone(&self) -> (copy: Self)
        ensures
            copy@ == self@,
    {
        let mut signers: Vec<u32> = Vec::new();
        let mut i: usize = 0;
        while i < self.signers.len()
            invariant
                i <= self.signers.len(),
                signers@ == self.signers@.take(i as int),
            decreases self.signers.len() - i,
        {
            signers.push(self.signers[i]);
            proof {
                assert(self.signers@.take(i + 1) == self.signers@.take(i as int).push(
                    self.signers@[i as int],
                ));
            }
            i += 1;
        }
        proof {
            assert(self.signers@.take(i as int) == self.signers@);
        }
        CertifiedCheckpointSummary { summary: self.summary, signature: self.signature, signers }
    }
}

impl CertifiedCheckpointSummary {
    pub fn new(summary: CheckpointSummary, signature: AuthoritySignature, signers: Vec<u32>) -> (
        certified: Self
    )
        ensures
            certified@ == (CertifiedCheckpointSummaryView {
                summary,
                signature,
                signers: signers@,
            }),
    {
        CertifiedCheckpointSummary { summary, signature, signers }
    }
}

/// A certified checkpoint that counts as validated.
///
/// The only way to make one is [`VerifiedCheckpoint::new_unchecked`], which
/// checks nothing: whoever calls it vouches that the quorum signature was
/// verified before.
#[derive(Debug, PartialEq, Eq)]
pub struct VerifiedCheckpoint {
    inner: CertifiedCheckpointSummary,
}

impl View for VerifiedCheckpoint {
    type V = CertifiedCheckpointSummaryView;

    closed spec fn view(&self) -> CertifiedCheckpointSummaryView {
        self.inner@
    }
}

impl VerifiedCheckpoint {
    /// Marks `certified` as validated, without looking at it.
    pub fn new_unchecked(certified: CertifiedCheckpointSummary) -> (verified: Self)
        ensures
            verified@ == certified@,
    {
        VerifiedCheckpoint { inner: certified }
    }

    /// The certified summary inside.
    pub fn inner(&self) -> (certified: &CertifiedCheckpointSummary)
        ensures
            certified@ == self@,
    {
        &self.inner
    }

    /// Gives the certified summary back.
    pub fn into_inner(self) -> (certified: CertifiedCheckpointSummary)
        ensures
            certified@ == self@,
    {
        self.inner
    }
}

} // verus!
