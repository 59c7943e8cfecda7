use checkpoint_output::{
    checkpoint_signature_transaction, settle, AuthorityName, AuthoritySignature, AuthoritySigner,
    CheckpointContents, CheckpointOutput, CheckpointSignatureMessage, CheckpointSummary,
    ConsensusTransaction, ConsensusTransactionKind, Digest, Effect, ExecutionDigests,
    LogCheckpointOutput, OutputError, SignedCheckpointSummary, SubmitCheckpointToConsensus,
};

/// Signs with the first byte of the message and its length.
struct EchoSigner;

impl AuthoritySigner for EchoSigner {
    fn sign(&self, message: &[u8]) -> AuthoritySignature {
        let mut bytes = [0u8; 48];
        bytes[0] = message[0];
        bytes[1] = message.len() as u8;
        AuthoritySignature { bytes }
    }
}

fn summary() -> CheckpointSummary {
    CheckpointSummary::new(
        12,
        Digest { bytes: [0x3c; 32] },
        Some(Digest { bytes: [1; 32] }),
        Digest { bytes: [2; 32] },
    )
}

fn contents() -> CheckpointContents {
    CheckpointContents::new(vec![ExecutionDigests {
        transaction: Digest { bytes: [8; 32] },
        effects: Digest { bytes: [9; 32] },
    }])
}

fn sink() -> SubmitCheckpointToConsensus<(), EchoSigner> {
    SubmitCheckpointToConsensus {
        sender: (),
        signer: EchoSigner,
        authority: AuthorityName { bytes: [0x77; 96] },
    }
}

fn expected_signature() -> AuthoritySignature {
    let mut bytes = [0u8; 48];
    bytes[0] = 0x3c;
    bytes[1] = 32;
    AuthoritySignature { bytes }
}

#[test]
fn consensus_sink_logs_first_and_submits_last() {
    let effects = sink().checkpoint_created(&summary(), &contents(), false);
    let logged = LogCheckpointOutput.checkpoint_created(&summary(), &contents(), false);
    assert_eq!(effects.len(), 3);
    assert_eq!(effects[0], logged[0]);
    assert_eq!(effects[1], logged[1]);
    assert!(matches!(effects[2], Effect::SubmitToConsensus(_)));
}

#[test]
fn submission_wraps_the_summary_the_identity_and_the_signature_over_the_digest() {
    let effects = sink().checkpoint_created(&summary(), &contents(), false);
    let expected = ConsensusTransaction {
        kind: ConsensusTransactionKind::CheckpointSignature(CheckpointSignatureMessage {
            summary: SignedCheckpointSummary {
                summary: summary(),
                authority: AuthorityName { bytes: [0x77; 96] },
                signature: expected_signature(),
            },
        }),
    };
    assert_eq!(effects[2], Effect::SubmitToConsensus(expected));
}

#[test]
fn epoch_flag_changes_the_record_and_not_the_submission() {
    let plain = sink().checkpoint_created(&summary(), &contents(), false);
    let last = sink().checkpoint_created(&summary(), &contents(), true);
    assert_eq!(plain[0], last[0]);
    assert_ne!(plain[1], last[1]);
    assert_eq!(plain[2], last[2]);
    assert_eq!(last.len(), 3);
}

#[test]
fn submission_outcome_is_the_result_of_the_call() {
    let effects = sink().checkpoint_created(&summary(), &contents(), false);
    let failed = settle(&effects[2], Err(OutputError::SubmissionError));
    assert_eq!(failed.result, Err(OutputError::SubmissionError));
    assert_eq!(failed.record, None);
    let passed = settle(&effects[2], Ok(()));
    assert_eq!(passed.result, Ok(()));
    assert_eq!(passed.record, None);
    // The two records were asked for before the submission, so a failed
    // submission leaves them standing.
    assert_eq!(settle(&effects[0], Ok(())).result, Ok(()));
    assert_eq!(settle(&effects[1], Ok(())).result, Ok(()));
}

#[test]
fn signed_summary_from_a_signer() {
    let signed = SignedCheckpointSummary::new_from_summary(
        summary(),
        AuthorityName { bytes: [4; 96] },
        &EchoSigner,
    );
    assert_eq!(
        signed,
        SignedCheckpointSummary::new(
            summary(),
            AuthorityName { bytes: [4; 96] },
            expected_signature()
        )
    );
}

#[test]
fn transaction_of_a_signed_summary() {
    let signed = SignedCheckpointSummary::new(
        summary(),
        AuthorityName { bytes: [4; 96] },
        AuthoritySignature { bytes: [6; 48] },
    );
    let transaction = checkpoint_signature_transaction(signed);
    assert!(transaction.is_checkpoint_signature());
    assert_eq!(
        transaction.kind,
        ConsensusTransactionKind::CheckpointSignature(CheckpointSignatureMessage {
            summary: signed
        })
    );
    let other = ConsensusTransaction {
        kind: ConsensusTransactionKind::EndOfPublish(AuthorityName { bytes: [4; 96] }),
    };
    assert!(!other.is_checkpoint_signature());
}

fn key_pair() -> fastcrypto::bls12381::min_sig::BLS12381KeyPair {
    let mut secret = [0u8; 32];
    secret[31] = 42;
    let private = <fastcrypto::bls12381::min_sig::BLS12381PrivateKey as fastcrypto::traits::ToFromBytes>::from_bytes(&secret)
        .unwrap();
    fastcrypto::bls12381::min_sig::BLS12381KeyPair::from(private)
}

#[test]
fn key_pair_signature_verifies_over_the_digest() {
    let pair = key_pair();
    let public = fastcrypto::traits::KeyPair::public(&pair).clone();
    let mut name = [0u8; 96];
    name.copy_from_slice(public.as_ref());
    let sink = SubmitCheckpointToConsensus {
        sender: (),
        signer: checkpoint_output::KeyPairSigner { key_pair: pair },
        authority: AuthorityName { bytes: name },
    };
    let effects = sink.checkpoint_created(&summary(), &contents(), false);
    let signed = match &effects[2] {
        Effect::SubmitToConsensus(ConsensusTransaction {
            kind: ConsensusTransactionKind::CheckpointSignature(message),
        }) => message.summary,
        other => panic!("unexpected effect {:?}", other),
    };
    assert_eq!(signed.summary, summary());
    assert_eq!(signed.authority, AuthorityName { bytes: name });
    let signature = <fastcrypto::bls12381::min_sig::BLS12381Signature as fastcrypto::traits::ToFromBytes>::from_bytes(
        &signed.signature.bytes,
    )
    .unwrap();
    assert!(fastcrypto::traits::VerifyingKey::verify(&public, &[0x3c; 32], &signature).is_ok());
    assert!(fastcrypto::traits::VerifyingKey::verify(&public, &[0x3d; 32], &signature).is_err());
}

#[test]
fn key_pair_signs_one_message_in_one_way() {
    let signer = checkpoint_output::KeyPairSigner { key_pair: key_pair() };
    let first = signer.sign(&[0x3c; 32]);
    let second = signer.sign(&[0x3c; 32]);
    let other = signer.sign(&[0x3d; 32]);
    assert_eq!(first, second);
    assert_ne!(first, other);
    let again = checkpoint_output::KeyPairSigner { key_pair: key_pair() };
    assert_eq!(again.sign(&[0x3c; 32]), first);
}
