use checkpoint_output::{
    settle, AuthoritySignature, CertifiedCheckpointOutput, CertifiedCheckpointSummary,
    CheckpointContents, CheckpointOutput, CheckpointSummary, Digest, Effect, ExecutionDigests,
    LogCheckpointOutput, LogLevel, LogRecord, OutputError,
};

fn digest(fill: u8) -> Digest {
    Digest { bytes: [fill; 32] }
}

fn mixed_digest() -> Digest {
    let mut bytes = [0u8; 32];
    bytes[0] = 0x00;
    bytes[1] = 0x0f;
    bytes[2] = 0xa5;
    bytes[3] = 0xff;
    bytes[31] = 0x10;
    Digest { bytes }
}

fn transactions(count: u8) -> Vec<ExecutionDigests> {
    let mut list = Vec::new();
    for i in 0..count {
        list.push(ExecutionDigests { transaction: digest(i), effects: digest(100 + i) });
    }
    list
}

fn summary_seven() -> CheckpointSummary {
    CheckpointSummary::new(7, digest(0xab), Some(digest(0xd0)), digest(0xd1))
}

#[test]
fn log_sink_records_a_created_checkpoint() {
    let summary = summary_seven();
    let contents = CheckpointContents::new(transactions(3));
    let effects = LogCheckpointOutput.checkpoint_created(&summary, &contents, false);
    assert_eq!(effects.len(), 2);
    assert_eq!(
        effects[0],
        Effect::Log(LogRecord::IncludedTransactions {
            sequence_number: 7,
            transactions: transactions(3),
        })
    );
    assert_eq!(
        effects[1],
        Effect::Log(LogRecord::CheckpointCreated {
            digest: "ab".repeat(32),
            sequence_number: 7,
            previous_digest: Some(digest(0xd0)),
            transaction_count: 3,
            content_digest: "d1".repeat(32),
            last_checkpoint_of_epoch: false,
        })
    );
    for effect in &effects {
        let settled = settle(effect, Ok(()));
        assert_eq!(settled.result, Ok(()));
        assert_eq!(settled.record, None);
    }
}

#[test]
fn log_sink_keeps_the_epoch_flag_and_a_missing_previous_digest() {
    let summary = CheckpointSummary::new(0, digest(1), None, digest(2));
    let contents = CheckpointContents::new(Vec::new());
    let effects = LogCheckpointOutput.checkpoint_created(&summary, &contents, true);
    assert_eq!(
        effects[0],
        Effect::Log(LogRecord::IncludedTransactions { sequence_number: 0, transactions: vec![] })
    );
    assert_eq!(
        effects[1],
        Effect::Log(LogRecord::CheckpointCreated {
            digest: "01".repeat(32),
            sequence_number: 0,
            previous_digest: None,
            transaction_count: 0,
            content_digest: "02".repeat(32),
            last_checkpoint_of_epoch: true,
        })
    );
}

#[test]
fn digests_are_logged_as_lower_case_hex_without_prefix() {
    let summary = CheckpointSummary::new(1, mixed_digest(), None, digest(0));
    let contents = CheckpointContents::new(Vec::new());
    let effects = LogCheckpointOutput.checkpoint_created(&summary, &contents, false);
    let expected = format!("000fa5ff{}10", "00".repeat(27));
    match &effects[1] {
        Effect::Log(LogRecord::CheckpointCreated { digest, content_digest, .. }) => {
            assert_eq!(digest, &expected);
            assert_eq!(digest.len(), 64);
            assert_eq!(content_digest, &"00".repeat(32));
        }
        other => panic!("unexpected effect {:?}", other),
    }
}

#[test]
fn log_sink_records_a_certified_checkpoint() {
    let summary = CheckpointSummary::new(9, mixed_digest(), Some(digest(3)), digest(4));
    let certified =
        CertifiedCheckpointSummary::new(summary, AuthoritySignature { bytes: [5; 48] }, vec![0, 2]);
    let effects = LogCheckpointOutput.certified_checkpoint_created(&certified);
    assert_eq!(
        effects,
        vec![Effect::Log(LogRecord::CheckpointCertified {
            sequence_number: 9,
            digest: format!("000fa5ff{}10", "00".repeat(27)),
        })]
    );
}

#[test]
fn boxed_sinks_answer_as_the_logging_sink() {
    let summary = summary_seven();
    let contents = CheckpointContents::new(transactions(2));
    let boxed = LogCheckpointOutput::boxed();
    assert_eq!(
        boxed.checkpoint_created(&summary, &contents, true),
        LogCheckpointOutput.checkpoint_created(&summary, &contents, true)
    );
    let certified =
        CertifiedCheckpointSummary::new(summary, AuthoritySignature { bytes: [1; 48] }, vec![1]);
    let boxed = LogCheckpointOutput::boxed_certified();
    assert_eq!(
        boxed.certified_checkpoint_created(&certified),
        LogCheckpointOutput.certified_checkpoint_created(&certified)
    );
}

#[test]
fn records_have_their_levels_and_sequence_numbers() {
    let included = LogRecord::IncludedTransactions { sequence_number: 4, transactions: vec![] };
    let created = LogRecord::CheckpointCreated {
        digest: String::new(),
        sequence_number: 5,
        previous_digest: None,
        transaction_count: 0,
        content_digest: String::new(),
        last_checkpoint_of_epoch: false,
    };
    let certified = LogRecord::CheckpointCertified { sequence_number: 6, digest: String::new() };
    let failed = LogRecord::ForwardingFailed { error: OutputError::ForwardingChannelClosed };
    assert_eq!(included.level(), LogLevel::Debug);
    assert_eq!(created.level(), LogLevel::Info);
    assert_eq!(certified.level(), LogLevel::Info);
    assert_eq!(failed.level(), LogLevel::Error);
    assert_eq!(included.sequence_number(), Some(4));
    assert_eq!(created.sequence_number(), Some(5));
    assert_eq!(certified.sequence_number(), Some(6));
    assert_eq!(failed.sequence_number(), None);
}

#[test]
fn logging_is_settled_as_success_whatever_came_back() {
    let effect = Effect::Log(LogRecord::CheckpointCertified {
        sequence_number: 1,
        digest: String::new(),
    });
    let settled = settle(&effect, Err(OutputError::SubmissionError));
    assert_eq!(settled.result, Ok(()));
    assert_eq!(settled.record, None);
}

#[test]
fn contents_report_their_size_and_copy() {
    let contents = CheckpointContents::new(transactions(5));
    assert_eq!(contents.size(), 5);
    assert_eq!(contents.to_vec(), transactions(5));
    assert_eq!(CheckpointContents::new(Vec::new()).size(), 0);
}

#[test]
fn summary_gives_its_digest() {
    assert_eq!(summary_seven().digest(), digest(0xab));
    assert_eq!(summary_seven().sequence_number, 7);
    assert_eq!(summary_seven().previous_digest, Some(digest(0xd0)));
    assert_eq!(summary_seven().content_digest, digest(0xd1));
}
