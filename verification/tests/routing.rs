use simperby_cli::error::{CliError, ErrorKind, HashKind, PayloadKind};
use simperby_cli::finalization::FinalizationProof;
use simperby_cli::hash::{CommitHash, Hash256};
use simperby_cli::report::{handle, show_line, CommitInfo, Failure, Handling};
use simperby_cli::router::{route, route_at, Command, CreateCommand, Operation, SignCommand};
use simperby_cli::signer::Payload;
use simperby_cli::transaction::{
    DelegationTransactionData, ExtraAgendaTransaction, TxUndelegate, UndelegationTransactionData,
};
use simperby_cli::value::{PublicKey, Signature, TypedSignature};

const COMMIT: &str = "0123456789abcdef0123456789abcdef01234567";

fn commit() -> CommitHash {
    CommitHash {
        hash: [
            0x01, 0x23, 0x45, 0x67, 0x89, 0xab, 0xcd, 0xef, 0x01, 0x23, 0x45, 0x67, 0x89, 0xab,
            0xcd, 0xef, 0x01, 0x23, 0x45, 0x67,
        ],
    }
}

fn me() -> PublicKey {
    PublicKey { key: vec![0x04, 0x11, 0x22] }
}

fn sign_delegation(height: u64) -> Command {
    Command::Sign(SignCommand::TxDelegate {
        delegatee: "{\"key\":\"04bb02\"}".to_string(),
        governance: true,
        target_height: height,
    })
}

#[test]
fn sign_delegation_at_two_heights_gives_two_payloads() {
    let at_100 = route_at(sign_delegation(100), me(), 5).unwrap();
    let at_101 = route_at(sign_delegation(101), me(), 5).unwrap();
    assert_eq!(
        at_100,
        Operation::Sign(Payload::Delegation(DelegationTransactionData {
            delegator: me(),
            delegatee: PublicKey { key: vec![0x04, 0xbb, 0x02] },
            governance: true,
            block_height: 100,
        }))
    );
    assert_ne!(at_100, at_101);
    assert!(at_100.is_local());
}

#[test]
fn sign_delegation_with_malformed_delegatee_fails() {
    let command = Command::Sign(SignCommand::TxDelegate {
        delegatee: "04bb02".to_string(),
        governance: true,
        target_height: 100,
    });
    assert_eq!(route_at(command, me(), 5), Err(CliError::InvalidDelegatee));
}

#[test]
fn sign_undelegation_is_signed_by_the_operator() {
    let command = Command::Sign(SignCommand::TxUndelegate { target_height: 9 });
    assert_eq!(
        route_at(command, me(), 5),
        Ok(Operation::Sign(Payload::Undelegation(UndelegationTransactionData {
            delegator: me(),
            block_height: 9,
        })))
    );
}

#[test]
fn sign_custom_takes_a_hash_of_32_bytes() {
    let digits = "00112233445566778899aabbccddeeff00112233445566778899aabbccddeeff";
    let mut hash = [0u8; 32];
    for (i, byte) in hash.iter_mut().enumerate() {
        *byte = ((i % 16) * 0x11) as u8;
    }
    let operation =
        route_at(Command::Sign(SignCommand::Custom { hash: digits.to_string() }), me(), 5);
    assert_eq!(operation, Ok(Operation::SignHash(Hash256 { hash })));
    assert!(operation.unwrap().is_local());
    let short = Command::Sign(SignCommand::Custom { hash: digits[..63].to_string() });
    assert_eq!(route_at(short, me(), 5), Err(CliError::WrongLength(HashKind::General)));
    let not_hex = Command::Sign(SignCommand::Custom { hash: format!("{}g", &digits[..63]) });
    assert_eq!(route_at(not_hex, me(), 5), Err(CliError::InvalidHash));
}

#[test]
fn veto_without_a_commit_is_cast_on_the_round() {
    assert_eq!(route_at(Command::Veto { commit: None }, me(), 5), Ok(Operation::VetoRound));
}

#[test]
fn veto_with_a_commit_is_cast_on_its_block() {
    let command = Command::Veto { commit: Some(COMMIT.to_string()) };
    assert_eq!(route_at(command, me(), 5), Ok(Operation::VetoBlock(commit())));
}

#[test]
fn veto_with_a_malformed_commit_fails() {
    let short = Command::Veto { commit: Some(COMMIT[..39].to_string()) };
    assert_eq!(route_at(short, me(), 5), Err(CliError::InvalidVetoTarget));
    let empty = Command::Veto { commit: Some(String::new()) };
    assert_eq!(route_at(empty, me(), 5), Err(CliError::InvalidVetoTarget));
    let not_hex = Command::Veto { commit: Some(format!("{}z", &COMMIT[..39])) };
    assert_eq!(route_at(not_hex, me(), 5), Err(CliError::InvalidVetoTarget));
}

#[test]
fn vote_is_cast_on_a_commit() {
    assert_eq!(
        route_at(Command::Vote { commit: COMMIT.to_string() }, me(), 5),
        Ok(Operation::Vote(commit()))
    );
    assert_eq!(
        route_at(Command::Vote { commit: "abc".to_string() }, me(), 5),
        Err(CliError::InvalidVoteTarget)
    );
}

#[test]
fn show_takes_a_commit_hash() {
    assert_eq!(
        route_at(Command::Show { commit: COMMIT.to_string() }, me(), 5),
        Ok(Operation::Show(commit()))
    );
    assert_eq!(
        route_at(Command::Show { commit: COMMIT[..38].to_string() }, me(), 5),
        Err(CliError::WrongLength(HashKind::Commit))
    );
    assert_eq!(
        route_at(Command::Show { commit: "xyz".to_string() }, me(), 5),
        Err(CliError::InvalidHash)
    );
}

#[test]
fn create_delegation_with_malformed_proof_names_the_proof() {
    let command = Command::Create(CreateCommand::TxDelegate {
        delegator: "{\"key\":\"04aa01\"}".to_string(),
        delegatee: "{\"key\":\"04bb02\"}".to_string(),
        governance: true,
        proof: "{\"signature\":{\"signature\":\"c0ffe\"}}".to_string(),
    });
    assert_eq!(route_at(command, me(), 5), Err(CliError::InvalidProof(PayloadKind::Delegation)));
}

#[test]
fn create_undelegation_is_stamped() {
    let command = Command::Create(CreateCommand::TxUndelegate {
        delegator: "{\"key\":\"04aa01\"}".to_string(),
        proof: "{\"signature\":{\"signature\":\"c0ffee\"}}".to_string(),
    });
    let expected = |timestamp| {
        Operation::CreateExtraAgendaTransaction(ExtraAgendaTransaction::Undelegate(TxUndelegate {
            delegator: PublicKey { key: vec![0x04, 0xaa, 0x01] },
            proof: TypedSignature::new(
                PayloadKind::Undelegation,
                Signature { signature: vec![0xc0, 0xff, 0xee] },
            ),
            timestamp,
        }))
    };
    assert_eq!(route_at(command.clone(), me(), 77), Ok(expected(77)));
    match route(command, me()) {
        Ok(Operation::CreateExtraAgendaTransaction(ExtraAgendaTransaction::Undelegate(tx))) => {
            assert!(tx.timestamp > 1_577_836_800_000);
            assert_eq!(tx.delegator, PublicKey { key: vec![0x04, 0xaa, 0x01] });
        }
        other => panic!("unexpected outcome: {:?}", other),
    }
}

#[test]
fn create_delegation_reaches_the_node_as_a_transaction() {
    let command = Command::Create(CreateCommand::TxDelegate {
        delegator: "{\"key\":\"04aa01\"}".to_string(),
        delegatee: "{\"key\":\"04bb02\"}".to_string(),
        governance: false,
        proof: "{\"signature\":{\"signature\":\"c0ffee\"}}".to_string(),
    });
    match route_at(command, me(), 123) {
        Ok(Operation::CreateExtraAgendaTransaction(ExtraAgendaTransaction::Delegate(tx))) => {
            assert_eq!(tx.delegator, PublicKey { key: vec![0x04, 0xaa, 0x01] });
            assert_eq!(tx.delegatee, PublicKey { key: vec![0x04, 0xbb, 0x02] });
            assert!(!tx.governance);
            assert_eq!(tx.proof.kind(), PayloadKind::Delegation);
            assert_eq!(tx.timestamp, 123);
        }
        other => panic!("unexpected outcome: {:?}", other),
    }
}

#[test]
fn sync_takes_a_finalization_proof() {
    let command = Command::Sync {
        last_finalization_proof: "{\"signatures\":[{\"signature\":\"0a\"},{\"signature\":\"0b\"}]}"
            .to_string(),
    };
    assert_eq!(
        route_at(command, me(), 5),
        Ok(Operation::Sync(FinalizationProof {
            signatures: vec![Signature { signature: vec![10] }, Signature { signature: vec![11] }],
        }))
    );
    let bad = Command::Sync { last_finalization_proof: "[]".to_string() };
    assert_eq!(route_at(bad, me(), 5), Err(CliError::InvalidFinalizationProof));
}

#[test]
fn commands_without_arguments_map_to_their_operation() {
    let cases = [
        (Command::Genesis, Operation::Genesis),
        (Command::Clean { hard: true }, Operation::Clean { hard: true }),
        (Command::Clean { hard: false }, Operation::Clean { hard: false }),
        (Command::Create(CreateCommand::Block), Operation::CreateBlock),
        (Command::Create(CreateCommand::Agenda), Operation::CreateAgenda),
        (Command::Consensus { show: false }, Operation::ProgressForConsensus),
        (Command::Consensus { show: true }, Operation::ShowConsensus),
        (Command::Serve, Operation::Serve),
        (Command::Update, Operation::Fetch),
        (Command::Broadcast, Operation::Broadcast),
        (
            Command::Clone { url: "https://example.org/ledger.git".to_string() },
            Operation::Clone { url: "https://example.org/ledger.git".to_string() },
        ),
    ];
    for (command, operation) in cases {
        assert!(!operation.is_local());
        assert_eq!(route_at(command.clone(), me(), 5), Ok(operation.clone()));
        assert_eq!(route(command, me()), Ok(operation));
    }
}

#[test]
fn commands_without_behaviour_fail_as_not_implemented() {
    for command in [
        Command::Init,
        Command::Git,
        Command::Network,
        Command::Chat,
        Command::CheckPush,
        Command::NotifyPush,
        Command::Create(CreateCommand::TxReport),
    ] {
        assert_eq!(route_at(command.clone(), me(), 5), Err(CliError::NotImplemented));
        assert_eq!(route(command, me()), Err(CliError::NotImplemented));
    }
}

#[test]
fn each_failure_has_its_words_and_its_class() {
    let cases = [
        (CliError::InvalidHash, "invalid hash", ErrorKind::Input),
        (CliError::WrongLength(HashKind::Commit), "a hash must be in 20 bytes", ErrorKind::Input),
        (CliError::WrongLength(HashKind::General), "a hash must be in 32 bytes", ErrorKind::Input),
        (
            CliError::InvalidDelegator(PayloadKind::Delegation),
            "invalid delegator for a delegation transaction",
            ErrorKind::Input,
        ),
        (
            CliError::InvalidDelegator(PayloadKind::Undelegation),
            "invalid delegator for an undelegation transaction",
            ErrorKind::Input,
        ),
        (
            CliError::InvalidDelegatee,
            "invalid delegatee for a delegation transaction",
            ErrorKind::Input,
        ),
        (
            CliError::InvalidProof(PayloadKind::Delegation),
            "invalid proof for a delegation transaction",
            ErrorKind::Input,
        ),
        (
            CliError::InvalidProof(PayloadKind::Undelegation),
            "invalid proof for an undelegation transaction",
            ErrorKind::Input,
        ),
        (
            CliError::InvalidFinalizationProof,
            "invalid last finalization proof for sync",
            ErrorKind::Input,
        ),
        (CliError::InvalidVoteTarget, "invalid agenda commit hash to vote on", ErrorKind::Input),
        (CliError::InvalidVetoTarget, "invalid block commit hash to veto on", ErrorKind::Input),
        (CliError::SigningFailed, "failed to sign", ErrorKind::Cryptographic),
        (CliError::NotImplemented, "not implemented", ErrorKind::NotImplemented),
    ];
    for (failure, words, class) in cases {
        assert_eq!(failure.message(), words);
        assert_eq!(failure.kind(), class);
    }
}

#[test]
fn failure_of_integrity_is_set_apart() {
    assert_eq!(
        handle(Failure::Integrity { message: "commit graph is broken".to_string() }),
        Handling::Integrity
    );
    assert_eq!(
        handle(Failure::Node { message: "no peer answered".to_string() }),
        Handling::Surface { message: "no peer answered".to_string() }
    );
    assert_eq!(
        handle(Failure::Rejected(CliError::InvalidVoteTarget)),
        Handling::Surface { message: "invalid agenda commit hash to vote on".to_string() }
    );
    assert_eq!(
        handle(Failure::Rejected(CliError::NotImplemented)),
        Handling::Surface { message: "not implemented".to_string() }
    );
}

#[test]
fn each_way_to_fail_has_its_class() {
    assert_eq!(
        Failure::Integrity { message: "commit graph is broken".to_string() }.kind(),
        ErrorKind::Integrity
    );
    assert_eq!(Failure::Node { message: "no peer answered".to_string() }.kind(), ErrorKind::Node);
    assert_eq!(Failure::Rejected(CliError::InvalidHash).kind(), ErrorKind::Input);
    assert_eq!(Failure::Rejected(CliError::SigningFailed).kind(), ErrorKind::Cryptographic);
    assert_eq!(Failure::Rejected(CliError::NotImplemented).kind(), ErrorKind::NotImplemented);
}

#[test]
fn block_is_shown_by_the_hash_of_its_header() {
    let mut hash = [0u8; 32];
    hash[0] = 0xab;
    hash[31] = 0x01;
    let line = show_line(&CommitInfo::Block { header_hash: Hash256 { hash }.to_hex() });
    assert_eq!(
        line,
        Ok("hash: ab00000000000000000000000000000000000000000000000000000000000001".to_string())
    );
    assert_eq!(
        show_line(&CommitInfo::Block { header_hash: String::new() }),
        Ok("hash: ".to_string())
    );
    assert_eq!(show_line(&CommitInfo::Other), Err(CliError::NotImplemented));
}
