use simperby_cli::error::{CliError, PayloadKind};
use simperby_cli::finalization::{decode_finalization_proof, FinalizationProof};
use simperby_cli::hash::CommitHash;
use simperby_cli::record::{quoted_body, record_body};
use simperby_cli::value::{
    decode_delegatee, decode_delegator, decode_proof, decode_veto_target, decode_vote_target,
    PublicKey, Signature, TypedSignature,
};

#[test]
fn record_frame_is_taken_off() {
    assert_eq!(record_body(b"{\"key\":\"04\"}", b"key"), Some(&b"\"04\""[..]));
    assert_eq!(record_body(b"{\"key\":}", b"key"), Some(&b""[..]));
    assert_eq!(record_body(b"{\"a\":{\"b\":1}}", b"a"), Some(&b"{\"b\":1}"[..]));
    assert_eq!(record_body(b"{\"\":x}", b""), Some(&b"x"[..]));
}

#[test]
fn text_that_is_no_record_of_the_label_is_refused() {
    for text in [
        &b""[..],
        b"{}",
        b"{\"key\":",
        b"\"key\":\"04\"}",
        b"{\"kex\":\"04\"}",
        b"{\"ke\":\"04\"}",
        b"{\"keys\":\"04\"}",
        b"{\"key\" :\"04\"}",
        b"{ \"key\":\"04\"}",
        b"{\"key\":\"04\"} ",
        b"{'key':\"04\"}",
        b"[\"key\":\"04\"]",
        b"{\"key\"=\"04\"}",
    ] {
        assert_eq!(record_body(text, b"key"), None, "{:?}", String::from_utf8_lossy(text));
    }
}

#[test]
fn quotes_are_taken_off() {
    assert_eq!(quoted_body(b"\"04ab\""), Some(&b"04ab"[..]));
    assert_eq!(quoted_body(b"\"\""), Some(&b""[..]));
    assert_eq!(quoted_body(b"\""), None);
    assert_eq!(quoted_body(b""), None);
    assert_eq!(quoted_body(b"04ab"), None);
    assert_eq!(quoted_body(b"\"04ab"), None);
    assert_eq!(quoted_body(b"04ab\""), None);
    assert_eq!(quoted_body(b"'04ab'"), None);
}

#[test]
fn key_is_read_from_its_text() {
    assert_eq!(
        PublicKey::decode("{\"key\":\"04ab10ff\"}"),
        Some(PublicKey { key: vec![0x04, 0xab, 0x10, 0xff] })
    );
    assert_eq!(
        PublicKey::decode("{\"key\":\"04AB10Ff\"}"),
        Some(PublicKey { key: vec![0x04, 0xab, 0x10, 0xff] })
    );
    assert_eq!(PublicKey::decode("{\"key\":\"\"}"), Some(PublicKey { key: vec![] }));
}

#[test]
fn malformed_key_is_refused_whole() {
    for text in [
        "",
        "04ab",
        "\"04ab\"",
        "{\"key\":04ab}",
        "{\"key\":\"04a\"}",
        "{\"key\":\"04ag\"}",
        "{\"key\":\"04 ab\"}",
        "{\"key\": \"04ab\"}",
        "{\"key\":\"04ab\"}\n",
        "{\"signature\":\"04ab\"}",
        "{\"key\":\"04ab\",\"x\":\"\"}",
        "{\"key\":\"04\"ab\"}",
        "{\"key\":\"0x04ab\"}",
    ] {
        assert_eq!(PublicKey::decode(text), None, "{:?}", text);
    }
}

#[test]
fn signature_is_read_from_its_text() {
    assert_eq!(
        Signature::decode("{\"signature\":\"0102\"}"),
        Some(Signature { signature: vec![1, 2] })
    );
    assert_eq!(Signature::decode("{\"key\":\"0102\"}"), None);
    assert_eq!(Signature::decode("{\"signature\":{\"signature\":\"0102\"}}"), None);
    assert_eq!(Signature { signature: vec![0xca, 0xfe, 0x01] }.to_hex(), "cafe01");
}

#[test]
fn proof_is_read_from_its_text_and_bound_to_its_kind() {
    let text = "{\"signature\":{\"signature\":\"a1b2c3\"}}";
    let delegation = TypedSignature::decode(text, PayloadKind::Delegation);
    let undelegation = TypedSignature::decode(text, PayloadKind::Undelegation);
    assert_eq!(
        delegation,
        Some(TypedSignature::new(
            PayloadKind::Delegation,
            Signature { signature: vec![0xa1, 0xb2, 0xc3] }
        ))
    );
    let delegation = delegation.unwrap();
    let undelegation = undelegation.unwrap();
    assert_eq!(delegation.kind(), PayloadKind::Delegation);
    assert_eq!(undelegation.kind(), PayloadKind::Undelegation);
    assert_eq!(delegation.signature(), undelegation.signature());
    assert_eq!(delegation.signature().signature, vec![0xa1, 0xb2, 0xc3]);
    assert_ne!(delegation, undelegation);
}

#[test]
fn values_are_written_as_the_text_that_is_read() {
    let key = PublicKey { key: vec![0x04, 0xab, 0x10, 0xff] };
    assert_eq!(key.to_text(), "{\"key\":\"04ab10ff\"}");
    assert_eq!(PublicKey::decode(&key.to_text()), Some(key));
    let empty = PublicKey { key: vec![] };
    assert_eq!(empty.to_text(), "{\"key\":\"\"}");
    assert_eq!(PublicKey::decode(&empty.to_text()), Some(empty));

    let signature = Signature { signature: vec![0x00, 0x7f, 0x80, 0xff] };
    assert_eq!(signature.to_text(), "{\"signature\":\"007f80ff\"}");
    assert_eq!(Signature::decode(&signature.to_text()), Some(signature.clone()));

    let proof = TypedSignature::new(PayloadKind::Undelegation, signature);
    assert_eq!(proof.to_text(), "{\"signature\":{\"signature\":\"007f80ff\"}}");
    assert_eq!(
        TypedSignature::decode(&proof.to_text(), PayloadKind::Undelegation),
        Some(proof.clone())
    );
    assert_ne!(TypedSignature::decode(&proof.to_text(), PayloadKind::Delegation), Some(proof));
}

#[test]
fn finalization_proof_is_written_as_the_text_that_is_read() {
    let none = FinalizationProof { signatures: vec![] };
    assert_eq!(none.to_text(), "{\"signatures\":[]}");
    assert_eq!(FinalizationProof::decode(&none.to_text()), Some(none));

    let one = FinalizationProof { signatures: vec![Signature { signature: vec![0xab] }] };
    assert_eq!(one.to_text(), "{\"signatures\":[{\"signature\":\"ab\"}]}");
    assert_eq!(FinalizationProof::decode(&one.to_text()), Some(one));

    let three = FinalizationProof {
        signatures: vec![
            Signature { signature: vec![1, 2] },
            Signature { signature: vec![] },
            Signature { signature: vec![0xfe] },
        ],
    };
    assert_eq!(
        three.to_text(),
        "{\"signatures\":[{\"signature\":\"0102\"},{\"signature\":\"\"},{\"signature\":\"fe\"}]}"
    );
    assert_eq!(FinalizationProof::decode(&three.to_text()), Some(three));
}

#[test]
fn malformed_proof_is_refused_whole() {
    for text in [
        "",
        "{\"signature\":\"a1b2c3\"}",
        "{\"signature\":{\"signature\":\"a1b2c\"}}",
        "{\"signature\":{\"signature\":\"a1b2cx\"}}",
        "{\"signature\":{\"signature\":\"a1b2c3\"}",
        "{\"signature\":{\"key\":\"a1b2c3\"}}",
        "{\"signature\":{\"signature\":\"a1b2c3\"} }",
        "{\"signature\":{\"signature\":{\"signature\":\"a1b2c3\"}}}",
    ] {
        assert_eq!(TypedSignature::decode(text, PayloadKind::Delegation), None, "{:?}", text);
    }
}

#[test]
fn each_role_names_its_own_failure() {
    let bad = "not a value";
    assert_eq!(
        decode_delegator(bad, PayloadKind::Delegation),
        Err(CliError::InvalidDelegator(PayloadKind::Delegation))
    );
    assert_eq!(
        decode_delegator(bad, PayloadKind::Undelegation),
        Err(CliError::InvalidDelegator(PayloadKind::Undelegation))
    );
    assert_eq!(decode_delegatee(bad), Err(CliError::InvalidDelegatee));
    assert_eq!(
        decode_proof(bad, PayloadKind::Delegation),
        Err(CliError::InvalidProof(PayloadKind::Delegation))
    );
    assert_eq!(
        decode_proof(bad, PayloadKind::Undelegation),
        Err(CliError::InvalidProof(PayloadKind::Undelegation))
    );
    assert_eq!(decode_finalization_proof(bad), Err(CliError::InvalidFinalizationProof));
    assert_eq!(decode_vote_target(bad), Err(CliError::InvalidVoteTarget));
    assert_eq!(decode_veto_target(bad), Err(CliError::InvalidVetoTarget));
}

#[test]
fn each_role_reads_a_well_formed_value() {
    let key = "{\"key\":\"0401\"}";
    let expected = PublicKey { key: vec![4, 1] };
    assert_eq!(decode_delegator(key, PayloadKind::Delegation), Ok(expected.clone()));
    assert_eq!(decode_delegator(key, PayloadKind::Undelegation), Ok(expected.clone()));
    assert_eq!(decode_delegatee(key), Ok(expected));
    assert_eq!(
        decode_proof("{\"signature\":{\"signature\":\"ff\"}}", PayloadKind::Undelegation),
        Ok(TypedSignature::new(PayloadKind::Undelegation, Signature { signature: vec![0xff] }))
    );
}

#[test]
fn target_is_a_bare_commit_hash() {
    let text = "00112233445566778899aabbccddeeff00112233";
    let hash = CommitHash {
        hash: [
            0x00, 0x11, 0x22, 0x33, 0x44, 0x55, 0x66, 0x77, 0x88, 0x99, 0xaa, 0xbb, 0xcc, 0xdd,
            0xee, 0xff, 0x00, 0x11, 0x22, 0x33,
        ],
    };
    assert_eq!(decode_vote_target(text), Ok(hash));
    assert_eq!(decode_veto_target(text), Ok(hash));
    assert_eq!(decode_vote_target(&text[..39]), Err(CliError::InvalidVoteTarget));
    assert_eq!(decode_veto_target(&text[..39]), Err(CliError::InvalidVetoTarget));
    assert_eq!(decode_vote_target(""), Err(CliError::InvalidVoteTarget));
    assert_eq!(decode_veto_target(""), Err(CliError::InvalidVetoTarget));
    let quoted = format!("\"{}\"", text);
    assert_eq!(decode_vote_target(&quoted), Err(CliError::InvalidVoteTarget));
}

#[test]
fn finalization_proof_is_read_from_its_text() {
    assert_eq!(
        FinalizationProof::decode("{\"signatures\":[]}"),
        Some(FinalizationProof { signatures: vec![] })
    );
    assert_eq!(
        FinalizationProof::decode("{\"signatures\":[{\"signature\":\"01\"}]}"),
        Some(FinalizationProof { signatures: vec![Signature { signature: vec![1] }] })
    );
    assert_eq!(
        FinalizationProof::decode(
            "{\"signatures\":[{\"signature\":\"01\"},{\"signature\":\"\"},{\"signature\":\"A0b1\"}]}"
        ),
        Some(FinalizationProof {
            signatures: vec![
                Signature { signature: vec![1] },
                Signature { signature: vec![] },
                Signature { signature: vec![0xa0, 0xb1] },
            ]
        })
    );
}

#[test]
fn malformed_finalization_proof_is_refused_whole() {
    for text in [
        "",
        "[]",
        "{\"signatures\":}",
        "{\"signatures\":[}",
        "{\"signatures\":]}",
        "{\"signatures\":[,]}",
        "{\"signatures\":[ ]}",
        "{\"signatures\":[{\"signature\":\"01\"},]}",
        "{\"signatures\":[,{\"signature\":\"01\"}]}",
        "{\"signatures\":[{\"signature\":\"01\"},,{\"signature\":\"02\"}]}",
        "{\"signatures\":[{\"signature\":\"01\"}, {\"signature\":\"02\"}]}",
        "{\"signatures\":[{\"signature\":\"01\"}{\"signature\":\"02\"}]}",
        "{\"signatures\":[{\"signature\":\"01\"},{\"signature\":\"0\"}]}",
        "{\"signatures\":[{\"signature\":\"01\"},{\"key\":\"02\"}]}",
        "{\"signatures\":[\"01\"]}",
        "{\"signature\":[{\"signature\":\"01\"}]}",
        "{\"signatures\":[{\"signature\":\"01\"}]]}",
    ] {
        assert_eq!(FinalizationProof::decode(text), None, "{:?}", text);
        assert_eq!(decode_finalization_proof(text), Err(CliError::InvalidFinalizationProof));
    }
}
