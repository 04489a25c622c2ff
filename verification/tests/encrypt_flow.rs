use bed::screens::encrypt::{Action, Encrypt, Message};

const DESCR: &str = "wsh(or_d(pk([58b7f8dc/48'/1'/0'/2']tpubDEPBvXvhta3pjVaKokqC3eeMQnszj9ehFaA2zD5nSdkaccwGAizu8jVB2NeSpvmP2P52MBoZvNCixqXRJnTyXx51FQzARR63tjxQSyP3Btw/<0;1>/*),and_v(v:pkh([58b7f8dc/48'/1'/0'/2']tpubDEPBvXvhta3pjVaKokqC3eeMQnszj9ehFaA2zD5nSdkaccwGAizu8jVB2NeSpvmP2P52MBoZvNCixqXRJnTyXx51FQzARR63tjxQSyP3Btw/<2;3>/*),older(52596))))#pggrcdd0";

#[test]
fn descriptor_file_is_trimmed_and_accepted() {
    let bytes = format!("\n{}\t ", DESCR).into_bytes();
    let m = Encrypt::on_descriptor_read(Some(bytes));
    assert_eq!(m, Message::Descriptor(DESCR.to_string()));
}

#[test]
fn descriptor_file_with_invalid_text_is_rejected() {
    let m = Encrypt::on_descriptor_read(Some(b"wsh(nonsense)".to_vec()));
    assert_eq!(
        m,
        Message::Error("File does not contains a valid descriptor.".to_string())
    );
    let m = Encrypt::on_descriptor_read(Some(vec![0xC0, 0x80]));
    assert_eq!(
        m,
        Message::Error("File does not contains a valid descriptor.".to_string())
    );
}

#[test]
fn cancelled_descriptor_dialog_is_reported() {
    let m = Encrypt::on_descriptor_read(None);
    assert_eq!(m, Message::Error("Fail to open file".to_string()));
}

#[test]
fn encrypt_without_descriptor_is_a_no_op() {
    let mut e = Encrypt::new();
    assert_eq!(e.update(Message::Encrypt), Action::Stay);
}

#[test]
fn successful_encrypt_stores_reports_and_chains_into_persist() {
    let mut e = Encrypt::new();
    let a = e.update(Message::Descriptor(DESCR.to_string()));
    assert_eq!(a, Action::Stay);
    assert_eq!(e.descriptor(), &Some(DESCR.to_string()));

    let a = e.update(Message::Encrypt);
    let d = match a {
        Action::RunEncrypt(d) => d,
        other => panic!("expected an encryption run, got {:?}", other),
    };
    assert_eq!(d, DESCR);

    let m = Encrypt::run_encrypt_with(&d, [3u8; 12]);
    let bytes = match &m {
        Message::EncryptedPayload(b) => b.clone(),
        other => panic!("encryption failed: {:?}", other),
    };

    // Storing the payload reports success and asks at once to save it.
    let a = e.update(m);
    assert_eq!(a, Action::SaveBackup(bytes.clone()));
    assert_eq!(e.encrypted_payload(), &Some(bytes));
    assert_eq!(e.error().as_deref(), Some("Descriptor encrypted!"));
}

#[test]
fn encryption_under_a_fixed_nonce_is_deterministic() {
    let d = DESCR.to_string();
    let m1 = Encrypt::run_encrypt_with(&d, [5u8; 12]);
    let m2 = Encrypt::run_encrypt_with(&d, [5u8; 12]);
    assert_eq!(m1, m2);
}

#[test]
fn consecutive_encrypt_runs_use_fresh_nonces() {
    let d = DESCR.to_string();
    let b1 = match Encrypt::run_encrypt(&d) {
        Message::EncryptedPayload(b) => b,
        other => panic!("encryption failed: {:?}", other),
    };
    let b2 = match Encrypt::run_encrypt(&d) {
        Message::EncryptedPayload(b) => b,
        other => panic!("encryption failed: {:?}", other),
    };
    // The payload embeds the nonce, so fresh nonces give distinct payloads
    // for the same plaintext.
    assert_ne!(b1, b2);
}

#[test]
fn encrypt_persist_outcomes_map_to_events() {
    assert_eq!(
        Encrypt::on_persist_result(None),
        Message::Error("Fail to open file.".to_string())
    );
    assert_eq!(
        Encrypt::on_persist_result(Some(false)),
        Message::Error("Fail to write to disk.".to_string())
    );
    assert_eq!(
        Encrypt::on_persist_result(Some(true)),
        Message::Noop(String::new())
    );
}

#[test]
fn encrypt_failure_is_reported_with_details() {
    // A taproot descriptor whose only key is the standard unspendable one:
    // no encryption key can be derived from it, so encryption must fail.
    let d = "tr(50929b74c1a04954b78b4b6035e97a5e078a5a0f28ec96d547bfee9ace803ac0)".to_string();
    let m = Encrypt::run_encrypt_with(&d, [1u8; 12]);
    match m {
        Message::Error(e) => assert!(e.starts_with("Fail to encrypt descriptor: ")),
        other => panic!("expected an error, got {:?}", other),
    }
}
