use bed::screens::decrypt::{Action, Decrypt, Message};
use bitcoin_encrypted_backup::descriptor::dpk_to_pk;
use bitcoin_encrypted_backup::miniscript::{Descriptor, DescriptorPublicKey};
use bitcoin_encrypted_backup::{Content, EncryptedBackup};
use std::str::FromStr;

const DESCR: &str = "wsh(or_d(pk([58b7f8dc/48'/1'/0'/2']tpubDEPBvXvhta3pjVaKokqC3eeMQnszj9ehFaA2zD5nSdkaccwGAizu8jVB2NeSpvmP2P52MBoZvNCixqXRJnTyXx51FQzARR63tjxQSyP3Btw/<0;1>/*),and_v(v:pkh([58b7f8dc/48'/1'/0'/2']tpubDEPBvXvhta3pjVaKokqC3eeMQnszj9ehFaA2zD5nSdkaccwGAizu8jVB2NeSpvmP2P52MBoZvNCixqXRJnTyXx51FQzARR63tjxQSyP3Btw/<2;3>/*),older(52596))))#pggrcdd0";

const KEY: &str = "[58b7f8dc/48'/1'/0'/2']tpubDEPBvXvhta3pjVaKokqC3eeMQnszj9ehFaA2zD5nSdkaccwGAizu8jVB2NeSpvmP2P52MBoZvNCixqXRJnTyXx51FQzARR63tjxQSyP3Btw/<0;1>/*";

/// An encrypted backup of the fixture descriptor, made under a fixed nonce.
fn fixture_payload() -> Vec<u8> {
    match bed::screens::encrypt::Encrypt::run_encrypt_with(&DESCR.to_string(), [7u8; 12]) {
        bed::screens::encrypt::Message::EncryptedPayload(bytes) => bytes,
        other => panic!("encryption failed: {:?}", other),
    }
}

#[test]
fn invalid_payload_is_rejected_and_leaves_inputs() {
    let mut d = Decrypt::new();
    let m = Decrypt::on_backup_read(Some(vec![1, 2, 3]));
    assert_eq!(m, Message::Error("Invalid payload".to_string()));
    let a = d.update(m);
    assert_eq!(a, Action::Stay);
    assert_eq!(d.encrypted_payload(), &None);
    assert_eq!(d.key(), &None);
    assert_eq!(d.error().as_deref(), Some("Invalid payload"));
}

#[test]
fn valid_payload_is_accepted() {
    let payload = fixture_payload();
    let m = Decrypt::on_backup_read(Some(payload.clone()));
    assert_eq!(m, Message::EncryptedPayload(payload));
}

#[test]
fn cancelled_dialog_only_sets_message() {
    let payload = fixture_payload();
    let mut d = Decrypt::new();
    d.update(Message::EncryptedPayload(payload.clone()));
    d.update(Message::Key(KEY.to_string()));
    assert!(d.is_valid());

    let m = Decrypt::on_backup_read(None);
    assert_eq!(m, Message::Error("Fail to open file".to_string()));
    let a = d.update(m);
    assert_eq!(a, Action::Stay);
    assert_eq!(d.encrypted_payload(), &Some(payload));
    assert_eq!(d.key(), &Some(KEY.to_string()));
    assert_eq!(d.descriptor(), &None);
    assert!(d.is_valid());
    assert_eq!(d.error().as_deref(), Some("Fail to open file"));
}

#[test]
fn key_file_with_invalid_utf8_is_rejected() {
    let m = Decrypt::on_key_read(Some(vec![0xff, 0xfe, 0xff]));
    assert_eq!(
        m,
        Message::Error("this file does not contains a valid key".to_string())
    );
}

#[test]
fn key_file_with_invalid_key_text_is_rejected() {
    let m = Decrypt::on_key_read(Some(b"not a key".to_vec()));
    assert_eq!(
        m,
        Message::Error("this file does not contains a valid key".to_string())
    );
}

#[test]
fn key_file_is_trimmed_and_accepted() {
    let bytes = format!("  {}\n", KEY).into_bytes();
    let m = Decrypt::on_key_read(Some(bytes));
    assert_eq!(m, Message::Key(KEY.to_string()));
}

#[test]
fn ready_iff_both_inputs_present() {
    let mut d = Decrypt::new();
    assert!(!d.is_valid());
    d.update(Message::Key(KEY.to_string()));
    assert!(!d.is_valid());
    assert_eq!(d.key(), &Some(KEY.to_string()));
    d.update(Message::EncryptedPayload(vec![0u8]));
    assert!(d.is_valid());
}

#[test]
fn decrypt_without_inputs_is_a_no_op() {
    let mut d = Decrypt::new();
    assert_eq!(d.update(Message::Decrypt), Action::Stay);
    d.update(Message::Key(KEY.to_string()));
    assert_eq!(d.update(Message::Decrypt), Action::Stay);
}

#[test]
fn round_trip_restores_the_descriptor() {
    let payload = fixture_payload();
    let mut d = Decrypt::new();
    d.update(Message::EncryptedPayload(payload.clone()));
    d.update(Message::Key(KEY.to_string()));
    let a = d.update(Message::Decrypt);
    let (p, k) = match a {
        Action::RunDecrypt(p, k) => (p, k),
        other => panic!("expected a decryption run, got {:?}", other),
    };
    assert_eq!(p, payload);
    assert_eq!(k, KEY);

    let expected = Descriptor::<DescriptorPublicKey>::from_str(DESCR)
        .unwrap()
        .to_string();
    let m = Decrypt::run_decrypt(&p, &k);
    assert_eq!(m, Message::Descriptor(expected.clone()));

    let a = d.update(m);
    assert_eq!(a, Action::Stay);
    assert_eq!(d.descriptor(), &Some(expected.clone()));

    let a = d.update(Message::Persist);
    assert_eq!(a, Action::SaveDescriptor(expected));
}

#[test]
fn wrong_key_fails_to_decrypt() {
    // A key that is valid in form but unrelated to the fixture descriptor.
    let other = "tpubD6NzVbkrYhZ4XWBqjZ7DTB4eFvi8eQZ79UvNbQFsxXiaMNaBn83jpMWTXLX2Gx6JgC5n9jWvx6vnijcAUgxXmRtFd4ntasRGNsYSCvQteSr";
    let payload = fixture_payload();
    let m = Decrypt::run_decrypt(&payload, &other.to_string());
    assert_eq!(
        m,
        Message::Error("This key fails to decrypt the encrypted payload".to_string())
    );
}

#[test]
fn decrypted_non_descriptor_payload_is_reported() {
    let dpk = DescriptorPublicKey::from_str(KEY).unwrap();
    let raw = EncryptedBackup::new()
        .set_payload(&vec![0u8])
        .unwrap()
        .set_keys(vec![dpk_to_pk(&dpk)])
        .set_content_type(Content::None)
        .encrypt([9u8; 12])
        .unwrap();

    let mut d = Decrypt::new();
    d.update(Message::EncryptedPayload(raw.clone()));
    d.update(Message::Key(KEY.to_string()));
    let m = Decrypt::run_decrypt(&raw, &KEY.to_string());
    assert_eq!(
        m,
        Message::Error("Payload decrypted, but not of type descriptor".to_string())
    );
    d.update(m);
    assert_eq!(d.descriptor(), &None);
    assert_eq!(
        d.error().as_deref(),
        Some("Payload decrypted, but not of type descriptor")
    );
}

#[test]
fn decrypt_persist_outcomes_map_to_events() {
    assert_eq!(
        Decrypt::on_persist_result(None),
        Message::Error("Fail to open file.".to_string())
    );
    assert_eq!(
        Decrypt::on_persist_result(Some(false)),
        Message::Error("Fail to write to disk.".to_string())
    );
    assert_eq!(
        Decrypt::on_persist_result(Some(true)),
        Message::Noop(String::new())
    );
}

#[test]
fn persist_without_output_is_a_no_op() {
    let mut d = Decrypt::new();
    assert_eq!(d.update(Message::Persist), Action::Stay);
}

#[test]
fn successful_input_clears_the_status_message() {
    let mut d = Decrypt::new();
    d.update(Message::Error("Invalid payload".to_string()));
    assert_eq!(d.error().as_deref(), Some("Invalid payload"));
    d.update(Message::EncryptedPayload(vec![0u8]));
    assert_eq!(d.error(), &None);
    d.update(Message::Error("oops".to_string()));
    d.update(Message::Key(KEY.to_string()));
    assert_eq!(d.error(), &None);
}
