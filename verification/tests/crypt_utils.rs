use xchacha20_poly1305_wasm::constants::{KEY_SIZE, NONCE_SIZE, POLY1305_AUTH_TAG_SIZE};
use xchacha20_poly1305_wasm::crypt_utils::{
    envelope_from_sealed, frame_envelope, key_from_slice, nonce_from_draw, perform_decryption,
    perform_encryption, plaintext_from_opened, seal_envelope, split_envelope, validate_key_size,
    validate_non_empty_data,
};
use xchacha20_poly1305_wasm::errors::CryptoError;

use chacha20poly1305::aead::{Aead, KeyInit};
use chacha20poly1305::{Key, XChaCha20Poly1305, XNonce};

#[test]
fn test_perform_encryption() {
    let plaintext = b"Hello, world!";
    let key = [0u8; KEY_SIZE];
    let ciphertext = perform_encryption(plaintext, &key).unwrap();
    assert_ne!(plaintext, ciphertext.as_slice());
}

#[test]
fn test_perform_decryption() {
    // Test with valid key
    let plaintext = b"Hello, world!";
    let key = [0u8; KEY_SIZE];
    let ciphertext = perform_encryption(plaintext, &key).unwrap();
    let decrypted = perform_decryption(&ciphertext, &key).unwrap();
    assert_eq!(plaintext, decrypted.as_slice());

    // Test with invalid key
    let invalid_key = [1u8; KEY_SIZE];
    let decrypted = perform_decryption(&ciphertext, &invalid_key);
    assert!(decrypted.is_err());
}

#[test]
fn test_validate_key_size() {
    let true_key = [0u8; KEY_SIZE];
    let small_key = [0u8; KEY_SIZE - 1];
    let big_key = [0u8; KEY_SIZE + 1];

    assert!(validate_key_size(&true_key).is_ok());
    assert!(validate_key_size(&small_key[..KEY_SIZE - 1]).is_err());
    assert!(validate_key_size(&big_key[..KEY_SIZE + 1]).is_err());
}

#[test]
fn test_validate_non_empty_data() {
    assert!(validate_non_empty_data(b"Hello, world!").is_ok());
    assert!(validate_non_empty_data(b"").is_err());
}

#[test]
fn constants_have_the_sizes_of_the_construction() {
    assert_eq!(KEY_SIZE, 32);
    assert_eq!(NONCE_SIZE, 24);
    assert_eq!(POLY1305_AUTH_TAG_SIZE, 16);
}

#[test]
fn key_size_error_names_the_expected_size() {
    let short = [7u8; 31];
    assert!(matches!(
        validate_key_size(&short),
        Err(CryptoError::InvalidKeySize { size: 32 })
    ));
    assert!(matches!(
        validate_key_size(&[]),
        Err(CryptoError::InvalidKeySize { size: 32 })
    ));
    let long = [7u8; 64];
    assert!(matches!(
        validate_key_size(&long),
        Err(CryptoError::InvalidKeySize { size: 32 })
    ));
}

#[test]
fn empty_data_error_is_its_own_kind() {
    assert!(matches!(validate_non_empty_data(&[]), Err(CryptoError::EmptyData)));
    assert!(validate_non_empty_data(&[0u8]).is_ok());
}

#[test]
fn key_from_slice_keeps_every_byte() {
    let bytes: Vec<u8> = (0u8..32).collect();
    let fixed = key_from_slice(&bytes);
    assert_eq!(fixed.as_slice(), bytes.as_slice());
    assert_eq!(fixed[0], 0);
    assert_eq!(fixed[31], 31);
}

#[test]
fn frame_envelope_puts_the_nonce_first() {
    let mut nonce = [0u8; NONCE_SIZE];
    for (i, byte) in nonce.iter_mut().enumerate() {
        *byte = 100 + i as u8;
    }
    let sealed: Vec<u8> = vec![1, 2, 3, 4, 5];
    let envelope = frame_envelope(&nonce, sealed);
    assert_eq!(envelope.len(), 29);
    assert_eq!(&envelope[..24], &nonce[..]);
    assert_eq!(&envelope[24..], &[1u8, 2, 3, 4, 5][..]);
}

#[test]
fn frame_envelope_of_nothing_is_the_nonce() {
    let nonce = [9u8; NONCE_SIZE];
    let envelope = frame_envelope(&nonce, Vec::new());
    assert_eq!(envelope, vec![9u8; 24]);
}

#[test]
fn split_envelope_undoes_frame_envelope() {
    let nonce = [3u8; NONCE_SIZE];
    let envelope = frame_envelope(&nonce, vec![8u8, 9, 10]);
    let (head, body) = split_envelope(&envelope).unwrap();
    assert_eq!(head, &nonce[..]);
    assert_eq!(body, &[8u8, 9, 10][..]);
}

#[test]
fn split_envelope_needs_a_whole_nonce() {
    assert!(matches!(split_envelope(&[]), Err(CryptoError::MalformedEnvelope)));
    assert!(matches!(split_envelope(&[0u8; 10]), Err(CryptoError::MalformedEnvelope)));
    assert!(matches!(split_envelope(&[0u8; 23]), Err(CryptoError::MalformedEnvelope)));
    let exact = [5u8; 24];
    let (head, body) = split_envelope(&exact).unwrap();
    assert_eq!(head, &exact[..]);
    assert!(body.is_empty());
}

#[test]
fn seal_envelope_agrees_with_the_primitive() {
    let key = [0x42u8; KEY_SIZE];
    let nonce = [0x24u8; NONCE_SIZE];
    let plaintext = b"Hello, world!";
    let envelope = seal_envelope(plaintext, &key, &nonce).unwrap();

    let cipher = XChaCha20Poly1305::new(Key::from_slice(&key));
    let sealed = cipher.encrypt(XNonce::from_slice(&nonce), &plaintext[..]).unwrap();
    assert_eq!(envelope.len(), 53);
    assert_eq!(&envelope[..24], &nonce[..]);
    assert_eq!(&envelope[24..], sealed.as_slice());
}

#[test]
fn seal_envelope_is_fixed_by_its_arguments() {
    let key = [1u8; KEY_SIZE];
    let nonce = [2u8; NONCE_SIZE];
    let first = seal_envelope(b"same bytes", &key, &nonce).unwrap();
    let second = seal_envelope(b"same bytes", &key, &nonce).unwrap();
    assert_eq!(first, second);

    let other_nonce = [3u8; NONCE_SIZE];
    let third = seal_envelope(b"same bytes", &key, &other_nonce).unwrap();
    assert_ne!(first[24..], third[24..]);
}

#[test]
fn seal_envelope_does_not_hand_the_plaintext_back() {
    let key = [0u8; KEY_SIZE];
    let nonce = [0u8; NONCE_SIZE];
    let plaintext = [0x55u8; 64];
    let envelope = seal_envelope(&plaintext, &key, &nonce).unwrap();
    assert_eq!(envelope.len(), 64 + 40);
    assert_ne!(&envelope[24..24 + 64], &plaintext[..]);
}

#[test]
fn seal_envelope_takes_an_empty_plaintext() {
    let key = [0u8; KEY_SIZE];
    let nonce = [0u8; NONCE_SIZE];
    let envelope = seal_envelope(&[], &key, &nonce).unwrap();
    assert_eq!(envelope.len(), 40);
    let opened = perform_decryption(&envelope, &key).unwrap();
    assert!(opened.is_empty());
}

#[test]
fn perform_decryption_opens_what_the_primitive_sealed() {
    let key = [0x11u8; KEY_SIZE];
    let nonce = [0x22u8; NONCE_SIZE];
    let cipher = XChaCha20Poly1305::new(Key::from_slice(&key));
    let sealed = cipher.encrypt(XNonce::from_slice(&nonce), &b"from outside"[..]).unwrap();
    let mut envelope: Vec<u8> = nonce.to_vec();
    envelope.extend_from_slice(&sealed);
    let opened = perform_decryption(&envelope, &key).unwrap();
    assert_eq!(opened.as_slice(), b"from outside");
    assert_ne!(opened.as_slice(), &envelope[24..]);
}

#[test]
fn perform_decryption_of_a_short_envelope_is_malformed() {
    let key = [0u8; KEY_SIZE];
    assert!(matches!(perform_decryption(&[], &key), Err(CryptoError::MalformedEnvelope)));
    assert!(matches!(
        perform_decryption(&[0u8; 23], &key),
        Err(CryptoError::MalformedEnvelope)
    ));
}

#[test]
fn perform_decryption_without_a_whole_tag_fails_as_decryption() {
    let key = [0u8; KEY_SIZE];
    assert!(matches!(perform_decryption(&[0u8; 24], &key), Err(CryptoError::Decryption(_))));
    assert!(matches!(perform_decryption(&[0u8; 39], &key), Err(CryptoError::Decryption(_))));
    assert!(matches!(perform_decryption(&[0u8; 40], &key), Err(CryptoError::Decryption(_))));
}

#[test]
fn perform_encryption_round_trips_many_lengths() {
    let key = [0xA5u8; KEY_SIZE];
    let lengths: [usize; 8] = [1, 2, 15, 16, 63, 64, 65, 1000];
    for len in lengths {
        let plaintext: Vec<u8> = (0..len).map(|i| (i % 251) as u8).collect();
        let envelope = perform_encryption(&plaintext, &key).unwrap();
        assert_eq!(envelope.len(), len + 40);
        let opened = perform_decryption(&envelope, &key).unwrap();
        assert_eq!(opened, plaintext);
    }
}

#[test]
fn nonce_from_draw_keeps_the_drawn_bytes() {
    let mut drawn = [0u8; NONCE_SIZE];
    drawn[0] = 1;
    drawn[23] = 255;
    let nonce = nonce_from_draw(Ok(drawn)).unwrap();
    assert_eq!(nonce, drawn);
}

#[test]
fn nonce_from_draw_reports_a_failed_source() {
    let outcome = nonce_from_draw(Err(getrandom::Error::UNSUPPORTED));
    match outcome {
        Err(CryptoError::NonceGeneration(cause)) => {
            assert_eq!(cause, getrandom::Error::UNSUPPORTED)
        }
        other => panic!("expected a failed nonce draw, got {:?}", other),
    }
}

#[test]
fn envelope_from_sealed_frames_what_was_sealed() {
    let nonce = [4u8; NONCE_SIZE];
    let envelope = envelope_from_sealed(&nonce, Ok(vec![1u8, 2, 3])).unwrap();
    let mut expected = vec![4u8; 24];
    expected.extend_from_slice(&[1, 2, 3]);
    assert_eq!(envelope, expected);
}

#[test]
fn envelope_from_sealed_reports_a_refusal() {
    let nonce = [4u8; NONCE_SIZE];
    let outcome = envelope_from_sealed(&nonce, Err(chacha20poly1305::aead::Error));
    assert!(matches!(outcome, Err(CryptoError::Encryption(chacha20poly1305::aead::Error))));
}

#[test]
fn plaintext_from_opened_keeps_the_opened_bytes() {
    let plaintext = plaintext_from_opened(Ok(vec![10u8, 20, 30])).unwrap();
    assert_eq!(plaintext, vec![10u8, 20, 30]);
}

#[test]
fn plaintext_from_opened_reports_a_refusal() {
    let outcome = plaintext_from_opened(Err(chacha20poly1305::aead::Error));
    assert!(matches!(outcome, Err(CryptoError::Decryption(chacha20poly1305::aead::Error))));
}

#[test]
fn what_opens_is_what_sealing_gives() {
    let key = [0x5Au8; KEY_SIZE];
    let plaintext = b"sealed once, opened once";
    let envelope = perform_encryption(plaintext, &key).unwrap();
    let opened = perform_decryption(&envelope, &key).unwrap();

    let mut nonce = [0u8; NONCE_SIZE];
    nonce.copy_from_slice(&envelope[..NONCE_SIZE]);
    let resealed = seal_envelope(&opened, &key, &nonce).unwrap();
    assert_eq!(resealed, envelope);
    assert_eq!(envelope.len(), opened.len() + NONCE_SIZE + POLY1305_AUTH_TAG_SIZE);
}
