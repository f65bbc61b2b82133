use schnorrpy::derive_keypair;
use schnorrpy::keypair_from_seed;
use schnorrpy::protocol::derive_twice;
use schnorrpy::protocol::sign_then_verify;
use schnorrpy::sign;
use schnorrpy::sign_with_context;
use schnorrpy::verify;
use schnorrpy::verify_bytes;
use schnorrpy::verify_with_context;
use schnorrpy::Keypair;
use schnorrpy::Message;
use schnorrpy::PublicKey;
use schnorrpy::Seed;
use schnorrpy::SigError;
use schnorrpy::Signature;

fn seed_of(byte: u8) -> Seed {
    Seed::new(vec![byte; 32]).unwrap()
}

fn signed(keypair: &Keypair, msg: &[u8]) -> Signature {
    sign(keypair, &Message::new(msg.to_vec())).unwrap()
}

/// 32 bytes that are not a canonical group-element encoding.
fn invalid_point_bytes() -> Vec<u8> {
    vec![0xffu8; 32]
}

#[test]
fn derivation_is_deterministic() {
    let seed = seed_of(7);
    let (first, second) = derive_twice(&seed);
    assert_eq!(first.public_bytes(), second.public_bytes());
    assert_eq!(first.private_bytes(), second.private_bytes());

    let again = keypair_from_seed(&seed);
    assert_eq!(first.public_bytes(), again.public_bytes());
    assert_eq!(first.private_bytes(), again.private_bytes());
}

#[test]
fn derivation_differs_per_seed() {
    let a = keypair_from_seed(&seed_of(1));
    let b = keypair_from_seed(&seed_of(2));
    assert_ne!(a.public_bytes(), b.public_bytes());
}

#[test]
fn derived_keypair_has_expected_widths() {
    let keypair = keypair_from_seed(&seed_of(3));
    assert_eq!(keypair.public_bytes().len(), 32);
    assert_eq!(keypair.private_bytes().len(), 64);
}

#[test]
fn sign_and_verify_round_trip() {
    let keypair = keypair_from_seed(&seed_of(42));
    let message = Message::new(b"attack at dawn".to_vec());
    let signature = sign(&keypair, &message).unwrap();
    assert_eq!(signature.as_bytes().len(), 64);
    assert!(verify(&signature, &message, &keypair.public_key()));
}

#[test]
fn round_trip_law_holds_on_concrete_values() {
    let seed = seed_of(99);
    let message = Message::new(b"law check".to_vec());
    assert!(sign_then_verify(&seed, &message));
}

#[test]
fn empty_message_round_trip() {
    let keypair = keypair_from_seed(&seed_of(5));
    let message = Message::new(Vec::new());
    let signature = sign(&keypair, &message).unwrap();
    assert!(verify(&signature, &message, &keypair.public_key()));
}

#[test]
fn flipping_any_message_bit_rejects() {
    let keypair = keypair_from_seed(&seed_of(11));
    let msg = b"short message".to_vec();
    let signature = signed(&keypair, &msg);
    let public = keypair.public_key();
    for byte in 0..msg.len() {
        for bit in 0..8 {
            let mut tampered = msg.clone();
            tampered[byte] ^= 1 << bit;
            assert!(!verify(&signature, &Message::new(tampered), &public));
        }
    }
}

#[test]
fn flipping_any_signature_bit_rejects() {
    let keypair = keypair_from_seed(&seed_of(12));
    let message = Message::new(b"payload".to_vec());
    let signature = sign(&keypair, &message).unwrap();
    let public = keypair.public_key();
    for byte in 0..64 {
        for bit in 0..8 {
            let mut tampered = signature.as_bytes().clone();
            tampered[byte] ^= 1 << bit;
            let tampered = Signature::new(tampered).unwrap();
            assert!(!verify(&tampered, &message, &public));
        }
    }
}

#[test]
fn flipping_any_public_key_bit_rejects() {
    let keypair = keypair_from_seed(&seed_of(13));
    let message = Message::new(b"payload".to_vec());
    let signature = sign(&keypair, &message).unwrap();
    for byte in 0..32 {
        for bit in 0..8 {
            let mut tampered = keypair.public_bytes().clone();
            tampered[byte] ^= 1 << bit;
            let tampered = PublicKey::new(tampered).unwrap();
            assert!(!verify(&signature, &message, &tampered));
        }
    }
}

#[test]
fn signature_fails_under_another_context() {
    let keypair = keypair_from_seed(&seed_of(21));
    let message = Message::new(b"cross context".to_vec());
    let public = keypair.public_key();

    let signature = sign(&keypair, &message).unwrap();
    assert!(verify(&signature, &message, &public));
    assert!(!verify_with_context(&b"other context".to_vec(), &signature, &message, &public));

    let foreign = sign_with_context(&b"other context".to_vec(), &keypair, &message).unwrap();
    assert!(!verify(&foreign, &message, &public));
}

#[test]
fn seed_lengths_are_validated() {
    assert!(Seed::new(vec![0u8; 32]).is_ok());
    assert!(matches!(Seed::new(vec![0u8; 31]), Err(SigError::InvalidInput)));
    assert!(matches!(Seed::new(vec![0u8; 33]), Err(SigError::InvalidInput)));
    assert!(matches!(Seed::new(Vec::new()), Err(SigError::InvalidInput)));

    assert!(derive_keypair(&vec![9u8; 32]).is_ok());
    assert!(matches!(derive_keypair(&vec![9u8; 16]), Err(SigError::InvalidInput)));
    assert!(matches!(derive_keypair(&Vec::new()), Err(SigError::InvalidInput)));
}

#[test]
fn signature_and_key_widths_are_validated() {
    assert!(Signature::new(vec![0u8; 64]).is_ok());
    assert!(matches!(Signature::new(vec![0u8; 63]), Err(SigError::InvalidInput)));
    assert!(matches!(Signature::new(vec![0u8; 65]), Err(SigError::InvalidInput)));

    assert!(PublicKey::new(vec![0u8; 32]).is_ok());
    assert!(matches!(PublicKey::new(vec![0u8; 31]), Err(SigError::InvalidInput)));

    assert!(Keypair::from_parts(vec![0u8; 32], vec![0u8; 64]).is_ok());
    assert!(matches!(
        Keypair::from_parts(vec![0u8; 31], vec![0u8; 64]),
        Err(SigError::InvalidInput)
    ));
    assert!(matches!(
        Keypair::from_parts(vec![0u8; 32], vec![0u8; 63]),
        Err(SigError::InvalidInput)
    ));
}

#[test]
fn verify_bytes_rejects_malformed_buffers() {
    let keypair = keypair_from_seed(&seed_of(31));
    let message = Message::new(b"raw bytes".to_vec());
    let signature = sign(&keypair, &message).unwrap();

    assert!(verify_bytes(signature.as_bytes(), message.as_bytes(), keypair.public_bytes()));
    assert!(!verify_bytes(&vec![0u8; 63], message.as_bytes(), keypair.public_bytes()));
    assert!(!verify_bytes(&vec![0u8; 65], message.as_bytes(), keypair.public_bytes()));
    assert!(!verify_bytes(&Vec::new(), message.as_bytes(), keypair.public_bytes()));
    assert!(!verify_bytes(signature.as_bytes(), message.as_bytes(), &vec![0u8; 31]));
    assert!(!verify_bytes(signature.as_bytes(), message.as_bytes(), &Vec::new()));
}

#[test]
fn zero_seed_scenario() {
    let seed = Seed::new(vec![0u8; 32]).unwrap();
    let first = keypair_from_seed(&seed);
    let second = keypair_from_seed(&seed);
    assert_eq!(first.public_bytes(), second.public_bytes());
    assert_eq!(first.private_bytes(), second.private_bytes());

    let message = Message::new(b"test".to_vec());
    let signature = sign(&first, &message).unwrap();
    assert!(verify(&signature, &message, &first.public_key()));

    let changed = Message::new(b"Test".to_vec());
    assert!(!verify(&signature, &changed, &first.public_key()));
}

#[test]
fn invalid_public_key_rejected_by_sign_and_verify() {
    let good = keypair_from_seed(&seed_of(55));
    let message = Message::new(b"audit".to_vec());

    let bad_pair = Keypair::from_parts(invalid_point_bytes(), good.private_bytes().clone()).unwrap();
    assert!(matches!(sign(&bad_pair, &message), Err(SigError::InvalidKeyMaterial)));

    let signature = sign(&good, &message).unwrap();
    let bad_key = PublicKey::new(invalid_point_bytes()).unwrap();
    assert!(!verify(&signature, &message, &bad_key));
}

#[test]
fn invalid_private_key_rejected_by_sign() {
    let good = keypair_from_seed(&seed_of(56));
    let message = Message::new(b"audit".to_vec());

    let mut bad_private = vec![0xffu8; 32];
    bad_private.extend_from_slice(&[0u8; 32]);
    let bad_pair = Keypair::from_parts(good.public_bytes().clone(), bad_private).unwrap();
    assert!(matches!(sign(&bad_pair, &message), Err(SigError::InvalidKeyMaterial)));
}

#[test]
fn signature_is_bound_to_its_keypair() {
    let alice = keypair_from_seed(&seed_of(61));
    let bob = keypair_from_seed(&seed_of(62));
    let message = Message::new(b"to whom it may concern".to_vec());
    let signature = sign(&alice, &message).unwrap();
    assert!(verify(&signature, &message, &alice.public_key()));
    assert!(!verify(&signature, &message, &bob.public_key()));
}
