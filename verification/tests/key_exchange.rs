use key_exchange::cipher::Aes256Cipher;
use key_exchange::exchange::{
    screen_peer_point, screen_shared_point, GenerateKeyPairUseCase, GenerateSecretKeyUseCase,
};
use key_exchange::models::{
    CryptoError, GenerateKeyPairRequest, GenerateKeyPairResult, GenerateSecretKeyRequest,
    GenerateSecretKeyResult, Point,
};
use key_exchange::random::generate_random_key;
use num_bigint::BigInt;

fn point(x: u64, y: u64) -> Point {
    Point::new(BigInt::from(x), BigInt::from(y))
}

#[test]
fn identity_point_is_recognised() {
    assert!(point(0, 1).is_identity());
    assert!(!point(0, 0).is_identity());
    assert!(!point(1, 1).is_identity());
    assert!(!point(0, 2).is_identity());
    assert!(!point(5, 7).is_identity());
}

#[test]
fn shared_identity_is_weak_secret() {
    let r = screen_shared_point(&point(0, 1));
    assert_eq!(r, Err(CryptoError::WeakSharedSecret));
}

#[test]
fn shared_ordinary_point_passes() {
    assert_eq!(screen_shared_point(&point(0, 2)), Ok(()));
    assert_eq!(screen_shared_point(&point(1, 1)), Ok(()));
    assert_eq!(screen_shared_point(&point(12345, 67890)), Ok(()));
}

#[test]
fn peer_identity_is_invalid_public_key() {
    let r = screen_peer_point(&point(0, 1));
    assert_eq!(r, Err(CryptoError::InvalidPublicKey));
}

#[test]
fn peer_ordinary_point_passes() {
    assert_eq!(screen_peer_point(&point(3, 4)), Ok(()));
}

#[test]
fn random_key_has_requested_length() {
    assert_eq!(generate_random_key(0).len(), 0);
    assert_eq!(generate_random_key(1).len(), 1);
    assert_eq!(generate_random_key(16).len(), 16);
    assert_eq!(generate_random_key(32).len(), 32);
}

#[test]
fn random_keys_differ() {
    let a = generate_random_key(32);
    let b = generate_random_key(32);
    assert_ne!(a, b);
}

#[test]
fn cipher_rejects_wrong_key_lengths() {
    for len in [0u64, 15, 16, 31, 33, 64] {
        let key = generate_random_key(len);
        match Aes256Cipher::new(key) {
            Err(e) => assert_eq!(e, CryptoError::InvalidKeyLength),
            Ok(_) => panic!("a {} byte key must be rejected", len),
        }
    }
}

#[test]
fn cipher_accepts_32_byte_key() {
    let key = generate_random_key(32);
    assert!(Aes256Cipher::new(key).is_ok());
}

#[test]
fn cipher_rejects_wrong_block_lengths() {
    let cipher = Aes256Cipher::new(generate_random_key(32)).unwrap();
    for len in [0u64, 15, 17] {
        let block = generate_random_key(len);
        assert_eq!(
            cipher.encrypt(block.clone()),
            Err(CryptoError::InvalidBlockLength)
        );
        assert_eq!(cipher.decrypt(block), Err(CryptoError::InvalidBlockLength));
    }
}

#[test]
fn cipher_known_answer() {
    // FIPS 197, appendix C.3: AES-256 with the byte-counting key.
    let key: Vec<u8> = (0u8..32).collect();
    let plaintext: Vec<u8> = vec![
        0x00, 0x11, 0x22, 0x33, 0x44, 0x55, 0x66, 0x77, 0x88, 0x99, 0xaa, 0xbb, 0xcc, 0xdd, 0xee,
        0xff,
    ];
    let ciphertext: Vec<u8> = vec![
        0x8e, 0xa2, 0xb7, 0xca, 0x51, 0x67, 0x45, 0xbf, 0xea, 0xfc, 0x49, 0x90, 0x4b, 0x49, 0x60,
        0x89,
    ];
    let cipher = Aes256Cipher::new(key).unwrap();
    assert_eq!(cipher.encrypt(plaintext.clone()).unwrap(), ciphertext);
    assert_eq!(cipher.decrypt(ciphertext).unwrap(), plaintext);
}

#[test]
fn cipher_round_trip_many_random_keys() {
    for _ in 0..120 {
        let key = generate_random_key(32);
        let block = generate_random_key(16);
        let cipher = Aes256Cipher::new(key).unwrap();
        let encrypted = cipher.encrypt(block.clone()).unwrap();
        assert_eq!(cipher.decrypt(encrypted).unwrap(), block);
        let decrypted = cipher.decrypt(block.clone()).unwrap();
        assert_eq!(cipher.encrypt(decrypted).unwrap(), block);
    }
}

#[test]
fn cipher_is_deterministic() {
    let key = generate_random_key(32);
    let block = generate_random_key(16);
    let cipher = Aes256Cipher::new(key).unwrap();
    assert_eq!(
        cipher.encrypt(block.clone()).unwrap(),
        cipher.encrypt(block).unwrap()
    );
}

#[test]
fn two_parties_share_one_cipher_key() {
    // Both parties hold the same derived 32-byte secret; a block encrypted on
    // one side decrypts identically on the other.
    let secret = generate_random_key(32);
    let message = generate_random_key(16);
    let party_a = Aes256Cipher::new(secret.clone()).unwrap();
    let party_b = Aes256Cipher::new(secret).unwrap();
    let sent = party_a.encrypt(message.clone()).unwrap();
    assert_eq!(party_b.decrypt(sent).unwrap(), message);
}

#[test]
fn result_constructors_keep_fields() {
    let secret: Vec<u8> = vec![9, 8, 7];
    let r = GenerateSecretKeyResult::from(secret.clone());
    assert_eq!(r.secret_key, secret);

    let pair = GenerateKeyPairResult::from(point(4, 9), secret.clone());
    assert_eq!(pair.secret_key, secret);
    assert_eq!(pair.public_key.x, BigInt::from(4u64));
    assert_eq!(pair.public_key.y, BigInt::from(9u64));
}

#[test]
fn requests_carry_plain_values() {
    let kp = GenerateKeyPairRequest {
        x: BigInt::from(21u64),
        y: BigInt::from(42u64),
    };
    assert_eq!(kp.x, BigInt::from(21u64));
    assert_eq!(kp.y, BigInt::from(42u64));

    let sk = GenerateSecretKeyRequest {
        public_key: point(21, 42),
        private_key: BigInt::from(77u64),
    };
    assert_eq!(sk.private_key, BigInt::from(77u64));
    assert_eq!(sk.public_key.x, BigInt::from(21u64));
}

#[test]
fn use_cases_construct() {
    let _ = GenerateKeyPairUseCase::new();
    let _ = GenerateSecretKeyUseCase::new();
}
