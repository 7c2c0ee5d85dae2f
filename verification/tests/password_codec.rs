//! Password codec behavior: round trip, salt freshness, rejection of
//! wrong passwords and of malformed stored hashes.

use authcore::password::{hash_password, verify_password};

#[test]
fn hash_then_verify_succeeds() {
    let hash = hash_password("secret1").expect("hashing should succeed");
    assert!(verify_password("secret1", &hash));
}

#[test]
fn hash_twice_differs() {
    let h1 = hash_password("secret1").expect("hashing should succeed");
    let h2 = hash_password("secret1").expect("hashing should succeed");
    assert_ne!(h1, h2);
    assert!(verify_password("secret1", &h1));
    assert!(verify_password("secret1", &h2));
}

#[test]
fn wrong_password_fails() {
    let hash = hash_password("secret1").expect("hashing should succeed");
    assert!(!verify_password("secret2", &hash));
    assert!(!verify_password("", &hash));
    assert!(!verify_password("Secret1", &hash));
}

#[test]
fn malformed_hash_fails_quietly() {
    let malformed = [
        "",
        "not-a-hash",
        "$argon2id$",
        "$argon2id$v=19$m=19456,t=2,p=1$bad",
        "$2b$12$abcdefghijklmnopqrstuv",
        "plaintextpassword",
        "$argon2id$v=19$m=19456,t=2,p=1$$",
    ];
    for m in malformed.iter() {
        assert!(!verify_password("anything", m));
        assert!(!verify_password("", m));
    }
}

#[test]
fn hash_of_empty_password_round_trips() {
    let hash = hash_password("").expect("hashing should succeed");
    assert!(verify_password("", &hash));
    assert!(!verify_password("x", &hash));
}
