use token::{AccountId, Error, Token};

fn account(bytes: Vec<u8>) -> AccountId {
    AccountId::from_bytes(bytes)
}

#[test]
fn it_works() {
    let caller = account(vec![1u8; 32]);
    let instance = Token::new(caller.duplicate(), String::from("secret_key"));
    let account_id = account(vec![1u8; 32]);
    let token = instance.create_signature(&account_id);
    assert!(instance.verify_token(token, account_id));
}

#[test]
fn issued_token_verifies() {
    let owner = account(vec![7u8, 8, 9]);
    let instance = Token::new(owner.duplicate(), String::from("a secret"));
    let id = account(vec![0xde, 0xad, 0xbe, 0xef]);
    let token = instance.create_token(&id);
    assert!(instance.verify_token(token, id));
}

#[test]
fn stale_secret_rejects() {
    let owner = account(vec![2u8; 4]);
    let under_s1 = Token::new(owner.duplicate(), String::from("s1"));
    let under_s2 = Token::new(owner.duplicate(), String::from("s2"));
    let id = account(vec![5u8, 6, 7]);
    let token = under_s1.create_token(&id);
    assert!(!under_s2.verify_token(token, id));
}

#[test]
fn distinct_identities_distinct_tokens() {
    let owner = account(vec![0u8]);
    let instance = Token::new(owner, String::from("fixed"));
    let first = account(vec![1u8, 2, 3]);
    let second = account(vec![1u8, 2, 4]);
    assert_ne!(instance.create_token(&first), instance.create_token(&second));
}

#[test]
fn owner_gating() {
    let owner = account(vec![10u8; 32]);
    let stranger = account(vec![11u8; 32]);
    let mut instance = Token::new(owner.duplicate(), String::from("gated"));

    assert_eq!(instance.get_secret_key(&stranger), Err(Error::NotOwner));
    assert_eq!(
        instance.set_secret_key(&stranger, String::from("stolen")),
        Err(Error::NotOwner)
    );
    assert_eq!(
        instance.get_secret_key(&owner),
        Ok(String::from("gated"))
    );
    assert_eq!(
        instance.set_secret_key(&owner, String::from("fresh")),
        Ok(String::from("fresh"))
    );
}

#[test]
fn issuance_is_idempotent() {
    let owner = account(vec![3u8]);
    let instance = Token::new(owner, String::from("steady"));
    let id = account(vec![9u8; 16]);
    assert_eq!(instance.create_token(&id), instance.create_token(&id));
}

#[test]
fn rotation_invalidates_old_tokens() {
    let owner = account(vec![4u8; 8]);
    let mut instance = Token::new(owner.duplicate(), String::from("before"));
    let id = account(vec![1u8, 1, 2, 3, 5, 8]);
    let old_token = instance.create_token(&id);

    assert_eq!(
        instance.set_secret_key(&owner, String::from("after")),
        Ok(String::from("after"))
    );
    assert!(!instance.verify_token(old_token, id.duplicate()));
    let fresh = instance.create_token(&id);
    assert!(instance.verify_token(fresh, id));
}

#[test]
fn token_is_lowercase_hex_and_flips_reject() {
    let owner = account(vec![0u8; 32]);
    let instance = Token::new(owner, String::from("secret_key"));
    let mut id_bytes = vec![0u8; 32];
    id_bytes[0] = 1;
    let id = account(id_bytes);

    let token = instance.create_token(&id);
    assert_eq!(token.len(), 64);
    assert!(token
        .chars()
        .all(|c| c.is_ascii_digit() || ('a'..='f').contains(&c)));
    assert!(instance.verify_token(token.clone(), id.duplicate()));

    for i in 0..token.len() {
        let mut flipped: Vec<char> = token.chars().collect();
        flipped[i] = if flipped[i] == '0' { '1' } else { '0' };
        let flipped: String = flipped.into_iter().collect();
        if flipped != token {
            assert!(!instance.verify_token(flipped, id.duplicate()));
        }
    }
}

#[test]
fn rotation_scenario() {
    let owner = account(vec![42u8; 32]);
    let stranger = account(vec![43u8; 32]);
    let mut instance = Token::new(owner.duplicate(), String::from("k1"));

    assert_eq!(
        instance.set_secret_key(&stranger, String::from("k2")),
        Err(Error::NotOwner)
    );
    assert_eq!(
        instance.set_secret_key(&owner, String::from("k2")),
        Ok(String::from("k2"))
    );
    assert_eq!(instance.get_secret_key(&owner), Ok(String::from("k2")));
}

#[test]
fn known_digest_value() {
    // HMAC-SHA256 test vector: key "Jefe" over "what do ya want for nothing?".
    let owner = account(vec![0u8]);
    let instance = Token::new(owner, String::from("Jefe"));
    let id = account("what do ya want for nothing?".as_bytes().to_vec());
    assert_eq!(
        instance.create_token(&id),
        "5bdcc146bf60754e6a042426089575c75a003f089d2739839dec58b964ec3843"
    );
}

#[test]
fn hex_identity_rendering() {
    let caller = account(vec![0x01, 0xab, 0xff, 0x00, 0x2e]);
    let instance = Token::new(caller.duplicate(), String::from("any"));
    assert_eq!(instance.get_hex_account_id(&caller), "01abff002e");
}

#[test]
fn reported_identity_matches_caller() {
    let caller = account(vec![0x10, 0x20, 0x30]);
    let instance = Token::new(caller.duplicate(), String::from("any"));
    let reported = instance.get_account_id(&caller);
    assert!(reported.eq_id(&caller));
    assert_eq!(reported.to_bytes(), vec![0x10u8, 0x20, 0x30]);
}

#[test]
fn empty_secret_and_empty_identity_are_valid() {
    let owner = account(Vec::new());
    let mut instance = Token::new(owner.duplicate(), String::new());
    let token = instance.create_token(&owner);
    assert_eq!(token.len(), 64);
    assert!(instance.verify_token(token, owner.duplicate()));
    assert_eq!(instance.get_secret_key(&owner), Ok(String::new()));
    assert_eq!(
        instance.set_secret_key(&owner, String::new()),
        Ok(String::new())
    );
}
