//! The happy path walked end to end through the decision functions, the way
//! the server drives them: challenge, solve, verify, create, read.

use sha2::Digest;

use pastecore::lifecycle::finish_create;
use pastecore::lifecycle::prepare_create;
use pastecore::lifecycle::read_outcome;
use pastecore::lifecycle::ReadOutcome;
use pastecore::limiter::Limiter;
use pastecore::model::CreatePasteRequest;
use pastecore::pow::get_challenge;
use pastecore::pow::parse_pow_headers;
use pastecore::pow::verify_pow_solution;

fn solve_pow(salt: &str, difficulty: usize) -> String {
    let mut nonce: u64 = 0;
    loop {
        let nonce_str = nonce.to_string();
        let mut hasher = sha2::Sha256::new();
        hasher.update(salt.as_bytes());
        hasher.update(nonce_str.as_bytes());
        let hash = hex::encode(hasher.finalize());
        if hash.starts_with("0000") {
            return nonce_str;
        }
        nonce += 1;
    }
}

#[test]
fn test_happy_path() {
    let key: [u8; 32] = [7; 32];
    let challenge_limiter = Limiter::new(100);
    let read_limiter = Limiter::new(50);
    let now_secs: u64 = 1_700_000_000;
    let now_ms: i64 = 1_700_000_000_000;

    // GET /challenge
    let challenge = get_challenge(&challenge_limiter, &key, now_secs).unwrap();
    assert_eq!(challenge.difficulty, 4);

    // The client solves the work and sends the four headers back.
    let nonce = solve_pow(&challenge.salt, challenge.difficulty);
    let solution = parse_pow_headers(
        Some(challenge.salt.clone()),
        Some(nonce),
        Some(challenge.timestamp.to_string()),
        Some(challenge.signature.clone()),
    )
    .unwrap();

    // The store consumes the fresh salt; verification accepts.
    let salt_fresh = true;
    assert_eq!(
        verify_pow_solution(&key, &solution, salt_fresh, now_secs),
        Ok(())
    );

    // POST /paste body.
    let req = CreatePasteRequest {
        iv: "iv".to_string(),
        data: "encrypted_data".to_string(),
        created_at: 1234567890,
        expires_at: None,
        burn_after_read: false,
        views: 0,
        has_password: false,
        salt: None,
        encrypted_key: None,
        key_iv: None,
        burn_token_hash: None,
    };
    let (paste, ttl) = prepare_create(req, now_ms).unwrap();
    assert_eq!(ttl, 2_592_000);
    let response = finish_create(paste.id.clone(), true).unwrap();
    assert_eq!(response.id, paste.id);

    // GET /paste/{id}: the read is admitted and counts one view.
    assert!(read_limiter.try_acquire());
    let outcome = read_outcome(Some(paste)).unwrap();
    read_limiter.release();
    match outcome {
        ReadOutcome::Count { updated } => {
            assert_eq!(updated.views, 1);
            assert_eq!(updated.data, "encrypted_data");
        }
        ReadOutcome::Burn { .. } => panic!("a plain paste must not burn"),
    }
}
