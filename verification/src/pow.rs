//! The proof-of-work admission protocol: challenge issuance and solution
//! verification. Issuance is stateless; verification consumes a salt at most
//! once (the caller performs the atomic consumption against the store and
//! reports its outcome here).

use vstd::prelude::*;
use vstd::string::StrSliceExecFns;
use vstd::string::StringExecFns;

use crate::crypto::hmac_sha256_of;
use crate::crypto::hmac_sha256_tag;
use crate::crypto::ct_eq_str;
use crate::crypto::random_salt_bytes;
use crate::crypto::sha256_digest;
use crate::crypto::sha256_of;
use crate::encoding::dec_str_of;
use crate::encoding::dec_val;
use crate::encoding::hex_lower;
use crate::encoding::hex_of;
use crate::encoding::is_digit_string;
use crate::encoding::lemma_dec_str_of_round_trip;
use crate::encoding::parse_u64;
use crate::encoding::u64_to_string;
use crate::error::AppError;
use crate::limiter::Limiter;

verus! {

/// Leading `'0'` hex characters required of the work hash.
pub const POW_DIFFICULTY: u64 = 4;

/// Seconds a challenge stays valid after issuance.
pub const POW_VALIDITY_SECS: u64 = 120;

/// A signed challenge, as issued to a client.
#[derive(Debug, Clone, PartialEq, Eq)]
pub struct ChallengeResponse {
    pub salt: String,
    pub difficulty: usize,
    pub timestamp: u64,
    pub signature: String,
}

/// A submitted solution, exactly as the four transport headers carried it.
#[derive(Debug, Clone, PartialEq, Eq)]
pub struct PowSolution {
    pub salt: String,
    pub nonce: String,
    pub timestamp: String,
    pub signature: String,
}

/// The text that is signed for a challenge: salt, difficulty and timestamp
/// concatenated as their texts, in that order, without separators.
pub open spec fn challenge_message(salt: Seq<char>, difficulty: nat, timestamp: nat) -> Seq<char> {
    salt + dec_str_of(difficulty) + dec_str_of(timestamp)
}

/// The signature a challenge over `salt` and `timestamp` must carry under
/// `key`: the hex HMAC-SHA-256 tag of the challenge message.
pub open spec fn expected_signature(key: Seq<u8>, salt: Seq<char>, timestamp: nat) -> Seq<char> {
    hex_of(hmac_sha256_of(key, challenge_message(salt, POW_DIFFICULTY as nat, timestamp)))
}

/// The hex hash a solution is judged by.
pub open spec fn work_hash(salt: Seq<char>, nonce: Seq<char>) -> Seq<char> {
    hex_of(sha256_of(salt + nonce))
}

/// Whether a hex hash starts with `d` zero characters.
pub open spec fn meets_difficulty(h: Seq<char>, d: int) -> bool {
    d <= h.len() && forall|i: int| 0 <= i < d ==> h[i] == '0'
}

/// How a submitted solution is judged, in the order the checks run.
#[derive(Debug, Clone, Copy, PartialEq, Eq)]
pub enum PowVerdict {
    Accept,
    SaltAlreadyUsed,
    MalformedTimestamp,
    Expired,
    WrongSignature,
    InsufficientWork,
}

/// The verdict on a solution: the salt must not have been consumed before,
/// the timestamp must be a numeral no further than the validity window in
/// the past (a timestamp in the future never expires — clock skew), the
/// signature must be the one issuance computes, and the work hash must meet
/// the difficulty.
pub open spec fn pow_verdict(
    key: Seq<u8>,
    salt: Seq<char>,
    nonce: Seq<char>,
    timestamp: Seq<char>,
    signature: Seq<char>,
    salt_fresh: bool,
    now: u64,
) -> PowVerdict {
    if !salt_fresh {
        PowVerdict::SaltAlreadyUsed
    } else if !(is_digit_string(timestamp) && dec_val(timestamp) <= u64::MAX) {
        PowVerdict::MalformedTimestamp
    } else if dec_val(timestamp) + POW_VALIDITY_SECS < now {
        PowVerdict::Expired
    } else if signature != expected_signature(key, salt, dec_val(timestamp) as nat) {
        PowVerdict::WrongSignature
    } else if !meets_difficulty(work_hash(salt, nonce), POW_DIFFICULTY as int) {
        PowVerdict::InsufficientWork
    } else {
        PowVerdict::Accept
    }
}

/// Issue a challenge: a fresh random salt, the fixed difficulty, the current
/// time, and the signature binding the three under `key`. Refused only when
/// the limiter's cap is exhausted.
pub fn get_challenge(limiter: &Limiter, key: &[u8; 32], now: u64) -> (r: Result<
    ChallengeResponse,
    AppError,
>)
    ensures
        match r {
            Ok(c) => {
                &&& c.difficulty == POW_DIFFICULTY
                &&& c.timestamp == now
                &&& c.salt@.len() == 32
                &&& c.signature@ == expected_signature(key@, c.salt@, now as nat)
            },
            Err(e) => e == AppError::TooManyRequests,
        },
{
    if !limiter.try_acquire() {
        return Err(AppError::TooManyRequests);
    }
    let salt_bytes = random_salt_bytes();
    let salt = hex_lower(salt_bytes.as_slice());
    let diff_str = u64_to_string(POW_DIFFICULTY);
    let ts_str = u64_to_string(now);
    let mut msg = salt.clone();
    msg.append(diff_str.as_str());
    msg.append(ts_str.as_str());
    proof {
        assert(msg@ =~= challenge_message(salt@, POW_DIFFICULTY as nat, now as nat));
    }
    let tag = hmac_sha256_tag(key, msg.as_str());
    let signature = hex_lower(tag.as_slice());
    limiter.release();
    Ok(ChallengeResponse { salt, difficulty: 4, timestamp: now, signature })
}

/// Collect the four solution headers; the first missing one names the
/// rejection.
pub fn parse_pow_headers(
    salt: Option<String>,
    nonce: Option<String>,
    timestamp: Option<String>,
    signature: Option<String>,
) -> (r: Result<PowSolution, AppError>)
    ensures
        match r {
            Ok(sol) => {
                &&& salt matches Some(s) && sol.salt@ == s@
                &&& nonce matches Some(s) && sol.nonce@ == s@
                &&& timestamp matches Some(s) && sol.timestamp@ == s@
                &&& signature matches Some(s) && sol.signature@ == s@
            },
            Err(e) => match e {
                AppError::BadRequest(m) => {
                    if salt is None {
                        m@ == "Missing X-PoW-Salt header"@
                    } else if nonce is None {
                        m@ == "Missing X-PoW-Nonce header"@
                    } else if timestamp is None {
                        m@ == "Missing X-PoW-Timestamp header"@
                    } else if signature is None {
                        m@ == "Missing X-PoW-Signature header"@
                    } else {
                        false
                    }
                },
                _ => false,
            },
        },
{
    let salt = match salt {
        Some(s) => s,
        None => {
            return Err(AppError::BadRequest("Missing X-PoW-Salt header".to_owned()));
        },
    };
    let nonce = match nonce {
        Some(s) => s,
        None => {
            return Err(AppError::BadRequest("Missing X-PoW-Nonce header".to_owned()));
        },
    };
    let timestamp = match timestamp {
        Some(s) => s,
        None => {
            return Err(AppError::BadRequest("Missing X-PoW-Timestamp header".to_owned()));
        },
    };
    let signature = match signature {
        Some(s) => s,
        None => {
            return Err(AppError::BadRequest("Missing X-PoW-Signature header".to_owned()));
        },
    };
    Ok(PowSolution { salt, nonce, timestamp, signature })
}

/// Whether the first `d` characters of `h` are `'0'`.
fn has_leading_zeros(h: &str, d: usize) -> (r: bool)
    requires
        d <= h@.len(),
    ensures
        r == meets_difficulty(h@, d as int),
{
    let mut i: usize = 0;
    while i < d
        invariant
            d <= h@.len(),
            0 <= i <= d,
            forall|j: int| 0 <= j < i ==> h@[j] == '0',
        decreases d - i,
    {
        if h.get_char(i) != '0' {
            return false;
        }
        i = i + 1;
    }
    true
}

/// Judge a submitted solution. `salt_fresh` is the outcome of the atomic
/// single-use consumption of the salt marker, which the caller must have
/// performed first; `now` is the current wall-clock second. The result
/// follows `pow_verdict` exactly, with the rejection messages fixed.
pub fn verify_pow_solution(key: &[u8; 32], sol: &PowSolution, salt_fresh: bool, now: u64) -> (r:
    Result<(), AppError>)
    ensures
        ({
            let verdict = pow_verdict(
                key@,
                sol.salt@,
                sol.nonce@,
                sol.timestamp@,
                sol.signature@,
                salt_fresh,
                now,
            );
            match r {
                Ok(_) => verdict is Accept,
                Err(e) => match verdict {
                    PowVerdict::Accept => false,
                    PowVerdict::SaltAlreadyUsed => e matches AppError::Unauthorized(m)
                        && m@ == "PoW salt already used"@,
                    PowVerdict::MalformedTimestamp => e matches AppError::BadRequest(m)
                        && m@ == "Invalid X-PoW-Timestamp"@,
                    PowVerdict::Expired => e matches AppError::Unauthorized(m)
                        && m@ == "PoW challenge expired"@,
                    PowVerdict::WrongSignature => e matches AppError::Unauthorized(m)
                        && m@ == "Invalid PoW signature"@,
                    PowVerdict::InsufficientWork => e matches AppError::Unauthorized(m)
                        && m@ == "PoW difficulty not met"@,
                },
            }
        }),
{
    if !salt_fresh {
        return Err(AppError::Unauthorized("PoW salt already used".to_owned()));
    }
    let ts: u64 = match parse_u64(sol.timestamp.as_str()) {
        Some(t) => t,
        None => {
            return Err(AppError::BadRequest("Invalid X-PoW-Timestamp".to_owned()));
        },
    };
    let age: u64 = if now >= ts {
        now - ts
    } else {
        0
    };
    if age > POW_VALIDITY_SECS {
        return Err(AppError::Unauthorized("PoW challenge expired".to_owned()));
    }
    let diff_str = u64_to_string(POW_DIFFICULTY);
    let ts_canon = u64_to_string(ts);
    let mut msg = sol.salt.clone();
    msg.append(diff_str.as_str());
    msg.append(ts_canon.as_str());
    proof {
        assert(msg@ =~= challenge_message(sol.salt@, POW_DIFFICULTY as nat, ts as nat));
    }
    let tag = hmac_sha256_tag(key, msg.as_str());
    let expected = hex_lower(tag.as_slice());
    if !ct_eq_str(expected.as_str(), sol.signature.as_str()) {
        return Err(AppError::Unauthorized("Invalid PoW signature".to_owned()));
    }
    let mut preimage = sol.salt.clone();
    preimage.append(sol.nonce.as_str());
    let digest = sha256_digest(preimage.as_str());
    let hash = hex_lower(digest.as_slice());
    if !has_leading_zeros(hash.as_str(), 4) {
        return Err(AppError::Unauthorized("PoW difficulty not met".to_owned()));
    }
    Ok(())
}

/// A consumed salt is refused, whatever else the solution carries: once any
/// submission has claimed a salt, every further submission of it is judged
/// `SaltAlreadyUsed`.
pub proof fn lemma_replayed_salt_refused(
    key: Seq<u8>,
    salt: Seq<char>,
    nonce: Seq<char>,
    timestamp: Seq<char>,
    signature: Seq<char>,
    now: u64,
)
    ensures
        pow_verdict(key, salt, nonce, timestamp, signature, false, now) is SaltAlreadyUsed,
{
}

/// A challenge this library issued is accepted back: presenting the issued
/// salt, the canonical numeral of the issued timestamp and the issued
/// signature, together with any nonce whose work hash meets the difficulty,
/// to a verifier under the same key, with the salt still unconsumed and no
/// more than the validity window elapsed, yields `Accept`.
pub proof fn lemma_issued_challenge_accepted(
    key: Seq<u8>,
    salt: Seq<char>,
    nonce: Seq<char>,
    timestamp: u64,
    now: u64,
)
    requires
        now <= timestamp + POW_VALIDITY_SECS,
        meets_difficulty(work_hash(salt, nonce), POW_DIFFICULTY as int),
    ensures
        pow_verdict(
            key,
            salt,
            nonce,
            dec_str_of(timestamp as nat),
            expected_signature(key, salt, timestamp as nat),
            true,
            now,
        ) is Accept,
{
    lemma_dec_str_of_round_trip(timestamp as nat);
}

} // verus!
