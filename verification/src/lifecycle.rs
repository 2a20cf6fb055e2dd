//! The paste lifecycle decisions: effective TTL on creation, view counting
//! and burn scheduling on read, token-authorized deletion, and the
//! non-sensitive metadata probe. Every store round trip stays with the
//! caller; each function here turns what the store reported into the next
//! action and the response.

use vstd::prelude::*;
use vstd::string::StrSliceExecFns;

use crate::crypto::ct_eq_str;
use crate::crypto::fresh_uuid_string;
use crate::crypto::sha256_digest;
use crate::crypto::sha256_of;
use crate::encoding::hex_lower;
use crate::encoding::hex_of;
use crate::error::AppError;
use crate::model::CreatePasteRequest;
use crate::model::CreatePasteResponse;
use crate::model::Paste;
use crate::model::PasteMetadata;

verus! {

/// The default and also the largest effective TTL: 30 days, in seconds.
pub const DEFAULT_TTL_SECS: u64 = 2592000;

/// Seconds a burn-after-read paste stays readable after its first read.
pub const BURN_GRACE_SECS: u64 = 90;

/// Whether a requested expiry leaves the paste something to live: absent or
/// non-positive expiries fall back to the default TTL, a positive expiry
/// must lie in the future.
pub open spec fn ttl_ok(expires_at: Option<i64>, now_ms: i64) -> bool {
    !(expires_at matches Some(e) && e > 0 && e <= now_ms)
}

/// The stored TTL of a successful create: seconds until the requested
/// expiry, clamped to 30 days; the default 30 days when no positive expiry
/// was requested.
pub open spec fn effective_ttl(expires_at: Option<i64>, now_ms: i64) -> int {
    match expires_at {
        Some(e) => {
            if e > 0 {
                if (e - now_ms) / 1000 <= DEFAULT_TTL_SECS {
                    (e - now_ms) / 1000
                } else {
                    DEFAULT_TTL_SECS as int
                }
            } else {
                DEFAULT_TTL_SECS as int
            }
        },
        None => DEFAULT_TTL_SECS as int,
    }
}

/// Compute the TTL a create request is stored under, rejecting expiries
/// that already passed.
pub fn compute_ttl(expires_at: Option<i64>, now_ms: i64) -> (r: Result<u64, AppError>)
    requires
        now_ms >= 0,
    ensures
        r.is_ok() <==> ttl_ok(expires_at, now_ms),
        match r {
            Ok(ttl) => ttl == effective_ttl(expires_at, now_ms),
            Err(e) => e matches AppError::BadRequest(m) && m@ == "Paste already expired"@,
        },
{
    match expires_at {
        Some(e) => {
            if e > 0 {
                let diff: i64 = e - now_ms;
                if diff > 0 {
                    let ttl: u64 = (diff / 1000) as u64;
                    if ttl > DEFAULT_TTL_SECS {
                        Ok(DEFAULT_TTL_SECS)
                    } else {
                        Ok(ttl)
                    }
                } else {
                    Err(AppError::BadRequest("Paste already expired".to_owned()))
                }
            } else {
                Ok(DEFAULT_TTL_SECS)
            }
        },
        None => Ok(DEFAULT_TTL_SECS),
    }
}

/// Turn an acceptable create request into the record to store and its TTL.
/// The record carries the request's fields unchanged under a fresh
/// server-assigned id; invalid requests and expiries that already passed
/// are rejected exactly as `validate` and `compute_ttl` do.
pub fn prepare_create(req: CreatePasteRequest, now_ms: i64) -> (r: Result<(Paste, u64), AppError>)
    requires
        now_ms >= 0,
    ensures
        r.is_ok() <==> req.spec_valid() && ttl_ok(req.expires_at, now_ms),
        match r {
            Ok((paste, ttl)) => {
                &&& paste.id@.len() == 36
                &&& paste.iv@ == req.iv@
                &&& paste.data@ == req.data@
                &&& paste.created_at == req.created_at
                &&& paste.expires_at == req.expires_at
                &&& paste.burn_after_read == req.burn_after_read
                &&& paste.views == req.views
                &&& paste.has_password == req.has_password
                &&& paste.salt == req.salt
                &&& paste.encrypted_key == req.encrypted_key
                &&& paste.key_iv == req.key_iv
                &&& paste.burn_token_hash == req.burn_token_hash
                &&& ttl == effective_ttl(req.expires_at, now_ms)
            },
            Err(e) => {
                if !req.spec_valid() {
                    e matches AppError::BadRequest(m) && m@ == req.spec_validation_message()
                } else {
                    e matches AppError::BadRequest(m) && m@ == "Paste already expired"@
                }
            },
        },
{
    match req.validate() {
        Ok(_) => {},
        Err(m) => {
            return Err(AppError::BadRequest(m));
        },
    }
    let ttl = match compute_ttl(req.expires_at, now_ms) {
        Ok(t) => t,
        Err(e) => {
            return Err(e);
        },
    };
    let id = fresh_uuid_string();
    let paste = Paste {
        id,
        iv: req.iv,
        data: req.data,
        created_at: req.created_at,
        expires_at: req.expires_at,
        burn_after_read: req.burn_after_read,
        views: req.views,
        has_password: req.has_password,
        salt: req.salt,
        encrypted_key: req.encrypted_key,
        key_iv: req.key_iv,
        burn_token_hash: req.burn_token_hash,
    };
    Ok((paste, ttl))
}

/// Turn the store's conditional-create outcome into the response: the id on
/// a fresh key, a conflict when the key already existed.
pub fn finish_create(id: String, created: bool) -> (r: Result<CreatePasteResponse, AppError>)
    ensures
        created ==> (r matches Ok(resp) && resp.id@ == id@),
        !created ==> (r matches Err(e) && e matches AppError::Conflict(m) && m@
            == "Paste ID already exists"@),
{
    if created {
        Ok(CreatePasteResponse { id })
    } else {
        Err(AppError::Conflict("Paste ID already exists".to_owned()))
    }
}

/// Whether a read of this record burns it: burn-after-read applies only
/// without a password, because the password gate is client-side and a
/// burn on first touch would let anyone destroy a paste they cannot read.
pub open spec fn burns_on_read(p: Paste) -> bool {
    p.burn_after_read && !p.has_password
}

/// What a successful read asks of the store: either shorten the record's
/// TTL to the burn grace period and leave it unchanged, or store the
/// updated record while preserving its remaining TTL.
#[derive(Debug, Clone, PartialEq, Eq)]
pub enum ReadOutcome {
    /// Schedule the burn: set the TTL of the unchanged record to
    /// `ttl_secs`, and serve the record as read.
    Burn { paste: Paste, ttl_secs: u64 },
    /// Count the view: rewrite the record as `updated`, preserving its
    /// remaining TTL, and serve `updated`.
    Count { updated: Paste },
}

/// Decide a read. A missing record is not found; a burn read leaves the
/// record untouched and schedules its deletion; any other read increments
/// the view count by exactly one and nothing else.
pub fn read_outcome(stored: Option<Paste>) -> (r: Result<ReadOutcome, AppError>)
    requires
        stored matches Some(p) ==> p.views < i64::MAX,
    ensures
        match stored {
            None => r matches Err(e) && e == AppError::PasteNotFound,
            Some(p) => {
                if burns_on_read(p) {
                    r matches Ok(o) && o == (ReadOutcome::Burn {
                        paste: p,
                        ttl_secs: BURN_GRACE_SECS,
                    })
                } else {
                    r matches Ok(o) && o == (ReadOutcome::Count {
                        updated: Paste { views: (p.views + 1) as i64, ..p },
                    })
                }
            },
        },
{
    match stored {
        None => Err(AppError::PasteNotFound),
        Some(p) => {
            if p.burn_after_read && !p.has_password {
                Ok(ReadOutcome::Burn { paste: p, ttl_secs: BURN_GRACE_SECS })
            } else {
                let mut updated = p;
                updated.views = updated.views + 1;
                Ok(ReadOutcome::Count { updated })
            }
        },
    }
}

/// Decide a delete. A missing record is not found. A burn record with a
/// stored token hash is deletable exactly by the token whose SHA-256 hex
/// equals that hash; every other record is deletable without a token.
pub fn delete_decision(stored: Option<Paste>, token: &str) -> (r: Result<(), AppError>)
    ensures
        match stored {
            None => r matches Err(e) && e == AppError::PasteNotFound,
            Some(p) => match p.burn_token_hash {
                Some(h) => {
                    if p.burn_after_read {
                        if hex_of(sha256_of(token@)) == h@ {
                            r is Ok
                        } else {
                            r matches Err(e) && e matches AppError::Unauthorized(m) && m@
                                == "Invalid burn token"@
                        }
                    } else {
                        r is Ok
                    }
                },
                None => r is Ok,
            },
        },
{
    match stored {
        None => Err(AppError::PasteNotFound),
        Some(p) => {
            if p.burn_after_read {
                match &p.burn_token_hash {
                    Some(stored_hash) => {
                        let digest = sha256_digest(token);
                        let provided = hex_lower(digest.as_slice());
                        if !ct_eq_str(provided.as_str(), stored_hash.as_str()) {
                            return Err(AppError::Unauthorized("Invalid burn token".to_owned()));
                        }
                    },
                    None => {},
                }
            }
            Ok(())
        },
    }
}

/// The non-sensitive probe: the record's flags and instants when it exists,
/// `exists: false` with zeroed fields when it does not — absence never
/// distinguishes "expired" from "never created".
pub fn metadata_of(stored: &Option<Paste>) -> (m: PasteMetadata)
    ensures
        match stored {
            Some(p) => m == (PasteMetadata {
                exists: true,
                has_password: p.has_password,
                burn_after_read: p.burn_after_read,
                created_at: p.created_at,
                expires_at: p.expires_at,
            }),
            None => m == (PasteMetadata {
                exists: false,
                has_password: false,
                burn_after_read: false,
                created_at: 0,
                expires_at: None,
            }),
        },
{
    match stored {
        Some(p) => PasteMetadata {
            exists: true,
            has_password: p.has_password,
            burn_after_read: p.burn_after_read,
            created_at: p.created_at,
            expires_at: p.expires_at,
        },
        None => PasteMetadata {
            exists: false,
            has_password: false,
            burn_after_read: false,
            created_at: 0,
            expires_at: None,
        },
    }
}

} // verus!
