//! The paste record, the create request, and create-request validation.

use vstd::prelude::*;
use vstd::string::StrSliceExecFns;

verus! {

/// The persisted paste record. The ciphertext and all key material are opaque
/// to the server; only `views` and the store's TTL ever change after creation.
#[derive(Debug, Clone, PartialEq, Eq)]
pub struct Paste {
    pub id: String,
    pub iv: String,
    pub data: String,
    pub created_at: i64,
    pub expires_at: Option<i64>,
    pub burn_after_read: bool,
    pub views: i64,
    pub has_password: bool,
    pub salt: Option<String>,
    pub encrypted_key: Option<String>,
    pub key_iv: Option<String>,
    pub burn_token_hash: Option<String>,
}

/// A create request: the paste record minus the server-assigned id.
#[derive(Debug, Clone, PartialEq, Eq)]
pub struct CreatePasteRequest {
    pub iv: String,
    pub data: String,
    pub created_at: i64,
    pub expires_at: Option<i64>,
    pub burn_after_read: bool,
    pub views: i64,
    pub has_password: bool,
    pub salt: Option<String>,
    pub encrypted_key: Option<String>,
    pub key_iv: Option<String>,
    pub burn_token_hash: Option<String>,
}

/// The body of a successful create response.
#[derive(Debug, Clone, PartialEq, Eq)]
pub struct CreatePasteResponse {
    pub id: String,
}

/// The non-sensitive probe result for a paste id. An absent paste is reported
/// with `exists: false` and zeroed fields, never with an error.
#[derive(Debug, Clone, PartialEq, Eq)]
pub struct PasteMetadata {
    pub exists: bool,
    pub has_password: bool,
    pub burn_after_read: bool,
    pub created_at: i64,
    pub expires_at: Option<i64>,
}

/// The bound on each optional key-material field of a create request.
pub const MAX_FIELD_CHARS: usize = 512;

impl CreatePasteRequest {
    /// A request is acceptable when the ciphertext is non-empty and the
    /// initialization vector and every supplied key-material field stay
    /// within the field bound.
    pub open spec fn spec_valid(&self) -> bool {
        &&& self.data@.len() > 0
        &&& self.iv@.len() <= MAX_FIELD_CHARS
        &&& (self.salt matches Some(s) ==> s@.len() <= MAX_FIELD_CHARS)
        &&& (self.encrypted_key matches Some(k) ==> k@.len() <= MAX_FIELD_CHARS)
        &&& (self.key_iv matches Some(k) ==> k@.len() <= MAX_FIELD_CHARS)
    }

    /// The message for the first violated bound, in the order the checks
    /// run: data, iv, salt, encrypted key, key iv.
    pub open spec fn spec_validation_message(&self) -> Seq<char> {
        if self.data@.len() == 0 {
            "Data cannot be empty"@
        } else if self.iv@.len() > MAX_FIELD_CHARS {
            "IV too long"@
        } else if self.salt matches Some(s) && s@.len() > MAX_FIELD_CHARS {
            "Salt too long"@
        } else if self.encrypted_key matches Some(k) && k@.len() > MAX_FIELD_CHARS {
            "Encrypted key too long"@
        } else if self.key_iv matches Some(k) && k@.len() > MAX_FIELD_CHARS {
            "Key IV too long"@
        } else {
            Seq::empty()
        }
    }

    /// Accepts exactly the requests `spec_valid` allows, and names the first
    /// violated bound.
    pub fn validate(&self) -> (r: Result<(), String>)
        ensures
            r.is_ok() <==> self.spec_valid(),
            match r {
                Ok(_) => self.spec_valid(),
                Err(m) => m@ == self.spec_validation_message(),
            },
    {
        if self.data.as_str().unicode_len() == 0 {
            return Err("Data cannot be empty".to_owned());
        }
        if self.iv.as_str().unicode_len() > MAX_FIELD_CHARS {
            return Err("IV too long".to_owned());
        }
        match &self.salt {
            Some(s) => {
                if s.as_str().unicode_len() > MAX_FIELD_CHARS {
                    return Err("Salt too long".to_owned());
                }
            },
            None => {},
        }
        match &self.encrypted_key {
            Some(k) => {
                if k.as_str().unicode_len() > MAX_FIELD_CHARS {
                    return Err("Encrypted key too long".to_owned());
                }
            },
            None => {},
        }
        match &self.key_iv {
            Some(k) => {
                if k.as_str().unicode_len() > MAX_FIELD_CHARS {
                    return Err("Key IV too long".to_owned());
                }
            },
            None => {},
        }
        Ok(())
    }
}

} // verus!
