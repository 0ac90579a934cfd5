//! Task tokens: the key they are checked with, and what their claims must
//! say. Identifiers are 128-bit UUID values. Decoding and checking the
//! signature of a token is jsonwebtoken's work, done where the claims are
//! deserialized.

use crate::clock::{spec_uuid_text, uuid_to_string};
use jsonwebtoken::DecodingKey;
use vstd::prelude::*;
use vstd::utf8::encode_utf8;

verus! {

#[verifier::external_type_specification]
#[verifier::external_body]
pub struct ExDecodingKey(jsonwebtoken::DecodingKey);

/// The claims of a task token; `exp` is its expiry in seconds since the
/// Unix epoch.
#[derive(Debug, Clone, Copy, PartialEq, Eq, Structural)]
pub struct TaskClaims {
    pub agent_id: u128,
    pub task_id: u128,
    pub exp: usize,
}

#[derive(Debug)]
pub enum JwtError {
    Invalid(String),
    Expired(String),
    WrongAgent { expected: u128, got: u128 },
    TaskIdMismatch,
    MissingClaim,
}

/// The text shown for a token error.
pub open spec fn spec_jwt_error_text(e: JwtError) -> Seq<char> {
    match e {
        JwtError::Invalid(s) => "Invalid JWT: "@ + s@,
        JwtError::Expired(s) => "Token expired at "@ + s@,
        JwtError::WrongAgent { expected, got } => "Task JWT is for wrong agent (expected "@ + spec_uuid_text(expected)
            + ", got "@ + spec_uuid_text(got) + ")"@,
        JwtError::TaskIdMismatch => "Task ID in JWT does not match task.id"@,
        JwtError::MissingClaim => "Missing required claim"@,
    }
}

impl JwtError {
    /// The text shown for the error.
    pub fn to_string(&self) -> (s: String)
        ensures
            s@ == spec_jwt_error_text(*self),
    {
        match self {
            JwtError::Invalid(m) => String::from_str("Invalid JWT: ").concat(m.as_str()),
            JwtError::Expired(m) => String::from_str("Token expired at ").concat(m.as_str()),
            JwtError::WrongAgent { expected, got } => {
                let mut s = String::from_str("Task JWT is for wrong agent (expected ");
                let e = uuid_to_string(*expected);
                s.append(e.as_str());
                s.append(", got ");
                let g = uuid_to_string(*got);
                s.append(g.as_str());
                s.append(")");
                s
            },
            JwtError::TaskIdMismatch => String::from_str("Task ID in JWT does not match task.id"),
            JwtError::MissingClaim => String::from_str("Missing required claim"),
        }
    }
}

/// Whether `pattern` occurs in `s`.
pub open spec fn spec_contains(s: Seq<char>, pattern: Seq<char>) -> bool {
    exists|i: int| 0 <= i <= s.len() - pattern.len() && #[trigger] s.subrange(i, i + pattern.len()) == pattern
}

/// Whether `pattern` occurs in `s`.
pub fn contains_text(s: &str, pattern: &str) -> (b: bool)
    ensures
        b == spec_contains(s@, pattern@),
{
    let hay = crate::text::to_chars(s);
    let pat = crate::text::to_chars(pattern);
    let n = hay.len();
    let m = pat.len();
    if m > n {
        assert(!spec_contains(s@, pattern@));
        return false;
    }
    let mut i: usize = 0;
    while i <= n - m
        invariant
            hay@ == s@,
            pat@ == pattern@,
            n == hay@.len(),
            m == pat@.len(),
            m <= n,
            i <= n - m + 1,
            forall|k: int| 0 <= k < i ==> #[trigger] s@.subrange(k, k + m) != pattern@,
        decreases n - m + 1 - i,
    {
        let mut j: usize = 0;
        let mut same = true;
        while j < m
            invariant
                hay@ == s@,
                pat@ == pattern@,
                n == hay@.len(),
                m == pat@.len(),
                i + m <= n,
                j <= m,
                same == (forall|q: int| 0 <= q < j ==> hay@[i + q] == pat@[q]),
            decreases m - j,
        {
            if hay[i + j] != pat[j] {
                same = false;
            }
            j = j + 1;
        }
        if same {
            assert(s@.subrange(i as int, i + m) =~= pattern@);
            return true;
        }
        proof {
            let q = choose|q: int| 0 <= q < m && hay@[i + q] != pat@[q];
            assert(s@.subrange(i as int, i + m)[q] != pattern@[q]);
        }
        i = i + 1;
    }
    assert forall|k: int| 0 <= k <= s@.len() - pattern@.len() implies #[trigger] s@.subrange(k, k + pattern@.len()) != pattern@ by {
        assert(k < i);
    }
    false
}

/// Whether jsonwebtoken accepts `pem` as an RSA public key in PEM form.
pub uninterp spec fn rsa_pem_accepted(pem: Seq<u8>) -> bool;

/// `DecodingKey::from_rsa_pem`, its error turned into its message. Whether
/// the key is accepted is named `rsa_pem_accepted`; the message is not
/// stated.
#[verifier::external_body]
fn decoding_key_from_rsa_pem(pem: &[u8]) -> (r: Result<DecodingKey, String>)
    ensures
        (r is Ok) == rsa_pem_accepted(pem@),
{
    DecodingKey::from_rsa_pem(pem).map_err(|e| e.to_string())
}

/// `DecodingKey::from_secret`: an HMAC key made of the secret's bytes. The
/// key is opaque, so nothing is stated of it.
#[verifier::external_body]
fn decoding_key_from_secret(secret: &[u8]) -> DecodingKey {
    DecodingKey::from_secret(secret)
}

/// The public-key text of a validator names an RSA key in PEM form when it
/// holds `BEGIN`; otherwise it is a shared secret.
pub open spec fn is_pem_text(public_key: Seq<char>) -> bool {
    spec_contains(public_key, "BEGIN"@)
}

/// Checks the tokens of the tasks sent to one agent.
pub struct JwtValidator {
    public_key: DecodingKey,
    agent_id: u128,
    from_pem: Ghost<bool>,
}

impl JwtValidator {
    /// The agent whose tasks are checked.
    pub closed spec fn spec_agent_id(&self) -> u128 {
        self.agent_id
    }

    /// Whether the key is an RSA public key (rather than a shared secret).
    pub closed spec fn uses_pem(&self) -> bool {
        self.from_pem@
    }

    /// The key the validator was made with.
    pub closed spec fn spec_key(&self) -> DecodingKey {
        self.public_key
    }

    /// A validator for `agent_id` with the key `public_key`: an RSA public
    /// key in PEM form when the text holds `BEGIN`, refused when jsonwebtoken
    /// does not accept it; otherwise a shared secret.
    pub fn new(public_key: String, agent_id: u128) -> (r: Result<Self, JwtError>)
        ensures
            match r {
                Ok(v) => v.spec_agent_id() == agent_id && v.uses_pem() == is_pem_text(public_key@)
                    && (is_pem_text(public_key@) ==> rsa_pem_accepted(encode_utf8(public_key@))),
                Err(e) => is_pem_text(public_key@) && !rsa_pem_accepted(encode_utf8(public_key@))
                    && (e matches JwtError::Invalid(t) && exists|m: Seq<char>| t@ == #[trigger] ("Invalid PEM: "@ + m)),
            },
    {
        if contains_text(public_key.as_str(), "BEGIN") {
            match decoding_key_from_rsa_pem(public_key.as_str().as_bytes()) {
                Ok(key) => Ok(JwtValidator { public_key: key, agent_id, from_pem: Ghost(true) }),
                Err(message) => {
                    let text = String::from_str("Invalid PEM: ").concat(message.as_str());
                    assert(text@ == "Invalid PEM: "@ + message@);
                    Err(JwtError::Invalid(text))
                },
            }
        } else {
            let key = decoding_key_from_secret(public_key.as_str().as_bytes());
            Ok(JwtValidator { public_key: key, agent_id, from_pem: Ghost(false) })
        }
    }

    /// The agent whose tasks are checked.
    pub fn agent_id(&self) -> (id: u128)
        ensures
            id == self.spec_agent_id(),
    {
        self.agent_id
    }

    /// The key token signatures are checked with.
    pub fn decoding_key(&self) -> (k: &DecodingKey)
        ensures
            *k == self.spec_key(),
    {
        &self.public_key
    }

    /// The claims of a token whose signature has been checked, accepted
    /// when they name this validator's agent and the expected task.
    pub fn check_claims(&self, claims: TaskClaims, expected_task_id: u128) -> (r: Result<TaskClaims, JwtError>)
        ensures
            claims.agent_id != self.spec_agent_id() ==> (r matches Err(JwtError::WrongAgent { expected, got })
                && expected == self.spec_agent_id() && got == claims.agent_id),
            claims.agent_id == self.spec_agent_id() && claims.task_id != expected_task_id ==> r matches Err(
                JwtError::TaskIdMismatch,
            ),
            claims.agent_id == self.spec_agent_id() && claims.task_id == expected_task_id ==> r == Ok::<
                TaskClaims,
                JwtError,
            >(claims),
    {
        if claims.agent_id != self.agent_id {
            return Err(JwtError::WrongAgent { expected: self.agent_id, got: claims.agent_id });
        }
        if claims.task_id != expected_task_id {
            return Err(JwtError::TaskIdMismatch);
        }
        Ok(claims)
    }
}

/// The error reported for a token that jsonwebtoken refused: an expired
/// token is reported as such, any other failure with jsonwebtoken's message.
pub fn decode_failure(expired: bool, message: String) -> (e: JwtError)
    ensures
        expired ==> (e matches JwtError::Expired(s) && s@ == "Token has expired"@),
        !expired ==> (e matches JwtError::Invalid(s) && s@ == message@),
{
    if expired {
        JwtError::Expired(String::from_str("Token has expired"))
    } else {
        JwtError::Invalid(message)
    }
}

} // verus!
