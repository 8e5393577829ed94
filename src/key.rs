//! Client-supplied idempotency keys.

use vstd::prelude::*;
use crate::text::{trim, trimmed, utf8_len};

verus! {

/// A key whose trimmed form has this many bytes or more is refused.
pub const MAX_KEY_LEN: usize = 80;

/// Why a raw key was refused.
#[derive(Debug, Clone, Copy, PartialEq, Eq, Structural)]
pub enum KeyError {
    /// Nothing but white space.
    Empty,
    /// The trimmed key has this many bytes, at least `MAX_KEY_LEN`.
    TooLong(usize),
}

/// Whether `raw` is accepted as an idempotency key.
pub open spec fn key_accepted(raw: Seq<char>) -> bool {
    trimmed(raw).len() > 0 && utf8_len(trimmed(raw)) < MAX_KEY_LEN
}

/// The refusal that `raw` earns, when it is not accepted.
pub open spec fn key_refusal(raw: Seq<char>) -> KeyError {
    if trimmed(raw).len() == 0 {
        KeyError::Empty
    } else {
        KeyError::TooLong(utf8_len(trimmed(raw)) as usize)
    }
}

/// A validated idempotency key: non-empty after trimming and shorter than
/// `MAX_KEY_LEN` bytes. Case and content are kept verbatim.
#[derive(Debug)]
pub struct IdempotencyKey {
    value: String,
}

impl View for IdempotencyKey {
    type V = Seq<char>;

    closed spec fn view(&self) -> Seq<char> {
        self.value@
    }
}

impl IdempotencyKey {
    /// Trims `raw` and accepts it when the result is non-empty and shorter
    /// than `MAX_KEY_LEN` bytes.
    pub fn parse(raw: &str) -> (r: Result<IdempotencyKey, KeyError>)
        ensures
            r is Ok <==> key_accepted(raw@),
            r matches Ok(k) ==> k@ == trimmed(raw@),
            r matches Err(e) ==> e == key_refusal(raw@),
    {
        let t = trim(raw);
        if t.is_empty() {
            return Err(KeyError::Empty);
        }
        let n: usize = t.as_bytes().len();
        if n >= MAX_KEY_LEN {
            return Err(KeyError::TooLong(n));
        }
        Ok(IdempotencyKey { value: t.to_owned() })
    }

    /// Same as `parse`, on an owned string.
    pub fn try_from(raw: String) -> (r: Result<IdempotencyKey, KeyError>)
        ensures
            r is Ok <==> key_accepted(raw@),
            r matches Ok(k) ==> k@ == trimmed(raw@),
            r matches Err(e) ==> e == key_refusal(raw@),
    {
        IdempotencyKey::parse(raw.as_str())
    }

    /// The key's text.
    pub fn as_str(&self) -> (r: &str)
        ensures
            r@ == self@,
    {
        self.value.as_str()
    }

    /// Consumes the key and returns its text.
    pub fn into_string(self) -> (r: String)
        ensures
            r@ == self@,
    {
        self.value
    }
}

} // verus!
