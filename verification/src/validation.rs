//! Request input validation: the key grammar, rate-limit parameter ranges,
//! and header well-formedness.

use vstd::prelude::*;

use crate::error::ThrottlerError;
use crate::text::push_char;

verus! {

/// A character admitted by the key grammar: ASCII letters, digits,
/// underscore, dot and dash.
pub open spec fn spec_valid_key_char(c: char) -> bool {
    let u = c as int;
    (65 <= u && u <= 90) || (97 <= u && u <= 122) || (48 <= u && u <= 57) || u == 95 || u == 46
        || u == 45
}

/// A valid key: non-empty, at most `max_len` characters, every character
/// from the key grammar.
pub open spec fn spec_valid_key(s: Seq<char>, max_len: int) -> bool {
    1 <= s.len() <= max_len && forall|i: int| 0 <= i < s.len() ==> spec_valid_key_char(s[i])
}

/// A character kept by `sanitize_key`: the key grammar without length
/// limits.
pub open spec fn spec_sanitize(s: Seq<char>) -> Seq<char>
    decreases s.len(),
{
    if s.len() == 0 {
        Seq::empty()
    } else {
        let pre = spec_sanitize(s.drop_last());
        if spec_valid_key_char(s.last()) {
            pre.push(s.last())
        } else {
            pre
        }
    }
}

/// A well-formed header: non-empty name of ASCII letters, digits, dash or
/// underscore, and a value of at most 1024 characters.
pub open spec fn spec_valid_header(name: Seq<char>, value: Seq<char>) -> bool {
    &&& name.len() >= 1
    &&& value.len() <= 1024
    &&& forall|i: int|
        0 <= i < name.len() ==> {
            let u = #[trigger] name[i] as int;
            (65 <= u && u <= 90) || (97 <= u && u <= 122) || (48 <= u && u <= 57) || u == 45
                || u == 95
        }
}

/// Validates admission-request inputs against fixed bounds.
pub struct RequestValidator {
    /// Longest accepted key, in characters.
    pub max_key_length: usize,
    /// Largest accepted request count per window.
    pub max_requests_per_window: u64,
    /// Shortest accepted window, in milliseconds.
    pub min_window_ms: u64,
    /// Longest accepted window, in milliseconds.
    pub max_window_ms: u64,
}

impl Default for RequestValidator {
    /// The service's standard bounds: keys up to 256 characters, at most
    /// 10_000 requests per window, windows from one second to one hour.
    fn default() -> (v: RequestValidator)
        ensures
            v.max_key_length == 256,
            v.max_requests_per_window == 10000,
            v.min_window_ms == 1000,
            v.max_window_ms == 3600000,
    {
        RequestValidator {
            max_key_length: 256,
            max_requests_per_window: 10000,
            min_window_ms: 1000,
            max_window_ms: 3600000,
        }
    }
}

impl RequestValidator {
    /// A validator with the standard bounds.
    pub fn new() -> (v: RequestValidator)
        ensures
            v.max_key_length == 256,
            v.max_requests_per_window == 10000,
            v.min_window_ms == 1000,
            v.max_window_ms == 3600000,
    {
        RequestValidator {
            max_key_length: 256,
            max_requests_per_window: 10000,
            min_window_ms: 1000,
            max_window_ms: 3600000,
        }
    }

    /// Accepts exactly the keys of the key grammar: non-empty, within the
    /// length bound, characters from `[A-Za-z0-9_.-]`.
    pub fn validate_key(&self, key: &str) -> (r: Result<(), ThrottlerError>)
        ensures
            r.is_ok() == spec_valid_key(key@, self.max_key_length as int),
            r.is_err() ==> (r matches Err(e) && e is InvalidKey),
    {
        let n = key.unicode_len();
        if n == 0 {
            return Err(ThrottlerError::InvalidKey(String::from_str("Key cannot be empty")));
        }
        if n > self.max_key_length {
            return Err(
                ThrottlerError::InvalidKey(
                    String::from_str("Key length exceeds the configured maximum"),
                ),
            );
        }
        let mut i: usize = 0;
        while i < n
            invariant
                0 <= i <= n,
                n == key@.len(),
                forall|j: int| 0 <= j < i ==> spec_valid_key_char(key@[j]),
            decreases n - i,
        {
            let u = key.get_char(i) as u32;
            if !((65 <= u && u <= 90) || (97 <= u && u <= 122) || (48 <= u && u <= 57) || u == 95
                || u == 46 || u == 45) {
                return Err(
                    ThrottlerError::InvalidKey(
                        String::from_str(
                            "Key contains invalid characters. Only alphanumeric, underscore, dot, and dash allowed",
                        ),
                    ),
                );
            }
            i = i + 1;
        }
        Ok(())
    }

    /// Accepts a requests-per-window count and a window length exactly when
    /// both lie within the validator's bounds.
    pub fn validate_rate_limit(&self, requests: u64, window_ms: u64) -> (r: Result<
        (),
        ThrottlerError,
    >)
        ensures
            r.is_ok() == (1 <= requests && requests <= self.max_requests_per_window
                && self.min_window_ms <= window_ms && window_ms <= self.max_window_ms),
            r.is_err() ==> (r matches Err(e) && e is ValidationError),
    {
        if requests == 0 {
            return Err(
                ThrottlerError::ValidationError(
                    String::from_str("Requests per window must be greater than 0"),
                ),
            );
        }
        if requests > self.max_requests_per_window {
            return Err(
                ThrottlerError::ValidationError(
                    String::from_str("Requests per window exceeds the configured maximum"),
                ),
            );
        }
        if window_ms < self.min_window_ms {
            return Err(
                ThrottlerError::ValidationError(
                    String::from_str("Window duration is below the configured minimum"),
                ),
            );
        }
        if window_ms > self.max_window_ms {
            return Err(
                ThrottlerError::ValidationError(
                    String::from_str("Window duration exceeds the configured maximum"),
                ),
            );
        }
        Ok(())
    }

    /// Accepts a header list exactly when every entry is well-formed.
    pub fn validate_headers(&self, headers: &Vec<(String, String)>) -> (r: Result<
        (),
        ThrottlerError,
    >)
        ensures
            r.is_ok() == (forall|i: int|
                0 <= i < headers@.len() ==> spec_valid_header(
                    #[trigger] headers@[i].0@,
                    headers@[i].1@,
                )),
            r.is_err() ==> (r matches Err(e) && e is ValidationError),
    {
        let mut i: usize = 0;
        while i < headers.len()
            invariant
                0 <= i <= headers@.len(),
                forall|k: int|
                    0 <= k < i ==> spec_valid_header(#[trigger] headers@[k].0@, headers@[k].1@),
            decreases headers@.len() - i,
        {
            let name: &String = &headers[i].0;
            let value: &String = &headers[i].1;
            let nn = name.as_str().unicode_len();
            if nn == 0 {
                return Err(
                    ThrottlerError::ValidationError(
                        String::from_str("Header name cannot be empty"),
                    ),
                );
            }
            if value.as_str().unicode_len() > 1024 {
                return Err(
                    ThrottlerError::ValidationError(
                        String::from_str("Header value exceeds 1024 characters"),
                    ),
                );
            }
            let mut j: usize = 0;
            while j < nn
                invariant
                    0 <= j <= nn,
                    nn == name@.len(),
                    nn >= 1,
                    0 <= i < headers@.len(),
                    name@ == headers@[i as int].0@,
                    value@ == headers@[i as int].1@,
                    value@.len() <= 1024,
                    forall|k: int|
                        0 <= k < j ==> {
                            let u = #[trigger] name@[k] as int;
                            (65 <= u && u <= 90) || (97 <= u && u <= 122) || (48 <= u && u <= 57)
                                || u == 45 || u == 95
                        },
                decreases nn - j,
            {
                let u = name.as_str().get_char(j) as u32;
                if !((65 <= u && u <= 90) || (97 <= u && u <= 122) || (48 <= u && u <= 57) || u
                    == 45 || u == 95) {
                    proof {
                        let b = name@[j as int] as int;
                        assert(!((65 <= b && b <= 90) || (97 <= b && b <= 122) || (48 <= b && b
                            <= 57) || b == 45 || b == 95));
                        assert(!spec_valid_header(headers@[i as int].0@, headers@[i as int].1@));
                    }
                    return Err(
                        ThrottlerError::ValidationError(
                            String::from_str("Header name contains invalid characters"),
                        ),
                    );
                }
                j = j + 1;
            }
            proof {
                assert(spec_valid_header(headers@[i as int].0@, headers@[i as int].1@));
            }
            i = i + 1;
        }
        Ok(())
    }

    /// Keeps the first `max_key_length` characters of the input that the
    /// key grammar admits, dropping the rest.
    pub fn sanitize_key(&self, key: &str) -> (r: String)
        ensures
            r@ == spec_sanitize(
                key@.take(
                    if key@.len() <= self.max_key_length {
                        key@.len() as int
                    } else {
                        self.max_key_length as int
                    },
                ),
            ),
    {
        let n = key.unicode_len();
        let limit = if n <= self.max_key_length {
            n
        } else {
            self.max_key_length
        };
        let mut out = String::new();
        let mut i: usize = 0;
        while i < limit
            invariant
                0 <= i <= limit,
                limit <= key@.len(),
                out@ == spec_sanitize(key@.take(i as int)),
            decreases limit - i,
        {
            let c = key.get_char(i);
            let u = c as u32;
            if (65 <= u && u <= 90) || (97 <= u && u <= 122) || (48 <= u && u <= 57) || u == 95 || u
                == 46 || u == 45 {
                push_char(&mut out, c);
            }
            proof {
                assert(key@.take(i + 1).drop_last() =~= key@.take(i as int));
                assert(key@.take(i + 1).last() == key@[i as int]);
            }
            i = i + 1;
        }
        proof {
            assert(key@.take(limit as int) =~= key@.take(
                if key@.len() <= self.max_key_length {
                    key@.len() as int
                } else {
                    self.max_key_length as int
                },
            ));
        }
        out
    }
}

} // verus!
