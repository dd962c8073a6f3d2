//! Derivation of rate-limit keys from request metadata: client IP, API
//! key, user id, or a composite of these.

use vstd::prelude::*;

use crate::error::ThrottlerError;
use crate::kvlist::{kv_get, spec_find};
use crate::text::push_char;

verus! {

/// How a rate-limit key is derived from a request.
#[derive(Debug)]
pub enum KeyStrategy {
    /// Use the client IP address.
    IpAddress,
    /// Use the API key from a header.
    ApiKey,
    /// Use the user id from a header.
    UserId,
    /// Join several sources into one key.
    Composite(Vec<KeyStrategy>),
}

/// The value of the first header with the given name.
pub open spec fn spec_header(h: Seq<(String, String)>, name: Seq<char>) -> Option<Seq<char>> {
    match spec_find(h, name) {
        Option::Some(v) => Option::Some(v@),
        Option::None => Option::None,
    }
}

/// The API key a request carries: the `x-api-key` header, else the
/// `authorization` header.
pub open spec fn spec_api_key(h: Seq<(String, String)>) -> Option<Seq<char>> {
    match spec_header(h, "x-api-key"@) {
        Option::Some(v) => Option::Some(v),
        Option::None => spec_header(h, "authorization"@),
    }
}

/// The user id a request carries: the `x-user-id` header.
pub open spec fn spec_user_id(h: Seq<(String, String)>) -> Option<Seq<char>> {
    spec_header(h, "x-user-id"@)
}

/// One part of a composite key; a nested composite is rejected.
pub open spec fn spec_part(
    strategy: KeyStrategy,
    h: Seq<(String, String)>,
    ip: Seq<char>,
) -> Option<Seq<char>> {
    match strategy {
        KeyStrategy::IpAddress => Option::Some(ip),
        KeyStrategy::ApiKey => spec_api_key(h),
        KeyStrategy::UserId => spec_user_id(h),
        KeyStrategy::Composite(_) => Option::None,
    }
}

/// The parts of a composite key joined with `:`; `None` when any part is
/// missing or nested.
pub open spec fn spec_joined_parts(
    subs: Seq<KeyStrategy>,
    h: Seq<(String, String)>,
    ip: Seq<char>,
) -> Option<Seq<char>>
    decreases subs.len(),
{
    if subs.len() == 0 {
        Option::Some(Seq::empty())
    } else {
        match spec_joined_parts(subs.drop_last(), h, ip) {
            Option::None => Option::None,
            Option::Some(pre) => match spec_part(subs.last(), h, ip) {
                Option::None => Option::None,
                Option::Some(p) => Option::Some(
                    if subs.len() == 1 {
                        p
                    } else {
                        pre + seq![':'] + p
                    },
                ),
            },
        }
    }
}

/// The key a strategy derives, when every source it needs is present.
pub open spec fn spec_generated(
    strategy: KeyStrategy,
    h: Seq<(String, String)>,
    ip: Seq<char>,
    path: Seq<char>,
) -> Option<Seq<char>> {
    match strategy {
        KeyStrategy::IpAddress => Option::Some("throttle:ip:"@ + ip + ":"@ + path),
        KeyStrategy::ApiKey => match spec_api_key(h) {
            Option::Some(k) => Option::Some("throttle:api:"@ + k + ":"@ + path),
            Option::None => Option::None,
        },
        KeyStrategy::UserId => match spec_user_id(h) {
            Option::Some(u) => Option::Some("throttle:user:"@ + u + ":"@ + path),
            Option::None => Option::None,
        },
        KeyStrategy::Composite(subs) => match spec_joined_parts(subs@, h, ip) {
            Option::Some(joined) => Option::Some("throttle:composite:"@ + joined + ":"@ + path),
            Option::None => Option::None,
        },
    }
}

/// A character kept as-is by `sanitize_key`: ASCII letters and digits,
/// colon, dash and underscore; anything else becomes an underscore.
pub open spec fn spec_sanitized_char(c: char) -> char {
    let u = c as int;
    if (65 <= u && u <= 90) || (97 <= u && u <= 122) || (48 <= u && u <= 57) || u == 58 || u == 45
        || u == 95 {
        c
    } else {
        '_'
    }
}

/// Derives rate-limit keys from request context.
pub struct KeyGenerator {
    /// The strategy used when the caller does not name one.
    pub default_strategy: KeyStrategy,
}

impl KeyGenerator {
    /// A generator with the given default strategy.
    pub fn new(strategy: KeyStrategy) -> (g: KeyGenerator)
        ensures
            g.default_strategy == strategy,
    {
        KeyGenerator { default_strategy: strategy }
    }

    /// Derives a key with the generator's default strategy.
    pub fn generate_key(
        &self,
        headers: &Vec<(String, String)>,
        client_ip: &str,
        path: &str,
    ) -> (r: Result<String, ThrottlerError>)
        ensures
            match r {
                Ok(key) => spec_generated(self.default_strategy, headers@, client_ip@, path@)
                    == Option::Some(key@),
                Err(e) => {
                    &&& spec_generated(self.default_strategy, headers@, client_ip@, path@)
                        is None
                    &&& match self.default_strategy {
                        KeyStrategy::IpAddress => false,
                        KeyStrategy::ApiKey => e is MissingApiKey,
                        KeyStrategy::UserId => e is MissingUserId,
                        KeyStrategy::Composite(_) => e is MissingApiKey || e is MissingUserId
                            || e is InvalidKeyStrategy,
                    }
                },
            },
    {
        self.generate_key_with_strategy(&self.default_strategy, headers, client_ip, path)
    }

    /// Derives a key with a specific strategy.
    #[verifier::loop_isolation(false)]
    pub fn generate_key_with_strategy(
        &self,
        strategy: &KeyStrategy,
        headers: &Vec<(String, String)>,
        client_ip: &str,
        path: &str,
    ) -> (r: Result<String, ThrottlerError>)
        ensures
            match r {
                Ok(key) => spec_generated(*strategy, headers@, client_ip@, path@) == Option::Some(
                    key@,
                ),
                Err(e) => {
                    &&& spec_generated(*strategy, headers@, client_ip@, path@) is None
                    &&& match *strategy {
                        KeyStrategy::IpAddress => false,
                        KeyStrategy::ApiKey => e is MissingApiKey,
                        KeyStrategy::UserId => e is MissingUserId,
                        KeyStrategy::Composite(_) => e is MissingApiKey || e is MissingUserId
                            || e is InvalidKeyStrategy,
                    }
                },
            },
    {
        match strategy {
            KeyStrategy::IpAddress => {
                let mut s = String::from_str("throttle:ip:");
                s.append(client_ip);
                s.append(":");
                s.append(path);
                Ok(s)
            },
            KeyStrategy::ApiKey => {
                let api_key = match kv_get(headers, "x-api-key") {
                    Some(v) => v,
                    None => match kv_get(headers, "authorization") {
                        Some(v) => v,
                        None => {
                            return Err(ThrottlerError::MissingApiKey);
                        },
                    },
                };
                let mut s = String::from_str("throttle:api:");
                s.append(api_key.as_str());
                s.append(":");
                s.append(path);
                Ok(s)
            },
            KeyStrategy::UserId => {
                let user_id = match kv_get(headers, "x-user-id") {
                    Some(v) => v,
                    None => {
                        return Err(ThrottlerError::MissingUserId);
                    },
                };
                let mut s = String::from_str("throttle:user:");
                s.append(user_id.as_str());
                s.append(":");
                s.append(path);
                Ok(s)
            },
            KeyStrategy::Composite(strategies) => {
                let mut joined = String::new();
                let n = strategies.len();
                let mut i: usize = 0;
                proof {
                    assert(strategies@.subrange(0, 0) =~= Seq::<KeyStrategy>::empty());
                }
                while i < n
                    invariant
                        0 <= i <= n,
                        n == strategies@.len(),
                        spec_joined_parts(strategies@.subrange(0, i as int), headers@, client_ip@)
                            == Option::Some(joined@),
                    decreases n - i,
                {
                    let ghost prefix = strategies@.subrange(0, i as int);
                    proof {
                        assert(strategies@.subrange(0, i + 1).drop_last() =~= prefix);
                        assert(strategies@.subrange(0, i + 1).last() == strategies@[i as int]);
                    }
                    let part: &String = match &strategies[i] {
                        KeyStrategy::IpAddress => {
                            if i > 0 {
                                push_char(&mut joined, ':');
                            }
                            joined.append(client_ip);
                            proof {
                                if i == 0 {
                                    assert(Seq::<char>::empty() + client_ip@ =~= client_ip@);
                                }
                            }
                            i = i + 1;
                            continue ;
                        },
                        KeyStrategy::ApiKey => match kv_get(headers, "x-api-key") {
                            Some(v) => v,
                            None => match kv_get(headers, "authorization") {
                                Some(v) => v,
                                None => {
                                    proof {
                                        lemma_joined_parts_none(
                                            strategies@,
                                            headers@,
                                            client_ip@,
                                            i as int,
                                        );
                                    }
                                    return Err(ThrottlerError::MissingApiKey);
                                },
                            },
                        },
                        KeyStrategy::UserId => match kv_get(headers, "x-user-id") {
                            Some(v) => v,
                            None => {
                                proof {
                                    lemma_joined_parts_none(
                                        strategies@,
                                        headers@,
                                        client_ip@,
                                        i as int,
                                    );
                                }
                                return Err(ThrottlerError::MissingUserId);
                            },
                        },
                        KeyStrategy::Composite(_) => {
                            proof {
                                lemma_joined_parts_none(
                                    strategies@,
                                    headers@,
                                    client_ip@,
                                    i as int,
                                );
                            }
                            return Err(
                                ThrottlerError::InvalidKeyStrategy(
                                    String::from_str("Nested composite keys not supported"),
                                ),
                            );
                        },
                    };
                    if i > 0 {
                        push_char(&mut joined, ':');
                    }
                    joined.append(part.as_str());
                    proof {
                        if i == 0 {
                            assert(Seq::<char>::empty() + part@ =~= part@);
                        }
                    }
                    i = i + 1;
                }
                proof {
                    assert(strategies@.subrange(0, n as int) =~= strategies@);
                }
                let mut s = String::from_str("throttle:composite:");
                s.append(joined.as_str());
                s.append(":");
                s.append(path);
                Ok(s)
            },
        }
    }

    /// The client IP taken from forwarding headers: the first
    /// comma-separated entry of `x-forwarded-for` with surrounding spaces
    /// removed, else `x-real-ip`, else `cf-connecting-ip`, else
    /// `"unknown"`.
    pub fn extract_client_ip(headers: &Vec<(String, String)>) -> (r: String)
        ensures
            r@ == match spec_header(headers@, "x-forwarded-for"@) {
                Option::Some(v) => spec_trim_spaces(v.take(spec_first_comma(v))),
                Option::None => match spec_header(headers@, "x-real-ip"@) {
                    Option::Some(v) => v,
                    Option::None => match spec_header(headers@, "cf-connecting-ip"@) {
                        Option::Some(v) => v,
                        Option::None => "unknown"@,
                    },
                },
            },
    {
        match kv_get(headers, "x-forwarded-for") {
            Some(v) => first_trimmed_segment(v.as_str()),
            None => match kv_get(headers, "x-real-ip") {
                Some(v) => v.clone(),
                None => match kv_get(headers, "cf-connecting-ip") {
                    Some(v) => v.clone(),
                    None => String::from_str("unknown"),
                },
            },
        }
    }

    /// Replaces every character outside ASCII letters, digits, colon,
    /// dash and underscore with an underscore, so the key is safe for the
    /// shared store.
    pub fn sanitize_key(key: &str) -> (r: String)
        ensures
            r@ == key@.map_values(|c: char| spec_sanitized_char(c)),
    {
        let n = key.unicode_len();
        let mut out = String::new();
        let mut i: usize = 0;
        proof {
            assert(key@.take(0).map_values(|c: char| spec_sanitized_char(c)) =~= Seq::<
                char,
            >::empty());
        }
        while i < n
            invariant
                0 <= i <= n,
                n == key@.len(),
                out@ == key@.take(i as int).map_values(|c: char| spec_sanitized_char(c)),
            decreases n - i,
        {
            let c = key.get_char(i);
            let u = c as u32;
            let kept = (65 <= u && u <= 90) || (97 <= u && u <= 122) || (48 <= u && u <= 57) || u
                == 58 || u == 45 || u == 95;
            if kept {
                push_char(&mut out, c);
            } else {
                push_char(&mut out, '_');
            }
            proof {
                assert(key@.take(i + 1).map_values(|c: char| spec_sanitized_char(c)) =~= key@.take(
                    i as int,
                ).map_values(|c: char| spec_sanitized_char(c)).push(
                    spec_sanitized_char(key@[i as int]),
                ));
            }
            i = i + 1;
        }
        proof {
            assert(key@.take(n as int) =~= key@);
        }
        out
    }
}

impl Default for KeyGenerator {
    /// Keys are derived from the client IP by default.
    fn default() -> (g: KeyGenerator)
        ensures
            g.default_strategy == KeyStrategy::IpAddress,
    {
        KeyGenerator { default_strategy: KeyStrategy::IpAddress }
    }
}

/// A missing or nested part anywhere makes the whole composite join
/// undefined.
proof fn lemma_joined_parts_none(
    subs: Seq<KeyStrategy>,
    h: Seq<(String, String)>,
    ip: Seq<char>,
    i: int,
)
    requires
        0 <= i < subs.len(),
        spec_part(subs[i], h, ip) is None,
    ensures
        spec_joined_parts(subs, h, ip) is None,
    decreases subs.len(),
{
    if subs.len() > 0 {
        if i == subs.len() - 1 {
            assert(subs.last() == subs[i]);
        } else {
            assert(subs.drop_last()[i] == subs[i]);
            lemma_joined_parts_none(subs.drop_last(), h, ip, i);
        }
    }
}

/// The index of the first comma, or the length when there is none.
pub open spec fn spec_first_comma(s: Seq<char>) -> int
    decreases s.len(),
{
    if s.len() == 0 {
        0
    } else if s[0] == ',' {
        0
    } else {
        1 + spec_first_comma(s.drop_first())
    }
}

/// Spaces stripped from the front.
pub open spec fn spec_trim_front(s: Seq<char>) -> Seq<char>
    decreases s.len(),
{
    if s.len() > 0 && s[0] == ' ' {
        spec_trim_front(s.drop_first())
    } else {
        s
    }
}

/// Spaces stripped from the back.
pub open spec fn spec_trim_back(s: Seq<char>) -> Seq<char>
    decreases s.len(),
{
    if s.len() > 0 && s.last() == ' ' {
        spec_trim_back(s.drop_last())
    } else {
        s
    }
}

/// Spaces stripped from both ends.
pub open spec fn spec_trim_spaces(s: Seq<char>) -> Seq<char> {
    spec_trim_back(spec_trim_front(s))
}

proof fn lemma_first_comma_at(s: Seq<char>, i: int)
    requires
        0 <= i <= s.len(),
        forall|j: int| 0 <= j < i ==> s[j] != ',',
        i < s.len() ==> s[i] == ',',
    ensures
        spec_first_comma(s) == i,
    decreases i,
{
    if i > 0 {
        assert(forall|j: int| 0 <= j < i - 1 ==> s.drop_first()[j] == s[j + 1]);
        if i < s.len() {
            assert(s.drop_first()[i - 1] == s[i]);
        }
        lemma_first_comma_at(s.drop_first(), i - 1);
    }
}

proof fn lemma_trim_front_at(s: Seq<char>, a: int)
    requires
        0 <= a <= s.len(),
        forall|j: int| 0 <= j < a ==> s[j] == ' ',
        a < s.len() ==> s[a] != ' ',
    ensures
        spec_trim_front(s) == s.subrange(a, s.len() as int),
    decreases a,
{
    if a == 0 {
        assert(s.subrange(0, s.len() as int) =~= s);
    } else {
        assert(forall|j: int| 0 <= j < s.len() - 1 ==> s.drop_first()[j] == s[j + 1]);
        lemma_trim_front_at(s.drop_first(), a - 1);
        assert(s.drop_first().subrange(a - 1, s.len() - 1) =~= s.subrange(a, s.len() as int));
    }
}

proof fn lemma_trim_back_at(s: Seq<char>, b: int)
    requires
        0 <= b <= s.len(),
        forall|j: int| b <= j < s.len() ==> s[j] == ' ',
        b > 0 ==> s[b - 1] != ' ',
    ensures
        spec_trim_back(s) == s.subrange(0, b),
    decreases s.len() - b,
{
    if b == s.len() {
        assert(s.subrange(0, s.len() as int) =~= s);
        if s.len() > 0 {
            assert(s.last() != ' ' || b == 0);
        }
    } else {
        assert(s.last() == ' ');
        assert(forall|j: int| 0 <= j < s.len() - 1 ==> s.drop_last()[j] == s[j]);
        lemma_trim_back_at(s.drop_last(), b);
        assert(s.drop_last().subrange(0, b) =~= s.subrange(0, b));
    }
}

/// The index of the first occurrence of `c`, or the length.
fn find_first_char(s: &str, c: char) -> (idx: usize)
    ensures
        idx <= s@.len(),
        forall|j: int| 0 <= j < idx ==> s@[j] != c,
        idx < s@.len() ==> s@[idx as int] == c,
{
    let n = s.unicode_len();
    let mut i: usize = 0;
    while i < n
        invariant
            0 <= i <= n,
            n == s@.len(),
            forall|j: int| 0 <= j < i ==> s@[j] != c,
        decreases n - i,
    {
        if s.get_char(i) == c {
            return i;
        }
        i = i + 1;
    }
    n
}

/// The index of the first non-space character before `end`, or `end`.
fn skip_spaces_front(s: &str, end: usize) -> (a: usize)
    requires
        end <= s@.len(),
    ensures
        a <= end,
        forall|j: int| 0 <= j < a ==> s@[j] == ' ',
        a < end ==> s@[a as int] != ' ',
{
    let mut i: usize = 0;
    while i < end
        invariant
            0 <= i <= end,
            end <= s@.len(),
            forall|j: int| 0 <= j < i ==> s@[j] == ' ',
        decreases end - i,
    {
        if s.get_char(i) != ' ' {
            return i;
        }
        i = i + 1;
    }
    end
}

/// One past the last non-space character in `[a, end)`, or `a`.
fn skip_spaces_back(s: &str, a: usize, end: usize) -> (b: usize)
    requires
        a <= end <= s@.len(),
    ensures
        a <= b <= end,
        forall|j: int| b <= j < end ==> s@[j] == ' ',
        b > a ==> s@[b - 1] != ' ',
{
    let mut i: usize = end;
    while i > a
        invariant
            a <= i <= end,
            end <= s@.len(),
            forall|j: int| i <= j < end ==> s@[j] == ' ',
        decreases i - a,
    {
        if s.get_char(i - 1) != ' ' {
            return i;
        }
        i = i - 1;
    }
    a
}

/// The first comma-separated segment with surrounding spaces removed.
fn first_trimmed_segment(s: &str) -> (r: String)
    ensures
        r@ == spec_trim_spaces(s@.take(spec_first_comma(s@))),
{
    let seg_end = find_first_char(s, ',');
    proof {
        lemma_first_comma_at(s@, seg_end as int);
    }
    let ghost seg = s@.take(spec_first_comma(s@));
    let a = skip_spaces_front(s, seg_end);
    proof {
        assert(forall|j: int| 0 <= j < seg.len() ==> seg[j] == s@[j]);
        lemma_trim_front_at(seg, a as int);
    }
    let b = skip_spaces_back(s, a, seg_end);
    let ghost front = seg.subrange(a as int, seg_end as int);
    proof {
        assert(spec_trim_front(seg) == front);
        assert(forall|j: int| 0 <= j < front.len() ==> front[j] == s@[a + j]);
        if b == a {
            lemma_trim_back_at(front, 0);
        } else {
            lemma_trim_back_at(front, b - a);
        }
        assert(front.subrange(0, b - a) =~= s@.subrange(a as int, b as int));
    }
    let out = s.substring_char(a, b);
    String::from_str(out)
}

} // verus!
