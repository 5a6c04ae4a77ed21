//! Bearer-token extraction from the authorization header.
//!
//! The HTTP layer hands in the raw header value; everything decided over
//! it — trimming, the scheme prefix, which error a malformed header gets —
//! is verified here.

use vstd::prelude::*;
use vstd::string::StrSliceExecFns;

verus! {

/// ASCII whitespace, as trimmed from header values.
pub open spec fn spec_is_ws(c: char) -> bool {
    c == ' ' || c == '\t' || c == '\n' || c == '\r'
}

/// The sequence with its leading whitespace removed.
pub open spec fn spec_trim_front(s: Seq<char>) -> Seq<char>
    decreases s.len(),
{
    if s.len() > 0 && spec_is_ws(s[0]) {
        spec_trim_front(s.drop_first())
    } else {
        s
    }
}

/// The sequence with its trailing whitespace removed.
pub open spec fn spec_trim_back(s: Seq<char>) -> Seq<char>
    decreases s.len(),
{
    if s.len() > 0 && spec_is_ws(s.last()) {
        spec_trim_back(s.drop_last())
    } else {
        s
    }
}

/// The sequence with whitespace removed from both ends.
pub open spec fn spec_trim(s: Seq<char>) -> Seq<char> {
    spec_trim_back(spec_trim_front(s))
}

/// Dropping whitespace from the front, one prefix at a time.
proof fn lemma_trim_front_skip(s: Seq<char>, i: int)
    requires
        0 <= i <= s.len(),
        forall|j: int| 0 <= j < i ==> spec_is_ws(s[j]),
    ensures
        spec_trim_front(s) == spec_trim_front(s.skip(i)),
    decreases i,
{
    if i > 0 {
        assert(spec_is_ws(s[0]));
        assert(spec_trim_front(s) == spec_trim_front(s.drop_first()));
        assert(forall|j: int| 0 <= j < i - 1 ==> spec_is_ws(#[trigger] s.drop_first()[j]));
        lemma_trim_front_skip(s.drop_first(), i - 1);
        assert(s.drop_first().skip(i - 1) =~= s.skip(i));
    } else {
        assert(s.skip(0) =~= s);
    }
}

/// A sequence whose first character is no whitespace trims from the
/// front to itself.
proof fn lemma_trim_front_done(s: Seq<char>)
    requires
        s.len() == 0 || !spec_is_ws(s[0]),
    ensures
        spec_trim_front(s) == s,
{
}

/// Dropping whitespace from the back, one suffix at a time.
proof fn lemma_trim_back_take(s: Seq<char>, i: int)
    requires
        0 <= i <= s.len(),
        forall|j: int| i <= j < s.len() ==> spec_is_ws(s[j]),
    ensures
        spec_trim_back(s) == spec_trim_back(s.take(i)),
    decreases s.len() - i,
{
    if i < s.len() {
        assert(s.take(s.len() as int) =~= s);
        assert(s.drop_last() =~= s.take(s.len() - 1));
        lemma_trim_back_take(s.drop_last(), i);
        assert(s.drop_last().take(i) =~= s.take(i));
    } else {
        assert(s.take(i) =~= s);
    }
}

/// A sequence whose last character is no whitespace trims from the back
/// to itself.
proof fn lemma_trim_back_done(s: Seq<char>)
    requires
        s.len() == 0 || !spec_is_ws(s.last()),
    ensures
        spec_trim_back(s) == s,
{
}

/// Whether one character is ASCII whitespace.
fn is_ws(c: char) -> (r: bool)
    ensures
        r == spec_is_ws(c),
{
    c == ' ' || c == '\t' || c == '\n' || c == '\r'
}

/// The header value with whitespace removed from both ends.
pub fn trim_ws(s: &str) -> (r: &str)
    ensures
        r@ == spec_trim(s@),
{
    let n = s.unicode_len();
    let mut start: usize = 0;
    while start < n && is_ws(s.get_char(start))
        invariant
            n == s@.len(),
            start <= n,
            forall|j: int| 0 <= j < start ==> spec_is_ws(s@[j]),
        decreases n - start,
    {
        start += 1;
    }
    let mut end: usize = n;
    while end > start && is_ws(s.get_char(end - 1))
        invariant
            n == s@.len(),
            start <= end <= n,
            forall|j: int| 0 <= j < start ==> spec_is_ws(s@[j]),
            forall|j: int| end <= j < n ==> spec_is_ws(s@[j]),
        decreases end,
    {
        end -= 1;
    }
    let r = s.substring_char(start, end);
    proof {
        lemma_trim_front_skip(s@, start as int);
        let mid = s@.skip(start as int);
        if start < end {
            assert(!spec_is_ws(mid[0]));
        }
        lemma_trim_front_done(mid);
        lemma_trim_back_take(mid, end - start);
        let t = mid.take(end - start);
        if start < end {
            assert(t.last() == s@[end - 1]);
        }
        lemma_trim_back_done(t);
        assert(r@ =~= t);
    }
    r
}

/// A bearer token extracted from the authorization header.
#[derive(Clone, Copy, Debug, PartialEq, Eq, Hash)]
pub struct TwitterBearerToken<'r> {
    token: &'r str,
}

impl<'r> TwitterBearerToken<'r> {
    /// The token's characters.
    pub closed spec fn spec_token(&self) -> Seq<char> {
        self.token@
    }

    /// The raw token, for the identity provider's client.
    pub fn token(&self) -> (r: &'r str)
        ensures
            r@ == self.spec_token(),
    {
        self.token
    }
}

/// Why no bearer token could be extracted.
#[derive(Clone, Copy, Debug, PartialEq, Eq, Hash, Structural)]
pub enum TwitterBearerTokenError {
    /// No authorization header was sent.
    Missing,
    /// The header does not carry the bearer scheme.
    Malformed,
}

/// What bearer-token extraction yields for a given header: the token
/// after the `Bearer ` scheme of the trimmed value; `Missing` without a
/// header; `Malformed` without the scheme.
pub open spec fn spec_parse_bearer(header: Option<Seq<char>>) -> Result<
    Seq<char>,
    TwitterBearerTokenError,
> {
    match header {
        None => Err(TwitterBearerTokenError::Missing),
        Some(h) => {
            let t = spec_trim(h);
            if t.len() >= 7 && t.take(7) == "Bearer "@ {
                Ok(t.skip(7))
            } else {
                Err(TwitterBearerTokenError::Malformed)
            }
        },
    }
}

/// Extracts the bearer token from the authorization header, if one was
/// sent and carries the bearer scheme.
pub fn parse_bearer_token<'r>(header: Option<&'r str>) -> (r: Result<
    TwitterBearerToken<'r>,
    TwitterBearerTokenError,
>)
    ensures
        match r {
            Ok(t) => spec_parse_bearer(
                match header {
                    Some(h) => Some(h@),
                    None => None,
                },
            ) == Ok::<Seq<char>, TwitterBearerTokenError>(t.spec_token()),
            Err(e) => spec_parse_bearer(
                match header {
                    Some(h) => Some(h@),
                    None => None,
                },
            ) == Err::<Seq<char>, TwitterBearerTokenError>(e),
        },
{
    let h = match header {
        Some(h) => h,
        None => {
            return Err(TwitterBearerTokenError::Missing);
        },
    };
    let trimmed = trim_ws(h);
    proof {
        reveal_strlit("Bearer ");
    }
    let n = trimmed.unicode_len();
    if n < 7 {
        return Err(TwitterBearerTokenError::Malformed);
    }
    let prefix = trimmed.substring_char(0, 7);
    if !crate::strutil::str_eq(prefix, "Bearer ") {
        proof {
            assert(trimmed@.take(7) =~= prefix@);
        }
        return Err(TwitterBearerTokenError::Malformed);
    }
    let token = trimmed.substring_char(7, n);
    proof {
        assert(trimmed@.take(7) =~= prefix@);
        assert(token@ =~= spec_trim(h@).skip(7));
    }
    Ok(TwitterBearerToken { token })
}


/// An OAuth2 identity provider, named for its configuration section.
pub trait Provider {
    /// The provider's configuration name.
    fn name() -> &'static str;
}

/// The social identity provider this faucet authenticates against.
#[derive(Clone, Copy, Debug, PartialEq, Eq, Hash, Structural)]
pub struct Twitter;

impl Provider for Twitter {
    fn name() -> &'static str {
        "twitter"
    }
}

} // verus!
