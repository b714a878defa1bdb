//! The data shapes of the GitHub device-flow sign-in and the repository
//! listing, and the decision taken on each polling response.
//!
//! The network traffic itself is the host's business.  What the backend
//! decides — whether a polling response means failure, means the user has
//! not finished authorizing yet, or carries a token worth parsing — is a
//! function of the response's status and body text, and is specified here.
//! A body that holds the text `"error"` anywhere is the server's way of
//! saying the grant is still pending.

use vstd::prelude::*;

verus! {

/// What the device-code endpoint answers when sign-in starts.
#[derive(Debug, Clone)]
pub struct DeviceCodeResponse {
    pub device_code: String,
    pub user_code: String,
    pub verification_uri: String,
    pub expires_in: u64,
    pub interval: u64,
}

/// What the access-token endpoint answers once the user has authorized.
#[derive(Debug, Clone)]
pub struct AuthTokenResponse {
    pub access_token: String,
    pub token_type: String,
    pub scope: String,
}

/// One repository of the signed-in user, as the listing endpoint reports
/// it.
#[derive(Debug, Clone)]
pub struct GitHubRepo {
    pub id: u64,
    pub name: String,
    pub full_name: String,
    pub private: bool,
    pub html_url: String,
    pub ssh_url: String,
    pub clone_url: String,
}

/// True when the pattern occurs in the text starting at position `i`.
pub open spec fn occurs_at(text: Seq<char>, pattern: Seq<char>, i: int) -> bool {
    0 <= i && i + pattern.len() <= text.len() && text.subrange(i, i + pattern.len() as int)
        == pattern
}

/// True when the pattern occurs somewhere in the text.
pub open spec fn has_substring(text: Seq<char>, pattern: Seq<char>) -> bool {
    exists|i: int| occurs_at(text, pattern, i)
}

/// Whether the pattern occurs anywhere in the text.
pub fn contains_substring(text: &str, pattern: &str) -> (r: bool)
    ensures
        r == has_substring(text@, pattern@),
{
    let n = text.unicode_len();
    let m = pattern.unicode_len();
    if m > n {
        proof {
            assert(forall|q: int| !occurs_at(text@, pattern@, q));
        }
        return false;
    }
    let mut i: usize = 0;
    while i <= n - m
        invariant
            m <= n,
            n == text@.len(),
            m == pattern@.len(),
            0 <= i <= n - m + 1,
            forall|q: int| 0 <= q < i ==> !occurs_at(text@, pattern@, q),
        decreases n - m - i + 1,
    {
        let mut j: usize = 0;
        while j < m && text.get_char(i + j) == pattern.get_char(j)
            invariant
                0 <= j <= m,
                i + m <= n,
                n == text@.len(),
                m == pattern@.len(),
                forall|q: int| 0 <= q < j ==> text@[i + q] == pattern@[q],
            decreases m - j,
        {
            j = j + 1;
        }
        if j == m {
            proof {
                assert(text@.subrange(i as int, i as int + m as int) =~= pattern@);
                assert(occurs_at(text@, pattern@, i as int));
            }
            return true;
        }
        proof {
            assert(!occurs_at(text@, pattern@, i as int)) by {
                if occurs_at(text@, pattern@, i as int) {
                    assert(text@.subrange(i as int, i as int + m as int)[j as int]
                        == pattern@[j as int]);
                }
            }
        }
        i = i + 1;
    }
    proof {
        assert(forall|q: int| !occurs_at(text@, pattern@, q)) by {
            assert(forall|q: int| occurs_at(text@, pattern@, q) ==> 0 <= q <= n - m);
        }
    }
    false
}

/// What one poll of the access-token endpoint decided.
#[derive(Debug, Clone, Copy, PartialEq, Eq, Structural)]
pub enum TokenPoll {
    /// The request itself failed; polling stops.
    Failed,
    /// The user has not finished authorizing: the body reports an error
    /// such as a pending grant; poll again.
    Pending,
    /// The body should carry the token: parse it.
    Ready,
}

/// Decides one token poll from the response: a failed request is final, a
/// body that mentions `"error"` means the grant is still pending, and
/// anything else is ready to be parsed as a token.
pub fn classify_token_poll(status_ok: bool, body: &str) -> (r: TokenPoll)
    ensures
        !status_ok ==> r == TokenPoll::Failed,
        status_ok && has_substring(body@, "\"error\""@) ==> r == TokenPoll::Pending,
        status_ok && !has_substring(body@, "\"error\""@) ==> r == TokenPoll::Ready,
{
    if !status_ok {
        TokenPoll::Failed
    } else if contains_substring(body, "\"error\"") {
        TokenPoll::Pending
    } else {
        TokenPoll::Ready
    }
}

} // verus!
