//! Outbound URL construction: both backend endpoints are reached by
//! trimming every trailing slash from the caller-supplied base URL and
//! appending a fixed path, so bases given with and without a trailing slash
//! name the same request URL.

use vstd::prelude::*;
use vstd::string::{StringExecFns, StrSliceExecFns};

verus! {

/// The base with every trailing slash removed.
pub open spec fn strip_slashes(base: Seq<char>) -> Seq<char>
    decreases base.len(),
{
    if base.len() > 0 && base.last() == '/' {
        strip_slashes(base.drop_last())
    } else {
        base
    }
}

/// The URL of the backend's generate endpoint for a base URL.
pub open spec fn generate_url_of(base: Seq<char>) -> Seq<char> {
    strip_slashes(base) + "/api/generate"@
}

/// The URL of the backend's model-catalog endpoint for a base URL.
pub open spec fn tags_url_of(base: Seq<char>) -> Seq<char> {
    strip_slashes(base) + "/api/tags"@
}

/// Removes every trailing slash from the base URL.
pub fn strip_trailing_slashes(base: &str) -> (r: String)
    ensures
        r@ == strip_slashes(base@),
{
    let n: usize = base.unicode_len();
    let mut k: usize = n;
    proof {
        assert(base@.take(n as int) =~= base@);
    }
    while k > 0 && base.get_char(k - 1) == '/'
        invariant
            k <= n,
            n == base@.len(),
            strip_slashes(base@) == strip_slashes(base@.take(k as int)),
        decreases k,
    {
        proof {
            assert(base@.take(k as int).last() == base@[k - 1]);
            assert(base@.take(k as int).drop_last() =~= base@.take(k - 1));
        }
        k = k - 1;
    }
    let r: &str = base.substring_char(0, k);
    proof {
        assert(r@ =~= base@.take(k as int));
        if k > 0 {
            assert(base@.take(k as int).last() == base@[k - 1]);
        }
    }
    String::from_str(r)
}

/// Builds the outbound generate URL for a base URL.
pub fn generate_url(base: &str) -> (r: String)
    ensures
        r@ == generate_url_of(base@),
{
    let stripped = strip_trailing_slashes(base);
    stripped.concat("/api/generate")
}

/// Builds the outbound model-catalog URL for a base URL.
pub fn tags_url(base: &str) -> (r: String)
    ensures
        r@ == tags_url_of(base@),
{
    let stripped = strip_trailing_slashes(base);
    stripped.concat("/api/tags")
}

/// Base URLs with and without a trailing slash name the same outbound
/// request URL, at both backend endpoints.
pub proof fn lemma_url_ignores_trailing_slash(base: Seq<char>)
    ensures
        generate_url_of(base.push('/')) == generate_url_of(base),
        tags_url_of(base.push('/')) == tags_url_of(base),
{
    assert(base.push('/').last() == '/');
    assert(base.push('/').drop_last() =~= base);
}

} // verus!
