//! Building the outbound request and relaying the upstream response.
//!
//! The upstream is chosen uniformly at random per request; the outbound URL
//! joins the chosen base URL with the inbound path (leading slashes
//! stripped, so a path prefix in the base is preserved) and carries the
//! inbound query string verbatim; the forwarded client identity comes from
//! the trusted proxy-chain header or the raw peer address, depending on the
//! trust boundary mode.
use vstd::prelude::*;
use vstd::string::StrSliceExecFns;
use vstd::string::StringExecFns;

use crate::json::push_char;

verus! {

/// A path with every leading `/` removed, so that it joins onto a base URL
/// as a relative reference.
pub open spec fn spec_strip_leading_slashes(s: Seq<char>) -> Seq<char>
    decreases s.len(),
{
    if s.len() > 0 && s[0] == '/' {
        spec_strip_leading_slashes(s.drop_first())
    } else {
        s
    }
}

proof fn lemma_strip_at(s: Seq<char>, i: int)
    requires
        0 <= i <= s.len(),
        forall|k: int| 0 <= k < i ==> s[k] == '/',
        i == s.len() || s[i] != '/',
    ensures
        spec_strip_leading_slashes(s) == s.subrange(i, s.len() as int),
    decreases i,
{
    if i == 0 {
        assert(s.subrange(0, s.len() as int) =~= s);
    } else {
        assert(s[0] == '/');
        lemma_strip_at(s.drop_first(), i - 1);
        assert(s.drop_first().subrange(i - 1, s.drop_first().len() as int) =~= s.subrange(
            i,
            s.len() as int,
        ));
    }
}

/// Removes every leading `/` from the inbound request path.
pub fn strip_leading_slashes(s: &str) -> (r: String)
    ensures
        r@ == spec_strip_leading_slashes(s@),
{
    let n = s.unicode_len();
    let mut i: usize = 0;
    while i < n && s.get_char(i) == '/'
        invariant
            n == s@.len(),
            i <= n,
            forall|k: int| 0 <= k < i ==> s@[k] == '/',
        decreases n - i,
    {
        i = i + 1;
    }
    proof {
        lemma_strip_at(s@, i as int);
    }
    let rest = s.substring_char(i, n);
    rest.to_owned()
}

/// An upstream base URL in directory form: a trailing `/` appended when
/// none is there. A generic URL join resolves a relative reference against
/// the base path's directory, dropping the segment after the last `/`; a
/// base in directory form keeps every path segment, so a path prefix in the
/// configured upstream survives the join.
pub open spec fn spec_dir_base(s: Seq<char>) -> Seq<char> {
    if s.len() > 0 && s.last() == '/' {
        s
    } else {
        s.push('/')
    }
}

/// Appends the trailing `/` that puts an upstream base URL in directory
/// form, when it is missing.
pub fn directory_base(s: &str) -> (r: String)
    ensures
        r@ == spec_dir_base(s@),
{
    let n = s.unicode_len();
    if n > 0 && s.get_char(n - 1) == '/' {
        s.to_owned()
    } else {
        let mut out = s.to_owned();
        push_char(&mut out, '/');
        out
    }
}

/// Whether parsing `base` as an absolute URL and joining `rel` onto it
/// succeeds. The outcome depends on the two strings alone.
pub uninterp spec fn url_join_ok(base: Seq<char>, rel: Seq<char>) -> bool;

/// The serialization of `base` joined with the relative reference `rel`,
/// with its query set to `query`. The result depends on the three strings
/// alone.
pub uninterp spec fn url_target(base: Seq<char>, rel: Seq<char>, query: Seq<char>) -> Seq<char>;

/// Relies on `url::Url::parse`, `url::Url::join`, `url::Url::set_query` and
/// `url::Url::as_str`: parses the upstream base URL, resolves the relative
/// path against it, replaces the query, and serializes the result. Parsing
/// and joining succeed or fail on the strings alone; setting a query cannot
/// fail.
#[verifier::external_body]
pub fn build_target_url(base: &str, rel: &str, query: &str) -> (r: Option<String>)
    ensures
        r is Some <==> url_join_ok(base@, rel@),
        r matches Some(u) ==> u@ == url_target(base@, rel@, query@),
{
    let parsed = match url::Url::parse(base) {
        Ok(u) => u,
        Err(_) => return None,
    };
    let mut joined = match parsed.join(rel) {
        Ok(u) => u,
        Err(_) => return None,
    };
    joined.set_query(Some(query));
    Some(joined.as_str().to_string())
}

pub assume_specification<T>[ rand::random::<T> ]() -> (r: T)
    where
        rand::distributions::Standard: rand::distributions::Distribution<T>,
;

/// Chooses which upstream takes this request: an index drawn uniformly at
/// random, independently of every other request, so that load spreads over
/// the upstream set.
pub fn pick_index(len: usize) -> (r: usize)
    requires
        len > 0,
    ensures
        r < len,
{
    let x: usize = rand::random::<usize>();
    x % len
}

/// The client's effective network identity under the trust boundary mode:
/// behind another trusted proxy the resolved proxy-chain address counts,
/// at the first hop the raw peer address does.
pub fn effective_client_addr(is_intermediate: bool, realip: Option<String>, peer: Option<String>)
    -> (r: Option<String>)
    ensures
        r == (if is_intermediate {
            realip
        } else {
            peer
        }),
{
    if is_intermediate {
        realip
    } else {
        peer
    }
}

/// The value of the `Forwarded` header added on the outbound request.
pub fn forwarded_value(client_ip: &str) -> (r: String)
    ensures
        r@ == "for="@ + client_ip@,
{
    let mut out = "for=".to_owned();
    out.append(client_ip);
    out
}

/// The response headers relayed to the client: all upstream headers, in
/// order, except the hop-by-hop `Connection` header. Header names are the
/// transport's normalized lowercase names.
pub open spec fn spec_relay_headers(hs: Seq<(Seq<char>, Seq<char>)>) -> Seq<(Seq<char>, Seq<char>)>
    decreases hs.len(),
{
    if hs.len() == 0 {
        Seq::empty()
    } else {
        let rest = spec_relay_headers(hs.drop_last());
        if hs.last().0 == "connection"@ {
            rest
        } else {
            rest.push(hs.last())
        }
    }
}

/// Copies every upstream response header except `connection`.
pub fn relay_headers(hs: &Vec<(String, String)>) -> (r: Vec<(String, String)>)
    ensures
        r.deep_view() == spec_relay_headers(hs.deep_view()),
{
    let connection: String = "connection".to_owned();
    let mut out: Vec<(String, String)> = Vec::new();
    let mut i: usize = 0;
    while i < hs.len()
        invariant
            i <= hs@.len(),
            connection@ == "connection"@,
            out.deep_view() == spec_relay_headers(hs.deep_view().subrange(0, i as int)),
        decreases hs@.len() - i,
    {
        let ghost pre = hs.deep_view().subrange(0, i as int);
        let ghost cur = hs.deep_view().subrange(0, i as int + 1);
        proof {
            assert(cur.drop_last() =~= pre);
            assert(cur.last() == hs.deep_view()[i as int]);
        }
        if !hs[i].0.eq(&connection) {
            out.push((hs[i].0.clone(), hs[i].1.clone()));
        }
        proof {
            assert(out.deep_view() =~= spec_relay_headers(cur));
        }
        i = i + 1;
    }
    proof {
        assert(hs.deep_view().subrange(0, hs@.len() as int) =~= hs.deep_view());
    }
    out
}

} // verus!
