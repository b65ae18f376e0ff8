//! Route gating and upstream URL composition.
//!
//! The proxy is mounted at one fixed route prefix.  An inbound path is
//! accepted when its first slash-separated segment equals that prefix; the
//! remaining segments are appended to the configured upstream base URL by
//! URL-safe path-segment concatenation — each segment appended as one URL
//! path segment, with the base URL's scheme, authority and query kept —
//! never by plain text joining.  That join is the url crate's; its result
//! is named [`url_join`] and every contract here is exact over that name.

use vstd::prelude::*;
use crate::errors::ProxyError;
use crate::headers::Headers;
use crate::request::ProxyRequest;

verus! {

/// The fixed route prefix under which the proxy is mounted.
pub open spec fn route_prefix() -> Seq<char> {
    seq!['m', 'e', 't', 'r', 'i', 'c', 's']
}

/// `s` split at every `/`: always at least one segment, the separators not
/// kept, an empty text giving one empty segment.
pub open spec fn split_slash(s: Seq<char>) -> Seq<Seq<char>>
    decreases s.len(),
{
    if s.len() == 0 {
        seq![Seq::<char>::empty()]
    } else {
        let rest = split_slash(s.drop_last());
        if s.last() == '/' {
            rest.push(Seq::<char>::empty())
        } else {
            rest.update(rest.len() - 1, rest.last().push(s.last()))
        }
    }
}

/// Splitting yields at least one segment.
pub proof fn lemma_split_slash_len(s: Seq<char>)
    ensures
        split_slash(s).len() >= 1,
    decreases s.len(),
{
    if s.len() > 0 {
        lemma_split_slash_len(s.drop_last());
    }
}

/// An inbound path (with no leading slash) is routed iff its first
/// slash-separated segment is exactly the route prefix.
pub open spec fn route_matches(path: Seq<char>) -> bool {
    split_slash(path)[0] == route_prefix()
}

/// What appending `parts` to `base` as URL path segments returns: `base`
/// parsed as an absolute URL, each part appended as one more path segment
/// (percent-encoded as needed, `.` and `..` skipped), scheme, authority,
/// query and fragment kept — or nothing, when `base` does not parse as a
/// URL that admits path segments.
pub uninterp spec fn url_join(base: Seq<char>, parts: Seq<Seq<char>>) -> Option<Seq<char>>;

/// Relies on reqwest's re-export of the url crate: `Url::parse`, then
/// `PathSegmentsMut::extend` with the parts, then the serialization.  The
/// result depends on the arguments alone; it is `None` exactly when the
/// base does not parse or cannot be a base.
#[verifier::external_body]
fn url_join_segments(base: &str, parts: &Vec<&str>) -> (r: Option<String>)
    ensures
        (match r {
            Option::Some(url) => url_join(base@, parts@.map_values(|p: &str| p@))
                == Option::Some(url@),
            Option::None => url_join(base@, parts@.map_values(|p: &str| p@)) is None,
        }),
{
    let mut url = match reqwest::Url::parse(base) {
        Ok(url) => url,
        Err(_) => return None,
    };
    match url.path_segments_mut() {
        Ok(mut segments) => {
            segments.extend(parts.iter());
        },
        Err(()) => return None,
    }
    Some(url.to_string())
}

/// Constructs the upstream URL from the base endpoint and the path
/// segments to append, by URL-safe path-segment concatenation.  Callers
/// must know the join succeeds on this base; [`try_construct_url`] makes
/// that test.
pub fn construct_url(base: &str, parts: &Vec<&str>) -> (url: String)
    requires
        url_join(base@, parts@.map_values(|p: &str| p@)) is Some,
    ensures
        url_join(base@, parts@.map_values(|p: &str| p@)) == Option::Some(url@),
{
    match url_join_segments(base, parts) {
        Option::Some(url) => url,
        Option::None => {
            proof {
                assert(false);
            }
            String::new()
        },
    }
}

/// Constructs the upstream URL where the base admits it, and reports a
/// base that does not parse as a joinable URL instead of demanding one.
pub fn try_construct_url(base: &str, parts: &Vec<&str>) -> (r: Option<String>)
    ensures
        (match r {
            Option::Some(url) => url_join(base@, parts@.map_values(|p: &str| p@))
                == Option::Some(url@),
            Option::None => url_join(base@, parts@.map_values(|p: &str| p@)) is None,
        }),
{
    match url_join_segments(base, parts) {
        Option::Some(_) => Option::Some(construct_url(base, parts)),
        Option::None => Option::None,
    }
}

/// The upstream URL for a routed path: the base endpoint alone when the
/// path is the bare prefix, else the endpoint with the path's remaining
/// segments appended as URL path segments — or nothing, when the endpoint
/// admits no segments.
pub open spec fn destination_spec(endpoint: Seq<char>, path: Seq<char>) -> Option<Seq<char>> {
    let segments = split_slash(path);
    if segments.len() == 1 {
        Option::Some(endpoint)
    } else {
        url_join(endpoint, segments.skip(1))
    }
}

/// Splits a path into its slash-separated segments.
pub fn split_segments(path: &str) -> (segments: Vec<String>)
    ensures
        segments@.map_values(|x: String| x@) == split_slash(path@),
        segments@.len() >= 1,
{
    let n = path.unicode_len();
    let mut done: Vec<String> = Vec::new();
    let mut cur = String::new();
    let mut i: usize = 0;
    proof {
        assert(path@.take(0) =~= Seq::<char>::empty());
        assert(done@.map_values(|x: String| x@).push(cur@) =~= split_slash(path@.take(0)));
    }
    while i < n
        invariant
            n == path@.len(),
            0 <= i <= n,
            done@.map_values(|x: String| x@).push(cur@) == split_slash(path@.take(i as int)),
        decreases n - i,
    {
        let ghost pre = split_slash(path@.take(i as int));
        proof {
            assert(path@.take(i + 1).drop_last() =~= path@.take(i as int));
            assert(path@.take(i + 1).last() == path@[i as int]);
            assert(pre.len() >= 1);
            assert(pre.last() == cur@);
        }
        if path.get_char(i) == '/' {
            done.push(cur);
            cur = String::new();
            proof {
                assert(done@.map_values(|x: String| x@).push(cur@) =~= pre.push(
                    Seq::<char>::empty(),
                ));
            }
        } else {
            let piece = path.substring_char(i, i + 1);
            cur.append(piece);
            proof {
                assert(cur@ =~= pre.last().push(path@[i as int]));
                assert(done@.map_values(|x: String| x@).push(cur@) =~= pre.update(
                    pre.len() - 1,
                    pre.last().push(path@[i as int]),
                ));
            }
        }
        i = i + 1;
    }
    proof {
        assert(path@.take(n as int) =~= path@);
    }
    done.push(cur);
    proof {
        assert(done@.map_values(|x: String| x@) =~= split_slash(path@));
        lemma_split_slash_len(path@);
    }
    done
}

/// Decides the route and composes the destination URL: the upstream URL
/// when the path's first segment is the route prefix and the endpoint
/// admits the join, the not-found error when the route does not match, and
/// the request-build error when the endpoint cannot take path segments.
pub fn plan_destination(endpoint: &str, path: &str) -> (r: Result<String, ProxyError>)
    ensures
        (match r {
            Result::Ok(destination) => route_matches(path@) && destination_spec(endpoint@, path@)
                == Option::Some(destination@),
            Result::Err(e) => (e == ProxyError::RouteNotFound && !route_matches(path@)) || (e
                == ProxyError::RequestBuild && route_matches(path@) && destination_spec(
                endpoint@,
                path@,
            ) is None),
        }),
{
    let segments = split_segments(path);
    let prefix = String::from_str("metrics");
    proof {
        reveal_strlit("metrics");
        assert(prefix@ =~= route_prefix());
        assert(segments@.map_values(|x: String| x@)[0] == segments@[0]@);
    }
    if !(segments[0] == prefix) {
        return Result::Err(ProxyError::RouteNotFound);
    }
    if segments.len() == 1 {
        return Result::Ok(String::from_str(endpoint));
    }
    let mut rest: Vec<&str> = Vec::new();
    let mut i: usize = 1;
    let ghost all = segments@.map_values(|x: String| x@);
    while i < segments.len()
        invariant
            1 <= i <= segments@.len(),
            all == segments@.map_values(|x: String| x@),
            rest@.len() == i - 1,
            forall|j: int| 0 <= j < i - 1 ==> #[trigger] rest@[j]@ == all[j + 1],
        decreases segments@.len() - i,
    {
        let segment = segments[i].as_str();
        rest.push(segment);
        proof {
            assert(segment@ == all[i as int]);
        }
        i = i + 1;
    }
    proof {
        assert(rest@.map_values(|p: &str| p@) =~= split_slash(path@).skip(1));
    }
    match try_construct_url(endpoint, &rest) {
        Option::Some(destination) => Result::Ok(destination),
        Option::None => Result::Err(ProxyError::RequestBuild),
    }
}

/// Composes the outbound request for an inbound call: gates the route,
/// composes the destination URL, and copies method, headers, query and body
/// verbatim.  An unrouted path is answered with the not-found error, an
/// endpoint that admits no path segments with the request-build error, and
/// nothing else happens in either case.
pub fn compose_request(
    endpoint: &String,
    path: &str,
    method: String,
    headers: Headers,
    query: Vec<(String, String)>,
    body: Vec<u8>,
) -> (r: Result<ProxyRequest, ProxyError>)
    ensures
        (match r {
            Result::Ok(req) => route_matches(path@) && destination_spec(endpoint@, path@)
                == Option::Some(req.destination@) && req.method == method && req.headers
                == headers && req.query == query && req.body == body,
            Result::Err(e) => (e == ProxyError::RouteNotFound && !route_matches(path@)) || (e
                == ProxyError::RequestBuild && route_matches(path@) && destination_spec(
                endpoint@,
                path@,
            ) is None),
        }),
{
    match plan_destination(endpoint.as_str(), path) {
        Result::Ok(destination) => Result::Ok(
            ProxyRequest { method, destination, headers, query, body },
        ),
        Result::Err(e) => Result::Err(e),
    }
}

} // verus!
