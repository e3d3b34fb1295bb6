//! Signed, time-limited links to one object of the bucket.

use crate::path::{key, key_of};
use rusoto_core::credential::AwsCredentials;
use rusoto_core::Region;
use rusoto_s3::util::{PreSignedRequest, PreSignedRequestOption};
use rusoto_s3::{GetObjectRequest, PutObjectRequest};
use std::time::Duration;
use vstd::prelude::*;
use vstd::string::*;

verus! {

/// For how many seconds a link stays valid after it was signed: one hour.
pub const LINK_LIFETIME_SECS: u64 = 3600;

/// The temporary credentials of the storage backend with which a link is
/// signed. They live for one request and are never kept. `expiration` is
/// the moment at which they lapse, in seconds since the Unix epoch, where
/// the backend gave one; it is for whoever resolved them to watch, a link
/// is signed without reading it.
pub struct Credentials {
    pub access_key: String,
    pub secret_key: String,
    pub session_token: Option<String>,
    pub expiration: Option<i64>,
}

/// What a link permits: to read the object, or to write it.
#[derive(Clone, Copy, PartialEq, Eq, Structural, Debug)]
pub enum Operation {
    Get,
    Put,
}

/// The characters that a link's path and query show as they are: letters
/// and digits of ASCII, `-`, `.`, `_` and `~`. Every other one is written
/// as `%` and two hexadecimal digits for each of its bytes.
pub open spec fn is_unreserved(c: char) -> bool {
    ||| 'a' <= c <= 'z'
    ||| 'A' <= c <= 'Z'
    ||| '0' <= c <= '9'
    ||| c == '-'
    ||| c == '.'
    ||| c == '_'
    ||| c == '~'
}

/// A text that a link's path shows as it is: unreserved characters and the
/// separator `/`.
pub open spec fn is_plain(text: Seq<char>) -> bool {
    forall|i: int| 0 <= i < text.len() ==> is_unreserved(#[trigger] text[i]) || text[i] == '/'
}

/// The digit that stands for a number below ten.
pub open spec fn digit(d: nat) -> char
    recommends
        d < 10,
{
    seq!['0', '1', '2', '3', '4', '5', '6', '7', '8', '9'][d as int]
}

/// A number in decimal digits, without leading zeros.
pub open spec fn decimal(n: nat) -> Seq<char>
    decreases n,
{
    if n < 10 {
        seq![digit(n)]
    } else {
        decimal(n / 10).push(digit(n % 10))
    }
}

/// `param` stands in `query` at `at` as a whole parameter: between the
/// start or a `&` and a `&` or the end.
pub open spec fn stands_at(query: Seq<char>, at: int, param: Seq<char>) -> bool {
    &&& 0 <= at
    &&& at + param.len() <= query.len()
    &&& query.subrange(at, at + param.len()) == param
    &&& (at == 0 || query[at - 1] == '&')
    &&& (at + param.len() == query.len() || query[at + param.len()] == '&')
}

/// `query` holds the parameter `name` with the value `value`.
pub open spec fn has_param(query: Seq<char>, name: Seq<char>, value: Seq<char>) -> bool {
    &&& !value.contains('&')
    &&& exists|at: int| stands_at(query, at, name + seq!['='] + value)
}

/// `query` holds a parameter `name`, whatever its value.
pub open spec fn names_param(query: Seq<char>, name: Seq<char>) -> bool {
    exists|value: Seq<char>| has_param(query, name, value)
}

/// `url` is `https://`, then `host`, `path`, a `?` and `query`.
pub open spec fn link_parts(url: Seq<char>, host: Seq<char>, path: Seq<char>, query: Seq<char>) -> bool {
    url == seq!['h', 't', 't', 'p', 's', ':', '/', '/'] + host + path + seq!['?'] + query
}

/// Where links point: the backend's region, by its name, and the host that
/// serves it. Whoever resolves the region (from the environment, from a
/// profile) does so before the library is called.
pub struct Endpoint {
    pub region: String,
    pub host: String,
}

impl Endpoint {
    /// The host is a bare host name: not empty, and without `/` or `?`, so
    /// without a scheme or a path of its own.
    pub open spec fn names_host(&self) -> bool {
        &&& self.host@.len() > 0
        &&& !self.host@.contains('/')
        &&& !self.host@.contains('?')
    }

    /// The backend's default endpoint: the region `us-east-1`, served by
    /// `s3.amazonaws.com`.
    pub fn global() -> (endpoint: Endpoint)
        ensures
            endpoint.region@ == "us-east-1"@,
            endpoint.host@ == "s3.amazonaws.com"@,
            endpoint.names_host(),
    {
        proof {
            reveal_strlit("s3.amazonaws.com");
        }
        Endpoint { region: "us-east-1".to_owned(), host: "s3.amazonaws.com".to_owned() }
    }
}

/// A text of unreserved characters only, which a query shows as it is.
pub open spec fn is_bare(text: Seq<char>) -> bool {
    forall|i: int| 0 <= i < text.len() ==> is_unreserved(#[trigger] text[i])
}

/// `value` is a credential scope for `access_key` in `region`: where the
/// key is bare it begins with the key and an encoded `/`; where the
/// region's name is bare it ends with the region, the service `s3` and the
/// closing word, each after an encoded `/`. Between them stands the date.
pub open spec fn is_scope(value: Seq<char>, access_key: Seq<char>, region: Seq<char>) -> bool {
    &&& is_bare(access_key) ==> (access_key + seq!['%', '2', 'F']).is_prefix_of(value)
    &&& is_bare(region) ==> (seq!['%', '2', 'F'] + region + "%2Fs3%2Faws4_request"@).is_suffix_of(
        value,
    )
}

/// `query` holds the parameter `X-Amz-Credential` with a scope for
/// `access_key` in `region`.
pub open spec fn has_credential(query: Seq<char>, access_key: Seq<char>, region: Seq<char>) -> bool {
    exists|value: Seq<char>| #[trigger]
        has_param(query, "X-Amz-Credential"@, value) && is_scope(value, access_key, region)
}

/// What every link looks like that was signed with `credentials` for `key`
/// in `bucket` at `endpoint`, whenever it was signed:
/// - it is `https://`, the endpoint's host, a path, a `?` and a query;
/// - the path begins with `/` and holds no `?`; where bucket and key are
///   plain, it is `/`, the bucket, `/` and the key, letter for letter;
/// - the query gives the validity in seconds as `X-Amz-Expires`, names a
///   signature and the signed headers, and holds the credential scope,
///   which shows the access key;
/// - the query names a session token exactly if the credentials have one.
///
/// The signature itself and the date are left open: they follow the clock.
pub open spec fn signed_link(
    url: Seq<char>,
    endpoint: &Endpoint,
    bucket: Seq<char>,
    key: Seq<char>,
    credentials: &Credentials,
    lifetime_secs: u64,
) -> bool {
    exists|path: Seq<char>, query: Seq<char>|
        {
            &&& #[trigger] link_parts(url, endpoint.host@, path, query)
            &&& path.len() > 0
            &&& path[0] == '/'
            &&& !path.contains('?')
            &&& is_plain(bucket) && is_plain(key) ==> path == seq!['/'] + bucket + seq!['/'] + key
            &&& has_param(query, "X-Amz-Expires"@, decimal(lifetime_secs as nat))
            &&& names_param(query, "X-Amz-Signature"@)
            &&& names_param(query, "X-Amz-SignedHeaders"@)
            &&& has_credential(query, credentials.access_key@, endpoint.region@)
            &&& names_param(query, "X-Amz-Security-Token"@) <==> credentials.session_token is Some
        }
}

/// Calls `get_presigned_url` of `rusoto_s3` on a `GetObjectRequest` for
/// `bucket` and `key`, with a validity of `lifetime_secs`. The region is a
/// `Region::Custom` of the endpoint's name and host, so nothing is read
/// from the environment. The signer is made by `AwsCredentials::new` from
/// the two keys and the token; it gets no expiry, which signing never
/// reads.
///
/// Believed, as `signed_link` puts it and for a bare host name: the link is
/// the scheme `https`, the host, the request path `/bucket/key` with all
/// but unreserved characters and `/` percent-encoded, a `?`, and the
/// parameters `name=value` joined by `&`, names and values percent-encoded:
/// `X-Amz-Expires` with the seconds in decimal, `X-Amz-Signature`,
/// `X-Amz-SignedHeaders`, `X-Amz-Credential` with the access key, the date,
/// the region's name, `s3` and `aws4_request` parted by `/`, and
/// `X-Amz-Security-Token` where there is a token. No more is claimed: the
/// signature and the date follow the time of the call.
#[verifier::external_body]
fn presign_get(
    bucket: String,
    key: String,
    credentials: &Credentials,
    endpoint: &Endpoint,
    lifetime_secs: u64,
) -> (url: String)
    ensures
        endpoint.names_host() ==> signed_link(url@, endpoint, bucket@, key@, credentials, lifetime_secs),
{
    let c = credentials;
    let signer = AwsCredentials::new(c.access_key.clone(), c.secret_key.clone(), c.session_token.clone(), None);
    let region = Region::Custom { name: endpoint.region.clone(), endpoint: endpoint.host.clone() };
    let option = PreSignedRequestOption { expires_in: Duration::from_secs(lifetime_secs) };
    GetObjectRequest { bucket, key, ..Default::default() }.get_presigned_url(&region, &signer, &option)
}

/// Calls `get_presigned_url` of `rusoto_s3` on a `PutObjectRequest` for
/// `bucket` and `key`, with a validity of `lifetime_secs`. Region and
/// signer are made as for reads, and the same is believed of the link: it
/// has the shape that `signed_link` describes. The method enters the
/// signature alone.
#[verifier::external_body]
fn presign_put(
    bucket: String,
    key: String,
    credentials: &Credentials,
    endpoint: &Endpoint,
    lifetime_secs: u64,
) -> (url: String)
    ensures
        endpoint.names_host() ==> signed_link(url@, endpoint, bucket@, key@, credentials, lifetime_secs),
{
    let c = credentials;
    let signer = AwsCredentials::new(c.access_key.clone(), c.secret_key.clone(), c.session_token.clone(), None);
    let region = Region::Custom { name: endpoint.region.clone(), endpoint: endpoint.host.clone() };
    let option = PreSignedRequestOption { expires_in: Duration::from_secs(lifetime_secs) };
    PutObjectRequest { bucket, key, ..Default::default() }.get_presigned_url(&region, &signer, &option)
}

/// A link that lets its bearer read `key` in `bucket` at `endpoint` for
/// `LINK_LIFETIME_SECS` seconds. No request is sent to the backend.
pub fn get(bucket: String, key: String, credentials: &Credentials, endpoint: &Endpoint) -> (url: String)
    ensures
        endpoint.names_host() ==> signed_link(
            url@,
            endpoint,
            bucket@,
            key@,
            credentials,
            LINK_LIFETIME_SECS,
        ),
{
    presign_get(bucket, key, credentials, endpoint, LINK_LIFETIME_SECS)
}

/// A link that lets its bearer write `key` in `bucket` at `endpoint` for
/// `LINK_LIFETIME_SECS` seconds. No request is sent to the backend.
pub fn put(bucket: String, key: String, credentials: &Credentials, endpoint: &Endpoint) -> (url: String)
    ensures
        endpoint.names_host() ==> signed_link(
            url@,
            endpoint,
            bucket@,
            key@,
            credentials,
            LINK_LIFETIME_SECS,
        ),
{
    presign_put(bucket, key, credentials, endpoint, LINK_LIFETIME_SECS)
}

/// A link for `operation` on `key` in `bucket` at `endpoint`, valid for
/// `LINK_LIFETIME_SECS` seconds. Links to read and links to write have the
/// same shape; they differ in what their signature permits.
pub fn build_link(
    operation: Operation,
    bucket: String,
    key: String,
    credentials: &Credentials,
    endpoint: &Endpoint,
) -> (url: String)
    ensures
        endpoint.names_host() ==> signed_link(
            url@,
            endpoint,
            bucket@,
            key@,
            credentials,
            LINK_LIFETIME_SECS,
        ),
{
    match operation {
        Operation::Get => get(bucket, key, credentials, endpoint),
        Operation::Put => put(bucket, key, credentials, endpoint),
    }
}

/// A link for `operation` on the object that the request path `path` names
/// in `bucket`: the path is normalized to its key first. The key that was
/// signed is handed back beside the link.
pub fn link_for_path(
    operation: Operation,
    bucket: String,
    path: &str,
    credentials: &Credentials,
    endpoint: &Endpoint,
) -> (out: (String, String))
    ensures
        out.0@ == key_of(path@),
        endpoint.names_host() ==> signed_link(
            out.1@,
            endpoint,
            bucket@,
            key_of(path@),
            credentials,
            LINK_LIFETIME_SECS,
        ),
{
    let object: String = key(path).to_owned();
    let url = build_link(operation, bucket, object.clone(), credentials, endpoint);
    (object, url)
}

/// A signed link begins with the scheme, the endpoint's host and a `/`;
/// for a plain bucket and key it begins with the scheme, the host, `/`,
/// the bucket, `/`, the key and the `?` that opens the query.
pub proof fn lemma_link_begins_at_host(
    url: Seq<char>,
    endpoint: &Endpoint,
    bucket: Seq<char>,
    key: Seq<char>,
    credentials: &Credentials,
    lifetime_secs: u64,
)
    requires
        signed_link(url, endpoint, bucket, key, credentials, lifetime_secs),
    ensures
        (seq!['h', 't', 't', 'p', 's', ':', '/', '/'] + endpoint.host@ + seq!['/']).is_prefix_of(url),
        is_plain(bucket) && is_plain(key) ==> (seq!['h', 't', 't', 'p', 's', ':', '/', '/']
            + endpoint.host@ + seq!['/'] + bucket + seq!['/'] + key + seq!['?']).is_prefix_of(url),
{
    let (path, query): (Seq<char>, Seq<char>) = choose|path: Seq<char>, query: Seq<char>|
        {
            &&& #[trigger] link_parts(url, endpoint.host@, path, query)
            &&& path.len() > 0
            &&& path[0] == '/'
            &&& (is_plain(bucket) && is_plain(key) ==> path == seq!['/'] + bucket + seq!['/'] + key)
        };
    let head = seq!['h', 't', 't', 'p', 's', ':', '/', '/'] + endpoint.host@;
    assert(url =~= head + path + seq!['?'] + query);
    assert(url.subrange(0, head.len() as int + 1) =~= head + seq!['/']);
    if is_plain(bucket) && is_plain(key) {
        let whole = head + seq!['/'] + bucket + seq!['/'] + key + seq!['?'];
        assert(whole =~= head + path + seq!['?']);
        assert(url.subrange(0, whole.len() as int) =~= whole);
    }
}

/// The validity that every link announces reads `3600`.
pub proof fn lemma_lifetime_digits()
    ensures
        decimal(LINK_LIFETIME_SECS as nat) == seq!['3', '6', '0', '0'],
{
    reveal_with_fuel(decimal, 5);
    assert(decimal(3) =~= seq!['3']);
    assert(decimal(36) =~= seq!['3', '6']);
    assert(decimal(360) =~= seq!['3', '6', '0']);
    assert(decimal(3600) =~= seq!['3', '6', '0', '0']);
}

/// A link falls into its parts in one way only: the host ends at the
/// first `/` after the scheme, the path at the first `?`.
pub proof fn lemma_link_parts_unique(
    url: Seq<char>,
    host: Seq<char>,
    path: Seq<char>,
    query: Seq<char>,
    other_host: Seq<char>,
    other_path: Seq<char>,
    other_query: Seq<char>,
)
    requires
        link_parts(url, host, path, query),
        link_parts(url, other_host, other_path, other_query),
        !host.contains('/'),
        !other_host.contains('/'),
        !host.contains('?'),
        !other_host.contains('?'),
        path.len() > 0 && path[0] == '/' && !path.contains('?'),
        other_path.len() > 0 && other_path[0] == '/' && !other_path.contains('?'),
    ensures
        host == other_host,
        path == other_path,
        query == other_query,
{
    let n: int = host.len() as int;
    let m: int = other_host.len() as int;
    assert(url[8 + n] == path[0]);
    assert(url[8 + m] == other_path[0]);
    if n < m {
        assert(other_host[n] == url[8 + n]);
    } else if m < n {
        assert(host[m] == url[8 + m]);
    }
    assert(host =~= url.subrange(8, 8 + n));
    assert(other_host =~= url.subrange(8, 8 + m));
    let p: int = path.len() as int;
    let q: int = other_path.len() as int;
    assert(url[8 + n + p] == '?');
    assert(url[8 + n + q] == '?');
    if p < q {
        assert(other_path[p] == url[8 + n + p]);
    } else if q < p {
        assert(path[q] == url[8 + n + q]);
    }
    assert(path =~= url.subrange(8 + n, 8 + n + p));
    assert(other_path =~= url.subrange(8 + n, 8 + n + q));
    assert(query =~= url.skip(8 + n + p + 1));
    assert(other_query =~= url.skip(8 + n + q + 1));
}

} // verus!
