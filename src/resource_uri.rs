//! Parsing of the storage-object URIs handed out by the ingestion service
//! into a validated descriptor: service root, object name, account name and
//! the shared-access-signature credential carried in the query string.
use azure_storage::StorageCredentialsInner as Inner;
use vstd::prelude::*;

verus! {

/// Declares url::ParseError, carried by the error for a text that is not a URL.
#[verifier::external_type_specification]
#[verifier::external_body]
pub struct ExUrlParseError(url::ParseError);

/// Declares azure_storage::StorageCredentials, the credential a descriptor carries.
#[verifier::external_type_specification]
#[verifier::external_body]
pub struct ExStorageCredentials(azure_storage::StorageCredentials);

/// Declares azure_core::Error, what reading a credential fails with.
#[verifier::external_type_specification]
#[verifier::external_body]
pub struct ExAzureError(azure_core::Error);

/// The host of a URI: a domain name or an address literal.
#[derive(Debug, Clone)]
pub enum UrlHost {
    Domain(String),
    Ipv4,
    Ipv6,
}

/// The components of a parsed URI that descriptor validation reads.
#[derive(Debug, Clone)]
pub struct UrlParts {
    pub scheme: String,
    pub host: Option<UrlHost>,
    pub path_segments: Option<Vec<String>>,
    pub query: Option<String>,
}

/// The model of a URI host.
pub enum HostModel {
    Domain(Seq<char>),
    Ipv4,
    Ipv6,
}

/// The model of the components of a parsed URI.
pub struct UrlPartsModel {
    pub scheme: Seq<char>,
    pub host: Option<HostModel>,
    pub segments: Option<Seq<Seq<char>>>,
    pub query: Option<Seq<char>>,
}

impl View for UrlHost {
    type V = HostModel;

    open spec fn view(&self) -> HostModel {
        match self {
            UrlHost::Domain(d) => HostModel::Domain(d@),
            UrlHost::Ipv4 => HostModel::Ipv4,
            UrlHost::Ipv6 => HostModel::Ipv6,
        }
    }
}

impl View for UrlParts {
    type V = UrlPartsModel;

    open spec fn view(&self) -> UrlPartsModel {
        UrlPartsModel {
            scheme: self.scheme@,
            host: match self.host {
                Some(h) => Some(h@),
                None => None,
            },
            segments: match self.path_segments {
                Some(v) => Some(v@.map_values(|s: String| s@)),
                None => None,
            },
            query: match self.query {
                Some(q) => Some(q@),
                None => None,
            },
        }
    }
}

/// What the URL parser makes of a text: its components, or nothing where
/// the text is not a URL.
pub uninterp spec fn url_parts_of(s: Seq<char>) -> Option<UrlPartsModel>;

/// Relies on url::Url::parse to parse `s`, and on the Url accessors scheme,
/// host, path_segments and query to read its components back.
#[verifier::external_body]
fn parse_url(s: &str) -> (r: Result<UrlParts, url::ParseError>)
    ensures
        r is Ok <==> url_parts_of(s@) is Some,
        r matches Ok(p) ==> url_parts_of(s@) == Some(p@),
{
    let u = url::Url::parse(s)?;
    let host = match u.host() {
        Some(url::Host::Domain(d)) => Some(UrlHost::Domain(d.to_string())),
        Some(url::Host::Ipv4(_)) => Some(UrlHost::Ipv4),
        Some(url::Host::Ipv6(_)) => Some(UrlHost::Ipv6),
        None => None,
    };
    let path_segments = u.path_segments().map(|p| p.map(String::from).collect());
    let query = u.query().map(String::from);
    Ok(UrlParts { scheme: u.scheme().to_string(), host, path_segments, query })
}

/// What reading a query string as a shared-access signature gives: its
/// key/value pairs, or nothing where it cannot be read.
pub uninterp spec fn sas_pairs_of(q: Seq<char>) -> Option<Seq<(Seq<char>, Seq<char>)>>;

pub open spec fn pair_views(p: Seq<(String, String)>) -> Seq<(Seq<char>, Seq<char>)> {
    p.map_values(|x: (String, String)| (x.0@, x.1@))
}

/// Relies on azure_storage::StorageCredentials::sas_token, which reads a
/// query string into a credential holding its key/value pairs
/// (StorageCredentialsInner::SASToken); the pairs are read back from it.
#[verifier::external_body]
fn sas_credentials(query: &str) -> (r: Result<
    (azure_storage::StorageCredentials, Vec<(String, String)>),
    azure_core::Error,
>)
    ensures
        r is Ok <==> sas_pairs_of(query@) is Some,
        r is Ok ==> sas_pairs_of(query@) == Some(pair_views(r->Ok_0.1@)),
{
    let c = azure_storage::StorageCredentials::sas_token(query)?;
    let pairs = match &*c.0.read_blocking() {
        Inner::SASToken(p) => p.clone(),
        Inner::Key(..) | Inner::BearerToken(_) | Inner::TokenCredential(_) | Inner::Anonymous => {
            Vec::new()
        },
    };
    Ok((c, pairs))
}

/// Why a URI does not describe a storage object.
#[derive(Debug)]
pub enum ResourceUriError {
    InvalidScheme(String),
    InvalidHost,
    MissingObjectName,
    MissingSasToken,
    MissingAccountName,
    ParseError(url::ParseError),
}

/// A validated pointer to a storage object.
#[derive(Debug)]
pub struct ResourceUri {
    pub service_uri: String,
    pub object_name: String,
    pub account_name: String,
    pub sas_token: azure_storage::StorageCredentials,
}

/// The parts of a URI that validation keeps before the credential is read:
/// its domain, its one path segment and its query.
#[derive(Debug, Clone)]
pub struct Location {
    pub host: String,
    pub object_name: String,
    pub query: String,
}

pub open spec fn https_scheme() -> Seq<char> {
    seq!['h', 't', 't', 'p', 's']
}

pub open spec fn https_prefix() -> Seq<char> {
    https_scheme() + seq![':', '/', '/']
}

/// The domain of a URI, where its host is one.
pub open spec fn domain_of(m: UrlPartsModel) -> Option<Seq<char>> {
    match m.host {
        Some(HostModel::Domain(h)) => Some(h),
        _ => None,
    }
}

/// The object name: the path's single segment, where there is exactly one
/// and it is not empty.
pub open spec fn object_of(m: UrlPartsModel) -> Option<Seq<char>> {
    match m.segments {
        Some(s) => if s.len() == 1 && s[0].len() > 0 {
            Some(s[0])
        } else {
            None
        },
        None => None,
    }
}

/// Whether the URI passes every check that comes before its credential.
pub open spec fn locates(m: UrlPartsModel) -> bool {
    &&& m.scheme == https_scheme()
    &&& domain_of(m) is Some
    &&& object_of(m) is Some
    &&& has_query(m)
}

/// Whether the URI has a query that is not empty.
pub open spec fn has_query(m: UrlPartsModel) -> bool {
    m.query is Some && m.query->Some_0.len() > 0
}

/// The error of the first check before the credential that the URI fails.
pub open spec fn location_error(m: UrlPartsModel, e: ResourceUriError) -> bool {
    if m.scheme != https_scheme() {
        e matches ResourceUriError::InvalidScheme(s) && s@ == m.scheme
    } else if domain_of(m) is None {
        e is InvalidHost
    } else if object_of(m) is None {
        e is MissingObjectName
    } else if !has_query(m) {
        e is MissingSasToken
    } else {
        false
    }
}

/// The account name: the host up to its first `.`, where it has one.
pub open spec fn is_account_of(host: Seq<char>, a: Seq<char>) -> bool {
    &&& a.len() < host.len()
    &&& host[a.len() as int] == '.'
    &&& a == host.take(a.len() as int)
    &&& forall|j: int| 0 <= j < a.len() ==> a[j] != '.'
}

pub open spec fn has_dot(host: Seq<char>) -> bool {
    exists|j: int| 0 <= j < host.len() && host[j] == '.'
}

/// `d` describes the object `object` under the domain `host`.
pub open spec fn describes(d: ResourceUri, host: Seq<char>, object: Seq<char>) -> bool {
    &&& d.service_uri@ == https_prefix() + host
    &&& d.object_name@ == object
    &&& is_account_of(host, d.account_name@)
}

/// Whether a query reads as a shared-access signature with at least one
/// key/value pair.
pub open spec fn sas_accepted(q: Seq<char>) -> bool {
    sas_pairs_of(q) is Some && sas_pairs_of(q)->Some_0.len() > 0
}

/// `r` is what parsing gives for a URI that passes every check before its
/// credential, with domain `host`, object `object` and query `query`.
pub open spec fn parsed_from(
    host: Seq<char>,
    object: Seq<char>,
    query: Seq<char>,
    r: Result<ResourceUri, ResourceUriError>,
) -> bool {
    if !sas_accepted(query) {
        r is Err && r->Err_0 is MissingSasToken
    } else if !has_dot(host) {
        r is Err && r->Err_0 is MissingAccountName
    } else {
        r is Ok && describes(r->Ok_0, host, object)
    }
}

/// Checks, in order, the scheme, the host, the path and the presence of a
/// non-empty query, and keeps what the descriptor is built from.
pub fn locate(parts: &UrlParts) -> (r: Result<Location, ResourceUriError>)
    ensures
        r is Ok <==> locates(parts@),
        r matches Err(e) ==> location_error(parts@, e),
        r matches Ok(l) ==> {
            &&& domain_of(parts@) == Some(l.host@)
            &&& object_of(parts@) == Some(l.object_name@)
            &&& parts@.query == Some(l.query@)
        },
{
    let https = String::from_str("https");
    proof {
        reveal_strlit("https");
        assert(https@ =~= https_scheme());
    }
    if !(parts.scheme == https) {
        return Err(ResourceUriError::InvalidScheme(parts.scheme.clone()));
    }
    let host = match &parts.host {
        Some(UrlHost::Domain(h)) => h.clone(),
        _ => {
            return Err(ResourceUriError::InvalidHost);
        },
    };
    let object_name = match &parts.path_segments {
        Some(segments) => {
            if segments.len() == 1 && segments[0].as_str().unicode_len() > 0 {
                segments[0].clone()
            } else {
                return Err(ResourceUriError::MissingObjectName);
            }
        },
        None => {
            return Err(ResourceUriError::MissingObjectName);
        },
    };
    let query = match &parts.query {
        Some(q) if q.as_str().unicode_len() > 0 => q.clone(),
        _ => {
            return Err(ResourceUriError::MissingSasToken);
        },
    };
    Ok(Location { host, object_name, query })
}

/// The account name of a host: the text before its first `.`.
pub fn account_name(host: &str) -> (r: Option<String>)
    ensures
        r is None <==> !has_dot(host@),
        r matches Some(a) ==> is_account_of(host@, a@),
{
    let n = host.unicode_len();
    let mut i: usize = 0;
    while i < n
        invariant
            n == host@.len(),
            i <= n,
            forall|j: int| 0 <= j < i ==> host@[j] != '.',
        decreases n - i,
    {
        if host.get_char(i) == '.' {
            let a = host.substring_char(0, i);
            let r = String::from_str(a);
            proof {
                assert(r@ =~= host@.take(i as int));
            }
            return Some(r);
        }
        i = i + 1;
    }
    None
}

/// Builds the descriptor from a located URI and the outcome of reading its
/// query as a credential: an unreadable query, or one without any key/value
/// pair, counts as a missing token; a host without a `.` names no account.
pub fn describe(
    location: Location,
    credential: Result<(azure_storage::StorageCredentials, Vec<(String, String)>), azure_core::Error>,
) -> (r: Result<ResourceUri, ResourceUriError>)
    ensures
        !(credential is Ok && credential->Ok_0.1@.len() > 0) ==> r is Err
            && r->Err_0 is MissingSasToken,
        credential is Ok && credential->Ok_0.1@.len() > 0 && !has_dot(location.host@) ==> r is Err
            && r->Err_0 is MissingAccountName,
        credential is Ok && credential->Ok_0.1@.len() > 0 && has_dot(location.host@) ==> {
            &&& r is Ok
            &&& describes(r->Ok_0, location.host@, location.object_name@)
            &&& r->Ok_0.sas_token == credential->Ok_0.0
        },
{
    let sas_token = match credential {
        Ok((c, pairs)) => {
            if pairs.len() == 0 {
                return Err(ResourceUriError::MissingSasToken);
            }
            c
        },
        Err(_) => {
            return Err(ResourceUriError::MissingSasToken);
        },
    };
    let account_name = match account_name(location.host.as_str()) {
        Some(a) => a,
        None => {
            return Err(ResourceUriError::MissingAccountName);
        },
    };
    let prefix = String::from_str("https://");
    proof {
        reveal_strlit("https://");
        assert(prefix@ =~= https_prefix());
    }
    let service_uri = prefix.concat(location.host.as_str());
    Ok(ResourceUri { service_uri, object_name: location.object_name, account_name, sas_token })
}

impl ResourceUri {
    /// Parses a storage-object URI into its descriptor. The checks run in
    /// order and the first that fails gives the error: the text must be a
    /// URL, its scheme `https`, its host a domain, its path one non-empty
    /// segment, its query present, not empty and readable as a shared-access signature
    /// with at least one key/value pair,
    /// and its host must name an account before a `.`.
    pub fn parse(uri: &str) -> (r: Result<ResourceUri, ResourceUriError>)
        ensures
            url_parts_of(uri@) is None <==> r is Err && r->Err_0 is ParseError,
            url_parts_of(uri@) is Some && !locates(url_parts_of(uri@)->Some_0) ==> r is Err
                && location_error(url_parts_of(uri@)->Some_0, r->Err_0),
            url_parts_of(uri@) is Some && locates(url_parts_of(uri@)->Some_0) ==> parsed_from(
                domain_of(url_parts_of(uri@)->Some_0)->Some_0,
                object_of(url_parts_of(uri@)->Some_0)->Some_0,
                url_parts_of(uri@)->Some_0.query->Some_0,
                r,
            ),
    {
        let parts = match parse_url(uri) {
            Ok(p) => p,
            Err(e) => {
                return Err(ResourceUriError::ParseError(e));
            },
        };
        let location = match locate(&parts) {
            Ok(l) => l,
            Err(e) => {
                return Err(e);
            },
        };
        let credential = sas_credentials(location.query.as_str());
        describe(location, credential)
    }
}

impl<'a> TryFrom<&'a str> for ResourceUri {
    type Error = ResourceUriError;

    fn try_from(uri: &'a str) -> Result<ResourceUri, ResourceUriError> {
        ResourceUri::parse(uri)
    }
}

impl<'a> vstd::std_specs::convert::TryFromSpecImpl<&'a str> for ResourceUri {
    /// What `try_from` returns is stated by `ResourceUri::parse`, which it calls.
    open spec fn obeys_try_from_spec() -> bool {
        false
    }

    open spec fn try_from_spec(v: &'a str) -> Result<ResourceUri, ResourceUriError> {
        arbitrary()
    }
}

} // verus!
