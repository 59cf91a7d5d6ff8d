//! Kinds of request sent to the query service, and the endpoints they go to.
use vstd::prelude::*;

verus! {

/// Denotes what kind of query is being executed.
#[derive(Debug, Clone, Copy, PartialEq, Eq, Structural)]
pub enum QueryKind {
    /// A management command, answered in the first version of the result format.
    Management,
    /// A query in the query language, answered in the second version of the result format.
    Query,
}

/// `s` without the `/` characters that end it.
pub open spec fn trim_trailing_slashes(s: Seq<char>) -> Seq<char>
    decreases s.len(),
{
    if s.len() > 0 && s.last() == '/' {
        trim_trailing_slashes(s.drop_last())
    } else {
        s
    }
}

/// The query and management endpoints of a service: the data source without
/// its trailing `/` characters, followed by each endpoint's path.
pub fn service_urls(data_source: &str) -> (r: (String, String))
    ensures
        r.0@ == trim_trailing_slashes(data_source@) + "/v2/rest/query"@,
        r.1@ == trim_trailing_slashes(data_source@) + "/v1/rest/mgmt"@,
{
    let mut n: usize = data_source.unicode_len();
    assert(data_source@.take(n as int) =~= data_source@);
    while n > 0 && data_source.get_char(n - 1) == '/'
        invariant
            n <= data_source@.len(),
            trim_trailing_slashes(data_source@.take(n as int)) == trim_trailing_slashes(
                data_source@,
            ),
        decreases n,
    {
        assert(data_source@.take(n as int).drop_last() =~= data_source@.take(n - 1));
        n = n - 1;
    }
    assert(data_source@.take(n as int) =~= data_source@.subrange(0, n as int));
    let service_url = data_source.substring_char(0, n);
    let query_url = String::from_str(service_url).concat("/v2/rest/query");
    let management_url = String::from_str(service_url).concat("/v1/rest/mgmt");
    (query_url, management_url)
}

} // verus!
