use kusto_ingest::client::QueryKind;

#[test]
fn query_kinds_differ() {
    assert_ne!(QueryKind::Management, QueryKind::Query);
    let k = QueryKind::Query;
    let copy = k;
    assert_eq!(k, copy);
}

#[test]
fn endpoints_from_data_source() {
    let (query_url, management_url) =
        kusto_ingest::client::service_urls("https://mycluster.region.kusto.windows.net/");
    assert_eq!(query_url, "https://mycluster.region.kusto.windows.net/v2/rest/query");
    assert_eq!(management_url, "https://mycluster.region.kusto.windows.net/v1/rest/mgmt");
}

#[test]
fn endpoints_trim_every_trailing_slash() {
    let (query_url, management_url) = kusto_ingest::client::service_urls("https://c.net//");
    assert_eq!(query_url, "https://c.net/v2/rest/query");
    assert_eq!(management_url, "https://c.net/v1/rest/mgmt");
    let (query_url, _) = kusto_ingest::client::service_urls("///");
    assert_eq!(query_url, "/v2/rest/query");
    let (query_url, _) = kusto_ingest::client::service_urls("https://c.net/a/b");
    assert_eq!(query_url, "https://c.net/a/b/v2/rest/query");
}
