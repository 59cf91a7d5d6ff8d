use azure_storage::StorageCredentialsInner;
use kusto_ingest::resource_uri::{account_name, ResourceUri, ResourceUriError};
use std::convert::TryFrom;

fn sas_pairs(resource_uri: ResourceUri) -> Vec<(String, String)> {
    let storage_credential_inner = std::sync::Arc::into_inner(resource_uri.sas_token.0)
        .unwrap()
        .into_inner();
    match storage_credential_inner {
        StorageCredentialsInner::SASToken(sas_vec) => sas_vec,
        _ => panic!("expected a SAS token credential"),
    }
}

#[test]
fn resource_uri_try_from() {
    let uri = "https://storageaccountname.blob.core.windows.com/containerobjectname?sas=token";
    let resource_uri = ResourceUri::try_from(uri).unwrap();

    assert_eq!(
        resource_uri.service_uri,
        "https://storageaccountname.blob.core.windows.com"
    );
    assert_eq!(resource_uri.object_name, "containerobjectname");

    let storage_credential_inner = std::sync::Arc::into_inner(resource_uri.sas_token.0)
        .unwrap()
        .into_inner();
    assert!(matches!(
        storage_credential_inner,
        StorageCredentialsInner::SASToken(_)
    ));

    if let StorageCredentialsInner::SASToken(sas_vec) = storage_credential_inner {
        assert_eq!(sas_vec.len(), 1);
        assert_eq!(sas_vec[0].0, "sas");
        assert_eq!(sas_vec[0].1, "token");
    }
}

#[test]
fn invalid_scheme() {
    let uri = "http://storageaccountname.blob.core.windows.com/containerobjectname?sas=token";
    let resource_uri = ResourceUri::try_from(uri);

    assert!(resource_uri.is_err());
    assert!(matches!(
        resource_uri.unwrap_err(),
        ResourceUriError::InvalidScheme(_)
    ));
}

#[test]
fn missing_host_str() {
    let uri = "https:";
    let resource_uri = ResourceUri::try_from(uri);
    println!("{:#?}", resource_uri);

    assert!(resource_uri.is_err());
    assert!(matches!(
        resource_uri.unwrap_err(),
        ResourceUriError::ParseError(_)
    ));
}

#[test]
fn invalid_host_ipv4() {
    let uri = "https://127.0.0.1/containerobjectname?sas=token";
    let resource_uri = ResourceUri::try_from(uri);

    assert!(resource_uri.is_err());
    assert!(matches!(
        resource_uri.unwrap_err(),
        ResourceUriError::InvalidHost
    ));
}

#[test]
fn invalid_host_ipv6() {
    let uri = "https://[3FFE:FFFF:0::CD30]/containerobjectname?sas=token";
    let resource_uri = ResourceUri::try_from(uri);
    println!("{:#?}", resource_uri);

    assert!(resource_uri.is_err());
    assert!(matches!(
        resource_uri.unwrap_err(),
        ResourceUriError::InvalidHost
    ));
}

#[test]
fn missing_object_name() {
    let uri = "https://storageaccountname.blob.core.windows.com/?sas=token";
    let resource_uri = ResourceUri::try_from(uri);
    println!("{:#?}", resource_uri);

    assert!(resource_uri.is_err());
    assert!(matches!(
        resource_uri.unwrap_err(),
        ResourceUriError::MissingObjectName
    ));
}

#[test]
fn missing_sas_token() {
    let uri = "https://storageaccountname.blob.core.windows.com/containerobjectname";
    let resource_uri = ResourceUri::try_from(uri);
    println!("{:#?}", resource_uri);

    assert!(resource_uri.is_err());
    assert!(matches!(
        resource_uri.unwrap_err(),
        ResourceUriError::MissingSasToken
    ));
}

#[test]
fn parse_full_descriptor() {
    let d = ResourceUri::parse("https://acct.blob.core.windows.net/container?sas=token").unwrap();
    assert_eq!(d.service_uri, "https://acct.blob.core.windows.net");
    assert_eq!(d.object_name, "container");
    assert_eq!(d.account_name, "acct");
    assert_eq!(sas_pairs(d), vec![("sas".to_string(), "token".to_string())]);
}

#[test]
fn parse_http_scheme_names_it() {
    let r = ResourceUri::parse("http://acct.blob.core.windows.net/container?sas=token");
    match r {
        Err(ResourceUriError::InvalidScheme(s)) => assert_eq!(s, "http"),
        other => panic!("unexpected {:?}", other),
    }
}

#[test]
fn parse_ip_host() {
    let r = ResourceUri::parse("https://127.0.0.1/container?sas=token");
    assert!(matches!(r, Err(ResourceUriError::InvalidHost)));
}

#[test]
fn parse_empty_path() {
    let r = ResourceUri::parse("https://acct.blob.core.windows.net/?sas=token");
    assert!(matches!(r, Err(ResourceUriError::MissingObjectName)));
}

#[test]
fn parse_two_segments() {
    let r = ResourceUri::parse("https://acct.blob.core.windows.net/container/blob?sas=token");
    assert!(matches!(r, Err(ResourceUriError::MissingObjectName)));
}

#[test]
fn parse_no_query() {
    let r = ResourceUri::parse("https://acct.blob.core.windows.net/container");
    assert!(matches!(r, Err(ResourceUriError::MissingSasToken)));
}

#[test]
fn parse_host_without_dot() {
    let r = ResourceUri::parse("https://localhost/container?sas=token");
    assert!(matches!(r, Err(ResourceUriError::MissingAccountName)));
}

#[test]
fn parse_scheme_checked_before_host() {
    let r = ResourceUri::parse("ftp://127.0.0.1/container?sas=token");
    match r {
        Err(ResourceUriError::InvalidScheme(s)) => assert_eq!(s, "ftp"),
        other => panic!("unexpected {:?}", other),
    }
}

#[test]
fn parse_several_sas_parameters() {
    let d = ResourceUri::parse("https://acct.queue.core.windows.net/q1?sv=2020&sig=abc").unwrap();
    assert_eq!(d.object_name, "q1");
    assert_eq!(
        sas_pairs(d),
        vec![
            ("sv".to_string(), "2020".to_string()),
            ("sig".to_string(), "abc".to_string())
        ]
    );
}

#[test]
fn account_name_before_first_dot() {
    assert_eq!(account_name("acct.blob.core"), Some("acct".to_string()));
    assert_eq!(account_name(".blob"), Some("".to_string()));
    assert_eq!(account_name("localhost"), None);
}

#[test]
fn parse_empty_query() {
    let r = ResourceUri::parse("https://acct.blob.core.windows.net/container?");
    assert!(matches!(r, Err(ResourceUriError::MissingSasToken)));
}

#[test]
fn parse_query_without_pairs() {
    let r = ResourceUri::parse("https://acct.blob.core.windows.net/container?&");
    assert!(matches!(r, Err(ResourceUriError::MissingSasToken)));
}
