use pacquet_registry::{
    Package, PackageDistribution, PackageVersion, RegistryError, RegistryReply, RegistryRequest,
};

const URL: &str = "https://registry.example/left-pad";

fn document() -> Package {
    Package::new(
        "left-pad".to_string(),
        vec![("latest".to_string(), "1.0.0".to_string())],
        vec![(
            "1.0.0".to_string(),
            PackageVersion {
                npm_version: "9.6.7".to_string(),
                node_version: None,
                dist: PackageDistribution {
                    integrity: "sha512-abc".to_string(),
                    npm_signature: None,
                    shasum: "5b2a0d8b".to_string(),
                    tarball: "https://registry.example/left-pad-1.0.0.tgz".to_string(),
                },
                dependencies: None,
                dev_dependencies: None,
            },
        )],
    )
}

fn error_of(fetch: Result<Package, RegistryError>) -> RegistryError {
    match fetch {
        Ok(_) => panic!("the fetch gave a document"),
        Err(e) => e,
    }
}

#[test]
fn request_names_the_address_and_the_client() {
    let request = RegistryRequest::new(URL);
    assert_eq!(request.url, URL);
    assert_eq!(
        request.headers,
        vec![
            ("user-agent".to_string(), "pacquet-cli".to_string()),
            ("content-type".to_string(), "application/json".to_string()),
        ]
    );
}

#[test]
fn request_for_an_empty_address() {
    let request = RegistryRequest::new("");
    assert_eq!(request.url, "");
    assert_eq!(request.headers.len(), 2);
}

#[test]
fn unreachable_endpoint_is_a_network_error() {
    let fetch = Package::from_registry(URL, RegistryReply::Unreachable);
    assert_eq!(error_of(fetch), RegistryError::Network(URL.to_string()));
}

#[test]
fn malformed_body_is_a_serialization_error() {
    let reply = RegistryReply::Response { status: 200, document: None };
    let fetch = Package::from_registry(URL, reply);
    assert_eq!(error_of(fetch), RegistryError::Serialization(URL.to_string()));
}

#[test]
fn successful_response_gives_the_document() {
    let reply = RegistryReply::Response { status: 200, document: Some(document()) };
    let package = match Package::from_registry(URL, reply) {
        Ok(package) => package,
        Err(e) => panic!("{:?}", e),
    };
    assert_eq!(package.name(), "left-pad");
    assert_eq!(
        package.get_tarball_url(),
        Ok("https://registry.example/left-pad-1.0.0.tgz")
    );
}

#[test]
fn failure_status_is_a_network_error() {
    for status in [0, 100, 199, 300, 301, 404, 500, 503, u16::MAX] {
        let reply = RegistryReply::Response { status, document: None };
        assert_eq!(
            error_of(Package::from_registry(URL, reply)),
            RegistryError::Network(URL.to_string())
        );
    }
}

#[test]
fn failure_status_with_a_document_is_a_network_error() {
    let reply = RegistryReply::Response { status: 404, document: Some(document()) };
    assert_eq!(
        error_of(Package::from_registry(URL, reply)),
        RegistryError::Network(URL.to_string())
    );
}

#[test]
fn every_success_status_counts() {
    for status in [200, 201, 204, 299] {
        let with_document = RegistryReply::Response { status, document: Some(document()) };
        assert!(Package::from_registry(URL, with_document).is_ok());
        let without = RegistryReply::Response { status, document: None };
        assert_eq!(
            error_of(Package::from_registry(URL, without)),
            RegistryError::Serialization(URL.to_string())
        );
    }
}

#[test]
fn errors_carry_the_address_they_were_given() {
    let other = "http://localhost:4873/@scope%2fname";
    assert_eq!(
        error_of(Package::from_registry(other, RegistryReply::Unreachable)),
        RegistryError::Network(other.to_string())
    );
    let reply = RegistryReply::Response { status: 200, document: None };
    assert_eq!(
        error_of(Package::from_registry(other, reply)),
        RegistryError::Serialization(other.to_string())
    );
}

#[test]
fn fetched_document_without_latest_tag_fails_to_resolve() {
    let bare = Package::new("left-pad".to_string(), Vec::new(), Vec::new());
    let reply = RegistryReply::Response { status: 200, document: Some(bare) };
    let package = match Package::from_registry(URL, reply) {
        Ok(package) => package,
        Err(e) => panic!("{:?}", e),
    };
    assert_eq!(
        package.get_tarball_url(),
        Err(RegistryError::MissingLatestTag("left-pad".to_string()))
    );
}
