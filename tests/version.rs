use fleet_net::error::FleetNetError;
use fleet_net::version::{ProtocolVersion, Version};

fn v(major: u64, minor: u64, patch: u64) -> ProtocolVersion {
    ProtocolVersion::new(major, minor, patch)
}

fn parse(text: &str) -> ProtocolVersion {
    ProtocolVersion::parse(text).unwrap()
}

fn create_test_version() -> Version {
    Version::new(&[parse("1.0.0"), parse("1.1.0"), parse("2.0.0")])
}

#[test]
fn test_version_negotiation() {
    let mut version = create_test_version();
    let client_version = vec![parse("1.1.0"), parse("1.0.0")];

    let negotiation_result = version.negotiate(&client_version);
    assert!(negotiation_result.is_ok());
    assert_eq!(negotiation_result.unwrap(), parse("1.1.0"));
}

#[test]
fn test_version_negotiation_failure() {
    let mut version = create_test_version();

    let client_version = vec![parse("3.0.0"), parse("3.1.0")];
    let negotiation_result = version.negotiate(&client_version);
    assert!(negotiation_result.is_err());
    assert!(matches!(negotiation_result.unwrap_err(), FleetNetError::NetworkError(_)));
}

#[test]
fn test_version_no_client_versions() {
    let mut version = create_test_version();
    let client_version: Vec<ProtocolVersion> = vec![];

    let negotiation_result = version.negotiate(&client_version);
    assert!(negotiation_result.is_err());
    assert!(matches!(negotiation_result.unwrap_err(), FleetNetError::NetworkError(_)));
}

#[test]
fn test_version_no_supported_versions() {
    let mut version = Version::new(&[]);
    let client_version = vec![parse("1.0.0")];
    let negotiation_result = version.negotiate(&client_version);
    assert!(negotiation_result.is_err());
    assert!(matches!(negotiation_result.unwrap_err(), FleetNetError::NetworkError(_)));
}

#[test]
fn test_version_current() {
    let mut version = create_test_version();
    let client_version = vec![parse("1.0.0")];
    let negotiation_result = version.negotiate(&client_version);
    assert!(negotiation_result.is_ok());
    assert_eq!(version.current(), Some(parse("1.0.0")));
}

#[test]
fn highest_shared_version_wins_whatever_the_order() {
    let mut version = Version::new(&[v(1, 9, 0), v(1, 10, 0), v(0, 99, 99)]);
    let result = version.negotiate(&vec![v(0, 99, 99), v(1, 10, 0), v(1, 9, 0), v(5, 0, 0)]);
    assert_eq!(result.unwrap(), v(1, 10, 0));
    assert_eq!(version.current(), Some(v(1, 10, 0)));

    let failed = version.negotiate(&vec![v(7, 0, 0)]);
    assert!(failed.is_err());
    assert_eq!(version.current(), Some(v(1, 10, 0)));
}

#[test]
fn version_text_is_parsed_through_semver() {
    assert_eq!(parse("10.20.30"), v(10, 20, 30));
    assert!(matches!(ProtocolVersion::parse("1.0"), Err(FleetNetError::ValidationError(_))));
    assert!(matches!(ProtocolVersion::parse("01.0.0"), Err(FleetNetError::ValidationError(_))));
    let rc = parse("1.0.0-rc.1+build.5");
    assert_eq!((rc.major(), rc.minor(), rc.patch()), (1, 0, 0));
    assert_eq!(rc.pre(), "rc.1");
    assert_eq!(rc.build(), "build.5");
    assert_eq!(v(1, 2, 3).pre(), "");
}

#[test]
fn pre_release_versions_order_by_semver_precedence() {
    assert!(parse("1.0.0-rc.1").precedes(&parse("1.0.0")));
    assert!(parse("1.0.0-alpha.2").precedes(&parse("1.0.0-alpha.11")));
    assert!(parse("1.0.0-alpha.beta").precedes(&parse("1.0.0-beta")));
    assert!(!parse("1.0.0").precedes(&parse("1.0.0-rc.1")));
    assert!(!parse("2.0.0").precedes(&parse("2.0.0")));

    let mut version = Version::new(&[parse("1.0.0-rc.1"), parse("1.0.0"), parse("1.1.0-beta")]);
    let result = version.negotiate(&vec![parse("1.1.0-beta"), parse("1.0.0-rc.1"), parse("1.0.0")]);
    assert_eq!(result.unwrap(), parse("1.1.0-beta"));

    let mut version = Version::new(&[parse("1.0.0-rc.1"), parse("1.0.0")]);
    let result = version.negotiate(&vec![parse("1.0.0"), parse("1.0.0-rc.1")]);
    assert_eq!(result.unwrap(), parse("1.0.0"));
    assert_eq!(version.current(), Some(parse("1.0.0")));

    let mut version = Version::new(&[parse("1.0.0+build.1")]);
    assert!(version.negotiate(&vec![parse("1.0.0")]).is_err());
    assert_eq!(version.current(), None);
    assert_eq!(version.negotiate(&vec![parse("1.0.0+build.1")]).unwrap(), parse("1.0.0+build.1"));
}
