use vapix_access::client::{
    build_client, discovered_client, discovered_config, host_builder, ClientConfig,
    TransportScheme, DISCOVERED_HOST,
};
use vapix_access::credentials::{Credentials, ExitOutcome};
use vapix_access::error::{ClientBuildError, FormatError, VapixError};

#[test]
fn discovered_mode_end_to_end_config() {
    let exit = ExitOutcome { success: true, code: Some(0) };
    let credentials = Credentials::from_service_reply(exit, "('svc:pw123',)").unwrap();
    let config = discovered_config(credentials);
    assert_eq!(config.host, "127.0.0.12");
    assert_eq!(config.host, DISCOVERED_HOST);
    assert_eq!(config.scheme, TransportScheme::Plain);
    assert_eq!(config.username, "svc");
    assert_eq!(config.password, "pw123");
    assert!(build_client(&config).is_ok());
}

#[test]
fn discovered_mode_end_to_end_client() {
    let exit = ExitOutcome { success: true, code: Some(0) };
    assert!(discovered_client(exit, "('svc:pw123',)").is_ok());
}

#[test]
fn discovered_mode_passes_failures_on() {
    let failed = ExitOutcome { success: false, code: Some(2) };
    match discovered_client(failed, "('svc:pw123',)") {
        Err(VapixError::IpcInvocation { code }) => assert_eq!(code, Some(2)),
        Err(e) => panic!("unexpected {e:?}"),
        Ok(_) => panic!("a failed run gave a client"),
    }
    let ok = ExitOutcome { success: true, code: Some(0) };
    match discovered_client(ok, "('svc-pw123',)") {
        Err(VapixError::CredentialFormat(e)) => assert_eq!(e, FormatError::MissingSeparator),
        Err(e) => panic!("unexpected {e:?}"),
        Ok(_) => panic!("an unreadable reply gave a client"),
    }
}

#[test]
fn build_client_rejects_a_bad_host() {
    let config = ClientConfig {
        host: "not a host".to_string(),
        scheme: TransportScheme::Plain,
        username: "u".to_string(),
        password: "p".to_string(),
    };
    match build_client(&config) {
        Err(VapixError::ClientBuild(ClientBuildError::InvalidHost)) => {}
        Err(e) => panic!("unexpected {e:?}"),
        Ok(_) => panic!("a bad host gave a client"),
    }
}

#[test]
fn build_client_secure_scheme() {
    let config = ClientConfig {
        host: "192.0.2.1".to_string(),
        scheme: TransportScheme::Secure,
        username: "u".to_string(),
        password: "p".to_string(),
    };
    assert!(build_client(&config).is_ok());
}

#[test]
fn host_mode_without_configuration_fails() {
    match host_builder(Ok(None)) {
        Err(VapixError::ClientBuild(ClientBuildError::NoConfiguration)) => {}
        Err(e) => panic!("unexpected {e:?}"),
        Ok(_) => panic!("no configuration gave a builder"),
    }
}

#[test]
fn host_mode_passes_mechanism_errors_on() {
    match host_builder(Err("bad dut file".to_string())) {
        Err(VapixError::ClientBuild(ClientBuildError::Library { message })) => {
            assert_eq!(message, "bad dut file")
        }
        Err(e) => panic!("unexpected {e:?}"),
        Ok(_) => panic!("an error gave a builder"),
    }
}

#[test]
fn host_mode_uses_a_found_builder() {
    let host = url::Host::parse("192.0.2.1").unwrap();
    let found = rs4a_vapix::Client::builder(host);
    assert!(host_builder(Ok(Some(found))).is_ok());
}

#[test]
fn build_client_accepts_a_domain_name() {
    let config = ClientConfig {
        host: "camera.example".to_string(),
        scheme: TransportScheme::Plain,
        username: "u".to_string(),
        password: "p".to_string(),
    };
    assert!(build_client(&config).is_ok());
}
