use vapix_access::credentials::{Credentials, ExitOutcome};
use vapix_access::error::{FormatError, VapixError};
use vapix_access::text::trim_white_space;

fn parsed(s: &str) -> (String, String) {
    let c = Credentials::parse(s).expect("reply is well formed");
    (c.username, c.password)
}

#[test]
fn parse_well_formed_reply() {
    assert_eq!(parsed("('alice:secret',)"), ("alice".to_string(), "secret".to_string()));
}

#[test]
fn parse_splits_on_first_colon_only() {
    assert_eq!(parsed("('a:b:c',)"), ("a".to_string(), "b:c".to_string()));
}

#[test]
fn parse_ignores_surrounding_white_space() {
    assert_eq!(parsed("  ('svc:pw',)\n"), ("svc".to_string(), "pw".to_string()));
    assert_eq!(parsed("\u{3000}('svc:pw',)\u{a0}\t"), ("svc".to_string(), "pw".to_string()));
}

#[test]
fn parse_keeps_quotes_and_escapes_raw() {
    assert_eq!(parsed("('u\\'x:p\\\\y',)"), ("u\\'x".to_string(), "p\\\\y".to_string()));
}

#[test]
fn parse_missing_prefix() {
    assert_eq!(Credentials::parse("alice:secret").unwrap_err(), FormatError::MissingPrefix);
    assert_eq!(Credentials::parse("").unwrap_err(), FormatError::MissingPrefix);
    assert_eq!(Credentials::parse("(").unwrap_err(), FormatError::MissingPrefix);
}

#[test]
fn parse_missing_suffix() {
    assert_eq!(Credentials::parse("('alice:secret'").unwrap_err(), FormatError::MissingSuffix);
    assert_eq!(Credentials::parse("(',)").unwrap_err(), FormatError::MissingSuffix);
    assert_eq!(Credentials::parse("('").unwrap_err(), FormatError::MissingSuffix);
}

#[test]
fn parse_missing_separator() {
    assert_eq!(
        Credentials::parse("('alice-secret',)").unwrap_err(),
        FormatError::MissingSeparator
    );
    assert_eq!(Credentials::parse("('',)").unwrap_err(), FormatError::MissingSeparator);
}

#[test]
fn parse_empty_fields() {
    assert_eq!(Credentials::parse("(':secret',)").unwrap_err(), FormatError::EmptyUsername);
    assert_eq!(Credentials::parse("('alice:',)").unwrap_err(), FormatError::EmptyPassword);
}

#[test]
fn failed_run_is_invocation_error_even_with_good_output() {
    let exit = ExitOutcome { success: false, code: Some(1) };
    match Credentials::from_service_reply(exit, "('alice:secret',)") {
        Err(VapixError::IpcInvocation { code }) => assert_eq!(code, Some(1)),
        other => panic!("unexpected {other:?}"),
    }
    let killed = ExitOutcome { success: false, code: None };
    match Credentials::from_service_reply(killed, "") {
        Err(VapixError::IpcInvocation { code }) => assert_eq!(code, None),
        other => panic!("unexpected {other:?}"),
    }
}

#[test]
fn successful_run_reads_its_output() {
    let exit = ExitOutcome { success: true, code: Some(0) };
    let c = Credentials::from_service_reply(exit, "('svc:pw123',)\n").unwrap();
    assert_eq!(c.username, "svc");
    assert_eq!(c.password, "pw123");
    match Credentials::from_service_reply(exit, "Error: no such method") {
        Err(VapixError::CredentialFormat(e)) => assert_eq!(e, FormatError::MissingPrefix),
        other => panic!("unexpected {other:?}"),
    }
}

#[test]
fn trim_removes_white_space_at_both_ends_only() {
    assert_eq!(trim_white_space(" \t a b \r\n"), "a b");
    assert_eq!(trim_white_space("\u{2003}x\u{3000}"), "x");
    assert_eq!(trim_white_space("   "), "");
    assert_eq!(trim_white_space(""), "");
    assert_eq!(trim_white_space("x"), "x");
}

#[test]
fn from_str_reads_a_reply() {
    let c: Credentials = "('svc:pw123',)".parse().unwrap();
    assert_eq!(c.username, "svc");
    assert_eq!(c.password, "pw123");
    assert_eq!("svc:pw123".parse::<Credentials>().unwrap_err(), FormatError::MissingPrefix);
}
