use ajars::status::HttpStatus;

#[test]
fn status_returns_the_code() {
    assert_eq!(HttpStatus::from(204).status(), 204);
    assert_eq!(HttpStatus(0).status(), 0);
    assert_eq!(HttpStatus(u16::MAX).status(), 65535);
}

#[test]
fn status_is_written_in_decimal() {
    assert_eq!(HttpStatus::from(404).to_string(), "404");
    assert_eq!(HttpStatus::from(0).to_string(), "0");
    assert_eq!(HttpStatus::from(65535).to_string(), "65535");
}

#[test]
fn informational_is_100_to_199() {
    assert!(!HttpStatus::from(99).is_informational());
    assert!(HttpStatus::from(100).is_informational());
    assert!(HttpStatus::from(199).is_informational());
    assert!(!HttpStatus::from(200).is_informational());
}

#[test]
fn success_is_200_to_299() {
    assert!(!HttpStatus::from(199).is_success());
    assert!(HttpStatus::from(200).is_success());
    assert!(HttpStatus::from(299).is_success());
    assert!(!HttpStatus::from(300).is_success());
}

#[test]
fn redirection_is_300_to_399() {
    assert!(!HttpStatus::from(299).is_redirection());
    assert!(HttpStatus::from(300).is_redirection());
    assert!(HttpStatus::from(399).is_redirection());
    assert!(!HttpStatus::from(400).is_redirection());
}

#[test]
fn client_error_is_400_to_499() {
    assert!(!HttpStatus::from(399).is_client_error());
    assert!(HttpStatus::from(400).is_client_error());
    assert!(HttpStatus::from(404).is_client_error());
    assert!(HttpStatus::from(499).is_client_error());
    assert!(!HttpStatus::from(500).is_client_error());
}

#[test]
fn server_error_is_500_to_599() {
    assert!(!HttpStatus::from(499).is_server_error());
    assert!(HttpStatus::from(500).is_server_error());
    assert!(HttpStatus::from(599).is_server_error());
    assert!(!HttpStatus::from(600).is_server_error());
}

#[test]
fn every_code_falls_into_at_most_one_class() {
    for code in 0..=u16::MAX {
        let status = HttpStatus::from(code);
        let classes = [
            status.is_informational(),
            status.is_success(),
            status.is_redirection(),
            status.is_client_error(),
            status.is_server_error(),
        ];
        let hits = classes.iter().filter(|hit| **hit).count();
        assert_eq!(hits, if (100..600).contains(&code) { 1 } else { 0 });
    }
}
