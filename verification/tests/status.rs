use expense_bot::http::Status;

#[test]
fn status_codes_run_from_100_to_999() {
    for code in [0u16, 1, 99, 1000, 1001, u16::MAX] {
        assert_eq!(Status::new(code), None);
    }
    for code in [100u16, 101, 200, 404, 599, 999] {
        assert_eq!(Status::new(code).unwrap().code(), code);
    }
}

#[test]
fn success_is_the_class_200() {
    for code in [100u16, 199, 300, 400, 500, 999] {
        assert!(!Status::new(code).unwrap().is_success());
    }
    for code in [200u16, 201, 250, 299] {
        assert!(Status::new(code).unwrap().is_success());
    }
}

#[test]
fn status_text_is_the_code_and_its_reason() {
    assert_eq!(Status::new(200).unwrap().text(), "200 OK");
    assert_eq!(Status::new(500).unwrap().text(), "500 Internal Server Error");
    assert_eq!(Status::new(404).unwrap().text(), "404 Not Found");
    assert_eq!(Status::new(999).unwrap().text(), "999 <unknown status code>");
}
