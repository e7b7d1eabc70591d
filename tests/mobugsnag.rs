use mobugsnag::{delivery_result, BugsnagError, Client, Request, SeverityLevel};

fn parse(request: &Request) -> serde_json::Value {
    serde_json::from_str(&request.body).unwrap()
}

fn header<'a>(request: &'a Request, name: &str) -> Option<&'a str> {
    request
        .headers
        .iter()
        .find(|h| h.name == name)
        .map(|h| h.value.as_str())
}

#[test]
fn severity_levels() {
    let s1 = SeverityLevel::Error;
    let s2 = SeverityLevel::Warning;
    let s3 = SeverityLevel::Info;
    assert_eq!(s1.to_string(), "error");
    assert_eq!(s2.to_string(), "warning");
    assert_eq!(s3.to_string(), "info");
}

#[test]
fn test_basic_client() {
    let input_api_key = String::from("this is my api key");
    let expected = String::from("this is my api key");

    let result = Client::new(input_api_key).build();

    assert_eq!(result.api_key(), expected);
}

#[test]
fn api_key_is_kept_untrimmed() {
    let client = Client::new(String::from("  spaced KEY\t"));
    assert_eq!(client.api_key(), "  spaced KEY\t");
    assert_eq!(client.build().api_key(), "  spaced KEY\t");
}

#[test]
fn error_report_scenario() {
    let request = Client::new(String::from("KEY123")).error("PaymentFailure", "Card declined");
    assert_eq!(request.url, "http://notify.bugsnag.com/");
    let doc = parse(&request);
    assert_eq!(doc["severity"], "error");
    assert_eq!(doc["events"][0]["exceptions"][0]["errorClass"], "PaymentFailure");
    assert_eq!(doc["events"][0]["exceptions"][0]["message"], "Card declined");
    assert_eq!(header(&request, "Bugsnag-Api-Key"), Some("KEY123"));
    assert_eq!(header(&request, "Content-Type"), Some("application/json"));
    assert_eq!(header(&request, "Bugsnag-Payload-Version"), Some("5"));
    assert_eq!(request.headers.len(), 3);
}

#[test]
fn exact_body_of_an_info_report() {
    let request = Client::new(String::from("k")).info("My Class", "My actual Message");
    assert_eq!(
        request.body,
        "{\"notifier\":{\"name\":\"mobugsnag - my own bugsnag\",\"version\":\"0.0.1\",\"url\":\"http://bcianswers.com\"},\"events\":[{\"exceptions\":[{\"errorClass\":\"My Class\",\"message\":\"My actual Message\"}]}],\"severity\":\"info\"}"
    );
}

#[test]
fn each_severity_is_written_in_lowercase() {
    let client = Client::new(String::from("k"));
    assert_eq!(parse(&client.info("c", "m"))["severity"], "info");
    assert_eq!(parse(&client.warning("c", "m"))["severity"], "warning");
    assert_eq!(parse(&client.error("c", "m"))["severity"], "error");
    assert_eq!(parse(&client.report(SeverityLevel::Warning, "c", "m"))["severity"], "warning");
}

#[test]
fn class_and_message_are_escaped_as_json() {
    let class = "Quote\"Back\\slash";
    let message = "line one\nline two\ttab \u{1} é";
    let request = Client::new(String::from("k")).warning(class, message);
    assert!(request
        .body
        .contains("\"errorClass\":\"Quote\\\"Back\\\\slash\",\"message\":\"line one\\nline two\\ttab \\u0001 é\""));
    let doc = parse(&request);
    assert_eq!(doc["events"][0]["exceptions"][0]["errorClass"], class);
    assert_eq!(doc["events"][0]["exceptions"][0]["message"], message);
}

#[test]
fn empty_class_and_message_pass_through() {
    let request = Client::new(String::from("")).info("", "");
    let doc = parse(&request);
    assert_eq!(doc["events"][0]["exceptions"][0]["errorClass"], "");
    assert_eq!(doc["events"][0]["exceptions"][0]["message"], "");
    assert_eq!(header(&request, "Bugsnag-Api-Key"), Some(""));
}

#[test]
fn transport_failure_becomes_an_error() {
    let sent: Result<(), String> = Err(String::from("Transport(connection refused)"));
    let error = delivery_result(sent).unwrap_err();
    assert_eq!(error.code, 0);
    assert_eq!(error.message, "Transport(connection refused)");
    assert_eq!(error.to_string(), "An error occured posting to bugsnag");
}

#[test]
fn transport_success_is_plain_success() {
    assert!(matches!(delivery_result(Ok(())), Ok(())));
}

#[test]
fn unknown_error_code_has_its_own_description() {
    let error = BugsnagError { code: 7, message: String::from("x") };
    assert_eq!(error.to_string(), "Some unknown error occured");
}

#[test]
fn clients_compare_by_api_key() {
    let client = Client::new(String::from("abc"));
    assert!(client == client.build());
    assert!(client != Client::new(String::from("abd")));
}
