use twilio_client::request::Credential;
use twilio_client::{sms, verify, ClientError, Phone};

fn phone() -> Phone {
    Phone::parse("0700782326", "KE").unwrap()
}

fn other_phone() -> Phone {
    Phone::parse("0700123456", "KE").unwrap()
}

fn base() -> &'static str {
    "http://127.0.0.1:8080"
}

fn sms_client() -> sms::Client {
    sms::Client::builder()
        .base_url(base())
        .sender(phone())
        .account_sid(Credential::new("AC123".to_string()))
        .auth_token(Credential::new("token".to_string()))
        .timeout(1)
        .build()
        .unwrap()
}

fn verify_client() -> verify::Client {
    verify::Client::builder()
        .base_url(base())
        .service_sid(Credential::new("VA42".to_string()))
        .account_sid(Credential::new("AC123".to_string()))
        .auth_token(Credential::new("token".to_string()))
        .timeout(1)
        .build()
        .unwrap()
}

fn pairs(fields: &[(String, String)]) -> Vec<(&str, &str)> {
    fields.iter().map(|(k, v)| (k.as_str(), v.as_str())).collect()
}

#[test]
fn send_request_carries_from_to_and_body() {
    let req = sms_client().send_request(&other_phone(), "hello there", None, None).unwrap();
    assert_eq!(req.url, "http://127.0.0.1:8080/2010-04-01/Accounts/AC123/Messages.json");
    assert_eq!(
        pairs(&req.fields),
        vec![("From", "+254700782326"), ("To", "+254700123456"), ("Body", "hello there")]
    );
}

#[test]
fn send_request_adds_media_and_mms_flag() {
    let media = vec!["https://a.example/1.png".to_string(), "https://b.example/2.png".to_string()];
    let req = sms_client().send_request(&phone(), "pic", Some(true), Some(media)).unwrap();
    assert_eq!(
        pairs(&req.fields),
        vec![
            ("From", "+254700782326"),
            ("To", "+254700782326"),
            ("Body", "pic"),
            ("MediaUrl", "https://a.example/1.png,https://b.example/2.png"),
            ("SendAsMms", "true"),
        ]
    );
    let req = sms_client().send_request(&phone(), "x", Some(false), Some(vec![])).unwrap();
    assert_eq!(pairs(&req.fields)[3], ("MediaUrl", ""));
    assert_eq!(pairs(&req.fields)[4], ("SendAsMms", "false"));
}

#[test]
fn account_id_is_form_encoded_in_the_path() {
    let client = sms::Client::builder()
        .base_url(base())
        .sender(phone())
        .account_sid(Credential::new("AC 1/2".to_string()))
        .auth_token(Credential::new("token".to_string()))
        .build()
        .unwrap();
    let req = client.send_request(&phone(), "hi", None, None).unwrap();
    assert_eq!(
        req.url,
        "http://127.0.0.1:8080/2010-04-01/Accounts/AC+1%2F2/Messages.json"
    );
}

#[test]
fn sms_builder_names_the_first_missing_setting() {
    let missing = |b: sms::ClientBuilder| match b.build() {
        Err(ClientError::Configuration(m)) => m,
        other => panic!("unexpected {:?}", other.map(|_| ())),
    };
    assert_eq!(missing(sms::Client::builder()), "Twilio sms base_url is required");
    assert_eq!(
        missing(sms::Client::builder().base_url(base())),
        "Twilio sms sender phone is required"
    );
    assert_eq!(
        missing(sms::Client::builder().base_url(base()).sender(phone())),
        "Twilio sms account_sid is required"
    );
    assert_eq!(
        missing(
            sms::Client::builder()
                .base_url(base())
                .sender(phone())
                .account_sid(Credential::new("AC".to_string()))
        ),
        "Twilio sms auth_token is required"
    );
}

#[test]
fn sms_builder_defaults_the_timeout() {
    let client = sms::Client::builder()
        .base_url(base())
        .sender(phone())
        .account_sid(Credential::new("AC".to_string()))
        .auth_token(Credential::new("tok".to_string()))
        .build()
        .unwrap();
    assert_eq!(client.timeout(), 10);
    assert_eq!(client.base_url(), "http://127.0.0.1:8080");
    assert_eq!(client.account_sid().expose(), "AC");
    assert_eq!(client.auth_token().expose(), "tok");
    assert_eq!(sms_client().timeout(), 1);
    assert_eq!(verify_client().timeout(), 1);
}

#[test]
fn otp_request_carries_to_and_channel() {
    let req = verify_client().request_form(&phone()).unwrap();
    assert_eq!(req.url, "http://127.0.0.1:8080/v2/Services/VA42/Verifications");
    assert_eq!(pairs(&req.fields), vec![("To", "+254700782326"), ("Channel", "sms")]);
}

#[test]
fn otp_check_carries_to_and_code() {
    let req = verify_client()
        .verify_form(&phone(), Credential::new("123456".to_string()))
        .unwrap();
    assert_eq!(req.url, "http://127.0.0.1:8080/v2/Services/VA42/VerificationCheck");
    assert_eq!(pairs(&req.fields), vec![("To", "+254700782326"), ("Code", "123456")]);
}

#[test]
fn verify_builder_names_the_first_missing_setting() {
    let missing = |b: verify::ClientBuilder| match b.build() {
        Err(ClientError::Configuration(m)) => m,
        other => panic!("unexpected {:?}", other.map(|_| ())),
    };
    assert_eq!(missing(verify::Client::builder()), "Twilio verify base_url is required");
    assert_eq!(
        missing(verify::Client::builder().base_url(base())),
        "Twilio verify account_sid is required"
    );
    assert_eq!(
        missing(
            verify::Client::builder()
                .base_url(base())
                .account_sid(Credential::new("AC".to_string()))
        ),
        "Twilio verify service_sid is required"
    );
    assert_eq!(
        missing(
            verify::Client::builder()
                .base_url(base())
                .account_sid(Credential::new("AC".to_string()))
                .service_sid(Credential::new("VA".to_string()))
        ),
        "Twilio verify auth_token is required"
    );
}

#[test]
fn credential_hands_back_its_text() {
    assert_eq!(Credential::new("abc".to_string()).clone().expose(), "abc");
}

#[test]
fn response_records_default_to_absent_fields() {
    let r = sms::SendSmsResponse::default();
    assert!(r.body.is_none() && r.status.is_none() && r.error_code.is_none());
}

#[test]
fn bad_base_url_is_a_configuration_error_at_call_time() {
    let client = sms::Client::builder()
        .base_url("not a url")
        .sender(phone())
        .account_sid(Credential::new("AC".to_string()))
        .auth_token(Credential::new("tok".to_string()))
        .build()
        .unwrap();
    match client.send_request(&phone(), "hi", None, None) {
        Err(ClientError::Configuration(m)) => assert!(m.starts_with("Twilio SMS: invalid URL: ")),
        other => panic!("unexpected {:?}", other),
    }
}

#[test]
fn verify_builder_defaults_the_timeout() {
    let client = verify::Client::builder()
        .base_url(base())
        .service_sid(Credential::new("VA".to_string()))
        .account_sid(Credential::new("AC".to_string()))
        .auth_token(Credential::new("tok".to_string()))
        .build()
        .unwrap();
    assert_eq!(client.timeout(), 10);
}
