use crate::error::ClientError;
use crate::phone::Phone;
use crate::request::{
    fields_view, form_request, has_nonempty_field, invalid_url_message, url_joined, url_joins, Credential,
    FormRequest, DEFAULT_TIMEOUT_SECS,
};
use vstd::prelude::*;

verus! {

/// The name that tags this service's failures.
pub const SERVICE_NAME: &'static str = "Twilio Verify";

/// What the provider reports about a passcode it sent.
#[derive(Debug, Clone)]
pub struct TwilioRequestResponse {
    pub status: Option<Status>,
    pub send_code_attempts: Option<Vec<SendCodeAttempt>>,
    pub to: Option<String>,
    pub valid: Option<bool>,
    pub date_created: Option<String>,
    pub date_updated: Option<String>,
}

/// One attempt to deliver a passcode.
#[derive(Debug, Clone)]
pub struct SendCodeAttempt {
    pub attempt_sid: String,
    pub channel: Channel,
    pub time: String,
}

/// How a passcode is delivered.
#[derive(Clone, Copy, Debug, PartialEq, Eq, PartialOrd, Ord, Hash, Structural)]
pub enum Channel {
    Sms,
}

/// Where a verification stands.
#[derive(Clone, Copy, Debug, PartialEq, Eq, PartialOrd, Ord, Hash, Structural)]
pub enum Status {
    Pending,
    Approved,
}

/// The endpoint path `tail` under the service whose id is `sid`.
pub open spec fn services_path(sid: Seq<char>, tail: Seq<char>) -> Seq<char> {
    "/v2/Services/"@ + sid + tail
}

/// The form fields that ask for a passcode to be sent to `to`.
pub open spec fn request_fields(to: Seq<char>) -> Seq<(Seq<char>, Seq<char>)> {
    seq![("To"@, to), ("Channel"@, "sms"@)]
}

/// The form fields that check `code` for `to`.
pub open spec fn check_fields(to: Seq<char>, code: Seq<char>) -> Seq<(Seq<char>, Seq<char>)> {
    seq![("To"@, to), ("Code"@, code)]
}

/// Collects the settings of a passcode client; `build` checks that none is missing.
pub struct ClientBuilder {
    base_url: Option<String>,
    service_sid: Option<Credential>,
    account_sid: Option<Credential>,
    auth_token: Option<Credential>,
    timeout: Option<u64>,
}

pub open spec fn missing_message(setting: Seq<char>) -> Seq<char> {
    "Twilio verify "@ + setting + " is required"@
}

fn missing(setting: &str) -> (r: ClientError)
    ensures
        r is Configuration,
        r->Configuration_0@ == missing_message(setting@),
{
    let mut m = String::from_str("Twilio verify ");
    m.append(setting);
    m.append(" is required");
    ClientError::Configuration(m)
}

impl ClientBuilder {
    pub closed spec fn spec_base_url(&self) -> Option<Seq<char>> {
        match self.base_url {
            Some(u) => Some(u@),
            None => None,
        }
    }

    pub closed spec fn spec_service_sid(&self) -> Option<Credential> {
        self.service_sid
    }

    pub closed spec fn spec_account_sid(&self) -> Option<Credential> {
        self.account_sid
    }

    pub closed spec fn spec_auth_token(&self) -> Option<Credential> {
        self.auth_token
    }

    pub closed spec fn spec_timeout(&self) -> Option<u64> {
        self.timeout
    }

    /// A builder with nothing set.
    pub fn new() -> (r: ClientBuilder)
        ensures
            r.spec_base_url() is None,
            r.spec_service_sid() is None,
            r.spec_account_sid() is None,
            r.spec_auth_token() is None,
            r.spec_timeout() is None,
    {
        ClientBuilder {
            base_url: None,
            service_sid: None,
            account_sid: None,
            auth_token: None,
            timeout: None,
        }
    }

    /// The provider's base URL, as text.
    pub fn base_url(self, url: &str) -> (r: ClientBuilder)
        ensures
            r.spec_base_url() == Some(url@),
            r.spec_service_sid() == self.spec_service_sid(),
            r.spec_account_sid() == self.spec_account_sid(),
            r.spec_auth_token() == self.spec_auth_token(),
            r.spec_timeout() == self.spec_timeout(),
    {
        ClientBuilder { base_url: Some(String::from_str(url)), ..self }
    }

    pub fn account_sid(self, account_sid: Credential) -> (r: ClientBuilder)
        ensures
            r.spec_base_url() == self.spec_base_url(),
            r.spec_service_sid() == self.spec_service_sid(),
            r.spec_account_sid() == Some(account_sid),
            r.spec_auth_token() == self.spec_auth_token(),
            r.spec_timeout() == self.spec_timeout(),
    {
        ClientBuilder { account_sid: Some(account_sid), ..self }
    }

    pub fn service_sid(self, service_sid: Credential) -> (r: ClientBuilder)
        ensures
            r.spec_base_url() == self.spec_base_url(),
            r.spec_service_sid() == Some(service_sid),
            r.spec_account_sid() == self.spec_account_sid(),
            r.spec_auth_token() == self.spec_auth_token(),
            r.spec_timeout() == self.spec_timeout(),
    {
        ClientBuilder { service_sid: Some(service_sid), ..self }
    }

    pub fn auth_token(self, token: Credential) -> (r: ClientBuilder)
        ensures
            r.spec_base_url() == self.spec_base_url(),
            r.spec_service_sid() == self.spec_service_sid(),
            r.spec_account_sid() == self.spec_account_sid(),
            r.spec_auth_token() == Some(token),
            r.spec_timeout() == self.spec_timeout(),
    {
        ClientBuilder { auth_token: Some(token), ..self }
    }

    /// How long a call may take, in whole seconds.
    pub fn timeout(self, timeout: u64) -> (r: ClientBuilder)
        ensures
            r.spec_base_url() == self.spec_base_url(),
            r.spec_service_sid() == self.spec_service_sid(),
            r.spec_account_sid() == self.spec_account_sid(),
            r.spec_auth_token() == self.spec_auth_token(),
            r.spec_timeout() == Some(timeout),
    {
        ClientBuilder { timeout: Some(timeout), ..self }
    }

    /// The client, or a configuration error naming the first missing setting
    /// (base URL, account id, service id, auth token, in that order). Without a
    /// timeout the client gives up after the default number of seconds.
    pub fn build(self) -> (r: Result<Client, ClientError>)
        ensures
            self.spec_base_url() is None ==> r is Err && r->Err_0 is Configuration
                && r->Err_0->Configuration_0@ == missing_message("base_url"@),
            self.spec_base_url() is Some && self.spec_account_sid() is None ==> r is Err
                && r->Err_0 is Configuration && r->Err_0->Configuration_0@ == missing_message(
                "account_sid"@,
            ),
            self.spec_base_url() is Some && self.spec_account_sid() is Some
                && self.spec_service_sid() is None ==> r is Err && r->Err_0 is Configuration
                && r->Err_0->Configuration_0@ == missing_message("service_sid"@),
            self.spec_base_url() is Some && self.spec_account_sid() is Some
                && self.spec_service_sid() is Some && self.spec_auth_token() is None ==> r is Err
                && r->Err_0 is Configuration && r->Err_0->Configuration_0@ == missing_message(
                "auth_token"@,
            ),
            self.spec_base_url() is Some && self.spec_account_sid() is Some
                && self.spec_service_sid() is Some && self.spec_auth_token() is Some ==> r is Ok,
            r is Ok ==> {
                &&& self.spec_base_url() == Some(r->Ok_0.spec_base_url())
                &&& self.spec_service_sid() == Some(r->Ok_0.spec_service_sid())
                &&& self.spec_account_sid() == Some(r->Ok_0.spec_account_sid())
                &&& self.spec_auth_token() == Some(r->Ok_0.spec_auth_token())
                &&& r->Ok_0.spec_timeout() == match self.spec_timeout() {
                    Some(t) => t,
                    None => DEFAULT_TIMEOUT_SECS,
                }
            },
    {
        let base_url = match self.base_url {
            Some(u) => u,
            None => return Err(missing("base_url")),
        };
        let account_sid = match self.account_sid {
            Some(s) => s,
            None => return Err(missing("account_sid")),
        };
        let service_sid = match self.service_sid {
            Some(s) => s,
            None => return Err(missing("service_sid")),
        };
        let auth_token = match self.auth_token {
            Some(t) => t,
            None => return Err(missing("auth_token")),
        };
        let timeout = match self.timeout {
            Some(t) => t,
            None => DEFAULT_TIMEOUT_SECS,
        };
        Ok(Client { base_url, account_sid, auth_token, service_sid, timeout })
    }
}

/// A configured passcode client: where to send, as whom, and how long to wait.
pub struct Client {
    base_url: String,
    account_sid: Credential,
    auth_token: Credential,
    service_sid: Credential,
    timeout: u64,
}

impl Client {
    pub closed spec fn spec_base_url(&self) -> Seq<char> {
        self.base_url@
    }

    pub closed spec fn spec_service_sid(&self) -> Credential {
        self.service_sid
    }

    pub closed spec fn spec_account_sid(&self) -> Credential {
        self.account_sid
    }

    pub closed spec fn spec_auth_token(&self) -> Credential {
        self.auth_token
    }

    pub closed spec fn spec_timeout(&self) -> u64 {
        self.timeout
    }

    /// A builder with nothing set.
    pub fn builder() -> (r: ClientBuilder)
        ensures
            r.spec_base_url() is None,
            r.spec_service_sid() is None,
            r.spec_account_sid() is None,
            r.spec_auth_token() is None,
            r.spec_timeout() is None,
    {
        ClientBuilder::new()
    }

    pub fn account_sid(&self) -> (r: &Credential)
        ensures
            *r == self.spec_account_sid(),
    {
        &self.account_sid
    }

    pub fn auth_token(&self) -> (r: &Credential)
        ensures
            *r == self.spec_auth_token(),
    {
        &self.auth_token
    }

    /// How long a call may take, in whole seconds.
    pub fn timeout(&self) -> (r: u64)
        ensures
            r == self.spec_timeout(),
    {
        self.timeout
    }

    /// The provider's base URL, as text.
    pub fn base_url(&self) -> (r: &str)
        ensures
            r@ == self.spec_base_url(),
    {
        self.base_url.as_str()
    }

    fn service_path(&self, tail: &str) -> (r: String)
        ensures
            r@ == services_path(self.spec_service_sid().text(), tail@),
    {
        let mut path = String::from_str("/v2/Services/");
        path.append(self.service_sid.expose().as_str());
        path.append(tail);
        path
    }

    /// The form POST that asks for a passcode to be sent to `to` by SMS.
    pub fn request_form(&self, to: &Phone) -> (r: Result<FormRequest, ClientError>)
        ensures
            r is Ok <==> url_joins(
                self.spec_base_url(),
                services_path(self.spec_service_sid().text(), "/Verifications"@),
            ),
            r is Ok ==> r->Ok_0.url@ == url_joined(
                self.spec_base_url(),
                services_path(self.spec_service_sid().text(), "/Verifications"@),
            ),
            r is Ok ==> fields_view(r->Ok_0.fields@) == request_fields(to.e164_view()),
            r is Ok ==> has_nonempty_field(fields_view(r->Ok_0.fields@), "To"@)
                && has_nonempty_field(fields_view(r->Ok_0.fields@), "Channel"@),
            r is Err ==> r->Err_0 is Configuration && exists|detail: Seq<char>|
                r->Err_0->Configuration_0@ == invalid_url_message(SERVICE_NAME@, detail),
    {
        let path = self.service_path("/Verifications");
        let mut fields: Vec<(String, String)> = Vec::new();
        fields.push((String::from_str("To"), to.e164_number()));
        fields.push((String::from_str("Channel"), String::from_str("sms")));
        proof {
            reveal_strlit("To");
            reveal_strlit("Channel");
            reveal_strlit("sms");
            let v = fields_view(fields@);
            assert(v =~= request_fields(to.e164_view()));
            assert(v[0].0 == "To"@ && v[0].1.len() > 0);
            assert(v[1].0 == "Channel"@ && v[1].1.len() > 0);
        }
        form_request(self.base_url.as_str(), path.as_str(), fields, SERVICE_NAME)
    }

    /// The form POST that checks `code` for `to`.
    pub fn verify_form(&self, to: &Phone, code: Credential) -> (r: Result<
        FormRequest,
        ClientError,
    >)
        ensures
            r is Ok <==> url_joins(
                self.spec_base_url(),
                services_path(self.spec_service_sid().text(), "/VerificationCheck"@),
            ),
            r is Ok ==> r->Ok_0.url@ == url_joined(
                self.spec_base_url(),
                services_path(self.spec_service_sid().text(), "/VerificationCheck"@),
            ),
            r is Ok ==> fields_view(r->Ok_0.fields@) == check_fields(to.e164_view(), code.text()),
            r is Ok ==> has_nonempty_field(fields_view(r->Ok_0.fields@), "To"@),
            r is Err ==> r->Err_0 is Configuration && exists|detail: Seq<char>|
                r->Err_0->Configuration_0@ == invalid_url_message(SERVICE_NAME@, detail),
    {
        let path = self.service_path("/VerificationCheck");
        let code_text = code.expose();
        let mut fields: Vec<(String, String)> = Vec::new();
        fields.push((String::from_str("To"), to.e164_number()));
        fields.push((String::from_str("Code"), code_text));
        proof {
            reveal_strlit("To");
            let v = fields_view(fields@);
            assert(v =~= check_fields(to.e164_view(), code.text()));
            assert(v[0].0 == "To"@ && v[0].1.len() > 0);
        }
        form_request(self.base_url.as_str(), path.as_str(), fields, SERVICE_NAME)
    }
}

} // verus!
