use crate::error::ClientError;
use crate::phone::Phone;
use crate::request::{
    fields_view, form_request, has_nonempty_field, invalid_url_message, url_joined, url_joins,     Credential, FormRequest, DEFAULT_TIMEOUT_SECS,
};
use vstd::prelude::*;

verus! {

/// The name that tags this service's failures.
pub const SERVICE_NAME: &'static str = "Twilio SMS";

/// What the provider reports about a message it accepted.
#[derive(Clone, Debug, Default)]
pub struct SendSmsResponse {
    pub body: Option<String>,
    pub date_created: Option<String>,
    pub date_sent: Option<String>,
    pub date_updated: Option<String>,
    pub error_code: Option<i32>,
    pub error_message: Option<String>,
    pub status: Option<Status>,
    pub to: Option<String>,
}

/// The status of the message.
#[derive(Clone, Copy, Debug, PartialEq, Eq, PartialOrd, Ord, Hash, Structural)]
pub enum Status {
    Queued,
    Sending,
    Sent,
    Failed,
    Delivered,
    Undelivered,
    Receiving,
    Received,
    Accepted,
    Scheduled,
    Read,
    PartiallyDelivered,
    Canceled,
}

/// `form_urlencoded` serialisation of the UTF-8 bytes of `s`.
pub uninterp spec fn form_encoded(s: Seq<char>) -> Seq<char>;

/// Relies on `url::form_urlencoded::byte_serialize`.
#[verifier::external_body]
fn form_encode(s: &str) -> (r: String)
    ensures
        r@ == form_encoded(s@),
{
    url::form_urlencoded::byte_serialize(s.as_bytes()).collect()
}

/// The texts of `items`, separated by commas.
pub open spec fn comma_joined(items: Seq<Seq<char>>) -> Seq<char>
    decreases items.len(),
{
    if items.len() == 0 {
        Seq::empty()
    } else if items.len() == 1 {
        items[0]
    } else {
        comma_joined(items.drop_last()) + ","@ + items.last()
    }
}

pub open spec fn strings_view(items: Seq<String>) -> Seq<Seq<char>> {
    items.map_values(|s: String| s@)
}

pub open spec fn bool_text(b: bool) -> Seq<char> {
    if b {
        "true"@
    } else {
        "false"@
    }
}

/// The form fields of a message from `from` to `to`.
pub open spec fn message_fields(
    from: Seq<char>,
    to: Seq<char>,
    body: Seq<char>,
    send_as_mms: Option<bool>,
    media_urls: Option<Seq<Seq<char>>>,
) -> Seq<(Seq<char>, Seq<char>)> {
    seq![("From"@, from), ("To"@, to), ("Body"@, body)] + match media_urls {
        Some(urls) => seq![("MediaUrl"@, comma_joined(urls))],
        None => Seq::empty(),
    } + match send_as_mms {
        Some(b) => seq![("SendAsMms"@, bool_text(b))],
        None => Seq::empty(),
    }
}

/// The endpoint path for messages of the account whose encoded id is `account`.
pub open spec fn messages_path(account: Seq<char>) -> Seq<char> {
    "/2010-04-01/Accounts/"@ + account + "/Messages.json"@
}

fn join_with_commas(items: &Vec<String>) -> (r: String)
    ensures
        r@ == comma_joined(strings_view(items@)),
{
    let mut out = String::new();
    let mut i: usize = 0;
    while i < items.len()
        invariant
            i <= items.len(),
            out@ == comma_joined(strings_view(items@).take(i as int)),
        decreases items.len() - i,
    {
        let ghost before = strings_view(items@).take(i as int);
        let ghost after = strings_view(items@).take(i + 1);
        assert(after.drop_last() =~= before);
        if i > 0 {
            out.append(",");
        } else {
            assert(before =~= Seq::<Seq<char>>::empty());
        }
        out.append(items[i].as_str());
        i = i + 1;
    }
    assert(strings_view(items@).take(i as int) =~= strings_view(items@));
    out
}

/// Collects the settings of an SMS client; `build` checks that none is missing.
pub struct ClientBuilder {
    base_url: Option<String>,
    sender: Option<Phone>,
    account_sid: Option<Credential>,
    auth_token: Option<Credential>,
    timeout: Option<u64>,
}

impl ClientBuilder {
    pub closed spec fn spec_base_url(&self) -> Option<Seq<char>> {
        match self.base_url {
            Some(u) => Some(u@),
            None => None,
        }
    }

    pub closed spec fn spec_sender(&self) -> Option<Phone> {
        self.sender
    }

    pub closed spec fn spec_account_sid(&self) -> Option<Credential> {
        self.account_sid
    }

    pub closed spec fn spec_auth_token(&self) -> Option<Credential> {
        self.auth_token
    }

    pub closed spec fn spec_timeout(&self) -> Option<u64> {
        self.timeout
    }

    /// A builder with nothing set.
    pub fn new() -> (r: ClientBuilder)
        ensures
            r.spec_base_url() is None,
            r.spec_sender() is None,
            r.spec_account_sid() is None,
            r.spec_auth_token() is None,
            r.spec_timeout() is None,
    {
        ClientBuilder {
            base_url: None,
            sender: None,
            account_sid: None,
            auth_token: None,
            timeout: None,
        }
    }

    /// The provider's base URL, as text.
    pub fn base_url(self, url: &str) -> (r: ClientBuilder)
        ensures
            r.spec_base_url() == Some(url@),
            r.spec_sender() == self.spec_sender(),
            r.spec_account_sid() == self.spec_account_sid(),
            r.spec_auth_token() == self.spec_auth_token(),
            r.spec_timeout() == self.spec_timeout(),
    {
        ClientBuilder { base_url: Some(String::from_str(url)), ..self }
    }

    pub fn sender(self, sender: Phone) -> (r: ClientBuilder)
        ensures
            r.spec_base_url() == self.spec_base_url(),
            r.spec_sender() == Some(sender),
            r.spec_account_sid() == self.spec_account_sid(),
            r.spec_auth_token() == self.spec_auth_token(),
            r.spec_timeout() == self.spec_timeout(),
    {
        ClientBuilder { sender: Some(sender), ..self }
    }

    pub fn account_sid(self, account_sid: Credential) -> (r: ClientBuilder)
        ensures
            r.spec_base_url() == self.spec_base_url(),
            r.spec_sender() == self.spec_sender(),
            r.spec_account_sid() == Some(account_sid),
            r.spec_auth_token() == self.spec_auth_token(),
            r.spec_timeout() == self.spec_timeout(),
    {
        ClientBuilder { account_sid: Some(account_sid), ..self }
    }

    pub fn auth_token(self, token: Credential) -> (r: ClientBuilder)
        ensures
            r.spec_base_url() == self.spec_base_url(),
            r.spec_sender() == self.spec_sender(),
            r.spec_account_sid() == self.spec_account_sid(),
            r.spec_auth_token() == Some(token),
            r.spec_timeout() == self.spec_timeout(),
    {
        ClientBuilder { auth_token: Some(token), ..self }
    }

    /// How long a call may take, in whole seconds.
    pub fn timeout(self, timeout: u64) -> (r: ClientBuilder)
        ensures
            r.spec_base_url() == self.spec_base_url(),
            r.spec_sender() == self.spec_sender(),
            r.spec_account_sid() == self.spec_account_sid(),
            r.spec_auth_token() == self.spec_auth_token(),
            r.spec_timeout() == Some(timeout),
    {
        ClientBuilder { timeout: Some(timeout), ..self }
    }

    /// The client, or a configuration error naming the first missing setting
    /// (base URL, sender, account id, auth token, in that order). Without a
    /// timeout the client gives up after the default number of seconds.
    pub fn build(self) -> (r: Result<Client, ClientError>)
        ensures
            self.spec_base_url() is None ==> r is Err && r->Err_0 is Configuration
                && r->Err_0->Configuration_0@ == missing_message("base_url"@),
            self.spec_base_url() is Some && self.spec_sender() is None ==> r is Err
                && r->Err_0 is Configuration && r->Err_0->Configuration_0@ == missing_message(
                "sender phone"@,
            ),
            self.spec_base_url() is Some && self.spec_sender() is Some
                && self.spec_account_sid() is None ==> r is Err && r->Err_0 is Configuration
                && r->Err_0->Configuration_0@ == missing_message("account_sid"@),
            self.spec_base_url() is Some && self.spec_sender() is Some
                && self.spec_account_sid() is Some && self.spec_auth_token() is None ==> r is Err
                && r->Err_0 is Configuration && r->Err_0->Configuration_0@ == missing_message(
                "auth_token"@,
            ),
            self.spec_base_url() is Some && self.spec_sender() is Some
                && self.spec_account_sid() is Some && self.spec_auth_token() is Some ==> r is Ok,
            r is Ok ==> {
                &&& self.spec_base_url() == Some(r->Ok_0.spec_base_url())
                &&& self.spec_sender() == Some(r->Ok_0.spec_sender())
                &&& self.spec_account_sid() == Some(r->Ok_0.spec_account_sid())
                &&& self.spec_auth_token() == Some(r->Ok_0.spec_auth_token())
                &&& r->Ok_0.spec_timeout() == match self.spec_timeout() {
                    Some(t) => t,
                    None => DEFAULT_TIMEOUT_SECS,
                }
            },
    {
        let base_url = match self.base_url {
            Some(u) => u,
            None => return Err(missing("base_url")),
        };
        let sender = match self.sender {
            Some(s) => s,
            None => return Err(missing("sender phone")),
        };
        let account_sid = match self.account_sid {
            Some(s) => s,
            None => return Err(missing("account_sid")),
        };
        let auth_token = match self.auth_token {
            Some(t) => t,
            None => return Err(missing("auth_token")),
        };
        let timeout = match self.timeout {
            Some(t) => t,
            None => DEFAULT_TIMEOUT_SECS,
        };
        Ok(Client { base_url, sender, account_sid, auth_token, timeout })
    }
}

pub open spec fn missing_message(setting: Seq<char>) -> Seq<char> {
    "Twilio sms "@ + setting + " is required"@
}

fn missing(setting: &str) -> (r: ClientError)
    ensures
        r is Configuration,
        r->Configuration_0@ == missing_message(setting@),
{
    let mut m = String::from_str("Twilio sms ");
    m.append(setting);
    m.append(" is required");
    ClientError::Configuration(m)
}

/// A configured SMS client: where to send, as whom, and how long to wait.
pub struct Client {
    base_url: String,
    sender: Phone,
    account_sid: Credential,
    auth_token: Credential,
    timeout: u64,
}

impl Client {
    pub closed spec fn spec_base_url(&self) -> Seq<char> {
        self.base_url@
    }

    pub closed spec fn spec_sender(&self) -> Phone {
        self.sender
    }

    pub closed spec fn spec_account_sid(&self) -> Credential {
        self.account_sid
    }

    pub closed spec fn spec_auth_token(&self) -> Credential {
        self.auth_token
    }

    pub closed spec fn spec_timeout(&self) -> u64 {
        self.timeout
    }

    /// A builder with nothing set.
    pub fn builder() -> (r: ClientBuilder)
        ensures
            r.spec_base_url() is None,
            r.spec_sender() is None,
            r.spec_account_sid() is None,
            r.spec_auth_token() is None,
            r.spec_timeout() is None,
    {
        ClientBuilder::new()
    }

    pub fn account_sid(&self) -> (r: &Credential)
        ensures
            *r == self.spec_account_sid(),
    {
        &self.account_sid
    }

    pub fn auth_token(&self) -> (r: &Credential)
        ensures
            *r == self.spec_auth_token(),
    {
        &self.auth_token
    }

    /// How long a call may take, in whole seconds.
    pub fn timeout(&self) -> (r: u64)
        ensures
            r == self.spec_timeout(),
    {
        self.timeout
    }

    /// The provider's base URL, as text.
    pub fn base_url(&self) -> (r: &str)
        ensures
            r@ == self.spec_base_url(),
    {
        self.base_url.as_str()
    }

    /// The form POST that sends `content` to `to` from the configured sender:
    /// `From`, `To` and `Body`, then the media URLs joined by commas and the
    /// MMS flag where they are given, to the account's messages endpoint.
    pub fn send_request(
        &self,
        to: &Phone,
        content: &str,
        send_as_mms: Option<bool>,
        media_url: Option<Vec<String>>,
    ) -> (r: Result<FormRequest, ClientError>)
        ensures
            r is Ok <==> url_joins(
                self.spec_base_url(),
                messages_path(form_encoded(self.spec_account_sid().text())),
            ),
            r is Ok ==> r->Ok_0.url@ == url_joined(
                self.spec_base_url(),
                messages_path(form_encoded(self.spec_account_sid().text())),
            ),
            r is Ok ==> fields_view(r->Ok_0.fields@) == message_fields(
                self.spec_sender().e164_view(),
                to.e164_view(),
                content@,
                send_as_mms,
                match media_url {
                    Some(urls) => Some(strings_view(urls@)),
                    None => None,
                },
            ),
            r is Ok ==> has_nonempty_field(fields_view(r->Ok_0.fields@), "From"@)
                && has_nonempty_field(fields_view(r->Ok_0.fields@), "To"@),
            r is Ok && content@.len() > 0 ==> has_nonempty_field(
                fields_view(r->Ok_0.fields@),
                "Body"@,
            ),
            r is Err ==> r->Err_0 is Configuration && exists|detail: Seq<char>|
                r->Err_0->Configuration_0@ == invalid_url_message(SERVICE_NAME@, detail),
    {
        let account = form_encode(self.account_sid.expose().as_str());
        let mut path = String::from_str("/2010-04-01/Accounts/");
        path.append(account.as_str());
        path.append("/Messages.json");

        let from = self.sender.e164_number();
        let to_text = to.e164_number();
        let mut fields: Vec<(String, String)> = Vec::new();
        fields.push((String::from_str("From"), from));
        fields.push((String::from_str("To"), to_text));
        fields.push((String::from_str("Body"), String::from_str(content)));
        if let Some(urls) = &media_url {
            fields.push((String::from_str("MediaUrl"), join_with_commas(urls)));
        }
        if let Some(flag) = send_as_mms {
            let text = if flag {
                String::from_str("true")
            } else {
                String::from_str("false")
            };
            fields.push((String::from_str("SendAsMms"), text));
        }
        proof {
            reveal_strlit("From");
            reveal_strlit("To");
            reveal_strlit("Body");
            reveal_strlit("MediaUrl");
            reveal_strlit("SendAsMms");
            reveal_strlit("true");
            reveal_strlit("false");
            let v = fields_view(fields@);
            let m = message_fields(
                self.spec_sender().e164_view(),
                to.e164_view(),
                content@,
                send_as_mms,
                match media_url {
                    Some(urls) => Some(strings_view(urls@)),
                    None => None,
                },
            );
            assert(v =~= m);
            assert(v[0].0 == "From"@ && v[0].1.len() > 0);
            assert(v[1].0 == "To"@ && v[1].1.len() > 0);
            assert(v[2].0 == "Body"@);
        }
        form_request(self.base_url.as_str(), path.as_str(), fields, SERVICE_NAME)
    }
}

} // verus!
