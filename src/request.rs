use crate::error::ClientError;
use secrecy::ExposeSecret;
use vstd::prelude::*;

verus! {

#[verifier::external_type_specification]
#[verifier::external_body]
pub struct ExUrl(url::Url);

/// secrecy's `SecretString`: redacted in debug output and zeroed on drop.
/// Verus cannot declare `SecretBox<S: Zeroize + ?Sized>`, so the field is hidden.
#[verifier::external_body]
#[derive(Debug)]
struct Sealed {
    inner: secrecy::SecretString,
}

/// A credential, read only where a request is authenticated.
pub struct Credential {
    sealed: Sealed,
    text: Ghost<Seq<char>>,
}

impl Credential {
    /// The text this credential holds.
    pub closed spec fn text(&self) -> Seq<char> {
        self.text@
    }

    /// Relies on `SecretString::from`: the secret holds exactly `text`.
    #[verifier::external_body]
    pub fn new(text: String) -> (r: Credential)
        ensures
            r.text() == text@,
    {
        let ghost t = text@;
        Credential { sealed: Sealed { inner: secrecy::SecretString::from(text) }, text: Ghost(t) }
    }

    /// Relies on `ExposeSecret::expose_secret`: the text the secret holds.
    #[verifier::external_body]
    pub fn expose(&self) -> (r: String)
        ensures
            r@ == self.text(),
    {
        self.sealed.inner.expose_secret().to_string()
    }
}

impl Clone for Credential {
    /// Relies on `SecretString`'s `Clone`: a second secret with the same text.
    #[verifier::external_body]
    fn clone(&self) -> (r: Credential)
        ensures
            r.text() == self.text(),
    {
        Credential { sealed: Sealed { inner: self.sealed.inner.clone() }, text: Ghost(self.text@) }
    }
}

/// How long a call may take when the builder was given no timeout, in seconds.
pub const DEFAULT_TIMEOUT_SECS: u64 = 10;

/// A form POST to the provider, ready for the transport.
#[derive(Debug)]
pub struct FormRequest {
    /// The endpoint: the path resolved against the base URL.
    pub url: String,
    /// The form fields, with distinct names.
    pub fields: Vec<(String, String)>,
}

/// The names and values of a field list.
pub open spec fn fields_view(fields: Seq<(String, String)>) -> Seq<(Seq<char>, Seq<char>)> {
    fields.map_values(|f: (String, String)| (f.0@, f.1@))
}

/// `fields` holds a field named `name` whose value is not empty.
pub open spec fn has_nonempty_field(fields: Seq<(Seq<char>, Seq<char>)>, name: Seq<char>) -> bool {
    exists|i: int| 0 <= i < fields.len() && (#[trigger] fields[i]).0 == name && fields[i].1.len() > 0
}

/// Whether `path` resolves against the URL whose text is `base`.
pub uninterp spec fn url_joins(base: Seq<char>, path: Seq<char>) -> bool;

/// The text of the URL that `path` resolves to against the URL whose text is `base`.
pub uninterp spec fn url_joined(base: Seq<char>, path: Seq<char>) -> Seq<char>;

/// Relies on `url::Url::parse` of `base` and `Url::join` of `path`: the text
/// of the resolved URL, or the text of the parse error that says why not.
#[verifier::external_body]
fn join_url(base: &str, path: &str) -> (r: Result<String, String>)
    ensures
        r is Ok <==> url_joins(base@, path@),
        r is Ok ==> r->Ok_0@ == url_joined(base@, path@),
{
    url::Url::parse(base).and_then(|b| b.join(path)).map(|u| u.to_string()).map_err(|e| e.to_string())
}

/// Relies on `reqwest::Error::is_timeout`: whether the transport gave up on time.
#[verifier::external_body]
fn is_timeout(e: &reqwest::Error) -> (r: bool) {
    e.is_timeout()
}

pub open spec fn invalid_url_message(service_name: Seq<char>, detail: Seq<char>) -> Seq<char> {
    service_name + ": invalid URL: "@ + detail
}

/// The configuration error for an endpoint that did not resolve.
pub fn invalid_url(service_name: &str, detail: &str) -> (r: ClientError)
    ensures
        r is Configuration,
        r->Configuration_0@ == invalid_url_message(service_name@, detail@),
{
    let mut m = String::from_str(service_name);
    m.append(": invalid URL: ");
    m.append(detail);
    ClientError::Configuration(m)
}

/// Resolves `path` against `base`; a failure is a configuration error naming the service.
pub fn resolve_url(base: &str, path: &str, service_name: &str) -> (r: Result<String, ClientError>)
    ensures
        r is Ok <==> url_joins(base@, path@),
        r is Ok ==> r->Ok_0@ == url_joined(base@, path@),
        r is Err ==> r->Err_0 is Configuration && exists|detail: Seq<char>|
            r->Err_0->Configuration_0@ == invalid_url_message(service_name@, detail),
{
    match join_url(base, path) {
        Ok(u) => Ok(u),
        Err(detail) => Err(invalid_url(service_name, detail.as_str())),
    }
}

/// A form POST of `fields` to `path` under `base`.
pub fn form_request(
    base: &str,
    path: &str,
    fields: Vec<(String, String)>,
    service_name: &str,
) -> (r: Result<FormRequest, ClientError>)
    ensures
        r is Ok <==> url_joins(base@, path@),
        r is Ok ==> r->Ok_0.url@ == url_joined(base@, path@) && r->Ok_0.fields@ == fields@,
        r is Err ==> r->Err_0 is Configuration && exists|detail: Seq<char>|
            r->Err_0->Configuration_0@ == invalid_url_message(service_name@, detail),
{
    match resolve_url(base, path, service_name) {
        Ok(url) => Ok(FormRequest { url, fields }),
        Err(e) => Err(e),
    }
}

/// Whether an HTTP status is a success.
pub open spec fn is_success(status: u16) -> bool {
    200 <= status <= 299
}

/// The error owed for a transport failure: a timeout carries the configured
/// seconds, anything else carries the transport's error.
pub fn transport_failure(timed_out: bool, err: reqwest::Error, timeout_secs: u64) -> (r:
    ClientError)
    ensures
        timed_out ==> r == ClientError::Timeout(timeout_secs),
        !timed_out ==> r == ClientError::Reqwest(err),
{
    if timed_out {
        ClientError::Timeout(timeout_secs)
    } else {
        ClientError::Reqwest(err)
    }
}

/// Classifies a transport failure of a call configured to give up after
/// `timeout_secs` seconds.
pub fn classify_transport_error(err: reqwest::Error, timeout_secs: u64) -> (r: ClientError)
    ensures
        r == ClientError::Timeout(timeout_secs) || r == ClientError::Reqwest(err),
{
    let timed_out = is_timeout(&err);
    transport_failure(timed_out, err, timeout_secs)
}

/// Classifies a fully read response: a success hands its body on to be
/// decoded, 401 is an authentication failure, anything else a server error.
pub fn classify_response(status: u16, body: String) -> (r: Result<String, ClientError>)
    ensures
        is_success(status) ==> r == Ok::<String, ClientError>(body),
        status == 401 ==> r == Err::<String, ClientError>(ClientError::Authentication(body)),
        !is_success(status) && status != 401 ==> r == Err::<String, ClientError>(
            ClientError::ServerResponse { status_code: status, message: body },
        ),
{
    if 200 <= status && status <= 299 {
        Ok(body)
    } else if status == 401 {
        Err(ClientError::Authentication(body))
    } else {
        Err(ClientError::ServerResponse { status_code: status, message: body })
    }
}

/// A decoded success body, or the decoding failure as a client error.
pub fn decoded<T>(parsed: Result<T, serde_json::Error>) -> (r: Result<T, ClientError>)
    ensures
        match parsed {
            Ok(v) => r == Ok::<T, ClientError>(v),
            Err(e) => r == Err::<T, ClientError>(ClientError::Serde(e)),
        },
{
    match parsed {
        Ok(v) => Ok(v),
        Err(e) => Err(ClientError::Serde(e)),
    }
}

} // verus!
