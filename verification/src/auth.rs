//! Credentials of devices: user names, `Authorization` header values, and which
//! authentication request a connection asks for.
use crate::text::{
    chars_of, concat, find_char, latin1_text, split_once, split_once_bytes, split_once_chars, string_of,
    string_of_bytes,
};
use vstd::prelude::*;
use vstd::utf8::{decode_utf8, encode_utf8, valid_utf8};

verus! {

/// Name for the text that `percent_encoding::percent_decode_str(s).decode_utf8_lossy()`
/// gives for `s`.
pub uninterp spec fn percent_decoded_lossy(s: Seq<char>) -> Seq<char>;

/// The value of an ASCII hexadecimal digit.
pub open spec fn hex_value(b: u8) -> Option<u8> {
    if 48 <= b <= 57 {
        Some((b - 48) as u8)
    } else if 97 <= b <= 102 {
        Some((b - 87) as u8)
    } else if 65 <= b <= 70 {
        Some((b - 55) as u8)
    } else {
        None
    }
}

/// Percent-decoded bytes: each `%` followed by two hexadecimal digits becomes the byte
/// they write, every other byte stays as it is.
pub open spec fn percent_decoded_bytes(b: Seq<u8>) -> Seq<u8>
    decreases b.len(),
{
    if b.len() == 0 {
        Seq::empty()
    } else if b[0] == 37 && b.len() >= 3 && hex_value(b[1]) is Some && hex_value(b[2]) is Some {
        seq![(hex_value(b[1])->0 * 16 + hex_value(b[2])->0) as u8] + percent_decoded_bytes(b.skip(3))
    } else {
        seq![b[0]] + percent_decoded_bytes(b.skip(1))
    }
}

/// The text that `percent_encoding::percent_decode_str(s).decode_utf8()` gives for `s`:
/// the percent-decoded bytes of its UTF-8 encoding read as UTF-8, `None` where they are
/// not valid UTF-8.
pub open spec fn percent_decoded_strict(s: Seq<char>) -> Option<Seq<char>> {
    let b = percent_decoded_bytes(encode_utf8(s));
    if valid_utf8(b) {
        Some(decode_utf8(b))
    } else {
        None
    }
}

/// Name for the bytes that `base64::decode` (standard alphabet) gives for `input`,
/// `None` where it reports an error.
pub uninterp spec fn base64_decoded(input: Seq<u8>) -> Option<Seq<u8>>;

/// Calls `percent_encoding::percent_decode_str(s).decode_utf8_lossy()`. The contract names
/// the result; it also states that text without a `%` comes back unchanged, as the
/// decoder leaves every byte but `%` as it is and the bytes of a `str` are valid UTF-8.
#[verifier::external_body]
pub(crate) fn percent_decode_lossy(s: &str) -> (r: String)
    ensures
        r@ == percent_decoded_lossy(s@),
        !s@.contains('%') ==> r@ == s@,
{
    percent_encoding::percent_decode_str(s).decode_utf8_lossy().into_owned()
}

/// Calls `percent_encoding::percent_decode_str(s).decode_utf8()`: the result is the one
/// that `percent_decoded_strict` states; text without a `%` comes back unchanged.
#[verifier::external_body]
fn percent_decode_strict(s: &str) -> (r: Option<String>)
    ensures
        match r {
            Some(t) => percent_decoded_strict(s@) == Some(t@),
            None => percent_decoded_strict(s@) is None,
        },
        !s@.contains('%') ==> r is Some && r->0@ == s@,
{
    match percent_encoding::percent_decode_str(s).decode_utf8() {
        Ok(t) => Some(t.into_owned()),
        Err(_) => None,
    }
}

/// Calls `base64::decode`; the contract names the result.
#[verifier::external_body]
fn base64_decode(input: &[u8]) -> (r: Option<Vec<u8>>)
    ensures
        match r {
            Some(v) => base64_decoded(input@) == Some(v@),
            None => base64_decoded(input@) is None,
        },
{
    match base64::decode(input) {
        Ok(v) => Some(v),
        Err(_) => None,
    }
}

/// Calls `String::from_utf8`: as std documents it, the bytes are accepted exactly when
/// they are valid UTF-8, and then the string holds the characters they encode; else the
/// error gives the bytes back (`FromUtf8Error::into_bytes`).
#[verifier::external_body]
pub(crate) fn utf8_string(bytes: Vec<u8>) -> (r: Result<String, Vec<u8>>)
    ensures
        r is Ok <==> valid_utf8(bytes@),
        r matches Ok(s) ==> s@ == decode_utf8(bytes@),
        r matches Err(b) ==> b@ == bytes@,
{
    match String::from_utf8(bytes) {
        Ok(s) => Ok(s),
        Err(e) => Err(e.into_bytes()),
    }
}

/// A user name, either scoped to an application (`<device>@<scope>`) or plain.
#[derive(Clone, Debug, PartialEq, Eq)]
pub enum Username {
    Scoped { scope: String, device: String },
    NonScoped(String),
}

/// The mathematical value of a [`Username`].
pub enum UsernameModel {
    Scoped { scope: Seq<char>, device: Seq<char> },
    NonScoped(Seq<char>),
}

impl View for Username {
    type V = UsernameModel;

    open spec fn view(&self) -> UsernameModel {
        match self {
            Username::Scoped { scope, device } => UsernameModel::Scoped {
                scope: scope@,
                device: device@,
            },
            Username::NonScoped(s) => UsernameModel::NonScoped(s@),
        }
    }
}

/// How a user name text is read: split at the first `@` into a device (percent-decoded)
/// and a scope; without an `@` it is a plain name.
pub open spec fn username_of(s: Seq<char>) -> UsernameModel {
    match split_once(s, '@') {
        Some((device, scope)) => UsernameModel::Scoped {
            scope,
            device: percent_decoded_lossy(device),
        },
        None => UsernameModel::NonScoped(s),
    }
}

/// The text a user name turns back into: `<device>@<scope>` for a scoped one.
pub open spec fn username_text(u: UsernameModel) -> Seq<char> {
    match u {
        UsernameModel::Scoped { scope, device } => device + seq!['@'] + scope,
        UsernameModel::NonScoped(s) => s,
    }
}

impl Username {
    /// Reads a user name from its characters.
    pub fn from_chars(s: &[char]) -> (r: Username)
        ensures
            r@ == username_of(s@),
            !s@.contains('%') ==> username_text(r@) == s@,
    {
        match split_once_chars(s, '@') {
            Some((device, scope)) => {
                proof {
                    crate::text::lemma_first_index_exists(s@, '@');
                    let i = choose|i: int| crate::text::is_first_index(s@, '@', i);
                    assert(s@ =~= s@.take(i) + seq!['@'] + s@.skip(i + 1));
                    if s@.take(i).contains('%') {
                        let k = choose|k: int| 0 <= k < s@.take(i).len() && s@.take(i)[k] == '%';
                        assert(s@[k] == '%');
                    }
                }
                let device = percent_decode_lossy(string_of(&device).as_str());
                Username::Scoped { scope: string_of(&scope), device }
            },
            None => Username::NonScoped(string_of(s)),
        }
    }

    /// Reads a user name from a string.
    pub fn from_name(s: &str) -> (r: Username)
        ensures
            r@ == username_of(s@),
            !s@.contains('%') ==> username_text(r@) == s@,
    {
        Username::from_chars(&chars_of(s))
    }

    /// Turns the user name back into a single string.
    pub fn into_string(self) -> (r: String)
        ensures
            r@ == username_text(self@),
    {
        match self {
            Username::NonScoped(s) => s,
            Username::Scoped { scope, device } => crate::text::join2(device.as_str(), '@', scope.as_str()),
        }
    }
}

/// The value of an `Authorization` header.
#[derive(Clone, Debug, PartialEq, Eq)]
pub enum AuthValue {
    Basic { username: Username, password: String },
    Bearer(String),
    Unknown,
}

/// The mathematical value of an [`AuthValue`].
pub enum AuthValueModel {
    Basic { username: UsernameModel, password: Seq<char> },
    Bearer(Seq<char>),
    Unknown,
}

impl View for AuthValue {
    type V = AuthValueModel;

    open spec fn view(&self) -> AuthValueModel {
        match self {
            AuthValue::Basic { username, password } => AuthValueModel::Basic {
                username: username@,
                password: password@,
            },
            AuthValue::Bearer(t) => AuthValueModel::Bearer(t@),
            AuthValue::Unknown => AuthValueModel::Unknown,
        }
    }
}

/// A header byte that can be read as text: visible ASCII or a tab.
pub open spec fn is_header_text_byte(b: u8) -> bool {
    b == 9 || (32 <= b && b < 127)
}

/// The bytes of a header value can be read as text.
pub open spec fn is_header_text(h: Seq<u8>) -> bool {
    forall|i: int| 0 <= i < h.len() ==> is_header_text_byte(#[trigger] h[i])
}

/// The bytes of the scheme name `Basic`.
pub open spec fn basic_scheme() -> Seq<u8> {
    seq![66u8, 97u8, 115u8, 105u8, 99u8]
}

/// The bytes of the scheme name `Bearer`.
pub open spec fn bearer_scheme() -> Seq<u8> {
    seq![66u8, 101u8, 97u8, 114u8, 101u8, 114u8]
}

/// What decoded `Basic` credentials read as: UTF-8 text split at the first `:` into a
/// user name and a password.
pub open spec fn basic_credentials(decoded: Seq<u8>) -> AuthValueModel {
    if valid_utf8(decoded) {
        match split_once(decode_utf8(decoded), ':') {
            Some((user, password)) => AuthValueModel::Basic { username: username_of(user), password },
            None => AuthValueModel::Unknown,
        }
    } else {
        AuthValueModel::Unknown
    }
}

/// How the bytes of an `Authorization` header value are read: split at the first space
/// into a scheme and a value; `Basic` carries base64 encoded `<user>:<password>`,
/// `Bearer` carries a token; anything else, or a value that is not text, is unknown.
pub open spec fn auth_value_of(h: Seq<u8>) -> AuthValueModel {
    if !is_header_text(h) {
        AuthValueModel::Unknown
    } else {
        match split_once(h, 32u8) {
            Some((scheme, value)) => if scheme == basic_scheme() {
                match base64_decoded(value) {
                    Some(decoded) => basic_credentials(decoded),
                    None => AuthValueModel::Unknown,
                }
            } else if scheme == bearer_scheme() {
                AuthValueModel::Bearer(latin1_text(value))
            } else {
                AuthValueModel::Unknown
            },
            None => AuthValueModel::Unknown,
        }
    }
}

/// Checks that every byte of a header value can be read as text (as `HeaderValue::to_str`
/// does).
fn header_is_text(h: &[u8]) -> (r: bool)
    ensures
        r == is_header_text(h@),
{
    let mut i: usize = 0;
    while i < h.len()
        invariant
            i <= h@.len(),
            forall|j: int| 0 <= j < i ==> is_header_text_byte(#[trigger] h@[j]),
        decreases h@.len() - i,
    {
        let b = h[i];
        if !(b == 9 || (32 <= b && b < 127)) {
            assert(!is_header_text_byte(h@[i as int]));
            return false;
        }
        i += 1;
    }
    true
}

fn is_basic_scheme(s: &[u8]) -> (r: bool)
    ensures
        r == (s@ == basic_scheme()),
{
    let r = s.len() == 5 && s[0] == 66 && s[1] == 97 && s[2] == 115 && s[3] == 105 && s[4] == 99;
    proof {
        if r {
            assert(s@ =~= basic_scheme());
        }
    }
    r
}

fn is_bearer_scheme(s: &[u8]) -> (r: bool)
    ensures
        r == (s@ == bearer_scheme()),
{
    let r = s.len() == 6 && s[0] == 66 && s[1] == 101 && s[2] == 97 && s[3] == 114 && s[4]
        == 101 && s[5] == 114;
    proof {
        if r {
            assert(s@ =~= bearer_scheme());
        }
    }
    r
}

impl AuthValue {
    /// Reads decoded `Basic` credentials.
    fn from_basic_credentials(decoded: Vec<u8>) -> (r: AuthValue)
        ensures
            r@ == basic_credentials(decoded@),
    {
        let ghost d = decoded@;
        match utf8_string(decoded) {
            Ok(text) => {
                let cs = chars_of(text.as_str());
                match split_once_chars(&cs, ':') {
                    Some((user, password)) => AuthValue::Basic {
                        username: Username::from_chars(&user),
                        password: string_of(&password),
                    },
                    None => AuthValue::Unknown,
                }
            },
            Err(_) => AuthValue::Unknown,
        }
    }

    /// Reads the bytes of an `Authorization` header value.
    pub fn from_header(h: &[u8]) -> (r: AuthValue)
        ensures
            r@ == auth_value_of(h@),
    {
        if !header_is_text(h) {
            return AuthValue::Unknown;
        }
        match split_once_bytes(h, 32u8) {
            Some((scheme, value)) => {
                if is_basic_scheme(&scheme) {
                    match base64_decode(&value) {
                        Some(decoded) => AuthValue::from_basic_credentials(decoded),
                        None => AuthValue::Unknown,
                    }
                } else if is_bearer_scheme(&scheme) {
                    AuthValue::Bearer(string_of_bytes(&value))
                } else {
                    AuthValue::Unknown
                }
            },
            None => AuthValue::Unknown,
        }
    }
}

/// The credential a device presents.
#[derive(Clone, Debug, PartialEq, Eq)]
pub enum Credential {
    Password(String),
    UsernamePassword { username: String, password: String },
    Certificate(Vec<Vec<u8>>),
}

/// The mathematical value of a [`Credential`].
pub enum CredentialModel {
    Password(Seq<char>),
    UsernamePassword { username: Seq<char>, password: Seq<char> },
    Certificate(Seq<Vec<u8>>),
}

impl View for Credential {
    type V = CredentialModel;

    open spec fn view(&self) -> CredentialModel {
        match self {
            Credential::Password(p) => CredentialModel::Password(p@),
            Credential::UsernamePassword { username, password } => {
                CredentialModel::UsernamePassword { username: username@, password: password@ }
            },
            Credential::Certificate(c) => CredentialModel::Certificate(c@),
        }
    }
}

/// A request to the authentication service: which device of which application presents
/// which credential, possibly acting as another device.
#[derive(Clone, Debug, PartialEq, Eq)]
pub struct AuthenticationRequest {
    pub application: String,
    pub device: String,
    pub credential: Credential,
    pub as_device: Option<String>,
}

/// The mathematical value of an [`AuthenticationRequest`].
pub struct AuthenticationRequestModel {
    pub application: Seq<char>,
    pub device: Seq<char>,
    pub credential: CredentialModel,
    pub as_device: Option<Seq<char>>,
}

/// The view of an optional string.
pub open spec fn opt_view(o: Option<String>) -> Option<Seq<char>> {
    match o {
        Some(s) => Some(s@),
        None => None,
    }
}

impl View for AuthenticationRequest {
    type V = AuthenticationRequestModel;

    open spec fn view(&self) -> AuthenticationRequestModel {
        AuthenticationRequestModel {
            application: self.application@,
            device: self.device@,
            credential: self.credential@,
            as_device: opt_view(self.as_device),
        }
    }
}

/// What a connection asks of the authentication service.
#[derive(Clone, Debug, PartialEq, Eq)]
pub enum AuthPlan {
    /// Send this request.
    Request(AuthenticationRequest),
    /// Authenticate with the client certificate chain alone.
    Certificate(Vec<Vec<u8>>),
    /// The presented information fits no scheme: authentication fails.
    Fail,
}

/// The mathematical value of an [`AuthPlan`].
pub enum AuthPlanModel {
    Request(AuthenticationRequestModel),
    Certificate(Seq<Vec<u8>>),
    Fail,
}

impl View for AuthPlan {
    type V = AuthPlanModel;

    open spec fn view(&self) -> AuthPlanModel {
        match self {
            AuthPlan::Request(r) => AuthPlanModel::Request(r@),
            AuthPlan::Certificate(c) => AuthPlanModel::Certificate(c@),
            AuthPlan::Fail => AuthPlanModel::Fail,
        }
    }
}

/// A request in the model.
pub open spec fn request_model(
    application: Seq<char>,
    device: Seq<char>,
    credential: CredentialModel,
    as_device: Option<Seq<char>>,
) -> AuthPlanModel {
    AuthPlanModel::Request(AuthenticationRequestModel { application, device, credential, as_device })
}

/// Which request an HTTP request asks for, from the optional `application` and `device`
/// query parameters, the `Authorization` header and the client certificates:
/// - basic auth `<device>@<application>` / `<password>`: a password for that device;
/// - `application` given, basic auth `<user>` / `<password>`: a password for the device
///   named by the whole user name;
/// - `application` and `device` given, basic auth `<user>` / `<password>`: user name and
///   password for that device;
/// - `device` given, basic auth `<user>@<application>` / `<password>`: user name and
///   password for that device;
/// - nothing but a client certificate: the certificate alone;
/// - anything else fails.
pub open spec fn http_auth_plan(
    application: Option<Seq<char>>,
    device: Option<Seq<char>>,
    auth: Option<AuthValueModel>,
    has_certs: bool,
    certs: Seq<Vec<u8>>,
    as_device: Option<Seq<char>>,
) -> AuthPlanModel {
    match (application, device, auth, has_certs) {
        (
            None,
            None,
            Some(AuthValueModel::Basic { username: UsernameModel::Scoped { scope, device }, password }),
            false,
        ) => request_model(scope, device, CredentialModel::Password(password), as_device),
        (Some(scope), None, Some(AuthValueModel::Basic { username, password }), false) => {
            request_model(scope, username_text(username), CredentialModel::Password(password), as_device)
        },
        (Some(scope), Some(device), Some(AuthValueModel::Basic { username, password }), false) => {
            request_model(
                scope,
                device,
                CredentialModel::UsernamePassword { username: username_text(username), password },
                as_device,
            )
        },
        (
            None,
            Some(device),
            Some(AuthValueModel::Basic { username: UsernameModel::Scoped { scope, device: user }, password }),
            false,
        ) => request_model(
            scope,
            device,
            CredentialModel::UsernamePassword { username: user, password },
            as_device,
        ),
        (None, None, None, true) => AuthPlanModel::Certificate(certs),
        _ => AuthPlanModel::Fail,
    }
}

/// The optional header value, read.
pub open spec fn auth_of_header(h: Option<Seq<u8>>) -> Option<AuthValueModel> {
    match h {
        Some(h) => Some(auth_value_of(h)),
        None => None,
    }
}

/// The optional certificates, as a flag and a sequence.
pub open spec fn certs_of(c: Option<Vec<Vec<u8>>>) -> Seq<Vec<u8>> {
    match c {
        Some(c) => c@,
        None => Seq::empty(),
    }
}

/// Decides which authentication request a typical HTTP request asks for.
pub fn http_auth_plan_for(
    application: Option<String>,
    device: Option<String>,
    auth: Option<&[u8]>,
    certs: Option<Vec<Vec<u8>>>,
    as_device: Option<String>,
) -> (r: AuthPlan)
    ensures
        r@ == http_auth_plan(
            opt_view(application),
            opt_view(device),
            auth_of_header(
                match auth {
                    Some(h) => Some(h@),
                    None => None,
                },
            ),
            certs is Some,
            certs_of(certs),
            opt_view(as_device),
        ),
{
    let auth = match auth {
        Some(h) => Some(AuthValue::from_header(h)),
        None => None,
    };
    match (application, device, auth, certs) {
        (
            None,
            None,
            Some(AuthValue::Basic { username: Username::Scoped { scope, device }, password }),
            None,
        ) => AuthPlan::Request(
            AuthenticationRequest {
                application: scope,
                device,
                credential: Credential::Password(password),
                as_device,
            },
        ),
        (Some(scope), None, Some(AuthValue::Basic { username, password }), None) => AuthPlan::Request(
            AuthenticationRequest {
                application: scope,
                device: username.into_string(),
                credential: Credential::Password(password),
                as_device,
            },
        ),
        (Some(scope), Some(device), Some(AuthValue::Basic { username, password }), None) => {
            AuthPlan::Request(
                AuthenticationRequest {
                    application: scope,
                    device,
                    credential: Credential::UsernamePassword {
                        username: username.into_string(),
                        password,
                    },
                    as_device,
                },
            )
        },
        (
            None,
            Some(device),
            Some(
                AuthValue::Basic { username: Username::Scoped { scope, device: username }, password },
            ),
            None,
        ) => AuthPlan::Request(
            AuthenticationRequest {
                application: scope,
                device,
                credential: Credential::UsernamePassword { username, password },
                as_device,
            },
        ),
        (None, None, None, Some(certs)) => AuthPlan::Certificate(certs),
        _ => AuthPlan::Fail,
    }
}

/// Which request an MQTT connection asks for, from its user name, password, client id and
/// client certificates:
/// - user `<device>@<application>` and a password: a password for that device;
/// - a plain user name, a password and client id `<device>@<application>`: user name and
///   password for that device;
/// - neither user name nor password, but a client certificate: the certificate alone;
/// - anything else fails.
pub open spec fn mqtt_auth_plan(
    username: Option<Seq<char>>,
    password: Option<Seq<char>>,
    client_id: Seq<char>,
    has_certs: bool,
    certs: Seq<Vec<u8>>,
) -> AuthPlanModel {
    let user = match username {
        Some(u) => Some(username_of(u)),
        None => None,
    };
    match (user, password, username_of(client_id), has_certs) {
        (Some(UsernameModel::Scoped { scope, device }), Some(password), _, false) => request_model(
            scope,
            device,
            CredentialModel::Password(password),
            None,
        ),
        (
            Some(UsernameModel::NonScoped(username)),
            Some(password),
            UsernameModel::Scoped { scope, device },
            false,
        ) => request_model(
            scope,
            device,
            CredentialModel::UsernamePassword { username, password },
            None,
        ),
        (None, None, _, true) => AuthPlanModel::Certificate(certs),
        _ => AuthPlanModel::Fail,
    }
}

/// Decides which authentication request a typical MQTT connection asks for.
pub fn mqtt_auth_plan_for(
    username: Option<&str>,
    password: Option<String>,
    client_id: &str,
    certs: Option<Vec<Vec<u8>>>,
) -> (r: AuthPlan)
    ensures
        r@ == mqtt_auth_plan(
            match username {
                Some(u) => Some(u@),
                None => None,
            },
            opt_view(password),
            client_id@,
            certs is Some,
            certs_of(certs),
        ),
{
    let user = match username {
        Some(u) => Some(Username::from_name(u)),
        None => None,
    };
    match (user, password, Username::from_name(client_id), certs) {
        (Some(Username::Scoped { scope, device }), Some(password), _, None) => AuthPlan::Request(
            AuthenticationRequest {
                application: scope,
                device,
                credential: Credential::Password(password),
                as_device: None,
            },
        ),
        (
            Some(Username::NonScoped(username)),
            Some(password),
            Username::Scoped { scope, device },
            None,
        ) => AuthPlan::Request(
            AuthenticationRequest {
                application: scope,
                device,
                credential: Credential::UsernamePassword { username, password },
                as_device: None,
            },
        ),
        (None, None, _, Some(certs)) => AuthPlan::Certificate(certs),
        _ => AuthPlan::Fail,
    }
}

/// Which request a `<device>@<application>` / `<password>` login asks for: the name must
/// hold exactly one `@`, and both parts and the password must percent-decode to UTF-8.
pub open spec fn simple_auth_plan(name: Seq<char>, password: Seq<char>) -> AuthPlanModel {
    match split_once(name, '@') {
        Some((device, application)) => if application.contains('@') {
            AuthPlanModel::Fail
        } else {
            match (
                percent_decoded_strict(device),
                percent_decoded_strict(application),
                percent_decoded_strict(password),
            ) {
                (Some(device), Some(application), Some(password)) => request_model(
                    application,
                    device,
                    CredentialModel::Password(password),
                    None,
                ),
                _ => AuthPlanModel::Fail,
            }
        },
        None => AuthPlanModel::Fail,
    }
}

/// Decides which authentication request a `<device>@<application>` / `<password>` login
/// asks for.
pub fn simple_auth_plan_for(name: &str, password: &str) -> (r: AuthPlan)
    ensures
        r@ == simple_auth_plan(name@, password@),
{
    let cs = chars_of(name);
    match split_once_chars(&cs, '@') {
        Some((device, application)) => {
            if find_char(&application, '@').is_some() {
                return AuthPlan::Fail;
            }
            let device = percent_decode_strict(string_of(&device).as_str());
            let application = percent_decode_strict(string_of(&application).as_str());
            let password = percent_decode_strict(password);
            match (device, application, password) {
                (Some(device), Some(application), Some(password)) => AuthPlan::Request(
                    AuthenticationRequest {
                        application,
                        device,
                        credential: Credential::Password(password),
                        as_device: None,
                    },
                ),
                _ => AuthPlan::Fail,
            }
        },
        None => AuthPlan::Fail,
    }
}


/// The application and device that a request was authenticated as.
#[derive(Debug, PartialEq, Eq)]
pub struct DeviceAuthDetails {
    pub app: crate::registry::Application,
    pub device: crate::registry::Device,
}

/// The configuration of the client of the authentication service.
#[derive(Clone, Debug, PartialEq, Eq)]
pub struct AuthConfig {
    /// Disable authenticating towards the authentication service.
    pub auth_disabled: bool,
    /// The URL of the authentication service.
    pub auth_service_url: String,
}

/// The client of the authentication service: the URL it calls, and whether it
/// authenticates itself with an OAuth2 token.
#[derive(Clone, Debug, PartialEq, Eq)]
pub struct DeviceAuthenticator {
    pub auth_url: String,
    pub token_auth: bool,
}

/// How the client is configured: the authentication URL is `/api/v1/auth` below the
/// service's URL; with authentication enabled the client uses a token and needs a token
/// configuration, with it disabled it uses none and must be given none; asking for
/// authentication without a configuration, or giving one without asking, is an error.
pub open spec fn authenticator_of(config: AuthConfig, has_token_config: bool) -> Result<
    (Seq<char>, bool),
    Seq<char>,
> {
    match crate::urls::url_parsed(config.auth_service_url@) {
        Err(_) => Err("Failed to parse URL for auth service"@),
        Ok(base) => match crate::urls::url_joined(base, "/api/v1/auth"@) {
            Err(_) => Err("Failed to build auth URL from base URL"@),
            Ok(url) => if !config.auth_disabled {
                if has_token_config {
                    Ok((url, true))
                } else {
                    Err("Requested OAuth2 authentication without providing a configuration"@)
                }
            } else if has_token_config {
                Err("Provided an OAuth2 configuration without requesting authentication"@)
            } else {
                Ok((url, false))
            },
        },
    }
}

impl DeviceAuthenticator {
    /// The client for a configuration; `has_token_config` tells whether a token
    /// configuration is given.
    pub fn with_config(config: AuthConfig, has_token_config: bool) -> (r: Result<
        DeviceAuthenticator,
        String,
    >)
        ensures
            match r {
                Ok(a) => authenticator_of(config, has_token_config) == Ok::<
                    (Seq<char>, bool),
                    Seq<char>,
                >((a.auth_url@, a.token_auth)),
                Err(e) => authenticator_of(config, has_token_config) == Err::<
                    (Seq<char>, bool),
                    Seq<char>,
                >(e@),
            },
    {
        let base = match crate::urls::parse_url(config.auth_service_url.as_str()) {
            Ok(u) => u,
            Err(_) => {
                return Err("Failed to parse URL for auth service".to_owned());
            },
        };
        let url = match crate::urls::join_url(base.as_str(), "/api/v1/auth") {
            Ok(u) => u,
            Err(_) => {
                return Err("Failed to build auth URL from base URL".to_owned());
            },
        };
        if !config.auth_disabled {
            if has_token_config {
                Ok(DeviceAuthenticator { auth_url: url, token_auth: true })
            } else {
                Err("Requested OAuth2 authentication without providing a configuration".to_owned())
            }
        } else if has_token_config {
            Err("Provided an OAuth2 configuration without requesting authentication".to_owned())
        } else {
            Ok(DeviceAuthenticator { auth_url: url, token_auth: false })
        }
    }
}


/// Name for what parsing a DER encoded X.509 certificate with
/// `x509_parser::parse_x509_certificate` gives: the text of its issuer and subject names,
/// or the text of the parse error.
pub uninterp spec fn x509_names(der: Seq<u8>) -> Result<(Seq<char>, Seq<char>), Seq<char>>;

/// Calls `x509_parser::parse_x509_certificate` on `der`; gives the issuer's and the
/// subject's name as the certificate's `Display` writes them, or the error's text, as the
/// name states.
#[verifier::external_body]
fn certificate_names(der: &[u8]) -> (r: Result<(String, String), String>)
    ensures
        match r {
            Ok((issuer, subject)) => x509_names(der@) == Ok::<
                (Seq<char>, Seq<char>),
                Seq<char>,
            >((issuer@, subject@)),
            Err(e) => x509_names(der@) == Err::<(Seq<char>, Seq<char>), Seq<char>>(e@),
        },
{
    match x509_parser::parse_x509_certificate(der) {
        Ok((_, cert)) => Ok(
            (cert.tbs_certificate.issuer.to_string(), cert.tbs_certificate.subject.to_string()),
        ),
        Err(e) => Err(e.to_string()),
    }
}

/// An error of the client of the authentication service.
#[derive(Clone, Debug, PartialEq, Eq)]
pub enum ClientError {
    /// The request could not be made; why.
    Request(String),
}

/// The application and device that a certificate chain names: the issuer and the subject
/// of the device's (the first) certificate.
pub open spec fn ids_of_certs(certs: Seq<Vec<u8>>) -> Result<(Seq<char>, Seq<char>), Seq<char>> {
    if certs.len() == 0 {
        Err("Empty client certificate chain"@)
    } else {
        match x509_names(certs[0]@) {
            Ok(names) => Ok(names),
            Err(e) => Err("Failed to parse client certificate: "@ + e),
        }
    }
}

impl DeviceAuthenticator {
    /// The application and device that a certificate chain names.
    pub fn ids_from_cert(certs: &[Vec<u8>]) -> (r: Result<(String, String), ClientError>)
        ensures
            match r {
                Ok((a, d)) => ids_of_certs(certs@) == Ok::<(Seq<char>, Seq<char>), Seq<char>>(
                    (a@, d@),
                ),
                Err(ClientError::Request(m)) => ids_of_certs(certs@) == Err::<
                    (Seq<char>, Seq<char>),
                    Seq<char>,
                >(m@),
            },
    {
        if certs.len() == 0 {
            return Err(ClientError::Request("Empty client certificate chain".to_owned()));
        }
        match certificate_names(certs[0].as_slice()) {
            Ok(names) => Ok(names),
            Err(e) => Err(
                ClientError::Request(concat("Failed to parse client certificate: ", e.as_str())),
            ),
        }
    }

    /// The request that authenticates a device by its certificate chain alone: the
    /// application and device that the chain names, the chain as credential.
    pub fn certificate_request(certs: Vec<Vec<u8>>) -> (r: Result<AuthenticationRequest, ClientError>)
        ensures
            match r {
                Ok(req) => ids_of_certs(certs@) == Ok::<(Seq<char>, Seq<char>), Seq<char>>(
                    (req.application@, req.device@),
                ) && req.credential@ == CredentialModel::Certificate(certs@)
                    && req.as_device is None,
                Err(ClientError::Request(m)) => ids_of_certs(certs@) == Err::<
                    (Seq<char>, Seq<char>),
                    Seq<char>,
                >(m@),
            },
    {
        let (application, device) = match DeviceAuthenticator::ids_from_cert(certs.as_slice()) {
            Ok(ids) => ids,
            Err(e) => {
                return Err(e);
            },
        };
        Ok(
            AuthenticationRequest {
                application,
                device,
                credential: Credential::Certificate(certs),
                as_device: None,
            },
        )
    }
}

} // verus!
