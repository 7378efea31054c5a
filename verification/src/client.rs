use crate::error::TransportError;
use crate::model::{LoginData, Response};
use vstd::prelude::*;
use vstd::string::*;

verus! {

/// The HTTP method of a request.
#[derive(Debug, Clone, Copy, PartialEq, Eq, Structural)]
pub enum Method {
    Get,
    Post,
}

/// The document that a request carries.
#[derive(Debug, PartialEq, Eq)]
pub enum Body {
    /// The credentials of a login.
    Login { username: String, password: String },
    /// A text message to send through the modem `modem`.
    SendSms { number: String, message: String, modem: String },
}

/// A request to the router, ready to be sent.
#[derive(Debug, PartialEq, Eq)]
pub struct Request {
    pub method: Method,
    pub url: String,
    /// The bearer token to authorise the request with, where the client is
    /// logged in.
    pub bearer: Option<String>,
    pub body: Option<Body>,
}

/// The address of the endpoint `path` on the router `host`.
pub open spec fn api_url(host: Seq<char>, path: Seq<char>) -> Seq<char> {
    "https://"@ + host + "/api"@ + path
}

/// The characters of a token, where there is one.
pub open spec fn token_view(token: Option<String>) -> Option<Seq<char>> {
    match token {
        Some(token) => Some(token@),
        None => None,
    }
}

/// The characters of the token of a login, where there is one.
pub open spec fn token_of(login: Option<LoginData>) -> Option<Seq<char>> {
    match login {
        Some(data) => Some(data.token@),
        None => None,
    }
}

/// The login that a client holds after the outcome of a login request: what
/// the reply carries, or, where the request failed, what the client held.
pub open spec fn login_after(
    held: Option<LoginData>,
    outcome: Result<Response<LoginData>, TransportError>,
) -> Option<LoginData> {
    match outcome {
        Ok(response) => response.data,
        Err(_) => held,
    }
}

/// A client of the router's management interface. It holds the router's
/// address and the token of the last login, and words each call as a
/// [`Request`]; sending is left to the caller.
pub struct TeltonikaClient {
    host: String,
    auth: Option<LoginData>,
}

impl TeltonikaClient {
    /// The address of the router.
    pub closed spec fn host(&self) -> Seq<char> {
        self.host@
    }

    /// What the last login returned, where there was one.
    pub closed spec fn auth(&self) -> Option<LoginData> {
        self.auth
    }

    /// The token of the last login, where there was one.
    pub open spec fn token(&self) -> Option<Seq<char>> {
        token_of(self.auth())
    }

    /// A client for the router at `host`, not logged in.
    pub fn new(host: String) -> (client: Self)
        ensures
            client.host() == host@,
            client.auth() is None,
    {
        TeltonikaClient { host, auth: None }
    }

    /// Whether the client holds a token.
    pub fn is_authenticated(&self) -> (held: bool)
        ensures
            held == self.token() is Some,
    {
        self.auth.is_some()
    }

    /// Takes in the outcome of a login request and hands it back. A reply
    /// replaces what the client holds by what it carries: the new login, or
    /// none where it carries none. A request that failed leaves the client
    /// as it was.
    pub fn authenticate(&mut self, outcome: Result<Response<LoginData>, TransportError>) -> (result:
        Result<Response<LoginData>, TransportError>)
        ensures
            final(self).host() == old(self).host(),
            final(self).auth() == login_after(old(self).auth(), outcome),
            result == outcome,
    {
        match &outcome {
            Ok(response) => {
                self.auth = match &response.data {
                    Some(data) => Some(
                        LoginData {
                            username: data.username.clone(),
                            token: data.token.clone(),
                            expires: data.expires,
                        },
                    ),
                    None => None,
                };
            },
            Err(_) => {},
        }
        outcome
    }

    fn url(&self, path: &str) -> (url: String)
        ensures
            url@ == api_url(self.host(), path@),
    {
        let mut url = String::from_str("https://");
        url.append(self.host.as_str());
        url.append("/api");
        url.append(path);
        url
    }

    fn bearer(&self) -> (bearer: Option<String>)
        ensures
            token_view(bearer) == self.token(),
    {
        match &self.auth {
            Some(data) => Some(data.token.clone()),
            None => None,
        }
    }

    /// A POST request to the endpoint `path`, with the held token.
    pub fn post(&self, path: &str, body: Option<Body>) -> (request: Request)
        ensures
            request.method == Method::Post,
            request.url@ == api_url(self.host(), path@),
            token_view(request.bearer) == self.token(),
            request.body == body,
    {
        Request { method: Method::Post, url: self.url(path), bearer: self.bearer(), body }
    }

    /// A GET request to the endpoint `path`, with the held token.
    pub fn get(&self, path: &str) -> (request: Request)
        ensures
            request.method == Method::Get,
            request.url@ == api_url(self.host(), path@),
            token_view(request.bearer) == self.token(),
            request.body is None,
    {
        Request { method: Method::Get, url: self.url(path), bearer: self.bearer(), body: None }
    }

    /// Asks whether the session is live.
    pub fn session_status(&self) -> (request: Request)
        ensures
            request.method == Method::Get,
            request.url@ == api_url(self.host(), "/session/status"@),
            token_view(request.bearer) == self.token(),
            request.body is None,
    {
        self.get("/session/status")
    }

    /// Logs in with the given credentials.
    pub fn login(&self, username: &str, password: &str) -> (request: Request)
        ensures
            request.method == Method::Post,
            request.url@ == api_url(self.host(), "/login"@),
            token_view(request.bearer) == self.token(),
            request.body matches Some(Body::Login { username: name, password: word })
                && name@ == username@ && word@ == password@,
    {
        let body = Body::Login {
            username: String::from_str(username),
            password: String::from_str(password),
        };
        self.post("/login", Some(body))
    }

    /// Asks for the IPv4 DHCP leases.
    pub fn dhcp_leases_ipv4_status(&self) -> (request: Request)
        ensures
            request.method == Method::Get,
            request.url@ == api_url(self.host(), "/dhcp/leases/ipv4/status"@),
            token_view(request.bearer) == self.token(),
            request.body is None,
    {
        self.get("/dhcp/leases/ipv4/status")
    }

    /// Asks for the IPv6 DHCP leases.
    pub fn dhcp_leases_ipv6_status(&self) -> (request: Request)
        ensures
            request.method == Method::Get,
            request.url@ == api_url(self.host(), "/dhcp/leases/ipv6/status"@),
            token_view(request.bearer) == self.token(),
            request.body is None,
    {
        self.get("/dhcp/leases/ipv6/status")
    }

    /// Asks which firmware the router runs.
    pub fn firmware_device_status(&self) -> (request: Request)
        ensures
            request.method == Method::Get,
            request.url@ == api_url(self.host(), "/firmware/device/status"@),
            token_view(request.bearer) == self.token(),
            request.body is None,
    {
        self.get("/firmware/device/status")
    }

    /// Starts the download of a firmware update over the air.
    pub fn firmware_actions_fota_download(&self) -> (request: Request)
        ensures
            request.method == Method::Post,
            request.url@ == api_url(self.host(), "/firmware/actions/fota_download"@),
            token_view(request.bearer) == self.token(),
            request.body is None,
    {
        self.post("/firmware/actions/fota_download", None)
    }

    /// Asks for the last GPS fix.
    pub fn gps_position_status(&self) -> (request: Request)
        ensures
            request.method == Method::Get,
            request.url@ == api_url(self.host(), "/gps/position/status"@),
            token_view(request.bearer) == self.token(),
            request.body is None,
    {
        self.get("/gps/position/status")
    }

    /// Asks for the radios of the router.
    pub fn wireless_devices_status(&self) -> (request: Request)
        ensures
            request.method == Method::Get,
            request.url@ == api_url(self.host(), "/wireless/devices/status"@),
            token_view(request.bearer) == self.token(),
            request.body is None,
    {
        self.get("/wireless/devices/status")
    }

    /// Asks for the wireless interfaces of the router.
    pub fn wireless_interfaces_status(&self) -> (request: Request)
        ensures
            request.method == Method::Get,
            request.url@ == api_url(self.host(), "/wireless/interfaces/status"@),
            token_view(request.bearer) == self.token(),
            request.body is None,
    {
        self.get("/wireless/interfaces/status")
    }

    /// Asks for the IPv4 neighbour table.
    pub fn ip_neighbors_ipv4_status(&self) -> (request: Request)
        ensures
            request.method == Method::Get,
            request.url@ == api_url(self.host(), "/ip_neighbors/ipv4/status"@),
            token_view(request.bearer) == self.token(),
            request.body is None,
    {
        self.get("/ip_neighbors/ipv4/status")
    }

    /// Asks for the text messages in the modem's store.
    pub fn list_sms_messages(&self) -> (request: Request)
        ensures
            request.method == Method::Get,
            request.url@ == api_url(self.host(), "/messages/status"@),
            token_view(request.bearer) == self.token(),
            request.body is None,
    {
        self.get("/messages/status")
    }

    /// Sends the text `message` to `number` through the modem `2-1`.
    pub fn send_sms_message(&self, number: &str, message: &str) -> (request: Request)
        ensures
            request.method == Method::Post,
            request.url@ == api_url(self.host(), "/messages/actions/send"@),
            token_view(request.bearer) == self.token(),
            request.body matches Some(Body::SendSms { number: to, message: text, modem })
                && to@ == number@ && text@ == message@ && modem@ == "2-1"@,
    {
        let body = Body::SendSms {
            number: String::from_str(number),
            message: String::from_str(message),
            modem: String::from_str("2-1"),
        };
        self.post("/messages/actions/send", Some(body))
    }
}

} // verus!
