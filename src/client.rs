//! The authenticated session with the gateway and its four calls.
//!
//! Nothing here touches the network: a [`Client`] says what request to send
//! next ([`RpcRequest`]) and reads what came back ([`RpcResponse`]). The
//! caller does the sending.

use vstd::prelude::*;
use crate::json::{Json, parsed_json, parse_json, member, get_member, take_member};
use crate::status::{Status, status_of};
use crate::wan::{WANConfiguration, wan_of};
use crate::devices::{Device, devices_of};
use crate::metrics::{Metrics, TrafficData, interfaces_of};

verus! {

/// Why a step of the session failed.
#[derive(Debug, Clone, Copy, PartialEq, Eq)]
pub enum ClientError {
    /// The request did not reach the gateway, or its answer was lost.
    Transport,
    /// Login was refused: the gateway set no cookie, or answered with a
    /// status other than 0 (`Some(status)` where that is an unsigned number).
    AuthenticationFailure(Option<u64>),
    /// An authenticated call was attempted while logged out.
    PreconditionViolation,
    /// The answer was no JSON, or not of the shape that the call expects.
    ProtocolDecode,
    /// The gateway answered an otherwise well-formed call with this non-2xx
    /// HTTP status.
    HttpStatus(u16),
}

/// One HTTP POST to the gateway's RPC endpoint.
#[derive(Debug, Clone)]
pub struct RpcRequest {
    pub url: String,
    /// `Content-Type` header.
    pub content_type: Option<String>,
    /// `Authorization` header.
    pub authorization: Option<String>,
    /// `X-Context` header.
    pub context: Option<String>,
    /// `Cookie` header.
    pub cookie: Option<String>,
    pub body: String,
}

/// What the gateway answered to an [`RpcRequest`].
#[derive(Debug, Clone)]
pub struct RpcResponse {
    /// HTTP status code.
    pub status_code: u16,
    /// Every `Set-Cookie` header, in order.
    pub set_cookies: Vec<String>,
    pub body: Vec<u8>,
}

/// The four data calls of the gateway.
#[derive(Debug, Clone, Copy, PartialEq, Eq)]
pub enum Call {
    Status,
    WanConfig,
    Devices,
    Metrics,
}

/// A session with one gateway: its address and credentials, and the cookies
/// and context token of a login. `context_id` is `Some` from a successful
/// login until the next logout.
#[derive(Debug, Clone)]
pub struct Client {
    pub ip: String,
    pub username: String,
    pub password: String,
    pub cookies: Vec<String>,
    pub context_id: Option<String>,
}

/// `s` quoted as a JSON string by `serde_json`.
pub uninterp spec fn json_quoted(s: Seq<char>) -> Seq<char>;

/// Relies on `serde_json::Value::String` and its `Display`: `s` as a JSON
/// string literal, quotes and escapes included.
#[verifier::external_body]
fn json_quote(s: &str) -> (r: String)
    ensures
        r@ == json_quoted(s@),
{
    serde_json::Value::String(s.to_string()).to_string()
}

/// The name and value of the first pair of the `Set-Cookie` header `h`, as
/// `cookie` parses it; `None` where it does not parse.
pub uninterp spec fn cookie_pair(h: Seq<char>) -> Option<(Seq<char>, Seq<char>)>;

/// Relies on `cookie::Cookie::parse` and its `name` and `value`.
#[verifier::external_body]
fn parse_cookie(h: &str) -> (r: Option<(String, String)>)
    ensures
        match r {
            Some(p) => cookie_pair(h@) == Some((p.0@, p.1@)),
            None => cookie_pair(h@) is None,
        },
{
    cookie::Cookie::parse(h).ok().map(|c| (c.name().to_string(), c.value().to_string()))
}

pub open spec fn content_type_text() -> Seq<char> {
    "application/x-sah-ws-4-call+json"@
}

/// The JSON text of one call: `{"method":M,"parameters":P,"service":S}`.
pub open spec fn rpc_body_text(service: Seq<char>, method: Seq<char>, parameters: Seq<char>) -> Seq<char> {
    "{\"method\":"@ + json_quoted(method) + ",\"parameters\":"@ + parameters + ",\"service\":"@
        + json_quoted(service) + "}"@
}

/// The parameters of a login with these credentials.
pub open spec fn login_parameters(username: Seq<char>, password: Seq<char>) -> Seq<char> {
    "{\"applicationName\":\"so_sdkut\",\"password\":"@ + json_quoted(password) + ",\"username\":"@
        + json_quoted(username) + "}"@
}

pub open spec fn endpoint_text(ip: Seq<char>) -> Seq<char> {
    "http://"@ + ip + "/ws"@
}

/// The cookies `c` as one `Cookie` header: joined by `"; "`.
pub open spec fn join_cookies(c: Seq<Seq<char>>) -> Seq<char>
    decreases c.len(),
{
    if c.len() == 0 {
        Seq::empty()
    } else if c.len() == 1 {
        c[0]
    } else {
        join_cookies(c.drop_last()) + "; "@ + c.last()
    }
}

pub open spec fn texts(v: Seq<String>) -> Seq<Seq<char>> {
    v.map_values(|s: String| s@)
}

/// A cookie as `name=value`.
pub open spec fn pair_text(p: (Seq<char>, Seq<char>)) -> Seq<char> {
    p.0 + "="@ + p.1
}

/// Each `Set-Cookie` header of `h` as its `name=value` pair, in order; `None`
/// where one does not parse.
pub open spec fn cookie_pairs(h: Seq<String>) -> Option<Seq<Seq<char>>> {
    if forall|i: int| 0 <= i < h.len() ==> (#[trigger] cookie_pair(h[i]@)) is Some {
        Some(
            h.map_values(|s: String| pair_text(cookie_pair(s@)->0)),
        )
    } else {
        None
    }
}

/// What a login answer gives: the cookies that it sets and the context token,
/// or the error.
pub open spec fn login_outcome(resp: RpcResponse) -> Result<(Seq<Seq<char>>, String), ClientError> {
    match cookie_pairs(resp.set_cookies@) {
        None => Err(ClientError::ProtocolDecode),
        Some(c) => if c.len() == 0 {
            Err(ClientError::AuthenticationFailure(None))
        } else {
            match parsed_json(resp.body@) {
                None => Err(ClientError::ProtocolDecode),
                Some(j) => match member(j, "status"@) {
                    None => Err(ClientError::ProtocolDecode),
                    Some(Json::Number(Some(n))) => if n != 0 {
                        Err(ClientError::AuthenticationFailure(Some(n)))
                    } else {
                        match member(j, "data"@) {
                            Some(d) => match member(d, "contextID"@) {
                                Some(Json::Text(ctx)) => Ok((c, ctx)),
                                _ => Err(ClientError::ProtocolDecode),
                            },
                            None => Err(ClientError::ProtocolDecode),
                        }
                    },
                    Some(_) => Err(ClientError::AuthenticationFailure(None)),
                },
            }
        },
    }
}

/// The JSON document of a data call's answer: the body must be JSON, and the
/// HTTP status a success.
pub open spec fn response_json(resp: RpcResponse) -> Result<Json, ClientError> {
    match parsed_json(resp.body@) {
        None => Err(ClientError::ProtocolDecode),
        Some(j) => if 200 <= resp.status_code < 300 {
            Ok(j)
        } else {
            Err(ClientError::HttpStatus(resp.status_code))
        },
    }
}

/// The JSON node under `key` of a data call's answer; JSON's `null` where the
/// answer has no such key.
pub open spec fn response_member(resp: RpcResponse, key: Seq<char>) -> Result<Json, ClientError> {
    match response_json(resp) {
        Err(e) => Err(e),
        Ok(j) => match member(j, key) {
            Some(v) => Ok(v),
            None => Ok(Json::Null),
        },
    }
}

pub open spec fn status_response(resp: RpcResponse) -> Result<Status, ClientError> {
    match response_member(resp, "status"@) {
        Err(e) => Err(e),
        Ok(v) => match status_of(v) {
            Some(s) => Ok(s),
            None => Err(ClientError::ProtocolDecode),
        },
    }
}

pub open spec fn wan_response(resp: RpcResponse) -> Result<WANConfiguration, ClientError> {
    match response_member(resp, "data"@) {
        Err(e) => Err(e),
        Ok(v) => match wan_of(v) {
            Some(w) => Ok(w),
            None => Err(ClientError::ProtocolDecode),
        },
    }
}

pub open spec fn devices_response(resp: RpcResponse) -> Result<Seq<Device>, ClientError> {
    match response_member(resp, "status"@) {
        Err(e) => Err(e),
        Ok(Json::Array(a)) => match devices_of(a@) {
            Some(d) => Ok(d),
            None => Err(ClientError::ProtocolDecode),
        },
        Ok(_) => Err(ClientError::ProtocolDecode),
    }
}

pub open spec fn metrics_response(resp: RpcResponse) -> Result<Seq<(String, Seq<TrafficData>)>, ClientError> {
    match response_member(resp, "status"@) {
        Err(e) => Err(e),
        Ok(Json::Object(o)) => match interfaces_of(o@) {
            Some(s) => Ok(s),
            None => Err(ClientError::ProtocolDecode),
        },
        Ok(_) => Err(ClientError::ProtocolDecode),
    }
}

impl Call {
    pub open spec fn service(self) -> Seq<char> {
        match self {
            Call::Status => "DeviceInfo"@,
            Call::WanConfig => "NMC"@,
            Call::Devices => "Devices"@,
            Call::Metrics => "HomeLan"@,
        }
    }

    pub open spec fn method(self) -> Seq<char> {
        match self {
            Call::Status => "get"@,
            Call::WanConfig => "getWANStatus"@,
            Call::Devices => "get"@,
            Call::Metrics => "getResults"@,
        }
    }

    pub open spec fn parameters(self) -> Seq<char> {
        match self {
            Call::Metrics => "{\"NumberOfReadings\":1,\"Seconds\":0}"@,
            _ => "{}"@,
        }
    }
}

pub open spec fn opt_text(o: Option<String>) -> Option<Seq<char>> {
    match o {
        Some(s) => Some(s@),
        None => None,
    }
}

/// `s` followed by `t`.
fn cat(s: String, t: &str) -> (r: String)
    ensures
        r@ == s@ + t@,
{
    s.concat(t)
}

/// The JSON text of one call.
pub fn rpc_body(service: &str, method: &str, parameters: &str) -> (r: String)
    ensures
        r@ == rpc_body_text(service@, method@, parameters@),
{
    let m = json_quote(method);
    let s = json_quote(service);
    let b = cat(String::from_str("{\"method\":"), m.as_str());
    let b = cat(b, ",\"parameters\":");
    let b = cat(b, parameters);
    let b = cat(b, ",\"service\":");
    let b = cat(b, s.as_str());
    cat(b, "}")
}

/// The JSON document under `key` of a data call's answer.
fn answer_member(resp: &RpcResponse, key: &str) -> (r: Result<Json, ClientError>)
    ensures
        r == response_member(*resp, key@),
{
    let j = match parse_json(resp.body.as_slice()) {
        Some(j) => j,
        None => return Err(ClientError::ProtocolDecode),
    };
    if !(200 <= resp.status_code && resp.status_code < 300) {
        return Err(ClientError::HttpStatus(resp.status_code));
    }
    match take_member(j, key) {
        Some(v) => Ok(v),
        None => Ok(Json::Null),
    }
}

impl Client {
    /// A logged-out session as user `admin` with the gateway at the default
    /// address `192.168.1.1`.
    pub fn new(password: &str) -> (r: Client)
        requires
            password@.len() > 0,
        ensures
            r.ip@ == "192.168.1.1"@,
            r.username@ == "admin"@,
            r.password@ == password@,
            r.cookies@.len() == 0,
            r.context_id is None,
    {
        Client {
            ip: String::from_str("192.168.1.1"),
            username: String::from_str("admin"),
            password: String::from_str(password),
            cookies: Vec::new(),
            context_id: None,
        }
    }

    /// The URL of the gateway's RPC endpoint.
    pub fn endpoint(&self) -> (r: String)
        ensures
            r@ == endpoint_text(self.ip@),
    {
        cat(cat(String::from_str("http://"), self.ip.as_str()), "/ws")
    }

    /// The session's cookies as one `Cookie` header.
    pub fn cookie_header(&self) -> (r: String)
        ensures
            r@ == join_cookies(texts(self.cookies@)),
    {
        let mut r = String::new();
        let mut i: usize = 0;
        while i < self.cookies.len()
            invariant
                i <= self.cookies@.len(),
                r@ == join_cookies(texts(self.cookies@.subrange(0, i as int))),
            decreases self.cookies@.len() - i,
        {
            let ghost prev = texts(self.cookies@.subrange(0, i as int));
            let ghost next = texts(self.cookies@.subrange(0, i + 1));
            assert(next.drop_last() == prev);
            assert(next.last() == self.cookies@[i as int]@);
            if i > 0 {
                r = cat(r, "; ");
            }
            r = cat(r, self.cookies[i].as_str());
            i = i + 1;
        }
        assert(self.cookies@.subrange(0, self.cookies@.len() as int) == self.cookies@);
        r
    }

    /// The request that opens a session.
    pub fn login_request(&self) -> (r: RpcRequest)
        ensures
            r.url@ == endpoint_text(self.ip@),
            opt_text(r.content_type) == Some(content_type_text()),
            opt_text(r.authorization) == Some("X-Sah-Login"@),
            r.context is None,
            r.cookie is None,
            r.body@ == rpc_body_text(
                "sah.Device.Information"@,
                "createContext"@,
                login_parameters(self.username@, self.password@),
            ),
    {
        let pw = json_quote(self.password.as_str());
        let user = json_quote(self.username.as_str());
        let p = cat(String::from_str("{\"applicationName\":\"so_sdkut\",\"password\":"), pw.as_str());
        let p = cat(p, ",\"username\":");
        let p = cat(p, user.as_str());
        let p = cat(p, "}");
        RpcRequest {
            url: self.endpoint(),
            content_type: Some(String::from_str("application/x-sah-ws-4-call+json")),
            authorization: Some(String::from_str("X-Sah-Login")),
            context: None,
            cookie: None,
            body: rpc_body("sah.Device.Information", "createContext", p.as_str()),
        }
    }

    /// Reads the answer to [`Client::login_request`]. Every `Set-Cookie`
    /// header is kept as `name=value`, after the cookies already held; at
    /// least one is needed. The body must be JSON with `status` 0 (any other
    /// status is an authentication failure) and a `data.contextID`, which
    /// becomes the session's context. On an error the session is left as it
    /// was.
    pub fn login(&mut self, resp: &RpcResponse) -> (r: Result<(), ClientError>)
        ensures
            match login_outcome(*resp) {
                Ok((c, ctx)) => r is Ok
                    && final(self).ip == old(self).ip
                    && final(self).username == old(self).username
                    && final(self).password == old(self).password
                    && texts(final(self).cookies@) == texts(old(self).cookies@) + c
                    && final(self).context_id == Some(ctx),
                Err(e) => r == Err::<(), ClientError>(e) && *final(self) == *old(self),
            },
    {
        let h = &resp.set_cookies;
        let mut parsed: Vec<String> = Vec::new();
        let mut i: usize = 0;
        while i < h.len()
            invariant
                *self == *old(self),
                h == &resp.set_cookies,
                i <= h@.len(),
                parsed@.len() == i,
                forall|m: int| 0 <= m < i ==> (#[trigger] cookie_pair(h@[m]@)) is Some,
                forall|m: int| 0 <= m < i ==> #[trigger] parsed@[m]@ == pair_text(cookie_pair(h@[m]@)->0),
            decreases h@.len() - i,
        {
            match parse_cookie(h[i].as_str()) {
                Some(p) => {
                    let t = cat(cat(p.0, "="), p.1.as_str());
                    parsed.push(t);
                },
                None => {
                    assert(!(cookie_pair(h@[i as int]@) is Some));
                    return Err(ClientError::ProtocolDecode);
                },
            }
            i = i + 1;
        }
        let ghost c = h@.map_values(|s: String| pair_text(cookie_pair(s@)->0));
        assert(cookie_pairs(h@) == Some(c));
        assert(texts(parsed@) =~= c);
        if parsed.len() == 0 {
            return Err(ClientError::AuthenticationFailure(None));
        }
        let j = match parse_json(resp.body.as_slice()) {
            Some(j) => j,
            None => return Err(ClientError::ProtocolDecode),
        };
        match get_member(&j, "status") {
            None => return Err(ClientError::ProtocolDecode),
            Some(Json::Number(Some(n))) => {
                if *n != 0 {
                    return Err(ClientError::AuthenticationFailure(Some(*n)));
                }
            },
            Some(_) => return Err(ClientError::AuthenticationFailure(None)),
        }
        let ctx = match get_member(&j, "data") {
            Some(d) => match get_member(d, "contextID") {
                Some(Json::Text(ctx)) => ctx.clone(),
                _ => return Err(ClientError::ProtocolDecode),
            },
            None => return Err(ClientError::ProtocolDecode),
        };
        let ghost before = self.cookies@;
        let mut k: usize = 0;
        while k < parsed.len()
            invariant
                self.ip == old(self).ip,
                self.username == old(self).username,
                self.password == old(self).password,
                k <= parsed@.len(),
                self.cookies@ == before + parsed@.subrange(0, k as int),
            decreases parsed@.len() - k,
        {
            self.cookies.push(parsed[k].clone());
            assert(parsed@.subrange(0, k + 1) == parsed@.subrange(0, k as int).push(parsed@[k as int]));
            k = k + 1;
        }
        assert(parsed@.subrange(0, parsed@.len() as int) == parsed@);
        assert(texts(self.cookies@) =~= texts(before) + texts(parsed@));
        self.context_id = Some(ctx);
        Ok(())
    }

    /// A call made within the session: it carries the context token and the
    /// cookies. Logged out, it is refused.
    pub fn authenticated_request(&self, service: &str, method: &str, parameters: &str) -> (r: Result<RpcRequest, ClientError>)
        ensures
            match self.context_id {
                None => r == Err::<RpcRequest, ClientError>(ClientError::PreconditionViolation),
                Some(ctx) => r matches Ok(q)
                    && q.url@ == endpoint_text(self.ip@)
                    && opt_text(q.content_type) == Some(content_type_text())
                    && q.authorization is None
                    && opt_text(q.context) == Some(ctx@)
                    && opt_text(q.cookie) == Some(join_cookies(texts(self.cookies@)))
                    && q.body@ == rpc_body_text(service@, method@, parameters@),
            },
    {
        match &self.context_id {
            None => Err(ClientError::PreconditionViolation),
            Some(ctx) => Ok(
                RpcRequest {
                    url: self.endpoint(),
                    content_type: Some(String::from_str("application/x-sah-ws-4-call+json")),
                    authorization: None,
                    context: Some(ctx.clone()),
                    cookie: Some(self.cookie_header()),
                    body: rpc_body(service, method, parameters),
                },
            ),
        }
    }

    /// The request of one of the four data calls.
    pub fn call_request(&self, call: Call) -> (r: Result<RpcRequest, ClientError>)
        ensures
            match self.context_id {
                None => r == Err::<RpcRequest, ClientError>(ClientError::PreconditionViolation),
                Some(ctx) => r matches Ok(q)
                    && q.url@ == endpoint_text(self.ip@)
                    && opt_text(q.content_type) == Some(content_type_text())
                    && q.authorization is None
                    && opt_text(q.context) == Some(ctx@)
                    && opt_text(q.cookie) == Some(join_cookies(texts(self.cookies@)))
                    && q.body@ == rpc_body_text(call.service(), call.method(), call.parameters()),
            },
    {
        match call {
            Call::Status => self.authenticated_request("DeviceInfo", "get", "{}"),
            Call::WanConfig => self.authenticated_request("NMC", "getWANStatus", "{}"),
            Call::Devices => self.authenticated_request("Devices", "get", "{}"),
            Call::Metrics => self.authenticated_request("HomeLan", "getResults", "{\"NumberOfReadings\":1,\"Seconds\":0}"),
        }
    }

    /// The request that releases the session's context. Logged out, it is
    /// refused.
    pub fn logout_request(&self) -> (r: Result<RpcRequest, ClientError>)
        ensures
            match self.context_id {
                None => r == Err::<RpcRequest, ClientError>(ClientError::PreconditionViolation),
                Some(ctx) => r matches Ok(q)
                    && q.url@ == endpoint_text(self.ip@)
                    && q.content_type is None
                    && opt_text(q.authorization) == Some("X-Sah-Logout "@ + ctx@)
                    && q.context is None
                    && opt_text(q.cookie) == Some(join_cookies(texts(self.cookies@)))
                    && q.body@ == rpc_body_text(
                        "sah.Device.Information"@,
                        "releaseContext"@,
                        "{\"applicationName\":\"so_sdkut\"}"@,
                    ),
            },
    {
        match &self.context_id {
            None => Err(ClientError::PreconditionViolation),
            Some(ctx) => Ok(
                RpcRequest {
                    url: self.endpoint(),
                    content_type: None,
                    authorization: Some(cat(String::from_str("X-Sah-Logout "), ctx.as_str())),
                    context: None,
                    cookie: Some(self.cookie_header()),
                    body: rpc_body(
                        "sah.Device.Information",
                        "releaseContext",
                        "{\"applicationName\":\"so_sdkut\"}",
                    ),
                },
            ),
        }
    }

    /// Ends the session locally, whatever the gateway answered to
    /// [`Client::logout_request`]: cookies and context are dropped.
    pub fn logout(&mut self)
        ensures
            final(self).ip == old(self).ip,
            final(self).username == old(self).username,
            final(self).password == old(self).password,
            final(self).cookies@.len() == 0,
            final(self).context_id is None,
    {
        self.cookies = Vec::new();
        self.context_id = None;
    }

    /// Reads the answer to the `DeviceInfo/get` call: its `status` member as
    /// a [`Status`].
    pub fn get_status(resp: &RpcResponse) -> (r: Result<Status, ClientError>)
        ensures
            r == status_response(*resp),
    {
        let v = answer_member(resp, "status")?;
        match Status::decode(&v) {
            Some(s) => Ok(s),
            None => Err(ClientError::ProtocolDecode),
        }
    }

    /// Reads the answer to the `NMC/getWANStatus` call: its `data` member as
    /// a [`WANConfiguration`].
    pub fn get_wan_config(resp: &RpcResponse) -> (r: Result<WANConfiguration, ClientError>)
        ensures
            r == wan_response(*resp),
    {
        let v = answer_member(resp, "data")?;
        match WANConfiguration::decode(&v) {
            Some(w) => Ok(w),
            None => Err(ClientError::ProtocolDecode),
        }
    }

    /// Reads the answer to the `Devices/get` call: its `status` member must be
    /// an array of devices.
    pub fn get_devices(resp: &RpcResponse) -> (r: Result<Vec<Device>, ClientError>)
        ensures
            match devices_response(*resp) {
                Ok(d) => r matches Ok(v) && v@ == d,
                Err(e) => r == Err::<Vec<Device>, ClientError>(e),
            },
    {
        let v = answer_member(resp, "status")?;
        match &v {
            Json::Array(a) => match Device::decode_all(a) {
                Some(d) => Ok(d),
                None => Err(ClientError::ProtocolDecode),
            },
            _ => Err(ClientError::ProtocolDecode),
        }
    }

    /// Reads the answer to the `HomeLan/getResults` call: its `status` member
    /// must be an object keyed by interface name; each interface becomes a
    /// [`Metrics`] record of its own, in the object's order.
    pub fn get_metrics(resp: &RpcResponse) -> (r: Result<Vec<Metrics>, ClientError>)
        ensures
            match metrics_response(*resp) {
                Ok(s) => r matches Ok(v) && v@.len() == s.len()
                    && forall|i: int| 0 <= i < v@.len() ==> #[trigger] v@[i]@ == seq![s[i]],
                Err(e) => r == Err::<Vec<Metrics>, ClientError>(e),
            },
    {
        let v = answer_member(resp, "status")?;
        match &v {
            Json::Object(e) => match Metrics::decode_interfaces(e) {
                Some(m) => Ok(m),
                None => Err(ClientError::ProtocolDecode),
            },
            _ => Err(ClientError::ProtocolDecode),
        }
    }
}

/// A login answer whose cookies all parse, of which there is at least one,
/// and whose body has `status` 0 and a textual `data.contextID`, logs in: the
/// context becomes that token and the cookie set is not empty.
pub proof fn lemma_login_success(resp: RpcResponse, j: Json, d: Json, ctx: String)
    requires
        forall|i: int| 0 <= i < resp.set_cookies@.len() ==> (#[trigger] cookie_pair(resp.set_cookies@[i]@)) is Some,
        resp.set_cookies@.len() >= 1,
        parsed_json(resp.body@) == Some(j),
        member(j, "status"@) == Some(Json::Number(Some(0))),
        member(j, "data"@) == Some(d),
        member(d, "contextID"@) == Some(Json::Text(ctx)),
    ensures
        login_outcome(resp) matches Ok((c, x)) && x == ctx && c.len() >= 1
            && c.len() == resp.set_cookies@.len(),
{
}

/// A login answer without any `Set-Cookie` header, or whose body is JSON with
/// a `status` other than 0, is an authentication failure; [`Client::login`]
/// then leaves the session as it was, logged out if it was.
pub proof fn lemma_login_refused(resp: RpcResponse, j: Json, st: Json)
    requires
        resp.set_cookies@.len() == 0 || (
            cookie_pairs(resp.set_cookies@) is Some
            && parsed_json(resp.body@) == Some(j)
            && member(j, "status"@) == Some(st)
            && st != Json::Number(Some(0))
        ),
    ensures
        login_outcome(resp) matches Err(ClientError::AuthenticationFailure(_)),
{
    if resp.set_cookies@.len() == 0 {
        assert(cookie_pairs(resp.set_cookies@) == Some(Seq::<Seq<char>>::empty())) by {
            assert(resp.set_cookies@.map_values(|s: String| pair_text(cookie_pair(s@)->0))
                =~= Seq::<Seq<char>>::empty());
        }
    } else {
        assert(resp.set_cookies@.map_values(|s: String| pair_text(cookie_pair(s@)->0)).len() >= 1);
    }
}

} // verus!
