//! The Hammer sync API: the request each call makes, and how its reply
//! status is read.
//!
//! `HammerClient` holds the server's base URL and the bearer value. Each
//! API method returns the `HttpRequest` that the call sends; the binary
//! sends it and reads the reply as `reply_verdict` directs.

use crate::models::{
    ApiProjectEntity, ClientEntityState, IdeaUploadRequest, LoginRequest, ProjectData,
    ProjectDataUploadRequest, ProjectHashItem, ProjectsSyncProbeRequest, StoryIdea,
    HEADER_ENTITY_HASH, HEADER_ENTITY_TYPE, HEADER_ORIGINAL_HASH, HEADER_PROTOCOL_VERSION,
    HEADER_SYNC_ID, PROTOCOL_VERSION, entity_type_name,
};
use crate::text::{
    dec_int, dec_nat, decimal_i64, decimal_u64, opt_str_text, opt_text, opt_to_string, pair_texts,
};
use std::io::Write;
use vstd::prelude::*;

verus! {

#[derive(Debug, Clone, Copy, PartialEq, Eq, Structural)]
pub enum HttpMethod {
    Get,
    Post,
}

/// The `Authorization` header of a request.
#[derive(Debug)]
pub enum AuthHeader {
    /// The request carries no `Authorization` header.
    Omitted,
    /// The request carries the client's stored bearer value; a client
    /// that holds none has none to give.
    Bearer(Option<String>),
}

/// A JSON request body, by the value it serialises.
#[derive(Debug)]
pub enum RequestPayload {
    Login(LoginRequest),
    SyncProbe(ProjectsSyncProbeRequest),
    Entity(ApiProjectEntity),
    ProjectData(ProjectDataUploadRequest),
    Idea(IdeaUploadRequest),
}

#[derive(Debug)]
pub enum RequestBody {
    Empty,
    Json(RequestPayload),
    /// A form-urlencoded body of these pairs, in order.
    Form(Vec<(String, String)>),
    /// These bytes as they stand.
    Octets(Vec<u8>),
    /// The gzip compression (`gzip_state_json`) of the JSON form of the state.
    GzipJson(ClientEntityState),
}

/// Which label an upload failure carries.
#[derive(Debug, Clone, Copy, PartialEq, Eq, Structural)]
pub enum UploadLabel {
    Entity,
    ProjectData,
    Idea,
}

/// How the status of a reply is read.
#[derive(Debug, Clone, Copy, PartialEq, Eq, Structural)]
pub enum ReplyPolicy {
    /// A success status carries the body; any other fails the login.
    Login,
    /// `check_response`: its accepted statuses carry the body.
    Checked,
    /// `204 No Content` means absent; otherwise as `Checked`.
    NoContentAbsent,
    /// `304 Not Modified` means absent; a success status carries the body.
    NotModifiedAbsent,
    /// `409 Conflict` carries the server's copy; a success status means
    /// no conflict.
    ConflictBody(UploadLabel),
}

/// What the body of an accepted reply holds.
#[derive(Debug, Clone, Copy, PartialEq, Eq, Structural)]
pub enum ReplyBody {
    Nothing,
    Token,
    ProjectsSync,
    CreatedProject,
    SyncProbe,
    ProjectSync,
    Entity,
    DeleteIds,
    ProjectData,
    ProjectDataConflict,
    WritingActivity,
    IdeasState,
    SavedIdea,
    IdeaConflict,
}

/// What to do with a reply of a given status.
#[derive(Debug, Clone, Copy, PartialEq, Eq, Structural)]
pub enum StatusVerdict {
    /// Read the body as the request's `ReplyBody`.
    ReadBody,
    /// The reply stands for "nothing there": its body is not read.
    Absent,
    /// The call failed: read the body as text for `failure_message`.
    Fail,
}

#[derive(Debug)]
pub struct HttpRequest {
    pub method: HttpMethod,
    pub url: String,
    pub authorization: AuthHeader,
    /// The other headers, in order.
    pub headers: Vec<(String, String)>,
    /// The query parameters, in order.
    pub query: Vec<(String, String)>,
    pub body: RequestBody,
    pub policy: ReplyPolicy,
    pub expect: ReplyBody,
}

// ── Status codes ──────────────────────────────────────────────

pub open spec fn is_success(status: u16) -> bool {
    200 <= status < 300
}

/// The statuses that `check_response` lets through.
pub open spec fn accepted_status(status: u16) -> bool {
    is_success(status) || status == 409 || status == 404 || status == 410 || status == 304
        || status == 204
}

pub open spec fn spec_verdict(policy: ReplyPolicy, status: u16) -> StatusVerdict {
    match policy {
        ReplyPolicy::Login => if is_success(status) {
            StatusVerdict::ReadBody
        } else {
            StatusVerdict::Fail
        },
        ReplyPolicy::Checked => if accepted_status(status) {
            StatusVerdict::ReadBody
        } else {
            StatusVerdict::Fail
        },
        ReplyPolicy::NoContentAbsent => if status == 204 {
            StatusVerdict::Absent
        } else if accepted_status(status) {
            StatusVerdict::ReadBody
        } else {
            StatusVerdict::Fail
        },
        ReplyPolicy::NotModifiedAbsent => if status == 304 {
            StatusVerdict::Absent
        } else if is_success(status) {
            StatusVerdict::ReadBody
        } else {
            StatusVerdict::Fail
        },
        ReplyPolicy::ConflictBody(_) => if status == 409 {
            StatusVerdict::ReadBody
        } else if is_success(status) {
            StatusVerdict::Absent
        } else {
            StatusVerdict::Fail
        },
    }
}

pub open spec fn upload_label_text(label: UploadLabel) -> Seq<char> {
    match label {
        UploadLabel::Entity => "Upload entity"@,
        UploadLabel::ProjectData => "Upload project data"@,
        UploadLabel::Idea => "Upload idea"@,
    }
}

/// The error text of a failed reply with this status and body text.
pub open spec fn failure_text(policy: ReplyPolicy, status: u16, body: Seq<char>) -> Seq<char> {
    match policy {
        ReplyPolicy::Login => "Login failed: "@ + body,
        ReplyPolicy::Checked => "HTTP "@ + dec_nat(status as nat) + ": "@ + body,
        ReplyPolicy::NoContentAbsent => "HTTP "@ + dec_nat(status as nat) + ": "@ + body,
        ReplyPolicy::NotModifiedAbsent => "Download entity failed ("@ + dec_nat(status as nat)
            + "): "@ + body,
        ReplyPolicy::ConflictBody(label) => upload_label_text(label) + " failed ("@ + dec_nat(
            status as nat,
        ) + "): "@ + body,
    }
}

impl HammerClient {
    /// Whether a reply status passes: a success, or one of 409, 404, 410,
    /// 304 and 204, whose bodies the caller reads.
    pub fn check_response(status: u16) -> (ok: bool)
        ensures
            ok == accepted_status(status),
    {
        (200 <= status && status < 300) || status == 409 || status == 404 || status == 410
            || status == 304 || status == 204
    }
}

/// What a reply with this status means under this policy.
pub fn reply_verdict(policy: ReplyPolicy, status: u16) -> (v: StatusVerdict)
    ensures
        v == spec_verdict(policy, status),
{
    let success = 200 <= status && status < 300;
    match policy {
        ReplyPolicy::Login => if success {
            StatusVerdict::ReadBody
        } else {
            StatusVerdict::Fail
        },
        ReplyPolicy::Checked => if HammerClient::check_response(status) {
            StatusVerdict::ReadBody
        } else {
            StatusVerdict::Fail
        },
        ReplyPolicy::NoContentAbsent => if status == 204 {
            StatusVerdict::Absent
        } else if HammerClient::check_response(status) {
            StatusVerdict::ReadBody
        } else {
            StatusVerdict::Fail
        },
        ReplyPolicy::NotModifiedAbsent => if status == 304 {
            StatusVerdict::Absent
        } else if success {
            StatusVerdict::ReadBody
        } else {
            StatusVerdict::Fail
        },
        ReplyPolicy::ConflictBody(_) => if status == 409 {
            StatusVerdict::ReadBody
        } else if success {
            StatusVerdict::Absent
        } else {
            StatusVerdict::Fail
        },
    }
}

/// The error of a failed reply: its label, its status and its body text.
pub fn failure_message(policy: ReplyPolicy, status: u16, body: &str) -> (m: String)
    ensures
        m@ == failure_text(policy, status, body@),
{
    let code = decimal_u64(status as u64);
    match policy {
        ReplyPolicy::Login => {
            let mut m = String::from_str("Login failed: ");
            m.append(body);
            m
        },
        ReplyPolicy::Checked | ReplyPolicy::NoContentAbsent => {
            let mut m = String::from_str("HTTP ");
            m.append(code.as_str());
            m.append(": ");
            m.append(body);
            m
        },
        ReplyPolicy::NotModifiedAbsent => {
            let mut m = String::from_str("Download entity failed (");
            m.append(code.as_str());
            m.append("): ");
            m.append(body);
            m
        },
        ReplyPolicy::ConflictBody(label) => {
            let mut m = match label {
                UploadLabel::Entity => String::from_str("Upload entity"),
                UploadLabel::ProjectData => String::from_str("Upload project data"),
                UploadLabel::Idea => String::from_str("Upload idea"),
            };
            m.append(" failed (");
            m.append(code.as_str());
            m.append("): ");
            m.append(body);
            m
        },
    }
}

// ── Compression ───────────────────────────────────────────────

/// The gzip stream (default level, no header time, unknown OS) that
/// `flate2`'s `GzEncoder` writes for these bytes.
pub uninterp spec fn gzip_encoded(data: Seq<u8>) -> Seq<u8>;

/// The ten-byte header that `GzEncoder::new` writes: the gzip magic, the
/// deflate method, no flags, no time stamp, no level hint (the default
/// level) and the "unknown" operating system, 255.
pub open spec fn default_gzip_header() -> Seq<u8> {
    seq![0x1fu8, 0x8bu8, 8u8, 0u8, 0u8, 0u8, 0u8, 0u8, 0u8, 255u8]
}

/// Compresses `data` with `flate2::write::GzEncoder` at the default level.
/// Claimed: the result is `Ok`: the encoder writes into a `Vec`, whose
/// writes never fail, and a fresh deflate stream that takes one input and
/// one finish never reaches a state its backend reports as an error. The
/// bytes are the encoder's output for `data`, a function of `data` alone
/// (the header holds no time and a fixed OS byte); they start with that
/// header and end with the eight-byte CRC and length trailer. The deflate
/// stream between header and trailer is only named.
#[verifier::external_body]
fn gzip_encode(data: &[u8]) -> (r: Result<Vec<u8>, String>)
    ensures
        r is Ok,
        r matches Ok(bytes) ==> {
            &&& bytes@ == gzip_encoded(data@)
            &&& bytes@.len() >= 18
            &&& bytes@.take(10) == default_gzip_header()
        },
{
    let mut gz = flate2::write::GzEncoder::new(Vec::new(), flate2::Compression::default());
    match gz.write_all(data) {
        Ok(()) => gz.finish().map_err(|e| e.to_string()),
        Err(e) => Err(e.to_string()),
    }
}

/// The body of a project-sync start that reports the client's entity
/// state: the gzip compression of the state's JSON text. It always
/// succeeds.
pub fn gzip_state_json(json: &[u8]) -> (r: Result<Vec<u8>, String>)
    ensures
        r matches Ok(bytes) && bytes@ == gzip_encoded(json@) && bytes@.take(10) == default_gzip_header(),
{
    gzip_encode(json)
}

// ── The client ────────────────────────────────────────────────

/// A URL with every trailing `/` removed.
pub open spec fn trim_trailing_slashes(s: Seq<char>) -> Seq<char>
    decreases s.len(),
{
    if s.len() > 0 && s.last() == '/' {
        trim_trailing_slashes(s.drop_last())
    } else {
        s
    }
}

/// A URL with its trailing slashes removed ends in no slash.
pub proof fn lemma_trimmed_has_no_trailing_slash(s: Seq<char>)
    ensures
        trim_trailing_slashes(s).len() == 0 || trim_trailing_slashes(s).last() != '/',
        trim_trailing_slashes(trim_trailing_slashes(s)) == trim_trailing_slashes(s),
    decreases s.len(),
{
    if s.len() > 0 && s.last() == '/' {
        lemma_trimmed_has_no_trailing_slash(s.drop_last());
    }
}

pub open spec fn protocol_header() -> (Seq<char>, Seq<char>) {
    (HEADER_PROTOCOL_VERSION@, dec_nat(PROTOCOL_VERSION as nat))
}

pub open spec fn sync_header(sync_id: Seq<char>) -> (Seq<char>, Seq<char>) {
    (HEADER_SYNC_ID@, sync_id)
}

/// `/projects/{user}{tail}`
pub open spec fn projects_path(user_id: i64, tail: Seq<char>) -> Seq<char> {
    "/projects/"@ + dec_int(user_id as int) + tail
}

/// `/project/{user}/{project}{tail}`
pub open spec fn project_path(user_id: i64, project_id: Seq<char>, tail: Seq<char>) -> Seq<char> {
    "/project/"@ + dec_int(user_id as int) + "/"@ + project_id + tail
}

/// `/ideas/{user}{tail}`
pub open spec fn ideas_path(user_id: i64, tail: Seq<char>) -> Seq<char> {
    "/ideas/"@ + dec_int(user_id as int) + tail
}

/// High-level client of the Hammer sync API.
pub struct HammerClient {
    server_url: String,
    auth_token: Option<String>,
}

impl HammerClient {
    /// The server's base URL, without trailing slashes.
    pub closed spec fn base(&self) -> Seq<char> {
        self.server_url@
    }

    /// The stored `Authorization` value, if any.
    pub closed spec fn token(&self) -> Option<Seq<char>> {
        opt_text(self.auth_token)
    }

    pub open spec fn api_url_of(&self, path: Seq<char>) -> Seq<char> {
        self.base() + "/api"@ + path
    }

    /// `req` is an authorised call of the API at `path`, carrying the
    /// protocol header, then `headers`, and the query `query`.
    pub open spec fn is_api_request(
        &self,
        req: HttpRequest,
        method: HttpMethod,
        path: Seq<char>,
        headers: Seq<(Seq<char>, Seq<char>)>,
        query: Seq<(Seq<char>, Seq<char>)>,
        policy: ReplyPolicy,
        expect: ReplyBody,
    ) -> bool {
        &&& req.method == method
        &&& req.url@ == self.api_url_of(path)
        &&& req.authorization matches AuthHeader::Bearer(a) && opt_text(a) == self.token()
        &&& pair_texts(req.headers@) =~= seq![protocol_header()] + headers
        &&& pair_texts(req.query@) =~= query
        &&& req.policy == policy
        &&& req.expect == expect
    }

    pub fn new(server_url: String) -> (c: Self)
        ensures
            c.base() == trim_trailing_slashes(server_url@),
            c.base().len() == 0 || c.base().last() != '/',
            c.token() is None,
    {
        proof { lemma_trimmed_has_no_trailing_slash(server_url@); }
        let s = server_url.as_str();
        let len = s.unicode_len();
        let mut n = len;
        assert(s@.take(len as int) =~= s@);
        while n > 0 && s.get_char(n - 1) == '/'
            invariant
                n <= len,
                len == s@.len(),
                trim_trailing_slashes(s@) == trim_trailing_slashes(s@.take(n as int)),
            decreases n,
        {
            assert(s@.take(n as int).drop_last() =~= s@.take(n - 1));
            n = n - 1;
        }
        let kept = String::from_str(s.substring_char(0, n));
        assert(s@.subrange(0, n as int) =~= s@.take(n as int));
        HammerClient { server_url: kept, auth_token: None }
    }

    pub fn set_token(&mut self, token: &str)
        ensures
            final(self).token() == Some("Bearer "@ + token@),
            final(self).base() == old(self).base(),
    {
        let mut value = String::from_str("Bearer ");
        value.append(token);
        self.auth_token = Some(value);
    }

    pub fn has_token(&self) -> (b: bool)
        ensures
            b == self.token() is Some,
    {
        self.auth_token.is_some()
    }

    // ── helpers ───────────────────────────────────────────────

    fn protocol_header() -> (h: (&'static str, String))
        ensures
            (h.0@, h.1@) == protocol_header(),
    {
        (HEADER_PROTOCOL_VERSION, decimal_u64(PROTOCOL_VERSION as u64))
    }

    fn auth_header(&self) -> (a: AuthHeader)
        ensures
            a matches AuthHeader::Bearer(t) && opt_text(t) == self.token(),
    {
        match &self.auth_token {
            Some(t) => AuthHeader::Bearer(Some(t.clone())),
            None => AuthHeader::Bearer(None),
        }
    }

    fn api_url(&self, path: &str) -> (u: String)
        ensures
            u@ == self.api_url_of(path@),
    {
        let mut u = self.server_url.clone();
        u.append("/api");
        u.append(path);
        u
    }

    /// The header list of an API call: the protocol header first.
    fn base_headers() -> (h: Vec<(String, String)>)
        ensures
            pair_texts(h@) == seq![protocol_header()],
    {
        let (name, value) = Self::protocol_header();
        let mut h: Vec<(String, String)> = Vec::new();
        h.push((String::from_str(name), value));
        assert(pair_texts(h@) =~= seq![protocol_header()]);
        h
    }

    /// Appends the pair `(name, value)` to a header or query list.
    fn push_pair(list: &mut Vec<(String, String)>, name: &str, value: String)
        ensures
            pair_texts(final(list)@) == pair_texts(old(list)@).push((name@, value@)),
    {
        let ghost before = list@;
        list.push((String::from_str(name), value));
        assert(pair_texts(list@) =~= pair_texts(before).push((name@, value@)));
    }

    fn pair(a: &str, b: &str) -> (p: (String, String))
        ensures
            p.0@ == a@,
            p.1@ == b@,
    {
        (String::from_str(a), String::from_str(b))
    }

    fn request(
        &self,
        method: HttpMethod,
        path: &str,
        headers: Vec<(String, String)>,
        query: Vec<(String, String)>,
        body: RequestBody,
        policy: ReplyPolicy,
        expect: ReplyBody,
    ) -> (r: HttpRequest)
        ensures
            r.method == method,
            r.url@ == self.api_url_of(path@),
            r.authorization matches AuthHeader::Bearer(a) && opt_text(a) == self.token(),
            r.headers == headers,
            r.query == query,
            r.body == body,
            r.policy == policy,
            r.expect == expect,
    {
        HttpRequest {
            method,
            url: self.api_url(path),
            authorization: self.auth_header(),
            headers,
            query,
            body,
            policy,
            expect,
        }
    }

    fn projects_path(user_id: i64, tail: &str) -> (p: String)
        ensures
            p@ == projects_path(user_id, tail@),
    {
        let mut p = String::from_str("/projects/");
        let id = decimal_i64(user_id);
        p.append(id.as_str());
        p.append(tail);
        p
    }

    fn project_path(user_id: i64, project_id: &str, tail: &str) -> (p: String)
        ensures
            p@ == project_path(user_id, project_id@, tail@),
    {
        let mut p = String::from_str("/project/");
        let id = decimal_i64(user_id);
        p.append(id.as_str());
        p.append("/");
        p.append(project_id);
        p.append(tail);
        p
    }

    fn ideas_path(user_id: i64, tail: &str) -> (p: String)
        ensures
            p@ == ideas_path(user_id, tail@),
    {
        let mut p = String::from_str("/ideas/");
        let id = decimal_i64(user_id);
        p.append(id.as_str());
        p.append(tail);
        p
    }
}

// ── The API calls ─────────────────────────────────────────────

/// The optional header `(name, value)`: none when `value` is none.
pub open spec fn opt_header(name: Seq<char>, value: Option<Seq<char>>) -> Seq<(Seq<char>, Seq<char>)> {
    match value {
        Some(v) => seq![(name, v)],
        None => seq![],
    }
}

impl HammerClient {
    /// `req` is the login call: a JSON post of the credentials to
    /// `/api/accounts/login`, without authorisation or protocol header.
    pub open spec fn is_login(
        &self,
        req: HttpRequest,
        email: Seq<char>,
        password: Seq<char>,
        install_id: Seq<char>,
    ) -> bool {
        &&& req.method == HttpMethod::Post
        &&& req.url@ == self.api_url_of("/accounts/login"@)
        &&& req.authorization is Omitted
        &&& req.headers@.len() == 0
        &&& req.query@.len() == 0
        &&& req.body matches RequestBody::Json(RequestPayload::Login(l)) && l.email@ == email
            && l.password@ == password && l.install_id@ == install_id
        &&& req.policy == ReplyPolicy::Login
        &&& req.expect == ReplyBody::Token
    }

    pub open spec fn is_begin_projects_sync(&self, req: HttpRequest, user_id: i64) -> bool {
        &&& self.is_api_request(req, HttpMethod::Post, projects_path(user_id, "/begin_sync"@),
            seq![], seq![], ReplyPolicy::Checked, ReplyBody::ProjectsSync)
        &&& req.body is Empty
    }

    pub open spec fn is_end_projects_sync(&self, req: HttpRequest, user_id: i64, sync_id: Seq<char>) -> bool {
        &&& self.is_api_request(req, HttpMethod::Post, projects_path(user_id, "/end_sync"@),
            seq![sync_header(sync_id)], seq![], ReplyPolicy::Checked, ReplyBody::Nothing)
        &&& req.body is Empty
    }

    pub open spec fn is_create_project(
        &self,
        req: HttpRequest,
        user_id: i64,
        sync_id: Seq<char>,
        name: Seq<char>,
    ) -> bool {
        &&& self.is_api_request(req, HttpMethod::Post, projects_path(user_id, "/create"@),
            seq![sync_header(sync_id)], seq![("projectName"@, name)], ReplyPolicy::Checked,
            ReplyBody::CreatedProject)
        &&& req.body is Empty
    }

    pub open spec fn is_delete_project(
        &self,
        req: HttpRequest,
        user_id: i64,
        sync_id: Seq<char>,
        project_id: Seq<char>,
    ) -> bool {
        &&& self.is_api_request(req, HttpMethod::Post, projects_path(user_id, "/"@ + project_id + "/delete"@),
            seq![sync_header(sync_id)], seq![], ReplyPolicy::Checked, ReplyBody::Nothing)
        &&& req.body is Empty
    }

    pub open spec fn is_rename_project(
        &self,
        req: HttpRequest,
        user_id: i64,
        sync_id: Seq<char>,
        project_id: Seq<char>,
        new_name: Seq<char>,
    ) -> bool {
        &&& self.is_api_request(req, HttpMethod::Post, projects_path(user_id, "/"@ + project_id + "/rename"@),
            seq![sync_header(sync_id)], seq![("projectName"@, new_name)], ReplyPolicy::Checked,
            ReplyBody::Nothing)
        &&& req.body is Empty
    }

    pub open spec fn is_sync_probe(&self, req: HttpRequest, user_id: i64, projects: Vec<ProjectHashItem>) -> bool {
        &&& self.is_api_request(req, HttpMethod::Post, projects_path(user_id, "/sync_probe"@),
            seq![], seq![], ReplyPolicy::Checked, ReplyBody::SyncProbe)
        &&& req.body == RequestBody::Json(RequestPayload::SyncProbe(ProjectsSyncProbeRequest { projects }))
    }

    pub open spec fn is_begin_project_sync(
        &self,
        req: HttpRequest,
        user_id: i64,
        project_id: Seq<char>,
        client_state: Option<ClientEntityState>,
    ) -> bool {
        &&& self.is_api_request(req, HttpMethod::Post, project_path(user_id, project_id, "/begin_sync"@),
            seq![("content-type"@, "application/octet-stream"@)], seq![], ReplyPolicy::Checked,
            ReplyBody::ProjectSync)
        &&& match client_state {
            Some(state) => req.body == RequestBody::GzipJson(state),
            None => req.body matches RequestBody::Octets(bytes) && bytes@.len() == 0,
        }
    }

    pub open spec fn is_end_project_sync(
        &self,
        req: HttpRequest,
        user_id: i64,
        project_id: Seq<char>,
        sync_id: Seq<char>,
        last_sync: Option<Seq<char>>,
        last_id: Option<i32>,
    ) -> bool {
        &&& self.is_api_request(req, HttpMethod::Post, project_path(user_id, project_id, "/end_sync"@),
            seq![sync_header(sync_id)], seq![], ReplyPolicy::Checked, ReplyBody::Nothing)
        &&& req.body matches RequestBody::Form(form) && pair_texts(form@) =~= opt_header("lastSync"@, last_sync)
            + opt_header("lastId"@, match last_id {
                Some(n) => Some(dec_int(n as int)),
                None => None,
            })
    }

    pub open spec fn is_upload_entity(
        &self,
        req: HttpRequest,
        user_id: i64,
        project_id: Seq<char>,
        entity: ApiProjectEntity,
        sync_id: Seq<char>,
        original_hash: Option<Seq<char>>,
        force: bool,
    ) -> bool {
        &&& self.is_api_request(req, HttpMethod::Post,
            project_path(user_id, project_id, "/upload_entity/"@ + dec_int(entity.spec_id() as int)),
            seq![sync_header(sync_id), (HEADER_ENTITY_TYPE@, entity_type_name(entity.kind()))]
                + opt_header(HEADER_ORIGINAL_HASH@, original_hash),
            if force { seq![("force"@, "true"@)] } else { seq![] },
            ReplyPolicy::ConflictBody(UploadLabel::Entity), ReplyBody::Entity)
        &&& req.body == RequestBody::Json(RequestPayload::Entity(entity))
    }

    pub open spec fn is_download_entity(
        &self,
        req: HttpRequest,
        user_id: i64,
        project_id: Seq<char>,
        entity_id: i32,
        sync_id: Seq<char>,
        entity_hash: Option<Seq<char>>,
    ) -> bool {
        &&& self.is_api_request(req, HttpMethod::Get,
            project_path(user_id, project_id, "/download_entity/"@ + dec_int(entity_id as int)),
            seq![sync_header(sync_id)] + opt_header(HEADER_ENTITY_HASH@, entity_hash), seq![],
            ReplyPolicy::NotModifiedAbsent, ReplyBody::Entity)
        &&& req.body is Empty
    }

    pub open spec fn is_delete_entity(
        &self,
        req: HttpRequest,
        user_id: i64,
        project_id: Seq<char>,
        entity_id: i32,
        sync_id: Seq<char>,
    ) -> bool {
        &&& self.is_api_request(req, HttpMethod::Get,
            project_path(user_id, project_id, "/delete_entity/"@ + dec_int(entity_id as int)),
            seq![sync_header(sync_id)], seq![], ReplyPolicy::Checked, ReplyBody::DeleteIds)
        &&& req.body is Empty
    }

    pub open spec fn is_get_project_data(&self, req: HttpRequest, user_id: i64, project_id: Seq<char>) -> bool {
        &&& self.is_api_request(req, HttpMethod::Get, project_path(user_id, project_id, "/project_data"@),
            seq![], seq![], ReplyPolicy::NoContentAbsent, ReplyBody::ProjectData)
        &&& req.body is Empty
    }

    pub open spec fn is_upload_project_data(
        &self,
        req: HttpRequest,
        user_id: i64,
        project_id: Seq<char>,
        data: ProjectData,
        original_hash: Option<Seq<char>>,
        hash: Option<Seq<char>>,
    ) -> bool {
        &&& self.is_api_request(req, HttpMethod::Post, project_path(user_id, project_id, "/project_data"@),
            seq![], seq![], ReplyPolicy::ConflictBody(UploadLabel::ProjectData),
            ReplyBody::ProjectDataConflict)
        &&& req.body matches RequestBody::Json(RequestPayload::ProjectData(u)) && u.data == data
            && opt_text(u.original_hash) == original_hash && opt_text(u.hash) == hash
    }

    pub open spec fn is_get_writing_activity(&self, req: HttpRequest, user_id: i64, project_id: Seq<char>) -> bool {
        &&& self.is_api_request(req, HttpMethod::Get, project_path(user_id, project_id, "/writing_activity"@),
            seq![], seq![], ReplyPolicy::Checked, ReplyBody::WritingActivity)
        &&& req.body is Empty
    }

    pub open spec fn is_ideas_sync_state(&self, req: HttpRequest, user_id: i64, sync_id: Seq<char>) -> bool {
        &&& self.is_api_request(req, HttpMethod::Post, ideas_path(user_id, "/state"@),
            seq![sync_header(sync_id)], seq![], ReplyPolicy::Checked, ReplyBody::IdeasState)
        &&& req.body is Empty
    }

    pub open spec fn is_download_idea(
        &self,
        req: HttpRequest,
        user_id: i64,
        idea_id: Seq<char>,
        sync_id: Seq<char>,
    ) -> bool {
        &&& self.is_api_request(req, HttpMethod::Get, ideas_path(user_id, "/idea/"@ + idea_id),
            seq![sync_header(sync_id)], seq![], ReplyPolicy::Checked, ReplyBody::SavedIdea)
        &&& req.body is Empty
    }

    pub open spec fn is_upload_idea(
        &self,
        req: HttpRequest,
        user_id: i64,
        idea_id: Seq<char>,
        idea: StoryIdea,
        hash: Seq<char>,
        original_hash: Option<Seq<char>>,
        sync_id: Seq<char>,
    ) -> bool {
        &&& self.is_api_request(req, HttpMethod::Post, ideas_path(user_id, "/idea/"@ + idea_id),
            seq![sync_header(sync_id)], seq![], ReplyPolicy::ConflictBody(UploadLabel::Idea),
            ReplyBody::IdeaConflict)
        &&& req.body matches RequestBody::Json(RequestPayload::Idea(u)) && u.idea == idea
            && u.hash@ == hash && opt_text(u.original_hash) == original_hash
    }

    pub open spec fn is_delete_idea(
        &self,
        req: HttpRequest,
        user_id: i64,
        idea_id: Seq<char>,
        sync_id: Seq<char>,
    ) -> bool {
        &&& self.is_api_request(req, HttpMethod::Post, ideas_path(user_id, "/idea/"@ + idea_id + "/delete"@),
            seq![sync_header(sync_id)], seq![], ReplyPolicy::Checked, ReplyBody::Nothing)
        &&& req.body is Empty
    }

    // ── Auth ──────────────────────────────────────────────────

    pub fn login(&self, email: &str, password: &str, install_id: &str) -> (r: HttpRequest)
        ensures
            self.is_login(r, email@, password@, install_id@),
    {
        let body = LoginRequest {
            email: String::from_str(email),
            password: String::from_str(password),
            install_id: String::from_str(install_id),
        };
        HttpRequest {
            method: HttpMethod::Post,
            url: self.api_url("/accounts/login"),
            authorization: AuthHeader::Omitted,
            headers: Vec::new(),
            query: Vec::new(),
            body: RequestBody::Json(RequestPayload::Login(body)),
            policy: ReplyPolicy::Login,
            expect: ReplyBody::Token,
        }
    }

    // ── Account / projects sync ───────────────────────────────

    /// POST /api/projects/{userId}/begin_sync
    pub fn begin_projects_sync(&self, user_id: i64) -> (r: HttpRequest)
        ensures
            self.is_begin_projects_sync(r, user_id),
    {
        let path = Self::projects_path(user_id, "/begin_sync");
        self.request(HttpMethod::Post, path.as_str(), Self::base_headers(), Vec::new(),
            RequestBody::Empty, ReplyPolicy::Checked, ReplyBody::ProjectsSync)
    }

    /// POST /api/projects/{userId}/end_sync
    pub fn end_projects_sync(&self, user_id: i64, sync_id: &str) -> (r: HttpRequest)
        ensures
            self.is_end_projects_sync(r, user_id, sync_id@),
    {
        let path = Self::projects_path(user_id, "/end_sync");
        let mut headers = Self::base_headers();
        Self::push_pair(&mut headers, HEADER_SYNC_ID, String::from_str(sync_id));
        self.request(HttpMethod::Post, path.as_str(), headers, Vec::new(), RequestBody::Empty,
            ReplyPolicy::Checked, ReplyBody::Nothing)
    }

    /// POST /api/projects/{userId}/create
    pub fn create_project(&self, user_id: i64, sync_id: &str, project_name: &str) -> (r: HttpRequest)
        ensures
            self.is_create_project(r, user_id, sync_id@, project_name@),
    {
        let path = Self::projects_path(user_id, "/create");
        let mut headers = Self::base_headers();
        Self::push_pair(&mut headers, HEADER_SYNC_ID, String::from_str(sync_id));
        let mut query: Vec<(String, String)> = Vec::new();
        Self::push_pair(&mut query, "projectName", String::from_str(project_name));
        self.request(HttpMethod::Post, path.as_str(), headers, query, RequestBody::Empty,
            ReplyPolicy::Checked, ReplyBody::CreatedProject)
    }

    fn project_tail(project_id: &str, tail: &str) -> (t: String)
        ensures
            t@ == "/"@ + project_id@ + tail@,
    {
        let mut t = String::from_str("/");
        t.append(project_id);
        t.append(tail);
        t
    }

    /// POST /api/projects/{userId}/{projectId}/delete
    pub fn delete_project(&self, user_id: i64, sync_id: &str, project_id: &str) -> (r: HttpRequest)
        ensures
            self.is_delete_project(r, user_id, sync_id@, project_id@),
    {
        let tail = Self::project_tail(project_id, "/delete");
        let path = Self::projects_path(user_id, tail.as_str());
        let mut headers = Self::base_headers();
        Self::push_pair(&mut headers, HEADER_SYNC_ID, String::from_str(sync_id));
        self.request(HttpMethod::Post, path.as_str(), headers, Vec::new(), RequestBody::Empty,
            ReplyPolicy::Checked, ReplyBody::Nothing)
    }

    /// POST /api/projects/{userId}/{projectId}/rename
    pub fn rename_project(&self, user_id: i64, sync_id: &str, project_id: &str, new_name: &str) -> (r: HttpRequest)
        ensures
            self.is_rename_project(r, user_id, sync_id@, project_id@, new_name@),
    {
        let tail = Self::project_tail(project_id, "/rename");
        let path = Self::projects_path(user_id, tail.as_str());
        let mut headers = Self::base_headers();
        Self::push_pair(&mut headers, HEADER_SYNC_ID, String::from_str(sync_id));
        let mut query: Vec<(String, String)> = Vec::new();
        Self::push_pair(&mut query, "projectName", String::from_str(new_name));
        self.request(HttpMethod::Post, path.as_str(), headers, query, RequestBody::Empty,
            ReplyPolicy::Checked, ReplyBody::Nothing)
    }

    // ── Sync probe ────────────────────────────────────────────

    /// POST /api/projects/{userId}/sync_probe
    pub fn sync_probe(&self, user_id: i64, projects: Vec<ProjectHashItem>) -> (r: HttpRequest)
        ensures
            self.is_sync_probe(r, user_id, projects),
    {
        let path = Self::projects_path(user_id, "/sync_probe");
        let body = RequestBody::Json(RequestPayload::SyncProbe(ProjectsSyncProbeRequest { projects }));
        self.request(HttpMethod::Post, path.as_str(), Self::base_headers(), Vec::new(), body,
            ReplyPolicy::Checked, ReplyBody::SyncProbe)
    }

    // ── Project sync ──────────────────────────────────────────

    /// POST /api/project/{userId}/{projectId}/begin_sync
    pub fn begin_project_sync(
        &self,
        user_id: i64,
        project_id: &str,
        client_state: Option<ClientEntityState>,
    ) -> (r: HttpRequest)
        ensures
            self.is_begin_project_sync(r, user_id, project_id@, client_state),
    {
        let path = Self::project_path(user_id, project_id, "/begin_sync");
        let mut headers = Self::base_headers();
        Self::push_pair(&mut headers, "content-type", String::from_str("application/octet-stream"));
        let body = match client_state {
            Some(state) => RequestBody::GzipJson(state),
            None => RequestBody::Octets(Vec::new()),
        };
        self.request(HttpMethod::Post, path.as_str(), headers, Vec::new(), body,
            ReplyPolicy::Checked, ReplyBody::ProjectSync)
    }

    /// POST /api/project/{userId}/{projectId}/end_sync
    pub fn end_project_sync(
        &self,
        user_id: i64,
        project_id: &str,
        sync_id: &str,
        last_sync: Option<&str>,
        last_id: Option<i32>,
    ) -> (r: HttpRequest)
        ensures
            self.is_end_project_sync(r, user_id, project_id@, sync_id@, opt_str_text(last_sync), last_id),
    {
        let path = Self::project_path(user_id, project_id, "/end_sync");
        let mut headers = Self::base_headers();
        Self::push_pair(&mut headers, HEADER_SYNC_ID, String::from_str(sync_id));
        let mut form: Vec<(String, String)> = Vec::new();
        assert(pair_texts(form@) =~= seq![]);
        if let Some(ls) = last_sync {
            Self::push_pair(&mut form, "lastSync", String::from_str(ls));
        }
        if let Some(li) = last_id {
            Self::push_pair(&mut form, "lastId", decimal_i64(li as i64));
        }
        assert(pair_texts(form@) =~= opt_header("lastSync"@, opt_str_text(last_sync))
            + opt_header("lastId"@, match last_id {
                Some(n) => Some(dec_int(n as int)),
                None => None,
            }));
        self.request(HttpMethod::Post, path.as_str(), headers, Vec::new(), RequestBody::Form(form),
            ReplyPolicy::Checked, ReplyBody::Nothing)
    }

    // ── Entities ──────────────────────────────────────────────

    fn id_tail(prefix: &str, id: i32) -> (t: String)
        ensures
            t@ == prefix@ + dec_int(id as int),
    {
        let mut t = String::from_str(prefix);
        let digits = decimal_i64(id as i64);
        t.append(digits.as_str());
        t
    }

    /// POST /api/project/{userId}/{projectId}/upload_entity/{entityId}
    pub fn upload_entity(
        &self,
        user_id: i64,
        project_id: &str,
        entity: ApiProjectEntity,
        sync_id: &str,
        original_hash: Option<&str>,
        force: bool,
    ) -> (r: HttpRequest)
        ensures
            self.is_upload_entity(r, user_id, project_id@, entity, sync_id@, opt_str_text(original_hash), force),
    {
        let tail = Self::id_tail("/upload_entity/", entity.id());
        let path = Self::project_path(user_id, project_id, tail.as_str());
        let mut headers = Self::base_headers();
        Self::push_pair(&mut headers, HEADER_SYNC_ID, String::from_str(sync_id));
        let kind = entity.entity_type();
        Self::push_pair(&mut headers, HEADER_ENTITY_TYPE, String::from_str(kind.as_header_value()));
        if let Some(hash) = original_hash {
            Self::push_pair(&mut headers, HEADER_ORIGINAL_HASH, String::from_str(hash));
        }
        let mut query: Vec<(String, String)> = Vec::new();
        assert(pair_texts(query@) =~= seq![]);
        if force {
            Self::push_pair(&mut query, "force", String::from_str("true"));
        }
        self.request(HttpMethod::Post, path.as_str(), headers, query,
            RequestBody::Json(RequestPayload::Entity(entity)),
            ReplyPolicy::ConflictBody(UploadLabel::Entity), ReplyBody::Entity)
    }

    /// GET /api/project/{userId}/{projectId}/download_entity/{entityId}
    pub fn download_entity(
        &self,
        user_id: i64,
        project_id: &str,
        entity_id: i32,
        sync_id: &str,
        entity_hash: Option<&str>,
    ) -> (r: HttpRequest)
        ensures
            self.is_download_entity(r, user_id, project_id@, entity_id, sync_id@, opt_str_text(entity_hash)),
    {
        let tail = Self::id_tail("/download_entity/", entity_id);
        let path = Self::project_path(user_id, project_id, tail.as_str());
        let mut headers = Self::base_headers();
        Self::push_pair(&mut headers, HEADER_SYNC_ID, String::from_str(sync_id));
        if let Some(hash) = entity_hash {
            Self::push_pair(&mut headers, HEADER_ENTITY_HASH, String::from_str(hash));
        }
        self.request(HttpMethod::Get, path.as_str(), headers, Vec::new(), RequestBody::Empty,
            ReplyPolicy::NotModifiedAbsent, ReplyBody::Entity)
    }

    /// GET /api/project/{userId}/{projectId}/delete_entity/{entityId}
    pub fn delete_entity(&self, user_id: i64, project_id: &str, entity_id: i32, sync_id: &str) -> (r: HttpRequest)
        ensures
            self.is_delete_entity(r, user_id, project_id@, entity_id, sync_id@),
    {
        let tail = Self::id_tail("/delete_entity/", entity_id);
        let path = Self::project_path(user_id, project_id, tail.as_str());
        let mut headers = Self::base_headers();
        Self::push_pair(&mut headers, HEADER_SYNC_ID, String::from_str(sync_id));
        self.request(HttpMethod::Get, path.as_str(), headers, Vec::new(), RequestBody::Empty,
            ReplyPolicy::Checked, ReplyBody::DeleteIds)
    }

    // ── Project data ──────────────────────────────────────────

    /// GET /api/project/{userId}/{projectId}/project_data
    pub fn get_project_data(&self, user_id: i64, project_id: &str) -> (r: HttpRequest)
        ensures
            self.is_get_project_data(r, user_id, project_id@),
    {
        let path = Self::project_path(user_id, project_id, "/project_data");
        self.request(HttpMethod::Get, path.as_str(), Self::base_headers(), Vec::new(),
            RequestBody::Empty, ReplyPolicy::NoContentAbsent, ReplyBody::ProjectData)
    }

    /// POST /api/project/{userId}/{projectId}/project_data
    pub fn upload_project_data(
        &self,
        user_id: i64,
        project_id: &str,
        data: ProjectData,
        original_hash: Option<&str>,
        hash: Option<&str>,
    ) -> (r: HttpRequest)
        ensures
            self.is_upload_project_data(r, user_id, project_id@, data, opt_str_text(original_hash),
                opt_str_text(hash)),
            r.method == HttpMethod::Post,
            r.body matches RequestBody::Json(RequestPayload::ProjectData(u)) && u.data == data
                && opt_text(u.original_hash) == opt_str_text(original_hash) && opt_text(u.hash) == opt_str_text(hash),
    {
        let path = Self::project_path(user_id, project_id, "/project_data");
        let body = ProjectDataUploadRequest {
            data,
            original_hash: opt_to_string(original_hash),
            hash: opt_to_string(hash),
        };
        self.request(HttpMethod::Post, path.as_str(), Self::base_headers(), Vec::new(),
            RequestBody::Json(RequestPayload::ProjectData(body)),
            ReplyPolicy::ConflictBody(UploadLabel::ProjectData), ReplyBody::ProjectDataConflict)
    }

    // ── Writing activity ──────────────────────────────────────

    /// GET /api/project/{userId}/{projectId}/writing_activity
    pub fn get_writing_activity(&self, user_id: i64, project_id: &str) -> (r: HttpRequest)
        ensures
            self.is_get_writing_activity(r, user_id, project_id@),
    {
        let path = Self::project_path(user_id, project_id, "/writing_activity");
        self.request(HttpMethod::Get, path.as_str(), Self::base_headers(), Vec::new(),
            RequestBody::Empty, ReplyPolicy::Checked, ReplyBody::WritingActivity)
    }

    // ── Ideas ─────────────────────────────────────────────────

    /// POST /api/ideas/{userId}/state
    pub fn ideas_sync_state(&self, user_id: i64, sync_id: &str) -> (r: HttpRequest)
        ensures
            self.is_ideas_sync_state(r, user_id, sync_id@),
    {
        let path = Self::ideas_path(user_id, "/state");
        let mut headers = Self::base_headers();
        Self::push_pair(&mut headers, HEADER_SYNC_ID, String::from_str(sync_id));
        self.request(HttpMethod::Post, path.as_str(), headers, Vec::new(), RequestBody::Empty,
            ReplyPolicy::Checked, ReplyBody::IdeasState)
    }

    fn idea_tail(idea_id: &str, tail: &str) -> (t: String)
        ensures
            t@ == "/idea/"@ + idea_id@ + tail@,
    {
        let mut t = String::from_str("/idea/");
        t.append(idea_id);
        t.append(tail);
        t
    }

    /// GET /api/ideas/{userId}/idea/{ideaId}
    pub fn download_idea(&self, user_id: i64, idea_id: &str, sync_id: &str) -> (r: HttpRequest)
        ensures
            self.is_download_idea(r, user_id, idea_id@, sync_id@),
    {
        let tail = Self::idea_tail(idea_id, "");
        proof { reveal_strlit(""); }
        assert(tail@ =~= "/idea/"@ + idea_id@);
        let path = Self::ideas_path(user_id, tail.as_str());
        let mut headers = Self::base_headers();
        Self::push_pair(&mut headers, HEADER_SYNC_ID, String::from_str(sync_id));
        self.request(HttpMethod::Get, path.as_str(), headers, Vec::new(), RequestBody::Empty,
            ReplyPolicy::Checked, ReplyBody::SavedIdea)
    }

    /// POST /api/ideas/{userId}/idea/{ideaId}
    pub fn upload_idea(
        &self,
        user_id: i64,
        idea_id: &str,
        idea: StoryIdea,
        hash: &str,
        original_hash: Option<&str>,
        sync_id: &str,
    ) -> (r: HttpRequest)
        ensures
            self.is_upload_idea(r, user_id, idea_id@, idea, hash@, opt_str_text(original_hash), sync_id@),
            r.method == HttpMethod::Post,
            r.body matches RequestBody::Json(RequestPayload::Idea(u)) && u.idea == idea && u.hash@ == hash@
                && opt_text(u.original_hash) == opt_str_text(original_hash),
    {
        let tail = Self::idea_tail(idea_id, "");
        proof { reveal_strlit(""); }
        assert(tail@ =~= "/idea/"@ + idea_id@);
        let path = Self::ideas_path(user_id, tail.as_str());
        let mut headers = Self::base_headers();
        Self::push_pair(&mut headers, HEADER_SYNC_ID, String::from_str(sync_id));
        let body = IdeaUploadRequest {
            idea,
            hash: String::from_str(hash),
            original_hash: opt_to_string(original_hash),
        };
        self.request(HttpMethod::Post, path.as_str(), headers, Vec::new(),
            RequestBody::Json(RequestPayload::Idea(body)), ReplyPolicy::ConflictBody(UploadLabel::Idea),
            ReplyBody::IdeaConflict)
    }

    /// POST /api/ideas/{userId}/idea/{ideaId}/delete
    pub fn delete_idea(&self, user_id: i64, idea_id: &str, sync_id: &str) -> (r: HttpRequest)
        ensures
            self.is_delete_idea(r, user_id, idea_id@, sync_id@),
    {
        let tail = Self::idea_tail(idea_id, "/delete");
        let path = Self::ideas_path(user_id, tail.as_str());
        let mut headers = Self::base_headers();
        Self::push_pair(&mut headers, HEADER_SYNC_ID, String::from_str(sync_id));
        self.request(HttpMethod::Post, path.as_str(), headers, Vec::new(), RequestBody::Empty,
            ReplyPolicy::Checked, ReplyBody::Nothing)
    }
}

} // verus!
