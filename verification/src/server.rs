//! MCP server state: the sync sessions, and the steps of a tool call.
//!
//! A tool call runs in two steps. `handle_call` decides, from the server
//! state and the call's arguments, either the tool's result or the API
//! request to send (after some requests whose replies are ignored).
//! `complete_call` takes the reply of that request and gives the tool's
//! result, updating the sessions.

use crate::client::{HammerClient, HttpRequest, RequestBody, RequestPayload};
use crate::config::CliArgs;
use crate::json::JsonValue;
use crate::models::{
    ApiProjectEntity, BeginProjectsSyncResponse, CreateProjectResponse, DeleteIdsResponse,
    DeviceLog, IdeaConflictDto, IdeasSyncStateResponse, ProjectData, ProjectDataConflictDto,
    ProjectDataDto, ProjectSynchronizationBegan, ProjectsSyncProbeResponse, SavedIdeaDto, Token,
};
use crate::sessions::{ProjectSyncSession, SessionTable};
use crate::text::opt_text;
use vstd::prelude::*;

verus! {

// ── JSON-RPC types ───────────────────────────────────────────

#[derive(Debug)]
pub struct JsonRpcRequest {
    pub jsonrpc: String,
    pub id: Option<JsonValue>,
    pub method: String,
    pub params: Option<JsonValue>,
}

#[derive(Debug)]
pub struct JsonRpcResponse {
    pub jsonrpc: String,
    pub id: Option<JsonValue>,
    pub result: Option<JsonValue>,
    pub error: Option<JsonRpcError>,
}

#[derive(Debug)]
pub struct JsonRpcError {
    pub code: i32,
    pub message: String,
}

// ── Tool calls ───────────────────────────────────────────────

/// The input of a tool call: its arguments, and the arguments `entity`
/// and `data` read as the protocol types they stand for (or why they
/// cannot be). An `entity` without a `type` member of its own is read as
/// the type that the argument `entity_type` names.
#[derive(Debug)]
pub struct ToolInput {
    pub args: JsonValue,
    pub entity: Result<ApiProjectEntity, String>,
    pub data: Result<ProjectData, String>,
}

/// What a tool call needs next.
#[derive(Debug)]
pub enum ToolStep {
    /// The call is over, with this result.
    Finished(Result<JsonValue, String>),
    /// Send `cleanup` (their replies do not matter), then `request`, and
    /// complete the call with its reply.
    Call(ToolCall),
}

#[derive(Debug)]
pub struct ToolCall {
    pub cleanup: Vec<HttpRequest>,
    pub request: HttpRequest,
    pub pending: Pending,
}

/// The tool whose request is under way, with what its completion needs.
#[derive(Debug)]
pub enum Pending {
    Login,
    BeginAccountSync,
    EndAccountSync,
    CreateProject,
    DeleteProject(String),
    RenameProject,
    BeginProjectSync(String),
    EndProjectSync,
    DownloadEntity,
    UploadEntity,
    DeleteEntity,
    GetProjectData,
    UploadProjectData,
    GetIdeasState,
    DownloadIdea,
    UploadIdea,
    DeleteIdea,
    GetWritingActivity,
    SyncProbe,
}

/// The reply to an API request, read as its `ReplyBody`.
#[derive(Debug)]
pub enum ApiReply {
    /// An accepted reply whose body is not read.
    Done,
    /// A reply whose status stands for "nothing there".
    Absent,
    Token(Token),
    ProjectsSync(BeginProjectsSyncResponse),
    CreatedProject(CreateProjectResponse),
    SyncProbe(ProjectsSyncProbeResponse),
    ProjectSync(ProjectSynchronizationBegan),
    Entity(ApiProjectEntity),
    DeleteIds(DeleteIdsResponse),
    ProjectData(ProjectDataDto),
    ProjectDataConflict(ProjectDataConflictDto),
    WritingActivity(Vec<(String, DeviceLog)>),
    IdeasState(IdeasSyncStateResponse),
    SavedIdea(SavedIdeaDto),
    IdeaConflict(IdeaConflictDto),
}

/// The step ends the call with the error `msg`.
pub open spec fn finished_err(step: ToolStep, msg: Seq<char>) -> bool {
    step matches ToolStep::Finished(Err(e)) && e@ == msg
}

pub open spec fn not_authenticated_msg() -> Seq<char> {
    "Not authenticated. Provide --email/--password, --auth-token, or --user-id on startup."@
}

pub open spec fn no_account_sync_msg() -> Seq<char> {
    "No active account sync. Call hammer_begin_account_sync first."@
}

pub open spec fn no_project_sync_msg(project_id: Seq<char>) -> Seq<char> {
    "No active project sync for '"@ + project_id + "'. Call hammer_begin_project_sync first."@
}

// ── Server state ─────────────────────────────────────────────

/// MCP server state: the sync session manager and the Hammer client.
pub struct McpServer {
    pub client: HammerClient,
    pub user_id: Option<i64>,
    pub account_sync_id: Option<String>,
    pub project_sessions: SessionTable,
}

impl McpServer {
    /// The server never holds an account sync and a project sync at once:
    /// the sync server does not allow concurrent sessions.
    pub open spec fn syncs_exclusive(&self) -> bool {
        self.account_sync_id is Some ==> self.project_sessions@ == Map::<
            Seq<char>,
            ProjectSyncSession,
        >::empty()
    }

    pub fn new(server_url: String) -> (s: Self)
        ensures
            s.client.base() == crate::client::trim_trailing_slashes(server_url@),
            s.client.token() is None,
            s.user_id is None,
            s.account_sync_id is None,
            s.project_sessions@ == Map::<Seq<char>, ProjectSyncSession>::empty(),
            s.syncs_exclusive(),
    {
        McpServer {
            client: HammerClient::new(server_url),
            user_id: None,
            account_sync_id: None,
            project_sessions: SessionTable::new(),
        }
    }

    /// Whether the server has a user id available for API calls.
    pub fn is_authenticated(&self) -> (b: bool)
        ensures
            b == self.user_id is Some,
    {
        self.user_id.is_some()
    }

    pub fn require_user(&self) -> (r: Result<i64, String>)
        ensures
            match self.user_id {
                Some(u) => r == Ok::<i64, String>(u),
                None => r matches Err(e) && e@ == not_authenticated_msg(),
            },
    {
        match self.user_id {
            Some(u) => Ok(u),
            None => Err(
                String::from_str(
                    "Not authenticated. Provide --email/--password, --auth-token, or --user-id on startup.",
                ),
            ),
        }
    }

    pub fn require_account_sync(&self) -> (r: Result<String, String>)
        ensures
            match self.account_sync_id {
                Some(sid) => r matches Ok(s) && s@ == sid@,
                None => r matches Err(e) && e@ == no_account_sync_msg(),
            },
    {
        match &self.account_sync_id {
            Some(sid) => Ok(sid.clone()),
            None => Err(String::from_str("No active account sync. Call hammer_begin_account_sync first.")),
        }
    }

    pub fn require_project_sync(&self, project_id: &str) -> (r: Result<&ProjectSyncSession, String>)
        ensures
            match r {
                Ok(s) => self.project_sessions@.contains_key(project_id@) && self.project_sessions@[project_id@]
                    == *s,
                Err(e) => !self.project_sessions@.contains_key(project_id@) && e@ == no_project_sync_msg(
                    project_id@,
                ),
            },
    {
        match self.project_sessions.get(project_id) {
            Some(s) => Ok(s),
            None => {
                let mut m = String::from_str("No active project sync for '");
                m.append(project_id);
                m.append("'. Call hammer_begin_project_sync first.");
                Err(m)
            },
        }
    }
}

/// A lowercase hexadecimal digit.
pub open spec fn is_lower_hex(c: char) -> bool {
    ('0' <= c && c <= '9') || ('a' <= c && c <= 'f')
}

/// The hyphenated lowercase text of a version-4 UUID: 36 characters,
/// hyphens after the 8th, 12th, 16th and 20th hex digit, and the version
/// digit `4` first in the third group.
pub open spec fn is_v4_uuid_text(s: Seq<char>) -> bool {
    &&& s.len() == 36
    &&& forall|i: int|
        0 <= i < 36 ==> if i == 8 || i == 13 || i == 18 || i == 23 {
            #[trigger] s[i] == '-'
        } else {
            is_lower_hex(s[i])
        }
    &&& s[14] == '4'
}

/// A fresh install id: the text of `uuid::Uuid::new_v4()`, a random
/// version-4 UUID. Claimed: the text is the hyphenated lowercase form that
/// `Display` writes, with the version digit set. Not claimed: anything of
/// the random digits.
#[verifier::external_body]
pub(crate) fn fresh_install_id() -> (s: String)
    ensures
        is_v4_uuid_text(s@),
{
    uuid::Uuid::new_v4().to_string()
}

/// The user id after configuration: a configured one wins.
pub open spec fn configured_user(cfg: CliArgs, before: Option<i64>) -> Option<i64> {
    if cfg.user_id is Some {
        cfg.user_id
    } else {
        before
    }
}

/// The install id that a login request carries.
pub open spec fn login_install_id(r: HttpRequest) -> Seq<char> {
    match r.body {
        RequestBody::Json(RequestPayload::Login(l)) => l.install_id@,
        _ => Seq::empty(),
    }
}

impl McpServer {
    /// Applies connection settings. An explicit `auth_token` is used
    /// directly; otherwise `email` and `password` make a login request,
    /// which `finish_configure` completes. A configured `user_id` wins
    /// over the one that login reports.
    pub fn configure(&mut self, cfg: &CliArgs) -> (login: Option<HttpRequest>)
        ensures
            match (cfg.auth_token, cfg.email, cfg.password) {
                (Some(t), _, _) => {
                    &&& login is None
                    &&& final(self).client.token() == Some("Bearer "@ + t@)
                    &&& final(self).client.base() == old(self).client.base()
                    &&& final(self).user_id == configured_user(*cfg, old(self).user_id)
                    &&& final(self).account_sync_id == old(self).account_sync_id
                    &&& final(self).project_sessions == old(self).project_sessions
                },
                (None, Some(e), Some(p)) => {
                    &&& login matches Some(r) && old(self).client.is_login(r, e@, p@, login_install_id(r))
                        && match cfg.install_id {
                        Some(i) => login_install_id(r) == i@,
                        None => is_v4_uuid_text(login_install_id(r)),
                    }
                    &&& *final(self) == *old(self)
                },
                _ => {
                    &&& login is None
                    &&& final(self).user_id == configured_user(*cfg, old(self).user_id)
                    &&& final(self).client == old(self).client
                    &&& final(self).account_sync_id == old(self).account_sync_id
                    &&& final(self).project_sessions == old(self).project_sessions
                },
            },
    {
        if let Some(token) = &cfg.auth_token {
            self.client.set_token(token.as_str());
        } else if let (Some(email), Some(password)) = (&cfg.email, &cfg.password) {
            let install_id = match &cfg.install_id {
                Some(i) => i.clone(),
                None => fresh_install_id(),
            };
            return Some(self.client.login(email.as_str(), password.as_str(), install_id.as_str()));
        }
        if let Some(uid) = cfg.user_id {
            self.user_id = Some(uid);
        }
        None
    }

    /// Completes a configuration that logged in, with the login's reply.
    pub fn finish_configure(&mut self, cfg: &CliArgs, reply: Result<Token, String>) -> (r: Result<(), String>)
        ensures
            match reply {
                Ok(t) => {
                    &&& r is Ok
                    &&& final(self).user_id == configured_user(*cfg, Some(t.user_id))
                    &&& final(self).client.token() == Some("Bearer "@ + t.auth@)
                    &&& final(self).client.base() == old(self).client.base()
                    &&& final(self).account_sync_id == old(self).account_sync_id
                    &&& final(self).project_sessions == old(self).project_sessions
                },
                Err(e) => r == Err::<(), String>(e) && *final(self) == *old(self),
            },
    {
        match reply {
            Ok(token) => {
                self.user_id = Some(token.user_id);
                self.client.set_token(token.auth.as_str());
                if let Some(uid) = cfg.user_id {
                    self.user_id = Some(uid);
                }
                Ok(())
            },
            Err(e) => Err(e),
        }
    }
}

} // verus!
