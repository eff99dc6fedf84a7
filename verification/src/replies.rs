//! What each tool makes of the reply to its request.

use crate::json::{
    JsonValue, ModelValue, field_value, is_object, object1, object2, object3, object4,
};
use crate::server::{ApiReply, McpServer, Pending};
use crate::sessions::ProjectSyncSession;
use crate::text::opt_text;
use vstd::prelude::*;

verus! {

/// The RFC 3339 text (`+00:00` offset, seconds fraction as needed) that
/// `chrono` writes for the UTC time `secs` seconds and `nanos`
/// nanoseconds past the Unix epoch; none where `chrono` has no such time.
pub uninterp spec fn rfc3339_text(secs: i64, nanos: u32) -> Option<Seq<char>>;

/// `chrono::DateTime::<Utc>::from_timestamp(secs, nanos)` rendered with
/// `to_rfc3339`. Claimed: the result is a function of `secs` and `nanos`
/// alone (UTC, no local time zone), named `rfc3339_text`; a text holds at
/// least the date, `T` and the time of day to the second (19 characters)
/// and ends with the UTC offset `+00:00`. The calendar arithmetic is only
/// named, and so is the range of times that `chrono` accepts.
#[verifier::external_body]
fn rfc3339_of(secs: i64, nanos: u32) -> (r: Option<String>)
    ensures
        opt_text(r) == rfc3339_text(secs, nanos),
        r matches Some(t) ==> t@.len() >= 25 && t@.subrange(t@.len() - 6, t@.len() as int) == "+00:00"@,
{
    match chrono::DateTime::<chrono::Utc>::from_timestamp(secs, nanos) {
        Some(t) => Some(t.to_rfc3339()),
        None => None,
    }
}

/// The reply is of the kind that the pending call expects.
pub open spec fn reply_fits(p: Pending, r: Result<ApiReply, String>) -> bool {
    match r {
        Err(_) => true,
        Ok(a) => match p {
            Pending::Login => a is Token,
            Pending::BeginAccountSync => a is ProjectsSync,
            Pending::EndAccountSync => a is Done,
            Pending::CreateProject => a is CreatedProject,
            Pending::DeleteProject(_) => a is Done,
            Pending::RenameProject => a is Done,
            Pending::BeginProjectSync(_) => a is ProjectSync,
            Pending::EndProjectSync => a is Done,
            Pending::DownloadEntity => a is Entity || a is Absent,
            Pending::UploadEntity => a is Entity || a is Absent,
            Pending::DeleteEntity => a is DeleteIds,
            Pending::GetProjectData => a is ProjectData || a is Absent,
            Pending::UploadProjectData => a is ProjectDataConflict || a is Absent,
            Pending::GetIdeasState => a is IdeasState,
            Pending::DownloadIdea => a is SavedIdea,
            Pending::UploadIdea => a is IdeaConflict || a is Absent,
            Pending::DeleteIdea => a is Done,
            Pending::GetWritingActivity => a is WritingActivity,
            Pending::SyncProbe => a is SyncProbe,
        },
    }
}

/// `{"success": true}`
pub open spec fn is_success_json(v: JsonValue) -> bool {
    is_object(v, seq!["success"@]) && field_value(v, 0) == JsonValue::Bool(true)
}

/// `{"status": "saved", "success": true}`
pub open spec fn is_saved_json(v: JsonValue) -> bool {
    &&& is_object(v, seq!["status"@, "success"@])
    &&& field_value(v, 0).is_text("saved"@)
    &&& field_value(v, 1) == JsonValue::Bool(true)
}

/// `{"status": "conflict", <server_key>: <server>, "server_hash": <hash>}`
pub open spec fn is_conflict_json(v: JsonValue, server_key: Seq<char>, server: JsonValue, hash: String) -> bool {
    &&& is_object(v, seq!["status"@, server_key, "server_hash"@])
    &&& field_value(v, 0).is_text("conflict"@)
    &&& field_value(v, 1) == server
    &&& field_value(v, 2) == JsonValue::Str(hash)
}

/// The session a started project sync opens: the sync id, last id and
/// deleted ids the server reported, and the start time in RFC 3339.
pub open spec fn opened_session(s: ProjectSyncSession, r: crate::models::ProjectSynchronizationBegan) -> bool {
    &&& s.sync_id == r.sync_id
    &&& s.last_id == r.last_id
    &&& opt_text(s.last_sync) == rfc3339_text(r.last_sync.secs, r.last_sync.nanos)
    &&& s.deleted_ids@ == r.deleted_ids@
}

/// Only the result differs: the state stays as it was.
pub open spec fn keeps(old: McpServer, new: McpServer) -> bool {
    new == old
}

/// What completing the pending call with `reply` gives, and how the state
/// changes.
pub open spec fn completes(
    old: McpServer,
    new: McpServer,
    p: Pending,
    reply: Result<ApiReply, String>,
    r: Result<JsonValue, String>,
) -> bool {
    match reply {
        Err(e) => keeps(old, new) && match p {
            Pending::Login => r matches Err(m) && m@ == "Login failed: "@ + e@,
            _ => r == Err::<JsonValue, String>(e),
        },
        Ok(a) => match (p, a) {
            (Pending::Login, ApiReply::Token(t)) => {
                &&& new.user_id == Some(t.user_id)
                &&& new.client.token() == Some("Bearer "@ + t.auth@)
                &&& new.client.base() == old.client.base()
                &&& new.account_sync_id == old.account_sync_id
                &&& new.project_sessions == old.project_sessions
                &&& r matches Ok(v) && is_object(v, seq!["success"@, "user_id"@, "auth_token"@, "refresh_token"@])
                    && field_value(v, 0) == JsonValue::Bool(true) && field_value(v, 1) == JsonValue::Int(t.user_id)
                    && field_value(v, 2) == JsonValue::Str(t.auth) && field_value(v, 3) == JsonValue::Str(
                    t.refresh,
                )
            },
            (Pending::BeginAccountSync, ApiReply::ProjectsSync(resp)) => {
                &&& new.account_sync_id == Some(resp.sync_id)
                &&& new.client == old.client
                &&& new.user_id == old.user_id
                &&& new.project_sessions == old.project_sessions
                &&& r == Ok::<JsonValue, String>(JsonValue::Model(ModelValue::ProjectsSync(resp)))
            },
            (Pending::CreateProject, ApiReply::CreatedProject(c)) => keeps(old, new) && r == Ok::<
                JsonValue,
                String,
            >(JsonValue::Model(ModelValue::CreatedProject(c))),
            (Pending::DeleteProject(pid), ApiReply::Done) => {
                &&& new.project_sessions@ == old.project_sessions@.remove(pid@)
                &&& new.client == old.client
                &&& new.user_id == old.user_id
                &&& new.account_sync_id == old.account_sync_id
                &&& r matches Ok(v) && is_success_json(v)
            },
            (Pending::BeginProjectSync(pid), ApiReply::ProjectSync(resp)) => {
                &&& new.project_sessions@.contains_key(pid@)
                &&& new.project_sessions@ == old.project_sessions@.insert(pid@, new.project_sessions@[pid@])
                &&& opened_session(new.project_sessions@[pid@], resp)
                &&& new.client == old.client
                &&& new.user_id == old.user_id
                &&& new.account_sync_id == old.account_sync_id
                &&& r == Ok::<JsonValue, String>(JsonValue::Model(ModelValue::ProjectSync(resp)))
            },
            (Pending::EndAccountSync, ApiReply::Done) | (Pending::RenameProject, ApiReply::Done) | (
                Pending::EndProjectSync,
                ApiReply::Done,
            ) | (Pending::DeleteIdea, ApiReply::Done) => {
                &&& keeps(old, new)
                &&& r matches Ok(v) && is_success_json(
                v,
            )
            },
            (Pending::DownloadEntity, ApiReply::Entity(e)) => keeps(old, new) && r == Ok::<JsonValue, String>(
                JsonValue::Model(ModelValue::Entity(e)),
            ),
            (Pending::DownloadEntity, ApiReply::Absent) => {
                &&& keeps(old, new)
                &&& r matches Ok(v) && is_object(
                v,
                seq!["status"@, "message"@],
            ) && field_value(v, 0).is_text("not_modified"@) && field_value(v, 1).is_text(
                "Entity unchanged since last sync"@,
            )
            },
            (Pending::UploadEntity, ApiReply::Entity(e)) => {
                &&& keeps(old, new)
                &&& r matches Ok(v) && is_object(
                v,
                seq!["status"@, "message"@, "server_entity"@],
            ) && field_value(v, 0).is_text("conflict"@) && field_value(v, 1).is_text(
                "Entity was modified on the server since your last sync."@,
            ) && field_value(v, 2) == JsonValue::Model(ModelValue::Entity(e))
            },
            (Pending::UploadEntity, ApiReply::Absent) | (Pending::UploadProjectData, ApiReply::Absent) | (
                Pending::UploadIdea,
                ApiReply::Absent,
            ) => {
                &&& keeps(old, new)
                &&& r matches Ok(v) && is_saved_json(v)
            },
            (Pending::DeleteEntity, ApiReply::DeleteIds(d)) => {
                &&& keeps(old, new)
                &&& r matches Ok(v) && is_object(
                v,
                seq!["success"@, "deleted"@],
            ) && field_value(v, 0) == JsonValue::Bool(true) && field_value(v, 1) == JsonValue::Bool(d.deleted)
            },
            (Pending::GetProjectData, ApiReply::ProjectData(d)) => keeps(old, new) && r == Ok::<JsonValue, String>(
                JsonValue::Model(ModelValue::ProjectDataDto(d)),
            ),
            (Pending::GetProjectData, ApiReply::Absent) => {
                &&& keeps(old, new)
                &&& r matches Ok(v) && is_object(
                v,
                seq!["status"@, "data"@, "hash"@],
            ) && field_value(v, 0).is_text("empty"@) && field_value(v, 1) == JsonValue::Null && field_value(v, 2)
                == JsonValue::Null
            },
            (Pending::UploadProjectData, ApiReply::ProjectDataConflict(c)) => {
                &&& keeps(old, new)
                &&& r matches Ok(v)
                && is_conflict_json(v, "server_data"@, JsonValue::Model(ModelValue::ProjectData(c.server)),
                c.server_hash)
            },
            (Pending::GetIdeasState, ApiReply::IdeasState(st)) => keeps(old, new) && r == Ok::<JsonValue, String>(
                JsonValue::Model(ModelValue::IdeasState(st)),
            ),
            (Pending::DownloadIdea, ApiReply::SavedIdea(i)) => keeps(old, new) && r == Ok::<JsonValue, String>(
                JsonValue::Model(ModelValue::SavedIdea(i)),
            ),
            (Pending::UploadIdea, ApiReply::IdeaConflict(c)) => {
                &&& keeps(old, new)
                &&& r matches Ok(v)
                && is_conflict_json(v, "server_idea"@, JsonValue::Model(ModelValue::Idea(c.server)),
                c.server_hash)
            },
            (Pending::GetWritingActivity, ApiReply::WritingActivity(m)) => keeps(old, new) && r == Ok::<
                JsonValue,
                String,
            >(JsonValue::Model(ModelValue::WritingActivity(m))),
            (Pending::SyncProbe, ApiReply::SyncProbe(p)) => keeps(old, new) && r == Ok::<JsonValue, String>(
                JsonValue::Model(ModelValue::SyncProbe(p)),
            ),
            _ => false,
        },
    }
}

/// The state a pending call completes in: a started account sync with no
/// project sync open, a started project sync with no account sync open.
pub open spec fn pending_consistent(s: McpServer, p: Pending) -> bool {
    match p {
        Pending::BeginAccountSync => s.project_sessions@ == Map::<Seq<char>, ProjectSyncSession>::empty(),
        Pending::BeginProjectSync(_) => s.account_sync_id is None,
        _ => true,
    }
}

fn success_json() -> (v: JsonValue)
    ensures
        is_success_json(v),
{
    object1("success", JsonValue::Bool(true))
}

fn saved_json() -> (v: JsonValue)
    ensures
        is_saved_json(v),
{
    object2("status", JsonValue::text("saved"), "success", JsonValue::Bool(true))
}

fn conflict_json(server_key: &str, server: JsonValue, hash: String) -> (v: JsonValue)
    ensures
        is_conflict_json(v, server_key@, server, hash),
{
    object3("status", JsonValue::text("conflict"), server_key, server, "server_hash", JsonValue::Str(hash))
}

/// Whether a reply fits the pending call (`reply_fits`).
pub fn reply_fits_call(p: &Pending, r: &Result<ApiReply, String>) -> (b: bool)
    ensures
        b == reply_fits(*p, *r),
{
    match r {
        Err(_) => true,
        Ok(a) => match p {
            Pending::Login => matches!(a, ApiReply::Token(_)),
            Pending::BeginAccountSync => matches!(a, ApiReply::ProjectsSync(_)),
            Pending::EndAccountSync => matches!(a, ApiReply::Done),
            Pending::CreateProject => matches!(a, ApiReply::CreatedProject(_)),
            Pending::DeleteProject(_) => matches!(a, ApiReply::Done),
            Pending::RenameProject => matches!(a, ApiReply::Done),
            Pending::BeginProjectSync(_) => matches!(a, ApiReply::ProjectSync(_)),
            Pending::EndProjectSync => matches!(a, ApiReply::Done),
            Pending::DownloadEntity => matches!(a, ApiReply::Entity(_)) || matches!(a, ApiReply::Absent),
            Pending::UploadEntity => matches!(a, ApiReply::Entity(_)) || matches!(a, ApiReply::Absent),
            Pending::DeleteEntity => matches!(a, ApiReply::DeleteIds(_)),
            Pending::GetProjectData => matches!(a, ApiReply::ProjectData(_)) || matches!(a, ApiReply::Absent),
            Pending::UploadProjectData => matches!(a, ApiReply::ProjectDataConflict(_)) || matches!(
                a,
                ApiReply::Absent
            ),
            Pending::GetIdeasState => matches!(a, ApiReply::IdeasState(_)),
            Pending::DownloadIdea => matches!(a, ApiReply::SavedIdea(_)),
            Pending::UploadIdea => matches!(a, ApiReply::IdeaConflict(_)) || matches!(a, ApiReply::Absent),
            Pending::DeleteIdea => matches!(a, ApiReply::Done),
            Pending::GetWritingActivity => matches!(a, ApiReply::WritingActivity(_)),
            Pending::SyncProbe => matches!(a, ApiReply::SyncProbe(_)),
        },
    }
}

impl McpServer {
    /// Completes a tool call with the reply to its request.
    pub fn complete_call(&mut self, pending: Pending, reply: Result<ApiReply, String>) -> (r: Result<JsonValue, String>)
        requires
            reply_fits(pending, reply),
        ensures
            completes(*old(self), *final(self), pending, reply, r),
            old(self).syncs_exclusive() && pending_consistent(*old(self), pending) ==> final(self).syncs_exclusive(),
    {
        let a = match reply {
            Err(e) => {
                return match pending {
                    Pending::Login => {
                        let mut m = String::from_str("Login failed: ");
                        m.append(e.as_str());
                        Err(m)
                    },
                    _ => Err(e),
                };
            },
            Ok(a) => a,
        };
        match (pending, a) {
            (Pending::Login, ApiReply::Token(t)) => {
                self.user_id = Some(t.user_id);
                self.client.set_token(t.auth.as_str());
                Ok(object4("success", JsonValue::Bool(true), "user_id", JsonValue::Int(t.user_id),
                    "auth_token", JsonValue::Str(t.auth), "refresh_token", JsonValue::Str(t.refresh)))
            },
            (Pending::BeginAccountSync, ApiReply::ProjectsSync(resp)) => {
                self.account_sync_id = Some(resp.sync_id.clone());
                Ok(JsonValue::Model(ModelValue::ProjectsSync(resp)))
            },
            (Pending::CreateProject, ApiReply::CreatedProject(c)) => Ok(
                JsonValue::Model(ModelValue::CreatedProject(c)),
            ),
            (Pending::DeleteProject(pid), ApiReply::Done) => {
                let _ = self.project_sessions.remove(pid.as_str());
                Ok(success_json())
            },
            (Pending::BeginProjectSync(pid), ApiReply::ProjectSync(resp)) => {
                let deleted_ids = resp.deleted_ids.clone();
                proof {
                    assert forall|i: int| 0 <= i < deleted_ids@.len() implies deleted_ids@[i]
                        == resp.deleted_ids@[i] by {}
                    assert(deleted_ids@ =~= resp.deleted_ids@);
                }
                let session = ProjectSyncSession {
                    sync_id: resp.sync_id.clone(),
                    last_id: resp.last_id,
                    last_sync: rfc3339_of(resp.last_sync.secs, resp.last_sync.nanos),
                    deleted_ids,
                };
                self.project_sessions.insert(pid.as_str(), session);
                Ok(JsonValue::Model(ModelValue::ProjectSync(resp)))
            },
            (Pending::EndAccountSync, ApiReply::Done) => Ok(success_json()),
            (Pending::RenameProject, ApiReply::Done) => Ok(success_json()),
            (Pending::EndProjectSync, ApiReply::Done) => Ok(success_json()),
            (Pending::DeleteIdea, ApiReply::Done) => Ok(success_json()),
            (Pending::DownloadEntity, ApiReply::Entity(e)) => Ok(JsonValue::Model(ModelValue::Entity(e))),
            (Pending::DownloadEntity, ApiReply::Absent) => Ok(
                object2("status", JsonValue::text("not_modified"), "message",
                    JsonValue::text("Entity unchanged since last sync")),
            ),
            (Pending::UploadEntity, ApiReply::Entity(e)) => Ok(
                object3("status", JsonValue::text("conflict"), "message",
                    JsonValue::text("Entity was modified on the server since your last sync."),
                    "server_entity", JsonValue::Model(ModelValue::Entity(e))),
            ),
            (Pending::UploadEntity, ApiReply::Absent) => Ok(saved_json()),
            (Pending::UploadProjectData, ApiReply::Absent) => Ok(saved_json()),
            (Pending::UploadIdea, ApiReply::Absent) => Ok(saved_json()),
            (Pending::DeleteEntity, ApiReply::DeleteIds(d)) => Ok(
                object2("success", JsonValue::Bool(true), "deleted", JsonValue::Bool(d.deleted)),
            ),
            (Pending::GetProjectData, ApiReply::ProjectData(d)) => Ok(
                JsonValue::Model(ModelValue::ProjectDataDto(d)),
            ),
            (Pending::GetProjectData, ApiReply::Absent) => Ok(
                object3("status", JsonValue::text("empty"), "data", JsonValue::Null, "hash", JsonValue::Null),
            ),
            (Pending::UploadProjectData, ApiReply::ProjectDataConflict(c)) => Ok(
                conflict_json("server_data", JsonValue::Model(ModelValue::ProjectData(c.server)), c.server_hash),
            ),
            (Pending::GetIdeasState, ApiReply::IdeasState(st)) => Ok(JsonValue::Model(ModelValue::IdeasState(st))),
            (Pending::DownloadIdea, ApiReply::SavedIdea(i)) => Ok(JsonValue::Model(ModelValue::SavedIdea(i))),
            (Pending::UploadIdea, ApiReply::IdeaConflict(c)) => Ok(
                conflict_json("server_idea", JsonValue::Model(ModelValue::Idea(c.server)), c.server_hash),
            ),
            (Pending::GetWritingActivity, ApiReply::WritingActivity(m)) => Ok(
                JsonValue::Model(ModelValue::WritingActivity(m)),
            ),
            (Pending::SyncProbe, ApiReply::SyncProbe(p)) => Ok(JsonValue::Model(ModelValue::SyncProbe(p))),
            (_, _) => {
                proof { assert(false); }
                Err(String::new())
            },
        }
    }
}

} // verus!
