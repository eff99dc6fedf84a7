//! The tools: what each decides before its request, and what it makes of
//! the reply.

use crate::client::{HttpRequest, RequestBody, RequestPayload};
use crate::json::{
    JsonValue, field_value, is_object, member_texts, object2, push_text,
};
use crate::models::{
    entity_type_name, ApiProjectEntity, ClientEntityState, EntityHash, ProjectData, ProjectHashItem, ProjectId, StoryIdea,
};
use crate::server::{
    McpServer, Pending, ToolCall, ToolStep, finished_err, is_v4_uuid_text, login_install_id, no_account_sync_msg,
    no_project_sync_msg, not_authenticated_msg,
};
use crate::sessions::{ProjectSyncSession, entries_map, keys_distinct};
use crate::text::{opt_str_text, opt_text};
use vstd::prelude::*;

verus! {

/// `Some(s)` as a string slice, `None` as none.
fn as_opt_str(o: &Option<String>) -> (r: Option<&str>)
    ensures
        opt_str_text(r) == opt_text(*o),
{
    match o {
        Some(s) => Some(s.as_str()),
        None => None,
    }
}

fn err_step(msg: &str) -> (step: ToolStep)
    ensures
        finished_err(step, msg@),
{
    ToolStep::Finished(Err(String::from_str(msg)))
}

/// `cleanup` ends the old account sync (when there is one) and then each
/// of the old project syncs, once each, in some order.
pub open spec fn ends_all_syncs(old: McpServer, user_id: i64, cleanup: Seq<HttpRequest>) -> bool {
    let rest = match old.account_sync_id {
        Some(_) => cleanup.drop_first(),
        None => cleanup,
    };
    &&& match old.account_sync_id {
        Some(sid) => cleanup.len() >= 1 && old.client.is_end_projects_sync(cleanup[0], user_id, sid@),
        None => true,
    }
    &&& exists|ended: Seq<(String, ProjectSyncSession)>|
        {
            &&& entries_map(ended) == old.project_sessions@
            &&& keys_distinct(ended)
            &&& rest.len() == ended.len()
            &&& forall|i: int|
                0 <= i < ended.len() ==> old.client.is_end_project_sync(
                    #[trigger] rest[i],
                    user_id,
                    ended[i].0@,
                    ended[i].1.sync_id@,
                    opt_text(ended[i].1.last_sync),
                    Some(ended[i].1.last_id),
                )
        }
}

pub open spec fn begin_account_sync_step(old: McpServer, new: McpServer, step: ToolStep) -> bool {
    match old.user_id {
        None => finished_err(step, not_authenticated_msg()) && new == old,
        Some(uid) => {
            &&& new.client == old.client
            &&& new.user_id == old.user_id
            &&& new.account_sync_id is None
            &&& new.project_sessions@ == Map::<Seq<char>, ProjectSyncSession>::empty()
            &&& step matches ToolStep::Call(c) && c.pending is BeginAccountSync
                && old.client.is_begin_projects_sync(c.request, uid) && ends_all_syncs(old, uid, c.cleanup@)
        },
    }
}

pub open spec fn end_account_sync_step(old: McpServer, new: McpServer, step: ToolStep) -> bool {
    match old.user_id {
        None => finished_err(step, not_authenticated_msg()) && new == old,
        Some(uid) => match old.account_sync_id {
            None => finished_err(step, "No active account sync session"@) && new == old,
            Some(sid) => {
                &&& new.client == old.client
                &&& new.user_id == old.user_id
                &&& new.account_sync_id is None
                &&& new.project_sessions == old.project_sessions
                &&& step matches ToolStep::Call(c) && c.pending is EndAccountSync && c.cleanup@.len() == 0
                    && old.client.is_end_projects_sync(c.request, uid, sid@)
            },
        },
    }
}

/// The checks that the account-level tools make first: a user, then an
/// account sync. `Some((user, sync))` when both pass; else the step is
/// the first failure.
pub open spec fn account_ready(s: McpServer) -> Option<(i64, Seq<char>)> {
    match s.user_id {
        None => None,
        Some(uid) => match s.account_sync_id {
            None => None,
            Some(sid) => Some((uid, sid@)),
        },
    }
}

pub open spec fn account_failure(s: McpServer, step: ToolStep) -> bool {
    match s.user_id {
        None => finished_err(step, not_authenticated_msg()),
        Some(_) => finished_err(step, no_account_sync_msg()),
    }
}

pub open spec fn create_project_step(s: McpServer, args: JsonValue, step: ToolStep) -> bool {
    match account_ready(s) {
        None => account_failure(s, step),
        Some((uid, sid)) => match args.at("project_name"@).str_of() {
            None => finished_err(step, "project_name required"@),
            Some(name) => step matches ToolStep::Call(c) && c.pending is CreateProject && c.cleanup@.len()
                == 0 && s.client.is_create_project(c.request, uid, sid, name),
        },
    }
}

pub open spec fn delete_project_step(s: McpServer, args: JsonValue, step: ToolStep) -> bool {
    match account_ready(s) {
        None => account_failure(s, step),
        Some((uid, sid)) => match args.at("project_id"@).str_of() {
            None => finished_err(step, "project_id required"@),
            Some(pid) => step matches ToolStep::Call(c) && c.pending matches Pending::DeleteProject(p)
                && p@ == pid && c.cleanup@.len() == 0 && s.client.is_delete_project(c.request, uid, sid, pid),
        },
    }
}

pub open spec fn rename_project_step(s: McpServer, args: JsonValue, step: ToolStep) -> bool {
    match account_ready(s) {
        None => account_failure(s, step),
        Some((uid, sid)) => match args.at("project_id"@).str_of() {
            None => finished_err(step, "project_id required"@),
            Some(pid) => match args.at("new_name"@).str_of() {
                None => finished_err(step, "new_name required"@),
                Some(name) => step matches ToolStep::Call(c) && c.pending is RenameProject
                    && c.cleanup@.len() == 0 && s.client.is_rename_project(c.request, uid, sid, pid, name),
            },
        },
    }
}

impl McpServer {
    /// Starts an account-level sync: ends any open account sync and every
    /// open project sync first (the sync server does not allow concurrent
    /// sessions), then asks to begin.
    pub fn tool_begin_account_sync(&mut self) -> (step: ToolStep)
        ensures
            begin_account_sync_step(*old(self), *final(self), step),
            old(self).syncs_exclusive() ==> final(self).syncs_exclusive(),
    {
        let uid = match self.require_user() {
            Ok(u) => u,
            Err(e) => return ToolStep::Finished(Err(e)),
        };
        let ghost before = *self;
        let mut cleanup: Vec<HttpRequest> = Vec::new();
        if let Some(sid) = self.account_sync_id.take() {
            cleanup.push(self.client.end_projects_sync(uid, sid.as_str()));
        }
        let base = cleanup.len();
        let ended = self.project_sessions.drain();
        let mut i: usize = 0;
        while i < ended.len()
            invariant
                0 <= i <= ended@.len(),
                self.client == before.client,
                cleanup@.len() == base + i,
                base == (if before.account_sync_id is Some { 1int } else { 0int }),
                before.account_sync_id matches Some(sid) ==> before.client.is_end_projects_sync(
                    cleanup@[0],
                    uid,
                    sid@,
                ),
                forall|j: int|
                    0 <= j < i ==> before.client.is_end_project_sync(
                        #[trigger] cleanup@[base + j],
                        uid,
                        ended@[j].0@,
                        ended@[j].1.sync_id@,
                        opt_text(ended@[j].1.last_sync),
                        Some(ended@[j].1.last_id),
                    ),
            decreases ended@.len() - i,
        {
            let entry = &ended[i];
            let request = self.client.end_project_sync(
                uid,
                entry.0.as_str(),
                entry.1.sync_id.as_str(),
                as_opt_str(&entry.1.last_sync),
                Some(entry.1.last_id),
            );
            cleanup.push(request);
            i += 1;
        }
        let request = self.client.begin_projects_sync(uid);
        proof {
            let rest = match before.account_sync_id {
                Some(_) => cleanup@.drop_first(),
                None => cleanup@,
            };
            assert forall|j: int| 0 <= j < ended@.len() implies before.client.is_end_project_sync(
                #[trigger] rest[j],
                uid,
                ended@[j].0@,
                ended@[j].1.sync_id@,
                opt_text(ended@[j].1.last_sync),
                Some(ended@[j].1.last_id),
            ) by {
                assert(rest[j] == cleanup@[base + j]);
            }
        }
        ToolStep::Call(ToolCall { cleanup, request, pending: Pending::BeginAccountSync })
    }

    /// Ends the account-level sync.
    pub fn tool_end_account_sync(&mut self) -> (step: ToolStep)
        ensures
            end_account_sync_step(*old(self), *final(self), step),
            old(self).syncs_exclusive() ==> final(self).syncs_exclusive(),
    {
        let uid = match self.require_user() {
            Ok(u) => u,
            Err(e) => return ToolStep::Finished(Err(e)),
        };
        let sid = match self.account_sync_id.take() {
            Some(s) => s,
            None => return err_step("No active account sync session"),
        };
        let request = self.client.end_projects_sync(uid, sid.as_str());
        ToolStep::Call(ToolCall { cleanup: Vec::new(), request, pending: Pending::EndAccountSync })
    }

    /// The user and the account sync, or the step that reports which is
    /// missing.
    fn account_context(&self) -> (r: Result<(i64, String), ToolStep>)
        ensures
            match r {
                Ok((u, sid)) => account_ready(*self) == Some(
                    (u, sid@),
                ),
                Err(step) => account_ready(*self) is None && account_failure(*self, step),
            },
    {
        let uid = match self.require_user() {
            Ok(u) => u,
            Err(e) => return Err(ToolStep::Finished(Err(e))),
        };
        match self.require_account_sync() {
            Ok(sid) => Ok((uid, sid)),
            Err(e) => Err(ToolStep::Finished(Err(e))),
        }
    }

    /// Creates a project (under the account sync).
    pub fn tool_create_project(&self, args: &JsonValue) -> (step: ToolStep)
        ensures
            create_project_step(*self, *args, step),
    {
        let (uid, sid) = match self.account_context() {
            Ok(c) => c,
            Err(step) => return step,
        };
        let name = match args.str_at("project_name") {
            Some(n) => n,
            None => return err_step("project_name required"),
        };
        let request = self.client.create_project(uid, sid.as_str(), name.as_str());
        ToolStep::Call(ToolCall { cleanup: Vec::new(), request, pending: Pending::CreateProject })
    }

    /// Deletes a project (under the account sync).
    pub fn tool_delete_project(&self, args: &JsonValue) -> (step: ToolStep)
        ensures
            delete_project_step(*self, *args, step),
    {
        let (uid, sid) = match self.account_context() {
            Ok(c) => c,
            Err(step) => return step,
        };
        let pid = match args.str_at("project_id") {
            Some(p) => p,
            None => return err_step("project_id required"),
        };
        let request = self.client.delete_project(uid, sid.as_str(), pid.as_str());
        ToolStep::Call(ToolCall { cleanup: Vec::new(), request, pending: Pending::DeleteProject(pid) })
    }

    /// Renames a project (under the account sync).
    pub fn tool_rename_project(&self, args: &JsonValue) -> (step: ToolStep)
        ensures
            rename_project_step(*self, *args, step),
    {
        let (uid, sid) = match self.account_context() {
            Ok(c) => c,
            Err(step) => return step,
        };
        let pid = match args.str_at("project_id") {
            Some(p) => p,
            None => return err_step("project_id required"),
        };
        let name = match args.str_at("new_name") {
            Some(n) => n,
            None => return err_step("new_name required"),
        };
        let request = self.client.rename_project(uid, sid.as_str(), pid.as_str(), name.as_str());
        ToolStep::Call(ToolCall { cleanup: Vec::new(), request, pending: Pending::RenameProject })
    }
}

// ── Project-level tools ───────────────────────────────────────

/// The `(id, hash)` pairs of the items that have an integer `id` and a
/// string `hash`, in order; each id cut to 32 bits.
pub open spec fn hash_items(items: Seq<JsonValue>) -> Seq<(i32, Seq<char>)>
    decreases items.len(),
{
    if items.len() == 0 {
        seq![]
    } else {
        let rest = hash_items(items.drop_last());
        match (items.last().at("id"@).i64_of(), items.last().at("hash"@).str_of()) {
            (Some(id), Some(h)) => rest.push((id as i32, h)),
            _ => rest,
        }
    }
}

/// The entity state that `begin_project_sync` reports for these
/// arguments: the entity hashes listed, when any are.
pub open spec fn reported_hashes(args: JsonValue) -> Option<Seq<(i32, Seq<char>)>> {
    match args.at("entity_hashes"@).array_of() {
        Some(items) => if hash_items(items).len() == 0 {
            None
        } else {
            Some(hash_items(items))
        },
        None => None,
    }
}

pub open spec fn entity_hash_texts(entities: Seq<EntityHash>) -> Seq<(i32, Seq<char>)> {
    entities.map_values(|e: EntityHash| (e.id, e.hash@))
}

/// The entity state a request sends.
pub open spec fn sent_state(r: HttpRequest) -> Option<ClientEntityState> {
    match r.body {
        RequestBody::GzipJson(st) => Some(st),
        _ => None,
    }
}

pub open spec fn state_texts(st: Option<ClientEntityState>) -> Option<Seq<(i32, Seq<char>)>> {
    match st {
        Some(s) => Some(entity_hash_texts(s.entities@)),
        None => None,
    }
}

/// `v as i32`, where there is a `v`.
pub open spec fn opt_i32(o: Option<i64>) -> Option<i32> {
    match o {
        Some(v) => Some(v as i32),
        None => None,
    }
}

pub open spec fn begin_project_sync_step(old: McpServer, new: McpServer, args: JsonValue, step: ToolStep) -> bool {
    match old.user_id {
        None => finished_err(step, not_authenticated_msg()) && new == old,
        Some(uid) => match args.at("project_id"@).str_of() {
            None => finished_err(step, "project_id required"@) && new == old,
            Some(pid) => {
                &&& new.client == old.client
                &&& new.user_id == old.user_id
                &&& new.account_sync_id is None
                &&& new.project_sessions == old.project_sessions
                &&& step matches ToolStep::Call(c) && c.pending matches Pending::BeginProjectSync(p) && p@ == pid
                    && match old.account_sync_id {
                    Some(sid) => c.cleanup@.len() == 1 && old.client.is_end_projects_sync(c.cleanup@[0], uid, sid@),
                    None => c.cleanup@.len() == 0,
                } && old.client.is_begin_project_sync(c.request, uid, pid, sent_state(c.request))
                    && state_texts(sent_state(c.request)) == reported_hashes(args)
            },
        },
    }
}

pub open spec fn end_project_sync_step(old: McpServer, new: McpServer, args: JsonValue, step: ToolStep) -> bool {
    match old.user_id {
        None => finished_err(step, not_authenticated_msg()) && new == old,
        Some(uid) => match args.at("project_id"@).str_of() {
            None => finished_err(step, "project_id required"@) && new == old,
            Some(pid) => if !old.project_sessions@.contains_key(pid) {
                finished_err(
                    step,
                    "No active project sync session for this project. Call hammer_begin_project_sync first."@,
                ) && new == old
            } else {
                &&& new.client == old.client
                &&& new.user_id == old.user_id
                &&& new.account_sync_id == old.account_sync_id
                &&& new.project_sessions@ == old.project_sessions@.remove(pid)
                &&& step matches ToolStep::Call(c) && c.pending is EndProjectSync && c.cleanup@.len() == 0
                    && old.client.is_end_project_sync(c.request, uid, pid,
                    old.project_sessions@[pid].sync_id@, args.at("last_sync"@).str_of(),
                    opt_i32(args.at("last_id"@).i64_of()))
            },
        },
    }
}

pub open spec fn download_entity_step(s: McpServer, args: JsonValue, step: ToolStep) -> bool {
    match s.user_id {
        None => finished_err(step, not_authenticated_msg()),
        Some(uid) => match args.at("project_id"@).str_of() {
            None => finished_err(step, "project_id required"@),
            Some(pid) => match args.at("entity_id"@).i64_of() {
                None => finished_err(step, "entity_id required"@),
                Some(eid) => if !s.project_sessions@.contains_key(pid) {
                    finished_err(step, no_project_sync_msg(pid))
                } else {
                    step matches ToolStep::Call(c) && c.pending is DownloadEntity && c.cleanup@.len() == 0
                        && s.client.is_download_entity(c.request, uid, pid, eid as i32,
                        s.project_sessions@[pid].sync_id@, args.at("entity_hash"@).str_of())
                },
            },
        },
    }
}

/// The `entity` argument is an object without a `type` member of its own,
/// and `entity_type` is a string: the entity is read as that type.
pub open spec fn entity_untagged(args: JsonValue) -> bool {
    &&& args.at("entity"@) matches JsonValue::Object(f) && crate::json::member(f@, "type"@) is None
    &&& args.at("entity_type"@).str_of() is Some
}

/// The `entity` argument of an upload, as it is read into an entity: with
/// the member `"type": entity_type` appended where it has no type of its
/// own, as it is otherwise (`null` where there is none).
pub fn entity_argument(args: JsonValue) -> (e: JsonValue)
    ensures
        entity_untagged(args) ==> (e matches JsonValue::Object(g) && args.at("entity"@) matches JsonValue::Object(f)
            && g@.len() == f@.len() + 1 && g@.drop_last() == f@ && g@.last().0@ == "type"@
            && g@.last().1.str_of() == args.at("entity_type"@).str_of()),
        !entity_untagged(args) ==> e == args.at("entity"@),
{
    let named = args.str_at("entity_type");
    let entity = match args.into_member("entity") {
        Some(e) => e,
        None => JsonValue::Null,
    };
    let untagged = match &entity {
        JsonValue::Object(_) => named.is_some() && entity.member("type").is_none(),
        _ => false,
    };
    if untagged {
        match (entity, named) {
            (JsonValue::Object(fields), Some(t)) => {
                let mut fields = fields;
                let ghost before = fields@;
                fields.push((String::from_str("type"), JsonValue::Str(t)));
                proof {
                    reveal_strlit("type");
                    assert(fields@.drop_last() =~= before);
                }
                JsonValue::Object(fields)
            },
            (other, _) => other,
        }
    } else {
        entity
    }
}

/// The error of an upload whose entity is of another type than the
/// `entity_type` argument names.
pub open spec fn entity_type_mismatch_msg(given: Seq<char>, actual: Seq<char>) -> Seq<char> {
    "entity_type '"@ + given + "' does not match the entity's type '"@ + actual + "'"@
}

/// Uploading an entity: `entity` is the argument `entity` read as an
/// entity, of the type that `entity_type` names where it carries no type
/// of its own; the upload goes ahead when that type is the one named.
pub open spec fn upload_entity_step(
    s: McpServer,
    args: JsonValue,
    entity: Result<ApiProjectEntity, String>,
    step: ToolStep,
) -> bool {
    match s.user_id {
        None => finished_err(step, not_authenticated_msg()),
        Some(uid) => match args.at("project_id"@).str_of() {
            None => finished_err(step, "project_id required"@),
            Some(pid) => if !s.project_sessions@.contains_key(pid) {
                finished_err(step, no_project_sync_msg(pid))
            } else {
                match args.at("entity_type"@).str_of() {
                    None => finished_err(step, "entity_type required"@),
                    Some(t) => match entity {
                        Err(e) => finished_err(step, "Invalid entity JSON: "@ + e@),
                        Ok(en) => if entity_type_name(en.kind()) != t {
                            finished_err(step, entity_type_mismatch_msg(t, entity_type_name(en.kind())))
                        } else {
                            step matches ToolStep::Call(c) && c.pending is UploadEntity && c.cleanup@.len()
                                == 0 && s.client.is_upload_entity(c.request, uid, pid, en,
                                s.project_sessions@[pid].sync_id@, args.at("original_hash"@).str_of(),
                                args.at("force"@).bool_of() == Some(true))
                        },
                    },
                }
            },
        },
    }
}

pub open spec fn delete_entity_step(s: McpServer, args: JsonValue, step: ToolStep) -> bool {
    match s.user_id {
        None => finished_err(step, not_authenticated_msg()),
        Some(uid) => match args.at("project_id"@).str_of() {
            None => finished_err(step, "project_id required"@),
            Some(pid) => match args.at("entity_id"@).i64_of() {
                None => finished_err(step, "entity_id required"@),
                Some(eid) => if !s.project_sessions@.contains_key(pid) {
                    finished_err(step, no_project_sync_msg(pid))
                } else {
                    step matches ToolStep::Call(c) && c.pending is DeleteEntity && c.cleanup@.len() == 0
                        && s.client.is_delete_entity(c.request, uid, pid, eid as i32,
                        s.project_sessions@[pid].sync_id@)
                },
            },
        },
    }
}

pub open spec fn get_project_data_step(s: McpServer, args: JsonValue, step: ToolStep) -> bool {
    match s.user_id {
        None => finished_err(step, not_authenticated_msg()),
        Some(uid) => match args.at("project_id"@).str_of() {
            None => finished_err(step, "project_id required"@),
            Some(pid) => step matches ToolStep::Call(c) && c.pending is GetProjectData && c.cleanup@.len() == 0
                && s.client.is_get_project_data(c.request, uid, pid),
        },
    }
}

pub open spec fn upload_project_data_step(
    s: McpServer,
    args: JsonValue,
    data: Result<ProjectData, String>,
    step: ToolStep,
) -> bool {
    match s.user_id {
        None => finished_err(step, not_authenticated_msg()),
        Some(uid) => match args.at("project_id"@).str_of() {
            None => finished_err(step, "project_id required"@),
            Some(pid) => match data {
                Err(e) => finished_err(step, "Invalid project data: "@ + e@),
                Ok(d) => step matches ToolStep::Call(c) && c.pending is UploadProjectData && c.cleanup@.len()
                    == 0 && s.client.is_upload_project_data(c.request, uid, pid, d,
                    args.at("original_hash"@).str_of(), args.at("hash"@).str_of()),
            },
        },
    }
}

pub open spec fn get_writing_activity_step(s: McpServer, args: JsonValue, step: ToolStep) -> bool {
    match s.user_id {
        None => finished_err(step, not_authenticated_msg()),
        Some(uid) => match args.at("project_id"@).str_of() {
            None => finished_err(step, "project_id required"@),
            Some(pid) => step matches ToolStep::Call(c) && c.pending is GetWritingActivity
                && c.cleanup@.len() == 0 && s.client.is_get_writing_activity(c.request, uid, pid),
        },
    }
}

/// The text, or the empty text.
pub open spec fn text_or_empty(o: Option<Seq<char>>) -> Seq<char> {
    match o {
        Some(t) => t,
        None => Seq::empty(),
    }
}

/// The `(project_id, hash)` of each item, a missing string read as empty.
pub open spec fn probe_items(items: Seq<JsonValue>) -> Seq<(Seq<char>, Seq<char>)> {
    items.map_values(
        |p: JsonValue| (text_or_empty(p.at("project_id"@).str_of()), text_or_empty(p.at("hash"@).str_of())),
    )
}

pub open spec fn probe_texts(projects: Seq<ProjectHashItem>) -> Seq<(Seq<char>, Seq<char>)> {
    projects.map_values(|p: ProjectHashItem| (p.project_id.0@, p.hash@))
}

/// The project list a request sends.
pub open spec fn sent_projects(r: HttpRequest) -> Seq<ProjectHashItem> {
    match r.body {
        RequestBody::Json(RequestPayload::SyncProbe(p)) => p.projects@,
        _ => Seq::empty(),
    }
}

pub open spec fn sync_probe_step(s: McpServer, args: JsonValue, step: ToolStep) -> bool {
    match s.user_id {
        None => finished_err(step, not_authenticated_msg()),
        Some(uid) => match args.at("projects"@).array_of() {
            None => finished_err(step, "projects array required"@),
            Some(items) => step matches ToolStep::Call(c) && c.pending is SyncProbe && c.cleanup@.len() == 0
                && (c.request.body matches RequestBody::Json(RequestPayload::SyncProbe(p))
                && s.client.is_sync_probe(c.request, uid, p.projects)) && probe_texts(sent_projects(c.request))
                == probe_items(items),
        },
    }
}

impl McpServer {
    /// The entity hashes listed in `items`.
    fn collect_hashes(items: &Vec<JsonValue>) -> (r: Vec<EntityHash>)
        ensures
            entity_hash_texts(r@) == hash_items(items@),
    {
        let mut r: Vec<EntityHash> = Vec::new();
        let mut i: usize = 0;
        while i < items.len()
            invariant
                0 <= i <= items@.len(),
                entity_hash_texts(r@) == hash_items(items@.take(i as int)),
            decreases items@.len() - i,
        {
            let ghost before = r@;
            let item = &items[i];
            assert(items@.take(i + 1).drop_last() =~= items@.take(i as int));
            assert(items@.take(i + 1).last() == items@[i as int]);
            match (item.i64_at("id"), item.str_at("hash")) {
                (Some(id), Some(h)) => {
                    r.push(EntityHash { id: #[verifier::truncate] (id as i32), hash: h });
                    assert(entity_hash_texts(r@) =~= entity_hash_texts(before).push((id as i32, r@.last().hash@)));
                },
                _ => {},
            }
            i += 1;
        }
        assert(items@.take(items@.len() as int) =~= items@);
        r
    }

    /// Starts a project-level sync: ends the account sync first (the sync
    /// server does not allow concurrent sessions), and reports the entity
    /// hashes listed in `entity_hashes`, if any.
    pub fn tool_begin_project_sync(&mut self, args: &JsonValue) -> (step: ToolStep)
        ensures
            begin_project_sync_step(*old(self), *final(self), *args, step),
            old(self).syncs_exclusive() ==> final(self).syncs_exclusive(),
    {
        let uid = match self.require_user() {
            Ok(u) => u,
            Err(e) => return ToolStep::Finished(Err(e)),
        };
        let pid = match args.str_at("project_id") {
            Some(p) => p,
            None => return err_step("project_id required"),
        };
        let mut cleanup: Vec<HttpRequest> = Vec::new();
        if let Some(sid) = self.account_sync_id.take() {
            cleanup.push(self.client.end_projects_sync(uid, sid.as_str()));
        }
        let client_state = match args.array_at("entity_hashes") {
            Some(items) => {
                let entities = Self::collect_hashes(items);
                if entities.len() == 0 {
                    None
                } else {
                    Some(ClientEntityState { entities })
                }
            },
            None => None,
        };
        let request = self.client.begin_project_sync(uid, pid.as_str(), client_state);
        ToolStep::Call(ToolCall { cleanup, request, pending: Pending::BeginProjectSync(pid) })
    }

    /// Ends a project-level sync, reporting `last_sync` and `last_id`.
    pub fn tool_end_project_sync(&mut self, args: &JsonValue) -> (step: ToolStep)
        ensures
            end_project_sync_step(*old(self), *final(self), *args, step),
            old(self).syncs_exclusive() ==> final(self).syncs_exclusive(),
    {
        let uid = match self.require_user() {
            Ok(u) => u,
            Err(e) => return ToolStep::Finished(Err(e)),
        };
        let pid = match args.str_at("project_id") {
            Some(p) => p,
            None => return err_step("project_id required"),
        };
        let session = match self.project_sessions.remove(pid.as_str()) {
            Some(s) => s,
            None => {
                return err_step(
                    "No active project sync session for this project. Call hammer_begin_project_sync first.",
                )
            },
        };
        let last_sync = args.str_at("last_sync");
        let last_id = match args.i64_at("last_id") {
            Some(v) => Some(#[verifier::truncate] (v as i32)),
            None => None,
        };
        let request = self.client.end_project_sync(
            uid,
            pid.as_str(),
            session.sync_id.as_str(),
            as_opt_str(&last_sync),
            last_id,
        );
        ToolStep::Call(ToolCall { cleanup: Vec::new(), request, pending: Pending::EndProjectSync })
    }

    /// Downloads an entity (under its project's sync).
    pub fn tool_download_entity(&self, args: &JsonValue) -> (step: ToolStep)
        ensures
            download_entity_step(*self, *args, step),
    {
        let uid = match self.require_user() {
            Ok(u) => u,
            Err(e) => return ToolStep::Finished(Err(e)),
        };
        let pid = match args.str_at("project_id") {
            Some(p) => p,
            None => return err_step("project_id required"),
        };
        let eid = match args.i64_at("entity_id") {
            Some(v) => #[verifier::truncate] (v as i32),
            None => return err_step("entity_id required"),
        };
        let hash = args.str_at("entity_hash");
        let session = match self.require_project_sync(pid.as_str()) {
            Ok(s) => s,
            Err(e) => return ToolStep::Finished(Err(e)),
        };
        let request = self.client.download_entity(uid, pid.as_str(), eid, session.sync_id.as_str(),
            as_opt_str(&hash));
        ToolStep::Call(ToolCall { cleanup: Vec::new(), request, pending: Pending::DownloadEntity })
    }

    /// Uploads an entity (under its project's sync).
    pub fn tool_upload_entity(&self, args: &JsonValue, entity: Result<ApiProjectEntity, String>) -> (step: ToolStep)
        ensures
            upload_entity_step(*self, *args, entity, step),
    {
        let uid = match self.require_user() {
            Ok(u) => u,
            Err(e) => return ToolStep::Finished(Err(e)),
        };
        let pid = match args.str_at("project_id") {
            Some(p) => p,
            None => return err_step("project_id required"),
        };
        let session = match self.require_project_sync(pid.as_str()) {
            Ok(s) => s,
            Err(e) => return ToolStep::Finished(Err(e)),
        };
        let force = match args.bool_at("force") {
            Some(b) => b,
            None => false,
        };
        let original_hash = args.str_at("original_hash");
        let named = match args.str_at("entity_type") {
            Some(t) => t,
            None => return err_step("entity_type required"),
        };
        let entity = match entity {
            Ok(e) => e,
            Err(e) => {
                let mut m = String::from_str("Invalid entity JSON: ");
                m.append(e.as_str());
                return ToolStep::Finished(Err(m));
            },
        };
        let actual = entity.entity_type().as_header_value();
        if !same_text(named.as_str(), actual) {
            let mut m = String::from_str("entity_type '");
            m.append(named.as_str());
            m.append("' does not match the entity's type '");
            m.append(actual);
            m.append("'");
            return ToolStep::Finished(Err(m));
        }
        let request = self.client.upload_entity(uid, pid.as_str(), entity, session.sync_id.as_str(),
            as_opt_str(&original_hash), force);
        ToolStep::Call(ToolCall { cleanup: Vec::new(), request, pending: Pending::UploadEntity })
    }

    /// Deletes an entity (under its project's sync).
    pub fn tool_delete_entity(&self, args: &JsonValue) -> (step: ToolStep)
        ensures
            delete_entity_step(*self, *args, step),
    {
        let uid = match self.require_user() {
            Ok(u) => u,
            Err(e) => return ToolStep::Finished(Err(e)),
        };
        let pid = match args.str_at("project_id") {
            Some(p) => p,
            None => return err_step("project_id required"),
        };
        let eid = match args.i64_at("entity_id") {
            Some(v) => #[verifier::truncate] (v as i32),
            None => return err_step("entity_id required"),
        };
        let session = match self.require_project_sync(pid.as_str()) {
            Ok(s) => s,
            Err(e) => return ToolStep::Finished(Err(e)),
        };
        let request = self.client.delete_entity(uid, pid.as_str(), eid, session.sync_id.as_str());
        ToolStep::Call(ToolCall { cleanup: Vec::new(), request, pending: Pending::DeleteEntity })
    }

    /// Reads a project's metadata.
    pub fn tool_get_project_data(&self, args: &JsonValue) -> (step: ToolStep)
        ensures
            get_project_data_step(*self, *args, step),
    {
        let uid = match self.require_user() {
            Ok(u) => u,
            Err(e) => return ToolStep::Finished(Err(e)),
        };
        let pid = match args.str_at("project_id") {
            Some(p) => p,
            None => return err_step("project_id required"),
        };
        let request = self.client.get_project_data(uid, pid.as_str());
        ToolStep::Call(ToolCall { cleanup: Vec::new(), request, pending: Pending::GetProjectData })
    }

    /// Uploads a project's metadata.
    pub fn tool_upload_project_data(&self, args: &JsonValue, data: Result<ProjectData, String>) -> (step: ToolStep)
        ensures
            upload_project_data_step(*self, *args, data, step),
    {
        let uid = match self.require_user() {
            Ok(u) => u,
            Err(e) => return ToolStep::Finished(Err(e)),
        };
        let pid = match args.str_at("project_id") {
            Some(p) => p,
            None => return err_step("project_id required"),
        };
        let ohash = args.str_at("original_hash");
        let hash = args.str_at("hash");
        let data = match data {
            Ok(d) => d,
            Err(e) => {
                let mut m = String::from_str("Invalid project data: ");
                m.append(e.as_str());
                return ToolStep::Finished(Err(m));
            },
        };
        let request = self.client.upload_project_data(uid, pid.as_str(), data, as_opt_str(&ohash),
            as_opt_str(&hash));
        ToolStep::Call(ToolCall { cleanup: Vec::new(), request, pending: Pending::UploadProjectData })
    }

    /// Reads a project's writing activity, for every device.
    pub fn tool_get_writing_activity(&self, args: &JsonValue) -> (step: ToolStep)
        ensures
            get_writing_activity_step(*self, *args, step),
    {
        let uid = match self.require_user() {
            Ok(u) => u,
            Err(e) => return ToolStep::Finished(Err(e)),
        };
        let pid = match args.str_at("project_id") {
            Some(p) => p,
            None => return err_step("project_id required"),
        };
        let request = self.client.get_writing_activity(uid, pid.as_str());
        ToolStep::Call(ToolCall { cleanup: Vec::new(), request, pending: Pending::GetWritingActivity })
    }

    /// Asks which of the listed projects are unchanged.
    pub fn tool_sync_probe(&self, args: &JsonValue) -> (step: ToolStep)
        ensures
            sync_probe_step(*self, *args, step),
    {
        let uid = match self.require_user() {
            Ok(u) => u,
            Err(e) => return ToolStep::Finished(Err(e)),
        };
        let items = match args.array_at("projects") {
            Some(items) => items,
            None => return err_step("projects array required"),
        };
        let mut projects: Vec<ProjectHashItem> = Vec::new();
        let mut i: usize = 0;
        while i < items.len()
            invariant
                0 <= i <= items@.len(),
                probe_texts(projects@) == probe_items(items@.take(i as int)),
            decreases items@.len() - i,
        {
            let item = &items[i];
            let pid = match item.str_at("project_id") {
                Some(p) => p,
                None => String::new(),
            };
            let hash = match item.str_at("hash") {
                Some(h) => h,
                None => String::new(),
            };
            let ghost before = projects@;
            projects.push(ProjectHashItem { project_id: ProjectId(pid), hash });
            assert(probe_texts(projects@) =~= probe_texts(before).push(
                (text_or_empty(items@[i as int].at("project_id"@).str_of()),
                text_or_empty(items@[i as int].at("hash"@).str_of())),
            ));
            assert(items@.take(i + 1) =~= items@.take(i as int).push(items@[i as int]));
            assert(probe_items(items@.take(i + 1)) =~= probe_items(items@.take(i as int)).push(
                (text_or_empty(items@[i as int].at("project_id"@).str_of()),
                text_or_empty(items@[i as int].at("hash"@).str_of())),
            ));
            i += 1;
        }
        assert(items@.take(items@.len() as int) =~= items@);
        let request = self.client.sync_probe(uid, projects);
        ToolStep::Call(ToolCall { cleanup: Vec::new(), request, pending: Pending::SyncProbe })
    }
}

// ── Ideas ─────────────────────────────────────────────────────

/// The strings among the items, in order.
pub open spec fn text_items(items: Seq<JsonValue>) -> Seq<Seq<char>>
    decreases items.len(),
{
    if items.len() == 0 {
        seq![]
    } else {
        let rest = text_items(items.drop_last());
        match items.last().str_of() {
            Some(t) => rest.push(t),
            None => rest,
        }
    }
}

/// The tags of an upload: the strings of the `tags` array, if there is one.
/// Each text once, where it first occurs.
pub open spec fn first_occurrences(s: Seq<Seq<char>>) -> Seq<Seq<char>>
    decreases s.len(),
{
    if s.len() == 0 {
        seq![]
    } else if s.drop_last().contains(s.last()) {
        first_occurrences(s.drop_last())
    } else {
        first_occurrences(s.drop_last()).push(s.last())
    }
}

/// Keeping the first occurrences keeps every text, each once.
pub proof fn lemma_first_occurrences(s: Seq<Seq<char>>)
    ensures
        forall|x: Seq<char>| #[trigger] first_occurrences(s).contains(x) <==> s.contains(x),
        first_occurrences(s).no_duplicates(),
    decreases s.len(),
{
    if s.len() > 0 {
        let d = s.drop_last();
        let l = s.last();
        let fd = first_occurrences(d);
        lemma_first_occurrences(d);
        assert forall|x: Seq<char>| s.contains(x) <==> (d.contains(x) || x == l) by {
            if s.contains(x) {
                let j = choose|j: int| 0 <= j < s.len() && s[j] == x;
                if j < d.len() {
                    assert(d[j] == x);
                }
            }
            if d.contains(x) {
                let j = choose|j: int| 0 <= j < d.len() && d[j] == x;
                assert(s[j] == x);
            }
            if x == l {
                assert(s[s.len() - 1] == x);
            }
        }
        if d.contains(l) {
            assert(first_occurrences(s) == fd);
        } else {
            let f = fd.push(l);
            assert(first_occurrences(s) == f);
            assert forall|x: Seq<char>| #[trigger] f.contains(x) <==> (fd.contains(x) || x == l) by {
                if f.contains(x) {
                    let j = choose|j: int| 0 <= j < f.len() && f[j] == x;
                    if j < fd.len() {
                        assert(fd[j] == x);
                    }
                }
                if fd.contains(x) {
                    let j = choose|j: int| 0 <= j < fd.len() && fd[j] == x;
                    assert(f[j] == x);
                }
                if x == l {
                    assert(f[f.len() - 1] == x);
                }
            }
            assert(!fd.contains(l));
            assert forall|i: int, j: int| 0 <= i < f.len() && 0 <= j < f.len() && i != j implies f[i] != f[j] by {
                if i < fd.len() && j < fd.len() {
                } else if i < fd.len() {
                    assert(fd.contains(f[i]));
                } else {
                    assert(fd.contains(f[j]));
                }
            }
        }
    }
}

/// The string tags of a call's `tags` argument, each once, in the order
/// they first occur (a set of tags, as the idea holds them).
pub open spec fn tag_args(args: JsonValue) -> Seq<Seq<char>> {
    match args.at("tags"@).array_of() {
        Some(items) => first_occurrences(text_items(items)),
        None => seq![],
    }
}

pub open spec fn texts(v: Seq<String>) -> Seq<Seq<char>> {
    v.map_values(|s: String| s@)
}

/// The idea a request sends.
pub open spec fn sent_idea(r: HttpRequest) -> Option<StoryIdea> {
    match r.body {
        RequestBody::Json(RequestPayload::Idea(u)) => Some(u.idea),
        _ => None,
    }
}

pub open spec fn get_ideas_state_step(s: McpServer, step: ToolStep) -> bool {
    match account_ready(s) {
        None => account_failure(s, step),
        Some((uid, sid)) => step matches ToolStep::Call(c) && c.pending is GetIdeasState && c.cleanup@.len()
            == 0 && s.client.is_ideas_sync_state(c.request, uid, sid),
    }
}

pub open spec fn download_idea_step(s: McpServer, args: JsonValue, step: ToolStep) -> bool {
    match account_ready(s) {
        None => account_failure(s, step),
        Some((uid, sid)) => match args.at("idea_id"@).str_of() {
            None => finished_err(step, "idea_id required"@),
            Some(iid) => step matches ToolStep::Call(c) && c.pending is DownloadIdea && c.cleanup@.len() == 0
                && s.client.is_download_idea(c.request, uid, iid, sid),
        },
    }
}

pub open spec fn upload_idea_step(s: McpServer, args: JsonValue, step: ToolStep) -> bool {
    match account_ready(s) {
        None => account_failure(s, step),
        Some((uid, sid)) => match args.at("idea_id"@).str_of() {
            None => finished_err(step, "idea_id required"@),
            Some(iid) => match args.at("text"@).str_of() {
                None => finished_err(step, "text required"@),
                Some(text) => step matches ToolStep::Call(c) && c.pending is UploadIdea && c.cleanup@.len()
                    == 0 && (sent_idea(c.request) matches Some(idea) && s.client.is_upload_idea(c.request,
                    uid, iid, idea, text_or_empty(args.at("hash"@).str_of()),
                    args.at("original_hash"@).str_of(), sid) && idea.text@ == text && texts(idea.tags@)
                    == tag_args(args)),
            },
        },
    }
}

pub open spec fn delete_idea_step(s: McpServer, args: JsonValue, step: ToolStep) -> bool {
    match account_ready(s) {
        None => account_failure(s, step),
        Some((uid, sid)) => match args.at("idea_id"@).str_of() {
            None => finished_err(step, "idea_id required"@),
            Some(iid) => step matches ToolStep::Call(c) && c.pending is DeleteIdea && c.cleanup@.len() == 0
                && s.client.is_delete_idea(c.request, uid, iid, sid),
        },
    }
}

pub open spec fn login_step(s: McpServer, args: JsonValue, step: ToolStep) -> bool {
    match args.at("email"@).str_of() {
        None => finished_err(step, "email required"@),
        Some(email) => match args.at("password"@).str_of() {
            None => finished_err(step, "password required"@),
            Some(password) => step matches ToolStep::Call(c) && c.pending is Login && c.cleanup@.len() == 0
                && s.client.is_login(c.request, email, password, login_install_id(c.request))
                && is_v4_uuid_text(login_install_id(c.request)),
        },
    }
}

// ── Entity schemas ────────────────────────────────────────────

/// The schema of each entity type: its display name and its fields, each
/// with a short description of its JSON type.
pub open spec fn schema_table(t: Seq<char>) -> Option<(Seq<char>, Seq<(Seq<char>, Option<Seq<char>>)>)> {
    if t == "scene"@ {
        Some(
            (
                "Scene"@,
                seq![
                    ("id"@, Some("integer"@)),
                    ("scene_type"@, Some("\"Scene\"|\"Group\""@)),
                    ("order"@, Some("integer"@)),
                    ("name"@, Some("string"@)),
                    ("path"@, Some("[integer]"@)),
                    ("content"@, Some("string (markdown)"@)),
                    ("outline"@, Some("string"@)),
                    ("notes"@, Some("string"@)),
                    ("archived"@, Some("boolean"@)),
                    ("confirmed_references"@, Some("[integer]"@)),
                    ("dismissed_references"@, Some("[integer]"@)),
                    ("tags"@, Some("[string]"@)),
                    ("created"@, Some("ISO 8601 datetime"@)),
                    ("lastEdited"@, Some("ISO 8601 datetime"@)),
                ],
            ),
        )
    } else if t == "note"@ {
        Some(
            (
                "Note"@,
                seq![
                    ("id"@, Some("integer"@)),
                    ("content"@, Some("string (markdown)"@)),
                    ("created"@, Some("ISO 8601 datetime"@)),
                    ("tags"@, Some("[string]"@)),
                ],
            ),
        )
    } else if t == "timeline_event"@ {
        Some(
            (
                "TimelineEvent"@,
                seq![
                    ("id"@, Some("integer"@)),
                    ("order"@, Some("integer"@)),
                    ("date"@, Some("string (free-form, nullable)"@)),
                    ("content"@, Some("string (markdown)"@)),
                    ("tags"@, Some("[string]"@)),
                ],
            ),
        )
    } else if t == "encyclopedia_entry"@ {
        Some(
            (
                "EncyclopediaEntry"@,
                seq![
                    ("id"@, Some("integer"@)),
                    ("name"@, Some("string"@)),
                    ("entryType"@, Some("string (category)"@)),
                    ("text"@, Some("string (markdown)"@)),
                    ("tags"@, Some("[string]"@)),
                    ("image"@, Some("{base64,fileExtension} (nullable)"@)),
                    ("aliases"@, Some("[string]"@)),
                ],
            ),
        )
    } else if t == "scene_draft"@ {
        Some(
            (
                "SceneDraft"@,
                seq![
                    ("id"@, Some("integer"@)),
                    ("sceneId"@, Some("integer"@)),
                    ("created"@, Some("ISO 8601 datetime"@)),
                    ("name"@, Some("string"@)),
                    ("content"@, Some("string (markdown)"@)),
                ],
            ),
        )
    } else {
        None
    }
}

pub open spec fn unknown_entity_type_msg(t: Seq<char>) -> Seq<char> {
    "Unknown entity type: "@ + t
        + ". Use: scene, note, timeline_event, encyclopedia_entry, scene_draft"@
}

/// `v` is the schema object `{name, entity_type, fields}` of type `t`.
pub open spec fn is_schema(v: JsonValue, t: Seq<char>, name: Seq<char>, fields: Seq<(Seq<char>, Option<Seq<char>>)>) -> bool {
    &&& is_object(v, seq!["name"@, "entity_type"@, "fields"@])
    &&& field_value(v, 0).is_text(name)
    &&& field_value(v, 1).is_text(t)
    &&& field_value(v, 2) matches JsonValue::Object(f) && member_texts(f@) == fields
}

pub open spec fn entity_schema_result(args: JsonValue, r: Result<JsonValue, String>) -> bool {
    match args.at("entity_type"@).str_of() {
        None => r matches Err(e) && e@ == "entity_type required"@,
        Some(t) => match schema_table(t) {
            None => r matches Err(e) && e@ == unknown_entity_type_msg(t),
            Some((name, fields)) => r matches Ok(v) && is_schema(v, t, name, fields),
        },
    }
}

pub proof fn lemma_type_names_distinct()
    ensures
        "scene"@ != "note"@,
        "scene"@ != "timeline_event"@,
        "scene"@ != "encyclopedia_entry"@,
        "scene"@ != "scene_draft"@,
        "note"@ != "timeline_event"@,
        "note"@ != "encyclopedia_entry"@,
        "note"@ != "scene_draft"@,
        "timeline_event"@ != "encyclopedia_entry"@,
        "timeline_event"@ != "scene_draft"@,
        "encyclopedia_entry"@ != "scene_draft"@,
{
    reveal_strlit("scene");
    reveal_strlit("note");
    reveal_strlit("timeline_event");
    reveal_strlit("encyclopedia_entry");
    reveal_strlit("scene_draft");
    assert("scene"@[0] != "note"@[0]);
    assert("scene"@[0] != "timeline_event"@[0]);
    assert("scene"@[0] != "encyclopedia_entry"@[0]);
    assert("scene"@.len() != "scene_draft"@.len());
    assert("note"@[0] != "timeline_event"@[0]);
    assert("note"@[0] != "encyclopedia_entry"@[0]);
    assert("note"@[0] != "scene_draft"@[0]);
    assert("timeline_event"@[0] != "encyclopedia_entry"@[0]);
    assert("timeline_event"@[0] != "scene_draft"@[0]);
    assert("encyclopedia_entry"@[0] != "scene_draft"@[0]);
}

/// Whether two texts are the same.
pub fn same_text(a: &str, b: &str) -> (r: bool)
    ensures
        r == (a@ == b@),
{
    String::from_str(a) == String::from_str(b)
}

fn schema_object(t: &str, name: &str, fields: Vec<(String, JsonValue)>) -> (v: JsonValue)
    ensures
        is_schema(v, t@, name@, member_texts(fields@)),
{
    crate::json::object3("name", JsonValue::text(name), "entity_type", JsonValue::text(t), "fields",
        JsonValue::Object(fields))
}

fn scene_fields() -> (f: Vec<(String, JsonValue)>)
    ensures
        member_texts(f@) == schema_table("scene"@).unwrap().1,
{
    proof { lemma_type_names_distinct(); }
    let mut f: Vec<(String, JsonValue)> = Vec::new();
    push_text(&mut f, "id", "integer");
    push_text(&mut f, "scene_type", "\"Scene\"|\"Group\"");
    push_text(&mut f, "order", "integer");
    push_text(&mut f, "name", "string");
    push_text(&mut f, "path", "[integer]");
    push_text(&mut f, "content", "string (markdown)");
    push_text(&mut f, "outline", "string");
    push_text(&mut f, "notes", "string");
    push_text(&mut f, "archived", "boolean");
    push_text(&mut f, "confirmed_references", "[integer]");
    push_text(&mut f, "dismissed_references", "[integer]");
    push_text(&mut f, "tags", "[string]");
    push_text(&mut f, "created", "ISO 8601 datetime");
    push_text(&mut f, "lastEdited", "ISO 8601 datetime");
    assert(member_texts(f@) =~= schema_table("scene"@).unwrap().1);
    f
}

fn note_fields() -> (f: Vec<(String, JsonValue)>)
    ensures
        member_texts(f@) == schema_table("note"@).unwrap().1,
{
    proof { lemma_type_names_distinct(); }
    let mut f: Vec<(String, JsonValue)> = Vec::new();
    push_text(&mut f, "id", "integer");
    push_text(&mut f, "content", "string (markdown)");
    push_text(&mut f, "created", "ISO 8601 datetime");
    push_text(&mut f, "tags", "[string]");
    assert(member_texts(f@) =~= schema_table("note"@).unwrap().1);
    f
}

fn timeline_event_fields() -> (f: Vec<(String, JsonValue)>)
    ensures
        member_texts(f@) == schema_table("timeline_event"@).unwrap().1,
{
    proof { lemma_type_names_distinct(); }
    let mut f: Vec<(String, JsonValue)> = Vec::new();
    push_text(&mut f, "id", "integer");
    push_text(&mut f, "order", "integer");
    push_text(&mut f, "date", "string (free-form, nullable)");
    push_text(&mut f, "content", "string (markdown)");
    push_text(&mut f, "tags", "[string]");
    assert(member_texts(f@) =~= schema_table("timeline_event"@).unwrap().1);
    f
}

fn encyclopedia_entry_fields() -> (f: Vec<(String, JsonValue)>)
    ensures
        member_texts(f@) == schema_table("encyclopedia_entry"@).unwrap().1,
{
    proof { lemma_type_names_distinct(); }
    let mut f: Vec<(String, JsonValue)> = Vec::new();
    push_text(&mut f, "id", "integer");
    push_text(&mut f, "name", "string");
    push_text(&mut f, "entryType", "string (category)");
    push_text(&mut f, "text", "string (markdown)");
    push_text(&mut f, "tags", "[string]");
    push_text(&mut f, "image", "{base64,fileExtension} (nullable)");
    push_text(&mut f, "aliases", "[string]");
    assert(member_texts(f@) =~= schema_table("encyclopedia_entry"@).unwrap().1);
    f
}

fn scene_draft_fields() -> (f: Vec<(String, JsonValue)>)
    ensures
        member_texts(f@) == schema_table("scene_draft"@).unwrap().1,
{
    proof { lemma_type_names_distinct(); }
    let mut f: Vec<(String, JsonValue)> = Vec::new();
    push_text(&mut f, "id", "integer");
    push_text(&mut f, "sceneId", "integer");
    push_text(&mut f, "created", "ISO 8601 datetime");
    push_text(&mut f, "name", "string");
    push_text(&mut f, "content", "string (markdown)");
    assert(member_texts(f@) =~= schema_table("scene_draft"@).unwrap().1);
    f
}

impl McpServer {
    /// Reads the ideas' sync state (under the account sync).
    pub fn tool_get_ideas_state(&self) -> (step: ToolStep)
        ensures
            get_ideas_state_step(*self, step),
    {
        let (uid, sid) = match self.account_context() {
            Ok(c) => c,
            Err(step) => return step,
        };
        let request = self.client.ideas_sync_state(uid, sid.as_str());
        ToolStep::Call(ToolCall { cleanup: Vec::new(), request, pending: Pending::GetIdeasState })
    }

    /// Downloads a story idea (under the account sync).
    pub fn tool_download_idea(&self, args: &JsonValue) -> (step: ToolStep)
        ensures
            download_idea_step(*self, *args, step),
    {
        let (uid, sid) = match self.account_context() {
            Ok(c) => c,
            Err(step) => return step,
        };
        let iid = match args.str_at("idea_id") {
            Some(i) => i,
            None => return err_step("idea_id required"),
        };
        let request = self.client.download_idea(uid, iid.as_str(), sid.as_str());
        ToolStep::Call(ToolCall { cleanup: Vec::new(), request, pending: Pending::DownloadIdea })
    }

    /// Whether one of `r` is the text `t`.
    fn holds_text(r: &Vec<String>, t: &str) -> (b: bool)
        ensures
            b == texts(r@).contains(t@),
    {
        let mut j: usize = 0;
        while j < r.len()
            invariant
                0 <= j <= r@.len(),
                forall|k: int| 0 <= k < j ==> r@[k]@ != t@,
            decreases r@.len() - j,
        {
            if same_text(r[j].as_str(), t) {
                assert(texts(r@)[j as int] == t@);
                return true;
            }
            j += 1;
        }
        assert forall|k: int| 0 <= k < texts(r@).len() implies texts(r@)[k] != t@ by {
            assert(r@[k]@ != t@);
        }
        false
    }

    /// The strings of `items`, each once, in the order they first occur.
    fn collect_texts(items: &Vec<JsonValue>) -> (r: Vec<String>)
        ensures
            texts(r@) == first_occurrences(text_items(items@)),
    {
        let mut r: Vec<String> = Vec::new();
        let mut i: usize = 0;
        assert(texts(r@) =~= seq![]);
        while i < items.len()
            invariant
                0 <= i <= items@.len(),
                texts(r@) == first_occurrences(text_items(items@.take(i as int))),
            decreases items@.len() - i,
        {
            let ghost before = r@;
            let ghost prefix = text_items(items@.take(i as int));
            assert(items@.take(i + 1).drop_last() =~= items@.take(i as int));
            assert(items@.take(i + 1).last() == items@[i as int]);
            proof { lemma_first_occurrences(prefix); }
            match &items[i] {
                JsonValue::Str(t) => {
                    let ghost whole = prefix.push(t@);
                    assert(whole.drop_last() =~= prefix);
                    if !Self::holds_text(&r, t.as_str()) {
                        r.push(t.clone());
                        assert(texts(r@) =~= texts(before).push(t@));
                    }
                },
                _ => {},
            }
            i += 1;
        }
        assert(items@.take(items@.len() as int) =~= items@);
        r
    }

    /// Uploads a story idea (under the account sync).
    pub fn tool_upload_idea(&self, args: &JsonValue) -> (step: ToolStep)
        ensures
            upload_idea_step(*self, *args, step),
    {
        let (uid, sid) = match self.account_context() {
            Ok(c) => c,
            Err(step) => return step,
        };
        let iid = match args.str_at("idea_id") {
            Some(i) => i,
            None => return err_step("idea_id required"),
        };
        let text = match args.str_at("text") {
            Some(t) => t,
            None => return err_step("text required"),
        };
        let tags = match args.array_at("tags") {
            Some(items) => Self::collect_texts(items),
            None => {
                let v: Vec<String> = Vec::new();
                assert(texts(v@) =~= seq![]);
                v
            },
        };
        let hash = match args.str_at("hash") {
            Some(h) => h,
            None => String::new(),
        };
        let ohash = args.str_at("original_hash");
        let idea = StoryIdea { text, tags };
        let request = self.client.upload_idea(uid, iid.as_str(), idea, hash.as_str(), as_opt_str(&ohash),
            sid.as_str());
        ToolStep::Call(ToolCall { cleanup: Vec::new(), request, pending: Pending::UploadIdea })
    }

    /// Deletes a story idea (under the account sync).
    pub fn tool_delete_idea(&self, args: &JsonValue) -> (step: ToolStep)
        ensures
            delete_idea_step(*self, *args, step),
    {
        let (uid, sid) = match self.account_context() {
            Ok(c) => c,
            Err(step) => return step,
        };
        let iid = match args.str_at("idea_id") {
            Some(i) => i,
            None => return err_step("idea_id required"),
        };
        let request = self.client.delete_idea(uid, iid.as_str(), sid.as_str());
        ToolStep::Call(ToolCall { cleanup: Vec::new(), request, pending: Pending::DeleteIdea })
    }

    /// Logs in with `email` and `password` under a fresh install id.
    pub fn tool_login(&self, args: &JsonValue) -> (step: ToolStep)
        ensures
            login_step(*self, *args, step),
    {
        let email = match args.str_at("email") {
            Some(e) => e,
            None => return err_step("email required"),
        };
        let password = match args.str_at("password") {
            Some(p) => p,
            None => return err_step("password required"),
        };
        let install_id = crate::server::fresh_install_id();
        let request = self.client.login(email.as_str(), password.as_str(), install_id.as_str());
        ToolStep::Call(ToolCall { cleanup: Vec::new(), request, pending: Pending::Login })
    }

    /// Sets the user id.
    pub fn tool_set_user_id(&mut self, args: &JsonValue) -> (r: Result<JsonValue, String>)
        ensures
            match args.at("user_id"@).i64_of() {
                None => r matches Err(e) && e@ == "user_id (integer) required"@ && *final(self) == *old(self),
                Some(u) => {
                    &&& final(self).user_id == Some(u)
                    &&& final(self).client == old(self).client
                    &&& final(self).account_sync_id == old(self).account_sync_id
                    &&& final(self).project_sessions == old(self).project_sessions
                    &&& r matches Ok(v) && is_object(v, seq!["success"@, "user_id"@]) && field_value(v, 0)
                        == JsonValue::Bool(true) && field_value(v, 1) == JsonValue::Int(u)
                },
            },
    {
        let uid = match args.i64_at("user_id") {
            Some(u) => u,
            None => return Err(String::from_str("user_id (integer) required")),
        };
        self.user_id = Some(uid);
        Ok(object2("success", JsonValue::Bool(true), "user_id", JsonValue::Int(uid)))
    }

    /// The JSON schema of an entity type.
    pub fn tool_entity_schema(&self, args: &JsonValue) -> (r: Result<JsonValue, String>)
        ensures
            entity_schema_result(*args, r),
    {
        let t = match args.str_at("entity_type") {
            Some(t) => t,
            None => return Err(String::from_str("entity_type required")),
        };
        let t = t.as_str();
        proof { lemma_type_names_distinct(); }
        if same_text(t, "scene") {
            Ok(schema_object(t, "Scene", scene_fields()))
        } else if same_text(t, "note") {
            Ok(schema_object(t, "Note", note_fields()))
        } else if same_text(t, "timeline_event") {
            Ok(schema_object(t, "TimelineEvent", timeline_event_fields()))
        } else if same_text(t, "encyclopedia_entry") {
            Ok(schema_object(t, "EncyclopediaEntry", encyclopedia_entry_fields()))
        } else if same_text(t, "scene_draft") {
            Ok(schema_object(t, "SceneDraft", scene_draft_fields()))
        } else {
            let mut m = String::from_str("Unknown entity type: ");
            m.append(t);
            m.append(". Use: scene, note, timeline_event, encyclopedia_entry, scene_draft");
            Err(m)
        }
    }
}

} // verus!
