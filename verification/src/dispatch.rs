//! The tool catalogue, and the dispatch of a tool call by name.

use crate::json::{JsonValue, field_value, is_object, push_member};
use crate::replies::pending_consistent;
use crate::server::{McpServer, ToolInput, ToolStep, finished_err};
use crate::tools::{
    begin_account_sync_step, begin_project_sync_step, create_project_step, delete_entity_step,
    delete_idea_step, delete_project_step, download_entity_step, download_idea_step,
    end_account_sync_step, end_project_sync_step, entity_schema_result, get_ideas_state_step,
    get_project_data_step, get_writing_activity_step, rename_project_step, same_text,
    sync_probe_step, upload_entity_step, upload_idea_step, upload_project_data_step,
};
use vstd::prelude::*;

verus! {

/// The tools that `handle_call` serves.
#[derive(Debug, Clone, Copy, PartialEq, Eq, Structural)]
pub enum ToolKind {
    BeginAccountSync,
    EndAccountSync,
    CreateProject,
    DeleteProject,
    RenameProject,
    BeginProjectSync,
    EndProjectSync,
    DownloadEntity,
    UploadEntity,
    DeleteEntity,
    GetProjectData,
    UploadProjectData,
    GetIdeasState,
    DownloadIdea,
    UploadIdea,
    DeleteIdea,
    GetWritingActivity,
    SyncProbe,
    EntitySchema,
}

/// The name under which each tool is offered.
pub open spec fn tool_name(k: ToolKind) -> Seq<char> {
    match k {
        ToolKind::BeginAccountSync => "hammer_begin_account_sync"@,
        ToolKind::EndAccountSync => "hammer_end_account_sync"@,
        ToolKind::CreateProject => "hammer_create_project"@,
        ToolKind::DeleteProject => "hammer_delete_project"@,
        ToolKind::RenameProject => "hammer_rename_project"@,
        ToolKind::BeginProjectSync => "hammer_begin_project_sync"@,
        ToolKind::EndProjectSync => "hammer_end_project_sync"@,
        ToolKind::DownloadEntity => "hammer_download_entity"@,
        ToolKind::UploadEntity => "hammer_upload_entity"@,
        ToolKind::DeleteEntity => "hammer_delete_entity"@,
        ToolKind::GetProjectData => "hammer_get_project_data"@,
        ToolKind::UploadProjectData => "hammer_upload_project_data"@,
        ToolKind::GetIdeasState => "hammer_get_ideas_state"@,
        ToolKind::DownloadIdea => "hammer_download_idea"@,
        ToolKind::UploadIdea => "hammer_upload_idea"@,
        ToolKind::DeleteIdea => "hammer_delete_idea"@,
        ToolKind::GetWritingActivity => "hammer_get_writing_activity"@,
        ToolKind::SyncProbe => "hammer_sync_probe"@,
        ToolKind::EntitySchema => "hammer_entity_schema"@,
    }
}

/// The tools in the order the catalogue lists them.
pub open spec fn tool_order() -> Seq<ToolKind> {
    seq![
        ToolKind::BeginAccountSync,
        ToolKind::EndAccountSync,
        ToolKind::CreateProject,
        ToolKind::DeleteProject,
        ToolKind::RenameProject,
        ToolKind::BeginProjectSync,
        ToolKind::EndProjectSync,
        ToolKind::DownloadEntity,
        ToolKind::UploadEntity,
        ToolKind::DeleteEntity,
        ToolKind::GetProjectData,
        ToolKind::UploadProjectData,
        ToolKind::GetIdeasState,
        ToolKind::DownloadIdea,
        ToolKind::UploadIdea,
        ToolKind::DeleteIdea,
        ToolKind::GetWritingActivity,
        ToolKind::SyncProbe,
        ToolKind::EntitySchema,
    ]
}

/// The tool a name calls, if any: the first in catalogue order with
/// that name.
pub open spec fn tool_named(n: Seq<char>) -> Option<ToolKind> {
    tool_named_in(tool_order(), n)
}

pub open spec fn tool_named_in(kinds: Seq<ToolKind>, n: Seq<char>) -> Option<ToolKind>
    decreases kinds.len(),
{
    if kinds.len() == 0 {
        None
    } else if tool_name(kinds[0]) == n {
        Some(kinds[0])
    } else {
        tool_named_in(kinds.drop_first(), n)
    }
}

/// What a call of tool `k` does first, from `old` to `new`.
pub open spec fn tool_step(k: ToolKind, old: McpServer, new: McpServer, input: ToolInput, step: ToolStep) -> bool {
    match k {
        ToolKind::BeginAccountSync => begin_account_sync_step(old, new, step),
        ToolKind::EndAccountSync => end_account_sync_step(old, new, step),
        ToolKind::CreateProject => create_project_step(old, input.args, step) && new == old,
        ToolKind::DeleteProject => delete_project_step(old, input.args, step) && new == old,
        ToolKind::RenameProject => rename_project_step(old, input.args, step) && new == old,
        ToolKind::BeginProjectSync => begin_project_sync_step(old, new, input.args, step),
        ToolKind::EndProjectSync => end_project_sync_step(old, new, input.args, step),
        ToolKind::DownloadEntity => download_entity_step(old, input.args, step) && new == old,
        ToolKind::UploadEntity => upload_entity_step(old, input.args, input.entity, step) && new == old,
        ToolKind::DeleteEntity => delete_entity_step(old, input.args, step) && new == old,
        ToolKind::GetProjectData => get_project_data_step(old, input.args, step) && new == old,
        ToolKind::UploadProjectData => upload_project_data_step(old, input.args, input.data, step) && new
            == old,
        ToolKind::GetIdeasState => get_ideas_state_step(old, step) && new == old,
        ToolKind::DownloadIdea => download_idea_step(old, input.args, step) && new == old,
        ToolKind::UploadIdea => upload_idea_step(old, input.args, step) && new == old,
        ToolKind::DeleteIdea => delete_idea_step(old, input.args, step) && new == old,
        ToolKind::GetWritingActivity => get_writing_activity_step(old, input.args, step) && new == old,
        ToolKind::SyncProbe => sync_probe_step(old, input.args, step) && new == old,
        ToolKind::EntitySchema => (step matches ToolStep::Finished(r) && entity_schema_result(input.args, r))
            && new == old,
    }
}

impl ToolKind {
    /// The tool of this name, if there is one.
    pub fn from_name(name: &str) -> (k: Option<ToolKind>)
        ensures
            k == tool_named(name@),
    {
        let order = [
            ToolKind::BeginAccountSync,
            ToolKind::EndAccountSync,
            ToolKind::CreateProject,
            ToolKind::DeleteProject,
            ToolKind::RenameProject,
            ToolKind::BeginProjectSync,
            ToolKind::EndProjectSync,
            ToolKind::DownloadEntity,
            ToolKind::UploadEntity,
            ToolKind::DeleteEntity,
            ToolKind::GetProjectData,
            ToolKind::UploadProjectData,
            ToolKind::GetIdeasState,
            ToolKind::DownloadIdea,
            ToolKind::UploadIdea,
            ToolKind::DeleteIdea,
            ToolKind::GetWritingActivity,
            ToolKind::SyncProbe,
            ToolKind::EntitySchema,
        ];
        assert(order@ =~= tool_order());
        let mut i: usize = 0;
        assert(tool_order().skip(0) =~= tool_order());
        while i < 19
            invariant
                0 <= i <= 19,
                order@ == tool_order(),
                tool_named(name@) == tool_named_in(tool_order().skip(i as int), name@),
            decreases 19 - i,
        {
            let k = order[i];
            assert(tool_order().skip(i as int).drop_first() =~= tool_order().skip(i + 1));
            assert(tool_order().skip(i as int)[0] == k);
            if same_text(k.name(), name) {
                return Some(k);
            }
            i += 1;
        }
        None
    }

    /// The name under which this tool is offered.
    pub fn name(&self) -> (n: &'static str)
        ensures
            n@ == tool_name(*self),
    {
        match self {
            ToolKind::BeginAccountSync => "hammer_begin_account_sync",
            ToolKind::EndAccountSync => "hammer_end_account_sync",
            ToolKind::CreateProject => "hammer_create_project",
            ToolKind::DeleteProject => "hammer_delete_project",
            ToolKind::RenameProject => "hammer_rename_project",
            ToolKind::BeginProjectSync => "hammer_begin_project_sync",
            ToolKind::EndProjectSync => "hammer_end_project_sync",
            ToolKind::DownloadEntity => "hammer_download_entity",
            ToolKind::UploadEntity => "hammer_upload_entity",
            ToolKind::DeleteEntity => "hammer_delete_entity",
            ToolKind::GetProjectData => "hammer_get_project_data",
            ToolKind::UploadProjectData => "hammer_upload_project_data",
            ToolKind::GetIdeasState => "hammer_get_ideas_state",
            ToolKind::DownloadIdea => "hammer_download_idea",
            ToolKind::UploadIdea => "hammer_upload_idea",
            ToolKind::DeleteIdea => "hammer_delete_idea",
            ToolKind::GetWritingActivity => "hammer_get_writing_activity",
            ToolKind::SyncProbe => "hammer_sync_probe",
            ToolKind::EntitySchema => "hammer_entity_schema",
        }
    }
}

/// What starting the tool call `name` does, from `old` to `new`: the
/// step of the tool of that name, or the unknown-tool error and no change.
pub open spec fn handles(old: McpServer, new: McpServer, name: Seq<char>, input: ToolInput, step: ToolStep) -> bool {
    match tool_named(name) {
        Some(k) => tool_step(k, old, new, input, step),
        None => finished_err(step, "Unknown tool: "@ + name) && new == old,
    }
}

impl McpServer {
    /// Starts the tool call `name` with `input`.
    pub fn handle_call(&mut self, name: &str, input: ToolInput) -> (step: ToolStep)
        ensures
            handles(*old(self), *final(self), name@, input, step),
            old(self).syncs_exclusive() ==> final(self).syncs_exclusive(),
            step matches ToolStep::Call(c) ==> pending_consistent(*final(self), c.pending),
    {
        let ToolInput { args, entity, data } = input;
        match ToolKind::from_name(name) {
            None => {
                let mut m = String::from_str("Unknown tool: ");
                m.append(name);
                ToolStep::Finished(Err(m))
            },
            Some(k) => match k {
                ToolKind::BeginAccountSync => self.tool_begin_account_sync(),
                ToolKind::EndAccountSync => self.tool_end_account_sync(),
                ToolKind::CreateProject => self.tool_create_project(&args),
                ToolKind::DeleteProject => self.tool_delete_project(&args),
                ToolKind::RenameProject => self.tool_rename_project(&args),
                ToolKind::BeginProjectSync => self.tool_begin_project_sync(&args),
                ToolKind::EndProjectSync => self.tool_end_project_sync(&args),
                ToolKind::DownloadEntity => self.tool_download_entity(&args),
                ToolKind::UploadEntity => self.tool_upload_entity(&args, entity),
                ToolKind::DeleteEntity => self.tool_delete_entity(&args),
                ToolKind::GetProjectData => self.tool_get_project_data(&args),
                ToolKind::UploadProjectData => self.tool_upload_project_data(&args, data),
                ToolKind::GetIdeasState => self.tool_get_ideas_state(),
                ToolKind::DownloadIdea => self.tool_download_idea(&args),
                ToolKind::UploadIdea => self.tool_upload_idea(&args),
                ToolKind::DeleteIdea => self.tool_delete_idea(&args),
                ToolKind::GetWritingActivity => self.tool_get_writing_activity(&args),
                ToolKind::SyncProbe => self.tool_sync_probe(&args),
                ToolKind::EntitySchema => ToolStep::Finished(self.tool_entity_schema(&args)),
            },
        }
    }
}


// ── The tool catalogue ────────────────────────────────────────

/// The schema of one argument of a tool.
pub enum PropSchema {
    /// `{"type": t}`
    Typed(Seq<char>),
    /// `{"type": "string", "enum": names}`
    OneOf(Seq<Seq<char>>),
    /// `{"type": "array", "items": {"type": t}}`
    ListOf(Seq<char>),
    /// `{"type": "array", "items": {"type": "object", "properties": {k: {"type": t}, …},
    /// "required": required}}`, each field `(k, t)` in order.
    ListOfRecords(Seq<(Seq<char>, Seq<char>)>, Seq<Seq<char>>),
}

/// `v` is `{"type": t}`.
pub open spec fn typed_is(v: JsonValue, t: Seq<char>) -> bool {
    is_object(v, seq!["type"@]) && field_value(v, 0).is_text(t)
}

/// The items of an array, each by its text.
pub open spec fn item_texts(a: Seq<JsonValue>) -> Seq<Option<Seq<char>>> {
    a.map_values(|j: JsonValue| j.str_of())
}

/// The items of an array are the strings `names`, in order.
pub open spec fn texts_are(items: Seq<JsonValue>, names: Seq<Seq<char>>) -> bool {
    item_texts(items) == names.map_values(|n: Seq<char>| Some(n))
}

/// The members of an object are `{k: {"type": t}}` for each field `(k, t)`,
/// in order.
pub open spec fn fields_are(pf: Seq<(String, JsonValue)>, fields: Seq<(Seq<char>, Seq<char>)>) -> bool {
    &&& pf.len() == fields.len()
    &&& forall|i: int| #![trigger pf[i]] 0 <= i < pf.len() ==> pf[i].0@ == fields[i].0 && typed_is(pf[i].1, fields[i].1)
}

/// `v` is `{"type": "object", "properties": …, "required": required}` with
/// these fields.
pub open spec fn record_is(v: JsonValue, fields: Seq<(Seq<char>, Seq<char>)>, required: Seq<Seq<char>>) -> bool {
    &&& is_object(v, seq!["type"@, "properties"@, "required"@])
    &&& field_value(v, 0).is_text("object"@)
    &&& field_value(v, 1) matches JsonValue::Object(pf) && fields_are(pf@, fields)
    &&& field_value(v, 2) matches JsonValue::Array(items) && texts_are(items@, required)
}

/// `v` is the JSON of the argument schema `p`, member by member.
pub open spec fn prop_is(v: JsonValue, p: PropSchema) -> bool {
    match p {
        PropSchema::Typed(t) => typed_is(v, t),
        PropSchema::OneOf(names) => {
            &&& is_object(v, seq!["type"@, "enum"@])
            &&& field_value(v, 0).is_text("string"@)
            &&& field_value(v, 1) matches JsonValue::Array(items) && texts_are(items@, names)
        },
        PropSchema::ListOf(t) => {
            &&& is_object(v, seq!["type"@, "items"@])
            &&& field_value(v, 0).is_text("array"@)
            &&& typed_is(field_value(v, 1), t)
        },
        PropSchema::ListOfRecords(fields, required) => {
            &&& is_object(v, seq!["type"@, "items"@])
            &&& field_value(v, 0).is_text("array"@)
            &&& record_is(field_value(v, 1), fields, required)
        },
    }
}

/// The members of an object are the argument schemas `props`, in order.
pub open spec fn props_are(pf: Seq<(String, JsonValue)>, props: Seq<(Seq<char>, PropSchema)>) -> bool {
    &&& pf.len() == props.len()
    &&& forall|i: int| #![trigger pf[i]] 0 <= i < pf.len() ==> pf[i].0@ == props[i].0 && prop_is(pf[i].1, props[i].1)
}

/// `s` is the input schema `{"type": "object", "properties": …,
/// "required": […]}` with exactly these argument schemas and these
/// required names.
pub open spec fn schema_ok(s: JsonValue, props: Seq<(Seq<char>, PropSchema)>, req: Seq<Option<Seq<char>>>) -> bool {
    &&& is_object(s, seq!["type"@, "properties"@, "required"@])
    &&& field_value(s, 0).is_text("object"@)
    &&& field_value(s, 1) matches JsonValue::Object(pf) && props_are(pf@, props)
    &&& field_value(s, 2) matches JsonValue::Array(items) && item_texts(items@) == req
}

/// A catalogue entry: the tool, its description, its argument schemas and
/// its required arguments.
pub type ToolEntry = (ToolKind, Seq<char>, Seq<(Seq<char>, PropSchema)>, Seq<Option<Seq<char>>>);

/// `v` is the catalogue entry `{"name", "description", "inputSchema"}` of `e`.
pub open spec fn def_ok(v: JsonValue, e: ToolEntry) -> bool {
    &&& is_object(v, seq!["name"@, "description"@, "inputSchema"@])
    &&& field_value(v, 0).is_text(tool_name(e.0))
    &&& field_value(v, 1).is_text(e.1)
    &&& schema_ok(field_value(v, 2), e.2, e.3)
}

pub open spec fn defs_ok(s: Seq<JsonValue>, c: Seq<ToolEntry>) -> bool {
    s.len() == c.len() && forall|i: int| 0 <= i < s.len() ==> def_ok(#[trigger] s[i], c[i])
}

proof fn lemma_defs_push(s: Seq<JsonValue>, c: Seq<ToolEntry>, v: JsonValue, e: ToolEntry)
    requires
        defs_ok(s, c),
        def_ok(v, e),
    ensures
        defs_ok(s.push(v), c.push(e)),
{
    assert forall|i: int| 0 <= i < s.push(v).len() implies def_ok(#[trigger] s.push(v)[i], c.push(e)[i]) by {
        if i < s.len() {
            assert(s.push(v)[i] == s[i]);
        }
    }
}

proof fn lemma_props_push(
    pf: Seq<(String, JsonValue)>,
    ps: Seq<(Seq<char>, PropSchema)>,
    k: String,
    v: JsonValue,
    p: PropSchema,
)
    requires
        props_are(pf, ps),
        prop_is(v, p),
    ensures
        props_are(pf.push((k, v)), ps.push((k@, p))),
{
    assert forall|i: int| #![trigger pf.push((k, v))[i]] 0 <= i < pf.push((k, v)).len() implies pf.push((k, v))[i].0@
        == ps.push((k@, p))[i].0 && prop_is(pf.push((k, v))[i].1, ps.push((k@, p))[i].1) by {
        if i < pf.len() {
            assert(pf.push((k, v))[i] == pf[i]);
        }
    }
}

proof fn lemma_fields_push(
    pf: Seq<(String, JsonValue)>,
    fs: Seq<(Seq<char>, Seq<char>)>,
    k: String,
    v: JsonValue,
    t: Seq<char>,
)
    requires
        fields_are(pf, fs),
        typed_is(v, t),
    ensures
        fields_are(pf.push((k, v)), fs.push((k@, t))),
{
    assert forall|i: int| #![trigger pf.push((k, v))[i]] 0 <= i < pf.push((k, v)).len() implies pf.push((k, v))[i].0@
        == fs.push((k@, t))[i].0 && typed_is(pf.push((k, v))[i].1, fs.push((k@, t))[i].1) by {
        if i < pf.len() {
            assert(pf.push((k, v))[i] == pf[i]);
        }
    }
}

/// The entity-type argument: a string, one of the five type names.
pub open spec fn entity_type_choice() -> PropSchema {
    PropSchema::OneOf(seq!["scene"@, "note"@, "timeline_event"@, "encyclopedia_entry"@, "scene_draft"@])
}

/// The `entity_hashes` argument: a list of `{id, hash}` records.
pub open spec fn entity_hashes_list() -> PropSchema {
    PropSchema::ListOfRecords(seq![("id"@, "integer"@), ("hash"@, "string"@)], seq!["id"@, "hash"@])
}

/// The `projects` argument: a list of `{project_id, hash}` records.
pub open spec fn project_hashes_list() -> PropSchema {
    PropSchema::ListOfRecords(seq![("project_id"@, "string"@), ("hash"@, "string"@)], seq!["project_id"@, "hash"@])
}

/// The catalogue: every tool `handle_call` serves, in order.
pub open spec fn catalog() -> Seq<ToolEntry> {
    seq![
        (
            ToolKind::BeginAccountSync,
            "Begin account-level sync. Returns syncId, projects list, deleted projects, ideas state hash."@,
            seq![],
            seq![],
        ),
        (
            ToolKind::EndAccountSync,
            "End the current account-level sync session."@,
            seq![],
            seq![],
        ),
        (
            ToolKind::CreateProject,
            "Create a new project. Requires active account sync."@,
            seq![("project_name"@, PropSchema::Typed("string"@))],
            seq![Some("project_name"@)],
        ),
        (
            ToolKind::DeleteProject,
            "Delete a project by UUID. Requires active account sync."@,
            seq![("project_id"@, PropSchema::Typed("string"@))],
            seq![Some("project_id"@)],
        ),
        (
            ToolKind::RenameProject,
            "Rename a project. Requires active account sync."@,
            seq![("project_id"@, PropSchema::Typed("string"@)), ("new_name"@, PropSchema::Typed("string"@))],
            seq![Some("project_id"@), Some("new_name"@)],
        ),
        (
            ToolKind::BeginProjectSync,
            "Begin project sync. Returns syncId, lastId, lastSync, update sequence, deleted IDs. Optional entity_hashes for incremental sync."@,
            seq![("project_id"@, PropSchema::Typed("string"@)), ("entity_hashes"@, entity_hashes_list())],
            seq![Some("project_id"@)],
        ),
        (
            ToolKind::EndProjectSync,
            "End project sync. Provide last_sync (ISO 8601) and last_id."@,
            seq![("project_id"@, PropSchema::Typed("string"@)), ("last_sync"@, PropSchema::Typed("string"@)), ("last_id"@, PropSchema::Typed("integer"@))],
            seq![Some("project_id"@)],
        ),
        (
            ToolKind::DownloadEntity,
            "Download an entity by ID. Requires active project sync."@,
            seq![("project_id"@, PropSchema::Typed("string"@)), ("entity_id"@, PropSchema::Typed("integer"@)), ("entity_hash"@, PropSchema::Typed("string"@))],
            seq![Some("project_id"@), Some("entity_id"@)],
        ),
        (
            ToolKind::UploadEntity,
            "Upload/update an entity. Types: scene, note, timeline_event, encyclopedia_entry, scene_draft. Provide entity matching the type."@,
            seq![("project_id"@, PropSchema::Typed("string"@)), ("entity_type"@, entity_type_choice()), ("entity"@, PropSchema::Typed("object"@)), ("original_hash"@, PropSchema::Typed("string"@)), ("force"@, PropSchema::Typed("boolean"@))],
            seq![Some("project_id"@), Some("entity_type"@), Some("entity"@)],
        ),
        (
            ToolKind::DeleteEntity,
            "Delete an entity. Requires active project sync."@,
            seq![("project_id"@, PropSchema::Typed("string"@)), ("entity_id"@, PropSchema::Typed("integer"@))],
            seq![Some("project_id"@), Some("entity_id"@)],
        ),
        (
            ToolKind::GetProjectData,
            "Get project metadata (author, theme, word goal, tags)."@,
            seq![("project_id"@, PropSchema::Typed("string"@))],
            seq![Some("project_id"@)],
        ),
        (
            ToolKind::UploadProjectData,
            "Update project metadata."@,
            seq![("project_id"@, PropSchema::Typed("string"@)), ("data"@, PropSchema::Typed("object"@)), ("original_hash"@, PropSchema::Typed("string"@)), ("hash"@, PropSchema::Typed("string"@))],
            seq![Some("project_id"@), Some("data"@)],
        ),
        (
            ToolKind::GetIdeasState,
            "Get story ideas sync state. Requires active account sync."@,
            seq![],
            seq![],
        ),
        (
            ToolKind::DownloadIdea,
            "Download a story idea by UUID. Requires active account sync."@,
            seq![("idea_id"@, PropSchema::Typed("string"@))],
            seq![Some("idea_id"@)],
        ),
        (
            ToolKind::UploadIdea,
            "Upload/update a story idea. idea_id is a client-generated UUID."@,
            seq![("idea_id"@, PropSchema::Typed("string"@)), ("text"@, PropSchema::Typed("string"@)), ("tags"@, PropSchema::ListOf("string"@)), ("hash"@, PropSchema::Typed("string"@)), ("original_hash"@, PropSchema::Typed("string"@))],
            seq![Some("idea_id"@), Some("text"@)],
        ),
        (
            ToolKind::DeleteIdea,
            "Delete a story idea. Requires active account sync."@,
            seq![("idea_id"@, PropSchema::Typed("string"@))],
            seq![Some("idea_id"@)],
        ),
        (
            ToolKind::GetWritingActivity,
            "Get writing stats for a project (all devices)."@,
            seq![("project_id"@, PropSchema::Typed("string"@))],
            seq![Some("project_id"@)],
        ),
        (
            ToolKind::SyncProbe,
            "Check which projects have changed (fast pre-check)."@,
            seq![("projects"@, project_hashes_list())],
            seq![Some("projects"@)],
        ),
        (
            ToolKind::EntitySchema,
            "Get JSON schema for an entity type."@,
            seq![("entity_type"@, entity_type_choice())],
            seq![Some("entity_type"@)],
        ),
    ]
}

/// `{"type": t}`
fn typed(t: &str) -> (v: JsonValue)
    ensures
        typed_is(v, t@),
{
    let mut f: Vec<(String, JsonValue)> = Vec::new();
    push_member(&mut f, "type", JsonValue::text(t));
    JsonValue::Object(f)
}

fn push_str(items: &mut Vec<JsonValue>, t: &str)
    ensures
        item_texts(final(items)@) == item_texts(old(items)@).push(Some(t@)),
{
    let ghost before = items@;
    items.push(JsonValue::text(t));
    assert(item_texts(items@) =~= item_texts(before).push(Some(t@)));
}

fn input_schema(props: Vec<(String, JsonValue)>, required: Vec<JsonValue>, Ghost(ps): Ghost<Seq<(Seq<char>, PropSchema)>>) -> (s: JsonValue)
    requires
        props_are(props@, ps),
    ensures
        schema_ok(s, ps, item_texts(required@)),
{
    crate::json::object3(
        "type",
        JsonValue::text("object"),
        "properties",
        JsonValue::Object(props),
        "required",
        JsonValue::Array(required),
    )
}

fn tool_def(kind: ToolKind, desc: &str, schema: JsonValue) -> (v: JsonValue)
    ensures
        is_object(v, seq!["name"@, "description"@, "inputSchema"@]),
        field_value(v, 0).is_text(tool_name(kind)),
        field_value(v, 1).is_text(desc@),
        field_value(v, 2) == schema,
{
    crate::json::object3("name", JsonValue::text(kind.name()), "description", JsonValue::text(desc),
        "inputSchema", schema)
}

/// The schema of the entity-type argument: a string of the five types.
fn entity_type_prop() -> (v: JsonValue)
    ensures
        prop_is(v, entity_type_choice()),
{
    let mut names: Vec<JsonValue> = Vec::new();
    push_str(&mut names, "scene");
    push_str(&mut names, "note");
    push_str(&mut names, "timeline_event");
    push_str(&mut names, "encyclopedia_entry");
    push_str(&mut names, "scene_draft");
    let ghost n = item_texts(names@);
    let v = crate::json::object2("type", JsonValue::text("string"), "enum", JsonValue::Array(names));
    assert(n =~= seq!["scene"@, "note"@, "timeline_event"@, "encyclopedia_entry"@, "scene_draft"@].map_values(
        |t: Seq<char>| Some(t),
    ));
    v
}

/// The items of a list of records: an object schema of `{"type": t}`
/// fields, all of them required.
fn record_schema(k1: &str, t1: &str, k2: &str, t2: &str) -> (v: JsonValue)
    ensures
        record_is(v, seq![(k1@, t1@), (k2@, t2@)], seq![k1@, k2@]),
{
    let mut props: Vec<(String, JsonValue)> = Vec::new();
    let ghost p0 = props@;
    assert(fields_are(p0, seq![]));
    push_member(&mut props, k1, typed(t1));
    proof {
        lemma_fields_push(p0, seq![], props@.last().0, props@.last().1, t1@);
        assert(p0.push((props@.last().0, props@.last().1)) == props@);
    }
    let ghost p1 = props@;
    push_member(&mut props, k2, typed(t2));
    proof {
        lemma_fields_push(p1, seq![(k1@, t1@)], props@.last().0, props@.last().1, t2@);
        assert(p1.push((props@.last().0, props@.last().1)) == props@);
        assert(seq![(k1@, t1@)].push((k2@, t2@)) =~= seq![(k1@, t1@), (k2@, t2@)]);
    }
    let mut req: Vec<JsonValue> = Vec::new();
    push_str(&mut req, k1);
    push_str(&mut req, k2);
    let ghost r = item_texts(req@);
    let v = crate::json::object3("type", JsonValue::text("object"), "properties", JsonValue::Object(props),
        "required", JsonValue::Array(req));
    assert(r =~= seq![k1@, k2@].map_values(|n: Seq<char>| Some(n)));
    v
}

/// The schema of `entity_hashes`: an array of `{id, hash}` objects.
fn hash_items_prop() -> (v: JsonValue)
    ensures
        prop_is(v, entity_hashes_list()),
{
    crate::json::object2("type", JsonValue::text("array"), "items", record_schema("id", "integer", "hash", "string"))
}

/// The schema of `tags`: an array of strings.
fn string_items_prop() -> (v: JsonValue)
    ensures
        prop_is(v, PropSchema::ListOf("string"@)),
{
    crate::json::object2("type", JsonValue::text("array"), "items", typed("string"))
}

/// The schema of `projects`: an array of `{project_id, hash}` objects.
fn probe_items_prop() -> (v: JsonValue)
    ensures
        prop_is(v, project_hashes_list()),
{
    crate::json::object2("type", JsonValue::text("array"), "items", record_schema("project_id", "string", "hash", "string"))
}

fn def_begin_account_sync() -> (v: JsonValue)
    ensures
        def_ok(v, catalog()[0]),
{
    let mut props: Vec<(String, JsonValue)> = Vec::new();
    let ghost mut ps: Seq<(Seq<char>, PropSchema)> = Seq::empty();
    assert(props_are(props@, ps));
    let mut req: Vec<JsonValue> = Vec::new();
    let ghost r = item_texts(req@);
    assert(ps =~= catalog()[0].2);
    let v = tool_def(ToolKind::BeginAccountSync, "Begin account-level sync. Returns syncId, projects list, deleted projects, ideas state hash.", input_schema(props, req, Ghost(ps)));
    assert(r =~= catalog()[0].3);
    v
}

fn def_end_account_sync() -> (v: JsonValue)
    ensures
        def_ok(v, catalog()[1]),
{
    let mut props: Vec<(String, JsonValue)> = Vec::new();
    let ghost mut ps: Seq<(Seq<char>, PropSchema)> = Seq::empty();
    assert(props_are(props@, ps));
    let mut req: Vec<JsonValue> = Vec::new();
    let ghost r = item_texts(req@);
    assert(ps =~= catalog()[1].2);
    let v = tool_def(ToolKind::EndAccountSync, "End the current account-level sync session.", input_schema(props, req, Ghost(ps)));
    assert(r =~= catalog()[1].3);
    v
}

fn def_create_project() -> (v: JsonValue)
    ensures
        def_ok(v, catalog()[2]),
{
    let mut props: Vec<(String, JsonValue)> = Vec::new();
    let ghost mut ps: Seq<(Seq<char>, PropSchema)> = Seq::empty();
    assert(props_are(props@, ps));
    let ghost before = props@;
    push_member(&mut props, "project_name", typed("string"));
    proof {
        lemma_props_push(before, ps, props@.last().0, props@.last().1, PropSchema::Typed("string"@));
        assert(before.push((props@.last().0, props@.last().1)) == props@);
        ps = ps.push(("project_name"@, PropSchema::Typed("string"@)));
    }
    let mut req: Vec<JsonValue> = Vec::new();
    push_str(&mut req, "project_name");
    let ghost r = item_texts(req@);
    assert(ps =~= catalog()[2].2);
    let v = tool_def(ToolKind::CreateProject, "Create a new project. Requires active account sync.", input_schema(props, req, Ghost(ps)));
    assert(r =~= catalog()[2].3);
    v
}

fn def_delete_project() -> (v: JsonValue)
    ensures
        def_ok(v, catalog()[3]),
{
    let mut props: Vec<(String, JsonValue)> = Vec::new();
    let ghost mut ps: Seq<(Seq<char>, PropSchema)> = Seq::empty();
    assert(props_are(props@, ps));
    let ghost before = props@;
    push_member(&mut props, "project_id", typed("string"));
    proof {
        lemma_props_push(before, ps, props@.last().0, props@.last().1, PropSchema::Typed("string"@));
        assert(before.push((props@.last().0, props@.last().1)) == props@);
        ps = ps.push(("project_id"@, PropSchema::Typed("string"@)));
    }
    let mut req: Vec<JsonValue> = Vec::new();
    push_str(&mut req, "project_id");
    let ghost r = item_texts(req@);
    assert(ps =~= catalog()[3].2);
    let v = tool_def(ToolKind::DeleteProject, "Delete a project by UUID. Requires active account sync.", input_schema(props, req, Ghost(ps)));
    assert(r =~= catalog()[3].3);
    v
}

fn def_rename_project() -> (v: JsonValue)
    ensures
        def_ok(v, catalog()[4]),
{
    let mut props: Vec<(String, JsonValue)> = Vec::new();
    let ghost mut ps: Seq<(Seq<char>, PropSchema)> = Seq::empty();
    assert(props_are(props@, ps));
    let ghost before = props@;
    push_member(&mut props, "project_id", typed("string"));
    proof {
        lemma_props_push(before, ps, props@.last().0, props@.last().1, PropSchema::Typed("string"@));
        assert(before.push((props@.last().0, props@.last().1)) == props@);
        ps = ps.push(("project_id"@, PropSchema::Typed("string"@)));
    }
    let ghost before = props@;
    push_member(&mut props, "new_name", typed("string"));
    proof {
        lemma_props_push(before, ps, props@.last().0, props@.last().1, PropSchema::Typed("string"@));
        assert(before.push((props@.last().0, props@.last().1)) == props@);
        ps = ps.push(("new_name"@, PropSchema::Typed("string"@)));
    }
    let mut req: Vec<JsonValue> = Vec::new();
    push_str(&mut req, "project_id");
    push_str(&mut req, "new_name");
    let ghost r = item_texts(req@);
    assert(ps =~= catalog()[4].2);
    let v = tool_def(ToolKind::RenameProject, "Rename a project. Requires active account sync.", input_schema(props, req, Ghost(ps)));
    assert(r =~= catalog()[4].3);
    v
}

fn def_begin_project_sync() -> (v: JsonValue)
    ensures
        def_ok(v, catalog()[5]),
{
    let mut props: Vec<(String, JsonValue)> = Vec::new();
    let ghost mut ps: Seq<(Seq<char>, PropSchema)> = Seq::empty();
    assert(props_are(props@, ps));
    let ghost before = props@;
    push_member(&mut props, "project_id", typed("string"));
    proof {
        lemma_props_push(before, ps, props@.last().0, props@.last().1, PropSchema::Typed("string"@));
        assert(before.push((props@.last().0, props@.last().1)) == props@);
        ps = ps.push(("project_id"@, PropSchema::Typed("string"@)));
    }
    let ghost before = props@;
    push_member(&mut props, "entity_hashes", hash_items_prop());
    proof {
        lemma_props_push(before, ps, props@.last().0, props@.last().1, entity_hashes_list());
        assert(before.push((props@.last().0, props@.last().1)) == props@);
        ps = ps.push(("entity_hashes"@, entity_hashes_list()));
    }
    let mut req: Vec<JsonValue> = Vec::new();
    push_str(&mut req, "project_id");
    let ghost r = item_texts(req@);
    assert(ps =~= catalog()[5].2);
    let v = tool_def(ToolKind::BeginProjectSync, "Begin project sync. Returns syncId, lastId, lastSync, update sequence, deleted IDs. Optional entity_hashes for incremental sync.", input_schema(props, req, Ghost(ps)));
    assert(r =~= catalog()[5].3);
    v
}

fn def_end_project_sync() -> (v: JsonValue)
    ensures
        def_ok(v, catalog()[6]),
{
    let mut props: Vec<(String, JsonValue)> = Vec::new();
    let ghost mut ps: Seq<(Seq<char>, PropSchema)> = Seq::empty();
    assert(props_are(props@, ps));
    let ghost before = props@;
    push_member(&mut props, "project_id", typed("string"));
    proof {
        lemma_props_push(before, ps, props@.last().0, props@.last().1, PropSchema::Typed("string"@));
        assert(before.push((props@.last().0, props@.last().1)) == props@);
        ps = ps.push(("project_id"@, PropSchema::Typed("string"@)));
    }
    let ghost before = props@;
    push_member(&mut props, "last_sync", typed("string"));
    proof {
        lemma_props_push(before, ps, props@.last().0, props@.last().1, PropSchema::Typed("string"@));
        assert(before.push((props@.last().0, props@.last().1)) == props@);
        ps = ps.push(("last_sync"@, PropSchema::Typed("string"@)));
    }
    let ghost before = props@;
    push_member(&mut props, "last_id", typed("integer"));
    proof {
        lemma_props_push(before, ps, props@.last().0, props@.last().1, PropSchema::Typed("integer"@));
        assert(before.push((props@.last().0, props@.last().1)) == props@);
        ps = ps.push(("last_id"@, PropSchema::Typed("integer"@)));
    }
    let mut req: Vec<JsonValue> = Vec::new();
    push_str(&mut req, "project_id");
    let ghost r = item_texts(req@);
    assert(ps =~= catalog()[6].2);
    let v = tool_def(ToolKind::EndProjectSync, "End project sync. Provide last_sync (ISO 8601) and last_id.", input_schema(props, req, Ghost(ps)));
    assert(r =~= catalog()[6].3);
    v
}

fn def_download_entity() -> (v: JsonValue)
    ensures
        def_ok(v, catalog()[7]),
{
    let mut props: Vec<(String, JsonValue)> = Vec::new();
    let ghost mut ps: Seq<(Seq<char>, PropSchema)> = Seq::empty();
    assert(props_are(props@, ps));
    let ghost before = props@;
    push_member(&mut props, "project_id", typed("string"));
    proof {
        lemma_props_push(before, ps, props@.last().0, props@.last().1, PropSchema::Typed("string"@));
        assert(before.push((props@.last().0, props@.last().1)) == props@);
        ps = ps.push(("project_id"@, PropSchema::Typed("string"@)));
    }
    let ghost before = props@;
    push_member(&mut props, "entity_id", typed("integer"));
    proof {
        lemma_props_push(before, ps, props@.last().0, props@.last().1, PropSchema::Typed("integer"@));
        assert(before.push((props@.last().0, props@.last().1)) == props@);
        ps = ps.push(("entity_id"@, PropSchema::Typed("integer"@)));
    }
    let ghost before = props@;
    push_member(&mut props, "entity_hash", typed("string"));
    proof {
        lemma_props_push(before, ps, props@.last().0, props@.last().1, PropSchema::Typed("string"@));
        assert(before.push((props@.last().0, props@.last().1)) == props@);
        ps = ps.push(("entity_hash"@, PropSchema::Typed("string"@)));
    }
    let mut req: Vec<JsonValue> = Vec::new();
    push_str(&mut req, "project_id");
    push_str(&mut req, "entity_id");
    let ghost r = item_texts(req@);
    assert(ps =~= catalog()[7].2);
    let v = tool_def(ToolKind::DownloadEntity, "Download an entity by ID. Requires active project sync.", input_schema(props, req, Ghost(ps)));
    assert(r =~= catalog()[7].3);
    v
}

fn def_upload_entity() -> (v: JsonValue)
    ensures
        def_ok(v, catalog()[8]),
{
    let mut props: Vec<(String, JsonValue)> = Vec::new();
    let ghost mut ps: Seq<(Seq<char>, PropSchema)> = Seq::empty();
    assert(props_are(props@, ps));
    let ghost before = props@;
    push_member(&mut props, "project_id", typed("string"));
    proof {
        lemma_props_push(before, ps, props@.last().0, props@.last().1, PropSchema::Typed("string"@));
        assert(before.push((props@.last().0, props@.last().1)) == props@);
        ps = ps.push(("project_id"@, PropSchema::Typed("string"@)));
    }
    let ghost before = props@;
    push_member(&mut props, "entity_type", entity_type_prop());
    proof {
        lemma_props_push(before, ps, props@.last().0, props@.last().1, entity_type_choice());
        assert(before.push((props@.last().0, props@.last().1)) == props@);
        ps = ps.push(("entity_type"@, entity_type_choice()));
    }
    let ghost before = props@;
    push_member(&mut props, "entity", typed("object"));
    proof {
        lemma_props_push(before, ps, props@.last().0, props@.last().1, PropSchema::Typed("object"@));
        assert(before.push((props@.last().0, props@.last().1)) == props@);
        ps = ps.push(("entity"@, PropSchema::Typed("object"@)));
    }
    let ghost before = props@;
    push_member(&mut props, "original_hash", typed("string"));
    proof {
        lemma_props_push(before, ps, props@.last().0, props@.last().1, PropSchema::Typed("string"@));
        assert(before.push((props@.last().0, props@.last().1)) == props@);
        ps = ps.push(("original_hash"@, PropSchema::Typed("string"@)));
    }
    let ghost before = props@;
    push_member(&mut props, "force", typed("boolean"));
    proof {
        lemma_props_push(before, ps, props@.last().0, props@.last().1, PropSchema::Typed("boolean"@));
        assert(before.push((props@.last().0, props@.last().1)) == props@);
        ps = ps.push(("force"@, PropSchema::Typed("boolean"@)));
    }
    let mut req: Vec<JsonValue> = Vec::new();
    push_str(&mut req, "project_id");
    push_str(&mut req, "entity_type");
    push_str(&mut req, "entity");
    let ghost r = item_texts(req@);
    assert(ps =~= catalog()[8].2);
    let v = tool_def(ToolKind::UploadEntity, "Upload/update an entity. Types: scene, note, timeline_event, encyclopedia_entry, scene_draft. Provide entity matching the type.", input_schema(props, req, Ghost(ps)));
    assert(r =~= catalog()[8].3);
    v
}

fn def_delete_entity() -> (v: JsonValue)
    ensures
        def_ok(v, catalog()[9]),
{
    let mut props: Vec<(String, JsonValue)> = Vec::new();
    let ghost mut ps: Seq<(Seq<char>, PropSchema)> = Seq::empty();
    assert(props_are(props@, ps));
    let ghost before = props@;
    push_member(&mut props, "project_id", typed("string"));
    proof {
        lemma_props_push(before, ps, props@.last().0, props@.last().1, PropSchema::Typed("string"@));
        assert(before.push((props@.last().0, props@.last().1)) == props@);
        ps = ps.push(("project_id"@, PropSchema::Typed("string"@)));
    }
    let ghost before = props@;
    push_member(&mut props, "entity_id", typed("integer"));
    proof {
        lemma_props_push(before, ps, props@.last().0, props@.last().1, PropSchema::Typed("integer"@));
        assert(before.push((props@.last().0, props@.last().1)) == props@);
        ps = ps.push(("entity_id"@, PropSchema::Typed("integer"@)));
    }
    let mut req: Vec<JsonValue> = Vec::new();
    push_str(&mut req, "project_id");
    push_str(&mut req, "entity_id");
    let ghost r = item_texts(req@);
    assert(ps =~= catalog()[9].2);
    let v = tool_def(ToolKind::DeleteEntity, "Delete an entity. Requires active project sync.", input_schema(props, req, Ghost(ps)));
    assert(r =~= catalog()[9].3);
    v
}

fn def_get_project_data() -> (v: JsonValue)
    ensures
        def_ok(v, catalog()[10]),
{
    let mut props: Vec<(String, JsonValue)> = Vec::new();
    let ghost mut ps: Seq<(Seq<char>, PropSchema)> = Seq::empty();
    assert(props_are(props@, ps));
    let ghost before = props@;
    push_member(&mut props, "project_id", typed("string"));
    proof {
        lemma_props_push(before, ps, props@.last().0, props@.last().1, PropSchema::Typed("string"@));
        assert(before.push((props@.last().0, props@.last().1)) == props@);
        ps = ps.push(("project_id"@, PropSchema::Typed("string"@)));
    }
    let mut req: Vec<JsonValue> = Vec::new();
    push_str(&mut req, "project_id");
    let ghost r = item_texts(req@);
    assert(ps =~= catalog()[10].2);
    let v = tool_def(ToolKind::GetProjectData, "Get project metadata (author, theme, word goal, tags).", input_schema(props, req, Ghost(ps)));
    assert(r =~= catalog()[10].3);
    v
}

fn def_upload_project_data() -> (v: JsonValue)
    ensures
        def_ok(v, catalog()[11]),
{
    let mut props: Vec<(String, JsonValue)> = Vec::new();
    let ghost mut ps: Seq<(Seq<char>, PropSchema)> = Seq::empty();
    assert(props_are(props@, ps));
    let ghost before = props@;
    push_member(&mut props, "project_id", typed("string"));
    proof {
        lemma_props_push(before, ps, props@.last().0, props@.last().1, PropSchema::Typed("string"@));
        assert(before.push((props@.last().0, props@.last().1)) == props@);
        ps = ps.push(("project_id"@, PropSchema::Typed("string"@)));
    }
    let ghost before = props@;
    push_member(&mut props, "data", typed("object"));
    proof {
        lemma_props_push(before, ps, props@.last().0, props@.last().1, PropSchema::Typed("object"@));
        assert(before.push((props@.last().0, props@.last().1)) == props@);
        ps = ps.push(("data"@, PropSchema::Typed("object"@)));
    }
    let ghost before = props@;
    push_member(&mut props, "original_hash", typed("string"));
    proof {
        lemma_props_push(before, ps, props@.last().0, props@.last().1, PropSchema::Typed("string"@));
        assert(before.push((props@.last().0, props@.last().1)) == props@);
        ps = ps.push(("original_hash"@, PropSchema::Typed("string"@)));
    }
    let ghost before = props@;
    push_member(&mut props, "hash", typed("string"));
    proof {
        lemma_props_push(before, ps, props@.last().0, props@.last().1, PropSchema::Typed("string"@));
        assert(before.push((props@.last().0, props@.last().1)) == props@);
        ps = ps.push(("hash"@, PropSchema::Typed("string"@)));
    }
    let mut req: Vec<JsonValue> = Vec::new();
    push_str(&mut req, "project_id");
    push_str(&mut req, "data");
    let ghost r = item_texts(req@);
    assert(ps =~= catalog()[11].2);
    let v = tool_def(ToolKind::UploadProjectData, "Update project metadata.", input_schema(props, req, Ghost(ps)));
    assert(r =~= catalog()[11].3);
    v
}

fn def_get_ideas_state() -> (v: JsonValue)
    ensures
        def_ok(v, catalog()[12]),
{
    let mut props: Vec<(String, JsonValue)> = Vec::new();
    let ghost mut ps: Seq<(Seq<char>, PropSchema)> = Seq::empty();
    assert(props_are(props@, ps));
    let mut req: Vec<JsonValue> = Vec::new();
    let ghost r = item_texts(req@);
    assert(ps =~= catalog()[12].2);
    let v = tool_def(ToolKind::GetIdeasState, "Get story ideas sync state. Requires active account sync.", input_schema(props, req, Ghost(ps)));
    assert(r =~= catalog()[12].3);
    v
}

fn def_download_idea() -> (v: JsonValue)
    ensures
        def_ok(v, catalog()[13]),
{
    let mut props: Vec<(String, JsonValue)> = Vec::new();
    let ghost mut ps: Seq<(Seq<char>, PropSchema)> = Seq::empty();
    assert(props_are(props@, ps));
    let ghost before = props@;
    push_member(&mut props, "idea_id", typed("string"));
    proof {
        lemma_props_push(before, ps, props@.last().0, props@.last().1, PropSchema::Typed("string"@));
        assert(before.push((props@.last().0, props@.last().1)) == props@);
        ps = ps.push(("idea_id"@, PropSchema::Typed("string"@)));
    }
    let mut req: Vec<JsonValue> = Vec::new();
    push_str(&mut req, "idea_id");
    let ghost r = item_texts(req@);
    assert(ps =~= catalog()[13].2);
    let v = tool_def(ToolKind::DownloadIdea, "Download a story idea by UUID. Requires active account sync.", input_schema(props, req, Ghost(ps)));
    assert(r =~= catalog()[13].3);
    v
}

fn def_upload_idea() -> (v: JsonValue)
    ensures
        def_ok(v, catalog()[14]),
{
    let mut props: Vec<(String, JsonValue)> = Vec::new();
    let ghost mut ps: Seq<(Seq<char>, PropSchema)> = Seq::empty();
    assert(props_are(props@, ps));
    let ghost before = props@;
    push_member(&mut props, "idea_id", typed("string"));
    proof {
        lemma_props_push(before, ps, props@.last().0, props@.last().1, PropSchema::Typed("string"@));
        assert(before.push((props@.last().0, props@.last().1)) == props@);
        ps = ps.push(("idea_id"@, PropSchema::Typed("string"@)));
    }
    let ghost before = props@;
    push_member(&mut props, "text", typed("string"));
    proof {
        lemma_props_push(before, ps, props@.last().0, props@.last().1, PropSchema::Typed("string"@));
        assert(before.push((props@.last().0, props@.last().1)) == props@);
        ps = ps.push(("text"@, PropSchema::Typed("string"@)));
    }
    let ghost before = props@;
    push_member(&mut props, "tags", string_items_prop());
    proof {
        lemma_props_push(before, ps, props@.last().0, props@.last().1, PropSchema::ListOf("string"@));
        assert(before.push((props@.last().0, props@.last().1)) == props@);
        ps = ps.push(("tags"@, PropSchema::ListOf("string"@)));
    }
    let ghost before = props@;
    push_member(&mut props, "hash", typed("string"));
    proof {
        lemma_props_push(before, ps, props@.last().0, props@.last().1, PropSchema::Typed("string"@));
        assert(before.push((props@.last().0, props@.last().1)) == props@);
        ps = ps.push(("hash"@, PropSchema::Typed("string"@)));
    }
    let ghost before = props@;
    push_member(&mut props, "original_hash", typed("string"));
    proof {
        lemma_props_push(before, ps, props@.last().0, props@.last().1, PropSchema::Typed("string"@));
        assert(before.push((props@.last().0, props@.last().1)) == props@);
        ps = ps.push(("original_hash"@, PropSchema::Typed("string"@)));
    }
    let mut req: Vec<JsonValue> = Vec::new();
    push_str(&mut req, "idea_id");
    push_str(&mut req, "text");
    let ghost r = item_texts(req@);
    assert(ps =~= catalog()[14].2);
    let v = tool_def(ToolKind::UploadIdea, "Upload/update a story idea. idea_id is a client-generated UUID.", input_schema(props, req, Ghost(ps)));
    assert(r =~= catalog()[14].3);
    v
}

fn def_delete_idea() -> (v: JsonValue)
    ensures
        def_ok(v, catalog()[15]),
{
    let mut props: Vec<(String, JsonValue)> = Vec::new();
    let ghost mut ps: Seq<(Seq<char>, PropSchema)> = Seq::empty();
    assert(props_are(props@, ps));
    let ghost before = props@;
    push_member(&mut props, "idea_id", typed("string"));
    proof {
        lemma_props_push(before, ps, props@.last().0, props@.last().1, PropSchema::Typed("string"@));
        assert(before.push((props@.last().0, props@.last().1)) == props@);
        ps = ps.push(("idea_id"@, PropSchema::Typed("string"@)));
    }
    let mut req: Vec<JsonValue> = Vec::new();
    push_str(&mut req, "idea_id");
    let ghost r = item_texts(req@);
    assert(ps =~= catalog()[15].2);
    let v = tool_def(ToolKind::DeleteIdea, "Delete a story idea. Requires active account sync.", input_schema(props, req, Ghost(ps)));
    assert(r =~= catalog()[15].3);
    v
}

fn def_get_writing_activity() -> (v: JsonValue)
    ensures
        def_ok(v, catalog()[16]),
{
    let mut props: Vec<(String, JsonValue)> = Vec::new();
    let ghost mut ps: Seq<(Seq<char>, PropSchema)> = Seq::empty();
    assert(props_are(props@, ps));
    let ghost before = props@;
    push_member(&mut props, "project_id", typed("string"));
    proof {
        lemma_props_push(before, ps, props@.last().0, props@.last().1, PropSchema::Typed("string"@));
        assert(before.push((props@.last().0, props@.last().1)) == props@);
        ps = ps.push(("project_id"@, PropSchema::Typed("string"@)));
    }
    let mut req: Vec<JsonValue> = Vec::new();
    push_str(&mut req, "project_id");
    let ghost r = item_texts(req@);
    assert(ps =~= catalog()[16].2);
    let v = tool_def(ToolKind::GetWritingActivity, "Get writing stats for a project (all devices).", input_schema(props, req, Ghost(ps)));
    assert(r =~= catalog()[16].3);
    v
}

fn def_sync_probe() -> (v: JsonValue)
    ensures
        def_ok(v, catalog()[17]),
{
    let mut props: Vec<(String, JsonValue)> = Vec::new();
    let ghost mut ps: Seq<(Seq<char>, PropSchema)> = Seq::empty();
    assert(props_are(props@, ps));
    let ghost before = props@;
    push_member(&mut props, "projects", probe_items_prop());
    proof {
        lemma_props_push(before, ps, props@.last().0, props@.last().1, project_hashes_list());
        assert(before.push((props@.last().0, props@.last().1)) == props@);
        ps = ps.push(("projects"@, project_hashes_list()));
    }
    let mut req: Vec<JsonValue> = Vec::new();
    push_str(&mut req, "projects");
    let ghost r = item_texts(req@);
    assert(ps =~= catalog()[17].2);
    let v = tool_def(ToolKind::SyncProbe, "Check which projects have changed (fast pre-check).", input_schema(props, req, Ghost(ps)));
    assert(r =~= catalog()[17].3);
    v
}

fn def_entity_schema() -> (v: JsonValue)
    ensures
        def_ok(v, catalog()[18]),
{
    let mut props: Vec<(String, JsonValue)> = Vec::new();
    let ghost mut ps: Seq<(Seq<char>, PropSchema)> = Seq::empty();
    assert(props_are(props@, ps));
    let ghost before = props@;
    push_member(&mut props, "entity_type", entity_type_prop());
    proof {
        lemma_props_push(before, ps, props@.last().0, props@.last().1, entity_type_choice());
        assert(before.push((props@.last().0, props@.last().1)) == props@);
        ps = ps.push(("entity_type"@, entity_type_choice()));
    }
    let mut req: Vec<JsonValue> = Vec::new();
    push_str(&mut req, "entity_type");
    let ghost r = item_texts(req@);
    assert(ps =~= catalog()[18].2);
    let v = tool_def(ToolKind::EntitySchema, "Get JSON schema for an entity type.", input_schema(props, req, Ghost(ps)));
    assert(r =~= catalog()[18].3);
    v
}

impl McpServer {
    /// The catalogue of the tools that `handle_call` serves: each tool's
    /// name, description and input schema, every member of them as the
    /// catalogue lists it.
    pub fn tool_definitions() -> (defs: Vec<JsonValue>)
        ensures
            defs_ok(defs@, catalog()),
    {
        let mut defs: Vec<JsonValue> = Vec::new();
        let ghost mut c: Seq<ToolEntry> = Seq::empty();
        assert(defs_ok(defs@, c));
        let d = def_begin_account_sync();
        proof { lemma_defs_push(defs@, c, d, catalog()[0]); c = c.push(catalog()[0]); }
        defs.push(d);
        let d = def_end_account_sync();
        proof { lemma_defs_push(defs@, c, d, catalog()[1]); c = c.push(catalog()[1]); }
        defs.push(d);
        let d = def_create_project();
        proof { lemma_defs_push(defs@, c, d, catalog()[2]); c = c.push(catalog()[2]); }
        defs.push(d);
        let d = def_delete_project();
        proof { lemma_defs_push(defs@, c, d, catalog()[3]); c = c.push(catalog()[3]); }
        defs.push(d);
        let d = def_rename_project();
        proof { lemma_defs_push(defs@, c, d, catalog()[4]); c = c.push(catalog()[4]); }
        defs.push(d);
        let d = def_begin_project_sync();
        proof { lemma_defs_push(defs@, c, d, catalog()[5]); c = c.push(catalog()[5]); }
        defs.push(d);
        let d = def_end_project_sync();
        proof { lemma_defs_push(defs@, c, d, catalog()[6]); c = c.push(catalog()[6]); }
        defs.push(d);
        let d = def_download_entity();
        proof { lemma_defs_push(defs@, c, d, catalog()[7]); c = c.push(catalog()[7]); }
        defs.push(d);
        let d = def_upload_entity();
        proof { lemma_defs_push(defs@, c, d, catalog()[8]); c = c.push(catalog()[8]); }
        defs.push(d);
        let d = def_delete_entity();
        proof { lemma_defs_push(defs@, c, d, catalog()[9]); c = c.push(catalog()[9]); }
        defs.push(d);
        let d = def_get_project_data();
        proof { lemma_defs_push(defs@, c, d, catalog()[10]); c = c.push(catalog()[10]); }
        defs.push(d);
        let d = def_upload_project_data();
        proof { lemma_defs_push(defs@, c, d, catalog()[11]); c = c.push(catalog()[11]); }
        defs.push(d);
        let d = def_get_ideas_state();
        proof { lemma_defs_push(defs@, c, d, catalog()[12]); c = c.push(catalog()[12]); }
        defs.push(d);
        let d = def_download_idea();
        proof { lemma_defs_push(defs@, c, d, catalog()[13]); c = c.push(catalog()[13]); }
        defs.push(d);
        let d = def_upload_idea();
        proof { lemma_defs_push(defs@, c, d, catalog()[14]); c = c.push(catalog()[14]); }
        defs.push(d);
        let d = def_delete_idea();
        proof { lemma_defs_push(defs@, c, d, catalog()[15]); c = c.push(catalog()[15]); }
        defs.push(d);
        let d = def_get_writing_activity();
        proof { lemma_defs_push(defs@, c, d, catalog()[16]); c = c.push(catalog()[16]); }
        defs.push(d);
        let d = def_sync_probe();
        proof { lemma_defs_push(defs@, c, d, catalog()[17]); c = c.push(catalog()[17]); }
        defs.push(d);
        let d = def_entity_schema();
        proof { lemma_defs_push(defs@, c, d, catalog()[18]); c = c.push(catalog()[18]); }
        defs.push(d);
        assert(c =~= catalog());
        defs
    }
}

} // verus!
