//! Properties of the library as a whole.

use crate::dispatch::{
    PropSchema, ToolEntry, def_ok, defs_ok, handles, item_texts, prop_is, record_is, texts_are, typed_is, ToolKind, catalog, tool_name, tool_named, tool_named_in, tool_order, tool_step};
use crate::client::{ReplyBody, HttpMethod, ReplyPolicy, RequestBody, RequestPayload, StatusVerdict, UploadLabel, spec_verdict};
use crate::models::{HEADER_ENTITY_TYPE, HEADER_ORIGINAL_HASH, HEADER_SYNC_ID};
use crate::text::{dec_int, opt_text, pair_texts};
use crate::json::{ModelValue, JsonValue, field_value, is_object, lemma_same_items, lemma_same_members, same_json};
use crate::mcp::{RpcAction, id_json, is_tool_answer, routes};
use crate::models::{
    ProjectData,    ApiProjectEntity, BeginProjectsSyncResponse, EntityType, ProjectSynchronizationBegan, entity_type_name,
};
use crate::replies::completes;
use crate::server::{ApiReply, JsonRpcRequest, McpServer, Pending, ToolInput, ToolStep, finished_err, not_authenticated_msg};
use crate::sessions::ProjectSyncSession;
use crate::tools::{
    upload_idea_step, upload_project_data_step,
    begin_project_sync_step, entity_hash_texts, hash_items, state_texts,
    account_ready, create_project_step, delete_entity_step, download_entity_step, end_project_sync_step,
    get_ideas_state_step, opt_i32, schema_table, upload_entity_step,
};
use vstd::prelude::*;

verus! {

proof fn lemma_named_in(kinds: Seq<ToolKind>, n: Seq<char>)
    ensures
        tool_named_in(kinds, n) is Some <==> exists|j: int| 0 <= j < kinds.len() && tool_name(kinds[j]) == n,
        tool_named_in(kinds, n) matches Some(k) ==> tool_name(k) == n,
    decreases kinds.len(),
{
    if kinds.len() > 0 {
        lemma_named_in(kinds.drop_first(), n);
        if tool_name(kinds[0]) != n {
            if exists|j: int| 0 <= j < kinds.len() && tool_name(kinds[j]) == n {
                let j = choose|j: int| 0 <= j < kinds.len() && tool_name(kinds[j]) == n;
                assert(kinds.drop_first()[j - 1] == kinds[j]);
            }
            if exists|j: int| 0 <= j < kinds.drop_first().len() && tool_name(kinds.drop_first()[j]) == n {
                let j = choose|j: int|
                    0 <= j < kinds.drop_first().len() && tool_name(kinds.drop_first()[j]) == n;
                assert(kinds[j + 1] == kinds.drop_first()[j]);
            }
        }
    }
}

/// Where a tool stands in the catalogue.
spec fn catalog_index(k: ToolKind) -> int {
    match k {
        ToolKind::BeginAccountSync => 0,
        ToolKind::EndAccountSync => 1,
        ToolKind::CreateProject => 2,
        ToolKind::DeleteProject => 3,
        ToolKind::RenameProject => 4,
        ToolKind::BeginProjectSync => 5,
        ToolKind::EndProjectSync => 6,
        ToolKind::DownloadEntity => 7,
        ToolKind::UploadEntity => 8,
        ToolKind::DeleteEntity => 9,
        ToolKind::GetProjectData => 10,
        ToolKind::UploadProjectData => 11,
        ToolKind::GetIdeasState => 12,
        ToolKind::DownloadIdea => 13,
        ToolKind::UploadIdea => 14,
        ToolKind::DeleteIdea => 15,
        ToolKind::GetWritingActivity => 16,
        ToolKind::SyncProbe => 17,
        ToolKind::EntitySchema => 18,
    }
}

/// Where a tool name stands in the catalogue, read off its length and a
/// character or two that tell the names of that length apart.
spec fn name_index(s: Seq<char>) -> int {
    if s.len() == 17 {
        17
    } else if s.len() == 18 {
        if s[7] == 'u' { 14 } else { 15 }
    } else if s.len() == 20 {
        if s[8] == 'p' { 8 } else if s[8] == 'e' { 9 } else if s[8] == 'o' { 13 } else { 18 }
    } else if s.len() == 21 {
        if s[7] == 'c' { 2 } else if s[7] == 'd' { 3 } else { 4 }
    } else if s.len() == 22 {
        if s[7] == 'd' { 7 } else { 12 }
    } else if s.len() == 23 {
        if s[7] == 'g' { 10 } else if s[11] == 'a' { 1 } else { 6 }
    } else if s.len() == 25 {
        if s[13] == 'a' { 0 } else { 5 }
    } else if s.len() == 26 {
        11
    } else {
        16
    }
}

proof fn lemma_name_index(k: ToolKind)
    ensures
        0 <= catalog_index(k) < tool_order().len(),
        tool_order()[catalog_index(k)] == k,
        name_index(tool_name(k)) == catalog_index(k),
{
    match k {
        ToolKind::BeginAccountSync => {
            reveal_strlit("hammer_begin_account_sync");
        },
        ToolKind::EndAccountSync => {
            reveal_strlit("hammer_end_account_sync");
        },
        ToolKind::CreateProject => {
            reveal_strlit("hammer_create_project");
        },
        ToolKind::DeleteProject => {
            reveal_strlit("hammer_delete_project");
        },
        ToolKind::RenameProject => {
            reveal_strlit("hammer_rename_project");
        },
        ToolKind::BeginProjectSync => {
            reveal_strlit("hammer_begin_project_sync");
        },
        ToolKind::EndProjectSync => {
            reveal_strlit("hammer_end_project_sync");
        },
        ToolKind::DownloadEntity => {
            reveal_strlit("hammer_download_entity");
        },
        ToolKind::UploadEntity => {
            reveal_strlit("hammer_upload_entity");
        },
        ToolKind::DeleteEntity => {
            reveal_strlit("hammer_delete_entity");
        },
        ToolKind::GetProjectData => {
            reveal_strlit("hammer_get_project_data");
        },
        ToolKind::UploadProjectData => {
            reveal_strlit("hammer_upload_project_data");
        },
        ToolKind::GetIdeasState => {
            reveal_strlit("hammer_get_ideas_state");
        },
        ToolKind::DownloadIdea => {
            reveal_strlit("hammer_download_idea");
        },
        ToolKind::UploadIdea => {
            reveal_strlit("hammer_upload_idea");
        },
        ToolKind::DeleteIdea => {
            reveal_strlit("hammer_delete_idea");
        },
        ToolKind::GetWritingActivity => {
            reveal_strlit("hammer_get_writing_activity");
        },
        ToolKind::SyncProbe => {
            reveal_strlit("hammer_sync_probe");
        },
        ToolKind::EntitySchema => {
            reveal_strlit("hammer_entity_schema");
        },
    }
}

/// Distinct tools have distinct names.
proof fn lemma_names_distinct(a: ToolKind, b: ToolKind)
    ensures
        tool_name(a) == tool_name(b) ==> a == b,
{
    lemma_name_index(a);
    lemma_name_index(b);
}

/// A tool's name calls that tool.
proof fn lemma_named(k: ToolKind)
    ensures
        tool_named(tool_name(k)) == Some(k),
{
    lemma_named_in(tool_order(), tool_name(k));
    lemma_name_index(k);
    assert(tool_name(tool_order()[catalog_index(k)]) == tool_name(k));
    let found = tool_named(tool_name(k))->0;
    lemma_names_distinct(found, k);
}

/// The catalogue lists the tool `k`.
pub open spec fn in_catalog(k: ToolKind) -> bool {
    exists|i: int| 0 <= i < catalog().len() && #[trigger] catalog()[i].0 == k
}

/// The catalogue and the dispatch agree: `handle_call` serves each tool
/// under the name its catalogue entry lists, the catalogue lists every
/// tool that `handle_call` serves, and `handle_call` serves no other name.
pub proof fn lemma_catalog_matches_dispatch(n: Seq<char>)
    ensures
        forall|k: ToolKind| #[trigger] tool_named(tool_name(k)) == Some(k),
        forall|k: ToolKind| #[trigger] in_catalog(k),
        tool_named(n) is Some <==> exists|i: int| 0 <= i < catalog().len() && tool_name(catalog()[i].0) == n,
{
    assert forall|k: ToolKind| #[trigger] tool_named(tool_name(k)) == Some(k) by {
        lemma_named(k);
    }
    assert forall|i: int| 0 <= i < catalog().len() implies #[trigger] catalog()[i].0 == tool_order()[i] by {}
    assert forall|k: ToolKind| #[trigger] in_catalog(k) by {
        lemma_name_index(k);
        assert(catalog()[catalog_index(k)].0 == k);
    }
    lemma_named_in(tool_order(), n);
    if exists|j: int| 0 <= j < tool_order().len() && tool_name(tool_order()[j]) == n {
        let j = choose|j: int| 0 <= j < tool_order().len() && tool_name(tool_order()[j]) == n;
        assert(tool_name(catalog()[j].0) == n);
    }
    if exists|i: int| 0 <= i < catalog().len() && tool_name(catalog()[i].0) == n {
        let i = choose|i: int| 0 <= i < catalog().len() && tool_name(catalog()[i].0) == n;
        assert(tool_name(tool_order()[i]) == n);
    }
}

/// Every entity type has a schema under its wire name.
pub proof fn lemma_every_entity_type_has_schema(t: EntityType)
    ensures
        schema_table(entity_type_name(t)) is Some,
{
    crate::tools::lemma_type_names_distinct();
}

/// Without a user, every tool but the schema lookup fails with the
/// not-authenticated error and leaves the state as it was.
pub proof fn lemma_unauthenticated_calls_fail(
    k: ToolKind,
    old: McpServer,
    new: McpServer,
    input: ToolInput,
    step: ToolStep,
)
    requires
        old.user_id is None,
        k != ToolKind::EntitySchema,
        tool_step(k, old, new, input, step),
    ensures
        finished_err(step, not_authenticated_msg()),
        new == old,
{
}

/// A tool call followed by the completion of its request keeps the
/// server from holding an account sync and a project sync at once.
pub proof fn lemma_call_keeps_syncs_exclusive(
    k: ToolKind,
    s0: McpServer,
    s1: McpServer,
    input: ToolInput,
    step: ToolStep,
    reply: Result<ApiReply, String>,
    result: Result<JsonValue, String>,
    s2: McpServer,
)
    requires
        s0.syncs_exclusive(),
        tool_step(k, s0, s1, input, step),
        step matches ToolStep::Call(c) && completes(s1, s2, c.pending, reply, result),
    ensures
        s2.syncs_exclusive(),
{
    assert forall|m: Map<Seq<char>, ProjectSyncSession>, x: Seq<char>|
        m == Map::<Seq<char>, ProjectSyncSession>::empty() implies #[trigger] m.remove(x) == m by {
        assert(m.remove(x) =~= m);
    }
}

/// Ending a project sync right after it began closes the session it
/// opened, and reports to the server the sync id that the server gave.
pub proof fn lemma_end_closes_begun_sync(
    s1: McpServer,
    pid: String,
    resp: ProjectSynchronizationBegan,
    began: Result<JsonValue, String>,
    s2: McpServer,
    args: JsonValue,
    step: ToolStep,
    s3: McpServer,
)
    requires
        completes(s1, s2, Pending::BeginProjectSync(pid), Ok(ApiReply::ProjectSync(resp)), began),
        s2.user_id is Some,
        args.at("project_id"@).str_of() == Some(pid@),
        end_project_sync_step(s2, s3, args, step),
    ensures
        step matches ToolStep::Call(c) && s2.client.is_end_project_sync(
            c.request,
            s2.user_id->0,
            pid@,
            resp.sync_id@,
            args.at("last_sync"@).str_of(),
            opt_i32(args.at("last_id"@).i64_of()),
        ),
        !s3.project_sessions@.contains_key(pid@),
{
}

/// Once an account sync has begun, the account-level tools go ahead under
/// the sync id that the server gave: creating a project and reading the
/// ideas state send it, and so do the other tools that need an account
/// sync.
pub proof fn lemma_account_tools_use_begun_sync(
    s1: McpServer,
    resp: BeginProjectsSyncResponse,
    began: Result<JsonValue, String>,
    s2: McpServer,
)
    requires
        completes(s1, s2, Pending::BeginAccountSync, Ok(ApiReply::ProjectsSync(resp)), began),
        s2.user_id is Some,
    ensures
        account_ready(s2) == Some((s2.user_id->0, resp.sync_id@)),
        forall|args: JsonValue, step: ToolStep|
            #[trigger] create_project_step(s2, args, step) && args.at("project_name"@).str_of() is Some
                ==> (step matches ToolStep::Call(c) && s2.client.is_create_project(c.request, s2.user_id->0,
                resp.sync_id@, args.at("project_name"@).str_of()->0)),
        forall|step: ToolStep|
            #[trigger] get_ideas_state_step(s2, step) ==> (step matches ToolStep::Call(c)
                && s2.client.is_ideas_sync_state(c.request, s2.user_id->0, resp.sync_id@)),
{
}

/// Once a project sync has begun, the entity tools for that project go
/// ahead under the sync id that the server gave when it began.
pub proof fn lemma_entity_tools_use_begun_sync(
    s1: McpServer,
    pid: String,
    resp: ProjectSynchronizationBegan,
    began: Result<JsonValue, String>,
    s2: McpServer,
    args: JsonValue,
)
    requires
        completes(s1, s2, Pending::BeginProjectSync(pid), Ok(ApiReply::ProjectSync(resp)), began),
        s2.user_id is Some,
        args.at("project_id"@).str_of() == Some(pid@),
    ensures
        forall|step: ToolStep|
            #[trigger] download_entity_step(s2, args, step) && args.at("entity_id"@).i64_of() is Some
                ==> (step matches ToolStep::Call(c) && s2.client.is_download_entity(c.request, s2.user_id->0,
                pid@, args.at("entity_id"@).i64_of()->0 as i32, resp.sync_id@, args.at("entity_hash"@).str_of())),
        forall|step: ToolStep|
            #[trigger] delete_entity_step(s2, args, step) && args.at("entity_id"@).i64_of() is Some
                ==> (step matches ToolStep::Call(c) && s2.client.is_delete_entity(c.request, s2.user_id->0,
                pid@, args.at("entity_id"@).i64_of()->0 as i32, resp.sync_id@)),
        forall|entity: ApiProjectEntity, step: ToolStep|
            #[trigger] upload_entity_step(s2, args, Ok(entity), step) && args.at("entity_type"@).str_of()
                == Some(entity_type_name(entity.kind())) ==> (step matches ToolStep::Call(c)
                && s2.client.is_upload_entity(c.request, s2.user_id->0, pid@, entity, resp.sync_id@,
                args.at("original_hash"@).str_of(), args.at("force"@).bool_of() == Some(true))),
{
}

proof fn lemma_catalog_index(i: int)
    requires
        0 <= i < catalog().len(),
    ensures
        catalog_index(catalog()[i].0) == i,
{
    if i == 0 {
            assert(catalog()[i].0 == ToolKind::BeginAccountSync);
        } else if i == 1 {
            assert(catalog()[i].0 == ToolKind::EndAccountSync);
        } else if i == 2 {
            assert(catalog()[i].0 == ToolKind::CreateProject);
        } else if i == 3 {
            assert(catalog()[i].0 == ToolKind::DeleteProject);
        } else if i == 4 {
            assert(catalog()[i].0 == ToolKind::RenameProject);
        } else if i == 5 {
            assert(catalog()[i].0 == ToolKind::BeginProjectSync);
        } else if i == 6 {
            assert(catalog()[i].0 == ToolKind::EndProjectSync);
        } else if i == 7 {
            assert(catalog()[i].0 == ToolKind::DownloadEntity);
        } else if i == 8 {
            assert(catalog()[i].0 == ToolKind::UploadEntity);
        } else if i == 9 {
            assert(catalog()[i].0 == ToolKind::DeleteEntity);
        } else if i == 10 {
            assert(catalog()[i].0 == ToolKind::GetProjectData);
        } else if i == 11 {
            assert(catalog()[i].0 == ToolKind::UploadProjectData);
        } else if i == 12 {
            assert(catalog()[i].0 == ToolKind::GetIdeasState);
        } else if i == 13 {
            assert(catalog()[i].0 == ToolKind::DownloadIdea);
        } else if i == 14 {
            assert(catalog()[i].0 == ToolKind::UploadIdea);
        } else if i == 15 {
            assert(catalog()[i].0 == ToolKind::DeleteIdea);
        } else if i == 16 {
            assert(catalog()[i].0 == ToolKind::GetWritingActivity);
        } else if i == 17 {
            assert(catalog()[i].0 == ToolKind::SyncProbe);
        } else if i == 18 {
            assert(catalog()[i].0 == ToolKind::EntitySchema);
        }
}

/// The catalogue is well formed: no two entries are for the same tool, so
/// no two share a name, and each tool's required arguments are among its
/// properties.
pub proof fn lemma_catalog_well_formed()
    ensures
        forall|i: int, j: int|
            0 <= i < catalog().len() && 0 <= j < catalog().len() && i != j ==> #[trigger] catalog()[i].0
                != #[trigger] catalog()[j].0 && tool_name(catalog()[i].0) != tool_name(catalog()[j].0),
        forall|i: int, r: int|
            0 <= i < catalog().len() && 0 <= r < catalog()[i].3.len() ==> exists|j: int|
                0 <= j < catalog()[i].2.len() && #[trigger] catalog()[i].3[r] == Some(catalog()[i].2[j].0),
{
    lemma_catalog_matches_dispatch(Seq::empty());
    assert forall|i: int, j: int|
        0 <= i < catalog().len() && 0 <= j < catalog().len() && i != j implies #[trigger] catalog()[i].0
            != #[trigger] catalog()[j].0 && tool_name(catalog()[i].0) != tool_name(catalog()[j].0) by {
        lemma_catalog_index(i);
        lemma_catalog_index(j);
        assert(tool_named(tool_name(catalog()[i].0)) == Some(catalog()[i].0));
        assert(tool_named(tool_name(catalog()[j].0)) == Some(catalog()[j].0));
    }
    assert forall|i: int, r: int| 0 <= i < catalog().len() && 0 <= r < catalog()[i].3.len() implies exists|j: int|
        0 <= j < catalog()[i].2.len() && #[trigger] catalog()[i].3[r] == Some(catalog()[i].2[j].0) by {
        if i == 0 {
            assert(catalog()[i].3[r] == Some(catalog()[i].2[r].0));
        } else if i == 1 {
            assert(catalog()[i].3[r] == Some(catalog()[i].2[r].0));
        } else if i == 2 {
            assert(catalog()[i].3[r] == Some(catalog()[i].2[r].0));
        } else if i == 3 {
            assert(catalog()[i].3[r] == Some(catalog()[i].2[r].0));
        } else if i == 4 {
            assert(catalog()[i].3[r] == Some(catalog()[i].2[r].0));
        } else if i == 5 {
            assert(catalog()[i].3[r] == Some(catalog()[i].2[r].0));
        } else if i == 6 {
            assert(catalog()[i].3[r] == Some(catalog()[i].2[r].0));
        } else if i == 7 {
            assert(catalog()[i].3[r] == Some(catalog()[i].2[r].0));
        } else if i == 8 {
            assert(catalog()[i].3[r] == Some(catalog()[i].2[r].0));
        } else if i == 9 {
            assert(catalog()[i].3[r] == Some(catalog()[i].2[r].0));
        } else if i == 10 {
            assert(catalog()[i].3[r] == Some(catalog()[i].2[r].0));
        } else if i == 11 {
            assert(catalog()[i].3[r] == Some(catalog()[i].2[r].0));
        } else if i == 12 {
            assert(catalog()[i].3[r] == Some(catalog()[i].2[r].0));
        } else if i == 13 {
            assert(catalog()[i].3[r] == Some(catalog()[i].2[r].0));
        } else if i == 14 {
            assert(catalog()[i].3[r] == Some(catalog()[i].2[r].0));
        } else if i == 15 {
            assert(catalog()[i].3[r] == Some(catalog()[i].2[r].0));
        } else if i == 16 {
            assert(catalog()[i].3[r] == Some(catalog()[i].2[r].0));
        } else if i == 17 {
            assert(catalog()[i].3[r] == Some(catalog()[i].2[r].0));
        } else if i == 18 {
            assert(catalog()[i].3[r] == Some(catalog()[i].2[r].0));
        }
        assert(r < catalog()[i].2.len());
    }
}

/// Every JSON-RPC request but the `notifications/initialized` notification
/// gets exactly one answer: an object of `"jsonrpc": "2.0"`, the request's
/// id (`null` where it has none), and one of `result` or `error`. A tool
/// call is answered, once the tool's outcome is known, with the outcome's
/// text as its one content, or `Error: ` and the error with `isError`.
pub proof fn lemma_requests_are_answered(
    req: JsonRpcRequest,
    version: Seq<char>,
    action: RpcAction,
    outcome: Result<String, String>,
    answer: JsonValue,
)
    requires
        routes(req, version, action),
        action matches RpcAction::Reply(v) ==> answer == v,
        action matches RpcAction::CallTool { id, .. } ==> is_tool_answer(answer, id, outcome),
    ensures
        action is Ignore <==> req.method@ == "notifications/initialized"@,
        !(action is Ignore) ==> {
            &&& is_object(answer, seq!["jsonrpc"@, "id"@, "result"@]) || is_object(
                answer,
                seq!["jsonrpc"@, "id"@, "error"@],
            )
            &&& field_value(answer, 0).is_text("2.0"@)
            &&& field_value(answer, 1) == id_json(req.id)
        },
        action matches RpcAction::CallTool { id, .. } ==> is_tool_answer(answer, req.id, outcome),
{
}

// ── The tool definitions as JSON ─────────────────────────────

proof fn lemma_text_same(a: JsonValue, b: JsonValue, t: Seq<char>, n: nat)
    requires
        a.is_text(t),
        b.is_text(t),
        n >= 1,
    ensures
        same_json(a, b, n),
{
}

/// Two objects with the same keys, in order, whose values are pairwise the
/// same JSON.
proof fn lemma_object_same(a: JsonValue, b: JsonValue, keys: Seq<Seq<char>>, n: nat)
    requires
        is_object(a, keys),
        is_object(b, keys),
        n >= 1,
        forall|i: int| 0 <= i < keys.len() ==> #[trigger] same_json(field_value(a, i), field_value(b, i), (n - 1) as nat),
    ensures
        same_json(a, b, n),
{
    let x = a->Object_0;
    let y = b->Object_0;
    assert forall|i: int| 0 <= i < x@.len() implies #[trigger] x@[i].0@ == y@[i].0@ by {
        assert(x@[i].0@ == keys[i]);
        assert(y@[i].0@ == keys[i]);
    }
    assert forall|i: int| 0 <= i < x@.len() implies #[trigger] same_json(x@[i].1, y@[i].1, (n - 1) as nat) by {
        assert(same_json(field_value(a, i), field_value(b, i), (n - 1) as nat));
    }
    lemma_same_members(x@, y@, (n - 1) as nat);
}

proof fn lemma_typed_same(a: JsonValue, b: JsonValue, t: Seq<char>, n: nat)
    requires
        typed_is(a, t),
        typed_is(b, t),
        n >= 2,
    ensures
        same_json(a, b, n),
{
    lemma_text_same(field_value(a, 0), field_value(b, 0), t, (n - 1) as nat);
    lemma_object_same(a, b, seq!["type"@], n);
}

proof fn lemma_texts_same(a: JsonValue, b: JsonValue, req: Seq<Option<Seq<char>>>, n: nat)
    requires
        a matches JsonValue::Array(x) && item_texts(x@) == req,
        b matches JsonValue::Array(y) && item_texts(y@) == req,
        forall|i: int| 0 <= i < req.len() ==> #[trigger] req[i] is Some,
        n >= 2,
    ensures
        same_json(a, b, n),
{
    let x = a->Array_0;
    let y = b->Array_0;
    assert(x@.len() == item_texts(x@).len());
    assert(y@.len() == item_texts(y@).len());
    assert forall|i: int| 0 <= i < x@.len() implies #[trigger] same_json(x@[i], y@[i], (n - 1) as nat) by {
        assert(item_texts(x@)[i] == x@[i].str_of());
        assert(item_texts(y@)[i] == y@[i].str_of());
        assert(req[i] is Some);
        lemma_text_same(x@[i], y@[i], req[i]->0, (n - 1) as nat);
    }
    lemma_same_items(x@, y@, (n - 1) as nat);
}

proof fn lemma_names_same(a: JsonValue, b: JsonValue, names: Seq<Seq<char>>, n: nat)
    requires
        a matches JsonValue::Array(x) && texts_are(x@, names),
        b matches JsonValue::Array(y) && texts_are(y@, names),
        n >= 2,
    ensures
        same_json(a, b, n),
{
    let req = names.map_values(|t: Seq<char>| Some(t));
    assert forall|i: int| 0 <= i < req.len() implies #[trigger] req[i] is Some by {}
    lemma_texts_same(a, b, req, n);
}

proof fn lemma_record_same(
    a: JsonValue,
    b: JsonValue,
    fields: Seq<(Seq<char>, Seq<char>)>,
    required: Seq<Seq<char>>,
    n: nat,
)
    requires
        record_is(a, fields, required),
        record_is(b, fields, required),
        n >= 4,
    ensures
        same_json(a, b, n),
{
    let m = (n - 1) as nat;
    lemma_text_same(field_value(a, 0), field_value(b, 0), "object"@, m);
    let pa = field_value(a, 1);
    let pb = field_value(b, 1);
    let keys = fields.map_values(|f: (Seq<char>, Seq<char>)| f.0);
    assert forall|i: int| 0 <= i < keys.len() implies #[trigger] same_json(field_value(pa, i), field_value(pb, i), (m - 1) as nat) by {
        lemma_typed_same(field_value(pa, i), field_value(pb, i), fields[i].1, (m - 1) as nat);
    }
    lemma_object_same(pa, pb, keys, m);
    lemma_names_same(field_value(a, 2), field_value(b, 2), required, m);
    assert forall|i: int| 0 <= i < 3 implies #[trigger] same_json(field_value(a, i), field_value(b, i), m) by {}
    lemma_object_same(a, b, seq!["type"@, "properties"@, "required"@], n);
}

proof fn lemma_prop_same(a: JsonValue, b: JsonValue, p: PropSchema, n: nat)
    requires
        prop_is(a, p),
        prop_is(b, p),
        n >= 5,
    ensures
        same_json(a, b, n),
{
    let m = (n - 1) as nat;
    match p {
        PropSchema::Typed(t) => lemma_typed_same(a, b, t, n),
        PropSchema::OneOf(names) => {
            lemma_text_same(field_value(a, 0), field_value(b, 0), "string"@, m);
            lemma_names_same(field_value(a, 1), field_value(b, 1), names, m);
            assert forall|i: int| 0 <= i < 2 implies #[trigger] same_json(field_value(a, i), field_value(b, i), m) by {}
            lemma_object_same(a, b, seq!["type"@, "enum"@], n);
        },
        PropSchema::ListOf(t) => {
            lemma_text_same(field_value(a, 0), field_value(b, 0), "array"@, m);
            lemma_typed_same(field_value(a, 1), field_value(b, 1), t, m);
            assert forall|i: int| 0 <= i < 2 implies #[trigger] same_json(field_value(a, i), field_value(b, i), m) by {}
            lemma_object_same(a, b, seq!["type"@, "items"@], n);
        },
        PropSchema::ListOfRecords(fields, required) => {
            lemma_text_same(field_value(a, 0), field_value(b, 0), "array"@, m);
            lemma_record_same(field_value(a, 1), field_value(b, 1), fields, required, m);
            assert forall|i: int| 0 <= i < 2 implies #[trigger] same_json(field_value(a, i), field_value(b, i), m) by {}
            lemma_object_same(a, b, seq!["type"@, "items"@], n);
        },
    }
}

proof fn lemma_def_same(a: JsonValue, b: JsonValue, e: ToolEntry, n: nat)
    requires
        def_ok(a, e),
        def_ok(b, e),
        forall|i: int| 0 <= i < e.3.len() ==> #[trigger] e.3[i] is Some,
        n >= 8,
    ensures
        same_json(a, b, n),
{
    let m = (n - 1) as nat;
    let k = (m - 1) as nat;
    lemma_text_same(field_value(a, 0), field_value(b, 0), tool_name(e.0), m);
    lemma_text_same(field_value(a, 1), field_value(b, 1), e.1, m);
    let sa = field_value(a, 2);
    let sb = field_value(b, 2);
    lemma_text_same(field_value(sa, 0), field_value(sb, 0), "object"@, k);
    let pa = field_value(sa, 1);
    let pb = field_value(sb, 1);
    let keys = e.2.map_values(|p: (Seq<char>, PropSchema)| p.0);
    assert forall|i: int| 0 <= i < keys.len() implies #[trigger] same_json(field_value(pa, i), field_value(pb, i), (k - 1) as nat) by {
        lemma_prop_same(field_value(pa, i), field_value(pb, i), e.2[i].1, (k - 1) as nat);
    }
    lemma_object_same(pa, pb, keys, k);
    lemma_texts_same(field_value(sa, 2), field_value(sb, 2), e.3, k);
    assert forall|i: int| 0 <= i < 3 implies #[trigger] same_json(field_value(sa, i), field_value(sb, i), k) by {}
    lemma_object_same(sa, sb, seq!["type"@, "properties"@, "required"@], m);
    assert forall|i: int| 0 <= i < 3 implies #[trigger] same_json(field_value(a, i), field_value(b, i), m) by {}
    lemma_object_same(a, b, seq!["name"@, "description"@, "inputSchema"@], n);
}

/// The name of a tool definition.
pub open spec fn def_name(d: JsonValue) -> Option<Seq<char>> {
    field_value(d, 0).str_of()
}

/// `name` is the key of one of `props`.
pub open spec fn is_property(name: Option<Seq<char>>, props: Seq<(String, JsonValue)>) -> bool {
    exists|j: int| 0 <= j < props.len() && name == Some(#[trigger] props[j].0@)
}

/// Each required argument of the definition `d` is one of its properties.
pub open spec fn required_among_properties(d: JsonValue) -> bool {
    let s = field_value(d, 2);
    &&& field_value(s, 1) matches JsonValue::Object(props)
    &&& field_value(s, 2) matches JsonValue::Array(req)
    &&& forall|r: int| 0 <= r < req@.len() ==> #[trigger] is_property(req@[r].str_of(), props@)
}

/// The tool definitions, as `tool_definitions` returns them, are well
/// formed: each has a string name, a string description and an object
/// input schema; no two share a name; and each required argument is one of
/// the tool's properties.
pub proof fn lemma_definitions_well_formed(defs: Seq<JsonValue>)
    requires
        defs_ok(defs, catalog()),
    ensures
        forall|i: int| 0 <= i < defs.len() ==> #[trigger] def_name(defs[i]) is Some && field_value(defs[i], 1).str_of() is Some
            && field_value(field_value(defs[i], 2), 0).is_text("object"@),
        forall|i: int, j: int|
            0 <= i < defs.len() && 0 <= j < defs.len() && i != j ==> #[trigger] def_name(defs[i]) != #[trigger] def_name(defs[j]),
        forall|i: int| 0 <= i < defs.len() ==> #[trigger] required_among_properties(defs[i]),
{
    lemma_catalog_well_formed();
    assert forall|i: int| 0 <= i < defs.len() implies #[trigger] def_name(defs[i]) is Some && field_value(defs[i], 1).str_of() is Some
        && field_value(field_value(defs[i], 2), 0).is_text("object"@) by {
        assert(def_ok(defs[i], catalog()[i]));
    }
    assert forall|i: int, j: int| 0 <= i < defs.len() && 0 <= j < defs.len() && i != j implies #[trigger] def_name(defs[i])
        != #[trigger] def_name(defs[j]) by {
        assert(def_ok(defs[i], catalog()[i]));
        assert(def_ok(defs[j], catalog()[j]));
        assert(tool_name(catalog()[i].0) != tool_name(catalog()[j].0));
    }
    assert forall|i: int| 0 <= i < defs.len() implies #[trigger] required_among_properties(defs[i]) by {
        assert(def_ok(defs[i], catalog()[i]));
        let s = field_value(defs[i], 2);
        let req = field_value(s, 2)->Array_0;
        let props = field_value(s, 1)->Object_0;
        assert forall|r: int| 0 <= r < req@.len() implies #[trigger] is_property(req@[r].str_of(), props@) by {
            assert(item_texts(req@) == catalog()[i].3);
            assert(item_texts(req@)[r] == req@[r].str_of());
            let j = choose|j: int| 0 <= j < catalog()[i].2.len() && #[trigger] catalog()[i].3[r] == Some(catalog()[i].2[j].0);
            assert(props@[j].0@ == catalog()[i].2[j].0);
        }
        assert(field_value(s, 1) == JsonValue::Object(props));
        assert(field_value(s, 2) == JsonValue::Array(req));
        assert(required_among_properties(defs[i]));
    }
}

/// `tool_definitions` gives the same JSON on every call: any two results
/// agree member by member, every text equal, to the full depth of the
/// definitions.
pub proof fn lemma_definitions_agree(a: Seq<JsonValue>, b: Seq<JsonValue>)
    requires
        defs_ok(a, catalog()),
        defs_ok(b, catalog()),
    ensures
        a.len() == b.len(),
        forall|i: int| 0 <= i < a.len() ==> #[trigger] same_json(a[i], b[i], 8),
{
    lemma_catalog_well_formed();
    assert forall|i: int| 0 <= i < a.len() implies #[trigger] same_json(a[i], b[i], 8) by {
        assert(def_ok(a[i], catalog()[i]));
        assert(def_ok(b[i], catalog()[i]));
        assert forall|r: int| 0 <= r < catalog()[i].3.len() implies #[trigger] catalog()[i].3[r] is Some by {
            let j = choose|j: int| 0 <= j < catalog()[i].2.len() && #[trigger] catalog()[i].3[r] == Some(catalog()[i].2[j].0);
        }
        lemma_def_same(a[i], b[i], catalog()[i], 8);
    }
}

/// `handle_call` follows the tool definitions: a name that no definition
/// carries is answered with the unknown-tool error and changes nothing; a
/// name that a definition carries runs that definition's tool.
pub proof fn lemma_dispatch_follows_definitions(
    defs: Seq<JsonValue>,
    s0: McpServer,
    s1: McpServer,
    name: Seq<char>,
    input: ToolInput,
    step: ToolStep,
)
    requires
        defs_ok(defs, catalog()),
        handles(s0, s1, name, input, step),
    ensures
        (forall|i: int| 0 <= i < defs.len() ==> #[trigger] def_name(defs[i]) != Some(name)) ==> (finished_err(
            step,
            "Unknown tool: "@ + name,
        ) && s1 == s0),
        forall|i: int| 0 <= i < defs.len() && #[trigger] def_name(defs[i]) == Some(name) ==> tool_step(
            catalog()[i].0,
            s0,
            s1,
            input,
            step,
        ),
{
    lemma_catalog_matches_dispatch(name);
    if tool_named(name) is Some {
        let i = choose|i: int| 0 <= i < catalog().len() && tool_name(catalog()[i].0) == name;
        assert(def_ok(defs[i], catalog()[i]));
        assert(def_name(defs[i]) == Some(name));
    }
    assert forall|i: int| 0 <= i < defs.len() && #[trigger] def_name(defs[i]) == Some(name) implies tool_step(
        catalog()[i].0,
        s0,
        s1,
        input,
        step,
    ) by {
        assert(def_ok(defs[i], catalog()[i]));
        assert(tool_named(tool_name(catalog()[i].0)) == Some(catalog()[i].0));
    }
}

// ── Requests and their answers ───────────────────────────────

/// One `tools/call` request: the tool it names runs on its arguments from
/// the state `s0` (`handle_call`), and then, where it makes a request, its
/// completion with the reply (`complete_call`). The answer carries the
/// request's id and the outcome: the text of the tool's result, or
/// `Error: ` and its error with `isError`. The state after is the one the
/// tool leaves, and the server still never holds an account sync and a
/// project sync at once. A name that no tool has is answered with the
/// unknown-tool error and changes nothing.
pub proof fn lemma_tool_call_round(
    req: JsonRpcRequest,
    version: Seq<char>,
    action: RpcAction,
    s0: McpServer,
    input: ToolInput,
    s1: McpServer,
    step: ToolStep,
    reply: Result<ApiReply, String>,
    result: Result<JsonValue, String>,
    s2: McpServer,
    outcome: Result<String, String>,
    answer: JsonValue,
)
    requires
        routes(req, version, action),
        action matches RpcAction::CallTool { name, args, .. } && input.args == args && handles(
            s0,
            s1,
            name@,
            input,
            step,
        ),
        step matches ToolStep::Finished(r) ==> s2 == s1 && result == r,
        step matches ToolStep::Call(c) ==> completes(s1, s2, c.pending, reply, result),
        result matches Err(e) ==> outcome == Err::<String, String>(e),
        result is Ok ==> outcome is Ok,
        action matches RpcAction::CallTool { id, .. } ==> is_tool_answer(answer, id, outcome),
    ensures
        req.method@ == "tools/call"@,
        is_tool_answer(answer, req.id, outcome),
        field_value(answer, 1) == id_json(req.id),
        action matches RpcAction::CallTool { name, .. } ==> (tool_named(name@) is None ==> (s2 == s0
            && (outcome matches Err(e) && e@ == "Unknown tool: "@ + name@))),
        s0.syncs_exclusive() ==> s2.syncs_exclusive(),
{
    lemma_requests_are_answered(req, version, action, outcome, answer);
    let name = action->name;
    match tool_named(name@) {
        Some(k) => {
            if step is Call && s0.syncs_exclusive() {
                lemma_call_keeps_syncs_exclusive(k, s0, s1, input, step, reply, result, s2);
            }
        },
        None => {},
    }
}

/// The answers to non-notifications, in order of their requests.
pub open spec fn kept_answers(actions: Seq<RpcAction>, answers: Seq<JsonValue>) -> Seq<JsonValue>
    decreases actions.len(),
{
    if actions.len() == 0 || answers.len() == 0 {
        seq![]
    } else {
        let rest = kept_answers(actions.drop_last(), answers.drop_last());
        if actions.last() is Ignore {
            rest
        } else {
            rest.push(answers.last())
        }
    }
}

/// The ids of the requests that are not the `notifications/initialized`
/// notification, in order.
pub open spec fn answered_ids(reqs: Seq<JsonRpcRequest>) -> Seq<Option<JsonValue>>
    decreases reqs.len(),
{
    if reqs.len() == 0 {
        seq![]
    } else {
        let rest = answered_ids(reqs.drop_last());
        if reqs.last().method@ == "notifications/initialized"@ {
            rest
        } else {
            rest.push(reqs.last().id)
        }
    }
}

/// A run of requests, each answered as it is routed: the answers sent are
/// one per request that is not the `notifications/initialized`
/// notification, in order, each an object of `"jsonrpc": "2.0"`, that
/// request's id (`null` where it has none) and one of `result` or `error`.
pub proof fn lemma_requests_answered_in_order(
    reqs: Seq<JsonRpcRequest>,
    version: Seq<char>,
    actions: Seq<RpcAction>,
    outcomes: Seq<Result<String, String>>,
    answers: Seq<JsonValue>,
)
    requires
        actions.len() == reqs.len(),
        answers.len() == reqs.len(),
        outcomes.len() == reqs.len(),
        forall|i: int| 0 <= i < reqs.len() ==> routes(#[trigger] reqs[i], version, actions[i]),
        forall|i: int| 0 <= i < reqs.len() ==> (#[trigger] actions[i] matches RpcAction::Reply(v) ==> answers[i] == v),
        forall|i: int|
            0 <= i < reqs.len() ==> (#[trigger] actions[i] matches RpcAction::CallTool { id, .. } ==> is_tool_answer(
                answers[i],
                id,
                outcomes[i],
            )),
    ensures
        kept_answers(actions, answers).len() == answered_ids(reqs).len(),
        forall|j: int|
            0 <= j < answered_ids(reqs).len() ==> {
                let a = #[trigger] kept_answers(actions, answers)[j];
                &&& is_object(a, seq!["jsonrpc"@, "id"@, "result"@]) || is_object(a, seq!["jsonrpc"@, "id"@, "error"@])
                &&& field_value(a, 0).is_text("2.0"@)
                &&& field_value(a, 1) == id_json(answered_ids(reqs)[j])
            },
    decreases reqs.len(),
{
    if reqs.len() > 0 {
        let n = reqs.len() - 1;
        assert(routes(reqs[n], version, actions[n]));
        assert(actions[n] matches RpcAction::Reply(v) ==> answers[n] == v);
        assert(actions[n] matches RpcAction::CallTool { id, .. } ==> is_tool_answer(answers[n], id, outcomes[n]));
        lemma_requests_are_answered(reqs[n], version, actions[n], outcomes[n], answers[n]);
        let r0 = reqs.drop_last();
        let a0 = actions.drop_last();
        let o0 = outcomes.drop_last();
        let w0 = answers.drop_last();
        assert forall|i: int| 0 <= i < r0.len() implies routes(#[trigger] r0[i], version, a0[i]) by {
            assert(r0[i] == reqs[i] && a0[i] == actions[i]);
            assert(routes(reqs[i], version, actions[i]));
        }
        assert forall|i: int| 0 <= i < r0.len() implies (#[trigger] a0[i] matches RpcAction::Reply(v) ==> w0[i] == v) by {
            assert(a0[i] == actions[i] && w0[i] == answers[i]);
            assert(actions[i] matches RpcAction::Reply(v) ==> answers[i] == v);
        }
        assert forall|i: int| 0 <= i < r0.len() implies (#[trigger] a0[i] matches RpcAction::CallTool { id, .. }
            ==> is_tool_answer(w0[i], id, o0[i])) by {
            assert(a0[i] == actions[i] && w0[i] == answers[i] && o0[i] == outcomes[i]);
            assert(actions[i] matches RpcAction::CallTool { id, .. } ==> is_tool_answer(answers[i], id, outcomes[i]));
        }
        lemma_requests_answered_in_order(r0, version, a0, o0, w0);
        assert(reqs.last() == reqs[n] && actions.last() == actions[n] && answers.last() == answers[n]);
        let kept = kept_answers(actions, answers);
        let ids = answered_ids(reqs);
        assert forall|j: int| 0 <= j < ids.len() implies {
            let a = #[trigger] kept[j];
            &&& is_object(a, seq!["jsonrpc"@, "id"@, "result"@]) || is_object(a, seq!["jsonrpc"@, "id"@, "error"@])
            &&& field_value(a, 0).is_text("2.0"@)
            &&& field_value(a, 1) == id_json(ids[j])
        } by {
            if j < answered_ids(r0).len() {
                assert(kept[j] == kept_answers(a0, w0)[j]);
                assert(ids[j] == answered_ids(r0)[j]);
            }
        }
    }
}

// ── Replies: what each status and each reply gives ───────────

/// How a reply status is read, by policy, against the HTTP success range
/// 200..=299: a login reads the body of a success and fails otherwise; a
/// checked call also reads 304, 404, 409 and 410; a project-data read
/// takes 204 for "nothing there"; an entity download takes 304 for "not
/// modified"; an upload takes 409 for a conflict (whose body is the
/// server's copy) and any other success for "saved".
pub proof fn lemma_reply_statuses(l: UploadLabel, s: u16)
    ensures
        spec_verdict(ReplyPolicy::Login, s) == (if 200 <= s && s < 300 {
            StatusVerdict::ReadBody
        } else {
            StatusVerdict::Fail
        }),
        spec_verdict(ReplyPolicy::Checked, s) == (if (200 <= s && s < 300) || s == 304 || s == 404 || s == 409
            || s == 410 {
            StatusVerdict::ReadBody
        } else {
            StatusVerdict::Fail
        }),
        spec_verdict(ReplyPolicy::NoContentAbsent, s) == (if s == 204 {
            StatusVerdict::Absent
        } else if (200 <= s && s < 300) || s == 304 || s == 404 || s == 409 || s == 410 {
            StatusVerdict::ReadBody
        } else {
            StatusVerdict::Fail
        }),
        spec_verdict(ReplyPolicy::NotModifiedAbsent, s) == (if s == 304 {
            StatusVerdict::Absent
        } else if 200 <= s && s < 300 {
            StatusVerdict::ReadBody
        } else {
            StatusVerdict::Fail
        }),
        spec_verdict(ReplyPolicy::ConflictBody(l), s) == (if s == 409 {
            StatusVerdict::ReadBody
        } else if 200 <= s && s < 300 {
            StatusVerdict::Absent
        } else {
            StatusVerdict::Fail
        }),
{
}

/// An upload the server accepted without a conflict is answered
/// `{"status": "saved", "success": true}` and changes nothing.
pub proof fn lemma_accepted_upload_is_saved(
    old: McpServer,
    new: McpServer,
    p: Pending,
    r: Result<JsonValue, String>,
)
    requires
        p is UploadEntity || p is UploadProjectData || p is UploadIdea,
        completes(old, new, p, Ok(ApiReply::Absent), r),
    ensures
        new == old,
        r matches Ok(v) && is_object(v, seq!["status"@, "success"@]) && field_value(v, 0).is_text("saved"@)
            && field_value(v, 1) == JsonValue::Bool(true),
{
}

/// The answer to a tool call carries what the server replied: a
/// conflicting upload, the server's copy and hash; a download or read, the
/// value read; a deletion, the server's flag. An error reply is the
/// call's error (a login's behind `Login failed: `), with no change.
pub proof fn lemma_answers_carry_the_reply(
    old: McpServer,
    new: McpServer,
    p: Pending,
    reply: Result<ApiReply, String>,
    r: Result<JsonValue, String>,
)
    requires
        completes(old, new, p, reply, r),
    ensures
        p is UploadProjectData ==> (reply matches Ok(ApiReply::ProjectDataConflict(c)) ==> (r matches Ok(v)
            && field_value(v, 0).is_text("conflict"@) && field_value(v, 1) == JsonValue::Model(
            ModelValue::ProjectData(c.server),
        ) && field_value(v, 2) == JsonValue::Str(c.server_hash))),
        p is UploadIdea ==> (reply matches Ok(ApiReply::IdeaConflict(c)) ==> (r matches Ok(v)
            && field_value(v, 0).is_text("conflict"@) && field_value(v, 1) == JsonValue::Model(
            ModelValue::Idea(c.server),
        ) && field_value(v, 2) == JsonValue::Str(c.server_hash))),
        p is UploadEntity ==> (reply matches Ok(ApiReply::Entity(e)) ==> (r matches Ok(v)
            && field_value(v, 0).is_text("conflict"@) && field_value(v, 2) == JsonValue::Model(
            ModelValue::Entity(e),
        ))),
        p is DownloadEntity ==> (reply matches Ok(ApiReply::Entity(e)) ==> r == Ok::<JsonValue, String>(
            JsonValue::Model(ModelValue::Entity(e)),
        )),
        p is DownloadIdea ==> (reply matches Ok(ApiReply::SavedIdea(i)) ==> r == Ok::<JsonValue, String>(
            JsonValue::Model(ModelValue::SavedIdea(i)),
        )),
        p is GetProjectData ==> (reply matches Ok(ApiReply::ProjectData(d)) ==> r == Ok::<JsonValue, String>(
            JsonValue::Model(ModelValue::ProjectDataDto(d)),
        )),
        p is GetIdeasState ==> (reply matches Ok(ApiReply::IdeasState(st)) ==> r == Ok::<JsonValue, String>(
            JsonValue::Model(ModelValue::IdeasState(st)),
        )),
        p is GetWritingActivity ==> (reply matches Ok(ApiReply::WritingActivity(w)) ==> r == Ok::<
            JsonValue,
            String,
        >(JsonValue::Model(ModelValue::WritingActivity(w)))),
        p is SyncProbe ==> (reply matches Ok(ApiReply::SyncProbe(pr)) ==> r == Ok::<JsonValue, String>(
            JsonValue::Model(ModelValue::SyncProbe(pr)),
        )),
        p is CreateProject ==> (reply matches Ok(ApiReply::CreatedProject(cp)) ==> r == Ok::<JsonValue, String>(
            JsonValue::Model(ModelValue::CreatedProject(cp)),
        )),
        p is BeginAccountSync ==> (reply matches Ok(ApiReply::ProjectsSync(ps)) ==> (r == Ok::<JsonValue, String>(
            JsonValue::Model(ModelValue::ProjectsSync(ps)),
        ) && new.account_sync_id == Some(ps.sync_id))),
        p is DeleteEntity ==> (reply matches Ok(ApiReply::DeleteIds(d)) ==> (r matches Ok(v) && field_value(v, 0)
            == JsonValue::Bool(true) && field_value(v, 1) == JsonValue::Bool(d.deleted))),
        !(p is Login) ==> (reply matches Err(e) ==> (r == Err::<JsonValue, String>(e) && new == old)),
{
}

// ── Requests: what each tool sends ───────────────────────────

/// An entity-hash item that carries an integer id and a string hash.
pub open spec fn is_hash_item(item: JsonValue) -> bool {
    item.at("id"@).i64_of() is Some && item.at("hash"@).str_of() is Some
}

/// Every listed item that is a well-formed entity hash is kept, in order.
proof fn lemma_hash_items_all_kept(items: Seq<JsonValue>)
    requires
        forall|j: int| 0 <= j < items.len() ==> #[trigger] is_hash_item(items[j]),
    ensures
        hash_items(items).len() == items.len(),
        forall|j: int|
            0 <= j < items.len() ==> #[trigger] hash_items(items)[j] == (
                items[j].at("id"@).i64_of()->0 as i32,
                items[j].at("hash"@).str_of()->0,
            ),
    decreases items.len(),
{
    if items.len() > 0 {
        let d = items.drop_last();
        assert forall|j: int| 0 <= j < d.len() implies #[trigger] is_hash_item(d[j]) by {
            assert(d[j] == items[j]);
            assert(is_hash_item(items[j]));
        }
        lemma_hash_items_all_kept(d);
        assert(is_hash_item(items[items.len() - 1]));
        assert forall|j: int| 0 <= j < items.len() implies #[trigger] hash_items(items)[j] == (
            items[j].at("id"@).i64_of()->0 as i32,
            items[j].at("hash"@).str_of()->0,
        ) by {
            if j < d.len() {
                assert(d[j] == items[j]);
                assert(hash_items(d)[j] == (d[j].at("id"@).i64_of()->0 as i32, d[j].at("hash"@).str_of()->0));
            }
        }
    }
}

/// Starting a project sync reports the entity hashes it is given: when
/// the `entity_hashes` argument lists at least one item with an integer id
/// and a string hash, the request sends, gzipped, a client state of
/// exactly those `(id, hash)` pairs, in order; when every listed item is
/// such an item, the state has one entity per item.
pub proof fn lemma_begin_project_sync_reports_hashes(
    old: McpServer,
    new: McpServer,
    args: JsonValue,
    step: ToolStep,
    items: Seq<JsonValue>,
)
    requires
        begin_project_sync_step(old, new, args, step),
        old.user_id is Some,
        args.at("project_id"@).str_of() is Some,
        args.at("entity_hashes"@).array_of() == Some(items),
    ensures
        hash_items(items).len() > 0 ==> (step matches ToolStep::Call(c) && c.request.body matches RequestBody::GzipJson(
            st,
        ) && state_texts(Some(st)) == Some(hash_items(items))),
        items.len() > 0 && (forall|j: int| 0 <= j < items.len() ==> #[trigger] is_hash_item(items[j])) ==> (
        step matches ToolStep::Call(c) && c.request.body matches RequestBody::GzipJson(st) && st.entities@.len()
            == items.len() && forall|j: int|
            0 <= j < items.len() ==> #[trigger] st.entities@[j].id == items[j].at("id"@).i64_of()->0 as i32
                && st.entities@[j].hash@ == items[j].at("hash"@).str_of()->0),
{
    if items.len() > 0 && (forall|j: int| 0 <= j < items.len() ==> #[trigger] is_hash_item(items[j])) {
        lemma_hash_items_all_kept(items);
        let c = step->Call_0;
        let st = c.request.body->GzipJson_0;
        assert(entity_hash_texts(st.entities@) == hash_items(items));
        assert forall|j: int| 0 <= j < items.len() implies #[trigger] st.entities@[j].id == items[j].at(
            "id"@,
        ).i64_of()->0 as i32 && st.entities@[j].hash@ == items[j].at("hash"@).str_of()->0 by {
            assert(entity_hash_texts(st.entities@)[j] == (st.entities@[j].id, st.entities@[j].hash@));
            assert(hash_items(items)[j] == (items[j].at("id"@).i64_of()->0 as i32, items[j].at("hash"@).str_of()->0));
        }
    }
}

/// The HTTP method of the request that each tool makes.
pub open spec fn tool_method(k: ToolKind) -> HttpMethod {
    match k {
        ToolKind::BeginAccountSync => HttpMethod::Post,
        ToolKind::EndAccountSync => HttpMethod::Post,
        ToolKind::CreateProject => HttpMethod::Post,
        ToolKind::DeleteProject => HttpMethod::Post,
        ToolKind::RenameProject => HttpMethod::Post,
        ToolKind::BeginProjectSync => HttpMethod::Post,
        ToolKind::EndProjectSync => HttpMethod::Post,
        ToolKind::DownloadEntity => HttpMethod::Get,
        ToolKind::UploadEntity => HttpMethod::Post,
        ToolKind::DeleteEntity => HttpMethod::Get,
        ToolKind::GetProjectData => HttpMethod::Get,
        ToolKind::UploadProjectData => HttpMethod::Post,
        ToolKind::GetIdeasState => HttpMethod::Post,
        ToolKind::DownloadIdea => HttpMethod::Get,
        ToolKind::UploadIdea => HttpMethod::Post,
        ToolKind::DeleteIdea => HttpMethod::Post,
        ToolKind::GetWritingActivity => HttpMethod::Get,
        ToolKind::SyncProbe => HttpMethod::Post,
        ToolKind::EntitySchema => HttpMethod::Get,
    }
}

/// What each tool reads from the reply to its request.
pub open spec fn tool_reply(k: ToolKind) -> ReplyBody {
    match k {
        ToolKind::BeginAccountSync => ReplyBody::ProjectsSync,
        ToolKind::EndAccountSync => ReplyBody::Nothing,
        ToolKind::CreateProject => ReplyBody::CreatedProject,
        ToolKind::DeleteProject => ReplyBody::Nothing,
        ToolKind::RenameProject => ReplyBody::Nothing,
        ToolKind::BeginProjectSync => ReplyBody::ProjectSync,
        ToolKind::EndProjectSync => ReplyBody::Nothing,
        ToolKind::DownloadEntity => ReplyBody::Entity,
        ToolKind::UploadEntity => ReplyBody::Entity,
        ToolKind::DeleteEntity => ReplyBody::DeleteIds,
        ToolKind::GetProjectData => ReplyBody::ProjectData,
        ToolKind::UploadProjectData => ReplyBody::ProjectDataConflict,
        ToolKind::GetIdeasState => ReplyBody::IdeasState,
        ToolKind::DownloadIdea => ReplyBody::SavedIdea,
        ToolKind::UploadIdea => ReplyBody::IdeaConflict,
        ToolKind::DeleteIdea => ReplyBody::Nothing,
        ToolKind::GetWritingActivity => ReplyBody::WritingActivity,
        ToolKind::SyncProbe => ReplyBody::SyncProbe,
        ToolKind::EntitySchema => ReplyBody::Nothing,
    }
}

/// The tool whose request is pending (none for a login).
pub open spec fn pending_tool(p: Pending) -> Option<ToolKind> {
    match p {
        Pending::BeginAccountSync => Some(ToolKind::BeginAccountSync),
        Pending::EndAccountSync => Some(ToolKind::EndAccountSync),
        Pending::CreateProject => Some(ToolKind::CreateProject),
        Pending::DeleteProject(_) => Some(ToolKind::DeleteProject),
        Pending::RenameProject => Some(ToolKind::RenameProject),
        Pending::BeginProjectSync(_) => Some(ToolKind::BeginProjectSync),
        Pending::EndProjectSync => Some(ToolKind::EndProjectSync),
        Pending::DownloadEntity => Some(ToolKind::DownloadEntity),
        Pending::UploadEntity => Some(ToolKind::UploadEntity),
        Pending::DeleteEntity => Some(ToolKind::DeleteEntity),
        Pending::GetProjectData => Some(ToolKind::GetProjectData),
        Pending::UploadProjectData => Some(ToolKind::UploadProjectData),
        Pending::GetIdeasState => Some(ToolKind::GetIdeasState),
        Pending::DownloadIdea => Some(ToolKind::DownloadIdea),
        Pending::UploadIdea => Some(ToolKind::UploadIdea),
        Pending::DeleteIdea => Some(ToolKind::DeleteIdea),
        Pending::GetWritingActivity => Some(ToolKind::GetWritingActivity),
        Pending::SyncProbe => Some(ToolKind::SyncProbe),
        Pending::Login => None,
    }
}

/// Each tool, called by its name, makes its own request: the pending
/// completion is that tool's, with that tool's method and reply; the
/// schema lookup makes none.
pub proof fn lemma_tools_make_their_own_requests(
    k: ToolKind,
    s0: McpServer,
    s1: McpServer,
    input: ToolInput,
    step: ToolStep,
)
    requires
        handles(s0, s1, tool_name(k), input, step),
    ensures
        step matches ToolStep::Call(c) ==> (pending_tool(c.pending) == Some(k) && c.request.method == tool_method(k)
            && c.request.expect == tool_reply(k)),
        k == ToolKind::EntitySchema ==> step is Finished,
{
    lemma_named(k);
}

/// The tool `hammer_download_idea`, under an account sync and given an
/// `idea_id`, sends a GET of `/api/ideas/{user}/idea/{idea_id}` with the
/// account sync id, reads the saved idea from the reply, and changes
/// nothing.
pub proof fn lemma_download_idea_tool(s0: McpServer, s1: McpServer, input: ToolInput, step: ToolStep)
    requires
        handles(s0, s1, "hammer_download_idea"@, input, step),
        s0.user_id is Some,
        s0.account_sync_id is Some,
        input.args.at("idea_id"@).str_of() is Some,
    ensures
        s1 == s0,
        step matches ToolStep::Call(c) && c.pending is DownloadIdea && c.request.method == HttpMethod::Get
            && c.request.url@ == s0.client.base() + "/api/ideas/"@ + dec_int(s0.user_id->0 as int) + "/idea/"@
            + input.args.at("idea_id"@).str_of()->0 && c.request.expect == ReplyBody::SavedIdea
            && c.request.body is Empty && pair_texts(c.request.headers@).contains(
            (HEADER_SYNC_ID@, s0.account_sync_id->0@),
        ),
{
    lemma_named(ToolKind::DownloadIdea);
    reveal_strlit("/api");
    reveal_strlit("/ideas/");
    reveal_strlit("/api/ideas/");
    let c = step->Call_0;
    let uid = s0.user_id->0;
    let iid = input.args.at("idea_id"@).str_of()->0;
    assert(s0.client.base() + "/api"@ + ("/ideas/"@ + dec_int(uid as int) + ("/idea/"@ + iid)) =~= s0.client.base()
        + "/api/ideas/"@ + dec_int(uid as int) + "/idea/"@ + iid);
    assert(pair_texts(c.request.headers@)[1] == (HEADER_SYNC_ID@, s0.account_sync_id->0@));
}

/// An idea upload sends the hashes it is given: the body carries the
/// `hash` argument (empty when there is none) and, exactly when there is
/// one, the `original_hash` argument, by which the server detects a
/// conflict; the idea's text is the `text` argument. It is a POST whose
/// 409 reply is read as the server's conflicting copy.
pub proof fn lemma_idea_upload_sends_its_hashes(s: McpServer, args: JsonValue, step: ToolStep)
    requires
        upload_idea_step(s, args, step),
        account_ready(s) is Some,
        args.at("idea_id"@).str_of() is Some,
        args.at("text"@).str_of() is Some,
    ensures
        step matches ToolStep::Call(c) && c.request.method == HttpMethod::Post
            && c.request.policy == ReplyPolicy::ConflictBody(UploadLabel::Idea)
            && (c.request.body matches RequestBody::Json(RequestPayload::Idea(u))
            && opt_text(u.original_hash) == args.at("original_hash"@).str_of()
            && u.hash@ == (match args.at("hash"@).str_of() {
            Some(h) => h,
            None => Seq::empty(),
        }) && Some(u.idea.text@) == args.at("text"@).str_of()),
{
}

/// A project-data upload sends the hashes it is given: the body carries
/// the `original_hash` and `hash` arguments exactly when they are given,
/// and the data read from the `data` argument. It is a POST whose 409
/// reply is read as the server's conflicting copy.
pub proof fn lemma_project_data_upload_sends_its_hashes(
    s: McpServer,
    args: JsonValue,
    data: ProjectData,
    step: ToolStep,
)
    requires
        upload_project_data_step(s, args, Ok(data), step),
        s.user_id is Some,
        args.at("project_id"@).str_of() is Some,
    ensures
        step matches ToolStep::Call(c) && c.request.method == HttpMethod::Post
            && c.request.policy == ReplyPolicy::ConflictBody(UploadLabel::ProjectData)
            && (c.request.body matches RequestBody::Json(RequestPayload::ProjectData(u))
            && opt_text(u.original_hash) == args.at("original_hash"@).str_of()
            && opt_text(u.hash) == args.at("hash"@).str_of() && u.data == data),
{
}

/// An entity upload sends the entity it is given, under the project's
/// sync id and the entity's type, with the `X-Original-Hash` header
/// exactly when an `original_hash` is given and the query `force=true`
/// exactly when `force` is true; it is a POST to the entity's id, whose 409
/// reply is read as the server's copy.
pub proof fn lemma_entity_upload_sends_what_it_is_given(
    s: McpServer,
    args: JsonValue,
    entity: ApiProjectEntity,
    step: ToolStep,
)
    requires
        upload_entity_step(s, args, Ok(entity), step),
        s.user_id is Some,
        args.at("project_id"@).str_of() matches Some(pid) && s.project_sessions@.contains_key(pid),
        args.at("entity_type"@).str_of() == Some(entity_type_name(entity.kind())),
    ensures
        step matches ToolStep::Call(c) && c.request.method == HttpMethod::Post
            && c.request.policy == ReplyPolicy::ConflictBody(UploadLabel::Entity)
            && c.request.body == RequestBody::Json(RequestPayload::Entity(entity))
            && c.request.url@ == s.client.base() + "/api/project/"@ + dec_int(s.user_id->0 as int) + "/"@
            + args.at("project_id"@).str_of()->0 + "/upload_entity/"@ + dec_int(entity.spec_id() as int)
            && pair_texts(c.request.headers@).contains(
            (HEADER_SYNC_ID@, s.project_sessions@[args.at("project_id"@).str_of()->0].sync_id@),
        ) && pair_texts(c.request.headers@).contains((HEADER_ENTITY_TYPE@, entity_type_name(entity.kind())))
            && (forall|h: Seq<char>| #[trigger] pair_texts(c.request.headers@).contains((HEADER_ORIGINAL_HASH@, h))
            <== args.at("original_hash"@).str_of() == Some(h))
            && (args.at("original_hash"@).str_of() is None ==> pair_texts(c.request.headers@).len() == 3)
            && (pair_texts(c.request.query@) == (if args.at("force"@).bool_of() == Some(true) {
            seq![("force"@, "true"@)]
        } else {
            seq![]
        })),
{
    reveal_strlit("/api");
    reveal_strlit("/project/");
    reveal_strlit("/api/project/");
    let c = step->Call_0;
    let uid = s.user_id->0;
    let pid = args.at("project_id"@).str_of()->0;
    let t = "/upload_entity/"@ + dec_int(entity.spec_id() as int);
    assert(s.client.base() + "/api"@ + ("/project/"@ + dec_int(uid as int) + "/"@ + pid + t) =~= s.client.base()
        + "/api/project/"@ + dec_int(uid as int) + "/"@ + pid + "/upload_entity/"@ + dec_int(entity.spec_id() as int));
    let hs = pair_texts(c.request.headers@);
    assert(hs[1] == (HEADER_SYNC_ID@, s.project_sessions@[pid].sync_id@));
    assert(hs[2] == (HEADER_ENTITY_TYPE@, entity_type_name(entity.kind())));
    if let Some(h) = args.at("original_hash"@).str_of() {
        assert(hs[3] == (HEADER_ORIGINAL_HASH@, h));
    }
}

/// The project sessions follow the replies: a started project sync opens
/// the session of its project with the server's sync id, last id and
/// deleted ids, and leaves the others as they were; a deleted project's
/// session is closed and the others are kept; a started account sync
/// holds the server's sync id.
pub proof fn lemma_sessions_follow_the_replies(
    old: McpServer,
    new: McpServer,
    p: Pending,
    reply: Result<ApiReply, String>,
    r: Result<JsonValue, String>,
)
    requires
        completes(old, new, p, reply, r),
    ensures
        p matches Pending::BeginProjectSync(pid) ==> (reply matches Ok(ApiReply::ProjectSync(resp)) ==> (
        new.project_sessions@.contains_key(pid@) && new.project_sessions@[pid@].sync_id == resp.sync_id
            && new.project_sessions@[pid@].last_id == resp.last_id && new.project_sessions@[pid@].deleted_ids@
            == resp.deleted_ids@ && (forall|q: Seq<char>|
            q != pid@ ==> #[trigger] new.project_sessions@.contains_key(q) == old.project_sessions@.contains_key(q)
                && (old.project_sessions@.contains_key(q) ==> new.project_sessions@[q] == old.project_sessions@[q])))),
        p matches Pending::DeleteProject(pid) ==> (reply matches Ok(ApiReply::Done) ==> (
        !new.project_sessions@.contains_key(pid@) && (forall|q: Seq<char>|
            q != pid@ ==> #[trigger] new.project_sessions@.contains_key(q) == old.project_sessions@.contains_key(q)
                && (old.project_sessions@.contains_key(q) ==> new.project_sessions@[q] == old.project_sessions@[q])))),
        p is BeginAccountSync ==> (reply matches Ok(ApiReply::ProjectsSync(resp)) ==> new.account_sync_id == Some(
            resp.sync_id,
        )),
{
}

} // verus!
