use std::io::Read;

use hammer_editor_mcp_server::client::{
    failure_message, gzip_state_json, reply_verdict, AuthHeader, HammerClient, HttpMethod,
    ReplyBody, ReplyPolicy, RequestBody, RequestPayload, StatusVerdict, UploadLabel,
};
use hammer_editor_mcp_server::config::CliArgs;
use hammer_editor_mcp_server::dispatch::ToolKind;
use hammer_editor_mcp_server::json::{JsonValue, ModelValue};
use hammer_editor_mcp_server::mcp::{route_request, tool_call_reply, RpcAction};
use hammer_editor_mcp_server::models::{
    ApiProjectEntity, EntityType, NoteEntity, ProjectData, ProjectDataConflictDto,
    ProjectSynchronizationBegan, StoryIdea, IdeaConflictDto, Timestamp, DeleteIdsResponse,
};
use hammer_editor_mcp_server::server::{ApiReply, JsonRpcRequest, McpServer, Pending, ToolCall, ToolInput, ToolStep};
use hammer_editor_mcp_server::sessions::{ProjectSyncSession, SessionTable};
use hammer_editor_mcp_server::text::{decimal_i64, decimal_u64};
use hammer_editor_mcp_server::tools::entity_argument;

fn obj(pairs: Vec<(&str, JsonValue)>) -> JsonValue {
    JsonValue::Object(pairs.into_iter().map(|(k, v)| (k.to_string(), v)).collect())
}

fn s(t: &str) -> JsonValue {
    JsonValue::Str(t.to_string())
}

fn input(args: JsonValue) -> ToolInput {
    ToolInput { args, entity: Err("no entity".to_string()), data: Err("no data".to_string()) }
}

fn call_of(step: ToolStep) -> ToolCall {
    match step {
        ToolStep::Call(c) => c,
        ToolStep::Finished(r) => panic!("expected a request, got {:?}", r),
    }
}

fn error_of(step: ToolStep) -> String {
    match step {
        ToolStep::Finished(Err(e)) => e,
        other => panic!("expected an error, got {:?}", other),
    }
}

fn pairs(v: &[(&str, &str)]) -> Vec<(String, String)> {
    v.iter().map(|(a, b)| (a.to_string(), b.to_string())).collect()
}

fn token_server() -> McpServer {
    let mut srv = McpServer::new("http://h:1/".to_string());
    let args = CliArgs {
        server_url: "http://h:1/".into(),
        email: None,
        password: None,
        install_id: None,
        user_id: Some(7),
        auth_token: Some("abc".into()),
    };
    assert!(srv.configure(&args).is_none());
    srv
}

fn began(sync_id: &str) -> ProjectSynchronizationBegan {
    ProjectSynchronizationBegan {
        sync_id: sync_id.into(),
        last_sync: Timestamp { secs: 1704067200, nanos: 0 },
        last_id: 4,
        id_sequence: vec![],
        deleted_ids: vec![9],
    }
}

fn open_project(srv: &mut McpServer, pid: &str, sync_id: &str) {
    let call = call_of(srv.tool_begin_project_sync(&obj(vec![("project_id", s(pid))])));
    srv.complete_call(call.pending, Ok(ApiReply::ProjectSync(began(sync_id)))).unwrap();
}

fn note(id: i32) -> ApiProjectEntity {
    ApiProjectEntity::Note(NoteEntity {
        id,
        content: "c".into(),
        created: Timestamp { secs: 0, nanos: 0 },
        tags: vec![],
    })
}

#[test]
fn decimal_text_matches_display() {
    for n in [0i64, 7, 10, 42, -1, -12, 1704067200, i64::MIN, i64::MAX] {
        assert_eq!(decimal_i64(n), n.to_string());
    }
    for n in [0u64, 3, 99, 100, u64::MAX] {
        assert_eq!(decimal_u64(n), n.to_string());
    }
}

#[test]
fn new_client_trims_trailing_slashes() {
    let c = HammerClient::new("http://x:8080///".to_string());
    assert_eq!(c.begin_projects_sync(5).url, "http://x:8080/api/projects/5/begin_sync");
    let c = HammerClient::new("http://x".to_string());
    assert_eq!(c.get_project_data(-3, "p").url, "http://x/api/project/-3/p/project_data");
    assert!(!c.has_token());
}

#[test]
fn check_response_accepts_exactly_its_statuses() {
    for st in [200u16, 201, 299, 409, 404, 410, 304, 204] {
        assert!(HammerClient::check_response(st), "{}", st);
    }
    for st in [100u16, 199, 300, 301, 400, 401, 403, 500, 503] {
        assert!(!HammerClient::check_response(st), "{}", st);
    }
}

#[test]
fn reply_verdicts_follow_each_policy() {
    assert_eq!(reply_verdict(ReplyPolicy::Login, 200), StatusVerdict::ReadBody);
    assert_eq!(reply_verdict(ReplyPolicy::Login, 409), StatusVerdict::Fail);
    assert_eq!(reply_verdict(ReplyPolicy::Checked, 404), StatusVerdict::ReadBody);
    assert_eq!(reply_verdict(ReplyPolicy::Checked, 500), StatusVerdict::Fail);
    assert_eq!(reply_verdict(ReplyPolicy::NoContentAbsent, 204), StatusVerdict::Absent);
    assert_eq!(reply_verdict(ReplyPolicy::NoContentAbsent, 200), StatusVerdict::ReadBody);
    assert_eq!(reply_verdict(ReplyPolicy::NoContentAbsent, 401), StatusVerdict::Fail);
    assert_eq!(reply_verdict(ReplyPolicy::NotModifiedAbsent, 304), StatusVerdict::Absent);
    assert_eq!(reply_verdict(ReplyPolicy::NotModifiedAbsent, 200), StatusVerdict::ReadBody);
    assert_eq!(reply_verdict(ReplyPolicy::NotModifiedAbsent, 404), StatusVerdict::Fail);
    let up = ReplyPolicy::ConflictBody(UploadLabel::Entity);
    assert_eq!(reply_verdict(up, 409), StatusVerdict::ReadBody);
    assert_eq!(reply_verdict(up, 201), StatusVerdict::Absent);
    assert_eq!(reply_verdict(up, 400), StatusVerdict::Fail);
}

#[test]
fn failure_messages_name_status_and_body() {
    assert_eq!(failure_message(ReplyPolicy::Login, 401, "bad"), "Login failed: bad");
    assert_eq!(failure_message(ReplyPolicy::Checked, 500, "oops"), "HTTP 500: oops");
    assert_eq!(failure_message(ReplyPolicy::NoContentAbsent, 403, ""), "HTTP 403: ");
    assert_eq!(failure_message(ReplyPolicy::NotModifiedAbsent, 404, "x"), "Download entity failed (404): x");
    assert_eq!(
        failure_message(ReplyPolicy::ConflictBody(UploadLabel::Entity), 400, "y"),
        "Upload entity failed (400): y"
    );
    assert_eq!(
        failure_message(ReplyPolicy::ConflictBody(UploadLabel::ProjectData), 500, "z"),
        "Upload project data failed (500): z"
    );
    assert_eq!(
        failure_message(ReplyPolicy::ConflictBody(UploadLabel::Idea), 418, "t"),
        "Upload idea failed (418): t"
    );
}

#[test]
fn json_member_lookup_is_first_match() {
    let v = obj(vec![("a", JsonValue::Int(1)), ("b", s("x")), ("a", JsonValue::Int(2))]);
    assert_eq!(v.i64_at("a"), Some(1));
    assert_eq!(v.str_at("b"), Some("x".to_string()));
    assert_eq!(v.str_at("a"), None);
    assert_eq!(v.i64_at("missing"), None);
    assert_eq!(JsonValue::Null.str_at("a"), None);
    assert_eq!(JsonValue::UInt(u64::MAX).i64_at("a"), None);
    match v.into_member("b") {
        Some(JsonValue::Str(t)) => assert_eq!(t, "x"),
        other => panic!("{:?}", other),
    }
}

fn session(id: &str) -> ProjectSyncSession {
    ProjectSyncSession { sync_id: id.into(), last_id: 1, last_sync: None, deleted_ids: vec![] }
}

#[test]
fn session_table_behaves_as_a_map() {
    let mut t = SessionTable::new();
    assert!(t.is_empty());
    t.insert("p", session("1"));
    t.insert("q", session("2"));
    t.insert("p", session("3"));
    assert_eq!(t.get("p").unwrap().sync_id, "3");
    assert_eq!(t.get("q").unwrap().sync_id, "2");
    assert!(t.get("r").is_none());
    assert_eq!(t.remove("p").unwrap().sync_id, "3");
    assert!(t.remove("p").is_none());
    let all = t.drain();
    assert_eq!(all.len(), 1);
    assert_eq!(all[0].0, "q");
    assert!(t.is_empty());
}

#[test]
fn token_is_sent_as_bearer_header() {
    let srv = token_server();
    let req = srv.client.end_projects_sync(7, "sid");
    match &req.authorization {
        AuthHeader::Bearer(Some(v)) => assert_eq!(v, "Bearer abc"),
        other => panic!("{:?}", other),
    }
    assert_eq!(req.headers, pairs(&[("X-Hammer-Protocol-Version", "3"), ("X-Sync-Id", "sid")]));
    assert_eq!(req.url, "http://h:1/api/projects/7/end_sync");
    assert_eq!(req.expect, ReplyBody::Nothing);
}

#[test]
fn login_request_carries_credentials_only() {
    let c = HammerClient::new("http://h".to_string());
    let req = c.login("e@x", "pw", "inst");
    assert_eq!(req.url, "http://h/api/accounts/login");
    assert!(matches!(req.authorization, AuthHeader::Omitted));
    assert!(req.headers.is_empty());
    match &req.body {
        RequestBody::Json(RequestPayload::Login(l)) => {
            assert_eq!((l.email.as_str(), l.password.as_str(), l.install_id.as_str()), ("e@x", "pw", "inst"));
        }
        other => panic!("{:?}", other),
    }
}

#[test]
fn configure_without_install_id_uses_a_fresh_uuid() {
    let mut srv = McpServer::new("http://h".into());
    let args = CliArgs {
        server_url: "http://h".into(),
        email: Some("e".into()),
        password: Some("p".into()),
        install_id: None,
        user_id: Some(5),
        auth_token: None,
    };
    let req = srv.configure(&args).unwrap();
    match &req.body {
        RequestBody::Json(RequestPayload::Login(l)) => {
            assert_eq!(l.install_id.len(), 36);
            for (i, c) in l.install_id.chars().enumerate() {
                if [8, 13, 18, 23].contains(&i) {
                    assert_eq!(c, '-');
                } else {
                    assert!(c.is_ascii_digit() || ('a'..='f').contains(&c));
                }
            }
            assert_eq!(l.install_id.chars().nth(14), Some('4'));
        }
        other => panic!("{:?}", other),
    }
    assert_eq!(srv.user_id, None);
    let token = hammer_editor_mcp_server::models::Token { user_id: 1, auth: "t".into(), refresh: "r".into() };
    srv.finish_configure(&args, Ok(token)).unwrap();
    assert_eq!(srv.user_id, Some(5));
}

#[test]
fn configure_with_given_install_id_sends_it() {
    let mut srv = McpServer::new("http://h".into());
    let args = CliArgs {
        server_url: "http://h".into(),
        email: Some("e".into()),
        password: Some("p".into()),
        install_id: Some("my-install".into()),
        user_id: None,
        auth_token: None,
    };
    match srv.configure(&args).unwrap().body {
        RequestBody::Json(RequestPayload::Login(l)) => assert_eq!(l.install_id, "my-install"),
        other => panic!("{:?}", other),
    }
    assert_eq!(srv.finish_configure(&args, Err("HTTP 500: x".into())), Err("HTTP 500: x".to_string()));
    assert_eq!(srv.user_id, None);
}

#[test]
fn begin_project_sync_reports_listed_hashes() {
    let mut srv = token_server();
    let hashes = JsonValue::Array(vec![
        obj(vec![("id", JsonValue::Int(3)), ("hash", s("h3"))]),
        obj(vec![("id", s("bad")), ("hash", s("hx"))]),
        obj(vec![("id", JsonValue::Int(4294967301)), ("hash", s("h5"))]),
        obj(vec![("id", JsonValue::Int(8))]),
    ]);
    let call = call_of(srv.tool_begin_project_sync(&obj(vec![("project_id", s("p")), ("entity_hashes", hashes)])));
    assert_eq!(call.request.url, "http://h:1/api/project/7/p/begin_sync");
    match &call.request.body {
        RequestBody::GzipJson(st) => {
            let got: Vec<(i32, String)> = st.entities.iter().map(|e| (e.id, e.hash.clone())).collect();
            assert_eq!(got, vec![(3, "h3".to_string()), (5, "h5".to_string())]);
        }
        other => panic!("{:?}", other),
    }
    let call = call_of(srv.tool_begin_project_sync(&obj(vec![("project_id", s("p")), ("entity_hashes", JsonValue::Array(vec![]))])));
    match &call.request.body {
        RequestBody::Octets(b) => assert!(b.is_empty()),
        other => panic!("{:?}", other),
    }
    assert_eq!(call.request.headers[1], ("content-type".to_string(), "application/octet-stream".to_string()));
}

#[test]
fn gzip_body_round_trips() {
    let json = br#"{"entities":[{"id":1,"hash":"h"}]}"#;
    let gz = gzip_state_json(json).unwrap();
    assert_ne!(gz.as_slice(), &json[..]);
    assert_eq!(&gz[..10], &[0x1f, 0x8b, 8, 0, 0, 0, 0, 0, 0, 255]);
    let n = gz.len();
    assert_eq!(&gz[n - 4..], &(json.len() as u32).to_le_bytes());
    let mut out = Vec::new();
    flate2::read::GzDecoder::new(gz.as_slice()).read_to_end(&mut out).unwrap();
    assert_eq!(out.as_slice(), &json[..]);
}

#[test]
fn begun_project_sync_opens_a_session_in_rfc3339() {
    let mut srv = token_server();
    open_project(&mut srv, "p", "S1");
    let sess = srv.project_sessions.get("p").unwrap();
    assert_eq!(sess.sync_id, "S1");
    assert_eq!(sess.last_id, 4);
    assert_eq!(sess.last_sync.as_deref(), Some("2024-01-01T00:00:00+00:00"));
    assert_eq!(sess.deleted_ids, vec![9]);
}

#[test]
fn end_project_sync_sends_reported_values() {
    let mut srv = token_server();
    open_project(&mut srv, "p", "S1");
    let args = obj(vec![
        ("project_id", s("p")),
        ("last_sync", s("2024-02-02T00:00:00Z")),
        ("last_id", JsonValue::Int(12)),
    ]);
    let call = call_of(srv.tool_end_project_sync(&args));
    assert_eq!(call.request.headers[1], ("X-Sync-Id".to_string(), "S1".to_string()));
    match &call.request.body {
        RequestBody::Form(f) => assert_eq!(f, &pairs(&[("lastSync", "2024-02-02T00:00:00Z"), ("lastId", "12")])),
        other => panic!("{:?}", other),
    }
    assert!(srv.project_sessions.get("p").is_none());
    let again = error_of(srv.tool_end_project_sync(&args));
    assert_eq!(
        again,
        "No active project sync session for this project. Call hammer_begin_project_sync first."
    );
}

#[test]
fn entity_tools_need_a_project_sync() {
    let srv = token_server();
    let args = obj(vec![("project_id", s("zz")), ("entity_id", JsonValue::Int(1))]);
    assert_eq!(
        error_of(srv.tool_download_entity(&args)),
        "No active project sync for 'zz'. Call hammer_begin_project_sync first."
    );
    assert_eq!(error_of(srv.tool_delete_entity(&obj(vec![("project_id", s("zz"))]))), "entity_id required");
    assert_eq!(error_of(srv.tool_upload_entity(&obj(vec![]), Ok(note(1)))), "project_id required");
}

#[test]
fn upload_entity_request_and_conflict() {
    let mut srv = token_server();
    open_project(&mut srv, "p", "S1");
    let args = obj(vec![
        ("project_id", s("p")),
        ("entity_type", s("note")),
        ("original_hash", s("oh")),
        ("force", JsonValue::Bool(true)),
    ]);
    let call = call_of(srv.tool_upload_entity(&args, Ok(note(-2))));
    assert_eq!(call.request.url, "http://h:1/api/project/7/p/upload_entity/-2");
    assert_eq!(
        call.request.headers,
        pairs(&[
            ("X-Hammer-Protocol-Version", "3"),
            ("X-Sync-Id", "S1"),
            ("X-Entity-Type", "note"),
            ("X-Original-Hash", "oh"),
        ])
    );
    assert_eq!(call.request.query, pairs(&[("force", "true")]));
    let r = srv.complete_call(call.pending, Ok(ApiReply::Entity(note(-2)))).unwrap();
    assert_eq!(r.str_at("status"), Some("conflict".to_string()));
    assert!(matches!(r.member("server_entity"), Some(JsonValue::Model(ModelValue::Entity(_)))));
    let bad = srv.tool_upload_entity(&obj(vec![("project_id", s("p")), ("entity_type", s("note"))]), Err("oops".into()));
    assert_eq!(error_of(bad), "Invalid entity JSON: oops");
}

#[test]
fn upload_entity_without_force_or_hash() {
    let mut srv = token_server();
    open_project(&mut srv, "p", "S1");
    let call = call_of(srv.tool_upload_entity(&obj(vec![("project_id", s("p")), ("entity_type", s("note"))]), Ok(note(3))));
    assert!(call.request.query.is_empty());
    assert_eq!(call.request.headers.len(), 3);
    let r = srv.complete_call(call.pending, Ok(ApiReply::Absent)).unwrap();
    assert_eq!(r.str_at("status"), Some("saved".to_string()));
    assert_eq!(r.bool_at("success"), Some(true));
}

#[test]
fn delete_entity_reports_deleted_flag() {
    let mut srv = token_server();
    open_project(&mut srv, "p", "S1");
    let call = call_of(srv.tool_delete_entity(&obj(vec![("project_id", s("p")), ("entity_id", JsonValue::Int(6))])));
    assert_eq!(call.request.method, HttpMethod::Get);
    assert_eq!(call.request.url, "http://h:1/api/project/7/p/delete_entity/6");
    let r = srv.complete_call(call.pending, Ok(ApiReply::DeleteIds(DeleteIdsResponse { deleted: false }))).unwrap();
    assert_eq!(r.bool_at("deleted"), Some(false));
}

#[test]
fn project_data_absent_and_conflict() {
    let mut srv = token_server();
    let call = call_of(srv.tool_get_project_data(&obj(vec![("project_id", s("p"))])));
    assert_eq!(reply_verdict(call.request.policy, 204), StatusVerdict::Absent);
    let r = srv.complete_call(call.pending, Ok(ApiReply::Absent)).unwrap();
    assert_eq!(r.str_at("status"), Some("empty".to_string()));
    assert!(matches!(r.member("data"), Some(JsonValue::Null)));
    let data = ProjectData { author_name: Some("A".into()), theme: None, word_count_goal: None, tags: vec![] };
    let args = obj(vec![("project_id", s("p")), ("hash", s("h2"))]);
    let call = call_of(srv.tool_upload_project_data(&args, Ok(data.clone())));
    match &call.request.body {
        RequestBody::Json(RequestPayload::ProjectData(u)) => {
            assert_eq!(u.hash.as_deref(), Some("h2"));
            assert_eq!(u.original_hash, None);
        }
        other => panic!("{:?}", other),
    }
    let conflict = ProjectDataConflictDto { server: data, server_hash: "sh".into() };
    let r = srv.complete_call(call.pending, Ok(ApiReply::ProjectDataConflict(conflict))).unwrap();
    assert_eq!(r.str_at("server_hash"), Some("sh".to_string()));
    let bad = srv.tool_upload_project_data(&args, Err("eh".into()));
    assert_eq!(error_of(bad), "Invalid project data: eh");
}

fn account_server() -> McpServer {
    let mut srv = token_server();
    let call = call_of(srv.tool_begin_account_sync());
    let resp = hammer_editor_mcp_server::models::BeginProjectsSyncResponse {
        sync_id: "A1".into(),
        projects: vec![],
        deleted_projects: vec![],
        ideas_state_hash: None,
    };
    srv.complete_call(call.pending, Ok(ApiReply::ProjectsSync(resp))).unwrap();
    srv
}

#[test]
fn upload_idea_collects_string_tags() {
    let mut srv = account_server();
    let args = obj(vec![
        ("idea_id", s("i1")),
        ("text", s("story")),
        ("tags", JsonValue::Array(vec![s("a"), JsonValue::Int(3), s("b"), s("a")])),
    ]);
    let call = call_of(srv.tool_upload_idea(&args));
    assert_eq!(call.request.url, "http://h:1/api/ideas/7/idea/i1");
    match &call.request.body {
        RequestBody::Json(RequestPayload::Idea(u)) => {
            assert_eq!(u.idea.text, "story");
            assert_eq!(u.idea.tags, vec!["a".to_string(), "b".to_string()]);
            assert_eq!(u.hash, "");
        }
        other => panic!("{:?}", other),
    }
    let conflict = IdeaConflictDto { server: StoryIdea { text: "x".into(), tags: vec![] }, server_hash: "h".into() };
    let r = srv.complete_call(call.pending, Ok(ApiReply::IdeaConflict(conflict))).unwrap();
    assert!(matches!(r.member("server_idea"), Some(JsonValue::Model(ModelValue::Idea(_)))));
    assert_eq!(error_of(srv.tool_upload_idea(&obj(vec![("idea_id", s("i"))]))), "text required");
}

#[test]
fn idea_tools_need_an_account_sync() {
    let srv = token_server();
    let msg = "No active account sync. Call hammer_begin_account_sync first.";
    assert_eq!(error_of(srv.tool_get_ideas_state()), msg);
    assert_eq!(error_of(srv.tool_download_idea(&obj(vec![("idea_id", s("i"))]))), msg);
    assert_eq!(error_of(srv.tool_delete_idea(&obj(vec![("idea_id", s("i"))]))), msg);
    let srv = account_server();
    let call = call_of(srv.tool_delete_idea(&obj(vec![("idea_id", s("i9"))])));
    assert_eq!(call.request.url, "http://h:1/api/ideas/7/idea/i9/delete");
    let call = call_of(srv.tool_get_ideas_state());
    assert_eq!(call.request.url, "http://h:1/api/ideas/7/state");
}

#[test]
fn sync_probe_reads_missing_strings_as_empty() {
    let srv = token_server();
    let args = obj(vec![(
        "projects",
        JsonValue::Array(vec![obj(vec![("project_id", s("p1")), ("hash", s("h1"))]), obj(vec![])]),
    )]);
    let call = call_of(srv.tool_sync_probe(&args));
    match &call.request.body {
        RequestBody::Json(RequestPayload::SyncProbe(p)) => {
            let got: Vec<(String, String)> =
                p.projects.iter().map(|i| (i.project_id.0.clone(), i.hash.clone())).collect();
            assert_eq!(got, pairs(&[("p1", "h1"), ("", "")]));
        }
        other => panic!("{:?}", other),
    }
    assert_eq!(error_of(srv.tool_sync_probe(&obj(vec![]))), "projects array required");
}

#[test]
fn delete_project_closes_its_session() {
    let mut srv = token_server();
    open_project(&mut srv, "p", "S1");
    let mut srv2 = account_server();
    open_project(&mut srv2, "p", "S2");
    assert!(srv2.account_sync_id.is_none());
    srv.account_sync_id = Some("A".into());
    let call = call_of(srv.tool_delete_project(&obj(vec![("project_id", s("p"))])));
    assert_eq!(call.request.url, "http://h:1/api/projects/7/p/delete");
    match &call.pending {
        Pending::DeleteProject(p) => assert_eq!(p, "p"),
        other => panic!("{:?}", other),
    }
    srv.complete_call(call.pending, Ok(ApiReply::Done)).unwrap();
    assert!(srv.project_sessions.get("p").is_none());
}

#[test]
fn begin_account_sync_ends_every_open_sync() {
    let mut srv = token_server();
    open_project(&mut srv, "p", "S1");
    open_project(&mut srv, "q", "S2");
    let call = call_of(srv.tool_begin_account_sync());
    assert_eq!(call.cleanup.len(), 2);
    let mut urls: Vec<String> = call.cleanup.iter().map(|r| r.url.clone()).collect();
    urls.sort();
    assert_eq!(urls, vec!["http://h:1/api/project/7/p/end_sync", "http://h:1/api/project/7/q/end_sync"]);
    assert!(srv.project_sessions.is_empty());
    let resp = hammer_editor_mcp_server::models::BeginProjectsSyncResponse {
        sync_id: "A1".into(),
        projects: vec![],
        deleted_projects: vec![],
        ideas_state_hash: None,
    };
    srv.complete_call(call.pending, Ok(ApiReply::ProjectsSync(resp))).unwrap();
    let call = call_of(srv.tool_begin_project_sync(&obj(vec![("project_id", s("p"))])));
    assert_eq!(call.cleanup.len(), 1);
    assert_eq!(call.cleanup[0].url, "http://h:1/api/projects/7/end_sync");
    assert!(srv.account_sync_id.is_none());
}

#[test]
fn failed_begin_keeps_state_and_reports_error() {
    let mut srv = account_server();
    let call = call_of(srv.tool_begin_project_sync(&obj(vec![("project_id", s("p"))])));
    let r = srv.complete_call(call.pending, Err("HTTP 500: down".into()));
    assert_eq!(r.unwrap_err(), "HTTP 500: down");
    assert!(srv.project_sessions.is_empty());
}

#[test]
fn login_tool_prefixes_its_errors() {
    let mut srv = McpServer::new("http://h".into());
    assert_eq!(error_of(srv.tool_login(&obj(vec![("password", s("p"))]))), "email required");
    let call = call_of(srv.tool_login(&obj(vec![("email", s("e")), ("password", s("p"))])));
    let r = srv.complete_call(call.pending, Err("HTTP 401".into()));
    assert_eq!(r.unwrap_err(), "Login failed: HTTP 401");
    let call = call_of(srv.tool_login(&obj(vec![("email", s("e")), ("password", s("p"))])));
    let token = hammer_editor_mcp_server::models::Token { user_id: 3, auth: "t".into(), refresh: "r".into() };
    let r = srv.complete_call(call.pending, Ok(ApiReply::Token(token))).unwrap();
    assert_eq!(r.str_at("auth_token"), Some("t".to_string()));
    assert_eq!(srv.user_id, Some(3));
}

#[test]
fn set_user_id_tool() {
    let mut srv = McpServer::new("http://h".into());
    assert_eq!(srv.tool_set_user_id(&obj(vec![("user_id", s("x"))])).unwrap_err(), "user_id (integer) required");
    let r = srv.tool_set_user_id(&obj(vec![("user_id", JsonValue::Int(12))])).unwrap();
    assert_eq!(r.i64_at("user_id"), Some(12));
    assert!(srv.is_authenticated());
}

#[test]
fn every_catalogued_tool_is_dispatched() {
    let mut srv = McpServer::new("http://h".into());
    for t in McpServer::tool_definitions() {
        let name = t.str_at("name").unwrap();
        let kind = ToolKind::from_name(&name).unwrap();
        assert_eq!(kind.name(), name);
        let step = srv.handle_call(&name, input(obj(vec![("entity_type", s("note"))])));
        if let ToolStep::Finished(Err(e)) = step {
            assert!(!e.starts_with("Unknown tool"), "{}", e);
        }
    }
    assert_eq!(error_of(srv.handle_call("hammer_login", input(JsonValue::Null))), "Unknown tool: hammer_login");
}

#[test]
fn entity_schema_lists_fields() {
    let srv = McpServer::new("http://h".into());
    for t in [EntityType::Scene, EntityType::Note, EntityType::TimelineEvent, EntityType::EncyclopediaEntry, EntityType::SceneDraft] {
        let v = srv.tool_entity_schema(&obj(vec![("entity_type", s(t.as_header_value()))])).unwrap();
        assert_eq!(v.str_at("entity_type"), Some(t.as_header_value().to_string()));
    }
    let v = srv.tool_entity_schema(&obj(vec![("entity_type", s("note"))])).unwrap();
    assert_eq!(v.str_at("name"), Some("Note".to_string()));
    match v.member("fields") {
        Some(f) => assert_eq!(f.str_at("content"), Some("string (markdown)".to_string())),
        None => panic!(),
    }
    assert_eq!(
        srv.tool_entity_schema(&obj(vec![("entity_type", s("bad"))])).unwrap_err(),
        "Unknown entity type: bad. Use: scene, note, timeline_event, encyclopedia_entry, scene_draft"
    );
    assert_eq!(srv.tool_entity_schema(&JsonValue::Null).unwrap_err(), "entity_type required");
}

#[test]
fn entity_accessors() {
    assert_eq!(note(4).id(), 4);
    assert_eq!(note(4).entity_type(), EntityType::Note);
    assert_eq!(EntityType::EncyclopediaEntry.as_header_value(), "encyclopedia_entry");
}

fn rpc(method: &str, id: Option<JsonValue>, params: Option<JsonValue>) -> JsonRpcRequest {
    JsonRpcRequest { jsonrpc: "2.0".into(), id, method: method.into(), params }
}

#[test]
fn json_rpc_routing() {
    assert!(matches!(route_request(rpc("notifications/initialized", None, None), "1.0"), RpcAction::Ignore));
    match route_request(rpc("initialize", Some(JsonValue::Int(1)), None), "9.9") {
        RpcAction::Reply(v) => {
            assert_eq!(v.str_at("jsonrpc"), Some("2.0".to_string()));
            assert_eq!(v.i64_at("id"), Some(1));
            let info = v.member("result").unwrap().member("serverInfo").unwrap();
            assert_eq!(info.str_at("version"), Some("9.9".to_string()));
        }
        _ => panic!(),
    }
    match route_request(rpc("tools/list", None, None), "1") {
        RpcAction::Reply(v) => match v.member("result").unwrap().member("tools") {
            Some(JsonValue::Array(t)) => assert_eq!(t.len(), 19),
            _ => panic!(),
        },
        _ => panic!(),
    }
    let params = obj(vec![("name", s("hammer_ping")), ("arguments", obj(vec![("x", JsonValue::Int(2))]))]);
    match route_request(rpc("tools/call", Some(s("a")), Some(params)), "1") {
        RpcAction::CallTool { id, name, args } => {
            assert!(matches!(id, Some(JsonValue::Str(_))));
            assert_eq!(name, "hammer_ping");
            assert_eq!(args.i64_at("x"), Some(2));
        }
        _ => panic!(),
    }
    match route_request(rpc("tools/call", None, Some(obj(vec![]))), "1") {
        RpcAction::Reply(v) => {
            assert_eq!(v.member("error").unwrap().i64_at("code"), Some(-32602));
            assert!(matches!(v.member("id"), Some(JsonValue::Null)));
        }
        _ => panic!(),
    }
    match route_request(rpc("ping", Some(JsonValue::Int(5)), None), "1") {
        RpcAction::Reply(v) => assert!(matches!(v.member("result"), Some(JsonValue::Object(f)) if f.is_empty())),
        _ => panic!(),
    }
    match route_request(rpc("other", None, None), "1") {
        RpcAction::Reply(v) => {
            let e = v.member("error").unwrap();
            assert_eq!(e.i64_at("code"), Some(-32601));
            assert_eq!(e.str_at("message"), Some("Unknown method: other".to_string()));
        }
        _ => panic!(),
    }
}

#[test]
fn tool_call_replies() {
    let ok = tool_call_reply(Some(JsonValue::Int(3)), Ok("{}".into()));
    let res = ok.member("result").unwrap();
    assert!(res.member("isError").is_none());
    match res.member("content") {
        Some(JsonValue::Array(items)) => assert_eq!(items[0].str_at("text"), Some("{}".to_string())),
        _ => panic!(),
    }
    let err = tool_call_reply(None, Err("nope".into()));
    let res = err.member("result").unwrap();
    assert_eq!(res.bool_at("isError"), Some(true));
    match res.member("content") {
        Some(JsonValue::Array(items)) => assert_eq!(items[0].str_at("text"), Some("Error: nope".to_string())),
        _ => panic!(),
    }
}

#[test]
fn other_requests_have_their_paths() {
    let c = HammerClient::new("http://h".to_string());
    assert_eq!(c.rename_project(1, "s", "p", "n").query, pairs(&[("projectName", "n")]));
    assert_eq!(c.rename_project(1, "s", "p", "n").url, "http://h/api/projects/1/p/rename");
    assert_eq!(c.get_writing_activity(1, "p").url, "http://h/api/project/1/p/writing_activity");
    assert_eq!(c.download_idea(1, "i", "s").url, "http://h/api/ideas/1/idea/i");
    assert_eq!(c.sync_probe(1, vec![]).url, "http://h/api/projects/1/sync_probe");
    let d = c.download_entity(1, "p", 2, "s", Some("eh"));
    assert_eq!(d.headers[2], ("X-Entity-Hash".to_string(), "eh".to_string()));
    assert!(matches!(d.authorization, AuthHeader::Bearer(None)));
}

#[test]
fn account_tools_send_the_begun_sync_id() {
    let srv = account_server();
    let call = call_of(srv.tool_create_project(&obj(vec![("project_name", s("Novel"))])));
    assert_eq!(call.request.url, "http://h:1/api/projects/7/create");
    assert_eq!(call.request.headers, pairs(&[("X-Hammer-Protocol-Version", "3"), ("X-Sync-Id", "A1")]));
    assert_eq!(call.request.query, pairs(&[("projectName", "Novel")]));
    let call = call_of(srv.tool_get_ideas_state());
    assert_eq!(call.request.headers, pairs(&[("X-Hammer-Protocol-Version", "3"), ("X-Sync-Id", "A1")]));
}

#[test]
fn entity_tools_send_the_begun_sync_id() {
    let mut srv = token_server();
    open_project(&mut srv, "p", "S7");
    let args = obj(vec![("project_id", s("p")), ("entity_id", JsonValue::Int(3))]);
    let call = call_of(srv.tool_download_entity(&args));
    assert_eq!(call.request.url, "http://h:1/api/project/7/p/download_entity/3");
    assert_eq!(call.request.headers, pairs(&[("X-Hammer-Protocol-Version", "3"), ("X-Sync-Id", "S7")]));
    let call = call_of(srv.tool_delete_entity(&args));
    assert_eq!(call.request.url, "http://h:1/api/project/7/p/delete_entity/3");
    assert_eq!(call.request.headers, pairs(&[("X-Hammer-Protocol-Version", "3"), ("X-Sync-Id", "S7")]));
    let call = call_of(srv.tool_upload_entity(&obj(vec![("project_id", s("p")), ("entity_type", s("note"))]), Ok(note(3))));
    assert_eq!(
        call.request.headers,
        pairs(&[("X-Hammer-Protocol-Version", "3"), ("X-Sync-Id", "S7"), ("X-Entity-Type", "note")])
    );
}

#[test]
fn upload_entity_needs_a_matching_entity_type() {
    let mut srv = token_server();
    open_project(&mut srv, "p", "S1");
    let missing = srv.tool_upload_entity(&obj(vec![("project_id", s("p"))]), Ok(note(3)));
    assert_eq!(error_of(missing), "entity_type required");
    let other = srv.tool_upload_entity(&obj(vec![("project_id", s("p")), ("entity_type", s("scene"))]), Ok(note(3)));
    assert_eq!(error_of(other), "entity_type 'scene' does not match the entity's type 'note'");
    let unknown = srv.tool_upload_entity(&obj(vec![("project_id", s("p")), ("entity_type", s("poem"))]), Ok(note(3)));
    assert_eq!(error_of(unknown), "entity_type 'poem' does not match the entity's type 'note'");
}

#[test]
fn tool_definitions_carry_full_argument_schemas() {
    let defs = McpServer::tool_definitions();
    let upload = defs.iter().find(|d| d.str_at("name").as_deref() == Some("hammer_upload_entity")).unwrap();
    let props = upload.member("inputSchema").unwrap().member("properties").unwrap();
    let choice = props.member("entity_type").unwrap();
    assert_eq!(choice.str_at("type"), Some("string".to_string()));
    let names: Vec<String> = choice
        .array_at("enum")
        .unwrap()
        .iter()
        .map(|n| match n {
            JsonValue::Str(t) => t.clone(),
            other => panic!("{:?}", other),
        })
        .collect();
    assert_eq!(names, vec!["scene", "note", "timeline_event", "encyclopedia_entry", "scene_draft"]);
    let begin = defs.iter().find(|d| d.str_at("name").as_deref() == Some("hammer_begin_project_sync")).unwrap();
    let hashes = begin.member("inputSchema").unwrap().member("properties").unwrap().member("entity_hashes").unwrap();
    assert_eq!(hashes.str_at("type"), Some("array".to_string()));
    let items = hashes.member("items").unwrap();
    assert_eq!(items.str_at("type"), Some("object".to_string()));
    let fields = items.member("properties").unwrap();
    assert_eq!(fields.member("id").unwrap().str_at("type"), Some("integer".to_string()));
    assert_eq!(fields.member("hash").unwrap().str_at("type"), Some("string".to_string()));
    assert_eq!(items.array_at("required").unwrap().len(), 2);
    let idea = defs.iter().find(|d| d.str_at("name").as_deref() == Some("hammer_upload_idea")).unwrap();
    let tags = idea.member("inputSchema").unwrap().member("properties").unwrap().member("tags").unwrap();
    assert_eq!(tags.member("items").unwrap().str_at("type"), Some("string".to_string()));
}

#[test]
fn entity_argument_takes_its_type_from_entity_type() {
    let args = obj(vec![("entity_type", s("note")), ("entity", obj(vec![("id", JsonValue::Int(1))]))]);
    let e = entity_argument(args);
    assert_eq!(e.i64_at("id"), Some(1));
    assert_eq!(e.str_at("type"), Some("note".to_string()));
    match &e {
        JsonValue::Object(f) => assert_eq!(f.len(), 2),
        other => panic!("{:?}", other),
    }
    let tagged = obj(vec![("entity_type", s("note")), ("entity", obj(vec![("type", s("scene"))]))]);
    assert_eq!(entity_argument(tagged).str_at("type"), Some("scene".to_string()));
    let untyped = obj(vec![("entity", obj(vec![("id", JsonValue::Int(2))]))]);
    assert_eq!(entity_argument(untyped).str_at("type"), None);
    assert!(matches!(entity_argument(obj(vec![("entity_type", s("note"))])), JsonValue::Null));
}

#[test]
fn tool_definitions_are_well_formed_and_stable() {
    let a = McpServer::tool_definitions();
    let b = McpServer::tool_definitions();
    assert_eq!(format!("{:?}", a), format!("{:?}", b));
    let names: Vec<String> = a.iter().map(|d| d.str_at("name").unwrap()).collect();
    for (i, n) in names.iter().enumerate() {
        assert!(!names[i + 1..].contains(n));
    }
    for d in &a {
        assert!(d.str_at("description").is_some());
        let schema = d.member("inputSchema").unwrap();
        assert_eq!(schema.str_at("type"), Some("object".to_string()));
        let props = schema.member("properties").unwrap();
        for r in schema.array_at("required").unwrap() {
            match r {
                JsonValue::Str(k) => assert!(props.member(k).is_some()),
                other => panic!("{:?}", other),
            }
        }
    }
}

#[test]
fn dispatch_follows_the_definitions() {
    let names: Vec<String> = McpServer::tool_definitions().iter().map(|d| d.str_at("name").unwrap()).collect();
    let mut srv = McpServer::new("http://h".into());
    assert!(!names.contains(&"hammer_ping".to_string()));
    match srv.handle_call("hammer_ping", input(obj(vec![]))) {
        ToolStep::Finished(Err(e)) => assert_eq!(e, "Unknown tool: hammer_ping"),
        other => panic!("{:?}", other),
    }
    for n in &names {
        if let ToolStep::Finished(Err(e)) = srv.handle_call(n, input(obj(vec![]))) {
            assert!(!e.starts_with("Unknown tool"));
        }
    }
}

#[test]
fn requests_are_answered_once_in_order() {
    let reqs = vec![
        rpc("initialize", Some(JsonValue::Int(1)), None),
        rpc("notifications/initialized", None, None),
        rpc("ping", Some(JsonValue::Int(2)), None),
        rpc("bogus", None, None),
    ];
    let mut answers = Vec::new();
    for r in reqs {
        match route_request(r, "1") {
            RpcAction::Ignore => {}
            RpcAction::Reply(v) => answers.push(v),
            RpcAction::CallTool { id, .. } => answers.push(tool_call_reply(id, Ok("{}".into()))),
        }
    }
    assert_eq!(answers.len(), 3);
    assert_eq!(answers[0].i64_at("id"), Some(1));
    assert_eq!(answers[1].i64_at("id"), Some(2));
    assert!(matches!(answers[2].member("id"), Some(JsonValue::Null)));
    assert!(answers[2].member("error").is_some());
    for a in &answers {
        assert_eq!(a.str_at("jsonrpc"), Some("2.0".to_string()));
    }
}
