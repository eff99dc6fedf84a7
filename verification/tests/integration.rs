use hammer_editor_mcp_server::client::{reply_verdict, failure_message, HttpMethod, HttpRequest, StatusVerdict};
use hammer_editor_mcp_server::config::CliArgs;
use hammer_editor_mcp_server::json::{JsonValue, ModelValue};
use hammer_editor_mcp_server::models::{
    ApiProjectDefinition, BeginProjectsSyncResponse, CreateProjectResponse, ProjectId,
    ProjectSynchronizationBegan, Timestamp, Token,
};
use hammer_editor_mcp_server::server::{ApiReply, McpServer, ToolCall, ToolInput, ToolStep};

const MOCK: &str = "http://127.0.0.1:9";

fn obj(pairs: Vec<(&str, JsonValue)>) -> JsonValue {
    JsonValue::Object(pairs.into_iter().map(|(k, v)| (k.to_string(), v)).collect())
}

fn s(t: &str) -> JsonValue {
    JsonValue::Str(t.to_string())
}

fn input(args: JsonValue) -> ToolInput {
    ToolInput {
        args,
        entity: Err("missing field `type`".to_string()),
        data: Err("invalid type: null, expected struct ProjectData".to_string()),
    }
}

fn login_args(email: &str, password: &str) -> CliArgs {
    CliArgs {
        server_url: MOCK.to_string(),
        email: Some(email.into()),
        password: Some(password.into()),
        install_id: None,
        user_id: None,
        auth_token: None,
    }
}

fn expect_call(step: ToolStep) -> ToolCall {
    match step {
        ToolStep::Call(c) => c,
        ToolStep::Finished(r) => panic!("expected a request, got {:?}", r),
    }
}

fn assert_request(req: &HttpRequest, method: HttpMethod, path: &str) {
    assert_eq!(req.method, method);
    assert_eq!(req.url, format!("{}{}", MOCK, path));
}

/// Logs in as user 1 with token `tok`, as the mock server answers.
fn logged_in_server() -> McpServer {
    let mut srv = McpServer::new(MOCK.to_string());
    let args = login_args("u@t.com", "p");
    let req = srv.configure(&args).expect("login request");
    assert_request(&req, HttpMethod::Post, "/api/accounts/login");
    assert_eq!(reply_verdict(req.policy, 200), StatusVerdict::ReadBody);
    let token = Token { user_id: 1, auth: "tok".into(), refresh: "ref".into() };
    srv.finish_configure(&args, Ok(token)).unwrap();
    srv
}

fn begin_project_sync(srv: &mut McpServer, last_id: i32) -> Result<JsonValue, String> {
    let call = expect_call(srv.handle_call("hammer_begin_project_sync", input(obj(vec![("project_id", s("p1"))]))));
    assert_request(&call.request, HttpMethod::Post, "/api/project/1/p1/begin_sync");
    assert_eq!(reply_verdict(call.request.policy, 200), StatusVerdict::ReadBody);
    let began = ProjectSynchronizationBegan {
        sync_id: "ps".into(),
        last_sync: Timestamp { secs: 1704067200, nanos: 0 },
        last_id,
        id_sequence: vec![1, 2, 3],
        deleted_ids: vec![],
    };
    srv.complete_call(call.pending, Ok(ApiReply::ProjectSync(began)))
}

#[test]
fn tools_list_returns_all_tools() {
    let tools = McpServer::tool_definitions();
    let tool_names: Vec<String> = tools.iter().map(|t| t.str_at("name").unwrap()).collect();
    assert!(!tool_names.contains(&"hammer_login".to_string()));
    assert!(!tool_names.contains(&"hammer_set_user_id".to_string()));
    assert!(tool_names.contains(&"hammer_begin_account_sync".to_string()));
    assert!(tool_names.contains(&"hammer_begin_project_sync".to_string()));
    assert!(tool_names.contains(&"hammer_download_entity".to_string()));
    assert!(tool_names.contains(&"hammer_upload_entity".to_string()));
    assert!(tool_names.contains(&"hammer_get_project_data".to_string()));
    assert!(tool_names.contains(&"hammer_get_ideas_state".to_string()));
    assert!(tool_names.contains(&"hammer_get_writing_activity".to_string()));
    assert!(tool_names.contains(&"hammer_entity_schema".to_string()));
    assert_eq!(tools.len(), 19);
}

#[test]
fn entity_schemas_are_valid() {
    let srv = McpServer::new("http://localhost".into());
    for etype in &["scene", "note", "timeline_event", "encyclopedia_entry", "scene_draft"] {
        assert!(srv.tool_entity_schema(&obj(vec![("entity_type", s(etype))])).is_ok());
    }
    assert!(srv.tool_entity_schema(&obj(vec![("entity_type", s("bad"))])).is_err());
}

#[test]
fn configure_rejects_bad_credentials() {
    let mut srv = McpServer::new(MOCK.to_string());
    let args = login_args("b@t.com", "w");
    let req = srv.configure(&args).expect("login request");
    assert_request(&req, HttpMethod::Post, "/api/accounts/login");
    assert_eq!(reply_verdict(req.policy, 401), StatusVerdict::Fail);
    let reply = Err(failure_message(req.policy, 401, "{\"error\":\"Invalid\"}"));
    let r = srv.finish_configure(&args, reply);
    assert!(r.is_err());
}

#[test]
fn configure_succeeds_with_credentials() {
    let mut srv = McpServer::new(MOCK.to_string());
    let args = login_args("u@t.com", "p");
    let req = srv.configure(&args).expect("login request");
    assert_request(&req, HttpMethod::Post, "/api/accounts/login");
    assert_eq!(reply_verdict(req.policy, 200), StatusVerdict::ReadBody);
    let token = Token { user_id: 42, auth: "tok".into(), refresh: "ref".into() };
    srv.finish_configure(&args, Ok(token)).unwrap();
    assert_eq!(srv.user_id, Some(42));
    assert!(srv.client.has_token());
}

#[test]
fn configure_with_auth_token() {
    let mut srv = McpServer::new("http://localhost".into());
    let args = CliArgs {
        server_url: "http://localhost".into(),
        email: None,
        password: None,
        install_id: None,
        user_id: Some(99),
        auth_token: Some("mytoken".into()),
    };
    assert!(srv.configure(&args).is_none());
    assert_eq!(srv.user_id, Some(99));
    assert!(srv.client.has_token());
}

#[test]
fn configure_with_user_id_only() {
    let mut srv = McpServer::new("http://localhost".into());
    let args = CliArgs {
        server_url: "http://localhost".into(),
        email: None,
        password: None,
        install_id: None,
        user_id: Some(77),
        auth_token: None,
    };
    assert!(srv.configure(&args).is_none());
    assert_eq!(srv.user_id, Some(77));
}

#[test]
fn begin_account_sync_works() {
    let mut srv = logged_in_server();
    let call = expect_call(srv.tool_begin_account_sync());
    assert!(call.cleanup.is_empty());
    assert_request(&call.request, HttpMethod::Post, "/api/projects/1/begin_sync");
    let resp = BeginProjectsSyncResponse {
        sync_id: "s1".into(),
        projects: vec![ApiProjectDefinition { name: "N".into(), uuid: ProjectId("u".into()) }],
        deleted_projects: vec![],
        ideas_state_hash: None,
    };
    let r = srv.complete_call(call.pending, Ok(ApiReply::ProjectsSync(resp))).unwrap();
    match r {
        JsonValue::Model(ModelValue::ProjectsSync(resp)) => {
            assert!(resp.sync_id.contains("s1"));
            assert!(resp.projects.iter().any(|p| p.name.contains("N")));
        }
        other => panic!("unexpected result {:?}", other),
    }
    assert_eq!(srv.account_sync_id, Some("s1".to_string()));
}

#[test]
fn create_project_works() {
    let mut srv = logged_in_server();
    let call = expect_call(srv.tool_begin_account_sync());
    let resp = BeginProjectsSyncResponse {
        sync_id: "s".into(),
        projects: vec![],
        deleted_projects: vec![],
        ideas_state_hash: None,
    };
    srv.complete_call(call.pending, Ok(ApiReply::ProjectsSync(resp))).unwrap();
    let call = expect_call(srv.tool_create_project(&obj(vec![("project_name", s("NS"))])));
    assert_request(&call.request, HttpMethod::Post, "/api/projects/1/create");
    assert_eq!(call.request.query, vec![("projectName".to_string(), "NS".to_string())]);
    let created = CreateProjectResponse { project_id: ProjectId("p1".into()), already_existed: false };
    let r = srv.complete_call(call.pending, Ok(ApiReply::CreatedProject(created))).unwrap();
    match r {
        JsonValue::Model(ModelValue::CreatedProject(c)) => assert!(c.project_id.0.contains("p1")),
        other => panic!("unexpected result {:?}", other),
    }
}

#[test]
fn begin_project_sync_works() {
    let mut srv = logged_in_server();
    let r = begin_project_sync(&mut srv, 5).unwrap();
    match r {
        JsonValue::Model(ModelValue::ProjectSync(began)) => {
            assert!(began.sync_id.contains("ps"));
            assert_eq!(began.id_sequence, vec![1, 2, 3]);
        }
        other => panic!("unexpected result {:?}", other),
    }
}

#[test]
fn download_entity_not_modified() {
    let mut srv = logged_in_server();
    begin_project_sync(&mut srv, 10).unwrap();
    let args = obj(vec![
        ("project_id", s("p1")),
        ("entity_id", JsonValue::Int(1)),
        ("entity_hash", s("same")),
    ]);
    let call = expect_call(srv.tool_download_entity(&args));
    assert_request(&call.request, HttpMethod::Get, "/api/project/1/p1/download_entity/1");
    assert_eq!(reply_verdict(call.request.policy, 304), StatusVerdict::Absent);
    let r = srv.complete_call(call.pending, Ok(ApiReply::Absent)).unwrap();
    assert_eq!(r.str_at("status"), Some("not_modified".to_string()));
}

#[test]
fn end_project_sync_works() {
    let mut srv = logged_in_server();
    begin_project_sync(&mut srv, 10).unwrap();
    let call = expect_call(srv.tool_end_project_sync(&obj(vec![("project_id", s("p1"))])));
    assert_request(&call.request, HttpMethod::Post, "/api/project/1/p1/end_sync");
    assert_eq!(reply_verdict(call.request.policy, 200), StatusVerdict::ReadBody);
    let r = srv.complete_call(call.pending, Ok(ApiReply::Done)).unwrap();
    assert_eq!(r.bool_at("success"), Some(true));
}

#[test]
fn unauthenticated_calls_fail() {
    let mut srv = McpServer::new("http://localhost".into());
    match srv.tool_begin_account_sync() {
        ToolStep::Finished(Err(e)) => assert!(e.contains("authenticated")),
        other => panic!("expected an error, got {:?}", other),
    }
}

#[test]
fn missing_sync_session_fails() {
    let srv = logged_in_server();
    let r = srv.tool_create_project(&obj(vec![("project_name", s("T"))]));
    assert!(matches!(r, ToolStep::Finished(Err(_))));
}
