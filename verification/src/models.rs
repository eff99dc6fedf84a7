//! Data carried between the tools and the Hammer sync API.
//!
//! The shapes follow the sync protocol's wire types. Text is held as
//! `String`; a point in time as a [`Timestamp`]; a set of tags as a
//! `Vec<String>` whose order and repeats carry no meaning.

use std::collections::BTreeSet;
use vstd::prelude::*;

verus! {

// ── HTTP headers ──────────────────────────────────────────────

pub const HEADER_PROTOCOL_VERSION: &'static str = "X-Hammer-Protocol-Version";

pub const HEADER_SYNC_ID: &'static str = "X-Sync-Id";

pub const HEADER_ENTITY_HASH: &'static str = "X-Entity-Hash";

pub const HEADER_ORIGINAL_HASH: &'static str = "X-Original-Hash";

pub const HEADER_ENTITY_TYPE: &'static str = "X-Entity-Type";

pub const PROTOCOL_VERSION: u16 = 3;

// ── Time ──────────────────────────────────────────────────────

/// A UTC point in time: whole seconds since the Unix epoch and the
/// nanoseconds past that second.
#[derive(Debug, Clone, Copy, PartialEq, Eq)]
pub struct Timestamp {
    pub secs: i64,
    pub nanos: u32,
}

// ── Base IDs ──────────────────────────────────────────────────

#[derive(Debug, Clone, PartialEq, Eq, Hash)]
pub struct ProjectId(pub String);

#[derive(Debug, Clone, PartialEq, Eq, Hash)]
pub struct IdeaId(pub String);

// ── Account / projects sync ───────────────────────────────────

#[derive(Debug)]
pub struct ApiProjectDefinition {
    pub name: String,
    pub uuid: ProjectId,
}

#[derive(Debug)]
pub struct BeginProjectsSyncResponse {
    pub sync_id: String,
    pub projects: Vec<ApiProjectDefinition>,
    pub deleted_projects: Vec<ProjectId>,
    pub ideas_state_hash: Option<String>,
}

#[derive(Debug)]
pub struct CreateProjectResponse {
    pub project_id: ProjectId,
    pub already_existed: bool,
}

// ── Project sync ──────────────────────────────────────────────

#[derive(Debug)]
pub struct ProjectSynchronizationBegan {
    pub sync_id: String,
    pub last_sync: Timestamp,
    pub last_id: i32,
    pub id_sequence: Vec<i32>,
    pub deleted_ids: Vec<i32>,
}

#[derive(Debug)]
pub struct DeleteIdsResponse {
    pub deleted: bool,
}

// ── Client entity state ───────────────────────────────────────

#[derive(Debug)]
pub struct ClientEntityState {
    pub entities: Vec<EntityHash>,
}

#[derive(Debug)]
pub struct EntityHash {
    pub id: i32,
    pub hash: String,
}

// ── Entity types ──────────────────────────────────────────────

#[derive(Debug, Clone, Copy, PartialEq, Eq, Structural)]
pub enum EntityType {
    Scene,
    Note,
    TimelineEvent,
    EncyclopediaEntry,
    SceneDraft,
}

/// The wire name of an entity type.
pub open spec fn entity_type_name(t: EntityType) -> Seq<char> {
    match t {
        EntityType::Scene => "scene"@,
        EntityType::Note => "note"@,
        EntityType::TimelineEvent => "timeline_event"@,
        EntityType::EncyclopediaEntry => "encyclopedia_entry"@,
        EntityType::SceneDraft => "scene_draft"@,
    }
}

impl EntityType {
    /// The value of the `X-Entity-Type` header for this type.
    pub fn as_header_value(&self) -> (s: &'static str)
        ensures
            s@ == entity_type_name(*self),
    {
        match self {
            EntityType::Scene => "scene",
            EntityType::Note => "note",
            EntityType::TimelineEvent => "timeline_event",
            EntityType::EncyclopediaEntry => "encyclopedia_entry",
            EntityType::SceneDraft => "scene_draft",
        }
    }
}

// ── Entities ──────────────────────────────────────────────────

#[derive(Debug, Clone)]
pub enum ApiProjectEntity {
    Scene(SceneEntity),
    Note(NoteEntity),
    TimelineEvent(TimelineEventEntity),
    EncyclopediaEntry(EncyclopediaEntryEntity),
    SceneDraft(SceneDraftEntity),
}

impl ApiProjectEntity {
    /// The type of this entity: the variant it is.
    pub open spec fn kind(&self) -> EntityType {
        match self {
            ApiProjectEntity::Scene(_) => EntityType::Scene,
            ApiProjectEntity::Note(_) => EntityType::Note,
            ApiProjectEntity::TimelineEvent(_) => EntityType::TimelineEvent,
            ApiProjectEntity::EncyclopediaEntry(_) => EntityType::EncyclopediaEntry,
            ApiProjectEntity::SceneDraft(_) => EntityType::SceneDraft,
        }
    }

    /// The id held by whichever entity this is.
    pub open spec fn spec_id(&self) -> i32 {
        match self {
            ApiProjectEntity::Scene(e) => e.id,
            ApiProjectEntity::Note(e) => e.id,
            ApiProjectEntity::TimelineEvent(e) => e.id,
            ApiProjectEntity::EncyclopediaEntry(e) => e.id,
            ApiProjectEntity::SceneDraft(e) => e.id,
        }
    }

    pub fn entity_type(&self) -> (t: EntityType)
        ensures
            t == self.kind(),
    {
        match self {
            ApiProjectEntity::Scene(_) => EntityType::Scene,
            ApiProjectEntity::Note(_) => EntityType::Note,
            ApiProjectEntity::TimelineEvent(_) => EntityType::TimelineEvent,
            ApiProjectEntity::EncyclopediaEntry(_) => EntityType::EncyclopediaEntry,
            ApiProjectEntity::SceneDraft(_) => EntityType::SceneDraft,
        }
    }

    pub fn id(&self) -> (id: i32)
        ensures
            id == self.spec_id(),
    {
        match self {
            ApiProjectEntity::Scene(e) => e.id,
            ApiProjectEntity::Note(e) => e.id,
            ApiProjectEntity::TimelineEvent(e) => e.id,
            ApiProjectEntity::EncyclopediaEntry(e) => e.id,
            ApiProjectEntity::SceneDraft(e) => e.id,
        }
    }
}

#[derive(Debug, Clone)]
pub struct SceneEntity {
    pub id: i32,
    pub scene_type: SceneType,
    pub order: i32,
    pub name: String,
    pub path: Vec<i32>,
    pub content: String,
    pub outline: String,
    pub notes: String,
    pub archived: bool,
    pub confirmed_references: BTreeSet<i32>,
    pub dismissed_references: BTreeSet<i32>,
    pub tags: Vec<String>,
    pub created: Option<Timestamp>,
    pub last_edited: Option<Timestamp>,
}

#[derive(Debug, Clone, Copy, PartialEq, Eq, Structural)]
pub enum SceneType {
    Scene,
    Group,
}

impl Default for SceneType {
    fn default() -> (t: Self)
        ensures
            t == SceneType::Scene,
    {
        SceneType::Scene
    }
}

#[derive(Debug, Clone)]
pub struct NoteEntity {
    pub id: i32,
    pub content: String,
    pub created: Timestamp,
    pub tags: Vec<String>,
}

#[derive(Debug, Clone)]
pub struct TimelineEventEntity {
    pub id: i32,
    pub order: i32,
    pub date: Option<String>,
    pub content: String,
    pub tags: Vec<String>,
}

#[derive(Debug, Clone)]
pub struct EncyclopediaEntryEntity {
    pub id: i32,
    pub name: String,
    pub entry_type: String,
    pub text: String,
    pub tags: Vec<String>,
    pub image: Option<EncyclopediaImage>,
    pub aliases: Vec<String>,
}

#[derive(Debug, Clone)]
pub struct EncyclopediaImage {
    pub base64: String,
    pub file_extension: String,
}

#[derive(Debug, Clone)]
pub struct SceneDraftEntity {
    pub id: i32,
    pub scene_id: i32,
    pub created: Timestamp,
    pub name: String,
    pub content: String,
}

// ── Sync probe ────────────────────────────────────────────────

#[derive(Debug)]
pub struct ProjectHashItem {
    pub project_id: ProjectId,
    pub hash: String,
}

#[derive(Debug)]
pub struct ProjectsSyncProbeRequest {
    pub projects: Vec<ProjectHashItem>,
}

#[derive(Debug)]
pub struct ProjectsSyncProbeResponse {
    pub unchanged_projects: Vec<ProjectId>,
}

// ── Project data ──────────────────────────────────────────────

#[derive(Debug, Clone)]
pub struct ProjectData {
    pub author_name: Option<String>,
    pub theme: Option<ProjectTheme>,
    pub word_count_goal: Option<WordCountGoal>,
    pub tags: Vec<String>,
}

impl Default for ProjectData {
    fn default() -> (d: Self)
        ensures
            d.author_name is None,
            d.theme is None,
            d.word_count_goal is None,
            d.tags@.len() == 0,
    {
        ProjectData { author_name: None, theme: None, word_count_goal: None, tags: Vec::new() }
    }
}

#[derive(Debug, Clone)]
pub struct ProjectTheme {
    pub primary: String,
    pub secondary: String,
}

#[derive(Debug, Clone)]
pub struct WordCountGoal {
    pub cadence: Cadence,
    pub count: i32,
}

#[derive(Debug, Clone, Copy, PartialEq, Eq, Structural)]
pub enum Cadence {
    Day,
    Week,
}

#[derive(Debug)]
pub struct ProjectDataDto {
    pub data: ProjectData,
    pub hash: String,
}

#[derive(Debug)]
pub struct ProjectDataUploadRequest {
    pub data: ProjectData,
    pub original_hash: Option<String>,
    pub hash: Option<String>,
}

#[derive(Debug)]
pub struct ProjectDataConflictDto {
    pub server: ProjectData,
    pub server_hash: String,
}

// ── Ideas ─────────────────────────────────────────────────────

#[derive(Debug)]
pub struct IdeaHashItem {
    pub id: IdeaId,
    pub hash: String,
}

#[derive(Debug)]
pub struct IdeasSyncStateResponse {
    pub ideas: Vec<IdeaHashItem>,
    pub deleted_ideas: Vec<IdeaId>,
}

#[derive(Debug, Clone)]
pub struct StoryIdea {
    pub text: String,
    pub tags: Vec<String>,
}

#[derive(Debug)]
pub struct SavedIdeaDto {
    pub idea: StoryIdea,
    pub hash: String,
}

#[derive(Debug)]
pub struct IdeaUploadRequest {
    pub idea: StoryIdea,
    pub hash: String,
    pub original_hash: Option<String>,
}

#[derive(Debug)]
pub struct IdeaConflictDto {
    pub server: StoryIdea,
    pub server_hash: String,
}

// ── Writing activity ──────────────────────────────────────────

#[derive(Debug, Clone)]
pub struct WritingSession {
    pub started_at: Timestamp,
    pub ended_at: Option<Timestamp>,
    pub words_written: i64,
    pub sealed: bool,
}

#[derive(Debug, Clone)]
pub struct DeviceLog {
    pub sessions: Vec<WritingSession>,
}

// ── Auth ──────────────────────────────────────────────────────

#[derive(Debug)]
pub struct Token {
    pub user_id: i64,
    pub auth: String,
    pub refresh: String,
}

#[derive(Debug)]
pub struct LoginRequest {
    pub email: String,
    pub password: String,
    pub install_id: String,
}

} // verus!
