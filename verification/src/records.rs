//! The typed records of the application around the supervisor: user
//! accounts, sessions, audio clips, bookmarks, dictations and settings, as
//! the storage interface returns them, and the request shapes the command
//! layer passes around. The storage itself is an external collaborator; these
//! are the plain value shapes it trades in.

use vstd::prelude::*;

verus! {

/// Seconds-based timestamp as the storage layer records it.
pub type Timestamp = i64;

/// A stored audio clip.
#[derive(Debug, Clone)]
pub struct Audio {
    pub id: String,
    pub user_id: String,
    pub title: String,
    pub description: Option<String>,
    pub url: String,
    pub thumbnail: Option<String>,
    pub start_time: i16,
    pub end_time: i16,
    pub provider: String,
    pub tag: Option<String>,
    pub last_used_at: String,
    pub created_at: String,
    pub updated_at: String,
}

/// One row of the audio list view.
#[derive(Debug, Clone)]
pub struct AudioListItem {
    pub id: String,
    pub title: String,
    pub description: Option<String>,
    pub url: String,
    pub thumbnail: Option<String>,
    pub start_time: i16,
    pub end_time: i16,
    pub provider: String,
    pub tag: Option<String>,
    pub transcribe: i16,
    pub initial_prompt: Option<String>,
    pub updated_at: String,
}

/// An audio item as returned for a single clip.
pub type AudioItem = AudioListItem;

/// A bookmark position within a clip.
#[derive(Debug, Clone)]
pub struct Bookmark {
    pub bookmark_id: i16,
    pub created_at: String,
}

/// A dictation position within a clip.
#[derive(Debug, Clone)]
pub struct Dictation {
    pub dictation_id: i16,
    pub created_at: String,
}

/// One row of the combined bookmark/dictation view of a clip.
#[derive(Debug, Clone)]
pub struct BookmarkDictationView {
    pub user_id: String,
    pub audio_id: String,
    pub bookmark_id: Option<i64>,
    pub bookmark_position: Option<i16>,
    pub bookmark_created_at: Option<String>,
    pub dictation_id: Option<i64>,
    pub dictation_position: Option<i16>,
    pub dictation_created_at: Option<String>,
}

/// A user record.
#[derive(Debug, Clone)]
pub struct User {
    pub id: String,
    pub name: String,
    pub email: String,
    pub email_verified: bool,
    pub image: Option<String>,
    pub created_at: String,
    pub updated_at: String,
}

/// An external-identity account linked to a user.
#[derive(Debug, Clone)]
pub struct Account {
    pub id: String,
    pub user_id: String,
    pub account_id: String,
    pub provider_id: String,
    pub access_token: Option<String>,
    pub refresh_token: Option<String>,
    pub access_token_expires_at: Option<Timestamp>,
    pub refresh_token_expires_at: Option<Timestamp>,
    pub scope: Option<String>,
    pub id_token: Option<String>,
    pub password: Option<String>,
    pub created_at: String,
    pub updated_at: String,
}

/// A login session.
#[derive(Debug, Clone)]
pub struct Session {
    pub id: String,
    pub user_id: String,
    pub token: String,
    pub expires_at: Timestamp,
    pub created_at: String,
    pub updated_at: String,
}

/// A pending verification value.
#[derive(Debug, Clone)]
pub struct Verification {
    pub id: String,
    pub identifier: String,
    pub value: String,
    pub expires_at: Timestamp,
    pub created_at: String,
    pub updated_at: String,
}

/// A session joined with the user it belongs to.
#[derive(Debug, Clone)]
pub struct SessionWithUser {
    pub user_id: String,
    pub access_token: String,
    pub name: String,
    pub email: String,
    pub picture: Option<String>,
}

/// The tokens handed over by the external identity provider at login.
#[derive(Debug, Clone)]
pub struct TokenData {
    pub access_token: Option<String>,
    pub access_token_expires_at: Option<Timestamp>,
    pub refresh_token: Option<String>,
    pub refresh_token_expires_at: Option<Timestamp>,
}

/// The payload for creating an audio clip.
#[derive(Debug, Clone)]
pub struct CreateAudioData {
    pub audio_id: String,
    pub token: String,
    pub title: String,
    pub description: Option<String>,
    pub url: String,
    pub thumbnail: String,
    pub start_time: i16,
    pub end_time: i16,
    pub provider: String,
    pub tag: Option<String>,
}

/// The application settings row.
#[derive(Debug, Clone)]
pub struct AppSettings {
    pub id: i64,
    pub current_user_id: Option<String>,
    pub theme: String,
    pub language: String,
    pub selected_model: String,
    pub model_proxy: Option<String>,
    pub last_login: Option<String>,
    pub auto_login: bool,
}

/// A partial update of the application settings.
#[derive(Debug, Clone)]
pub struct UpdateSettingsRequest {
    pub theme: Option<String>,
    pub language: Option<String>,
    pub selected_model: Option<String>,
    pub model_proxy: Option<String>,
    pub auto_login: Option<bool>,
}

/// The completion event of a transcription run.
#[derive(Debug, Clone)]
pub struct TranscriptionComplete {
    pub audio_id: String,
    pub language: String,
    pub output_file: String,
    pub segments_count: usize,
}

} // verus!
