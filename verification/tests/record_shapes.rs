use sidecar_link::records::{
    AppSettings, AudioItem, AudioListItem, Session, SessionWithUser, TranscriptionComplete,
    UpdateSettingsRequest, User,
};

#[test]
fn records_hold_their_fields() {
    let user = User {
        id: "u1".to_string(),
        name: "Ada".to_string(),
        email: "ada@example.com".to_string(),
        email_verified: true,
        image: None,
        created_at: "2024-01-01".to_string(),
        updated_at: "2024-01-02".to_string(),
    };
    assert_eq!(user.clone().email, "ada@example.com");

    let session = Session {
        id: "s1".to_string(),
        user_id: user.id.clone(),
        token: "tok".to_string(),
        expires_at: 1_700_000_000,
        created_at: "2024-01-01".to_string(),
        updated_at: "2024-01-01".to_string(),
    };
    assert_eq!(session.user_id, user.id);

    let joined = SessionWithUser {
        user_id: user.id.clone(),
        access_token: session.token.clone(),
        name: user.name.clone(),
        email: user.email.clone(),
        picture: None,
    };
    assert_eq!(joined.access_token, "tok");
}

#[test]
fn audio_item_is_the_list_row_shape() {
    let row = AudioListItem {
        id: "a1".to_string(),
        title: "clip".to_string(),
        description: None,
        url: "https://example.com/v".to_string(),
        thumbnail: None,
        start_time: 5,
        end_time: 35,
        provider: "yt".to_string(),
        tag: None,
        transcribe: 0,
        initial_prompt: None,
        updated_at: "2024-01-01".to_string(),
    };
    let item: AudioItem = row.clone();
    assert_eq!(item.id, row.id);
    assert_eq!(item.end_time - item.start_time, 30);
}

#[test]
fn settings_update_is_partial() {
    let settings = AppSettings {
        id: 1,
        current_user_id: None,
        theme: "dark".to_string(),
        language: "en".to_string(),
        selected_model: "base".to_string(),
        model_proxy: None,
        last_login: None,
        auto_login: false,
    };
    let update = UpdateSettingsRequest {
        theme: Some("light".to_string()),
        language: None,
        selected_model: None,
        model_proxy: None,
        auto_login: Some(true),
    };
    assert_eq!(update.theme.as_deref(), Some("light"));
    assert!(update.language.is_none());
    assert_eq!(settings.theme, "dark");

    let done = TranscriptionComplete {
        audio_id: "a1".to_string(),
        language: "en".to_string(),
        output_file: "subtitle.json".to_string(),
        segments_count: 12,
    };
    assert_eq!(done.segments_count, 12);
}
