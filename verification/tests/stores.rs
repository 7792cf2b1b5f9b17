use janus_proxy::backend::{JanusBackendProvider, MemoryBackendProvider};
use janus_proxy::error::JanusErrorCode;
use janus_proxy::helper::rand_id;
use janus_proxy::json::JsonValue;
use janus_proxy::plugin::JanusPluginProvider;
use janus_proxy::state::{MemoryStateProvider, ProxyStateProvider};
use janus_proxy::videoroom::{VideoRoomPlugin, VideoroomError};
use janus_proxy::videoroom_request::CreateParameters;
use janus_proxy::videoroom_state::{MemoryVideoRoomState, VideoRoomStateProvider};

fn obj(pairs: Vec<(&str, JsonValue)>) -> JsonValue {
    let mut out: Vec<(String, JsonValue)> = Vec::new();
    for (k, v) in pairs {
        out.push((k.to_string(), v));
    }
    JsonValue::Obj(out)
}

fn s(text: &str) -> JsonValue {
    JsonValue::Str(text.to_string())
}

#[test]
fn random_ids_are_non_zero_and_small() {
    for _ in 0..32 {
        let id = rand_id();
        assert!(id != 0);
        assert!(id < 0x1_0000_0000);
    }
}

#[test]
fn state_store_membership() {
    let mut store = MemoryStateProvider::new();
    let a = store.new_session();
    let b = store.new_session();
    assert!(a != 0 && b != 0 && a != b);
    assert!(store.has_session(&a));
    assert!(store.has_session(&b));
    assert!(!store.has_handle(&a));

    let h = store.new_handle();
    assert!(store.has_handle(&h));
    assert!(store.remove_handle(&h));
    assert!(!store.remove_handle(&h));
    assert!(store.remove_session(&a));
    assert!(!store.has_session(&a));
    assert!(store.has_session(&b));
}

#[test]
fn backend_pool_keeps_the_oldest_live_url() {
    let mut pool = MemoryBackendProvider::new();
    assert_eq!(pool.get_backend(), None);
    pool.update_backend("ws://one:8188".to_string(), true);
    pool.update_backend("ws://two:8188".to_string(), true);
    pool.update_backend("ws://one:8188".to_string(), true);
    assert_eq!(pool.get_backend().as_deref(), Some("ws://one:8188"));
    pool.update_backend("ws://one:8188".to_string(), false);
    assert_eq!(pool.get_backend().as_deref(), Some("ws://two:8188"));
    pool.update_backend("ws://two:8188".to_string(), false);
    assert_eq!(pool.get_backend(), None);
}

#[test]
fn plugin_registry_resolves_only_known_names() {
    let provider = JanusPluginProvider::default();
    assert!(provider.resolve("janus.plugin.videoroom".to_string()).is_ok());
    let err = provider.resolve("janus.plugin.echotest".to_string()).unwrap_err();
    assert_eq!(err.code, 460);

    let empty = JanusPluginProvider::empty();
    let err = empty.resolve("janus.plugin.videoroom".to_string()).unwrap_err();
    assert_eq!(err.code, 460);
}

#[test]
fn room_catalogue_stores_and_lists() {
    let mut rooms = MemoryVideoRoomState::new();
    assert_eq!(rooms.list_rooms().len(), 0);
    let id = rooms.new_room_id();
    assert!(id != 0);
    assert!(rooms.has_room(&id));
    assert_eq!(rooms.list_rooms(), vec![id]);
    assert!(rooms.get_room_parameters(&id).is_none());
}

fn plain_create(room: Option<u64>) -> JsonValue {
    match room {
        Some(r) => obj(vec![("request", s("create")), ("room", JsonValue::UInt(r))]),
        None => obj(vec![("request", s("create"))]),
    }
}

#[test]
fn create_room_validates_codecs() {
    let plugin = VideoRoomPlugin::new();
    let mut rooms = MemoryVideoRoomState::new();

    let ok_body = obj(vec![
        ("request", s("create")),
        ("audiocodec", s("opus,pcmu")),
        ("videocodec", s("vp8,h264")),
    ]);
    let result = plugin.create_room(&mut rooms, &ok_body).unwrap();
    assert!(result.content.is_some());

    let bad_audio = obj(vec![("request", s("create")), ("audiocodec", s("mp3"))]);
    let e = plugin.create_room(&mut rooms, &bad_audio).unwrap_err();
    assert_eq!(e.error_code, 430);
    assert_eq!(
        e.error.as_str(),
        "Invalid element (audiocodec can only be or contain opus, isac32, isac16, pcmu, pcma or g722)"
    );

    let bad_video = obj(vec![("request", s("create")), ("videocodec", s("vp8,mjpeg"))]);
    let e = plugin.create_room(&mut rooms, &bad_video).unwrap_err();
    assert_eq!(e.error_code, 430);
}

#[test]
fn create_room_rejects_conflicts_and_registers() {
    let plugin = VideoRoomPlugin::new();
    let mut rooms = MemoryVideoRoomState::new();

    let result = plugin.create_room(&mut rooms, &plain_create(Some(1234))).unwrap();
    let content = result.content.unwrap();
    match &content {
        JsonValue::Obj(pairs) => {
            assert_eq!(janus_proxy::json::obj_get(pairs, "room"), Some(&JsonValue::UInt(1234)));
        },
        _ => panic!("expected an object"),
    }
    assert!(rooms.has_room(&1234));
    let stored = rooms.get_room_parameters(&1234).unwrap();
    assert_eq!(stored.room, Some(1234));
    assert_eq!(stored.permanent, None);

    let e = plugin.create_room(&mut rooms, &plain_create(Some(1234))).unwrap_err();
    assert_eq!(e.error_code, 427);
    assert_eq!(e.error.as_str(), "Room 1234 already exists");
}

#[test]
fn create_parameters_round_trip_through_a_body() {
    let body = obj(vec![
        ("request", s("create")),
        ("room", JsonValue::UInt(9)),
        ("description", s("demo")),
        ("is_private", JsonValue::Bool(true)),
        ("allowed", JsonValue::Arr(vec![s("tok1"), s("tok2")])),
        ("bitrate", JsonValue::UInt(128000)),
        ("permanent", JsonValue::Bool(true)),
    ]);
    let p = CreateParameters::from_body(&body).unwrap();
    assert_eq!(p.room, Some(9));
    assert_eq!(p.description.as_deref(), Some("demo"));
    assert_eq!(p.is_private, Some(true));
    assert_eq!(p.allowed.as_ref().unwrap().len(), 2);
    assert_eq!(p.bitrate, Some(128000));
    assert_eq!(p.permanent, Some(true));

    let back = p.to_body();
    let q = CreateParameters::from_body(&back).unwrap();
    assert_eq!(q.room, Some(9));
    assert_eq!(q.description.as_deref(), Some("demo"));
    assert_eq!(q.allowed.as_ref().unwrap()[1].as_str(), "tok2");

    let mistyped = obj(vec![("request", s("create")), ("bitrate", s("fast"))]);
    assert!(CreateParameters::from_body(&mistyped).is_err());
}

#[test]
fn videoroom_errors_render_as_events() {
    let e = VideoroomError::new(424, "Invalid request on unconfigured participant".to_string());
    match e.to_json() {
        JsonValue::Obj(pairs) => {
            assert_eq!(pairs.len(), 3);
            assert_eq!(pairs[0].1, s("event"));
            assert_eq!(pairs[1].1, JsonValue::UInt(424));
            assert_eq!(pairs[2].1, s("Invalid request on unconfigured participant"));
        },
        _ => panic!("expected an object"),
    }
}

#[test]
fn videoroom_parse_errors_follow_the_category() {
    let data = serde_json::from_str::<u32>("\"abc\"").unwrap_err();
    let e = VideoroomError::from_json_parse_error(data);
    assert_eq!(e.error_code, 429);
    let syntax = serde_json::from_str::<serde_json::Value>("[").unwrap_err();
    let e = VideoroomError::from_json_parse_error(syntax);
    assert_eq!(e.error_code, 422);
}

#[test]
fn codec_check_looks_at_the_first_four_entries_only() {
    let plugin = VideoRoomPlugin::new();
    let mut rooms = MemoryVideoRoomState::new();

    // The fifth entry is past the checked window, as upstream behaves.
    let body = obj(vec![
        ("request", s("create")),
        ("audiocodec", s("opus,pcmu,pcma,g722,mp3")),
    ]);
    assert!(plugin.create_room(&mut rooms, &body).is_ok());

    // A bad entry within the window is rejected.
    let body = obj(vec![
        ("request", s("create")),
        ("audiocodec", s("opus,mp3,pcma,g722")),
    ]);
    assert_eq!(plugin.create_room(&mut rooms, &body).unwrap_err().error_code, 430);

    // An empty entry is not a supported codec.
    let body = obj(vec![("request", s("create")), ("audiocodec", s("opus,"))]);
    assert_eq!(plugin.create_room(&mut rooms, &body).unwrap_err().error_code, 430);
}

#[test]
fn error_code_catalogue_maps_to_numbers() {
    assert_eq!(JanusErrorCode::JANUS_ERROR_TRANSPORT_SPECIFIC.code(), 450);
    assert_eq!(JanusErrorCode::JANUS_ERROR_INVALID_REQUEST_PATH.code(), 457);
    assert_eq!(JanusErrorCode::JANUS_ERROR_HANDLE_NOT_FOUND.code(), 459);
    assert_eq!(JanusErrorCode::JANUS_ERROR_UNAUTHORIZED.code(), 403);
}

#[test]
fn exists_reports_room_membership() {
    let plugin = VideoRoomPlugin::new();
    let mut rooms = MemoryVideoRoomState::new();
    plugin.create_room(&mut rooms, &plain_create(Some(42))).unwrap();

    let body = obj(vec![("request", s("exists")), ("room", JsonValue::UInt(42))]);
    let msg = janus_proxy::plugin::JanusPluginMessage::new("t".to_string(), body, None);
    let (result, queued) = plugin.handle_message(&mut rooms, msg);
    assert!(queued.is_none());
    let content = result.content.unwrap();
    assert_eq!(
        content,
        obj(vec![
            ("videoroom", s("success")),
            ("room", JsonValue::UInt(42)),
            ("exists", JsonValue::Bool(true)),
        ])
    );

    let body = obj(vec![("request", s("exists")), ("room", JsonValue::UInt(43))]);
    let msg = janus_proxy::plugin::JanusPluginMessage::new("t".to_string(), body, None);
    let (result, _) = plugin.handle_message(&mut rooms, msg);
    match result.content.unwrap() {
        JsonValue::Obj(pairs) => {
            assert_eq!(janus_proxy::json::obj_get(&pairs, "exists"), Some(&JsonValue::Bool(false)));
        },
        _ => panic!("expected an object"),
    }
}

#[test]
fn unknown_videoroom_request_is_rejected() {
    let plugin = VideoRoomPlugin::new();
    let mut rooms = MemoryVideoRoomState::new();
    let body = obj(vec![("request", s("teleport"))]);
    let msg = janus_proxy::plugin::JanusPluginMessage::new("t".to_string(), body, None);
    let (result, queued) = plugin.handle_message(&mut rooms, msg);
    assert!(queued.is_none());
    match result.content.unwrap() {
        JsonValue::Obj(pairs) => {
            assert_eq!(
                janus_proxy::json::obj_get(&pairs, "error_code"),
                Some(&JsonValue::UInt(423))
            );
            assert_eq!(
                janus_proxy::json::obj_get(&pairs, "error"),
                Some(&s("Unknown request 'teleport'"))
            );
        },
        _ => panic!("expected an error event"),
    }
}
