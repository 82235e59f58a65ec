use cosmic_ext_applet_spotify::player::{
    arr_first_str, i64_val, read_track, str_val, try_query, MetaValue, Metadata, PlayerState,
    QueryReply, QueryStep, TrackInfo,
};

fn text(s: &str) -> MetaValue {
    MetaValue::Str(s.to_string())
}

fn sample() -> Metadata {
    let mut m = Metadata::new();
    m.insert("xesam:title".to_string(), text("Sinnerman"));
    m.insert(
        "xesam:artist".to_string(),
        MetaValue::Array(vec![MetaValue::Other, text("Nina Simone"), text("Other")]),
    );
    m.insert("xesam:album".to_string(), text("Pastel Blues"));
    m.insert("mpris:artUrl".to_string(), text("https://example.org/a"));
    m.insert("mpris:length".to_string(), MetaValue::I64(620_000_000));
    m.insert("mpris:trackid".to_string(), text("/track/1"));
    m
}

fn active(step: QueryStep) -> TrackInfo {
    match step {
        QueryStep::Done(PlayerState::Active(t)) => t,
        _ => panic!("no track"),
    }
}

fn status(s: &str) -> QueryReply {
    QueryReply::Status(s.to_string())
}

#[test]
fn strings_are_read_by_key() {
    let m = sample();
    assert_eq!(str_val(&m, "xesam:title"), Some("Sinnerman".to_string()));
    assert_eq!(str_val(&m, "missing"), None);
    assert_eq!(str_val(&m, "mpris:length"), None);
    assert_eq!(str_val(&m, "xesam:artist"), None);
}

#[test]
fn first_string_of_an_array_is_read() {
    let mut m = sample();
    assert_eq!(arr_first_str(&m, "xesam:artist"), Some("Nina Simone".to_string()));
    assert_eq!(arr_first_str(&m, "xesam:title"), None);
    assert_eq!(arr_first_str(&m, "missing"), None);
    m.insert("none".to_string(), MetaValue::Array(vec![MetaValue::I64(1), MetaValue::Other]));
    assert_eq!(arr_first_str(&m, "none"), None);
    m.insert("empty".to_string(), MetaValue::Array(Vec::new()));
    assert_eq!(arr_first_str(&m, "empty"), None);
}

#[test]
fn integers_are_read_by_key() {
    let m = sample();
    assert_eq!(i64_val(&m, "mpris:length"), Some(620_000_000));
    assert_eq!(i64_val(&m, "xesam:title"), None);
    assert_eq!(i64_val(&m, "missing"), None);
}

#[test]
fn later_values_replace_earlier_ones() {
    let mut m = sample();
    m.insert("xesam:title".to_string(), text("Other"));
    assert_eq!(str_val(&m, "xesam:title"), Some("Other".to_string()));
    assert!(m.get("xesam:album").is_some());
    assert!(m.get("missing").is_none());
}

#[test]
fn track_is_read_from_metadata() {
    let t = read_track("Playing", &sample(), 5);
    assert_eq!(t.title, "Sinnerman");
    assert_eq!(t.artist, "Nina Simone");
    assert_eq!(t.album, "Pastel Blues");
    assert_eq!(t.art_url, Some("https://example.org/a".to_string()));
    assert_eq!(t.position_us, 5);
    assert_eq!(t.length_us, 620_000_000);
    assert!(t.is_playing);
    assert_eq!(t.track_id, "/track/1");
}

#[test]
fn missing_metadata_reads_as_empty() {
    let t = read_track("Paused", &Metadata::new(), 0);
    assert_eq!(t.title, "");
    assert_eq!(t.artist, "");
    assert_eq!(t.album, "");
    assert_eq!(t.art_url, None);
    assert_eq!(t.length_us, 0);
    assert!(!t.is_playing);
    assert_eq!(t.track_id, "");
}

#[test]
fn query_of_a_playing_player() {
    let step = try_query(QueryStep::Connect, QueryReply::Connected);
    assert_eq!(step.property(), Some("PlaybackStatus"));
    let step = try_query(step, status("Playing"));
    assert_eq!(step.property(), Some("Metadata"));
    let step = try_query(step, QueryReply::Metadata(sample()));
    assert_eq!(step.property(), Some("Position"));
    let step = try_query(step, QueryReply::Position(42));
    assert_eq!(step.property(), None);
    let t = active(try_query(step, QueryReply::Failed));
    assert_eq!(t.position_us, 42);
    assert!(t.is_playing);
}

#[test]
fn query_of_a_stopped_player_ends_early() {
    let step = try_query(QueryStep::Connect, QueryReply::Connected);
    let step = try_query(step, status("Stopped"));
    assert!(matches!(step, QueryStep::Done(PlayerState::Stopped)));
}

#[test]
fn query_without_position_reads_the_start() {
    let step = try_query(QueryStep::Connect, QueryReply::Connected);
    let step = try_query(step, status("Paused"));
    let step = try_query(step, QueryReply::Metadata(sample()));
    let t = active(try_query(step, QueryReply::Failed));
    assert_eq!(t.position_us, 0);
    assert!(!t.is_playing);
}

#[test]
fn failed_query_means_not_running() {
    let step = try_query(QueryStep::Connect, QueryReply::Failed);
    assert!(matches!(step, QueryStep::Done(PlayerState::NotRunning)));
    let step = try_query(QueryStep::GetStatus, QueryReply::Failed);
    assert!(matches!(step, QueryStep::Done(PlayerState::NotRunning)));
    let asked = QueryStep::GetMetadata { status: "Playing".to_string() };
    let step = try_query(asked, QueryReply::Failed);
    assert!(matches!(step, QueryStep::Done(PlayerState::NotRunning)));
    let step = try_query(QueryStep::GetStatus, QueryReply::Position(1));
    assert!(matches!(step, QueryStep::Done(PlayerState::NotRunning)));
}
