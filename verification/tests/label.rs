use cosmic_ext_applet_spotify::config::AppConfig;
use cosmic_ext_applet_spotify::label::{panel_icon_name, panel_label_text, play_pause_icon};
use cosmic_ext_applet_spotify::player::TrackInfo;

fn track(artist: &str, title: &str) -> TrackInfo {
    let mut t = TrackInfo::default();
    t.artist = artist.to_string();
    t.title = title.to_string();
    t
}

fn display(value: &str, max: usize) -> AppConfig {
    let mut c = AppConfig::default();
    c.panel_display = value.to_string();
    c.max_label_chars = max;
    c
}

#[test]
fn icon_names_follow_the_style() {
    let mut c = AppConfig::default();
    assert_eq!(panel_icon_name(&c), "audio-x-generic-symbolic");
    c.icon_style = "spotify_colored".to_string();
    assert_eq!(panel_icon_name(&c), "com.spotify.Client");
    c.icon_style = "spotify_symbolic".to_string();
    assert_eq!(panel_icon_name(&c), "com.spotify.Client-symbolic");
    c.icon_style = "something else".to_string();
    assert_eq!(panel_icon_name(&c), "audio-x-generic-symbolic");
}

#[test]
fn transport_icon_shows_what_a_press_does() {
    assert_eq!(play_pause_icon(true), "media-playback-pause-symbolic");
    assert_eq!(play_pause_icon(false), "media-playback-start-symbolic");
}

#[test]
fn label_per_display_setting() {
    let t = track("Nina Simone", "Sinnerman");
    assert_eq!(panel_label_text(&t, &display("icon_only", 40)), "");
    assert_eq!(panel_label_text(&t, &display("icon_track", 40)), "Sinnerman");
    let full = "Nina Simone – Sinnerman";
    assert_eq!(panel_label_text(&t, &display("icon_artist_track", 40)), full);
    assert_eq!(panel_label_text(&t, &display("unknown", 40)), full);
}

#[test]
fn label_without_artist_is_the_title() {
    let t = track("", "Sinnerman");
    assert_eq!(panel_label_text(&t, &display("icon_artist_track", 40)), "Sinnerman");
}

#[test]
fn label_is_cut_to_the_limit() {
    let t = track("Nina Simone", "Sinnerman");
    let cut = panel_label_text(&t, &display("icon_artist_track", 10));
    assert_eq!(cut, "Nina Simo…");
    assert_eq!(cut.chars().count(), 10);
    assert_eq!(panel_label_text(&t, &display("icon_track", 4)), "Sin…");
    let whole = panel_label_text(&t, &display("icon_artist_track", 0));
    assert_eq!(whole, "Nina Simone – Sinnerman");
}
