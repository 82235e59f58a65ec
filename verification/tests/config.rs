use cosmic_ext_applet_spotify::config::{load_config, AppConfig};

#[test]
fn fresh_settings() {
    let c = AppConfig::default();
    assert_eq!(c.panel_display, "icon_artist_track");
    assert!(c.show_play_panel);
    assert!(c.show_next_panel);
    assert!(!c.show_prev_panel);
    assert_eq!(c.max_label_chars, 40);
    assert_eq!(c.icon_style, "note_symbolic");
    assert!(c.show_album_art);
    assert_eq!(c.poll_interval_secs, 3);
}

#[test]
fn stored_settings_are_used() {
    let mut c = AppConfig::default();
    c.panel_display = "icon_only".to_string();
    c.poll_interval_secs = 10;
    let loaded = load_config(Some(c.clone()));
    assert_eq!(format!("{:?}", loaded), format!("{:?}", c));
}

#[test]
fn missing_settings_are_fresh() {
    let loaded = load_config(None);
    assert_eq!(format!("{:?}", loaded), format!("{:?}", AppConfig::default()));
}
