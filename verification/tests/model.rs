use std::path::PathBuf;

use cosmic_ext_applet_spotify::config::AppConfig;
use cosmic_ext_applet_spotify::message::{Effect, Message, SurfaceAction};
use cosmic_ext_applet_spotify::model::AppModel;
use cosmic_ext_applet_spotify::player::{PlayerState, TrackInfo};
use cosmic_ext_applet_spotify::toplevel::{AppData, CosmicEvent, ForeignEvent, TopCmd, TopUpdate};

const ACTIVATED: [u8; 4] = [2, 0, 0, 0];

fn applet() -> AppModel {
    AppModel::init(AppConfig::default()).0
}

fn playing(id: &str, url: Option<&str>) -> Message {
    let mut t = TrackInfo::default();
    t.track_id = id.to_string();
    t.art_url = url.map(|u| u.to_string());
    Message::PlayerState(PlayerState::Active(t))
}

fn art(path: &str) -> Message {
    Message::AlbumArt(Some(PathBuf::from(path)))
}

fn focus(app_id: &str, active: bool) -> Message {
    Message::Toplevel(TopUpdate::AppActivated { app_id: app_id.to_string(), active })
}

fn token(token: Option<&str>) -> Message {
    Message::ActivationToken {
        token: token.map(|t| t.to_string()),
        line: "flatpak run com.spotify.Client".to_string(),
    }
}

fn shown<T: std::fmt::Debug>(value: &T) -> String {
    format!("{:?}", value)
}

fn fetched(effects: &Vec<Effect>) -> Vec<String> {
    let mut urls = Vec::new();
    for e in effects {
        if let Effect::FetchArt(url) = e {
            urls.push(url.clone());
        }
    }
    urls
}

fn saves_current(m: &AppModel, effects: &Vec<Effect>) {
    match &effects[0] {
        Effect::SaveConfig(c) => assert_eq!(shown(c), shown(&m.config)),
        _ => panic!("not saved"),
    }
}

#[test]
fn applet_starts_by_asking_the_player() {
    let (m, effects) = AppModel::init(AppConfig::default());
    assert!(matches!(m.player, PlayerState::NotRunning));
    assert_eq!(m.popup, None);
    assert!(!m.show_settings);
    assert_eq!(m.album_art_path, None);
    assert_eq!(m.art_track_id, "");
    assert!(!m.spotify_activated);
    assert_eq!(effects.len(), 1);
    assert!(matches!(effects[0], Effect::QueryPlayer));
    assert_eq!(m.subscription(), 3);
}

#[test]
fn tick_asks_the_player() {
    let effects = applet().update(Message::Tick);
    assert_eq!(effects.len(), 1);
    assert!(matches!(effects[0], Effect::QueryPlayer));
}

#[test]
fn popup_is_open_until_it_is_closed() {
    let mut m = applet();
    m.popup_opened(7);
    assert_eq!(m.popup, Some(7));
    assert!(m.update(m.on_close_requested(8)).is_empty());
    assert_eq!(m.popup, Some(7));
    assert!(m.update(m.on_close_requested(7)).is_empty());
    assert_eq!(m.popup, None);
    m.update(Message::PopupClosed(7));
    assert_eq!(m.popup, None);
}

#[test]
fn surface_actions_are_passed_on() {
    let effects = applet().update(Message::Surface(SurfaceAction::Widget(9)));
    assert_eq!(effects.len(), 1);
    assert!(matches!(effects[0], Effect::Surface(SurfaceAction::Widget(9))));
}

#[test]
fn transport_calls_the_player_and_waits() {
    let cases = [
        (Message::PlayPause, "PlayPause", 150),
        (Message::Next, "Next", 300),
        (Message::Previous, "Previous", 300),
    ];
    for (message, name, ms) in cases {
        let effects = applet().update(message);
        assert_eq!(effects.len(), 1);
        match &effects[0] {
            Effect::PlayerCall { method, wait_ms } => {
                assert_eq!(*method, name);
                assert_eq!(*wait_ms, ms);
            }
            _ => panic!("no call"),
        }
    }
}

#[test]
fn launching_runs_the_flatpak() {
    let effects = applet().update(Message::LaunchSpotify);
    match &effects[0] {
        Effect::Run(c) => {
            assert_eq!(c.program, "flatpak");
            assert_eq!(c.args, ["run", "com.spotify.Client"]);
        }
        _ => panic!("nothing run"),
    }
}

#[test]
fn new_track_fetches_its_art() {
    let mut m = applet();
    let effects = m.update(playing("a", Some("u/a")));
    assert_eq!(fetched(&effects), ["u/a"]);
    assert_eq!(m.art_track_id, "a");
    m.update(art("/c/a"));
    assert_eq!(m.album_art_path, Some(PathBuf::from("/c/a")));
}

#[test]
fn same_track_keeps_its_art() {
    let mut m = applet();
    m.update(playing("a", Some("u/a")));
    m.update(art("/c/a"));
    assert!(m.update(playing("a", Some("u/a"))).is_empty());
    assert_eq!(m.album_art_path, Some(PathBuf::from("/c/a")));
}

#[test]
fn art_that_failed_is_fetched_again() {
    let mut m = applet();
    m.update(playing("a", Some("u/a")));
    m.update(Message::AlbumArt(None));
    assert_eq!(fetched(&m.update(playing("a", Some("u/a")))), ["u/a"]);
}

#[test]
fn other_track_drops_the_art() {
    let mut m = applet();
    m.update(playing("a", Some("u/a")));
    m.update(art("/c/a"));
    assert_eq!(fetched(&m.update(playing("b", Some("u/b")))), ["u/b"]);
    assert_eq!(m.album_art_path, None);
    m.update(art("/c/b"));
    assert!(m.update(Message::PlayerState(PlayerState::Stopped)).is_empty());
    assert_eq!(m.album_art_path, None);
    assert_eq!(m.art_track_id, "");
    assert!(matches!(m.player, PlayerState::Stopped));
}

#[test]
fn no_art_is_fetched_without_id_address_or_wish() {
    let mut m = applet();
    assert!(m.update(playing("", Some("u/a"))).is_empty());
    assert!(m.update(playing("a", None)).is_empty());
    m.config.show_album_art = false;
    assert!(m.update(playing("b", Some("u/b"))).is_empty());
}

#[test]
fn showing_the_settings_asks_nothing() {
    let mut m = applet();
    m.update(playing("a", Some("u/a")));
    assert!(m.update(Message::ToggleSettings).is_empty());
    assert!(m.show_settings);
    assert!(m.update(Message::ToggleSettings).is_empty());
    assert!(!m.show_settings);
}

#[test]
fn art_switched_off_and_on() {
    let mut m = applet();
    m.update(playing("a", Some("u/a")));
    m.update(art("/c/a"));
    let effects = m.update(Message::ToggleShowAlbumArt);
    assert_eq!(effects.len(), 1);
    saves_current(&m, &effects);
    assert!(!m.config.show_album_art);
    assert_eq!(m.album_art_path, None);
    let effects = m.update(Message::ToggleShowAlbumArt);
    assert_eq!(effects.len(), 2);
    saves_current(&m, &effects);
    assert_eq!(fetched(&effects), ["u/a"]);
    assert!(m.config.show_album_art);
    m.update(Message::PlayerState(PlayerState::NotRunning));
    m.update(Message::ToggleShowAlbumArt);
    assert_eq!(m.update(Message::ToggleShowAlbumArt).len(), 1);
}

#[test]
fn art_is_accounted_to_the_current_track() {
    let mut m = applet();
    for message in [
        playing("a", Some("u/a")),
        art("/c/a"),
        Message::ToggleShowAlbumArt,
        playing("b", None),
        Message::Tick,
        Message::PlayerState(PlayerState::NotRunning),
    ] {
        m.update(message);
        let current = match &m.player {
            PlayerState::Active(t) => t.track_id.clone(),
            _ => String::new(),
        };
        assert_eq!(m.art_track_id, current);
    }
}

#[test]
fn every_setting_is_saved() {
    let mut m = applet();
    let e = m.update(Message::SetPanelDisplay("icon_only".to_string()));
    saves_current(&m, &e);
    assert_eq!(m.config.panel_display, "icon_only");
    let e = m.update(Message::SetIconStyle("spotify_colored".to_string()));
    saves_current(&m, &e);
    assert_eq!(m.config.icon_style, "spotify_colored");
    let e = m.update(Message::SetMaxLabelChars(60));
    saves_current(&m, &e);
    assert_eq!(m.config.max_label_chars, 60);
    let e = m.update(Message::SetPollInterval(10));
    saves_current(&m, &e);
    assert_eq!(m.config.poll_interval_secs, 10);
    assert_eq!(m.subscription(), 10);
    let e = m.update(Message::ToggleShowPlayPanel);
    saves_current(&m, &e);
    assert!(!m.config.show_play_panel);
    let e = m.update(Message::ToggleShowNextPanel);
    saves_current(&m, &e);
    assert!(!m.config.show_next_panel);
    let e = m.update(Message::ToggleShowPrevPanel);
    saves_current(&m, &e);
    assert!(m.config.show_prev_panel);
}

#[test]
fn switches_undo_themselves() {
    let mut m = applet();
    let before = shown(&m);
    for message in [
        Message::ToggleSettings,
        Message::ToggleShowPlayPanel,
        Message::ToggleShowNextPanel,
        Message::ToggleShowPrevPanel,
        Message::ToggleShowAlbumArt,
    ] {
        m.update(message.clone());
        assert_ne!(shown(&m), before);
        m.update(message);
        assert_eq!(shown(&m), before);
    }
}

#[test]
fn later_choice_counts() {
    let mut a = applet();
    a.update(Message::SetMaxLabelChars(20));
    a.update(Message::SetMaxLabelChars(30));
    let mut b = applet();
    b.update(Message::SetMaxLabelChars(30));
    assert_eq!(shown(&a), shown(&b));
}

#[test]
fn icon_raises_then_minimizes() {
    let mut m = applet();
    match &m.update(Message::RaiseSpotify)[0] {
        Effect::RequestToken { app_id, line } => {
            assert_eq!(*app_id, "com.krul.CosmicAppletSpotify");
            assert_eq!(line, "flatpak run com.spotify.Client");
        }
        _ => panic!("no token asked for"),
    }
    match &m.update(token(Some("tok")))[0] {
        Effect::Run(c) => {
            assert_eq!(c.program, "sh");
            assert_eq!(c.args, ["-c", "flatpak run com.spotify.Client"]);
            assert_eq!(c.env, [("XDG_ACTIVATION_TOKEN".to_string(), "tok".to_string())]);
        }
        _ => panic!("nothing run"),
    }
    m.update(focus("spotify", true));
    let effects = m.update(Message::RaiseSpotify);
    assert_eq!(effects.len(), 1);
    match &effects[0] {
        Effect::Window(TopCmd::Minimize(app_id)) => assert_eq!(app_id, "spotify"),
        _ => panic!("not minimized"),
    }
    m.update(focus("spotify", false));
    assert!(matches!(m.update(Message::RaiseSpotify)[0], Effect::RequestToken { .. }));
}

#[test]
fn refused_token_still_starts_spotify() {
    match &applet().update(token(None))[0] {
        Effect::Run(c) => assert!(c.env.is_empty()),
        _ => panic!("nothing run"),
    }
}

#[test]
fn focus_of_other_windows_is_ignored() {
    let mut m = applet();
    m.update(focus("firefox", true));
    assert!(!m.spotify_activated);
    m.update(Message::Toplevel(TopUpdate::Init));
    assert!(!m.spotify_activated);
}

#[test]
fn applet_follows_the_window_tracker() {
    let mut m = applet();
    let mut d = AppData::new("spotify".to_string());
    d.registry_global(1, "zcosmic_toplevel_info_v1", 2);
    d.toplevel_opened(5);
    d.request_cosmic_for_foreign(5, 50);
    d.foreign_event(5, ForeignEvent::AppId("spotify".to_string()));
    for (raw, active) in [(ACTIVATED.to_vec(), true), (Vec::new(), false)] {
        d.cosmic_event(50, CosmicEvent::State(raw), ACTIVATED);
        if let Some(update) = d.cosmic_event(50, CosmicEvent::Done, ACTIVATED) {
            m.update(Message::Toplevel(update));
        }
        assert_eq!(m.spotify_activated, active);
    }
}
