use std::path::PathBuf;

use cosmic_ext_applet_spotify::config::AppConfig;
use cosmic_ext_applet_spotify::message::Message;
use cosmic_ext_applet_spotify::model::AppModel;
use cosmic_ext_applet_spotify::player::{PlayerState, TrackInfo};
use cosmic_ext_applet_spotify::popup::{build_main_view, popup_view};
use cosmic_ext_applet_spotify::settings::build_settings_view;
use cosmic_ext_applet_spotify::widget::{Axis, ButtonClass, Cell, Section};

fn applet(player: PlayerState) -> AppModel {
    let mut m = AppModel::init(AppConfig::default()).0;
    m.player = player;
    m
}

fn track() -> TrackInfo {
    let mut t = TrackInfo::default();
    t.title = "Sinnerman".to_string();
    t.artist = "Nina Simone".to_string();
    t.album = "Pastel Blues".to_string();
    t.position_us = 65_000_000;
    t.length_us = 620_000_000;
    t
}

fn texts(section: &Section) -> Vec<String> {
    let mut found = Vec::new();
    if let Section::Strip { cells, .. } = section {
        for cell in cells {
            match cell {
                Cell::Text { text, .. } => found.push(text.clone()),
                Cell::IconButton { icon, .. } => found.push(icon.to_string()),
                Cell::Button { label, .. } => found.push(label.to_string()),
                Cell::Space => found.push(String::new()),
            }
        }
    }
    found
}

fn padding(section: &Section) -> [u16; 4] {
    match section {
        Section::Strip { layout, .. } => {
            let p = layout.padding;
            [p.top, p.right, p.bottom, p.left]
        }
        _ => panic!("no strip"),
    }
}

fn press(m: &AppModel, section: usize, cell: usize) -> Option<Message> {
    match build_settings_view(m).swap_remove(section) {
        Section::Strip { mut cells, .. } => match cells.swap_remove(cell) {
            Cell::Button { on_press, .. } => on_press,
            _ => panic!("no button"),
        },
        _ => panic!("no strip"),
    }
}

#[test]
fn popup_of_a_player_that_does_not_run() {
    let m = applet(PlayerState::NotRunning);
    let v = build_main_view(&m, "1.2.3");
    assert_eq!(v.len(), 3);
    assert_eq!(texts(&v[0]), ["Spotify", "preferences-system-symbolic"]);
    assert_eq!(padding(&v[0]), [8, 12, 4, 12]);
    assert_eq!(texts(&v[1]), ["Spotify is not running", "Launch Spotify"]);
    assert_eq!(texts(&v[2]), ["", "v1.2.3"]);
    assert_eq!(padding(&v[2]), [4, 12, 4, 12]);
}

#[test]
fn popup_of_a_stopped_player() {
    let m = applet(PlayerState::Stopped);
    let v = build_main_view(&m, "1");
    assert_eq!(v.len(), 3);
    assert_eq!(texts(&v[1]), ["Stopped", "media-playback-start-symbolic"]);
    match &v[1] {
        Section::Strip { layout, cells } => {
            assert_eq!(layout.axis, Axis::Column);
            assert_eq!(layout.spacing, 8);
            assert!(matches!(cells[1], Cell::IconButton { size: 22, .. }));
        }
        _ => panic!("no strip"),
    }
}

#[test]
fn popup_of_a_track() {
    let mut m = applet(PlayerState::Active(track()));
    m.album_art_path = Some(PathBuf::from("/c/a.jpg"));
    let v = build_main_view(&m, "1");
    assert_eq!(v.len(), 6);
    match &v[1] {
        Section::Art { path, height } => {
            assert_eq!(**path, PathBuf::from("/c/a.jpg"));
            assert_eq!(*height, 280);
        }
        _ => panic!("no art"),
    }
    assert_eq!(texts(&v[2]), ["Sinnerman", "Nina Simone", "Pastel Blues"]);
    assert_eq!(texts(&v[3]), ["1:05 / 10:20"]);
    assert_eq!(
        texts(&v[4]),
        [
            "media-skip-backward-symbolic",
            "media-playback-start-symbolic",
            "media-skip-forward-symbolic"
        ]
    );
    match &v[4] {
        Section::Strip { layout, cells } => {
            assert!(layout.fill_centered);
            assert_eq!(layout.spacing, 12);
            match &cells[1] {
                Cell::IconButton { size, class, on_press, .. } => {
                    assert_eq!(*size, 28);
                    assert_eq!(*class, ButtonClass::Suggested);
                    assert!(matches!(on_press, Message::PlayPause));
                }
                _ => panic!("no button"),
            }
        }
        _ => panic!("no strip"),
    }
}

#[test]
fn popup_while_art_is_loading() {
    let m = applet(PlayerState::Active(track()));
    let v = build_main_view(&m, "1");
    assert!(matches!(v[1], Section::Placeholder { text: "♪", size: 48, height: 120 }));
}

#[test]
fn popup_without_art_length_or_artist() {
    let mut t = track();
    t.artist = String::new();
    t.length_us = 0;
    let mut m = applet(PlayerState::Active(t));
    m.config.show_album_art = false;
    m.album_art_path = Some(PathBuf::from("/c/a.jpg"));
    let v = build_main_view(&m, "1");
    assert_eq!(v.len(), 4);
    assert_eq!(texts(&v[1]), ["Sinnerman", "Unknown artist", "Pastel Blues"]);
    assert_eq!(texts(&v[2])[0], "media-skip-backward-symbolic");
}

#[test]
fn settings_take_the_place_of_the_track() {
    let mut m = applet(PlayerState::Stopped);
    assert_eq!(texts(&popup_view(&m, "1")[0])[0], "Spotify");
    m.update(Message::ToggleSettings);
    assert_eq!(texts(&popup_view(&m, "1")[0]), ["← Back", "", "Settings"]);
    m.update(press(&m, 0, 0).unwrap());
    assert_eq!(texts(&popup_view(&m, "1")[0])[0], "Spotify");
}

#[test]
fn settings_list_every_choice() {
    let m = applet(PlayerState::NotRunning);
    let v = build_settings_view(&m);
    assert_eq!(v.len(), 11);
    assert_eq!(texts(&v[1]), ["Panel label"]);
    assert_eq!(texts(&v[2]), ["Icon only", "Icon + Track", "Artist + Track"]);
    assert_eq!(texts(&v[3]), ["Label max chars: 40", "20", "30", "40", "60", "∞"]);
    assert_eq!(texts(&v[4]), ["Panel controls"]);
    assert_eq!(texts(&v[5]), ["Play/pause: ON", "Next: ON", "Prev: OFF"]);
    assert_eq!(texts(&v[6]), ["Panel icon"]);
    assert_eq!(texts(&v[7]), ["♪ Note (B&W)", "Spotify (color)", "Spotify (B&W)"]);
    assert_eq!(texts(&v[8]), ["Album art in popup: ON"]);
    assert_eq!(texts(&v[9]), ["Refresh interval"]);
    assert_eq!(texts(&v[10]), ["1s", "3s", "5s", "10s"]);
    assert_eq!(padding(&v[10]), [2, 12, 8, 12]);
}

#[test]
fn settings_show_what_is_set() {
    let mut m = applet(PlayerState::NotRunning);
    m.config.max_label_chars = 0;
    m.config.show_play_panel = false;
    m.config.show_next_panel = false;
    m.config.show_prev_panel = true;
    m.config.show_album_art = false;
    let v = build_settings_view(&m);
    assert_eq!(texts(&v[3])[0], "Label max chars: ∞");
    assert_eq!(texts(&v[5]), ["Play/pause: OFF", "Next: OFF", "Prev: ON"]);
    assert_eq!(texts(&v[8]), ["Album art in popup: OFF"]);
}

#[test]
fn choice_in_force_cannot_be_pressed() {
    let m = applet(PlayerState::NotRunning);
    let inert = [(2, 2), (3, 3), (7, 0), (10, 1)];
    for (section, cells) in [(2, 0..3), (3, 1..6), (7, 0..3), (10, 0..4)] {
        for cell in cells {
            let expected = inert.contains(&(section, cell));
            assert_eq!(press(&m, section, cell).is_none(), expected);
        }
    }
}

#[test]
fn pressed_choice_is_in_force() {
    for (section, cells) in [(2, 0..3), (3, 1..6), (7, 0..3), (10, 0..4)] {
        for cell in cells {
            let mut m = applet(PlayerState::NotRunning);
            if let Some(message) = press(&m, section, cell) {
                let before = format!("{:?}", m.config);
                m.update(message);
                assert_ne!(format!("{:?}", m.config), before);
                assert!(press(&m, section, cell).is_none());
            }
        }
    }
}
