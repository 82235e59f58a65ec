use cosmic_ext_applet_spotify::config::AppConfig;
use cosmic_ext_applet_spotify::message::{Effect, Message, SurfaceAction};
use cosmic_ext_applet_spotify::model::AppModel;
use cosmic_ext_applet_spotify::panel::{PanelItem, Tooltip};
use cosmic_ext_applet_spotify::player::{PlayerState, TrackInfo};

fn applet(player: PlayerState) -> AppModel {
    let mut m = AppModel::init(AppConfig::default()).0;
    m.player = player;
    m
}

fn active(title: &str, is_playing: bool) -> PlayerState {
    let mut t = TrackInfo::default();
    t.title = title.to_string();
    t.is_playing = is_playing;
    PlayerState::Active(t)
}

fn icon_buttons(m: &AppModel) -> Vec<(&'static str, u16, u16, u16, String)> {
    let mut buttons = Vec::new();
    for item in m.panel_view(5, 24) {
        if let PanelItem::IconButton { icon, icon_size, v_pad, h_pad, on_press, .. } = item {
            buttons.push((icon, icon_size, v_pad, h_pad, format!("{:?}", on_press)));
        }
    }
    buttons
}

fn popup_button(m: &AppModel) -> (Option<String>, Message, bool) {
    match m.panel_view(5, 24).swap_remove(1) {
        PanelItem::PopupButton { label, v_pad, h_pad, on_press, tooltip } => {
            assert_eq!((v_pad, h_pad), (5, 6));
            assert_eq!(tooltip.text, "Spotify");
            (label, on_press, tooltip.has_popup)
        }
        _ => panic!("no popup button"),
    }
}

fn tooltips(m: &AppModel) -> Vec<Option<(&'static str, bool)>> {
    let mut found = Vec::new();
    for item in m.panel_view(5, 24) {
        let tooltip: Option<Tooltip> = match item {
            PanelItem::IconButton { tooltip, .. } => tooltip,
            PanelItem::PopupButton { tooltip, .. } => Some(tooltip),
        };
        found.push(tooltip.map(|t| (t.text, t.has_popup)));
    }
    found
}

#[test]
fn icon_and_label_share_the_tooltip() {
    let mut m = applet(active("Song", true));
    m.config.show_prev_panel = true;
    let shown = Some(("Spotify", false));
    assert_eq!(tooltips(&m), [shown, shown, None, None, None]);
    m.popup_opened(4);
    let held_back = Some(("Spotify", true));
    assert_eq!(tooltips(&m), [held_back, held_back, None, None, None]);
    m.player = PlayerState::Stopped;
    assert_eq!(tooltips(&m)[0], held_back);
    m.player = PlayerState::NotRunning;
    assert_eq!(tooltips(&m), [None]);
}

#[test]
fn idle_panel_only_launches() {
    let m = applet(PlayerState::NotRunning);
    assert_eq!(m.panel_view(5, 24).len(), 1);
    assert_eq!(
        icon_buttons(&m),
        [("audio-x-generic-symbolic", 24, 5, 8, "LaunchSpotify".to_string())]
    );
}

#[test]
fn running_panel_raises_and_controls() {
    let mut m = applet(active("Song", true));
    m.config.show_prev_panel = true;
    assert_eq!(
        icon_buttons(&m),
        [
            ("audio-x-generic-symbolic", 24, 5, 6, "RaiseSpotify".to_string()),
            ("media-skip-backward-symbolic", 14, 5, 4, "Previous".to_string()),
            ("media-playback-pause-symbolic", 14, 5, 4, "PlayPause".to_string()),
            ("media-skip-forward-symbolic", 14, 5, 4, "Next".to_string()),
        ]
    );
    m.player = active("Song", false);
    assert_eq!(icon_buttons(&m)[2].0, "media-playback-start-symbolic");
}

#[test]
fn everything_to_press_in_the_panel() {
    let mut m = applet(active("Song", true));
    m.config.show_play_panel = false;
    m.popup_opened(7);
    let mut messages = Vec::new();
    for item in m.panel_view(5, 24) {
        messages.push(match item {
            PanelItem::IconButton { on_press, .. } => format!("{:?}", on_press),
            PanelItem::PopupButton { on_press, .. } => format!("{:?}", on_press),
        });
    }
    assert_eq!(messages, ["RaiseSpotify", "Surface(DestroyPopup(7))", "Next"]);
}

#[test]
fn hidden_controls_are_not_in_the_panel() {
    let mut m = applet(PlayerState::Stopped);
    m.config.show_play_panel = false;
    m.config.show_next_panel = false;
    assert_eq!(m.panel_view(5, 24).len(), 2);
    m.config.show_play_panel = true;
    assert_eq!(icon_buttons(&m)[1].0, "media-playback-start-symbolic");
}

#[test]
fn label_opens_and_closes_the_popup() {
    let mut m = applet(active("Song", true));
    let (label, press, has_popup) = popup_button(&m);
    assert_eq!(label, Some("Song".to_string()));
    assert!(!has_popup);
    assert!(matches!(m.update(press)[0], Effect::Surface(SurfaceAction::OpenPopup)));
    m.popup_opened(4);
    let (_, press, has_popup) = popup_button(&m);
    assert!(has_popup);
    assert!(matches!(m.update(press)[0], Effect::Surface(SurfaceAction::DestroyPopup(4))));
    assert_eq!(m.popup, Some(4));
}

#[test]
fn label_is_missing_where_there_is_nothing_to_show() {
    assert_eq!(popup_button(&applet(PlayerState::Stopped)).0, None);
    assert_eq!(popup_button(&applet(active("", true))).0, None);
    let mut m = applet(active("Song", true));
    m.config.panel_display = "icon_only".to_string();
    assert_eq!(popup_button(&m).0, None);
    assert!(m.is_playing());
    assert!(!applet(PlayerState::Stopped).is_playing());
}
