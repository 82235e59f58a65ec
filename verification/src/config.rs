//! The settings of the applet.
use vstd::prelude::*;
use vstd::string::*;

verus! {

/// What the user can set.
#[derive(Debug)]
pub struct AppConfig {
    /// "icon_only" | "icon_track" | "icon_artist_track"
    pub panel_display: String,
    /// Show play/pause button in panel
    pub show_play_panel: bool,
    /// Show next button in panel
    pub show_next_panel: bool,
    /// Show previous button in panel
    pub show_prev_panel: bool,
    /// Max characters for panel label before truncation (0 = no limit)
    pub max_label_chars: usize,
    /// "note_symbolic" | "spotify_colored" | "spotify_symbolic"
    pub icon_style: String,
    /// Fetch and display album art in popup
    pub show_album_art: bool,
    /// D-Bus poll interval in seconds
    pub poll_interval_secs: u32,
}

/// The settings as plain mathematical values.
#[verifier::ext_equal]
pub struct AppConfigView {
    pub panel_display: Seq<char>,
    pub show_play_panel: bool,
    pub show_next_panel: bool,
    pub show_prev_panel: bool,
    pub max_label_chars: usize,
    pub icon_style: Seq<char>,
    pub show_album_art: bool,
    pub poll_interval_secs: u32,
}

impl View for AppConfig {
    type V = AppConfigView;

    open spec fn view(&self) -> AppConfigView {
        AppConfigView {
            panel_display: self.panel_display@,
            show_play_panel: self.show_play_panel,
            show_next_panel: self.show_next_panel,
            show_prev_panel: self.show_prev_panel,
            max_label_chars: self.max_label_chars,
            icon_style: self.icon_style@,
            show_album_art: self.show_album_art,
            poll_interval_secs: self.poll_interval_secs,
        }
    }
}

impl AppConfigView {
    /// The settings of a fresh installation.
    pub open spec fn fresh() -> AppConfigView {
        AppConfigView {
            panel_display: "icon_artist_track"@,
            show_play_panel: true,
            show_next_panel: true,
            show_prev_panel: false,
            max_label_chars: 40,
            icon_style: "note_symbolic"@,
            show_album_art: true,
            poll_interval_secs: 3,
        }
    }
}

impl Default for AppConfig {
    fn default() -> (config: Self)
        ensures
            config@ == AppConfigView::fresh(),
    {
        AppConfig {
            panel_display: "icon_artist_track".to_string(),
            show_play_panel: true,
            show_next_panel: true,
            show_prev_panel: false,
            max_label_chars: 40,
            icon_style: "note_symbolic".to_string(),
            show_album_art: true,
            poll_interval_secs: 3,
        }
    }
}

impl Clone for AppConfig {
    fn clone(&self) -> (copy: Self)
        ensures
            copy == *self,
    {
        AppConfig {
            panel_display: self.panel_display.clone(),
            show_play_panel: self.show_play_panel,
            show_next_panel: self.show_next_panel,
            show_prev_panel: self.show_prev_panel,
            max_label_chars: self.max_label_chars,
            icon_style: self.icon_style.clone(),
            show_album_art: self.show_album_art,
            poll_interval_secs: self.poll_interval_secs,
        }
    }
}

/// The settings the applet starts with: those that the settings file holds, or the
/// settings of a fresh installation where the file could not be read or understood.
pub fn load_config(stored: Option<AppConfig>) -> (config: AppConfig)
    ensures
        stored matches Some(c) ==> config == c,
        stored is None ==> config@ == AppConfigView::fresh(),
{
    match stored {
        Some(c) => c,
        None => AppConfig::default(),
    }
}

/// A fresh installation shows artist and title in at most 40 characters, the note as
/// icon, play/pause and next but not previous, and album art; it asks the player every
/// three seconds.
pub proof fn law_fresh_settings()
    ensures
        AppConfigView::fresh().panel_display == "icon_artist_track"@,
        AppConfigView::fresh().show_play_panel,
        AppConfigView::fresh().show_next_panel,
        !AppConfigView::fresh().show_prev_panel,
        AppConfigView::fresh().max_label_chars == 40,
        AppConfigView::fresh().icon_style == "note_symbolic"@,
        AppConfigView::fresh().show_album_art,
        AppConfigView::fresh().poll_interval_secs == 3,
{
}

/// Settings that are stored are the settings the applet starts with, as they are.
pub proof fn law_stored_settings_are_used(stored: Option<AppConfig>, config: AppConfig)
    requires
        call_ensures(load_config, (stored,), config),
    ensures
        stored matches Some(c) ==> config@ == c@,
        stored is None ==> config@ == AppConfigView::fresh(),
{
}

} // verus!
