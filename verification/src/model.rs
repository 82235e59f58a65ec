//! The state of the applet, and how messages change it.
use std::path::PathBuf;
use vstd::prelude::*;
use vstd::string::*;

use crate::command::{
    launch, launch_command, shell_command, shell_line, CommandView, RAISE_EXEC,
};
use crate::config::{AppConfig, AppConfigView};
use crate::message::{effects, Effect, EffectView, Message, MessageView, SurfaceAction};
use crate::player::{copy_opt_text, PlayerState, PlayerStateView};
use crate::text::same_text;
use crate::toplevel::{AppDataView, TopCmd, TopCmdView, TopUpdate, TopUpdateView};

verus! {

/// The id under which the applet is known to the desktop.
pub const APP_ID: &'static str = "com.krul.CosmicAppletSpotify";

/// The id that Spotify's windows carry.
pub const SPOTIFY_APP_ID: &'static str = "spotify";

/// The state of the applet.
#[derive(Debug)]
pub struct AppModel {
    pub popup: Option<u64>,
    pub config: AppConfig,
    pub player: PlayerState,
    pub show_settings: bool,
    /// Cached art path that arrived last, dropped when the track changes or art is
    /// switched off
    pub album_art_path: Option<PathBuf>,
    /// Track id to which the art is accounted (avoids re-fetching art that is at hand)
    pub art_track_id: String,
    /// Whether a window of Spotify has the focus
    pub spotify_activated: bool,
}

/// The state of the applet as plain mathematical values.
#[verifier::ext_equal]
pub struct AppModelView {
    pub popup: Option<u64>,
    pub config: AppConfigView,
    pub player: PlayerStateView,
    pub show_settings: bool,
    pub album_art_path: Option<PathBuf>,
    pub art_track_id: Seq<char>,
    pub spotify_activated: bool,
}

impl View for AppModel {
    type V = AppModelView;

    open spec fn view(&self) -> AppModelView {
        AppModelView {
            popup: self.popup,
            config: self.config@,
            player: self.player@,
            show_settings: self.show_settings,
            album_art_path: self.album_art_path,
            art_track_id: self.art_track_id@,
            spotify_activated: self.spotify_activated,
        }
    }
}

impl AppModelView {
    /// The applet as it starts, with the settings it was given.
    pub open spec fn start(config: AppConfigView) -> AppModelView {
        AppModelView {
            popup: None,
            config,
            player: PlayerStateView::NotRunning,
            show_settings: false,
            album_art_path: None,
            art_track_id: Seq::empty(),
            spotify_activated: false,
        }
    }

    /// The track id to which the art is accounted is that of the current track. It is
    /// the id that is accounted: a path that arrives late, after the track has changed,
    /// is taken for the new track.
    pub open spec fn well_formed(self) -> bool {
        self.art_track_id == self.player.track_id()
    }

    /// The applet with other settings, which are saved at once.
    pub open spec fn configured(self, config: AppConfigView) -> (AppModelView, Seq<EffectView>) {
        (AppModelView { config, ..self }, seq![EffectView::SaveConfig(config)])
    }

    /// The applet once the player's state is known. Art of another track is dropped.
    pub open spec fn with_player(self, state: PlayerStateView) -> AppModelView {
        AppModelView {
            player: state,
            album_art_path: if state.track_id() == self.art_track_id {
                self.album_art_path
            } else {
                None
            },
            art_track_id: state.track_id(),
            ..self
        }
    }

    /// What to fetch after the player's state became known: the art of the current
    /// track, where art is shown, none is there yet, and the track has an id.
    pub open spec fn missing_art(self) -> Seq<EffectView> {
        match self.player.art_url() {
            Some(url) => if self.config.show_album_art && self.album_art_path is None
                && self.art_track_id.len() > 0 {
                seq![EffectView::FetchArt(url)]
            } else {
                seq![]
            },
            None => seq![],
        }
    }

    /// The applet with album art switched: on, the art of the current track is fetched;
    /// off, the art is dropped.
    pub open spec fn art_toggled(self) -> (AppModelView, Seq<EffectView>) {
        let on = !self.config.show_album_art;
        let config = AppConfigView { show_album_art: on, ..self.config };
        let saved = seq![EffectView::SaveConfig(config)];
        if on {
            (
                AppModelView { config, ..self },
                match self.player.art_url() {
                    Some(url) => saved.push(EffectView::FetchArt(url)),
                    None => saved,
                },
            )
        } else {
            (AppModelView { config, album_art_path: None, ..self }, saved)
        }
    }

    /// What a message makes of the applet, and the effects it asks for.
    pub open spec fn after(self, message: MessageView) -> (AppModelView, Seq<EffectView>) {
        match message {
            MessageView::PopupClosed(id) => (
                AppModelView {
                    popup: if self.popup == Some(id) {
                        None
                    } else {
                        self.popup
                    },
                    ..self
                },
                seq![],
            ),
            MessageView::Surface(action) => (self, seq![EffectView::Surface(action)]),
            MessageView::Tick => (self, seq![EffectView::QueryPlayer]),
            MessageView::PlayerState(state) => (
                self.with_player(state),
                self.with_player(state).missing_art(),
            ),
            MessageView::AlbumArt(path) => (AppModelView { album_art_path: path, ..self }, seq![]),
            MessageView::PlayPause => (
                self,
                seq![EffectView::PlayerCall { method: "PlayPause"@, wait_ms: 150 }],
            ),
            MessageView::Next => (
                self,
                seq![EffectView::PlayerCall { method: "Next"@, wait_ms: 300 }],
            ),
            MessageView::Previous => (
                self,
                seq![EffectView::PlayerCall { method: "Previous"@, wait_ms: 300 }],
            ),
            MessageView::LaunchSpotify => (self, seq![EffectView::Run(launch())]),
            MessageView::RaiseSpotify => (
                self,
                if self.spotify_activated {
                    seq![EffectView::Window(TopCmdView::Minimize(SPOTIFY_APP_ID@))]
                } else {
                    seq![EffectView::RequestToken { app_id: APP_ID@, line: RAISE_EXEC@ }]
                },
            ),
            MessageView::Toplevel(update) => (
                match update {
                    TopUpdateView::AppActivated { app_id, active } => if app_id
                        == SPOTIFY_APP_ID@ {
                        AppModelView { spotify_activated: active, ..self }
                    } else {
                        self
                    },
                    TopUpdateView::Init => self,
                },
                seq![],
            ),
            MessageView::ActivationToken { token, line } => (
                self,
                seq![EffectView::Run(shell_line(line, token))],
            ),
            MessageView::ToggleSettings => (
                AppModelView { show_settings: !self.show_settings, ..self },
                seq![],
            ),
            MessageView::SetPanelDisplay(v) => self.configured(
                AppConfigView { panel_display: v, ..self.config },
            ),
            MessageView::SetIconStyle(v) => self.configured(
                AppConfigView { icon_style: v, ..self.config },
            ),
            MessageView::ToggleShowPlayPanel => self.configured(
                AppConfigView { show_play_panel: !self.config.show_play_panel, ..self.config },
            ),
            MessageView::ToggleShowNextPanel => self.configured(
                AppConfigView { show_next_panel: !self.config.show_next_panel, ..self.config },
            ),
            MessageView::ToggleShowPrevPanel => self.configured(
                AppConfigView { show_prev_panel: !self.config.show_prev_panel, ..self.config },
            ),
            MessageView::ToggleShowAlbumArt => self.art_toggled(),
            MessageView::SetMaxLabelChars(n) => self.configured(
                AppConfigView { max_label_chars: n, ..self.config },
            ),
            MessageView::SetPollInterval(s) => self.configured(
                AppConfigView { poll_interval_secs: s, ..self.config },
            ),
        }
    }
}

impl AppModel {
    /// Starts the applet, and asks for the state of the player.
    pub fn init(config: AppConfig) -> (r: (AppModel, Vec<Effect>))
        ensures
            r.0@ == AppModelView::start(config@),
            r.0@.well_formed(),
            effects(r.1@) == seq![EffectView::QueryPlayer],
    {
        let model = AppModel {
            popup: None,
            config,
            player: PlayerState::NotRunning,
            show_settings: false,
            album_art_path: None,
            art_track_id: String::new(),
            spotify_activated: false,
        };
        let asked = vec![Effect::QueryPlayer];
        assert(model@ =~= AppModelView::start(model.config@));
        assert(effects(asked@) =~= seq![EffectView::QueryPlayer]);
        (model, asked)
    }

    /// The message for a window that asks to be closed.
    pub fn on_close_requested(&self, id: u64) -> (message: Message)
        ensures
            message@ == MessageView::PopupClosed(id),
    {
        Message::PopupClosed(id)
    }

    /// The seconds between two ticks.
    pub fn subscription(&self) -> (secs: u64)
        ensures
            secs == self@.config.poll_interval_secs,
    {
        self.config.poll_interval_secs as u64
    }

    /// Notes the window of the popup that is being opened.
    pub fn popup_opened(&mut self, id: u64)
        ensures
            final(self)@ == (AppModelView { popup: Some(id), ..old(self)@ }),
    {
        self.popup = Some(id);
    }

    fn saved(&self) -> (r: Vec<Effect>)
        ensures
            effects(r@) == seq![EffectView::SaveConfig(self@.config)],
    {
        let r = vec![Effect::SaveConfig(self.config.clone())];
        assert(effects(r@) =~= seq![EffectView::SaveConfig(self@.config)]);
        r
    }

    fn player_changed(&mut self, state: PlayerState) -> (r: Vec<Effect>)
        ensures
            final(self)@ == old(self)@.with_player(state@),
            effects(r@) == old(self)@.with_player(state@).missing_art(),
    {
        let new_id = match &state {
            PlayerState::Active(t) => t.track_id.clone(),
            _ => String::new(),
        };
        let new_art_url = match &state {
            PlayerState::Active(t) => copy_opt_text(&t.art_url),
            _ => None,
        };
        // Clear art if track changed or Spotify stopped
        if !same_text(new_id.as_str(), self.art_track_id.as_str()) {
            self.album_art_path = None;
            self.art_track_id = new_id;
        }
        self.player = state;
        let ghost after = old(self)@.with_player(state@);
        assert(self@ =~= after);
        let mut r: Vec<Effect> = Vec::new();
        // Fetch art if needed
        if self.config.show_album_art && self.album_art_path.is_none()
            && !self.art_track_id.as_str().is_empty() {
            if let Some(url) = new_art_url {
                r.push(Effect::FetchArt(url));
            }
        }
        assert(effects(r@) =~= after.missing_art());
        r
    }

    fn toggle_art(&mut self) -> (r: Vec<Effect>)
        ensures
            (final(self)@, effects(r@)) == old(self)@.art_toggled(),
    {
        self.config.show_album_art = !self.config.show_album_art;
        let mut r = self.saved();
        if self.config.show_album_art {
            // Re-fetch art for current track
            if let PlayerState::Active(t) = &self.player {
                if let Some(url) = &t.art_url {
                    r.push(Effect::FetchArt(url.clone()));
                }
            }
        } else {
            self.album_art_path = None;
        }
        assert(self@ =~= old(self)@.art_toggled().0);
        assert(effects(r@) =~= old(self)@.art_toggled().1);
        r
    }

    /// Takes a message: changes the state, and says what is to be done.
    pub fn update(&mut self, message: Message) -> (r: Vec<Effect>)
        ensures
            (final(self)@, effects(r@)) == old(self)@.after(message@),
    {
        let ghost expected = old(self)@.after(message@);
        let r: Vec<Effect> = match message {
            Message::PopupClosed(id) => {
                if let Some(popup) = self.popup {
                    if popup == id {
                        self.popup = None;
                    }
                }
                Vec::new()
            },
            Message::Surface(action) => vec![Effect::Surface(action)],
            Message::Tick => vec![Effect::QueryPlayer],
            Message::PlayerState(state) => self.player_changed(state),
            Message::AlbumArt(path) => {
                self.album_art_path = path;
                Vec::new()
            },
            Message::PlayPause => vec![Effect::PlayerCall { method: "PlayPause", wait_ms: 150 }],
            Message::Next => vec![Effect::PlayerCall { method: "Next", wait_ms: 300 }],
            Message::Previous => vec![Effect::PlayerCall { method: "Previous", wait_ms: 300 }],
            Message::LaunchSpotify => vec![Effect::Run(launch_command())],
            Message::RaiseSpotify => {
                if self.spotify_activated {
                    vec![Effect::Window(TopCmd::Minimize(SPOTIFY_APP_ID.to_string()))]
                } else {
                    vec![Effect::RequestToken { app_id: APP_ID, line: RAISE_EXEC.to_string() }]
                }
            },
            Message::Toplevel(update) => {
                if let TopUpdate::AppActivated { app_id, active } = update {
                    if same_text(app_id.as_str(), SPOTIFY_APP_ID) {
                        self.spotify_activated = active;
                    }
                }
                Vec::new()
            },
            Message::ActivationToken { token, line } => vec![
                Effect::Run(shell_command(line, token)),
            ],
            Message::ToggleSettings => {
                self.show_settings = !self.show_settings;
                Vec::new()
            },
            Message::SetPanelDisplay(v) => {
                self.config.panel_display = v;
                self.saved()
            },
            Message::SetIconStyle(v) => {
                self.config.icon_style = v;
                self.saved()
            },
            Message::ToggleShowPlayPanel => {
                self.config.show_play_panel = !self.config.show_play_panel;
                self.saved()
            },
            Message::ToggleShowNextPanel => {
                self.config.show_next_panel = !self.config.show_next_panel;
                self.saved()
            },
            Message::ToggleShowPrevPanel => {
                self.config.show_prev_panel = !self.config.show_prev_panel;
                self.saved()
            },
            Message::ToggleShowAlbumArt => self.toggle_art(),
            Message::SetMaxLabelChars(n) => {
                self.config.max_label_chars = n;
                self.saved()
            },
            Message::SetPollInterval(s) => {
                self.config.poll_interval_secs = s;
                self.saved()
            },
        };
        assert(self@ =~= expected.0);
        assert(effects(r@) =~= expected.1);
        r
    }
}

/// Whatever happens, the track id to which the art is accounted stays that of the
/// current track. Of the path itself nothing is said.
pub proof fn law_art_id_follows_track(m: AppModelView, message: MessageView)
    requires
        m.well_formed(),
    ensures
        m.after(message).0.well_formed(),
{
}

/// The applet after the messages, from its start on.
pub open spec fn after_messages(config: AppConfigView, messages: Seq<MessageView>) -> AppModelView
    decreases messages.len(),
{
    if messages.len() == 0 {
        AppModelView::start(config)
    } else {
        after_messages(config, messages.drop_last()).after(messages.last()).0
    }
}

/// In every state that the applet reaches, the track id to which the art is accounted
/// is that of the current track. Of the path itself nothing is said.
pub proof fn law_art_id_always_follows_track(config: AppConfigView, messages: Seq<MessageView>)
    ensures
        after_messages(config, messages).well_formed(),
    decreases messages.len(),
{
    if messages.len() > 0 {
        law_art_id_always_follows_track(config, messages.drop_last());
        law_art_id_follows_track(
            after_messages(config, messages.drop_last()),
            messages.last(),
        );
    }
}

/// Settings never change without being saved, and what is saved is what is set.
pub proof fn law_settings_are_saved(m: AppModelView, message: MessageView)
    ensures
        m.after(message).0.config != m.config ==> m.after(message).1.contains(
            EffectView::SaveConfig(m.after(message).0.config),
        ),
        forall|i: int|
            0 <= i < m.after(message).1.len() ==> (#[trigger] m.after(
                message,
            ).1[i] matches EffectView::SaveConfig(c) ==> c == m.after(message).0.config),
{
    let (after, asked) = m.after(message);
    if after.config != m.config {
        assert(asked[0] == EffectView::SaveConfig(after.config));
    }
}

/// Pressing a switch twice leaves the settings, and which view the popup shows, as they
/// were.
pub proof fn law_switches_undo_themselves(m: AppModelView, message: MessageView)
    requires
        message is ToggleSettings || message is ToggleShowPlayPanel || message
            is ToggleShowNextPanel || message is ToggleShowPrevPanel || message
            is ToggleShowAlbumArt,
    ensures
        m.after(message).0.after(message).0.config == m.config,
        m.after(message).0.after(message).0.show_settings == m.show_settings,
        !(message is ToggleShowAlbumArt) ==> m.after(message).0.after(message).0 == m,
        message is ToggleShowAlbumArt ==> m.after(message).0.after(message).0 == (AppModelView {
            album_art_path: None,
            ..m
        }),
{
    let twice = m.after(message).0.after(message).0;
    assert(twice.config =~= m.config);
}

/// Of two choices for one setting the later one counts, as if the earlier one had not
/// been made.
pub proof fn law_later_choice_counts(
    m: AppModelView,
    a: Seq<char>,
    b: Seq<char>,
    x: usize,
    y: usize,
    p: u32,
    q: u32,
)
    ensures
        m.after(MessageView::SetPanelDisplay(a)).0.after(MessageView::SetPanelDisplay(b))
            == m.after(MessageView::SetPanelDisplay(b)),
        m.after(MessageView::SetIconStyle(a)).0.after(MessageView::SetIconStyle(b)) == m.after(
            MessageView::SetIconStyle(b),
        ),
        m.after(MessageView::SetMaxLabelChars(x)).0.after(MessageView::SetMaxLabelChars(y))
            == m.after(MessageView::SetMaxLabelChars(y)),
        m.after(MessageView::SetPollInterval(p)).0.after(MessageView::SetPollInterval(q))
            == m.after(MessageView::SetPollInterval(q)),
{
}

/// While the same track is current, the art at hand is kept and not fetched again.
pub proof fn law_art_of_same_track_is_kept(m: AppModelView, state: PlayerStateView)
    requires
        state.track_id() == m.art_track_id,
        m.album_art_path is Some,
    ensures
        m.after(MessageView::PlayerState(state)).0.album_art_path == m.album_art_path,
        m.after(MessageView::PlayerState(state)).1.len() == 0,
{
}

/// While the same track is current, a report asks for its art exactly where art is
/// shown, none is at hand, and the track has an id and an address for it, and asks for
/// nothing otherwise.
pub proof fn law_same_track_fetches_only_missing_art(m: AppModelView, state: PlayerStateView)
    requires
        state.track_id() == m.art_track_id,
    ensures
        m.after(MessageView::PlayerState(state)).1 == (match state.art_url() {
            Some(url) => if m.config.show_album_art && m.album_art_path is None
                && state.track_id().len() > 0 {
                seq![EffectView::FetchArt(url)]
            } else {
                seq![]
            },
            None => seq![],
        }),
{
}

/// Showing or hiding the settings changes what the popup shows and nothing else, and
/// asks for nothing.
pub proof fn law_showing_settings_asks_nothing(m: AppModelView)
    ensures
        m.after(MessageView::ToggleSettings).0 == (AppModelView {
            show_settings: !m.show_settings,
            ..m
        }),
        m.after(MessageView::ToggleSettings).1.len() == 0,
{
}

/// When another track becomes current, or none, the art that was shown is dropped; the
/// art of the new track is fetched, where art is shown and the track has an id and an
/// address for it.
pub proof fn law_art_of_other_track_is_dropped(m: AppModelView, state: PlayerStateView)
    requires
        state.track_id() != m.art_track_id,
    ensures
        m.after(MessageView::PlayerState(state)).0.album_art_path is None,
        m.config.show_album_art && state.track_id().len() > 0 ==> (state.art_url() matches Some(url)
            ==> m.after(MessageView::PlayerState(state)).1 == seq![EffectView::FetchArt(url)]),
        m.config.show_album_art && state.art_url() is None ==> m.after(
            MessageView::PlayerState(state),
        ).1.len() == 0,
{
}

/// Art that arrives while its track is still current is shown, and stays while reports
/// of that track come in, without being fetched again.
pub proof fn law_fetched_art_is_kept(
    m: AppModelView,
    state: PlayerStateView,
    path: PathBuf,
    later: PlayerStateView,
)
    requires
        later.track_id() == state.track_id(),
    ensures
        ({
            let asked = m.after(MessageView::PlayerState(state)).0;
            let arrived = asked.after(MessageView::AlbumArt(Some(path))).0;
            let polled = arrived.after(MessageView::PlayerState(later));
            &&& arrived.album_art_path == Some(path)
            &&& arrived.art_track_id == state.track_id()
            &&& polled.0.album_art_path == Some(path)
            &&& polled.1.len() == 0
        }),
{
}

/// Art is fetched only where art is shown, and only that of the current track.
pub proof fn law_only_shown_art_is_fetched(m: AppModelView, message: MessageView, url: Seq<char>)
    requires
        m.after(message).1.contains(EffectView::FetchArt(url)),
    ensures
        m.after(message).0.config.show_album_art,
        m.after(message).0.player.art_url() == Some(url),
{
    let asked = m.after(message).1;
    let i = choose|i: int| 0 <= i < asked.len() && asked[i] == EffectView::FetchArt(url);
    assert(asked[i] is FetchArt);
}

/// Only a report of the player changes what is known of it, only a message about the
/// popup changes it, and only the window tracker changes who has the focus.
pub proof fn law_each_part_has_its_messages(m: AppModelView, message: MessageView)
    ensures
        !(message is PlayerState) ==> m.after(message).0.player == m.player && m.after(
            message,
        ).0.art_track_id == m.art_track_id,
        message matches MessageView::PlayerState(state) ==> m.after(message).0.player == state,
        !(message is PopupClosed) ==> m.after(message).0.popup == m.popup,
        !(message is ToggleSettings) ==> m.after(message).0.show_settings == m.show_settings,
        !(message is Toplevel) ==> m.after(message).0.spotify_activated == m.spotify_activated,
{
}

/// A popup counts as open until its own window is closed.
pub proof fn law_popup_open_until_closed(m: AppModelView, id: u64)
    ensures
        m.popup == Some(id) ==> m.after(MessageView::PopupClosed(id)).0.popup is None,
        m.popup != Some(id) ==> m.after(MessageView::PopupClosed(id)).0 == m,
{
}

/// Pressing the panel icon raises Spotify, and pressing it again minimizes it. Without
/// the focus the press asks for an activation token, and the answer starts Spotify
/// with the token; once the window tracker has told that Spotify has the focus, the
/// press asks to minimize it; when it has lost the focus, the press raises it again.
pub proof fn law_icon_raises_then_minimizes(m: AppModelView, token: Seq<char>)
    requires
        !m.spotify_activated,
    ensures
        ({
            let press = MessageView::RaiseSpotify;
            let granted = MessageView::ActivationToken { token: Some(token), line: RAISE_EXEC@ };
            let focused = MessageView::Toplevel(
                TopUpdateView::AppActivated { app_id: SPOTIFY_APP_ID@, active: true },
            );
            let lost = MessageView::Toplevel(
                TopUpdateView::AppActivated { app_id: SPOTIFY_APP_ID@, active: false },
            );
            let raise = seq![EffectView::RequestToken { app_id: APP_ID@, line: RAISE_EXEC@ }];
            let minimize = seq![EffectView::Window(TopCmdView::Minimize(SPOTIFY_APP_ID@))];
            let m1 = m.after(press).0;
            let m2 = m1.after(granted).0;
            let m3 = m2.after(focused).0;
            let m4 = m3.after(press).0;
            let m5 = m4.after(lost).0;
            &&& m.after(press).1 == raise
            &&& m1.after(granted).1 == seq![EffectView::Run(shell_line(RAISE_EXEC@, Some(token)))]
            &&& m3.after(press).1 == minimize
            &&& m5.after(press).1 == raise
        }),
{
}

/// The applet after an update of the window tracker, where there was one.
pub open spec fn told(m: AppModelView, update: Option<TopUpdateView>) -> AppModelView {
    match update {
        Some(u) => m.after(MessageView::Toplevel(u)).0,
        None => m,
    }
}

/// Where the tracker watches Spotify and its updates reach the applet, the applet knows
/// at every batch of changes whether a window of Spotify has the focus.
pub proof fn law_applet_knows_the_focus(m: AppModelView, d: AppDataView)
    requires
        d.watch_app_id == SPOTIFY_APP_ID@,
        m.spotify_activated == d.watch_activated,
    ensures
        told(m, d.notice()).spotify_activated == d.watched_is_active(),
        told(m, d.notice()).spotify_activated == d.notified().watch_activated,
{
}

/// Pressing a transport control calls the method of the player that it is named after,
/// and only that; the player is asked again once it had time to react. The applet waits
/// for the answer before it changes.
pub proof fn law_transport_calls_the_player(m: AppModelView)
    ensures
        m.after(MessageView::PlayPause).0 == m,
        m.after(MessageView::PlayPause).1 == seq![
            EffectView::PlayerCall { method: "PlayPause"@, wait_ms: 150 },
        ],
        m.after(MessageView::Next).0 == m,
        m.after(MessageView::Next).1 == seq![
            EffectView::PlayerCall { method: "Next"@, wait_ms: 300 },
        ],
        m.after(MessageView::Previous).0 == m,
        m.after(MessageView::Previous).1 == seq![
            EffectView::PlayerCall { method: "Previous"@, wait_ms: 300 },
        ],
{
}

/// Every tick asks the player, and changes nothing.
pub proof fn law_tick_asks_the_player(m: AppModelView)
    ensures
        m.after(MessageView::Tick).0 == m,
        m.after(MessageView::Tick).1 == seq![EffectView::QueryPlayer],
{
}

/// Launching starts Spotify's Flatpak, and changes nothing.
pub proof fn law_launch_runs_spotify(m: AppModelView)
    ensures
        m.after(MessageView::LaunchSpotify).0 == m,
        m.after(MessageView::LaunchSpotify).1 == seq![
            EffectView::Run(
                CommandView {
                    program: "flatpak"@,
                    args: seq!["run"@, "com.spotify.Client"@],
                    env: seq![],
                },
            ),
        ],
{
}

/// Pressing the icon asks to minimize Spotify where it has the focus, and for a token to
/// raise it where it has not. The press changes nothing of the applet.
pub proof fn law_icon_press_goes_by_focus(m: AppModelView)
    ensures
        m.after(MessageView::RaiseSpotify).0 == m,
        m.spotify_activated ==> m.after(MessageView::RaiseSpotify).1 == seq![
            EffectView::Window(TopCmdView::Minimize("spotify"@)),
        ],
        !m.spotify_activated ==> m.after(MessageView::RaiseSpotify).1 == seq![
            EffectView::RequestToken {
                app_id: "com.krul.CosmicAppletSpotify"@,
                line: "flatpak run com.spotify.Client"@,
            },
        ],
{
}

/// The answer to a request for a token runs the line that was asked for in a shell, with
/// the token in its environment where one was granted. Nothing of the applet changes.
pub proof fn law_token_runs_the_line(m: AppModelView, token: Option<Seq<char>>, line: Seq<char>)
    ensures
        m.after(MessageView::ActivationToken { token, line }).0 == m,
        m.after(MessageView::ActivationToken { token, line }).1 == seq![
            EffectView::Run(
                CommandView {
                    program: "sh"@,
                    args: seq!["-c"@, line],
                    env: if token is Some {
                        seq![("XDG_ACTIVATION_TOKEN"@, token->0)]
                    } else {
                        seq![]
                    },
                },
            ),
        ],
{
}

/// The applet believes the window tracker on Spotify's focus, and only on Spotify's.
pub proof fn law_focus_of_spotify_is_believed(m: AppModelView, app_id: Seq<char>, active: bool)
    ensures
        m.after(MessageView::Toplevel(TopUpdateView::AppActivated { app_id, active })).0 == (
        AppModelView {
            spotify_activated: if app_id == "spotify"@ {
                active
            } else {
                m.spotify_activated
            },
            ..m
        }),
        m.after(MessageView::Toplevel(TopUpdateView::AppActivated { app_id, active })).1.len()
            == 0,
        m.after(MessageView::Toplevel(TopUpdateView::Init)).0 == m,
        m.after(MessageView::Toplevel(TopUpdateView::Init)).1.len() == 0,
{
}

/// Clicking the icon once more minimizes Spotify: where the applet knows that Spotify
/// has the focus, the press sends a request, and for that request the tracker, with a
/// manager bound, yields the COSMIC handle of Spotify's first window.
pub proof fn law_second_click_minimizes_spotify(
    m: AppModelView,
    d: AppDataView,
    i: int,
    handle: u64,
)
    requires
        m.spotify_activated,
        d.manager,
        0 <= i < d.toplevels.len(),
        d.toplevels[i].app_id == "spotify"@,
        d.toplevels[i].cosmic == Some(handle),
        forall|j: int| 0 <= j < i ==> (#[trigger] d.toplevels[j]).app_id != "spotify"@,
    ensures
        m.after(MessageView::RaiseSpotify).1.len() == 1,
        m.after(MessageView::RaiseSpotify).1[0] matches EffectView::Window(
            TopCmdView::Minimize(app_id),
        ) && d.to_minimize(app_id) == Some(handle),
{
    crate::toplevel::law_minimize_yields_first_handle(d, "spotify"@, i);
}

/// A report of the player is taken over as it is. Art at hand stays exactly while the
/// track id stays, and the id is that of the report. Art is fetched from the address of
/// the report exactly where art is shown, none is at hand, and the track has an id and
/// an address. Nothing else changes or is asked for.
pub proof fn law_report_is_taken_over(m: AppModelView, state: PlayerStateView)
    ensures
        ({
            let id = if state is Active {
                state->Active_0.track_id
            } else {
                Seq::<char>::empty()
            };
            let url = if state is Active {
                state->Active_0.art_url
            } else {
                None
            };
            let path = if id == m.art_track_id {
                m.album_art_path
            } else {
                None
            };
            let fetch = m.config.show_album_art && path is None && id.len() > 0 && url is Some;
            &&& m.after(MessageView::PlayerState(state)).0 == (AppModelView {
                player: state,
                album_art_path: path,
                art_track_id: id,
                ..m
            })
            &&& fetch ==> m.after(MessageView::PlayerState(state)).1 == seq![
                EffectView::FetchArt(url->0),
            ]
            &&& !fetch ==> m.after(MessageView::PlayerState(state)).1.len() == 0
        }),
{
}

/// What a fetch has brought is what the applet holds as art from then on, and nothing
/// else changes.
pub proof fn law_fetched_art_is_held(m: AppModelView, path: Option<PathBuf>)
    ensures
        m.after(MessageView::AlbumArt(path)).0 == (AppModelView { album_art_path: path, ..m }),
        m.after(MessageView::AlbumArt(path)).1.len() == 0,
{
}

/// A surface action is handed on as it is, and the end of a window asks for nothing.
pub proof fn law_surface_actions_are_handed_on(m: AppModelView, action: SurfaceAction, id: u64)
    ensures
        m.after(MessageView::Surface(action)).0 == m,
        m.after(MessageView::Surface(action)).1 == seq![EffectView::Surface(action)],
        m.after(MessageView::PopupClosed(id)).0 == (AppModelView {
            popup: if m.popup == Some(id) {
                None
            } else {
                m.popup
            },
            ..m
        }),
        m.after(MessageView::PopupClosed(id)).1.len() == 0,
{
}

/// Whether a result is `m` with other settings, and saving these settings is all that is
/// asked for.
pub open spec fn saved_as(
    m: AppModelView,
    result: (AppModelView, Seq<EffectView>),
    config: AppConfigView,
) -> bool {
    &&& result.0 == AppModelView { config, ..m }
    &&& result.1.len() == 1
    &&& result.1[0] == EffectView::SaveConfig(config)
}

/// A choice sets its own setting to what was chosen, keeps the others, and saves them
/// all.
pub proof fn law_choice_sets_its_setting(m: AppModelView, text: Seq<char>, n: usize, secs: u32)
    ensures
        saved_as(
            m,
            m.after(MessageView::SetPanelDisplay(text)),
            AppConfigView { panel_display: text, ..m.config },
        ),
        saved_as(
            m,
            m.after(MessageView::SetIconStyle(text)),
            AppConfigView { icon_style: text, ..m.config },
        ),
        saved_as(
            m,
            m.after(MessageView::SetMaxLabelChars(n)),
            AppConfigView { max_label_chars: n, ..m.config },
        ),
        saved_as(
            m,
            m.after(MessageView::SetPollInterval(secs)),
            AppConfigView { poll_interval_secs: secs, ..m.config },
        ),
{
}

/// A switch for a panel control turns its own setting over, keeps the others, and saves
/// them all.
pub proof fn law_switch_turns_its_setting(m: AppModelView)
    ensures
        saved_as(
            m,
            m.after(MessageView::ToggleShowPlayPanel),
            AppConfigView { show_play_panel: !m.config.show_play_panel, ..m.config },
        ),
        saved_as(
            m,
            m.after(MessageView::ToggleShowNextPanel),
            AppConfigView { show_next_panel: !m.config.show_next_panel, ..m.config },
        ),
        saved_as(
            m,
            m.after(MessageView::ToggleShowPrevPanel),
            AppConfigView { show_prev_panel: !m.config.show_prev_panel, ..m.config },
        ),
{
}

/// Switching album art off drops the art at hand. Switching it on fetches the art of the
/// current track, where it has an address for it. Either way the settings are saved
/// first, and nothing else changes.
pub proof fn law_art_switch_drops_or_fetches(m: AppModelView)
    ensures
        ({
            let (n, asked) = m.after(MessageView::ToggleShowAlbumArt);
            let config = AppConfigView {
                show_album_art: !m.config.show_album_art,
                ..m.config
            };
            let on = !m.config.show_album_art;
            let fetch = on && m.player is Active && m.player->Active_0.art_url is Some;
            &&& n == (AppModelView {
                config,
                album_art_path: if on {
                    m.album_art_path
                } else {
                    None
                },
                ..m
            })
            &&& asked.len() == if fetch {
                2int
            } else {
                1
            }
            &&& asked[0] == EffectView::SaveConfig(config)
            &&& fetch ==> asked[1] == EffectView::FetchArt(m.player->Active_0.art_url->0)
        }),
{
}

/// The applet starts with the settings it was given, and knows of no player, no popup,
/// no art and no focus; the popup will show the track.
pub proof fn law_applet_starts_idle(config: AppConfigView)
    ensures
        AppModelView::start(config).config == config,
        AppModelView::start(config).popup is None,
        AppModelView::start(config).player is NotRunning,
        !AppModelView::start(config).show_settings,
        AppModelView::start(config).album_art_path is None,
        AppModelView::start(config).art_track_id.len() == 0,
        !AppModelView::start(config).spotify_activated,
{
}

/// The player is asked at the interval that is set, in seconds.
pub proof fn law_ticks_come_at_the_interval(m: &AppModel, secs: u64)
    requires
        call_ensures(AppModel::subscription, (m,), secs),
    ensures
        secs == m.config.poll_interval_secs,
{
}

/// A window that asks to be closed is reported under its own number.
pub proof fn law_close_request_names_the_window(m: &AppModel, id: u64, message: Message)
    requires
        call_ensures(AppModel::on_close_requested, (m, id), message),
    ensures
        message == Message::PopupClosed(id),
{
    assert(message@ is PopupClosed);
}

/// The applet starts idle, with the settings it was given, and asks for the state of the
/// player at once.
pub proof fn law_start_asks_the_player(config: AppConfig, r: (AppModel, Vec<Effect>))
    requires
        call_ensures(AppModel::init, (config,), r),
    ensures
        r.0.config@ == config@,
        r.0.player is NotRunning,
        r.0.popup is None,
        r.0.album_art_path is None,
        r.0.art_track_id@.len() == 0,
        !r.0.show_settings,
        !r.0.spotify_activated,
        r.1@.len() == 1,
        r.1@[0] is QueryPlayer,
{
    assert(r.0@.config == config@);
    assert(r.0@.player is NotRunning);
    let asked = effects(r.1@);
    assert(asked.len() == r.1@.len());
    assert(asked[0] == r.1@[0]@);
    assert(asked[0] is QueryPlayer);
}

/// A popup that is being opened counts as open under its own number, and nothing else
/// changes.
pub proof fn law_opened_popup_is_noted(m: &mut AppModel, id: u64)
    requires
        call_ensures(AppModel::popup_opened, (m, id), ()),
    ensures
        final(m)@ == (AppModelView { popup: Some(id), ..old(m)@ }),
{
}

/// An update with a transport message calls the method that the message is named after,
/// and leaves the applet as it was.
pub proof fn law_update_calls_the_player(m: &mut AppModel, message: Message, r: Vec<Effect>)
    requires
        call_ensures(AppModel::update, (m, message), r),
        message is PlayPause || message is Next || message is Previous,
    ensures
        final(m)@ == old(m)@,
        r@.len() == 1,
        r@[0] is PlayerCall,
        message is PlayPause ==> r@[0]->method@ == "PlayPause"@,
        message is Next ==> r@[0]->method@ == "Next"@,
        message is Previous ==> r@[0]->method@ == "Previous"@,
{
    law_transport_calls_the_player(old(m)@);
    assert(effects(r@).len() == r@.len());
    assert(effects(r@)[0] == r@[0]@);
    assert(r@[0]@ is PlayerCall);
}

/// An update for a press of the icon asks to minimize Spotify where it has the focus,
/// and for a token otherwise.
pub proof fn law_update_goes_by_focus(m: &mut AppModel, r: Vec<Effect>)
    requires
        call_ensures(AppModel::update, (m, Message::RaiseSpotify), r),
    ensures
        final(m)@ == old(m)@,
        r@.len() == 1,
        old(m).spotify_activated ==> (r@[0] matches Effect::Window(TopCmd::Minimize(app_id))
            && app_id@ == "spotify"@),
        !old(m).spotify_activated ==> (r@[0] matches Effect::RequestToken { line, .. } && line@
            == "flatpak run com.spotify.Client"@),
{
    law_icon_press_goes_by_focus(old(m)@);
    assert(effects(r@).len() == r@.len());
    assert(effects(r@)[0] == r@[0]@);
    assert(old(m).spotify_activated == old(m)@.spotify_activated);
    if old(m).spotify_activated {
        assert(r@[0]@ == EffectView::Window(TopCmdView::Minimize("spotify"@)));
        assert(r@[0] is Window);
    } else {
        assert(r@[0]@ is RequestToken);
        assert(r@[0] is RequestToken);
    }
}

} // verus!
