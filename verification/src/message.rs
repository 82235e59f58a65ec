//! What happens to the applet, and what it asks to have done.
use std::path::PathBuf;
use vstd::prelude::*;
use vstd::string::*;

use crate::command::{Command, CommandView};
use crate::config::{AppConfig, AppConfigView};
use crate::player::{opt_text, PlayerState, PlayerStateView};
use crate::toplevel::{TopCmd, TopCmdView, TopUpdate, TopUpdateView};

verus! {

/// What to do with a surface of the applet. A window is a number, and two numbers are
/// equal exactly when the windows are.
#[derive(Clone, Copy, Debug, PartialEq, Eq, Structural)]
pub enum SurfaceAction {
    /// Open the popup.
    OpenPopup,
    /// Destroy a popup.
    DestroyPopup(u64),
    /// Something that a widget has asked for.
    Widget(u64),
}

/// What happens to the applet.
#[derive(Clone, Debug)]
pub enum Message {
    PopupClosed(u64),
    Surface(SurfaceAction),
    Tick,
    PlayerState(PlayerState),
    AlbumArt(Option<PathBuf>),
    PlayPause,
    Next,
    Previous,
    LaunchSpotify,
    /// The panel icon was pressed.
    RaiseSpotify,
    /// The window tracker has something to tell.
    Toplevel(TopUpdate),
    /// The compositor has answered a request for an activation token.
    ActivationToken { token: Option<String>, line: String },
    ToggleSettings,
    // Config mutations
    SetPanelDisplay(String),
    SetIconStyle(String),
    ToggleShowPlayPanel,
    ToggleShowNextPanel,
    ToggleShowPrevPanel,
    ToggleShowAlbumArt,
    SetMaxLabelChars(usize),
    SetPollInterval(u32),
}

/// A message as plain mathematical values.
#[verifier::ext_equal]
pub enum MessageView {
    PopupClosed(u64),
    Surface(SurfaceAction),
    Tick,
    PlayerState(PlayerStateView),
    AlbumArt(Option<PathBuf>),
    PlayPause,
    Next,
    Previous,
    LaunchSpotify,
    RaiseSpotify,
    Toplevel(TopUpdateView),
    ActivationToken { token: Option<Seq<char>>, line: Seq<char> },
    ToggleSettings,
    SetPanelDisplay(Seq<char>),
    SetIconStyle(Seq<char>),
    ToggleShowPlayPanel,
    ToggleShowNextPanel,
    ToggleShowPrevPanel,
    ToggleShowAlbumArt,
    SetMaxLabelChars(usize),
    SetPollInterval(u32),
}

impl View for Message {
    type V = MessageView;

    open spec fn view(&self) -> MessageView {
        match self {
            Message::PopupClosed(id) => MessageView::PopupClosed(*id),
            Message::Surface(action) => MessageView::Surface(*action),
            Message::Tick => MessageView::Tick,
            Message::PlayerState(state) => MessageView::PlayerState(state@),
            Message::AlbumArt(path) => MessageView::AlbumArt(*path),
            Message::PlayPause => MessageView::PlayPause,
            Message::Next => MessageView::Next,
            Message::Previous => MessageView::Previous,
            Message::LaunchSpotify => MessageView::LaunchSpotify,
            Message::RaiseSpotify => MessageView::RaiseSpotify,
            Message::Toplevel(update) => MessageView::Toplevel(update@),
            Message::ActivationToken { token, line } => MessageView::ActivationToken {
                token: opt_text(*token),
                line: line@,
            },
            Message::ToggleSettings => MessageView::ToggleSettings,
            Message::SetPanelDisplay(v) => MessageView::SetPanelDisplay(v@),
            Message::SetIconStyle(v) => MessageView::SetIconStyle(v@),
            Message::ToggleShowPlayPanel => MessageView::ToggleShowPlayPanel,
            Message::ToggleShowNextPanel => MessageView::ToggleShowNextPanel,
            Message::ToggleShowPrevPanel => MessageView::ToggleShowPrevPanel,
            Message::ToggleShowAlbumArt => MessageView::ToggleShowAlbumArt,
            Message::SetMaxLabelChars(n) => MessageView::SetMaxLabelChars(*n),
            Message::SetPollInterval(s) => MessageView::SetPollInterval(*s),
        }
    }
}

/// The message in an option, as plain mathematical values.
pub open spec fn opt_message(message: Option<Message>) -> Option<MessageView> {
    match message {
        Some(m) => Some(m@),
        None => None,
    }
}

/// What the applet asks to have done.
#[derive(Debug)]
pub enum Effect {
    /// Perform a surface action.
    Surface(SurfaceAction),
    /// Query the player, and send its state as a message.
    QueryPlayer,
    /// Call a method of the player, wait, then query it as above.
    PlayerCall { method: &'static str, wait_ms: u64 },
    /// Fetch the art at an address, and send the file as a message.
    FetchArt(String),
    /// Write the settings file.
    SaveConfig(AppConfig),
    /// Start a program and leave it running.
    Run(Command),
    /// Send a request to the window tracker.
    Window(TopCmd),
    /// Ask the compositor for an activation token for a shell line.
    RequestToken { app_id: &'static str, line: String },
}

/// An effect as plain mathematical values.
#[verifier::ext_equal]
pub enum EffectView {
    Surface(SurfaceAction),
    QueryPlayer,
    PlayerCall { method: Seq<char>, wait_ms: u64 },
    FetchArt(Seq<char>),
    SaveConfig(AppConfigView),
    Run(CommandView),
    Window(TopCmdView),
    RequestToken { app_id: Seq<char>, line: Seq<char> },
}

impl View for Effect {
    type V = EffectView;

    open spec fn view(&self) -> EffectView {
        match self {
            Effect::Surface(action) => EffectView::Surface(*action),
            Effect::QueryPlayer => EffectView::QueryPlayer,
            Effect::PlayerCall { method, wait_ms } => EffectView::PlayerCall {
                method: method@,
                wait_ms: *wait_ms,
            },
            Effect::FetchArt(url) => EffectView::FetchArt(url@),
            Effect::SaveConfig(config) => EffectView::SaveConfig(config@),
            Effect::Run(command) => EffectView::Run(command@),
            Effect::Window(cmd) => EffectView::Window(cmd@),
            Effect::RequestToken { app_id, line } => EffectView::RequestToken {
                app_id: app_id@,
                line: line@,
            },
        }
    }
}

/// The effects as plain mathematical values.
pub open spec fn effects(v: Seq<Effect>) -> Seq<EffectView> {
    v.map_values(|e: Effect| e@)
}

} // verus!
