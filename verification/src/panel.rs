//! What the applet shows in the panel.
use vstd::prelude::*;
use vstd::string::*;

use crate::label::{
    icon_name, label_text, panel_icon_name, panel_label_text, play_pause_icon, transport_icon,
};
use crate::message::{Message, MessageView, SurfaceAction};
use crate::model::{AppModel, AppModelView};
use crate::player::{opt_text, PlayerState, PlayerStateView};

verus! {

/// The tooltip of a button. It is held back while a popup is open.
#[derive(Clone, Copy, Debug)]
pub struct Tooltip {
    pub text: &'static str,
    pub has_popup: bool,
}

/// A tooltip as plain mathematical values.
#[verifier::ext_equal]
pub struct TooltipView {
    pub text: Seq<char>,
    pub has_popup: bool,
}

impl View for Tooltip {
    type V = TooltipView;

    open spec fn view(&self) -> TooltipView {
        TooltipView { text: self.text@, has_popup: self.has_popup }
    }
}

/// The tooltip in an option, as plain mathematical values.
pub open spec fn opt_tooltip(tooltip: Option<Tooltip>) -> Option<TooltipView> {
    match tooltip {
        Some(t) => Some(t@),
        None => None,
    }
}

/// A part of the panel, from left to right.
#[derive(Debug)]
pub enum PanelItem {
    /// A button with an icon.
    IconButton {
        icon: &'static str,
        icon_size: u16,
        v_pad: u16,
        h_pad: u16,
        on_press: Message,
        tooltip: Option<Tooltip>,
    },
    /// The button with the track label, which opens and closes the popup.
    PopupButton {
        label: Option<String>,
        v_pad: u16,
        h_pad: u16,
        on_press: Message,
        tooltip: Tooltip,
    },
}

/// A part of the panel as plain mathematical values.
#[verifier::ext_equal]
pub enum PanelItemView {
    IconButton {
        icon: Seq<char>,
        icon_size: u16,
        v_pad: u16,
        h_pad: u16,
        on_press: MessageView,
        tooltip: Option<TooltipView>,
    },
    PopupButton {
        label: Option<Seq<char>>,
        v_pad: u16,
        h_pad: u16,
        on_press: MessageView,
        tooltip: TooltipView,
    },
}

impl View for PanelItem {
    type V = PanelItemView;

    open spec fn view(&self) -> PanelItemView {
        match self {
            PanelItem::IconButton { icon, icon_size, v_pad, h_pad, on_press, tooltip } => {
                PanelItemView::IconButton {
                    icon: icon@,
                    icon_size: *icon_size,
                    v_pad: *v_pad,
                    h_pad: *h_pad,
                    on_press: on_press@,
                    tooltip: opt_tooltip(*tooltip),
                }
            },
            PanelItem::PopupButton { label, v_pad, h_pad, on_press, tooltip } => {
                PanelItemView::PopupButton {
                    label: opt_text(*label),
                    v_pad: *v_pad,
                    h_pad: *h_pad,
                    on_press: on_press@,
                    tooltip: tooltip@,
                }
            },
        }
    }
}

/// The panel as plain mathematical values.
pub open spec fn panel_items(v: Seq<PanelItem>) -> Seq<PanelItemView> {
    v.map_values(|i: PanelItem| i@)
}

/// The size of the icons of the transport buttons in the panel.
pub const TRANSPORT_ICON_SIZE: u16 = 14;

/// A transport button in the panel.
pub open spec fn transport_button(icon: Seq<char>, v_pad: u16, on_press: MessageView) -> PanelItemView {
    PanelItemView::IconButton {
        icon,
        icon_size: TRANSPORT_ICON_SIZE,
        v_pad,
        h_pad: 4,
        on_press,
        tooltip: None,
    }
}

/// One item where `shown`, none otherwise.
pub open spec fn shown_if(shown: bool, item: PanelItemView) -> Seq<PanelItemView> {
    if shown {
        seq![item]
    } else {
        seq![]
    }
}

impl AppModelView {
    /// The label beside the icon, where there is one to show.
    pub open spec fn panel_label(self) -> Option<Seq<char>> {
        match self.player {
            PlayerStateView::Active(t) => if label_text(t, self.config).len() > 0 {
                Some(label_text(t, self.config))
            } else {
                None
            },
            _ => None,
        }
    }

    /// The message of the popup button: destroy the popup that is open, or open one.
    pub open spec fn popup_press(self) -> MessageView {
        match self.popup {
            Some(id) => MessageView::Surface(SurfaceAction::DestroyPopup(id)),
            None => MessageView::Surface(SurfaceAction::OpenPopup),
        }
    }

    /// The tooltip of the icon and of the label while Spotify runs.
    pub open spec fn tooltip(self) -> TooltipView {
        TooltipView { text: "Spotify"@, has_popup: self.popup is Some }
    }

    /// The panel. While Spotify does not run it is one icon that launches it. Otherwise
    /// it is the icon, which raises and minimizes Spotify, the label, which opens the
    /// popup, both with the tooltip, and the transport buttons that the settings ask
    /// for.
    pub open spec fn panel(self, v_pad: u16, icon_size: u16) -> Seq<PanelItemView> {
        let icon = icon_name(self.config.icon_style);
        if self.player is NotRunning {
            seq![
                PanelItemView::IconButton {
                    icon,
                    icon_size,
                    v_pad,
                    h_pad: 8,
                    on_press: MessageView::LaunchSpotify,
                    tooltip: None,
                },
            ]
        } else {
            seq![
                PanelItemView::IconButton {
                    icon,
                    icon_size,
                    v_pad,
                    h_pad: 6,
                    on_press: MessageView::RaiseSpotify,
                    tooltip: Some(self.tooltip()),
                },
                PanelItemView::PopupButton {
                    label: self.panel_label(),
                    v_pad,
                    h_pad: 6,
                    on_press: self.popup_press(),
                    tooltip: self.tooltip(),
                },
            ] + shown_if(
                self.config.show_prev_panel,
                transport_button("media-skip-backward-symbolic"@, v_pad, MessageView::Previous),
            ) + shown_if(
                self.config.show_play_panel,
                transport_button(
                    transport_icon(self.player.is_playing()),
                    v_pad,
                    MessageView::PlayPause,
                ),
            ) + shown_if(
                self.config.show_next_panel,
                transport_button("media-skip-forward-symbolic"@, v_pad, MessageView::Next),
            )
        }
    }
}

fn transport_item(icon: &'static str, v_pad: u16, on_press: Message) -> (item: PanelItem)
    ensures
        item@ == transport_button(icon@, v_pad, on_press@),
{
    PanelItem::IconButton {
        icon,
        icon_size: TRANSPORT_ICON_SIZE,
        v_pad,
        h_pad: 4,
        on_press,
        tooltip: None,
    }
}

impl AppModel {
    /// Whether a track plays.
    pub fn is_playing(&self) -> (r: bool)
        ensures
            r == self@.player.is_playing(),
    {
        match &self.player {
            PlayerState::Active(t) => t.is_playing,
            _ => false,
        }
    }

    /// What the panel shows, with the padding and the icon size that the panel suggests.
    pub fn panel_view(&self, v_pad: u16, icon_size: u16) -> (items: Vec<PanelItem>)
        ensures
            panel_items(items@) == self@.panel(v_pad, icon_size),
    {
        let icon = panel_icon_name(&self.config);
        let label_text = match &self.player {
            PlayerState::NotRunning => {
                let items = vec![
                    PanelItem::IconButton {
                        icon,
                        icon_size,
                        v_pad,
                        h_pad: 8,
                        on_press: Message::LaunchSpotify,
                        tooltip: None,
                    },
                ];
                assert(panel_items(items@) =~= self@.panel(v_pad, icon_size));
                return items;
            },
            PlayerState::Stopped => String::new(),
            PlayerState::Active(t) => panel_label_text(t, &self.config),
        };
        let label = if label_text.as_str().is_empty() {
            None
        } else {
            Some(label_text)
        };
        let on_press = match self.popup {
            Some(id) => Message::Surface(SurfaceAction::DestroyPopup(id)),
            None => Message::Surface(SurfaceAction::OpenPopup),
        };
        let tooltip = Tooltip { text: "Spotify", has_popup: self.popup.is_some() };
        let mut items = vec![
            PanelItem::IconButton {
                icon,
                icon_size,
                v_pad,
                h_pad: 6,
                on_press: Message::RaiseSpotify,
                tooltip: Some(tooltip),
            },
            PanelItem::PopupButton {
                label,
                v_pad,
                h_pad: 6,
                on_press,
                tooltip,
            },
        ];
        if self.config.show_prev_panel {
            items.push(transport_item("media-skip-backward-symbolic", v_pad, Message::Previous));
        }
        if self.config.show_play_panel {
            items.push(
                transport_item(play_pause_icon(self.is_playing()), v_pad, Message::PlayPause),
            );
        }
        if self.config.show_next_panel {
            items.push(transport_item("media-skip-forward-symbolic", v_pad, Message::Next));
        }
        assert(panel_items(items@) =~= self@.panel(v_pad, icon_size));
        items
    }
}

/// Whether the panel has a button with this message.
pub open spec fn offers(items: Seq<PanelItemView>, message: MessageView) -> bool {
    exists|i: int|
        0 <= i < items.len() && message_of(#[trigger] items[i]) == message
}

/// The message that pressing a part of the panel gives.
pub open spec fn message_of(item: PanelItemView) -> MessageView {
    match item {
        PanelItemView::IconButton { on_press, .. } => on_press,
        PanelItemView::PopupButton { on_press, .. } => on_press,
    }
}

/// While Spotify does not run, the only thing to press is the icon that launches it.
pub proof fn law_idle_panel_only_launches(m: AppModelView, v_pad: u16, icon_size: u16)
    requires
        m.player is NotRunning,
    ensures
        m.panel(v_pad, icon_size).len() == 1,
        forall|message: MessageView| #[trigger]
            offers(m.panel(v_pad, icon_size), message) <==> message == MessageView::LaunchSpotify,
{
    assert(message_of(m.panel(v_pad, icon_size)[0]) == MessageView::LaunchSpotify);
}

/// While Spotify runs, the icon raises or minimizes it, the label opens or closes the
/// popup, and a transport button is in the panel exactly where the settings show it.
/// Nothing else is there to press.
pub proof fn law_panel_follows_settings(m: AppModelView, v_pad: u16, icon_size: u16)
    requires
        !(m.player is NotRunning),
    ensures
        offers(m.panel(v_pad, icon_size), MessageView::RaiseSpotify),
        !offers(m.panel(v_pad, icon_size), MessageView::LaunchSpotify),
        offers(m.panel(v_pad, icon_size), MessageView::Previous) <==> m.config.show_prev_panel,
        offers(m.panel(v_pad, icon_size), MessageView::PlayPause) <==> m.config.show_play_panel,
        offers(m.panel(v_pad, icon_size), MessageView::Next) <==> m.config.show_next_panel,
        offers(m.panel(v_pad, icon_size), m.popup_press()),
        forall|message: MessageView| #[trigger]
            offers(m.panel(v_pad, icon_size), message) ==> message == MessageView::RaiseSpotify
                || message == m.popup_press() || message == MessageView::Previous || message
                == MessageView::PlayPause || message == MessageView::Next,
{
    let items = m.panel(v_pad, icon_size);
    let a: int = if m.config.show_prev_panel { 1 } else { 0 };
    let b: int = if m.config.show_play_panel { 1 } else { 0 };
    assert(message_of(items[0]) == MessageView::RaiseSpotify);
    assert(message_of(items[1]) == m.popup_press());
    assert(m.config.show_prev_panel ==> items[2] == transport_button(
        "media-skip-backward-symbolic"@,
        v_pad,
        MessageView::Previous,
    ));
    assert(m.config.show_play_panel ==> items[2 + a] == transport_button(
        transport_icon(m.player.is_playing()),
        v_pad,
        MessageView::PlayPause,
    ));
    assert(m.config.show_next_panel ==> items[2 + a + b] == transport_button(
        "media-skip-forward-symbolic"@,
        v_pad,
        MessageView::Next,
    ));
}

/// The tooltip that a part of the panel has.
pub open spec fn tooltip_of(item: PanelItemView) -> Option<TooltipView> {
    match item {
        PanelItemView::IconButton { tooltip, .. } => tooltip,
        PanelItemView::PopupButton { tooltip, .. } => Some(tooltip),
    }
}

/// While Spotify runs, the icon and the label have one and the same tooltip, and no
/// transport button has one. While it does not run, nothing has a tooltip.
pub proof fn law_icon_and_label_share_tooltip(
    m: AppModelView,
    v_pad: u16,
    icon_size: u16,
    i: int,
)
    requires
        0 <= i < m.panel(v_pad, icon_size).len(),
    ensures
        tooltip_of(m.panel(v_pad, icon_size)[i]) == (if !(m.player is NotRunning) && i < 2 {
            Some(TooltipView { text: "Spotify"@, has_popup: m.popup is Some })
        } else {
            None
        }),
{
}

/// Pressing the label opens the popup where none is open, and destroys the one that is
/// open otherwise. The press itself changes nothing of the applet.
pub proof fn law_label_opens_and_closes_popup(m: AppModelView)
    ensures
        m.after(m.popup_press()).0 == m,
        m.popup is None ==> m.after(m.popup_press()).1 == seq![
            crate::message::EffectView::Surface(SurfaceAction::OpenPopup),
        ],
        m.popup matches Some(id) ==> m.after(m.popup_press()).1 == seq![
            crate::message::EffectView::Surface(SurfaceAction::DestroyPopup(id)),
        ],
{
}

/// Whether an item is an icon button of the panel with this icon, size, padding to the
/// sides and message.
pub open spec fn is_icon_button(
    item: PanelItemView,
    icon: Seq<char>,
    icon_size: u16,
    v_pad: u16,
    h_pad: u16,
    message: MessageView,
) -> bool {
    item matches PanelItemView::IconButton { icon: i, icon_size: s, v_pad: v, h_pad: h, on_press, .. }
        && i == icon && s == icon_size && v == v_pad && h == h_pad && on_press == message
}

/// While Spotify does not run, the icon in the style that is set, in the size and with
/// the padding that the panel suggests, launches it.
pub proof fn law_idle_panel_is_the_icon(m: AppModelView, v_pad: u16, icon_size: u16)
    requires
        m.player is NotRunning,
    ensures
        m.panel(v_pad, icon_size).len() == 1,
        m.config.icon_style == "spotify_colored"@ ==> is_icon_button(
            m.panel(v_pad, icon_size)[0],
            "com.spotify.Client"@,
            icon_size,
            v_pad,
            8,
            MessageView::LaunchSpotify,
        ),
        m.config.icon_style == "spotify_symbolic"@ ==> is_icon_button(
            m.panel(v_pad, icon_size)[0],
            "com.spotify.Client-symbolic"@,
            icon_size,
            v_pad,
            8,
            MessageView::LaunchSpotify,
        ),
        m.config.icon_style != "spotify_colored"@ && m.config.icon_style != "spotify_symbolic"@
            ==> is_icon_button(
            m.panel(v_pad, icon_size)[0],
            "audio-x-generic-symbolic"@,
            icon_size,
            v_pad,
            8,
            MessageView::LaunchSpotify,
        ),
{
    crate::label::law_icon_of_each_style(m.config.icon_style);
}

/// While Spotify runs, the icon in the style that is set comes first, in the size and
/// with the padding that the panel suggests, and raises or minimizes Spotify.
pub proof fn law_running_panel_begins_with_icon(m: AppModelView, v_pad: u16, icon_size: u16)
    requires
        !(m.player is NotRunning),
    ensures
        m.panel(v_pad, icon_size).len() >= 2,
        m.config.icon_style == "spotify_colored"@ ==> is_icon_button(
            m.panel(v_pad, icon_size)[0],
            "com.spotify.Client"@,
            icon_size,
            v_pad,
            6,
            MessageView::RaiseSpotify,
        ),
        m.config.icon_style == "spotify_symbolic"@ ==> is_icon_button(
            m.panel(v_pad, icon_size)[0],
            "com.spotify.Client-symbolic"@,
            icon_size,
            v_pad,
            6,
            MessageView::RaiseSpotify,
        ),
        m.config.icon_style != "spotify_colored"@ && m.config.icon_style != "spotify_symbolic"@
            ==> is_icon_button(
            m.panel(v_pad, icon_size)[0],
            "audio-x-generic-symbolic"@,
            icon_size,
            v_pad,
            6,
            MessageView::RaiseSpotify,
        ),
{
    crate::label::law_icon_of_each_style(m.config.icon_style);
}

/// While Spotify runs, the popup button comes second. It shows the label of the current
/// track, whether it plays or is paused, and none where no track is current or the label
/// is empty. Pressing it opens the popup, or destroys the one that is open.
pub proof fn law_label_stands_beside_icon(m: AppModelView, v_pad: u16, icon_size: u16)
    requires
        !(m.player is NotRunning),
    ensures
        ({
            let item = m.panel(v_pad, icon_size)[1];
            &&& item is PopupButton
            &&& item->PopupButton_v_pad == v_pad
            &&& item->PopupButton_h_pad == 6
            &&& m.player is Stopped ==> item->label is None
            &&& m.player matches PlayerStateView::Active(t) ==> {
                let text = label_text(t, m.config);
                &&& text.len() > 0 ==> item->label == Some(text)
                &&& text.len() == 0 ==> item->label is None
            }
            &&& m.popup is None ==> item->PopupButton_on_press == MessageView::Surface(
                SurfaceAction::OpenPopup,
            )
            &&& m.popup matches Some(id) ==> item->PopupButton_on_press == MessageView::Surface(
                SurfaceAction::DestroyPopup(id),
            )
        }),
{
}

/// While Spotify runs, the transport buttons that the settings show come last, in the
/// order previous, play/pause, next. Each has the icon that tells what pressing it does,
/// in the small size.
pub proof fn law_transport_buttons_come_last(m: AppModelView, v_pad: u16, icon_size: u16)
    requires
        !(m.player is NotRunning),
    ensures
        ({
            let items = m.panel(v_pad, icon_size);
            let a = if m.config.show_prev_panel {
                1int
            } else {
                0
            };
            let b = if m.config.show_play_panel {
                1int
            } else {
                0
            };
            let c = if m.config.show_next_panel {
                1int
            } else {
                0
            };
            let plays = m.player is Active && m.player->Active_0.is_playing;
            &&& items.len() == 2 + a + b + c
            &&& m.config.show_prev_panel ==> is_icon_button(
                items[2],
                "media-skip-backward-symbolic"@,
                14,
                v_pad,
                4,
                MessageView::Previous,
            )
            &&& m.config.show_play_panel && plays ==> is_icon_button(
                items[2 + a],
                "media-playback-pause-symbolic"@,
                14,
                v_pad,
                4,
                MessageView::PlayPause,
            )
            &&& m.config.show_play_panel && !plays ==> is_icon_button(
                items[2 + a],
                "media-playback-start-symbolic"@,
                14,
                v_pad,
                4,
                MessageView::PlayPause,
            )
            &&& m.config.show_next_panel ==> is_icon_button(
                items[2 + a + b],
                "media-skip-forward-symbolic"@,
                14,
                v_pad,
                4,
                MessageView::Next,
            )
        }),
{
}

} // verus!
