//! The icons and the text that the panel shows.
use vstd::prelude::*;
use vstd::string::*;

use crate::config::{AppConfig, AppConfigView};
use crate::player::{TrackInfo, TrackInfoView};
use crate::text::{joined, same_text, truncate, truncated};

verus! {

/// The name of the applet's icon in the style that is set. An unknown style is the
/// note.
pub open spec fn icon_name(style: Seq<char>) -> Seq<char> {
    if style == "spotify_colored"@ {
        "com.spotify.Client"@
    } else if style == "spotify_symbolic"@ {
        "com.spotify.Client-symbolic"@
    } else {
        "audio-x-generic-symbolic"@
    }
}

/// The name of the play/pause icon: what pressing it does.
pub open spec fn transport_icon(is_playing: bool) -> Seq<char> {
    if is_playing {
        "media-playback-pause-symbolic"@
    } else {
        "media-playback-start-symbolic"@
    }
}

/// Artist and title, or the title alone where the artist is not known.
pub open spec fn full_label(track: TrackInfoView) -> Seq<char> {
    if track.artist.len() == 0 {
        track.title
    } else {
        track.artist + " – "@ + track.title
    }
}

/// The label beside the icon: none, the title, or artist and title, cut to the limit
/// that is set. An unknown setting shows artist and title.
pub open spec fn label_text(track: TrackInfoView, config: AppConfigView) -> Seq<char> {
    if config.panel_display == "icon_only"@ {
        Seq::empty()
    } else if config.panel_display == "icon_track"@ {
        truncated(track.title, config.max_label_chars as nat)
    } else {
        truncated(full_label(track), config.max_label_chars as nat)
    }
}

/// The icon of the applet.
pub fn panel_icon_name(cfg: &AppConfig) -> (name: &'static str)
    ensures
        name@ == icon_name(cfg@.icon_style),
{
    if same_text(cfg.icon_style.as_str(), "spotify_colored") {
        "com.spotify.Client"
    } else if same_text(cfg.icon_style.as_str(), "spotify_symbolic") {
        "com.spotify.Client-symbolic"
    } else {
        "audio-x-generic-symbolic"
    }
}

/// The icon of the play/pause button.
pub fn play_pause_icon(is_playing: bool) -> (name: &'static str)
    ensures
        name@ == transport_icon(is_playing),
{
    if is_playing {
        "media-playback-pause-symbolic"
    } else {
        "media-playback-start-symbolic"
    }
}

/// The label beside the icon in the panel.
pub fn panel_label_text(track: &TrackInfo, cfg: &AppConfig) -> (label: String)
    ensures
        label@ == label_text(track@, cfg@),
{
    if same_text(cfg.panel_display.as_str(), "icon_only") {
        String::new()
    } else if same_text(cfg.panel_display.as_str(), "icon_track") {
        truncate(track.title.as_str(), cfg.max_label_chars)
    } else {
        let full = if track.artist.as_str().is_empty() {
            track.title.clone()
        } else {
            joined(joined(track.artist.as_str(), " – ").as_str(), track.title.as_str())
        };
        truncate(full.as_str(), cfg.max_label_chars)
    }
}

/// The label keeps within the limit that is set.
pub proof fn law_label_fits(track: TrackInfoView, config: AppConfigView)
    requires
        config.max_label_chars > 0,
    ensures
        label_text(track, config).len() <= config.max_label_chars,
{
}

/// Without a limit nothing of the label is cut.
pub proof fn law_label_without_limit_is_whole(track: TrackInfoView, config: AppConfigView)
    requires
        config.max_label_chars == 0,
    ensures
        config.panel_display == "icon_track"@ ==> label_text(track, config) == track.title,
        config.panel_display != "icon_only"@ && config.panel_display != "icon_track"@
            ==> label_text(track, config) == full_label(track),
{
    reveal_strlit("icon_only");
    reveal_strlit("icon_track");
    assert("icon_only"@.len() != "icon_track"@.len());
}

/// With "icon only" there is no label, whatever plays; otherwise there is one whenever
/// the track has a title.
pub proof fn law_label_empty_for_icon_only(track: TrackInfoView, config: AppConfigView)
    ensures
        config.panel_display == "icon_only"@ ==> label_text(track, config).len() == 0,
        config.panel_display != "icon_only"@ && track.title.len() > 0 ==> label_text(
            track,
            config,
        ).len() > 0,
{
}

/// What the label shows of a text with a limit: all of it where it fits or there is no
/// limit; otherwise as many characters as the limit allows, the last of them an
/// ellipsis and the others the beginning of the text.
pub open spec fn shows(label: Seq<char>, text: Seq<char>, max: usize) -> bool {
    if max == 0 || text.len() <= max {
        label == text
    } else {
        &&& label.len() == max
        &&& label[max - 1] == '…'
        &&& forall|i: int| 0 <= i < max - 1 ==> #[trigger] label[i] == text[i]
    }
}

/// The label shows the title, or artist, dash and title, as it is set; without an
/// artist the title stands alone. With "icon only" it shows nothing.
pub proof fn law_label_shows_what_is_set(track: TrackInfoView, config: AppConfigView)
    ensures
        config.panel_display == "icon_only"@ ==> label_text(track, config) == Seq::<char>::empty(),
        config.panel_display == "icon_track"@ ==> shows(
            label_text(track, config),
            track.title,
            config.max_label_chars,
        ),
        config.panel_display != "icon_only"@ && config.panel_display != "icon_track"@ ==> shows(
            label_text(track, config),
            if track.artist.len() == 0 {
                track.title
            } else {
                track.artist + seq![' ', '–', ' '] + track.title
            },
            config.max_label_chars,
        ),
{
    reveal_strlit("icon_only");
    reveal_strlit("icon_track");
    reveal_strlit(" – ");
    assert("icon_only"@.len() != "icon_track"@.len());
    assert(" – "@ =~= seq![' ', '–', ' ']);
}

/// The label depends on nothing of the track but artist and title, and on nothing of
/// the settings but what is shown and the limit.
pub proof fn law_label_depends_on_names_only(
    a: TrackInfoView,
    b: TrackInfoView,
    c: AppConfigView,
    d: AppConfigView,
)
    requires
        a.artist == b.artist,
        a.title == b.title,
        c.panel_display == d.panel_display,
        c.max_label_chars == d.max_label_chars,
    ensures
        label_text(a, c) == label_text(b, d),
{
}

/// The icon of each style: Spotify's own in colour or as a symbol, and the note for
/// every other style.
pub proof fn law_icon_of_each_style(style: Seq<char>)
    ensures
        style == "spotify_colored"@ ==> icon_name(style) == "com.spotify.Client"@,
        style == "spotify_symbolic"@ ==> icon_name(style) == "com.spotify.Client-symbolic"@,
        style != "spotify_colored"@ && style != "spotify_symbolic"@ ==> icon_name(style)
            == "audio-x-generic-symbolic"@,
{
    reveal_strlit("spotify_colored");
    reveal_strlit("spotify_symbolic");
    assert("spotify_colored"@.len() != "spotify_symbolic"@.len());
}

/// The play/pause icon is the pause icon exactly while a track plays, and the start icon
/// otherwise.
pub proof fn law_transport_icon_tells_what_press_does(is_playing: bool)
    ensures
        transport_icon(is_playing) == "media-playback-pause-symbolic"@ <==> is_playing,
        transport_icon(is_playing) == "media-playback-start-symbolic"@ <==> !is_playing,
{
    reveal_strlit("media-playback-pause-symbolic");
    reveal_strlit("media-playback-start-symbolic");
    assert("media-playback-pause-symbolic"@[15] == 'p');
    assert("media-playback-start-symbolic"@[15] == 's');
}

/// The label that is built shows the title, or artist, dash and title, as it is set, up
/// to the limit that is set.
pub proof fn law_built_label_shows_what_is_set(track: &TrackInfo, cfg: &AppConfig, label: String)
    requires
        call_ensures(panel_label_text, (track, cfg), label),
    ensures
        cfg.panel_display@ == "icon_only"@ ==> label@.len() == 0,
        cfg.panel_display@ == "icon_track"@ ==> shows(
            label@,
            track.title@,
            cfg.max_label_chars,
        ),
        cfg.panel_display@ != "icon_only"@ && cfg.panel_display@ != "icon_track"@ ==> shows(
            label@,
            if track.artist@.len() == 0 {
                track.title@
            } else {
                track.artist@ + seq![' ', '–', ' '] + track.title@
            },
            cfg.max_label_chars,
        ),
{
    law_label_shows_what_is_set(track@, cfg@);
}

} // verus!
