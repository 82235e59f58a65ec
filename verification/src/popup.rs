//! What the applet shows in its popup: the track that plays, or the settings.
use std::path::PathBuf;
use vstd::prelude::*;
use vstd::string::*;

use crate::label::{play_pause_icon, transport_icon};
use crate::message::{EffectView, Message, MessageView};
use crate::model::{AppModel, AppModelView};
use crate::player::{PlayerState, PlayerStateView, TrackInfo, TrackInfoView};
use crate::settings::{build_settings_view, settings_header};
use crate::text::{
    clock, digit_value, fmt_duration, joined, law_clock_reads_back, read_back, whole_seconds,
};
use crate::widget::{
    button, cells_of, centered, column, is_icon_cell, is_label_cell, is_text_cell, make_button,
    make_centered, make_column, make_middle_row, make_plain, make_row, make_sides, middle_row,
    plain, row, sections_of, sides, strip_layout, Axis, ButtonClass, Cell, CellView, Layout,
    Section, SectionView,
};

verus! {

/// The smallest width of the popup.
pub const POPUP_MIN_WIDTH: u16 = 300;

/// The largest width of the popup.
pub const POPUP_MAX_WIDTH: u16 = 380;

/// The smallest height of the popup.
pub const POPUP_MIN_HEIGHT: u16 = 80;

/// The largest height of the popup.
pub const POPUP_MAX_HEIGHT: u16 = 600;

/// The title of the popup, and the button that shows the settings.
pub open spec fn main_header() -> SectionView {
    row(
        4,
        sides(8, 12, 4, 12),
        seq![
            CellView::Text { text: "Spotify"@, size: 13, fill: true, centered: false },
            CellView::IconButton {
                icon: "preferences-system-symbolic"@,
                size: 18,
                class: ButtonClass::Icon,
                on_press: MessageView::ToggleSettings,
            },
        ],
    )
}

/// What stands in the popup while Spotify does not run.
pub open spec fn not_running_section() -> SectionView {
    column(
        8,
        sides(12, 12, 12, 12),
        seq![
            plain("Spotify is not running"@, 13),
            button("Launch Spotify"@, MessageView::LaunchSpotify),
        ],
    )
}

/// What stands in the popup while Spotify is stopped.
pub open spec fn stopped_section() -> SectionView {
    column(
        8,
        sides(12, 12, 12, 12),
        seq![
            plain("Stopped"@, 13),
            CellView::IconButton {
                icon: "media-playback-start-symbolic"@,
                size: 22,
                class: ButtonClass::Standard,
                on_press: MessageView::PlayPause,
            },
        ],
    )
}

/// The album art where it is there, and a note in its place while it is not.
pub open spec fn art_section(path: Option<PathBuf>) -> SectionView {
    match path {
        Some(path) => SectionView::Art { path, height: 280 },
        None => SectionView::Placeholder { text: "♪"@, size: 48, height: 120 },
    }
}

/// Title, artist and album.
pub open spec fn track_section(t: TrackInfoView) -> SectionView {
    column(
        2,
        sides(8, 12, 4, 12),
        seq![
            centered(t.title, 15),
            centered(
                if t.artist.len() == 0 {
                    "Unknown artist"@
                } else {
                    t.artist
                },
                12,
            ),
            centered(t.album, 11),
        ],
    )
}

/// Position and length of the track.
pub open spec fn progress_section(t: TrackInfoView) -> SectionView {
    middle_row(
        0,
        sides(0, 12, 4, 12),
        seq![
            CellView::Text {
                text: clock(whole_seconds(t.position_us as int)) + " / "@ + clock(
                    whole_seconds(t.length_us as int),
                ),
                size: 11,
                fill: false,
                centered: true,
            },
        ],
    )
}

/// Previous, play/pause and next.
pub open spec fn controls_section(is_playing: bool) -> SectionView {
    middle_row(
        12,
        sides(4, 12, 12, 12),
        seq![
            CellView::IconButton {
                icon: "media-skip-backward-symbolic"@,
                size: 22,
                class: ButtonClass::Standard,
                on_press: MessageView::Previous,
            },
            CellView::IconButton {
                icon: transport_icon(is_playing),
                size: 28,
                class: ButtonClass::Suggested,
                on_press: MessageView::PlayPause,
            },
            CellView::IconButton {
                icon: "media-skip-forward-symbolic"@,
                size: 22,
                class: ButtonClass::Standard,
                on_press: MessageView::Next,
            },
        ],
    )
}

/// The version of the applet.
pub open spec fn footer_section(version: Seq<char>) -> SectionView {
    SectionView::Strip {
        layout: Layout {
            axis: Axis::Row,
            spacing: 0,
            padding: sides(4, 12, 4, 12),
            align_center: false,
            fill_centered: false,
        },
        cells: seq![CellView::Space, plain("v"@ + version, 10)],
    }
}

/// One section where `shown`, none otherwise.
pub open spec fn section_if(shown: bool, section: SectionView) -> Seq<SectionView> {
    if shown {
        seq![section]
    } else {
        seq![]
    }
}

impl AppModelView {
    /// What the popup tells of the player.
    pub open spec fn player_sections(self) -> Seq<SectionView> {
        match self.player {
            PlayerStateView::NotRunning => seq![not_running_section()],
            PlayerStateView::Stopped => seq![stopped_section()],
            PlayerStateView::Active(t) => {
                section_if(self.config.show_album_art, art_section(self.album_art_path))
                    + seq![track_section(t)] + section_if(t.length_us > 0, progress_section(t))
                    + seq![controls_section(t.is_playing)]
            },
        }
    }

    /// The popup with the track that plays.
    pub open spec fn main_view(self, version: Seq<char>) -> Seq<SectionView> {
        seq![main_header()] + self.player_sections() + seq![footer_section(version)]
    }

    /// The popup: the settings where they are shown, the track that plays otherwise.
    pub open spec fn popup_sections(self, version: Seq<char>) -> Seq<SectionView> {
        if self.show_settings {
            self.settings_view()
        } else {
            self.main_view(version)
        }
    }
}

/// Builds the popup with the track that plays.
pub fn build_main_view<'a>(state: &'a AppModel, version: &str) -> (sections: Vec<Section<'a>>)
    ensures
        sections_of(sections@) == state@.main_view(version@),
{
    let mut sections: Vec<Section<'a>> = Vec::new();
    sections.push(header());
    match &state.player {
        PlayerState::NotRunning => {
            let cells = vec![
                make_plain("Spotify is not running", 13),
                make_button("Launch Spotify", Message::LaunchSpotify),
            ];
            assert(cells_of(cells@) =~= seq![
                plain("Spotify is not running"@, 13),
                button("Launch Spotify"@, MessageView::LaunchSpotify),
            ]);
            sections.push(make_column(8, make_sides(12, 12, 12, 12), cells));
        },
        PlayerState::Stopped => {
            sections.push(stopped());
        },
        PlayerState::Active(track) => {
            if state.config.show_album_art {
                match &state.album_art_path {
                    Some(path) => {
                        sections.push(Section::Art { path, height: 280 });
                    },
                    None => {
                        sections.push(
                            Section::Placeholder { text: "♪", size: 48, height: 120 },
                        );
                    },
                }
            }
            sections.push(track_info(track));
            if track.length_us > 0 {
                sections.push(progress(track));
            }
            sections.push(controls(track.is_playing));
        },
    }
    sections.push(footer(version));
    assert(sections_of(sections@) =~= state@.main_view(version@));
    sections
}

/// Builds the popup: the settings where they are shown, the track that plays otherwise.
pub fn popup_view<'a>(state: &'a AppModel, version: &str) -> (sections: Vec<Section<'a>>)
    ensures
        sections_of(sections@) == state@.popup_sections(version@),
{
    if state.show_settings {
        build_settings_view(state)
    } else {
        build_main_view(state, version)
    }
}

fn header() -> (s: Section<'static>)
    ensures
        s@ == main_header(),
{
    let cells = vec![
        Cell::Text { text: "Spotify".to_string(), size: 13, fill: true, centered: false },
        Cell::IconButton {
            icon: "preferences-system-symbolic",
            size: 18,
            class: ButtonClass::Icon,
            on_press: Message::ToggleSettings,
        },
    ];
    let s = make_row(4, make_sides(8, 12, 4, 12), cells);
    assert(s@ =~~= main_header());
    s
}

fn stopped() -> (s: Section<'static>)
    ensures
        s@ == stopped_section(),
{
    let cells = vec![
        make_plain("Stopped", 13),
        Cell::IconButton {
            icon: "media-playback-start-symbolic",
            size: 22,
            class: ButtonClass::Standard,
            on_press: Message::PlayPause,
        },
    ];
    let s = make_column(8, make_sides(12, 12, 12, 12), cells);
    assert(s@ =~~= stopped_section());
    s
}

fn track_info(track: &TrackInfo) -> (s: Section<'static>)
    ensures
        s@ == track_section(track@),
{
    let artist = if track.artist.as_str().is_empty() {
        "Unknown artist"
    } else {
        track.artist.as_str()
    };
    let cells = vec![
        make_centered(track.title.as_str(), 15),
        make_centered(artist, 12),
        make_centered(track.album.as_str(), 11),
    ];
    let s = make_column(2, make_sides(8, 12, 4, 12), cells);
    assert(s@ =~~= track_section(track@));
    s
}

fn progress(track: &TrackInfo) -> (s: Section<'static>)
    ensures
        s@ == progress_section(track@),
{
    let pos = fmt_duration(track.position_us);
    let dur = fmt_duration(track.length_us);
    let text = joined(joined(pos.as_str(), " / ").as_str(), dur.as_str());
    let cells = vec![Cell::Text { text, size: 11, fill: false, centered: true }];
    let s = make_middle_row(0, make_sides(0, 12, 4, 12), cells);
    assert(s@ =~~= progress_section(track@));
    s
}

fn controls(is_playing: bool) -> (s: Section<'static>)
    ensures
        s@ == controls_section(is_playing),
{
    let cells = vec![
        Cell::IconButton {
            icon: "media-skip-backward-symbolic",
            size: 22,
            class: ButtonClass::Standard,
            on_press: Message::Previous,
        },
        Cell::IconButton {
            icon: play_pause_icon(is_playing),
            size: 28,
            class: ButtonClass::Suggested,
            on_press: Message::PlayPause,
        },
        Cell::IconButton {
            icon: "media-skip-forward-symbolic",
            size: 22,
            class: ButtonClass::Standard,
            on_press: Message::Next,
        },
    ];
    let s = make_middle_row(12, make_sides(4, 12, 12, 12), cells);
    assert(s@ =~~= controls_section(is_playing));
    s
}

fn footer(version: &str) -> (s: Section<'static>)
    ensures
        s@ == footer_section(version@),
{
    let cells = vec![Cell::Space, make_plain(joined("v", version).as_str(), 10)];
    let s = Section::Strip {
        layout: Layout {
            axis: Axis::Row,
            spacing: 0,
            padding: make_sides(4, 12, 4, 12),
            align_center: false,
            fill_centered: false,
        },
        cells,
    };
    assert(s@ =~~= footer_section(version@));
    s
}

/// The popup shows album art exactly while a track is current, art is wanted, and it is
/// there; while it is wanted and not there, a note stands in its place.
pub proof fn law_popup_shows_wanted_art(m: AppModelView, version: Seq<char>, path: PathBuf)
    ensures
        m.main_view(version).contains(SectionView::Art { path, height: 280 }) <==> m.player
            is Active && m.config.show_album_art && m.album_art_path == Some(path),
        m.main_view(version).contains(art_section(None)) <==> m.player is Active
            && m.config.show_album_art && m.album_art_path is None,
{
    let v = m.main_view(version);
    if m.player is Active && m.config.show_album_art {
        assert(v[1] == art_section(m.album_art_path));
    }
    lemma_art_comes_first(m, version);
}

/// Art and its placeholder stand nowhere but below the header.
proof fn lemma_art_comes_first(m: AppModelView, version: Seq<char>)
    ensures
        forall|i: int|
            0 <= i < m.main_view(version).len() && !(#[trigger] m.main_view(version)[i] is Strip)
                ==> i == 1 && m.player is Active && m.config.show_album_art && m.main_view(
                version,
            )[i] == art_section(m.album_art_path),
{
}

/// While a track is current the popup shows its title, artist and album, and offers
/// previous, play/pause and next.
pub proof fn law_popup_shows_track_and_controls(
    m: AppModelView,
    version: Seq<char>,
    t: TrackInfoView,
)
    requires
        m.player == PlayerStateView::Active(t),
    ensures
        m.main_view(version).contains(track_section(t)),
        m.main_view(version).contains(controls_section(t.is_playing)),
{
    let v = m.main_view(version);
    let i: int = if m.config.show_album_art { 2 } else { 1 };
    assert(v[i] == track_section(t));
    assert(v[v.len() - 2] == controls_section(t.is_playing));
}

/// The popup shows position and length exactly while the current track has a length.
pub proof fn law_popup_shows_progress_of_known_length(
    m: AppModelView,
    version: Seq<char>,
    t: TrackInfoView,
)
    requires
        m.player == PlayerStateView::Active(t),
    ensures
        m.main_view(version).contains(progress_section(t)) <==> t.length_us > 0,
{
    let v = m.main_view(version);
    let i: int = if m.config.show_album_art { 3 } else { 2 };
    if t.length_us > 0 {
        assert(v[i] == progress_section(t));
    } else {
        assert forall|j: int| 0 <= j < v.len() implies v[j] != progress_section(t) by {
            assert(v[j] is Strip ==> v[j]->layout.padding.top != 0);
        }
    }
}

/// From either view of the popup its header leads to the other, and back.
pub proof fn law_popup_views_lead_to_each_other(m: AppModelView, version: Seq<char>)
    ensures
        m.show_settings ==> m.popup_sections(version)[0] == settings_header(),
        !m.show_settings ==> m.popup_sections(version)[0] == main_header(),
        main_header()->cells[1]->IconButton_on_press == MessageView::ToggleSettings,
        settings_header()->cells[0]->Button_on_press == Some(MessageView::ToggleSettings),
        m.after(MessageView::ToggleSettings).0.show_settings == !m.show_settings,
        m.after(MessageView::ToggleSettings).0.after(MessageView::ToggleSettings).0 == m,
{
}

/// While a track is current the popup offers, above the footer and side by side, the
/// backward icon that goes to the previous track, the play/pause icon that pauses while
/// the track plays and starts it otherwise, and the forward icon that goes to the next.
pub proof fn law_popup_controls_do_what_they_show(
    m: AppModelView,
    version: Seq<char>,
    t: TrackInfoView,
)
    requires
        m.player == PlayerStateView::Active(t),
    ensures
        ({
            let v = m.main_view(version);
            let section = v[v.len() - 2];
            let cells = section->cells;
            &&& v.len() >= 2
            &&& section is Strip
            &&& section->layout == strip_layout(Axis::Row, 12, 4, 12, true, true)
            &&& cells.len() == 3
            &&& is_icon_cell(
                cells[0],
                "media-skip-backward-symbolic"@,
                22,
                ButtonClass::Standard,
                MessageView::Previous,
            )
            &&& is_icon_cell(
                cells[1],
                if t.is_playing {
                    "media-playback-pause-symbolic"@
                } else {
                    "media-playback-start-symbolic"@
                },
                28,
                ButtonClass::Suggested,
                MessageView::PlayPause,
            )
            &&& is_icon_cell(
                cells[2],
                "media-skip-forward-symbolic"@,
                22,
                ButtonClass::Standard,
                MessageView::Next,
            )
            &&& m.after(cells[0]->IconButton_on_press).1 == seq![
                EffectView::PlayerCall { method: "Previous"@, wait_ms: 300 },
            ]
            &&& m.after(cells[1]->IconButton_on_press).1 == seq![
                EffectView::PlayerCall { method: "PlayPause"@, wait_ms: 150 },
            ]
            &&& m.after(cells[2]->IconButton_on_press).1 == seq![
                EffectView::PlayerCall { method: "Next"@, wait_ms: 300 },
            ]
        }),
{
    let v = m.main_view(version);
    assert(v[v.len() - 2] == controls_section(t.is_playing));
}

/// While a track is current the popup is made of the header, the art or its placeholder
/// where art is shown, the track, its progress where its length is known, the controls
/// and the footer. The track is told by title, artist and album, one below the other; an
/// artist that is not known is said to be unknown.
pub proof fn law_popup_tells_the_track(m: AppModelView, version: Seq<char>, t: TrackInfoView)
    requires
        m.player == PlayerStateView::Active(t),
    ensures
        ({
            let v = m.main_view(version);
            let a = if m.config.show_album_art {
                1int
            } else {
                0
            };
            let p = if t.length_us > 0 {
                1int
            } else {
                0
            };
            let section = v[1 + a];
            &&& v.len() == 4 + a + p
            &&& section is Strip
            &&& section->layout == strip_layout(Axis::Column, 2, 8, 4, false, false)
            &&& section->cells.len() == 3
            &&& is_text_cell(
                section->cells[0],
                t.title,
                15,
                true,
                true,
            )
            &&& t.artist.len() > 0 ==> is_text_cell(
                section->cells[1],
                t.artist,
                12,
                true,
                true,
            )
            &&& t.artist.len() == 0 ==> is_text_cell(
                section->cells[1],
                "Unknown artist"@,
                12,
                true,
                true,
            )
            &&& is_text_cell(
                section->cells[2],
                t.album,
                11,
                true,
                true,
            )
        }),
{
    let v = m.main_view(version);
    let i: int = if m.config.show_album_art { 2 } else { 1 };
    assert(v[i] == track_section(t));
}

/// Where art is shown, the art at hand stands below the header, and a note while none is
/// at hand.
pub proof fn law_popup_shows_art_below_header(
    m: AppModelView,
    version: Seq<char>,
    t: TrackInfoView,
)
    requires
        m.player == PlayerStateView::Active(t),
        m.config.show_album_art,
    ensures
        m.album_art_path matches Some(path) ==> m.main_view(version)[1] == (SectionView::Art {
            path,
            height: 280,
        }),
        m.album_art_path is None ==> m.main_view(version)[1] == (SectionView::Placeholder {
            text: "♪"@,
            size: 48,
            height: 120,
        }),
{
    assert(m.main_view(version)[1] == art_section(m.album_art_path));
}

/// Where the length of the track is known, the popup shows below the track the position
/// and then the length, as minutes and seconds that read back as both.
pub proof fn law_popup_progress_reads_back(m: AppModelView, version: Seq<char>, t: TrackInfoView)
    requires
        m.player == PlayerStateView::Active(t),
        t.length_us > 0,
    ensures
        ({
            let section = m.main_view(version)[if m.config.show_album_art {
                3
            } else {
                2
            }];
            let position = clock(whole_seconds(t.position_us as int));
            let length = clock(whole_seconds(t.length_us as int));
            &&& section is Strip
            &&& section->layout == strip_layout(Axis::Row, 0, 0, 4, true, true)
            &&& section->cells.len() == 1
            &&& is_text_cell(
                section->cells[0],
                position + seq![' ', '/', ' '] + length,
                11,
                false,
                true,
            )
            &&& t.position_us >= 0 ==> seconds_shown(position) == t.position_us as int / 1_000_000
            &&& t.position_us < 0 ==> seconds_shown(position) == 0
            &&& seconds_shown(length) == t.length_us as int / 1_000_000
        }),
{
    let v = m.main_view(version);
    let i: int = if m.config.show_album_art { 3 } else { 2 };
    assert(v[i] == progress_section(t));
    reveal_strlit(" / ");
    assert(" / "@ =~= seq![' ', '/', ' ']);
    law_clock_reads_back(t.position_us as int);
    law_clock_reads_back(t.length_us as int);
}

/// The seconds that a text of minutes, a colon and two digits stands for.
pub open spec fn seconds_shown(s: Seq<char>) -> int {
    read_back(s.take(s.len() - 3), 10) * 60 + digit_value(s[s.len() - 2]) * 10 + digit_value(
        s[s.len() - 1],
    )
}

/// While Spotify does not run, the popup says so and offers to launch it. While it is
/// stopped, the popup says so and offers to start it.
pub proof fn law_popup_without_track(m: AppModelView, version: Seq<char>)
    ensures
        m.player is NotRunning ==> {
            let v = m.main_view(version);
            &&& v.len() == 3
            &&& v[1] is Strip
            &&& v[1]->layout == strip_layout(Axis::Column, 8, 12, 12, false, false)
            &&& v[1]->cells.len() == 2
            &&& is_text_cell(
                v[1]->cells[0],
                "Spotify is not running"@,
                13,
                false,
                false,
            )
            &&& is_label_cell(
                v[1]->cells[1],
                "Launch Spotify"@,
                ButtonClass::Standard,
                MessageView::LaunchSpotify,
            )
        },
        m.player is Stopped ==> {
            let v = m.main_view(version);
            &&& v.len() == 3
            &&& v[1] is Strip
            &&& v[1]->layout == strip_layout(Axis::Column, 8, 12, 12, false, false)
            &&& v[1]->cells.len() == 2
            &&& is_text_cell(
                v[1]->cells[0],
                "Stopped"@,
                13,
                false,
                false,
            )
            &&& is_icon_cell(
                v[1]->cells[1],
                "media-playback-start-symbolic"@,
                22,
                ButtonClass::Standard,
                MessageView::PlayPause,
            )
        },
{
}

/// Whatever plays, the popup with the track begins with the title and the button that
/// shows the settings, and ends with the version at the right.
pub proof fn law_popup_header_and_footer(m: AppModelView, version: Seq<char>)
    ensures
        ({
            let v = m.main_view(version);
            let top = v[0];
            let bottom = v[v.len() - 1];
            &&& v.len() >= 3
            &&& top is Strip
            &&& top->layout == strip_layout(Axis::Row, 4, 8, 4, true, false)
            &&& top->cells.len() == 2
            &&& is_text_cell(
                top->cells[0],
                "Spotify"@,
                13,
                true,
                false,
            )
            &&& is_icon_cell(
                top->cells[1],
                "preferences-system-symbolic"@,
                18,
                ButtonClass::Icon,
                MessageView::ToggleSettings,
            )
            &&& bottom is Strip
            &&& bottom->layout == strip_layout(Axis::Row, 0, 4, 4, false, false)
            &&& bottom->cells.len() == 2
            &&& bottom->cells[0] == CellView::Space
            &&& is_text_cell(
                bottom->cells[1],
                seq!['v'] + version,
                10,
                false,
                false,
            )
        }),
{
    reveal_strlit("v");
    assert("v"@ =~= seq!['v']);
}

/// The popup is the settings while they are shown, and the view with the track
/// otherwise.
pub proof fn law_popup_is_one_of_two_views(m: AppModelView, version: Seq<char>)
    ensures
        m.show_settings ==> m.popup_sections(version) == m.settings_view(),
        !m.show_settings ==> m.popup_sections(version) == m.main_view(version),
{
}

/// The popup that is built for a current track has the three controls above its footer,
/// each with the icon of what it does.
pub proof fn law_built_popup_has_controls<'a>(
    state: &'a AppModel,
    version: &str,
    sections: Vec<Section<'a>>,
)
    requires
        call_ensures(build_main_view, (state, version), sections),
        state.player is Active,
    ensures
        ({
            let n = sections@.len() as int;
            let cells = sections@[n - 2]->cells@;
            &&& n >= 4
            &&& sections@[n - 2] is Strip
            &&& cells.len() == 3
            &&& cells[0] matches Cell::IconButton { icon, on_press, .. } && icon@
                == "media-skip-backward-symbolic"@ && on_press is Previous
            &&& cells[1] matches Cell::IconButton { icon, on_press, .. } && icon@ == (
            if state.player->Active_0.is_playing {
                "media-playback-pause-symbolic"@
            } else {
                "media-playback-start-symbolic"@
            }) && on_press is PlayPause
            &&& cells[2] matches Cell::IconButton { icon, on_press, .. } && icon@
                == "media-skip-forward-symbolic"@ && on_press is Next
        }),
{
    let t = state.player->Active_0@;
    law_popup_controls_do_what_they_show(state@, version@, t);
    law_popup_tells_the_track(state@, version@, t);
    let v = state@.main_view(version@);
    let n = sections@.len() as int;
    assert(sections_of(sections@).len() == sections@.len());
    assert(v[n - 2] == sections@[n - 2]@);
    let cells = sections@[n - 2]->cells@;
    assert(v[n - 2]->cells == cells_of(cells));
    assert(v[n - 2]->cells[0] == cells[0]@);
    assert(v[n - 2]->cells[1] == cells[1]@);
    assert(v[n - 2]->cells[2] == cells[2]@);
    assert(cells[0] is IconButton && cells[1] is IconButton && cells[2] is IconButton);
    assert(cells[0]->IconButton_on_press@ is Previous);
    assert(cells[1]->IconButton_on_press@ is PlayPause);
    assert(cells[2]->IconButton_on_press@ is Next);
}

/// The popup is 300 to 380 wide and 80 to 600 high.
pub proof fn law_popup_size()
    ensures
        POPUP_MIN_WIDTH == 300,
        POPUP_MAX_WIDTH == 380,
        POPUP_MIN_HEIGHT == 80,
        POPUP_MAX_HEIGHT == 600,
{
}

} // verus!
