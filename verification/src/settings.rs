//! The settings in the popup.
use vstd::prelude::*;
use vstd::string::*;

use crate::config::AppConfigView;
use crate::message::{Message, MessageView};
use crate::model::{AppModel, AppModelView};
use crate::text::{
    digit_value, joined, law_numeral_reads_back, numeral, numeral_text, read_back, same_text,
};
use crate::widget::{
    button, cells_of, choice, column, is_label_cell, is_text_cell, make_button, make_choice, make_column, make_plain, make_row,
    make_sides, plain, row, sections_of, sides, strip_layout, Axis, ButtonClass, Cell, CellView,
    Section, SectionView,
};

verus! {

/// The way back to the track that plays.
pub open spec fn settings_header() -> SectionView {
    row(
        0,
        sides(8, 12, 4, 12),
        seq![
            CellView::Button {
                label: "← Back"@,
                class: ButtonClass::Text,
                on_press: Some(MessageView::ToggleSettings),
            },
            CellView::Space,
            plain("Settings"@, 13),
        ],
    )
}

/// The heading of a group of settings.
pub open spec fn heading(text: Seq<char>) -> SectionView {
    column(0, sides(6, 12, 2, 12), seq![plain(text, 11)])
}

/// A choice of what the panel shows.
pub open spec fn display_choice(
    config: AppConfigView,
    label: Seq<char>,
    value: Seq<char>,
) -> CellView {
    choice(label, config.panel_display == value, MessageView::SetPanelDisplay(value))
}

/// A choice of the longest label.
pub open spec fn limit_choice(config: AppConfigView, label: Seq<char>, value: usize) -> CellView {
    choice(label, config.max_label_chars == value, MessageView::SetMaxLabelChars(value))
}

/// A choice of the icon.
pub open spec fn icon_choice(config: AppConfigView, label: Seq<char>, value: Seq<char>) -> CellView {
    choice(label, config.icon_style == value, MessageView::SetIconStyle(value))
}

/// A choice of the time between two queries.
pub open spec fn interval_choice(config: AppConfigView, label: Seq<char>, value: u32) -> CellView {
    choice(label, config.poll_interval_secs == value, MessageView::SetPollInterval(value))
}

/// A switch, labelled with its position.
pub open spec fn switch(
    on: bool,
    on_label: Seq<char>,
    off_label: Seq<char>,
    on_press: MessageView,
) -> CellView {
    button(
        if on {
            on_label
        } else {
            off_label
        },
        on_press,
    )
}

/// The longest label that is set.
pub open spec fn limit_text(max: usize) -> Seq<char> {
    "Label max chars: "@ + if max == 0 {
        "∞"@
    } else {
        numeral(max as nat, 10)
    }
}

impl AppModelView {
    /// The popup with the settings.
    pub open spec fn settings_view(self) -> Seq<SectionView> {
        let c = self.config;
        seq![
            settings_header(),
            heading("Panel label"@),
            row(
                6,
                sides(2, 12, 4, 12),
                seq![
                    display_choice(c, "Icon only"@, "icon_only"@),
                    display_choice(c, "Icon + Track"@, "icon_track"@),
                    display_choice(c, "Artist + Track"@, "icon_artist_track"@),
                ],
            ),
            row(
                4,
                sides(2, 12, 6, 12),
                seq![
                    CellView::Text {
                        text: limit_text(c.max_label_chars),
                        size: 11,
                        fill: true,
                        centered: false,
                    },
                    limit_choice(c, "20"@, 20),
                    limit_choice(c, "30"@, 30),
                    limit_choice(c, "40"@, 40),
                    limit_choice(c, "60"@, 60),
                    limit_choice(c, "∞"@, 0),
                ],
            ),
            heading("Panel controls"@),
            row(
                6,
                sides(2, 12, 6, 12),
                seq![
                    switch(
                        c.show_play_panel,
                        "Play/pause: ON"@,
                        "Play/pause: OFF"@,
                        MessageView::ToggleShowPlayPanel,
                    ),
                    switch(
                        c.show_next_panel,
                        "Next: ON"@,
                        "Next: OFF"@,
                        MessageView::ToggleShowNextPanel,
                    ),
                    switch(
                        c.show_prev_panel,
                        "Prev: ON"@,
                        "Prev: OFF"@,
                        MessageView::ToggleShowPrevPanel,
                    ),
                ],
            ),
            heading("Panel icon"@),
            row(
                6,
                sides(2, 12, 6, 12),
                seq![
                    icon_choice(c, "♪ Note (B&W)"@, "note_symbolic"@),
                    icon_choice(c, "Spotify (color)"@, "spotify_colored"@),
                    icon_choice(c, "Spotify (B&W)"@, "spotify_symbolic"@),
                ],
            ),
            column(
                0,
                sides(2, 12, 6, 12),
                seq![
                    switch(
                        c.show_album_art,
                        "Album art in popup: ON"@,
                        "Album art in popup: OFF"@,
                        MessageView::ToggleShowAlbumArt,
                    ),
                ],
            ),
            heading("Refresh interval"@),
            row(
                6,
                sides(2, 12, 8, 12),
                seq![
                    interval_choice(c, "1s"@, 1),
                    interval_choice(c, "3s"@, 3),
                    interval_choice(c, "5s"@, 5),
                    interval_choice(c, "10s"@, 10),
                ],
            ),
        ]
    }
}

fn make_heading(text: &str) -> (s: Section<'static>)
    ensures
        s@ == heading(text@),
{
    let s = make_column(0, make_sides(6, 12, 2, 12), vec![make_plain(text, 11)]);
    assert(s@ =~~= heading(text@));
    s
}

fn make_switch(
    on: bool,
    on_label: &'static str,
    off_label: &'static str,
    on_press: Message,
) -> (c: Cell)
    ensures
        c@ == switch(on, on_label@, off_label@, on_press@),
{
    make_button(
        if on {
            on_label
        } else {
            off_label
        },
        on_press,
    )
}

impl AppModel {
    fn display_cell(&self, label: &'static str, value: &str) -> (c: Cell)
        ensures
            c@ == display_choice(self@.config, label@, value@),
    {
        make_choice(
            label,
            same_text(self.config.panel_display.as_str(), value),
            Message::SetPanelDisplay(value.to_string()),
        )
    }

    fn limit_cell(&self, label: &'static str, value: usize) -> (c: Cell)
        ensures
            c@ == limit_choice(self@.config, label@, value),
    {
        make_choice(label, self.config.max_label_chars == value, Message::SetMaxLabelChars(value))
    }

    fn icon_cell(&self, label: &'static str, value: &str) -> (c: Cell)
        ensures
            c@ == icon_choice(self@.config, label@, value@),
    {
        make_choice(
            label,
            same_text(self.config.icon_style.as_str(), value),
            Message::SetIconStyle(value.to_string()),
        )
    }

    fn interval_cell(&self, label: &'static str, value: u32) -> (c: Cell)
        ensures
            c@ == interval_choice(self@.config, label@, value),
    {
        make_choice(label, self.config.poll_interval_secs == value, Message::SetPollInterval(value))
    }

    fn limit_label(&self) -> (c: Cell)
        ensures
            c@ == (CellView::Text {
                text: limit_text(self@.config.max_label_chars),
                size: 11,
                fill: true,
                centered: false,
            }),
    {
        let max: usize = self.config.max_label_chars;
        let text = if max == 0 {
            joined("Label max chars: ", "∞")
        } else {
            joined("Label max chars: ", numeral_text(max as u64, 10).as_str())
        };
        Cell::Text { text, size: 11, fill: true, centered: false }
    }
}

/// Builds the popup with the settings.
pub fn build_settings_view(state: &AppModel) -> (sections: Vec<Section<'static>>)
    ensures
        sections_of(sections@) == state@.settings_view(),
{
    let header = make_row(
        0,
        make_sides(8, 12, 4, 12),
        vec![
            Cell::Button {
                label: "← Back",
                class: ButtonClass::Text,
                on_press: Some(Message::ToggleSettings),
            },
            Cell::Space,
            make_plain("Settings", 13),
        ],
    );
    let display = make_row(
        6,
        make_sides(2, 12, 4, 12),
        vec![
            state.display_cell("Icon only", "icon_only"),
            state.display_cell("Icon + Track", "icon_track"),
            state.display_cell("Artist + Track", "icon_artist_track"),
        ],
    );
    let limit = make_row(
        4,
        make_sides(2, 12, 6, 12),
        vec![
            state.limit_label(),
            state.limit_cell("20", 20),
            state.limit_cell("30", 30),
            state.limit_cell("40", 40),
            state.limit_cell("60", 60),
            state.limit_cell("∞", 0),
        ],
    );
    let controls = make_row(
        6,
        make_sides(2, 12, 6, 12),
        vec![
            make_switch(
                state.config.show_play_panel,
                "Play/pause: ON",
                "Play/pause: OFF",
                Message::ToggleShowPlayPanel,
            ),
            make_switch(
                state.config.show_next_panel,
                "Next: ON",
                "Next: OFF",
                Message::ToggleShowNextPanel,
            ),
            make_switch(
                state.config.show_prev_panel,
                "Prev: ON",
                "Prev: OFF",
                Message::ToggleShowPrevPanel,
            ),
        ],
    );
    let icon = make_row(
        6,
        make_sides(2, 12, 6, 12),
        vec![
            state.icon_cell("♪ Note (B&W)", "note_symbolic"),
            state.icon_cell("Spotify (color)", "spotify_colored"),
            state.icon_cell("Spotify (B&W)", "spotify_symbolic"),
        ],
    );
    let art = make_column(
        0,
        make_sides(2, 12, 6, 12),
        vec![
            make_switch(
                state.config.show_album_art,
                "Album art in popup: ON",
                "Album art in popup: OFF",
                Message::ToggleShowAlbumArt,
            ),
        ],
    );
    let interval = make_row(
        6,
        make_sides(2, 12, 8, 12),
        vec![
            state.interval_cell("1s", 1),
            state.interval_cell("3s", 3),
            state.interval_cell("5s", 5),
            state.interval_cell("10s", 10),
        ],
    );
    let sections = vec![
        header,
        make_heading("Panel label"),
        display,
        limit,
        make_heading("Panel controls"),
        controls,
        make_heading("Panel icon"),
        icon,
        art,
        make_heading("Refresh interval"),
        interval,
    ];
    let ghost expected = state@.settings_view();
    assert(header@ =~~= expected[0]);
    assert(display@ =~~= expected[2]);
    assert(limit@ =~~= expected[3]);
    assert(controls@ =~~= expected[5]);
    assert(icon@ =~~= expected[7]);
    assert(art@ =~~= expected[8]);
    assert(interval@ =~~= expected[10]);
    assert(sections_of(sections@) =~= expected);
    sections
}

/// The cell at a place of the settings.
pub open spec fn settings_cell(m: AppModelView, i: int, j: int) -> CellView {
    m.settings_view()[i]->cells[j]
}

/// Pressing the button of a choice puts the choice in force: the setting changes, and
/// the button cannot be pressed again.
pub proof fn law_pressed_choice_is_in_force(m: AppModelView, i: int, j: int, message: MessageView)
    requires
        0 <= i < m.settings_view().len(),
        0 <= j < m.settings_view()[i]->cells.len(),
        settings_cell(m, i, j) matches CellView::Button { on_press, .. } && on_press == Some(
            message,
        ),
        message is SetPanelDisplay || message is SetMaxLabelChars || message is SetIconStyle
            || message is SetPollInterval,
    ensures
        m.after(message).0.config != m.config,
        settings_cell(m.after(message).0, i, j) is Button,
        settings_cell(m.after(message).0, i, j)->Button_on_press is None,
{
    assert(i == 0 || i == 1 || i == 2 || i == 3 || i == 4 || i == 5 || i == 6 || i == 7 || i == 8
        || i == 9 || i == 10);
    let n = m.after(message).0;
    if i == 2 {
        assert(j == 0 || j == 1 || j == 2);
        assert(message is SetPanelDisplay);
        assert(n.config.panel_display != m.config.panel_display);
    } else if i == 3 {
        assert(j == 0 || j == 1 || j == 2 || j == 3 || j == 4 || j == 5);
        assert(message is SetMaxLabelChars);
        assert(n.config.max_label_chars != m.config.max_label_chars);
    } else if i == 7 {
        assert(j == 0 || j == 1 || j == 2);
        assert(message is SetIconStyle);
        assert(n.config.icon_style != m.config.icon_style);
    } else if i == 10 {
        assert(j == 0 || j == 1 || j == 2 || j == 3);
        assert(message is SetPollInterval);
        assert(n.config.poll_interval_secs != m.config.poll_interval_secs);
    }
}

/// In a row of choices at most one is in force: of any two buttons one can be pressed.
pub proof fn law_one_choice_in_force(m: AppModelView, i: int, j: int, k: int)
    requires
        0 <= i < m.settings_view().len(),
        0 <= j < m.settings_view()[i]->cells.len(),
        0 <= k < m.settings_view()[i]->cells.len(),
        j != k,
        settings_cell(m, i, j) is Button,
        settings_cell(m, i, k) is Button,
    ensures
        settings_cell(m, i, j)->Button_on_press is Some || settings_cell(
            m,
            i,
            k,
        )->Button_on_press is Some,
{
    assert(i == 0 || i == 1 || i == 2 || i == 3 || i == 4 || i == 5 || i == 6 || i == 7 || i == 8
        || i == 9 || i == 10);
    assert(j == 0 || j == 1 || j == 2 || j == 3 || j == 4 || j == 5);
    assert(k == 0 || k == 1 || k == 2 || k == 3 || k == 4 || k == 5);
    reveal_strlit("icon_only");
    reveal_strlit("icon_track");
    reveal_strlit("icon_artist_track");
    reveal_strlit("note_symbolic");
    reveal_strlit("spotify_colored");
    reveal_strlit("spotify_symbolic");
    assert("icon_only"@.len() == 9 && "icon_track"@.len() == 10 && "icon_artist_track"@.len()
        == 17);
    assert("note_symbolic"@.len() == 13 && "spotify_colored"@.len() == 15
        && "spotify_symbolic"@.len() == 16);
}

/// Whether a cell is a button with this label that sends the message, unless what it
/// offers is in force already: then it cannot be pressed.
pub open spec fn is_choice(
    cell: CellView,
    label: Seq<char>,
    in_force: bool,
    message: MessageView,
) -> bool {
    cell matches CellView::Button { label: l, class, on_press } && l == label && class
        == ButtonClass::Standard && (in_force ==> on_press is None) && (!in_force ==> on_press
        == Some(message))
}

/// The settings begin with the way back to the track, and are headed by what they are
/// about: the label, the controls and the icon in the panel, and the refresh interval.
pub proof fn law_settings_are_headed(m: AppModelView)
    ensures
        ({
            let v = m.settings_view();
            &&& v.len() == 11
            &&& v[0] is Strip
            &&& v[0]->layout == strip_layout(Axis::Row, 0, 8, 4, true, false)
            &&& v[0]->cells.len() == 3
            &&& is_label_cell(
                v[0]->cells[0],
                "← Back"@,
                ButtonClass::Text,
                MessageView::ToggleSettings,
            )
            &&& v[0]->cells[1] == CellView::Space
            &&& is_text_cell(
                v[0]->cells[2],
                "Settings"@,
                13,
                false,
                false,
            )
            &&& v[1] is Strip
            &&& v[1]->layout == strip_layout(Axis::Column, 0, 6, 2, false, false)
            &&& v[1]->cells.len() == 1
            &&& is_text_cell(
                v[1]->cells[0],
                "Panel label"@,
                11,
                false,
                false,
            )
            &&& v[4] is Strip
            &&& v[4]->layout == strip_layout(Axis::Column, 0, 6, 2, false, false)
            &&& v[4]->cells.len() == 1
            &&& is_text_cell(
                v[4]->cells[0],
                "Panel controls"@,
                11,
                false,
                false,
            )
            &&& v[6] is Strip
            &&& v[6]->layout == strip_layout(Axis::Column, 0, 6, 2, false, false)
            &&& v[6]->cells.len() == 1
            &&& is_text_cell(
                v[6]->cells[0],
                "Panel icon"@,
                11,
                false,
                false,
            )
            &&& v[9] is Strip
            &&& v[9]->layout == strip_layout(Axis::Column, 0, 6, 2, false, false)
            &&& v[9]->cells.len() == 1
            &&& is_text_cell(
                v[9]->cells[0],
                "Refresh interval"@,
                11,
                false,
                false,
            )
        }),
{
}

/// What the panel shows beside the icon can be chosen among nothing, the track, and
/// artist and track.
pub proof fn law_settings_offer_labels(m: AppModelView)
    ensures
        ({
            let v = m.settings_view();
            &&& v[2] is Strip
            &&& v[2]->layout == strip_layout(Axis::Row, 6, 2, 4, true, false)
            &&& v[2]->cells.len() == 3
            &&& is_choice(
                v[2]->cells[0],
                "Icon only"@,
                m.config.panel_display == "icon_only"@,
                MessageView::SetPanelDisplay("icon_only"@),
            )
            &&& is_choice(
                v[2]->cells[1],
                "Icon + Track"@,
                m.config.panel_display == "icon_track"@,
                MessageView::SetPanelDisplay("icon_track"@),
            )
            &&& is_choice(
                v[2]->cells[2],
                "Artist + Track"@,
                m.config.panel_display == "icon_artist_track"@,
                MessageView::SetPanelDisplay("icon_artist_track"@),
            )
        }),
{
}

/// The limit of the label can be chosen among 20, 30, 40 and 60 characters and none. The
/// limit that is set is told beside the choices, as the numeral that reads back as it.
pub proof fn law_settings_offer_limits(m: AppModelView)
    ensures
        ({
            let v = m.settings_view();
            &&& v[3] is Strip
            &&& v[3]->layout == strip_layout(Axis::Row, 4, 2, 6, true, false)
            &&& v[3]->cells.len() == 6
            &&& is_choice(
                v[3]->cells[1],
                "20"@,
                m.config.max_label_chars == 20,
                MessageView::SetMaxLabelChars(20),
            )
            &&& is_choice(
                v[3]->cells[2],
                "30"@,
                m.config.max_label_chars == 30,
                MessageView::SetMaxLabelChars(30),
            )
            &&& is_choice(
                v[3]->cells[3],
                "40"@,
                m.config.max_label_chars == 40,
                MessageView::SetMaxLabelChars(40),
            )
            &&& is_choice(
                v[3]->cells[4],
                "60"@,
                m.config.max_label_chars == 60,
                MessageView::SetMaxLabelChars(60),
            )
            &&& is_choice(
                v[3]->cells[5],
                "∞"@,
                m.config.max_label_chars == 0,
                MessageView::SetMaxLabelChars(0),
            )
            &&& v[3]->cells[0] matches CellView::Text { text, size, fill, centered } && size == 11
                && fill && !centered && text.take(17) == "Label max chars: "@ && (
            if m.config.max_label_chars == 0 {
                text.skip(17) == seq!['∞']
            } else {
                &&& read_back(text.skip(17), 10) == m.config.max_label_chars
                &&& text.skip(17).len() > 0
                &&& text[17] != '0'
                &&& forall|i: int|
                    17 <= i < text.len() ==> 0 <= digit_value(#[trigger] text[i]) < 10
            })
        }),
{
    let max = m.config.max_label_chars;
    let text = limit_text(max);
    reveal_strlit("Label max chars: ");
    reveal_strlit("∞");
    assert("Label max chars: "@.len() == 17);
    assert(text.take(17) =~= "Label max chars: "@);
    if max == 0 {
        assert(text.skip(17) =~= seq!['∞']);
    } else {
        let digits = numeral(max as nat, 10);
        law_numeral_reads_back(max as nat, 10);
        assert(text.skip(17) =~= digits);
        assert forall|i: int| 17 <= i < text.len() implies 0 <= digit_value(#[trigger] text[i])
            < 10 by {
            assert(text[i] == digits[i - 17]);
        }
        assert(text[17] == digits[0]);
    }
}

/// Each control of the panel has a switch that tells whether it is shown and turns that
/// over, and so has the album art.
pub proof fn law_settings_offer_switches(m: AppModelView)
    ensures
        ({
            let v = m.settings_view();
            &&& v[5] is Strip
            &&& v[5]->layout == strip_layout(Axis::Row, 6, 2, 6, true, false)
            &&& v[5]->cells.len() == 3
            &&& is_label_cell(
                v[5]->cells[0],
                if m.config.show_play_panel {
                    "Play/pause: ON"@
                } else {
                    "Play/pause: OFF"@
                },
                ButtonClass::Standard,
                MessageView::ToggleShowPlayPanel,
            )
            &&& is_label_cell(
                v[5]->cells[1],
                if m.config.show_next_panel {
                    "Next: ON"@
                } else {
                    "Next: OFF"@
                },
                ButtonClass::Standard,
                MessageView::ToggleShowNextPanel,
            )
            &&& is_label_cell(
                v[5]->cells[2],
                if m.config.show_prev_panel {
                    "Prev: ON"@
                } else {
                    "Prev: OFF"@
                },
                ButtonClass::Standard,
                MessageView::ToggleShowPrevPanel,
            )
            &&& v[8] is Strip
            &&& v[8]->layout == strip_layout(Axis::Column, 0, 2, 6, false, false)
            &&& v[8]->cells.len() == 1
            &&& is_label_cell(
                v[8]->cells[0],
                if m.config.show_album_art {
                    "Album art in popup: ON"@
                } else {
                    "Album art in popup: OFF"@
                },
                ButtonClass::Standard,
                MessageView::ToggleShowAlbumArt,
            )
        }),
{
}

/// The icon can be chosen among the note and Spotify's own in colour or as a symbol.
pub proof fn law_settings_offer_icons(m: AppModelView)
    ensures
        ({
            let v = m.settings_view();
            &&& v[7] is Strip
            &&& v[7]->layout == strip_layout(Axis::Row, 6, 2, 6, true, false)
            &&& v[7]->cells.len() == 3
            &&& is_choice(
                v[7]->cells[0],
                "♪ Note (B&W)"@,
                m.config.icon_style == "note_symbolic"@,
                MessageView::SetIconStyle("note_symbolic"@),
            )
            &&& is_choice(
                v[7]->cells[1],
                "Spotify (color)"@,
                m.config.icon_style == "spotify_colored"@,
                MessageView::SetIconStyle("spotify_colored"@),
            )
            &&& is_choice(
                v[7]->cells[2],
                "Spotify (B&W)"@,
                m.config.icon_style == "spotify_symbolic"@,
                MessageView::SetIconStyle("spotify_symbolic"@),
            )
        }),
{
}

/// The time between two queries can be chosen among 1, 3, 5 and 10 seconds.
pub proof fn law_settings_offer_intervals(m: AppModelView)
    ensures
        ({
            let v = m.settings_view();
            &&& v[10] is Strip
            &&& v[10]->layout == strip_layout(Axis::Row, 6, 2, 8, true, false)
            &&& v[10]->cells.len() == 4
            &&& is_choice(
                v[10]->cells[0],
                "1s"@,
                m.config.poll_interval_secs == 1,
                MessageView::SetPollInterval(1),
            )
            &&& is_choice(
                v[10]->cells[1],
                "3s"@,
                m.config.poll_interval_secs == 3,
                MessageView::SetPollInterval(3),
            )
            &&& is_choice(
                v[10]->cells[2],
                "5s"@,
                m.config.poll_interval_secs == 5,
                MessageView::SetPollInterval(5),
            )
            &&& is_choice(
                v[10]->cells[3],
                "10s"@,
                m.config.poll_interval_secs == 10,
                MessageView::SetPollInterval(10),
            )
        }),
{
}

} // verus!
