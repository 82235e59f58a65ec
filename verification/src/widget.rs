//! The parts that the popup is made of.
use std::path::PathBuf;
use vstd::prelude::*;
use vstd::string::*;

use crate::message::{opt_message, Message, MessageView};

verus! {

/// How a button looks.
#[derive(Clone, Copy, Debug, PartialEq, Eq, Structural)]
pub enum ButtonClass {
    Icon,
    Standard,
    Suggested,
    Text,
}

/// The space around a section.
#[derive(Clone, Copy, Debug, PartialEq, Eq, Structural)]
pub struct Padding {
    pub top: u16,
    pub right: u16,
    pub bottom: u16,
    pub left: u16,
}

/// Whether the cells of a section stand side by side or below each other.
#[derive(Clone, Copy, Debug, PartialEq, Eq, Structural)]
pub enum Axis {
    Row,
    Column,
}

/// Where a section and its cells stand.
#[derive(Clone, Copy, Debug, PartialEq, Eq, Structural)]
pub struct Layout {
    pub axis: Axis,
    pub spacing: u16,
    pub padding: Padding,
    /// The cells of a row are centred on its middle line.
    pub align_center: bool,
    /// The section is centred in the width of the popup.
    pub fill_centered: bool,
}

/// A part of a section.
#[derive(Debug)]
pub enum Cell {
    /// A text, with its size; `fill` takes the width that is left, `centered` centres
    /// the text in it.
    Text { text: String, size: u16, fill: bool, centered: bool },
    /// A button with an icon.
    IconButton { icon: &'static str, size: u16, class: ButtonClass, on_press: Message },
    /// A button with a label; without a message it cannot be pressed.
    Button { label: &'static str, class: ButtonClass, on_press: Option<Message> },
    /// Takes the width that is left.
    Space,
}

/// A part of the popup, from top to bottom.
#[derive(Debug)]
pub enum Section<'a> {
    /// Cells side by side or below each other.
    Strip { layout: Layout, cells: Vec<Cell> },
    /// The album art, over the whole width.
    Art { path: &'a PathBuf, height: u16 },
    /// A text in the place of the album art.
    Placeholder { text: &'static str, size: u16, height: u16 },
}

/// A part of a section as plain mathematical values.
#[verifier::ext_equal]
pub enum CellView {
    Text { text: Seq<char>, size: u16, fill: bool, centered: bool },
    IconButton { icon: Seq<char>, size: u16, class: ButtonClass, on_press: MessageView },
    Button { label: Seq<char>, class: ButtonClass, on_press: Option<MessageView> },
    Space,
}

/// A part of the popup as plain mathematical values.
#[verifier::ext_equal]
pub enum SectionView {
    Strip { layout: Layout, cells: Seq<CellView> },
    Art { path: PathBuf, height: u16 },
    Placeholder { text: Seq<char>, size: u16, height: u16 },
}

impl View for Cell {
    type V = CellView;

    open spec fn view(&self) -> CellView {
        match self {
            Cell::Text { text, size, fill, centered } => CellView::Text {
                text: text@,
                size: *size,
                fill: *fill,
                centered: *centered,
            },
            Cell::IconButton { icon, size, class, on_press } => CellView::IconButton {
                icon: icon@,
                size: *size,
                class: *class,
                on_press: on_press@,
            },
            Cell::Button { label, class, on_press } => CellView::Button {
                label: label@,
                class: *class,
                on_press: opt_message(*on_press),
            },
            Cell::Space => CellView::Space,
        }
    }
}

/// The cells as plain mathematical values.
pub open spec fn cells_of(v: Seq<Cell>) -> Seq<CellView> {
    v.map_values(|c: Cell| c@)
}

impl<'a> View for Section<'a> {
    type V = SectionView;

    open spec fn view(&self) -> SectionView {
        match self {
            Section::Strip { layout, cells } => SectionView::Strip {
                layout: *layout,
                cells: cells_of(cells@),
            },
            Section::Art { path, height } => SectionView::Art { path: **path, height: *height },
            Section::Placeholder { text, size, height } => SectionView::Placeholder {
                text: text@,
                size: *size,
                height: *height,
            },
        }
    }
}

/// The sections as plain mathematical values.
pub open spec fn sections_of<'a>(v: Seq<Section<'a>>) -> Seq<SectionView> {
    v.map_values(|s: Section<'a>| s@)
}

/// A row whose cells are centred on its middle line.
pub open spec fn row(spacing: u16, padding: Padding, cells: Seq<CellView>) -> SectionView {
    SectionView::Strip {
        layout: Layout {
            axis: Axis::Row,
            spacing,
            padding,
            align_center: true,
            fill_centered: false,
        },
        cells,
    }
}

/// A column.
pub open spec fn column(spacing: u16, padding: Padding, cells: Seq<CellView>) -> SectionView {
    SectionView::Strip {
        layout: Layout {
            axis: Axis::Column,
            spacing,
            padding,
            align_center: false,
            fill_centered: false,
        },
        cells,
    }
}

/// A row in the middle of the popup.
pub open spec fn middle_row(spacing: u16, padding: Padding, cells: Seq<CellView>) -> SectionView {
    SectionView::Strip {
        layout: Layout {
            axis: Axis::Row,
            spacing,
            padding,
            align_center: true,
            fill_centered: true,
        },
        cells,
    }
}

/// The padding with these sides, from the top clockwise.
pub open spec fn sides(top: u16, right: u16, bottom: u16, left: u16) -> Padding {
    Padding { top, right, bottom, left }
}

/// A text as wide as it is.
pub open spec fn plain(text: Seq<char>, size: u16) -> CellView {
    CellView::Text { text, size, fill: false, centered: false }
}

/// A text over the whole width, in its middle.
pub open spec fn centered(text: Seq<char>, size: u16) -> CellView {
    CellView::Text { text, size, fill: true, centered: true }
}

/// A button that can always be pressed.
pub open spec fn button(label: Seq<char>, on_press: MessageView) -> CellView {
    CellView::Button { label, class: ButtonClass::Standard, on_press: Some(on_press) }
}

/// A button that makes a choice; the choice that is in force cannot be made again.
pub open spec fn choice(label: Seq<char>, chosen: bool, on_press: MessageView) -> CellView {
    CellView::Button {
        label,
        class: ButtonClass::Standard,
        on_press: if chosen {
            None
        } else {
            Some(on_press)
        },
    }
}

pub(crate) fn make_row(spacing: u16, padding: Padding, cells: Vec<Cell>) -> (s: Section<'static>)
    ensures
        s@ == row(spacing, padding, cells_of(cells@)),
{
    Section::Strip {
        layout: Layout {
            axis: Axis::Row,
            spacing,
            padding,
            align_center: true,
            fill_centered: false,
        },
        cells,
    }
}

pub(crate) fn make_column(spacing: u16, padding: Padding, cells: Vec<Cell>) -> (s: Section<'static>)
    ensures
        s@ == column(spacing, padding, cells_of(cells@)),
{
    Section::Strip {
        layout: Layout {
            axis: Axis::Column,
            spacing,
            padding,
            align_center: false,
            fill_centered: false,
        },
        cells,
    }
}

pub(crate) fn make_middle_row(spacing: u16, padding: Padding, cells: Vec<Cell>) -> (s: Section<'static>)
    ensures
        s@ == middle_row(spacing, padding, cells_of(cells@)),
{
    Section::Strip {
        layout: Layout {
            axis: Axis::Row,
            spacing,
            padding,
            align_center: true,
            fill_centered: true,
        },
        cells,
    }
}

pub(crate) fn make_sides(top: u16, right: u16, bottom: u16, left: u16) -> (p: Padding)
    ensures
        p == sides(top, right, bottom, left),
{
    Padding { top, right, bottom, left }
}

pub(crate) fn make_plain(text: &str, size: u16) -> (c: Cell)
    ensures
        c@ == plain(text@, size),
{
    Cell::Text { text: text.to_string(), size, fill: false, centered: false }
}

pub(crate) fn make_centered(text: &str, size: u16) -> (c: Cell)
    ensures
        c@ == centered(text@, size),
{
    Cell::Text { text: text.to_string(), size, fill: true, centered: true }
}

pub(crate) fn make_button(label: &'static str, on_press: Message) -> (c: Cell)
    ensures
        c@ == button(label@, on_press@),
{
    Cell::Button { label, class: ButtonClass::Standard, on_press: Some(on_press) }
}

pub(crate) fn make_choice(label: &'static str, chosen: bool, on_press: Message) -> (c: Cell)
    ensures
        c@ == choice(label@, chosen, on_press@),
{
    Cell::Button {
        label,
        class: ButtonClass::Standard,
        on_press: if chosen {
            None
        } else {
            Some(on_press)
        },
    }
}

/// A layout with a space of 12 to the right and to the left.
pub open spec fn strip_layout(
    axis: Axis,
    spacing: u16,
    top: u16,
    bottom: u16,
    align_center: bool,
    fill_centered: bool,
) -> Layout {
    Layout {
        axis,
        spacing,
        padding: Padding { top, right: 12, bottom, left: 12 },
        align_center,
        fill_centered,
    }
}

/// Whether a cell is a button with this icon, size and look that sends this message.
pub open spec fn is_icon_cell(
    cell: CellView,
    icon: Seq<char>,
    size: u16,
    class: ButtonClass,
    message: MessageView,
) -> bool {
    cell matches CellView::IconButton { icon: i, size: s, class: c, on_press } && i == icon && s
        == size && c == class && on_press == message
}

/// Whether a cell is this text in this size, filling the width or not, centred or not.
pub open spec fn is_text_cell(
    cell: CellView,
    text: Seq<char>,
    size: u16,
    fill: bool,
    centered: bool,
) -> bool {
    cell matches CellView::Text { text: t, size: s, fill: f, centered: c } && t == text && s == size
        && f == fill && c == centered
}

/// Whether a cell is a button with this label and look that sends this message.
pub open spec fn is_label_cell(
    cell: CellView,
    label: Seq<char>,
    class: ButtonClass,
    message: MessageView,
) -> bool {
    cell matches CellView::Button { label: l, class: c, on_press } && l == label && c == class
        && on_press == Some(message)
}

} // verus!
