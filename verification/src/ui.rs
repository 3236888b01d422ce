//! What a frame shows, as plain data for a drawing backend to paint.

use crate::app::{Application, ApplicationView};
use crate::config::{Connection, ConnectionView, Ipv4Address};
use crate::network::status_text;
use crate::text::texts;
use vstd::prelude::*;
use vstd::string::StringExecFns;

verus! {

/// The share of the screen's width that the picker takes, in percent.
pub const PICKER_WIDTH_PERCENT: u16 = 50;

/// The size asked of one strip of a split area.
#[derive(Debug, Clone, Copy, PartialEq, Eq, Structural)]
pub enum Constraint {
    /// So many cells.
    Length(u16),
    /// So many hundredths of the area.
    Percentage(u16),
}

/// How an overlay is cut out of an area: the area is split into three
/// strips from top to bottom, and the middle strip into three from left to
/// right; the overlay is the middle of the middle.
#[derive(Debug, Clone, Copy, PartialEq, Eq)]
pub struct PopupLayout {
    pub vertical: [Constraint; 3],
    pub horizontal: [Constraint; 3],
}

/// The margin that centres a strip of `percent` hundredths: half of the
/// rest, and nothing where the strip asks for more than the whole.
pub open spec fn centered_margin(percent: u16) -> u16 {
    if percent <= 100 {
        ((100 - percent) / 2) as u16
    } else {
        0
    }
}

/// The three strips that centre one of `percent` hundredths.
pub open spec fn centered_strips(percent: u16) -> Seq<Constraint> {
    seq![
        Constraint::Percentage(centered_margin(percent)),
        Constraint::Percentage(percent),
        Constraint::Percentage(centered_margin(percent)),
    ]
}

/// The margin above an overlay of `height` rows centred in `area_height`
/// rows: half of the rows that are left over.
pub open spec fn top_margin(area_height: u16, height: u16) -> u16 {
    if area_height >= height {
        ((area_height - height) / 2) as u16
    } else {
        0
    }
}

/// The rows below an overlay of `height` rows under its top margin.
pub open spec fn bottom_margin(area_height: u16, height: u16) -> u16 {
    let used = top_margin(area_height, height) + height;
    if area_height >= used {
        (area_height - used) as u16
    } else {
        0
    }
}

fn centered(percent: u16) -> (strips: [Constraint; 3])
    ensures
        strips@ == centered_strips(percent),
{
    let margin: u16 = if percent <= 100 {
        (100 - percent) / 2
    } else {
        0
    };
    let strips = [
        Constraint::Percentage(margin),
        Constraint::Percentage(percent),
        Constraint::Percentage(margin),
    ];
    assert(strips@ =~= centered_strips(percent));
    strips
}

/// The layout of an overlay that takes `percent_x` hundredths of the width
/// and `percent_y` hundredths of the height, centred both ways.
pub fn centered_rect(percent_x: u16, percent_y: u16) -> (layout: PopupLayout)
    ensures
        layout.vertical@ == centered_strips(percent_y),
        layout.horizontal@ == centered_strips(percent_x),
{
    PopupLayout { vertical: centered(percent_y), horizontal: centered(percent_x) }
}

/// The layout of an overlay of `height` rows that takes `percent_x`
/// hundredths of the width, centred both ways in an area of `area_height`
/// rows.
pub fn popup_area_with_height(area_height: u16, percent_x: u16, height: u16) -> (layout:
    PopupLayout)
    ensures
        layout.vertical@ == seq![
            Constraint::Length(top_margin(area_height, height)),
            Constraint::Length(height),
            Constraint::Length(bottom_margin(area_height, height)),
        ],
        layout.horizontal@ == centered_strips(percent_x),
{
    let above: u16 = if area_height >= height {
        (area_height - height) / 2
    } else {
        0
    };
    let below: u16 = if area_height >= height {
        area_height - (above + height)
    } else {
        0
    };
    let vertical = [Constraint::Length(above), Constraint::Length(height), Constraint::Length(below)];
    assert(vertical@ =~= seq![
        Constraint::Length(top_margin(area_height, height)),
        Constraint::Length(height),
        Constraint::Length(bottom_margin(area_height, height)),
    ]);
    PopupLayout { vertical, horizontal: centered(percent_x) }
}

/// One row of the picker.
#[derive(Debug)]
pub struct PickerRow {
    pub name: String,
    pub address: Ipv4Address,
    /// Whether this is the highlighted row.
    pub selected: bool,
}

/// One row of the picker as the contracts see it.
pub ghost struct PickerRowView {
    pub name: Seq<char>,
    pub address: Ipv4Address,
    pub selected: bool,
}

impl View for PickerRow {
    type V = PickerRowView;

    open spec fn view(&self) -> PickerRowView {
        PickerRowView { name: self.name@, address: self.address, selected: self.selected }
    }
}

/// The overlay that lists the saved targets.
#[derive(Debug)]
pub struct Picker {
    pub rows: Vec<PickerRow>,
    /// The rows the overlay takes with its border.
    pub height: u16,
}

/// The rows of the picker over `registry` with row `selected` highlighted.
pub open spec fn picker_rows(registry: Seq<ConnectionView>, selected: nat) -> Seq<PickerRowView> {
    Seq::new(
        registry.len(),
        |i: int|
            PickerRowView {
                name: registry[i].name,
                address: registry[i].address,
                selected: i == selected,
            },
    )
}

/// The height of a picker of `count` rows: the rows and a border above and
/// below, as far as a `u16` holds it.
pub open spec fn picker_height(count: nat) -> u16 {
    if count + 2 <= u16::MAX {
        (count + 2) as u16
    } else {
        u16::MAX
    }
}

/// The views of the rows of a picker.
pub open spec fn row_views(rows: Seq<PickerRow>) -> Seq<PickerRowView> {
    rows.map_values(|row: PickerRow| row@)
}

/// What one frame shows.
#[derive(Debug)]
pub struct FrameDescription {
    /// The status line.
    pub status: String,
    /// The lines of the log pane, oldest first.
    pub log: Vec<String>,
    pub globals: Vec<String>,
    /// The input line with its prompt.
    pub input: String,
    /// The picker, where it is shown.
    pub picker: Option<Picker>,
}

/// The status line of a frame: the status text in square brackets.
pub open spec fn status_line(app: ApplicationView) -> Seq<char> {
    "["@ + status_text(app.session, app.tick) + "]"@
}

/// The input line of a frame: the prompt and what was typed.
pub open spec fn input_line(app: ApplicationView) -> Seq<char> {
    "~> "@ + app.input
}

/// A copy of `lines`.
fn copy_lines(lines: &Vec<String>) -> (copy: Vec<String>)
    ensures
        texts(copy@) == texts(lines@),
{
    let mut copy: Vec<String> = Vec::new();
    let mut i: usize = 0;
    while i < lines.len()
        invariant
            i <= lines.len(),
            copy@.len() == i,
            forall|j: int| 0 <= j < i ==> copy@[j]@ == lines@[j]@,
        decreases lines.len() - i,
    {
        copy.push(lines[i].clone());
        i += 1;
    }
    assert(texts(copy@) =~= texts(lines@));
    copy
}

/// The picker over `connections` with row `selection` highlighted.
pub fn render_popup(selection: usize, connections: &Vec<Connection>) -> (picker: Picker)
    ensures
        row_views(picker.rows@) == picker_rows(
            crate::config::views_of(connections@),
            selection as nat,
        ),
        picker.height == picker_height(connections@.len()),
{
    let mut rows: Vec<PickerRow> = Vec::new();
    let mut i: usize = 0;
    while i < connections.len()
        invariant
            i <= connections.len(),
            rows@.len() == i,
            forall|j: int|
                0 <= j < i ==> (#[trigger] rows@[j])@ == (PickerRowView {
                    name: connections@[j].name@,
                    address: connections@[j].address,
                    selected: j == selection,
                }),
        decreases connections.len() - i,
    {
        let connection = &connections[i];
        rows.push(
            PickerRow {
                name: connection.name.clone(),
                address: connection.address,
                selected: i == selection,
            },
        );
        i += 1;
    }
    let height: u16 = if connections.len() <= 65533 {
        (connections.len() + 2) as u16
    } else {
        u16::MAX
    };
    assert(row_views(rows@) =~= picker_rows(
        crate::config::views_of(connections@),
        selection as nat,
    ));
    Picker { rows, height }
}

impl<T> Application<T> {
    /// Describes the frame that shows the current state.
    pub fn draw(&self) -> (frame: FrameDescription)
        ensures
            frame.status@ == status_line(self@),
            texts(frame.log@) == self@.log,
            texts(frame.globals@) == self@.globals,
            frame.input@ == input_line(self@),
            self@.show_popup ==> (frame.picker matches Some(picker) && row_views(picker.rows@)
                == picker_rows(self@.registry, self@.selected) && picker.height == picker_height(
                self@.registry.len(),
            )),
            !self@.show_popup ==> frame.picker is None,
    {
        let mut status = String::from_str("[");
        status.append(self.network_manager.get_address(self.tick).as_str());
        status.append("]");
        let mut input = String::from_str("~> ");
        input.append(self.input.as_str());
        let picker = if self.show_popup {
            Some(render_popup(self.selected_connection, self.config.get_connections()))
        } else {
            None
        };
        FrameDescription {
            status,
            log: copy_lines(&self.log),
            globals: copy_lines(&self.globals),
            input,
            picker,
        }
    }
}

} // verus!
