//! What the dashboard draws.
use super::cursor;
use super::state;
use super::state::{App, AppMode};
use crate::protocol;
use crate::protocol::{SyncDirection, SyncMode, SyncTask};
use crate::text;
use ratatui::layout::{Constraint, Direction, Layout, Rect};
use vstd::prelude::*;

verus! {

// ---------------------------------------------------------------------------
// Areas
// ---------------------------------------------------------------------------
/// A part of the screen.
#[derive(Debug, Clone, Copy, PartialEq, Eq, Structural)]
pub struct Area {
    pub x: u16,
    pub y: u16,
    pub width: u16,
    pub height: u16,
}

/// Which way an area is split.
#[derive(Debug, Clone, Copy, PartialEq, Eq, Structural)]
pub enum Axis {
    Vertical,
    Horizontal,
}

/// How much of an area a piece wants.
#[derive(Debug, Clone, Copy, PartialEq, Eq, Structural)]
pub enum Share {
    /// So many percent.
    Percentage(u16),
    /// At least so many cells.
    Min(u16),
    /// So many cells.
    Length(u16),
}

/// Whether an area lies in another one.
pub open spec fn lies_in(outer: Area, inner: Area) -> bool {
    &&& outer.x <= inner.x
    &&& inner.x + inner.width <= outer.x + outer.width
    &&& outer.y <= inner.y
    &&& inner.y + inner.height <= outer.y + outer.height
}

/// Whether a piece is as wide, or as high, as the area that was split.
pub open spec fn spans(axis: Axis, area: Area, piece: Area) -> bool {
    match axis {
        Axis::Vertical => piece.x == area.x && piece.width == area.width,
        Axis::Horizontal => piece.y == area.y && piece.height == area.height,
    }
}

/// Whether pieces can come of splitting an area: one for each share, each in the area and across
/// all of it.
pub open spec fn is_split(axis: Axis, shares: Seq<Share>, area: Area, pieces: Seq<Area>) -> bool {
    &&& pieces.len() == shares.len()
    &&& forall|i: int|
        0 <= i < pieces.len() ==> spans(axis, area, #[trigger] pieces[i]) && lies_in(
            area,
            pieces[i],
        )
}

/// Where an area begins, along an axis.
pub open spec fn start_of(axis: Axis, area: Area) -> int {
    match axis {
        Axis::Vertical => area.y as int,
        Axis::Horizontal => area.x as int,
    }
}

/// How high or wide an area is, along an axis.
pub open spec fn extent_of(axis: Axis, area: Area) -> int {
    match axis {
        Axis::Vertical => area.height as int,
        Axis::Horizontal => area.width as int,
    }
}

/// Whether an area ends where coordinates still reach.
pub open spec fn is_in_reach(axis: Axis, area: Area) -> bool {
    start_of(axis, area) + extent_of(axis, area) <= u16::MAX
}

/// The cell at so many percent of a stretch, to the nearest one.
pub open spec fn edge(start: int, size: int, percent: int) -> int {
    (100 * start + percent * size + 50) / 100
}

/// Whether every share is in percent.
pub open spec fn are_percentages(shares: Seq<Share>) -> bool {
    forall|i: int| 0 <= i < shares.len() ==> #[trigger] shares[i] is Percentage
}

/// How many percent the first `n` shares take.
pub open spec fn percent_before(shares: Seq<Share>, n: int) -> int
    decreases n,
{
    if n <= 0 {
        0
    } else {
        percent_before(shares, n - 1) + shares[n - 1]->Percentage_0
    }
}

/// Whether a piece reaches from one share of an area in percent to another.
pub open spec fn reaches(axis: Axis, area: Area, from: int, to: int, piece: Area) -> bool {
    &&& start_of(axis, piece) == edge(start_of(axis, area), extent_of(axis, area), from)
    &&& start_of(axis, piece) + extent_of(axis, piece) == edge(
        start_of(axis, area),
        extent_of(axis, area),
        to,
    )
}

/// Whether pieces follow each other, each as large as its share in percent.
pub open spec fn is_in_proportion(
    axis: Axis,
    shares: Seq<Share>,
    area: Area,
    pieces: Seq<Area>,
) -> bool {
    forall|i: int|
        0 <= i < pieces.len() ==> reaches(
            axis,
            area,
            percent_before(shares, i),
            percent_before(shares, i + 1),
            #[trigger] pieces[i],
        )
}

/// How many cells a share asks for.
pub open spec fn cells(share: Share) -> int {
    match share {
        Share::Percentage(_) => 0,
        Share::Min(n) => n as int,
        Share::Length(n) => n as int,
    }
}

/// Whether two shares in cells, the second of which is not to grow, fit into so many cells.
pub open spec fn is_fitting_pair(shares: Seq<Share>, size: int) -> bool {
    &&& shares.len() == 2
    &&& shares[0] !is Percentage
    &&& shares[1] is Length
    &&& cells(shares[0]) + cells(shares[1]) <= size
}

/// Whether two pieces follow each other: the second has the cells that it asks for, and so has the
/// first, which takes the rest as well where it only asks for at least so many.
pub open spec fn is_stacked(
    axis: Axis,
    shares: Seq<Share>,
    area: Area,
    first: Area,
    second: Area,
) -> bool {
    &&& start_of(axis, first) == start_of(axis, area)
    &&& extent_of(axis, first) == if shares[0] is Min {
        extent_of(axis, area) - cells(shares[1])
    } else {
        cells(shares[0])
    }
    &&& start_of(axis, second) == start_of(axis, first) + extent_of(axis, first)
    &&& extent_of(axis, second) == cells(shares[1])
}

/// Calls `ratatui::layout::Layout::split`: one piece for each share. Every piece lies in the area
/// and spans it the other way. The shares are handed to a solver, and where all of them can be had
/// at once it finds the one way to do so: shares in percent are cut off one after the other, each
/// edge at the nearest cell, and of two shares in cells a minimum grows over what a length leaves.
/// Where the shares ask for more than there is, the solver weighs them against each other, and of
/// the sizes that come out nothing is stated.
#[verifier::external_body]
fn split(axis: Axis, shares: &Vec<Share>, area: Area) -> (r: Vec<Area>)
    ensures
        is_split(axis, shares@, area, r@),
        is_in_reach(axis, area) && are_percentages(shares@) && percent_before(
            shares@,
            shares@.len() as int,
        ) <= 100 ==> is_in_proportion(axis, shares@, area, r@),
        is_in_reach(axis, area) && is_fitting_pair(shares@, extent_of(axis, area)) ==> is_stacked(
            axis,
            shares@,
            area,
            r@[0],
            r@[1],
        ),
{
    let direction = match axis {
        Axis::Vertical => Direction::Vertical,
        Axis::Horizontal => Direction::Horizontal,
    };
    let wanted = shares.iter().map(|s| match s {
        Share::Percentage(n) => Constraint::Percentage(*n),
        Share::Min(n) => Constraint::Min(*n),
        Share::Length(n) => Constraint::Length(*n),
    });
    let whole = Rect { x: area.x, y: area.y, width: area.width, height: area.height };
    let found = Layout::default().direction(direction).constraints(wanted).split(whole);
    found.iter().map(|p| Area { x: p.x, y: p.y, width: p.width, height: p.height }).collect()
}

/// The shares that leave so many percent in the middle.
pub open spec fn around(percent: int) -> Seq<Share> {
    seq![
        Share::Percentage(((100 - percent) / 2) as u16),
        Share::Percentage(percent as u16),
        Share::Percentage(((100 - percent) / 2) as u16),
    ]
}

/// The shares that leave so many percent in the middle.
pub fn centering(percent: u16) -> (r: Vec<Share>)
    requires
        percent <= 100,
    ensures
        r@ == around(percent as int),
{
    let side: u16 = (100 - percent) / 2;
    let r: Vec<Share> = vec![
        Share::Percentage(side),
        Share::Percentage(percent),
        Share::Percentage(side),
    ];
    proof {
        assert(r@ =~= around(percent as int));
    }
    r
}

/// Whether a part of an area reaches from one share in percent to another, in width and in height,
/// as far as the coordinates of the area reach.
pub open spec fn is_box(area: Area, across: (int, int), down: (int, int), piece: Area) -> bool {
    &&& lies_in(area, piece)
    &&& is_in_reach(Axis::Horizontal, area) ==> reaches(
        Axis::Horizontal,
        area,
        across.0,
        across.1,
        piece,
    )
    &&& is_in_reach(Axis::Vertical, area) ==> reaches(Axis::Vertical, area, down.0, down.1, piece)
}

/// Where the middle begins and ends, in percent.
pub open spec fn middle_share(percent: u16) -> (int, int) {
    ((100 - percent) / 2, (100 - percent) / 2 + percent)
}

/// The first pieces of an area that is split in percent.
proof fn lemma_percentages(shares: Seq<Share>)
    ensures
        percent_before(shares, 0) == 0,
        percent_before(shares, 1) == shares[0]->Percentage_0,
        percent_before(shares, 2) == shares[0]->Percentage_0 + shares[1]->Percentage_0,
        percent_before(shares, 3) == shares[0]->Percentage_0 + shares[1]->Percentage_0
            + shares[2]->Percentage_0,
{
    reveal_with_fuel(percent_before, 4);
}

/// The middle of an area: so many percent of its width and of its height, with the same share on
/// either side.
pub fn centered_rect(percent_x: u16, percent_y: u16, r: Area) -> (middle: Area)
    requires
        percent_x <= 100,
        percent_y <= 100,
    ensures
        is_box(r, middle_share(percent_x), middle_share(percent_y), middle),
{
    proof {
        lemma_percentages(around(percent_x as int));
        lemma_percentages(around(percent_y as int));
    }
    let rows: Vec<Area> = split(Axis::Vertical, &centering(percent_y), r);
    let columns: Vec<Area> = split(Axis::Horizontal, &centering(percent_x), rows[1]);
    columns[1]
}

// ---------------------------------------------------------------------------
// Widgets
// ---------------------------------------------------------------------------
/// A colour.
#[derive(Debug, Clone, Copy, PartialEq, Eq, Structural)]
pub enum Color {
    Red,
    Green,
    Yellow,
    Blue,
    Cyan,
    Gray,
    DarkGray,
    White,
}

/// How a text is drawn: its colour and what is behind it, where they differ from the usual.
#[derive(Debug, Clone, Copy, PartialEq, Eq)]
pub struct Style {
    pub fg: Option<Color>,
    pub bg: Option<Color>,
}

/// An entry of a list.
#[derive(Debug)]
pub enum Entry {
    /// A text.
    Plain(String, Style),
    /// Two lines.
    Pair(String, Style, String, Style),
}

/// What an [`Entry`] holds.
#[verifier::ext_equal]
pub enum EntryView {
    Plain(Seq<char>, Style),
    Pair(Seq<char>, Style, Seq<char>, Style),
}

impl View for Entry {
    type V = EntryView;

    open spec fn view(&self) -> EntryView {
        match self {
            Entry::Plain(s, style) => EntryView::Plain(s@, *style),
            Entry::Pair(a, first, b, second) => EntryView::Pair(a@, *first, b@, *second),
        }
    }
}

/// What entries hold.
pub open spec fn entry_views(list: Seq<Entry>) -> Seq<EntryView> {
    list.map_values(|e: Entry| e@)
}

/// What a list scrolls with.
#[derive(Debug, Clone, Copy, PartialEq, Eq, Structural)]
pub enum Scroll {
    /// It does not scroll.
    Fixed,
    /// The selected task.
    Tasks,
    /// The selected entry of a directory.
    Entries,
}

/// Something to draw. Lists and paragraphs have a frame.
#[derive(Debug)]
pub enum Widget {
    /// An area is cleared.
    Clear(Area),
    /// A list with a title.
    List { area: Area, title: String, entries: Vec<Entry>, scroll: Scroll },
    /// A text, from a line on.
    Paragraph {
        area: Area,
        title: Option<String>,
        text: String,
        text_style: Style,
        frame_style: Style,
        from_line: u16,
    },
}

/// What a [`Widget`] holds.
#[verifier::ext_equal]
pub enum WidgetView {
    Clear(Area),
    List { area: Area, title: Seq<char>, entries: Seq<EntryView>, scroll: Scroll },
    Paragraph {
        area: Area,
        title: Option<Seq<char>>,
        text: Seq<char>,
        text_style: Style,
        frame_style: Style,
        from_line: u16,
    },
}

impl View for Widget {
    type V = WidgetView;

    open spec fn view(&self) -> WidgetView {
        match self {
            Widget::Clear(area) => WidgetView::Clear(*area),
            Widget::List { area, title, entries, scroll } => WidgetView::List {
                area: *area,
                title: title@,
                entries: entry_views(entries@),
                scroll: *scroll,
            },
            Widget::Paragraph { area, title, text, text_style, frame_style, from_line } =>
            WidgetView::Paragraph {
                area: *area,
                title: text::optional_text(*title),
                text: text@,
                text_style: *text_style,
                frame_style: *frame_style,
                from_line: *from_line,
            },
        }
    }
}

/// What widgets hold.
pub open spec fn widget_views(list: Seq<Widget>) -> Seq<WidgetView> {
    list.map_values(|w: Widget| w@)
}

/// The usual style.
pub open spec fn usual() -> Style {
    Style { fg: None, bg: None }
}

/// The usual style with a colour.
pub open spec fn in_color(color: Color) -> Style {
    Style { fg: Some(color), bg: None }
}

/// The usual style with a background.
pub open spec fn on_color(color: Color) -> Style {
    Style { fg: None, bg: Some(color) }
}

/// A paragraph without a title.
pub open spec fn note(area: Area, s: Seq<char>, style: Style) -> WidgetView {
    WidgetView::Paragraph {
        area,
        title: None,
        text: s,
        text_style: style,
        frame_style: usual(),
        from_line: 0,
    }
}

/// A paragraph with a title.
pub open spec fn form(area: Area, title: Seq<char>, s: Seq<char>, frame: Style) -> WidgetView {
    WidgetView::Paragraph {
        area,
        title: Some(title),
        text: s,
        text_style: usual(),
        frame_style: frame,
        from_line: 0,
    }
}

/// The usual style.
fn usual_style() -> (r: Style)
    ensures
        r == usual(),
{
    Style { fg: None, bg: None }
}

/// A paragraph without a title.
fn make_note(area: Area, s: &str, style: Style) -> (r: Widget)
    ensures
        r@ == note(area, s@, style),
{
    Widget::Paragraph {
        area,
        title: None,
        text: s.to_owned(),
        text_style: style,
        frame_style: usual_style(),
        from_line: 0,
    }
}

/// A paragraph with a title.
fn make_form(area: Area, title: &str, s: String, frame: Style) -> (r: Widget)
    ensures
        r@ == form(area, title@, s@, frame),
{
    Widget::Paragraph {
        area,
        title: Some(title.to_owned()),
        text: s,
        text_style: usual_style(),
        frame_style: frame,
        from_line: 0,
    }
}

/// The entries of a list of texts, one of which is marked.
pub open spec fn choices(list: Seq<Seq<char>>, at: usize, mark: Style) -> Seq<EntryView> {
    Seq::new(
        list.len(),
        |i: int|
            EntryView::Plain(
                list[i],
                if i == at {
                    mark
                } else {
                    usual()
                },
            ),
    )
}

/// Makes the entries of a list of texts, one of which is marked.
fn make_choices(list: &Vec<String>, at: usize, mark: Style) -> (r: Vec<Entry>)
    ensures
        entry_views(r@) == choices(text::texts(list@), at, mark),
{
    let mut out: Vec<Entry> = Vec::new();
    let mut i: usize = 0;
    while i < list.len()
        invariant
            i <= list@.len(),
            out@.len() == i,
            forall|j: int|
                0 <= j < i ==> (#[trigger] out@[j])@ == choices(text::texts(list@), at, mark)[j],
        decreases list@.len() - i,
    {
        let style: Style = if i == at {
            mark
        } else {
            usual_style()
        };
        out.push(Entry::Plain(list[i].clone(), style));
        i = i + 1;
    }
    proof {
        assert(entry_views(out@) =~= choices(text::texts(list@), at, mark));
    }
    out
}

// ---------------------------------------------------------------------------
// The tasks
// ---------------------------------------------------------------------------
/// The colour of a task.
pub open spec fn status_color(status: Seq<char>) -> Color {
    if status == "IDLE"@ {
        Color::Green
    } else if status == "ERROR"@ {
        Color::Red
    } else if status == "SYNCING..."@ {
        Color::Yellow
    } else if status == "PENDING..."@ {
        Color::Cyan
    } else {
        Color::Blue
    }
}

/// The name of a way to treat files.
pub open spec fn mode_name(mode: SyncMode) -> Seq<char> {
    match mode {
        SyncMode::Mirror => "Mirror"@,
        SyncMode::AddOnly => "AddOnly"@,
        SyncMode::SafeSync => "SafeSync"@,
        SyncMode::Update => "Update"@,
    }
}

/// What a list says of a task.
pub open spec fn task_line(t: protocol::TaskView) -> Seq<char> {
    ("ID: "@ + t.id + " | "@ + t.source + " -> "@) + (t.remote_host + ":"@ + t.remote_path
        + "\n   ["@ + t.status) + ("] Mode: "@ + mode_name(t.sync_mode) + (if t.compress {
        "+Z"@
    } else {
        ""@
    }) + " | "@ + t.last_log)
}

/// The entry of a task.
pub open spec fn task_entry(t: protocol::TaskView, selected: bool) -> EntryView {
    EntryView::Plain(
        task_line(t),
        Style {
            fg: Some(status_color(t.status)),
            bg: if selected {
                Some(Color::DarkGray)
            } else {
                None
            },
        },
    )
}

/// The entries of the tasks.
pub open spec fn task_entries(tasks: Seq<protocol::TaskView>, at: usize) -> Seq<EntryView> {
    Seq::new(tasks.len(), |i: int| task_entry(tasks[i], i == at))
}

/// What is said of the daemon.
pub open spec fn server_note(status: Option<bool>) -> (Seq<char>, Color) {
    match status {
        Some(true) => ("Server: ONLINE"@, Color::Green),
        Some(false) => ("Server: OFFLINE"@, Color::Red),
        None => ("Server: ?"@, Color::Yellow),
    }
}

/// The keys of the tasks.
pub open spec fn task_keys() -> Seq<char> {
    "Controls:\n[A] Add Task [Push] \t [P] Add Task [Pull] \t [D] Delete Task \t [R] Dry Run \n[S] Restart Task \t[L] View Logs \t[Ctrl+R] Restart Server \t[Q] Quit"@
}

/// The tasks, the daemon and the keys.
pub open spec fn dashboard(app: state::AppView, list: Area, status: Area, help: Area) -> Seq<
    WidgetView,
> {
    seq![
        WidgetView::List {
            area: list,
            title: "Active Sync Tasks"@,
            entries: task_entries(app.tasks, app.dashboard_selected_idx),
            scroll: Scroll::Tasks,
        },
        note(
            status,
            server_note(app.server_status).0,
            in_color(server_note(app.server_status).1),
        ),
        note(help, task_keys(), usual()),
    ]
}

/// Picks the colour of a task.
fn color_of(status: &str) -> (r: Color)
    ensures
        r == status_color(status@),
{
    if text::same_text(status, "IDLE") {
        Color::Green
    } else if text::same_text(status, "ERROR") {
        Color::Red
    } else if text::same_text(status, "SYNCING...") {
        Color::Yellow
    } else if text::same_text(status, "PENDING...") {
        Color::Cyan
    } else {
        Color::Blue
    }
}

/// Makes the entry of a task.
fn make_task_entry(t: &SyncTask, selected: bool) -> (r: Entry)
    ensures
        r@ == task_entry(t@, selected),
{
    let name: &str = match t.sync_mode {
        SyncMode::Mirror => "Mirror",
        SyncMode::AddOnly => "AddOnly",
        SyncMode::SafeSync => "SafeSync",
        SyncMode::Update => "Update",
    };
    let flag: &str = if t.compress {
        "+Z"
    } else {
        ""
    };
    let start: String = text::cat5("ID: ", &t.id, " | ", &t.source, " -> ");
    let middle: String = text::cat5(&t.remote_host, ":", &t.remote_path, "\n   [", &t.status);
    let end: String = text::cat5("] Mode: ", name, flag, " | ", &t.last_log);
    let bg: Option<Color> = if selected {
        Some(Color::DarkGray)
    } else {
        None
    };
    Entry::Plain(
        text::cat3(&start, &middle, &end),
        Style { fg: Some(color_of(&t.status)), bg },
    )
}

/// Makes the entries of the tasks.
fn make_task_entries(tasks: &Vec<SyncTask>, at: usize) -> (r: Vec<Entry>)
    ensures
        entry_views(r@) == task_entries(protocol::task_views(tasks@), at),
{
    let mut out: Vec<Entry> = Vec::new();
    let mut i: usize = 0;
    while i < tasks.len()
        invariant
            i <= tasks@.len(),
            out@.len() == i,
            forall|j: int|
                0 <= j < i ==> (#[trigger] out@[j])@ == task_entries(
                    protocol::task_views(tasks@),
                    at,
                )[j],
        decreases tasks@.len() - i,
    {
        out.push(make_task_entry(&tasks[i], i == at));
        i = i + 1;
    }
    proof {
        assert(entry_views(out@) =~= task_entries(protocol::task_views(tasks@), at));
    }
    out
}

/// Draws the tasks, the daemon and the keys.
fn draw_dashboard(app: &App, list: Area, status: Area, help: Area) -> (r: Vec<Widget>)
    ensures
        widget_views(r@) == dashboard(app@, list, status, help),
{
    let (said, color): (&str, Color) = match app.server_status {
        Some(true) => ("Server: ONLINE", Color::Green),
        Some(false) => ("Server: OFFLINE", Color::Red),
        None => ("Server: ?", Color::Yellow),
    };
    let r: Vec<Widget> = vec![
        Widget::List {
            area: list,
            title: "Active Sync Tasks".to_owned(),
            entries: make_task_entries(&app.tasks, app.dashboard_selected_idx),
            scroll: Scroll::Tasks,
        },
        make_note(status, said, Style { fg: Some(color), bg: None }),
        make_note(
            help,
            "Controls:\n[A] Add Task [Push] \t [P] Add Task [Pull] \t [D] Delete Task \t [R] Dry Run \n[S] Restart Task \t[L] View Logs \t[Ctrl+R] Restart Server \t[Q] Quit",
            usual_style(),
        ),
    ];
    proof {
        assert(widget_views(r@) =~= dashboard(app@, list, status, help));
    }
    r
}

// ---------------------------------------------------------------------------
// What stands in front of the tasks
// ---------------------------------------------------------------------------
/// The area of what stands in front, and its upper and lower pieces.
#[derive(Debug, Clone, Copy, PartialEq, Eq, Structural)]
pub struct Front {
    pub whole: Area,
    pub upper: Area,
    pub lower: Area,
}

/// A list above its keys.
pub open spec fn list_front(
    front: Front,
    title: Seq<char>,
    entries: Seq<EntryView>,
    scroll: Scroll,
    keys: Seq<char>,
) -> Seq<WidgetView> {
    seq![
        WidgetView::Clear(front.whole),
        WidgetView::List { area: front.upper, title, entries, scroll },
        note(front.lower, keys, usual()),
    ]
}

/// A form above its keys.
pub open spec fn form_front(front: Front, title: Seq<char>, s: Seq<char>, keys: Seq<char>) -> Seq<
    WidgetView,
> {
    seq![
        WidgetView::Clear(front.whole),
        form(front.upper, title, s, usual()),
        note(front.lower, keys, usual()),
    ]
}

/// Draws a list above its keys.
fn draw_list(front: Front, title: String, entries: Vec<Entry>, scroll: Scroll, keys: &str) -> (r:
    Vec<Widget>)
    ensures
        widget_views(r@) == list_front(front, title@, entry_views(entries@), scroll, keys@),
{
    let ghost expected = list_front(front, title@, entry_views(entries@), scroll, keys@);
    let r: Vec<Widget> = vec![
        Widget::Clear(front.whole),
        Widget::List { area: front.upper, title, entries, scroll },
        make_note(front.lower, keys, usual_style()),
    ];
    proof {
        assert(widget_views(r@) =~= expected);
    }
    r
}

/// Draws a form above its keys.
fn draw_form(front: Front, title: &str, s: String, keys: &str) -> (r: Vec<Widget>)
    ensures
        widget_views(r@) == form_front(front, title@, s@, keys@),
{
    let ghost expected = form_front(front, title@, s@, keys@);
    let r: Vec<Widget> = vec![
        Widget::Clear(front.whole),
        make_form(front.upper, title, s, usual_style()),
        make_note(front.lower, keys, usual_style()),
    ];
    proof {
        assert(widget_views(r@) =~= expected);
    }
    r
}

/// The local directories.
pub open spec fn local_front(app: state::AppView, front: Front) -> Seq<WidgetView> {
    let entries = choices(app.dir_entries, app.selected_idx, on_color(Color::Blue));
    match app.pending_sync_direction {
        SyncDirection::Push => list_front(
            front,
            "Select Source"@ + ": "@ + app.current_path,
            entries,
            Scroll::Fixed,
            "[Enter] Enter Dir  [Space] Select file/dir as Source [N] Create dir [Esc] Cancel"@,
        ),
        SyncDirection::Pull => list_front(
            front,
            "Select Destination"@ + ": "@ + app.current_path,
            entries,
            Scroll::Fixed,
            "[Enter] Enter Dir  [Space] Select file/dir as Destination [N] Create dir [Esc] Back"@,
        ),
    }
}

/// Draws the local directories.
fn draw_local_browser(app: &App, front: Front) -> (r: Vec<Widget>)
    ensures
        widget_views(r@) == local_front(app@, front),
{
    let mark: Style = Style { fg: None, bg: Some(Color::Blue) };
    let entries: Vec<Entry> = make_choices(&app.dir_entries, app.selected_idx, mark);
    match app.pending_sync_direction {
        SyncDirection::Push => draw_list(
            front,
            text::cat3("Select Source", ": ", &app.current_path),
            entries,
            Scroll::Fixed,
            "[Enter] Enter Dir  [Space] Select file/dir as Source [N] Create dir [Esc] Cancel",
        ),
        SyncDirection::Pull => draw_list(
            front,
            text::cat3("Select Destination", ": ", &app.current_path),
            entries,
            Scroll::Fixed,
            "[Enter] Enter Dir  [Space] Select file/dir as Destination [N] Create dir [Esc] Back",
        ),
    }
}

/// The title of the remote directories.
pub open spec fn remote_title(app: state::AppView) -> Seq<char> {
    (match app.pending_sync_direction {
        SyncDirection::Push => "Select Remote Destination"@,
        SyncDirection::Pull => "Select Remote Source"@,
    }) + ": "@ + (app.pending_remote_host + (if app.remote_current_path.len() == 0 {
        ":/"@
    } else {
        ":"@ + app.remote_current_path
    })) + " (Interface may freeze during SSH)"@
}

/// The remote directories.
pub open spec fn remote_front(app: state::AppView, front: Front) -> Seq<WidgetView> {
    list_front(
        front,
        remote_title(app),
        choices(app.dir_entries, app.selected_idx, on_color(Color::Blue)),
        Scroll::Entries,
        "[Enter] Enter Dir  [Space] Select file/dir  [N] Create dir [Esc] Cancel"@,
    )
}

/// Draws the remote directories.
fn draw_remote_browser(app: &App, front: Front) -> (r: Vec<Widget>)
    ensures
        widget_views(r@) == remote_front(app@, front),
{
    let direction: &str = match app.pending_sync_direction {
        SyncDirection::Push => "Select Remote Destination",
        SyncDirection::Pull => "Select Remote Source",
    };
    let path: String = if app.remote_current_path.as_str().is_empty() {
        ":/".to_owned()
    } else {
        text::cat2(":", &app.remote_current_path)
    };
    let place: String = text::cat2(&app.pending_remote_host, &path);
    let mark: Style = Style { fg: None, bg: Some(Color::Blue) };
    draw_list(
        front,
        text::cat4(direction, ": ", &place, " (Interface may freeze during SSH)"),
        make_choices(&app.dir_entries, app.selected_idx, mark),
        Scroll::Entries,
        "[Enter] Enter Dir  [Space] Select file/dir  [N] Create dir [Esc] Cancel",
    )
}

/// So many stars.
pub open spec fn stars(count: nat) -> Seq<char> {
    Seq::new(count, |i: int| '*')
}

/// A password as it is shown: itself, or a star for each byte.
pub open spec fn shown_password(password: Seq<char>, plain: bool) -> Seq<char> {
    if plain {
        password
    } else {
        stars(cursor::byte_len(password))
    }
}

/// The password.
pub open spec fn password_front(app: state::AppView, front: Front) -> Seq<WidgetView> {
    form_front(
        front,
        "Step 3: Enter SSH Password"@,
        "SSH Password (leave empty for SSH keys):\n\n"@ + shown_password(
            app.input_password,
            app.show_password,
        ) + "|"@,
        "[Enter] Confirm  [Tab] Show/Hide  [Esc] Back"@,
    )
}

/// Writes so many stars.
fn write_stars(count: usize) -> (r: String)
    ensures
        r@ == stars(count as nat),
{
    let mut out: String = "".to_owned();
    let mut i: usize = 0;
    proof {
        reveal_strlit("");
        assert(out@ =~= stars(0));
    }
    while i < count
        invariant
            i <= count,
            out@ == stars(i as nat),
        decreases count - i,
    {
        out.push('*');
        proof {
            assert(out@ =~= stars((i + 1) as nat));
        }
        i = i + 1;
    }
    out
}

/// Draws the password.
fn draw_password_input(app: &App, front: Front) -> (r: Vec<Widget>)
    ensures
        widget_views(r@) == password_front(app@, front),
{
    let shown: String = if app.show_password {
        app.input_password.clone()
    } else {
        write_stars(cursor::count_bytes(&app.input_password))
    };
    draw_form(
        front,
        "Step 3: Enter SSH Password",
        text::cat3("SSH Password (leave empty for SSH keys):\n\n", &shown, "|"),
        "[Enter] Confirm  [Tab] Show/Hide  [Esc] Back",
    )
}

/// The saved hosts.
pub open spec fn hosts_front(app: state::AppView, front: Front) -> Seq<WidgetView> {
    list_front(
        front,
        "Step 2: Select Remote Host"@,
        choices(
            app.saved_hosts,
            app.host_list_idx,
            Style { fg: Some(Color::White), bg: Some(Color::Blue) },
        ),
        Scroll::Fixed,
        "[Enter] Select  [A] Add  [E] Edit  [D] Delete"@,
    )
}

/// Draws the saved hosts.
fn draw_host_select(app: &App, front: Front) -> (r: Vec<Widget>)
    ensures
        widget_views(r@) == hosts_front(app@, front),
{
    let mark: Style = Style { fg: Some(Color::White), bg: Some(Color::Blue) };
    draw_list(
        front,
        "Step 2: Select Remote Host".to_owned(),
        make_choices(&app.saved_hosts, app.host_list_idx, mark),
        Scroll::Fixed,
        "[Enter] Select  [A] Add  [E] Edit  [D] Delete",
    )
}

/// The host as it is typed.
pub open spec fn host_front(app: state::AppView, front: Front) -> Seq<WidgetView> {
    form_front(
        front,
        "Step 2: Confirm/Edit Remote Host"@,
        "Remote Host (user@hostname:port):\n\n"@ + cursor::with_bar(
            app.input_remote_host,
            app.input_cursor_pos,
        ),
        "[Enter] Continue  [Esc] Back  [←→] Move  [Home/End] Jump"@,
    )
}

/// Draws the host as it is typed.
fn draw_remote_host_input(app: &App, front: Front) -> (r: Vec<Widget>)
    requires
        app@.input_cursor_pos < cursor::byte_len(app@.input_remote_host) ==> cursor::is_boundary(
            app@.input_remote_host,
            app@.input_cursor_pos,
        ),
    ensures
        widget_views(r@) == host_front(app@, front),
{
    let shown: String = cursor::show_cursor(&app.input_remote_host, app.input_cursor_pos);
    draw_form(
        front,
        "Step 2: Confirm/Edit Remote Host",
        text::cat2("Remote Host (user@hostname:port):\n\n", &shown),
        "[Enter] Continue  [Esc] Back  [←→] Move  [Home/End] Jump",
    )
}

/// The port as it is typed.
pub open spec fn port_front(app: state::AppView, front: Front) -> Seq<WidgetView> {
    form_front(
        front,
        "Step 2b: Enter SSH Port"@,
        "SSH Port (default: 22):\n\n"@ + cursor::with_bar(
            app.input_remote_port,
            app.input_cursor_pos,
        ),
        "[Enter] Continue  [Esc] Back  [←→] Move  [Home/End] Jump  [0-9] Enter digits"@,
    )
}

/// Draws the port as it is typed.
fn draw_remote_port_input(app: &App, front: Front) -> (r: Vec<Widget>)
    requires
        app@.input_cursor_pos < cursor::byte_len(app@.input_remote_port) ==> cursor::is_boundary(
            app@.input_remote_port,
            app@.input_cursor_pos,
        ),
    ensures
        widget_views(r@) == port_front(app@, front),
{
    let shown: String = cursor::show_cursor(&app.input_remote_port, app.input_cursor_pos);
    draw_form(
        front,
        "Step 2b: Enter SSH Port",
        text::cat2("SSH Port (default: 22):\n\n", &shown),
        "[Enter] Continue  [Esc] Back  [←→] Move  [Home/End] Jump  [0-9] Enter digits",
    )
}

/// A way to treat files, as it is offered.
pub open spec fn offer(name: Seq<char>, desc: Seq<char>, color: Color, chosen: bool) -> EntryView {
    if chosen {
        EntryView::Pair(
            "> "@ + name,
            Style { fg: Some(color), bg: Some(Color::DarkGray) },
            "  "@ + desc,
            in_color(Color::Gray),
        )
    } else {
        EntryView::Pair("  "@ + name, in_color(color), "  "@ + desc, in_color(Color::DarkGray))
    }
}

/// The ways to treat files, and whether files are packed on the way.
pub open spec fn offers(at: usize, compress: bool) -> Seq<EntryView> {
    seq![
        offer(
            "Mirror"@,
            "Exact copy. Deletes files on remote if missing on local"@,
            Color::Yellow,
            at == 0,
        ),
        offer(
            "Add Only"@,
            "Uploads new/changed files. Never deletes on remote"@,
            Color::Green,
            at == 1,
        ),
        offer(
            "Safe Sync"@,
            "Mirrors but moves deleted files to .rsync-backup folder"@,
            Color::Cyan,
            at == 2,
        ),
        offer("Update"@, "Only overwrites if local file is newer"@, Color::Blue, at == 3),
        EntryView::Plain(""@, usual()),
        EntryView::Plain(
            if compress {
                "[X] Enable Compression (-z)"@
            } else {
                "[ ] Enable Compression (-z)"@
            },
            in_color(Color::White),
        ),
    ]
}

/// The ways to treat files.
pub open spec fn modes_front(app: state::AppView, front: Front) -> Seq<WidgetView> {
    list_front(
        front,
        "Step 5: Select Sync Mode"@,
        offers(app.sync_mode_selected_idx, app.pending_compress),
        Scroll::Fixed,
        "[Enter] Continue  [↑↓] Navigate  [Space] Toggle Compress  [Esc] Back"@,
    )
}

/// Offers a way to treat files.
fn make_offer(name: &str, desc: &str, color: Color, chosen: bool) -> (r: Entry)
    ensures
        r@ == offer(name@, desc@, color, chosen),
{
    if chosen {
        Entry::Pair(
            text::cat2("> ", name),
            Style { fg: Some(color), bg: Some(Color::DarkGray) },
            text::cat2("  ", desc),
            Style { fg: Some(Color::Gray), bg: None },
        )
    } else {
        Entry::Pair(
            text::cat2("  ", name),
            Style { fg: Some(color), bg: None },
            text::cat2("  ", desc),
            Style { fg: Some(Color::DarkGray), bg: None },
        )
    }
}

/// Draws the ways to treat files.
fn draw_sync_mode_select(app: &App, front: Front) -> (r: Vec<Widget>)
    ensures
        widget_views(r@) == modes_front(app@, front),
{
    let at: usize = app.sync_mode_selected_idx;
    let packing: &str = if app.pending_compress {
        "[X] Enable Compression (-z)"
    } else {
        "[ ] Enable Compression (-z)"
    };
    let entries: Vec<Entry> = vec![
        make_offer(
            "Mirror",
            "Exact copy. Deletes files on remote if missing on local",
            Color::Yellow,
            at == 0,
        ),
        make_offer(
            "Add Only",
            "Uploads new/changed files. Never deletes on remote",
            Color::Green,
            at == 1,
        ),
        make_offer(
            "Safe Sync",
            "Mirrors but moves deleted files to .rsync-backup folder",
            Color::Cyan,
            at == 2,
        ),
        make_offer("Update", "Only overwrites if local file is newer", Color::Blue, at == 3),
        Entry::Plain("".to_owned(), usual_style()),
        Entry::Plain(packing.to_owned(), Style { fg: Some(Color::White), bg: None }),
    ];
    proof {
        assert(entry_views(entries@) =~= offers(at, app.pending_compress));
    }
    draw_list(
        front,
        "Step 5: Select Sync Mode".to_owned(),
        entries,
        Scroll::Fixed,
        "[Enter] Continue  [↑↓] Navigate  [Space] Toggle Compress  [Esc] Back",
    )
}

/// The part of a list from a place on that fits.
pub open spec fn window(list: Seq<Seq<char>>, from: usize, count: int) -> Seq<Seq<char>> {
    if from >= list.len() {
        Seq::empty()
    } else if from + count > list.len() {
        list.skip(from as int)
    } else {
        list.subrange(from as int, from + count)
    }
}

/// What a task would change: the lines that fit, with five cells left for the frame and the keys.
pub open spec fn dry_run_front(app: state::AppView, front: Front) -> Seq<WidgetView> {
    let lines = window(app.dry_run_results, app.dry_run_scroll, front.whole.height - 5);
    list_front(
        front,
        "Dry Run Results: "@ + app.dry_run_task_id,
        lines.map_values(|s: Seq<char>| EntryView::Plain(s, usual())),
        Scroll::Fixed,
        "[Esc] Close  [↑↓] Scroll"@,
    )
}

/// Makes the entries of the part of a list that fits.
fn make_window(list: &Vec<String>, from: usize, count: usize) -> (r: Vec<Entry>)
    ensures
        entry_views(r@) == window(text::texts(list@), from, count as int).map_values(
            |s: Seq<char>| EntryView::Plain(s, usual()),
        ),
{
    let mut out: Vec<Entry> = Vec::new();
    let size: usize = list.len();
    let ghost lines = window(text::texts(list@), from, count as int);
    let mut i: usize = 0;
    while i < count && from < size && i < size - from
        invariant
            size == list@.len(),
            lines == window(text::texts(list@), from, count as int),
            out@.len() == i,
            i <= count,
            i <= lines.len(),
            forall|j: int|
                0 <= j < i ==> (#[trigger] out@[j])@ == EntryView::Plain(lines[j], usual()),
        decreases count - i,
    {
        out.push(Entry::Plain(list[from + i].clone(), usual_style()));
        i = i + 1;
    }
    proof {
        assert(entry_views(out@) =~= lines.map_values(
            |s: Seq<char>| EntryView::Plain(s, usual()),
        ));
    }
    out
}

/// Draws what a task would change.
fn draw_dry_run_view(app: &App, front: Front) -> (r: Vec<Widget>)
    requires
        front.whole.height >= 5,
    ensures
        widget_views(r@) == dry_run_front(app@, front),
{
    let count: usize = (front.whole.height - 5) as usize;
    draw_list(
        front,
        text::cat2("Dry Run Results: ", &app.dry_run_task_id),
        make_window(&app.dry_run_results, app.dry_run_scroll, count),
        Scroll::Fixed,
        "[Esc] Close  [↑↓] Scroll",
    )
}

/// A new directory.
pub open spec fn mkdir_front(app: state::AppView, front: Front, title: Seq<char>) -> Seq<
    WidgetView,
> {
    seq![
        WidgetView::Clear(front.whole),
        form(
            front.whole,
            title,
            "New Directory Name:\n\n"@ + app.input_new_dir + "|"@,
            in_color(Color::Yellow),
        ),
    ]
}

/// Draws a new directory.
fn draw_mkdir_input(app: &App, front: Front, title: &str) -> (r: Vec<Widget>)
    ensures
        widget_views(r@) == mkdir_front(app@, front, title@),
{
    let r: Vec<Widget> = vec![
        Widget::Clear(front.whole),
        make_form(
            front.whole,
            title,
            text::cat3("New Directory Name:\n\n", &app.input_new_dir, "|"),
            Style { fg: Some(Color::Yellow), bg: None },
        ),
    ];
    proof {
        assert(widget_views(r@) =~= mkdir_front(app@, front, title@));
    }
    r
}

/// The log of a task, from a line on, which is counted in 16 bits.
pub open spec fn log_front(app: state::AppView, front: Front) -> Seq<WidgetView> {
    seq![
        WidgetView::Clear(front.whole),
        WidgetView::Paragraph {
            area: front.upper,
            title: Some("Logs: "@ + app.view_log_task_id),
            text: app.view_task_log,
            text_style: usual(),
            frame_style: usual(),
            from_line: (app.view_log_scroll as int % 0x10000) as u16,
        },
        note(front.lower, "[Esc] Back  [↑↓] Scroll  [R] Refresh"@, usual()),
    ]
}

/// Draws the log of a task.
fn draw_log_view(app: &App, front: Front) -> (r: Vec<Widget>)
    ensures
        widget_views(r@) == log_front(app@, front),
{
    let from_line: u16 = (app.view_log_scroll % 0x10000) as u16;
    let r: Vec<Widget> = vec![
        Widget::Clear(front.whole),
        Widget::Paragraph {
            area: front.upper,
            title: Some(text::cat2("Logs: ", &app.view_log_task_id)),
            text: app.view_task_log.clone(),
            text_style: usual_style(),
            frame_style: usual_style(),
            from_line,
        },
        make_note(front.lower, "[Esc] Back  [↑↓] Scroll  [R] Refresh", usual_style()),
    ];
    proof {
        assert(widget_views(r@) =~= log_front(app@, front));
    }
    r
}

// ---------------------------------------------------------------------------
// Everything
// ---------------------------------------------------------------------------
/// Where everything stands.
#[derive(Debug, Clone, Copy, PartialEq, Eq, Structural)]
pub struct Places {
    pub list: Area,
    pub status: Area,
    pub help: Area,
    pub front: Front,
}

/// What stands in front of the tasks.
pub open spec fn front_widgets(app: state::AppView, front: Front) -> Seq<WidgetView> {
    match app.mode {
        AppMode::Dashboard => Seq::empty(),
        AppMode::LocalBrowser => local_front(app, front),
        AppMode::RemoteBrowser => remote_front(app, front),
        AppMode::PasswordInput => password_front(app, front),
        AppMode::RemoteHostInput => host_front(app, front),
        AppMode::RemotePortInput => port_front(app, front),
        AppMode::SyncModeSelect => modes_front(app, front),
        AppMode::DryRunView => dry_run_front(app, front),
        AppMode::HostSelect => hosts_front(app, front),
        AppMode::CreateRemoteDir => mkdir_front(app, front, "Create Remote Directory"@),
        AppMode::LogView => log_front(app, front),
        AppMode::CreateLocalDir => mkdir_front(app, front, "Create Local Directory"@),
    }
}

/// Everything that is drawn: the tasks, and what stands in front of them.
pub open spec fn drawn(app: state::AppView, places: Places) -> Seq<WidgetView> {
    dashboard(app, places.list, places.status, places.help) + front_widgets(app, places.front)
}

/// Whether the cursor that is shown stands between two characters.
pub open spec fn can_show_cursor(app: state::AppView) -> bool {
    match app.mode {
        AppMode::RemoteHostInput => app.input_cursor_pos < cursor::byte_len(app.input_remote_host)
            ==> cursor::is_boundary(app.input_remote_host, app.input_cursor_pos),
        AppMode::RemotePortInput => app.input_cursor_pos < cursor::byte_len(app.input_remote_port)
            ==> cursor::is_boundary(app.input_remote_port, app.input_cursor_pos),
        _ => true,
    }
}

/// Tells whether the cursor that is shown stands between two characters.
pub fn shows_cursor(app: &App) -> (r: bool)
    ensures
        r == can_show_cursor(app@),
{
    let pos: usize = app.input_cursor_pos;
    match app.mode {
        AppMode::RemoteHostInput => pos >= cursor::count_bytes(&app.input_remote_host)
            || cursor::is_at_boundary(&app.input_remote_host, pos),
        AppMode::RemotePortInput => pos >= cursor::count_bytes(&app.input_remote_port)
            || cursor::is_at_boundary(&app.input_remote_port, pos),
        _ => true,
    }
}

/// Draws what stands in front of the tasks.
fn draw_front(app: &App, front: Front) -> (r: Vec<Widget>)
    requires
        can_show_cursor(app@),
        app@.mode == AppMode::DryRunView ==> front.whole.height >= 5,
    ensures
        widget_views(r@) == front_widgets(app@, front),
{
    match app.mode {
        AppMode::Dashboard => {
            let r: Vec<Widget> = Vec::new();
            proof {
                assert(widget_views(r@) =~= Seq::empty());
            }
            r
        },
        AppMode::LocalBrowser => draw_local_browser(app, front),
        AppMode::RemoteBrowser => draw_remote_browser(app, front),
        AppMode::PasswordInput => draw_password_input(app, front),
        AppMode::RemoteHostInput => draw_remote_host_input(app, front),
        AppMode::RemotePortInput => draw_remote_port_input(app, front),
        AppMode::SyncModeSelect => draw_sync_mode_select(app, front),
        AppMode::DryRunView => draw_dry_run_view(app, front),
        AppMode::HostSelect => draw_host_select(app, front),
        AppMode::CreateRemoteDir => draw_mkdir_input(app, front, "Create Remote Directory"),
        AppMode::LogView => draw_log_view(app, front),
        AppMode::CreateLocalDir => draw_mkdir_input(app, front, "Create Local Directory"),
    }
}

/// Draws everything in its place.
pub fn draw_in(app: &App, places: Places) -> (r: Vec<Widget>)
    requires
        can_show_cursor(app@),
        app@.mode == AppMode::DryRunView ==> places.front.whole.height >= 5,
    ensures
        widget_views(r@) == drawn(app@, places),
{
    let mut r: Vec<Widget> = draw_dashboard(app, places.list, places.status, places.help);
    let mut front: Vec<Widget> = draw_front(app, places.front);
    let ghost first = r@;
    let ghost second = front@;
    r.append(&mut front);
    proof {
        assert(r@ =~= first + second);
        assert(widget_views(first + second) =~= widget_views(first) + widget_views(second));
    }
    r
}

/// How many percent of the screen what stands in front takes, in width and height.
pub open spec fn front_size(mode: AppMode) -> Option<(u16, u16)> {
    match mode {
        AppMode::Dashboard => None,
        AppMode::LocalBrowser | AppMode::RemoteBrowser | AppMode::HostSelect => Some((60, 60)),
        AppMode::PasswordInput => Some((60, 25)),
        AppMode::RemoteHostInput | AppMode::RemotePortInput => Some((70, 25)),
        AppMode::SyncModeSelect => Some((70, 50)),
        AppMode::DryRunView => Some((80, 60)),
        AppMode::CreateRemoteDir | AppMode::CreateLocalDir => Some((60, 20)),
        AppMode::LogView => Some((90, 80)),
    }
}

/// How what stands in front is split, from above to below.
pub open spec fn front_shares(mode: AppMode) -> Seq<Share> {
    match mode {
        AppMode::PasswordInput | AppMode::RemoteHostInput | AppMode::RemotePortInput => seq![
            Share::Length(5),
            Share::Length(3),
        ],
        AppMode::SyncModeSelect | AppMode::DryRunView | AppMode::LogView => seq![
            Share::Min(10),
            Share::Length(3),
        ],
        _ => seq![Share::Min(3), Share::Length(3)],
    }
}

/// Finds how many percent of the screen what stands in front takes.
pub fn size_of_front(mode: AppMode) -> (r: Option<(u16, u16)>)
    ensures
        r == front_size(mode),
{
    match mode {
        AppMode::Dashboard => None,
        AppMode::LocalBrowser | AppMode::RemoteBrowser | AppMode::HostSelect => Some((60, 60)),
        AppMode::PasswordInput => Some((60, 25)),
        AppMode::RemoteHostInput | AppMode::RemotePortInput => Some((70, 25)),
        AppMode::SyncModeSelect => Some((70, 50)),
        AppMode::DryRunView => Some((80, 60)),
        AppMode::CreateRemoteDir | AppMode::CreateLocalDir => Some((60, 20)),
        AppMode::LogView => Some((90, 80)),
    }
}

/// Finds how what stands in front is split.
pub fn shares_of_front(mode: AppMode) -> (r: Vec<Share>)
    ensures
        r@ == front_shares(mode),
{
    let r: Vec<Share> = match mode {
        AppMode::PasswordInput | AppMode::RemoteHostInput | AppMode::RemotePortInput => vec![
            Share::Length(5),
            Share::Length(3),
        ],
        AppMode::SyncModeSelect | AppMode::DryRunView | AppMode::LogView => vec![
            Share::Min(10),
            Share::Length(3),
        ],
        _ => vec![Share::Min(3), Share::Length(3)],
    };
    proof {
        assert(r@ =~= front_shares(mode));
    }
    r
}

/// Whether what stands in front has its place on a screen. Its two parts have the sizes that they
/// ask for where it is high enough for both.
pub open spec fn is_placed_in_front(mode: AppMode, screen: Area, front: Front) -> bool {
    match front_size(mode) {
        None => front == (Front { whole: screen, upper: screen, lower: screen }),
        Some((x, y)) => {
            &&& is_box(screen, middle_share(x), middle_share(y), front.whole)
            &&& lies_in(front.whole, front.upper)
            &&& lies_in(front.whole, front.lower)
            &&& spans(Axis::Vertical, front.whole, front.upper)
            &&& spans(Axis::Vertical, front.whole, front.lower)
            &&& is_in_reach(Axis::Vertical, front.whole) && is_fitting_pair(
                front_shares(mode),
                front.whole.height as int,
            ) ==> is_stacked(
                Axis::Vertical,
                front_shares(mode),
                front.whole,
                front.upper,
                front.lower,
            )
        },
    }
}

/// Whether everything has its place on a screen: the tasks take 95 percent of the width, beside the
/// daemon, and 80 percent of the height, above the keys.
pub open spec fn is_placed(mode: AppMode, screen: Area, places: Places) -> bool {
    &&& is_box(screen, (0, 95), (0, 80), places.list)
    &&& is_box(screen, (95, 100), (0, 80), places.status)
    &&& is_box(screen, (0, 100), (80, 100), places.help)
    &&& spans(Axis::Horizontal, places.list, places.status)
    &&& spans(Axis::Vertical, screen, places.help)
    &&& is_placed_in_front(mode, screen, places.front)
}

/// How many rows of a screen what stands in front takes.
pub open spec fn front_rows(mode: AppMode, screen: Area) -> int {
    match front_size(mode) {
        None => screen.height as int,
        Some((_, y)) => edge(screen.y as int, screen.height as int, middle_share(y).1) - edge(
            screen.y as int,
            screen.height as int,
            middle_share(y).0,
        ),
    }
}

/// Finds the place of what stands in front of the tasks.
fn place_front(mode: AppMode, screen: Area) -> (r: Front)
    ensures
        is_placed_in_front(mode, screen, r),
{
    match size_of_front(mode) {
        None => Front { whole: screen, upper: screen, lower: screen },
        Some((x, y)) => {
            let whole: Area = centered_rect(x, y, screen);
            let pieces: Vec<Area> = split(Axis::Vertical, &shares_of_front(mode), whole);
            Front { whole, upper: pieces[0], lower: pieces[1] }
        },
    }
}

/// Finds the place of everything on a screen: the tasks above the keys, the daemon beside the
/// tasks.
pub fn place(mode: AppMode, screen: Area) -> (r: Places)
    ensures
        is_placed(mode, screen, r),
{
    let heights: Vec<Share> = vec![Share::Percentage(80), Share::Percentage(20)];
    let widths: Vec<Share> = vec![Share::Percentage(95), Share::Percentage(5)];
    proof {
        lemma_percentages(heights@);
        lemma_percentages(widths@);
    }
    let rows: Vec<Area> = split(Axis::Vertical, &heights, screen);
    let columns: Vec<Area> = split(Axis::Horizontal, &widths, rows[0]);
    Places {
        list: columns[0],
        status: columns[1],
        help: rows[1],
        front: place_front(mode, screen),
    }
}

/// Draws everything on a screen, in places on it. What a task would change is not drawn where
/// there are fewer than five rows for it; then there is nothing to draw.
pub fn draw(app: &App, screen: Area) -> (r: Option<Vec<Widget>>)
    requires
        can_show_cursor(app@),
    ensures
        exists|places: Places| #[trigger]
            is_placed(app@.mode, screen, places) && match r {
                Some(widgets) => widget_views(widgets@) == drawn(app@, places),
                None => app@.mode == AppMode::DryRunView && places.front.whole.height < 5,
            },
        app@.mode != AppMode::DryRunView ==> r is Some,
        is_in_reach(Axis::Vertical, screen) ==> (r is None <==> app@.mode == AppMode::DryRunView
            && front_rows(app@.mode, screen) < 5),
{
    let places: Places = place(app.mode, screen);
    assert(is_placed(app@.mode, screen, places));
    if app.mode == AppMode::DryRunView && places.front.whole.height < 5 {
        return None;
    }
    Some(draw_in(app, places))
}

/// A password that is not shown gives away nothing but its length: two of the same length are
/// drawn alike.
pub proof fn law_hidden_passwords_are_not_drawn(
    app: state::AppView,
    other: Seq<char>,
    places: Places,
)
    requires
        app.mode == AppMode::PasswordInput,
        !app.show_password,
        cursor::byte_len(other) == cursor::byte_len(app.input_password),
    ensures
        drawn(app, places) == drawn(
            state::AppView { input_password: other, ..app },
            places,
        ),
{
}

} // verus!
