//! What the terminal shows: the rows of its tables, the texts of its boxes and
//! where they lie. Painting them is left to the caller.

use vstd::prelude::*;

use crate::app::{self, App, AppView, Focus, Overlay, OverlayView};
use crate::corewlan::{self, InterfaceState, ScannedNetwork, Security};
use crate::event::SharePayload;
use crate::notification::{self, Kind, Notification, NotificationView};
use crate::qr;
use crate::text;
use crate::theme::{Color, Theme};

verus! {

// ---------------------------------------------------------------------------
// Words and numbers.
// ---------------------------------------------------------------------------

pub open spec fn label_of(s: Security) -> Seq<char> {
    match s {
        Security::Open => "open"@,
        Security::Wep => "WEP"@,
        Security::WpaPersonal => "WPA"@,
        Security::Wpa2Personal => "WPA2"@,
        Security::Wpa3Personal => "WPA3"@,
        Security::WpaEnterprise => "WPA-E"@,
        Security::Wpa2Enterprise => "WPA2-E"@,
        Security::Wpa3Enterprise => "WPA3-E"@,
        Security::Unknown => "?"@,
    }
}

/// The short name of a security.
pub fn sec_label(s: Security) -> (r: &'static str)
    ensures
        r@ == label_of(s),
{
    match s {
        Security::Open => "open",
        Security::Wep => "WEP",
        Security::WpaPersonal => "WPA",
        Security::Wpa2Personal => "WPA2",
        Security::Wpa3Personal => "WPA3",
        Security::WpaEnterprise => "WPA-E",
        Security::Wpa2Enterprise => "WPA2-E",
        Security::Wpa3Enterprise => "WPA3-E",
        Security::Unknown => "?",
    }
}

/// A signal strength in percent: full from -50 dBm on, nothing at -100 dBm and
/// below, and two percent for each dBm between.
pub open spec fn percent(dbm: int) -> int {
    if dbm >= -50 {
        100
    } else if dbm <= -100 {
        0
    } else {
        2 * (100 + dbm)
    }
}

pub fn signal_pct(dbm: isize) -> (r: i64)
    ensures
        r == percent(dbm as int),
{
    if dbm >= -50 {
        100
    } else if dbm <= -100 {
        0
    } else {
        2 * (100 + dbm as i64)
    }
}

/// The bars of a signal strength.
pub open spec fn bars(pct: int) -> char {
    if pct >= 75 {
        '󰤨'
    } else if pct >= 50 {
        '󰤥'
    } else if pct >= 25 {
        '󰤢'
    } else {
        '󰤟'
    }
}

pub fn signal_icon(pct: i64) -> (r: char)
    ensures
        r == bars(pct as int),
{
    if pct >= 75 {
        '󰤨'
    } else if pct >= 50 {
        '󰤥'
    } else if pct >= 25 {
        '󰤢'
    } else {
        '󰤟'
    }
}

/// The band of a channel.
pub open spec fn band_of(channel: Option<u32>) -> Seq<char> {
    match channel {
        Some(c) => if 1 <= c <= 14 {
            "2.4 GHz"@
        } else {
            "5 GHz"@
        },
        None => "-"@,
    }
}

pub fn band(channel: Option<u32>) -> (r: &'static str)
    ensures
        r@ == band_of(channel),
{
    match channel {
        Some(c) => if 1 <= c && c <= 14 {
            "2.4 GHz"
        } else {
            "5 GHz"
        },
        None => "-",
    }
}

// ---------------------------------------------------------------------------
// Places.
// ---------------------------------------------------------------------------

/// A part of the terminal.
#[derive(Clone, Copy, Debug, PartialEq, Eq, Structural)]
pub struct Rect {
    pub x: u16,
    pub y: u16,
    pub width: u16,
    pub height: u16,
}

impl Rect {
    /// All of it can be addressed.
    pub open spec fn valid(&self) -> bool {
        &&& self.x + self.width <= u16::MAX
        &&& self.y + self.height <= u16::MAX
    }

    /// It lies within another part.
    pub open spec fn within(&self, outer: Rect) -> bool {
        &&& outer.x <= self.x
        &&& self.x + self.width <= outer.x + outer.width
        &&& outer.y <= self.y
        &&& self.y + self.height <= outer.y + outer.height
    }
}

pub open spec fn less(a: int, b: int) -> int {
    if a > b {
        a - b
    } else {
        0
    }
}

pub open spec fn smaller(a: int, b: int) -> int {
    if a < b {
        a
    } else {
        b
    }
}

pub open spec fn larger(a: int, b: int) -> int {
    if a > b {
        a
    } else {
        b
    }
}

/// A part of the size `w` by `h` in the middle of `area`, cut where it does
/// not fit.
pub open spec fn middle(area: Rect, w: u16, h: u16) -> Rect {
    Rect {
        x: (area.x + less(area.width as int, w as int) / 2) as u16,
        y: (area.y + less(area.height as int, h as int) / 2) as u16,
        width: smaller(w as int, area.width as int) as u16,
        height: smaller(h as int, area.height as int) as u16,
    }
}

fn minus(a: u16, b: u16) -> (r: u16)
    ensures
        r == less(a as int, b as int),
{
    if a > b {
        a - b
    } else {
        0
    }
}

fn smaller_of(a: u16, b: u16) -> (r: u16)
    ensures
        r == smaller(a as int, b as int),
{
    if a < b {
        a
    } else {
        b
    }
}

pub fn centered(area: Rect, w: u16, h: u16) -> (r: Rect)
    requires
        area.valid(),
    ensures
        r == middle(area, w, h),
        r.within(area),
{
    Rect {
        x: area.x + minus(area.width, w) / 2,
        y: area.y + minus(area.height, h) / 2,
        width: smaller_of(w, area.width),
        height: smaller_of(h, area.height),
    }
}

// ---------------------------------------------------------------------------
// Tables.
// ---------------------------------------------------------------------------

/// A row of a table.
#[derive(Debug)]
pub struct TableRow {
    pub cells: Vec<String>,
    /// Shown dimmed.
    pub dim: bool,
}

#[verifier::ext_equal]
pub struct RowView {
    pub cells: Seq<Seq<char>>,
    pub dim: bool,
}

impl View for TableRow {
    type V = RowView;

    open spec fn view(&self) -> RowView {
        RowView { cells: text::texts(self.cells@), dim: self.dim }
    }
}

pub open spec fn row_views(rows: Seq<TableRow>) -> Seq<RowView> {
    Seq::new(rows.len(), |i: int| rows[i]@)
}

/// One of the three tables.
#[derive(Clone, Copy, Debug, PartialEq, Eq, Structural)]
pub enum Pane {
    KnownNetworks,
    NewNetworks,
    Device,
}

/// How wide a column is, in cells of the terminal.
#[derive(Clone, Copy, Debug, PartialEq, Eq, Structural)]
pub enum Width {
    Exactly(u16),
    /// All that the others leave.
    Rest,
}

/// A column of a table.
#[derive(Clone, Copy, Debug)]
pub struct Column {
    pub name: &'static str,
    pub width: Width,
}

/// The names and widths of columns.
pub open spec fn column_views(columns: Seq<Column>) -> Seq<(Seq<char>, Width)> {
    Seq::new(columns.len(), |i: int| (columns[i].name@, columns[i].width))
}

/// The title of a table.
pub open spec fn title_of(pane: Pane) -> Seq<char> {
    match pane {
        Pane::KnownNetworks => " Known Networks "@,
        Pane::NewNetworks => " New Networks "@,
        Pane::Device => " Device "@,
    }
}

/// The columns of a table.
pub open spec fn columns_of(pane: Pane) -> Seq<(Seq<char>, Width)> {
    match pane {
        Pane::KnownNetworks => seq![
            (""@, Width::Exactly(2)),
            ("Name"@, Width::Rest),
            ("Security"@, Width::Exactly(8)),
            ("Hidden"@, Width::Exactly(6)),
            ("Auto Connect"@, Width::Exactly(12)),
            ("Signal"@, Width::Exactly(6)),
        ],
        Pane::NewNetworks => seq![
            ("Name"@, Width::Rest),
            ("Security"@, Width::Exactly(15)),
            ("Signal"@, Width::Exactly(8)),
        ],
        Pane::Device => seq![
            ("Name"@, Width::Exactly(10)),
            ("Mode"@, Width::Exactly(8)),
            ("Powered"@, Width::Exactly(10)),
            ("State"@, Width::Exactly(12)),
            ("Scanning"@, Width::Exactly(10)),
            ("Frequency"@, Width::Exactly(10)),
            ("Security"@, Width::Exactly(15)),
        ],
    }
}

/// The table has the focus.
pub open spec fn has_focus(pane: Pane, focus: Focus) -> bool {
    match pane {
        Pane::KnownNetworks => focus == Focus::Preferred,
        Pane::NewNetworks => focus == Focus::Available,
        Pane::Device => false,
    }
}

fn column(name: &'static str, width: Width) -> (r: Column)
    ensures
        (r.name@, r.width) == (name@, width),
{
    Column { name, width }
}

impl Pane {
    pub fn title(&self) -> (r: &'static str)
        ensures
            r@ == title_of(*self),
    {
        match *self {
            Pane::KnownNetworks => " Known Networks ",
            Pane::NewNetworks => " New Networks ",
            Pane::Device => " Device ",
        }
    }

    pub fn columns(&self) -> (r: Vec<Column>)
        ensures
            column_views(r@) == columns_of(*self),
    {
        let mut v: Vec<Column> = Vec::new();
        match *self {
            Pane::KnownNetworks => {
                v.push(column("", Width::Exactly(2)));
                v.push(column("Name", Width::Rest));
                v.push(column("Security", Width::Exactly(8)));
                v.push(column("Hidden", Width::Exactly(6)));
                v.push(column("Auto Connect", Width::Exactly(12)));
                v.push(column("Signal", Width::Exactly(6)));
            },
            Pane::NewNetworks => {
                v.push(column("Name", Width::Rest));
                v.push(column("Security", Width::Exactly(15)));
                v.push(column("Signal", Width::Exactly(8)));
            },
            Pane::Device => {
                v.push(column("Name", Width::Exactly(10)));
                v.push(column("Mode", Width::Exactly(8)));
                v.push(column("Powered", Width::Exactly(10)));
                v.push(column("State", Width::Exactly(12)));
                v.push(column("Scanning", Width::Exactly(10)));
                v.push(column("Frequency", Width::Exactly(10)));
                v.push(column("Security", Width::Exactly(15)));
            },
        }
        assert(column_views(v@) =~= columns_of(*self));
        v
    }

    /// Whether the table has the focus; the one of the device never has.
    pub fn focused(&self, focus: Focus) -> (r: bool)
        ensures
            r == has_focus(*self, focus),
    {
        match *self {
            Pane::KnownNetworks => focus == Focus::Preferred,
            Pane::NewNetworks => focus == Focus::Available,
            Pane::Device => false,
        }
    }
}

/// Every row of a table has one cell for each of its columns, and exactly one
/// table has the focus.
pub proof fn every_row_fills_its_columns(app: AppView, ssid: Seq<char>, n: ScannedNetwork)
    ensures
        known_row(app, ssid).cells.len() == columns_of(Pane::KnownNetworks).len(),
        new_row(n).cells.len() == columns_of(Pane::NewNetworks).len(),
        device_cells(app).len() == columns_of(Pane::Device).len(),
        has_focus(Pane::KnownNetworks, app.focus) != has_focus(Pane::NewNetworks, app.focus),
        !has_focus(Pane::Device, app.focus),
{
}

/// The network that the interface is on.
pub open spec fn connected(app: AppView) -> Option<Seq<char>> {
    match app.state {
        Some(s) => text::opt_text(s.ssid),
        None => None,
    }
}

/// The row of a known network. One that is out of range is dimmed and shows
/// nothing but its name.
pub open spec fn known_row(app: AppView, ssid: Seq<char>) -> RowView {
    let icon = if connected(app) == Some(ssid) {
        "󰖩 "@
    } else {
        ""@
    };
    match corewlan::first_named(app.networks, ssid) {
        Some(n) => RowView {
            cells: seq![
                icon,
                ssid,
                label_of(n.security),
                "No"@,
                "Yes"@,
                text::signed_decimal(percent(n.rssi as int)) + "%"@,
            ],
            dim: false,
        },
        None => RowView { cells: seq![icon, ssid, ""@, ""@, ""@, ""@], dim: true },
    }
}

/// The row of a new network.
pub open spec fn new_row(n: ScannedNetwork) -> RowView {
    let pct = percent(n.rssi as int);
    RowView {
        cells: seq![
            match n.ssid {
                Some(s) => s@,
                None => "<hidden>"@,
            },
            label_of(n.security),
            text::padded_left(text::signed_decimal(pct), 3) + "% "@ + seq![bars(pct)],
        ],
        dim: false,
    }
}

/// The row of the device.
pub open spec fn device_cells(app: AppView) -> Seq<Seq<char>> {
    let scanning = if app.scanning {
        "Yes"@
    } else {
        "No"@
    };
    match app.state {
        Some(s) => seq![
            s.name@,
            "station"@,
            if s.powered {
                "On"@
            } else {
                "Off"@
            },
            if s.ssid is Some {
                "connected"@
            } else {
                "disconnected"@
            },
            scanning,
            band_of(s.channel),
            match s.ssid {
                Some(ssid) => match corewlan::first_named(app.networks, ssid@) {
                    Some(n) => label_of(n.security),
                    None => "-"@,
                },
                None => "-"@,
            },
        ],
        None => seq!["-"@, "station"@, "-"@, "-"@, scanning, "-"@, "-"@],
    }
}

fn cells3(a: String, b: String, c: String) -> (r: Vec<String>)
    ensures
        text::texts(r@) == seq![a@, b@, c@],
{
    let mut v: Vec<String> = Vec::new();
    v.push(a);
    v.push(b);
    v.push(c);
    assert(text::texts(v@) =~= seq![a@, b@, c@]);
    v
}

fn cells6(a: String, b: String, c: &str, d: &str, e: &str, f: String) -> (r: Vec<String>)
    ensures
        text::texts(r@) == seq![a@, b@, c@, d@, e@, f@],
{
    let mut v: Vec<String> = Vec::new();
    v.push(a);
    v.push(b);
    v.push(c.to_owned());
    v.push(d.to_owned());
    v.push(e.to_owned());
    v.push(f);
    assert(text::texts(v@) =~= seq![a@, b@, c@, d@, e@, f@]);
    v
}

fn same_opt(a: &Option<String>, b: &str) -> (r: bool)
    ensures
        r == (text::opt_text(*a) == Some(b@)),
{
    match a {
        Some(s) => text::same_text(s.as_str(), b),
        None => false,
    }
}

/// The rows of the table of known networks.
pub fn draw_known_networks(app: &App) -> (r: Vec<TableRow>)
    ensures
        row_views(r@) == Seq::new(
            app@.known().len(),
            |i: int| known_row(app@, app@.known()[i]@),
        ),
{
    let names = app.visible_preferred();
    let mut rows: Vec<TableRow> = Vec::new();
    let mut i: usize = 0;
    while i < names.len()
        invariant
            i <= names@.len(),
            names@ == app@.known(),
            rows@.len() == i,
            forall|k: int| 0 <= k < i ==> (#[trigger] rows@[k])@ == known_row(app@, names@[k]@),
        decreases names@.len() - i,
    {
        let ssid = names[i].as_str();
        let here = match &app.state {
            Some(s) => same_opt(&s.ssid, ssid),
            None => false,
        };
        let icon = if here {
            "󰖩 "
        } else {
            ""
        };
        let row = match corewlan::find_named(&app.networks, ssid) {
            Some(n) => {
                let pct = text::signed_text(signal_pct(n.rssi) as i128);
                TableRow {
                    cells: cells6(
                        icon.to_owned(),
                        ssid.to_owned(),
                        sec_label(n.security),
                        "No",
                        "Yes",
                        text::cat2(pct.as_str(), "%"),
                    ),
                    dim: false,
                }
            },
            None => TableRow {
                cells: cells6(icon.to_owned(), ssid.to_owned(), "", "", "", "".to_owned()),
                dim: true,
            },
        };
        rows.push(row);
        i += 1;
    }
    assert(row_views(rows@) =~= Seq::new(
        app@.known().len(),
        |i: int| known_row(app@, app@.known()[i]@),
    ));
    rows
}

/// The rows of the table of new networks.
pub fn draw_new_networks(app: &App) -> (r: Vec<TableRow>)
    ensures
        row_views(r@) == Seq::new(app@.available().len(), |i: int| new_row(app@.available()[i])),
{
    let networks = app.visible_networks();
    let ghost all = app@.available();
    let mut rows: Vec<TableRow> = Vec::new();
    let mut i: usize = 0;
    while i < networks.len()
        invariant
            i <= networks@.len(),
            app::derefs(networks@) == all,
            rows@.len() == i,
            forall|k: int| 0 <= k < i ==> (#[trigger] rows@[k])@ == new_row(all[k]),
        decreases networks@.len() - i,
    {
        let n = networks[i];
        assert(all[i as int] == *n);
        let name = match &n.ssid {
            Some(s) => s.clone(),
            None => "<hidden>".to_owned(),
        };
        let pct: i64 = signal_pct(n.rssi);
        let digits = text::signed_text(pct as i128);
        let mut signal = text::pad_left(digits.as_str(), 3);
        signal.append("% ");
        let ghost front = signal@;
        signal.push(signal_icon(pct));
        assert(signal@ =~= front + seq![bars(pct as int)]);
        rows.push(
            TableRow { cells: cells3(name, sec_label(n.security).to_owned(), signal), dim: false },
        );
        i += 1;
    }
    assert(row_views(rows@) =~= Seq::new(all.len(), |i: int| new_row(all[i])));
    rows
}

/// The row of the device table.
pub fn draw_device(app: &App) -> (r: TableRow)
    ensures
        r@ == (RowView { cells: device_cells(app@), dim: false }),
{
    let scanning = if app.scanning {
        "Yes"
    } else {
        "No"
    };
    let mut v: Vec<String> = Vec::new();
    match &app.state {
        Some(s) => {
            let security = match &s.ssid {
                Some(ssid) => match corewlan::find_named(&app.networks, ssid.as_str()) {
                    Some(n) => sec_label(n.security),
                    None => "-",
                },
                None => "-",
            };
            v.push(s.name.clone());
            v.push("station".to_owned());
            v.push((if s.powered {
                "On"
            } else {
                "Off"
            }).to_owned());
            v.push((if s.ssid.is_some() {
                "connected"
            } else {
                "disconnected"
            }).to_owned());
            v.push(scanning.to_owned());
            v.push(band(s.channel).to_owned());
            v.push(security.to_owned());
        },
        None => {
            v.push("-".to_owned());
            v.push("station".to_owned());
            v.push("-".to_owned());
            v.push("-".to_owned());
            v.push(scanning.to_owned());
            v.push("-".to_owned());
            v.push("-".to_owned());
        },
    }
    assert(text::texts(v@) =~= device_cells(app@));
    TableRow { cells: v, dim: false }
}

// ---------------------------------------------------------------------------
// The help lines.
// ---------------------------------------------------------------------------

/// A key and what it does.
#[derive(Clone, Copy, Debug)]
pub struct HelpEntry {
    pub key: &'static str,
    pub label: &'static str,
}

pub open spec fn help_view(v: Seq<HelpEntry>) -> Seq<(Seq<char>, Seq<char>)> {
    Seq::new(v.len(), |i: int| (v[i].key@, v[i].label@))
}

/// The keys for the table in focus.
pub open spec fn table_keys(focus: Focus) -> Seq<(Seq<char>, Seq<char>)> {
    match focus {
        Focus::Preferred => seq![
            ("k"@, " Up"@),
            ("j"@, " Down"@),
            ("↵"@, " Connect"@),
            ("d"@, " Remove"@),
            ("p"@, " Share"@),
            ("A"@, " Show All"@),
            ("tab"@, " Nav"@),
        ],
        Focus::Available => seq![
            ("k"@, " Up"@),
            ("j"@, " Down"@),
            ("↵"@, " Connect"@),
            ("h"@, " Connect Hidden"@),
            ("a"@, " Show All"@),
            ("tab"@, " Nav"@),
        ],
    }
}

/// The keys that are the same everywhere.
pub open spec fn common_keys() -> Seq<(Seq<char>, Seq<char>)> {
    seq![
            ("s"@, " Scan"@),
            ("o"@, " Power"@),
            ("x"@, " Disconnect"@),
            ("i"@, " Infos"@),
            ("T"@, " Theme"@),
            ("q"@, " Quit"@),
    ]
}

fn table_help(focus: Focus) -> (r: Vec<HelpEntry>)
    ensures
        help_view(r@) == table_keys(focus),
{
    let mut v: Vec<HelpEntry> = Vec::new();
    match focus {
        Focus::Preferred => {
            v.push(HelpEntry { key: "k", label: " Up" });
            v.push(HelpEntry { key: "j", label: " Down" });
            v.push(HelpEntry { key: "↵", label: " Connect" });
            v.push(HelpEntry { key: "d", label: " Remove" });
            v.push(HelpEntry { key: "p", label: " Share" });
            v.push(HelpEntry { key: "A", label: " Show All" });
            v.push(HelpEntry { key: "tab", label: " Nav" });
        },
        Focus::Available => {
            v.push(HelpEntry { key: "k", label: " Up" });
            v.push(HelpEntry { key: "j", label: " Down" });
            v.push(HelpEntry { key: "↵", label: " Connect" });
            v.push(HelpEntry { key: "h", label: " Connect Hidden" });
            v.push(HelpEntry { key: "a", label: " Show All" });
            v.push(HelpEntry { key: "tab", label: " Nav" });
        },
    }
    assert(help_view(v@) =~= table_keys(focus));
    v
}

fn common_help() -> (r: Vec<HelpEntry>)
    ensures
        help_view(r@) == common_keys(),
{
    let mut v: Vec<HelpEntry> = Vec::new();
    v.push(HelpEntry { key: "s", label: " Scan" });
    v.push(HelpEntry { key: "o", label: " Power" });
    v.push(HelpEntry { key: "x", label: " Disconnect" });
    v.push(HelpEntry { key: "i", label: " Infos" });
    v.push(HelpEntry { key: "T", label: " Theme" });
    v.push(HelpEntry { key: "q", label: " Quit" });
    assert(help_view(v@) =~= common_keys());
    v
}

/// The two help lines.
pub fn draw_help(focus: Focus) -> (r: (Vec<HelpEntry>, Vec<HelpEntry>))
    ensures
        help_view(r.0@) == table_keys(focus),
        help_view(r.1@) == common_keys(),
{
    (table_help(focus), common_help())
}

// ---------------------------------------------------------------------------
// Boxes.
// ---------------------------------------------------------------------------

/// How many notifications are shown at most.
pub const SHOWN_NOTIFICATIONS: usize = 5;

/// The box of the notifications.
#[derive(Debug)]
pub struct NotificationBox {
    pub rect: Rect,
    pub lines: Vec<(String, Kind)>,
}

/// The notifications that are shown: the newest, newest first.
pub open spec fn shown_notifications(ns: Seq<NotificationView>) -> Seq<(Seq<char>, Kind)> {
    let n = smaller(ns.len() as int, SHOWN_NOTIFICATIONS as int) as nat;
    Seq::new(n, |i: int| (ns[ns.len() - 1 - i].text, ns[ns.len() - 1 - i].kind))
}

pub open spec fn line_views(v: Seq<(String, Kind)>) -> Seq<(Seq<char>, Kind)> {
    Seq::new(v.len(), |i: int| (v[i].0@, v[i].1))
}

/// Where the box of `n` notifications lies: at the lower right.
pub open spec fn notification_rect(area: Rect, n: int) -> Rect {
    let h = n + 2;
    let w = smaller(60, less(area.width as int, 2));
    Rect {
        x: (area.x + less(area.width as int, w + 1)) as u16,
        y: (area.y + less(area.height as int, h + 2)) as u16,
        width: w as u16,
        height: h as u16,
    }
}

/// The box of the notifications, if there are any.
pub fn draw_notifications(area: Rect, ns: &Vec<Notification>) -> (r: Option<NotificationBox>)
    requires
        area.valid(),
    ensures
        r is None <==> ns@.len() == 0,
        r matches Some(b) ==> {
            let views = notification::notification_views(ns@);
            &&& line_views(b.lines@) == shown_notifications(views)
            &&& b.rect == notification_rect(area, shown_notifications(views).len() as int)
        },
{
    if ns.len() == 0 {
        return None;
    }
    let ghost views = notification::notification_views(ns@);
    let len: usize = ns.len();
    let n: usize = if len < SHOWN_NOTIFICATIONS {
        len
    } else {
        SHOWN_NOTIFICATIONS
    };
    let mut lines: Vec<(String, Kind)> = Vec::new();
    let mut i: usize = 0;
    while i < n
        invariant
            i <= n <= len,
            len == ns@.len(),
            lines@.len() == i,
            forall|k: int|
                0 <= k < i ==> (#[trigger] lines@[k]).0@ == ns@[len - 1 - k].text@ && lines@[k].1
                    == ns@[len - 1 - k].kind,
        decreases n - i,
    {
        let item = &ns[len - 1 - i];
        lines.push((item.text.clone(), item.kind));
        i += 1;
    }
    assert(line_views(lines@) =~= shown_notifications(views));
    let h: u16 = n as u16 + 2;
    let w: u16 = smaller_of(60, minus(area.width, 2));
    let rect = Rect {
        x: area.x + minus(area.width, w + 1),
        y: area.y + minus(area.height, h + 2),
        width: w,
        height: h,
    };
    Some(NotificationBox { rect, lines })
}

/// The box of a prompt.
#[derive(Debug)]
pub struct InputBox {
    pub rect: Rect,
    pub title: String,
    pub line: String,
}

/// A prompt: its label, the network it is for, what has been typed, and
/// whether that is hidden.
#[verifier::ext_equal]
pub struct PromptView {
    pub label: Seq<char>,
    pub ssid: Seq<char>,
    pub value: Seq<char>,
    pub mask: bool,
}

/// The prompt of an overlay.
pub open spec fn prompt_of(overlay: OverlayView) -> Option<PromptView> {
    match overlay {
        OverlayView::Password { ssid, input } => Some(
            PromptView { label: "Password"@, ssid, value: input.text, mask: true },
        ),
        OverlayView::EnterpriseUser { ssid, input, .. } => Some(
            PromptView { label: "Username (PEAP)"@, ssid, value: input.text, mask: false },
        ),
        OverlayView::EnterprisePass { ssid, input, .. } => Some(
            PromptView { label: "Password (PEAP)"@, ssid, value: input.text, mask: true },
        ),
        OverlayView::HiddenSsid { input, .. } => Some(
            PromptView { label: "Hidden SSID"@, ssid: seq![], value: input.text, mask: false },
        ),
        OverlayView::HiddenPass { ssid, input } => Some(
            PromptView {
                label: "Hidden password (blank = open)"@,
                ssid,
                value: input.text,
                mask: true,
            },
        ),
        _ => None,
    }
}

pub open spec fn prompt_title(p: PromptView) -> Seq<char> {
    if p.ssid.len() == 0 {
        " "@ + p.label + " "@
    } else {
        " "@ + p.label + " — "@ + p.ssid + " "@
    }
}

pub open spec fn prompt_line(p: PromptView) -> Seq<char> {
    "> "@ + if p.mask {
        text::repeated('•', p.value.len())
    } else {
        p.value
    }
}

pub open spec fn input_rect(area: Rect) -> Rect {
    middle(area, smaller(60, less(area.width as int, 4)) as u16, 5)
}

/// The box of a prompt.
pub fn draw_input(area: Rect, label: &str, ssid: &str, value: &str, mask: bool) -> (r: InputBox)
    requires
        area.valid(),
    ensures
        ({
            let p = PromptView { label: label@, ssid: ssid@, value: value@, mask };
            &&& r.rect == input_rect(area)
            &&& r.title@ == prompt_title(p)
            &&& r.line@ == prompt_line(p)
        }),
{
    let w: u16 = smaller_of(60, minus(area.width, 4));
    let rect = centered(area, w, 5);
    let title = if ssid.is_empty() {
        text::cat3(" ", label, " ")
    } else {
        text::cat5(" ", label, " — ", ssid, " ")
    };
    let line = if mask {
        let dots = text::repeat('•', value.unicode_len());
        text::cat2("> ", dots.as_str())
    } else {
        text::cat2("> ", value)
    };
    InputBox { rect, title, line }
}

/// The box of the prompt of an overlay, if it has one.
pub fn draw_prompt(area: Rect, overlay: &Overlay) -> (r: Option<InputBox>)
    requires
        area.valid(),
    ensures
        match prompt_of(overlay@) {
            Some(p) => r matches Some(b) && b.rect == input_rect(area) && b.title@ == prompt_title(
                p,
            ) && b.line@ == prompt_line(p),
            None => r is None,
        },
{
    match overlay {
        Overlay::Password(p) => Some(
            draw_input(area, "Password", p.ssid.as_str(), p.input.value.as_str(), true),
        ),
        Overlay::EnterpriseUser(p) => Some(
            draw_input(area, "Username (PEAP)", p.ssid.as_str(), p.input.value.as_str(), false),
        ),
        Overlay::EnterprisePass(p) => Some(
            draw_input(area, "Password (PEAP)", p.ssid.as_str(), p.input.value.as_str(), true),
        ),
        Overlay::HiddenSsid(p) => {
            proof {
                reveal_strlit("");
                assert(""@ =~= seq![]);
            }
            Some(draw_input(area, "Hidden SSID", "", p.input.value.as_str(), false))
        },
        Overlay::HiddenPass(p) => Some(
            draw_input(
                area,
                "Hidden password (blank = open)",
                p.ssid.as_str(),
                p.input.value.as_str(),
                true,
            ),
        ),
        _ => None,
    }
}

/// A typed secret shows nothing but its length.
pub proof fn a_masked_prompt_shows_only_the_length(a: PromptView, b: PromptView)
    requires
        a.mask,
        b.mask,
        a.value.len() == b.value.len(),
    ensures
        prompt_line(a) == prompt_line(b),
{
}

/// A value in the box of the adapter.
#[derive(Debug)]
pub enum InfoValue {
    Text(String),
    /// A rate in Mbit/s, as the bits of a double.
    Rate(u64),
}

#[verifier::ext_equal]
pub enum InfoView {
    Text(Seq<char>),
    Rate(u64),
}

impl View for InfoValue {
    type V = InfoView;

    open spec fn view(&self) -> InfoView {
        match *self {
            InfoValue::Text(s) => InfoView::Text(s@),
            InfoValue::Rate(bits) => InfoView::Rate(bits),
        }
    }
}

/// The box of the adapter.
#[derive(Debug)]
pub struct InfoBox {
    pub rect: Rect,
    /// None where nothing is known of the adapter.
    pub lines: Option<Vec<(String, InfoValue)>>,
}

pub open spec fn info_views(v: Seq<(String, InfoValue)>) -> Seq<(Seq<char>, InfoView)> {
    Seq::new(v.len(), |i: int| (v[i].0@, v[i].1@))
}

pub open spec fn or_dash(o: Option<String>) -> InfoView {
    match o {
        Some(s) => InfoView::Text(s@),
        None => InfoView::Text("—"@),
    }
}

pub open spec fn key_cell(key: Seq<char>) -> Seq<char> {
    "  "@ + text::padded_right(key, 10) + " "@
}

pub open spec fn dbm_text(v: int) -> Seq<char> {
    text::signed_decimal(v) + " dBm"@
}

/// What is shown of an adapter.
pub open spec fn info_lines(s: InterfaceState) -> Seq<(Seq<char>, InfoView)> {
    seq![
        (key_cell("interface"@), InfoView::Text(s.name@)),
        (
            key_cell("powered"@),
            InfoView::Text(
                if s.powered {
                    "ON"@
                } else {
                    "OFF"@
                },
            ),
        ),
        (key_cell("hw addr"@), or_dash(s.hw_address)),
        (key_cell("SSID"@), or_dash(s.ssid)),
        (key_cell("BSSID"@), or_dash(s.bssid)),
        (key_cell("RSSI"@), InfoView::Text(dbm_text(s.rssi as int))),
        (key_cell("noise"@), InfoView::Text(dbm_text(s.noise as int))),
        (key_cell("tx rate"@), InfoView::Rate(s.tx_rate_bits)),
        (
            key_cell("channel"@),
            match s.channel {
                Some(c) => InfoView::Text(text::decimal(c as nat)),
                None => InfoView::Text("—"@),
            },
        ),
    ]
}

fn kv(key: &str, value: InfoValue) -> (r: (String, InfoValue))
    ensures
        r.0@ == key_cell(key@),
        r.1 == value,
{
    let padded = text::pad_right(key, 10);
    (text::cat3("  ", padded.as_str(), " "), value)
}

fn dashed(o: &Option<String>) -> (r: InfoValue)
    ensures
        r@ == or_dash(*o),
{
    match o {
        Some(s) => InfoValue::Text(s.clone()),
        None => InfoValue::Text("—".to_owned()),
    }
}

fn dbm(v: isize) -> (r: InfoValue)
    ensures
        r@ == InfoView::Text(dbm_text(v as int)),
{
    let digits = text::signed_text(v as i128);
    InfoValue::Text(text::cat2(digits.as_str(), " dBm"))
}

/// The box of the adapter.
pub fn draw_info(area: Rect, state: &Option<InterfaceState>) -> (r: InfoBox)
    requires
        area.valid(),
    ensures
        r.rect == middle(area, smaller(60, less(area.width as int, 4)) as u16, 12),
        match state {
            Some(s) => r.lines matches Some(v) && info_views(v@) == info_lines(*s),
            None => r.lines is None,
        },
{
    let w: u16 = smaller_of(60, minus(area.width, 4));
    let rect = centered(area, w, 12);
    let lines = match state {
        Some(s) => {
            let mut v: Vec<(String, InfoValue)> = Vec::new();
            v.push(kv("interface", InfoValue::Text(s.name.clone())));
            v.push(
                kv(
                    "powered",
                    InfoValue::Text(
                        (if s.powered {
                            "ON"
                        } else {
                            "OFF"
                        }).to_owned(),
                    ),
                ),
            );
            v.push(kv("hw addr", dashed(&s.hw_address)));
            v.push(kv("SSID", dashed(&s.ssid)));
            v.push(kv("BSSID", dashed(&s.bssid)));
            v.push(kv("RSSI", dbm(s.rssi)));
            v.push(kv("noise", dbm(s.noise)));
            v.push(kv("tx rate", InfoValue::Rate(s.tx_rate_bits)));
            v.push(
                kv(
                    "channel",
                    match s.channel {
                        Some(c) => InfoValue::Text(text::decimal_text(c as u128)),
                        None => InfoValue::Text("—".to_owned()),
                    },
                ),
            );
            assert(info_views(v@) =~= info_lines(*s));
            Some(v)
        },
        None => None,
    };
    InfoBox { rect, lines }
}

/// The box of a share code.
#[derive(Debug)]
pub struct ShareBox {
    pub rect: Rect,
    pub title: String,
    pub lines: Vec<String>,
    /// The lines tell of an error.
    pub failed: bool,
    pub footer: &'static str,
}

/// The longest of some lines, in characters.
pub open spec fn widest(lines: Seq<Seq<char>>) -> nat
    decreases lines.len(),
{
    if lines.len() == 0 {
        0
    } else {
        larger(widest(lines.drop_last()) as int, lines.last().len() as int) as nat
    }
}

/// Where the box of some lines lies: in the middle, with room around them, and
/// within the terminal.
pub open spec fn share_rect(area: Rect, lines: Seq<Seq<char>>) -> Rect {
    let w = smaller(larger(widest(lines) as int + 4, 40), less(area.width as int, 2));
    let h = smaller(larger(lines.len() as int + 4, 8), less(area.height as int, 2));
    middle(area, w as u16, h as u16)
}

/// The lines of a share code, given its drawing.
pub open spec fn share_lines(drawing: Result<Seq<char>, Seq<char>>) -> Seq<Seq<char>> {
    match drawing {
        Ok(image) => text::lines_of(image),
        Err(e) => seq!["QR error: "@ + e],
    }
}

pub open spec fn share_footer(has_password: bool) -> Seq<char> {
    if has_password {
        "scan with phone camera to join · Esc close"@
    } else {
        "SSID-only QR (no password) · Esc close"@
    }
}

/// A drawing or its error, up to views.
pub open spec fn drawing_view(r: Result<String, String>) -> Result<Seq<char>, Seq<char>> {
    match r {
        Ok(image) => Ok(image@),
        Err(e) => Err(e@),
    }
}

fn widest_of(lines: &Vec<String>) -> (r: usize)
    ensures
        r == widest(text::texts(lines@)),
{
    let ghost all = text::texts(lines@);
    let mut w: usize = 0;
    let mut i: usize = 0;
    assert(all.take(0) =~= Seq::<Seq<char>>::empty());
    while i < lines.len()
        invariant
            i <= lines@.len(),
            all == text::texts(lines@),
            w == widest(all.take(i as int)),
        decreases lines@.len() - i,
    {
        let n: usize = lines[i].as_str().unicode_len();
        assert(all.take(i + 1).drop_last() =~= all.take(i as int));
        assert(all.take(i + 1).last() == lines@[i as int]@);
        if n > w {
            w = n;
        }
        i += 1;
    }
    assert(all.take(all.len() as int) =~= all);
    w
}

/// The room that `n` lines or columns take, with a least size, within a limit.
fn fitted(n: usize, least: u16, limit: u16) -> (r: u16)
    requires
        least >= 4,
    ensures
        r == smaller(larger(n + 4, least as int), limit as int),
{
    let wanted: u128 = n as u128 + 4;
    let wanted: u128 = if wanted > least as u128 {
        wanted
    } else {
        least as u128
    };
    if wanted < limit as u128 {
        wanted as u16
    } else {
        limit
    }
}

/// The box of a share code, given its drawing.
pub fn share_box(area: Rect, payload: &SharePayload, drawing: Result<String, String>) -> (r:
    ShareBox)
    requires
        area.valid(),
    ensures
        text::texts(r.lines@) == share_lines(drawing_view(drawing)),
        r.rect == share_rect(area, share_lines(drawing_view(drawing))),
        r.rect.within(area),
        r.failed == drawing is Err,
        r.title@ == " Share — "@ + payload.ssid@ + " "@,
        r.footer@ == share_footer(payload.has_password),
{
    let failed = drawing.is_err();
    let lines = match drawing {
        Ok(image) => text::lines(image.as_str()),
        Err(e) => {
            let mut v: Vec<String> = Vec::new();
            v.push(text::cat2("QR error: ", e.as_str()));
            assert(text::texts(v@) =~= seq!["QR error: "@ + e@]);
            v
        },
    };
    let w: u16 = fitted(widest_of(&lines), 40, minus(area.width, 2));
    let h: u16 = fitted(lines.len(), 8, minus(area.height, 2));
    let rect = centered(area, w, h);
    let title = text::cat3(" Share — ", payload.ssid.as_str(), " ");
    let footer = if payload.has_password {
        "scan with phone camera to join · Esc close"
    } else {
        "SSID-only QR (no password) · Esc close"
    };
    ShareBox { rect, title, lines, failed, footer }
}

/// The box of a share code.
pub fn draw_share(area: Rect, payload: &SharePayload) -> (r: ShareBox)
    requires
        area.valid(),
    ensures
        text::texts(r.lines@) == share_lines(qr::drawing(payload.uri@)),
        r.rect == share_rect(area, share_lines(qr::drawing(payload.uri@))),
        r.rect.within(area),
        r.failed == qr::drawing(payload.uri@) is Err,
        r.title@ == " Share — "@ + payload.ssid@ + " "@,
        r.footer@ == share_footer(payload.has_password),
{
    let drawing = qr::draw(payload.uri.as_str());
    share_box(area, payload, drawing)
}

// ---------------------------------------------------------------------------
// Styles.
// ---------------------------------------------------------------------------

/// How the frame of a table is drawn.
#[derive(Clone, Copy, Debug, PartialEq, Eq, Structural)]
pub struct BlockStyle {
    pub title: Color,
    pub bold: bool,
    pub border: Color,
    pub thick: bool,
}

/// The frame of a table.
pub open spec fn frame_of(focused: bool, theme: Theme) -> BlockStyle {
    BlockStyle {
        title: theme.title,
        bold: focused,
        border: if focused {
            theme.border_focused
        } else {
            theme.border
        },
        thick: focused,
    }
}

/// The background and the foreground of the selected row.
pub open spec fn selected_colours(focused: bool, theme: Theme) -> Option<(Color, Color)> {
    if focused {
        Some((theme.accent, theme.accent_fg))
    } else {
        None
    }
}

/// The frame of a table. The one in focus stands out.
pub fn block(focused: bool, theme: &Theme) -> (r: BlockStyle)
    ensures
        r == frame_of(focused, *theme),
        r.title == theme.title,
        r.bold == focused,
        r.border == if focused {
            theme.border_focused
        } else {
            theme.border
        },
        r.thick == focused,
{
    BlockStyle {
        title: theme.title,
        bold: focused,
        border: if focused {
            theme.border_focused
        } else {
            theme.border
        },
        thick: focused,
    }
}

/// The background and the foreground of the selected row, which only stands
/// out in the table in focus.
pub fn highlight(focused: bool, theme: &Theme) -> (r: Option<(Color, Color)>)
    ensures
        r == selected_colours(focused, *theme),
        r == if focused {
            Some((theme.accent, theme.accent_fg))
        } else {
            None
        },
{
    if focused {
        Some((theme.accent, theme.accent_fg))
    } else {
        None
    }
}

/// The colour of a notification.
pub open spec fn tone(kind: Kind, theme: Theme) -> Color {
    match kind {
        Kind::Info => theme.ok,
        Kind::Error => theme.err,
    }
}

/// The colour of a notification.
pub fn notification_color(kind: Kind, theme: &Theme) -> (r: Color)
    ensures
        r == tone(kind, *theme),
        r == (match kind {
            Kind::Info => theme.ok,
            Kind::Error => theme.err,
        }),
{
    match kind {
        Kind::Info => theme.ok,
        Kind::Error => theme.err,
    }
}

/// Every security has a label of its own, so that no two can be taken for each
/// other.
pub proof fn security_labels_are_distinct(a: Security, b: Security)
    ensures
        a != b ==> label_of(a) != label_of(b),
        label_of(Security::Open) == "open"@,
        label_of(Security::Wep) == "WEP"@,
        label_of(Security::WpaPersonal) == "WPA"@,
        label_of(Security::Wpa2Personal) == "WPA2"@,
        label_of(Security::Wpa3Personal) == "WPA3"@,
        label_of(Security::WpaEnterprise) == "WPA-E"@,
        label_of(Security::Wpa2Enterprise) == "WPA2-E"@,
        label_of(Security::Wpa3Enterprise) == "WPA3-E"@,
        label_of(Security::Unknown) == "?"@,
{
    reveal_strlit("open");
    reveal_strlit("WEP");
    reveal_strlit("WPA");
    reveal_strlit("WPA2");
    reveal_strlit("WPA3");
    reveal_strlit("WPA-E");
    reveal_strlit("WPA2-E");
    reveal_strlit("WPA3-E");
    reveal_strlit("?");
    assert("open"@.len() == 4 && "WEP"@.len() == 3 && "WPA"@.len() == 3 && "WPA2"@.len() == 4);
    assert("WPA3"@.len() == 4 && "WPA-E"@.len() == 5 && "WPA2-E"@.len() == 6);
    assert("WPA3-E"@.len() == 6 && "?"@.len() == 1);
    assert("WEP"@[1] != "WPA"@[1]);
    assert("open"@[0] != "WPA2"@[0] && "open"@[0] != "WPA3"@[0]);
    assert("WPA2"@[3] != "WPA3"@[3]);
    assert("WPA2-E"@[3] != "WPA3-E"@[3]);
}

/// The percentage of a signal goes from nothing at -100 dBm to everything at
/// -50 dBm, by two for each dBm, and never leaves that range; a stronger
/// signal never shows a smaller one.
pub proof fn a_stronger_signal_shows_no_less(a: int, b: int)
    requires
        a <= b,
    ensures
        0 <= percent(a) <= percent(b) <= 100,
        percent(-100) == 0,
        percent(-50) == 100,
        -100 <= a && b <= -50 ==> percent(b) - percent(a) == 2 * (b - a),
{
}

/// The bars change at every quarter.
pub proof fn bars_change_at_every_quarter(pct: int)
    ensures
        pct >= 75 <==> bars(pct) == '󰤨',
        50 <= pct < 75 <==> bars(pct) == '󰤥',
        25 <= pct < 50 <==> bars(pct) == '󰤢',
        pct < 25 <==> bars(pct) == '󰤟',
{
}

/// The channels one to fourteen are of the lower band, all others of the upper
/// one, and without a channel there is no band.
pub proof fn a_channel_tells_its_band(c: u32)
    ensures
        c >= 1 && c <= 14 ==> band_of(Some(c)) == "2.4 GHz"@,
        c == 0 || c > 14 ==> band_of(Some(c)) == "5 GHz"@,
        band_of(None) == "-"@,
{
}

/// A known network is marked exactly where it is the one that the interface is
/// on. In range it shows the security and the strength of the first network of
/// its name; out of range it is dimmed and shows its name alone.
pub proof fn a_known_row_shows_its_network(app: AppView, ssid: Seq<char>, i: int)
    ensures
        ({
            let row = known_row(app, ssid);
            let on = app.state matches Some(s) && text::opt_text(s.ssid) == Some(ssid);
            let first = 0 <= i < app.networks.len() && text::opt_text(app.networks[i].ssid) == Some(
                ssid,
            ) && forall|k: int|
                0 <= k < i ==> text::opt_text((#[trigger] app.networks[k]).ssid) != Some(ssid);
            let nowhere = forall|k: int|
                0 <= k < app.networks.len() ==> text::opt_text((#[trigger] app.networks[k]).ssid)
                    != Some(ssid);
            &&& row.cells[1] == ssid
            &&& on ==> row.cells[0] == "󰖩 "@
            &&& !on ==> row.cells[0] == ""@
            &&& first ==> !row.dim && row.cells[2] == label_of(app.networks[i].security)
                && row.cells[3] == "No"@ && row.cells[4] == "Yes"@ && row.cells[5]
                == text::signed_decimal(percent(app.networks[i].rssi as int)) + "%"@
            &&& nowhere ==> row.dim && row.cells[2] == ""@ && row.cells[5] == ""@
        }),
{
    let first = 0 <= i < app.networks.len() && text::opt_text(app.networks[i].ssid) == Some(ssid)
        && forall|k: int|
        0 <= k < i ==> text::opt_text((#[trigger] app.networks[k]).ssid) != Some(ssid);
    if first {
        corewlan::the_first_of_a_name_is_found(app.networks, ssid, i);
    }
    corewlan::a_name_is_found_exactly_where_it_is_carried(app.networks, ssid);
    if forall|k: int|
        0 <= k < app.networks.len() ==> text::opt_text((#[trigger] app.networks[k]).ssid) != Some(
            ssid,
        ) {
        assert forall|k: int| 0 <= k < app.networks.len() implies !(
        #[trigger] app.networks[k]).is_named(ssid) by {
            assert(text::opt_text(app.networks[k].ssid) != Some(ssid));
        }
    }
}

/// A new network shows its name, its security and its strength.
pub proof fn a_new_row_shows_its_network(n: ScannedNetwork)
    ensures
        n.ssid matches Some(s) ==> new_row(n).cells[0] == s@,
        n.ssid is None ==> new_row(n).cells[0] == "<hidden>"@,
        new_row(n).cells[1] == label_of(n.security),
        new_row(n).cells[2] == text::padded_left(
            text::signed_decimal(percent(n.rssi as int)),
            3,
        ) + "% "@ + seq![bars(percent(n.rssi as int))],
        !new_row(n).dim,
{
}

/// The device shows what its interface is doing: its name, whether it is
/// powered, connected and scanning, and on which band and with which security.
pub proof fn the_device_shows_its_state(app: AppView, state: InterfaceState)
    requires
        app.state == Some(state),
    ensures
        ({
            let cells = device_cells(app);
            &&& cells[0] == state.name@
            &&& cells[1] == "station"@
            &&& state.powered ==> cells[2] == "On"@
            &&& !state.powered ==> cells[2] == "Off"@
            &&& state.ssid is Some ==> cells[3] == "connected"@
            &&& state.ssid is None ==> cells[3] == "disconnected"@ && cells[6] == "-"@
            &&& app.scanning ==> cells[4] == "Yes"@
            &&& !app.scanning ==> cells[4] == "No"@
            &&& cells[5] == band_of(state.channel)
            &&& state.ssid matches Some(s) ==> (corewlan::first_named(
                app.networks,
                s@,
            ) matches Some(n) ==> cells[6] == label_of(n.security))
            &&& state.ssid matches Some(s) ==> corewlan::first_named(app.networks, s@) is None
                ==> cells[6] == "-"@
        }),
{
}

/// Every password is typed unseen, and nothing else is.
pub proof fn only_passwords_are_masked(overlay: OverlayView)
    ensures
        prompt_of(overlay) is Some <==> overlay is Password || overlay is EnterpriseUser || overlay
            is EnterprisePass || overlay is HiddenSsid || overlay is HiddenPass,
        prompt_of(overlay) matches Some(p) ==> (p.mask <==> overlay is Password || overlay
            is EnterprisePass || overlay is HiddenPass),
        overlay matches OverlayView::Password { ssid, input } ==> (prompt_of(overlay) matches Some(
            p,
        ) && p.ssid == ssid && p.value == input.text),
        overlay matches OverlayView::EnterpriseUser { ssid, username, input } ==> (prompt_of(
            overlay,
        ) matches Some(p) && p.ssid == ssid && p.value == input.text),
        overlay matches OverlayView::EnterprisePass { ssid, username, input } ==> (prompt_of(
            overlay,
        ) matches Some(p) && p.ssid == ssid && p.value == input.text),
        overlay matches OverlayView::HiddenPass { ssid, input } ==> (prompt_of(
            overlay,
        ) matches Some(p) && p.ssid == ssid && p.value == input.text),
{
}

/// What is typed where nothing is masked is shown as it was typed; what is
/// masked shows one dot for each character, and none of the characters.
pub proof fn a_prompt_shows_what_was_typed(p: PromptView, k: int)
    ensures
        !p.mask ==> prompt_line(p) == "> "@ + p.value,
        p.mask ==> prompt_line(p).len() == 2 + p.value.len(),
        p.mask && 2 <= k < prompt_line(p).len() ==> prompt_line(p)[k] == '•',
{
    reveal_strlit("> ");
}

/// At most five notifications are shown, the newest first, and all of them
/// where there are no more.
pub proof fn the_newest_notifications_are_shown_first(ns: Seq<NotificationView>, i: int)
    ensures
        shown_notifications(ns).len() <= 5,
        ns.len() <= 5 ==> shown_notifications(ns).len() == ns.len(),
        ns.len() >= 5 ==> shown_notifications(ns).len() == 5,
        0 <= i < shown_notifications(ns).len() ==> shown_notifications(ns)[i] == (
            ns[ns.len() - 1 - i].text,
            ns[ns.len() - 1 - i].kind,
        ),
{
}

/// A box in the middle has as much room on one side as on the other, up to one
/// cell, and the size that was asked for where that fits.
pub proof fn a_box_lies_in_the_middle(area: Rect, w: u16, h: u16)
    requires
        area.valid(),
    ensures
        middle(area, w, h).within(area),
        w <= area.width ==> middle(area, w, h).width == w,
        h <= area.height ==> middle(area, w, h).height == h,
        ({
            let r = middle(area, w, h);
            let left = r.x - area.x;
            let right = area.width - r.width - left;
            let above = r.y - area.y;
            let below = area.height - r.height - above;
            0 <= right - left <= 1 && 0 <= below - above <= 1
        }),
{
}

/// The box of the adapter shows each part of the state under its own label,
/// with a dash for what is not known.
pub proof fn each_part_of_the_adapter_has_its_line(s: InterfaceState)
    ensures
        ({
            let lines = info_lines(s);
            let text = |v: Seq<char>| InfoView::Text(v);
            let named = |o: Option<String>|
                if o is Some {
                    InfoView::Text(o->0@)
                } else {
                    InfoView::Text("—"@)
                };
            &&& lines.len() == 9
            &&& lines[0] == (key_cell("interface"@), text(s.name@))
            &&& s.powered ==> lines[1] == (key_cell("powered"@), text("ON"@))
            &&& !s.powered ==> lines[1] == (key_cell("powered"@), text("OFF"@))
            &&& lines[2] == (key_cell("hw addr"@), named(s.hw_address))
            &&& lines[3] == (key_cell("SSID"@), named(s.ssid))
            &&& lines[4] == (key_cell("BSSID"@), named(s.bssid))
            &&& lines[5] == (key_cell("RSSI"@), text(text::signed_decimal(s.rssi as int) + " dBm"@))
            &&& lines[6] == (
                key_cell("noise"@),
                text(text::signed_decimal(s.noise as int) + " dBm"@),
            )
            &&& lines[7] == (key_cell("tx rate"@), InfoView::Rate(s.tx_rate_bits))
            &&& s.channel matches Some(c) ==> lines[8] == (
                key_cell("channel"@),
                text(text::decimal(c as nat)),
            )
            &&& s.channel is None ==> lines[8] == (key_cell("channel"@), text("—"@))
        }),
{
}

/// The box of a share code shows the code, line by line, or says why it could
/// not be drawn, and tells whether the code carries a password.
pub proof fn a_share_box_tells_whether_there_is_a_password(image: Seq<char>, error: Seq<char>)
    ensures
        share_lines(Ok(image)) == text::lines_of(image),
        share_lines(Err(error)) == seq!["QR error: "@ + error],
        share_footer(true) == "scan with phone camera to join · Esc close"@,
        share_footer(false) == "SSID-only QR (no password) · Esc close"@,
{
}

/// The help names a key for everything that the table in focus offers.
pub proof fn the_help_names_the_keys_of_the_table(focus: Focus)
    ensures
        table_keys(focus)[0] == ("k"@, " Up"@),
        table_keys(focus)[1] == ("j"@, " Down"@),
        table_keys(focus)[2] == ("↵"@, " Connect"@),
        focus is Preferred ==> table_keys(focus)[3] == ("d"@, " Remove"@) && table_keys(focus)[4]
            == ("p"@, " Share"@) && table_keys(focus)[5] == ("A"@, " Show All"@),
        focus is Available ==> table_keys(focus)[3] == ("h"@, " Connect Hidden"@) && table_keys(
            focus,
        )[4] == ("a"@, " Show All"@),
        table_keys(focus).last() == ("tab"@, " Nav"@),
        common_keys()[0] == ("s"@, " Scan"@),
        common_keys()[1] == ("o"@, " Power"@),
        common_keys()[2] == ("x"@, " Disconnect"@),
{
}

/// Errors have the theme's colour of errors, and other notifications that of
/// success.
pub proof fn errors_have_their_own_colour(theme: Theme)
    ensures
        tone(Kind::Error, theme) == theme.err,
        tone(Kind::Info, theme) == theme.ok,
{
}

/// The title of a prompt names what is asked for and, where it is known, the
/// network.
pub proof fn a_prompt_names_its_network(p: PromptView)
    ensures
        p.ssid.len() > 0 ==> prompt_title(p) == " "@ + p.label + " — "@ + p.ssid + " "@,
        p.ssid.len() == 0 ==> prompt_title(p) == " "@ + p.label + " "@,
{
}

/// Each prompt says what it asks for.
pub proof fn each_prompt_has_its_label(overlay: OverlayView)
    ensures
        prompt_of(overlay) matches Some(p) ==> {
            &&& overlay is Password ==> p.label == "Password"@
            &&& overlay is EnterpriseUser ==> p.label == "Username (PEAP)"@
            &&& overlay is EnterprisePass ==> p.label == "Password (PEAP)"@
            &&& overlay is HiddenSsid ==> p.label == "Hidden SSID"@ && p.ssid.len() == 0
            &&& overlay is HiddenPass ==> p.label == "Hidden password (blank = open)"@
        },
{
}

/// The box of the notifications lies at the lower right, one cell from the
/// edge, and has two rows more than it shows lines.
pub proof fn notifications_lie_at_the_lower_right(area: Rect, n: int)
    requires
        area.valid(),
        0 <= n <= 5,
        area.width >= 63,
        area.height >= n + 4,
    ensures
        ({
            let r = notification_rect(area, n);
            &&& r.width == 60
            &&& r.height == n + 2
            &&& r.x + r.width + 1 == area.x + area.width
            &&& r.y + r.height + 2 == area.y + area.height
            &&& r.within(area)
        }),
{
}

/// The box of a code is wide and high enough for it where the terminal is.
pub proof fn a_code_has_room_where_the_terminal_has(area: Rect, lines: Seq<Seq<char>>, k: int)
    requires
        area.valid(),
        0 <= k < lines.len(),
        widest(lines) + 6 <= area.width,
        lines.len() + 6 <= area.height,
        area.width >= 42,
        area.height >= 10,
    ensures
        share_rect(area, lines).width >= lines[k].len() + 4,
        share_rect(area, lines).height >= lines.len() + 4,
{
    lemma_widest(lines, k);
}

proof fn lemma_widest(lines: Seq<Seq<char>>, k: int)
    requires
        0 <= k < lines.len(),
    ensures
        lines[k].len() <= widest(lines),
    decreases lines.len(),
{
    if k < lines.len() - 1 {
        lemma_widest(lines.drop_last(), k);
        assert(lines.drop_last()[k] == lines[k]);
    }
}

/// The table in focus stands out by a bold title, a thick frame and the
/// selected row; the others have none of these. The title has the same colour
/// either way.
pub proof fn the_table_in_focus_stands_out(theme: Theme)
    ensures
        frame_of(true, theme).bold && frame_of(true, theme).thick,
        !frame_of(false, theme).bold && !frame_of(false, theme).thick,
        frame_of(true, theme).border == theme.border_focused,
        frame_of(false, theme).border == theme.border,
        frame_of(true, theme).title == theme.title && frame_of(false, theme).title == theme.title,
        selected_colours(true, theme) == Some((theme.accent, theme.accent_fg)),
        selected_colours(false, theme) is None,
{
}

/// The box of a prompt is five rows high and at most sixty cells wide, and
/// leaves two cells on either side where the terminal is narrower.
pub proof fn a_prompt_fits_the_terminal(area: Rect)
    requires
        area.valid(),
        area.height >= 5,
        area.width >= 4,
    ensures
        input_rect(area).height == 5,
        area.width >= 64 ==> input_rect(area).width == 60,
        area.width < 64 ==> input_rect(area).width == area.width - 4,
        input_rect(area).within(area),
{
}

/// Each table has its own title, and the columns that its rows fill: what is
/// known of a network where it is listed, and the state of the device.
pub proof fn each_table_has_its_columns()
    ensures
        title_of(Pane::KnownNetworks) == " Known Networks "@,
        title_of(Pane::NewNetworks) == " New Networks "@,
        title_of(Pane::Device) == " Device "@,
        ({
            let names = |pane: Pane|
                Seq::new(columns_of(pane).len(), |i: int| columns_of(pane)[i].0);
            &&& names(Pane::KnownNetworks) == seq![
                ""@,
                "Name"@,
                "Security"@,
                "Hidden"@,
                "Auto Connect"@,
                "Signal"@,
            ]
            &&& names(Pane::NewNetworks) == seq!["Name"@, "Security"@, "Signal"@]
            &&& names(Pane::Device) == seq![
                "Name"@,
                "Mode"@,
                "Powered"@,
                "State"@,
                "Scanning"@,
                "Frequency"@,
                "Security"@,
            ]
        }),
{
}

/// Every column of a fixed width is at least as wide as its name.
pub proof fn every_column_has_room_for_its_name(pane: Pane, i: int)
    requires
        0 <= i < columns_of(pane).len(),
    ensures
        columns_of(pane)[i].1 matches Width::Exactly(w) ==> columns_of(pane)[i].0.len() <= w,
        columns_of(pane)[i].1 is Rest ==> columns_of(pane)[i].0 == "Name"@,
{
    reveal_strlit("");
    reveal_strlit("Name");
    reveal_strlit("Security");
    reveal_strlit("Hidden");
    reveal_strlit("Auto Connect");
    reveal_strlit("Signal");
    reveal_strlit("Mode");
    reveal_strlit("Powered");
    reveal_strlit("State");
    reveal_strlit("Scanning");
    reveal_strlit("Frequency");
}

} // verus!
