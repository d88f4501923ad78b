//! What the home screen shows, as texts and numbers ready to be put on
//! the terminal.

use vstd::prelude::*;

use crate::cargo::metadata::str_list;
use crate::components::home::Home;
use crate::search::cargo_crate::{Crate, CrateView, Timestamp};
use crate::search::search_results::{SearchResults, SearchResultsView};
use crate::text::{concat2, concat3, decimal, to_decimal};
use crate::util::{
    date_text, locale_format, number_text, relative_time_text, whole_seconds_between, Util,
};

verus! {

/// How a record stands to the environment, which decides its colour.
#[derive(Debug, Clone, Copy, PartialEq, Eq, Structural)]
pub enum RowKind {
    /// Neither added to the project nor installed.
    Plain,
    /// Added to the project.
    Added,
    /// Installed, and not added to the project.
    Installed,
}

/// How the record stands to the environment.
pub open spec fn spec_row_kind(cr: CrateView) -> RowKind {
    if cr.project_version.is_some() {
        RowKind::Added
    } else if cr.installed_version.is_some() {
        RowKind::Installed
    } else {
        RowKind::Plain
    }
}

/// The mark in front of a record: `+` for one added to the project, `i`
/// for one installed.
pub open spec fn spec_row_tag(kind: RowKind) -> Seq<char> {
    match kind {
        RowKind::Added => "+ "@,
        RowKind::Installed => "i "@,
        RowKind::Plain => "  "@,
    }
}

/// The version shown for a record: once the metadata is loaded, the
/// version with the project's or the installed one in brackets behind it.
pub open spec fn spec_row_version(cr: CrateView) -> Seq<char> {
    if cr.is_metadata_loaded() && cr.project_version.is_some() {
        cr.version + " ("@ + cr.project_version.unwrap() + ")"@
    } else if cr.is_metadata_loaded() && cr.installed_version.is_some() {
        cr.version + " ("@ + cr.installed_version.unwrap() + ")"@
    } else {
        cr.version
    }
}

/// `n` spaces.
pub open spec fn spec_spaces(n: nat) -> Seq<char> {
    Seq::new(n, |i: int| ' ')
}

/// The number of spaces between name and version in a row `width` cells
/// wide: what the texts leave of the width, less two cells for the
/// border, and at least one.
pub open spec fn spec_row_gap(width: int, name: int, tag: int, version: int) -> nat {
    if width - name - tag - version - 2 < 1 {
        1
    } else {
        (width - name - tag - version - 2) as nat
    }
}

/// The number of bytes that a text takes in UTF-8.
pub open spec fn byte_len(s: Seq<char>) -> nat {
    vstd::utf8::encode_utf8(s).len()
}

/// The text of a row: name, gap and version.
pub open spec fn spec_row_text(cr: CrateView, width: u16) -> Seq<char> {
    cr.name + spec_spaces(
        spec_row_gap(
            width as int,
            byte_len(cr.name) as int,
            byte_len(spec_row_tag(spec_row_kind(cr))) as int,
            byte_len(spec_row_version(cr)) as int,
        ),
    ) + spec_row_version(cr)
}

/// The number of records on the pages before the current one.
pub open spec fn spec_items_in_prev_pages(r: SearchResultsView) -> usize {
    if r.current_page < 1 {
        0
    } else if (r.current_page - 1) * r.per_page > usize::MAX {
        usize::MAX
    } else {
        ((r.current_page - 1) * r.per_page) as usize
    }
}

/// The number of the selected record on its page, counted from 1; 0
/// where none is selected. A selection that has run past the last record
/// counts as it stands.
pub open spec fn spec_selected_item_number(r: SearchResultsView) -> usize {
    match r.selected_index() {
        None => 0,
        Some(ix) => if ix == usize::MAX {
            r.crates.len() as usize
        } else if ix == 0 {
            1
        } else if ix >= r.crates.len() {
            ix
        } else {
            (ix + 1) as usize
        },
    }
}

/// The number of the selected record among all matches.
pub open spec fn spec_selected_item_number_in_total(r: SearchResultsView) -> usize {
    if spec_items_in_prev_pages(r) + spec_selected_item_number(r) > usize::MAX {
        usize::MAX
    } else {
        (spec_items_in_prev_pages(r) + spec_selected_item_number(r)) as usize
    }
}

/// The title that says which record is selected, of how many.
pub open spec fn spec_position_title(r: SearchResultsView) -> Seq<char> {
    " "@ + decimal(spec_selected_item_number_in_total(r) as nat) + "/"@ + decimal(
        r.total_count as nat,
    ) + " "@
}

/// The title that says which page is shown, of how many.
pub open spec fn spec_page_title(r: SearchResultsView) -> Seq<char> {
    " Page "@ + decimal(r.current_page as nat) + "/"@ + decimal(r.page_count() as nat) + " "@
}

/// The widths of the two columns, in percent.
pub fn column_widths(home: &Home) -> (r: (u16, u16))
    requires
        home.wf(),
    ensures
        r.0 == home.left_column_width_percent,
        r.0 + r.1 == 100,
{
    (home.left_column_width_percent, 100 - home.left_column_width_percent)
}

/// The width of the spinner beside the search box: three cells while a
/// search runs.
pub fn spinner_width(home: &Home) -> (r: u16)
    ensures
        r == if home.is_searching {
            3u16
        } else {
            0u16
        },
{
    if home.is_searching {
        3
    } else {
        0
    }
}

/// The width in which the text of the search box scrolls: the width of
/// the box without its border.
pub fn scroll_width(box_width: u16) -> (r: u16)
    ensures
        r == if box_width >= 2 {
            box_width - 2
        } else {
            0
        },
{
    box_width.saturating_sub(2)
}

/// The column of the cursor in the search box at column `x`: one cell in
/// for the border, and as far in as the cursor is ahead of the scroll.
pub fn cursor_column(x: u16, visual_cursor: usize, scroll: usize) -> (r: u16)
    requires
        x + 1 + (if visual_cursor > scroll {
            visual_cursor - scroll
        } else {
            0
        }) <= u16::MAX,
    ensures
        r == x + 1 + (if visual_cursor > scroll {
            visual_cursor - scroll
        } else {
            0
        }),
{
    let ahead: usize = if visual_cursor > scroll {
        visual_cursor - scroll
    } else {
        0
    };
    x + (ahead as u16) + 1
}

/// How the record stands to the environment.
pub fn row_kind(cr: &Crate) -> (r: RowKind)
    ensures
        r == spec_row_kind(cr@),
{
    if cr.project_version.is_some() {
        RowKind::Added
    } else if cr.installed_version.is_some() {
        RowKind::Installed
    } else {
        RowKind::Plain
    }
}

/// The mark in front of a record.
pub fn row_tag(kind: RowKind) -> (r: &'static str)
    ensures
        r@ == spec_row_tag(kind),
{
    match kind {
        RowKind::Added => "+ ",
        RowKind::Installed => "i ",
        RowKind::Plain => "  ",
    }
}

/// The version shown for a record.
pub fn row_version(cr: &Crate) -> (r: String)
    ensures
        r@ == spec_row_version(cr@),
{
    if cr.is_metadata_loaded() {
        if let Some(project_version) = &cr.project_version {
            let mut s = concat3(cr.version.as_str(), " (", project_version.as_str());
            s.append(")");
            return s;
        } else if let Some(installed_version) = &cr.installed_version {
            let mut s = concat3(cr.version.as_str(), " (", installed_version.as_str());
            s.append(")");
            return s;
        }
    }
    cr.version.clone()
}

/// `n` spaces.
pub fn spaces(n: usize) -> (r: String)
    ensures
        r@ == spec_spaces(n as nat),
{
    let mut s = String::new();
    let mut i: usize = 0;
    proof {
        reveal_strlit(" ");
        assert(s@ =~= spec_spaces(0));
    }
    while i < n
        invariant
            i <= n,
            s@ == spec_spaces(i as nat),
            " "@ == seq![' '],
        decreases n - i,
    {
        s.append(" ");
        i += 1;
        proof {
            assert(s@ =~= spec_spaces(i as nat));
        }
    }
    s
}

/// The text of a row `width` cells wide: name, gap and version.
pub fn row_text(cr: &Crate, width: u16) -> (r: String)
    ensures
        r@ == spec_row_text(cr@, width),
{
    let tag = row_tag(row_kind(cr));
    let version = row_version(cr);
    let name_len: usize = cr.name.as_str().as_bytes().len();
    let tag_len: usize = tag.as_bytes().len();
    let version_len: usize = version.as_str().as_bytes().len();
    let taken: u128 = name_len as u128 + tag_len as u128 + version_len as u128 + 2;
    let gap: usize = if (width as u128) < taken + 1 {
        1
    } else {
        ((width as u128) - taken) as usize
    };
    let gap_text = spaces(gap);
    proof {
        assert(name_len == byte_len(cr@.name));
        assert(tag_len == byte_len(spec_row_tag(spec_row_kind(cr@))));
        assert(version_len == byte_len(spec_row_version(cr@)));
        assert(gap == spec_row_gap(
            width as int,
            byte_len(cr@.name) as int,
            byte_len(spec_row_tag(spec_row_kind(cr@))) as int,
            byte_len(spec_row_version(cr@)) as int,
        ));
    }
    concat3(cr.name.as_str(), gap_text.as_str(), version.as_str())
}

/// The number of records on the pages before the current one.
pub fn items_in_prev_pages(results: &SearchResults) -> (r: usize)
    ensures
        r == spec_items_in_prev_pages(results@),
{
    if results.current_page < 1 {
        0
    } else {
        match (results.current_page - 1).checked_mul(results.per_page) {
            Some(n) => n,
            None => usize::MAX,
        }
    }
}

/// The number of the selected record on its page, counted from 1.
pub fn selected_item_number(results: &SearchResults) -> (r: usize)
    ensures
        r == spec_selected_item_number(results@),
{
    match results.selected_index() {
        None => 0,
        Some(ix) => {
            if ix == usize::MAX {
                results.current_page_count()
            } else if ix == 0 {
                1
            } else if ix >= results.current_page_count() {
                ix
            } else {
                ix + 1
            }
        },
    }
}

/// The title that says which record is selected, of how many.
pub fn position_title(results: &SearchResults) -> (r: String)
    ensures
        r@ == spec_position_title(results@),
{
    let number: usize = items_in_prev_pages(results).saturating_add(selected_item_number(results));
    let first = to_decimal(number as u64);
    let second = to_decimal(results.total_count as u64);
    let mut s = concat3(" ", first.as_str(), "/");
    s.append(second.as_str());
    s.append(" ");
    s
}

/// The title that says which page is shown, of how many.
pub fn page_title(results: &SearchResults) -> (r: String)
    requires
        results.wf(),
    ensures
        r@ == spec_page_title(results@),
{
    let first = to_decimal(results.current_page() as u64);
    let second = to_decimal(results.page_count() as u64);
    let mut s = concat3(" Page ", first.as_str(), "/");
    s.append(second.as_str());
    s.append(" ");
    s
}

/// How a line of the details is set off.
#[derive(Debug, Clone, Copy, PartialEq, Eq, Structural)]
pub enum LineKind {
    Plain,
    /// The value in bold.
    Bold,
    /// A line on the project: label in the colour of added crates, all in
    /// bold.
    Added,
    /// A line on the installed binary: label in the colour of installed
    /// crates, all in bold.
    Installed,
}

/// A line of the details of a crate: what it is about, and what it says.
#[derive(Debug, PartialEq, Eq)]
pub struct DetailLine {
    pub label: String,
    pub value: String,
    pub kind: LineKind,
}

/// Mathematical value of a [`DetailLine`].
pub struct DetailLineView {
    pub label: Seq<char>,
    pub value: Seq<char>,
    pub kind: LineKind,
}

impl View for DetailLine {
    type V = DetailLineView;

    open spec fn view(&self) -> DetailLineView {
        DetailLineView { label: self.label@, value: self.value@, kind: self.kind }
    }
}

/// The views of lines.
pub open spec fn lines_view(lines: Seq<DetailLine>) -> Seq<DetailLineView> {
    lines.map_values(|l: DetailLine| l@)
}

/// The texts with `", "` between them.
pub open spec fn comma_joined(items: Seq<Seq<char>>) -> Seq<char>
    decreases items.len(),
{
    if items.len() == 0 {
        Seq::empty()
    } else if items.len() == 1 {
        items[0]
    } else {
        comma_joined(items.drop_last()) + ", "@ + items.last()
    }
}

/// An optional text, empty where there is none.
pub open spec fn or_empty(o: Option<Seq<char>>) -> Seq<char> {
    match o {
        Some(s) => s,
        None => Seq::empty(),
    }
}

/// A list that is shown once it is loaded.
pub open spec fn list_text(o: Option<Seq<Seq<char>>>) -> Seq<char> {
    match o {
        Some(items) => comma_joined(items),
        None => "Loading..."@,
    }
}

/// What is shown for the time of the last update: the date and, in
/// brackets, how long ago that was at the time `now`. Nothing where the
/// time is not known, and the bare date where `now` cannot be reckoned
/// with.
pub open spec fn updated_text(updated_at: Option<Timestamp>, now: Timestamp) -> Seq<char> {
    match updated_at {
        None => Seq::empty(),
        Some(t) => if t.valid() && now.valid() {
            date_text(t) + " ("@ + relative_time_text(whole_seconds_between(t, now)) + ")"@
        } else {
            date_text(t)
        },
    }
}

/// A line that is set off in no way.
pub open spec fn plain(label: Seq<char>, value: Seq<char>) -> DetailLineView {
    DetailLineView { label, value, kind: LineKind::Plain }
}

/// The shown number.
pub open spec fn shown_number(number: Option<u64>, locale: Seq<char>) -> Seq<char> {
    match number {
        Some(n) => number_text(number, locale_format(n, locale), locale_format(n, "en"@)),
        None => Seq::empty(),
    }
}

/// The lines of the details of a crate, at the time `now` and with
/// numbers as the locale named `locale` writes them: the versions, with
/// those of the project and of the installed binary where they are known,
/// then description, links, download counts, features, categories and
/// dates.
pub open spec fn detail_lines(cr: CrateView, now: Timestamp, locale: Seq<char>) -> Seq<
    DetailLineView,
> {
    seq![
        plain("Stable Version:"@, cr.version),
        plain("Latest Version:"@, or_empty(cr.max_version)),
    ] + (match cr.project_version {
        Some(v) => seq![
            DetailLineView { label: "Project Version:"@, value: v, kind: LineKind::Added },
        ],
        None => Seq::empty(),
    }) + (match cr.installed_version {
        Some(v) => seq![
            DetailLineView { label: "Installed Version:"@, value: v, kind: LineKind::Installed },
        ],
        None => Seq::empty(),
    }) + seq![
        DetailLineView {
            label: "Description:"@,
            value: or_empty(cr.description),
            kind: LineKind::Bold,
        },
        plain("Home Page:"@, or_empty(cr.homepage)),
        plain("Documentation:"@, or_empty(cr.documentation)),
        plain("Repository:"@, or_empty(cr.repository)),
        plain("crates.io:"@, "https://crates.io/crates/"@ + cr.id),
        plain("Downloads:"@, shown_number(cr.downloads, locale)),
        plain("Recent Downloads:"@, shown_number(cr.recent_downloads, locale)),
        plain("Features:"@, list_text(cr.features)),
        plain("Categories:"@, list_text(cr.categories)),
        plain(
            "Created:"@,
            match cr.created_at {
                Some(t) => date_text(t),
                None => Seq::empty(),
            },
        ),
        plain("Updated:"@, updated_text(cr.updated_at, now)),
    ]
}

/// The texts with `", "` between them.
pub fn join_with_commas(items: &Vec<String>) -> (r: String)
    ensures
        r@ == comma_joined(str_list(items@)),
{
    let ghost all = str_list(items@);
    let mut s = String::new();
    let mut i: usize = 0;
    proof {
        assert(all.take(0) =~= Seq::<Seq<char>>::empty());
    }
    while i < items.len()
        invariant
            i <= items.len(),
            all == str_list(items@),
            s@ == comma_joined(all.take(i as int)),
        decreases items.len() - i,
    {
        proof {
            assert(all.take(i + 1).drop_last() =~= all.take(i as int));
            assert(all.take(i + 1).last() == items@[i as int]@);
            if i == 0 {
                assert(all.take(1)[0] == items@[0]@);
                assert(Seq::<char>::empty() + items@[0]@ =~= items@[0]@);
            }
        }
        if i > 0 {
            s.append(", ");
        }
        s.append(items[i].as_str());
        i += 1;
    }
    proof {
        assert(all.take(i as int) =~= all);
    }
    s
}

/// An optional text, empty where there is none.
fn text_or_empty(o: &Option<String>) -> (r: String)
    ensures
        r@ == or_empty(crate::cargo::metadata::opt_str(*o)),
{
    match o {
        Some(s) => s.clone(),
        None => String::new(),
    }
}

/// A list that is shown once it is loaded.
fn list_text_of(o: &Option<Vec<String>>) -> (r: String)
    ensures
        r@ == list_text(crate::cargo::metadata::opt_str_list(*o)),
{
    match o {
        Some(items) => join_with_commas(items),
        None => String::from_str("Loading..."),
    }
}

/// A line of the details.
fn line(label: &str, value: String, kind: LineKind) -> (r: DetailLine)
    ensures
        r@ == (DetailLineView { label: label@, value: value@, kind }),
{
    DetailLine { label: String::from_str(label), value, kind }
}

/// What is shown for the time of the last update.
pub fn updated_text_of(updated_at: Option<Timestamp>, now: Timestamp) -> (r: String)
    ensures
        r@ == updated_text(updated_at, now),
{
    match updated_at {
        None => String::new(),
        Some(t) => {
            let date = crate::util::date_text_of(t);
            if t.is_valid() && now.is_valid() {
                let relative = Util::get_relative_time(t, now);
                let mut s = concat3(date.as_str(), " (", relative.as_str());
                s.append(")");
                s
            } else {
                date
            }
        },
    }
}

/// The lines of the details of a crate, at the time `now` and with
/// numbers as the locale named `locale` writes them.
pub fn crate_details(cr: &Crate, now: Timestamp, locale: &str) -> (r: Vec<DetailLine>)
    ensures
        lines_view(r@) == detail_lines(cr@, now, locale@),
{
    let mut lines: Vec<DetailLine> = Vec::new();
    lines.push(line("Stable Version:", cr.version.clone(), LineKind::Plain));
    lines.push(line("Latest Version:", text_or_empty(&cr.max_version), LineKind::Plain));
    if let Some(project_version) = &cr.project_version {
        lines.push(line("Project Version:", project_version.clone(), LineKind::Added));
    }
    if let Some(installed_version) = &cr.installed_version {
        lines.push(line("Installed Version:", installed_version.clone(), LineKind::Installed));
    }
    lines.push(line("Description:", text_or_empty(&cr.description), LineKind::Bold));
    lines.push(line("Home Page:", text_or_empty(&cr.homepage), LineKind::Plain));
    lines.push(line("Documentation:", text_or_empty(&cr.documentation), LineKind::Plain));
    lines.push(line("Repository:", text_or_empty(&cr.repository), LineKind::Plain));
    lines.push(
        line("crates.io:", concat2("https://crates.io/crates/", cr.id.as_str()), LineKind::Plain),
    );
    lines.push(line("Downloads:", Util::format_number(cr.downloads, locale), LineKind::Plain));
    lines.push(
        line("Recent Downloads:", Util::format_number(cr.recent_downloads, locale), LineKind::Plain),
    );
    lines.push(line("Features:", list_text_of(&cr.features), LineKind::Plain));
    lines.push(line("Categories:", list_text_of(&cr.categories), LineKind::Plain));
    let created = match cr.created_at {
        Some(t) => crate::util::date_text_of(t),
        None => String::new(),
    };
    lines.push(line("Created:", created, LineKind::Plain));
    lines.push(line("Updated:", updated_text_of(cr.updated_at, now), LineKind::Plain));
    proof {
        assert(lines_view(lines@) =~= detail_lines(cr@, now, locale@));
    }
    lines
}

} // verus!
