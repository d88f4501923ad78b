//! What a key press means on the home screen.

use vstd::prelude::*;

use crate::action::{Action, CargoAction, HomeAction, SearchAction};
use crate::components::home::focusable::Focusable;
use crate::components::home::Home;
use crate::components::ux::dropdown::spec_dropdown_selection;
use crate::tui::{KeyCode, KeyEvent};

verus! {

/// What a key press leads to: an action to put on the queue, or the key
/// handed on to the search box.
#[derive(Debug, PartialEq, Eq)]
pub struct KeyOutcome {
    pub action: Option<Action>,
    pub forward_to_input: bool,
}

/// The action that moves the focus to `f`.
pub open spec fn focus(f: Focusable) -> Action {
    Action::Home(HomeAction::Focus(f))
}

/// The action that hands `a` to the search.
pub open spec fn search(a: SearchAction) -> Action {
    Action::Home(HomeAction::Search(a))
}

/// The buttons of one row of the details pane that are shown, out of the
/// two that the row can hold.
pub open spec fn spec_button_row(home: Home, first: Focusable, second: Focusable) -> Seq<Focusable> {
    (if home.spec_should_show_button(first) {
        seq![first]
    } else {
        Seq::empty()
    }) + (if home.spec_should_show_button(second) {
        seq![second]
    } else {
        Seq::empty()
    })
}

/// The rows of buttons of the details pane: documentation and repository
/// above, crates.io and lib.rs below.
pub open spec fn spec_button_rows(home: Home) -> Seq<Seq<Focusable>> {
    seq![
        spec_button_row(home, Focusable::DocsButton, Focusable::RepositoryButton),
        spec_button_row(home, Focusable::CratesIoButton, Focusable::LibRsButton),
    ]
}

/// Whether `pos` is where `f` stands in `rows`: the first row that holds
/// it, and its first place there; `None` where no row holds it.
pub open spec fn is_button_pos(rows: Seq<Seq<Focusable>>, f: Focusable, pos: Option<(usize, usize)>) -> bool {
    match pos {
        Some((row, col)) => {
            &&& row < rows.len()
            &&& col < rows[row as int].len()
            &&& rows[row as int][col as int] == f
            &&& forall|j: int| 0 <= j < col ==> rows[row as int][j] != f
            &&& forall|i: int, j: int|
                0 <= i < row && 0 <= j < rows[i].len() ==> (#[trigger] rows[i][j]) != f
        },
        None => forall|i: int, j: int|
            0 <= i < rows.len() && 0 <= j < rows[i].len() ==> (#[trigger] rows[i][j]) != f,
    }
}

/// The views of the rows.
pub open spec fn rows_view(rows: Seq<Vec<Focusable>>) -> Seq<Seq<Focusable>> {
    rows.map_values(|r: Vec<Focusable>| r@)
}

/// The button `dir` places to the right of the one at `(row, col)`, going
/// round within the row.
pub open spec fn spec_move_horizontal(rows: Seq<Seq<Focusable>>, row: int, col: int, dir: int) -> Focusable {
    rows[row][(col + dir) % (rows[row].len() as int)]
}

/// The button `dir` rows below the one at `(row, col)`: the one in the
/// same place, or the last of that row where the row is shorter. `None`
/// where there is no such row or it holds no button.
pub open spec fn spec_move_vertical(rows: Seq<Seq<Focusable>>, row: int, col: int, dir: int) -> Option<
    Focusable,
> {
    let target = row + dir;
    if target < 0 || target >= rows.len() || rows[target].len() == 0 {
        None
    } else if col < rows[target].len() {
        Some(rows[target][col])
    } else {
        Some(rows[target].last())
    }
}

/// Used for focus positioning for buttons in the details pane.
pub fn button_rows(home: &Home) -> (r: Vec<Vec<Focusable>>)
    ensures
        rows_view(r@) == spec_button_rows(*home),
        r@.len() == 2,
        r@[0]@.len() <= 2,
        r@[1]@.len() <= 2,
{
    let mut top: Vec<Focusable> = Vec::new();
    if home.should_show_button(&Focusable::DocsButton) {
        top.push(Focusable::DocsButton);
    }
    if home.should_show_button(&Focusable::RepositoryButton) {
        top.push(Focusable::RepositoryButton);
    }
    let mut bottom: Vec<Focusable> = Vec::new();
    if home.should_show_button(&Focusable::CratesIoButton) {
        bottom.push(Focusable::CratesIoButton);
    }
    if home.should_show_button(&Focusable::LibRsButton) {
        bottom.push(Focusable::LibRsButton);
    }
    proof {
        assert(top@ =~= spec_button_row(
            *home,
            Focusable::DocsButton,
            Focusable::RepositoryButton,
        ));
        assert(bottom@ =~= spec_button_row(
            *home,
            Focusable::CratesIoButton,
            Focusable::LibRsButton,
        ));
    }
    let mut rows: Vec<Vec<Focusable>> = Vec::new();
    rows.push(top);
    rows.push(bottom);
    proof {
        assert(rows_view(rows@) =~= spec_button_rows(*home));
    }
    rows
}

/// Where `f` stands in the rows.
pub fn buttons_find_pos(rows: &Vec<Vec<Focusable>>, f: &Focusable) -> (r: Option<(usize, usize)>)
    ensures
        is_button_pos(rows_view(rows@), *f, r),
{
    let ghost all = rows_view(rows@);
    let mut row_idx: usize = 0;
    while row_idx < rows.len()
        invariant
            row_idx <= rows.len(),
            all == rows_view(rows@),
            forall|i: int, j: int|
                0 <= i < row_idx && 0 <= j < all[i].len() ==> (#[trigger] all[i][j]) != *f,
        decreases rows.len() - row_idx,
    {
        let row = &rows[row_idx];
        assert(all[row_idx as int] == row@);
        let mut col_idx: usize = 0;
        while col_idx < row.len()
            invariant
                col_idx <= row.len(),
                row_idx < rows.len(),
                all == rows_view(rows@),
                all[row_idx as int] == row@,
                forall|i: int, j: int|
                    0 <= i < row_idx && 0 <= j < all[i].len() ==> (#[trigger] all[i][j]) != *f,
                forall|j: int| 0 <= j < col_idx ==> row@[j] != *f,
            decreases row.len() - col_idx,
        {
            if row[col_idx] == *f {
                return Some((row_idx, col_idx));
            }
            col_idx += 1;
        }
        row_idx += 1;
    }
    None
}

/// In a row of two, going `d` places is going `steps` places, where
/// `steps` is `d` reduced to 0 or 1.
proof fn lemma_steps_in_pair(c: int, d: int, steps: int)
    requires
        steps == if d >= 0 {
            d % 2
        } else {
            (2 - ((-d) % 2)) % 2
        },
    ensures
        (c + d) % 2 == (c + steps) % 2,
{
    let k: int = if d >= 0 {
        d / 2
    } else if (-d) % 2 == 0 {
        -((-d) / 2)
    } else {
        -((-d) / 2) - 1
    };
    if d >= 0 {
        assert(d == 2 * (d / 2) + d % 2);
    } else {
        assert(-d == 2 * ((-d) / 2) + (-d) % 2);
        if (-d) % 2 == 0 {
            assert(steps == 0);
        } else {
            assert((-d) % 2 == 1);
            assert(steps == 1);
        }
    }
    assert(c + d == 2 * k + (c + steps));
    vstd::arithmetic::div_mod::lemma_mod_multiples_vanish(k, c + steps, 2);
}

/// The button to which the focus moves from `current` when it goes `dir`
/// places to the right, round the row. `None` where `current` is not
/// among the buttons shown.
pub fn buttons_move_horizontal(home: &Home, current: &Focusable, dir: i32) -> (r: Option<Focusable>)
    ensures
        exists|pos: Option<(usize, usize)>| #[trigger]
            is_button_pos(spec_button_rows(*home), *current, pos) && r == match pos {
                Some((row, col)) => Some(
                    spec_move_horizontal(spec_button_rows(*home), row as int, col as int, dir as int),
                ),
                None => None::<Focusable>,
            },
{
    let rows = button_rows(home);
    let pos = buttons_find_pos(&rows, current);
    let (row_idx, col_idx) = match pos {
        Some(p) => p,
        None => {
            return None;
        },
    };
    let row = &rows[row_idx];
    assert(rows_view(rows@)[row_idx as int] == row@);
    let len: usize = row.len();
    let steps: usize = if dir >= 0 {
        let forward: u32 = dir as u32;
        (forward % (len as u32)) as usize
    } else {
        let back: u32 = (-(dir as i64)) as u32;
        (len - (back % (len as u32)) as usize) % len
    };
    let new_idx: usize = (col_idx + steps) % len;
    proof {
        let d = dir as int;
        let c = col_idx as int;
        if len == 1 {
            assert((c + d) % 1 == 0);
            assert(new_idx == 0);
        } else {
            assert(len == 2);
            lemma_steps_in_pair(c, d, steps as int);
        }
    }
    Some(row[new_idx])
}

/// The button to which the focus moves from `current` when it goes `dir`
/// rows down. `None` where `current` is not among the buttons shown, or
/// there is no button to go to.
pub fn buttons_move_vertical(home: &Home, current: &Focusable, dir: i32) -> (r: Option<Focusable>)
    ensures
        exists|pos: Option<(usize, usize)>| #[trigger]
            is_button_pos(spec_button_rows(*home), *current, pos) && r == match pos {
                Some((row, col)) => spec_move_vertical(
                    spec_button_rows(*home),
                    row as int,
                    col as int,
                    dir as int,
                ),
                None => None::<Focusable>,
            },
{
    let rows = button_rows(home);
    let pos = buttons_find_pos(&rows, current);
    let (row_idx, col_idx) = match pos {
        Some(p) => p,
        None => {
            return None;
        },
    };
    let new_row: i64 = row_idx as i64 + dir as i64;
    if new_row < 0 || new_row >= rows.len() as i64 {
        return None;
    }
    let target_row = &rows[new_row as usize];
    assert(rows_view(rows@)[new_row as int] == target_row@);
    if target_row.len() == 0 {
        return None;
    }
    if col_idx < target_row.len() {
        Some(target_row[col_idx])
    } else {
        Some(target_row[target_row.len() - 1])
    }
}

/// What the shortcuts that work wherever the focus is make of a key
/// press.
pub open spec fn spec_global_shortcut(home: Home, key: KeyEvent) -> Option<Action> {
    if home.spec_focused_crate().is_some() && key.ctrl && key.code == KeyCode::Char('d') {
        Some(Action::Home(HomeAction::OpenDocs))
    } else {
        match key.code {
            KeyCode::Char(c) => if c == 'h' && key.ctrl && home.search_results.is_some() {
                Some(Action::Home(HomeAction::ToggleUsage))
            } else if c == 's' && key.ctrl {
                Some(
                    focus(
                        if home.focused == Focusable::Sort {
                            Focusable::Search
                        } else {
                            Focusable::Sort
                        },
                    ),
                )
            } else if c == 'a' && key.ctrl {
                Some(
                    focus(
                        if home.focused == Focusable::Scope {
                            Focusable::Search
                        } else {
                            Focusable::Scope
                        },
                    ),
                )
            } else if c == '/' {
                Some(focus(Focusable::Search))
            } else if c == 'a' {
                match home.spec_focused_crate() {
                    Some(selected) => Some(
                        Action::Cargo(
                            CargoAction::Add { name: selected.name, version: selected.version },
                        ),
                    ),
                    None => None,
                }
            } else if c == 'r' {
                match home.spec_focused_crate() {
                    Some(selected) => Some(Action::Cargo(CargoAction::Remove(selected.name))),
                    None => None,
                }
            } else if c == 'i' {
                match home.spec_focused_crate() {
                    Some(selected) => Some(
                        Action::Cargo(
                            CargoAction::Install { name: selected.name, version: selected.version },
                        ),
                    ),
                    None => None,
                }
            } else if c == 'u' {
                match home.spec_focused_crate() {
                    Some(selected) => Some(Action::Cargo(CargoAction::Uninstall(selected.name))),
                    None => None,
                }
            } else {
                None
            },
            KeyCode::Esc => Some(
                if home.focused == Focusable::Search {
                    search(SearchAction::Clear)
                } else {
                    focus(Focusable::Search)
                },
            ),
            KeyCode::BackTab => Some(Action::Home(HomeAction::FocusPrevious)),
            KeyCode::Tab => Some(Action::Home(HomeAction::FocusNext)),
            KeyCode::Enter => match home.focused {
                Focusable::Search => Some(
                    search(
                        SearchAction::Search {
                            term: home.input,
                            page: 1,
                            hide_usage: true,
                            status: None,
                        },
                    ),
                ),
                Focusable::DocsButton => Some(Action::Home(HomeAction::OpenDocs)),
                Focusable::RepositoryButton => Some(Action::Home(HomeAction::OpenReadme)),
                Focusable::CratesIoButton => Some(Action::Home(HomeAction::OpenCratesIo)),
                Focusable::LibRsButton => Some(Action::Home(HomeAction::OpenLibRs)),
                _ => None,
            },
            _ => None,
        }
    }
}

/// How far the usage is scrolled after a key press: Up and Down scroll it
/// by a line while it has the focus, between line 0 and line 21.
pub open spec fn spec_usage_scroll(home: Home, key: KeyEvent) -> usize {
    if home.focused == Focusable::Usage && key.code == KeyCode::Up
        && home.vertical_usage_scroll > 0 {
        (home.vertical_usage_scroll - 1) as usize
    } else if home.focused == Focusable::Usage && key.code == KeyCode::Down
        && home.vertical_usage_scroll < 21 {
        (home.vertical_usage_scroll + 1) as usize
    } else {
        home.vertical_usage_scroll
    }
}

/// The width of the left column after a key press: Control with Left or
/// Right moves the border by ten percent.
pub open spec fn spec_column_width(home: Home, key: KeyEvent) -> u16 {
    if key.code == KeyCode::Left && key.ctrl && home.left_column_width_percent >= 10 {
        (home.left_column_width_percent - 10) as u16
    } else if key.code == KeyCode::Right && key.ctrl && home.left_column_width_percent <= 90 {
        (home.left_column_width_percent + 10) as u16
    } else {
        home.left_column_width_percent
    }
}

/// The shortcuts that work wherever the focus is.
pub fn handle_global_shortcuts(home: &mut Home, key: KeyEvent) -> (r: Option<Action>)
    ensures
        r == spec_global_shortcut(*old(home), key),
        r.is_some() ==> *final(home) == *old(home),
        r.is_none() ==> *final(home) == (Home {
            vertical_usage_scroll: spec_usage_scroll(*old(home), key),
            left_column_width_percent: spec_column_width(*old(home), key),
            ..*old(home)
        }),
{
    let ctrl = key.ctrl;
    if ctrl && key.code == KeyCode::Char('d') {
        if home.get_focused_crate().is_some() {
            return Some(Action::Home(HomeAction::OpenDocs));
        }
    }
    match key.code {
        KeyCode::Char(c) => {
            if c == 'h' && ctrl && home.search_results.is_some() {
                Some(Action::Home(HomeAction::ToggleUsage))
            } else if c == 's' && ctrl {
                Some(
                    Action::Home(
                        HomeAction::Focus(
                            if home.focused == Focusable::Sort {
                                Focusable::Search
                            } else {
                                Focusable::Sort
                            },
                        ),
                    ),
                )
            } else if c == 'a' && ctrl {
                Some(
                    Action::Home(
                        HomeAction::Focus(
                            if home.focused == Focusable::Scope {
                                Focusable::Search
                            } else {
                                Focusable::Scope
                            },
                        ),
                    ),
                )
            } else if c == '/' {
                Some(Action::Home(HomeAction::Focus(Focusable::Search)))
            } else if c == 'a' {
                match home.get_focused_crate() {
                    Some(selected) => Some(
                        Action::Cargo(
                            CargoAction::Add {
                                name: selected.name.clone(),
                                version: selected.version.clone(),
                            },
                        ),
                    ),
                    None => None,
                }
            } else if c == 'r' {
                match home.get_focused_crate() {
                    Some(selected) => Some(Action::Cargo(CargoAction::Remove(selected.name.clone()))),
                    None => None,
                }
            } else if c == 'i' {
                match home.get_focused_crate() {
                    Some(selected) => Some(
                        Action::Cargo(
                            CargoAction::Install {
                                name: selected.name.clone(),
                                version: selected.version.clone(),
                            },
                        ),
                    ),
                    None => None,
                }
            } else if c == 'u' {
                match home.get_focused_crate() {
                    Some(selected) => Some(
                        Action::Cargo(CargoAction::Uninstall(selected.name.clone())),
                    ),
                    None => None,
                }
            } else {
                None
            }
        },
        KeyCode::Esc => {
            if home.focused == Focusable::Search {
                Some(Action::Home(HomeAction::Search(SearchAction::Clear)))
            } else {
                Some(Action::Home(HomeAction::Focus(Focusable::Search)))
            }
        },
        KeyCode::BackTab => Some(Action::Home(HomeAction::FocusPrevious)),
        KeyCode::Tab => Some(Action::Home(HomeAction::FocusNext)),
        KeyCode::Enter => match home.focused {
            Focusable::Search => Some(
                Action::Home(
                    HomeAction::Search(
                        SearchAction::Search {
                            term: home.input.clone(),
                            page: 1,
                            hide_usage: true,
                            status: None,
                        },
                    ),
                ),
            ),
            Focusable::DocsButton => Some(Action::Home(HomeAction::OpenDocs)),
            Focusable::RepositoryButton => Some(Action::Home(HomeAction::OpenReadme)),
            Focusable::CratesIoButton => Some(Action::Home(HomeAction::OpenCratesIo)),
            Focusable::LibRsButton => Some(Action::Home(HomeAction::OpenLibRs)),
            _ => None,
        },
        KeyCode::Up => {
            if home.focused == Focusable::Usage && home.vertical_usage_scroll > 0 {
                home.vertical_usage_scroll -= 1;
            }
            None
        },
        KeyCode::Down => {
            if home.focused == Focusable::Usage && home.vertical_usage_scroll < 21 {
                home.vertical_usage_scroll += 1;
            }
            None
        },
        KeyCode::Left => {
            if ctrl && home.left_column_width_percent >= 10 {
                home.left_column_width_percent -= 10;
            }
            None
        },
        KeyCode::Right => {
            if ctrl && home.left_column_width_percent <= 90 {
                home.left_column_width_percent += 10;
            }
            None
        },
        _ => None,
    }
}

/// What a key press means while the search box has the focus: Down goes
/// to the results, where there are any; every other key is for the box.
pub open spec fn spec_search_focus(home: Home, key: KeyEvent) -> KeyOutcome {
    if key.code == KeyCode::Down {
        KeyOutcome {
            action: if home.search_results.is_some() {
                Some(focus(Focusable::Results))
            } else {
                None
            },
            forward_to_input: false,
        }
    } else {
        KeyOutcome { action: None, forward_to_input: true }
    }
}

/// What a key press means while the search box has the focus.
pub fn handle_search_focus(home: &Home, key: KeyEvent) -> (r: KeyOutcome)
    ensures
        r == spec_search_focus(*home, key),
{
    match key.code {
        KeyCode::Down => {
            if home.search_results.is_some() {
                KeyOutcome {
                    action: Some(Action::Home(HomeAction::Focus(Focusable::Results))),
                    forward_to_input: false,
                }
            } else {
                KeyOutcome { action: None, forward_to_input: false }
            }
        },
        _ => KeyOutcome { action: None, forward_to_input: true },
    }
}

/// What a key press means while the result list has the focus: the arrow
/// keys move the selection and turn the pages, Home and End go to the
/// first and last record, and with Control to the first and last page.
/// Without records no key means anything.
pub open spec fn spec_results_focus(home: Home, key: KeyEvent) -> Option<Action> {
    match home.search_results {
        Some(results) => if results.crates@.len() == 0 {
            None
        } else {
            match key.code {
                KeyCode::Up => if results@.selected_index() == Some(0usize) {
                    Some(focus(Focusable::Search))
                } else {
                    Some(search(SearchAction::SelectPrev))
                },
                KeyCode::Down => Some(search(SearchAction::SelectNext)),
                KeyCode::Home => if key.ctrl {
                    Some(search(SearchAction::NavFirstPage))
                } else {
                    Some(search(SearchAction::SelectFirst))
                },
                KeyCode::End => if key.ctrl {
                    Some(search(SearchAction::NavLastPage))
                } else {
                    Some(search(SearchAction::SelectLast))
                },
                KeyCode::Left => if !key.ctrl && results@.has_prev_page() {
                    Some(search(SearchAction::NavPagesBack(1)))
                } else {
                    None
                },
                KeyCode::Right => if !key.ctrl && results@.has_next_page() {
                    Some(search(SearchAction::NavPagesForward(1)))
                } else {
                    None
                },
                _ => None,
            }
        },
        None => None,
    }
}

/// What a key press means while the result list has the focus.
pub fn handle_results_focus(home: &Home, key: KeyEvent) -> (r: Option<Action>)
    requires
        home.wf(),
    ensures
        r == spec_results_focus(*home, key),
{
    match &home.search_results {
        Some(results) => {
            if results.crates.len() == 0 {
                return None;
            }
            let ctrl = key.ctrl;
            match key.code {
                KeyCode::Up => {
                    let at_first = match results.selected_index() {
                        Some(ix) => ix == 0,
                        None => false,
                    };
                    if at_first {
                        Some(Action::Home(HomeAction::Focus(Focusable::Search)))
                    } else {
                        Some(Action::Home(HomeAction::Search(SearchAction::SelectPrev)))
                    }
                },
                KeyCode::Down => Some(Action::Home(HomeAction::Search(SearchAction::SelectNext))),
                KeyCode::Home => {
                    if ctrl {
                        Some(Action::Home(HomeAction::Search(SearchAction::NavFirstPage)))
                    } else {
                        Some(Action::Home(HomeAction::Search(SearchAction::SelectFirst)))
                    }
                },
                KeyCode::End => {
                    if ctrl {
                        Some(Action::Home(HomeAction::Search(SearchAction::NavLastPage)))
                    } else {
                        Some(Action::Home(HomeAction::Search(SearchAction::SelectLast)))
                    }
                },
                KeyCode::Left => {
                    if !ctrl && results.has_prev_page() {
                        Some(Action::Home(HomeAction::Search(SearchAction::NavPagesBack(1))))
                    } else {
                        None
                    }
                },
                KeyCode::Right => {
                    if !ctrl && results.has_next_page() {
                        Some(Action::Home(HomeAction::Search(SearchAction::NavPagesForward(1))))
                    } else {
                        None
                    }
                },
                _ => None,
            }
        },
        None => None,
    }
}

/// The step that an arrow key stands for among the buttons: rows for Up
/// and Down, places for Left and Right.
pub open spec fn spec_details_step(code: KeyCode) -> Option<(bool, int)> {
    match code {
        KeyCode::Up => Some((true, -1int)),
        KeyCode::Down => Some((true, 1int)),
        KeyCode::Left => Some((false, -1int)),
        KeyCode::Right => Some((false, 1int)),
        _ => None,
    }
}

/// Whether `r` is what a key press means while a button of the details
/// pane has the focus: the arrow keys move the focus among the buttons
/// shown, from where the focused button stands. With Control held no key
/// means anything.
pub open spec fn is_details_move(home: Home, key: KeyEvent, r: Option<Action>) -> bool {
    if key.ctrl || spec_details_step(key.code).is_none() {
        r.is_none()
    } else {
        exists|pos: Option<(usize, usize)>| #[trigger]
            is_button_pos(spec_button_rows(home), home.focused, pos) && ({
                let rows = spec_button_rows(home);
                let (vertical, dir) = spec_details_step(key.code).unwrap();
                let target = match pos {
                    Some((row, col)) => if vertical {
                        spec_move_vertical(rows, row as int, col as int, dir)
                    } else {
                        Some(spec_move_horizontal(rows, row as int, col as int, dir))
                    },
                    None => None::<Focusable>,
                };
                r == match target {
                    Some(f) => Some(focus(f)),
                    None => None::<Action>,
                }
            })
    }
}

/// What a key press means while a button of the details pane has the
/// focus.
pub fn handle_details_focus(home: &Home, key: KeyEvent) -> (r: Option<Action>)
    ensures
        is_details_move(*home, key, r),
{
    if key.ctrl {
        return None;
    }
    let focused = home.focused;
    let next = match key.code {
        KeyCode::Up => buttons_move_vertical(home, &focused, -1),
        KeyCode::Down => buttons_move_vertical(home, &focused, 1),
        KeyCode::Left => buttons_move_horizontal(home, &focused, -1),
        KeyCode::Right => buttons_move_horizontal(home, &focused, 1),
        _ => None,
    };
    match next {
        Some(focusable) => Some(Action::Home(HomeAction::Focus(focusable))),
        None => None,
    }
}

/// What a key press means while the sort dropdown has the focus: the
/// dropdown takes it, and Enter sorts by the selected key.
pub fn handle_sort_focus(home: &mut Home, key: KeyEvent) -> (r: Option<Action>)
    ensures
        *final(home) == (Home { sort_dropdown: final(home).sort_dropdown, ..*old(home) }),
        final(home).sort_dropdown.header == old(home).sort_dropdown.header,
        final(home).sort_dropdown.is_focused == old(home).sort_dropdown.is_focused,
        final(home).sort_dropdown.fallback == old(home).sort_dropdown.fallback,
        final(home).sort_dropdown.state.offset == old(home).sort_dropdown.state.offset,
        final(home).sort_dropdown.state.selected == spec_dropdown_selection(
            old(home).sort_dropdown.is_focused,
            old(home).sort_dropdown.state.selected,
            key.code,
        ),
        r == if old(home).sort_dropdown.is_focused && key.code == KeyCode::Enter {
            Some(search(SearchAction::SortBy(old(home).sort_dropdown.spec_selected())))
        } else {
            None
        },
{
    match home.sort_dropdown.handle_key_event(key.code) {
        Some(sort) => Some(Action::Home(HomeAction::Search(SearchAction::SortBy(sort)))),
        None => None,
    }
}

/// What a key press means while the scope dropdown has the focus: the
/// dropdown takes it, and Enter sets the selected scope.
pub fn handle_scope_focus(home: &mut Home, key: KeyEvent) -> (r: Option<Action>)
    ensures
        *final(home) == (Home { scope_dropdown: final(home).scope_dropdown, ..*old(home) }),
        final(home).scope_dropdown.header == old(home).scope_dropdown.header,
        final(home).scope_dropdown.is_focused == old(home).scope_dropdown.is_focused,
        final(home).scope_dropdown.fallback == old(home).scope_dropdown.fallback,
        final(home).scope_dropdown.state.offset == old(home).scope_dropdown.state.offset,
        final(home).scope_dropdown.state.selected == spec_dropdown_selection(
            old(home).scope_dropdown.is_focused,
            old(home).scope_dropdown.state.selected,
            key.code,
        ),
        r == if old(home).scope_dropdown.is_focused && key.code == KeyCode::Enter {
            Some(search(SearchAction::Scope(old(home).scope_dropdown.spec_selected())))
        } else {
            None
        },
{
    match home.scope_dropdown.handle_key_event(key.code) {
        Some(scope) => Some(Action::Home(HomeAction::Search(SearchAction::Scope(scope)))),
        None => None,
    }
}

/// Takes a key press on the home screen. The shortcuts that work
/// everywhere come first; a key that is none of them goes to the part that
/// has the focus.
pub fn handle_key(home: &mut Home, key: KeyEvent) -> (r: KeyOutcome)
    requires
        old(home).wf(),
    ensures
        final(home).wf(),
        final(home).focused == old(home).focused,
        final(home).search_results == old(home).search_results,
        final(home).input == old(home).input,
        final(home).show_usage == old(home).show_usage,
        final(home).is_searching == old(home).is_searching,
        final(home).crate_search_manager == old(home).crate_search_manager,
        spec_global_shortcut(*old(home), key).is_some() ==> *final(home) == *old(home) && r == (
        KeyOutcome { action: spec_global_shortcut(*old(home), key), forward_to_input: false }),
        spec_global_shortcut(*old(home), key).is_none() ==> {
            &&& final(home).vertical_usage_scroll == spec_usage_scroll(*old(home), key)
            &&& final(home).left_column_width_percent == spec_column_width(*old(home), key)
            &&& old(home).focused != Focusable::Sort ==> final(home).sort_dropdown == old(
                home,
            ).sort_dropdown
            &&& old(home).focused != Focusable::Scope ==> final(home).scope_dropdown == old(
                home,
            ).scope_dropdown
            &&& old(home).focused == Focusable::Search ==> r == spec_search_focus(*old(home), key)
            &&& old(home).focused == Focusable::Results ==> r == (KeyOutcome {
                action: spec_results_focus(*old(home), key),
                forward_to_input: false,
            })
            &&& old(home).focused == Focusable::Usage ==> r == (KeyOutcome {
                action: None,
                forward_to_input: false,
            })
            &&& old(home).focused == Focusable::Sort ==> r == (KeyOutcome {
                action: if old(home).sort_dropdown.is_focused && key.code == KeyCode::Enter {
                    Some(search(SearchAction::SortBy(old(home).sort_dropdown.spec_selected())))
                } else {
                    None
                },
                forward_to_input: false,
            }) && final(home).sort_dropdown == (crate::components::ux::dropdown::Dropdown {
                state: crate::search::list_state::ListState {
                    selected: spec_dropdown_selection(
                        old(home).sort_dropdown.is_focused,
                        old(home).sort_dropdown.state.selected,
                        key.code,
                    ),
                    ..old(home).sort_dropdown.state
                },
                ..old(home).sort_dropdown
            })
            &&& old(home).focused == Focusable::Scope ==> r == (KeyOutcome {
                action: if old(home).scope_dropdown.is_focused && key.code == KeyCode::Enter {
                    Some(search(SearchAction::Scope(old(home).scope_dropdown.spec_selected())))
                } else {
                    None
                },
                forward_to_input: false,
            }) && final(home).scope_dropdown == (crate::components::ux::dropdown::Dropdown {
                state: crate::search::list_state::ListState {
                    selected: spec_dropdown_selection(
                        old(home).scope_dropdown.is_focused,
                        old(home).scope_dropdown.state.selected,
                        key.code,
                    ),
                    ..old(home).scope_dropdown.state
                },
                ..old(home).scope_dropdown
            })
            &&& old(home).focused.is_details() ==> !r.forward_to_input && is_details_move(
                *final(home),
                key,
                r.action,
            )
            &&& !r.forward_to_input || old(home).focused == Focusable::Search
        },
{
    if let Some(action) = handle_global_shortcuts(home, key) {
        return KeyOutcome { action: Some(action), forward_to_input: false };
    }
    let is_details_focused = home.is_details_focused();
    match home.focused {
        Focusable::Search => handle_search_focus(home, key),
        Focusable::Results => KeyOutcome {
            action: handle_results_focus(home, key),
            forward_to_input: false,
        },
        Focusable::Sort => KeyOutcome {
            action: handle_sort_focus(home, key),
            forward_to_input: false,
        },
        Focusable::Scope => KeyOutcome {
            action: handle_scope_focus(home, key),
            forward_to_input: false,
        },
        _ => {
            if is_details_focused {
                KeyOutcome { action: handle_details_focus(home, key), forward_to_input: false }
            } else {
                KeyOutcome { action: None, forward_to_input: false }
            }
        },
    }
}

} // verus!
