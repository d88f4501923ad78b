//! The application: its mode, whether it is to quit or to be suspended,
//! and what an action asks of it beyond its components.

use vstd::prelude::*;

use crate::action::{Action, CargoAction};
use crate::cargo::api::spec_crate_spec;
use crate::components::status_bar::{StatusAction, StatusLevel};
use crate::text::{concat2, concat3, str_list};
use crate::tui::KeyEvent;

verus! {

/// The screen that is shown.
#[derive(Debug, Clone, Copy, PartialEq, Eq, Hash, Structural)]
pub enum Mode {
    App,
    Home,
    Settings,
}

impl Default for Mode {
    fn default() -> (r: Mode)
        ensures
            r == Mode::Home,
    {
        Mode::Home
    }
}

/// A run of `cargo` on behalf of the user, with the texts that report on
/// it.
#[derive(Debug, Clone, PartialEq, Eq)]
pub struct CargoPlan {
    /// The status shown when the run starts.
    pub start_status: String,
    /// The arguments for `cargo`.
    pub args: Vec<String>,
    /// Whether the terminal is handed to `cargo` for the run, so that what
    /// it prints can be read.
    pub print_output: bool,
    /// The status shown when the run has succeeded.
    pub success_status: String,
    /// The status shown when the run has failed.
    pub failure_status: String,
}

/// `name v version`.
pub open spec fn name_and_version(name: Seq<char>, version: Seq<char>) -> Seq<char> {
    name + " v"@ + version
}

/// Whether `plan` is the run that the action asks for. Adding and
/// installing hand the terminal to `cargo`; removing and uninstalling run
/// in the background.
pub open spec fn is_plan_of(action: CargoAction, plan: Option<CargoPlan>) -> bool {
    match action {
        CargoAction::Add { name, version } => plan matches Some(p) && {
            &&& p.start_status@ == "Adding "@ + name_and_version(name@, version@)
            &&& str_list(p.args@) == seq!["add"@, spec_crate_spec(name@, Some(version@))]
            &&& p.print_output
            &&& p.success_status@ == "Added "@ + name_and_version(name@, version@)
            &&& p.failure_status@ == "Failed to add "@ + name@
        },
        CargoAction::Remove(name) => plan matches Some(p) && {
            &&& p.start_status@ == "Removing "@ + name@
            &&& str_list(p.args@) == seq!["remove"@, name@]
            &&& !p.print_output
            &&& p.success_status@ == "Removed "@ + name@
            &&& p.failure_status@ == "Failed to remove "@ + name@
        },
        CargoAction::Install { name, version } => plan matches Some(p) && {
            &&& p.start_status@ == "Installing "@ + name_and_version(name@, version@)
            &&& str_list(p.args@) == seq![
                "install"@,
                "--locked"@,
                spec_crate_spec(name@, Some(version@)),
            ]
            &&& p.print_output
            &&& p.success_status@ == "Installed "@ + name_and_version(name@, version@)
            &&& p.failure_status@ == "Failed to install "@ + name@
        },
        CargoAction::Uninstall(name) => plan matches Some(p) && {
            &&& p.start_status@ == "Uninstalling "@ + name@
            &&& str_list(p.args@) == seq!["uninstall"@, name@]
            &&& !p.print_output
            &&& p.success_status@ == "Uninstalled "@ + name@
            &&& p.failure_status@ == "Failed to uninstall "@ + name@
        },
        _ => plan.is_none(),
    }
}

/// `prefix name v version`.
fn with_version(prefix: &str, name: &str, version: &str) -> (r: String)
    ensures
        r@ == prefix@ + name_and_version(name@, version@),
{
    let mut s = concat3(prefix, name, " v");
    s.append(version);
    assert(s@ =~= prefix@ + name_and_version(name@, version@));
    s
}

/// The run of `cargo` that the action asks for, if it asks for one.
pub fn cargo_plan(action: &CargoAction) -> (r: Option<CargoPlan>)
    ensures
        is_plan_of(*action, r),
{
    match action {
        CargoAction::Add { name, version } => {
            let args = crate::cargo::api::add(name.clone(), Some(version.clone()));
            assert(str_list(args@) =~= seq!["add"@, spec_crate_spec(name@, Some(version@))]);
            Some(
            CargoPlan {
                start_status: with_version("Adding ", name.as_str(), version.as_str()),
                args,
                print_output: true,
                success_status: with_version("Added ", name.as_str(), version.as_str()),
                failure_status: concat2("Failed to add ", name.as_str()),
            },
        )},
        CargoAction::Remove(name) => Some(
            CargoPlan {
                start_status: concat2("Removing ", name.as_str()),
                args: crate::cargo::api::remove(name.clone()),
                print_output: false,
                success_status: concat2("Removed ", name.as_str()),
                failure_status: concat2("Failed to remove ", name.as_str()),
            },
        ),
        CargoAction::Install { name, version } => {
            let args = crate::cargo::api::install(name.clone(), Some(version.clone()));
            assert(str_list(args@) =~= seq![
                "install"@,
                "--locked"@,
                spec_crate_spec(name@, Some(version@)),
            ]);
            Some(
            CargoPlan {
                start_status: with_version("Installing ", name.as_str(), version.as_str()),
                args,
                print_output: true,
                success_status: with_version("Installed ", name.as_str(), version.as_str()),
                failure_status: concat2("Failed to install ", name.as_str()),
            },
        )},
        CargoAction::Uninstall(name) => Some(
            CargoPlan {
                start_status: concat2("Uninstalling ", name.as_str()),
                args: crate::cargo::api::uninstall(name.clone()),
                print_output: false,
                success_status: concat2("Uninstalled ", name.as_str()),
                failure_status: concat2("Failed to uninstall ", name.as_str()),
            },
        ),
        _ => None,
    }
}

impl CargoPlan {
    /// The actions that report the end of the run: on success the status
    /// and a refresh of the Cargo environment, on failure the error.
    pub fn finished(self, succeeded: bool) -> (r: Vec<Action>)
        ensures
            succeeded ==> r@.len() == 2 && r@[0] == Action::Status(
                StatusAction::UpdateStatus(StatusLevel::Info, self.success_status),
            ) && r@[1] == Action::Cargo(CargoAction::RefreshCargoEnv),
            !succeeded ==> r@.len() == 1 && r@[0] == Action::Status(
                StatusAction::UpdateStatus(StatusLevel::Error, self.failure_status),
            ),
    {
        let mut actions: Vec<Action> = Vec::new();
        if succeeded {
            actions.push(
                Action::Status(StatusAction::UpdateStatus(StatusLevel::Info, self.success_status)),
            );
            actions.push(Action::Cargo(CargoAction::RefreshCargoEnv));
        } else {
            actions.push(
                Action::Status(StatusAction::UpdateStatus(StatusLevel::Error, self.failure_status)),
            );
        }
        actions
    }
}

/// A sequence of keys and the action it stands for.
#[derive(Debug, PartialEq, Eq)]
pub struct KeyBinding {
    pub keys: Vec<KeyEvent>,
    pub action: Action,
}

/// The key bindings of one mode.
#[derive(Debug, PartialEq, Eq)]
pub struct KeyMap {
    pub mode: Mode,
    pub bindings: Vec<KeyBinding>,
}

/// The position of the first binding for exactly the keys `keys`, or -1
/// where there is none.
pub open spec fn spec_find_binding(bindings: Seq<KeyBinding>, keys: Seq<KeyEvent>) -> int
    decreases bindings.len(),
{
    if bindings.len() == 0 {
        -1
    } else {
        let before = spec_find_binding(bindings.drop_last(), keys);
        if before >= 0 {
            before
        } else if bindings.last().keys@ == keys {
            bindings.len() - 1
        } else {
            -1
        }
    }
}

/// The position of the first key map for `mode`, or -1 where there is
/// none.
pub open spec fn spec_find_keymap(keymaps: Seq<KeyMap>, mode: Mode) -> int
    decreases keymaps.len(),
{
    if keymaps.len() == 0 {
        -1
    } else {
        let before = spec_find_keymap(keymaps.drop_last(), mode);
        if before >= 0 {
            before
        } else if keymaps.last().mode == mode {
            keymaps.len() - 1
        } else {
            -1
        }
    }
}

/// What a key press makes of the keys pressed since the last tick, under
/// the bindings of one mode: a binding for the key alone fires at once;
/// else the key joins the keys pressed, and a binding for all of them
/// fires. Gives the keys pressed afterwards and the position of the
/// binding that fires, or -1.
pub open spec fn spec_press(pressed: Seq<KeyEvent>, key: KeyEvent, bindings: Seq<KeyBinding>) -> (
    Seq<KeyEvent>,
    int,
) {
    if spec_find_binding(bindings, seq![key]) >= 0 {
        (pressed, spec_find_binding(bindings, seq![key]))
    } else {
        (pressed.push(key), spec_find_binding(bindings, pressed.push(key)))
    }
}

/// Whether two key sequences are the same.
fn same_keys(a: &Vec<KeyEvent>, b: &Vec<KeyEvent>) -> (r: bool)
    ensures
        r == (a@ == b@),
{
    if a.len() != b.len() {
        return false;
    }
    let mut i: usize = 0;
    while i < a.len()
        invariant
            i <= a.len(),
            a.len() == b.len(),
            forall|j: int| 0 <= j < i ==> a@[j] == b@[j],
        decreases a.len() - i,
    {
        if a[i] != b[i] {
            return false;
        }
        i += 1;
    }
    assert(a@ =~= b@);
    true
}

/// The position of the first binding for exactly the keys `keys`.
pub fn find_binding(bindings: &Vec<KeyBinding>, keys: &Vec<KeyEvent>) -> (r: Option<usize>)
    ensures
        match r {
            Some(i) => i == spec_find_binding(bindings@, keys@) && i < bindings@.len(),
            None => spec_find_binding(bindings@, keys@) < 0,
        },
{
    let mut found: Option<usize> = None;
    assert(bindings@.take(0).len() == 0);
    let mut k: usize = 0;
    while k < bindings.len()
        invariant
            k <= bindings.len(),
            match found {
                Some(i) => i == spec_find_binding(bindings@.take(k as int), keys@) && i < k,
                None => spec_find_binding(bindings@.take(k as int), keys@) < 0,
            },
        decreases bindings.len() - k,
    {
        proof {
            assert(bindings@.take(k + 1).drop_last() =~= bindings@.take(k as int));
            assert(bindings@.take(k + 1).last() == bindings@[k as int]);
        }
        if found.is_none() && same_keys(&bindings[k].keys, keys) {
            found = Some(k);
        }
        k += 1;
    }
    proof {
        assert(bindings@.take(k as int) =~= bindings@);
    }
    found
}

/// The position of the first key map for `mode`.
pub fn find_keymap(keymaps: &Vec<KeyMap>, mode: Mode) -> (r: Option<usize>)
    ensures
        match r {
            Some(i) => i == spec_find_keymap(keymaps@, mode) && i < keymaps@.len(),
            None => spec_find_keymap(keymaps@, mode) < 0,
        },
{
    let mut found: Option<usize> = None;
    assert(keymaps@.take(0).len() == 0);
    let mut k: usize = 0;
    while k < keymaps.len()
        invariant
            k <= keymaps.len(),
            match found {
                Some(i) => i == spec_find_keymap(keymaps@.take(k as int), mode) && i < k,
                None => spec_find_keymap(keymaps@.take(k as int), mode) < 0,
            },
        decreases keymaps.len() - k,
    {
        proof {
            assert(keymaps@.take(k + 1).drop_last() =~= keymaps@.take(k as int));
            assert(keymaps@.take(k + 1).last() == keymaps@[k as int]);
        }
        if found.is_none() && keymaps[k].mode == mode {
            found = Some(k);
        }
        k += 1;
    }
    proof {
        assert(keymaps@.take(k as int) =~= keymaps@);
    }
    found
}

/// A binding that has fired: the key map and the binding within it.
#[derive(Debug, Clone, Copy, PartialEq, Eq, Structural)]
pub struct Fired {
    pub keymap: usize,
    pub binding: usize,
}

/// What a key press under the bindings of the given mode comes to: the
/// keys pressed afterwards and the binding that fires. A mode without
/// bindings leaves all as it is.
pub open spec fn spec_press_in_mode(
    pressed: Seq<KeyEvent>,
    key: KeyEvent,
    keymaps: Seq<KeyMap>,
    mode: Mode,
) -> (Seq<KeyEvent>, Option<Fired>) {
    let at = spec_find_keymap(keymaps, mode);
    if at < 0 {
        (pressed, None)
    } else {
        let (after, binding) = spec_press(pressed, key, keymaps[at].bindings@);
        (
            after,
            if binding >= 0 {
                Some(Fired { keymap: at as usize, binding: binding as usize })
            } else {
                None
            },
        )
    }
}

/// What an action asks of the application beyond its own state.
#[derive(Debug, PartialEq, Eq)]
pub enum AppEffect {
    /// Nothing.
    Idle,
    ClearScreen,
    Resize { w: u16, h: u16 },
    Render,
    /// Show the status, then run `cargo` as planned and report how it
    /// ended.
    RunCargo(CargoPlan),
    /// Read the Cargo environment again, then announce that it has been
    /// refreshed.
    RefreshCargoEnv,
}

/// What the main loop does after the actions of a round have been
/// taken.
#[derive(Debug, Clone, Copy, PartialEq, Eq, Structural)]
pub enum LoopStep {
    Continue,
    /// Hand the terminal back, and on return queue `Resume` and
    /// `ClearScreen`.
    Suspend,
    Quit,
}

/// The application's own state.
#[derive(Debug, PartialEq, Eq)]
pub struct App {
    pub mode: Mode,
    pub should_quit: bool,
    pub should_suspend: bool,
    pub last_tick_key_events: Vec<KeyEvent>,
}

impl App {
    /// The application at its start, on the home screen.
    pub fn new() -> (r: App)
        ensures
            r.mode == Mode::Home,
            !r.should_quit,
            !r.should_suspend,
            r.last_tick_key_events@.len() == 0,
    {
        App {
            mode: Mode::Home,
            should_quit: false,
            should_suspend: false,
            last_tick_key_events: Vec::new(),
        }
    }

    /// Takes an action: a tick forgets the keys pressed since the last
    /// one, and `Quit`, `Suspend` and `Resume` set what the main loop does
    /// next. What else an action asks for is returned.
    pub fn handle_action(&mut self, action: &Action) -> (r: AppEffect)
        ensures
            final(self).mode == old(self).mode,
            final(self).should_quit == (old(self).should_quit || *action is Quit),
            final(self).should_suspend == if *action is Suspend {
                true
            } else if *action is Resume {
                false
            } else {
                old(self).should_suspend
            },
            final(self).last_tick_key_events@ == if *action is Tick {
                Seq::<KeyEvent>::empty()
            } else {
                old(self).last_tick_key_events@
            },
            match *action {
                Action::ClearScreen => r == AppEffect::ClearScreen,
                Action::Resize { w, h } => r == (AppEffect::Resize { w, h }),
                Action::Render => r == AppEffect::Render,
                Action::Cargo(cargo_action) => match cargo_action {
                    CargoAction::RefreshCargoEnv => r == AppEffect::RefreshCargoEnv,
                    CargoAction::CargoEnvRefreshed => r == AppEffect::Idle,
                    CargoAction::CrateMetadataLoaded(_) => r == AppEffect::Idle,
                    _ => r matches AppEffect::RunCargo(plan) && is_plan_of(cargo_action, Some(plan)),
                },
                _ => r == AppEffect::Idle,
            },
    {
        match action {
            Action::Tick => {
                self.last_tick_key_events.clear();
                AppEffect::Idle
            },
            Action::Quit => {
                self.should_quit = true;
                AppEffect::Idle
            },
            Action::Suspend => {
                self.should_suspend = true;
                AppEffect::Idle
            },
            Action::Resume => {
                self.should_suspend = false;
                AppEffect::Idle
            },
            Action::ClearScreen => AppEffect::ClearScreen,
            Action::Resize { w, h } => AppEffect::Resize { w: *w, h: *h },
            Action::Render => AppEffect::Render,
            Action::Cargo(cargo_action) => match cargo_action {
                CargoAction::RefreshCargoEnv => AppEffect::RefreshCargoEnv,
                _ => match cargo_plan(cargo_action) {
                    Some(plan) => AppEffect::RunCargo(plan),
                    None => AppEffect::Idle,
                },
            },
            _ => AppEffect::Idle,
        }
    }

    /// Takes a key press under the bindings of one mode.
    fn press_in_mode(&mut self, key: KeyEvent, keymaps: &Vec<KeyMap>, mode: Mode) -> (r: Option<
        Fired,
    >)
        ensures
            (final(self).last_tick_key_events@, r) == spec_press_in_mode(
                old(self).last_tick_key_events@,
                key,
                keymaps@,
                mode,
            ),
            final(self).mode == old(self).mode,
            final(self).should_quit == old(self).should_quit,
            final(self).should_suspend == old(self).should_suspend,
            r.is_some() ==> r.unwrap().keymap < keymaps@.len() && r.unwrap().binding
                < keymaps@[r.unwrap().keymap as int].bindings@.len(),
    {
        let at = match find_keymap(keymaps, mode) {
            Some(at) => at,
            None => {
                return None;
            },
        };
        let bindings = &keymaps[at].bindings;
        let mut single: Vec<KeyEvent> = Vec::new();
        single.push(key);
        assert(single@ =~= seq![key]);
        if let Some(binding) = find_binding(bindings, &single) {
            return Some(Fired { keymap: at, binding });
        }
        self.last_tick_key_events.push(key);
        match find_binding(bindings, &self.last_tick_key_events) {
            Some(binding) => Some(Fired { keymap: at, binding }),
            None => None,
        }
    }

    /// Takes a key press: the bindings of the current mode come first,
    /// then those that hold in every mode. Returns the binding that
    /// fires, if one does.
    pub fn handle_key_event(&mut self, key: KeyEvent, keymaps: &Vec<KeyMap>) -> (r: Option<Fired>)
        ensures
            final(self).mode == old(self).mode,
            final(self).should_quit == old(self).should_quit,
            final(self).should_suspend == old(self).should_suspend,
            ({
                let first = spec_press_in_mode(
                    old(self).last_tick_key_events@,
                    key,
                    keymaps@,
                    old(self).mode,
                );
                (final(self).last_tick_key_events@, r) == if first.1.is_some() {
                    first
                } else {
                    spec_press_in_mode(first.0, key, keymaps@, Mode::App)
                }
            }),
            r.is_some() ==> r.unwrap().keymap < keymaps@.len() && r.unwrap().binding
                < keymaps@[r.unwrap().keymap as int].bindings@.len(),
    {
        let mode = self.mode;
        match self.press_in_mode(key, keymaps, mode) {
            Some(fired) => Some(fired),
            None => self.press_in_mode(key, keymaps, Mode::App),
        }
    }

    /// What the main loop does after a round: a suspension comes before
    /// quitting.
    pub fn next_step(&self) -> (r: LoopStep)
        ensures
            r == if self.should_suspend {
                LoopStep::Suspend
            } else if self.should_quit {
                LoopStep::Quit
            } else {
                LoopStep::Continue
            },
    {
        if self.should_suspend {
            LoopStep::Suspend
        } else if self.should_quit {
            LoopStep::Quit
        } else {
            LoopStep::Continue
        }
    }
}

/// The arguments of the program without the name of the Cargo subcommand:
/// where the program was started as `cargo seek`, the second argument is
/// `seek` and is dropped.
pub open spec fn spec_filter_subcommand(args: Seq<Seq<char>>) -> Seq<Seq<char>> {
    if args.len() >= 2 && args[1] == "seek"@ {
        seq![args[0]] + args.skip(2)
    } else {
        args
    }
}

/// The arguments of the program without the name of the Cargo
/// subcommand.
pub fn filter_subcommand(args: Vec<String>) -> (r: Vec<String>)
    ensures
        str_list(r@) == spec_filter_subcommand(str_list(args@)),
{
    let is_subcommand = args.len() >= 2 && crate::text::str_eq(args[1].as_str(), "seek");
    if is_subcommand {
        let mut args = args;
        let ghost all = args@;
        let _ = args.remove(1);
        proof {
            assert(str_list(args@) =~= seq![str_list(all)[0]] + str_list(all).skip(2));
        }
        args
    } else {
        args
    }
}

} // verus!
