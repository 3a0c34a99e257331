//! Launcher presets and run state shown by the interactive front end.

use vstd::prelude::*;
use crate::text::{push_char, push_decimal, str_eq, to_owned_string, dec};

verus! {

/// Preset decks offered by the launcher.
#[derive(Debug, Clone, PartialEq)]
pub enum Preset {
    /// No preset selected yet.
    Unselected,
    // Instabilities
    ZPinch,
    SausageWeak,
    SausageStrong,
    KinkWeak,
    KinkStrong,
    Mixed,
    // MAGPIE
    MagpieWires,
    MagpieStagnationMild,
    MagpieStagnationStrong,
    MagpieStagnation3MeV,
    MagpieParallel,
    // Custom file
    CustomFile(String),
}

/// Deck path of each preset.
pub open spec fn preset_path(p: Preset) -> Option<Seq<char>> {
    match p {
        Preset::Unselected => None,
        Preset::ZPinch => Some("data/instabilities/zpinch.json"@),
        Preset::SausageWeak => Some("data/instabilities/sausage_weak.json"@),
        Preset::SausageStrong => Some("data/instabilities/sausage_strong.json"@),
        Preset::KinkWeak => Some("data/instabilities/kink_weak.json"@),
        Preset::KinkStrong => Some("data/instabilities/kink_strong.json"@),
        Preset::Mixed => Some("data/instabilities/mixed.json"@),
        Preset::MagpieWires => Some("data/magpie/magpie_wires.json"@),
        Preset::MagpieStagnationMild => Some("data/magpie/magpie_stagnation_mild.json"@),
        Preset::MagpieStagnationStrong => Some("data/magpie/magpie_stagnation_strong.json"@),
        Preset::MagpieStagnation3MeV => Some("data/magpie/magpie_stagnation_3MeV.json"@),
        Preset::MagpieParallel => Some("data/magpie/magpie_parallel.json"@),
        Preset::CustomFile(path) => Some(path@),
    }
}

/// Label of each preset in the launcher.
pub open spec fn preset_label(p: Preset) -> Seq<char> {
    match p {
        Preset::Unselected => "-- Select preset --"@,
        Preset::ZPinch => "Z-Pinch"@,
        Preset::SausageWeak => "Sausage (weak)"@,
        Preset::SausageStrong => "Sausage (strong)"@,
        Preset::KinkWeak => "Kink (weak)"@,
        Preset::KinkStrong => "Kink (strong)"@,
        Preset::Mixed => "Mixed instabilities"@,
        Preset::MagpieWires => "MAGPIE Wires"@,
        Preset::MagpieStagnationMild => "MAGPIE Stagnation (mild)"@,
        Preset::MagpieStagnationStrong => "MAGPIE Stagnation (strong)"@,
        Preset::MagpieStagnation3MeV => "MAGPIE Stagnation (3 MeV)"@,
        Preset::MagpieParallel => "MAGPIE Parallel Beam"@,
        Preset::CustomFile(_) => "Custom file"@,
    }
}

impl Preset {
    /// Deck path of the preset; `None` when no preset is selected.
    pub fn config_path(&self) -> (r: Option<String>)
        ensures
            match preset_path(*self) {
                None => r is None,
                Some(p) => r matches Some(s) && s@ == p,
            },
    {
        let p: &str = match self {
            Preset::Unselected => {
                return None;
            },
            Preset::ZPinch => "data/instabilities/zpinch.json",
            Preset::SausageWeak => "data/instabilities/sausage_weak.json",
            Preset::SausageStrong => "data/instabilities/sausage_strong.json",
            Preset::KinkWeak => "data/instabilities/kink_weak.json",
            Preset::KinkStrong => "data/instabilities/kink_strong.json",
            Preset::Mixed => "data/instabilities/mixed.json",
            Preset::MagpieWires => "data/magpie/magpie_wires.json",
            Preset::MagpieStagnationMild => "data/magpie/magpie_stagnation_mild.json",
            Preset::MagpieStagnationStrong => "data/magpie/magpie_stagnation_strong.json",
            Preset::MagpieStagnation3MeV => "data/magpie/magpie_stagnation_3MeV.json",
            Preset::MagpieParallel => "data/magpie/magpie_parallel.json",
            Preset::CustomFile(path) => path.as_str(),
        };
        Some(to_owned_string(p))
    }

    /// Label shown for the preset.
    pub fn display_name(&self) -> (r: &str)
        ensures
            r@ == preset_label(*self),
    {
        match self {
            Preset::Unselected => "-- Select preset --",
            Preset::ZPinch => "Z-Pinch",
            Preset::SausageWeak => "Sausage (weak)",
            Preset::SausageStrong => "Sausage (strong)",
            Preset::KinkWeak => "Kink (weak)",
            Preset::KinkStrong => "Kink (strong)",
            Preset::Mixed => "Mixed instabilities",
            Preset::MagpieWires => "MAGPIE Wires",
            Preset::MagpieStagnationMild => "MAGPIE Stagnation (mild)",
            Preset::MagpieStagnationStrong => "MAGPIE Stagnation (strong)",
            Preset::MagpieStagnation3MeV => "MAGPIE Stagnation (3 MeV)",
            Preset::MagpieParallel => "MAGPIE Parallel Beam",
            Preset::CustomFile(_) => "Custom file",
        }
    }
}

/// Lifecycle of a run in the launcher.
#[derive(Debug, Clone, PartialEq)]
pub enum RunState {
    /// No deck loaded.
    Idle,
    /// Deck is being parsed / GPU resources allocated.
    Preparing,
    /// Simulation is actively stepping particles.
    Running,
    /// All particles accounted for; outputs written to the directory held.
    Complete(String),
    /// Something went wrong.
    Failed(String),
}

impl RunState {
    /// Whether a run is under way (preparing or stepping).
    pub fn is_active(&self) -> (r: bool)
        ensures
            r == (*self is Preparing || *self is Running),
    {
        match self {
            RunState::Preparing | RunState::Running => true,
            _ => false,
        }
    }
}

/// Whether two presets are the same choice (custom files by their path).
pub open spec fn same_preset(a: Preset, b: Preset) -> bool {
    match a {
        Preset::CustomFile(x) => b matches Preset::CustomFile(y) && x@ == y@,
        _ => a == b,
    }
}

/// Position of a preset in the launcher's list.
pub open spec fn preset_rank(p: Preset) -> u8 {
    match p {
        Preset::Unselected => 0,
        Preset::ZPinch => 1,
        Preset::SausageWeak => 2,
        Preset::SausageStrong => 3,
        Preset::KinkWeak => 4,
        Preset::KinkStrong => 5,
        Preset::Mixed => 6,
        Preset::MagpieWires => 7,
        Preset::MagpieStagnationMild => 8,
        Preset::MagpieStagnationStrong => 9,
        Preset::MagpieStagnation3MeV => 10,
        Preset::MagpieParallel => 11,
        Preset::CustomFile(_) => 12,
    }
}

fn rank_of(p: &Preset) -> (r: u8)
    ensures
        r == preset_rank(*p),
{
    match p {
        Preset::Unselected => 0,
        Preset::ZPinch => 1,
        Preset::SausageWeak => 2,
        Preset::SausageStrong => 3,
        Preset::KinkWeak => 4,
        Preset::KinkStrong => 5,
        Preset::Mixed => 6,
        Preset::MagpieWires => 7,
        Preset::MagpieStagnationMild => 8,
        Preset::MagpieStagnationStrong => 9,
        Preset::MagpieStagnation3MeV => 10,
        Preset::MagpieParallel => 11,
        Preset::CustomFile(_) => 12,
    }
}

/// Whether two presets are the same choice.
pub fn presets_equal(a: &Preset, b: &Preset) -> (r: bool)
    ensures
        r == same_preset(*a, *b),
{
    match (a, b) {
        (Preset::CustomFile(x), Preset::CustomFile(y)) => str_eq(x.as_str(), y.as_str()),
        _ => {
            let ra = rank_of(a);
            let rb = rank_of(b);
            ra == rb && ra != 12
        },
    }
}

/// The launcher's state: the chosen deck, the run's lifecycle and progress,
/// and the requests it leaves for the application to take.
#[derive(Debug)]
pub struct Gui {
    pub visible: bool,
    pub selected_preset: Preset,
    pub custom_file_path: String,
    pub run_state: RunState,
    /// Name of the deck whose parameters are on display.
    pub deck_name: Option<String>,
    pub output_dir: String,
    pub progress_hits: u32,
    pub progress_exits: u32,
    pub progress_n_particles: u32,
    pub deck_load_request: Option<String>,
    pub run_start_request: Option<String>,
    pub export_requested: bool,
}

pub open spec fn opt_seq(o: Option<String>) -> Option<Seq<char>> {
    match o {
        Some(s) => Some(s@),
        None => None,
    }
}

impl Gui {
    /// Name of the deck on display, if one is.
    pub open spec fn shown_deck(&self) -> Option<Seq<char>> {
        opt_seq(self.deck_name)
    }

    /// Pending request to preview a deck (its path).
    pub open spec fn deck_request(&self) -> Option<Seq<char>> {
        opt_seq(self.deck_load_request)
    }

    /// Pending request to start a run (its output directory).
    pub open spec fn run_request(&self) -> Option<Seq<char>> {
        opt_seq(self.run_start_request)
    }

    /// Hits, exits and particles of the run in progress.
    pub open spec fn progress(&self) -> (u32, u32, u32) {
        (self.progress_hits, self.progress_exits, self.progress_n_particles)
    }

    /// Path typed for a custom deck file.
    pub open spec fn custom_path(&self) -> Seq<char> {
        self.custom_file_path@
    }

    /// A run can start when a deck is on display and none is under way.
    pub open spec fn run_allowed(&self) -> bool {
        self.shown_deck() is Some && !(self.run_state is Preparing || self.run_state is Running)
    }

    /// The launcher at start: visible, nothing chosen, idle, output to `output/run`.
    pub fn new() -> (r: Gui)
        ensures
            r.visible,
            r.selected_preset == Preset::Unselected,
            r.custom_path() == Seq::<char>::empty(),
            r.run_state == RunState::Idle,
            r.shown_deck() is None,
            r.output_dir@ == "output/run"@,
            r.progress() == (0u32, 0u32, 0u32),
            r.deck_request() is None,
            r.run_request() is None,
            !r.export_requested,
    {
        Gui {
            visible: true,
            selected_preset: Preset::Unselected,
            custom_file_path: String::new(),
            run_state: RunState::Idle,
            deck_name: None,
            output_dir: to_owned_string("output/run"),
            progress_hits: 0,
            progress_exits: 0,
            progress_n_particles: 0,
            deck_load_request: None,
            run_start_request: None,
            export_requested: false,
        }
    }

    /// Shows a loaded deck: the output directory becomes
    /// `output/<deck name>_<now_secs>`, and a preview that was preparing goes
    /// back to idle.
    pub fn set_deck_display(&mut self, deck_name: String, now_secs: u64)
        ensures
            final(self).shown_deck() == Some(deck_name@),
            final(self).output_dir@ == "output/"@ + deck_name@ + seq!['_'] + dec(now_secs as nat),
            old(self).run_state is Preparing ==> final(self).run_state == RunState::Idle,
            !(old(self).run_state is Preparing) ==> final(self).run_state == old(self).run_state,
            final(self).visible == old(self).visible,
            final(self).selected_preset == old(self).selected_preset,
            final(self).custom_path() == old(self).custom_path(),
            final(self).progress() == old(self).progress(),
            final(self).deck_request() == old(self).deck_request(),
            final(self).run_request() == old(self).run_request(),
            final(self).export_requested == old(self).export_requested,
    {
        let mut dir = to_owned_string("output/");
        dir.append(deck_name.as_str());
        push_char(&mut dir, '_');
        push_decimal(&mut dir, now_secs);
        self.output_dir = dir;
        self.deck_name = Some(deck_name);
        if let RunState::Preparing = self.run_state {
            self.run_state = RunState::Idle;
        }
    }

    /// Records the run's lifecycle state.
    pub fn set_run_state(&mut self, state: RunState)
        ensures
            final(self).run_state == state,
            final(self).visible == old(self).visible,
            final(self).selected_preset == old(self).selected_preset,
            final(self).custom_path() == old(self).custom_path(),
            final(self).shown_deck() == old(self).shown_deck(),
            final(self).output_dir == old(self).output_dir,
            final(self).progress() == old(self).progress(),
            final(self).deck_request() == old(self).deck_request(),
            final(self).run_request() == old(self).run_request(),
            final(self).export_requested == old(self).export_requested,
    {
        self.run_state = state;
    }

    /// Records the live progress counters.
    pub fn update_progress(&mut self, hits: u32, exits: u32, n_particles: u32)
        ensures
            final(self).progress() == (hits, exits, n_particles),
            final(self).visible == old(self).visible,
            final(self).selected_preset == old(self).selected_preset,
            final(self).custom_path() == old(self).custom_path(),
            final(self).run_state == old(self).run_state,
            final(self).shown_deck() == old(self).shown_deck(),
            final(self).output_dir == old(self).output_dir,
            final(self).deck_request() == old(self).deck_request(),
            final(self).run_request() == old(self).run_request(),
            final(self).export_requested == old(self).export_requested,
    {
        self.progress_hits = hits;
        self.progress_exits = exits;
        self.progress_n_particles = n_particles;
    }

    /// Takes the pending deck-preview request, leaving none.
    pub fn take_deck_load_request(&mut self) -> (r: Option<String>)
        ensures
            opt_seq(r) == old(self).deck_request(),
            final(self).deck_request() is None,
            final(self).visible == old(self).visible,
            final(self).selected_preset == old(self).selected_preset,
            final(self).custom_path() == old(self).custom_path(),
            final(self).run_state == old(self).run_state,
            final(self).shown_deck() == old(self).shown_deck(),
            final(self).output_dir == old(self).output_dir,
            final(self).progress() == old(self).progress(),
            final(self).run_request() == old(self).run_request(),
            final(self).export_requested == old(self).export_requested,
    {
        let r = self.deck_load_request.take();
        r
    }

    /// Takes the pending run-start request (the output directory), leaving none.
    pub fn take_run_start_request(&mut self) -> (r: Option<String>)
        ensures
            opt_seq(r) == old(self).run_request(),
            final(self).run_request() is None,
            final(self).visible == old(self).visible,
            final(self).selected_preset == old(self).selected_preset,
            final(self).custom_path() == old(self).custom_path(),
            final(self).run_state == old(self).run_state,
            final(self).shown_deck() == old(self).shown_deck(),
            final(self).output_dir == old(self).output_dir,
            final(self).progress() == old(self).progress(),
            final(self).deck_request() == old(self).deck_request(),
            final(self).export_requested == old(self).export_requested,
    {
        let r = self.run_start_request.take();
        r
    }

    /// Takes the export request, leaving none.
    pub fn take_export_request(&mut self) -> (r: bool)
        ensures
            r == old(self).export_requested,
            !final(self).export_requested,
            final(self).visible == old(self).visible,
            final(self).selected_preset == old(self).selected_preset,
            final(self).custom_path() == old(self).custom_path(),
            final(self).run_state == old(self).run_state,
            final(self).shown_deck() == old(self).shown_deck(),
            final(self).output_dir == old(self).output_dir,
            final(self).progress() == old(self).progress(),
            final(self).deck_request() == old(self).deck_request(),
            final(self).run_request() == old(self).run_request(),
    {
        let r = self.export_requested;
        self.export_requested = false;
        r
    }

    /// Deck path of the selected preset.
    pub fn selected_config_path(&self) -> (r: Option<String>)
        ensures
            opt_seq(r) == preset_path(self.selected_preset),
    {
        self.selected_preset.config_path()
    }

    /// Selects a preset. A change to a preset with a deck path asks for a
    /// preview of that deck: the display is cleared and the launcher is
    /// preparing.
    pub fn choose_preset(&mut self, p: Preset)
        ensures
            final(self).selected_preset == p,
            ({
                let changed = !same_preset(old(self).selected_preset, p);
                match preset_path(p) {
                    Some(path) => if changed && path.len() > 0 {
                        &&& final(self).shown_deck() is None
                        &&& final(self).run_state == RunState::Preparing
                        &&& final(self).deck_request() == Some(path)
                    } else {
                        &&& final(self).shown_deck() == old(self).shown_deck()
                        &&& final(self).run_state == old(self).run_state
                        &&& final(self).deck_request() == old(self).deck_request()
                    },
                    None => {
                        &&& final(self).shown_deck() == old(self).shown_deck()
                        &&& final(self).run_state == old(self).run_state
                        &&& final(self).deck_request() == old(self).deck_request()
                    },
                }
            }),
            final(self).visible == old(self).visible,
            final(self).custom_path() == old(self).custom_path(),
            final(self).output_dir == old(self).output_dir,
            final(self).progress() == old(self).progress(),
            final(self).run_request() == old(self).run_request(),
            final(self).export_requested == old(self).export_requested,
    {
        let changed = !presets_equal(&self.selected_preset, &p);
        self.selected_preset = p;
        if changed {
            if let Some(path) = self.selected_preset.config_path() {
                if path.as_str().unicode_len() > 0 {
                    self.deck_name = None;
                    self.run_state = RunState::Preparing;
                    self.deck_load_request = Some(path);
                }
            }
        }
    }

    /// Edits the custom deck path; the custom file at that path becomes the
    /// selection (see [`Gui::choose_preset`]).
    pub fn edit_custom_path(&mut self, text: String)
        ensures
            final(self).custom_path() == text@,
            final(self).selected_preset matches Preset::CustomFile(q) && q@ == text@,
            ({
                let changed = !(old(self).selected_preset matches Preset::CustomFile(x) && x@ == text@);
                if changed && text@.len() > 0 {
                    &&& final(self).shown_deck() is None
                    &&& final(self).run_state == RunState::Preparing
                    &&& final(self).deck_request() == Some(text@)
                } else {
                    &&& final(self).shown_deck() == old(self).shown_deck()
                    &&& final(self).run_state == old(self).run_state
                    &&& final(self).deck_request() == old(self).deck_request()
                }
            }),
            final(self).visible == old(self).visible,
            final(self).output_dir == old(self).output_dir,
            final(self).progress() == old(self).progress(),
            final(self).run_request() == old(self).run_request(),
            final(self).export_requested == old(self).export_requested,
    {
        let copy = to_owned_string(text.as_str());
        self.custom_file_path = text;
        self.choose_preset(Preset::CustomFile(copy));
    }

    /// Whether the Run button is enabled.
    pub fn can_run(&self) -> (r: bool)
        ensures
            r == self.run_allowed(),
    {
        self.deck_name.is_some() && !self.run_state.is_active()
    }

    /// The Run button: when a run can start, asks for one into the output
    /// directory, marks the launcher preparing and clears the progress hits
    /// and exits; otherwise nothing changes.
    pub fn press_run(&mut self)
        ensures
            old(self).run_allowed() ==> {
                &&& final(self).run_request() == Some(old(self).output_dir@)
                &&& final(self).run_state == RunState::Preparing
                &&& final(self).progress() == (0u32, 0u32, old(self).progress().2)
            },
            !old(self).run_allowed() ==> {
                &&& final(self).run_request() == old(self).run_request()
                &&& final(self).run_state == old(self).run_state
                &&& final(self).progress() == old(self).progress()
            },
            final(self).visible == old(self).visible,
            final(self).selected_preset == old(self).selected_preset,
            final(self).custom_path() == old(self).custom_path(),
            final(self).shown_deck() == old(self).shown_deck(),
            final(self).output_dir == old(self).output_dir,
            final(self).deck_request() == old(self).deck_request(),
            final(self).export_requested == old(self).export_requested,
    {
        if self.can_run() {
            self.run_start_request = Some(to_owned_string(self.output_dir.as_str()));
            self.run_state = RunState::Preparing;
            self.progress_hits = 0;
            self.progress_exits = 0;
        }
    }

    /// The Export button, shown once a run is complete: asks for an export.
    pub fn press_export(&mut self)
        ensures
            final(self).export_requested == (old(self).export_requested || old(
                self,
            ).run_state is Complete),
            final(self).visible == old(self).visible,
            final(self).selected_preset == old(self).selected_preset,
            final(self).custom_path() == old(self).custom_path(),
            final(self).run_state == old(self).run_state,
            final(self).shown_deck() == old(self).shown_deck(),
            final(self).output_dir == old(self).output_dir,
            final(self).progress() == old(self).progress(),
            final(self).deck_request() == old(self).deck_request(),
            final(self).run_request() == old(self).run_request(),
    {
        if let RunState::Complete(_) = self.run_state {
            self.export_requested = true;
        }
    }

    /// Particles accounted for (hits plus exits, saturating) and the total
    /// (at least 1) shown by the progress bar.
    pub fn progress_counts(&self) -> (r: (u32, u32))
        ensures
            r.0 == (if self.progress().0 + self.progress().1 > u32::MAX {
                u32::MAX as int
            } else {
                self.progress().0 + self.progress().1
            }),
            r.1 == (if self.progress().2 == 0 {
                1
            } else {
                self.progress().2
            }),
    {
        let n = if self.progress_n_particles == 0 {
            1
        } else {
            self.progress_n_particles
        };
        (self.progress_hits.saturating_add(self.progress_exits), n)
    }
}

} // verus!
