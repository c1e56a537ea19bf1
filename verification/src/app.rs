//! The application state and its transitions: a running flag, the selected
//! tab, the selected output, and one bounded volume level per output. Every
//! transition clamps at its bounds instead of failing, so the state is
//! well formed after every step.

use vstd::prelude::*;

use crate::input::{Command, InputEvent, KeyEvent, KeyEventKind, spec_command_for, command_for};
use crate::tabs::SelectedTab;

verus! {

/// Amount added or removed by one volume step.
pub const VOLUME_STEP: u8 = 5;

/// Upper bound of every volume level.
pub const MAX_VOLUME: u8 = 100;

/// Mathematical model of the application state.
pub ghost struct AppView {
    pub running: bool,
    pub selected_tab: SelectedTab,
    pub active_output: int,
    pub volume: Seq<u8>,
}

impl AppView {
    /// Well-formedness: the selected output indexes the volume sequence, and
    /// every level is a multiple of the step no greater than the maximum —
    /// so a step from below the maximum can never overshoot it.
    pub open spec fn wf(self) -> bool {
        &&& 0 <= self.active_output < self.volume.len()
        &&& forall|i: int|
            0 <= i < self.volume.len() ==> #[trigger] self.volume[i] <= MAX_VOLUME
                && self.volume[i] as int % VOLUME_STEP as int == 0
    }

    /// Selects the following tab, clamped at the last one.
    pub open spec fn spec_next_tab(self) -> AppView {
        AppView { selected_tab: self.selected_tab.spec_next(), ..self }
    }

    /// Selects the preceding tab, clamped at the first one.
    pub open spec fn spec_previous_tab(self) -> AppView {
        AppView { selected_tab: self.selected_tab.spec_previous(), ..self }
    }

    /// Selects the following output, clamped at the last one.
    pub open spec fn spec_next_output(self) -> AppView {
        if self.active_output + 1 < self.volume.len() {
            AppView { active_output: self.active_output + 1, ..self }
        } else {
            self
        }
    }

    /// Selects the preceding output, clamped at the first one.
    pub open spec fn spec_previous_output(self) -> AppView {
        if self.active_output > 0 {
            AppView { active_output: self.active_output - 1, ..self }
        } else {
            self
        }
    }

    /// Raises the selected output's volume by one step; at the maximum the
    /// level is left untouched.
    pub open spec fn spec_volume_up(self) -> AppView {
        let level: u8 = self.volume[self.active_output];
        if level < MAX_VOLUME {
            AppView {
                volume: self.volume.update(self.active_output, (level + VOLUME_STEP) as u8),
                ..self
            }
        } else {
            self
        }
    }

    /// Lowers the selected output's volume by one step; at zero the level is
    /// left untouched.
    pub open spec fn spec_volume_down(self) -> AppView {
        let level: u8 = self.volume[self.active_output];
        if level > 0 {
            AppView {
                volume: self.volume.update(self.active_output, (level - VOLUME_STEP) as u8),
                ..self
            }
        } else {
            self
        }
    }

    /// Clears the running flag; the event loop exits at its next check.
    pub open spec fn spec_quit(self) -> AppView {
        AppView { running: false, ..self }
    }

    /// Applies one command to the state.
    pub open spec fn spec_apply(self, c: Command) -> AppView {
        match c {
            Command::Quit => self.spec_quit(),
            Command::NextTab => self.spec_next_tab(),
            Command::PreviousTab => self.spec_previous_tab(),
            Command::NextOutput => self.spec_next_output(),
            Command::PreviousOutput => self.spec_previous_output(),
            Command::VolumeUp => self.spec_volume_up(),
            Command::VolumeDown => self.spec_volume_down(),
            Command::Noop => self,
        }
    }

    /// Applies the command a key event maps to.
    pub open spec fn spec_on_key(self, key: KeyEvent) -> AppView {
        self.spec_apply(spec_command_for(key))
    }
}

/// The application state. The volume sequence is created once and its
/// length never changes for the life of the state.
#[derive(Debug)]
pub struct App {
    running: bool,
    selected_tab: SelectedTab,
    active_output: usize,
    volume: Vec<u8>,
}

impl View for App {
    type V = AppView;

    closed spec fn view(&self) -> AppView {
        AppView {
            running: self.running,
            selected_tab: self.selected_tab,
            active_output: self.active_output as int,
            volume: self.volume@,
        }
    }
}

impl App {
    /// Creates the startup state: running, first tab and first output
    /// selected, and the fixed seed volumes.
    pub fn new() -> (r: App)
        ensures
            r@.wf(),
            r@.running,
            r@.selected_tab == SelectedTab::Tab1,
            r@.active_output == 0,
            r@.volume == seq![50u8, 75u8, 100u8],
    {
        let volume: Vec<u8> = vec![50, 75, 100];
        proof {
            assert(volume@ =~= seq![50u8, 75u8, 100u8]);
        }
        App { running: true, selected_tab: SelectedTab::Tab1, active_output: 0, volume }
    }

    /// Whether the event loop should keep going.
    pub fn running(&self) -> (r: bool)
        ensures
            r == self@.running,
    {
        self.running
    }

    /// The tab currently selected.
    pub fn selected_tab(&self) -> (r: SelectedTab)
        ensures
            r == self@.selected_tab,
    {
        self.selected_tab
    }

    /// Index of the output currently selected for adjustment.
    pub fn active_output(&self) -> (r: usize)
        ensures
            r == self@.active_output,
    {
        self.active_output
    }

    /// Number of outputs.
    pub fn volume_len(&self) -> (r: usize)
        ensures
            r == self@.volume.len(),
    {
        self.volume.len()
    }

    /// The volume level of output `i`.
    pub fn volume(&self, i: usize) -> (r: u8)
        requires
            i < self@.volume.len(),
        ensures
            r == self@.volume[i as int],
    {
        self.volume[i]
    }

    /// Advances the selected tab, clamping at the last tab.
    pub fn next_tab(&mut self)
        ensures
            final(self)@ == old(self)@.spec_next_tab(),
            old(self)@.wf() ==> final(self)@.wf(),
    {
        self.selected_tab = self.selected_tab.next();
    }

    /// Retreats the selected tab, clamping at the first tab.
    pub fn previous_tab(&mut self)
        ensures
            final(self)@ == old(self)@.spec_previous_tab(),
            old(self)@.wf() ==> final(self)@.wf(),
    {
        self.selected_tab = self.selected_tab.previous();
    }

    /// Advances the selected output, clamping at the last output.
    pub fn next_output(&mut self)
        requires
            old(self)@.wf(),
        ensures
            final(self)@ == old(self)@.spec_next_output(),
            final(self)@.wf(),
    {
        if self.active_output < self.volume.len() - 1 {
            self.active_output = self.active_output + 1;
        }
    }

    /// Retreats the selected output, clamping at the first output.
    pub fn previous_output(&mut self)
        requires
            old(self)@.wf(),
        ensures
            final(self)@ == old(self)@.spec_previous_output(),
            final(self)@.wf(),
    {
        if self.active_output > 0 {
            self.active_output = self.active_output - 1;
        }
    }

    /// Raises the selected output's volume one step, clamping at the maximum.
    pub fn volume_up(&mut self)
        requires
            old(self)@.wf(),
        ensures
            final(self)@ == old(self)@.spec_volume_up(),
            final(self)@.wf(),
    {
        let level: u8 = self.volume[self.active_output];
        if level < MAX_VOLUME {
            self.volume.set(self.active_output, level + VOLUME_STEP);
        }
    }

    /// Lowers the selected output's volume one step, clamping at zero.
    pub fn volume_down(&mut self)
        requires
            old(self)@.wf(),
        ensures
            final(self)@ == old(self)@.spec_volume_down(),
            final(self)@.wf(),
    {
        let level: u8 = self.volume[self.active_output];
        if level > 0 {
            self.volume.set(self.active_output, level - VOLUME_STEP);
        }
    }

    /// Clears the running flag so the loop exits at its next check.
    pub fn quit(&mut self)
        ensures
            final(self)@ == old(self)@.spec_quit(),
            old(self)@.wf() ==> final(self)@.wf(),
    {
        self.running = false;
    }

    /// Applies the command the given key event maps to.
    pub fn on_key_event(&mut self, key: KeyEvent)
        requires
            old(self)@.wf(),
        ensures
            final(self)@ == old(self)@.spec_on_key(key),
            final(self)@.wf(),
    {
        match command_for(key) {
            Command::Quit => self.quit(),
            Command::NextTab => self.next_tab(),
            Command::PreviousTab => self.previous_tab(),
            Command::NextOutput => self.next_output(),
            Command::PreviousOutput => self.previous_output(),
            Command::VolumeUp => self.volume_up(),
            Command::VolumeDown => self.volume_down(),
            Command::Noop => {},
        }
    }
}

/// What one wait of the event loop produced: an input event, an input-source
/// failure, the end of the input stream, or the periodic tick.
#[derive(Clone, Copy, Debug, PartialEq, Eq, Structural)]
pub enum LoopEvent {
    Input(InputEvent),
    InputError,
    InputClosed,
    Tick,
}

/// What the event loop should do after one step.
#[derive(Clone, Copy, Debug, PartialEq, Eq, Structural)]
pub enum LoopDirective {
    Continue,
    Stop,
    Fail,
}

/// The state after one loop step: a pressed key is dispatched; mouse and
/// resize events, released or repeated keys, the tick, and input-source
/// failures change nothing.
pub open spec fn spec_step(v: AppView, e: LoopEvent) -> AppView {
    match e {
        LoopEvent::Input(InputEvent::Key(key)) => if key.kind == KeyEventKind::Press {
            v.spec_on_key(key)
        } else {
            v
        },
        LoopEvent::Input(_) => v,
        LoopEvent::InputError => v,
        LoopEvent::InputClosed => v,
        LoopEvent::Tick => v,
    }
}

/// The directive after one loop step: an input-source failure or the end of
/// the stream is fatal; otherwise the loop goes on exactly while the state
/// is still running.
pub open spec fn spec_directive(v: AppView, e: LoopEvent) -> LoopDirective {
    if e == LoopEvent::InputError || e == LoopEvent::InputClosed {
        LoopDirective::Fail
    } else if spec_step(v, e).running {
        LoopDirective::Continue
    } else {
        LoopDirective::Stop
    }
}

impl App {
    /// One step of the event loop's decision logic: applies the event to the
    /// state and says whether the loop continues, stops cleanly, or fails
    /// because the input source did.
    pub fn handle_event(&mut self, e: LoopEvent) -> (d: LoopDirective)
        requires
            old(self)@.wf(),
        ensures
            final(self)@ == spec_step(old(self)@, e),
            final(self)@.wf(),
            d == spec_directive(old(self)@, e),
    {
        match e {
            LoopEvent::Input(InputEvent::Key(key)) => {
                if key.kind == KeyEventKind::Press {
                    self.on_key_event(key);
                }
            },
            LoopEvent::Input(_) => {},
            LoopEvent::InputError => {
                return LoopDirective::Fail;
            },
            LoopEvent::InputClosed => {
                return LoopDirective::Fail;
            },
            LoopEvent::Tick => {},
        }
        if self.running {
            LoopDirective::Continue
        } else {
            LoopDirective::Stop
        }
    }
}

/// One step of the output selector.
#[derive(Clone, Copy, Debug, PartialEq, Eq, Structural)]
pub enum OutputOp {
    Next,
    Previous,
}

/// The output index reached from `i` among `n` outputs after taking the
/// steps in `ops`, in order, clamping at both ends.
pub open spec fn apply_output_ops(i: int, n: int, ops: Seq<OutputOp>) -> int
    decreases ops.len(),
{
    if ops.len() == 0 {
        i
    } else {
        let stepped: int = match ops[0] {
            OutputOp::Next => if i + 1 < n {
                i + 1
            } else {
                i
            },
            OutputOp::Previous => if i > 0 {
                i - 1
            } else {
                i
            },
        };
        apply_output_ops(stepped, n, ops.drop_first())
    }
}

/// Law: from any valid index, however many next/previous output steps are
/// taken, the index stays within `[0, n - 1]`.
pub proof fn lemma_output_ops_stay_bounded(i: int, n: int, ops: Seq<OutputOp>)
    requires
        0 <= i < n,
    ensures
        0 <= apply_output_ops(i, n, ops) < n,
    decreases ops.len(),
{
    if ops.len() != 0 {
        let stepped: int = match ops[0] {
            OutputOp::Next => if i + 1 < n {
                i + 1
            } else {
                i
            },
            OutputOp::Previous => if i > 0 {
                i - 1
            } else {
                i
            },
        };
        lemma_output_ops_stay_bounded(stepped, n, ops.drop_first());
    }
}

/// Law: a volume step at its bound is a no-op — raising at the maximum and
/// lowering at zero leave the whole state unchanged.
pub proof fn lemma_volume_step_clamped_at_bounds(v: AppView)
    requires
        v.wf(),
    ensures
        v.volume[v.active_output] == MAX_VOLUME ==> v.spec_volume_up() == v,
        v.volume[v.active_output] == 0 ==> v.spec_volume_down() == v,
{
}

/// Law: away from the bounds a volume step changes the selected output's
/// level by exactly one step and touches nothing else.
pub proof fn lemma_volume_step_exact(v: AppView)
    requires
        v.wf(),
    ensures
        v.volume[v.active_output] < MAX_VOLUME ==> v.spec_volume_up().volume[v.active_output]
            == v.volume[v.active_output] + VOLUME_STEP,
        v.volume[v.active_output] > 0 ==> v.spec_volume_down().volume[v.active_output]
            == v.volume[v.active_output] - VOLUME_STEP,
        forall|j: int|
            0 <= j < v.volume.len() && j != v.active_output ==> #[trigger] v.spec_volume_up().volume[j]
                == v.volume[j] && v.spec_volume_down().volume[j] == v.volume[j],
        v.spec_volume_up().volume.len() == v.volume.len(),
        v.spec_volume_down().volume.len() == v.volume.len(),
        v.spec_volume_up().running == v.running && v.spec_volume_up().selected_tab
            == v.selected_tab && v.spec_volume_up().active_output == v.active_output,
        v.spec_volume_down().running == v.running && v.spec_volume_down().selected_tab
            == v.selected_tab && v.spec_volume_down().active_output == v.active_output,
{
}

/// Law: a quit command — Escape from any state among them — clears the
/// running flag, and the loop then stops at its next check.
pub proof fn lemma_quit_key_stops_loop(v: AppView, key: KeyEvent)
    requires
        key.kind == KeyEventKind::Press,
        spec_command_for(key) == Command::Quit,
    ensures
        !spec_step(v, LoopEvent::Input(InputEvent::Key(key))).running,
        spec_directive(v, LoopEvent::Input(InputEvent::Key(key))) == LoopDirective::Stop,
{
}

} // verus!
