//! Bounded selectors: the tab selected in the tab bar and the audio output
//! selected for adjustment. Both step forward and backward one ordinal at a
//! time and clamp at their ends instead of wrapping.

use vstd::prelude::*;

verus! {

/// One of the four views selectable in the tab bar; exactly one is visible
/// at a time. Stepping past either end clamps (no wrap-around).
#[derive(Clone, Copy, Debug, PartialEq, Eq, Structural)]
pub enum SelectedTab {
    Tab1,
    Tab2,
    Tab3,
    Tab4,
}

impl SelectedTab {
    /// Position of the tab within the fixed set, in `[0, 3]`.
    pub open spec fn ordinal(self) -> int {
        match self {
            SelectedTab::Tab1 => 0,
            SelectedTab::Tab2 => 1,
            SelectedTab::Tab3 => 2,
            SelectedTab::Tab4 => 3,
        }
    }

    /// Returns the position of the tab within the fixed set.
    pub fn index(self) -> (r: usize)
        ensures
            r as int == self.ordinal(),
    {
        match self {
            SelectedTab::Tab1 => 0,
            SelectedTab::Tab2 => 1,
            SelectedTab::Tab3 => 2,
            SelectedTab::Tab4 => 3,
        }
    }

    /// The tab one ordinal forward, clamped at the last tab.
    pub open spec fn spec_next(self) -> SelectedTab {
        match self {
            SelectedTab::Tab1 => SelectedTab::Tab2,
            SelectedTab::Tab2 => SelectedTab::Tab3,
            SelectedTab::Tab3 => SelectedTab::Tab4,
            SelectedTab::Tab4 => SelectedTab::Tab4,
        }
    }

    /// The tab one ordinal backward, clamped at the first tab.
    pub open spec fn spec_previous(self) -> SelectedTab {
        match self {
            SelectedTab::Tab1 => SelectedTab::Tab1,
            SelectedTab::Tab2 => SelectedTab::Tab1,
            SelectedTab::Tab3 => SelectedTab::Tab2,
            SelectedTab::Tab4 => SelectedTab::Tab3,
        }
    }

    /// Advance to the following tab; at the last tab this is a no-op.
    pub fn next(self) -> (r: SelectedTab)
        ensures
            r == self.spec_next(),
            r.ordinal() == if self.ordinal() < 3 { self.ordinal() + 1 } else { self.ordinal() },
    {
        match self {
            SelectedTab::Tab1 => SelectedTab::Tab2,
            SelectedTab::Tab2 => SelectedTab::Tab3,
            SelectedTab::Tab3 => SelectedTab::Tab4,
            SelectedTab::Tab4 => SelectedTab::Tab4,
        }
    }

    /// Retreat to the preceding tab; at the first tab this is a no-op.
    pub fn previous(self) -> (r: SelectedTab)
        ensures
            r == self.spec_previous(),
            r.ordinal() == if self.ordinal() > 0 { self.ordinal() - 1 } else { self.ordinal() },
    {
        match self {
            SelectedTab::Tab1 => SelectedTab::Tab1,
            SelectedTab::Tab2 => SelectedTab::Tab1,
            SelectedTab::Tab3 => SelectedTab::Tab2,
            SelectedTab::Tab4 => SelectedTab::Tab3,
        }
    }

    /// The title shown for this tab in the tab bar.
    pub open spec fn spec_title(self) -> Seq<char> {
        match self {
            SelectedTab::Tab1 => "App Outputs"@,
            SelectedTab::Tab2 => "App Inputs"@,
            SelectedTab::Tab3 => "Device Outputs"@,
            SelectedTab::Tab4 => "Device Inputs"@,
        }
    }

    /// Returns the tab-bar title of this tab.
    pub fn title(self) -> (r: &'static str)
        ensures
            r@ == self.spec_title(),
    {
        match self {
            SelectedTab::Tab1 => "App Outputs",
            SelectedTab::Tab2 => "App Inputs",
            SelectedTab::Tab3 => "Device Outputs",
            SelectedTab::Tab4 => "Device Inputs",
        }
    }
}

/// One of the three audio outputs, stepped through the same way as the tabs.
#[derive(Clone, Copy, Debug, PartialEq, Eq, Structural)]
pub enum SelectedOutput {
    Output1,
    Output2,
    Output3,
}

impl SelectedOutput {
    /// Position of the output within the fixed set, in `[0, 2]`.
    pub open spec fn ordinal(self) -> int {
        match self {
            SelectedOutput::Output1 => 0,
            SelectedOutput::Output2 => 1,
            SelectedOutput::Output3 => 2,
        }
    }

    /// The output one ordinal forward, clamped at the last output.
    pub open spec fn spec_next(self) -> SelectedOutput {
        match self {
            SelectedOutput::Output1 => SelectedOutput::Output2,
            SelectedOutput::Output2 => SelectedOutput::Output3,
            SelectedOutput::Output3 => SelectedOutput::Output3,
        }
    }

    /// The output one ordinal backward, clamped at the first output.
    pub open spec fn spec_previous(self) -> SelectedOutput {
        match self {
            SelectedOutput::Output1 => SelectedOutput::Output1,
            SelectedOutput::Output2 => SelectedOutput::Output1,
            SelectedOutput::Output3 => SelectedOutput::Output2,
        }
    }

    /// Advance to the following output; at the last output this is a no-op.
    pub fn next(self) -> (r: SelectedOutput)
        ensures
            r == self.spec_next(),
            r.ordinal() == if self.ordinal() < 2 { self.ordinal() + 1 } else { self.ordinal() },
    {
        match self {
            SelectedOutput::Output1 => SelectedOutput::Output2,
            SelectedOutput::Output2 => SelectedOutput::Output3,
            SelectedOutput::Output3 => SelectedOutput::Output3,
        }
    }

    /// Retreat to the preceding output; at the first output this is a no-op.
    pub fn previous(self) -> (r: SelectedOutput)
        ensures
            r == self.spec_previous(),
            r.ordinal() == if self.ordinal() > 0 { self.ordinal() - 1 } else { self.ordinal() },
    {
        match self {
            SelectedOutput::Output1 => SelectedOutput::Output1,
            SelectedOutput::Output2 => SelectedOutput::Output1,
            SelectedOutput::Output3 => SelectedOutput::Output2,
        }
    }
}

/// One step of the tab selector.
#[derive(Clone, Copy, Debug, PartialEq, Eq, Structural)]
pub enum TabOp {
    Next,
    Previous,
}

/// The tab reached from `t` after taking the steps in `ops`, in order.
pub open spec fn apply_tab_ops(t: SelectedTab, ops: Seq<TabOp>) -> SelectedTab
    decreases ops.len(),
{
    if ops.len() == 0 {
        t
    } else {
        let stepped = match ops[0] {
            TabOp::Next => t.spec_next(),
            TabOp::Previous => t.spec_previous(),
        };
        apply_tab_ops(stepped, ops.drop_first())
    }
}

/// Law: however many next/previous steps are taken, the selected tab stays
/// one of the four enumerated tabs — its ordinal never leaves `[0, 3]`.
pub proof fn lemma_tab_ops_stay_bounded(t: SelectedTab, ops: Seq<TabOp>)
    ensures
        0 <= apply_tab_ops(t, ops).ordinal() <= 3,
    decreases ops.len(),
{
    if ops.len() != 0 {
        let stepped = match ops[0] {
            TabOp::Next => t.spec_next(),
            TabOp::Previous => t.spec_previous(),
        };
        lemma_tab_ops_stay_bounded(stepped, ops.drop_first());
    }
}

/// Law: stepping backward at the first tab is a no-op.
pub proof fn lemma_previous_at_first_tab(t: SelectedTab)
    requires
        t.ordinal() == 0,
    ensures
        t.spec_previous() == t,
{
}

/// Law: stepping forward at the last tab is a no-op.
pub proof fn lemma_next_at_last_tab(t: SelectedTab)
    requires
        t.ordinal() == 3,
    ensures
        t.spec_next() == t,
{
}

} // verus!
