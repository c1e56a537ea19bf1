//! The frame builder: a pure mapping from the application state to a
//! renderer-agnostic description of one frame — a static title, the tab bar,
//! one gauge per output, and a static footer. The renderer only places and
//! draws these regions; all decisions are made here.

use vstd::prelude::*;

use crate::app::{App, AppView, LoopEvent, spec_step};
use crate::input::InputEvent;
use crate::tabs::SelectedTab;

verus! {

/// One output's gauge: its display name, whether it is drawn emphasized
/// (bold) because it is the selected output, and its level. The drawn fill
/// ratio is `volume / 100`.
#[derive(Debug, PartialEq, Eq)]
pub struct GaugeView {
    pub name: String,
    pub emphasized: bool,
    pub volume: u8,
}

/// Mathematical model of one gauge.
#[verifier::ext_equal]
pub ghost struct GaugeModel {
    pub name: Seq<char>,
    pub emphasized: bool,
    pub volume: u8,
}

impl View for GaugeView {
    type V = GaugeModel;

    open spec fn view(&self) -> GaugeModel {
        GaugeModel { name: self.name@, emphasized: self.emphasized, volume: self.volume }
    }
}

/// A renderer-agnostic description of one frame: title and footer labels,
/// the tab bar with the selected tab's position, and one gauge per output.
#[derive(Debug, PartialEq, Eq)]
pub struct FrameDescription {
    pub title: String,
    pub tab_titles: Vec<String>,
    pub selected_tab_index: usize,
    pub gauges: Vec<GaugeView>,
    pub footer: String,
}

/// Mathematical model of one frame.
#[verifier::ext_equal]
pub ghost struct FrameModel {
    pub title: Seq<char>,
    pub tab_titles: Seq<Seq<char>>,
    pub selected_tab_index: int,
    pub gauges: Seq<GaugeModel>,
    pub footer: Seq<char>,
}

impl View for FrameDescription {
    type V = FrameModel;

    open spec fn view(&self) -> FrameModel {
        FrameModel {
            title: self.title@,
            tab_titles: Seq::new(self.tab_titles@.len(), |i: int| self.tab_titles@[i]@),
            selected_tab_index: self.selected_tab_index as int,
            gauges: Seq::new(self.gauges@.len(), |i: int| self.gauges@[i]@),
            footer: self.footer@,
        }
    }
}

/// Display name of output `i`.
pub open spec fn spec_output_name(i: int) -> Seq<char> {
    if i == 0 {
        "Speakers Lorem Ipsum"@
    } else if i == 1 {
        "Headphones dolor sit"@
    } else if i == 2 {
        "Digital Output amet"@
    } else {
        "Output"@
    }
}

/// Returns the display name of output `i`.
pub fn output_name(i: usize) -> (r: String)
    ensures
        r@ == spec_output_name(i as int),
{
    if i == 0 {
        "Speakers Lorem Ipsum".to_owned()
    } else if i == 1 {
        "Headphones dolor sit".to_owned()
    } else if i == 2 {
        "Digital Output amet".to_owned()
    } else {
        "Output".to_owned()
    }
}

/// The titles of the four tabs, in tab order.
pub open spec fn spec_tab_titles() -> Seq<Seq<char>> {
    seq![
        SelectedTab::Tab1.spec_title(),
        SelectedTab::Tab2.spec_title(),
        SelectedTab::Tab3.spec_title(),
        SelectedTab::Tab4.spec_title(),
    ]
}

/// The frame description a state maps to: static title and footer, the tab
/// bar selecting the current tab, and one gauge per output whose name is
/// emphasized exactly when that output is the selected one.
pub open spec fn spec_frame(v: AppView) -> FrameModel {
    FrameModel {
        title: "Volume Control"@,
        tab_titles: spec_tab_titles(),
        selected_tab_index: v.selected_tab.ordinal(),
        gauges: Seq::new(
            v.volume.len(),
            |i: int|
                GaugeModel {
                    name: spec_output_name(i),
                    emphasized: i == v.active_output,
                    volume: v.volume[i],
                },
        ),
        footer: "Some Audio Output Information"@,
    }
}

impl App {
    /// Builds the frame description for the current state. The result is a
    /// function of the state alone, so an unchanged state always yields an
    /// identical frame.
    pub fn build_frame(&self) -> (f: FrameDescription)
        requires
            self@.wf(),
        ensures
            f@ == spec_frame(self@),
    {
        let n: usize = self.volume_len();
        let active: usize = self.active_output();
        let mut gauges: Vec<GaugeView> = Vec::new();
        let mut i: usize = 0;
        while i < n
            invariant
                self@.wf(),
                n == self@.volume.len(),
                active == self@.active_output,
                i <= n,
                gauges@.len() == i,
                forall|j: int| 0 <= j < i ==> #[trigger] gauges@[j]@ == spec_frame(self@).gauges[j],
            decreases n - i,
        {
            let gauge = GaugeView {
                name: output_name(i),
                emphasized: i == active,
                volume: self.volume(i),
            };
            gauges.push(gauge);
            i = i + 1;
        }
        let mut tab_titles: Vec<String> = Vec::new();
        tab_titles.push(SelectedTab::Tab1.title().to_owned());
        tab_titles.push(SelectedTab::Tab2.title().to_owned());
        tab_titles.push(SelectedTab::Tab3.title().to_owned());
        tab_titles.push(SelectedTab::Tab4.title().to_owned());
        let frame = FrameDescription {
            title: "Volume Control".to_owned(),
            tab_titles,
            selected_tab_index: self.selected_tab().index(),
            gauges,
            footer: "Some Audio Output Information".to_owned(),
        };
        proof {
            assert(frame@ =~~= spec_frame(self@));
        }
        frame
    }
}

/// Law: the frame builder is pure — two frames built from one and the same
/// state are identical.
pub proof fn lemma_frame_builder_pure(v: AppView, f1: FrameModel, f2: FrameModel)
    requires
        f1 == spec_frame(v),
        f2 == spec_frame(v),
    ensures
        f1 == f2,
{
}

/// Law: a resize event mutates no state, so the frame built after it equals
/// the frame built before it.
pub proof fn lemma_resize_keeps_frame(v: AppView, width: u16, height: u16)
    ensures
        spec_step(v, LoopEvent::Input(InputEvent::Resize(width, height))) == v,
        spec_frame(spec_step(v, LoopEvent::Input(InputEvent::Resize(width, height))))
            == spec_frame(v),
{
}

} // verus!
