//! The view renderer: a pure mapping from application state to one of
//! three screen layouts. No input handling and no state change happens
//! here; the surrounding binary turns the result into draw calls.

use vstd::prelude::*;
use vstd::string::StringExecFns;

use crate::state::App;
use crate::state::Screen;

verus! {

/// The frame margin around the Main screen's vertical split.
pub const MAIN_MARGIN: u16 = 1;

/// Minimum height, in rows, of the Main status panel.
pub const STATUS_MIN_ROWS: u16 = 1;

/// Fixed height, in rows, of the Main legend region.
pub const LEGEND_ROWS: u16 = 3;

/// Where the legend line goes.
#[derive(Clone, Copy, PartialEq, Eq, Structural, Debug)]
pub enum LegendPlacement {
    /// The Main screen: a vertical split, the panel above it flexible
    /// with at least [`STATUS_MIN_ROWS`] rows, the legend in its own
    /// fixed region of [`LEGEND_ROWS`] rows.
    SplitBelow,
    /// List and Stats: the legend is drawn over the full panel region.
    Overlay,
}

/// One screen layout: a bordered, titled panel holding word-wrapped,
/// trimmed body text, plus a legend line.
pub struct ScreenView {
    pub title: String,
    pub body: String,
    pub legend: String,
    pub legend_placement: LegendPlacement,
}

/// Maps the application state to the layout of the one active screen:
/// Main shows the tracking status under its panel title with the full
/// key legend split off below; List and Stats show their stored text
/// under their own titles with the back legend overlaid.
pub fn render(app: &App) -> (v: ScreenView)
    ensures
        app.current_screen == Screen::Main ==> v.title@ == "Zeit Tracker"@ && v.body@
            == app.tracking_status@ && v.legend@
            == "q: quit • s: start • f: finish • l: list • d: stats"@ && v.legend_placement
            == LegendPlacement::SplitBelow,
        app.current_screen == Screen::List ==> v.title@ == "Tracked Activities"@ && v.body@
            == app.list_output@ && v.legend@ == "b: back"@ && v.legend_placement
            == LegendPlacement::Overlay,
        app.current_screen == Screen::Stats ==> v.title@ == "Statistics"@ && v.body@
            == app.stats_output@ && v.legend@ == "b: back"@ && v.legend_placement
            == LegendPlacement::Overlay,
{
    match app.current_screen {
        Screen::Main => ScreenView {
            title: String::from_str("Zeit Tracker"),
            body: app.tracking_status.clone(),
            legend: String::from_str("q: quit • s: start • f: finish • l: list • d: stats"),
            legend_placement: LegendPlacement::SplitBelow,
        },
        Screen::List => ScreenView {
            title: String::from_str("Tracked Activities"),
            body: app.list_output.clone(),
            legend: String::from_str("b: back"),
            legend_placement: LegendPlacement::Overlay,
        },
        Screen::Stats => ScreenView {
            title: String::from_str("Statistics"),
            body: app.stats_output.clone(),
            legend: String::from_str("b: back"),
            legend_placement: LegendPlacement::Overlay,
        },
    }
}

} // verus!
