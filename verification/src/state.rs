//! Application state: the active screen and the three panel texts.

use vstd::prelude::*;

verus! {

/// The three mutually exclusive screens of the interface.
#[derive(Clone, Copy, PartialEq, Eq, Structural, Debug)]
pub enum Screen {
    Main,
    List,
    Stats,
}

/// The whole application state. Exactly one screen is active at a time;
/// the three texts are what the panels display verbatim.
pub struct App {
    pub current_screen: Screen,
    pub tracking_status: String,
    pub list_output: String,
    pub stats_output: String,
}

impl App {
    /// Fresh state: the Main screen with every panel text empty.
    pub fn new() -> (a: App)
        ensures
            a.current_screen == Screen::Main,
            a.tracking_status@ == Seq::<char>::empty(),
            a.list_output@ == Seq::<char>::empty(),
            a.stats_output@ == Seq::<char>::empty(),
    {
        App {
            current_screen: Screen::Main,
            tracking_status: String::new(),
            list_output: String::new(),
            stats_output: String::new(),
        }
    }

    /// Replaces the tracking-status text; nothing else moves.
    pub fn set_tracking_status(&mut self, text: String)
        ensures
            final(self).current_screen == old(self).current_screen,
            final(self).tracking_status == text,
            final(self).list_output == old(self).list_output,
            final(self).stats_output == old(self).stats_output,
    {
        self.tracking_status = text;
    }

    /// Replaces the list text; nothing else moves.
    pub fn set_list_output(&mut self, text: String)
        ensures
            final(self).current_screen == old(self).current_screen,
            final(self).tracking_status == old(self).tracking_status,
            final(self).list_output == text,
            final(self).stats_output == old(self).stats_output,
    {
        self.list_output = text;
    }

    /// Replaces the statistics text; nothing else moves.
    pub fn set_stats_output(&mut self, text: String)
        ensures
            final(self).current_screen == old(self).current_screen,
            final(self).tracking_status == old(self).tracking_status,
            final(self).list_output == old(self).list_output,
            final(self).stats_output == text,
    {
        self.stats_output = text;
    }
}

} // verus!
