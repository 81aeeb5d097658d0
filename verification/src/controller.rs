//! Event dispatch: the decision core of the interactive loop.
//!
//! The surrounding loop observes events (timer ticks and key presses),
//! hands each one to [`handle_event`], and then performs the returned
//! [`Action`]: querying the external tool, running a prompt flow, or
//! leaving the loop. All state transitions happen here and are pure
//! functions of the current screen and the event.

use vstd::prelude::*;

use crate::state::App;
use crate::state::Screen;

verus! {

/// An event the loop can observe: a periodic timer tick or a key press.
#[derive(Clone, Copy, PartialEq, Eq, Structural, Debug)]
pub enum Event {
    Tick,
    Key(char),
}

/// What the surrounding loop must do after an event was dispatched,
/// beyond the unconditional once-per-cycle redraw.
#[derive(Clone, Copy, PartialEq, Eq, Structural, Debug)]
pub enum Action {
    /// Nothing further.
    Continue,
    /// Leave the loop; the caller tears the terminal session down.
    Quit,
    /// Query the status report and store it via `App::set_tracking_status`,
    /// then redraw.
    RefreshStatus,
    /// Suspend the session, prompt for start answers, invoke the start
    /// operation, then refresh the status text.
    RunStartFlow,
    /// Suspend the session, prompt for finish answers, invoke the finish
    /// operation, then refresh the status text.
    RunFinishFlow,
    /// Query the list report and store it via `App::set_list_output`.
    LoadList,
    /// Query the statistics report and store it via `App::set_stats_output`.
    LoadStats,
}

/// The screen transition table: keys are meaningful only on their listed
/// screen; every other key leaves the screen alone.
pub open spec fn screen_after_key(s: Screen, key: char) -> Screen {
    match s {
        Screen::Main => if key == 'l' {
            Screen::List
        } else if key == 'd' {
            Screen::Stats
        } else {
            Screen::Main
        },
        Screen::List => if key == 'b' {
            Screen::Main
        } else {
            Screen::List
        },
        Screen::Stats => if key == 'b' {
            Screen::Main
        } else {
            Screen::Stats
        },
    }
}

/// The action table for key presses: only the Main screen triggers
/// commands; `b` on List or Stats merely returns, without re-querying.
pub open spec fn action_for_key(s: Screen, key: char) -> Action {
    match s {
        Screen::Main => if key == 'q' {
            Action::Quit
        } else if key == 's' {
            Action::RunStartFlow
        } else if key == 'f' {
            Action::RunFinishFlow
        } else if key == 'l' {
            Action::LoadList
        } else if key == 'd' {
            Action::LoadStats
        } else {
            Action::Continue
        },
        Screen::List => Action::Continue,
        Screen::Stats => Action::Continue,
    }
}

/// A tick never moves the screen.
pub open spec fn screen_after_event(s: Screen, e: Event) -> Screen {
    match e {
        Event::Tick => s,
        Event::Key(key) => screen_after_key(s, key),
    }
}

/// A tick refreshes the status text only while the Main screen is shown.
pub open spec fn action_for_event(s: Screen, e: Event) -> Action {
    match e {
        Event::Tick => if s == Screen::Main {
            Action::RefreshStatus
        } else {
            Action::Continue
        },
        Event::Key(key) => action_for_key(s, key),
    }
}

/// Dispatches one key press: moves the screen exactly as the transition
/// table says and returns the action the table assigns. The panel texts
/// are untouched; actions that change them report back through setters.
pub fn handle_key(app: &mut App, key: char) -> (a: Action)
    ensures
        final(app).current_screen == screen_after_key(old(app).current_screen, key),
        a == action_for_key(old(app).current_screen, key),
        final(app).tracking_status == old(app).tracking_status,
        final(app).list_output == old(app).list_output,
        final(app).stats_output == old(app).stats_output,
{
    match app.current_screen {
        Screen::Main => match key {
            'q' => Action::Quit,
            's' => Action::RunStartFlow,
            'f' => Action::RunFinishFlow,
            'l' => {
                app.current_screen = Screen::List;
                Action::LoadList
            },
            'd' => {
                app.current_screen = Screen::Stats;
                Action::LoadStats
            },
            _ => Action::Continue,
        },
        Screen::List | Screen::Stats => match key {
            'b' => {
                app.current_screen = Screen::Main;
                Action::Continue
            },
            _ => Action::Continue,
        },
    }
}

/// Dispatches one event, tick or key press.
pub fn handle_event(app: &mut App, e: Event) -> (a: Action)
    ensures
        final(app).current_screen == screen_after_event(old(app).current_screen, e),
        a == action_for_event(old(app).current_screen, e),
        final(app).tracking_status == old(app).tracking_status,
        final(app).list_output == old(app).list_output,
        final(app).stats_output == old(app).stats_output,
{
    match e {
        Event::Tick => {
            if app.current_screen == Screen::Main {
                Action::RefreshStatus
            } else {
                Action::Continue
            }
        },
        Event::Key(key) => handle_key(app, key),
    }
}

/// The transition table folded over a whole sequence of events.
pub open spec fn screen_after_events(s: Screen, evs: Seq<Event>) -> Screen
    decreases evs.len(),
{
    if evs.len() == 0 {
        s
    } else {
        screen_after_events(screen_after_event(s, evs[0]), evs.drop_first())
    }
}

/// Folding the table over a sequence and then taking one more step is the
/// same as folding it over the extended sequence.
pub proof fn lemma_screen_after_events_snoc(s: Screen, evs: Seq<Event>, e: Event)
    ensures
        screen_after_events(s, evs.push(e)) == screen_after_event(
            screen_after_events(s, evs),
            e,
        ),
    decreases evs.len(),
{
    reveal_with_fuel(screen_after_events, 2);
    if evs.len() == 0 {
        assert(evs.push(e)[0] == e);
        assert(evs.push(e).drop_first() =~= Seq::<Event>::empty());
    } else {
        assert(evs.push(e)[0] == evs[0]);
        assert(evs.push(e).drop_first() =~= evs.drop_first().push(e));
        lemma_screen_after_events_snoc(screen_after_event(s, evs[0]), evs.drop_first(), e);
    }
}

/// Replays a recorded sequence of events through the dispatcher. The
/// screen that results is exactly the transition table applied in order:
/// no transition is skipped or duplicated. A `q` press does not move the
/// screen, so replaying past it is harmless.
pub fn replay_events(app: &mut App, evs: &Vec<Event>)
    ensures
        final(app).current_screen == screen_after_events(old(app).current_screen, evs@),
        final(app).tracking_status == old(app).tracking_status,
        final(app).list_output == old(app).list_output,
        final(app).stats_output == old(app).stats_output,
{
    let ghost s0 = app.current_screen;
    let mut i: usize = 0;
    while i < evs.len()
        invariant
            i <= evs@.len(),
            app.current_screen == screen_after_events(s0, evs@.subrange(0, i as int)),
            app.tracking_status == old(app).tracking_status,
            app.list_output == old(app).list_output,
            app.stats_output == old(app).stats_output,
        decreases evs@.len() - i,
    {
        proof {
            assert(evs@.subrange(0, i as int).push(evs@[i as int]) =~= evs@.subrange(
                0,
                i + 1,
            ));
            lemma_screen_after_events_snoc(s0, evs@.subrange(0, i as int), evs@[i as int]);
        }
        let e = evs[i];
        let _ = handle_event(app, e);
        i += 1;
    }
    proof {
        assert(evs@.subrange(0, evs@.len() as int) =~= evs@);
    }
}

} // verus!
