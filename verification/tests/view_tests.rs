use zeit_tui::controller::{handle_key, Action};
use zeit_tui::gateway::{list_text, tracking_status_text, ToolOutput};
use zeit_tui::state::{App, Screen};
use zeit_tui::view::{render, LegendPlacement, LEGEND_ROWS, MAIN_MARGIN, STATUS_MIN_ROWS};

#[test]
fn main_screen_layout_shows_status_and_full_legend() {
    let mut app = App::new();
    app.set_tracking_status("Website: since 14:00".to_string());
    let v = render(&app);
    assert_eq!(v.title, "Zeit Tracker");
    assert_eq!(v.body, "Website: since 14:00");
    assert_eq!(v.legend, "q: quit • s: start • f: finish • l: list • d: stats");
    assert_eq!(v.legend_placement, LegendPlacement::SplitBelow);
}

#[test]
fn stats_screen_layout_shows_stats_text_and_back_legend() {
    let mut app = App::new();
    handle_key(&mut app, 'd');
    app.set_stats_output("total 3h".to_string());
    let v = render(&app);
    assert_eq!(v.title, "Statistics");
    assert_eq!(v.body, "total 3h");
    assert_eq!(v.legend, "b: back");
    assert_eq!(v.legend_placement, LegendPlacement::Overlay);
}

#[test]
fn list_flow_shows_stubbed_output_and_returns_without_requerying() {
    let mut app = App::new();

    // Pressing `l` on Main switches to List and asks for exactly one
    // list query.
    let action = handle_key(&mut app, 'l');
    assert_eq!(action, Action::LoadList);
    assert_eq!(app.current_screen, Screen::List);

    // The loop performs the query; here a stub stands in for the tool.
    let stub = ToolOutput {
        success: true,
        stdout: "ProjectA: 2h\nProjectB: 1h".to_string(),
        stderr: String::new(),
    };
    app.set_list_output(list_text(&stub));

    let v = render(&app);
    assert_eq!(v.title, "Tracked Activities");
    assert_eq!(v.body, "ProjectA: 2h\nProjectB: 1h");

    // `b` goes back without any further query action.
    let back = handle_key(&mut app, 'b');
    assert_eq!(back, Action::Continue);
    assert_eq!(app.current_screen, Screen::Main);
}

#[test]
fn status_panel_text_comes_from_the_status_interpreter() {
    let mut app = App::new();
    let stub = ToolOutput { success: true, stdout: String::new(), stderr: String::new() };
    app.set_tracking_status(tracking_status_text(&stub));
    let v = render(&app);
    assert_eq!(v.body, "No active tracking.");
}

#[test]
fn main_split_dimensions_are_fixed() {
    assert_eq!(MAIN_MARGIN, 1);
    assert_eq!(STATUS_MIN_ROWS, 1);
    assert_eq!(LEGEND_ROWS, 3);
}
