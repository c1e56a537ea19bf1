use volume_tui::app::{App, LoopDirective, LoopEvent, MAX_VOLUME, VOLUME_STEP};
use volume_tui::input::{command_for, Command, InputEvent, KeyCode, KeyEvent, KeyEventKind};
use volume_tui::tabs::{SelectedOutput, SelectedTab};

fn press(code: KeyCode) -> KeyEvent {
    KeyEvent {
        code,
        control: false,
        kind: KeyEventKind::Press,
    }
}

fn ctrl_press(code: KeyCode) -> KeyEvent {
    KeyEvent {
        code,
        control: true,
        kind: KeyEventKind::Press,
    }
}

#[test]
fn new_app_is_seeded() {
    let app = App::new();
    assert!(app.running());
    assert_eq!(app.selected_tab(), SelectedTab::Tab1);
    assert_eq!(app.active_output(), 0);
    assert_eq!(app.volume_len(), 3);
    assert_eq!(app.volume(0), 50);
    assert_eq!(app.volume(1), 75);
    assert_eq!(app.volume(2), 100);
    assert_eq!(VOLUME_STEP, 5);
    assert_eq!(MAX_VOLUME, 100);
}

#[test]
fn tab_steps_stay_in_the_four_tabs() {
    let mut tab = SelectedTab::Tab1;
    let all = [
        SelectedTab::Tab1,
        SelectedTab::Tab2,
        SelectedTab::Tab3,
        SelectedTab::Tab4,
    ];
    for step in 0..20usize {
        tab = if step % 3 == 0 { tab.previous() } else { tab.next() };
        assert!(all.contains(&tab));
        assert!(tab.index() <= 3);
    }
}

#[test]
fn previous_tab_at_first_is_a_no_op() {
    assert_eq!(SelectedTab::Tab1.previous(), SelectedTab::Tab1);
}

#[test]
fn next_tab_at_last_is_a_no_op() {
    assert_eq!(SelectedTab::Tab4.next(), SelectedTab::Tab4);
}

#[test]
fn selected_output_clamps_at_both_ends() {
    assert_eq!(SelectedOutput::Output1.previous(), SelectedOutput::Output1);
    assert_eq!(SelectedOutput::Output1.next(), SelectedOutput::Output2);
    assert_eq!(SelectedOutput::Output2.next(), SelectedOutput::Output3);
    assert_eq!(SelectedOutput::Output3.next(), SelectedOutput::Output3);
    assert_eq!(SelectedOutput::Output3.previous(), SelectedOutput::Output2);
}

#[test]
fn output_steps_stay_in_range() {
    let mut app = App::new();
    for step in 0..25usize {
        if step % 4 == 0 {
            app.previous_output();
        } else {
            app.next_output();
        }
        assert!(app.active_output() < app.volume_len());
    }
}

#[test]
fn volume_up_at_maximum_is_a_no_op() {
    let mut app = App::new();
    app.next_output();
    app.next_output();
    assert_eq!(app.volume(2), 100);
    app.volume_up();
    assert_eq!(app.volume(2), 100);
    app.volume_up();
    assert_eq!(app.volume(2), 100);
}

#[test]
fn volume_down_at_zero_is_a_no_op() {
    let mut app = App::new();
    for _ in 0..10 {
        app.volume_down();
    }
    assert_eq!(app.volume(0), 0);
    app.volume_down();
    assert_eq!(app.volume(0), 0);
}

#[test]
fn volume_steps_change_by_exactly_five() {
    let mut app = App::new();
    app.volume_up();
    assert_eq!(app.volume(0), 55);
    app.volume_down();
    assert_eq!(app.volume(0), 50);
    assert_eq!(app.volume(1), 75);
    assert_eq!(app.volume(2), 100);
}

#[test]
fn scenario_three_right_arrows_reach_sixty_five() {
    let mut app = App::new();
    assert_eq!(app.active_output(), 0);
    for _ in 0..3 {
        app.on_key_event(press(KeyCode::Right));
    }
    assert_eq!(app.volume(0), 65);
    assert_eq!(app.volume(1), 75);
    assert_eq!(app.volume(2), 100);
}

#[test]
fn scenario_up_at_first_output_clamps() {
    let mut app = App::new();
    assert_eq!(app.active_output(), 0);
    app.on_key_event(press(KeyCode::Up));
    assert_eq!(app.active_output(), 0);
    app.on_key_event(press(KeyCode::Char('j')));
    assert_eq!(app.active_output(), 0);
}

#[test]
fn scenario_tab_walk_clamps_at_last_tab() {
    let mut app = App::new();
    assert_eq!(app.selected_tab(), SelectedTab::Tab1);
    app.on_key_event(press(KeyCode::Char('h')));
    assert_eq!(app.selected_tab(), SelectedTab::Tab1);
    for _ in 0..4 {
        app.on_key_event(press(KeyCode::Char('l')));
    }
    assert_eq!(app.selected_tab(), SelectedTab::Tab4);
    app.on_key_event(press(KeyCode::Char('l')));
    assert_eq!(app.selected_tab(), SelectedTab::Tab4);
}

#[test]
fn scenario_escape_stops_the_loop() {
    let mut app = App::new();
    app.on_key_event(press(KeyCode::Char('k')));
    app.on_key_event(press(KeyCode::Right));
    let d = app.handle_event(LoopEvent::Input(InputEvent::Key(press(KeyCode::Escape))));
    assert!(!app.running());
    assert_eq!(d, LoopDirective::Stop);
}

#[test]
fn every_quit_key_quits() {
    for key in [
        press(KeyCode::Escape),
        press(KeyCode::Char('q')),
        press(KeyCode::Char('Q')),
        ctrl_press(KeyCode::Char('c')),
        ctrl_press(KeyCode::Char('C')),
    ] {
        let mut app = App::new();
        app.on_key_event(key);
        assert!(!app.running(), "{key:?} should quit");
    }
}

#[test]
fn plain_c_does_not_quit() {
    let mut app = App::new();
    app.on_key_event(press(KeyCode::Char('c')));
    assert!(app.running());
    app.on_key_event(press(KeyCode::Char('C')));
    assert!(app.running());
}

#[test]
fn dispatcher_maps_every_trigger() {
    assert_eq!(command_for(press(KeyCode::Escape)), Command::Quit);
    assert_eq!(command_for(press(KeyCode::Char('q'))), Command::Quit);
    assert_eq!(command_for(press(KeyCode::Char('Q'))), Command::Quit);
    assert_eq!(command_for(ctrl_press(KeyCode::Char('c'))), Command::Quit);
    assert_eq!(command_for(ctrl_press(KeyCode::Char('C'))), Command::Quit);
    assert_eq!(command_for(press(KeyCode::Char('l'))), Command::NextTab);
    assert_eq!(command_for(press(KeyCode::Char('h'))), Command::PreviousTab);
    assert_eq!(command_for(press(KeyCode::Char('j'))), Command::PreviousOutput);
    assert_eq!(command_for(press(KeyCode::Up)), Command::PreviousOutput);
    assert_eq!(command_for(press(KeyCode::Char('k'))), Command::NextOutput);
    assert_eq!(command_for(press(KeyCode::Down)), Command::NextOutput);
    assert_eq!(command_for(press(KeyCode::Right)), Command::VolumeUp);
    assert_eq!(command_for(press(KeyCode::Left)), Command::VolumeDown);
    assert_eq!(command_for(press(KeyCode::Char('x'))), Command::Noop);
    assert_eq!(command_for(press(KeyCode::Other)), Command::Noop);
}

#[test]
fn only_presses_are_dispatched() {
    let mut app = App::new();
    let release = KeyEvent {
        code: KeyCode::Escape,
        control: false,
        kind: KeyEventKind::Release,
    };
    let d = app.handle_event(LoopEvent::Input(InputEvent::Key(release)));
    assert!(app.running());
    assert_eq!(d, LoopDirective::Continue);
    let repeat = KeyEvent {
        code: KeyCode::Right,
        control: false,
        kind: KeyEventKind::Repeat,
    };
    app.handle_event(LoopEvent::Input(InputEvent::Key(repeat)));
    assert_eq!(app.volume(0), 50);
}

#[test]
fn tick_and_mouse_change_nothing() {
    let mut app = App::new();
    let d = app.handle_event(LoopEvent::Tick);
    assert_eq!(d, LoopDirective::Continue);
    let d = app.handle_event(LoopEvent::Input(InputEvent::Mouse));
    assert_eq!(d, LoopDirective::Continue);
    let d = app.handle_event(LoopEvent::Input(InputEvent::Other));
    assert_eq!(d, LoopDirective::Continue);
    assert!(app.running());
    assert_eq!(app.selected_tab(), SelectedTab::Tab1);
    assert_eq!(app.active_output(), 0);
    assert_eq!(app.volume(0), 50);
    assert_eq!(app.volume(1), 75);
    assert_eq!(app.volume(2), 100);
}

#[test]
fn input_source_failure_is_fatal() {
    let mut app = App::new();
    assert_eq!(app.handle_event(LoopEvent::InputError), LoopDirective::Fail);
    assert_eq!(app.handle_event(LoopEvent::InputClosed), LoopDirective::Fail);
    assert!(app.running());
}

#[test]
fn quit_then_any_event_reports_stop() {
    let mut app = App::new();
    app.quit();
    assert!(!app.running());
    let d = app.handle_event(LoopEvent::Tick);
    assert_eq!(d, LoopDirective::Stop);
}

#[test]
fn tab_titles_are_fixed() {
    assert_eq!(SelectedTab::Tab1.title(), "App Outputs");
    assert_eq!(SelectedTab::Tab2.title(), "App Inputs");
    assert_eq!(SelectedTab::Tab3.title(), "Device Outputs");
    assert_eq!(SelectedTab::Tab4.title(), "Device Inputs");
}
