use alliumd::input::{Intent, Key, KeyEvent, MenuChord};
use alliumd::settings::DaemonState;
use alliumd::supervisor::{AlliumD, ChildSignal, ChildState, Command, Event};

fn run(d: &mut AlliumD, events: &[KeyEvent], ingame: bool) -> Vec<Command> {
    let mut all = Vec::new();
    for e in events {
        all.extend(d.handle_key_event(*e, ingame));
    }
    all
}

fn count(cmds: &[Command], c: Command) -> usize {
    cmds.iter().filter(|x| **x == c).count()
}

const TAP_MENU: [KeyEvent; 2] = [KeyEvent::Pressed(Key::Menu), KeyEvent::Released(Key::Menu)];

#[test]
fn fresh_daemon_runs_main_without_menu() {
    let d = AlliumD::new();
    assert_eq!(d.settings, DaemonState { volume: 0, brightness: 50 });
    assert_eq!(d.main, ChildState::Running);
    assert!(!d.menu_open);
    assert!(!d.is_terminating);
    assert_eq!(
        d.start(),
        vec![Command::SetVolume(0), Command::SetBrightness(50), Command::SpawnMain]
    );
}

#[test]
fn load_takes_saved_settings() {
    let bytes = DaemonState { volume: 9, brightness: 30 }.encode();
    let (d, discard) = AlliumD::load(Some(&bytes));
    assert!(!discard);
    assert_eq!(d.settings, DaemonState { volume: 9, brightness: 30 });
    assert_eq!(d.main, ChildState::Running);
}

#[test]
fn load_discards_corrupt_settings() {
    let (d, discard) = AlliumD::load(Some(b"{\"volume\":"));
    assert!(discard);
    assert_eq!(d, AlliumD::new());
    let (d, discard) = AlliumD::load(None);
    assert!(!discard);
    assert_eq!(d, AlliumD::new());
}

#[test]
fn menu_tap_in_game_opens_then_closes_menu() {
    let mut d = AlliumD::new();
    let cmds = run(&mut d, &TAP_MENU, true);
    assert_eq!(cmds, vec![Command::SignalMain(ChildSignal::Stop), Command::SpawnMenu]);
    assert!(d.menu_open);
    assert_eq!(d.main, ChildState::Stopped);

    let cmds = run(&mut d, &TAP_MENU, true);
    assert_eq!(cmds, vec![Command::TerminateMenu, Command::SignalMain(ChildSignal::Cont)]);
    assert!(!d.menu_open);
    assert_eq!(d.main, ChildState::Running);
}

#[test]
fn menu_chord_with_volume_adjusts_brightness() {
    let mut d = AlliumD::new();
    let events = [
        KeyEvent::Pressed(Key::Menu),
        KeyEvent::Pressed(Key::VolUp),
        KeyEvent::Released(Key::Menu),
    ];
    let cmds = run(&mut d, &events, true);
    assert_eq!(cmds, vec![Command::SetBrightness(55), Command::SaveSettings]);
    assert!(!d.menu_open);
    assert_eq!(d.main, ChildState::Running);
    assert_eq!(d.settings, DaemonState { volume: 0, brightness: 55 });
}

#[test]
fn menu_tap_outside_game_does_nothing() {
    let mut d = AlliumD::new();
    let cmds = run(&mut d, &TAP_MENU, false);
    assert!(cmds.is_empty());
    assert!(!d.menu_open);
    assert_eq!(count(&cmds, Command::SpawnMenu), 0);
}

#[test]
fn volume_keys_step_volume() {
    let mut d = AlliumD::new();
    let cmds = run(&mut d, &[KeyEvent::Pressed(Key::VolUp), KeyEvent::Autorepeat(Key::VolUp)], false);
    assert_eq!(
        cmds,
        vec![
            Command::SetVolume(1),
            Command::SaveSettings,
            Command::SetVolume(2),
            Command::SaveSettings
        ]
    );
    let cmds = run(&mut d, &[KeyEvent::Pressed(Key::VolDown)], false);
    assert_eq!(cmds, vec![Command::SetVolume(1), Command::SaveSettings]);
    assert_eq!(d.settings.volume, 1);
}

#[test]
fn chord_volume_down_dims() {
    let mut d = AlliumD::new();
    let events = [KeyEvent::Pressed(Key::Menu), KeyEvent::Pressed(Key::VolDown)];
    let cmds = run(&mut d, &events, false);
    assert_eq!(cmds, vec![Command::SetBrightness(45), Command::SaveSettings]);
}

#[test]
fn main_exit_respawns_once() {
    let mut d = AlliumD::new();
    let cmds = d.handle_event(Event::MainExited, true);
    assert_eq!(
        cmds,
        vec![Command::RecordPlayTime, Command::DeleteGameInfo, Command::SpawnMain]
    );
    assert_eq!(count(&cmds, Command::SpawnMain), 1);
    assert_eq!(count(&cmds, Command::RecordPlayTime), 1);
}

#[test]
fn main_exit_while_terminating_is_ignored() {
    let mut d = AlliumD::new();
    d.is_terminating = true;
    let before = d;
    let cmds = d.handle_event(Event::MainExited, true);
    assert_eq!(count(&cmds, Command::SpawnMain), 0);
    assert_eq!(count(&cmds, Command::RecordPlayTime), 0);
    assert_eq!(d, before);
}

#[test]
fn menu_exit_resumes_main() {
    let mut d = AlliumD::new();
    run(&mut d, &TAP_MENU, true);
    let cmds = d.handle_event(Event::MenuExited, true);
    assert_eq!(cmds, vec![Command::SignalMain(ChildSignal::Cont)]);
    assert!(!d.menu_open);
    assert_eq!(d.main, ChildState::Running);
}

#[test]
fn quit_signal_saves() {
    let mut d = AlliumD::new();
    assert_eq!(d.handle_event(Event::Quit, false), vec![Command::SaveSettings]);
    assert_eq!(d, AlliumD::new());
}

#[test]
fn power_hold_in_game_with_menu_resumes_then_stops_game() {
    let mut d = AlliumD::new();
    run(&mut d, &TAP_MENU, true);
    let cmds = d.handle_event(Event::Key(KeyEvent::Autorepeat(Key::Power)), true);
    assert_eq!(
        cmds,
        vec![
            Command::SaveSettings,
            Command::SignalMain(ChildSignal::Cont),
            Command::SignalMain(ChildSignal::Term),
            Command::WaitMain,
            Command::RecordPlayTime,
            Command::PowerOff,
        ]
    );
    assert!(d.is_terminating);
    assert_eq!(d.main, ChildState::Exited);
    assert!(d.handle_event(Event::MainExited, true).is_empty());
}

#[test]
fn power_hold_in_launcher_powers_off() {
    let mut d = AlliumD::new();
    let cmds = d.handle_event(Event::Key(KeyEvent::Autorepeat(Key::Power)), false);
    assert_eq!(
        cmds,
        vec![Command::SaveSettings, Command::RecordPlayTime, Command::PowerOff]
    );
    assert_eq!(d.main, ChildState::Running);
}

#[test]
fn classifier_flags_follow_menu_key() {
    let mut c = MenuChord::new();
    assert_eq!(c.classify(KeyEvent::Pressed(Key::Menu), true), Intent::Ignore);
    assert!(c.is_menu_pressed && c.is_menu_pressed_alone);
    assert_eq!(c.classify(KeyEvent::Pressed(Key::A), true), Intent::Ignore);
    assert!(c.is_menu_pressed && !c.is_menu_pressed_alone);
    assert_eq!(c.classify(KeyEvent::Released(Key::Menu), true), Intent::Ignore);
    assert!(!c.is_menu_pressed);
    assert_eq!(c.classify(KeyEvent::Autorepeat(Key::Power), false), Intent::PowerOff);
    assert_eq!(c.classify(KeyEvent::Pressed(Key::Power), false), Intent::Ignore);
}

#[test]
fn main_exit_under_open_menu_closes_menu() {
    let mut d = AlliumD::new();
    run(&mut d, &TAP_MENU, true);
    let cmds = d.handle_event(Event::MainExited, true);
    assert_eq!(
        cmds,
        vec![
            Command::TerminateMenu,
            Command::RecordPlayTime,
            Command::DeleteGameInfo,
            Command::SpawnMain
        ]
    );
    assert!(!d.menu_open);
    assert_eq!(d.main, ChildState::Running);
    let cmds = run(&mut d, &TAP_MENU, true);
    assert_eq!(cmds, vec![Command::SignalMain(ChildSignal::Stop), Command::SpawnMenu]);
}

#[test]
fn menu_autorepeat_keeps_chord() {
    let mut d = AlliumD::new();
    let events = [
        KeyEvent::Pressed(Key::Menu),
        KeyEvent::Autorepeat(Key::Menu),
        KeyEvent::Autorepeat(Key::Menu),
        KeyEvent::Released(Key::Menu),
    ];
    let cmds = run(&mut d, &events, true);
    assert_eq!(cmds, vec![Command::SignalMain(ChildSignal::Stop), Command::SpawnMenu]);
    assert!(d.menu_open);
}
