//! The process supervisor: which child processes run, in what signal state,
//! and what the daemon does on each event of its loop.
use vstd::prelude::*;
use crate::input::{chord_step, Intent, KeyEvent, MenuChord};
use crate::settings::{clamp, restored, restore, DaemonState, MAX_BRIGHTNESS, MAX_VOLUME};

verus! {

/// Signal state of the main child process.
#[derive(Clone, Copy, Debug, PartialEq, Eq, Structural)]
pub enum ChildState {
    Running,
    Stopped,
    Exited,
}

/// Signals sent to the main child process.
#[derive(Clone, Copy, Debug, PartialEq, Eq, Structural)]
pub enum ChildSignal {
    /// Suspend it.
    Stop,
    /// Resume it.
    Cont,
    /// Ask it to exit.
    Term,
}

/// One event that wakes the daemon's loop.
#[derive(Clone, Copy, Debug, PartialEq, Eq, Structural)]
pub enum Event {
    /// A key event from the input device.
    Key(KeyEvent),
    /// The main child process exited.
    MainExited,
    /// The menu child process exited.
    MenuExited,
    /// A hangup, interrupt, quit or terminate signal reached the daemon.
    Quit,
}

/// One step of outside work, carried out in order by the loop that runs the
/// daemon.
#[derive(Clone, Copy, Debug, PartialEq, Eq, Structural)]
pub enum Command {
    /// Write this volume to the hardware.
    SetVolume(i32),
    /// Write this brightness to the hardware.
    SetBrightness(u8),
    /// Rewrite the settings file with the current settings.
    SaveSettings,
    /// Send a signal to the main child process.
    SignalMain(ChildSignal),
    /// Block until the main child process has exited.
    WaitMain,
    /// Spawn the main child process: the game recorded in the game info, or
    /// the launcher when there is none.
    SpawnMain,
    /// Spawn the menu child process.
    SpawnMenu,
    /// Ask the menu child process to exit and block until it has.
    TerminateMenu,
    /// Record the play time of the game in the game info, if any.
    RecordPlayTime,
    /// Remove the game info.
    DeleteGameInfo,
    /// Flush file systems and replace the daemon with the power-off command.
    PowerOff,
}

/// The daemon's whole state: its settings, the menu-key chord, and the two
/// child processes it supervises.
#[derive(Clone, Copy, Debug, PartialEq, Eq, Structural)]
pub struct AlliumD {
    pub settings: DaemonState,
    pub chord: MenuChord,
    pub main: ChildState,
    pub menu_open: bool,
    pub is_terminating: bool,
}

impl AlliumD {
    /// Settings in range; a suspended main process always has the menu shown
    /// over it, and outside the power-off sequence the menu is shown exactly
    /// while main is suspended.
    pub open spec fn wf(&self) -> bool {
        &&& self.settings.wf()
        &&& self.main == ChildState::Stopped ==> self.menu_open
        &&& !self.is_terminating ==> (self.menu_open <==> self.main == ChildState::Stopped)
    }
}

/// The daemon at startup with settings `s`: main running, no menu, no key held.
pub open spec fn started(s: DaemonState) -> AlliumD {
    AlliumD {
        settings: s,
        chord: MenuChord { is_menu_pressed: false, is_menu_pressed_alone: false },
        main: ChildState::Running,
        menu_open: false,
        is_terminating: false,
    }
}

/// Main's state once it is sent `Cont`.
pub open spec fn resumed(m: ChildState) -> ChildState {
    if m == ChildState::Stopped {
        ChildState::Running
    } else {
        m
    }
}

/// State and commands after acting on intent `i` in state `d`.
pub open spec fn intent_step(d: AlliumD, i: Intent, ingame: bool) -> (AlliumD, Seq<Command>) {
    match i {
        Intent::Ignore => (d, seq![]),
        Intent::Volume(add) => {
            let v = clamp(d.settings.volume + add, 0, MAX_VOLUME as int) as i32;
            (
                AlliumD { settings: DaemonState { volume: v, ..d.settings }, ..d },
                seq![Command::SetVolume(v), Command::SaveSettings],
            )
        },
        Intent::Brightness(add) => {
            let b = clamp(d.settings.brightness + add, 0, MAX_BRIGHTNESS as int) as u8;
            (
                AlliumD { settings: DaemonState { brightness: b, ..d.settings }, ..d },
                seq![Command::SetBrightness(b), Command::SaveSettings],
            )
        },
        Intent::ToggleMenu => {
            if d.menu_open {
                (
                    AlliumD { menu_open: false, main: resumed(d.main), ..d },
                    seq![Command::TerminateMenu, Command::SignalMain(ChildSignal::Cont)],
                )
            } else {
                (
                    AlliumD { menu_open: true, main: ChildState::Stopped, ..d },
                    seq![Command::SignalMain(ChildSignal::Stop), Command::SpawnMenu],
                )
            }
        },
        Intent::PowerOff => {
            let stop_game: Seq<Command> = if !ingame {
                seq![]
            } else if d.main == ChildState::Stopped {
                seq![
                    Command::SignalMain(ChildSignal::Cont),
                    Command::SignalMain(ChildSignal::Term),
                    Command::WaitMain,
                ]
            } else {
                seq![Command::SignalMain(ChildSignal::Term), Command::WaitMain]
            };
            (
                AlliumD {
                    is_terminating: true,
                    main: if ingame { ChildState::Exited } else { d.main },
                    ..d
                },
                seq![Command::SaveSettings] + stop_game + seq![
                    Command::RecordPlayTime,
                    Command::PowerOff,
                ],
            )
        },
    }
}

/// State and commands after event `e` in state `d`; `ingame` tells whether
/// the game info exists.
pub open spec fn step(d: AlliumD, e: Event, ingame: bool) -> (AlliumD, Seq<Command>) {
    match e {
        Event::Key(k) => {
            let (chord, intent) = chord_step(d.chord, k, ingame);
            intent_step(AlliumD { chord, ..d }, intent, ingame)
        },
        Event::MainExited => {
            let respawn = seq![Command::RecordPlayTime, Command::DeleteGameInfo, Command::SpawnMain];
            if d.is_terminating {
                (d, seq![])
            } else if d.menu_open {
                (
                    AlliumD { main: ChildState::Running, menu_open: false, ..d },
                    seq![Command::TerminateMenu] + respawn,
                )
            } else {
                (AlliumD { main: ChildState::Running, ..d }, respawn)
            }
        },
        Event::MenuExited => {
            if d.menu_open {
                (
                    AlliumD { menu_open: false, main: resumed(d.main), ..d },
                    seq![Command::SignalMain(ChildSignal::Cont)],
                )
            } else {
                (d, seq![])
            }
        },
        Event::Quit => (d, seq![Command::SaveSettings]),
    }
}

/// How many times `c` occurs in `s`.
pub open spec fn count_of(s: Seq<Command>, c: Command) -> nat
    decreases s.len(),
{
    if s.len() == 0 {
        0
    } else {
        count_of(s.drop_last(), c) + if s.last() == c { 1nat } else { 0nat }
    }
}

impl AlliumD {
    /// A fresh daemon with default settings.
    pub fn new() -> (r: AlliumD)
        ensures
            r == started(DaemonState { volume: 0, brightness: 50 }),
            r.wf(),
    {
        AlliumD {
            settings: DaemonState::new(),
            chord: MenuChord::new(),
            main: ChildState::Running,
            menu_open: false,
            is_terminating: false,
        }
    }

    /// The daemon at startup, with the settings that the settings file holds
    /// (`None`: there is no file), and whether that file must be removed as
    /// unreadable.
    pub fn load(contents: Option<&[u8]>) -> (r: (AlliumD, bool))
        ensures
            ({
                let (s, discard) = restored(
                    match contents {
                        Some(b) => Some(b@),
                        None => None,
                    },
                );
                r == (started(s), discard)
            }),
            r.0.wf(),
    {
        let (settings, discard) = restore(contents);
        let mut d = AlliumD::new();
        d.settings = settings;
        (d, discard)
    }

    /// What to do once at startup: write the settings to the hardware and
    /// spawn the main process.
    pub fn start(&self) -> (r: Vec<Command>)
        ensures
            r@ == seq![
                Command::SetVolume(self.settings.volume),
                Command::SetBrightness(self.settings.brightness),
                Command::SpawnMain,
            ],
    {
        let mut r: Vec<Command> = Vec::new();
        r.push(Command::SetVolume(self.settings.volume));
        r.push(Command::SetBrightness(self.settings.brightness));
        r.push(Command::SpawnMain);
        r
    }

    /// Acts on one intent of the key classifier.
    fn act(&mut self, intent: Intent, ingame: bool) -> (r: Vec<Command>)
        ensures
            (*final(self), r@) == intent_step(*old(self), intent, ingame),
    {
        let mut r: Vec<Command> = Vec::new();
        match intent {
            Intent::Ignore => {},
            Intent::Volume(add) => {
                self.settings.add_volume(add);
                r.push(Command::SetVolume(self.settings.volume));
                r.push(Command::SaveSettings);
            },
            Intent::Brightness(add) => {
                self.settings.add_brightness(add);
                r.push(Command::SetBrightness(self.settings.brightness));
                r.push(Command::SaveSettings);
            },
            Intent::ToggleMenu => {
                if self.menu_open {
                    r.push(Command::TerminateMenu);
                    r.push(Command::SignalMain(ChildSignal::Cont));
                    self.menu_open = false;
                    if self.main == ChildState::Stopped {
                        self.main = ChildState::Running;
                    }
                } else {
                    r.push(Command::SignalMain(ChildSignal::Stop));
                    r.push(Command::SpawnMenu);
                    self.menu_open = true;
                    self.main = ChildState::Stopped;
                }
            },
            Intent::PowerOff => {
                self.is_terminating = true;
                r.push(Command::SaveSettings);
                if ingame {
                    if self.main == ChildState::Stopped {
                        r.push(Command::SignalMain(ChildSignal::Cont));
                    }
                    r.push(Command::SignalMain(ChildSignal::Term));
                    r.push(Command::WaitMain);
                    self.main = ChildState::Exited;
                }
                r.push(Command::RecordPlayTime);
                r.push(Command::PowerOff);
            },
        }
        assert(r@ =~= intent_step(*old(self), intent, ingame).1);
        r
    }

    /// Handles one key event: classifies it against the menu chord and acts
    /// on what it asks for.
    pub fn handle_key_event(&mut self, event: KeyEvent, ingame: bool) -> (r: Vec<Command>)
        ensures
            (*final(self), r@) == step(*old(self), Event::Key(event), ingame),
    {
        let intent = self.chord.classify(event, ingame);
        self.act(intent, ingame)
    }

    /// Handles one event of the loop and returns the outside work it calls
    /// for, in order; `ingame` tells whether the game info exists.
    pub fn handle_event(&mut self, event: Event, ingame: bool) -> (r: Vec<Command>)
        ensures
            (*final(self), r@) == step(*old(self), event, ingame),
    {
        let mut r: Vec<Command> = Vec::new();
        match event {
            Event::Key(k) => {
                return self.handle_key_event(k, ingame);
            },
            Event::MainExited => {
                if !self.is_terminating {
                    if self.menu_open {
                        r.push(Command::TerminateMenu);
                        self.menu_open = false;
                    }
                    r.push(Command::RecordPlayTime);
                    r.push(Command::DeleteGameInfo);
                    r.push(Command::SpawnMain);
                    self.main = ChildState::Running;
                }
            },
            Event::MenuExited => {
                if self.menu_open {
                    r.push(Command::SignalMain(ChildSignal::Cont));
                    self.menu_open = false;
                    if self.main == ChildState::Stopped {
                        self.main = ChildState::Running;
                    }
                }
            },
            Event::Quit => {
                r.push(Command::SaveSettings);
            },
        }
        assert(r@ =~= step(*old(self), event, ingame).1);
        r
    }
}

/// Every event keeps the daemon's state well formed.
pub proof fn lemma_step_keeps_wf(d: AlliumD, e: Event, ingame: bool)
    requires
        d.wf(),
    ensures
        step(d, e, ingame).0.wf(),
{
}

/// When the main process exits outside the power-off sequence, exactly one
/// respawn and exactly one play-time record follow, and the menu is closed;
/// during the power-off sequence none of this happens.
pub proof fn lemma_respawn_once(d: AlliumD, ingame: bool)
    ensures
        count_of(step(d, Event::MainExited, ingame).1, Command::SpawnMain) == if d.is_terminating {
            0nat
        } else {
            1nat
        },
        count_of(step(d, Event::MainExited, ingame).1, Command::RecordPlayTime) == if d.is_terminating {
            0nat
        } else {
            1nat
        },
        !d.is_terminating ==> !step(d, Event::MainExited, ingame).0.menu_open,
{
    let cmds = step(d, Event::MainExited, ingame).1;
    if !d.is_terminating {
        reveal_with_fuel(count_of, 5);
        let first: Seq<Command> = if d.menu_open {
            seq![Command::TerminateMenu]
        } else {
            seq![]
        };
        assert(cmds =~= first + seq![Command::RecordPlayTime, Command::DeleteGameInfo, Command::SpawnMain]);
        assert(cmds.drop_last() =~= first + seq![Command::RecordPlayTime, Command::DeleteGameInfo]);
        assert(cmds.drop_last().drop_last() =~= first + seq![Command::RecordPlayTime]);
        assert(cmds.drop_last().drop_last().drop_last() =~= first);
        if d.menu_open {
            assert(first.drop_last() =~= Seq::<Command>::empty());
        }
    } else {
        assert(cmds =~= Seq::<Command>::empty());
    }
}

/// Key events never open or close the menu while no game runs.
pub proof fn lemma_menu_only_in_game(d: AlliumD, k: KeyEvent)
    ensures
        step(d, Event::Key(k), false).0.menu_open == d.menu_open,
        !step(d, Event::Key(k), false).1.contains(Command::SpawnMenu),
        !step(d, Event::Key(k), false).1.contains(Command::TerminateMenu),
{
    let cmds = step(d, Event::Key(k), false).1;
    if cmds.contains(Command::SpawnMenu) {
        let i = choose|i: int| 0 <= i < cmds.len() && cmds[i] == Command::SpawnMenu;
        assert(cmds[i] == Command::SpawnMenu);
    }
    if cmds.contains(Command::TerminateMenu) {
        let i = choose|i: int| 0 <= i < cmds.len() && cmds[i] == Command::TerminateMenu;
        assert(cmds[i] == Command::TerminateMenu);
    }
}

} // verus!
