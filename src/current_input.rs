//! The event-to-state reducer.

use vstd::prelude::*;
use crate::held::HeldSet;
use crate::identity::{Identity, Key, KeyCode, KeyView, MouseButton};

verus! {

/// A character typed during the tick, or a backspace; kept in arrival order.
#[derive(Clone, Copy, Debug, PartialEq, Eq, Structural)]
pub enum TextChar {
    Char(char),
    Back,
}

/// The three kinds of edge that the action logs record.
#[derive(Clone, Copy, Debug, PartialEq, Eq, Structural)]
pub enum ActionKind {
    /// The identity went from up to down.
    Pressed,
    /// A press arrived, initial or repeated by the operating system.
    PressedOs,
    /// The identity was released.
    Released,
}

#[derive(Clone, Debug)]
pub enum KeyAction {
    Pressed(Key),
    PressedOs(Key),
    Released(Key),
}

#[derive(Clone, Copy, Debug, PartialEq, Eq, Structural)]
pub enum ScanCodeAction {
    Pressed(KeyCode),
    PressedOs(KeyCode),
    Released(KeyCode),
}

#[derive(Clone, Copy, Debug, PartialEq, Eq, Structural)]
pub enum MouseAction {
    Pressed(MouseButton),
    Released(MouseButton),
}

impl View for KeyAction {
    type V = (ActionKind, KeyView);

    open spec fn view(&self) -> (ActionKind, KeyView) {
        match self {
            KeyAction::Pressed(k) => (ActionKind::Pressed, k@),
            KeyAction::PressedOs(k) => (ActionKind::PressedOs, k@),
            KeyAction::Released(k) => (ActionKind::Released, k@),
        }
    }
}

impl View for ScanCodeAction {
    type V = (ActionKind, KeyCode);

    open spec fn view(&self) -> (ActionKind, KeyCode) {
        match self {
            ScanCodeAction::Pressed(c) => (ActionKind::Pressed, *c),
            ScanCodeAction::PressedOs(c) => (ActionKind::PressedOs, *c),
            ScanCodeAction::Released(c) => (ActionKind::Released, *c),
        }
    }
}

impl View for MouseAction {
    type V = (ActionKind, MouseButton);

    open spec fn view(&self) -> (ActionKind, MouseButton) {
        match self {
            MouseAction::Pressed(b) => (ActionKind::Pressed, *b),
            MouseAction::Released(b) => (ActionKind::Released, *b),
        }
    }
}

/// One raw event, as the host's windowing layer reports it.
#[derive(Clone, Debug)]
pub enum InputEvent {
    /// A key went down (`pressed`, also for each repeat) or up.
    KeyboardInput { logical_key: Key, physical_key: KeyCode, pressed: bool },
    /// A character was typed.
    ReceivedCharacter(char),
    /// A pointer button went down or up.
    MouseInput { button: MouseButton, pressed: bool },
    /// The window was asked to close.
    CloseRequested,
    /// The window was destroyed.
    Destroyed,
    /// Anything else; it changes nothing.
    Other,
}

/// What the host's loop hands to `update`.
#[derive(Clone, Debug)]
pub enum HostEvent {
    /// A new tick begins: the previous tick's edges are dropped.
    NewTick,
    /// A raw event of the current tick.
    Input(InputEvent),
    /// All events of the tick have arrived: the state can be queried.
    TickComplete,
}

/// The state as a mathematical value.
pub struct InputModel {
    pub key_log: Seq<(ActionKind, KeyView)>,
    pub scan_log: Seq<(ActionKind, KeyCode)>,
    pub mouse_log: Seq<(ActionKind, MouseButton)>,
    pub keys_held: Set<KeyView>,
    pub codes_held: Set<KeyCode>,
    pub buttons_held: Set<MouseButton>,
    pub text: Seq<TextChar>,
    pub close_requested: bool,
    pub destroyed: bool,
}

/// The log entries of one press of `v`: an edge only if `v` was not held, and a
/// press-or-repeat entry always.
pub open spec fn press_entries<V>(held: Set<V>, v: V) -> Seq<(ActionKind, V)> {
    if held.contains(v) {
        seq![(ActionKind::PressedOs, v)]
    } else {
        seq![(ActionKind::Pressed, v), (ActionKind::PressedOs, v)]
    }
}

/// Characters that the key path or the host already handles do not enter the text.
pub open spec fn is_text_char(c: char) -> bool {
    c != '\u{8}' && c != '\r' && c != '\n'
}

/// The model after one event.
pub open spec fn ingest_model(m: InputModel, e: InputEvent) -> InputModel {
    match e {
        InputEvent::KeyboardInput { logical_key, physical_key, pressed } => {
            if pressed {
                InputModel {
                    key_log: m.key_log + press_entries(m.keys_held, logical_key@),
                    scan_log: m.scan_log + press_entries(m.codes_held, physical_key),
                    keys_held: m.keys_held.insert(logical_key@),
                    codes_held: m.codes_held.insert(physical_key),
                    text: if logical_key@ == KeyView::Backspace {
                        m.text.push(TextChar::Back)
                    } else {
                        m.text
                    },
                    ..m
                }
            } else {
                InputModel {
                    key_log: m.key_log.push((ActionKind::Released, logical_key@)),
                    scan_log: m.scan_log.push((ActionKind::Released, physical_key)),
                    keys_held: m.keys_held.remove(logical_key@),
                    codes_held: m.codes_held.remove(physical_key),
                    ..m
                }
            }
        },
        InputEvent::ReceivedCharacter(c) => {
            if is_text_char(c) {
                InputModel { text: m.text.push(TextChar::Char(c)), ..m }
            } else {
                m
            }
        },
        InputEvent::MouseInput { button, pressed } => {
            if pressed {
                InputModel {
                    mouse_log: m.mouse_log.push((ActionKind::Pressed, button)),
                    buttons_held: m.buttons_held.insert(button),
                    ..m
                }
            } else {
                InputModel {
                    mouse_log: m.mouse_log.push((ActionKind::Released, button)),
                    buttons_held: m.buttons_held.remove(button),
                    ..m
                }
            }
        },
        InputEvent::CloseRequested => InputModel { close_requested: true, ..m },
        InputEvent::Destroyed => InputModel { destroyed: true, ..m },
        InputEvent::Other => m,
    }
}

/// The model after a tick boundary: edges, text and window flags are dropped,
/// held state stays.
pub open spec fn step_model(m: InputModel) -> InputModel {
    InputModel {
        key_log: Seq::empty(),
        scan_log: Seq::empty(),
        mouse_log: Seq::empty(),
        text: Seq::empty(),
        close_requested: false,
        destroyed: false,
        ..m
    }
}

/// The model after one host event: a new tick closes the previous one, a raw
/// event is folded in, the end of a tick changes nothing.
pub open spec fn update_model(m: InputModel, h: HostEvent) -> InputModel {
    match h {
        HostEvent::NewTick => step_model(m),
        HostEvent::Input(e) => ingest_model(m, e),
        HostEvent::TickComplete => m,
    }
}

/// The model after a run of raw events, in order.
pub open spec fn ingest_all(m: InputModel, evs: Seq<InputEvent>) -> InputModel
    decreases evs.len(),
{
    if evs.len() == 0 {
        m
    } else {
        ingest_model(ingest_all(m, evs.drop_last()), evs.last())
    }
}

/// The model after a run of host events, in order.
pub open spec fn run(m: InputModel, hs: Seq<HostEvent>) -> InputModel
    decreases hs.len(),
{
    if hs.len() == 0 {
        m
    } else {
        update_model(run(m, hs.drop_last()), hs.last())
    }
}

/// The model of a fresh reducer.
pub open spec fn initial_model() -> InputModel {
    InputModel {
        key_log: Seq::empty(),
        scan_log: Seq::empty(),
        mouse_log: Seq::empty(),
        keys_held: Set::empty(),
        codes_held: Set::empty(),
        buttons_held: Set::empty(),
        text: Seq::empty(),
        close_requested: false,
        destroyed: false,
    }
}

/// Input state of the current tick.
#[derive(Clone)]
pub struct CurrentInput {
    mouse_actions: Vec<MouseAction>,
    key_actions: Vec<KeyAction>,
    scancode_actions: Vec<ScanCodeAction>,
    key_held: HeldSet<Key>,
    scancode_held: HeldSet<KeyCode>,
    mouse_held: HeldSet<MouseButton>,
    text: Vec<TextChar>,
    close_requested: bool,
    destroyed: bool,
}

impl View for CurrentInput {
    type V = InputModel;

    closed spec fn view(&self) -> InputModel {
        InputModel {
            key_log: self.key_actions@.map_values(|a: KeyAction| a@),
            scan_log: self.scancode_actions@.map_values(|a: ScanCodeAction| a@),
            mouse_log: self.mouse_actions@.map_values(|a: MouseAction| a@),
            keys_held: self.key_held@,
            codes_held: self.scancode_held@,
            buttons_held: self.mouse_held@,
            text: self.text@,
            close_requested: self.close_requested,
            destroyed: self.destroyed,
        }
    }
}

impl CurrentInput {
    pub fn new() -> (r: CurrentInput)
        ensures
            r@ == initial_model(),
    {
        let r = CurrentInput {
            mouse_actions: Vec::new(),
            key_actions: Vec::new(),
            scancode_actions: Vec::new(),
            key_held: HeldSet::new(),
            scancode_held: HeldSet::new(),
            mouse_held: HeldSet::new(),
            text: Vec::new(),
            close_requested: false,
            destroyed: false,
        };
        assert(r@.key_log =~= Seq::empty());
        assert(r@.scan_log =~= Seq::empty());
        assert(r@.mouse_log =~= Seq::empty());
        r
    }

    /// Closes the tick.
    pub fn step(&mut self)
        ensures
            final(self)@ == step_model(old(self)@),
    {
        self.mouse_actions.clear();
        self.key_actions.clear();
        self.scancode_actions.clear();
        self.text.clear();
        self.close_requested = false;
        self.destroyed = false;
        assert(self@.key_log =~= Seq::empty());
        assert(self@.scan_log =~= Seq::empty());
        assert(self@.mouse_log =~= Seq::empty());
    }

    /// Folds one raw event into the state of the current tick.
    pub fn handle_event(&mut self, event: &InputEvent)
        ensures
            final(self)@ == ingest_model(old(self)@, *event),
    {
        match event {
            InputEvent::KeyboardInput { logical_key, physical_key, pressed } => {
                if *pressed {
                    if !self.key_held.contains(logical_key) {
                        self.key_actions.push(KeyAction::Pressed(logical_key.duplicate()));
                    }
                    self.key_actions.push(KeyAction::PressedOs(logical_key.duplicate()));
                    self.key_held.insert(logical_key);
                    if let Key::Backspace = logical_key {
                        self.text.push(TextChar::Back);
                    }
                    if !self.scancode_held.contains(physical_key) {
                        self.scancode_actions.push(ScanCodeAction::Pressed(*physical_key));
                    }
                    self.scancode_actions.push(ScanCodeAction::PressedOs(*physical_key));
                    self.scancode_held.insert(physical_key);
                    assert(self@.key_log =~= old(self)@.key_log + press_entries(
                        old(self)@.keys_held,
                        logical_key@,
                    ));
                    assert(self@.scan_log =~= old(self)@.scan_log + press_entries(
                        old(self)@.codes_held,
                        *physical_key,
                    ));
                } else {
                    self.key_held.remove(logical_key);
                    self.key_actions.push(KeyAction::Released(logical_key.duplicate()));
                    self.scancode_held.remove(physical_key);
                    self.scancode_actions.push(ScanCodeAction::Released(*physical_key));
                    assert(self@.key_log =~= old(self)@.key_log.push(
                        (ActionKind::Released, logical_key@),
                    ));
                    assert(self@.scan_log =~= old(self)@.scan_log.push(
                        (ActionKind::Released, *physical_key),
                    ));
                }
            },
            InputEvent::ReceivedCharacter(c) => {
                if *c != '\u{8}' && *c != '\r' && *c != '\n' {
                    self.text.push(TextChar::Char(*c));
                }
            },
            InputEvent::MouseInput { button, pressed } => {
                if *pressed {
                    self.mouse_held.insert(button);
                    self.mouse_actions.push(MouseAction::Pressed(*button));
                    assert(self@.mouse_log =~= old(self)@.mouse_log.push(
                        (ActionKind::Pressed, *button),
                    ));
                } else {
                    self.mouse_held.remove(button);
                    self.mouse_actions.push(MouseAction::Released(*button));
                    assert(self@.mouse_log =~= old(self)@.mouse_log.push(
                        (ActionKind::Released, *button),
                    ));
                }
            },
            InputEvent::CloseRequested => {
                self.close_requested = true;
            },
            InputEvent::Destroyed => {
                self.destroyed = true;
            },
            InputEvent::Other => {},
        }
    }
}


impl CurrentInput {
    /// Host-facing entry: a new tick closes the previous one, a raw event is
    /// folded in, and the end of the tick is reported as `true` (state ready to
    /// query) without changing anything.
    pub fn update(&mut self, event: &HostEvent) -> (ready: bool)
        ensures
            ready == (*event is TickComplete),
            final(self)@ == update_model(old(self)@, *event),
    {
        match event {
            HostEvent::NewTick => {
                self.step();
                false
            },
            HostEvent::Input(e) => {
                self.handle_event(e);
                false
            },
            HostEvent::TickComplete => true,
        }
    }

    /// The key went down from up during this tick.
    pub fn key_pressed(&self, k: &Key) -> (r: bool)
        ensures
            r == self@.key_log.contains((ActionKind::Pressed, k@)),
    {
        find_key(&self.key_actions, ActionKind::Pressed, k)
    }

    /// A press of the key, initial or repeated, arrived during this tick.
    pub fn key_pressed_os(&self, k: &Key) -> (r: bool)
        ensures
            r == self@.key_log.contains((ActionKind::PressedOs, k@)),
    {
        find_key(&self.key_actions, ActionKind::PressedOs, k)
    }

    /// The key was released during this tick.
    pub fn key_released(&self, k: &Key) -> (r: bool)
        ensures
            r == self@.key_log.contains((ActionKind::Released, k@)),
    {
        find_key(&self.key_actions, ActionKind::Released, k)
    }

    /// The key is down now.
    pub fn key_held(&self, k: &Key) -> (r: bool)
        ensures
            r == self@.keys_held.contains(k@),
    {
        self.key_held.contains(k)
    }

    pub fn key_pressed_scancode(&self, c: KeyCode) -> (r: bool)
        ensures
            r == self@.scan_log.contains((ActionKind::Pressed, c)),
    {
        find_code(&self.scancode_actions, ActionKind::Pressed, c)
    }

    pub fn key_pressed_os_scancode(&self, c: KeyCode) -> (r: bool)
        ensures
            r == self@.scan_log.contains((ActionKind::PressedOs, c)),
    {
        find_code(&self.scancode_actions, ActionKind::PressedOs, c)
    }

    pub fn key_released_scancode(&self, c: KeyCode) -> (r: bool)
        ensures
            r == self@.scan_log.contains((ActionKind::Released, c)),
    {
        find_code(&self.scancode_actions, ActionKind::Released, c)
    }

    pub fn key_held_scancode(&self, c: KeyCode) -> (r: bool)
        ensures
            r == self@.codes_held.contains(c),
    {
        self.scancode_held.contains(&c)
    }

    pub fn mouse_pressed(&self, b: MouseButton) -> (r: bool)
        ensures
            r == self@.mouse_log.contains((ActionKind::Pressed, b)),
    {
        find_button(&self.mouse_actions, ActionKind::Pressed, b)
    }

    pub fn mouse_released(&self, b: MouseButton) -> (r: bool)
        ensures
            r == self@.mouse_log.contains((ActionKind::Released, b)),
    {
        find_button(&self.mouse_actions, ActionKind::Released, b)
    }

    pub fn mouse_held(&self, b: MouseButton) -> (r: bool)
        ensures
            r == self@.buttons_held.contains(b),
    {
        self.mouse_held.contains(&b)
    }

    /// Characters and backspaces of this tick, in arrival order.
    pub fn text(&self) -> (r: Vec<TextChar>)
        ensures
            r@ == self@.text,
    {
        self.text.clone()
    }

    pub fn close_requested(&self) -> (r: bool)
        ensures
            r == self@.close_requested,
    {
        self.close_requested
    }

    pub fn destroyed(&self) -> (r: bool)
        ensures
            r == self@.destroyed,
    {
        self.destroyed
    }

    /// This tick's key log.
    pub fn key_actions(&self) -> (r: &Vec<KeyAction>)
        ensures
            r@.map_values(|a: KeyAction| a@) == self@.key_log,
    {
        &self.key_actions
    }

    /// This tick's scan code log.
    pub fn scancode_actions(&self) -> (r: &Vec<ScanCodeAction>)
        ensures
            r@.map_values(|a: ScanCodeAction| a@) == self@.scan_log,
    {
        &self.scancode_actions
    }

    /// This tick's mouse button log.
    pub fn mouse_actions(&self) -> (r: &Vec<MouseAction>)
        ensures
            r@.map_values(|a: MouseAction| a@) == self@.mouse_log,
    {
        &self.mouse_actions
    }
}

fn find_key(log: &Vec<KeyAction>, kind: ActionKind, k: &Key) -> (r: bool)
    ensures
        r == log@.map_values(|a: KeyAction| a@).contains((kind, k@)),
{
    let ghost view = log@.map_values(|a: KeyAction| a@);
    let mut i: usize = 0;
    while i < log.len()
        invariant
            0 <= i <= log@.len(),
            view == log@.map_values(|a: KeyAction| a@),
            forall|j: int| 0 <= j < i ==> view[j] != (kind, k@),
        decreases log@.len() - i,
    {
        let hit = match &log[i] {
            KeyAction::Pressed(x) => kind == ActionKind::Pressed && x.same(k),
            KeyAction::PressedOs(x) => kind == ActionKind::PressedOs && x.same(k),
            KeyAction::Released(x) => kind == ActionKind::Released && x.same(k),
        };
        if hit {
            assert(view[i as int] == (kind, k@));
            return true;
        }
        i += 1;
    }
    false
}

fn find_code(log: &Vec<ScanCodeAction>, kind: ActionKind, c: KeyCode) -> (r: bool)
    ensures
        r == log@.map_values(|a: ScanCodeAction| a@).contains((kind, c)),
{
    let ghost view = log@.map_values(|a: ScanCodeAction| a@);
    let mut i: usize = 0;
    while i < log.len()
        invariant
            0 <= i <= log@.len(),
            view == log@.map_values(|a: ScanCodeAction| a@),
            forall|j: int| 0 <= j < i ==> view[j] != (kind, c),
        decreases log@.len() - i,
    {
        let hit = match log[i] {
            ScanCodeAction::Pressed(x) => kind == ActionKind::Pressed && x == c,
            ScanCodeAction::PressedOs(x) => kind == ActionKind::PressedOs && x == c,
            ScanCodeAction::Released(x) => kind == ActionKind::Released && x == c,
        };
        if hit {
            assert(view[i as int] == (kind, c));
            return true;
        }
        i += 1;
    }
    false
}

fn find_button(log: &Vec<MouseAction>, kind: ActionKind, b: MouseButton) -> (r: bool)
    ensures
        r == log@.map_values(|a: MouseAction| a@).contains((kind, b)),
{
    let ghost view = log@.map_values(|a: MouseAction| a@);
    let mut i: usize = 0;
    while i < log.len()
        invariant
            0 <= i <= log@.len(),
            view == log@.map_values(|a: MouseAction| a@),
            forall|j: int| 0 <= j < i ==> view[j] != (kind, b),
        decreases log@.len() - i,
    {
        let hit = match log[i] {
            MouseAction::Pressed(x) => kind == ActionKind::Pressed && x == b,
            MouseAction::Released(x) => kind == ActionKind::Released && x == b,
        };
        if hit {
            assert(view[i as int] == (kind, b));
            return true;
        }
        i += 1;
    }
    false
}

} // verus!
