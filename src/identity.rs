//! Key, scan code and mouse button identities, compared through their views.

use vstd::prelude::*;

verus! {

/// Something that can index a held table: equality and copying go by the view.
pub trait Identity: Sized + View {
    fn same(&self, other: &Self) -> (r: bool)
        ensures
            r == (self@ == other@),
    ;

    fn duplicate(&self) -> (r: Self)
        ensures
            r@ == self@,
    ;
}

/// A layout-dependent (logical) key.
///
/// `Named` holds the name of a named key other than backspace (`"Enter"`);
/// backspace has a variant of its own because the text buffer reacts to it.
#[derive(Clone, Debug)]
pub enum Key {
    Backspace,
    Named(String),
    Character(String),
    Unidentified,
    Dead(Option<char>),
}

/// What a `Key` denotes.
pub enum KeyView {
    Backspace,
    Named(Seq<char>),
    Character(Seq<char>),
    Unidentified,
    Dead(Option<char>),
}

impl View for Key {
    type V = KeyView;

    open spec fn view(&self) -> KeyView {
        match self {
            Key::Backspace => KeyView::Backspace,
            Key::Named(n) => KeyView::Named(n@),
            Key::Character(s) => KeyView::Character(s@),
            Key::Unidentified => KeyView::Unidentified,
            Key::Dead(c) => KeyView::Dead(*c),
        }
    }
}

impl Identity for Key {
    fn same(&self, other: &Self) -> (r: bool) {
        match (self, other) {
            (Key::Backspace, Key::Backspace) => true,
            (Key::Named(a), Key::Named(b)) => *a == *b,
            (Key::Character(a), Key::Character(b)) => *a == *b,
            (Key::Unidentified, Key::Unidentified) => true,
            (Key::Dead(a), Key::Dead(b)) => match (a, b) {
                (Some(x), Some(y)) => *x == *y,
                (None, None) => true,
                _ => false,
            },
            _ => false,
        }
    }

    fn duplicate(&self) -> (r: Self) {
        match self {
            Key::Backspace => Key::Backspace,
            Key::Named(n) => Key::Named(n.clone()),
            Key::Character(s) => Key::Character(s.clone()),
            Key::Unidentified => Key::Unidentified,
            Key::Dead(c) => Key::Dead(*c),
        }
    }
}

/// A layout-independent (physical) key: the platform's scan code, or none where
/// the platform gives no scan code.
#[derive(Clone, Copy, Debug, PartialEq, Eq, Structural)]
pub enum KeyCode {
    Scancode(u32),
    Unidentified,
}

impl View for KeyCode {
    type V = KeyCode;

    open spec fn view(&self) -> KeyCode {
        *self
    }
}

impl Identity for KeyCode {
    fn same(&self, other: &Self) -> (r: bool) {
        *self == *other
    }

    fn duplicate(&self) -> (r: Self) {
        *self
    }
}

/// A pointer button.
#[derive(Clone, Copy, Debug, PartialEq, Eq, Structural)]
pub enum MouseButton {
    Left,
    Right,
    Middle,
    Back,
    Forward,
    Other(u16),
}

impl View for MouseButton {
    type V = MouseButton;

    open spec fn view(&self) -> MouseButton {
        *self
    }
}

impl Identity for MouseButton {
    fn same(&self, other: &Self) -> (r: bool) {
        *self == *other
    }

    fn duplicate(&self) -> (r: Self) {
        *self
    }
}

} // verus!
