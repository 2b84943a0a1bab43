use vstd::prelude::*;

use crate::keyboard::{KeyInput, RawInput};

verus! {

/// The current owner of decoded keyboard focus.  Exactly one value holds at
/// any time; it decides the routing of every key decoded after the change,
/// never of keys already in flight.
#[derive(Clone, Copy, PartialEq, Eq, Structural, Debug)]
pub enum InputTarget {
    Nobody,
    Terminal,
    Application,
    GraphicMode,
}

/// The dispatch decided for one decoded key.
#[derive(Clone, Copy, PartialEq, Eq, Structural, Debug)]
pub enum RouteAction {
    /// No consumer: the key is discarded.
    Discard,
    /// Forwarded to the graphics page-navigation handler; no default
    /// handling follows.
    ToGraphics(KeyInput),
    /// Forwarded verbatim to the installed application's input handler; no
    /// default handling follows.
    ToApplication(KeyInput),
    /// Newline in the terminal: submit the buffered line, and produce a
    /// synthesized prompt-redraw signal in place of echoing the newline.
    SubmitLine,
    /// Backspace in the terminal: delete the last buffered character; the
    /// key is consumed and not echoed further.
    EraseChar,
    /// Any other character in the terminal: append it to the line buffer
    /// and echo it.
    InsertEcho(char),
    /// A raw key in the terminal: hand it to the line editor (which reacts
    /// only to a raw backspace), with nothing echoed.
    InsertRaw(RawInput),
}

/// Where one decoded key goes, given the current focus owner.
pub open spec fn route_spec(target: InputTarget, key: KeyInput) -> RouteAction {
    match target {
        InputTarget::Nobody => RouteAction::Discard,
        InputTarget::GraphicMode => RouteAction::ToGraphics(key),
        InputTarget::Application => RouteAction::ToApplication(key),
        InputTarget::Terminal => match key {
            KeyInput::Char(c) => if c == '\n' {
                RouteAction::SubmitLine
            } else if c == '\u{08}' {
                RouteAction::EraseChar
            } else {
                RouteAction::InsertEcho(c)
            },
            KeyInput::Raw(raw) => RouteAction::InsertRaw(raw),
        },
    }
}

/// Whether an action is the routing of some decoded key under the given
/// focus owner.
pub open spec fn routed_under(action: RouteAction, target: InputTarget) -> bool {
    exists|k: KeyInput| action == route_spec(target, k)
}

/// Decide, for one decoded key, which downstream consumer receives it and
/// in what form.  The router only reads the current focus owner; it never
/// changes it.
pub fn route_key(target: InputTarget, key: KeyInput) -> (r: RouteAction)
    ensures
        r == route_spec(target, key),
{
    match target {
        InputTarget::Nobody => RouteAction::Discard,
        InputTarget::GraphicMode => RouteAction::ToGraphics(key),
        InputTarget::Application => RouteAction::ToApplication(key),
        InputTarget::Terminal => match key {
            KeyInput::Char(c) => if c == '\n' {
                RouteAction::SubmitLine
            } else if c == '\u{08}' {
                RouteAction::EraseChar
            } else {
                RouteAction::InsertEcho(c)
            },
            KeyInput::Raw(raw) => RouteAction::InsertRaw(raw),
        },
    }
}

} // verus!
