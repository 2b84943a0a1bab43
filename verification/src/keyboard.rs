use vstd::prelude::*;

verus! {

#[verifier::external_type_specification]
#[verifier::external_body]
pub struct ExKeyEvent(pc_keyboard::KeyEvent);

/// What feeding one scancode byte to a decoder in a given state yields:
/// the decoder's next state, and the key event the byte completes, if it
/// completes one.  The decoding tables are fixed, so the result is a
/// function of the state and the byte alone.
pub uninterp spec fn add_byte_of(decoder: Decoder, byte: u8) -> (Decoder, Option<
    pc_keyboard::KeyEvent,
>);

/// What processing one key event against a decoder's modifier state
/// yields: the decoder's next state, and the decoded key, if the event
/// decodes to one (already converted to this crate's key model).  The
/// layout tables are fixed, so the result is a function of the state and
/// the event alone.
pub uninterp spec fn process_of(decoder: Decoder, event: pc_keyboard::KeyEvent) -> (Decoder, Option<
    KeyInput,
>);

/// The scancode-set-1, US-layout decoder state used for all keyboard input.
/// The inner `pc_keyboard::Keyboard` is generic over traits of its own
/// crate, which cannot be declared here, so the whole decoder is held
/// opaquely and reached only through the trusted functions below.
#[verifier::external_body]
pub struct Decoder {
    inner: pc_keyboard::Keyboard<pc_keyboard::layouts::Us104Key, pc_keyboard::ScancodeSet1>,
}

/// The raw, non-printing keys the input logic tells apart.  Every other raw
/// key is carried as its key-code number, for consumers that want it.
#[derive(Clone, Copy, PartialEq, Eq, Structural, Debug)]
pub enum RawInput {
    Backspace,
    ArrowLeft,
    ArrowRight,
    ArrowUp,
    ArrowDown,
    Other(u16),
}

/// A decoded key event, as plain values: either a printable (or control)
/// character, or a raw non-character key.
#[derive(Clone, Copy, PartialEq, Eq, Structural, Debug)]
pub enum KeyInput {
    Char(char),
    Raw(RawInput),
}

/// Relies on pc_keyboard::Keyboard::new: a fresh decoder for scancode set 1
/// with the US 104-key layout, with control keys passed through unchanged.
#[verifier::external_body]
pub fn decoder_new() -> Decoder {
    Decoder {
        inner: pc_keyboard::Keyboard::new(
            pc_keyboard::layouts::Us104Key,
            pc_keyboard::ScancodeSet1,
            pc_keyboard::HandleControl::Ignore,
        ),
    }
}

/// Relies on pc_keyboard::Keyboard::add_byte: feeds one scancode byte to the
/// decoder and yields a key event when the byte completes one.  A byte that
/// yields no event, or that the decoder rejects, yields nothing.  The
/// outcome depends on the decoder's internal protocol state, so it is only
/// named: the same state and byte always give the same result.
#[verifier::external_body]
pub fn decoder_add_byte(decoder: &mut Decoder, byte: u8) -> (r: Option<pc_keyboard::KeyEvent>)
    ensures
        (*final(decoder), r) == add_byte_of(*old(decoder), byte),
{
    match decoder.inner.add_byte(byte) {
        Ok(event) => event,
        Err(_) => None,
    }
}

/// Relies on pc_keyboard::Keyboard::process_keyevent: applies the decoder's
/// modifier state to a key event and yields the decoded key, if the event
/// decodes to one.  The outcome depends on the decoder's internal modifier
/// state, so it is only named: the same state and event always give the
/// same result.
#[verifier::external_body]
pub fn decoder_process_event(decoder: &mut Decoder, event: pc_keyboard::KeyEvent) -> (r: Option<
    KeyInput,
>)
    ensures
        (*final(decoder), r) == process_of(*old(decoder), event),
{
    match decoder.inner.process_keyevent(event) {
        Some(pc_keyboard::DecodedKey::Unicode(c)) => Some(KeyInput::Char(c)),
        Some(pc_keyboard::DecodedKey::RawKey(code)) => Some(KeyInput::Raw(match code {
            pc_keyboard::KeyCode::Backspace => RawInput::Backspace,
            pc_keyboard::KeyCode::ArrowLeft => RawInput::ArrowLeft,
            pc_keyboard::KeyCode::ArrowRight => RawInput::ArrowRight,
            pc_keyboard::KeyCode::ArrowUp => RawInput::ArrowUp,
            pc_keyboard::KeyCode::ArrowDown => RawInput::ArrowDown,
            other => RawInput::Other(other as u16),
        })),
        None => None,
    }
}

} // verus!
