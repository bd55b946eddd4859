use vstd::prelude::*;

verus! {

/// The parts of the terminal settings that reading a single key changes: the
/// local and input mode flags and the `VMIN`/`VTIME` control characters.
#[derive(Clone, Copy, Debug, PartialEq, Eq, Structural)]
pub struct TermSettings {
    pub lflag: u32,
    pub iflag: u32,
    pub vmin: u8,
    pub vtime: u8,
}

/// The mode flags that reading a single key switches: local flags switched
/// off (canonical mode, echo, signals), input flags switched on (ignore
/// break) and input flags switched off (newline translation, flow control).
#[derive(Clone, Copy, Debug, PartialEq, Eq, Structural)]
pub struct RawKeyFlags {
    pub lflag_off: u32,
    pub iflag_on: u32,
    pub iflag_off: u32,
}

/// The settings under which one key is read: `current` with the switched
/// flags applied, waiting for exactly one byte and with no timeout.
pub open spec fn spec_raw_key_settings(current: TermSettings, flags: RawKeyFlags) -> TermSettings {
    TermSettings {
        lflag: current.lflag & !flags.lflag_off,
        iflag: (current.iflag | flags.iflag_on) & !flags.iflag_off,
        vmin: 1,
        vtime: 0,
    }
}

/// Computes the settings under which one key is read.
pub fn raw_key_settings(current: TermSettings, flags: RawKeyFlags) -> (r: TermSettings)
    ensures
        r == spec_raw_key_settings(current, flags),
{
    TermSettings {
        lflag: current.lflag & !flags.lflag_off,
        iflag: (current.iflag | flags.iflag_on) & !flags.iflag_off,
        vmin: 1,
        vtime: 0,
    }
}

/// Applying the key-reading settings twice gives what applying them once does,
/// and every flag switched off is off in them.
pub proof fn lemma_raw_key_settings_idempotent(current: TermSettings, flags: RawKeyFlags)
    ensures
        spec_raw_key_settings(spec_raw_key_settings(current, flags), flags)
            == spec_raw_key_settings(current, flags),
        spec_raw_key_settings(current, flags).lflag & flags.lflag_off == 0,
        spec_raw_key_settings(current, flags).iflag & flags.iflag_off == 0,
{
    let l = current.lflag;
    let i = current.iflag;
    let lo = flags.lflag_off;
    let ion = flags.iflag_on;
    let ioff = flags.iflag_off;
    assert((l & !lo) & !lo == l & !lo) by (bit_vector);
    assert((((i | ion) & !ioff) | ion) & !ioff == (i | ion) & !ioff) by (bit_vector);
    assert((l & !lo) & lo == 0) by (bit_vector);
    assert(((i | ion) & !ioff) & ioff == 0) by (bit_vector);
}

/// The key that a byte read from the terminal stands for: the character with
/// the byte's value as its code point.
pub fn key_from_byte(b: u8) -> (c: char)
    ensures
        c as u32 == b as u32,
{
    b as char
}

} // verus!
