//! Return and mode codes of the native pigpio library.
//!
//! The native library communicates failures through reserved integer return
//! values (sentinels) and expects fixed integer codes for pin modes and
//! transmission modes. All values here are constants of the native library's
//! public interface and must be matched exactly; the translation functions in
//! [`crate::error`] are stated over them.

use vstd::prelude::*;

verus! {

/// The initialization entry point failed.
pub const PI_INIT_FAILED: i32 = -1;

/// A pin index outside the range a user may drive.
pub const PI_BAD_USER_GPIO: i32 = -2;

/// A pin index outside the range of existing pins.
pub const PI_BAD_GPIO: i32 = -3;

/// A pin-mode code the native library does not know.
pub const PI_BAD_MODE: i32 = -4;

/// A transmission-mode code the native library does not know.
pub const PI_BAD_WAVE_MODE: i32 = -33;

/// A serial baud rate outside the supported range.
pub const PI_BAD_WAVE_BAUD: i32 = -35;

/// The staging buffer cannot take that many pulses.
pub const PI_TOO_MANY_PULSES: i32 = -36;

/// The staging buffer cannot take that many serial bytes.
pub const PI_TOO_MANY_CHARS: i32 = -37;

/// A serial start offset outside the supported range.
pub const PI_BAD_SER_OFFSET: i32 = -49;

/// A waveform identifier that names no live waveform.
pub const PI_BAD_WAVE_ID: i32 = -66;

/// Compiling the waveform would need too many control blocks.
pub const PI_TOO_MANY_CBS: i32 = -67;

/// Compiling the waveform would need too many on-off-level entries.
pub const PI_TOO_MANY_OOL: i32 = -68;

/// Compilation was requested with an empty staging buffer.
pub const PI_EMPTY_WAVEFORM: i32 = -69;

/// No waveform identifier is left to assign.
pub const PI_NO_WAVEFORM_ID: i32 = -70;

/// A serial data-bit count outside the supported range.
pub const PI_BAD_DATABITS: i32 = -101;

/// A serial stop-bit count outside the supported range.
pub const PI_BAD_STOPBITS: i32 = -102;

/// Transmit once, not synchronized with a running waveform.
pub const PI_WAVE_MODE_ONE_SHOT: u32 = 0;

/// Transmit repeatedly, not synchronized with a running waveform.
pub const PI_WAVE_MODE_REPEAT: u32 = 1;

/// Transmit once, synchronized after the running waveform ends.
pub const PI_WAVE_MODE_ONE_SHOT_SYNC: u32 = 2;

/// Transmit repeatedly, synchronized after the running waveform ends.
pub const PI_WAVE_MODE_REPEAT_SYNC: u32 = 3;

} // verus!
