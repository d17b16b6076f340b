//! The closed error taxonomy: one type per fallible operation category.
//!
//! Every fallible native operation reports through an integer return code.
//! Each type here comes with one pure translation function from that code to
//! success or a typed failure; every code that is not a recognized failure
//! sentinel counts as success. No native integer code escapes to a caller.

use vstd::prelude::*;

use crate::native::PI_BAD_DATABITS;
use crate::native::PI_BAD_GPIO;
use crate::native::PI_BAD_MODE;
use crate::native::PI_BAD_SER_OFFSET;
use crate::native::PI_BAD_STOPBITS;
use crate::native::PI_BAD_USER_GPIO;
use crate::native::PI_BAD_WAVE_BAUD;
use crate::native::PI_BAD_WAVE_ID;
use crate::native::PI_BAD_WAVE_MODE;
use crate::native::PI_EMPTY_WAVEFORM;
use crate::native::PI_NO_WAVEFORM_ID;
use crate::native::PI_TOO_MANY_CBS;
use crate::native::PI_TOO_MANY_CHARS;
use crate::native::PI_TOO_MANY_OOL;
use crate::native::PI_TOO_MANY_PULSES;

verus! {

/// Failure of an initialization attempt.
#[derive(Copy, Clone, Debug, PartialEq, Eq, Structural)]
pub enum Init {
    /// The native initialization entry point reported failure.
    PiGpioFailed,
    /// The process-wide permit was already taken by an earlier attempt.
    AlreadyInitialized,
}

/// The staged pulse sequence is too long for the native library.
#[derive(Copy, Clone, Debug, PartialEq, Eq, Structural)]
pub struct TooManyPulses;

impl TooManyPulses {
    /// What translating an add-pulses return code yields.
    pub open spec fn spec_from_return_code(code: i32) -> Result<(), TooManyPulses> {
        if code == PI_TOO_MANY_PULSES {
            Err(TooManyPulses)
        } else {
            Ok(())
        }
    }

    /// Translate the native return code of the add-pulses entry point.
    pub fn from_return_code(code: i32) -> (r: Result<(), TooManyPulses>)
        ensures
            r == Self::spec_from_return_code(code),
    {
        if code == PI_TOO_MANY_PULSES {
            Err(TooManyPulses)
        } else {
            Ok(())
        }
    }
}

/// Failure of staging serial data into the waveform buffer.
#[derive(Copy, Clone, Debug, PartialEq, Eq, Structural)]
pub enum BadSerial {
    /// The pin index is not one a user may drive.
    InvalidPin,
    /// The baud rate is outside the supported range.
    InvalidBaud,
    /// The data-bit count is outside the supported range.
    InvalidDataBits,
    /// The stop-bit count is outside the supported range.
    InvalidStopBits,
    /// The byte sequence is too long.
    TooManyBytes,
    /// The start offset is outside the supported range.
    InvalidOffset,
    /// The staging buffer cannot take the resulting pulses.
    TooManyPulses,
}

impl BadSerial {
    /// What translating an add-serial return code yields.
    pub open spec fn spec_from_return_code(code: i32) -> Result<(), BadSerial> {
        if code == PI_BAD_USER_GPIO {
            Err(BadSerial::InvalidPin)
        } else if code == PI_BAD_WAVE_BAUD {
            Err(BadSerial::InvalidBaud)
        } else if code == PI_BAD_DATABITS {
            Err(BadSerial::InvalidDataBits)
        } else if code == PI_BAD_STOPBITS {
            Err(BadSerial::InvalidStopBits)
        } else if code == PI_TOO_MANY_CHARS {
            Err(BadSerial::TooManyBytes)
        } else if code == PI_BAD_SER_OFFSET {
            Err(BadSerial::InvalidOffset)
        } else if code == PI_TOO_MANY_PULSES {
            Err(BadSerial::TooManyPulses)
        } else {
            Ok(())
        }
    }

    /// Translate the native return code of the add-serial entry point.
    pub fn from_return_code(code: i32) -> (r: Result<(), BadSerial>)
        ensures
            r == Self::spec_from_return_code(code),
    {
        if code == PI_BAD_USER_GPIO {
            Err(BadSerial::InvalidPin)
        } else if code == PI_BAD_WAVE_BAUD {
            Err(BadSerial::InvalidBaud)
        } else if code == PI_BAD_DATABITS {
            Err(BadSerial::InvalidDataBits)
        } else if code == PI_BAD_STOPBITS {
            Err(BadSerial::InvalidStopBits)
        } else if code == PI_TOO_MANY_CHARS {
            Err(BadSerial::TooManyBytes)
        } else if code == PI_BAD_SER_OFFSET {
            Err(BadSerial::InvalidOffset)
        } else if code == PI_TOO_MANY_PULSES {
            Err(BadSerial::TooManyPulses)
        } else {
            Ok(())
        }
    }
}

impl From<TooManyPulses> for BadSerial {
    /// A local pulse-count failure reported through the serial taxonomy.
    fn from(e: TooManyPulses) -> (r: Self) {
        BadSerial::TooManyPulses
    }
}

impl vstd::std_specs::convert::FromSpecImpl<TooManyPulses> for BadSerial {
    open spec fn obeys_from_spec() -> bool {
        true
    }

    open spec fn from_spec(e: TooManyPulses) -> Self {
        BadSerial::TooManyPulses
    }
}

/// Failure of compiling the staged data into a waveform.
#[derive(Copy, Clone, Debug, PartialEq, Eq, Structural)]
pub enum WaveCreate {
    /// Nothing was staged before compilation was requested.
    EmptyWaveform,
    /// The waveform would need too many control blocks.
    TooManyCbs,
    /// The waveform would need too many on-off-level entries.
    TooManyOol,
    /// No waveform identifier is left to assign.
    NoWaveformId,
}

impl WaveCreate {
    /// What translating a compile return code yields: the new waveform's
    /// native identifier, or a typed failure.
    pub open spec fn spec_from_return_code(code: i32) -> Result<i32, WaveCreate> {
        if code == PI_EMPTY_WAVEFORM {
            Err(WaveCreate::EmptyWaveform)
        } else if code == PI_TOO_MANY_CBS {
            Err(WaveCreate::TooManyCbs)
        } else if code == PI_TOO_MANY_OOL {
            Err(WaveCreate::TooManyOol)
        } else if code == PI_NO_WAVEFORM_ID {
            Err(WaveCreate::NoWaveformId)
        } else {
            Ok(code)
        }
    }

    /// Translate the native return code of the waveform-compile entry point.
    pub fn from_return_code(code: i32) -> (r: Result<i32, WaveCreate>)
        ensures
            r == Self::spec_from_return_code(code),
    {
        if code == PI_EMPTY_WAVEFORM {
            Err(WaveCreate::EmptyWaveform)
        } else if code == PI_TOO_MANY_CBS {
            Err(WaveCreate::TooManyCbs)
        } else if code == PI_TOO_MANY_OOL {
            Err(WaveCreate::TooManyOol)
        } else if code == PI_NO_WAVEFORM_ID {
            Err(WaveCreate::NoWaveformId)
        } else {
            Ok(code)
        }
    }
}

/// Failure of starting a waveform transmission.
#[derive(Copy, Clone, Debug, PartialEq, Eq, Structural)]
pub enum WaveSend {
    /// The identifier names no live waveform.
    InvalidId,
    /// The transmission-mode code is not one the native library knows.
    InvalidMode,
}

impl WaveSend {
    /// What translating a transmit return code yields.
    pub open spec fn spec_from_return_code(code: i32) -> Result<(), WaveSend> {
        if code == PI_BAD_WAVE_ID {
            Err(WaveSend::InvalidId)
        } else if code == PI_BAD_WAVE_MODE {
            Err(WaveSend::InvalidMode)
        } else {
            Ok(())
        }
    }

    /// Translate the native return code of the waveform-transmit entry point.
    pub fn from_return_code(code: i32) -> (r: Result<(), WaveSend>)
        ensures
            r == Self::spec_from_return_code(code),
    {
        if code == PI_BAD_WAVE_ID {
            Err(WaveSend::InvalidId)
        } else if code == PI_BAD_WAVE_MODE {
            Err(WaveSend::InvalidMode)
        } else {
            Ok(())
        }
    }
}

/// Failure of setting a pin's mode.
#[derive(Copy, Clone, Debug, PartialEq, Eq, Structural)]
pub enum SetMode {
    /// The pin index names no existing pin.
    InvalidPin,
    /// The mode code is not one the native library knows.
    InvalidMode,
}

impl SetMode {
    /// What translating a pin-mode return code yields.
    pub open spec fn spec_from_return_code(code: i32) -> Result<(), SetMode> {
        if code == PI_BAD_GPIO {
            Err(SetMode::InvalidPin)
        } else if code == PI_BAD_MODE {
            Err(SetMode::InvalidMode)
        } else {
            Ok(())
        }
    }

    /// Translate the native return code of the pin-mode entry point.
    pub fn from_return_code(code: i32) -> (r: Result<(), SetMode>)
        ensures
            r == Self::spec_from_return_code(code),
    {
        if code == PI_BAD_GPIO {
            Err(SetMode::InvalidPin)
        } else if code == PI_BAD_MODE {
            Err(SetMode::InvalidMode)
        } else {
            Ok(())
        }
    }
}

} // verus!
