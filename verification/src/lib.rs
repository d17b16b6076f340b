//! Verified decision logic for a safe wrapper around the pigpio GPIO library.
//!
//! The native library works through integer return codes and process-wide
//! mutable state. This crate holds everything about the wrapper that can be
//! decided without touching the hardware: the translation of every native
//! return code into a closed error taxonomy, the process-wide initialization
//! guard, the local length checks that run before any native call, and the
//! lifecycle of a compiled waveform handle. A thin unverified shell makes the
//! actual native calls, feeds every return code into these functions, and
//! never interprets a code itself.

use vstd::prelude::*;

pub mod error;
pub mod native;

verus! {

/// Capability token proving that the native library was initialized.
///
/// A value of this type is only handed out by
/// [`LibraryInitState::finish_init`], after the single process-wide permit
/// was claimed and the native initialization entry point reported success.
/// The native library is not safe under concurrent calls, so the token may
/// be moved between threads of control but must not be used from two of them
/// at once; the shell around this crate documents that as a caller contract.
pub struct PiGpio {
    _private: (),
}

/// The process-wide initialization permit.
///
/// The native library may be initialized at most once per process. The shell
/// keeps a single value of this type behind an atomic or lock and drives it
/// through [`Self::try_claim`] and [`Self::finish_init`]; both transitions
/// are stated below, so the whole guard protocol is decided here.
pub enum LibraryInitState {
    /// No initialization attempt is under way and none has succeeded.
    Uninitialized,
    /// The permit is taken: an attempt is under way or has succeeded.
    Initialized,
}

impl LibraryInitState {
    /// The state a claim attempt leaves behind: the permit is always taken
    /// afterwards, whether this caller won it or an earlier one held it.
    pub open spec fn spec_claim_state(self) -> LibraryInitState {
        LibraryInitState::Initialized
    }

    /// What a claim attempt reports: the permit is won exactly when it was
    /// free.
    pub open spec fn spec_claim_result(self) -> Result<(), error::Init> {
        match self {
            LibraryInitState::Uninitialized => Ok(()),
            LibraryInitState::Initialized => Err(error::Init::AlreadyInitialized),
        }
    }

    /// The state after the native initialization entry point reported `code`:
    /// failure rolls the permit back so a later attempt may try again.
    pub open spec fn spec_finish_state(self, code: i32) -> LibraryInitState {
        if code == native::PI_INIT_FAILED {
            LibraryInitState::Uninitialized
        } else {
            LibraryInitState::Initialized
        }
    }

    /// A fresh permit: nothing is initialized when the process starts.
    pub fn new() -> (s: Self)
        ensures
            s is Uninitialized,
    {
        LibraryInitState::Uninitialized
    }

    /// Test-and-set half of an initialization attempt.
    ///
    /// Succeeds exactly when the permit was free, and takes it; reports
    /// `AlreadyInitialized` otherwise. Only after success may the native
    /// initialization entry point be invoked, and its return code must then
    /// be handed to [`Self::finish_init`]. The shell must run this transition
    /// under one atomic operation so that two callers cannot both win.
    pub fn try_claim(&mut self) -> (r: Result<(), error::Init>)
        ensures
            *final(self) == old(self).spec_claim_state(),
            r == old(self).spec_claim_result(),
    {
        match *self {
            LibraryInitState::Uninitialized => {
                *self = LibraryInitState::Initialized;
                Ok(())
            }
            LibraryInitState::Initialized => Err(error::Init::AlreadyInitialized),
        }
    }

    /// Settling half of an initialization attempt.
    ///
    /// Takes the return code of the native initialization entry point. On
    /// failure the permit is rolled back and no token exists; on any other
    /// code the permit stays taken and the capability token is handed out.
    pub fn finish_init(&mut self, code: i32) -> (r: Result<PiGpio, error::Init>)
        requires
            *old(self) is Initialized,
        ensures
            *final(self) == old(self).spec_finish_state(code),
            r is Ok <==> code != native::PI_INIT_FAILED,
            r matches Err(e) ==> e == error::Init::PiGpioFailed,
    {
        if code == native::PI_INIT_FAILED {
            *self = LibraryInitState::Uninitialized;
            Err(error::Init::PiGpioFailed)
        } else {
            Ok(PiGpio { _private: () })
        }
    }
}

/// Law: initialization is idempotent-protective. Once a claim has succeeded
/// and the native initialization reported success, every further claim in
/// the same process reports `AlreadyInitialized`: two sequential successful
/// initializations are impossible.
pub proof fn lemma_no_second_init(s: LibraryInitState, code: i32)
    requires
        s.spec_claim_result() is Ok,
        code != native::PI_INIT_FAILED,
    ensures
        s.spec_claim_state().spec_finish_state(code).spec_claim_result()
            == Err::<(), error::Init>(error::Init::AlreadyInitialized),
{
}

/// Law: a failed native initialization rolls the permit back, so a later
/// `try_claim` is allowed to attempt native initialization again.
pub proof fn lemma_retry_after_native_failure(s: LibraryInitState)
    requires
        s.spec_claim_result() is Ok,
    ensures
        s.spec_claim_state().spec_finish_state(native::PI_INIT_FAILED).spec_claim_result()
            == Ok::<(), error::Init>(()),
{
}

/// Mode of a single pin.
///
/// Each symbolic mode maps to a fixed native integer code. The mapping is
/// not sequential; it is the one the native library defines and must be
/// preserved exactly.
#[derive(Copy, Clone, Eq, PartialEq, Hash, Structural)]
pub enum PinMode {
    Input,
    Output,
    Alt0,
    Alt1,
    Alt2,
    Alt3,
    Alt4,
    Alt5,
}

impl PinMode {
    /// The native integer code of this mode.
    pub open spec fn spec_code(self) -> u32 {
        match self {
            PinMode::Input => 0,
            PinMode::Output => 1,
            PinMode::Alt0 => 4,
            PinMode::Alt1 => 5,
            PinMode::Alt2 => 6,
            PinMode::Alt3 => 7,
            PinMode::Alt4 => 3,
            PinMode::Alt5 => 2,
        }
    }

    /// The code to hand to the native pin-mode entry point.
    pub fn code(self) -> (r: u32)
        ensures
            r == self.spec_code(),
    {
        match self {
            PinMode::Input => 0,
            PinMode::Output => 1,
            PinMode::Alt0 => 4,
            PinMode::Alt1 => 5,
            PinMode::Alt2 => 6,
            PinMode::Alt3 => 7,
            PinMode::Alt4 => 3,
            PinMode::Alt5 => 2,
        }
    }
}

/// One timed pin transition: the pins to set, the pins to clear, and how
/// long to hold them, in microseconds.
///
/// The native library dictates this layout; the wrapper passes each pulse
/// through unchanged and never interprets the fields.
#[derive(Copy, Clone, Debug, PartialEq, Eq, Structural)]
pub struct Pulse {
    /// Bitmask of the pins to set high.
    pub gpio_on: u32,
    /// Bitmask of the pins to clear.
    pub gpio_off: u32,
    /// How long to hold the levels, in microseconds.
    pub us_delay: u32,
}

/// Transmission mode of a compiled waveform.
///
/// Both variants compile to the native library's synchronized codes. The
/// non-synchronized native variants can interleave unpredictably with later
/// waveform compilation, so they are deliberately not exposed.
#[derive(Copy, Clone, Debug, PartialEq, Eq, Structural)]
pub enum WaveMode {
    /// Transmit the waveform once.
    OneShot,
    /// Transmit the waveform repeatedly.
    Repeat,
}

impl WaveMode {
    /// The synchronized native code of this mode.
    pub open spec fn spec_sync(self) -> u32 {
        match self {
            WaveMode::OneShot => native::PI_WAVE_MODE_ONE_SHOT_SYNC,
            WaveMode::Repeat => native::PI_WAVE_MODE_REPEAT_SYNC,
        }
    }

    /// The code to hand to the native transmit entry point: always the
    /// synchronized variant.
    pub fn sync(self) -> (r: u32)
        ensures
            r == self.spec_sync(),
    {
        match self {
            WaveMode::OneShot => native::PI_WAVE_MODE_ONE_SHOT_SYNC,
            WaveMode::Repeat => native::PI_WAVE_MODE_REPEAT_SYNC,
        }
    }
}

/// Law: a transmission mode always compiles to one of the two synchronized
/// native codes, never to a non-synchronized one, and `Repeat` to the
/// repeat-synchronized code in particular.
pub proof fn lemma_sync_modes_only(m: WaveMode)
    ensures
        m.spec_sync() == native::PI_WAVE_MODE_ONE_SHOT_SYNC || m.spec_sync()
            == native::PI_WAVE_MODE_REPEAT_SYNC,
        m.spec_sync() != native::PI_WAVE_MODE_ONE_SHOT,
        m.spec_sync() != native::PI_WAVE_MODE_REPEAT,
        m is Repeat ==> m.spec_sync() == native::PI_WAVE_MODE_REPEAT_SYNC,
        m is OneShot ==> m.spec_sync() == native::PI_WAVE_MODE_ONE_SHOT_SYNC,
{
}

/// A compiled, transmittable waveform.
///
/// A live value owns exactly one native waveform identifier, handed out by
/// [`PiGpio::wave_create`] after the native compile entry point reported
/// success. Disposal through [`Self::dispose`] yields the identifier to
/// delete exactly once; after that the handle is released and yields
/// nothing, so the shell's end-of-scope release is a no-op on an already
/// disposed handle.
pub struct Wave {
    id: u32,
    live: bool,
}

impl Wave {
    /// The native waveform identifier this handle owns.
    pub closed spec fn spec_id(self) -> u32 {
        self.id
    }

    /// Whether the native waveform behind this handle is still to be
    /// released.
    pub closed spec fn spec_live(self) -> bool {
        self.live
    }

    /// What disposing this handle leaves behind and yields: the identifier,
    /// exactly once while live, and nothing afterwards.
    pub closed spec fn spec_dispose(self) -> (Wave, Option<u32>) {
        (
            Wave { id: self.id, live: false },
            if self.live {
                Some(self.id)
            } else {
                None
            },
        )
    }

    /// The identifier the native library knows this waveform by.
    pub fn id(&self) -> (r: u32)
        ensures
            r == self.spec_id(),
    {
        self.id
    }

    /// Whether this handle still owns its native waveform.
    pub fn is_live(&self) -> (r: bool)
        ensures
            r == self.spec_live(),
    {
        self.live
    }

    /// The arguments of a transmission request: the owned identifier and the
    /// synchronized code of `mode`. The shell hands exactly this pair to the
    /// native transmit entry point and feeds the returned code to
    /// [`error::WaveSend::from_return_code`].
    pub fn tx_request(&self, mode: WaveMode) -> (r: (u32, u32))
        requires
            self.spec_live(),
        ensures
            r.0 == self.spec_id(),
            r.1 == mode.spec_sync(),
    {
        (self.id, mode.sync())
    }

    /// Release the handle.
    ///
    /// Yields the identifier whose native waveform must now be deleted —
    /// exactly once per handle: a second call yields nothing. The shell
    /// calls the native delete entry point for each yielded identifier.
    pub fn dispose(&mut self) -> (r: Option<u32>)
        ensures
            (*final(self), r) == old(self).spec_dispose(),
    {
        if self.live {
            self.live = false;
            Some(self.id)
        } else {
            None
        }
    }
}

impl PiGpio {
    /// The arguments of a pin-mode request: the pin index widened and the
    /// native code of `mode`. The shell hands exactly this pair to the
    /// native pin-mode entry point and feeds the returned code to
    /// [`error::SetMode::from_return_code`].
    pub fn set_mode_request(&self, pin: u8, mode: PinMode) -> (r: (u32, u32))
        ensures
            r.0 == pin as u32,
            r.1 == mode.spec_code(),
    {
        (pin as u32, mode.code())
    }

    /// Local check that runs before any pulses reach the native library.
    ///
    /// The native add-pulses entry point takes a 32-bit count. A sequence
    /// whose length fits yields that length as the count to forward; a
    /// longer one is rejected locally with `TooManyPulses`, and the shell
    /// then makes no native call at all.
    pub fn wave_add_generic_count(&self, pulses: &[Pulse]) -> (r: Result<
        u32,
        error::TooManyPulses,
    >)
        ensures
            pulses@.len() <= u32::MAX ==> r == Ok::<u32, error::TooManyPulses>(
                pulses@.len() as u32,
            ),
            pulses@.len() > u32::MAX ==> r == Err::<u32, error::TooManyPulses>(
                error::TooManyPulses,
            ),
    {
        let n: usize = pulses.len();
        if n <= u32::MAX as usize {
            Ok(n as u32)
        } else {
            Err(error::TooManyPulses)
        }
    }

    /// Local check that runs before any serial bytes reach the native
    /// library.
    ///
    /// The native add-serial entry point takes a 32-bit byte count. A
    /// sequence whose length fits yields that length as the count to
    /// forward; a longer one is rejected locally with `TooManyBytes`, and
    /// the shell then makes no native call at all. The bytes themselves are
    /// passed through unmodified; when the data-bit count exceeds 8, the
    /// caller has already encoded each symbol into two consecutive bytes in
    /// the platform's byte order.
    pub fn wave_add_serial_count(&self, data: &[u8]) -> (r: Result<u32, error::BadSerial>)
        ensures
            data@.len() <= u32::MAX ==> r == Ok::<u32, error::BadSerial>(data@.len() as u32),
            data@.len() > u32::MAX ==> r == Err::<u32, error::BadSerial>(
                error::BadSerial::TooManyBytes,
            ),
    {
        let n: usize = data.len();
        if n <= u32::MAX as usize {
            Ok(n as u32)
        } else {
            Err(error::BadSerial::TooManyBytes)
        }
    }

    /// Outcome of a waveform compilation, decided from the return code of
    /// the native compile entry point.
    ///
    /// A failure sentinel yields its matching error and no handle, so no
    /// resource is ever owned for a failed compilation. Any other code is
    /// the new waveform's native identifier, wrapped in a live handle.
    pub fn wave_create(&self, code: i32) -> (r: Result<Wave, error::WaveCreate>)
        ensures
            r is Ok <==> error::WaveCreate::spec_from_return_code(code) is Ok,
            r matches Err(e) ==> error::WaveCreate::spec_from_return_code(code) == Err::<
                i32,
                error::WaveCreate,
            >(e),
            r matches Ok(w) ==> w.spec_live() && (code >= 0 ==> w.spec_id() == code),
    {
        match error::WaveCreate::from_return_code(code) {
            Ok(id) => Ok(Wave { id: #[verifier::truncate] (id as u32), live: true }),
            Err(e) => Err(e),
        }
    }

    /// Whether a transmission is in progress, decided from the return code
    /// of the native busy-query entry point: any nonzero code means busy.
    pub fn wave_tx_busy(&self, code: i32) -> (r: bool)
        ensures
            r == (code != 0),
    {
        code != 0
    }
}

/// Law: disposal releases a live handle exactly once. The first disposal
/// yields the owned identifier and leaves the handle released; disposing the
/// released handle yields nothing.
pub proof fn lemma_dispose_exactly_once(w: Wave)
    requires
        w.spec_live(),
    ensures
        w.spec_dispose().1 == Some(w.spec_id()),
        !w.spec_dispose().0.spec_live(),
        w.spec_dispose().0.spec_dispose().1 == None::<u32>,
{
}

} // verus!
