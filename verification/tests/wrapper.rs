use pigpio::error::BadSerial;
use pigpio::error::Init;
use pigpio::error::SetMode;
use pigpio::error::TooManyPulses;
use pigpio::error::WaveCreate;
use pigpio::error::WaveSend;
use pigpio::native::PI_BAD_DATABITS;
use pigpio::native::PI_BAD_GPIO;
use pigpio::native::PI_BAD_MODE;
use pigpio::native::PI_BAD_SER_OFFSET;
use pigpio::native::PI_BAD_STOPBITS;
use pigpio::native::PI_BAD_USER_GPIO;
use pigpio::native::PI_BAD_WAVE_BAUD;
use pigpio::native::PI_BAD_WAVE_ID;
use pigpio::native::PI_BAD_WAVE_MODE;
use pigpio::native::PI_EMPTY_WAVEFORM;
use pigpio::native::PI_INIT_FAILED;
use pigpio::native::PI_NO_WAVEFORM_ID;
use pigpio::native::PI_TOO_MANY_CBS;
use pigpio::native::PI_TOO_MANY_CHARS;
use pigpio::native::PI_TOO_MANY_OOL;
use pigpio::native::PI_TOO_MANY_PULSES;
use pigpio::native::PI_WAVE_MODE_ONE_SHOT;
use pigpio::native::PI_WAVE_MODE_ONE_SHOT_SYNC;
use pigpio::native::PI_WAVE_MODE_REPEAT;
use pigpio::native::PI_WAVE_MODE_REPEAT_SYNC;
use pigpio::LibraryInitState;
use pigpio::PiGpio;
use pigpio::PinMode;
use pigpio::Pulse;
use pigpio::WaveMode;

/// A controller token, obtained the only way one can be: by winning the
/// permit and settling with a non-failure native code.
fn controller() -> PiGpio {
    let mut state = LibraryInitState::new();
    state.try_claim().expect("fresh permit must be free");
    state
        .finish_init(79)
        .expect("a non-failure code must yield the token")
}

#[test]
fn set_mode_translation_table() {
    assert_eq!(
        SetMode::from_return_code(PI_BAD_GPIO),
        Err(SetMode::InvalidPin)
    );
    assert_eq!(
        SetMode::from_return_code(PI_BAD_MODE),
        Err(SetMode::InvalidMode)
    );
    for code in [0, 1, -1, -2, -5, 42, 1000, i32::MIN, i32::MAX] {
        assert_eq!(SetMode::from_return_code(code), Ok(()));
    }
}

#[test]
fn bad_serial_translation_table() {
    assert_eq!(
        BadSerial::from_return_code(PI_BAD_USER_GPIO),
        Err(BadSerial::InvalidPin)
    );
    assert_eq!(
        BadSerial::from_return_code(PI_BAD_WAVE_BAUD),
        Err(BadSerial::InvalidBaud)
    );
    assert_eq!(
        BadSerial::from_return_code(PI_BAD_DATABITS),
        Err(BadSerial::InvalidDataBits)
    );
    assert_eq!(
        BadSerial::from_return_code(PI_BAD_STOPBITS),
        Err(BadSerial::InvalidStopBits)
    );
    assert_eq!(
        BadSerial::from_return_code(PI_TOO_MANY_CHARS),
        Err(BadSerial::TooManyBytes)
    );
    assert_eq!(
        BadSerial::from_return_code(PI_BAD_SER_OFFSET),
        Err(BadSerial::InvalidOffset)
    );
    assert_eq!(
        BadSerial::from_return_code(PI_TOO_MANY_PULSES),
        Err(BadSerial::TooManyPulses)
    );
    for code in [0, 7, -1, -3, -50, 9600, i32::MIN, i32::MAX] {
        assert_eq!(BadSerial::from_return_code(code), Ok(()));
    }
}

#[test]
fn wave_create_translation_table() {
    assert_eq!(
        WaveCreate::from_return_code(PI_EMPTY_WAVEFORM),
        Err(WaveCreate::EmptyWaveform)
    );
    assert_eq!(
        WaveCreate::from_return_code(PI_TOO_MANY_CBS),
        Err(WaveCreate::TooManyCbs)
    );
    assert_eq!(
        WaveCreate::from_return_code(PI_TOO_MANY_OOL),
        Err(WaveCreate::TooManyOol)
    );
    assert_eq!(
        WaveCreate::from_return_code(PI_NO_WAVEFORM_ID),
        Err(WaveCreate::NoWaveformId)
    );
    for code in [0, 1, 7, 249] {
        assert_eq!(WaveCreate::from_return_code(code), Ok(code));
    }
}

#[test]
fn wave_send_translation_table() {
    assert_eq!(
        WaveSend::from_return_code(PI_BAD_WAVE_ID),
        Err(WaveSend::InvalidId)
    );
    assert_eq!(
        WaveSend::from_return_code(PI_BAD_WAVE_MODE),
        Err(WaveSend::InvalidMode)
    );
    for code in [0, 3, -1, -2, 100, i32::MIN, i32::MAX] {
        assert_eq!(WaveSend::from_return_code(code), Ok(()));
    }
}

#[test]
fn too_many_pulses_translation() {
    assert_eq!(
        TooManyPulses::from_return_code(PI_TOO_MANY_PULSES),
        Err(TooManyPulses)
    );
    for code in [0, 5, -1, -35, -37, i32::MIN, i32::MAX] {
        assert_eq!(TooManyPulses::from_return_code(code), Ok(()));
    }
}

#[test]
fn bad_serial_from_local_pulse_failure() {
    assert_eq!(BadSerial::from(TooManyPulses), BadSerial::TooManyPulses);
}

#[test]
fn second_claim_always_rejected() {
    let mut state = LibraryInitState::new();
    assert_eq!(state.try_claim(), Ok(()));
    assert!(state.finish_init(79).is_ok());
    assert_eq!(state.try_claim(), Err(Init::AlreadyInitialized));
    assert_eq!(state.try_claim(), Err(Init::AlreadyInitialized));
}

#[test]
fn retry_allowed_after_native_failure() {
    let mut state = LibraryInitState::new();
    assert_eq!(state.try_claim(), Ok(()));
    match state.finish_init(PI_INIT_FAILED) {
        Err(Init::PiGpioFailed) => {}
        other => panic!("expected PiGpioFailed, got {:?}", other.err()),
    }
    assert_eq!(state.try_claim(), Ok(()));
    assert!(state.finish_init(79).is_ok());
}

#[test]
fn dispose_yields_identifier_exactly_once() {
    let gpio = controller();
    let mut wave = gpio.wave_create(5).expect("a plain identifier code");
    assert!(wave.is_live());
    assert_eq!(wave.id(), 5);
    assert_eq!(wave.dispose(), Some(5));
    assert!(!wave.is_live());
    assert_eq!(wave.dispose(), None);
    assert_eq!(wave.dispose(), None);
}

#[test]
fn failed_creation_yields_no_handle() {
    let gpio = controller();
    match gpio.wave_create(PI_TOO_MANY_CBS) {
        Err(WaveCreate::TooManyCbs) => {}
        Err(other) => panic!("wrong error variant: {:?}", other),
        Ok(_) => panic!("a failure sentinel must not yield a handle"),
    }
}

#[test]
fn serial_bad_databits_scenario() {
    let gpio = controller();
    let data: Vec<u8> = vec![0x41, 0x42];
    let count = gpio.wave_add_serial_count(&data);
    assert_eq!(count, Ok(2));
    assert_eq!(
        BadSerial::from_return_code(PI_BAD_DATABITS),
        Err(BadSerial::InvalidDataBits)
    );
    assert_eq!(data.len(), 2);
    assert_eq!(data, vec![0x41, 0x42]);
}

#[test]
fn repeat_maps_to_repeat_sync() {
    assert_eq!(WaveMode::Repeat.sync(), PI_WAVE_MODE_REPEAT_SYNC);
    assert_eq!(WaveMode::OneShot.sync(), PI_WAVE_MODE_ONE_SHOT_SYNC);
    assert_ne!(WaveMode::Repeat.sync(), PI_WAVE_MODE_REPEAT);
    assert_ne!(WaveMode::Repeat.sync(), PI_WAVE_MODE_ONE_SHOT);
    assert_ne!(WaveMode::OneShot.sync(), PI_WAVE_MODE_ONE_SHOT);

    let gpio = controller();
    let first = gpio.wave_create(0).expect("identifier 0");
    let second = gpio.wave_create(31).expect("identifier 31");
    assert_eq!(first.tx_request(WaveMode::Repeat), (0, PI_WAVE_MODE_REPEAT_SYNC));
    assert_eq!(second.tx_request(WaveMode::Repeat), (31, PI_WAVE_MODE_REPEAT_SYNC));
    assert_eq!(second.tx_request(WaveMode::OneShot), (31, PI_WAVE_MODE_ONE_SHOT_SYNC));
}

#[test]
fn generic_count_forwards_short_sequences() {
    let gpio = controller();
    let pulses = vec![
        Pulse { gpio_on: 1 << 4, gpio_off: 0, us_delay: 100 },
        Pulse { gpio_on: 0, gpio_off: 1 << 4, us_delay: 100 },
        Pulse { gpio_on: 1 << 4, gpio_off: 0, us_delay: 50 },
    ];
    assert_eq!(gpio.wave_add_generic_count(&pulses), Ok(3));
    let none: Vec<Pulse> = Vec::new();
    assert_eq!(gpio.wave_add_generic_count(&none), Ok(0));
}

#[test]
fn serial_count_forwards_short_sequences() {
    let gpio = controller();
    let data: Vec<u8> = Vec::new();
    assert_eq!(gpio.wave_add_serial_count(&data), Ok(0));
    let data = vec![0u8; 1024];
    assert_eq!(gpio.wave_add_serial_count(&data), Ok(1024));
}

#[test]
fn pin_mode_codes_match_native_table() {
    assert_eq!(PinMode::Input.code(), 0);
    assert_eq!(PinMode::Output.code(), 1);
    assert_eq!(PinMode::Alt0.code(), 4);
    assert_eq!(PinMode::Alt1.code(), 5);
    assert_eq!(PinMode::Alt2.code(), 6);
    assert_eq!(PinMode::Alt3.code(), 7);
    assert_eq!(PinMode::Alt4.code(), 3);
    assert_eq!(PinMode::Alt5.code(), 2);
}

#[test]
fn set_mode_request_widens_pin_and_mode() {
    let gpio = controller();
    assert_eq!(gpio.set_mode_request(4, PinMode::Output), (4, 1));
    assert_eq!(gpio.set_mode_request(255, PinMode::Alt3), (255, 7));
}

#[test]
fn busy_query_reads_any_nonzero_as_busy() {
    let gpio = controller();
    assert!(gpio.wave_tx_busy(1));
    assert!(gpio.wave_tx_busy(-1));
    assert!(gpio.wave_tx_busy(7));
    assert!(!gpio.wave_tx_busy(0));
}
