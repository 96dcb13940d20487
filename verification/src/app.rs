//! The state of the tuner screen and how keys, ticks and the audio host's
//! answers change it.

use vstd::prelude::*;
pub use crate::devices::ClatuneDevice;
pub use crate::notes::{AppNote, TunerData};

verus! {

/// How long the reference pitch stays shown, or hidden, while it is edited:
/// half a second, in nanoseconds.
pub const BLINK_PERIOD_NANOS: u64 = 500000000;

/// The tuner's reference pitch for A4 when it starts, in hertz.
pub const DEFAULT_REFERENCE_PITCH: u16 = 440;

/// A key, as far as the tuner tells keys apart.
#[derive(Debug, Clone, Copy, PartialEq, Eq)]
pub enum Key {
    Char(char),
    Up,
    Down,
    Left,
    Right,
    Enter,
    Esc,
    Other,
}

/// A key press, and whether Control was held.
#[derive(Debug, Clone, Copy, PartialEq, Eq)]
pub struct KeyPress {
    pub code: Key,
    pub ctrl: bool,
}

/// What the application around the tuner must do after a key press.
#[derive(Debug, Clone, Copy, PartialEq, Eq)]
pub enum Effect {
    /// Nothing more.
    Nothing,
    /// Ask the audio host for its input devices and pass the answer to
    /// [`App::handle_devices`].
    RefreshDevices,
    /// Drop the audio stream, start one on the selected device with the current
    /// reference pitch, and pass the outcome to [`App::connect_audio`].
    ReconnectAudio,
}

/// The outcome of an attempt to start listening on the selected device.
#[derive(Debug)]
pub enum ConnectOutcome {
    /// The stream runs.
    Connected,
    /// The selected device's identifier could not be parsed; the message says why.
    InvalidDeviceId(String),
    /// The stream could not be started; the message says why.
    Failed(String),
}

/// The tuner screen's state. `audio_connected` says whether an audio stream
/// runs; `last_tick` is when the blinking of the edited reference pitch last
/// restarted or flipped, in nanoseconds of the caller's clock.
#[derive(Debug)]
pub struct App {
    pub exit: bool,
    pub audio_connected: bool,
    pub last_tick: u64,
    pub is_reference_pitch_edit_on: bool,
    pub reference_pitch: u16,
    pub reference_pitch_blink_state: bool,
    pub tuner_data: TunerData,
    pub error_msg: String,
    pub is_popup_open: bool,
    pub devices: Vec<ClatuneDevice>,
    pub selected_device: ClatuneDevice,
    pub list_selected_index: usize,
}

impl App {
    /// The device list and the pitch editor are never open together.
    pub open spec fn wf(self) -> bool {
        !(self.is_popup_open && self.is_reference_pitch_edit_on)
    }

    /// The state after the blinking restarts at `now`: the pitch is shown.
    pub open spec fn blink_restarted(self, now: u64) -> App {
        App { reference_pitch_blink_state: false, last_tick: now, ..self }
    }

    /// The state after a tick at `now` of the pitch editor's blinking: once more
    /// than half a second has passed since it last flipped, it flips.
    pub open spec fn blink_step(self, now: u64) -> App {
        if now > self.last_tick && now - self.last_tick > BLINK_PERIOD_NANOS {
            App { reference_pitch_blink_state: !self.reference_pitch_blink_state, last_tick: now, ..self }
        } else {
            self
        }
    }

    /// The state after a tick at `now`: while the pitch is edited, it blinks.
    pub open spec fn tick_step(self, now: u64) -> App {
        if self.is_reference_pitch_edit_on {
            self.blink_step(now)
        } else {
            self
        }
    }

    /// The state and effect after a key press while the device list is open.
    pub open spec fn popup_step(self, code: Key) -> (App, Effect) {
        if code == Key::Up || code == Key::Char('k') {
            if self.list_selected_index != 0 {
                (App { list_selected_index: (self.list_selected_index - 1) as usize, ..self }, Effect::Nothing)
            } else {
                (self, Effect::Nothing)
            }
        } else if code == Key::Down || code == Key::Char('j') {
            if self.devices.len() - 1 != self.list_selected_index {
                (App { list_selected_index: (self.list_selected_index + 1) as usize, ..self }, Effect::Nothing)
            } else {
                (self, Effect::Nothing)
            }
        } else if code == Key::Char('r') {
            (self, Effect::RefreshDevices)
        } else if code == Key::Esc {
            (App { is_popup_open: false, ..self }, Effect::Nothing)
        } else if code == Key::Enter {
            (
                App {
                    selected_device: self.devices@[self.list_selected_index as int],
                    audio_connected: false,
                    is_popup_open: false,
                    ..self
                },
                Effect::ReconnectAudio,
            )
        } else {
            (self, Effect::Nothing)
        }
    }

    /// The state and effect after a key press at `now` while the reference pitch
    /// is edited.
    pub open spec fn edit_step(self, code: Key, now: u64) -> (App, Effect) {
        if is_raise_key(code) {
            (
                App { reference_pitch: (self.reference_pitch + 1) as u16, ..self.blink_restarted(now) },
                Effect::Nothing,
            )
        } else if is_lower_key(code) {
            let pitch = if self.reference_pitch != 0 {
                (self.reference_pitch - 1) as u16
            } else {
                self.reference_pitch
            };
            (App { reference_pitch: pitch, ..self.blink_restarted(now) }, Effect::Nothing)
        } else if code == Key::Esc || code == Key::Enter {
            (
                App { audio_connected: false, is_reference_pitch_edit_on: false, ..self.blink_restarted(now) },
                Effect::ReconnectAudio,
            )
        } else {
            (self, Effect::Nothing)
        }
    }

    /// The state and effect after a key press at `now`: `q` and Control-`c` quit;
    /// `i` opens or closes the device list (closing the pitch editor) and asks for
    /// the devices; `a` opens or closes the pitch editor (closing the device list);
    /// other keys act on the list or the editor, whichever is open.
    pub open spec fn key_step(self, key: KeyPress, now: u64) -> (App, Effect) {
        if is_quit(key) {
            (App { exit: true, ..self }, Effect::Nothing)
        } else if key.code == Key::Char('i') {
            let closed = if self.is_reference_pitch_edit_on {
                App { is_reference_pitch_edit_on: false, ..self.blink_restarted(now) }
            } else {
                self
            };
            (
                App { list_selected_index: 0, is_popup_open: !self.is_popup_open, ..closed },
                Effect::RefreshDevices,
            )
        } else if key.code == Key::Char('a') {
            let closed = if self.is_popup_open {
                App { is_popup_open: false, list_selected_index: 0, ..self }
            } else {
                self
            };
            (
                App {
                    is_reference_pitch_edit_on: !self.is_reference_pitch_edit_on,
                    reference_pitch_blink_state: false,
                    ..closed
                },
                Effect::Nothing,
            )
        } else if self.is_popup_open {
            self.popup_step(key.code)
        } else if self.is_reference_pitch_edit_on {
            self.edit_step(key.code, now)
        } else {
            (self, Effect::Nothing)
        }
    }

    /// Whether a key press can be handled without an arithmetic overflow or an
    /// index out of the device list: moving down needs a device list, selecting
    /// needs a selection in the list, raising the pitch needs room above it.
    pub open spec fn accepts_key(self, key: KeyPress) -> bool {
        if is_quit(key) || key.code == Key::Char('i') || key.code == Key::Char('a') {
            true
        } else if self.is_popup_open {
            &&& (key.code == Key::Down || key.code == Key::Char('j')) ==> {
                &&& self.devices.len() > 0
                &&& self.devices.len() - 1 != self.list_selected_index ==> self.list_selected_index < usize::MAX
            }
            &&& key.code == Key::Enter ==> self.list_selected_index < self.devices.len()
        } else if self.is_reference_pitch_edit_on {
            is_raise_key(key.code) ==> self.reference_pitch < u16::MAX
        } else {
            true
        }
    }

    /// The state after the audio host answers a request for its devices: the list
    /// is replaced, and the host's default device is selected when none is; or
    /// the error message is kept.
    pub open spec fn devices_step(self, result: Result<(Vec<ClatuneDevice>, ClatuneDevice), String>) -> App {
        match result {
            Ok((devices, default_device)) => if self.selected_device.id@.len() == 0 {
                App { devices, selected_device: default_device, ..self }
            } else {
                App { devices, ..self }
            },
            Err(e) => App { error_msg: e, ..self },
        }
    }

    /// How an attempt to start listening changes the state: a running stream
    /// clears the error message; a failure leaves the stream as it was and shows
    /// why, an identifier that could not be parsed after the words
    /// `Invalid device ID: `.
    pub open spec fn connect_step(self, next: App, outcome: ConnectOutcome) -> bool {
        let listening = match outcome {
            ConnectOutcome::Connected => true,
            _ => self.audio_connected,
        };
        let message = match outcome {
            ConnectOutcome::Connected => Seq::<char>::empty(),
            ConnectOutcome::InvalidDeviceId(detail) => invalid_id_message(detail@),
            ConnectOutcome::Failed(e) => e@,
        };
        &&& next == App { audio_connected: listening, error_msg: next.error_msg, ..self }
        &&& next.error_msg@ == message
    }
}

impl App {
    /// The tuner as it starts at `now`: nothing detected yet, no device list, the
    /// reference pitch at 440 Hz, no stream.
    pub fn new(now: u64) -> (app: App)
        ensures
            !app.exit,
            !app.audio_connected,
            app.last_tick == now,
            !app.is_reference_pitch_edit_on,
            app.reference_pitch == DEFAULT_REFERENCE_PITCH,
            !app.reference_pitch_blink_state,
            app.tuner_data.cent == 0,
            forall|i: int| 0 <= i < 3 ==> (#[trigger] app.tuner_data.pitches@[i]).note@ == Seq::<char>::empty()
                && app.tuner_data.pitches@[i].octave == 0 && !app.tuner_data.pitches@[i].is_sharp,
            app.error_msg@ == Seq::<char>::empty(),
            !app.is_popup_open,
            app.devices@ == Seq::<ClatuneDevice>::empty(),
            app.selected_device.id@ == Seq::<char>::empty(),
            app.selected_device.name@ == Seq::<char>::empty(),
            app.list_selected_index == 0,
            app.wf(),
    {
        App {
            exit: false,
            audio_connected: false,
            last_tick: now,
            is_reference_pitch_edit_on: false,
            reference_pitch: DEFAULT_REFERENCE_PITCH,
            reference_pitch_blink_state: false,
            tuner_data: TunerData::default(),
            error_msg: String::new(),
            is_popup_open: false,
            devices: Vec::new(),
            selected_device: ClatuneDevice::default(),
            list_selected_index: 0,
        }
    }

    fn reset_blink(&mut self, now: u64)
        ensures
            *final(self) == old(self).blink_restarted(now),
    {
        self.reference_pitch_blink_state = false;
        self.last_tick = now;
    }

    /// Flips the shown state of the edited reference pitch once more than half a
    /// second has passed since it last flipped or restarted.
    pub fn blink_on_tick(&mut self, now: u64)
        ensures
            *final(self) == old(self).blink_step(now),
    {
        if now > self.last_tick && now - self.last_tick > BLINK_PERIOD_NANOS {
            self.reference_pitch_blink_state = !self.reference_pitch_blink_state;
            self.last_tick = now;
        }
    }

    /// What happens on each frame at `now`: while the reference pitch is edited,
    /// it blinks.
    pub fn tick(&mut self, now: u64)
        ensures
            *final(self) == old(self).tick_step(now),
    {
        if self.is_reference_pitch_edit_on {
            self.blink_on_tick(now);
        }
    }

    /// Whether [`App::handle_key_event`] can take this key press now.
    pub fn accepts(&self, key: KeyPress) -> (r: bool)
        ensures
            r == self.accepts_key(key),
    {
        match key.code {
            Key::Char('q') => true,
            Key::Char('c') if key.ctrl => true,
            Key::Char('i') | Key::Char('a') => true,
            _ if self.is_popup_open => match key.code {
                Key::Down | Key::Char('j') => {
                    self.devices.len() > 0 && (self.devices.len() - 1 == self.list_selected_index
                        || self.list_selected_index < usize::MAX)
                },
                Key::Enter => self.list_selected_index < self.devices.len(),
                _ => true,
            },
            _ if self.is_reference_pitch_edit_on => match key.code {
                Key::Up | Key::Char('k') | Key::Right | Key::Char('l') => self.reference_pitch < u16::MAX,
                _ => true,
            },
            _ => true,
        }
    }

    /// Updates the state for a key press at `now`, and says what must follow.
    pub fn handle_key_event(&mut self, key: KeyPress, now: u64) -> (effect: Effect)
        requires
            old(self).accepts_key(key),
        ensures
            (*final(self), effect) == old(self).key_step(key, now),
            old(self).wf() ==> final(self).wf(),
            old(self).exit ==> final(self).exit,
    {
        match key.code {
            Key::Char('q') => {
                self.exit = true;
                Effect::Nothing
            },
            Key::Char('c') if key.ctrl => {
                self.exit = true;
                Effect::Nothing
            },
            Key::Char('i') => {
                if self.is_reference_pitch_edit_on {
                    self.reset_blink(now);
                    self.is_reference_pitch_edit_on = false;
                }
                self.list_selected_index = 0;
                self.is_popup_open = !self.is_popup_open;
                Effect::RefreshDevices
            },
            Key::Char('a') => {
                if self.is_popup_open {
                    self.is_popup_open = false;
                    self.list_selected_index = 0;
                }
                self.is_reference_pitch_edit_on = !self.is_reference_pitch_edit_on;
                self.reference_pitch_blink_state = false;
                Effect::Nothing
            },
            _ if self.is_popup_open => match key.code {
                Key::Up | Key::Char('k') => {
                    if self.list_selected_index != 0 {
                        self.list_selected_index -= 1;
                    }
                    Effect::Nothing
                },
                Key::Down | Key::Char('j') => {
                    if self.devices.len() - 1 != self.list_selected_index {
                        self.list_selected_index += 1;
                    }
                    Effect::Nothing
                },
                Key::Char('r') => Effect::RefreshDevices,
                Key::Esc => {
                    self.is_popup_open = false;
                    Effect::Nothing
                },
                Key::Enter => {
                    self.selected_device = self.devices[self.list_selected_index].clone();
                    self.disconnect_audio();
                    self.is_popup_open = false;
                    Effect::ReconnectAudio
                },
                _ => Effect::Nothing,
            },
            _ if self.is_reference_pitch_edit_on => match key.code {
                Key::Up | Key::Char('k') | Key::Right | Key::Char('l') => {
                    self.reset_blink(now);
                    self.reference_pitch += 1;
                    Effect::Nothing
                },
                Key::Down | Key::Char('j') | Key::Left | Key::Char('h') => {
                    self.reset_blink(now);
                    if self.reference_pitch != 0 {
                        self.reference_pitch -= 1;
                    }
                    Effect::Nothing
                },
                Key::Esc | Key::Enter => {
                    self.disconnect_audio();
                    self.reset_blink(now);
                    self.is_reference_pitch_edit_on = false;
                    Effect::ReconnectAudio
                },
                _ => Effect::Nothing,
            },
            _ => Effect::Nothing,
        }
    }

    /// Stops listening.
    pub fn disconnect_audio(&mut self)
        ensures
            *final(self) == (App { audio_connected: false, ..*old(self) }),
    {
        self.audio_connected = false;
    }

    /// Takes the audio host's answer to a request for its input devices.
    pub fn handle_devices(&mut self, result: Result<(Vec<ClatuneDevice>, ClatuneDevice), String>)
        ensures
            *final(self) == old(self).devices_step(result),
    {
        match result {
            Ok((devices, default_device)) => {
                self.devices = devices;
                if self.selected_device.id.as_str().is_empty() {
                    self.selected_device = default_device;
                }
            },
            Err(e) => self.error_msg = e,
        }
    }

    /// Takes the outcome of an attempt to start listening on the selected device.
    pub fn connect_audio(&mut self, outcome: ConnectOutcome)
        ensures
            old(self).connect_step(*final(self), outcome),
    {
        match outcome {
            ConnectOutcome::Connected => {
                self.audio_connected = true;
                self.error_msg = String::new();
            },
            ConnectOutcome::InvalidDeviceId(detail) => {
                proof { reveal_strlit("Invalid device ID: "); }
                let mut message = String::from_str("Invalid device ID: ");
                message.append(detail.as_str());
                self.error_msg = message;
            },
            ConnectOutcome::Failed(e) => self.error_msg = e,
        }
    }
}

/// `q`, and `c` with Control, quit from any state, and ask for nothing more.
pub proof fn lemma_quit_keys_exit(a: App, key: KeyPress, now: u64)
    requires
        is_quit(key),
    ensures
        a.key_step(key, now).0.exit,
        a.key_step(key, now).1 == Effect::Nothing,
{
}

/// Once the user has asked to quit, no key press takes it back.
pub proof fn lemma_exit_is_final(a: App, key: KeyPress, now: u64)
    requires
        a.exit,
    ensures
        a.key_step(key, now).0.exit,
{
}

/// No key press opens the device list and the pitch editor together.
pub proof fn lemma_modes_stay_exclusive(a: App, key: KeyPress, now: u64)
    requires
        a.wf(),
    ensures
        a.key_step(key, now).0.wf(),
{
}

/// Pressing `a` twice leaves pitch editing as it was, the device list closed,
/// the reference pitch unchanged and the pitch shown.
pub proof fn lemma_edit_toggle_twice(a: App, first: u64, second: u64)
    ensures
        ({
            let press = KeyPress { code: Key::Char('a'), ctrl: false };
            let b = a.key_step(press, first).0;
            let c = b.key_step(press, second).0;
            &&& c.is_reference_pitch_edit_on == a.is_reference_pitch_edit_on
            &&& !c.is_popup_open
            &&& c.reference_pitch == a.reference_pitch
            &&& !c.reference_pitch_blink_state
        }),
{
}

/// Pressing `i` twice leaves the device list open or closed as it was, pitch
/// editing off, the first entry selected, and asks for the devices each time.
pub proof fn lemma_popup_toggle_twice(a: App, first: u64, second: u64)
    ensures
        ({
            let press = KeyPress { code: Key::Char('i'), ctrl: false };
            let (b, e1) = a.key_step(press, first);
            let (c, e2) = b.key_step(press, second);
            &&& c.is_popup_open == a.is_popup_open
            &&& !c.is_reference_pitch_edit_on
            &&& c.list_selected_index == 0
            &&& e1 == Effect::RefreshDevices
            &&& e2 == Effect::RefreshDevices
        }),
{
}

/// While the pitch is edited, raising it and then lowering it gives back the
/// pitch it had.
pub proof fn lemma_raise_then_lower(a: App, first: u64, second: u64)
    requires
        a.is_reference_pitch_edit_on,
        !a.is_popup_open,
        a.reference_pitch < u16::MAX,
    ensures
        ({
            let b = a.key_step(KeyPress { code: Key::Up, ctrl: false }, first).0;
            let c = b.key_step(KeyPress { code: Key::Down, ctrl: false }, second).0;
            &&& b.reference_pitch == a.reference_pitch + 1
            &&& c.reference_pitch == a.reference_pitch
            &&& c.is_reference_pitch_edit_on
        }),
{
}

/// The reference pitch changes only while it is edited with the device list
/// closed, and then by one hertz.
pub proof fn lemma_pitch_changes_only_in_editor(a: App, key: KeyPress, now: u64)
    requires
        a.accepts_key(key),
    ensures
        ({
            let b = a.key_step(key, now).0;
            b.reference_pitch != a.reference_pitch ==> {
                &&& a.is_reference_pitch_edit_on
                &&& !a.is_popup_open
                &&& (b.reference_pitch == a.reference_pitch + 1 || b.reference_pitch + 1 == a.reference_pitch)
            }
        }),
{
}

/// Moving up or down in the open device list keeps a selection that lies in
/// the list inside it.
pub proof fn lemma_navigation_stays_in_list(a: App, key: KeyPress, now: u64)
    requires
        a.is_popup_open,
        a.list_selected_index < a.devices.len(),
        key.code == Key::Up || key.code == Key::Down || key.code == Key::Char('k') || key.code == Key::Char('j'),
    ensures
        a.key_step(key, now).0.list_selected_index < a.devices.len(),
{
}

/// Selecting a device in the list selects the device under the cursor, closes
/// the list and asks to listen on it.
pub proof fn lemma_enter_selects_device(a: App, now: u64)
    requires
        a.is_popup_open,
        a.list_selected_index < a.devices.len(),
    ensures
        ({
            let (b, e) = a.key_step(KeyPress { code: Key::Enter, ctrl: false }, now);
            &&& b.selected_device == a.devices@[a.list_selected_index as int]
            &&& !b.is_popup_open
            &&& !b.audio_connected
            &&& b.devices == a.devices
            &&& b.reference_pitch == a.reference_pitch
            &&& e == Effect::ReconnectAudio
        }),
{
}

/// The edited pitch flips between shown and hidden at most once per half
/// second: right after a flip, no tick within the next half second flips it.
pub proof fn lemma_blink_at_most_once_per_period(a: App, first: u64, second: u64)
    requires
        a.blink_step(first).reference_pitch_blink_state != a.reference_pitch_blink_state,
        second <= first + BLINK_PERIOD_NANOS,
    ensures
        a.blink_step(first).blink_step(second) == a.blink_step(first),
{
}

/// A device list from the audio host replaces the list; a device already
/// selected stays selected.
pub proof fn lemma_selection_survives_refresh(a: App, devices: Vec<ClatuneDevice>, default_device: ClatuneDevice)
    requires
        a.selected_device.id@.len() > 0,
    ensures
        ({
            let b = a.devices_step(Ok((devices, default_device)));
            &&& b.devices == devices
            &&& b.selected_device == a.selected_device
        }),
{
}

/// In the open device list, Up and `k` move the cursor up by exactly one entry,
/// staying on the first entry when already there, and change nothing else.
pub proof fn lemma_up_moves_cursor_one_entry(a: App, key: KeyPress, now: u64)
    requires
        a.is_popup_open,
        key.code == Key::Up || key.code == Key::Char('k'),
    ensures
        ({
            let (b, e) = a.key_step(key, now);
            &&& b.list_selected_index == if a.list_selected_index > 0 {
                a.list_selected_index - 1
            } else {
                0int
            }
            &&& b == App { list_selected_index: b.list_selected_index, ..a }
            &&& e == Effect::Nothing
        }),
{
}

/// In the open device list, Down and `j` move the cursor down by exactly one
/// entry, staying on the last entry when already there, and change nothing else.
pub proof fn lemma_down_moves_cursor_one_entry(a: App, key: KeyPress, now: u64)
    requires
        a.is_popup_open,
        a.list_selected_index < a.devices.len(),
        key.code == Key::Down || key.code == Key::Char('j'),
    ensures
        ({
            let (b, e) = a.key_step(key, now);
            &&& b.list_selected_index == if a.list_selected_index + 1 < a.devices.len() {
                a.list_selected_index + 1
            } else {
                a.list_selected_index as int
            }
            &&& b == App { list_selected_index: b.list_selected_index, ..a }
            &&& e == Effect::Nothing
        }),
{
}

/// In the open device list, `r` asks for the devices and changes nothing.
pub proof fn lemma_r_refreshes_list(a: App, key: KeyPress, now: u64)
    requires
        a.is_popup_open,
        key.code == Key::Char('r'),
    ensures
        a.key_step(key, now) == (a, Effect::RefreshDevices),
{
}

/// Esc closes the open device list and changes nothing else.
pub proof fn lemma_esc_closes_list(a: App, key: KeyPress, now: u64)
    requires
        a.is_popup_open,
        key.code == Key::Esc,
    ensures
        a.key_step(key, now) == (App { is_popup_open: false, ..a }, Effect::Nothing),
{
}

/// Keys that share a role act alike: Up and `k`, Down and `j` in the device
/// list; Up, `k`, Right and `l`, and Down, `j`, Left and `h`, in the pitch
/// editor; Esc and Enter in the pitch editor. Control matters only for `c`.
pub proof fn lemma_keys_with_one_role_act_alike(a: App, now: u64, ctrl: bool, code: Key)
    ensures
        a.key_step(KeyPress { code: Key::Up, ctrl }, now) == a.key_step(KeyPress { code: Key::Char('k'), ctrl }, now),
        a.key_step(KeyPress { code: Key::Down, ctrl }, now) == a.key_step(KeyPress { code: Key::Char('j'), ctrl }, now),
        !a.is_popup_open ==> a.key_step(KeyPress { code: Key::Up, ctrl }, now) == a.key_step(KeyPress { code: Key::Right, ctrl }, now),
        !a.is_popup_open ==> a.key_step(KeyPress { code: Key::Up, ctrl }, now) == a.key_step(KeyPress { code: Key::Char('l'), ctrl }, now),
        !a.is_popup_open ==> a.key_step(KeyPress { code: Key::Down, ctrl }, now) == a.key_step(KeyPress { code: Key::Left, ctrl }, now),
        !a.is_popup_open ==> a.key_step(KeyPress { code: Key::Down, ctrl }, now) == a.key_step(KeyPress { code: Key::Char('h'), ctrl }, now),
        !a.is_popup_open ==> a.key_step(KeyPress { code: Key::Esc, ctrl }, now) == a.key_step(KeyPress { code: Key::Enter, ctrl }, now),
        code != Key::Char('c') ==> a.key_step(KeyPress { code, ctrl: true }, now) == a.key_step(KeyPress { code, ctrl: false }, now),
{
}

/// In the pitch editor, with the device list closed, Up, `k`, Right and `l`
/// raise the reference pitch by exactly one hertz, and Down, `j`, Left and `h`
/// lower a pitch above zero by exactly one hertz (zero stays zero); either way
/// the pitch is shown from `now` on, and nothing else changes.
pub proof fn lemma_pitch_keys_step_by_one_hertz(a: App, key: KeyPress, now: u64)
    requires
        a.is_reference_pitch_edit_on,
        !a.is_popup_open,
        a.accepts_key(key),
    ensures
        ({
            let (b, e) = a.key_step(key, now);
            let rest = App {
                reference_pitch: b.reference_pitch,
                reference_pitch_blink_state: false,
                last_tick: now,
                ..a
            };
            &&& (key.code == Key::Up || key.code == Key::Char('k') || key.code == Key::Right || key.code == Key::Char('l'))
                ==> b.reference_pitch == a.reference_pitch + 1 && b == rest && e == Effect::Nothing
            &&& (key.code == Key::Down || key.code == Key::Char('j') || key.code == Key::Left || key.code == Key::Char('h'))
                ==> b.reference_pitch == (if a.reference_pitch > 0 { a.reference_pitch - 1 } else { 0int })
                    && b == rest && e == Effect::Nothing
        }),
{
}

/// In the pitch editor, with the device list closed, Esc and Enter close the
/// editor, show the pitch, drop the stream and ask to listen again with the
/// pitch as it is.
pub proof fn lemma_editor_closes_and_reconnects(a: App, key: KeyPress, now: u64)
    requires
        a.is_reference_pitch_edit_on,
        !a.is_popup_open,
        key.code == Key::Esc || key.code == Key::Enter,
    ensures
        ({
            let (b, e) = a.key_step(key, now);
            &&& !b.is_reference_pitch_edit_on
            &&& !b.reference_pitch_blink_state
            &&& b.last_tick == now
            &&& !b.audio_connected
            &&& b.reference_pitch == a.reference_pitch
            &&& e == Effect::ReconnectAudio
        }),
{
}

/// With neither the device list nor the pitch editor open, only `q`,
/// Control-`c`, `i` and `a` do anything.
pub proof fn lemma_idle_ignores_other_keys(a: App, key: KeyPress, now: u64)
    requires
        !a.is_popup_open,
        !a.is_reference_pitch_edit_on,
        key.code != Key::Char('q'),
        key.code != Key::Char('i'),
        key.code != Key::Char('a'),
        !(key.code == Key::Char('c') && key.ctrl),
    ensures
        a.key_step(key, now) == (a, Effect::Nothing),
{
}

/// `a` opens the pitch editor when it is closed and closes it when it is open;
/// it closes the device list (cursor back on the first entry) and shows the
/// pitch, leaving the pitch, the blink clock and everything else as they were.
pub proof fn lemma_a_toggles_editor(a: App, now: u64)
    ensures
        ({
            let (b, e) = a.key_step(KeyPress { code: Key::Char('a'), ctrl: false }, now);
            &&& b.is_reference_pitch_edit_on == !a.is_reference_pitch_edit_on
            &&& !b.is_popup_open
            &&& b.list_selected_index == if a.is_popup_open { 0 } else { a.list_selected_index }
            &&& b == App {
                is_reference_pitch_edit_on: b.is_reference_pitch_edit_on,
                is_popup_open: false,
                list_selected_index: b.list_selected_index,
                reference_pitch_blink_state: false,
                ..a
            }
            &&& e == Effect::Nothing
        }),
{
}

/// `i` opens the device list when it is closed and closes it when it is open,
/// puts the cursor on the first entry, closes the pitch editor, and asks for
/// the devices.
pub proof fn lemma_i_toggles_list(a: App, now: u64)
    ensures
        ({
            let (b, e) = a.key_step(KeyPress { code: Key::Char('i'), ctrl: false }, now);
            &&& b.is_popup_open == !a.is_popup_open
            &&& b.list_selected_index == 0
            &&& !b.is_reference_pitch_edit_on
            &&& b.reference_pitch == a.reference_pitch
            &&& e == Effect::RefreshDevices
        }),
{
}

/// Once more than half a second has passed since the blinking last flipped or
/// restarted, however long ago that was, a tick flips whether the pitch is
/// shown and restarts the half second at `now`; before that, a tick changes
/// nothing.
pub proof fn lemma_blink_flips_after_half_a_second(a: App, now: u64)
    ensures
        now > a.last_tick + BLINK_PERIOD_NANOS ==> {
            &&& a.blink_step(now).reference_pitch_blink_state == !a.reference_pitch_blink_state
            &&& a.blink_step(now).last_tick == now
            &&& a.blink_step(now) == App {
                reference_pitch_blink_state: !a.reference_pitch_blink_state,
                last_tick: now,
                ..a
            }
        },
        now <= a.last_tick + BLINK_PERIOD_NANOS ==> a.blink_step(now) == a,
{
}

/// A tick blinks the pitch exactly while it is edited: it does what a blink
/// tick does then, and nothing otherwise.
pub proof fn lemma_tick_blinks_only_in_editor(a: App, now: u64)
    ensures
        a.is_reference_pitch_edit_on ==> a.tick_step(now) == a.blink_step(now),
        !a.is_reference_pitch_edit_on ==> a.tick_step(now) == a,
        (a.is_reference_pitch_edit_on && now > a.last_tick + BLINK_PERIOD_NANOS)
            ==> a.tick_step(now).reference_pitch_blink_state == !a.reference_pitch_blink_state,
{
}

/// A device list from the audio host replaces the list; the host's default
/// device becomes the selection exactly when nothing is selected; an error only
/// sets the message.
pub proof fn lemma_devices_answer(a: App, result: Result<(Vec<ClatuneDevice>, ClatuneDevice), String>)
    ensures
        ({
            let b = a.devices_step(result);
            match result {
                Ok((devices, default_device)) => {
                    &&& b.devices == devices
                    &&& b.selected_device == if a.selected_device.id@.len() == 0 { default_device } else { a.selected_device }
                    &&& b == App { devices: b.devices, selected_device: b.selected_device, ..a }
                },
                Err(e) => b == App { error_msg: e, ..a },
            }
        }),
{
}

/// A running stream clears the message and marks the tuner as listening; a
/// failure leaves the stream as it was and shows the host's message, or, for an
/// identifier that could not be parsed, `Invalid device ID: ` and the reason.
pub proof fn lemma_connect_outcomes(a: App, b: App, outcome: ConnectOutcome)
    requires
        a.connect_step(b, outcome),
    ensures
        b == (App { audio_connected: b.audio_connected, error_msg: b.error_msg, ..a }),
        (outcome is Connected) ==> b.audio_connected && b.error_msg@.len() == 0,
        (outcome is InvalidDeviceId) ==> (b.audio_connected == a.audio_connected
            && b.error_msg@ == "Invalid device ID: "@ + outcome->InvalidDeviceId_0@),
        (outcome is Failed) ==> (b.audio_connected == a.audio_connected && b.error_msg@ == outcome->Failed_0@),
{
}

/// Whether a key press quits: `q`, or `c` with Control.
pub open spec fn is_quit(key: KeyPress) -> bool {
    key.code == Key::Char('q') || (key.code == Key::Char('c') && key.ctrl)
}

/// Whether a key raises the edited reference pitch: up, right, `k` or `l`.
pub open spec fn is_raise_key(code: Key) -> bool {
    code == Key::Up || code == Key::Char('k') || code == Key::Right || code == Key::Char('l')
}

/// Whether a key lowers the edited reference pitch: down, left, `j` or `h`.
pub open spec fn is_lower_key(code: Key) -> bool {
    code == Key::Down || code == Key::Char('j') || code == Key::Left || code == Key::Char('h')
}

/// The message shown when the selected device's identifier cannot be parsed.
pub open spec fn invalid_id_message(detail: Seq<char>) -> Seq<char> {
    "Invalid device ID: "@ + detail
}

} // verus!
