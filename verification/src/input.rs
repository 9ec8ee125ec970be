use crate::config::{ControllerConfig, ControllerInput};
use crate::cpu::InterruptType;
use crate::memory::ioregisters::{IoRegister, IoRegisters, IoRegistersView};
use vstd::prelude::*;

verus! {

broadcast use crate::memory::ioregisters::lemma_io_registers_wf;

/// One of the eight Game Boy buttons.
#[derive(Debug, Clone, Copy, PartialEq, Eq, Structural)]
pub enum Button {
    Up,
    Down,
    Left,
    Right,
    A,
    B,
    Start,
    Select,
}

/// Why a keyboard configuration was rejected.
#[derive(Debug, Clone, PartialEq, Eq)]
pub enum KeyMapError {
    InvalidKeycode { keycode: String },
    DuplicateKeycode { keycode: String },
}

/// Why a gamepad configuration was rejected.
#[derive(Debug, Clone, Copy, PartialEq, Eq, Structural)]
pub enum JoystickError {
    /// The same gamepad input is bound to two buttons.
    DuplicateInput { input: ControllerInput },
    /// The axis deadzone is above 32767.
    InvalidDeadzone { deadzone: u16 },
}

/// An emulator hotkey.
#[derive(Debug, Clone, Copy, PartialEq, Eq, Structural)]
pub enum Hotkey {
    Exit,
    ToggleFullscreen,
    SaveState,
    LoadState,
    FastForward,
}

/// The button bound to a gamepad input, if any.
pub open spec fn lookup_binding(map: Seq<(ControllerInput, Button)>, input: ControllerInput) -> Option<
    Button,
>
    decreases map.len(),
{
    if map.len() == 0 {
        None
    } else if map[0].0 == input {
        Some(map[0].1)
    } else {
        lookup_binding(map.drop_first(), input)
    }
}

/// Whether a gamepad input is bound in the map.
pub open spec fn is_bound(map: Seq<(ControllerInput, Button)>, input: ControllerInput) -> bool {
    exists|k: int| 0 <= k < map.len() && #[trigger] map[k].0 == input
}

/// The bindings after binding `input` (if any) to `button`, or the input if it is already bound.
pub open spec fn add_binding(
    map: Seq<(ControllerInput, Button)>,
    input: Option<ControllerInput>,
    button: Button,
) -> Result<Seq<(ControllerInput, Button)>, ControllerInput> {
    match input {
        None => Ok(map),
        Some(i) => if is_bound(map, i) {
            Err(i)
        } else {
            Ok(map.push((i, button)))
        },
    }
}

/// The configured gamepad inputs paired with their buttons, in configuration order.
pub open spec fn config_bindings(config: ControllerConfig) -> Seq<(Option<ControllerInput>, Button)> {
    seq![
        (config.up, Button::Up),
        (config.down, Button::Down),
        (config.left, Button::Left),
        (config.right, Button::Right),
        (config.a, Button::A),
        (config.b, Button::B),
        (config.start, Button::Start),
        (config.select, Button::Select),
    ]
}

/// The bindings after binding each pair in turn, or the first input found bound twice.
pub open spec fn bind_all(
    map: Seq<(ControllerInput, Button)>,
    bindings: Seq<(Option<ControllerInput>, Button)>,
) -> Result<Seq<(ControllerInput, Button)>, ControllerInput>
    decreases bindings.len(),
{
    if bindings.len() == 0 {
        Ok(map)
    } else {
        match add_binding(map, bindings[0].0, bindings[0].1) {
            Ok(m) => bind_all(m, bindings.drop_first()),
            Err(e) => Err(e),
        }
    }
}

/// No gamepad input is bound twice.
pub open spec fn bindings_unique(map: Seq<(ControllerInput, Button)>) -> bool {
    forall|i: int, j: int| 0 <= i < j < map.len() ==> #[trigger] map[i].0 != #[trigger] map[j].0
}

/// Gamepad inputs bound to Game Boy buttons, and the axis deadzone.
#[derive(Debug, Clone)]
pub struct ControllerMap {
    map: Vec<(ControllerInput, Button)>,
    axis_deadzone: i16,
}

/// The abstract gamepad configuration.
pub struct ControllerMapView {
    pub bindings: Seq<(ControllerInput, Button)>,
    pub axis_deadzone: i16,
}

impl View for ControllerMap {
    type V = ControllerMapView;

    closed spec fn view(&self) -> ControllerMapView {
        ControllerMapView { bindings: self.map@, axis_deadzone: self.axis_deadzone }
    }
}

/// Binding one more input keeps the bindings unique.
proof fn lemma_add_binding_unique(
    map: Seq<(ControllerInput, Button)>,
    input: Option<ControllerInput>,
    button: Button,
)
    requires
        bindings_unique(map),
    ensures
        add_binding(map, input, button) matches Ok(m) ==> bindings_unique(m),
{
}

impl ControllerMap {
    /// The gamepad map of a configuration: the deadzone must fit in an i16 and no input may
    /// be bound to two buttons.
    pub fn from_config(controller_config: &ControllerConfig) -> (r: Result<Self, JoystickError>)
        ensures
            controller_config.axis_deadzone > 32767 ==> r == Err::<Self, JoystickError>(
                JoystickError::InvalidDeadzone { deadzone: controller_config.axis_deadzone },
            ),
            controller_config.axis_deadzone <= 32767 ==> match bind_all(
                Seq::empty(),
                config_bindings(*controller_config),
            ) {
                Ok(bindings) => r matches Ok(m) && m@.bindings == bindings && m@.axis_deadzone
                    == controller_config.axis_deadzone,
                Err(input) => r == Err::<Self, JoystickError>(JoystickError::DuplicateInput { input }),
            },
            r matches Ok(m) ==> bindings_unique(m@.bindings),
    {
        if controller_config.axis_deadzone > 32767 {
            return Err(JoystickError::InvalidDeadzone { deadzone: controller_config.axis_deadzone });
        }
        let axis_deadzone = controller_config.axis_deadzone as i16;
        let ghost bindings = config_bindings(*controller_config);
        let mut map: Vec<(ControllerInput, Button)> = Vec::new();
        assert(bindings.subrange(0, 8) =~= bindings);
        assert(map@ =~= Seq::<(ControllerInput, Button)>::empty());
        Self::bind(&mut map, controller_config.up, Button::Up, Ghost(bindings), Ghost(0))?;
        Self::bind(&mut map, controller_config.down, Button::Down, Ghost(bindings), Ghost(1))?;
        Self::bind(&mut map, controller_config.left, Button::Left, Ghost(bindings), Ghost(2))?;
        Self::bind(&mut map, controller_config.right, Button::Right, Ghost(bindings), Ghost(3))?;
        Self::bind(&mut map, controller_config.a, Button::A, Ghost(bindings), Ghost(4))?;
        Self::bind(&mut map, controller_config.b, Button::B, Ghost(bindings), Ghost(5))?;
        Self::bind(&mut map, controller_config.start, Button::Start, Ghost(bindings), Ghost(6))?;
        Self::bind(&mut map, controller_config.select, Button::Select, Ghost(bindings), Ghost(7))?;
        Ok(Self { map, axis_deadzone })
    }

    /// Bind `input` (if any) to `button`, the `k`th of the configured bindings.
    fn bind(
        map: &mut Vec<(ControllerInput, Button)>,
        input: Option<ControllerInput>,
        button: Button,
        Ghost(bindings): Ghost<Seq<(Option<ControllerInput>, Button)>>,
        Ghost(k): Ghost<int>,
    ) -> (r: Result<(), JoystickError>)
        requires
            0 <= k < bindings.len(),
            bindings[k] == (input, button),
            bindings_unique(old(map)@),
        ensures
            match add_binding(old(map)@, input, button) {
                Ok(m) => r is Ok && final(map)@ == m,
                Err(i) => r == Err::<(), JoystickError>(JoystickError::DuplicateInput { input: i }),
            },
            bindings_unique(final(map)@),
            bind_all(old(map)@, bindings.subrange(k, bindings.len() as int)) == match add_binding(
                old(map)@,
                input,
                button,
            ) {
                Ok(m) => bind_all(m, bindings.subrange(k + 1, bindings.len() as int)),
                Err(e) => Err(e),
            },
    {
        proof {
            lemma_add_binding_unique(map@, input, button);
            assert(bindings.subrange(k, bindings.len() as int).drop_first() =~= bindings.subrange(
                k + 1,
                bindings.len() as int,
            ));
        }
        if let Some(input) = input {
            if Self::is_input_bound(map, input) {
                return Err(JoystickError::DuplicateInput { input });
            }
            map.push((input, button));
        }
        Ok(())
    }

    /// Whether `input` is already bound in `map`.
    fn is_input_bound(map: &Vec<(ControllerInput, Button)>, input: ControllerInput) -> (r: bool)
        ensures
            r == is_bound(map@, input),
    {
        let mut i: usize = 0;
        while i < map.len()
            invariant
                i <= map@.len(),
                forall|j: int| 0 <= j < i ==> #[trigger] map@[j].0 != input,
            decreases map@.len() - i,
        {
            if map[i].0 == input {
                return true;
            }
            i += 1;
        }
        false
    }

    /// The button bound to a gamepad input, if any.
    pub fn get(&self, input: ControllerInput) -> (r: Option<Button>)
        ensures
            r == lookup_binding(self@.bindings, input),
    {
        let mut i: usize = 0;
        assert(self.map@.subrange(0, self.map@.len() as int) =~= self.map@);
        while i < self.map.len()
            invariant
                i <= self.map@.len(),
                lookup_binding(self.map@, input) == lookup_binding(
                    self.map@.subrange(i as int, self.map@.len() as int),
                    input,
                ),
            decreases self.map@.len() - i,
        {
            assert(self.map@.subrange(i as int, self.map@.len() as int).drop_first()
                =~= self.map@.subrange(i + 1, self.map@.len() as int));
            if self.map[i].0 == input {
                return Some(self.map[i].1);
            }
            i += 1;
        }
        None
    }

    /// The axis deadzone.
    pub fn axis_deadzone(&self) -> (r: i16)
        ensures
            r == self@.axis_deadzone,
    {
        self.axis_deadzone
    }
}

/// The abstract joypad state: which buttons are held and the last value of each gamepad axis.
pub struct JoypadView {
    pub up: bool,
    pub down: bool,
    pub left: bool,
    pub right: bool,
    pub a: bool,
    pub b: bool,
    pub start: bool,
    pub select: bool,
    pub last_axis_values: Seq<i16>,
}

impl JoypadView {
    /// Whether a button is held.
    pub open spec fn pressed(self, button: Button) -> bool {
        match button {
            Button::Up => self.up,
            Button::Down => self.down,
            Button::Left => self.left,
            Button::Right => self.right,
            Button::A => self.a,
            Button::B => self.b,
            Button::Start => self.start,
            Button::Select => self.select,
        }
    }

    /// The state with one button held or released.
    pub open spec fn with_button(self, button: Button, pressed: bool) -> JoypadView {
        match button {
            Button::Up => JoypadView { up: pressed, ..self },
            Button::Down => JoypadView { down: pressed, ..self },
            Button::Left => JoypadView { left: pressed, ..self },
            Button::Right => JoypadView { right: pressed, ..self },
            Button::A => JoypadView { a: pressed, ..self },
            Button::B => JoypadView { b: pressed, ..self },
            Button::Start => JoypadView { start: pressed, ..self },
            Button::Select => JoypadView { select: pressed, ..self },
        }
    }

    /// The state with a button (if bound) held or released.
    pub open spec fn with_binding(self, button: Option<Button>, pressed: bool) -> JoypadView {
        match button {
            Some(b) => self.with_button(b, pressed),
            None => self,
        }
    }
}

/// The magnitude of an axis value, with -32768 saturating to 32767.
pub open spec fn saturating_abs(value: i16) -> i16 {
    if value == -32768 {
        32767
    } else if value < 0 {
        (-value) as i16
    } else {
        value
    }
}

/// The current state of the Game Boy buttons as reported by the keyboard and gamepads.
#[derive(Debug, Clone)]
pub struct JoypadState {
    up: bool,
    down: bool,
    left: bool,
    right: bool,
    a: bool,
    b: bool,
    start: bool,
    select: bool,
    last_joystick_axis_values: [i16; 256],
}

impl View for JoypadState {
    type V = JoypadView;

    closed spec fn view(&self) -> JoypadView {
        JoypadView {
            up: self.up,
            down: self.down,
            left: self.left,
            right: self.right,
            a: self.a,
            b: self.b,
            start: self.start,
            select: self.select,
            last_axis_values: self.last_joystick_axis_values@,
        }
    }
}

impl JoypadState {
    /// No button held and every axis centred.
    pub fn new() -> (r: Self)
        ensures
            forall|button: Button| !r@.pressed(button),
            r@.last_axis_values == Seq::new(256, |i: int| 0i16),
    {
        let r = Self {
            up: false,
            down: false,
            left: false,
            right: false,
            a: false,
            b: false,
            start: false,
            select: false,
            // "Map" from axis index to last value
            last_joystick_axis_values: [0; 256],
        };
        assert(r@.last_axis_values =~= Seq::new(256, |i: int| 0i16));
        r
    }

    /// Whether a button is held.
    pub fn is_pressed(&self, button: Button) -> (r: bool)
        ensures
            r == self@.pressed(button),
    {
        match button {
            Button::Up => self.up,
            Button::Down => self.down,
            Button::Left => self.left,
            Button::Right => self.right,
            Button::A => self.a,
            Button::B => self.b,
            Button::Start => self.start,
            Button::Select => self.select,
        }
    }

    /// Hold or release a button (if one is given).
    pub fn set_button(&mut self, button: Option<Button>, pressed: bool)
        ensures
            final(self)@ == old(self)@.with_binding(button, pressed),
    {
        match button {
            Some(Button::Up) => self.up = pressed,
            Some(Button::Down) => self.down = pressed,
            Some(Button::Left) => self.left = pressed,
            Some(Button::Right) => self.right = pressed,
            Some(Button::A) => self.a = pressed,
            Some(Button::B) => self.b = pressed,
            Some(Button::Start) => self.start = pressed,
            Some(Button::Select) => self.select = pressed,
            None => {},
        }
    }

    /// A gamepad button was pressed: hold the Game Boy button it is bound to.
    pub fn joy_button_down(&mut self, button: u8, controller_map: &ControllerMap)
        ensures
            final(self)@ == old(self)@.with_binding(
                lookup_binding(controller_map@.bindings, ControllerInput::Button(button)),
                true,
            ),
    {
        let input = ControllerInput::Button(button);
        self.set_button(controller_map.get(input), true);
    }

    /// A gamepad button was released: release the Game Boy button it is bound to.
    pub fn joy_button_up(&mut self, button: u8, controller_map: &ControllerMap)
        ensures
            final(self)@ == old(self)@.with_binding(
                lookup_binding(controller_map@.bindings, ControllerInput::Button(button)),
                false,
            ),
    {
        let input = ControllerInput::Button(button);
        self.set_button(controller_map.get(input), false);
    }

    /// A gamepad axis moved. Values within the deadzone count as centred; when the value
    /// changes, the buttons bound to the axis' positive and negative sides are held or released.
    pub fn joy_axis_motion(&mut self, axis: u8, value: i16, controller_map: &ControllerMap)
        ensures
            ({
                let value = if saturating_abs(value) < controller_map@.axis_deadzone {
                    0i16
                } else {
                    value
                };
                if value == old(self)@.last_axis_values[axis as int] {
                    final(self)@ == old(self)@
                } else {
                    final(self)@ == (JoypadView {
                        last_axis_values: old(self)@.last_axis_values.update(axis as int, value),
                        ..old(self)@
                    }).with_binding(
                        lookup_binding(controller_map@.bindings, ControllerInput::AxisPositive(axis)),
                        value > 0,
                    ).with_binding(
                        lookup_binding(controller_map@.bindings, ControllerInput::AxisNegative(axis)),
                        value < 0,
                    )
                }
            }),
    {
        // Apply deadzone, saturating so as not to leave -32768 as a negative number
        let magnitude = if value == i16::MIN {
            i16::MAX
        } else if value < 0 {
            -value
        } else {
            value
        };
        let value = if magnitude < controller_map.axis_deadzone() {
            0
        } else {
            value
        };
        // Don't bother checking anything if the value hasn't changed; axis events are very
        // frequent on any controller with analog sticks
        if value == self.last_joystick_axis_values[axis as usize] {
            return ;
        }
        self.last_joystick_axis_values[axis as usize] = value;
        let pos_state = value > 0;
        let neg_state = value < 0;
        let pos_button = controller_map.get(ControllerInput::AxisPositive(axis));
        let neg_button = controller_map.get(ControllerInput::AxisNegative(axis));
        self.set_button(pos_button, pos_state);
        self.set_button(neg_button, neg_state);
    }
}

/// The MBC7 accelerometer reading, centred at 0x8000 on both axes.
#[derive(Debug, Clone, Copy, PartialEq, Eq, Structural)]
pub struct AccelerometerState {
    pub x: u16,
    pub y: u16,
}

impl Default for AccelerometerState {
    fn default() -> (r: Self)
        ensures
            r == (AccelerometerState { x: 0x8000, y: 0x8000 }),
    {
        Self { x: 0x8000, y: 0x8000 }
    }
}

/// Whether a JOYP update is a joypad interrupt: one of bits 0-3 went from 1 to 0.
pub open spec fn spec_should_flag_interrupt(old_joyp: u8, new_joyp: u8) -> bool {
    (old_joyp & 0x01 != 0 && new_joyp & 0x01 == 0) || (old_joyp & 0x02 != 0 && new_joyp & 0x02
        == 0) || (old_joyp & 0x04 != 0 && new_joyp & 0x04 == 0) || (old_joyp & 0x08 != 0
        && new_joyp & 0x08 == 0)
}

fn should_flag_interrupt(old_joyp: u8, new_joyp: u8) -> (r: bool)
    ensures
        r == spec_should_flag_interrupt(old_joyp, new_joyp),
{
    (old_joyp & 0x01 != 0 && new_joyp & 0x01 == 0) || (old_joyp & 0x02 != 0 && new_joyp & 0x02
        == 0) || (old_joyp & 0x04 != 0 && new_joyp & 0x04 == 0) || (old_joyp & 0x08 != 0
        && new_joyp & 0x08 == 0)
}

/// JOYP as the buttons drive it: bits 4-5 select the action and/or direction buttons, and
/// each of bits 0-3 reads 0 while a selected button on that line is held.
pub open spec fn spec_joyp_value(joyp: u8, state: JoypadView) -> u8 {
    let actions_select = joyp & 0x20 == 0;
    let directions_select = joyp & 0x10 == 0;
    let bit_3 = !((actions_select && state.start) || (directions_select && state.down));
    let bit_2 = !((actions_select && state.select) || (directions_select && state.up));
    let bit_1 = !((actions_select && state.b) || (directions_select && state.left));
    let bit_0 = !((actions_select && state.a) || (directions_select && state.right));
    ((joyp & 0x30) | (if bit_3 {
        0x08u8
    } else {
        0u8
    }) | (if bit_2 {
        0x04u8
    } else {
        0u8
    }) | (if bit_1 {
        0x02u8
    } else {
        0u8
    }) | (if bit_0 {
        0x01u8
    } else {
        0u8
    }))
}

/// The registers after JOYP is updated from the buttons; a joypad interrupt is requested when
/// a selected button is newly pressed.
pub open spec fn spec_update_joyp(io: IoRegistersView, state: JoypadView) -> IoRegistersView {
    let joyp = io.read_register(IoRegister::JOYP);
    let new_joyp = spec_joyp_value(joyp, state);
    let io1 = io.with_byte(IoRegister::JOYP, new_joyp & 0x3F);
    if spec_should_flag_interrupt(joyp, new_joyp) {
        io1.with_byte(IoRegister::IF, io1.byte(IoRegister::IF) | InterruptType::Joypad.spec_bit())
    } else {
        io1
    }
}

/// Update the contents of the JOYP hardware register based on the current joypad state, and request
/// a joypad interrupt if any selected buttons have been pressed.
///
/// This needs to be called after every CPU instruction because the CPU can write to the JOYP
/// register to specify whether it wants to read directions or button presses, and the same register
/// bits are used for both.
pub fn update_joyp_register(joypad_state: &JoypadState, io_registers: &mut IoRegisters)
    ensures
        final(io_registers)@ == spec_update_joyp(old(io_registers)@, joypad_state@),
{
    let joyp = io_registers.read_register(IoRegister::JOYP);
    let actions_select = joyp & 0x20 == 0;
    let directions_select = joyp & 0x10 == 0;
    let bit_3 = !((actions_select && joypad_state.start) || (directions_select
        && joypad_state.down));
    let bit_2 = !((actions_select && joypad_state.select) || (directions_select
        && joypad_state.up));
    let bit_1 = !((actions_select && joypad_state.b) || (directions_select && joypad_state.left));
    let bit_0 = !((actions_select && joypad_state.a) || (directions_select
        && joypad_state.right));
    let new_joyp = (joyp & 0x30) | (if bit_3 {
        0x08u8
    } else {
        0u8
    }) | (if bit_2 {
        0x04u8
    } else {
        0u8
    }) | (if bit_1 {
        0x02u8
    } else {
        0u8
    }) | (if bit_0 {
        0x01u8
    } else {
        0u8
    });
    io_registers.privileged_set_joyp(new_joyp);
    if should_flag_interrupt(joyp, new_joyp) {
        io_registers.request_interrupt(InterruptType::Joypad);
    }
}

/// Pressing a button that was not held and releasing it again leaves the joypad as it was.
pub proof fn law_press_release(state: JoypadView, button: Button)
    requires
        !state.pressed(button),
    ensures
        state.with_button(button, true).with_button(button, false) == state,
        state.with_button(button, true).pressed(button),
{
}

} // verus!
