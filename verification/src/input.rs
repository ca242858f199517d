//! Input controllers: heterogeneous devices (keyboard key-state, multi-axis
//! gamepad) normalized into one bounded two-axis control signal.
//!
//! Control values are fixed-point integers in thousandths: `1000` stands for
//! a full deflection of `1.0`. The unverified shell feeds raw device events
//! in and converts analog float readings to thousandths (clamped) before
//! they reach this module.

use vstd::prelude::*;

use std::collections::HashMap;

verus! {

broadcast use vstd::std_specs::hash::group_hash_axioms;

/// One two-axis control sample: `(rotation, acceleration)`, each in
/// thousandths of full deflection.
#[derive(Clone, Copy, Debug, PartialEq, Eq, Structural)]
pub struct ControlSignal {
    pub rotation: i32,
    pub acceleration: i32,
}

impl ControlSignal {
    /// Both axes stay within one full deflection.
    pub open spec fn bounded(self) -> bool {
        -1000 <= self.rotation <= 1000 && -1000 <= self.acceleration <= 1000
    }

    /// The neutral signal.
    pub fn zero() -> (r: ControlSignal)
        ensures
            r.rotation == 0 && r.acceleration == 0,
    {
        ControlSignal { rotation: 0, acceleration: 0 }
    }
}

/// One physical or logical keyboard key, identified by the code the window
/// library reports.
#[derive(Clone, Copy, Debug, PartialEq, Eq, Hash, Structural)]
pub enum Key {
    /// Layout-dependent logical key code.
    LogicKey(u32),
    /// Layout-independent scan code.
    PhysicKey(u32),
}

impl Key {
    /// Injective encoding of a key into one map key.
    pub open spec fn spec_id(self) -> u64 {
        match self {
            Key::LogicKey(c) => c as u64,
            Key::PhysicKey(c) => (c as u64 + 0x1_0000_0000u64) as u64,
        }
    }

    /// Injective encoding of a key into one map key.
    pub fn id(self) -> (r: u64)
        ensures
            r == self.spec_id(),
    {
        match self {
            Key::LogicKey(c) => c as u64,
            Key::PhysicKey(c) => c as u64 + 0x1_0000_0000u64,
        }
    }
}

/// Last-value cache of keyboard key states, keyed by encoded key. The
/// input-dispatch side feeds every key event in; controllers read only their
/// four movement keys.
pub struct Keyboard {
    pub key_map: HashMap<u64, bool>,
}

/// Key states after one keyboard input event: the scan code is always
/// recorded, the logical code only when the window library decoded one.
pub open spec fn keyboard_after(
    m: Map<u64, bool>,
    scancode: u32,
    virtual_keycode: Option<u32>,
    pressed: bool,
) -> Map<u64, bool> {
    let with_phys = m.insert(Key::PhysicKey(scancode).spec_id(), pressed);
    match virtual_keycode {
        Some(code) => with_phys.insert(Key::LogicKey(code).spec_id(), pressed),
        None => with_phys,
    }
}

/// Whether `key` is currently pressed: 1 or 0, so that the control formulas
/// read like the arithmetic they are.
pub open spec fn key_pressed(kb: &Keyboard, key: Key) -> int {
    if kb.key_map@.contains_key(key.spec_id()) && kb.key_map@[key.spec_id()] {
        1
    } else {
        0
    }
}

impl Keyboard {
    pub fn new() -> (r: Keyboard)
        ensures
            r.key_map@ == Map::<u64, bool>::empty(),
    {
        Keyboard { key_map: HashMap::new() }
    }

    /// Record one key event in the last-value cache.
    pub fn input_event(&mut self, scancode: u32, virtual_keycode: Option<u32>, pressed: bool)
        ensures
            final(self).key_map@ == keyboard_after(
                old(self).key_map@,
                scancode,
                virtual_keycode,
                pressed,
            ),
    {
        self.key_map.insert(Key::PhysicKey(scancode).id(), pressed);
        if let Some(code) = virtual_keycode {
            self.key_map.insert(Key::LogicKey(code).id(), pressed);
        }
    }

    /// Bind four movement keys `[forward, back, left, right]` to a new
    /// controller reading this keyboard.
    pub fn create_sub_controller(&self, movement_keys: [Key; 4]) -> (r: SubKeyboardController)
        ensures
            r.movement_keys == movement_keys,
    {
        SubKeyboardController { movement_keys }
    }
}

/// Keyboard-backed controller: four movement keys `[forward, back, left,
/// right]` mapped to the two control axes.
pub struct SubKeyboardController {
    pub movement_keys: [Key; 4],
}

/// The rotation a keyboard controller commands: right minus left, so that
/// simultaneous opposite presses cancel to zero.
pub open spec fn kb_rotation(kb: &Keyboard, keys: Seq<Key>) -> int {
    1000 * key_pressed(kb, keys[3]) - 1000 * key_pressed(kb, keys[2])
}

/// The acceleration a keyboard controller commands: full forward, 0.6
/// reverse.
pub open spec fn kb_acceleration(kb: &Keyboard, keys: Seq<Key>) -> int {
    1000 * key_pressed(kb, keys[0]) - 600 * key_pressed(kb, keys[1])
}

impl SubKeyboardController {
    /// Latest control signal from the cached key states. Non-blocking,
    /// last-value semantics.
    pub fn movement_status(&self, keyboard: &Keyboard) -> (r: ControlSignal)
        ensures
            r.rotation == kb_rotation(keyboard, self.movement_keys@),
            r.acceleration == kb_acceleration(keyboard, self.movement_keys@),
            r.bounded(),
    {
        let forward = self.key_value(keyboard, 0);
        let back = self.key_value(keyboard, 1);
        let left = self.key_value(keyboard, 2);
        let right = self.key_value(keyboard, 3);
        ControlSignal { rotation: 1000 * right - 1000 * left, acceleration: 1000 * forward - 600
            * back }
    }

    /// 1 when the movement key with this index is pressed, else 0.
    fn key_value(&self, keyboard: &Keyboard, index: usize) -> (r: i32)
        requires
            index < 4,
        ensures
            r == key_pressed(keyboard, self.movement_keys@[index as int]),
    {
        let key = self.movement_keys[index];
        match keyboard.key_map.get(&key.id()) {
            Some(b) => if *b {
                1
            } else {
                0
            },
            None => 0,
        }
    }
}

/// One poll of the gamepad's movement inputs, in thousandths: two analog
/// sticks and the digital pad (`-1000`, `0` or `1000`) per axis.
#[derive(Clone, Copy, Debug, PartialEq, Eq, Structural)]
pub struct GamepadStatus {
    pub right_stick_x: i32,
    pub left_stick_x: i32,
    pub dpad_x: i32,
    pub right_stick_y: i32,
    pub left_stick_y: i32,
    pub dpad_y: i32,
}

impl GamepadStatus {
    /// Every reading stays within one full deflection; the shell clamps raw
    /// values before handing them over.
    pub open spec fn bounded(self) -> bool {
        &&& -1000 <= self.right_stick_x <= 1000
        &&& -1000 <= self.left_stick_x <= 1000
        &&& -1000 <= self.dpad_x <= 1000
        &&& -1000 <= self.right_stick_y <= 1000
        &&& -1000 <= self.left_stick_y <= 1000
        &&& -1000 <= self.dpad_y <= 1000
    }
}

/// The positive contribution of one source.
pub open spec fn pos_part(v: int) -> int {
    if v > 0 {
        v
    } else {
        0
    }
}

/// The negative contribution of one source.
pub open spec fn neg_part(v: int) -> int {
    if v < 0 {
        v
    } else {
        0
    }
}

/// Combine three candidate sources of one axis: the largest positive
/// contribution plus the smallest negative one, so agreeing sources do not
/// add up beyond full deflection and opposing sources partially cancel.
pub open spec fn combine_axis(a: int, b: int, c: int) -> int {
    let p = if pos_part(a) >= pos_part(b) && pos_part(a) >= pos_part(c) {
        pos_part(a)
    } else if pos_part(b) >= pos_part(c) {
        pos_part(b)
    } else {
        pos_part(c)
    };
    let n = if neg_part(a) <= neg_part(b) && neg_part(a) <= neg_part(c) {
        neg_part(a)
    } else if neg_part(b) <= neg_part(c) {
        neg_part(b)
    } else {
        neg_part(c)
    };
    p + n
}

/// The signal one gamepad poll normalizes to: each axis combined from its
/// three sources, reverse acceleration capped at 0.6.
pub open spec fn gamepad_signal(status: GamepadStatus) -> ControlSignal {
    let rot = combine_axis(
        status.right_stick_x as int,
        status.left_stick_x as int,
        status.dpad_x as int,
    );
    let acl = combine_axis(
        status.right_stick_y as int,
        status.left_stick_y as int,
        status.dpad_y as int,
    );
    (ControlSignal { rotation: rot as i32, acceleration: (if acl >= -600 {
        acl
    } else {
        -600
    }) as i32 })
}

fn combine_axis_exec(a: i32, b: i32, c: i32) -> (r: i32)
    requires
        -1000 <= a <= 1000,
        -1000 <= b <= 1000,
        -1000 <= c <= 1000,
    ensures
        r == combine_axis(a as int, b as int, c as int),
        -1000 <= r <= 1000,
{
    let pa = if a > 0 { a } else { 0 };
    let pb = if b > 0 { b } else { 0 };
    let pc = if c > 0 { c } else { 0 };
    let na = if a < 0 { a } else { 0 };
    let nb = if b < 0 { b } else { 0 };
    let nc = if c < 0 { c } else { 0 };
    let p = if pa >= pb && pa >= pc {
        pa
    } else if pb >= pc {
        pb
    } else {
        pc
    };
    let n = if na <= nb && na <= nc {
        na
    } else if nb <= nc {
        nb
    } else {
        nc
    };
    p + n
}

/// Simultaneous opposite-direction presses cancel: with both the left and
/// the right movement key down (or both up), a keyboard controller commands
/// no rotation at all.
pub proof fn lemma_opposite_presses_cancel(kb: &Keyboard, keys: Seq<Key>)
    requires
        keys.len() == 4,
        key_pressed(kb, keys[2]) == key_pressed(kb, keys[3]),
    ensures
        kb_rotation(kb, keys) == 0,
{
}

/// Agreeing sources clamp instead of summing: however three bounded sources
/// of one axis combine, the result never leaves one full deflection.
pub proof fn lemma_combined_axis_bounded(a: int, b: int, c: int)
    requires
        -1000 <= a <= 1000,
        -1000 <= b <= 1000,
        -1000 <= c <= 1000,
    ensures
        -1000 <= combine_axis(a, b, c) <= 1000,
{
}

/// Last-value caches for every registered gamepad, keyed by device id.
pub struct Gamepad {
    pub controllers: HashMap<u64, ControlSignal>,
}

/// Every cached signal stays bounded.
pub open spec fn gamepad_wf(g: &Gamepad) -> bool {
    forall|id: u64|
        g.controllers@.contains_key(id) ==> (#[trigger] g.controllers@[id]).bounded()
}

/// Cached signals after one gamepad poll: only a registered device is
/// updated, and it is updated to the normalized signal.
pub open spec fn gamepad_after(m: Map<u64, ControlSignal>, id: u64, status: GamepadStatus) -> Map<
    u64,
    ControlSignal,
> {
    if m.contains_key(id) {
        m.insert(id, gamepad_signal(status))
    } else {
        m
    }
}

impl Gamepad {
    pub fn new() -> (r: Gamepad)
        ensures
            r.controllers@ == Map::<u64, ControlSignal>::empty(),
            gamepad_wf(&r),
    {
        Gamepad { controllers: HashMap::new() }
    }

    /// Normalize one poll of a device's movement inputs into that device's
    /// last-value cache. Events of unregistered devices are ignored.
    pub fn input_event(&mut self, id: u64, status: GamepadStatus)
        requires
            status.bounded(),
            gamepad_wf(&*old(self)),
        ensures
            final(self).controllers@ == gamepad_after(old(self).controllers@, id, status),
            gamepad_wf(&*final(self)),
    {
        if self.controllers.contains_key(&id) {
            let rot = combine_axis_exec(status.right_stick_x, status.left_stick_x, status.dpad_x);
            let acl = combine_axis_exec(status.right_stick_y, status.left_stick_y, status.dpad_y);
            let acl = if acl >= -600 {
                acl
            } else {
                -600
            };
            self.controllers.insert(id, ControlSignal { rotation: rot, acceleration: acl });
        }
    }

    /// Register a device and hand out a controller reading its cache.
    pub fn create_gamepad_controller(&mut self, id: u64) -> (r: GamepadController)
        requires
            gamepad_wf(&*old(self)),
        ensures
            r.id == id,
            final(self).controllers@ == old(self).controllers@.insert(
                id,
                (ControlSignal { rotation: 0, acceleration: 0 }),
            ),
            gamepad_wf(&*final(self)),
    {
        self.controllers.insert(id, ControlSignal::zero());
        GamepadController { id }
    }
}

/// Gamepad-backed controller: reads the cached signal of one device.
pub struct GamepadController {
    pub id: u64,
}

/// The cached signal of a device, or neutral while it is unregistered.
pub open spec fn pad_signal(g: &Gamepad, id: u64) -> ControlSignal {
    if g.controllers@.contains_key(id) {
        g.controllers@[id]
    } else {
        ControlSignal { rotation: 0, acceleration: 0 }
    }
}

impl GamepadController {
    /// Latest normalized control signal. Non-blocking, last-value semantics.
    pub fn movement_status(&self, gamepad: &Gamepad) -> (r: ControlSignal)
        requires
            gamepad_wf(gamepad),
        ensures
            r == pad_signal(gamepad, self.id),
            r.bounded(),
    {
        match gamepad.controllers.get(&self.id) {
            Some(sig) => *sig,
            None => ControlSignal::zero(),
        }
    }
}

/// Logical key codes for the keys the preset controllers use, as the window
/// library enumerates them.
pub const KEY_CODE_E: u32 = 14;

pub const KEY_CODE_D: u32 = 13;

pub const KEY_CODE_S: u32 = 28;

pub const KEY_CODE_F: u32 = 15;

pub const KEY_CODE_UP: u32 = 71;

pub const KEY_CODE_DOWN: u32 = 73;

pub const KEY_CODE_LEFT: u32 = 70;

pub const KEY_CODE_RIGHT: u32 = 72;

/// Logical key codes the admission scene listens for.
pub const KEY_CODE_Q: u32 = 26;

pub const KEY_CODE_M: u32 = 22;

/// The controller `create_controller_red` hands out.
pub open spec fn controller_red() -> Controller {
    Controller::Keyboard(
        SubKeyboardController {
            movement_keys: [
                Key::LogicKey(KEY_CODE_E),
                Key::LogicKey(KEY_CODE_D),
                Key::LogicKey(KEY_CODE_S),
                Key::LogicKey(KEY_CODE_F),
            ],
        },
    )
}

/// The controller `create_controller_green` hands out.
pub open spec fn controller_green() -> Controller {
    Controller::Keyboard(
        SubKeyboardController {
            movement_keys: [
                Key::LogicKey(KEY_CODE_UP),
                Key::LogicKey(KEY_CODE_DOWN),
                Key::LogicKey(KEY_CODE_LEFT),
                Key::LogicKey(KEY_CODE_RIGHT),
            ],
        },
    )
}

/// One device input delivered to the input center, already reduced to plain
/// values by the dispatch shell.
pub enum InputEvent {
    /// A keyboard key changed state.
    KeyboardKey { scancode: u32, virtual_keycode: Option<u32>, pressed: bool },
    /// A registered gamepad was polled.
    GamepadAxes { id: u64, status: GamepadStatus },
}

impl InputEvent {
    /// Analog readings must arrive clamped.
    pub open spec fn bounded(&self) -> bool {
        match *self {
            InputEvent::KeyboardKey { .. } => true,
            InputEvent::GamepadAxes { status, .. } => status.bounded(),
        }
    }
}

/// Owner of all controllers' underlying input state: one keyboard cache and
/// the gamepad caches. The dispatch shell feeds events in; the simulation
/// side reads signals out through controllers.
pub struct InputCenter {
    pub keyboard: Keyboard,
    pub gamepad: Gamepad,
}

impl InputCenter {
    /// The invariant every event route preserves.
    pub open spec fn wf(&self) -> bool {
        gamepad_wf(&self.gamepad)
    }

    pub fn new() -> (r: InputCenter)
        ensures
            r.keyboard.key_map@ == Map::<u64, bool>::empty(),
            r.gamepad.controllers@ == Map::<u64, ControlSignal>::empty(),
            r.wf(),
    {
        InputCenter { keyboard: Keyboard::new(), gamepad: Gamepad::new() }
    }

    /// Route one event to the cache it belongs to.
    pub fn update(&mut self, event: &InputEvent)
        requires
            event.bounded(),
            old(self).wf(),
        ensures
            final(self).wf(),
            match *event {
                InputEvent::KeyboardKey { scancode, virtual_keycode, pressed } => {
                    &&& final(self).keyboard.key_map@ == keyboard_after(
                        old(self).keyboard.key_map@,
                        scancode,
                        virtual_keycode,
                        pressed,
                    )
                    &&& final(self).gamepad == old(self).gamepad
                },
                InputEvent::GamepadAxes { id, status } => {
                    &&& final(self).gamepad.controllers@ == gamepad_after(
                        old(self).gamepad.controllers@,
                        id,
                        status,
                    )
                    &&& final(self).keyboard == old(self).keyboard
                },
            },
    {
        match event {
            InputEvent::KeyboardKey { scancode, virtual_keycode, pressed } => {
                self.keyboard.input_event(*scancode, *virtual_keycode, *pressed);
            },
            InputEvent::GamepadAxes { id, status } => {
                self.gamepad.input_event(*id, *status);
            },
        }
    }

    /// The first preset keyboard controller: E/D for throttle, S/F to turn.
    pub fn create_controller_red(&self) -> (r: Controller)
        ensures
            r == controller_red(),
    {
        Controller::Keyboard(
            self.keyboard.create_sub_controller(
                [
                    Key::LogicKey(KEY_CODE_E),
                    Key::LogicKey(KEY_CODE_D),
                    Key::LogicKey(KEY_CODE_S),
                    Key::LogicKey(KEY_CODE_F),
                ],
            ),
        )
    }

    /// The second preset keyboard controller: the arrow keys.
    pub fn create_controller_green(&self) -> (r: Controller)
        ensures
            r == controller_green(),
    {
        Controller::Keyboard(
            self.keyboard.create_sub_controller(
                [
                    Key::LogicKey(KEY_CODE_UP),
                    Key::LogicKey(KEY_CODE_DOWN),
                    Key::LogicKey(KEY_CODE_LEFT),
                    Key::LogicKey(KEY_CODE_RIGHT),
                ],
            ),
        )
    }

    /// Register a gamepad and hand out its controller.
    pub fn create_gamepad_controller(&mut self, id: u64) -> (r: Controller)
        requires
            old(self).wf(),
        ensures
            final(self).wf(),
            r == (Controller::Gamepad(GamepadController { id })),
            final(self).keyboard == old(self).keyboard,
            final(self).gamepad.controllers@ == old(self).gamepad.controllers@.insert(
                id,
                (ControlSignal { rotation: 0, acceleration: 0 }),
            ),
    {
        Controller::Gamepad(self.gamepad.create_gamepad_controller(id))
    }
}

/// A controller: one capability, `movement_status`, over two concrete device
/// kinds, selected at tank-creation time.
pub enum Controller {
    Gamepad(GamepadController),
    Keyboard(SubKeyboardController),
}

/// The signal a controller reads from the current input state.
pub open spec fn controller_signal(c: &Controller, input: &InputCenter) -> ControlSignal {
    match *c {
        Controller::Gamepad(ref g) => pad_signal(&input.gamepad, g.id),
        Controller::Keyboard(ref k) => (ControlSignal {
            rotation: kb_rotation(&input.keyboard, k.movement_keys@) as i32,
            acceleration: kb_acceleration(&input.keyboard, k.movement_keys@) as i32,
        }),
    }
}

impl Controller {
    /// Latest control signal of whichever device backs this controller.
    /// Always within one full deflection on both axes, whatever the raw
    /// inputs were.
    pub fn movement_status(&self, input: &InputCenter) -> (r: ControlSignal)
        requires
            input.wf(),
        ensures
            r == controller_signal(self, input),
            r.bounded(),
    {
        match self {
            Controller::Gamepad(g) => g.movement_status(&input.gamepad),
            Controller::Keyboard(k) => k.movement_status(&input.keyboard),
        }
    }
}

} // verus!
