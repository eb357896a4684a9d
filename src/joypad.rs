use vstd::prelude::*;

verus! {

/// The eight buttons of a controller.
#[derive(PartialEq, Eq, Structural, Clone, Copy, Debug)]
pub enum JoyButton {
    Up,
    Down,
    Left,
    Right,
    A,
    B,
    Select,
    Start,
}

/// The button with a given number, in the order Up, Down, Left, Right, A, B,
/// Select, Start; every number from 7 on is Start.
pub open spec fn button_of(x: int) -> JoyButton {
    if x == 0 {
        JoyButton::Up
    } else if x == 1 {
        JoyButton::Down
    } else if x == 2 {
        JoyButton::Left
    } else if x == 3 {
        JoyButton::Right
    } else if x == 4 {
        JoyButton::A
    } else if x == 5 {
        JoyButton::B
    } else if x == 6 {
        JoyButton::Select
    } else {
        JoyButton::Start
    }
}

impl JoyButton {
    /// The button with number `x` (see `button_of`).
    pub fn from_usize(x: usize) -> (r: JoyButton)
        ensures
            r == button_of(x as int),
    {
        if x == 0 {
            JoyButton::Up
        } else if x == 1 {
            JoyButton::Down
        } else if x == 2 {
            JoyButton::Left
        } else if x == 3 {
            JoyButton::Right
        } else if x == 4 {
            JoyButton::A
        } else if x == 5 {
            JoyButton::B
        } else if x == 6 {
            JoyButton::Select
        } else {
            JoyButton::Start
        }
    }
}

/// The first controller port: the buttons held in the current frame and the
/// serial read position that a strobe resets.
pub struct Joypad {
    pub keys: Vec<JoyButton>,
    pub joypad_1_last_write: u8,
    pub joypad_1_read_ptr: u8,
}

/// The bit that the first port reports at read position `ptr`: A, B, Select,
/// Start, Up, Down, Left, Right for positions 1 to 8 (Down only without Up, Right
/// only without Left), nothing elsewhere.
pub open spec fn port_bit(keys: Seq<JoyButton>, ptr: u8) -> bool {
    if ptr == 1 {
        keys.contains(JoyButton::A)
    } else if ptr == 2 {
        keys.contains(JoyButton::B)
    } else if ptr == 3 {
        keys.contains(JoyButton::Select)
    } else if ptr == 4 {
        keys.contains(JoyButton::Start)
    } else if ptr == 5 {
        keys.contains(JoyButton::Up)
    } else if ptr == 6 {
        keys.contains(JoyButton::Down) && !keys.contains(JoyButton::Up)
    } else if ptr == 7 {
        keys.contains(JoyButton::Left)
    } else if ptr == 8 {
        keys.contains(JoyButton::Right) && !keys.contains(JoyButton::Left)
    } else {
        false
    }
}

fn holds(keys: &Vec<JoyButton>, b: JoyButton) -> (r: bool)
    ensures
        r == keys@.contains(b),
{
    let mut i: usize = 0;
    while i < keys.len()
        invariant
            i <= keys@.len(),
            forall|j: int| 0 <= j < i ==> keys@[j] != b,
        decreases keys@.len() - i,
    {
        if keys[i] == b {
            return true;
        }
        i = i + 1;
    }
    false
}

impl Joypad {
    /// The value a read of the first port returns.
    pub open spec fn read_value(&self) -> u8 {
        if port_bit(self.keys@, self.joypad_1_read_ptr) { 1 } else { 0 }
    }

    /// The port after a read: the read position advances (it stops at 255).
    pub open spec fn after_read(&self) -> Joypad {
        Joypad {
            joypad_1_read_ptr: if self.joypad_1_read_ptr < 255 {
                (self.joypad_1_read_ptr + 1) as u8
            } else {
                255
            },
            ..*self
        }
    }

    /// The port after a strobe write: a 1 followed by a 0 rewinds the reads to the
    /// first button.
    pub open spec fn after_write(&self, data: u8) -> Joypad {
        Joypad {
            joypad_1_read_ptr: if data == 0 && self.joypad_1_last_write == 1 {
                1
            } else {
                self.joypad_1_read_ptr
            },
            joypad_1_last_write: data,
            ..*self
        }
    }

    /// A port with no buttons held.
    pub fn new() -> (r: Joypad)
        ensures
            r.keys@.len() == 0,
            r.joypad_1_last_write == 0,
            r.joypad_1_read_ptr == 0,
    {
        Joypad { keys: Vec::new(), joypad_1_last_write: 0, joypad_1_read_ptr: 0 }
    }

    /// Replaces the set of held buttons.
    pub fn update_keys(&mut self, keys: Vec<JoyButton>)
        ensures
            *final(self) == (Joypad { keys: keys, ..*old(self) }),
    {
        self.keys = keys;
    }

    /// The button at the current read position of the first port, as 1 (held)
    /// or 0, without advancing.
    pub fn joypad_1_peek(&self) -> (r: u8)
        ensures
            r == self.read_value(),
    {
        let ptr = self.joypad_1_read_ptr;
        let result = if ptr == 1 {
            holds(&self.keys, JoyButton::A)
        } else if ptr == 2 {
            holds(&self.keys, JoyButton::B)
        } else if ptr == 3 {
            holds(&self.keys, JoyButton::Select)
        } else if ptr == 4 {
            holds(&self.keys, JoyButton::Start)
        } else if ptr == 5 {
            holds(&self.keys, JoyButton::Up)
        } else if ptr == 6 {
            holds(&self.keys, JoyButton::Down) && !holds(&self.keys, JoyButton::Up)
        } else if ptr == 7 {
            holds(&self.keys, JoyButton::Left)
        } else if ptr == 8 {
            holds(&self.keys, JoyButton::Right) && !holds(&self.keys, JoyButton::Left)
        } else {
            false
        };
        if result { 1 } else { 0 }
    }

    /// Reads the next button of the first port, as 1 (held) or 0.
    pub fn joypad_1_read(&mut self) -> (r: u8)
        ensures
            r == old(self).read_value(),
            *final(self) == old(self).after_read(),
    {
        let result = self.joypad_1_peek();
        if self.joypad_1_read_ptr < 255 {
            self.joypad_1_read_ptr = self.joypad_1_read_ptr + 1;
        }
        result
    }

    /// Writes the strobe of the first port.
    pub fn joypad_1_write(&mut self, data: u8)
        ensures
            *final(self) == old(self).after_write(data),
    {
        if data == 0 && self.joypad_1_last_write == 1 {
            self.joypad_1_read_ptr = 1;
        }
        self.joypad_1_last_write = data;
    }

    /// Reads the second port, which has no controller attached.
    pub fn joypad_2_read(&self) -> (r: u8)
        ensures
            r == 0,
    {
        0
    }

    /// Writes the second port, which has no controller attached.
    pub fn joypad_2_write(&mut self, data: u8)
        ensures
            *final(self) == *old(self),
    {
    }
}

} // verus!
