//! Standard NES controllers. Joypads #1 and #2 are read via $4016 and $4017.
//! Writing 1 then 0 to $4016 strobes them; each following read returns one
//! button (A, B, Select, Start, Up, Down, Left, Right), then 1.
use vstd::prelude::*;

verus! {

#[derive(Debug, PartialEq, Eq, Structural, Copy, Clone)]
pub enum Player {
    One,
    Two,
}

#[derive(Debug, PartialEq, Eq, Structural, Copy, Clone)]
pub enum InputAction {
    A,
    B,
    SELECT,
    START,
    UP,
    DOWN,
    LEFT,
    RIGHT,
}

#[derive(Debug, PartialEq, Eq, Structural, Copy, Clone)]
pub enum InputState {
    Pressed,
    Released,
}

/// Position of a button in the serial report.
pub open spec fn button_index(button: InputAction) -> u8 {
    match button {
        InputAction::A => 0,
        InputAction::B => 1,
        InputAction::SELECT => 2,
        InputAction::START => 3,
        InputAction::UP => 4,
        InputAction::DOWN => 5,
        InputAction::LEFT => 6,
        InputAction::RIGHT => 7,
    }
}

/// A joypad with no button held, reporting from button A.
pub open spec fn released_joypad() -> Joypad {
    Joypad {
        current_index: 0, a: 0, b: 0, select: 0, start: 0,
        up: 0, down: 0, left: 0, right: 0, reset_buf: 0,
    }
}

pub struct Joypad {
    /// Next button to report, 0 to 7 (8 and above report 1).
    pub current_index: u8,
    /// 1 while the button is held, 0 otherwise.
    pub a: u8,
    pub b: u8,
    pub select: u8,
    pub start: u8,
    pub up: u8,
    pub down: u8,
    pub left: u8,
    pub right: u8,
    /// Last value written, to detect the 1-then-0 strobe.
    pub reset_buf: u8,
}

impl Joypad {
    /// Value reported at serial position `i`.
    pub open spec fn spec_report(&self, i: u8) -> u8 {
        if i == 0 {
            self.a
        } else if i == 1 {
            self.b
        } else if i == 2 {
            self.select
        } else if i == 3 {
            self.start
        } else if i == 4 {
            self.up
        } else if i == 5 {
            self.down
        } else if i == 6 {
            self.left
        } else if i == 7 {
            self.right
        } else {
            1
        }
    }

    /// Joypad after `value` is written to $4016: a 0 right after a 1
    /// rewinds the report to button A.
    pub open spec fn after_strobe(self, value: u8) -> Joypad {
        Joypad {
            current_index: if self.reset_buf == 1 && value == 0 { 0 } else { self.current_index },
            reset_buf: value,
            ..self
        }
    }

    /// Same joypad with `button` set to `v`.
    pub open spec fn with_button(self, button: InputAction, v: u8) -> Joypad {
        match button {
            InputAction::A => Joypad { a: v, ..self },
            InputAction::B => Joypad { b: v, ..self },
            InputAction::SELECT => Joypad { select: v, ..self },
            InputAction::START => Joypad { start: v, ..self },
            InputAction::UP => Joypad { up: v, ..self },
            InputAction::DOWN => Joypad { down: v, ..self },
            InputAction::LEFT => Joypad { left: v, ..self },
            InputAction::RIGHT => Joypad { right: v, ..self },
        }
    }

    /// Every button field is 0 or 1.
    pub open spec fn wf(self) -> bool {
        &&& self.a <= 1 && self.b <= 1 && self.select <= 1 && self.start <= 1
        &&& self.up <= 1 && self.down <= 1 && self.left <= 1 && self.right <= 1
    }

    pub fn new() -> (j: Joypad)
        ensures
            j == released_joypad(),
            j.wf(),
    {
        Joypad {
            current_index: 0,
            a: 0,
            b: 0,
            select: 0,
            start: 0,
            up: 0,
            down: 0,
            left: 0,
            right: 0,
            reset_buf: 0,
        }
    }

    /// A write of 0 right after a write of 1 rewinds the report to button A.
    pub fn write(&mut self, value: u8)
        ensures
            *final(self) == old(self).after_strobe(value),
            old(self).wf() ==> final(self).wf(),
    {
        if self.reset_buf == 1 && value == 0 {
            self.current_index = 0;
        }
        self.reset_buf = value;
    }

    /// Reports the current button and moves to the next one.
    pub fn read(&mut self) -> (r: u8)
        requires
            old(self).current_index < 255,
        ensures
            r == old(self).spec_report(old(self).current_index),
            *final(self) == (Joypad { current_index: (old(self).current_index + 1) as u8, ..*old(self) }),
            old(self).wf() ==> r <= 1 && final(self).wf(),
    {
        let return_value = if self.current_index == 0 {
            self.a
        } else if self.current_index == 1 {
            self.b
        } else if self.current_index == 2 {
            self.select
        } else if self.current_index == 3 {
            self.start
        } else if self.current_index == 4 {
            self.up
        } else if self.current_index == 5 {
            self.down
        } else if self.current_index == 6 {
            self.left
        } else if self.current_index == 7 {
            self.right
        } else {
            1
        };
        self.current_index = self.current_index + 1;
        return_value
    }

    pub fn button_up(&mut self, button: &InputAction)
        ensures
            *final(self) == old(self).with_button(*button, 0),
            old(self).wf() ==> final(self).wf(),
    {
        match *button {
            InputAction::A => self.a = 0,
            InputAction::B => self.b = 0,
            InputAction::START => self.start = 0,
            InputAction::SELECT => self.select = 0,
            InputAction::UP => self.up = 0,
            InputAction::DOWN => self.down = 0,
            InputAction::RIGHT => self.right = 0,
            InputAction::LEFT => self.left = 0,
        }
    }

    pub fn button_down(&mut self, button: &InputAction)
        ensures
            *final(self) == old(self).with_button(*button, 1),
            old(self).wf() ==> final(self).wf(),
    {
        match *button {
            InputAction::A => self.a = 1,
            InputAction::B => self.b = 1,
            InputAction::START => self.start = 1,
            InputAction::SELECT => self.select = 1,
            InputAction::UP => self.up = 1,
            InputAction::DOWN => self.down = 1,
            InputAction::RIGHT => self.right = 1,
            InputAction::LEFT => self.left = 1,
        }
    }
}

/// Strobe law: writing 1 then 0 to $4016 rewinds the report to button A;
/// the report at a button's position is that button's state, and every
/// read past the eighth gives 1.
pub proof fn lemma_strobe_then_report(j: Joypad, b: InputAction, held: bool)
    ensures
        j.after_strobe(1).after_strobe(0).current_index == 0,
        ({
            let v: u8 = if held { 1 } else { 0 };
            let pressed = j.with_button(b, v);
            &&& pressed.spec_report(button_index(b)) == v
            &&& forall|i: u8| i >= 8 ==> pressed.spec_report(i) == 1
        }),
{
}

/// Button law: a joypad starts with every button at 0 or 1, pressing,
/// releasing and strobing keep it so, and so every reported bit is 0 or 1.
pub proof fn lemma_joypad_bits(j: Joypad, b: InputAction, v: u8, i: u8)
    requires
        j.wf(),
        v <= 1,
    ensures
        released_joypad().wf(),
        j.with_button(b, v).wf(),
        j.after_strobe(v).wf(),
        j.spec_report(i) <= 1,
{
}

} // verus!
