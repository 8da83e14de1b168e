use vstd::prelude::*;

verus! {

/// Controller button bits: A.
pub const BUTTON_A: u8 = 0x01;

/// Controller button bits: B.
pub const BUTTON_B: u8 = 0x02;

/// Controller button bits: Select.
pub const BUTTON_SELECT: u8 = 0x04;

/// Controller button bits: Start.
pub const BUTTON_START: u8 = 0x08;

/// Controller button bits: Up.
pub const BUTTON_UP: u8 = 0x10;

/// Controller button bits: Down.
pub const BUTTON_DOWN: u8 = 0x20;

/// Controller button bits: Left.
pub const BUTTON_LEFT: u8 = 0x40;

/// Controller button bits: Right.
pub const BUTTON_RIGHT: u8 = 0x80;

/// The current 8-button mask of one controller.
#[derive(Debug, Clone, Copy, PartialEq, Eq, Structural)]
pub struct ControllerState {
    /// Button mask: one bit per button, see the `BUTTON_*` constants.
    pub buttons: u8,
}

impl ControllerState {
    /// A state with no button pressed.
    pub fn new() -> (r: ControllerState)
        ensures
            r.buttons == 0,
    {
        ControllerState { buttons: 0 }
    }

    /// Whether every button of `button` is currently pressed.
    pub fn is_pressed(&self, button: u8) -> (r: bool)
        ensures
            r == ((self.buttons & button) == button),
    {
        (self.buttons & button) == button
    }

    /// Press the buttons of `button`, leaving the others as they are.
    pub fn press(&mut self, button: u8)
        ensures
            final(self).buttons == (old(self).buttons | button),
    {
        self.buttons = self.buttons | button;
    }

    /// Release the buttons of `button`, leaving the others as they are.
    pub fn release(&mut self, button: u8)
        ensures
            final(self).buttons == (old(self).buttons & !button),
    {
        self.buttons = self.buttons & !button;
    }

    /// Press or release the buttons of `button` according to `pressed`.
    pub fn set(&mut self, button: u8, pressed: bool)
        ensures
            final(self).buttons == if pressed {
                old(self).buttons | button
            } else {
                old(self).buttons & !button
            },
    {
        if pressed {
            self.press(button);
        } else {
            self.release(button);
        }
    }
}

/// The shift register a controller presents after `k` reads with the
/// strobe low, starting from the latched mask: each read shifts right
/// and fills the top bit with 1 (open-bus behaviour).
pub open spec fn shift_after_reads(mask: u8, k: nat) -> u8
    decreases k,
{
    if k == 0 {
        mask
    } else {
        (shift_after_reads(mask, (k - 1) as nat) / 2 + 0x80) as u8
    }
}

/// NES controller hardware: a button mask, the serial shift register the
/// console reads one bit at a time, and the strobe level. The mask is
/// latched into the shift register on the strobe's falling edge.
#[derive(Debug, Clone, Copy, PartialEq, Eq, Structural)]
pub struct Controller {
    /// Current button state.
    pub state: ControllerState,
    /// Shift register: buttons are read out one bit at a time.
    pub shift_register: u8,
    /// Strobe level; while high, reads keep returning the A button.
    pub strobe: bool,
}

impl Controller {
    /// A controller with no buttons pressed and the strobe low.
    pub fn new() -> (r: Controller)
        ensures
            r.state.buttons == 0 && r.shift_register == 0 && !r.strobe,
    {
        Controller { state: ControllerState::new(), shift_register: 0, strobe: false }
    }

    /// Strobe write ($4016): bit 0 is the new strobe level; on a falling
    /// edge the button mask is latched into the shift register.
    pub fn write(&mut self, value: u8)
        ensures
            final(self).strobe == (value % 2 == 1),
            final(self).shift_register == if old(self).strobe && value % 2 == 0 {
                old(self).state.buttons
            } else {
                old(self).shift_register
            },
            final(self).state == old(self).state,
    {
        let new_strobe = value % 2 == 1;
        if self.strobe && !new_strobe {
            self.shift_register = self.state.buttons;
        }
        self.strobe = new_strobe;
    }

    /// Serial read ($4016): with the strobe high, always the A button;
    /// otherwise the lowest shift-register bit, shifting right and
    /// filling bit 7 with 1 (open-bus behaviour).
    pub fn read(&mut self) -> (r: u8)
        ensures
            old(self).strobe ==> r == old(self).state.buttons % 2 && *final(self) == *old(self),
            !old(self).strobe ==> r == old(self).shift_register % 2
                && final(self).shift_register == old(self).shift_register / 2 + 0x80
                && final(self).state == old(self).state
                && final(self).strobe == old(self).strobe,
    {
        if self.strobe {
            self.state.buttons % 2
        } else {
            let result = self.shift_register % 2;
            self.shift_register = self.shift_register / 2 + 0x80;
            result
        }
    }

    /// The current controller state, for external modification.
    pub fn state(&mut self) -> (r: &mut ControllerState)
        ensures
            *r == old(self).state,
            final(self).state == *final(r),
            final(self).shift_register == old(self).shift_register,
            final(self).strobe == old(self).strobe,
    {
        &mut self.state
    }

    /// The current controller state, read-only.
    pub fn state_ref(&self) -> (r: &ControllerState)
        ensures
            *r == self.state,
    {
        &self.state
    }
}

/// Latching the mask and then reading eight times with the strobe low
/// reproduces the mask bit by bit, least significant bit first: the
/// `k`-th read returns bit `k` of the mask.
pub proof fn lemma_controller_shift_out(mask: u8)
    ensures
        shift_after_reads(mask, 0) % 2 == mask % 2,
        shift_after_reads(mask, 1) % 2 == (mask / 2) % 2,
        shift_after_reads(mask, 2) % 2 == (mask / 4) % 2,
        shift_after_reads(mask, 3) % 2 == (mask / 8) % 2,
        shift_after_reads(mask, 4) % 2 == (mask / 16) % 2,
        shift_after_reads(mask, 5) % 2 == (mask / 32) % 2,
        shift_after_reads(mask, 6) % 2 == (mask / 64) % 2,
        shift_after_reads(mask, 7) % 2 == (mask / 128) % 2,
{
    reveal_with_fuel(shift_after_reads, 9);
    let s1 = shift_after_reads(mask, 1);
    let s2 = shift_after_reads(mask, 2);
    let s3 = shift_after_reads(mask, 3);
    let s4 = shift_after_reads(mask, 4);
    let s5 = shift_after_reads(mask, 5);
    let s6 = shift_after_reads(mask, 6);
    let s7 = shift_after_reads(mask, 7);
    assert(s1 == (mask / 2 + 0x80) as u8 && s2 == (s1 / 2 + 0x80) as u8
        && s3 == (s2 / 2 + 0x80) as u8 && s4 == (s3 / 2 + 0x80) as u8
        && s5 == (s4 / 2 + 0x80) as u8 && s6 == (s5 / 2 + 0x80) as u8
        && s7 == (s6 / 2 + 0x80) as u8);
    assert(s1 % 2 == (mask / 2) % 2 && s2 % 2 == (mask / 4) % 2
        && s3 % 2 == (mask / 8) % 2 && s4 % 2 == (mask / 16) % 2
        && s5 % 2 == (mask / 32) % 2 && s6 % 2 == (mask / 64) % 2
        && s7 % 2 == (mask / 128) % 2) by (bit_vector)
        requires
            s1 == (mask / 2 + 0x80) as u8 && s2 == (s1 / 2 + 0x80) as u8
                && s3 == (s2 / 2 + 0x80) as u8 && s4 == (s3 / 2 + 0x80) as u8
                && s5 == (s4 / 2 + 0x80) as u8 && s6 == (s5 / 2 + 0x80) as u8
                && s7 == (s6 / 2 + 0x80) as u8,
    ;
}

} // verus!
