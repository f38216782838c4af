//! Four-wheel combination locks: the exit door's keypad, the safe, and the
//! symbol code.
use vstd::prelude::*;
use crate::geometry::{hit, inside, Pos};

verus! {

/// Faces on each wheel of the door keypad and of the safe.
pub const DIGIT_FACES: u8 = 10;

/// Faces on each wheel of the symbol code: one per symbol picture.
pub const SYMBOL_FACES: u8 = 13;

/// Four wheels, each showing one face, numbered from zero.
#[derive(Clone, Copy, Debug)]
pub struct Combination {
    pub wheels: [u8; 4],
}

/// A part of a lock's screen that reacts to a click.
#[derive(Clone, Copy, Debug, PartialEq, Eq, Structural)]
pub enum LockControl {
    /// The wheel at this position, counting from the left.
    Wheel(usize),
    /// The button that tries the combination.
    Confirm,
}

/// The face after `face` on a wheel of `faces` faces.
pub open spec fn next_face(face: u8, faces: u8) -> u8 {
    ((face + 1) % (faces as int)) as u8
}

/// Whether the wheels show the faces `2`, `4`, `7` and `10` in any order.
pub open spec fn shows_symbol_code(wheels: Seq<u8>) -> bool {
    &&& wheels.contains(2)
    &&& wheels.contains(4)
    &&& wheels.contains(7)
    &&& wheels.contains(10)
}

/// Four wheels, each on one of `faces` faces.
pub open spec fn wheels_ok(w: Seq<u8>, faces: u8) -> bool {
    w.len() == 4 && forall|i: int| 0 <= i < 4 ==> #[trigger] w[i] < faces
}

impl Combination {
    pub fn new(wheels: [u8; 4]) -> (r: Combination)
        ensures
            r.wheels == wheels,
    {
        Combination { wheels }
    }

    /// Every wheel shows one of its `faces` faces.
    pub open spec fn valid(self, faces: u8) -> bool {
        wheels_ok(self.wheels@, faces)
    }

    /// Turns wheel `i` one face on, from the last face back to the first.
    pub fn turn(&mut self, i: usize, faces: u8)
        requires
            i < 4,
            faces > 0,
        ensures
            final(self).wheels@ == old(self).wheels@.update(
                i as int,
                next_face(old(self).wheels@[i as int], faces),
            ),
            final(self).wheels@[i as int] < faces,
            old(self).valid(faces) ==> final(self).valid(faces),
    {
        let face = ((self.wheels[i] as u16 + 1) % (faces as u16)) as u8;
        self.wheels[i] = face;
    }

    /// Whether the wheels show exactly `code`.
    pub fn reads(&self, code: [u8; 4]) -> (r: bool)
        ensures
            r == (self.wheels@ == code@),
    {
        let r = self.wheels[0] == code[0] && self.wheels[1] == code[1] && self.wheels[2] == code[2]
            && self.wheels[3] == code[3];
        if r {
            assert(self.wheels@ =~= code@);
        }
        r
    }

    /// Whether the wheels show the symbol code, in any order.
    pub fn opens_symbol_code(&self) -> (r: bool)
        ensures
            r == shows_symbol_code(self.wheels@),
    {
        self.shows(2) && self.shows(4) && self.shows(7) && self.shows(10)
    }

    /// Whether some wheel shows `face`.
    pub fn shows(&self, face: u8) -> (r: bool)
        ensures
            r == self.wheels@.contains(face),
    {
        let w = self.wheels;
        let r = w[0] == face || w[1] == face || w[2] == face || w[3] == face;
        if r {
            if w[0] == face {
                assert(self.wheels@[0] == face);
            } else if w[1] == face {
                assert(self.wheels@[1] == face);
            } else if w[2] == face {
                assert(self.wheels@[2] == face);
            } else {
                assert(self.wheels@[3] == face);
            }
        }
        r
    }
}

/// The control under a click on the exit door's keypad.
pub open spec fn door_pad_at(p: Pos) -> Option<LockControl> {
    if inside(p, 200, 250, 150, 285) {
        Some(LockControl::Wheel(0))
    } else if inside(p, 285, 335, 150, 285) {
        Some(LockControl::Wheel(1))
    } else if inside(p, 370, 420, 150, 285) {
        Some(LockControl::Wheel(2))
    } else if inside(p, 445, 495, 150, 285) {
        Some(LockControl::Wheel(3))
    } else if inside(p, 265, 392, 345, 390) {
        Some(LockControl::Confirm)
    } else {
        None
    }
}

/// The control under a click on the safe's dial.
pub open spec fn safe_at(p: Pos) -> Option<LockControl> {
    if inside(p, 200, 250, 90, 150) {
        Some(LockControl::Wheel(0))
    } else if inside(p, 270, 330, 90, 150) {
        Some(LockControl::Wheel(1))
    } else if inside(p, 340, 390, 90, 150) {
        Some(LockControl::Wheel(2))
    } else if inside(p, 410, 460, 90, 150) {
        Some(LockControl::Wheel(3))
    } else if inside(p, 362, 474, 188, 298) {
        Some(LockControl::Confirm)
    } else {
        None
    }
}

/// The control under a click on the symbol code panel.
pub open spec fn code_panel_at(p: Pos) -> Option<LockControl> {
    if inside(p, 140, 190, 180, 280) {
        Some(LockControl::Wheel(0))
    } else if inside(p, 240, 290, 180, 280) {
        Some(LockControl::Wheel(1))
    } else if inside(p, 340, 390, 180, 280) {
        Some(LockControl::Wheel(2))
    } else if inside(p, 440, 490, 180, 280) {
        Some(LockControl::Wheel(3))
    } else if inside(p, 224, 423, 386, 468) {
        Some(LockControl::Confirm)
    } else {
        None
    }
}

pub fn door_pad_control(p: Pos) -> (r: Option<LockControl>)
    ensures
        r == door_pad_at(p),
{
    if hit(p, 200, 250, 150, 285) {
        Some(LockControl::Wheel(0))
    } else if hit(p, 285, 335, 150, 285) {
        Some(LockControl::Wheel(1))
    } else if hit(p, 370, 420, 150, 285) {
        Some(LockControl::Wheel(2))
    } else if hit(p, 445, 495, 150, 285) {
        Some(LockControl::Wheel(3))
    } else if hit(p, 265, 392, 345, 390) {
        Some(LockControl::Confirm)
    } else {
        None
    }
}

pub fn safe_control(p: Pos) -> (r: Option<LockControl>)
    ensures
        r == safe_at(p),
{
    if hit(p, 200, 250, 90, 150) {
        Some(LockControl::Wheel(0))
    } else if hit(p, 270, 330, 90, 150) {
        Some(LockControl::Wheel(1))
    } else if hit(p, 340, 390, 90, 150) {
        Some(LockControl::Wheel(2))
    } else if hit(p, 410, 460, 90, 150) {
        Some(LockControl::Wheel(3))
    } else if hit(p, 362, 474, 188, 298) {
        Some(LockControl::Confirm)
    } else {
        None
    }
}

pub fn code_panel_control(p: Pos) -> (r: Option<LockControl>)
    ensures
        r == code_panel_at(p),
{
    if hit(p, 140, 190, 180, 280) {
        Some(LockControl::Wheel(0))
    } else if hit(p, 240, 290, 180, 280) {
        Some(LockControl::Wheel(1))
    } else if hit(p, 340, 390, 180, 280) {
        Some(LockControl::Wheel(2))
    } else if hit(p, 440, 490, 180, 280) {
        Some(LockControl::Wheel(3))
    } else if hit(p, 224, 423, 386, 468) {
        Some(LockControl::Confirm)
    } else {
        None
    }
}

/// A turn moves a wheel to the following face, and from the last face back
/// to the first.
pub proof fn lemma_next_face_wraps(face: u8, faces: u8)
    requires
        face < faces,
    ensures
        face + 1 < faces ==> next_face(face, faces) == face + 1,
        face + 1 == faces ==> next_face(face, faces) == 0,
        next_face(face, faces) < faces,
{
    if face + 1 < faces {
        vstd::arithmetic::div_mod::lemma_small_mod((face + 1) as nat, faces as nat);
    } else {
        vstd::arithmetic::div_mod::lemma_mod_self_0(faces as int);
    }
}

} // verus!
