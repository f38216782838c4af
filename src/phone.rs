//! The phone booth: a ten-key pad, a call button and a clear button. A call
//! to one of four numbers is answered with a word.
use vstd::prelude::*;
use crate::geometry::{hit, inside, Pos};

verus! {

/// What the other end says when a call is made.
#[derive(Clone, Copy, Debug, PartialEq, Eq, Structural)]
pub enum Reply {
    Pumpkin,
    Raspberry,
    Sunflower,
    Cactus,
    Incorrect,
}

/// A part of the phone that reacts to a click.
#[derive(Clone, Copy, Debug, PartialEq, Eq, Structural)]
pub enum PhoneKey {
    Digit(u8),
    Call,
    Clear,
}

/// The phone's screen: the digits dialled so far or, after a call, the
/// reply. A reply stands alone: `reply` is set only with no digits.
pub struct Phone {
    pub digits: Vec<u8>,
    pub reply: Option<Reply>,
}

/// The reply to a call to the number `digits`.
pub open spec fn reply_to(digits: Seq<u8>) -> Reply {
    if digits == seq![1u8, 2, 3, 4] {
        Reply::Pumpkin
    } else if digits == seq![8u8, 6, 5, 9] {
        Reply::Raspberry
    } else if digits == seq![1u8, 7, 7, 6] {
        Reply::Sunflower
    } else if digits == seq![1u8, 5, 0, 4, 0, 5, 0, 4, 0, 7, 2, 0] {
        Reply::Cactus
    } else {
        Reply::Incorrect
    }
}

/// The key under a click. The digit keys are tried first, from `0` to `9`.
pub open spec fn key_at(p: Pos) -> Option<PhoneKey> {
    if inside(p, 274, 327, 128, 170) {
        Some(PhoneKey::Digit(0))
    } else if inside(p, 217, 267, 197, 247) {
        Some(PhoneKey::Digit(1))
    } else if inside(p, 284, 330, 189, 241) {
        Some(PhoneKey::Digit(2))
    } else if inside(p, 357, 398, 189, 245) {
        Some(PhoneKey::Digit(3))
    } else if inside(p, 221, 265, 268, 312) {
        Some(PhoneKey::Digit(4))
    } else if inside(p, 291, 333, 267, 307) {
        Some(PhoneKey::Digit(5))
    } else if inside(p, 363, 405, 267, 307) {
        Some(PhoneKey::Digit(6))
    } else if inside(p, 227, 272, 333, 372) {
        Some(PhoneKey::Digit(7))
    } else if inside(p, 296, 338, 328, 369) {
        Some(PhoneKey::Digit(8))
    } else if inside(p, 367, 411, 331, 365) {
        Some(PhoneKey::Digit(9))
    } else if inside(p, 460, 554, 183, 244) {
        Some(PhoneKey::Call)
    } else if inside(p, 460, 557, 263, 332) {
        Some(PhoneKey::Clear)
    } else {
        None
    }
}

pub fn key_under(p: Pos) -> (r: Option<PhoneKey>)
    ensures
        r == key_at(p),
{
    if hit(p, 274, 327, 128, 170) {
        Some(PhoneKey::Digit(0))
    } else if hit(p, 217, 267, 197, 247) {
        Some(PhoneKey::Digit(1))
    } else if hit(p, 284, 330, 189, 241) {
        Some(PhoneKey::Digit(2))
    } else if hit(p, 357, 398, 189, 245) {
        Some(PhoneKey::Digit(3))
    } else if hit(p, 221, 265, 268, 312) {
        Some(PhoneKey::Digit(4))
    } else if hit(p, 291, 333, 267, 307) {
        Some(PhoneKey::Digit(5))
    } else if hit(p, 363, 405, 267, 307) {
        Some(PhoneKey::Digit(6))
    } else if hit(p, 227, 272, 333, 372) {
        Some(PhoneKey::Digit(7))
    } else if hit(p, 296, 338, 328, 369) {
        Some(PhoneKey::Digit(8))
    } else if hit(p, 367, 411, 331, 365) {
        Some(PhoneKey::Digit(9))
    } else if hit(p, 460, 554, 183, 244) {
        Some(PhoneKey::Call)
    } else if hit(p, 460, 557, 263, 332) {
        Some(PhoneKey::Clear)
    } else {
        None
    }
}

/// Whether `v` holds exactly the digits of `number`.
fn dialled(v: &Vec<u8>, number: &[u8]) -> (r: bool)
    ensures
        r == (v@ == number@),
{
    if v.len() != number.len() {
        return false;
    }
    let mut i: usize = 0;
    while i < v.len()
        invariant
            v@.len() == number@.len(),
            i <= v.len(),
            forall|k: int| 0 <= k < i ==> v@[k] == number@[k],
        decreases v.len() - i,
    {
        if v[i] != number[i] {
            return false;
        }
        i += 1;
    }
    assert(v@ =~= number@);
    true
}

impl Phone {
    /// A blank screen.
    pub fn new() -> (r: Phone)
        ensures
            r.digits@ == Seq::<u8>::empty(),
            r.reply == None::<Reply>,
    {
        Phone { digits: Vec::new(), reply: None }
    }

    pub open spec fn wf(&self) -> bool {
        self.reply is Some ==> self.digits@.len() == 0
    }

    /// Adds a digit to the number; a reply on the screen is wiped first.
    pub fn press_digit(&mut self, d: u8)
        requires
            old(self).wf(),
        ensures
            final(self).wf(),
            final(self).reply == None::<Reply>,
            final(self).digits@ == old(self).digits@.push(d),
    {
        if self.reply.is_some() {
            self.reply = None;
        }
        self.digits.push(d);
    }

    /// Calls the number on the screen and shows the reply. Calling with a
    /// reply on the screen is a call to no number.
    pub fn call(&mut self)
        requires
            old(self).wf(),
        ensures
            final(self).wf(),
            final(self).digits@ == Seq::<u8>::empty(),
            final(self).reply == Some(
                if old(self).reply is Some {
                    Reply::Incorrect
                } else {
                    reply_to(old(self).digits@)
                },
            ),
    {
        let reply = if self.reply.is_some() {
            Reply::Incorrect
        } else if dialled(&self.digits, &[1, 2, 3, 4]) {
            Reply::Pumpkin
        } else if dialled(&self.digits, &[8, 6, 5, 9]) {
            Reply::Raspberry
        } else if dialled(&self.digits, &[1, 7, 7, 6]) {
            Reply::Sunflower
        } else if dialled(&self.digits, &[1, 5, 0, 4, 0, 5, 0, 4, 0, 7, 2, 0]) {
            Reply::Cactus
        } else {
            Reply::Incorrect
        };
        self.digits = Vec::new();
        self.reply = Some(reply);
    }

    /// Wipes the screen.
    pub fn clear(&mut self)
        ensures
            final(self).wf(),
            final(self).digits@ == Seq::<u8>::empty(),
            final(self).reply == None::<Reply>,
    {
        self.digits = Vec::new();
        self.reply = None;
    }
}

impl Reply {
    /// The word shown on the screen.
    pub fn word(self) -> (r: &'static str)
        ensures
            r@ == reply_word(self)@,
    {
        match self {
            Reply::Pumpkin => "pumpkin",
            Reply::Raspberry => "raspberry",
            Reply::Sunflower => "sunflower",
            Reply::Cactus => "cactus",
            Reply::Incorrect => "INCORRECT",
        }
    }
}

pub open spec fn reply_word(r: Reply) -> &'static str {
    match r {
        Reply::Pumpkin => "pumpkin",
        Reply::Raspberry => "raspberry",
        Reply::Sunflower => "sunflower",
        Reply::Cactus => "cactus",
        Reply::Incorrect => "INCORRECT",
    }
}

} // verus!
