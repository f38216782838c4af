//! The colour-matching board: four terminals on the left, four on the right,
//! joined by wires that the player draws with two clicks.
use vstd::prelude::*;
use crate::geometry::{hit, inside, Pos};

verus! {

#[derive(Clone, Copy, Debug, PartialEq, Eq, Structural)]
pub enum Colour {
    Red,
    Green,
    Blue,
    Orange,
}

#[derive(Clone, Copy, Debug, PartialEq, Eq, Structural)]
pub enum Side {
    Left,
    Right,
}

/// One end point of a wire.
#[derive(Clone, Copy, Debug, PartialEq, Eq, Structural)]
pub struct Terminal {
    pub colour: Colour,
    pub side: Side,
}

/// What the board's display shows.
#[derive(Clone, Copy, Debug, PartialEq, Eq, Structural)]
pub enum WireReading {
    /// Each left terminal is wired to the right terminal of its own colour.
    Straight,
    /// The wires cross in pairs: red with green, blue with orange.
    Crossed,
    /// Any other wiring.
    Unsolved,
}

/// `links[c]` is the right terminal that the left terminal of colour
/// number `c` is wired to; `held` is the terminal clicked first, waiting
/// for its other end.
#[derive(Clone, Copy, Debug)]
pub struct WireBoard {
    pub links: [Option<Colour>; 4],
    pub held: Option<Terminal>,
}

/// The number of a colour, from top to bottom of the board.
pub open spec fn colour_index(c: Colour) -> nat {
    match c {
        Colour::Red => 0,
        Colour::Green => 1,
        Colour::Blue => 2,
        Colour::Orange => 3,
    }
}

impl Colour {
    pub fn index(self) -> (r: usize)
        ensures
            r == colour_index(self),
    {
        match self {
            Colour::Red => 0,
            Colour::Green => 1,
            Colour::Blue => 2,
            Colour::Orange => 3,
        }
    }

    /// The on-screen point at which this colour's wires start, on the given
    /// side.
    pub fn anchor(self, side: Side) -> (r: Pos)
        ensures
            r == anchor_of(self, side),
    {
        match (self, side) {
            (Colour::Red, Side::Left) => Pos { x: 278, y: 65 },
            (Colour::Green, Side::Left) => Pos { x: 294, y: 151 },
            (Colour::Blue, Side::Left) => Pos { x: 299, y: 231 },
            (Colour::Orange, Side::Left) => Pos { x: 309, y: 323 },
            (Colour::Red, Side::Right) => Pos { x: 480, y: 65 },
            (Colour::Green, Side::Right) => Pos { x: 479, y: 148 },
            (Colour::Blue, Side::Right) => Pos { x: 480, y: 227 },
            (Colour::Orange, Side::Right) => Pos { x: 478, y: 327 },
        }
    }
}

pub open spec fn anchor_of(c: Colour, side: Side) -> Pos {
    match (c, side) {
        (Colour::Red, Side::Left) => Pos { x: 278, y: 65 },
        (Colour::Green, Side::Left) => Pos { x: 294, y: 151 },
        (Colour::Blue, Side::Left) => Pos { x: 299, y: 231 },
        (Colour::Orange, Side::Left) => Pos { x: 309, y: 323 },
        (Colour::Red, Side::Right) => Pos { x: 480, y: 65 },
        (Colour::Green, Side::Right) => Pos { x: 479, y: 148 },
        (Colour::Blue, Side::Right) => Pos { x: 480, y: 227 },
        (Colour::Orange, Side::Right) => Pos { x: 478, y: 327 },
    }
}

/// Whether a click at `p` lands on the given terminal: a box 65 pixels
/// wide on the outer side of its anchor, 20 pixels above and below it.
pub open spec fn on_terminal(p: Pos, t: Terminal) -> bool {
    let a = anchor_of(t.colour, t.side);
    match t.side {
        Side::Left => inside(p, a.x - 65, a.x as int, a.y - 20, a.y + 20),
        Side::Right => inside(p, a.x as int, a.x + 65, a.y - 20, a.y + 20),
    }
}

/// The terminal under a click: the left ones are tried first, each side
/// from top to bottom.
pub open spec fn terminal_at(p: Pos) -> Option<Terminal> {
    let t = |c: Colour, s: Side| Terminal { colour: c, side: s };
    if on_terminal(p, t(Colour::Red, Side::Left)) {
        Some(t(Colour::Red, Side::Left))
    } else if on_terminal(p, t(Colour::Green, Side::Left)) {
        Some(t(Colour::Green, Side::Left))
    } else if on_terminal(p, t(Colour::Blue, Side::Left)) {
        Some(t(Colour::Blue, Side::Left))
    } else if on_terminal(p, t(Colour::Orange, Side::Left)) {
        Some(t(Colour::Orange, Side::Left))
    } else if on_terminal(p, t(Colour::Red, Side::Right)) {
        Some(t(Colour::Red, Side::Right))
    } else if on_terminal(p, t(Colour::Green, Side::Right)) {
        Some(t(Colour::Green, Side::Right))
    } else if on_terminal(p, t(Colour::Blue, Side::Right)) {
        Some(t(Colour::Blue, Side::Right))
    } else if on_terminal(p, t(Colour::Orange, Side::Right)) {
        Some(t(Colour::Orange, Side::Right))
    } else {
        None
    }
}

/// Whether a click at `p` lands on terminal `t`.
pub fn touches(p: Pos, t: Terminal) -> (r: bool)
    ensures
        r == on_terminal(p, t),
{
    let a = t.colour.anchor(t.side);
    match t.side {
        Side::Left => hit(p, a.x - 65, a.x, a.y - 20, a.y + 20),
        Side::Right => hit(p, a.x, a.x + 65, a.y - 20, a.y + 20),
    }
}

pub fn terminal_under(p: Pos) -> (r: Option<Terminal>)
    ensures
        r == terminal_at(p),
{
    let order = [
        Terminal { colour: Colour::Red, side: Side::Left },
        Terminal { colour: Colour::Green, side: Side::Left },
        Terminal { colour: Colour::Blue, side: Side::Left },
        Terminal { colour: Colour::Orange, side: Side::Left },
        Terminal { colour: Colour::Red, side: Side::Right },
        Terminal { colour: Colour::Green, side: Side::Right },
        Terminal { colour: Colour::Blue, side: Side::Right },
        Terminal { colour: Colour::Orange, side: Side::Right },
    ];
    if touches(p, order[0]) {
        Some(order[0])
    } else if touches(p, order[1]) {
        Some(order[1])
    } else if touches(p, order[2]) {
        Some(order[2])
    } else if touches(p, order[3]) {
        Some(order[3])
    } else if touches(p, order[4]) {
        Some(order[4])
    } else if touches(p, order[5]) {
        Some(order[5])
    } else if touches(p, order[6]) {
        Some(order[6])
    } else if touches(p, order[7]) {
        Some(order[7])
    } else {
        None
    }
}

/// The two ends of a wire from `a` to `b`, left end first, when they lie on
/// different sides.
pub open spec fn wire_ends(a: Terminal, b: Terminal) -> Option<(Terminal, Terminal)> {
    if a.side == b.side {
        None
    } else if a.side == Side::Left {
        Some((a, b))
    } else {
        Some((b, a))
    }
}

/// The wiring after a click on terminal `t`. With a terminal held on the
/// other side, the two are wired together, replacing the left terminal's
/// earlier wire; otherwise the wiring stays.
pub open spec fn links_after_tap(
    links: Seq<Option<Colour>>,
    held: Option<Terminal>,
    t: Terminal,
) -> Seq<Option<Colour>> {
    match held {
        Some(last) => match wire_ends(last, t) {
            Some((left, right)) => links.update(colour_index(left.colour) as int, Some(right.colour)),
            None => links,
        },
        None => links,
    }
}

/// The terminal held after a click on terminal `t`: with none held, `t`;
/// with one held on the other side, none, as the wire is drawn; with one
/// held on the same side, that one still.
pub open spec fn held_after_tap(held: Option<Terminal>, t: Terminal) -> Option<Terminal> {
    match held {
        None => Some(t),
        Some(last) => if last.side == t.side {
            Some(last)
        } else {
            None
        },
    }
}

/// What the display shows for a wiring.
pub open spec fn reading_of(links: Seq<Option<Colour>>) -> WireReading {
    if links == seq![Some(Colour::Red), Some(Colour::Green), Some(Colour::Blue), Some(Colour::Orange)] {
        WireReading::Straight
    } else if links == seq![Some(Colour::Green), Some(Colour::Red), Some(Colour::Orange), Some(Colour::Blue)] {
        WireReading::Crossed
    } else {
        WireReading::Unsolved
    }
}

impl WireBoard {
    /// A board with no wires and nothing held.
    pub fn new() -> (r: WireBoard)
        ensures
            r.links@ == seq![None::<Colour>, None, None, None],
            r.held == None::<Terminal>,
    {
        let r = WireBoard { links: [None, None, None, None], held: None };
        assert(r.links@ =~= seq![None::<Colour>, None, None, None]);
        r
    }

    /// Handles a click on terminal `t`.
    pub fn tap(&mut self, t: Terminal)
        ensures
            final(self).links@ == links_after_tap(old(self).links@, old(self).held, t),
            final(self).held == held_after_tap(old(self).held, t),
    {
        match self.held {
            None => {
                self.held = Some(t);
            },
            Some(last) => {
                if last.side != t.side {
                    let (left, right) = if t.side == Side::Left {
                        (t, last)
                    } else {
                        (last, t)
                    };
                    self.links[left.colour.index()] = Some(right.colour);
                    self.held = None;
                }
            },
        }
    }

    /// Lets go of the held terminal, if any, and keeps the wiring.
    pub fn release(&mut self)
        ensures
            final(self).links == old(self).links,
            final(self).held == None::<Terminal>,
    {
        self.held = None;
    }

    pub fn reading(&self) -> (r: WireReading)
        ensures
            r == reading_of(self.links@),
    {
        let l = self.links;
        if l[0] == Some(Colour::Red) && l[1] == Some(Colour::Green) && l[2] == Some(Colour::Blue)
            && l[3] == Some(Colour::Orange) {
            assert(self.links@ =~= seq![Some(Colour::Red), Some(Colour::Green), Some(Colour::Blue), Some(Colour::Orange)]);
            WireReading::Straight
        } else if l[0] == Some(Colour::Green) && l[1] == Some(Colour::Red) && l[2] == Some(
            Colour::Orange,
        ) && l[3] == Some(Colour::Blue) {
            assert(self.links@ =~= seq![Some(Colour::Green), Some(Colour::Red), Some(Colour::Orange), Some(Colour::Blue)]);
            WireReading::Crossed
        } else {
            WireReading::Unsolved
        }
    }
}

impl WireReading {
    /// The text on the board's display.
    pub fn text(self) -> (r: &'static str)
        ensures
            r@ == reading_text(self)@,
    {
        match self {
            WireReading::Straight => "1234",
            WireReading::Crossed => "1776!",
            WireReading::Unsolved => "Err",
        }
    }
}

pub open spec fn reading_text(r: WireReading) -> &'static str {
    match r {
        WireReading::Straight => "1234",
        WireReading::Crossed => "1776!",
        WireReading::Unsolved => "Err",
    }
}

/// With nothing held, a click on one terminal and then on a terminal of the
/// other side draws a wire between them, in either order, and leaves
/// nothing held; no other wire changes.
pub proof fn lemma_two_taps_draw_a_wire(links: Seq<Option<Colour>>, a: Terminal, b: Terminal)
    requires
        links.len() == 4,
        a.side != b.side,
    ensures
        ({
            let held = held_after_tap(None, a);
            let after = links_after_tap(links_after_tap(links, None, a), held, b);
            let (left, right) = if a.side == Side::Left { (a, b) } else { (b, a) };
            &&& held_after_tap(held, b) is None
            &&& after[colour_index(left.colour) as int] == Some(right.colour)
            &&& forall|c: int|
                0 <= c < 4 && c != colour_index(left.colour) ==> #[trigger] after[c] == links[c]
        }),
{
}

/// A second click on the same side does not move the held end.
pub proof fn lemma_same_side_keeps_held(links: Seq<Option<Colour>>, a: Terminal, b: Terminal)
    requires
        a.side == b.side,
    ensures
        held_after_tap(Some(a), b) == Some(a),
        links_after_tap(links, Some(a), b) == links,
{
}

} // verus!
