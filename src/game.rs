//! The game: what the player is doing, and how a mouse click changes it.
use vstd::prelude::*;
use crate::candles::{
    is_arrangement, lemma_swap_keeps_arrangement, swap_at, swap_under, swapped, Candles,
};
use crate::catalogue::{
    is_open_door, is_open_safe, is_open_safe_view, open_door, open_safe, open_safe_view, placed,
    sizes_ok, some_item_opens, starting_items, STARTING_ITEMS,
};
use crate::geometry::{hit, inside, Pos};
use crate::item::{lines_of, Item, ItemState, Size};
use crate::lock::{
    code_panel_at, code_panel_control, door_pad_at, door_pad_control, next_face, safe_at,
    safe_control, shows_symbol_code, wheels_ok, Combination, LockControl, DIGIT_FACES, SYMBOL_FACES,
};
use crate::phone::{key_at, key_under, reply_to, Phone, PhoneKey, Reply};
use crate::room::{left_of, right_of, rotate_left, rotate_right, Room};
use crate::wires::{
    held_after_tap, links_after_tap, terminal_at, terminal_under, Colour, Terminal, WireBoard,
};

verus! {

/// What the player is doing.
#[derive(Clone, Copy, Debug, PartialEq, Eq, Structural)]
pub enum UserState {
    /// Looking around the current room.
    Nothing,
    /// Viewing an item's close-up.
    Looking,
    /// Working on an item's puzzle.
    Interacting,
    /// The game is over.
    Complete,
}

/// The puzzles, each behind one screen.
#[derive(Clone, Copy, Debug, PartialEq, Eq, Structural)]
pub enum Puzzle {
    DoorPad,
    Wires,
    Phone,
    Safe,
    Candles,
    SymbolCode,
}

/// What a click tells the player besides what the screen shows.
#[derive(Clone, Copy, Debug, PartialEq, Eq, Structural)]
pub enum Feedback {
    Silent,
    /// A combination was tried and was wrong.
    Wrong,
}

/// The whole state of a game. `current_item` is the index in `items` of the
/// item whose close-up or puzzle is open; `sizes` holds each sprite's size,
/// for the items that appear later.
pub struct Game {
    pub items: Vec<Item>,
    pub main_text: Vec<String>,
    pub current_room: Room,
    pub current_state: UserState,
    pub current_item: Option<usize>,
    pub door_pad: Combination,
    pub wires: WireBoard,
    pub phone: Phone,
    pub safe: Combination,
    pub candles: Candles,
    pub code: Combination,
    pub sizes: Vec<Size>,
}

/// A game as plain values.
pub struct GameView {
    pub items: Seq<Item>,
    pub text: Seq<Seq<char>>,
    pub room: Room,
    pub state: UserState,
    pub current: Option<usize>,
    pub door_pad: Seq<u8>,
    pub links: Seq<Option<Colour>>,
    pub held: Option<Terminal>,
    pub dialled: Seq<u8>,
    pub reply: Option<Reply>,
    pub safe: Seq<u8>,
    pub candles: Seq<u8>,
    pub code: Seq<u8>,
    pub sizes: Seq<Size>,
}

impl View for Game {
    type V = GameView;

    open spec fn view(&self) -> GameView {
        GameView {
            items: self.items@,
            text: lines_of(self.main_text@),
            room: self.current_room,
            state: self.current_state,
            current: self.current_item,
            door_pad: self.door_pad.wheels@,
            links: self.wires.links@,
            held: self.wires.held,
            dialled: self.phone.digits@,
            reply: self.phone.reply,
            safe: self.safe.wheels@,
            candles: self.candles.order@,
            code: self.code.wheels@,
            sizes: self.sizes@,
        }
    }
}

/// The invariant of a game: every item is placed; an item is open exactly
/// when the player is not browsing, and it is one that opens something;
/// the puzzles are in states they can reach.
pub open spec fn consistent(g: GameView) -> bool {
    &&& sizes_ok(g.sizes)
    &&& forall|i: int| 0 <= i < g.items.len() ==> placed(#[trigger] g.items[i], g.sizes)
    &&& (g.state == UserState::Nothing <==> g.current is None)
    &&& g.current matches Some(i) ==> i < g.items.len() && (g.items[i as int].state
        == ItemState::Look || g.items[i as int].state == ItemState::Interact)
    &&& wheels_ok(g.door_pad, DIGIT_FACES)
    &&& wheels_ok(g.safe, DIGIT_FACES)
    &&& wheels_ok(g.code, SYMBOL_FACES)
    &&& g.links.len() == 4
    &&& (g.reply is Some ==> g.dialled.len() == 0)
    &&& is_arrangement(g.candles)
}

/// A text of one empty line.
pub open spec fn blank() -> Seq<Seq<char>> {
    seq![Seq::<char>::empty()]
}

/// The arrow that turns the player left.
pub open spec fn on_left_arrow(p: Pos) -> bool {
    inside(p, 0, 100, 100, 200)
}

/// The arrow that turns the player right.
pub open spec fn on_right_arrow(p: Pos) -> bool {
    inside(p, 500, 650, 100, 200)
}

/// The arrow that leaves a close-up or a puzzle.
pub open spec fn on_back_arrow(p: Pos) -> bool {
    inside(p, 0, 100, 20, 120)
}

/// Whether an item reacts to a click at `p` while the player browses `room`.
pub open spec fn reacts(item: Item, room: Room, p: Pos) -> bool {
    &&& item.room == room
    &&& item.state != ItemState::Nothing
    &&& item.covers(p)
}

/// The last of the first `n` items that reacts to a click. Every item that
/// reacts acts in list order, so the last one decides.
pub open spec fn last_reacting(items: Seq<Item>, room: Room, p: Pos, n: int) -> Option<usize>
    decreases n,
{
    if n <= 0 {
        None
    } else if reacts(items[n - 1], room, p) {
        Some((n - 1) as usize)
    } else {
        last_reacting(items, room, p, n - 1)
    }
}

/// The item found reacts, and is one of the first `n`.
pub proof fn lemma_last_reacting(items: Seq<Item>, room: Room, p: Pos, n: int)
    requires
        n <= usize::MAX + 1,
    ensures
        last_reacting(items, room, p, n) matches Some(k) ==> k < n && reacts(
            items[k as int],
            room,
            p,
        ),
    decreases n,
{
    if n > 0 && !reacts(items[n - 1], room, p) {
        lemma_last_reacting(items, room, p, n - 1);
    }
}

/// The game after a click on item `i` of the room.
pub open spec fn picked(g: GameView, i: usize) -> GameView {
    let item = g.items[i as int];
    match item.state {
        ItemState::Flavor => GameView {
            text: lines_of(item.flavor_text@),
            state: UserState::Nothing,
            current: None,
            ..g
        },
        ItemState::Look => GameView {
            text: blank(),
            state: UserState::Looking,
            current: Some(i),
            ..g
        },
        _ => GameView { text: blank(), state: UserState::Interacting, current: Some(i), ..g },
    }
}

/// A click while browsing: the item it lands on reacts, then an arrow turns
/// the player, clearing the text.
pub open spec fn browse_step(g: GameView, p: Pos) -> GameView {
    let after = match last_reacting(g.items, g.room, p, g.items.len() as int) {
        Some(i) => picked(g, i),
        None => g,
    };
    if on_left_arrow(p) {
        GameView { room: left_of(g.room), text: blank(), ..after }
    } else if on_right_arrow(p) {
        GameView { room: right_of(g.room), text: blank(), ..after }
    } else {
        after
    }
}

/// A click on a close-up: the back arrow returns to the room.
pub open spec fn look_step(g: GameView, p: Pos) -> GameView {
    if on_back_arrow(p) {
        GameView { state: UserState::Nothing, current: None, ..g }
    } else {
        g
    }
}

/// The puzzle that a screen with this tag holds.
pub open spec fn puzzle_of(tag: Seq<char>) -> Option<Puzzle> {
    if tag == "door_pad"@ {
        Some(Puzzle::DoorPad)
    } else if tag == "colormatch"@ {
        Some(Puzzle::Wires)
    } else if tag == "phone_entry"@ {
        Some(Puzzle::Phone)
    } else if tag == "safe_big"@ {
        Some(Puzzle::Safe)
    } else if tag == "candlecase_big"@ {
        Some(Puzzle::Candles)
    } else if tag == "codeentry_big"@ {
        Some(Puzzle::SymbolCode)
    } else {
        None
    }
}

/// Each puzzle's screen tag names that puzzle.
pub proof fn lemma_puzzle_tags()
    ensures
        puzzle_of("door_pad"@) == Some(Puzzle::DoorPad),
        puzzle_of("colormatch"@) == Some(Puzzle::Wires),
        puzzle_of("phone_entry"@) == Some(Puzzle::Phone),
        puzzle_of("safe_big"@) == Some(Puzzle::Safe),
        puzzle_of("candlecase_big"@) == Some(Puzzle::Candles),
        puzzle_of("codeentry_big"@) == Some(Puzzle::SymbolCode),
{
    reveal_strlit("door_pad");
    reveal_strlit("colormatch");
    reveal_strlit("phone_entry");
    reveal_strlit("safe_big");
    reveal_strlit("candlecase_big");
    reveal_strlit("codeentry_big");
    let tags = seq![
        "door_pad"@,
        "colormatch"@,
        "phone_entry"@,
        "safe_big"@,
        "candlecase_big"@,
        "codeentry_big"@,
    ];
    // Any two differ in length or in their first character.
    assert forall|i: int, j: int| 0 <= i < j < 6 implies tags[i] != tags[j] by {
        assert(tags[i].len() != tags[j].len() || tags[i][0] != tags[j][0]);
    }
}

/// The puzzle on the open item's screen.
pub open spec fn shown_puzzle(g: GameView) -> Option<Puzzle> {
    match g.current {
        Some(i) => match g.items[i as int].link {
            Some(l) => puzzle_of(l.tag@),
            None => None,
        },
        None => None,
    }
}

/// The door opens: the open door is added, the screen closes, and the
/// text says so.
pub open spec fn door_opens(g: GameView, h: GameView) -> bool {
    &&& h.items.len() == g.items.len() + 1
    &&& h.items.subrange(0, g.items.len() as int) == g.items
    &&& is_open_door(h.items[g.items.len() as int], g.sizes)
    &&& h == GameView {
        items: h.items,
        text: seq!["The door opened!"@],
        state: UserState::Nothing,
        current: None,
        ..g
    }
}

/// The safe opens: its close-up and the open safe are added, the screen
/// closes, and the text says so.
pub open spec fn safe_opens(g: GameView, h: GameView) -> bool {
    &&& h.items.len() == g.items.len() + 2
    &&& h.items.subrange(0, g.items.len() as int) == g.items
    &&& is_open_safe_view(h.items[g.items.len() as int], g.sizes)
    &&& is_open_safe(h.items[g.items.len() + 1int], g.sizes)
    &&& h == GameView {
        items: h.items,
        text: seq!["The safe opened!"@],
        state: UserState::Nothing,
        current: None,
        ..g
    }
}

/// A click on the exit door's keypad: a wheel turns, or the confirm button
/// opens the door on `1 2 3 4`.
pub open spec fn door_pad_step(g: GameView, h: GameView, p: Pos, fb: Feedback) -> bool {
    match door_pad_at(p) {
        Some(LockControl::Wheel(i)) => fb == Feedback::Silent && h == GameView {
            door_pad: g.door_pad.update(i as int, next_face(g.door_pad[i as int], DIGIT_FACES)),
            ..g
        },
        Some(LockControl::Confirm) => if g.door_pad == seq![1u8, 2, 3, 4] {
            fb == Feedback::Silent && door_opens(g, h)
        } else {
            fb == Feedback::Wrong && h == g
        },
        None => fb == Feedback::Silent && h == g,
    }
}

/// A click on the safe: a wheel turns, or the confirm button opens the safe
/// on `5 3 9 4`.
pub open spec fn safe_step(g: GameView, h: GameView, p: Pos, fb: Feedback) -> bool {
    match safe_at(p) {
        Some(LockControl::Wheel(i)) => fb == Feedback::Silent && h == GameView {
            safe: g.safe.update(i as int, next_face(g.safe[i as int], DIGIT_FACES)),
            ..g
        },
        Some(LockControl::Confirm) => if g.safe == seq![5u8, 3, 9, 4] {
            fb == Feedback::Silent && safe_opens(g, h)
        } else {
            fb == Feedback::Wrong && h == g
        },
        None => fb == Feedback::Silent && h == g,
    }
}

/// A click on the symbol code panel: a wheel turns, or the confirm button
/// ends the game when the four right symbols show.
pub open spec fn code_step(g: GameView, h: GameView, p: Pos, fb: Feedback) -> bool {
    match code_panel_at(p) {
        Some(LockControl::Wheel(i)) => fb == Feedback::Silent && h == GameView {
            code: g.code.update(i as int, next_face(g.code[i as int], SYMBOL_FACES)),
            ..g
        },
        Some(LockControl::Confirm) => if shows_symbol_code(g.code) {
            fb == Feedback::Silent && h == GameView { state: UserState::Complete, ..g }
        } else {
            fb == Feedback::Wrong && h == g
        },
        None => fb == Feedback::Silent && h == g,
    }
}

/// A click on the wire board: a terminal is taken up or wired.
pub open spec fn wires_step(g: GameView, p: Pos) -> GameView {
    match terminal_at(p) {
        Some(t) => GameView {
            links: links_after_tap(g.links, g.held, t),
            held: held_after_tap(g.held, t),
            ..g
        },
        None => g,
    }
}

/// A click on the phone: a digit is dialled, a call answered, or the screen
/// wiped. A digit after a reply starts a new number.
pub open spec fn phone_step(g: GameView, p: Pos) -> GameView {
    match key_at(p) {
        Some(PhoneKey::Digit(d)) => GameView { dialled: g.dialled.push(d), reply: None, ..g },
        Some(PhoneKey::Call) => GameView {
            dialled: Seq::empty(),
            reply: Some(
                if g.reply is Some {
                    Reply::Incorrect
                } else {
                    reply_to(g.dialled)
                },
            ),
            ..g
        },
        Some(PhoneKey::Clear) => GameView { dialled: Seq::empty(), reply: None, ..g },
        None => g,
    }
}

/// A click on the candle case: two neighbouring candles swap.
pub open spec fn candles_step(g: GameView, p: Pos) -> GameView {
    match swap_at(p) {
        Some(i) => GameView { candles: swapped(g.candles, i as int), ..g },
        None => g,
    }
}

/// A click on a puzzle screen. The back arrow returns to the room and drops
/// a wire end that was held; elsewhere the puzzle takes the click.
pub open spec fn interact_step(g: GameView, h: GameView, p: Pos, fb: Feedback) -> bool {
    if on_back_arrow(p) {
        fb == Feedback::Silent && h == GameView {
            state: UserState::Nothing,
            current: None,
            held: None,
            ..g
        }
    } else {
        match shown_puzzle(g) {
            Some(Puzzle::DoorPad) => door_pad_step(g, h, p, fb),
            Some(Puzzle::Safe) => safe_step(g, h, p, fb),
            Some(Puzzle::SymbolCode) => code_step(g, h, p, fb),
            Some(Puzzle::Wires) => fb == Feedback::Silent && h == wires_step(g, p),
            Some(Puzzle::Phone) => fb == Feedback::Silent && h == phone_step(g, p),
            Some(Puzzle::Candles) => fb == Feedback::Silent && h == candles_step(g, p),
            None => fb == Feedback::Silent && h == g,
        }
    }
}

/// A click anywhere, in whatever the player is doing. Once the game is
/// over, clicks change nothing.
pub open spec fn click_step(g: GameView, h: GameView, p: Pos, fb: Feedback) -> bool {
    match g.state {
        UserState::Nothing => fb == Feedback::Silent && h == browse_step(g, p),
        UserState::Looking => fb == Feedback::Silent && h == look_step(g, p),
        UserState::Interacting => interact_step(g, h, p, fb),
        UserState::Complete => fb == Feedback::Silent && h == g,
    }
}

/// A text of one empty line.
fn blank_text() -> (r: Vec<String>)
    ensures
        lines_of(r@) == blank(),
{
    let r = vec![String::new()];
    assert(lines_of(r@) =~= blank());
    r
}

/// A text of one line.
fn one_line(line: &str) -> (r: Vec<String>)
    ensures
        lines_of(r@) == seq![line@],
{
    let r = vec![line.to_owned()];
    assert(lines_of(r@) =~= seq![line@]);
    r
}

/// A copy of a text.
fn copy_lines(v: &Vec<String>) -> (r: Vec<String>)
    ensures
        lines_of(r@) == lines_of(v@),
{
    let mut r: Vec<String> = Vec::new();
    let mut i: usize = 0;
    while i < v.len()
        invariant
            i <= v.len(),
            r@.len() == i,
            forall|k: int| 0 <= k < i ==> #[trigger] r@[k]@ == v@[k]@,
        decreases v.len() - i,
    {
        r.push(v[i].clone());
        i += 1;
    }
    assert(lines_of(r@) =~= lines_of(v@));
    r
}

/// Whether `tag` reads `name`.
fn is_tag(tag: &String, name: &str) -> (r: bool)
    ensures
        r == (tag@ == name@),
{
    let name = name.to_owned();
    *tag == name
}

/// The puzzle that a screen with this tag holds.
pub fn puzzle_for(tag: &String) -> (r: Option<Puzzle>)
    ensures
        r == puzzle_of(tag@),
{
    if is_tag(tag, "door_pad") {
        Some(Puzzle::DoorPad)
    } else if is_tag(tag, "colormatch") {
        Some(Puzzle::Wires)
    } else if is_tag(tag, "phone_entry") {
        Some(Puzzle::Phone)
    } else if is_tag(tag, "safe_big") {
        Some(Puzzle::Safe)
    } else if is_tag(tag, "candlecase_big") {
        Some(Puzzle::Candles)
    } else if is_tag(tag, "codeentry_big") {
        Some(Puzzle::SymbolCode)
    } else {
        None
    }
}

impl Game {
    pub open spec fn wf(&self) -> bool {
        consistent(self@)
    }

    /// A new game, given the size of each sprite: the player faces north,
    /// with no text, every lock on its first setting, no wires, a blank
    /// phone, and the candles from `3` down to `0`.
    pub fn new(sizes: Vec<Size>) -> (r: Game)
        requires
            sizes_ok(sizes@),
        ensures
            r.wf(),
            r@.items.len() == STARTING_ITEMS,
            forall|q: Puzzle| #[trigger] some_item_opens(r@.items, q),
            r@.text == Seq::<Seq<char>>::empty(),
            r@.room == Room::North,
            r@.state == UserState::Nothing,
            r@.current == None::<usize>,
            r@.door_pad == seq![1u8, 1, 1, 1],
            r@.links == seq![None::<Colour>, None, None, None],
            r@.held == None::<Terminal>,
            r@.dialled == Seq::<u8>::empty(),
            r@.reply == None::<Reply>,
            r@.safe == seq![1u8, 1, 1, 1],
            r@.candles == seq![3u8, 2, 1, 0],
            r@.code == seq![0u8, 0, 0, 0],
            r@.sizes == sizes@,
    {
        let items = starting_items(&sizes);
        let r = Game {
            items,
            main_text: Vec::new(),
            current_room: Room::North,
            current_state: UserState::Nothing,
            current_item: None,
            door_pad: Combination::new([1, 1, 1, 1]),
            wires: WireBoard::new(),
            phone: Phone::new(),
            safe: Combination::new([1, 1, 1, 1]),
            candles: Candles::new(),
            code: Combination::new([0, 0, 0, 0]),
            sizes,
        };
        assert(r@.text =~= Seq::<Seq<char>>::empty());
        assert(r@.door_pad =~= seq![1u8, 1, 1, 1]);
        assert(r@.safe =~= seq![1u8, 1, 1, 1]);
        assert(r@.code =~= seq![0u8, 0, 0, 0]);
        r
    }

    /// Handles a click while the player browses a room.
    fn browse(&mut self, p: Pos)
        requires
            old(self).wf(),
            old(self).current_state == UserState::Nothing,
        ensures
            final(self).wf(),
            final(self)@ == browse_step(old(self)@, p),
    {
        let ghost g = self@;
        let mut found: Option<usize> = None;
        let mut i: usize = 0;
        while i < self.items.len()
            invariant
                self@ == g,
                consistent(g),
                i <= self.items@.len(),
                found == last_reacting(g.items, g.room, p, i as int),
            decreases self.items@.len() - i,
        {
            let item = &self.items[i];
            assert(placed(g.items[i as int], g.sizes));
            if item.room == self.current_room && item.state != ItemState::Nothing && item.contains(p) {
                found = Some(i);
            }
            i += 1;
        }
        proof {
            lemma_last_reacting(g.items, g.room, p, g.items.len() as int);
        }
        match found {
            Some(k) => {
                let state = self.items[k].state;
                match state {
                    ItemState::Flavor => {
                        self.main_text = copy_lines(&self.items[k].flavor_text);
                        self.current_state = UserState::Nothing;
                        self.current_item = None;
                    },
                    ItemState::Look => {
                        self.current_state = UserState::Looking;
                        self.current_item = Some(k);
                        self.main_text = blank_text();
                    },
                    ItemState::Interact => {
                        self.current_state = UserState::Interacting;
                        self.current_item = Some(k);
                        self.main_text = blank_text();
                    },
                    ItemState::Nothing => {},
                }
            },
            None => {},
        }
        if hit(p, 0, 100, 100, 200) {
            self.current_room = rotate_left(self.current_room);
            self.main_text = blank_text();
        }
        if hit(p, 500, 650, 100, 200) {
            self.current_room = rotate_right(self.current_room);
            self.main_text = blank_text();
        }
    }

    /// Handles a click on a close-up.
    fn look(&mut self, p: Pos)
        requires
            old(self).wf(),
        ensures
            final(self).wf(),
            final(self)@ == look_step(old(self)@, p),
    {
        if hit(p, 0, 100, 20, 120) {
            self.current_state = UserState::Nothing;
            self.current_item = None;
        }
    }

    /// The puzzle on the open item's screen.
    pub fn shown_puzzle(&self) -> (r: Option<Puzzle>)
        requires
            self.wf(),
        ensures
            r == shown_puzzle(self@),
    {
        match self.current_item {
            Some(i) => match &self.items[i].link {
                Some(l) => puzzle_for(&l.tag),
                None => None,
            },
            None => None,
        }
    }

    fn door_pad_click(&mut self, p: Pos) -> (fb: Feedback)
        requires
            old(self).wf(),
            old(self).current_state == UserState::Interacting,
        ensures
            final(self).wf(),
            door_pad_step(old(self)@, final(self)@, p, fb),
    {
        match door_pad_control(p) {
            Some(LockControl::Wheel(i)) => {
                self.door_pad.turn(i, DIGIT_FACES);
                Feedback::Silent
            },
            Some(LockControl::Confirm) => {
                if self.door_pad.reads([1, 2, 3, 4]) {
                    let door = open_door(&self.sizes);
                    self.items.push(door);
                    self.main_text = one_line("The door opened!");
                    self.current_state = UserState::Nothing;
                    self.current_item = None;
                    proof {
                        reveal_strlit("The door opened!");
                        assert(self@.items.subrange(0, old(self)@.items.len() as int) =~= old(self)@.items);
                    }
                    Feedback::Silent
                } else {
                    Feedback::Wrong
                }
            },
            None => Feedback::Silent,
        }
    }

    fn safe_click(&mut self, p: Pos) -> (fb: Feedback)
        requires
            old(self).wf(),
            old(self).current_state == UserState::Interacting,
        ensures
            final(self).wf(),
            safe_step(old(self)@, final(self)@, p, fb),
    {
        match safe_control(p) {
            Some(LockControl::Wheel(i)) => {
                self.safe.turn(i, DIGIT_FACES);
                Feedback::Silent
            },
            Some(LockControl::Confirm) => {
                if self.safe.reads([5, 3, 9, 4]) {
                    let view = open_safe_view(&self.sizes);
                    self.items.push(view);
                    let safe = open_safe(&self.sizes);
                    self.items.push(safe);
                    self.main_text = one_line("The safe opened!");
                    self.current_state = UserState::Nothing;
                    self.current_item = None;
                    proof {
                        assert(self@.items.subrange(0, old(self)@.items.len() as int) =~= old(self)@.items);
                    }
                    Feedback::Silent
                } else {
                    Feedback::Wrong
                }
            },
            None => Feedback::Silent,
        }
    }

    fn code_click(&mut self, p: Pos) -> (fb: Feedback)
        requires
            old(self).wf(),
            old(self).current_state == UserState::Interacting,
        ensures
            final(self).wf(),
            code_step(old(self)@, final(self)@, p, fb),
    {
        match code_panel_control(p) {
            Some(LockControl::Wheel(i)) => {
                self.code.turn(i, SYMBOL_FACES);
                Feedback::Silent
            },
            Some(LockControl::Confirm) => {
                if self.code.opens_symbol_code() {
                    self.current_state = UserState::Complete;
                    Feedback::Silent
                } else {
                    Feedback::Wrong
                }
            },
            None => Feedback::Silent,
        }
    }

    fn wires_click(&mut self, p: Pos)
        requires
            old(self).wf(),
        ensures
            final(self).wf(),
            final(self)@ == wires_step(old(self)@, p),
    {
        match terminal_under(p) {
            Some(t) => self.wires.tap(t),
            None => {},
        }
    }

    fn phone_click(&mut self, p: Pos)
        requires
            old(self).wf(),
        ensures
            final(self).wf(),
            final(self)@ == phone_step(old(self)@, p),
    {
        match key_under(p) {
            Some(PhoneKey::Digit(d)) => self.phone.press_digit(d),
            Some(PhoneKey::Call) => self.phone.call(),
            Some(PhoneKey::Clear) => self.phone.clear(),
            None => {},
        }
    }

    fn candles_click(&mut self, p: Pos)
        requires
            old(self).wf(),
        ensures
            final(self).wf(),
            final(self)@ == candles_step(old(self)@, p),
    {
        match swap_under(p) {
            Some(i) => {
                proof {
                    lemma_swap_keeps_arrangement(self.candles.order@, i as int);
                }
                self.candles.swap(i);
            },
            None => {},
        }
    }

    /// Handles a click on a puzzle screen.
    fn interact(&mut self, p: Pos) -> (fb: Feedback)
        requires
            old(self).wf(),
            old(self).current_state == UserState::Interacting,
        ensures
            final(self).wf(),
            interact_step(old(self)@, final(self)@, p, fb),
    {
        if hit(p, 0, 100, 20, 120) {
            self.current_state = UserState::Nothing;
            self.current_item = None;
            self.wires.release();
            return Feedback::Silent;
        }
        match self.shown_puzzle() {
            Some(Puzzle::DoorPad) => self.door_pad_click(p),
            Some(Puzzle::Safe) => self.safe_click(p),
            Some(Puzzle::SymbolCode) => self.code_click(p),
            Some(Puzzle::Wires) => {
                self.wires_click(p);
                Feedback::Silent
            },
            Some(Puzzle::Phone) => {
                self.phone_click(p);
                Feedback::Silent
            },
            Some(Puzzle::Candles) => {
                self.candles_click(p);
                Feedback::Silent
            },
            None => Feedback::Silent,
        }
    }

    /// Handles a mouse click at `p`.
    pub fn click(&mut self, p: Pos) -> (fb: Feedback)
        requires
            old(self).wf(),
        ensures
            final(self).wf(),
            click_step(old(self)@, final(self)@, p, fb),
    {
        match self.current_state {
            UserState::Nothing => {
                self.browse(p);
                Feedback::Silent
            },
            UserState::Looking => {
                self.look(p);
                Feedback::Silent
            },
            UserState::Interacting => self.interact(p),
            UserState::Complete => Feedback::Silent,
        }
    }
}

/// The back arrow overlaps no control of any puzzle, so a click on it
/// reaches no puzzle, whichever is handled first.
pub proof fn lemma_back_arrow_apart(p: Pos)
    requires
        on_back_arrow(p),
    ensures
        door_pad_at(p) is None,
        safe_at(p) is None,
        code_panel_at(p) is None,
        terminal_at(p) is None,
        key_at(p) is None,
        swap_at(p) is None,
{
}

/// The two room arrows do not overlap.
pub proof fn lemma_room_arrows_apart(p: Pos)
    ensures
        !(on_left_arrow(p) && on_right_arrow(p)),
{
}

/// No click removes or changes an item: the items before a click come
/// first, unchanged, in the items after it.
pub proof fn lemma_items_only_grow(g: GameView, h: GameView, p: Pos, fb: Feedback)
    requires
        click_step(g, h, p, fb),
    ensures
        g.items.len() <= h.items.len(),
        h.items.subrange(0, g.items.len() as int) == g.items,
{
    assert(g.items.subrange(0, g.items.len() as int) =~= g.items);
}

/// Once the game is over it stays over, and nothing changes.
pub proof fn lemma_complete_is_final(g: GameView, h: GameView, p: Pos, fb: Feedback)
    requires
        click_step(g, h, p, fb),
        g.state == UserState::Complete,
    ensures
        h == g,
        fb == Feedback::Silent,
{
}

/// From a close-up or a puzzle, the back arrow always leads back to the
/// same room, with nothing open.
pub proof fn lemma_back_arrow_returns(g: GameView, h: GameView, p: Pos, fb: Feedback)
    requires
        click_step(g, h, p, fb),
        g.state == UserState::Looking || g.state == UserState::Interacting,
        on_back_arrow(p),
    ensures
        h.state == UserState::Nothing,
        h.current is None,
        h.room == g.room,
        h.items == g.items,
        h.held is None || g.state == UserState::Looking,
{
}

/// Only the symbol code ends the game: a click that ends it is a confirm
/// on the symbol code panel while it shows the four right symbols.
pub proof fn lemma_only_the_code_ends(g: GameView, h: GameView, p: Pos, fb: Feedback)
    requires
        click_step(g, h, p, fb),
        g.state != UserState::Complete,
        h.state == UserState::Complete,
    ensures
        g.state == UserState::Interacting,
        shown_puzzle(g) == Some(Puzzle::SymbolCode),
        code_panel_at(p) == Some(LockControl::Confirm),
        shows_symbol_code(g.code),
{
}

/// Browsing never opens a puzzle or a close-up in another room, nor one
/// whose item does not ask for it.
pub proof fn lemma_browse_opens_what_was_clicked(g: GameView, p: Pos)
    requires
        g.items.len() <= usize::MAX,
    ensures
        forall|i: usize|
            #![trigger g.items[i as int]]
            browse_step(g, p).current == Some(i) && g.current != Some(i) ==> {
                &&& g.items[i as int].room == g.room
                &&& g.items[i as int].covers(p)
                &&& (browse_step(g, p).state == UserState::Looking) == (g.items[i as int].state
                    == ItemState::Look)
            },
{
    lemma_last_reacting(g.items, g.room, p, g.items.len() as int);
}

} // verus!
