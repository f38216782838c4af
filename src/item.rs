//! Clickable items: what they look like, where they stand, and what a click
//! on them does.
use vstd::prelude::*;
use crate::geometry::{fits, Bounds, Pos};
use crate::room::Room;

verus! {

/// What a click on an item does while the player browses a room.
#[derive(Clone, Copy, Debug, PartialEq, Eq, Structural)]
pub enum ItemState {
    /// Nothing happens.
    Nothing,
    /// The item's flavor text is shown.
    Flavor,
    /// The linked close-up is shown.
    Look,
    /// The linked puzzle screen is opened.
    Interact,
}

/// The image an item is drawn with.
#[derive(Clone, Copy, Debug, PartialEq, Eq, Structural)]
pub enum Sprite {
    ExitDoorPad,
    ExitDoor,
    OpenDoor,
    Table,
    NorthBook,
    Book,
    NorthPaintingBig,
    NorthPaintingSmall,
    ClockBig,
    ClockSmall,
    PhoneEntry,
    PhoneBooth,
    Shelf,
    EastBook,
    WashingtonBig,
    WashingtonSmall,
    ColorMatch,
    ColorBox,
    WeightsBig,
    WeightsSmall,
    PaintNumbersBig,
    PaintNumbersSmall,
    Window,
    SafeBig,
    SafeSmall,
    OpenSafeBig,
    OpenSafeSmall,
    Light,
    VaseBig,
    VaseSmall,
    CandleCaseBig,
    CandleCaseSmall,
    CodeEntryBig,
    CodeEntrySmall,
}

/// How many sprites there are; `Sprite::index` numbers them from zero.
pub const SPRITE_COUNT: usize = 34;

/// No image is wider or taller than this many pixels.
pub const MAX_SIDE: i32 = 65536;

/// The position of a sprite in a table of per-sprite values.
pub open spec fn sprite_index(s: Sprite) -> nat {
    match s {
        Sprite::ExitDoorPad => 0,
        Sprite::ExitDoor => 1,
        Sprite::OpenDoor => 2,
        Sprite::Table => 3,
        Sprite::NorthBook => 4,
        Sprite::Book => 5,
        Sprite::NorthPaintingBig => 6,
        Sprite::NorthPaintingSmall => 7,
        Sprite::ClockBig => 8,
        Sprite::ClockSmall => 9,
        Sprite::PhoneEntry => 10,
        Sprite::PhoneBooth => 11,
        Sprite::Shelf => 12,
        Sprite::EastBook => 13,
        Sprite::WashingtonBig => 14,
        Sprite::WashingtonSmall => 15,
        Sprite::ColorMatch => 16,
        Sprite::ColorBox => 17,
        Sprite::WeightsBig => 18,
        Sprite::WeightsSmall => 19,
        Sprite::PaintNumbersBig => 20,
        Sprite::PaintNumbersSmall => 21,
        Sprite::Window => 22,
        Sprite::SafeBig => 23,
        Sprite::SafeSmall => 24,
        Sprite::OpenSafeBig => 25,
        Sprite::OpenSafeSmall => 26,
        Sprite::Light => 27,
        Sprite::VaseBig => 28,
        Sprite::VaseSmall => 29,
        Sprite::CandleCaseBig => 30,
        Sprite::CandleCaseSmall => 31,
        Sprite::CodeEntryBig => 32,
        Sprite::CodeEntrySmall => 33,
    }
}

impl Sprite {
    pub fn index(self) -> (r: usize)
        ensures
            r == sprite_index(self),
            r < SPRITE_COUNT,
    {
        match self {
            Sprite::ExitDoorPad => 0,
            Sprite::ExitDoor => 1,
            Sprite::OpenDoor => 2,
            Sprite::Table => 3,
            Sprite::NorthBook => 4,
            Sprite::Book => 5,
            Sprite::NorthPaintingBig => 6,
            Sprite::NorthPaintingSmall => 7,
            Sprite::ClockBig => 8,
            Sprite::ClockSmall => 9,
            Sprite::PhoneEntry => 10,
            Sprite::PhoneBooth => 11,
            Sprite::Shelf => 12,
            Sprite::EastBook => 13,
            Sprite::WashingtonBig => 14,
            Sprite::WashingtonSmall => 15,
            Sprite::ColorMatch => 16,
            Sprite::ColorBox => 17,
            Sprite::WeightsBig => 18,
            Sprite::WeightsSmall => 19,
            Sprite::PaintNumbersBig => 20,
            Sprite::PaintNumbersSmall => 21,
            Sprite::Window => 22,
            Sprite::SafeBig => 23,
            Sprite::SafeSmall => 24,
            Sprite::OpenSafeBig => 25,
            Sprite::OpenSafeSmall => 26,
            Sprite::Light => 27,
            Sprite::VaseBig => 28,
            Sprite::VaseSmall => 29,
            Sprite::CandleCaseBig => 30,
            Sprite::CandleCaseSmall => 31,
            Sprite::CodeEntryBig => 32,
            Sprite::CodeEntrySmall => 33,
        }
    }
}

/// The pixel size of an image.
#[derive(Clone, Copy, Debug, PartialEq, Eq, Structural)]
pub struct Size {
    pub width: i32,
    pub height: i32,
}

impl Size {
    pub open spec fn valid(self) -> bool {
        0 <= self.width <= MAX_SIDE && 0 <= self.height <= MAX_SIDE
    }
}

/// The characters of each line of a text.
pub open spec fn lines_of(v: Seq<String>) -> Seq<Seq<char>> {
    v.map_values(|s: String| s@)
}

/// The characters of each of the given strings.
pub open spec fn words_of(v: Seq<&str>) -> Seq<Seq<char>> {
    v.map_values(|s: &str| s@)
}

/// A clickable, drawable object. Its hit box is its sprite's rectangle at
/// its position; `link` is the close-up or puzzle screen that it opens.
pub struct Item {
    pub room: Room,
    pub tag: String,
    pub sprite: Sprite,
    pub size: Size,
    pub position: Pos,
    pub state: ItemState,
    pub flavor_text: Vec<String>,
    pub link: Option<Box<Item>>,
}

impl Item {
    /// The item's rectangle has a valid size and its corners are
    /// representable.
    pub open spec fn wf(&self) -> bool {
        &&& self.size.valid()
        &&& fits(self.position.x as int, self.size.width as int)
        &&& fits(self.position.y as int, self.size.height as int)
    }

    /// Whether a click at `p` lands on the item: strictly inside its
    /// rectangle.
    pub open spec fn covers(&self, p: Pos) -> bool {
        &&& self.position.x < p.x < self.position.x + self.size.width
        &&& self.position.y < p.y < self.position.y + self.size.height
    }

    pub fn new(
        room: Room,
        tag: &str,
        sprite: Sprite,
        size: Size,
        position: Pos,
        state: ItemState,
        flavor_text: Vec<&str>,
        link: Option<Box<Item>>,
    ) -> (r: Item)
        ensures
            r.room == room,
            r.tag@ == tag@,
            r.sprite == sprite,
            r.size == size,
            r.position == position,
            r.state == state,
            lines_of(r.flavor_text@) == words_of(flavor_text@),
            r.link == link,
    {
        let mut lines: Vec<String> = Vec::new();
        let mut i: usize = 0;
        while i < flavor_text.len()
            invariant
                i <= flavor_text.len(),
                lines@.len() == i,
                lines_of(lines@) == words_of(flavor_text@.subrange(0, i as int)),
            decreases flavor_text.len() - i,
        {
            let ghost before = lines@;
            let line = flavor_text[i].to_owned();
            lines.push(line);
            assert(lines@ == before.push(line));
            i += 1;
            assert forall|k: int| 0 <= k < i implies #[trigger] lines_of(lines@)[k] == words_of(
                flavor_text@.subrange(0, i as int),
            )[k] by {
                if k < i - 1 {
                    assert(lines_of(before)[k] == words_of(flavor_text@.subrange(0, i - 1))[k]);
                }
            }
            assert(lines_of(lines@) =~= words_of(flavor_text@.subrange(0, i as int)));
        }
        assert(flavor_text@.subrange(0, i as int) =~= flavor_text@);
        Item { room, tag: tag.to_owned(), sprite, size, position, state, flavor_text: lines, link }
    }

    pub fn bounds(&self) -> (r: Bounds)
        requires
            self.wf(),
        ensures
            r.top_left == self.position,
            r.top_right.x == self.position.x + self.size.width,
            r.top_right.y == self.position.y,
            r.bottom_left.x == self.position.x,
            r.bottom_left.y == self.position.y + self.size.height,
            r.bottom_right.x == self.position.x + self.size.width,
            r.bottom_right.y == self.position.y + self.size.height,
    {
        Bounds::new(
            self.position,
            self.position.add(Pos::new(self.size.width, 0)),
            self.position.add(Pos::new(0, self.size.height)),
            self.position.add(Pos::new(self.size.width, self.size.height)),
        )
    }

    pub fn contains(&self, point: Pos) -> (r: bool)
        requires
            self.wf(),
        ensures
            r == self.covers(point),
    {
        let bounds = self.bounds();
        point.x > bounds.top_left.x && point.x < bounds.top_right.x && point.y > bounds.top_right.y
            && point.y < bounds.bottom_right.y
    }
}

} // verus!
