//! The items of the four rooms, and those that appear when the door and
//! the safe are opened.
use vstd::prelude::*;
use crate::game::{puzzle_of, Puzzle};
use crate::geometry::Pos;
use crate::item::{lines_of, sprite_index, Item, ItemState, Size, Sprite, SPRITE_COUNT};
use crate::room::Room;

verus! {

/// A size for every sprite, indexed by `Sprite::index`.
pub open spec fn sizes_ok(sizes: Seq<Size>) -> bool {
    &&& sizes.len() == SPRITE_COUNT
    &&& forall|i: int| 0 <= i < sizes.len() ==> (#[trigger] sizes[i]).valid()
}

/// Whether `item` has its sprite's size and a representable rectangle.
pub open spec fn drawn(item: Item, sizes: Seq<Size>) -> bool {
    &&& item.wf()
    &&& item.size == sizes[sprite_index(item.sprite) as int]
}

/// Whether `item` is drawn at its sprite's size, and a click that should
/// open a close-up or a puzzle has one to open, which opens nothing itself.
pub open spec fn placed(item: Item, sizes: Seq<Size>) -> bool {
    &&& drawn(item, sizes)
    &&& (item.state == ItemState::Look || item.state == ItemState::Interact) ==> item.link is Some
    &&& item.link matches Some(l) ==> drawn(*l, sizes) && l.link is None
}

/// Whether a click on `item`, standing in a room, opens puzzle `q`.
pub open spec fn opens_puzzle(item: Item, q: Puzzle) -> bool {
    &&& item.room != Room::Nowhere
    &&& item.state == ItemState::Interact
    &&& item.link matches Some(l) && puzzle_of(l.tag@) == Some(q)
}

/// Whether some item of `items` opens puzzle `q`.
pub open spec fn some_item_opens(items: Seq<Item>, q: Puzzle) -> bool {
    exists|i: int| 0 <= i < items.len() && #[trigger] opens_puzzle(items[i], q)
}

/// The number of items the rooms start with.
pub const STARTING_ITEMS: usize = 36;

/// The item that takes the place of the exit door once it is open.
pub open spec fn is_open_door(item: Item, sizes: Seq<Size>) -> bool {
    &&& item.room == Room::North
    &&& item.tag@ == "open_door"@
    &&& item.sprite == Sprite::OpenDoor
    &&& item.position == (Pos { x: 100, y: 0 })
    &&& item.state == ItemState::Flavor
    &&& lines_of(item.flavor_text@) == seq!["You know, I don't really"@, "feel like leaving, actually."@]
    &&& item.link is None
    &&& placed(item, sizes)
}

/// The close-up of the open safe.
pub open spec fn is_open_safe_view(item: Item, sizes: Seq<Size>) -> bool {
    &&& item.room == Room::Nowhere
    &&& item.tag@ == "safe_big"@
    &&& item.sprite == Sprite::OpenSafeBig
    &&& item.position == (Pos { x: 100, y: 0 })
    &&& item.state == ItemState::Nothing
    &&& item.link is None
    &&& placed(item, sizes)
}

/// The open safe as it stands in the west room: a click shows its close-up.
pub open spec fn is_open_safe(item: Item, sizes: Seq<Size>) -> bool {
    &&& item.room == Room::West
    &&& item.tag@ == "safe_small"@
    &&& item.sprite == Sprite::OpenSafeSmall
    &&& item.position == (Pos { x: 390, y: 95 })
    &&& item.state == ItemState::Look
    &&& item.link matches Some(l) && is_open_safe_view(*l, sizes)
    &&& placed(item, sizes)
}

/// An item at its sprite's size. Positions are on screen, so the rectangle
/// is representable.
fn place(
    room: Room,
    tag: &str,
    sprite: Sprite,
    sizes: &Vec<Size>,
    x: i32,
    y: i32,
    state: ItemState,
    flavor_text: Vec<&str>,
    link: Option<Box<Item>>,
) -> (r: Item)
    requires
        sizes_ok(sizes@),
        0 <= x <= 1000,
        0 <= y <= 1000,
        (state == ItemState::Look || state == ItemState::Interact) ==> link is Some,
        link matches Some(l) ==> drawn(*l, sizes@) && l.link is None,
    ensures
        placed(r, sizes@),
        r.room == room,
        r.tag@ == tag@,
        r.sprite == sprite,
        r.position == (Pos { x, y }),
        r.state == state,
        lines_of(r.flavor_text@) == crate::item::words_of(flavor_text@),
        r.link == link,
{
    let size = sizes[sprite.index()];
    Item::new(room, tag, sprite, size, Pos::new(x, y), state, flavor_text, link)
}

/// A close-up or puzzle screen: shown in no room, and inert.
fn screen(tag: &str, sprite: Sprite, sizes: &Vec<Size>, x: i32, y: i32) -> (r: Item)
    requires
        sizes_ok(sizes@),
        0 <= x <= 1000,
        0 <= y <= 1000,
    ensures
        placed(r, sizes@),
        r.link is None,
        r.room == Room::Nowhere,
        r.tag@ == tag@,
        r.sprite == sprite,
        r.position == (Pos { x, y }),
        r.state == ItemState::Nothing,
{
    place(Room::Nowhere, tag, sprite, sizes, x, y, ItemState::Nothing, vec![""], None)
}

/// Appends an item that keeps the list well placed.
fn append(items: &mut Vec<Item>, item: Item, Ghost(sizes): Ghost<Seq<Size>>)
    requires
        forall|i: int| 0 <= i < old(items)@.len() ==> placed(#[trigger] old(items)@[i], sizes),
        placed(item, sizes),
    ensures
        final(items)@ == old(items)@.push(item),
        forall|i: int| 0 <= i < final(items)@.len() ==> placed(#[trigger] final(items)@[i], sizes),
{
    items.push(item);
}

/// Appends a screen, then the room item whose click opens a copy of it.
fn add_pair(
    items: &mut Vec<Item>,
    sizes: &Vec<Size>,
    screen_tag: &str,
    screen_sprite: Sprite,
    sx: i32,
    sy: i32,
    room: Room,
    tag: &str,
    sprite: Sprite,
    x: i32,
    y: i32,
    state: ItemState,
)
    requires
        sizes_ok(sizes@),
        0 <= sx <= 1000,
        0 <= sy <= 1000,
        0 <= x <= 1000,
        0 <= y <= 1000,
        forall|i: int| 0 <= i < old(items)@.len() ==> placed(#[trigger] old(items)@[i], sizes@),
    ensures
        final(items)@.len() == old(items)@.len() + 2,
        forall|i: int| 0 <= i < old(items)@.len() ==> final(items)@[i] == old(items)@[i],
        forall|i: int| 0 <= i < final(items)@.len() ==> placed(#[trigger] final(items)@[i], sizes@),
        ({
            let item = final(items)@[old(items)@.len() + 1int];
            &&& item.room == room
            &&& item.state == state
            &&& item.link matches Some(l) && l.tag@ == screen_tag@
        }),
{
    append(items, screen(screen_tag, screen_sprite, sizes, sx, sy), Ghost(sizes@));
    let view = screen(screen_tag, screen_sprite, sizes, sx, sy);
    append(
        items,
        place(room, tag, sprite, sizes, x, y, state, vec![""], Some(Box::new(view))),
        Ghost(sizes@),
    );
}

/// Appends an item that opens nothing.
fn add_plain(
    items: &mut Vec<Item>,
    sizes: &Vec<Size>,
    room: Room,
    tag: &str,
    sprite: Sprite,
    x: i32,
    y: i32,
    state: ItemState,
    flavor_text: Vec<&str>,
)
    requires
        sizes_ok(sizes@),
        0 <= x <= 1000,
        0 <= y <= 1000,
        state == ItemState::Nothing || state == ItemState::Flavor,
        forall|i: int| 0 <= i < old(items)@.len() ==> placed(#[trigger] old(items)@[i], sizes@),
    ensures
        final(items)@.len() == old(items)@.len() + 1,
        forall|i: int| 0 <= i < old(items)@.len() ==> final(items)@[i] == old(items)@[i],
        forall|i: int| 0 <= i < final(items)@.len() ==> placed(#[trigger] final(items)@[i], sizes@),
{
    append(items, place(room, tag, sprite, sizes, x, y, state, flavor_text, None), Ghost(sizes@));
}

/// The items that the rooms start with, each at its sprite's size.
pub fn starting_items(sizes: &Vec<Size>) -> (r: Vec<Item>)
    requires
        sizes_ok(sizes@),
    ensures
        r@.len() == STARTING_ITEMS,
        forall|i: int| 0 <= i < r@.len() ==> placed(#[trigger] r@[i], sizes@),
        forall|q: Puzzle| #[trigger] some_item_opens(r@, q),
{
    let mut items: Vec<Item> = Vec::new();
    let s = sizes;
    // North
    add_pair(&mut items, s, "door_pad", Sprite::ExitDoorPad, 125, 25,
        Room::North, "exit_door", Sprite::ExitDoor, 100, 0, ItemState::Interact);
    proof {
        crate::game::lemma_puzzle_tags();
        assert(opens_puzzle(items@[1], Puzzle::DoorPad));
    }
    add_plain(&mut items, s, Room::North, "north_table", Sprite::Table, 10, 300,
        ItemState::Nothing, vec![""]);
    add_pair(&mut items, s, "north_open_book", Sprite::NorthBook, 50, 50,
        Room::North, "north_closed_book", Sprite::Book, 50, 335, ItemState::Look);
    add_pair(&mut items, s, "north_big_painting", Sprite::NorthPaintingBig, 200, 0,
        Room::North, "north_small_painting", Sprite::NorthPaintingSmall, 460, 225, ItemState::Look);
    add_pair(&mut items, s, "big_clock", Sprite::ClockBig, 100, 0,
        Room::North, "small_clock", Sprite::ClockSmall, 420, 25, ItemState::Look);
    // East
    add_pair(&mut items, s, "phone_entry", Sprite::PhoneEntry, 180, 0,
        Room::East, "phonebooth", Sprite::PhoneBooth, 100, 50, ItemState::Interact);
    proof {
        crate::game::lemma_puzzle_tags();
        assert(opens_puzzle(items@[10], Puzzle::Phone));
    }
    add_plain(&mut items, s, Room::East, "east_shelf", Sprite::Shelf, 125, 350,
        ItemState::Nothing, vec![""]);
    add_pair(&mut items, s, "east_book", Sprite::EastBook, 150, 75,
        Room::East, "east_closed_book", Sprite::Book, 175, 300, ItemState::Look);
    add_pair(&mut items, s, "east_big_painting", Sprite::WashingtonBig, 180, 30,
        Room::East, "east_small_painting", Sprite::WashingtonSmall, 360, 175, ItemState::Look);
    add_plain(&mut items, s, Room::East, "north_table", Sprite::Table, 410, 300,
        ItemState::Nothing, vec![""]);
    add_pair(&mut items, s, "colormatch", Sprite::ColorMatch, 180, 5,
        Room::East, "colorbox", Sprite::ColorBox, 460, 350, ItemState::Interact);
    proof {
        crate::game::lemma_puzzle_tags();
        assert(opens_puzzle(items@[18], Puzzle::Wires));
    }
    // West
    add_pair(&mut items, s, "weight_big", Sprite::WeightsBig, 100, 5,
        Room::West, "weights_small", Sprite::WeightsSmall, 50, 300, ItemState::Look);
    add_plain(&mut items, s, Room::West, "west_table", Sprite::Table, 410, 300,
        ItemState::Nothing, vec![""]);
    add_pair(&mut items, s, "paint_numbers_big", Sprite::PaintNumbersBig, 100, 5,
        Room::West, "paint_numbers_small", Sprite::PaintNumbersSmall, 460, 325, ItemState::Look);
    add_plain(&mut items, s, Room::West, "west_shelf", Sprite::Shelf, 325, 150,
        ItemState::Nothing, vec![""]);
    add_plain(&mut items, s, Room::West, "window", Sprite::Window, 150, 50,
        ItemState::Flavor, vec!["What a nice view!"]);
    add_pair(&mut items, s, "safe_big", Sprite::SafeBig, 100, 5,
        Room::West, "safe_small", Sprite::SafeSmall, 390, 95, ItemState::Interact);
    proof {
        crate::game::lemma_puzzle_tags();
        assert(opens_puzzle(items@[27], Puzzle::Safe));
    }
    // South
    add_plain(&mut items, s, Room::South, "light", Sprite::Light, 100, 0,
        ItemState::Flavor, vec!["An ugly but functional light fixture.", "It came with the place."]);
    add_pair(&mut items, s, "vase_big", Sprite::VaseBig, 100, 0,
        Room::South, "vase_small", Sprite::VaseSmall, 140, 310, ItemState::Look);
    add_plain(&mut items, s, Room::South, "south_table", Sprite::Table, 100, 300,
        ItemState::Nothing, vec![""]);
    add_pair(&mut items, s, "candlecase_big", Sprite::CandleCaseBig, 100, 5,
        Room::South, "candlecase_small", Sprite::CandleCaseSmall, 340, 160, ItemState::Interact);
    proof {
        crate::game::lemma_puzzle_tags();
        assert(opens_puzzle(items@[33], Puzzle::Candles));
    }
    add_pair(&mut items, s, "codeentry_big", Sprite::CodeEntryBig, 25, 50,
        Room::South, "codeentry_small", Sprite::CodeEntrySmall, 400, 325, ItemState::Interact);
    proof {
        crate::game::lemma_puzzle_tags();
        assert(opens_puzzle(items@[35], Puzzle::SymbolCode));
    }
    proof {
        assert forall|q: Puzzle| #[trigger] some_item_opens(items@, q) by {
            match q {
                Puzzle::DoorPad => assert(opens_puzzle(items@[1], q)),
                Puzzle::Phone => assert(opens_puzzle(items@[10], q)),
                Puzzle::Wires => assert(opens_puzzle(items@[18], q)),
                Puzzle::Safe => assert(opens_puzzle(items@[27], q)),
                Puzzle::Candles => assert(opens_puzzle(items@[33], q)),
                Puzzle::SymbolCode => assert(opens_puzzle(items@[35], q)),
            }
        }
    }
    items
}

/// The open exit door, which only has something to say.
pub fn open_door(sizes: &Vec<Size>) -> (r: Item)
    requires
        sizes_ok(sizes@),
    ensures
        is_open_door(r, sizes@),
{
    let r = place(
        Room::North,
        "open_door",
        Sprite::OpenDoor,
        sizes,
        100,
        0,
        ItemState::Flavor,
        vec!["You know, I don't really", "feel like leaving, actually."],
        None,
    );
    proof {
        let w = seq!["You know, I don't really", "feel like leaving, actually."];
        assert(crate::item::words_of(w) =~= seq!["You know, I don't really"@, "feel like leaving, actually."@]);
    }
    r
}

/// The open safe's close-up.
pub fn open_safe_view(sizes: &Vec<Size>) -> (r: Item)
    requires
        sizes_ok(sizes@),
    ensures
        is_open_safe_view(r, sizes@),
{
    screen("safe_big", Sprite::OpenSafeBig, sizes, 100, 0)
}

/// The open safe in the west room.
pub fn open_safe(sizes: &Vec<Size>) -> (r: Item)
    requires
        sizes_ok(sizes@),
    ensures
        is_open_safe(r, sizes@),
{
    let view = open_safe_view(sizes);
    place(Room::West, "safe_small", Sprite::OpenSafeSmall, sizes, 390, 95, ItemState::Look, vec![""],
        Some(Box::new(view)))
}

} // verus!
