//! Layers of sprites: a fixed number of places, each empty or holding one
//! sprite.

use crate::error::not_found;
use crate::error::out_of_range;
use crate::error::ErrorKind;
use crate::error::FennecError;
use crate::text::decimal;
use crate::text::decimal_digits;
use crate::text::join;
use crate::vm::graphicsengine::device::Float;
use crate::vm::graphicsengine::tileregion::TileRegion;
use vstd::prelude::*;

verus! {

/// The number of places in a sprite layer.
pub const MAX_SPRITES: usize = 65536;

/// A sprite: where it stands, and the tiles that it shows.
#[derive(Clone, Copy, Debug, PartialEq, Eq)]
pub struct Sprite {
    pub position: (Float, Float),
    pub tile_region: TileRegion,
}

/// A token that points at a place of a sprite layer.
#[derive(Clone, Copy, Debug, Hash)]
pub struct SpriteHandle {
    array_index: usize,
}

impl View for SpriteHandle {
    type V = usize;

    closed spec fn view(&self) -> usize {
        self.array_index
    }
}

impl SpriteHandle {
    /// The place that the handle points at.
    pub fn array_index(&self) -> (index: usize)
        ensures
            index == self@,
    {
        self.array_index
    }
}

/// How many of the first `upto` places hold a sprite.
pub open spec fn occupied(sprites: Seq<Option<Sprite>>, upto: nat) -> nat
    decreases upto,
{
    if upto == 0 {
        0
    } else if sprites[upto - 1] is Some {
        occupied(sprites, (upto - 1) as nat) + 1
    } else {
        occupied(sprites, (upto - 1) as nat)
    }
}

/// Whether `highest` is the last place that holds a sprite, or `None` where
/// no place does.
pub open spec fn is_highest(sprites: Seq<Option<Sprite>>, highest: Option<usize>) -> bool {
    match highest {
        Some(index) => index < sprites.len() && sprites[index as int] is Some && forall|later: int|
            index < later < sprites.len() ==> (#[trigger] sprites[later]) is None,
        None => forall|place: int| 0 <= place < sprites.len() ==> (#[trigger] sprites[place]) is None,
    }
}

/// Whether `index` is the first place that is empty.
pub open spec fn is_first_empty(sprites: Seq<Option<Sprite>>, index: int) -> bool {
    &&& 0 <= index < sprites.len()
    &&& sprites[index] is None
    &&& forall|earlier: int| 0 <= earlier < index ==> (#[trigger] sprites[earlier]) is Some
}

/// Whether every place holds a sprite.
pub open spec fn is_full(sprites: Seq<Option<Sprite>>) -> bool {
    forall|place: int| 0 <= place < sprites.len() ==> (#[trigger] sprites[place]) is Some
}

/// No more places are occupied than there are.
pub proof fn lemma_occupied_bound(sprites: Seq<Option<Sprite>>, upto: nat)
    ensures
        occupied(sprites, upto) <= upto,
    decreases upto,
{
    if upto > 0 {
        lemma_occupied_bound(sprites, (upto - 1) as nat);
    }
}

/// Where the first `upto` places all hold a sprite, `upto` places are
/// occupied, and only then.
pub proof fn lemma_occupied_all(sprites: Seq<Option<Sprite>>, upto: nat)
    requires
        upto <= sprites.len(),
    ensures
        occupied(sprites, upto) == upto <==> forall|place: int|
            0 <= place < upto ==> (#[trigger] sprites[place]) is Some,
    decreases upto,
{
    if upto > 0 {
        lemma_occupied_all(sprites, (upto - 1) as nat);
        lemma_occupied_bound(sprites, (upto - 1) as nat);
    }
}

/// Places that are empty from `from` on add nothing to the count.
pub proof fn lemma_occupied_below(sprites: Seq<Option<Sprite>>, from: nat, upto: nat)
    requires
        from <= upto <= sprites.len(),
        forall|place: int| from <= place < upto ==> (#[trigger] sprites[place]) is None,
    ensures
        occupied(sprites, upto) == occupied(sprites, from),
    decreases upto,
{
    if upto > from {
        lemma_occupied_below(sprites, from, (upto - 1) as nat);
    }
}

/// How the count changes when one place changes.
pub proof fn lemma_occupied_update(
    sprites: Seq<Option<Sprite>>,
    index: int,
    value: Option<Sprite>,
    upto: nat,
)
    requires
        0 <= index < sprites.len(),
        upto <= sprites.len(),
    ensures
        occupied(sprites.update(index, value), upto) == if index < upto {
            occupied(sprites, upto) - (if sprites[index] is Some {
                1int
            } else {
                0int
            }) + (if value is Some {
                1int
            } else {
                0int
            })
        } else {
            occupied(sprites, upto) as int
        },
    decreases upto,
{
    if upto > 0 {
        lemma_occupied_update(sprites, index, value, (upto - 1) as nat);
        lemma_occupied_bound(sprites, (upto - 1) as nat);
        if index < upto - 1 && sprites[index] is Some {
            lemma_occupied_at_least_one(sprites, index, (upto - 1) as nat);
        }
    }
}

/// A place that holds a sprite is counted.
pub proof fn lemma_occupied_at_least_one(sprites: Seq<Option<Sprite>>, index: int, upto: nat)
    requires
        0 <= index < upto <= sprites.len(),
        sprites[index] is Some,
    ensures
        occupied(sprites, upto) >= 1,
    decreases upto,
{
    if index < upto - 1 {
        lemma_occupied_at_least_one(sprites, index, (upto - 1) as nat);
    }
}

/// A layer of sprites.
pub struct SpriteLayer {
    highest_sprite: Option<usize>,
    sprite_count: usize,
    sprites: Vec<Option<Sprite>>,
}

impl View for SpriteLayer {
    type V = Seq<Option<Sprite>>;

    /// The places of the layer.
    closed spec fn view(&self) -> Seq<Option<Sprite>> {
        self.sprites@
    }
}

/// The description of the error for a layer that is full.
pub open spec fn layer_is_full() -> Seq<char> {
    "The max number of sprites (65536) has been reached"@
}

/// The description of the error for a handle that points at no sprite.
pub open spec fn no_such_sprite(index: usize) -> Seq<char> {
    "No sprite exists with handle: SpriteHandle { array_index: "@ + decimal_digits(index as nat)
        + " }"@
}

impl SpriteLayer {
    /// Whether the layer is in order: it has all its places, and what it
    /// keeps of the number of sprites and of the last sprite is right.
    pub closed spec fn well_formed(&self) -> bool {
        &&& self.sprites@.len() == MAX_SPRITES
        &&& self.sprite_count == occupied(self.sprites@, MAX_SPRITES as nat)
        &&& is_highest(self.sprites@, self.highest_sprite)
    }

    /// An empty layer.
    pub fn new() -> (layer: Self)
        ensures
            layer.well_formed(),
            layer@.len() == MAX_SPRITES,
            forall|place: int| 0 <= place < MAX_SPRITES ==> (#[trigger] layer@[place]) is None,
    {
        let mut sprites: Vec<Option<Sprite>> = Vec::new();
        let mut i: usize = 0;
        while i < MAX_SPRITES
            invariant
                i <= MAX_SPRITES,
                sprites@.len() == i,
                forall|place: int| 0 <= place < i ==> (#[trigger] sprites@[place]) is None,
            decreases MAX_SPRITES - i,
        {
            sprites.push(None);
            i += 1;
        }
        proof {
            lemma_occupied_below(sprites@, 0, MAX_SPRITES as nat);
        }
        Self { highest_sprite: None, sprite_count: 0, sprites }
    }

    /// The number of sprites in the layer.
    pub fn sprite_count(&self) -> (count: usize)
        requires
            self.well_formed(),
        ensures
            count == occupied(self@, MAX_SPRITES as nat),
            self@.len() == MAX_SPRITES,
    {
        self.sprite_count
    }

    /// The sprite at the place that `handle` points at, if there is one.
    pub fn get(&self, handle: &SpriteHandle) -> (sprite: Option<Sprite>)
        ensures
            sprite == if handle@ < self@.len() {
                self@[handle@ as int]
            } else {
                None
            },
    {
        if handle.array_index < self.sprites.len() {
            self.sprites[handle.array_index]
        } else {
            None
        }
    }

    /// Puts a new sprite into the first place that is empty, and returns
    /// the handle of that place. A layer that is full refuses.
    pub fn create(&mut self, position: (Float, Float), tile_region: TileRegion) -> (result: Result<
        SpriteHandle,
        FennecError,
    >)
        requires
            old(self).well_formed(),
        ensures
            final(self).well_formed(),
            match result {
                Ok(handle) => is_first_empty(old(self)@, handle@ as int) && final(self)@ == old(self)@.update(handle@ as int, Some(Sprite { position, tile_region })),
                Err(error) => is_full(old(self)@) && error@ == out_of_range(layer_is_full())
                    && final(self)@ == old(self)@,
            },
    {
        let index = match self.first_empty() {
            Some(index) => index,
            None => {
                return Err(
                    FennecError::with_kind(
                        ErrorKind::OutOfRange,
                        "The max number of sprites (65536) has been reached",
                    ),
                );
            },
        };
        proof {
            lemma_occupied_update(
                self.sprites@,
                index as int,
                Some(Sprite { position, tile_region }),
                MAX_SPRITES as nat,
            );
            lemma_occupied_bound(self.sprites@, MAX_SPRITES as nat);
            lemma_occupied_all(self.sprites@, MAX_SPRITES as nat);
        }
        let raise = match self.highest_sprite {
            Some(highest) => index > highest,
            None => true,
        };
        if raise {
            self.highest_sprite = Some(index);
        }
        self.sprite_count += 1;
        self.sprites[index] = Some(Sprite { position, tile_region });
        Ok(SpriteHandle { array_index: index })
    }

    /// Takes the sprite out of the place that `handle` points at. A handle
    /// that points at no sprite is refused.
    pub fn destroy(&mut self, handle: SpriteHandle) -> (result: Result<(), FennecError>)
        requires
            old(self).well_formed(),
        ensures
            final(self).well_formed(),
            match result {
                Ok(()) => handle@ < old(self)@.len() && old(self)@[handle@ as int] is Some
                    && final(self)@ == old(self)@.update(handle@ as int, None),
                Err(error) => !(handle@ < old(self)@.len() && old(self)@[handle@ as int] is Some)
                    && error@ == not_found(no_such_sprite(handle@)) && final(self)@ == old(self)@,
            },
    {
        let index = handle.array_index;
        if index >= self.sprites.len() || self.sprites[index].is_none() {
            let number = decimal(index as u64);
            let head = join(
                "No sprite exists with handle: SpriteHandle { array_index: ",
                number.as_str(),
            );
            let description = join(head.as_str(), " }");
            return Err(FennecError::with_kind(ErrorKind::NotFound, description.as_str()));
        }
        proof {
            lemma_occupied_update(self.sprites@, index as int, None, MAX_SPRITES as nat);
            lemma_occupied_at_least_one(self.sprites@, index as int, MAX_SPRITES as nat);
        }
        self.sprites[index] = None;
        self.sprite_count -= 1;
        if self.highest_sprite == Some(index) {
            // The last sprite is gone: the one before it is the last now.
            let mut place = index;
            let mut found: Option<usize> = None;
            while place > 0 && found.is_none()
                invariant
                    place <= index,
                    index < self.sprites@.len(),
                    forall|later: int|
                        place <= later < self.sprites@.len() ==> (#[trigger] self.sprites@[later])
                            is None || found == Some(later as usize),
                    found matches Some(at) ==> at == place && self.sprites@[at as int] is Some,
                decreases place + (if found is None { 1nat } else { 0nat }),
            {
                place -= 1;
                if self.sprites[place].is_some() {
                    found = Some(place);
                }
            }
            self.highest_sprite = found;
        }
        Ok(())
    }

    /// The first place that is empty, if the layer is not full.
    fn first_empty(&self) -> (index: Option<usize>)
        requires
            self.well_formed(),
        ensures
            match index {
                Some(index) => is_first_empty(self@, index as int),
                None => is_full(self@),
            },
    {
        proof {
            lemma_occupied_all(self.sprites@, MAX_SPRITES as nat);
        }
        if self.sprite_count == MAX_SPRITES {
            return None;
        }
        match self.highest_sprite {
            Some(highest_sprite) => {
                let mut idx: usize = 0;
                while idx < highest_sprite
                    invariant
                        idx <= highest_sprite,
                        highest_sprite < self.sprites@.len(),
                        forall|earlier: int|
                            0 <= earlier < idx ==> (#[trigger] self.sprites@[earlier]) is Some,
                    decreases highest_sprite - idx,
                {
                    if self.sprites[idx].is_none() {
                        return Some(idx);
                    }
                    idx += 1;
                }
                proof {
                    // Every place up to the last sprite is taken, so the
                    // layer has a place after it.
                    if highest_sprite + 1 >= MAX_SPRITES {
                        assert forall|place: int|
                            0 <= place < MAX_SPRITES implies (#[trigger] self.sprites@[place])
                            is Some by {}
                    }
                }
                Some(highest_sprite + 1)
            },
            None => Some(0),
        }
    }
}

} // verus!
