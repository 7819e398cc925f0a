//! What an area is: its identity, its type, its layer and how it takes input.

use vstd::prelude::*;

verus! {

/// Names one area for as long as it exists.
#[derive(Debug, Clone, Copy, PartialEq, Eq, Structural)]
pub struct AreaId {
    pub raw: u64,
}

impl AreaId {
    pub fn new(raw: u64) -> (id: Self)
        ensures
            id.raw == raw,
    {
        AreaId { raw }
    }

    /// The number the page knows the area by.
    pub fn get(self) -> (raw: u64)
        ensures
            raw == self.raw,
    {
        self.raw
    }
}

/// What an area does.
#[derive(Debug, Clone, Copy, PartialEq, Eq, Structural)]
pub enum AreaType {
    Default,
    Screenshot,
    Record,
    Ocr,
    Upscale,
    Analysis,
    Filter,
}

/// Every type, in the order the type list shows them.
pub open spec fn all_types() -> Seq<AreaType> {
    seq![
        AreaType::Default,
        AreaType::Screenshot,
        AreaType::Record,
        AreaType::Ocr,
        AreaType::Upscale,
        AreaType::Analysis,
        AreaType::Filter,
    ]
}

impl AreaType {
    /// Every type, in the order the type list shows them.
    pub fn all() -> (types: [AreaType; 7])
        ensures
            types@ == all_types(),
    {
        [
            AreaType::Default,
            AreaType::Screenshot,
            AreaType::Record,
            AreaType::Ocr,
            AreaType::Upscale,
            AreaType::Analysis,
            AreaType::Filter,
        ]
    }
}

/// `all_types` leaves no type out.
pub proof fn law_no_type_is_left_out(kind: AreaType)
    ensures
        all_types().contains(kind),
{
    let types = all_types();
    assert(types[0] == AreaType::Default);
    assert(types[1] == AreaType::Screenshot);
    assert(types[2] == AreaType::Record);
    assert(types[3] == AreaType::Ocr);
    assert(types[4] == AreaType::Upscale);
    assert(types[5] == AreaType::Analysis);
    assert(types[6] == AreaType::Filter);
}

/// Where an area sits among the others.
#[derive(Debug, Clone, Copy, PartialEq, Eq, Structural)]
pub enum Layer {
    /// Always above the other areas.
    Front,
    /// Stacked by use.
    Auto,
    /// Always below the other areas.
    Back,
}

/// Who receives a click on an area's body.
#[derive(Debug, Clone, Copy, PartialEq, Eq, Structural)]
pub enum Input {
    /// The area does.
    Interactive,
    /// The application underneath does.
    PassThrough,
}

/// An edge or a corner by which an area is resized.
#[derive(Debug, Clone, Copy, PartialEq, Eq, Structural)]
pub enum Resize {
    North,
    South,
    East,
    West,
    NorthWest,
    NorthEast,
    SouthWest,
    SouthEast,
}

/// The part of an area under the pointer.
#[derive(Debug, Clone, Copy, PartialEq, Eq, Structural)]
pub enum Handle {
    /// The close control.
    Close,
    /// The inside: dragging it moves the area.
    Body,
    /// An edge or a corner.
    Resize(Resize),
}

/// What the pointer's decisions need of an area: who it is and how it is set.
#[derive(Debug, Clone, Copy, PartialEq, Eq, Structural)]
pub struct AreaSummary {
    pub id: AreaId,
    pub layer: Layer,
    pub input: Input,
    pub kind: AreaType,
}

/// An area is known by the number it was named with, and two names are the same where their
/// numbers are.
pub proof fn law_an_area_is_known_by_its_number(
    raw: u64,
    id: AreaId,
    number: u64,
    other_raw: u64,
    other: AreaId,
)
    requires
        call_ensures(AreaId::new, (raw,), id),
        call_ensures(AreaId::get, (id,), number),
        call_ensures(AreaId::new, (other_raw,), other),
    ensures
        number == raw,
        id == other <==> raw == other_raw,
{
}

/// The list of the types holds each of them once, the default type first and the others in
/// the order they are offered in.
pub proof fn law_the_types_in_their_order(types: [AreaType; 7], i: int, j: int, kind: AreaType)
    requires
        call_ensures(AreaType::all, (), types),
    ensures
        types@.contains(kind),
        0 <= i < j < 7 ==> types@[i] != types@[j],
        types@[0] == AreaType::Default,
        types@[1] == AreaType::Screenshot,
        types@[2] == AreaType::Record,
        types@[3] == AreaType::Ocr,
        types@[4] == AreaType::Upscale,
        types@[5] == AreaType::Analysis,
        types@[6] == AreaType::Filter,
{
    law_no_type_is_left_out(kind);
}

} // verus!
