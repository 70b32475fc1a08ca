//! What the control panel of one creature needs to know: how its widgets are
//! named and how far its segment count may be moved.

use vstd::prelude::*;

verus! {

/// The fewest segments the controls let a creature have.
pub const MIN_SEGMENTS: usize = 2;

/// The most segments the controls let a creature have.
pub const MAX_SEGMENTS: usize = 20;

/// The identity under which a creature's controls are shown.
pub struct CreatureUI {
    id: String,
    creature_type: String,
}

impl CreatureUI {
    /// The identifier of the instance.
    pub closed spec fn id_spec(self) -> Seq<char> {
        self.id@
    }

    /// The name of the kind of creature.
    pub closed spec fn creature_type_spec(self) -> Seq<char> {
        self.creature_type@
    }

    /// The text of the widget for `action`: kind, identifier and action,
    /// joined by underscores.
    pub open spec fn label_spec(self, action: Seq<char>) -> Seq<char> {
        self.creature_type_spec() + "_"@ + self.id_spec() + "_"@ + action
    }

    /// The controls of a creature of kind `creature_type`; its identifier is
    /// the kind followed by `_instance`.
    pub fn new(creature_type: &str) -> (r: Self)
        ensures
            r.creature_type_spec() == creature_type@,
            r.id_spec() == creature_type@ + "_instance"@,
    {
        CreatureUI {
            id: String::from_str(creature_type).concat("_instance"),
            creature_type: String::from_str(creature_type),
        }
    }

    pub fn id(&self) -> (r: &str)
        ensures
            r@ == self.id_spec(),
    {
        self.id.as_str()
    }

    pub fn creature_type(&self) -> (r: &str)
        ensures
            r@ == self.creature_type_spec(),
    {
        self.creature_type.as_str()
    }

    /// The text that names the widget for `action`.
    pub fn label(&self, action: &str) -> (r: String)
        ensures
            r@ == self.label_spec(action@),
    {
        String::from_str(self.creature_type.as_str()).concat("_").concat(self.id.as_str()).concat(
            "_",
        ).concat(action)
    }

    /// The segment count after one press of "add": one more, at most
    /// `MAX_SEGMENTS`.
    pub fn add_segment(target_segments: usize) -> (r: usize)
        ensures
            r == if target_segments + 1 <= MAX_SEGMENTS {
                target_segments + 1
            } else {
                MAX_SEGMENTS as int
            },
    {
        if target_segments >= MAX_SEGMENTS {
            MAX_SEGMENTS
        } else {
            target_segments + 1
        }
    }

    /// The segment count after one press of "remove": one fewer, at least
    /// `MIN_SEGMENTS`.
    pub fn remove_segment(target_segments: usize) -> (r: usize)
        ensures
            r == if target_segments - 1 >= MIN_SEGMENTS {
                target_segments - 1
            } else {
                MIN_SEGMENTS as int
            },
    {
        if target_segments <= MIN_SEGMENTS {
            MIN_SEGMENTS
        } else {
            target_segments - 1
        }
    }

    /// The segment count that the controls accept in place of `requested`.
    pub fn clamp_segments(requested: usize) -> (r: usize)
        ensures
            MIN_SEGMENTS <= r <= MAX_SEGMENTS,
            MIN_SEGMENTS <= requested <= MAX_SEGMENTS ==> r == requested,
            requested < MIN_SEGMENTS ==> r == MIN_SEGMENTS,
            requested > MAX_SEGMENTS ==> r == MAX_SEGMENTS,
    {
        if requested < MIN_SEGMENTS {
            MIN_SEGMENTS
        } else if requested > MAX_SEGMENTS {
            MAX_SEGMENTS
        } else {
            requested
        }
    }
}

} // verus!
