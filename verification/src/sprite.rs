//! What is on screen for one actor: the sheet, the frame range being cycled
//! through, the frame shown, and the horizontal flip.

use crate::actor::Direction;
use crate::sheet::SpriteSheet;
use vstd::prelude::*;

verus! {

/// The mathematical content of a [`SpriteAnimation`].
pub struct SpriteModel {
    pub sheet: SpriteSheet,
    pub first: nat,
    pub last: nat,
    pub index: nat,
    pub flip_x: bool,
}

impl SpriteModel {
    /// The frame shown lies in the range, and the range lies in the sheet.
    pub open spec fn wf(self) -> bool {
        self.first <= self.index <= self.last < self.sheet.spec_frame_count()
    }

    /// The display switched to `sheet`: the range is the whole sheet, the
    /// frame shown is `index`, the flip stays as it was.
    pub open spec fn showing(self, sheet: SpriteSheet, index: nat) -> SpriteModel {
        SpriteModel { sheet, first: 0, last: sheet.spec_last_frame(), index, flip_x: self.flip_x }
    }

    /// One frame further, wrapping from the last frame of the range to the first.
    pub open spec fn advanced(self) -> SpriteModel {
        SpriteModel {
            index: if self.index == self.last {
                self.first
            } else {
                self.index + 1
            },
            ..self
        }
    }

    /// Flipped exactly when the actor faces left.
    pub open spec fn facing(self, direction: Direction) -> SpriteModel {
        SpriteModel { flip_x: direction == Direction::Left, ..self }
    }
}

/// The display state of one actor's sprite.
#[derive(Debug, Clone, Copy, PartialEq, Eq)]
pub struct SpriteAnimation {
    sheet: SpriteSheet,
    first: usize,
    last: usize,
    index: usize,
    flip_x: bool,
}

impl View for SpriteAnimation {
    type V = SpriteModel;

    closed spec fn view(&self) -> SpriteModel {
        SpriteModel {
            sheet: self.sheet,
            first: self.first as nat,
            last: self.last as nat,
            index: self.index as nat,
            flip_x: self.flip_x,
        }
    }
}

impl SpriteAnimation {
    /// Holds of every value of this type.
    #[verifier::type_invariant]
    pub open spec fn inv(&self) -> bool {
        self@.wf()
    }

    /// The first frame of `sheet`, cycling through the whole sheet, not flipped.
    pub fn new(sheet: SpriteSheet) -> (sprite: SpriteAnimation)
        ensures
            sprite@ == (SpriteModel {
                sheet,
                first: 0,
                last: sheet.spec_last_frame(),
                index: 0,
                flip_x: false,
            }),
            sprite@.wf(),
    {
        SpriteAnimation { sheet, first: 0, last: sheet.last_frame(), index: 0, flip_x: false }
    }

    /// A display cycling through the frames `first..=last` of `sheet` and
    /// showing `index`; `None` unless `first <= index <= last` and `last` is a
    /// frame of the sheet.
    pub fn with_range(
        sheet: SpriteSheet,
        first: usize,
        last: usize,
        index: usize,
    ) -> (r: Option<SpriteAnimation>)
        ensures
            r is Some <==> first <= index <= last < sheet.spec_frame_count(),
            r matches Some(sprite) ==> sprite@ == (SpriteModel {
                sheet,
                first: first as nat,
                last: last as nat,
                index: index as nat,
                flip_x: false,
            }) && sprite@.wf(),
    {
        if first <= index && index <= last && last < sheet.frame_count() {
            Some(SpriteAnimation { sheet, first, last, index, flip_x: false })
        } else {
            None
        }
    }

    /// The sheet on display.
    pub fn sheet(&self) -> (sheet: SpriteSheet)
        ensures
            sheet == self@.sheet,
    {
        self.sheet
    }

    /// First frame of the range.
    pub fn first(&self) -> (first: usize)
        ensures
            first == self@.first,
    {
        self.first
    }

    /// Last frame of the range.
    pub fn last(&self) -> (last: usize)
        ensures
            last == self@.last,
    {
        self.last
    }

    /// The frame shown.
    pub fn index(&self) -> (index: usize)
        ensures
            index == self@.index,
            self@.first <= index <= self@.last,
            index < self@.sheet.spec_frame_count(),
    {
        proof {
            use_type_invariant(self);
        }
        self.index
    }

    /// Whether the sprite is drawn mirrored.
    pub fn flip_x(&self) -> (flip_x: bool)
        ensures
            flip_x == self@.flip_x,
    {
        self.flip_x
    }

    /// Switches the display to `sheet`, showing its frame `index`.
    pub(crate) fn show(&mut self, sheet: SpriteSheet, index: usize)
        requires
            index < sheet.spec_frame_count(),
        ensures
            final(self)@ == old(self)@.showing(sheet, index as nat),
            final(self)@.wf(),
    {
        *self = SpriteAnimation {
            sheet,
            first: 0,
            last: sheet.last_frame(),
            index,
            flip_x: self.flip_x,
        };
    }

    /// Moves to the next frame of the range; after the last comes the first.
    pub fn advance(&mut self)
        ensures
            final(self)@ == old(self)@.advanced(),
            final(self)@.wf(),
    {
        proof {
            use_type_invariant(&*self);
        }
        let next: usize = if self.index == self.last {
            self.first
        } else {
            self.index + 1
        };
        self.index = next;
    }

    /// Mirrors the sprite exactly when `direction` is left.
    pub fn face(&mut self, direction: Direction)
        ensures
            final(self)@ == old(self)@.facing(direction),
            final(self)@.wf(),
    {
        proof {
            use_type_invariant(&*self);
        }
        self.flip_x = match direction {
            Direction::Left => true,
            Direction::Right => false,
        };
    }
}

} // verus!
