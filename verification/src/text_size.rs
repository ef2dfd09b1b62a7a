//! The overlay's text sizes, in whole points, as the `=` and `-` hotkeys
//! change them.
use vstd::prelude::*;

verus! {

/// The smallest body text size reachable with `-`.
pub const MIN_BODY_SIZE: u32 = 8;

/// The largest body text size reachable with `=`.
pub const MAX_BODY_SIZE: u32 = 24;

/// The header and body text sizes of the overlay.
#[derive(Clone, Copy, Debug, PartialEq, Eq)]
pub struct TextSizes {
    header: u32,
    body: u32,
}

/// The sizes after `=`: both grow by two points while the body is below the
/// largest size; otherwise nothing changes.
pub open spec fn grown(sizes: (u32, u32)) -> (int, int) {
    if sizes.1 < MAX_BODY_SIZE {
        (sizes.0 + 2, sizes.1 + 2)
    } else {
        (sizes.0 as int, sizes.1 as int)
    }
}

/// The sizes after `-`: the body shrinks by two points and the header by two
/// points but not below 10, while the body is above the smallest size;
/// otherwise nothing changes.
pub open spec fn shrunk(sizes: (u32, u32)) -> (int, int) {
    if sizes.1 > MIN_BODY_SIZE {
        (if sizes.0 - 2 >= 10 {
            sizes.0 - 2
        } else {
            10
        }, sizes.1 - 2)
    } else {
        (sizes.0 as int, sizes.1 as int)
    }
}

impl View for TextSizes {
    type V = (u32, u32);

    /// (header size, body size).
    closed spec fn view(&self) -> (u32, u32) {
        (self.header, self.body)
    }
}

impl TextSizes {
    /// The header is always two points larger than the body, and the body is
    /// an even size between the smallest and the largest one.
    #[verifier::type_invariant]
    closed spec fn inv(self) -> bool {
        &&& self.header == self.body + 2
        &&& MIN_BODY_SIZE <= self.body <= MAX_BODY_SIZE
        &&& self.body % 2 == 0
    }

    /// Whether `sizes` is one that the text sizes can take.
    pub open spec fn reachable(sizes: (u32, u32)) -> bool {
        &&& sizes.0 == sizes.1 + 2
        &&& MIN_BODY_SIZE <= sizes.1 <= MAX_BODY_SIZE
        &&& sizes.1 % 2 == 0
    }

    /// The header text size.
    pub fn header(&self) -> (r: u32)
        ensures
            r == self@.0,
            Self::reachable(self@),
    {
        proof {
            use_type_invariant(self);
        }
        self.header
    }

    /// The body text size.
    pub fn body(&self) -> (r: u32)
        ensures
            r == self@.1,
            Self::reachable(self@),
    {
        proof {
            use_type_invariant(self);
        }
        self.body
    }

    /// Grows the text (see `grown`).
    pub fn increase(&mut self)
        ensures
            (final(self)@.0 as int, final(self)@.1 as int) == grown(old(self)@),
            Self::reachable(old(self)@),
            Self::reachable(final(self)@),
    {
        proof {
            use_type_invariant(&*self);
        }
        if self.body < MAX_BODY_SIZE {
            *self = TextSizes { header: self.header + 2, body: self.body + 2 };
        }
        proof {
            use_type_invariant(&*self);
        }
    }

    /// Shrinks the text (see `shrunk`).
    pub fn decrease(&mut self)
        ensures
            (final(self)@.0 as int, final(self)@.1 as int) == shrunk(old(self)@),
            Self::reachable(old(self)@),
            Self::reachable(final(self)@),
    {
        proof {
            use_type_invariant(&*self);
        }
        if self.body > MIN_BODY_SIZE {
            let header = if self.header - 2 >= 10 {
                self.header - 2
            } else {
                10
            };
            *self = TextSizes { header, body: self.body - 2 };
        }
        proof {
            use_type_invariant(&*self);
        }
    }
}

impl Default for TextSizes {
    /// A 12-point header over a 10-point body.
    fn default() -> (r: Self)
        ensures
            r@ == (12u32, 10u32),
            Self::reachable(r@),
    {
        TextSizes { header: 12, body: 10 }
    }
}

} // verus!
