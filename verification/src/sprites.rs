//! Static catalog of sprite footprints: the player mascot's dimensions and
//! the obstacle variants with their visual and collision sizes.
//!
//! Collision hitboxes are deliberately smaller than the visual sprites so
//! that near misses do not register as hits. Dimensions here are in whole
//! terminal cells; the simulation scales them into fixed-point units.

use vstd::prelude::*;

verus! {

/// The player mascot's sprite dimensions, in terminal cells.
pub struct ClaudeSprite;

impl ClaudeSprite {
    /// Sprite width while running or jumping.
    pub const WIDTH: u16 = 7;

    /// Sprite height while running or jumping.
    pub const HEIGHT: u16 = 3;

    /// Sprite height while ducking.
    pub const DUCK_HEIGHT: u16 = 2;

    /// Sprite height during the landing squash.
    pub const LANDING_HEIGHT: u16 = 2;
}

/// The fixed catalog of obstacle variants.
#[derive(Clone, Copy, Debug, PartialEq, Eq, Structural)]
pub enum ObstacleType {
    Small,
    Tall,
    Double,
    Flying,
}

impl ObstacleType {
    /// Visual sprite width in cells (rendering only; not used by physics).
    pub open spec fn spec_width(&self) -> u16 {
        match self {
            ObstacleType::Small => 3,
            ObstacleType::Tall => 3,
            ObstacleType::Double => 7,
            ObstacleType::Flying => 3,
        }
    }

    #[verifier::when_used_as_spec(spec_width)]
    pub fn width(&self) -> (w: u16)
        ensures
            w == self.spec_width(),
    {
        match self {
            ObstacleType::Small => 3,
            ObstacleType::Tall => 3,
            ObstacleType::Double => 7,
            ObstacleType::Flying => 3,
        }
    }

    /// Visual sprite height in cells.
    pub open spec fn spec_height(&self) -> u16 {
        match self {
            ObstacleType::Small => 3,
            ObstacleType::Tall => 4,
            ObstacleType::Double => 3,
            ObstacleType::Flying => 2,
        }
    }

    #[verifier::when_used_as_spec(spec_height)]
    pub fn height(&self) -> (h: u16)
        ensures
            h == self.spec_height(),
    {
        match self {
            ObstacleType::Small => 3,
            ObstacleType::Tall => 4,
            ObstacleType::Double => 3,
            ObstacleType::Flying => 2,
        }
    }

    /// Collision hitbox width in cells, narrower than the visual sprite.
    pub open spec fn spec_hitbox_width(&self) -> u16 {
        match self {
            ObstacleType::Small => 1,
            ObstacleType::Tall => 1,
            ObstacleType::Double => 5,
            ObstacleType::Flying => 1,
        }
    }

    #[verifier::when_used_as_spec(spec_hitbox_width)]
    pub fn hitbox_width(&self) -> (w: u16)
        ensures
            w == self.spec_hitbox_width(),
    {
        match self {
            ObstacleType::Small => 1,
            ObstacleType::Tall => 1,
            ObstacleType::Double => 5,
            ObstacleType::Flying => 1,
        }
    }

    /// Collision hitbox height in cells, shorter than the visual sprite.
    pub open spec fn spec_hitbox_height(&self) -> u16 {
        match self {
            ObstacleType::Small => 2,
            ObstacleType::Tall => 3,
            ObstacleType::Double => 2,
            ObstacleType::Flying => 1,
        }
    }

    #[verifier::when_used_as_spec(spec_hitbox_height)]
    pub fn hitbox_height(&self) -> (h: u16)
        ensures
            h == self.spec_hitbox_height(),
    {
        match self {
            ObstacleType::Small => 2,
            ObstacleType::Tall => 3,
            ObstacleType::Double => 2,
            ObstacleType::Flying => 1,
        }
    }

    /// Whether this variant hovers above the ground.
    pub open spec fn spec_is_flying(&self) -> bool {
        self is Flying
    }

    #[verifier::when_used_as_spec(spec_is_flying)]
    pub fn is_flying(&self) -> (r: bool)
        ensures
            r == self.spec_is_flying(),
    {
        matches!(self, ObstacleType::Flying)
    }

    /// Cells above the ground at which the hitbox sits: positive only for
    /// the flying variant, which is cleared by ducking rather than jumping.
    pub open spec fn spec_fly_height(&self) -> u16 {
        match self {
            ObstacleType::Flying => 2,
            _ => 0,
        }
    }

    #[verifier::when_used_as_spec(spec_fly_height)]
    pub fn fly_height(&self) -> (h: u16)
        ensures
            h == self.spec_fly_height(),
    {
        match self {
            ObstacleType::Flying => 2,
            _ => 0,
        }
    }

    /// Glyph rows of this variant's sprite, top row first. The row count
    /// always equals the variant's visual height.
    pub fn sprite(&self) -> (s: Vec<&'static str>)
        ensures
            s@.len() == self.spec_height(),
    {
        match self {
            ObstacleType::Small => vec![" █ ", "███", " █ "],
            ObstacleType::Tall => vec![" █ ", "███", " █ ", " █ "],
            ObstacleType::Double => vec![" █   █ ", "███ ███", " █   █ "],
            ObstacleType::Flying => vec!["\\█/", " █ "],
        }
    }
}

} // verus!
