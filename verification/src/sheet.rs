//! The sprite sheets and the grid that cuts each into frames.

use vstd::prelude::*;

verus! {

/// A sprite sheet of the game: one strip of equally sized square frames.
#[derive(Debug, Clone, Copy, PartialEq, Eq, Structural)]
pub enum SpriteSheet {
    PlayerIdle,
    PlayerRun,
    PlayerAttack1,
    EnemyIdle,
    EnemyWalk,
}

impl SpriteSheet {
    /// Number of frames in a row of the sheet.
    pub open spec fn spec_columns(self) -> nat {
        match self {
            SpriteSheet::PlayerIdle => 10,
            SpriteSheet::PlayerRun => 16,
            SpriteSheet::PlayerAttack1 => 6,
            SpriteSheet::EnemyIdle => 8,
            SpriteSheet::EnemyWalk => 10,
        }
    }

    /// Number of rows of the sheet.
    pub open spec fn spec_rows(self) -> nat {
        1
    }

    /// Side of one square frame, in pixels.
    pub open spec fn spec_cell_size(self) -> nat {
        match self {
            SpriteSheet::PlayerIdle | SpriteSheet::PlayerRun | SpriteSheet::PlayerAttack1 => 96,
            SpriteSheet::EnemyIdle | SpriteSheet::EnemyWalk => 128,
        }
    }

    /// Number of frames the grid cuts the sheet into.
    pub open spec fn spec_frame_count(self) -> nat {
        self.spec_columns() * self.spec_rows()
    }

    /// Index of the last frame of the sheet.
    pub open spec fn spec_last_frame(self) -> nat {
        (self.spec_frame_count() - 1) as nat
    }

    /// Path of the image, relative to the asset directory.
    pub open spec fn spec_path(self) -> Seq<char> {
        match self {
            SpriteSheet::PlayerIdle => "FREE_Samurai 2D Pixel Art v1.2/Sprites/IDLE.png"@,
            SpriteSheet::PlayerRun => "FREE_Samurai 2D Pixel Art v1.2/Sprites/RUN.png"@,
            SpriteSheet::PlayerAttack1 => "FREE_Samurai 2D Pixel Art v1.2/Sprites/ATTACK 1.png"@,
            SpriteSheet::EnemyIdle => "FreeNinja/YellowNinja/yellowNinja - idle.png"@,
            SpriteSheet::EnemyWalk => "FreeNinja/YellowNinja/yellowNinja - walk.png"@,
        }
    }

    pub fn columns(self) -> (n: u32)
        ensures
            n == self.spec_columns(),
    {
        match self {
            SpriteSheet::PlayerIdle => 10,
            SpriteSheet::PlayerRun => 16,
            SpriteSheet::PlayerAttack1 => 6,
            SpriteSheet::EnemyIdle => 8,
            SpriteSheet::EnemyWalk => 10,
        }
    }

    pub fn rows(self) -> (n: u32)
        ensures
            n == self.spec_rows(),
    {
        1
    }

    pub fn cell_size(self) -> (n: u32)
        ensures
            n == self.spec_cell_size(),
    {
        match self {
            SpriteSheet::PlayerIdle | SpriteSheet::PlayerRun | SpriteSheet::PlayerAttack1 => 96,
            SpriteSheet::EnemyIdle | SpriteSheet::EnemyWalk => 128,
        }
    }

    pub fn frame_count(self) -> (n: usize)
        ensures
            n == self.spec_frame_count(),
            n >= 1,
    {
        match self {
            SpriteSheet::PlayerIdle => 10,
            SpriteSheet::PlayerRun => 16,
            SpriteSheet::PlayerAttack1 => 6,
            SpriteSheet::EnemyIdle => 8,
            SpriteSheet::EnemyWalk => 10,
        }
    }

    pub fn last_frame(self) -> (n: usize)
        ensures
            n == self.spec_last_frame(),
            n + 1 == self.spec_frame_count(),
    {
        self.frame_count() - 1
    }

    pub fn path(self) -> (p: &'static str)
        ensures
            p@ == self.spec_path(),
    {
        match self {
            SpriteSheet::PlayerIdle => "FREE_Samurai 2D Pixel Art v1.2/Sprites/IDLE.png",
            SpriteSheet::PlayerRun => "FREE_Samurai 2D Pixel Art v1.2/Sprites/RUN.png",
            SpriteSheet::PlayerAttack1 => "FREE_Samurai 2D Pixel Art v1.2/Sprites/ATTACK 1.png",
            SpriteSheet::EnemyIdle => "FreeNinja/YellowNinja/yellowNinja - idle.png",
            SpriteSheet::EnemyWalk => "FreeNinja/YellowNinja/yellowNinja - walk.png",
        }
    }
}

} // verus!
