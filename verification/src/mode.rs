//! The three ways in which a material samples its texture.

use vstd::prelude::*;

verus! {

/// How a texture is read at a coordinate that falls between texels.
#[derive(Clone, Copy, Debug, PartialEq, Eq, Structural)]
pub enum SamplingMode {
    /// Neighbouring texels are blended.
    Linear,
    /// The closest texel is taken as it is.
    Nearest,
    /// Texels keep hard edges, smoothed only along the edge itself.
    AntialiasedBlocky,
}

impl SamplingMode {
    /// The number that stands for this mode in the shader's uniform.
    pub open spec fn uniform(self) -> u32 {
        match self {
            SamplingMode::Linear => 0,
            SamplingMode::Nearest => 1,
            SamplingMode::AntialiasedBlocky => 2,
        }
    }

    /// The mode that a uniform number stands for, if it stands for one.
    pub open spec fn of_uniform(n: u32) -> Option<SamplingMode> {
        if n == 0 {
            Some(SamplingMode::Linear)
        } else if n == 1 {
            Some(SamplingMode::Nearest)
        } else if n == 2 {
            Some(SamplingMode::AntialiasedBlocky)
        } else {
            None
        }
    }

    /// The text of the line that tells the user which key asks for this mode.
    pub open spec fn prompt_text(self) -> Seq<char> {
        match self {
            SamplingMode::Linear => "Press 1 for linear sampling"@,
            SamplingMode::Nearest => "Press 2 for nearest neighbor sampling"@,
            SamplingMode::AntialiasedBlocky => "Press 3 for antialiased blocky sampling"@,
        }
    }

    /// Returns the number that the shader reads for this mode.
    pub fn uniform_value(self) -> (n: u32)
        ensures
            n == self.uniform(),
    {
        match self {
            SamplingMode::Linear => 0,
            SamplingMode::Nearest => 1,
            SamplingMode::AntialiasedBlocky => 2,
        }
    }

    /// Reads a mode back from its uniform number. Numbers above 2 stand for
    /// no mode.
    pub fn from_uniform(n: u32) -> (mode: Option<SamplingMode>)
        ensures
            mode == SamplingMode::of_uniform(n),
    {
        if n == 0 {
            Some(SamplingMode::Linear)
        } else if n == 1 {
            Some(SamplingMode::Nearest)
        } else if n == 2 {
            Some(SamplingMode::AntialiasedBlocky)
        } else {
            None
        }
    }

    /// Returns the line that tells the user which key asks for this mode.
    pub fn prompt(self) -> (line: &'static str)
        ensures
            line@ == self.prompt_text(),
    {
        match self {
            SamplingMode::Linear => "Press 1 for linear sampling",
            SamplingMode::Nearest => "Press 2 for nearest neighbor sampling",
            SamplingMode::AntialiasedBlocky => "Press 3 for antialiased blocky sampling",
        }
    }

    /// A mode and its uniform number determine each other: reading the number
    /// of a mode gives the mode back, and a number that stands for a mode is
    /// that mode's number.
    pub proof fn uniform_round_trip(mode: SamplingMode, n: u32)
        ensures
            SamplingMode::of_uniform(mode.uniform()) == Some(mode),
            SamplingMode::of_uniform(n) == Some(mode) ==> mode.uniform() == n,
            SamplingMode::of_uniform(n) is Some <==> n <= 2,
    {
    }
}

impl Default for SamplingMode {
    /// A material starts out in the antialiased blocky mode.
    fn default() -> (mode: SamplingMode)
        ensures
            mode == SamplingMode::AntialiasedBlocky,
    {
        SamplingMode::AntialiasedBlocky
    }
}

} // verus!
