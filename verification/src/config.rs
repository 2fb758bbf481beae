//! Configuration for span generators.

use vstd::prelude::*;

use crate::level::Level;

verus! {

/// The glyph cycle used by default for the vertical tree bars.
pub open spec fn default_glyph_seq() -> Seq<char> {
    seq!['|', '¦', '┆', '┊']
}

/// The glyph drawn at indentation column `i`: the glyph cycle is walked
/// by depth, and an empty cycle draws a blank.
pub open spec fn glyph_at(depthmap: Seq<char>, i: int) -> char {
    if depthmap.len() == 0 {
        ' '
    } else {
        depthmap[i % (depthmap.len() as int)]
    }
}

/// Builds the default glyph cycle `['|', '¦', '┆', '┊']`.
pub fn default_depthmap() -> (v: Vec<char>)
    ensures
        v@ == default_glyph_seq(),
{
    let mut v: Vec<char> = Vec::new();
    v.push('|');
    v.push('¦');
    v.push('┆');
    v.push('┊');
    proof {
        assert(v@ =~= default_glyph_seq());
    }
    v
}

/// Config that determines the output of the span generator.
#[derive(Clone, Debug, PartialEq, Eq)]
pub struct Config {
    /// How many display columns each depth level consumes. Default is `2`.
    pub tabwidth: usize,
    /// Frequency of vertical bars: a bar is drawn at the columns whose index
    /// is a multiple of `skip`. `skip == 0` means no bars at all. Default is
    /// `2`.
    pub skip: usize,
    /// Cycle of glyphs for the vertical bars, walked by depth.
    pub depthmap: Vec<char>,
    /// Minimum level for the spans: spans with a level below `level` are
    /// ignored. Default is `Level::Info`.
    pub level: Level,
}

/// The configuration a new emitter starts with.
pub open spec fn default_config(c: Config) -> bool {
    &&& c.tabwidth == 2
    &&& c.skip == 2
    &&& c.depthmap@ == default_glyph_seq()
    &&& c.level == Level::Info
}

impl Config {
    /// Creates a `Config` instance with the default values: `tabwidth` 2,
    /// `skip` 2, the default glyph cycle, and minimum level `Info`.
    #[must_use]
    pub fn new() -> (c: Self)
        ensures
            default_config(c),
    {
        Config {
            tabwidth: 2,
            skip: 2,
            depthmap: default_depthmap(),
            level: Level::Info,
        }
    }

    /// Replaces the glyph cycle that maps depth to a bar character.
    #[must_use]
    pub fn with_depthmap(self, depthmap: Vec<char>) -> (c: Self)
        ensures
            c.tabwidth == self.tabwidth,
            c.skip == self.skip,
            c.depthmap@ == depthmap@,
            c.level == self.level,
    {
        Config { depthmap, ..self }
    }

    /// Replaces the skip value.
    #[must_use]
    pub fn with_skip(self, skip: usize) -> (c: Self)
        ensures
            c.tabwidth == self.tabwidth,
            c.skip == skip,
            c.depthmap@ == self.depthmap@,
            c.level == self.level,
    {
        Config { skip, ..self }
    }

    /// Replaces the minimum level.
    #[must_use]
    pub fn with_level(self, level: Level) -> (c: Self)
        ensures
            c.tabwidth == self.tabwidth,
            c.skip == self.skip,
            c.depthmap@ == self.depthmap@,
            c.level == level,
    {
        Config { level, ..self }
    }

    /// The glyph for indentation column `depth`, per [`glyph_at`].
    pub fn depth_glyph(&self, depth: usize) -> (c: char)
        ensures
            c == glyph_at(self.depthmap@, depth as int),
        no_unwind
    {
        if self.depthmap.len() == 0 {
            ' '
        } else {
            self.depthmap[depth % self.depthmap.len()]
        }
    }
}

impl Default for Config {
    /// Same values as [`Config::new`].
    fn default() -> (c: Self)
        ensures
            default_config(c),
    {
        Config::new()
    }
}

} // verus!
