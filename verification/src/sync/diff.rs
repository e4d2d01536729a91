//! The parts of a file's differences.

use vstd::prelude::*;

verus! {

/// What a line of a difference says of its content.
#[derive(Copy, Clone, PartialEq, Eq, Hash, Debug, Structural)]
pub enum DiffLineType {
    /// The line is the same on both sides.
    Context,
    /// The header of a hunk.
    Header,
    /// The line was added.
    Add,
    /// The line was removed.
    Delete,
}

impl Default for DiffLineType {
    fn default() -> (line_type: Self)
        ensures
            line_type == DiffLineType::Context,
    {
        DiffLineType::Context
    }
}

/// Where a line stands in the old and in the new file.
#[derive(Clone, Copy, Hash, Debug, PartialEq, Eq)]
pub struct DiffLinePosition {
    pub old_lineno: Option<u32>,
    pub new_lineno: Option<u32>,
}

impl Default for DiffLinePosition {
    fn default() -> (position: Self)
        ensures
            position.old_lineno is None,
            position.new_lineno is None,
    {
        DiffLinePosition { old_lineno: None, new_lineno: None }
    }
}

/// `Clone` for a boxed string slice gives a box with the same text.
pub assume_specification[ <Box<str> as Clone>::clone ](text: &Box<str>) -> (copy: Box<str>)
    ensures
        copy == text,
;

/// One line of a difference.
#[derive(Clone, Hash, Debug)]
pub struct DiffLine {
    pub content: Box<str>,
    pub line_type: DiffLineType,
    pub position: DiffLinePosition,
}

/// The line ranges that a hunk covers in the old and in the new file.
#[derive(Debug, Clone, Copy, PartialEq, Eq)]
pub struct HunkHeader {
    pub old_start: u32,
    pub old_lines: u32,
    pub new_start: u32,
    pub new_lines: u32,
}

impl Default for HunkHeader {
    fn default() -> (header: Self)
        ensures
            header.old_start == 0,
            header.old_lines == 0,
            header.new_start == 0,
            header.new_lines == 0,
    {
        HunkHeader { old_start: 0, old_lines: 0, new_start: 0, new_lines: 0 }
    }
}

/// A run of lines that changed together.
#[derive(Clone, Hash, Debug)]
pub struct Hunk {
    pub header_hash: u64,
    pub lines: Vec<DiffLine>,
}

impl Default for Hunk {
    fn default() -> (hunk: Self)
        ensures
            hunk.header_hash == 0,
            hunk.lines@.len() == 0,
    {
        Hunk { header_hash: 0, lines: Vec::new() }
    }
}

/// All differences of one file.
#[derive(Hash, Debug)]
pub struct FileDiff {
    pub hunks: Vec<Hunk>,
    pub lines: usize,
    pub untracked: bool,
    pub sizes: (u64, u64),
    pub size_delta: i64,
}

impl Default for FileDiff {
    fn default() -> (diff: Self)
        ensures
            diff.hunks@.len() == 0,
            diff.lines == 0,
            !diff.untracked,
            diff.sizes == (0u64, 0u64),
            diff.size_delta == 0,
    {
        FileDiff { hunks: Vec::new(), lines: 0, untracked: false, sizes: (0, 0), size_delta: 0 }
    }
}

impl Clone for FileDiff {
    fn clone(&self) -> (copy: Self)
        ensures
            copy.lines == self.lines,
            copy.untracked == self.untracked,
            copy.sizes == self.sizes,
            copy.size_delta == self.size_delta,
    {
        FileDiff {
            hunks: self.hunks.clone(),
            lines: self.lines,
            untracked: self.untracked,
            sizes: (self.sizes.0, self.sizes.1),
            size_delta: self.size_delta,
        }
    }
}

/// How differences are computed.
#[derive(Debug, Hash, Clone, Copy, PartialEq, Eq)]
pub struct DiffOptions {
    pub ignore_whitespace: bool,
    pub context: u32,
    pub interhunk_lines: u32,
}

} // verus!
