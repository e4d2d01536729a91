//! Files of a changelist.

use crate::error::Error;
use crate::sync::text::{capture, lines_of, regex_capture, split_lines, texts_of, write_u32};
use crate::sync::text::decimal_digits;
use std::path::PathBuf;
use vstd::prelude::*;

verus! {

/// What was done, or is about to be done, to a file.
pub enum FileAction {
    Add,
    Edit,
    Delete,
    Branch,
    MoveAdd,
    MoveDelete,
    Integrate,
    Import,
    Purge,
    Archive,
}

/// How the depot stores a file.
pub enum FileType {
    Text,
    Binary,
    Symlink,
    Unicode,
    UTF8,
    UTF16,
    Apple,
    Resource,
}

/// A file as the depot and the workspace know it.
pub struct File {
    pub exists_in_depot: bool,
    pub depot_path: PathBuf,
    pub local_path: PathBuf,
    pub head_action: FileAction,
    pub head_change: u32,
    pub head_revision: u32,
    pub head_filetype: FileType,
    pub have_revision: u32,
    pub work_revision: u32,
    pub action: FileAction,
    pub changelist: u32,
    pub filetype: FileType,
}

/// The regular expression that finds a file in a line of a changelist's
/// description.
pub const FILE_PATTERN: &'static str = r"\.\.\.s+(\S+)#([0-9]+)\s+(\S+)";

/// The arguments that ask the client to describe `changelist`.
pub open spec fn describe_arguments(changelist: u32) -> Seq<Seq<char>> {
    seq!["describe"@, decimal_digits(changelist as nat)]
}

/// The file lines among `lines`: for each line that is not empty and in
/// which the file pattern matches, the text of the match.
pub open spec fn file_lines(lines: Seq<Seq<char>>) -> Seq<Seq<char>>
    decreases lines.len(),
{
    if lines.len() == 0 {
        seq![]
    } else {
        let before = file_lines(lines.drop_last());
        let line = lines.last();
        match regex_capture(FILE_PATTERN@, line, 0) {
            Some(found) if line.len() > 0 => before.push(found),
            _ => before,
        }
    }
}

/// The arguments that ask the client to describe `changelist`.
pub fn files_arguments(changelist: u32) -> (arguments: Vec<String>)
    ensures
        texts_of(arguments@) == describe_arguments(changelist),
{
    let mut arguments: Vec<String> = Vec::new();
    arguments.push(String::from_str("describe"));
    arguments.push(write_u32(changelist));
    assert(texts_of(arguments@) =~= describe_arguments(changelist));
    arguments
}

/// Reads the file lines out of the client's description of a changelist.
pub fn parse_files(output: &str) -> (files: Vec<String>)
    ensures
        texts_of(files@) == file_lines(lines_of(output@)),
{
    let lines = split_lines(output);
    let mut files: Vec<String> = Vec::new();
    let mut i: usize = 0;
    assert(texts_of(lines@).take(0) =~= Seq::<Seq<char>>::empty());
    assert(texts_of(files@) =~= Seq::<Seq<char>>::empty());
    while i < lines.len()
        invariant
            0 <= i <= lines.len(),
            texts_of(files@) == file_lines(texts_of(lines@).take(i as int)),
        decreases lines.len() - i,
    {
        let line = lines[i].as_str();
        let ghost seen = texts_of(lines@).take(i as int);
        let ghost collected = texts_of(files@);
        proof {
            assert(texts_of(lines@).take(i + 1).drop_last() =~= seen);
            assert(texts_of(lines@).take(i + 1).last() == line@);
        }
        if line.unicode_len() > 0 {
            match capture(FILE_PATTERN, line, 0) {
                Some(found) => {
                    files.push(found);
                    assert(texts_of(files@) =~= collected.push(found@));
                },
                None => {},
            }
        }
        i = i + 1;
    }
    assert(texts_of(lines@).take(lines.len() as int) =~= texts_of(lines@));
    files
}

/// The files of `changelist`, as the client describes them. `run` hands
/// the arguments to the client and returns what it printed; its failure is
/// returned as it is.
pub fn get_files<F>(changelist: u32, run: F) -> (files: Result<Vec<String>, Error>) where
    F: FnOnce(Vec<String>) -> Result<String, Error>,
    requires
        forall|arguments: Vec<String>| call_requires(run, (arguments,)),
    ensures
        exists|arguments: Vec<String>, answer: Result<String, Error>|
            {
                &&& texts_of(arguments@) == describe_arguments(changelist)
                &&& call_ensures(run, (arguments,), answer)
                &&& match answer {
                    Ok(output) => files matches Ok(found) && texts_of(found@) == file_lines(
                        lines_of(output@),
                    ),
                    Err(e) => files == Err::<Vec<String>, Error>(e),
                }
            },
{
    let arguments = files_arguments(changelist);
    let ghost asked = arguments;
    let answer = run(arguments);
    let ghost answered = answer;
    let files = match answer {
        Ok(output) => Ok(parse_files(output.as_str())),
        Err(e) => Err(e),
    };
    assert(call_ensures(run, (asked,), answered));
    files
}

} // verus!
