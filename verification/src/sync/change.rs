//! Changelists.

use crate::error::Error;
use crate::sync::text::{
    capture, lines_of, parse_u32, read_u32, regex_capture, split_lines, texts_of,
};
use vstd::prelude::*;

verus! {

/// The state a changelist is in; `Any` asks for changelists in every state.
pub enum ChangelistStatus {
    Any,
    Pending,
    Submitted,
}

/// A changelist by its number.
pub struct Changelist {
    pub changelist: u32,
    pub status: ChangelistStatus,
}

impl Changelist {
    /// Changelist zero, in no particular state.
    pub fn new() -> (changelist: Self)
        ensures
            changelist.changelist == 0,
            changelist.status is Any,
    {
        Changelist { changelist: 0, status: ChangelistStatus::Any }
    }
}

/// The regular expression that finds a changelist's number in a line of the
/// client's answer.
pub const CHANGE_PATTERN: &'static str = r"Change ([0-9]+)";

/// The message of the error for a changelist number that does not fit in
/// 32 bits.
pub const BAD_NUMBER: &'static str = "changelist number out of range";

/// The arguments that select the changelists of one owner: `flag` and the
/// owner's name, or nothing if no owner is given.
pub open spec fn owner_arguments(flag: Seq<char>, owner: Option<String>) -> Seq<Seq<char>> {
    match owner {
        Some(name) => seq![flag, name@],
        None => seq![],
    }
}

/// The arguments that select changelists by their state.
pub open spec fn status_arguments(status: ChangelistStatus) -> Seq<Seq<char>> {
    match status {
        ChangelistStatus::Pending => seq!["-s"@, "pending"@],
        ChangelistStatus::Submitted => seq!["-s"@, "submitted"@],
        ChangelistStatus::Any => seq![],
    }
}

/// The arguments that ask the client for the changelists of `user` and
/// `client` that are in state `status`.
pub open spec fn changes_arguments(
    user: Option<String>,
    client: Option<String>,
    status: ChangelistStatus,
) -> Seq<Seq<char>> {
    seq!["changes"@] + owner_arguments("-u"@, user) + owner_arguments("-c"@, client)
        + status_arguments(status)
}

/// The changelist numbers in `lines`, in order: one for each line that is
/// not empty and in which the changelist pattern matches. `None` if one of
/// the numbers found does not fit in 32 bits.
pub open spec fn changelist_numbers(lines: Seq<Seq<char>>) -> Option<Seq<u32>>
    decreases lines.len(),
{
    if lines.len() == 0 {
        Some(seq![])
    } else {
        let line = lines.last();
        match changelist_numbers(lines.drop_last()) {
            None => None,
            Some(before) => match regex_capture(CHANGE_PATTERN@, line, 1) {
                Some(digits) if line.len() > 0 => match parse_u32(digits) {
                    Some(number) => Some(before.push(number)),
                    None => None,
                },
                _ => Some(before),
            },
        }
    }
}

/// Whether `numbers` is what the client's answer `output` gives: the
/// changelist numbers of its lines, or a `Generic` error if one does not
/// fit.
pub open spec fn is_parsed_from(numbers: Result<Vec<u32>, Error>, output: Seq<char>) -> bool {
    match changelist_numbers(lines_of(output)) {
        Some(found) => numbers matches Ok(list) && list@ == found,
        None => numbers matches Err(Error::Generic(message)) && message@ == BAD_NUMBER@,
    }
}

/// Builds the arguments for a query of changelists.
pub fn changes_query(user: Option<String>, client: Option<String>, status: ChangelistStatus) -> (
    arguments: Vec<String>
)
    ensures
        texts_of(arguments@) == changes_arguments(user, client, status),
{
    let mut arguments: Vec<String> = Vec::new();
    arguments.push(String::from_str("changes"));
    if let Some(u) = user {
        arguments.push(String::from_str("-u"));
        arguments.push(u);
    }
    if let Some(c) = client {
        arguments.push(String::from_str("-c"));
        arguments.push(c);
    }
    match status {
        ChangelistStatus::Pending => {
            arguments.push(String::from_str("-s"));
            arguments.push(String::from_str("pending"));
        },
        ChangelistStatus::Submitted => {
            arguments.push(String::from_str("-s"));
            arguments.push(String::from_str("submitted"));
        },
        _ => {},
    }
    assert(texts_of(arguments@) =~= changes_arguments(user, client, status));
    arguments
}

/// Reads the changelist numbers out of the client's answer.
pub fn parse_changelists(output: &str) -> (numbers: Result<Vec<u32>, Error>)
    ensures
        is_parsed_from(numbers, output@),
{
    let lines = split_lines(output);
    let mut numbers: Vec<u32> = Vec::new();
    let mut i: usize = 0;
    assert(texts_of(lines@).take(0) =~= Seq::<Seq<char>>::empty());
    while i < lines.len()
        invariant
            0 <= i <= lines.len(),
            changelist_numbers(texts_of(lines@).take(i as int)) == Some(numbers@),
            texts_of(lines@) == lines_of(output@),
        decreases lines.len() - i,
    {
        let line = lines[i].as_str();
        proof {
            assert(texts_of(lines@).take(i + 1).drop_last() =~= texts_of(lines@).take(i as int));
            assert(texts_of(lines@).take(i + 1).last() == line@);
        }
        if line.unicode_len() > 0 {
            match capture(CHANGE_PATTERN, line, 1) {
                Some(digits) => match read_u32(digits.as_str()) {
                    Some(number) => {
                        numbers.push(number);
                    },
                    None => {
                        proof {
                            lemma_bad_number_stays(texts_of(lines@), i + 1);
                        }
                        return Err(Error::generic(BAD_NUMBER));
                    },
                },
                None => {},
            }
        }
        i = i + 1;
    }
    assert(texts_of(lines@).take(lines.len() as int) =~= texts_of(lines@));
    Ok(numbers)
}

/// Once a number that does not fit was found, more lines do not mend it.
proof fn lemma_bad_number_stays(lines: Seq<Seq<char>>, k: int)
    requires
        0 <= k <= lines.len(),
        changelist_numbers(lines.take(k)) is None,
    ensures
        changelist_numbers(lines) is None,
    decreases lines.len() - k,
{
    if k < lines.len() {
        assert(lines.take(k + 1).drop_last() =~= lines.take(k));
        lemma_bad_number_stays(lines, k + 1);
    } else {
        assert(lines.take(k) =~= lines);
    }
}

/// The changelists of `user` and `client` that are in state `status`. `run`
/// hands the arguments to the client and returns what it printed; its
/// failure is returned as it is.
pub fn get_changelists_impl<F>(
    user: Option<String>,
    client: Option<String>,
    status: ChangelistStatus,
    run: F,
) -> (numbers: Result<Vec<u32>, Error>) where F: FnOnce(Vec<String>) -> Result<String, Error>
    requires
        forall|arguments: Vec<String>| call_requires(run, (arguments,)),
    ensures
        exists|arguments: Vec<String>, answer: Result<String, Error>|
            {
                &&& texts_of(arguments@) == changes_arguments(user, client, status)
                &&& call_ensures(run, (arguments,), answer)
                &&& match answer {
                    Ok(output) => is_parsed_from(numbers, output@),
                    Err(e) => numbers == Err::<Vec<u32>, Error>(e),
                }
            },
{
    let arguments = changes_query(user, client, status);
    let ghost asked = arguments;
    let answer = run(arguments);
    let ghost answered = answer;
    let numbers = match answer {
        Ok(output) => parse_changelists(output.as_str()),
        Err(e) => Err(e),
    };
    assert(call_ensures(run, (asked,), answered));
    numbers
}

/// The pending changelists of `user` and `client`.
pub fn get_pending_changelists<F>(user: Option<String>, client: Option<String>, run: F) -> (numbers:
    Result<Vec<u32>, Error>) where F: FnOnce(Vec<String>) -> Result<String, Error>
    requires
        forall|arguments: Vec<String>| call_requires(run, (arguments,)),
    ensures
        exists|arguments: Vec<String>, answer: Result<String, Error>|
            {
                &&& texts_of(arguments@) == changes_arguments(
                    user,
                    client,
                    ChangelistStatus::Pending,
                )
                &&& call_ensures(run, (arguments,), answer)
                &&& match answer {
                    Ok(output) => is_parsed_from(numbers, output@),
                    Err(e) => numbers == Err::<Vec<u32>, Error>(e),
                }
            },
{
    get_changelists_impl(user, client, ChangelistStatus::Pending, run)
}

/// The submitted changelists of `user` and `client`.
pub fn get_submitted_changelists<F>(user: Option<String>, client: Option<String>, run: F) -> (numbers:
    Result<Vec<u32>, Error>) where F: FnOnce(Vec<String>) -> Result<String, Error>
    requires
        forall|arguments: Vec<String>| call_requires(run, (arguments,)),
    ensures
        exists|arguments: Vec<String>, answer: Result<String, Error>|
            {
                &&& texts_of(arguments@) == changes_arguments(
                    user,
                    client,
                    ChangelistStatus::Submitted,
                )
                &&& call_ensures(run, (arguments,), answer)
                &&& match answer {
                    Ok(output) => is_parsed_from(numbers, output@),
                    Err(e) => numbers == Err::<Vec<u32>, Error>(e),
                }
            },
{
    get_changelists_impl(user, client, ChangelistStatus::Submitted, run)
}

} // verus!
