//! The directive file: one account per line, written `name:password:uid:gid`.

use crate::account::{AccountDirective, AccountDirectiveView};
use crate::error::{Error, ErrorView};
use crate::text::{blank_text, is_blank, number_of, parse_number, split, split_text};
use vstd::prelude::*;

verus! {

/// The directive that `line` writes, if it writes one: exactly four fields with a `':'` between
/// them, of which the first, the name, is not empty, and the third and the fourth are numbers.
/// Nothing is trimmed and nothing is escaped.
pub open spec fn directive_of(line: Seq<char>) -> Option<AccountDirectiveView> {
    let fields = split_text(line, ':');
    if fields.len() == 4 && fields[0].len() > 0 && number_of(fields[2]) is Some && number_of(
        fields[3],
    ) is Some {
        Some(
            AccountDirectiveView {
                name: fields[0],
                password: fields[1],
                uid: number_of(fields[2])->0,
                gid: number_of(fields[3])->0,
            },
        )
    } else {
        None
    }
}

/// What reading `line` as a directive gives: the directive, or the line as it was refused.
pub open spec fn parsed(line: Seq<char>) -> Result<AccountDirectiveView, ErrorView> {
    match directive_of(line) {
        Some(directive) => Ok(directive),
        None => Err(ErrorView::MalformedDirective { line }),
    }
}

/// What a parsed line holds, as mathematical values.
pub open spec fn entry_view(entry: Result<AccountDirective, Error>) -> Result<
    AccountDirectiveView,
    ErrorView,
> {
    match entry {
        Ok(directive) => Ok(directive@),
        Err(error) => Err(error@),
    }
}

/// Reads one line that is not blank as a directive.
pub fn parse_directive(line: &str) -> (entry: Result<AccountDirective, Error>)
    ensures
        entry_view(entry) == parsed(line@),
{
    let fields = split(line, ':');
    if fields.len() != 4 {
        return Err(Error::MalformedDirective { line: String::from_str(line) });
    }
    assert(fields.deep_view()[0] == fields[0]@);
    assert(fields.deep_view()[1] == fields[1]@);
    assert(fields.deep_view()[2] == fields[2]@);
    assert(fields.deep_view()[3] == fields[3]@);
    if fields[0].as_str().unicode_len() == 0 {
        return Err(Error::MalformedDirective { line: String::from_str(line) });
    }
    match (parse_number(fields[2].as_str()), parse_number(fields[3].as_str())) {
        (Some(uid), Some(gid)) => Ok(
            AccountDirective { name: fields[0].clone(), password: fields[1].clone(), uid, gid },
        ),
        _ => Err(Error::MalformedDirective { line: String::from_str(line) }),
    }
}

/// What a line of the directive file gives: nothing if it is blank, else what reading it as a
/// directive gives.
pub open spec fn entry_of(line: Seq<char>) -> Option<Result<AccountDirectiveView, ErrorView>> {
    if blank_text(line) {
        None
    } else {
        Some(parsed(line))
    }
}

/// What an optional parsed line holds, as mathematical values.
pub open spec fn optional_entry_view(entry: Option<Result<AccountDirective, Error>>) -> Option<
    Result<AccountDirectiveView, ErrorView>,
> {
    match entry {
        Some(entry) => Some(entry_view(entry)),
        None => None,
    }
}

/// Reads one line of the directive file: `None` for a blank line, else the directive or the
/// error that says why the line is none.
pub fn read_line(line: &str) -> (entry: Option<Result<AccountDirective, Error>>)
    ensures
        optional_entry_view(entry) == entry_of(line@),
{
    if is_blank(line) {
        None
    } else {
        Some(parse_directive(line))
    }
}

/// What the lines of a directive file give, one entry for each line that is not blank, in the
/// order of the lines.
pub open spec fn loaded(lines: Seq<Seq<char>>) -> Seq<Result<AccountDirectiveView, ErrorView>>
    decreases lines.len(),
{
    if lines.len() == 0 {
        seq![]
    } else {
        match entry_of(lines.last()) {
            Some(entry) => loaded(lines.drop_last()).push(entry),
            None => loaded(lines.drop_last()),
        }
    }
}

/// What a row of parsed lines holds, as mathematical values.
pub open spec fn entries_view(entries: Seq<Result<AccountDirective, Error>>) -> Seq<
    Result<AccountDirectiveView, ErrorView>,
> {
    Seq::new(entries.len(), |i: int| entry_view(entries[i]))
}

/// Reads the lines of a directive file. Blank lines are passed over; every other line gives its
/// directive, or the error that says why it is none.
pub fn load(lines: &Vec<String>) -> (entries: Vec<Result<AccountDirective, Error>>)
    ensures
        entries_view(entries@) == loaded(lines.deep_view()),
{
    let mut entries: Vec<Result<AccountDirective, Error>> = Vec::new();
    let ghost texts = lines.deep_view();
    assert(texts.take(0) =~= Seq::<Seq<char>>::empty());
    assert(entries_view(entries@) =~= loaded(texts.take(0)));
    for i in 0..lines.len()
        invariant
            texts == lines.deep_view(),
            entries_view(entries@) == loaded(texts.take(i as int)),
    {
        let ghost before = entries_view(entries@);
        proof {
            assert(texts.take(i + 1).drop_last() =~= texts.take(i as int));
            assert(texts.take(i + 1).last() == lines[i as int]@);
        }
        match read_line(lines[i].as_str()) {
            Some(entry) => {
                entries.push(entry);
                assert(entries_view(entries@) =~= before.push(entry_view(entry)));
            },
            None => {},
        }
    }
    assert(texts.take(lines.len() as int) =~= texts);
    entries
}

} // verus!
