//! Where things lie: the names of the workspace and the paths of the
//! entries.

use crate::date::EntryDate;
use crate::text::{append_decimal, decimal};
use vstd::prelude::*;
use vstd::string::*;

verus! {

/// The directory of a workspace, below the directory that the tool runs in.
pub const WORKSPACE_DIR: &'static str = "diary";

/// The settings file, beside the workspace.
pub const SETTING_FILE: &'static str = "diary-cli.yaml";

/// The directory of the entries, below the workspace.
pub const ENTRIES_DIR: &'static str = "entries";

/// The directory of the articles, below the workspace.
pub const ARTICLES_DIR: &'static str = "articles";

/// A directory and a name below it, as one path.
pub open spec fn joined(directory: Seq<char>, name: Seq<char>) -> Seq<char> {
    directory + seq!['/'] + name
}

/// The directory of the entries of a month: `{entry_path}/{year}/{month}`,
/// the numbers without padding.
pub open spec fn entry_directory(entry_path: Seq<char>, year: int, month: int) -> Seq<char> {
    joined(joined(entry_path, decimal(year)), decimal(month))
}

/// The file name of the entry of a day: `{year}_{month}_{day}.md`, the
/// numbers without padding.
pub open spec fn entry_file_name(year: int, month: int, day: int) -> Seq<char> {
    decimal(year) + seq!['_'] + decimal(month) + seq!['_'] + decimal(day) + seq!['.', 'm', 'd']
}

/// The file of the entry of a day, in the directory of its month.
pub open spec fn entry_file_path(entry_path: Seq<char>, year: int, month: int, day: int) -> Seq<
    char,
> {
    joined(entry_directory(entry_path, year, month), entry_file_name(year, month, day))
}

/// Joins a directory and a name below it with a slash.
pub fn join(directory: &str, name: &str) -> (r: String)
    ensures
        r@ == joined(directory@, name@),
{
    let mut out = directory.to_owned();
    proof {
        reveal_strlit("/");
        assert("/"@ == seq!['/']);
    }
    out.append("/");
    out.append(name);
    out
}

/// The directory that holds the entries of the month of `date`.
pub fn entry_directory_of(entry_path: &str, date: &EntryDate) -> (r: String)
    ensures
        r@ == entry_directory(entry_path@, date.year() as int, date.month() as int),
{
    let mut out = entry_path.to_owned();
    proof {
        reveal_strlit("/");
        assert("/"@ == seq!['/']);
    }
    out.append("/");
    append_decimal(&mut out, date.year() as i64);
    out.append("/");
    append_decimal(&mut out, date.month() as i64);
    out
}

/// The name of the file that holds the entry of `date`.
pub fn entry_file_name_of(date: &EntryDate) -> (r: String)
    ensures
        r@ == entry_file_name(date.year() as int, date.month() as int, date.day() as int),
{
    let mut out = String::new();
    proof {
        reveal_strlit("_");
        reveal_strlit(".md");
        assert("_"@ == seq!['_']);
        assert(".md"@ == seq!['.', 'm', 'd']);
    }
    append_decimal(&mut out, date.year() as i64);
    out.append("_");
    append_decimal(&mut out, date.month() as i64);
    out.append("_");
    append_decimal(&mut out, date.day() as i64);
    out.append(".md");
    assert(out@ == entry_file_name(date.year() as int, date.month() as int, date.day() as int));
    out
}

/// The path of the file that holds the entry of `date`.
pub fn entry_file_path_of(entry_path: &str, date: &EntryDate) -> (r: String)
    ensures
        r@ == entry_file_path(
            entry_path@,
            date.year() as int,
            date.month() as int,
            date.day() as int,
        ),
{
    let directory = entry_directory_of(entry_path, date);
    let name = entry_file_name_of(date);
    join(directory.as_str(), name.as_str())
}

} // verus!
