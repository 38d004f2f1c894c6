//! The entry writer: it creates the directory of the month and, in it, the
//! file of the day with the rendered template.
//!
//! A run starts from the text of the settings file. Once the settings are
//! loaded the session holds two steps: after the first the directory is
//! ensured, after the second the file is written. A step that fails ends the
//! run; what was created before stays.

use crate::date::{date_text, EntryDate};
use crate::error::DiaryError;
use crate::layout::{entry_directory, entry_directory_of, entry_file_path, entry_file_path_of};
use crate::session::{started, Component, Operation, OperationView, Session, SessionView};
use crate::setting::{setting_of_file, DiarySetting, SettingView};
use crate::template::{render, render_template};
use vstd::prelude::*;

verus! {

/// The content of the entry of a day: the template with the date in place of
/// its placeholder.
pub open spec fn entry_content(template: Seq<char>, year: int, month: int, day: int) -> Seq<char> {
    render(template, date_text(year, month, day))
}

/// The steps that write the entry of a day.
pub open spec fn entry_steps(setting: SettingView, year: int, month: int, day: int) -> Seq<
    OperationView,
> {
    seq![
        OperationView::EnsureDirectory { path: entry_directory(setting.entry_path, year, month) },
        OperationView::CreateFile {
            path: entry_file_path(setting.entry_path, year, month, day),
            content: entry_content(setting.diary_template, year, month, day),
        },
    ]
}

/// The session that writes the entry of a day.
pub open spec fn entry_session(setting: SettingView, year: int, month: int, day: int)
    -> SessionView {
    SessionView::fresh(Component::EntryWriter, entry_steps(setting, year, month, day))
}

/// The session that a run of the entry writer starts with, given the text of
/// the settings file (`None` for a file that is missing or cannot be read).
pub open spec fn entry_start(text: Option<Seq<char>>, year: int, month: int, day: int) -> Result<
    SessionView,
    DiaryError,
> {
    match setting_of_file(text) {
        Ok(setting) => Ok(entry_session(setting, year, month, day)),
        Err(error) => Err(error),
    }
}

/// The content of the entry of `date`.
pub fn render_entry(setting: &DiarySetting, date: &EntryDate) -> (r: String)
    ensures
        r@ == entry_content(
            setting@.diary_template,
            date.year() as int,
            date.month() as int,
            date.day() as int,
        ),
{
    let text = date.text();
    render_template(setting.diary_template(), text.as_str())
}

/// Plans the entry of `date` under loaded settings.
pub fn plan(setting: &DiarySetting, date: &EntryDate) -> (r: Session)
    ensures
        r@ == entry_session(
            setting@,
            date.year() as int,
            date.month() as int,
            date.day() as int,
        ),
{
    let mut steps: Vec<Operation> = Vec::new();
    steps.push(Operation::EnsureDirectory { path: entry_directory_of(setting.entry_path(), date) });
    steps.push(
        Operation::CreateFile {
            path: entry_file_path_of(setting.entry_path(), date),
            content: render_entry(setting, date),
        },
    );
    let session = Session::new(Component::EntryWriter, steps);
    assert(session@.steps =~= entry_steps(
        setting@,
        date.year() as int,
        date.month() as int,
        date.day() as int,
    ));
    session
}

/// Starts a run for `date` from the text of the settings file, `None`
/// standing for a file that is missing or cannot be read.
pub fn start(setting_text: Option<&str>, date: &EntryDate) -> (r: Result<Session, DiaryError>)
    ensures
        started(r) == entry_start(
            match setting_text {
                Some(text) => Some(text@),
                None => None,
            },
            date.year() as int,
            date.month() as int,
            date.day() as int,
        ),
{
    match DiarySetting::load(setting_text) {
        Ok(setting) => Ok(plan(&setting, date)),
        Err(error) => Err(error),
    }
}

} // verus!
