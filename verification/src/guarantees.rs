//! What a whole run of a component does, on the disk of the model: the
//! component starts from what the host finds, and the host performs every
//! operation of the session.

use crate::disk::{above, lemma_attempt, lemma_finished_run, lemma_run, run, Disk};
use crate::entry_writer::{entry_content, entry_session, entry_start, entry_steps};
use crate::error::DiaryError;
use crate::initializer::{
    default_setting, workspace_session, workspace_start, workspace_steps, CHANGELOG_FILE,
    CHANGELOG_TEXT, CONTRIBUTING_FILE, CONTRIBUTING_TEXT, README_FILE, README_TEXT, TODO_FILE,
    TODO_TEXT,
};
use crate::layout::{
    entry_directory, entry_file_name, entry_file_path, joined, SETTING_FILE, WORKSPACE_DIR,
};
use crate::session::{Outcome, SessionView};
use crate::setting::{
    lookup, setting_of_document, yaml_document, yaml_pairs, SettingView, DIARY_TEMPLATE_KEY,
};
use crate::text::{decimal, decimal_nat};
use vstd::prelude::*;

verus! {

/// How a session ended.
pub open spec fn verdict(session: SessionView) -> Result<(), DiaryError> {
    match session.failure {
        Some(error) => Err(error),
        None => Ok(()),
    }
}

/// A run of the initializer in the directory `root`: how it ends, and the
/// disk that it leaves.
pub open spec fn initialize(disk: Disk, root: Seq<char>) -> (Result<(), DiaryError>, Disk) {
    match workspace_start(root, disk.holds(WORKSPACE_DIR@), disk.holds(SETTING_FILE@)) {
        Ok(session) => {
            let end = run(session, disk);
            (verdict(end.0), end.1)
        },
        Err(error) => (Err(error), disk),
    }
}

/// A run of the entry writer for a day: how it ends, and the disk that it
/// leaves.
pub open spec fn write_entry(disk: Disk, year: int, month: int, day: int) -> (
    Result<(), DiaryError>,
    Disk,
) {
    match entry_start(disk.read(SETTING_FILE@), year, month, day) {
        Ok(session) => {
            let end = run(session, disk);
            (verdict(end.0), end.1)
        },
        Err(error) => (Err(error), disk),
    }
}

/// A text without a slash.
pub open spec fn plain_name(name: Seq<char>) -> bool {
    forall|i: int| 0 <= i < name.len() ==> name[i] != '/'
}

/// Nothing lies above a plain name.
pub proof fn lemma_plain_name_is_top(name: Seq<char>, directory: Seq<char>)
    requires
        plain_name(name),
    ensures
        !above(directory, name),
{
}

/// Above a plain name in a directory lie the directory and what lies above
/// it, nothing else.
pub proof fn lemma_above_joined(directory: Seq<char>, name: Seq<char>, other: Seq<char>)
    requires
        plain_name(name),
        directory.len() > 0,
    ensures
        above(other, joined(directory, name)) <==> other == directory || above(other, directory),
{
    let path = joined(directory, name);
    if above(other, path) {
        if other.len() < directory.len() {
            assert(path[other.len() as int] == directory[other.len() as int]);
            assert(directory.take(other.len() as int) =~= path.take(other.len() as int));
        } else if other.len() == directory.len() {
            assert(path.take(other.len() as int) =~= directory);
        } else {
            assert(path[other.len() as int] == name[other.len() - directory.len() - 1]);
        }
    }
    if other == directory {
        assert(path.take(directory.len() as int) =~= directory);
    }
    if above(other, directory) {
        assert(path[other.len() as int] == directory[other.len() as int]);
        assert(path.take(other.len() as int) =~= directory.take(other.len() as int));
    }
}

/// The names of the workspace and of what the initializer puts into it are
/// plain, and no two paths of its steps are the same.
proof fn lemma_workspace_names()
    ensures
        plain_name(WORKSPACE_DIR@),
        plain_name(SETTING_FILE@),
        plain_name(README_FILE@),
        plain_name(TODO_FILE@),
        plain_name(CHANGELOG_FILE@),
        plain_name(CONTRIBUTING_FILE@),
        WORKSPACE_DIR@.len() == 5,
        SETTING_FILE@.len() == 14,
        README_FILE@.len() == 9,
        TODO_FILE@.len() == 7,
        CHANGELOG_FILE@.len() == 12,
        CONTRIBUTING_FILE@.len() == 15,
{
    reveal_strlit("diary");
    reveal_strlit("diary-cli.yaml");
    reveal_strlit("README.md");
    reveal_strlit("TODO.md");
    reveal_strlit("CHANGELOG.md");
    reveal_strlit("CONTRIBUTING.md");
}

/// On a disk that holds neither the workspace nor the settings file, and
/// for settings that the serializer takes, a run of the initializer succeeds.
/// It leaves the workspace directory, the four pages in it and the settings
/// file, each with its content, and nothing else that was not there before.
pub proof fn lemma_fresh_place_is_set_up(disk: Disk, root: Seq<char>)
    requires
        disk.wf(),
        !disk.holds(WORKSPACE_DIR@),
        !disk.holds(SETTING_FILE@),
        yaml_document(default_setting(root).pairs()) is Some,
    ensures
        initialize(disk, root).0 == Ok::<(), DiaryError>(()),
        initialize(disk, root).1.wf(),
        initialize(disk, root).1.directories == disk.directories.insert(WORKSPACE_DIR@),
        initialize(disk, root).1.files == disk.files.insert(
            joined(WORKSPACE_DIR@, README_FILE@),
            README_TEXT@,
        ).insert(joined(WORKSPACE_DIR@, TODO_FILE@), TODO_TEXT@).insert(
            joined(WORKSPACE_DIR@, CHANGELOG_FILE@),
            CHANGELOG_TEXT@,
        ).insert(joined(WORKSPACE_DIR@, CONTRIBUTING_FILE@), CONTRIBUTING_TEXT@).insert(
            SETTING_FILE@,
            yaml_document(default_setting(root).pairs())->0,
        ),
{
    lemma_workspace_names();
    let document = yaml_document(default_setting(root).pairs())->0;
    let steps = workspace_steps(document);
    let workspace = WORKSPACE_DIR@;
    let s0 = workspace_session(document);
    assert(workspace_start(root, false, false) == Ok::<SessionView, DiaryError>(s0));

    // The directory: nothing lies above it, and nothing stands in its way.
    assert forall|directory: Seq<char>| !above(directory, workspace) by {
        lemma_plain_name_is_top(workspace, directory);
    }
    assert(!disk.blocks(workspace));
    let d1 = disk.with_directory(workspace);
    assert(d1.directories =~= disk.directories.insert(workspace));
    assert(disk.attempt(steps[0]) == (d1, Outcome::Done));
    lemma_attempt(disk, steps[0]);
    let s1 = s0.record(Outcome::Done);
    assert(run(s0, disk) == run(s1, d1));

    // The four pages: each lies in the new directory, where nothing was.
    let p1 = joined(workspace, README_FILE@);
    let p2 = joined(workspace, TODO_FILE@);
    let p3 = joined(workspace, CHANGELOG_FILE@);
    let p4 = joined(workspace, CONTRIBUTING_FILE@);
    assert forall|directory: Seq<char>|
        (#[trigger] above(directory, p1) || #[trigger] above(directory, p2) || #[trigger] above(
            directory,
            p3,
        ) || #[trigger] above(directory, p4)) implies directory == workspace by {
        lemma_above_joined(workspace, README_FILE@, directory);
        lemma_above_joined(workspace, TODO_FILE@, directory);
        lemma_above_joined(workspace, CHANGELOG_FILE@, directory);
        lemma_above_joined(workspace, CONTRIBUTING_FILE@, directory);
    }
    lemma_above_joined(workspace, README_FILE@, workspace);
    lemma_above_joined(workspace, TODO_FILE@, workspace);
    lemma_above_joined(workspace, CHANGELOG_FILE@, workspace);
    lemma_above_joined(workspace, CONTRIBUTING_FILE@, workspace);
    assert(!disk.holds(p1) && !disk.holds(p2) && !disk.holds(p3) && !disk.holds(p4));

    assert(d1.reaches(p1));
    let d2 = d1.with_file(p1, README_TEXT@);
    assert(d1.attempt(steps[1]) == (d2, Outcome::Done));
    lemma_attempt(d1, steps[1]);
    let s2 = s1.record(Outcome::Done);
    assert(run(s1, d1) == run(s2, d2));

    assert(d2.reaches(p2));
    let d3 = d2.with_file(p2, TODO_TEXT@);
    assert(d2.attempt(steps[2]) == (d3, Outcome::Done));
    lemma_attempt(d2, steps[2]);
    let s3 = s2.record(Outcome::Done);
    assert(run(s2, d2) == run(s3, d3));

    assert(d3.reaches(p3));
    let d4 = d3.with_file(p3, CHANGELOG_TEXT@);
    assert(d3.attempt(steps[3]) == (d4, Outcome::Done));
    lemma_attempt(d3, steps[3]);
    let s4 = s3.record(Outcome::Done);
    assert(run(s3, d3) == run(s4, d4));

    assert(d4.reaches(p4));
    let d5 = d4.with_file(p4, CONTRIBUTING_TEXT@);
    assert(d4.attempt(steps[4]) == (d5, Outcome::Done));
    lemma_attempt(d4, steps[4]);
    let s5 = s4.record(Outcome::Done);
    assert(run(s4, d4) == run(s5, d5));

    // The settings file: beside the workspace, with nothing above it.
    assert forall|directory: Seq<char>| !above(directory, SETTING_FILE@) by {
        lemma_plain_name_is_top(SETTING_FILE@, directory);
    }
    assert(d5.reaches(SETTING_FILE@));
    let d6 = d5.with_file(SETTING_FILE@, document);
    assert(d5.attempt(steps[5]) == (d6, Outcome::Done));
    lemma_attempt(d5, steps[5]);
    let s6 = s5.record(Outcome::Done);
    assert(run(s5, d5) == run(s6, d6));
    assert(s6.pending() is None);
    assert(run(s6, d6) == (s6, d6));
}

/// Once the initializer has succeeded, another run in the same place is
/// refused because the workspace is there, and leaves the disk as it was.
pub proof fn lemma_second_setup_is_refused(disk: Disk, root: Seq<char>)
    requires
        disk.wf(),
        initialize(disk, root).0 is Ok,
    ensures
        initialize(initialize(disk, root).1, root) == (
            Err::<(), DiaryError>(DiaryError::WorkspaceAlreadyExists),
            initialize(disk, root).1,
        ),
{
    let session = workspace_start(root, disk.holds(WORKSPACE_DIR@), disk.holds(SETTING_FILE@))->Ok_0;
    lemma_finished_run(session, disk, 0);
}

/// A number in decimal holds no slash.
pub proof fn lemma_decimal_is_plain(i: int)
    ensures
        plain_name(decimal(i)),
{
    if i < 0 {
        lemma_decimal_nat_is_plain((-i) as nat);
    } else {
        lemma_decimal_nat_is_plain(i as nat);
    }
}

proof fn lemma_decimal_nat_is_plain(n: nat)
    ensures
        plain_name(decimal_nat(n)),
    decreases n,
{
    if n >= 10 {
        lemma_decimal_nat_is_plain(n / 10);
    }
}

/// The file name of an entry holds no slash.
pub proof fn lemma_entry_file_name_is_plain(year: int, month: int, day: int)
    ensures
        plain_name(entry_file_name(year, month, day)),
{
    lemma_decimal_is_plain(year);
    lemma_decimal_is_plain(month);
    lemma_decimal_is_plain(day);
}

/// Under settings that the settings file holds, on a disk where no file is
/// in the way of the directory of the month and the entry of the day is
/// not there, a run of the entry writer succeeds. It leaves the directory of
/// the month and, in it, the file of the day: the template with the date in
/// place of its placeholder. Nothing else changes.
pub proof fn lemma_entry_is_written(
    disk: Disk,
    setting: SettingView,
    year: int,
    month: int,
    day: int,
)
    requires
        disk.wf(),
        disk.read(SETTING_FILE@) matches Some(text) && setting_of_document(text) == Ok::<
            SettingView,
            DiaryError,
        >(setting),
        !disk.blocks(entry_directory(setting.entry_path, year, month)),
        !disk.holds(entry_file_path(setting.entry_path, year, month, day)),
    ensures
        write_entry(disk, year, month, day) == (
            Ok::<(), DiaryError>(()),
            disk.with_directory(entry_directory(setting.entry_path, year, month)).with_file(
                entry_file_path(setting.entry_path, year, month, day),
                entry_content(setting.diary_template, year, month, day),
            ),
        ),
        write_entry(disk, year, month, day).1.wf(),
{
    let directory = entry_directory(setting.entry_path, year, month);
    let name = entry_file_name(year, month, day);
    let path = entry_file_path(setting.entry_path, year, month, day);
    let steps = entry_steps(setting, year, month, day);
    let s0 = entry_session(setting, year, month, day);

    let d1 = disk.with_directory(directory);
    assert(disk.attempt(steps[0]) == (d1, Outcome::Done));
    lemma_attempt(disk, steps[0]);
    let s1 = s0.record(Outcome::Done);
    assert(run(s0, disk) == run(s1, d1));

    lemma_entry_file_name_is_plain(year, month, day);
    assert forall|other: Seq<char>| #[trigger] above(other, path) implies d1.directories.contains(
        other,
    ) by {
        lemma_above_joined(directory, name, other);
    }
    assert(d1.reaches(path));
    assert(!d1.holds(path));
    let d2 = d1.with_file(path, entry_content(setting.diary_template, year, month, day));
    assert(d1.attempt(steps[1]) == (d2, Outcome::Done));
    lemma_attempt(d1, steps[1]);
    let s2 = s1.record(Outcome::Done);
    assert(run(s1, d1) == run(s2, d2));
    assert(s2.pending() is None);
    assert(run(s2, d2) == (s2, d2));
}

/// Once the entry writer has succeeded for a day, another run for that day
/// is refused because the entry is there, and leaves the disk as it was, the
/// entry included.
pub proof fn lemma_second_entry_is_refused(disk: Disk, year: int, month: int, day: int)
    requires
        disk.wf(),
        write_entry(disk, year, month, day).0 is Ok,
    ensures
        write_entry(write_entry(disk, year, month, day).1, year, month, day) == (
            Err::<(), DiaryError>(DiaryError::EntryAlreadyExists),
            write_entry(disk, year, month, day).1,
        ),
{
    let session = entry_start(disk.read(SETTING_FILE@), year, month, day)->Ok_0;
    let after = run(session, disk).1;
    lemma_run(session, disk);
    lemma_finished_run(session, disk, 0);
    lemma_finished_run(session, disk, 1);
    assert(after.read(SETTING_FILE@) == disk.read(SETTING_FILE@));

    let directory = session.steps[0].path();
    assert(!after.blocks(directory));
    let d1 = after.with_directory(directory);
    assert(d1.directories =~= after.directories);
    assert(d1 == after);
    assert(after.attempt(session.steps[0]) == (after, Outcome::Done));
    let s1 = session.record(Outcome::Done);
    assert(run(session, after) == run(s1, after));
    assert(after.attempt(session.steps[1]) == (after, Outcome::AlreadyExists));
    let s2 = s1.record(Outcome::AlreadyExists);
    assert(run(s1, after) == run(s2, after));
    assert(s2.pending() is None);
    assert(run(s2, after) == (s2, after));
}

/// A settings file without the key of the template is refused as invalid,
/// and the entry writer leaves the disk as it was.
pub proof fn lemma_missing_template_is_refused(disk: Disk, year: int, month: int, day: int)
    requires
        disk.read(SETTING_FILE@) matches Some(text) && yaml_pairs(text) matches Some(pairs)
            && lookup(pairs, DIARY_TEMPLATE_KEY@) is None,
    ensures
        write_entry(disk, year, month, day) == (
            Err::<(), DiaryError>(DiaryError::ConfigInvalid),
            disk,
        ),
{
}

} // verus!
