use diary::date::EntryDate;
use diary::entry_writer;
use diary::error::DiaryError;
use diary::initializer;
use diary::initializer::{
    CHANGELOG_FILE, CHANGELOG_TEXT, CONTRIBUTING_FILE, CONTRIBUTING_TEXT, DEFAULT_TEMPLATE,
    README_FILE, README_TEXT, TODO_FILE, TODO_TEXT,
};
use diary::layout::{SETTING_FILE, WORKSPACE_DIR};
use diary::session::{Component, Operation, Outcome, Session};
use diary::setting::DiarySetting;
use std::collections::{BTreeMap, BTreeSet};

/// A disk in memory that behaves as a real one does where no fault occurs.
#[derive(Clone, Debug, PartialEq, Eq, Default)]
struct Disk {
    directories: BTreeSet<String>,
    files: BTreeMap<String, String>,
}

fn directories_above(path: &str) -> Vec<String> {
    path.char_indices()
        .filter(|(at, c)| *c == '/' && *at > 0)
        .map(|(at, _)| path[..at].to_string())
        .collect()
}

impl Disk {
    fn holds(&self, path: &str) -> bool {
        self.directories.contains(path) || self.files.contains_key(path)
    }

    fn perform(&mut self, operation: &Operation) -> Outcome {
        match operation {
            Operation::EnsureDirectory { path } => {
                let above = directories_above(path);
                if self.files.contains_key(path) || above.iter().any(|d| self.files.contains_key(d))
                {
                    return Outcome::Failed;
                }
                self.directories.extend(above);
                self.directories.insert(path.clone());
                Outcome::Done
            }
            Operation::CreateFile { path, content } => {
                if self.holds(path) {
                    return Outcome::AlreadyExists;
                }
                if directories_above(path).iter().any(|d| !self.directories.contains(d)) {
                    return Outcome::Failed;
                }
                self.files.insert(path.clone(), content.clone());
                Outcome::Done
            }
        }
    }

    fn run(&mut self, mut session: Session) -> Result<(), DiaryError> {
        loop {
            let outcome = match session.pending() {
                Some(operation) => self.perform(operation),
                None => return session.result().unwrap(),
            };
            session.record(outcome);
        }
    }

    fn initialize(&mut self, root: &str) -> Result<(), DiaryError> {
        let session =
            initializer::start(root, self.holds(WORKSPACE_DIR), self.holds(SETTING_FILE))?;
        self.run(session)
    }

    fn write_entry(&mut self, date: &EntryDate) -> Result<(), DiaryError> {
        let text = self.files.get(SETTING_FILE).cloned();
        let session = entry_writer::start(text.as_deref(), date)?;
        self.run(session)
    }
}

fn steps_of(mut session: Session) -> Vec<Operation> {
    let mut steps = Vec::new();
    while let Some(operation) = session.pending() {
        steps.push(match operation {
            Operation::EnsureDirectory { path } => {
                Operation::EnsureDirectory { path: path.clone() }
            }
            Operation::CreateFile { path, content } => {
                Operation::CreateFile { path: path.clone(), content: content.clone() }
            }
        });
        session.record(Outcome::Done);
    }
    assert_eq!(session.result(), Some(Ok(())));
    steps
}

fn file(path: &str, content: &str) -> Operation {
    Operation::CreateFile { path: path.to_string(), content: content.to_string() }
}

fn notes_setting(entry_path: &str) -> DiarySetting {
    DiarySetting::new(
        entry_path.to_string(),
        "/articles".to_string(),
        "# {}\n\n## Notes\n".to_string(),
    )
    .unwrap()
}

fn disk_with_setting(setting: &DiarySetting) -> Disk {
    let mut disk = Disk::default();
    disk.files.insert(SETTING_FILE.to_string(), setting.to_yaml().unwrap());
    disk
}

#[test]
fn pages_of_the_workspace() {
    assert_eq!(README_FILE, "README.md");
    assert_eq!(README_TEXT, "# README \n");
    assert_eq!(TODO_FILE, "TODO.md");
    assert_eq!(TODO_TEXT, "# TODO (やるべきこと)\n");
    assert_eq!(CHANGELOG_FILE, "CHANGELOG.md");
    assert_eq!(CHANGELOG_TEXT, "# CHANGELOG (実績)\n");
    assert_eq!(CONTRIBUTING_FILE, "CONTRIBUTING.md");
    assert_eq!(CONTRIBUTING_TEXT, "# CONTRIBUTING (ガイドライン)\n");
}

#[test]
fn default_template_has_a_heading_and_four_sections() {
    assert_eq!(
        DEFAULT_TEMPLATE,
        "# {}\n\n## Concrete Experience (具体的経験)\n\n## Reflective Observation (省察)\n\n## Abstract Conceptualization (概念化):\n\n## Active Experimentation (試行):\n\n"
    );
}

#[test]
fn initializer_plans_the_directory_the_pages_and_the_settings() {
    let session = initializer::plan("the document".to_string());
    assert_eq!(session.component(), Component::Initializer);
    assert_eq!(
        steps_of(session),
        vec![
            Operation::EnsureDirectory { path: "diary".to_string() },
            file("diary/README.md", "# README \n"),
            file("diary/TODO.md", "# TODO (やるべきこと)\n"),
            file("diary/CHANGELOG.md", "# CHANGELOG (実績)\n"),
            file("diary/CONTRIBUTING.md", "# CONTRIBUTING (ガイドライン)\n"),
            file("diary-cli.yaml", "the document"),
        ]
    );
}

#[test]
fn initializer_writes_the_default_settings() {
    let steps = steps_of(initializer::start("/home/me", false, false).unwrap());
    assert_eq!(steps.len(), 6);
    let document = initializer::default_setting_for("/home/me").to_yaml().unwrap();
    assert_eq!(steps[5], file("diary-cli.yaml", &document));
    let setting = DiarySetting::from_yaml(&document).unwrap();
    assert_eq!(setting.entry_path(), "/home/me/diary/entries");
    assert_eq!(setting.article_path(), "/home/me/diary/articles");
    assert_eq!(setting.diary_template(), DEFAULT_TEMPLATE);
}

#[test]
fn initializer_is_refused_where_something_is_there() {
    for (workspace, setting) in [(true, false), (false, true), (true, true)] {
        let started = initializer::start("/home/me", workspace, setting);
        assert_eq!(started.err(), Some(DiaryError::WorkspaceAlreadyExists));
    }
}

#[test]
fn initializer_sets_up_a_fresh_place() {
    let mut disk = Disk::default();
    assert_eq!(disk.initialize("/home/me"), Ok(()));
    assert_eq!(disk.directories, BTreeSet::from(["diary".to_string()]));
    let document = initializer::default_setting_for("/home/me").to_yaml().unwrap();
    let expected = BTreeMap::from([
        ("diary/README.md".to_string(), "# README \n".to_string()),
        ("diary/TODO.md".to_string(), "# TODO (やるべきこと)\n".to_string()),
        ("diary/CHANGELOG.md".to_string(), "# CHANGELOG (実績)\n".to_string()),
        ("diary/CONTRIBUTING.md".to_string(), "# CONTRIBUTING (ガイドライン)\n".to_string()),
        ("diary-cli.yaml".to_string(), document),
    ]);
    assert_eq!(disk.files, expected);
}

#[test]
fn initializer_keeps_what_else_is_there() {
    let mut disk = Disk::default();
    disk.directories.insert("photos".to_string());
    disk.files.insert("photos/cat.txt".to_string(), "a cat".to_string());
    disk.files.insert("notes.txt".to_string(), "remember".to_string());
    assert_eq!(disk.initialize("/home/me"), Ok(()));
    assert_eq!(disk.directories.len(), 2);
    assert_eq!(disk.files.len(), 7);
    assert_eq!(disk.files["photos/cat.txt"], "a cat");
    assert_eq!(disk.files["notes.txt"], "remember");
}

#[test]
fn initializer_run_twice_is_refused_and_writes_nothing() {
    let mut disk = Disk::default();
    assert_eq!(disk.initialize("/home/me"), Ok(()));
    let after_first = disk.clone();
    assert_eq!(disk.initialize("/home/me"), Err(DiaryError::WorkspaceAlreadyExists));
    assert_eq!(disk, after_first);
    assert_eq!(disk.initialize("/elsewhere"), Err(DiaryError::WorkspaceAlreadyExists));
    assert_eq!(disk, after_first);
}

#[test]
fn initializer_is_refused_beside_a_settings_file() {
    let mut disk = Disk::default();
    disk.files.insert("diary-cli.yaml".to_string(), "entry_path: /e\n".to_string());
    let before = disk.clone();
    assert_eq!(disk.initialize("/home/me"), Err(DiaryError::WorkspaceAlreadyExists));
    assert_eq!(disk, before);
}

#[test]
fn initializer_is_refused_beside_a_file_named_as_the_workspace() {
    let mut disk = Disk::default();
    disk.files.insert("diary".to_string(), "dear diary".to_string());
    let before = disk.clone();
    assert_eq!(disk.initialize("/home/me"), Err(DiaryError::WorkspaceAlreadyExists));
    assert_eq!(disk, before);
}

#[test]
fn initializer_stops_where_the_directory_cannot_be_made() {
    let mut session = initializer::start("/home/me", false, false).unwrap();
    session.record(Outcome::Failed);
    assert_eq!(session.pending(), None);
    assert_eq!(session.completed(), 0);
    assert_eq!(session.result(), Some(Err(DiaryError::DirectoryCreateFailure)));
}

#[test]
fn initializer_stops_at_a_page_that_is_there() {
    let mut session = initializer::start("/home/me", false, false).unwrap();
    session.record(Outcome::Done);
    session.record(Outcome::Done);
    session.record(Outcome::AlreadyExists);
    assert_eq!(session.pending(), None);
    assert_eq!(session.completed(), 2);
    assert_eq!(session.result(), Some(Err(DiaryError::FileAlreadyExists)));
}

#[test]
fn initializer_stops_at_a_page_that_cannot_be_written() {
    let mut session = initializer::start("/home/me", false, false).unwrap();
    session.record(Outcome::Done);
    session.record(Outcome::Failed);
    assert_eq!(session.pending(), None);
    assert_eq!(session.result(), Some(Err(DiaryError::FileWriteFailure)));
}

#[test]
fn entry_writer_renders_the_notes_of_a_day() {
    let setting = notes_setting("/home/me/diary/entries");
    let date = EntryDate::new(2024, 3, 7).unwrap();
    assert_eq!(entry_writer::render_entry(&setting, &date), "# 2024/03/07\n\n## Notes\n");
}

#[test]
fn entry_writer_plans_the_directory_and_the_file() {
    let setting = notes_setting("/home/me/diary/entries");
    let date = EntryDate::new(2024, 3, 7).unwrap();
    let session = entry_writer::plan(&setting, &date);
    assert_eq!(session.component(), Component::EntryWriter);
    assert_eq!(
        steps_of(session),
        vec![
            Operation::EnsureDirectory { path: "/home/me/diary/entries/2024/3".to_string() },
            file("/home/me/diary/entries/2024/3/2024_3_7.md", "# 2024/03/07\n\n## Notes\n"),
        ]
    );
}

#[test]
fn entry_writer_starts_from_the_text_of_the_settings() {
    let setting = notes_setting("/e");
    let date = EntryDate::new(2024, 11, 30).unwrap();
    let text = setting.to_yaml().unwrap();
    let steps = steps_of(entry_writer::start(Some(&text), &date).unwrap());
    assert_eq!(
        steps,
        vec![
            Operation::EnsureDirectory { path: "/e/2024/11".to_string() },
            file("/e/2024/11/2024_11_30.md", "# 2024/11/30\n\n## Notes\n"),
        ]
    );
}

#[test]
fn entry_writer_needs_the_settings_file() {
    let date = EntryDate::new(2024, 3, 7).unwrap();
    assert_eq!(entry_writer::start(None, &date).err(), Some(DiaryError::ConfigNotFound));
    let mut disk = Disk::default();
    assert_eq!(disk.write_entry(&date), Err(DiaryError::ConfigNotFound));
    assert_eq!(disk, Disk::default());
}

#[test]
fn entry_writer_refuses_settings_without_the_template() {
    let date = EntryDate::new(2024, 3, 7).unwrap();
    let text = "entry_path: /home/me/diary/entries\narticle_path: /home/me/diary/articles\n";
    assert_eq!(entry_writer::start(Some(text), &date).err(), Some(DiaryError::ConfigInvalid));
    let mut disk = Disk::default();
    disk.files.insert(SETTING_FILE.to_string(), text.to_string());
    let before = disk.clone();
    assert_eq!(disk.write_entry(&date), Err(DiaryError::ConfigInvalid));
    assert_eq!(disk, before);
}

#[test]
fn entry_writer_refuses_settings_that_are_no_document() {
    let date = EntryDate::new(2024, 3, 7).unwrap();
    assert_eq!(
        entry_writer::start(Some("entry_path: [unclosed"), &date).err(),
        Some(DiaryError::ConfigInvalid)
    );
}

#[test]
fn entry_writer_writes_the_entry_of_a_day() {
    let setting = notes_setting("/home/me/diary/entries");
    let mut disk = disk_with_setting(&setting);
    let before = disk.clone();
    let date = EntryDate::new(2024, 3, 7).unwrap();
    assert_eq!(disk.write_entry(&date), Ok(()));
    assert_eq!(
        disk.files["/home/me/diary/entries/2024/3/2024_3_7.md"],
        "# 2024/03/07\n\n## Notes\n"
    );
    assert_eq!(disk.files.len(), 2);
    assert_eq!(disk.files[SETTING_FILE], before.files[SETTING_FILE]);
    let directories: Vec<&str> = disk.directories.iter().map(|d| d.as_str()).collect();
    assert_eq!(
        directories,
        vec![
            "/home",
            "/home/me",
            "/home/me/diary",
            "/home/me/diary/entries",
            "/home/me/diary/entries/2024",
            "/home/me/diary/entries/2024/3",
        ]
    );
}

#[test]
fn entry_writer_run_twice_is_refused_and_keeps_the_entry() {
    let setting = notes_setting("/home/me/diary/entries");
    let mut disk = disk_with_setting(&setting);
    let date = EntryDate::new(2024, 3, 7).unwrap();
    assert_eq!(disk.write_entry(&date), Ok(()));
    let path = "/home/me/diary/entries/2024/3/2024_3_7.md";
    disk.files.insert(path.to_string(), "what I wrote that day".to_string());
    let after_first = disk.clone();
    assert_eq!(disk.write_entry(&date), Err(DiaryError::EntryAlreadyExists));
    assert_eq!(disk, after_first);
    assert_eq!(disk.files[path], "what I wrote that day");
}

#[test]
fn entry_writer_writes_one_entry_for_each_day() {
    let setting = notes_setting("entries");
    let mut disk = disk_with_setting(&setting);
    for (year, month, day) in [(2024, 3, 7), (2024, 3, 8), (2024, 4, 1), (2025, 1, 1)] {
        let date = EntryDate::new(year, month, day).unwrap();
        assert_eq!(disk.write_entry(&date), Ok(()));
        assert_eq!(disk.write_entry(&date), Err(DiaryError::EntryAlreadyExists));
    }
    let paths: Vec<&str> =
        disk.files.keys().map(|p| p.as_str()).filter(|p| p.starts_with("entries/")).collect();
    assert_eq!(
        paths,
        vec![
            "entries/2024/3/2024_3_7.md",
            "entries/2024/3/2024_3_8.md",
            "entries/2024/4/2024_4_1.md",
            "entries/2025/1/2025_1_1.md",
        ]
    );
    assert_eq!(disk.files["entries/2025/1/2025_1_1.md"], "# 2025/01/01\n\n## Notes\n");
}

#[test]
fn entry_writer_keeps_the_directory_when_the_file_fails() {
    let setting = notes_setting("/e");
    let date = EntryDate::new(2024, 3, 7).unwrap();
    let mut session = entry_writer::plan(&setting, &date);
    session.record(Outcome::Done);
    session.record(Outcome::Failed);
    assert_eq!(session.completed(), 1);
    assert_eq!(session.pending(), None);
    assert_eq!(session.result(), Some(Err(DiaryError::FileWriteFailure)));
}

#[test]
fn entry_writer_stops_where_the_directory_cannot_be_made() {
    let setting = notes_setting("/e");
    let mut disk = disk_with_setting(&setting);
    disk.files.insert("/e".to_string(), "a file in the way".to_string());
    let before = disk.clone();
    let date = EntryDate::new(2024, 3, 7).unwrap();
    assert_eq!(disk.write_entry(&date), Err(DiaryError::DirectoryCreateFailure));
    assert_eq!(disk, before);
}

#[test]
fn entry_writer_works_in_a_workspace_that_the_initializer_set_up() {
    let mut disk = Disk::default();
    assert_eq!(disk.initialize("/home/me"), Ok(()));
    let date = EntryDate::new(2024, 3, 7).unwrap();
    assert_eq!(disk.write_entry(&date), Ok(()));
    let entry = &disk.files["/home/me/diary/entries/2024/3/2024_3_7.md"];
    assert!(entry.starts_with("# 2024/03/07\n\n## Concrete Experience (具体的経験)\n"));
    assert_eq!(disk.write_entry(&date), Err(DiaryError::EntryAlreadyExists));
}
