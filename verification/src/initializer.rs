//! The initializer: it sets up a fresh workspace, once per place.
//!
//! A run is refused where the workspace directory or the settings file is
//! there already. Else the session creates the directory, the four pages of
//! the workspace and, beside the workspace, the settings file.

use crate::error::DiaryError;
use crate::layout::{join, joined, ARTICLES_DIR, ENTRIES_DIR, SETTING_FILE, WORKSPACE_DIR};
use crate::session::{started, Component, Operation, OperationView, Session, SessionView};
use crate::setting::{yaml_document, DiarySetting, SettingView};
use crate::template::{
    lemma_plain_text, lemma_render_keeps, lemma_render_replaces, placeholder_at, placeholder_count,
};
use vstd::prelude::*;
use vstd::string::*;

verus! {

/// The page that links to the articles.
pub const README_FILE: &'static str = "README.md";

pub const README_TEXT: &'static str = "# README \n";

/// The page of the things to do.
pub const TODO_FILE: &'static str = "TODO.md";

pub const TODO_TEXT: &'static str = "# TODO (やるべきこと)\n";

/// The page of the things done.
pub const CHANGELOG_FILE: &'static str = "CHANGELOG.md";

pub const CHANGELOG_TEXT: &'static str = "# CHANGELOG (実績)\n";

/// The page of the guidelines.
pub const CONTRIBUTING_FILE: &'static str = "CONTRIBUTING.md";

pub const CONTRIBUTING_TEXT: &'static str = "# CONTRIBUTING (ガイドライン)\n";

/// The template of a fresh workspace: a heading with the date, then the four
/// sections of a day's reflection.
pub const DEFAULT_TEMPLATE: &'static str =
    "# {}\n\n## Concrete Experience (具体的経験)\n\n## Reflective Observation (省察)\n\n## Abstract Conceptualization (概念化):\n\n## Active Experimentation (試行):\n\n";

/// The settings of a fresh workspace below the directory `root`.
pub open spec fn default_setting(root: Seq<char>) -> SettingView {
    SettingView {
        entry_path: joined(joined(root, WORKSPACE_DIR@), ENTRIES_DIR@),
        article_path: joined(joined(root, WORKSPACE_DIR@), ARTICLES_DIR@),
        diary_template: DEFAULT_TEMPLATE@,
    }
}

/// The steps that set up a workspace whose settings document is `document`.
pub open spec fn workspace_steps(document: Seq<char>) -> Seq<OperationView> {
    seq![
        OperationView::EnsureDirectory { path: WORKSPACE_DIR@ },
        OperationView::CreateFile {
            path: joined(WORKSPACE_DIR@, README_FILE@),
            content: README_TEXT@,
        },
        OperationView::CreateFile { path: joined(WORKSPACE_DIR@, TODO_FILE@), content: TODO_TEXT@ },
        OperationView::CreateFile {
            path: joined(WORKSPACE_DIR@, CHANGELOG_FILE@),
            content: CHANGELOG_TEXT@,
        },
        OperationView::CreateFile {
            path: joined(WORKSPACE_DIR@, CONTRIBUTING_FILE@),
            content: CONTRIBUTING_TEXT@,
        },
        OperationView::CreateFile { path: SETTING_FILE@, content: document },
    ]
}

/// The session that sets up a workspace whose settings document is
/// `document`.
pub open spec fn workspace_session(document: Seq<char>) -> SessionView {
    SessionView::fresh(Component::Initializer, workspace_steps(document))
}

/// The session that a run of the initializer starts with, in the directory
/// `root`, given whether the workspace directory and the settings file are
/// there.
pub open spec fn workspace_start(root: Seq<char>, workspace_present: bool, setting_present: bool)
    -> Result<SessionView, DiaryError> {
    if workspace_present || setting_present {
        Err(DiaryError::WorkspaceAlreadyExists)
    } else {
        match yaml_document(default_setting(root).pairs()) {
            Some(document) => Ok(workspace_session(document)),
            None => Err(DiaryError::ConfigInvalid),
        }
    }
}

/// The template of a fresh workspace holds one placeholder, in its heading.
pub proof fn lemma_default_template()
    ensures
        DEFAULT_TEMPLATE@.len() > 0,
        placeholder_at(DEFAULT_TEMPLATE@, 2),
        placeholder_count(DEFAULT_TEMPLATE@) == 1,
{
    reveal_strlit(
        "# {}\n\n## Concrete Experience (具体的経験)\n\n## Reflective Observation (省察)\n\n## Abstract Conceptualization (概念化):\n\n## Active Experimentation (試行):\n\n",
    );
    let t = DEFAULT_TEMPLATE@;
    let rest = t.skip(4);
    assert forall|i: int| 0 <= i < rest.len() implies rest[i] != '{' by {
        assert(rest[i] == t[i + 4]);
    }
    lemma_plain_text(rest);
    assert(t.skip(0) == t);
    lemma_render_keeps(t, Seq::empty(), 0);
    lemma_render_keeps(t, Seq::empty(), 1);
    lemma_render_replaces(t, Seq::empty(), 2);
}

/// The settings of a fresh workspace are complete, whatever the directory.
pub proof fn lemma_default_setting_is_complete(root: Seq<char>)
    ensures
        default_setting(root).complete(),
{
    lemma_default_template();
}

/// The settings of a fresh workspace below the directory `root`.
pub fn default_setting_for(root: &str) -> (r: DiarySetting)
    ensures
        r@ == default_setting(root@),
{
    let workspace = join(root, WORKSPACE_DIR);
    let entry_path = join(workspace.as_str(), ENTRIES_DIR);
    let article_path = join(workspace.as_str(), ARTICLES_DIR);
    proof {
        lemma_default_setting_is_complete(root@);
    }
    match DiarySetting::new(entry_path, article_path, DEFAULT_TEMPLATE.to_owned()) {
        Ok(setting) => setting,
        Err(_) => vstd::pervasive::unreached(),
    }
}

/// Plans a workspace whose settings document is `document`.
pub fn plan(document: String) -> (r: Session)
    ensures
        r@ == workspace_session(document@),
{
    let mut steps: Vec<Operation> = Vec::new();
    steps.push(Operation::EnsureDirectory { path: WORKSPACE_DIR.to_owned() });
    steps.push(
        Operation::CreateFile {
            path: join(WORKSPACE_DIR, README_FILE),
            content: README_TEXT.to_owned(),
        },
    );
    steps.push(
        Operation::CreateFile { path: join(WORKSPACE_DIR, TODO_FILE), content: TODO_TEXT.to_owned() },
    );
    steps.push(
        Operation::CreateFile {
            path: join(WORKSPACE_DIR, CHANGELOG_FILE),
            content: CHANGELOG_TEXT.to_owned(),
        },
    );
    steps.push(
        Operation::CreateFile {
            path: join(WORKSPACE_DIR, CONTRIBUTING_FILE),
            content: CONTRIBUTING_TEXT.to_owned(),
        },
    );
    steps.push(Operation::CreateFile { path: SETTING_FILE.to_owned(), content: document });
    let session = Session::new(Component::Initializer, steps);
    assert(session@.steps =~= workspace_steps(document@));
    session
}

/// Starts a run in the directory `root`. The host says whether the workspace
/// directory and the settings file are there; where either is, the run is
/// refused and nothing is to be written.
pub fn start(root: &str, workspace_present: bool, setting_present: bool) -> (r: Result<
    Session,
    DiaryError,
>)
    ensures
        started(r) == workspace_start(root@, workspace_present, setting_present),
{
    if workspace_present || setting_present {
        return Err(DiaryError::WorkspaceAlreadyExists);
    }
    let setting = default_setting_for(root);
    match setting.to_yaml() {
        Ok(document) => Ok(plan(document)),
        Err(error) => Err(error),
    }
}

} // verus!
