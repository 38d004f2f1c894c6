//! The settings of a diary and their document: a mapping of three keys,
//! read and written by serde_yaml.

use crate::error::DiaryError;
use std::collections::BTreeMap;
use vstd::prelude::*;
use vstd::string::*;

verus! {

/// The key of the directory that holds the entries.
pub const ENTRY_PATH_KEY: &'static str = "entry_path";

/// The key of the directory that holds the articles.
pub const ARTICLE_PATH_KEY: &'static str = "article_path";

/// The key of the template of an entry.
pub const DIARY_TEMPLATE_KEY: &'static str = "diary_template";

/// The fields of a settings document, key and value, as plain text.
pub type Pairs = Seq<(Seq<char>, Seq<char>)>;

/// The pairs that serde_yaml reads from a document: `None` where it refuses
/// the text or the text is no mapping from strings to strings.
pub uninterp spec fn yaml_pairs(text: Seq<char>) -> Option<Pairs>;

/// The document that serde_yaml writes for a mapping with these pairs, in
/// this order: `None` where it refuses them.
pub uninterp spec fn yaml_document(pairs: Pairs) -> Option<Seq<char>>;

/// The error of serde_yaml: carried from the call to the place that turns
/// it into `ConfigInvalid`, and never looked into.
#[verifier::external_type_specification]
#[verifier::external_body]
pub struct ExYamlError(serde_yaml::Error);

/// Calls `serde_yaml::from_str` for a map from `String` to `String` and hands
/// out its pairs. Trusted: the pairs depend on the text alone.
#[verifier::external_body]
fn yaml_read(text: &str) -> (r: Result<Vec<(String, String)>, serde_yaml::Error>)
    ensures
        match r {
            Ok(pairs) => yaml_pairs(text@) == Some(pairs.deep_view()),
            Err(_) => yaml_pairs(text@) is None,
        },
{
    let map: BTreeMap<String, String> = serde_yaml::from_str(text)?;
    Ok(map.into_iter().collect())
}

/// Calls `serde_yaml::to_string` on a `serde_yaml::Mapping` that holds the
/// pairs in their order. Trusted: the document depends on the pairs alone.
#[verifier::external_body]
fn yaml_write(pairs: &Vec<(String, String)>) -> (r: Result<String, serde_yaml::Error>)
    ensures
        match r {
            Ok(text) => yaml_document(pairs.deep_view()) == Some(text@),
            Err(_) => yaml_document(pairs.deep_view()) is None,
        },
{
    let mapping: serde_yaml::Mapping =
        pairs.iter().map(|(key, value)| (key.as_str().into(), value.as_str().into())).collect();
    serde_yaml::to_string(&mapping)
}

/// The value of the first pair with the key, if there is one.
pub open spec fn lookup(pairs: Pairs, key: Seq<char>) -> Option<Seq<char>>
    decreases pairs.len(),
{
    if pairs.len() == 0 {
        None
    } else if pairs[0].0 == key {
        Some(pairs[0].1)
    } else {
        lookup(pairs.skip(1), key)
    }
}

/// What a setting holds.
pub struct SettingView {
    pub entry_path: Seq<char>,
    pub article_path: Seq<char>,
    pub diary_template: Seq<char>,
}

impl SettingView {
    /// No field is empty.
    pub open spec fn complete(self) -> bool {
        self.entry_path.len() > 0 && self.article_path.len() > 0 && self.diary_template.len() > 0
    }

    /// The three fields under their keys, in the order of the document.
    pub open spec fn pairs(self) -> Pairs {
        seq![
            (ENTRY_PATH_KEY@, self.entry_path),
            (ARTICLE_PATH_KEY@, self.article_path),
            (DIARY_TEMPLATE_KEY@, self.diary_template),
        ]
    }
}

/// The setting that the pairs of a document hold: each of the three keys
/// must be there with a value that is not empty. Other keys are passed over.
pub open spec fn setting_of_pairs(pairs: Pairs) -> Result<SettingView, DiaryError> {
    let entry_path = lookup(pairs, ENTRY_PATH_KEY@);
    let article_path = lookup(pairs, ARTICLE_PATH_KEY@);
    let diary_template = lookup(pairs, DIARY_TEMPLATE_KEY@);
    if entry_path is Some && article_path is Some && diary_template is Some {
        let view = SettingView {
            entry_path: entry_path->0,
            article_path: article_path->0,
            diary_template: diary_template->0,
        };
        if view.complete() {
            Ok(view)
        } else {
            Err(DiaryError::ConfigInvalid)
        }
    } else {
        Err(DiaryError::ConfigInvalid)
    }
}

/// The pairs of a complete setting hold that setting again: what is written
/// under the three keys is what is found under them.
pub proof fn lemma_pairs_hold_the_setting(setting: SettingView)
    requires
        setting.complete(),
    ensures
        setting_of_pairs(setting.pairs()) == Ok::<SettingView, DiaryError>(setting),
{
    reveal_strlit("entry_path");
    reveal_strlit("article_path");
    reveal_strlit("diary_template");
    reveal_with_fuel(lookup, 4);
    let pairs = setting.pairs();
    assert(ENTRY_PATH_KEY@.len() != ARTICLE_PATH_KEY@.len());
    assert(ENTRY_PATH_KEY@.len() != DIARY_TEMPLATE_KEY@.len());
    assert(ARTICLE_PATH_KEY@.len() != DIARY_TEMPLATE_KEY@.len());
    assert(pairs.skip(1)[0] == pairs[1]);
    assert(pairs.skip(1).skip(1)[0] == pairs[2]);
}

/// The setting that a document holds, or why it holds none.
pub open spec fn setting_of_document(text: Seq<char>) -> Result<SettingView, DiaryError> {
    match yaml_pairs(text) {
        Some(pairs) => setting_of_pairs(pairs),
        None => Err(DiaryError::ConfigInvalid),
    }
}

/// The setting that the settings file holds, `None` standing for a file that
/// is missing or cannot be read.
pub open spec fn setting_of_file(text: Option<Seq<char>>) -> Result<SettingView, DiaryError> {
    match text {
        Some(text) => setting_of_document(text),
        None => Err(DiaryError::ConfigNotFound),
    }
}

/// Where the diary lives and what a fresh entry looks like.
#[derive(Debug, PartialEq, Eq)]
pub struct DiarySetting {
    entry_path: String,
    article_path: String,
    diary_template: String,
}

impl View for DiarySetting {
    type V = SettingView;

    closed spec fn view(&self) -> SettingView {
        SettingView {
            entry_path: self.entry_path@,
            article_path: self.article_path@,
            diary_template: self.diary_template@,
        }
    }
}

/// A result with the setting taken by its view.
pub open spec fn viewed(r: Result<DiarySetting, DiaryError>) -> Result<SettingView, DiaryError> {
    match r {
        Ok(setting) => Ok(setting@),
        Err(e) => Err(e),
    }
}

fn find<'a>(pairs: &'a Vec<(String, String)>, key: &str) -> (r: Option<&'a String>)
    ensures
        match r {
            Some(value) => lookup(pairs.deep_view(), key@) == Some(value@),
            None => lookup(pairs.deep_view(), key@) is None,
        },
{
    let wanted = key.to_owned();
    let ghost all = pairs.deep_view();
    let mut i: usize = 0;
    assert(all.skip(0) == all);
    while i < pairs.len()
        invariant
            i <= pairs.len(),
            all == pairs.deep_view(),
            wanted@ == key@,
            lookup(all, key@) == lookup(all.skip(i as int), key@),
        decreases pairs.len() - i,
    {
        assert(all.skip(i as int)[0] == all[i as int]);
        assert(all.skip(i as int).skip(1) == all.skip(i + 1));
        if pairs[i].0 == wanted {
            return Some(&pairs[i].1);
        }
        i += 1;
    }
    None
}

impl DiarySetting {
    #[verifier::type_invariant]
    spec fn inv(self) -> bool {
        self@.complete()
    }

    /// A setting of these three fields; `ConfigInvalid` where one is empty.
    pub fn new(entry_path: String, article_path: String, diary_template: String) -> (r: Result<
        DiarySetting,
        DiaryError,
    >)
        ensures
            viewed(r) == (if (SettingView {
                entry_path: entry_path@,
                article_path: article_path@,
                diary_template: diary_template@,
            }).complete() {
                Ok::<SettingView, DiaryError>(
                    SettingView {
                        entry_path: entry_path@,
                        article_path: article_path@,
                        diary_template: diary_template@,
                    },
                )
            } else {
                Err(DiaryError::ConfigInvalid)
            }),
    {
        if entry_path.as_str().is_empty() || article_path.as_str().is_empty()
            || diary_template.as_str().is_empty() {
            Err(DiaryError::ConfigInvalid)
        } else {
            Ok(DiarySetting { entry_path, article_path, diary_template })
        }
    }

    /// The directory that holds the entries.
    pub fn entry_path(&self) -> (r: &str)
        ensures
            r@ == self@.entry_path,
    {
        self.entry_path.as_str()
    }

    /// The directory that holds the articles.
    pub fn article_path(&self) -> (r: &str)
        ensures
            r@ == self@.article_path,
    {
        self.article_path.as_str()
    }

    /// The template of an entry.
    pub fn diary_template(&self) -> (r: &str)
        ensures
            r@ == self@.diary_template,
    {
        self.diary_template.as_str()
    }

    /// The three fields under their keys, in the order of the document.
    pub fn to_pairs(&self) -> (r: Vec<(String, String)>)
        ensures
            r.deep_view() == self@.pairs(),
    {
        let mut pairs: Vec<(String, String)> = Vec::new();
        pairs.push((ENTRY_PATH_KEY.to_owned(), self.entry_path.clone()));
        pairs.push((ARTICLE_PATH_KEY.to_owned(), self.article_path.clone()));
        pairs.push((DIARY_TEMPLATE_KEY.to_owned(), self.diary_template.clone()));
        assert(pairs.deep_view() =~= self@.pairs());
        pairs
    }

    /// The setting that the pairs of a document hold.
    pub fn from_pairs(pairs: &Vec<(String, String)>) -> (r: Result<DiarySetting, DiaryError>)
        ensures
            viewed(r) == setting_of_pairs(pairs.deep_view()),
    {
        let entry_path = find(pairs, ENTRY_PATH_KEY);
        let article_path = find(pairs, ARTICLE_PATH_KEY);
        let diary_template = find(pairs, DIARY_TEMPLATE_KEY);
        match (entry_path, article_path, diary_template) {
            (Some(entry_path), Some(article_path), Some(diary_template)) => DiarySetting::new(
                entry_path.clone(),
                article_path.clone(),
                diary_template.clone(),
            ),
            _ => Err(DiaryError::ConfigInvalid),
        }
    }

    /// Reads a settings document: a mapping from text to text that holds the
    /// three keys, each with a value that is not empty. Anything else is
    /// `ConfigInvalid`.
    pub fn from_yaml(text: &str) -> (r: Result<DiarySetting, DiaryError>)
        ensures
            viewed(r) == setting_of_document(text@),
    {
        match yaml_read(text) {
            Ok(pairs) => DiarySetting::from_pairs(&pairs),
            Err(_) => Err(DiaryError::ConfigInvalid),
        }
    }

    /// Reads the settings file, `None` standing for a file that is missing
    /// or cannot be read.
    pub fn load(text: Option<&str>) -> (r: Result<DiarySetting, DiaryError>)
        ensures
            viewed(r) == setting_of_file(
                match text {
                    Some(text) => Some(text@),
                    None => None,
                },
            ),
    {
        match text {
            Some(text) => DiarySetting::from_yaml(text),
            None => Err(DiaryError::ConfigNotFound),
        }
    }

    /// Writes the settings document; `ConfigInvalid` where the serializer
    /// refuses the fields.
    pub fn to_yaml(&self) -> (r: Result<String, DiaryError>)
        ensures
            match r {
                Ok(text) => yaml_document(self@.pairs()) == Some(text@),
                Err(e) => e == DiaryError::ConfigInvalid && yaml_document(self@.pairs()) is None,
            },
    {
        let pairs = self.to_pairs();
        match yaml_write(&pairs) {
            Ok(text) => Ok(text),
            Err(_) => Err(DiaryError::ConfigInvalid),
        }
    }
}

} // verus!
