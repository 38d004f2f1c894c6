use diary::error::DiaryError;
use diary::initializer::{default_setting_for, DEFAULT_TEMPLATE};
use diary::setting::{DiarySetting, ARTICLE_PATH_KEY, DIARY_TEMPLATE_KEY, ENTRY_PATH_KEY};

fn pair(key: &str, value: &str) -> (String, String) {
    (key.to_string(), value.to_string())
}

fn sample() -> DiarySetting {
    DiarySetting::new(
        "/home/me/diary/entries".to_string(),
        "/home/me/diary/articles".to_string(),
        "# {}\n\n## Notes (メモ)\n".to_string(),
    )
    .unwrap()
}

#[test]
fn setting_keeps_its_fields() {
    let setting = sample();
    assert_eq!(setting.entry_path(), "/home/me/diary/entries");
    assert_eq!(setting.article_path(), "/home/me/diary/articles");
    assert_eq!(setting.diary_template(), "# {}\n\n## Notes (メモ)\n");
}

#[test]
fn setting_refuses_an_empty_field() {
    let text = |s: &str| s.to_string();
    assert_eq!(DiarySetting::new(text(""), text("a"), text("t")), Err(DiaryError::ConfigInvalid));
    assert_eq!(DiarySetting::new(text("e"), text(""), text("t")), Err(DiaryError::ConfigInvalid));
    assert_eq!(DiarySetting::new(text("e"), text("a"), text("")), Err(DiaryError::ConfigInvalid));
    assert_eq!(DiarySetting::new(text(""), text(""), text("")), Err(DiaryError::ConfigInvalid));
    assert!(DiarySetting::new(text("e"), text("a"), text("t")).is_ok());
    assert!(DiarySetting::new(text(" "), text(" "), text(" ")).is_ok());
}

#[test]
fn setting_keys_are_the_field_names() {
    assert_eq!(ENTRY_PATH_KEY, "entry_path");
    assert_eq!(ARTICLE_PATH_KEY, "article_path");
    assert_eq!(DIARY_TEMPLATE_KEY, "diary_template");
}

#[test]
fn setting_gives_its_pairs_in_the_order_of_the_document() {
    assert_eq!(
        sample().to_pairs(),
        vec![
            pair("entry_path", "/home/me/diary/entries"),
            pair("article_path", "/home/me/diary/articles"),
            pair("diary_template", "# {}\n\n## Notes (メモ)\n"),
        ]
    );
}

#[test]
fn setting_is_found_in_pairs_in_any_order() {
    let pairs = vec![pair("diary_template", "t"), pair("entry_path", "e"), pair("article_path", "a")];
    let setting = DiarySetting::from_pairs(&pairs).unwrap();
    assert_eq!(setting.entry_path(), "e");
    assert_eq!(setting.article_path(), "a");
    assert_eq!(setting.diary_template(), "t");
}

#[test]
fn setting_passes_over_other_keys() {
    let pairs = vec![
        pair("author", "me"),
        pair("entry_path", "e"),
        pair("Entry_Path", "E"),
        pair("article_path", "a"),
        pair("diary_template", "t"),
        pair("", ""),
    ];
    let setting = DiarySetting::from_pairs(&pairs).unwrap();
    assert_eq!(setting.entry_path(), "e");
    assert_eq!(setting.article_path(), "a");
    assert_eq!(setting.diary_template(), "t");
}

#[test]
fn setting_takes_the_first_of_two_pairs_with_one_key() {
    let pairs = vec![
        pair("entry_path", "first"),
        pair("entry_path", "second"),
        pair("article_path", "a"),
        pair("diary_template", "t"),
    ];
    assert_eq!(DiarySetting::from_pairs(&pairs).unwrap().entry_path(), "first");
    let pairs = vec![
        pair("entry_path", ""),
        pair("entry_path", "second"),
        pair("article_path", "a"),
        pair("diary_template", "t"),
    ];
    assert_eq!(DiarySetting::from_pairs(&pairs), Err(DiaryError::ConfigInvalid));
}

#[test]
fn setting_needs_every_key() {
    let all = [pair("entry_path", "e"), pair("article_path", "a"), pair("diary_template", "t")];
    for missing in 0..3 {
        let mut pairs = all.to_vec();
        pairs.remove(missing);
        assert_eq!(DiarySetting::from_pairs(&pairs), Err(DiaryError::ConfigInvalid));
    }
    assert_eq!(DiarySetting::from_pairs(&Vec::new()), Err(DiaryError::ConfigInvalid));
    assert!(DiarySetting::from_pairs(&all.to_vec()).is_ok());
}

#[test]
fn setting_needs_every_value() {
    let pairs = vec![pair("entry_path", "e"), pair("article_path", "a"), pair("diary_template", "")];
    assert_eq!(DiarySetting::from_pairs(&pairs), Err(DiaryError::ConfigInvalid));
}

#[test]
fn setting_is_written_as_a_mapping_of_three_keys() {
    let text = sample().to_yaml().unwrap();
    assert_eq!(
        text,
        "---\nentry_path: /home/me/diary/entries\narticle_path: /home/me/diary/articles\ndiary_template: \"# {}\\n\\n## Notes (メモ)\\n\"\n"
    );
}

#[test]
fn setting_round_trips_through_its_document() {
    let text = sample().to_yaml().unwrap();
    assert_eq!(DiarySetting::from_yaml(&text), Ok(sample()));
}

#[test]
fn default_setting_round_trips_through_its_document() {
    let setting = default_setting_for("/home/me");
    assert_eq!(setting.entry_path(), "/home/me/diary/entries");
    assert_eq!(setting.article_path(), "/home/me/diary/articles");
    assert_eq!(setting.diary_template(), DEFAULT_TEMPLATE);
    let text = setting.to_yaml().unwrap();
    assert_eq!(DiarySetting::from_yaml(&text), Ok(default_setting_for("/home/me")));
}

#[test]
fn awkward_values_round_trip_through_the_document() {
    let values = [
        "plain",
        " leading and trailing ",
        "colon: inside",
        "# hash",
        "'single' and \"double\"",
        "line\nbreak\n",
        "tab\there",
        "~",
        "null",
        "true",
        "123",
        "1.5",
        "- dash",
        "{}",
        "[x]",
        "日記/エントリ",
        "C:\\Users\\me\\diary",
    ];
    for value in values {
        let setting =
            DiarySetting::new(value.to_string(), value.to_string(), value.to_string()).unwrap();
        let text = setting.to_yaml().unwrap();
        let back = DiarySetting::from_yaml(&text).unwrap();
        assert_eq!(back.entry_path(), value);
        assert_eq!(back.article_path(), value);
        assert_eq!(back.diary_template(), value);
    }
}

#[test]
fn document_is_read_in_block_and_flow_style() {
    let block = "entry_path: /e\narticle_path: /a\ndiary_template: |\n  # {}\n\n  ## Notes\n";
    let setting = DiarySetting::from_yaml(block).unwrap();
    assert_eq!(setting.entry_path(), "/e");
    assert_eq!(setting.article_path(), "/a");
    assert_eq!(setting.diary_template(), "# {}\n\n## Notes\n");
    let flow = "{entry_path: /e, article_path: /a, diary_template: '# {}'}";
    let setting = DiarySetting::from_yaml(flow).unwrap();
    assert_eq!(setting.diary_template(), "# {}");
}

#[test]
fn document_without_the_template_is_invalid() {
    let text = "entry_path: /home/me/diary/entries\narticle_path: /home/me/diary/articles\n";
    assert_eq!(DiarySetting::from_yaml(text), Err(DiaryError::ConfigInvalid));
}

#[test]
fn document_without_a_path_is_invalid() {
    assert_eq!(
        DiarySetting::from_yaml("article_path: /a\ndiary_template: t\n"),
        Err(DiaryError::ConfigInvalid)
    );
    assert_eq!(
        DiarySetting::from_yaml("entry_path: /e\ndiary_template: t\n"),
        Err(DiaryError::ConfigInvalid)
    );
}

#[test]
fn document_with_an_empty_value_is_invalid() {
    assert_eq!(
        DiarySetting::from_yaml("entry_path: ''\narticle_path: /a\ndiary_template: t\n"),
        Err(DiaryError::ConfigInvalid)
    );
}

#[test]
fn text_that_is_no_mapping_is_invalid() {
    assert_eq!(DiarySetting::from_yaml(""), Err(DiaryError::ConfigInvalid));
    assert_eq!(DiarySetting::from_yaml("just text"), Err(DiaryError::ConfigInvalid));
    assert_eq!(DiarySetting::from_yaml("- a\n- b\n- c\n"), Err(DiaryError::ConfigInvalid));
    assert_eq!(DiarySetting::from_yaml("entry_path: [unclosed"), Err(DiaryError::ConfigInvalid));
    assert_eq!(DiarySetting::from_yaml("a: b: c: d"), Err(DiaryError::ConfigInvalid));
}

#[test]
fn document_with_a_value_that_is_no_text_is_invalid() {
    assert_eq!(
        DiarySetting::from_yaml("entry_path: [a, b]\narticle_path: /a\ndiary_template: t\n"),
        Err(DiaryError::ConfigInvalid)
    );
    assert_eq!(
        DiarySetting::from_yaml("entry_path: {a: b}\narticle_path: /a\ndiary_template: t\n"),
        Err(DiaryError::ConfigInvalid)
    );
}

#[test]
fn missing_file_is_told_from_invalid_file() {
    assert_eq!(DiarySetting::load(None), Err(DiaryError::ConfigNotFound));
    assert_eq!(DiarySetting::load(Some("")), Err(DiaryError::ConfigInvalid));
    assert_eq!(DiarySetting::load(Some("entry_path: /e\n")), Err(DiaryError::ConfigInvalid));
    let text = sample().to_yaml().unwrap();
    assert_eq!(DiarySetting::load(Some(&text)), Ok(sample()));
}
