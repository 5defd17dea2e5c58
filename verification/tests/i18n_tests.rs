use zundalink::i18n::keys;
use zundalink::i18n::{
    language_from_apple_languages, language_from_locale_value, language_from_posix_env,
    language_from_windows_ui_language, t, I18n, Language,
};

#[test]
fn test_translation_lookup() {
    assert_eq!(t(Language::ZhCN, keys::BUTTON_NEXT), "下一步 →".to_string());
    assert_eq!(t(Language::EnUS, keys::BUTTON_NEXT), "Next →".to_string());
}

#[test]
fn test_i18n_helper() {
    let i18n = I18n::new(Language::ZhCN);
    assert_eq!(i18n.t(keys::BUTTON_BACK), "← 返回".to_string());
}

#[test]
fn japanese_texts_are_looked_up() {
    assert_eq!(t(Language::JaJP, keys::BUTTON_NEXT), "次へ →");
    assert_eq!(t(Language::JaJP, keys::LANGUAGE_LABEL), "インターフェース言語:");
    assert_eq!(t(Language::EnUS, keys::OP_ASSIGN_LETTER), "4. Assign drive letter Q:");
    assert_eq!(t(Language::ZhCN, keys::STATUS_FAILED), "失败");
}

#[test]
fn unknown_key_is_shown_as_is() {
    assert_eq!(t(Language::ZhCN, "no_such_key"), "no_such_key");
    assert_eq!(t(Language::EnUS, ""), "");
    assert_eq!(t(Language::JaJP, "BUTTON_NEXT"), "BUTTON_NEXT");
}

#[test]
fn every_key_has_a_text_in_every_language() {
    let all_keys = [
        keys::APP_TITLE, keys::BUTTON_NEXT, keys::BUTTON_BACK, keys::BUTTON_REFRESH,
        keys::BUTTON_CANCEL, keys::BUTTON_CONFIRM, keys::BUTTON_RETRY, keys::BUTTON_SELECT_DIR,
        keys::LOADING_TITLE, keys::LOADING_MESSAGE, keys::VERSION_SELECTION_TITLE,
        keys::AVAILABLE_VERSIONS, keys::LATEST_TAG, keys::TEMP_DIR_LABEL, keys::TEMP_DIR_HINT,
        keys::USB_SELECTION_TITLE, keys::USB_WARNING, keys::NO_USB_DETECTED,
        keys::USB_DETECTED_DEVICES, keys::MANUAL_DRIVE_HINT, keys::MANUAL_DRIVE_EXAMPLE,
        keys::FORMAT_WARNING_TITLE, keys::FORMAT_WARNING_MESSAGE, keys::FORMAT_BACKUP_NOTICE,
        keys::FORMAT_CONFIRM_CHECK, keys::DOWNLOADING_TITLE, keys::PREPARING_DOWNLOAD,
        keys::VERIFYING, keys::SKIP_VERIFY_TITLE, keys::SKIP_VERIFY_MESSAGE,
        keys::SKIP_VERIFY_CONFIRM, keys::SKIP_CURRENT_VERIFY, keys::VERIFY_SKIPPED,
        keys::STATUS_PENDING, keys::STATUS_DOWNLOADING, keys::STATUS_COMPLETED,
        keys::STATUS_FAILED, keys::DOWNLOAD_COMPLETE, keys::NEXT_STEP_FORMAT,
        keys::DOWNLOAD_FAILED, keys::ERROR_DETAILS, keys::TIP_TITLE, keys::TIP_403_ERROR,
        keys::TIP_403_CAUSE_1, keys::TIP_403_CAUSE_2, keys::TIP_403_CAUSE_3,
        keys::TIP_403_SUGGESTION, keys::FORMAT_CONFIRMATION_TITLE, keys::FINAL_WARNING,
        keys::OPERATIONS_LIST, keys::OP_CLEAR_PARTITIONS, keys::OP_CREATE_EXFAT,
        keys::OP_SET_LABEL, keys::OP_ASSIGN_LETTER, keys::OP_COPY_FILES, keys::TARGET_DEVICE,
        keys::START_FORMAT, keys::FORMATTING_TITLE, keys::FORMATTING_MESSAGE,
        keys::FORMATTING_WARNING, keys::STATUS_LABEL, keys::COPYING_TITLE,
        keys::COPYING_MESSAGE, keys::CURRENT_FILE, keys::COMPLETED_TITLE,
        keys::COMPLETED_MESSAGE, keys::COMPLETED_SUBMESSAGE, keys::RETURN_HOME,
        keys::ERROR_TITLE, keys::ERROR_PREFIX, keys::DISK_SPACE_WARNING_TITLE,
        keys::DISK_SPACE_WARNING_MESSAGE, keys::REQUIRED_SPACE, keys::AVAILABLE_SPACE,
        keys::SELECT_OTHER_DIR, keys::LANGUAGE_SETTINGS, keys::LANGUAGE_LABEL,
    ];
    assert_eq!(all_keys.len(), 77);
    for key in all_keys.iter() {
        for lang in Language::all() {
            assert_ne!(t(*lang, key), key.to_string());
        }
    }
}

#[test]
fn language_tags_and_names() {
    assert_eq!(Language::ZhCN.as_str(), "zh-CN");
    assert_eq!(Language::EnUS.as_str(), "en-US");
    assert_eq!(Language::JaJP.as_str(), "ja-JP");
    assert_eq!(Language::ZhCN.display_name(), "简体中文");
    assert_eq!(Language::EnUS.display_name(), "English");
    assert_eq!(Language::JaJP.display_name(), "日本語");
    assert_eq!(Language::all(), &[Language::ZhCN, Language::EnUS, Language::JaJP]);
    assert_eq!(Language::default(), Language::ZhCN);
}

#[test]
fn set_language_changes_what_is_shown() {
    let mut i18n = I18n::new(Language::EnUS);
    assert_eq!(i18n.current_language(), Language::EnUS);
    assert_eq!(i18n.t(keys::BUTTON_CANCEL), "Cancel");
    i18n.set_language(Language::JaJP);
    assert_eq!(i18n.current_language(), Language::JaJP);
    assert_eq!(i18n.t(keys::BUTTON_CANCEL), "キャンセル");
}

#[test]
fn windows_language_ids() {
    assert_eq!(language_from_windows_ui_language(0x0804), Language::ZhCN);
    assert_eq!(language_from_windows_ui_language(0x0404), Language::ZhCN);
    assert_eq!(language_from_windows_ui_language(0x0411), Language::JaJP);
    assert_eq!(language_from_windows_ui_language(0x0409), Language::EnUS);
    assert_eq!(language_from_windows_ui_language(0x0407), Language::EnUS);
}

#[test]
fn apple_language_lists() {
    let zh = "(\n    \"zh-Hans-CN\",\n    \"en-US\"\n)";
    assert_eq!(language_from_apple_languages(Some(zh)), Language::ZhCN);
    let ja = "(\n    \"ja-JP\",\n    \"en-US\"\n)";
    assert_eq!(language_from_apple_languages(Some(ja)), Language::JaJP);
    let en = "(\n    \"en-US\"\n)";
    assert_eq!(language_from_apple_languages(Some(en)), Language::EnUS);
    assert_eq!(language_from_apple_languages(None), Language::EnUS);
}

#[test]
fn posix_locale_values() {
    assert_eq!(language_from_locale_value("zh_CN.UTF-8"), Some(Language::ZhCN));
    assert_eq!(language_from_locale_value("zh-Hans"), Some(Language::ZhCN));
    assert_eq!(language_from_locale_value("ja_JP.UTF-8"), Some(Language::JaJP));
    assert_eq!(language_from_locale_value("zh_TW.UTF-8"), None);
    assert_eq!(language_from_locale_value("en_US.UTF-8"), None);
    assert_eq!(language_from_posix_env(Some("ja_JP.UTF-8"), Some("zh_CN.UTF-8")), Language::JaJP);
    assert_eq!(language_from_posix_env(Some("C"), Some("zh_CN.UTF-8")), Language::ZhCN);
    assert_eq!(language_from_posix_env(None, None), Language::EnUS);
    assert_eq!(language_from_posix_env(Some("de_DE"), Some("fr_FR")), Language::EnUS);
}
