use chiaro::i18n::{
    catalog_text, count_laps, count_samples, count_turns, setup_label_for, setup_value_for,
    Locale, Text, Translations,
};

#[test]
fn japanese_catalog_translates_navigation() {
    let translations = Translations::new(Locale::Japanese);
    assert_eq!(translations.get(Text::Telemetry), "テレメトリー");
    assert_eq!(translations.get(Text::Settings), "設定");
}

#[test]
fn japanese_plural_format_does_not_depend_on_english_grammar() {
    assert_eq!(count_laps(Locale::Japanese, 2), "2 ラップ");
}

#[test]
fn english_counts_agree_in_number() {
    assert_eq!(count_laps(Locale::English, 1), "1 lap");
    assert_eq!(count_laps(Locale::English, 2), "2 laps");
    assert_eq!(count_samples(Locale::English, 1), "1 sample");
    assert_eq!(count_turns(Locale::English, 12), "12 turns");
}

#[test]
fn dynamic_car_setup_keys_and_values_are_localized() {
    assert_eq!(setup_label_for(Locale::Japanese, "Cold Pressure"), "冷間空気圧");
    assert_eq!(setup_label_for(Locale::Japanese, "Front ARB"), "フロント・スタビライザー");
    assert_eq!(setup_label_for(Locale::Japanese, "LF Tire Pressure"), "左フロント・タイヤ空気圧");
    assert_eq!(setup_value_for(Locale::Japanese, "5 clicks"), "5 クリック");
    assert_eq!(setup_value_for(Locale::Japanese, "Dry"), "ドライ");
    assert_eq!(
        setup_label_for(Locale::Japanese, "Front Brake Pad Mu"),
        "フロントブレーキパッド摩擦係数"
    );
    assert_eq!(
        setup_label_for(Locale::Japanese, "Spring Perch Offset"),
        "スプリングシートオフセット"
    );
    assert_eq!(setup_label_for(Locale::Japanese, "In Car Dials"), "車内調整");
    assert_eq!(setup_label_for(Locale::Japanese, "Brake Pressure Bias"), "ブレーキ圧バイアス");
    assert_eq!(setup_value_for(Locale::Japanese, "0.58(Delivery)"), "0.58(デリバリー)");
    assert_eq!(setup_value_for(Locale::Japanese, "Race 2"), "レース 2");
}

#[test]
fn english_setup_labels_are_kept() {
    assert_eq!(setup_label_for(Locale::English, "Cold Pressure"), "Cold Pressure");
    assert_eq!(setup_value_for(Locale::English, "5 clicks"), "5 clicks");
}

#[test]
fn locales_have_stable_identifiers() {
    assert_eq!(Locale::English.id(), "english");
    assert_eq!(Locale::Japanese.id(), "japanese");
    assert_eq!(Translations::new(Locale::English).locale(), Locale::English);
    assert_eq!(catalog_text(Locale::English, Text::Settings), "Settings");
}
