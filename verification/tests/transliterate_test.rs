use kana::config::{CharFeature, Config, SpecialChars};
use kana::transliterate::transliterate;

fn special(pairs: &[(CharFeature, char)]) -> SpecialChars {
    let mut chars = SpecialChars::new();
    for (feature, c) in pairs {
        chars.insert(*feature, *c);
    }
    chars
}

fn assert_test_cases(cases: Vec<(&str, &str, Config)>) {
    for (input, expected, cfg) in cases {
        assert_eq!(
            transliterate(input, &cfg),
            expected,
            "input: {:?}",
            input
        );
    }
}

#[test]
fn test_inputs() {
    let katakana = Config {
        start_with_katakana: true,
        ..Config::default()
    };
    let extended = Config {
        start_with_katakana: true,
        extended_katakana: true,
        ..Config::default()
    };
    let punctuation = Config {
        parse_punctuation: true,
        ..Config::default()
    };
    assert_test_cases(vec![
        ("watashi", "わたし", Config::default()),
        ("gaburieru", "ガブリエル", katakana),
        (
            "watashiha@gaburieru@desu",
            "わたしはガブリエルです",
            Config {
                special_chars: special(&[(CharFeature::KanaToggle, '@')]),
                ..Config::default()
            },
        ),
        ("HELLO", "へLLお", Config::default()),
        ("hello", "へllお", Config::default()),
        (
            "#hello#",
            "hello",
            Config {
                special_chars: special(&[(CharFeature::RawTextToggle, '#')]),
                ..Config::default()
            },
        ),
        (
            "nihon@nihon@#Japan#nihon#@nihon@#",
            "にほんニホンJapanにほん@nihon@",
            Config {
                special_chars: special(&[
                    (CharFeature::KanaToggle, '@'),
                    (CharFeature::RawTextToggle, '#'),
                ]),
                ..Config::default()
            },
        ),
        (
            "#rawtext",
            "rawtext",
            Config {
                special_chars: special(&[(CharFeature::RawTextToggle, '#')]),
                ..Config::default()
            },
        ),
        ("", "", Config::default()),
        ("'hana'", "'はな'", Config::default()),
        ("'hana'", "「はな」", punctuation),
        ("\"onamae\"", "\"おなまえ\"", Config::default()),
        ("\"onamae\"", "『おなまえ』", punctuation),
        (
            "chottomattekudasai.",
            "ちょっとまってください.",
            Config::default(),
        ),
        ("chottomattekudasai.", "ちょっとまってください。", punctuation),
        ("chottomatte", "ちょっとまって", Config::default()),
        (
            "nikugazenzensukijaarimasen",
            "にくがぜんぜんすきじゃありません",
            Config::default(),
        ),
        ("wwwwwww", "wwwwwww", Config::default()),
        ("日本", "日本", Config::default()),
        ("nihon", "にほん", Config::default()),
        ("12jinitabemasu!", "12じにたべます!", Config::default()),
        ("123 GO!", "123 ご!", Config::default()),
        ("oomen", "オーメン", katakana),
        ("tsyuu", "ツュー", extended),
        ("suupaamario", "スーパーマリオ", katakana),
        ("pureisuteeshon", "プレイステーション", katakana),
        ("monkii dii rufi", "モンキー ディー ルフィ", extended),
        ("wwwwwww", "wwwwwww", katakana),
        ("supagetti", "スパゲッティ", extended),
        ("sandoicchi", "サンドイッチ", katakana),
        ("egguheddo", "エッグヘッド", katakana),
        ("日本", "日本", katakana),
        ("123 GO!", "123 ゴ!", katakana),
    ]);
}

#[test]
fn transliterate_test_test_hiragana() {
    for (romaji, glyph) in kana::glyphs::hiragana::SYLLABARY {
        assert_eq!(
            transliterate(romaji, &Config::default()),
            glyph,
            "input: {:?}",
            romaji
        );
    }
}

#[test]
fn transliterate_test_test_katakana() {
    let cfg = Config {
        start_with_katakana: true,
        ..Config::default()
    };
    for (romaji, glyph) in kana::glyphs::katakana::SYLLABARY {
        assert_eq!(
            transliterate(romaji, &cfg),
            glyph,
            "input: {:?}",
            romaji
        );
    }
}

#[test]
fn test_extended_katakana() {
    let cfg = Config {
        start_with_katakana: true,
        extended_katakana: true,
        ..Config::default()
    };
    for (romaji, glyph) in kana::glyphs::katakana::EXTENDED_SYLLABARY {
        assert_eq!(
            transliterate(romaji, &cfg),
            glyph,
            "input: {:?}",
            romaji
        );
    }
}

#[test]
fn test_punctuation() {
    let cfg = Config {
        parse_punctuation: true,
        ..Config::default()
    };
    for (mark, glyph) in kana::glyphs::punctuation::MARKS {
        assert_eq!(
            transliterate(mark, &cfg),
            glyph,
            "input: {:?}",
            mark
        );
    }
}

#[test]
fn test_pokemon() {
    let cfg = Config {
        start_with_katakana: true,
        extended_katakana: true,
        special_chars: special(&[(CharFeature::ResetProlongation, '^')]),
        ..Config::default()
    };
    assert_test_cases(vec![
        ("Pikachu^u", "ピカチュウ", cfg),
        ("pikachuu", "ピカチュー", cfg),
        ("hitokage", "ヒトカゲ", cfg),
        ("zenigame", "ゼニガメ", cfg),
        ("fushigidane", "フシギダネ", cfg),
        ("myu^u", "ミュウ", cfg),
        ("myu^utsuu", "ミュウツー", cfg),
        ("iibui", "イーブイ", cfg),
    ]);
}
