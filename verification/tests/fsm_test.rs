use kana::config::{CharFeature, Config, SpecialChars};
use kana::fsm::State;
use kana::input::Input;
use kana::kana::Kana;
use kana::transliterate::transliterate;

fn with_chars(pairs: &[(CharFeature, char)]) -> Config {
    let mut chars = SpecialChars::new();
    for (feature, c) in pairs {
        chars.insert(*feature, *c);
    }
    Config {
        special_chars: chars,
        ..Config::default()
    }
}

fn katakana() -> Config {
    Config {
        start_with_katakana: true,
        ..Config::default()
    }
}

#[test]
fn init_stops_at_the_end_only() {
    let cfg = Config::default();

    assert!(State::Init.next(Input::new("", &cfg)).is_none());

    let (written, left, state) = State::Init.next(Input::new("a", &cfg)).unwrap();
    assert_eq!(written, "");
    assert_eq!(left.romaji, "a");
    assert_eq!(state, State::RawToggle);
}

#[test]
fn every_other_state_takes_a_step_at_the_end() {
    let cfg = Config {
        parse_punctuation: true,
        ..with_chars(&[
            (CharFeature::KanaToggle, '@'),
            (CharFeature::RawTextToggle, '#'),
            (CharFeature::ResetProlongation, '^'),
            (CharFeature::SmallVowel, '_'),
            (CharFeature::VirtualStop, '%'),
        ])
    };
    let states = [
        State::RawToggle,
        State::KanaToggle,
        State::SizeRouter,
        State::Long,
        State::Medium,
        State::Short,
        State::Tiny,
        State::Sokuon,
        State::VirtualSokuon,
        State::SmallVowel,
        State::Chouonpu,
        State::RawText('#'),
        State::Punctuation(1, &State::Fallback),
        State::Punctuation(0, &State::Init),
        State::Fallback,
    ];
    for state in states {
        let (written, left, _) = state.next(Input::new("", &cfg)).unwrap();
        assert_eq!(written, "", "{:?}", state);
        assert_eq!(left.romaji, "", "{:?}", state);
    }
}

#[test]
fn window_sizes() {
    assert_eq!(State::SizeRouter.get_size(), 0);
    assert_eq!(State::Init.get_size(), 1);
    assert_eq!(State::RawToggle.get_size(), 1);
    assert_eq!(State::KanaToggle.get_size(), 1);
    assert_eq!(State::RawText('#').get_size(), 1);
    assert_eq!(State::Tiny.get_size(), 1);
    assert_eq!(State::VirtualSokuon.get_size(), 1);
    assert_eq!(State::Fallback.get_size(), 1);
    assert_eq!(State::Short.get_size(), 2);
    assert_eq!(State::Sokuon.get_size(), 2);
    assert_eq!(State::SmallVowel.get_size(), 2);
    assert_eq!(State::Chouonpu.get_size(), 2);
    assert_eq!(State::Medium.get_size(), 3);
    assert_eq!(State::Long.get_size(), 4);
    assert_eq!(State::Punctuation(7, &State::Init).get_size(), 7);
}

#[test]
fn size_router_picks_the_widest_window() {
    let cfg = Config::default();
    let cases = [
        ("", State::Init),
        ("a", State::Tiny),
        ("ab", State::Sokuon),
        ("abc", State::Medium),
        ("abcd", State::Long),
        ("abcde", State::Long),
        ("日本語", State::Medium),
    ];
    for (romaji, expected) in cases {
        let (written, left, state) = State::SizeRouter.next(Input::new(romaji, &cfg)).unwrap();
        assert_eq!(written, "");
        assert_eq!(left.romaji, romaji);
        assert_eq!(state, expected);
    }
}

#[test]
fn a_syllable_keeps_its_last_character_for_the_prolongation() {
    let cfg = katakana();

    let extended = Config {
        extended_katakana: true,
        ..cfg
    };
    let (written, left, state) = State::Long.next(Input::new("tsyuu", &extended)).unwrap();
    assert_eq!(written, "ツュ");
    assert_eq!(left.romaji, "uu");
    assert_eq!(state, State::Chouonpu);

    let (written, left, state) = State::Medium.next(Input::new("kyaa", &cfg)).unwrap();
    assert_eq!(written, "キャ");
    assert_eq!(left.romaji, "aa");
    assert_eq!(state, State::Chouonpu);

    let (written, left, state) = State::Short.next(Input::new("KAa", &cfg)).unwrap();
    assert_eq!(written, "カ");
    assert_eq!(left.romaji, "Aa");
    assert_eq!(state, State::Chouonpu);

    let (written, left, state) = State::Tiny.next(Input::new("oo", &cfg)).unwrap();
    assert_eq!(written, "オ");
    assert_eq!(left.romaji, "oo");
    assert_eq!(state, State::Chouonpu);
}

#[test]
fn a_miss_goes_to_the_next_narrower_window() {
    let cfg = Config::default();
    let cases = [
        (State::Long, State::Medium),
        (State::Medium, State::Sokuon),
        (State::Sokuon, State::Short),
        (State::Short, State::Tiny),
        (State::Tiny, State::Fallback),
        (State::SmallVowel, State::Short),
        (State::VirtualSokuon, State::Fallback),
    ];
    for (state, expected) in cases {
        let (written, left, next) = state.next(Input::new("qqqq", &cfg)).unwrap();
        assert_eq!(written, "");
        assert_eq!(left.romaji, "qqqq");
        assert_eq!(next, expected, "{:?}", state);
    }
}

#[test]
fn a_miss_probes_punctuation_only_where_it_is_parsed() {
    let cfg = Config {
        parse_punctuation: true,
        ..Config::default()
    };
    let cases = [
        (State::Long, State::Punctuation(4, &State::Medium)),
        (State::Medium, State::Punctuation(3, &State::Sokuon)),
        (State::Short, State::Punctuation(2, &State::Tiny)),
        (State::Tiny, State::Punctuation(1, &State::Fallback)),
    ];
    for (state, expected) in cases {
        let (_, _, next) = state.next(Input::new("qqqq", &cfg)).unwrap();
        assert_eq!(next, expected, "{:?}", state);
    }

    let (_, _, next) = State::Punctuation(4, &State::Medium)
        .next(Input::new("qqqq", &cfg))
        .unwrap();
    assert_eq!(next, State::Medium);

    let plain = Config::default();
    let (_, _, next) = State::Punctuation(4, &State::Medium)
        .next(Input::new("....", &plain))
        .unwrap();
    assert_eq!(next, State::Medium);
}

#[test]
fn optional_states_are_entered_only_where_they_are_configured() {
    let cfg = with_chars(&[
        (CharFeature::SmallVowel, '_'),
        (CharFeature::VirtualStop, '%'),
    ]);

    let (_, _, next) = State::Sokuon.next(Input::new("qq", &cfg)).unwrap();
    assert_eq!(next, State::SmallVowel);

    let (_, _, next) = State::Tiny.next(Input::new("q", &cfg)).unwrap();
    assert_eq!(next, State::VirtualSokuon);

    let marks = Config {
        parse_punctuation: true,
        ..cfg
    };
    let (_, _, next) = State::Tiny.next(Input::new("q", &marks)).unwrap();
    assert_eq!(next, State::Punctuation(1, &State::VirtualSokuon));
}

#[test]
fn sokuon_reads_the_first_of_two_consonants() {
    let cfg = Config::default();

    let (written, left, state) = State::Sokuon.next(Input::new("TTo", &cfg)).unwrap();
    assert_eq!(written, "っ");
    assert_eq!(left.romaji, "To");
    assert_eq!(state, State::Init);

    let cfg = katakana();
    let (written, left, state) = State::Sokuon.next(Input::new("tto", &cfg)).unwrap();
    assert_eq!(written, "ッ");
    assert_eq!(left.romaji, "to");
    assert_eq!(state, State::Init);
}

#[test]
fn chouonpu_reads_one_character_and_looks_again() {
    let cfg = katakana();

    let (written, left, state) = State::Chouonpu.next(Input::new("ooomen", &cfg)).unwrap();
    assert_eq!(written, "ー");
    assert_eq!(left.romaji, "oomen");
    assert_eq!(state, State::Chouonpu);

    let (written, left, state) = State::Chouonpu.next(Input::new("omen", &cfg)).unwrap();
    assert_eq!(written, "");
    assert_eq!(left.romaji, "men");
    assert_eq!(state, State::Init);

    let plain = Config::default();
    let (written, left, state) = State::Chouonpu
        .next(Input::new("oomen", &plain))
        .unwrap();
    assert_eq!(written, "");
    assert_eq!(left.romaji, "omen");
    assert_eq!(state, State::Init);
}

#[test]
fn chouonpu_reset_reads_the_vowel_and_the_trigger() {
    let cfg = Config {
        start_with_katakana: true,
        ..with_chars(&[(CharFeature::ResetProlongation, '^')])
    };

    let (written, left, state) = State::Chouonpu.next(Input::new("u^u", &cfg)).unwrap();
    assert_eq!(written, "");
    assert_eq!(left.romaji, "u");
    assert_eq!(state, State::Init);
}

#[test]
fn raw_text_is_kept_until_the_toggle_comes_again() {
    let cfg = with_chars(&[(CharFeature::RawTextToggle, '#')]);

    let (written, left, state) = State::RawToggle.next(Input::new("#ka#", &cfg)).unwrap();
    assert_eq!(written, "");
    assert_eq!(left.romaji, "ka#");
    assert_eq!(state, State::RawText('#'));

    let (written, left, state) = State::RawText('#').next(Input::new("ka#", &cfg)).unwrap();
    assert_eq!(written, "k");
    assert_eq!(left.romaji, "a#");
    assert_eq!(state, State::RawText('#'));

    let (written, left, state) = State::RawText('#').next(Input::new("#ka", &cfg)).unwrap();
    assert_eq!(written, "");
    assert_eq!(left.romaji, "ka");
    assert_eq!(state, State::RawToggle);

    let (written, left, state) = State::RawText('#').next(Input::new("a", &cfg)).unwrap();
    assert_eq!(written, "a");
    assert_eq!(left.romaji, "");
    assert_eq!(state, State::Init);

    let (_, _, state) = State::RawToggle.next(Input::new("ka", &cfg)).unwrap();
    assert_eq!(state, State::KanaToggle);
}

#[test]
fn kana_toggle_changes_the_kana() {
    let cfg = with_chars(&[(CharFeature::KanaToggle, '@')]);

    let (written, left, state) = State::KanaToggle.next(Input::new("@ka", &cfg)).unwrap();
    assert_eq!(written, "");
    assert_eq!(left.romaji, "ka");
    assert_eq!(*left.kanas.get_current(), Kana::Katakana { extended: false });
    assert_eq!(state, State::Init);

    let (_, left, state) = State::KanaToggle.next(Input::new("ka", &cfg)).unwrap();
    assert_eq!(left.romaji, "ka");
    assert_eq!(
        *left.kanas.get_current(),
        Kana::Hiragana {
            show_prolongation: false
        }
    );
    assert_eq!(state, State::SizeRouter);
}

#[test]
fn small_vowel_and_virtual_sokuon() {
    let cfg = Config {
        start_with_katakana: true,
        ..with_chars(&[
            (CharFeature::SmallVowel, '_'),
            (CharFeature::VirtualStop, '%'),
        ])
    };

    let (written, left, state) = State::SmallVowel.next(Input::new("_I", &cfg)).unwrap();
    assert_eq!(written, "ィ");
    assert_eq!(left.romaji, "I");
    assert_eq!(state, State::Chouonpu);

    let (written, left, state) = State::SmallVowel.next(Input::new("_k", &cfg)).unwrap();
    assert_eq!(written, "");
    assert_eq!(left.romaji, "_k");
    assert_eq!(state, State::Short);

    let (written, left, state) = State::VirtualSokuon.next(Input::new("%u", &cfg)).unwrap();
    assert_eq!(written, "ッ");
    assert_eq!(left.romaji, "u");
    assert_eq!(state, State::Init);

    assert_eq!(transliterate("Serebi_i", &cfg), "セレビィ");
    assert_eq!(transliterate("Me_eekuru", &cfg), "メェークル");
    assert_eq!(transliterate("U%u", &cfg), "ウッウ");

    let hiragana = with_chars(&[
        (CharFeature::SmallVowel, '_'),
        (CharFeature::VirtualStop, '%'),
    ]);
    assert_eq!(transliterate("a_i", &hiragana), "あ_い");
    assert_eq!(transliterate("u%u", &hiragana), "うっう");
}

#[test]
fn fallback_keeps_one_character() {
    let cfg = Config::default();

    let (written, left, state) = State::Fallback.next(Input::new("日本", &cfg)).unwrap();
    assert_eq!(written, "日");
    assert_eq!(left.romaji, "本");
    assert_eq!(state, State::Init);
}

#[test]
fn punctuation_marks_fill_their_window() {
    let cfg = Config {
        parse_punctuation: true,
        ..Config::default()
    };

    let (written, left, state) = State::Punctuation(3, &State::Sokuon)
        .next(Input::new("...a", &cfg))
        .unwrap();
    assert_eq!(written, "…");
    assert_eq!(left.romaji, "a");
    assert_eq!(state, State::Init);

    let (written, left, state) = State::Punctuation(1, &State::Fallback)
        .next(Input::new("!?", &cfg))
        .unwrap();
    assert_eq!(written, "！");
    assert_eq!(left.romaji, "?");
    assert_eq!(state, State::Init);

    assert_eq!(transliterate("nani...?", &cfg), "なに…？");
    assert_eq!(transliterate("a.. b", &cfg), "あ。。 b");
    assert_eq!(transliterate("[ka](ki){ku}<ke>", &cfg), "［か］（き）｛く｝【け】");
    assert_eq!(transliterate("a,i=u:e", &cfg), "あ、い＝う：え");
}

#[test]
fn quotes_alternate_each_kind_by_itself() {
    let cfg = Config {
        parse_punctuation: true,
        ..Config::default()
    };

    assert_eq!(transliterate("''''", &cfg), "「」「」");
    assert_eq!(transliterate("\"\"\"", &cfg), "『』『");
    assert_eq!(transliterate("'\"'\"'", &cfg), "「『」』「");
    assert_eq!(transliterate("'\"\"'\"", &cfg), "「『』」『");
    assert_eq!(transliterate("'a' 'i'", &cfg), "「あ」 「い」");

    let (written, left, state) = State::Punctuation(1, &State::Fallback)
        .next(Input::new("'a", &cfg))
        .unwrap();
    assert_eq!(written, "「");
    assert_eq!(left.romaji, "a");
    assert_eq!(state, State::Init);
    let next = State::Punctuation(1, &State::Fallback)
        .next(Input {
            romaji: "\"'",
            ..left
        })
        .unwrap();
    assert_eq!(next.0, "『");
    let next = State::Punctuation(1, &State::Fallback)
        .next(next.1)
        .unwrap();
    assert_eq!(next.0, "」");
}

#[test]
fn gemination() {
    assert_eq!(transliterate("tto", &Config::default()), "っと");
    assert_eq!(transliterate("matte", &Config::default()), "まって");
    assert_eq!(transliterate("tto", &katakana()), "ット");
    assert_eq!(transliterate("kko", &Config::default()), "っこ");
    assert_eq!(transliterate("t", &Config::default()), "t");
    assert_eq!(transliterate("tt", &Config::default()), "っt");
}

#[test]
fn prolongation_run() {
    assert_eq!(transliterate("oomen", &katakana()), "オーメン");
    assert_eq!(transliterate("ooomen", &katakana()), "オーーメン");
    assert_eq!(transliterate("kaaaa", &katakana()), "カーーー");
    assert_eq!(transliterate("oomen", &Config::default()), "おおめん");
    assert_eq!(transliterate("kaAa", &katakana()), "カーー");
}

#[test]
fn kana_toggle_mid_string() {
    let cfg = with_chars(&[(CharFeature::KanaToggle, '@')]);

    assert_eq!(
        transliterate("watashiha@gaburieru@desu", &cfg),
        "わたしはガブリエルです"
    );
    assert_eq!(transliterate("@@", &cfg), "");
    assert_eq!(transliterate("ka@", &cfg), "か");
}

#[test]
fn raw_text_toggle() {
    let cfg = with_chars(&[(CharFeature::RawTextToggle, '#')]);

    assert_eq!(
        transliterate("watashiha#Gabriel#desu", &cfg),
        "わたしはGabrielです"
    );
    assert_eq!(transliterate("#", &cfg), "");
    assert_eq!(transliterate("##", &cfg), "");
    assert_eq!(transliterate("#ka##ka#ka", &cfg), "kakaか");
}

#[test]
fn empty_input_is_empty_output() {
    let all = Config {
        start_with_katakana: true,
        extended_katakana: true,
        parse_punctuation: true,
        ..with_chars(&[
            (CharFeature::KanaToggle, '@'),
            (CharFeature::RawTextToggle, '#'),
            (CharFeature::ResetProlongation, '^'),
            (CharFeature::SmallVowel, '_'),
            (CharFeature::VirtualStop, '%'),
        ])
    };

    assert_eq!(transliterate("", &Config::default()), "");
    assert_eq!(transliterate("", &katakana()), "");
    assert_eq!(transliterate("", &all), "");
}

#[test]
fn untranslatable_text_is_kept() {
    for text in ["1234567890", "+-*/ 100%", "日本語のテキスト", "qxl", "x", "  "] {
        assert_eq!(transliterate(text, &Config::default()), text);
        assert_eq!(transliterate(text, &katakana()), text);
    }
    assert_eq!(transliterate("12!?", &Config::default()), "12!?");
}

#[test]
fn both_kana_write_the_same_syllables() {
    let pairs = [
        ("watashi", "わたし", "ワタシ"),
        ("chottomatte", "ちょっとまって", "チョットマッテ"),
        ("nihon 123", "にほん 123", "ニホン 123"),
        ("kyaryupamyu", "きゃりゅぱみゅ", "キャリュパミュ"),
        ("djidzu", "ぢづ", "ヂヅ"),
    ];
    for (romaji, hiragana, katakana_text) in pairs {
        assert_eq!(transliterate(romaji, &Config::default()), hiragana);
        assert_eq!(transliterate(romaji, &katakana()), katakana_text);
        assert_eq!(
            hiragana.chars().count(),
            katakana_text.chars().count(),
            "{:?}",
            romaji
        );
    }
}

#[test]
fn case_does_not_matter() {
    assert_eq!(transliterate("WaTaShI", &Config::default()), "わたし");
    assert_eq!(transliterate("KYA", &katakana()), "キャ");
    assert_eq!(transliterate("OHAYOUGOZAIMASU", &Config::default()), "おはようございます");
    assert_eq!(transliterate("erudenringu", &katakana()), "エルデンリング");
}
