use std::collections::HashMap;
use std::io::Result as IoResult;

use kana::glyphs::chouonpu::{CHOUONPU_GRAPH, CHOUONPU_MATCHES};
use kana::glyphs::hiragana;
use kana::glyphs::katakana;
use kana::glyphs::sokuon::SOKUON_MATCHES;
use kana::section::{Section, State};
use kana::table::{Grapheme, Graphemes, Spec};

fn hiragana_spec() -> Spec<'static> {
    Spec {
        graphs: hiragana::SYLLABARY.to_vec(),
        graphemes: Graphemes {
            sukuon: Grapheme {
                matches: SOKUON_MATCHES.to_vec(),
                graph: hiragana::SOKUON_GRAPH,
            },
            choonpu: None,
        },
    }
}

fn katakana_spec() -> Spec<'static> {
    let mut graphs = katakana::SYLLABARY.to_vec();
    graphs.extend_from_slice(&katakana::EXTENDED_SYLLABARY);
    Spec {
        graphs,
        graphemes: Graphemes {
            sukuon: Grapheme {
                matches: SOKUON_MATCHES.to_vec(),
                graph: katakana::SOKUON_GRAPH,
            },
            choonpu: Some(Grapheme {
                matches: CHOUONPU_MATCHES.to_vec(),
                graph: CHOUONPU_GRAPH,
            }),
        },
    }
}

#[test]
fn state_test_hiragana() -> IoResult<()> {
    let word_table = {
        let mut m = HashMap::new();
        m.insert("chottomatte", "ちょっとまって");
        m.insert(
            "nikugazenzensukijaarimasen",
            "にくがぜんぜんすきじゃありません",
        );
        m.insert("wwwwwww", "wwwwwww");
        m.insert("日本", "日本");
        m.insert("nihon", "にほん");
        m
    };

    let spec = hiragana_spec();

    for (input, want) in word_table {
        let result: IoResult<()> = State::init(&spec, input, |result| {
            assert_eq!(result, want);
            Ok(())
        });

        assert!(result.is_ok());
    }

    Ok(())
}

#[test]
fn state_test_katakana() -> IoResult<()> {
    let word_table = {
        let mut m = HashMap::new();
        m.insert("suupaamario", "スーパーマリオ");
        m.insert("pureisuteeshon", "プレイステーション");
        m.insert("monkii D. ruufii", "モンキー D. ルーフィー");
        m.insert("wwwwwww", "wwwwwww");
        m.insert("supagetti", "スパゲッティ");
        m.insert("日本", "日本");
        m
    };

    let spec = katakana_spec();

    for (input, want) in word_table {
        let result: IoResult<()> = State::init(&spec, input, |result| {
            assert_eq!(result, want);
            Ok(())
        });

        assert!(result.is_ok());
    }

    Ok(())
}

#[test]
fn state_compute_takes_the_step_of_its_section() {
    let spec = katakana_spec();

    let (written, next) = State {
        section: Section::Sukuon,
        word: "tto",
    }
    .compute(&spec)
    .unwrap();
    assert_eq!(written, Some("ッ"));
    assert_eq!(
        next,
        State {
            section: Section::LongDigraph,
            word: "to",
        }
    );

    let (written, next) = State {
        section: Section::Choonpu,
        word: "oomen",
    }
    .compute(&spec)
    .unwrap();
    assert_eq!(written, Some("ー"));
    assert_eq!(
        next,
        State {
            section: Section::Choonpu,
            word: "omen",
        }
    );

    let (written, next) = State {
        section: Section::Choonpu,
        word: "omen",
    }
    .compute(&spec)
    .unwrap();
    assert_eq!(written, None);
    assert_eq!(
        next,
        State {
            section: Section::LongDigraph,
            word: "men",
        }
    );

    assert!(State {
        section: Section::Nasal,
        word: "",
    }
    .compute(&spec)
    .is_none());
}

#[test]
fn state_init_of_an_empty_word() {
    let spec = hiragana_spec();

    let result = State::init(&spec, "", |result| result);

    assert_eq!(result, "");
}

#[test]
fn state_init_writes_a_mark_for_each_repeated_vowel() {
    let spec = Spec {
        graphs: Vec::from([("o", "@")]),
        graphemes: Graphemes {
            choonpu: Some(Grapheme {
                matches: Vec::from(["oo"]),
                graph: "!",
            }),
            ..Default::default()
        },
    };

    let cases = [("o", "@"), ("oo", "@!"), ("ooo", "@!!"), ("oOxoo", "@!x@!")];
    for (word, want) in cases {
        assert_eq!(State::init(&spec, word, |result| result), want, "{:?}", word);
    }

    let katakana = katakana_spec();
    assert_eq!(
        State::init(&katakana, "ooomen", |result| result),
        "オーーメン"
    );
}

#[test]
fn state_init_folds_the_window() {
    let hiragana = hiragana_spec();
    let katakana = katakana_spec();

    assert_eq!(State::init(&hiragana, "123 GO!", |result| result), "123 ご!");
    assert_eq!(State::init(&hiragana, "ChoTTo", |result| result), "ちょっと");
    assert_eq!(State::init(&katakana, "TSYUU", |result| result), "ツュー");
    assert_eq!(State::init(&hiragana, "HELLO", |result| result), "へLLお");
}
