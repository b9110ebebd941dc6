use std::collections::HashMap;

use kana::glyphs::katakana;
use kana::kana::Kana;
use kana::machine::Machine;
use kana::section::State;
use kana::table::{contains, load_kanas, lookup, Grapheme, Graphemes, KanaTable, Spec};

#[test]
fn lookup_finds_the_glyph_of_a_key() {
    let table = [("a", "1"), ("b", "2"), ("ab", "3")];
    assert_eq!(lookup(&table, "a"), Some("1"));
    assert_eq!(lookup(&table, "b"), Some("2"));
    assert_eq!(lookup(&table, "ab"), Some("3"));
    assert_eq!(lookup(&table, "c"), None);
    assert_eq!(lookup(&table, ""), None);
    assert_eq!(lookup(&[], "a"), None);
}

#[test]
fn of_two_entries_the_later_one_counts() {
    let table = [("a", "1"), ("b", "2"), ("a", "3")];
    assert_eq!(lookup(&table, "a"), Some("3"));
    assert_eq!(lookup(&table, "b"), Some("2"));
}

#[test]
fn contains_finds_an_item() {
    let set = ["kk", "tt"];
    assert!(contains(&set, "kk"));
    assert!(contains(&set, "tt"));
    assert!(!contains(&set, "k"));
    assert!(!contains(&set, "KK"));
    assert!(!contains(&[], "kk"));
}

#[test]
fn default_tables_are_empty() {
    let table = KanaTable::default();
    assert!(table.syllabograms.is_empty());
    assert!(table.graphemes.sukuon.matches.is_empty());
    assert_eq!(table.graphemes.sukuon.graph, "");
    assert!(table.graphemes.choonpu.is_none());
    assert_eq!(table.get("a"), None);

    let spec = Spec::default();
    assert!(spec.graphs.is_empty());
    assert!(spec.graphemes.sukuon.matches.is_empty());
    assert_eq!(spec.graphemes.sukuon.graph, "");
    assert!(spec.graphemes.choonpu.is_none());
    assert_eq!(spec.get("a"), None);

    let graphemes = Graphemes::default();
    assert!(graphemes.choonpu.is_none());
    let grapheme = Grapheme::default();
    assert!(!grapheme.has(""));
}

#[test]
fn a_grapheme_has_its_matches() {
    let grapheme = Grapheme {
        matches: Vec::from(["aa", "oo"]),
        graph: "ー",
    };
    assert!(grapheme.has("aa"));
    assert!(grapheme.has("oo"));
    assert!(!grapheme.has("a"));
    assert!(!grapheme.has("ao"));
}

#[test]
fn the_loaded_tables_are_the_kana_of_the_library() {
    let (hiragana, katakana_table) = load_kanas();

    assert_eq!(hiragana.syllabograms, kana::glyphs::hiragana::SYLLABARY.to_vec());
    assert_eq!(hiragana.graphemes.sukuon.graph, "っ");
    assert!(hiragana.graphemes.sukuon.has("tt"));
    assert!(hiragana.graphemes.choonpu.is_none());

    assert_eq!(
        katakana_table.syllabograms.len(),
        katakana::SYLLABARY.len() + katakana::EXTENDED_SYLLABARY.len()
    );
    assert_eq!(katakana_table.graphemes.sukuon.graph, "ッ");
    let choonpu = katakana_table.graphemes.choonpu.as_ref().unwrap();
    assert_eq!(choonpu.graph, "ー");
    assert!(choonpu.has("oo"));

    let extended = Kana::Katakana { extended: true };
    let plain = Kana::Hiragana {
        show_prolongation: false,
    };
    for (key, _) in katakana::SYLLABARY {
        assert_eq!(katakana_table.get(key), extended.get_folded(key));
        assert_eq!(hiragana.get(key), plain.get_folded(key));
    }
    for (key, glyph) in katakana::EXTENDED_SYLLABARY {
        assert_eq!(katakana_table.get(key), Some(glyph));
        assert_eq!(hiragana.get(key), plain.get_folded(key));
    }
    assert_eq!(katakana_table.get("wi"), Some("ウィ"));
}

#[test]
fn the_machine_runs_on_the_loaded_tables() {
    let (hiragana, katakana_table) = load_kanas();
    let tables = HashMap::from([(false, &hiragana), (true, &katakana_table)]);

    let cases = [
        ((false, None), "arigatougozaimasu! itadakimasu!", "ありがとうございます! いただきます!"),
        ((true, None), "arigatougozaimasu! itadakimasu!", "アリガトウゴザイマス! イタダキマス!"),
        ((false, Some('@')), "watashiha@gaburieru@desu", "わたしはガブリエルです"),
        ((true, None), "oomen", "オーメン"),
        ((false, None), "", ""),
    ];
    for (toggles, input, want) in cases {
        let result = Machine::start(&tables, toggles, input, |result| result);
        assert_eq!(result, want);
    }
}

#[test]
fn the_section_parser_runs_on_the_loaded_graphs() {
    let (hiragana, katakana_table) = load_kanas();
    let hiragana = Spec {
        graphs: hiragana.syllabograms,
        graphemes: hiragana.graphemes,
    };
    let katakana_spec = Spec {
        graphs: katakana_table.syllabograms,
        graphemes: katakana_table.graphemes,
    };

    assert_eq!(
        State::init(&hiragana, "chottomatte", |result| result),
        "ちょっとまって"
    );
    assert_eq!(
        State::init(&katakana_spec, "suupaamario", |result| result),
        "スーパーマリオ"
    );
}

#[test]
fn tables_are_asked_in_lower_case() {
    let table = KanaTable {
        syllabograms: Vec::from([("ka", "か"), ("KI", "き")]),
        graphemes: Graphemes {
            sukuon: Grapheme {
                matches: Vec::from(["tt"]),
                graph: "っ",
            },
            choonpu: None,
        },
    };
    assert_eq!(table.get("ka"), Some("か"));
    assert_eq!(table.get("KA"), Some("か"));
    assert_eq!(table.get("Ka"), Some("か"));
    assert_eq!(table.get("ki"), None);
    assert_eq!(table.get("KI"), None);
    assert_eq!(table.get_folded("ka"), Some("か"));
    assert_eq!(table.get_folded("KA"), None);
    assert_eq!(table.get_folded("KI"), Some("き"));

    assert!(table.graphemes.sukuon.has("tt"));
    assert!(table.graphemes.sukuon.has("TT"));
    assert!(table.graphemes.sukuon.has("tT"));
    assert!(table.graphemes.sukuon.has_folded("tt"));
    assert!(!table.graphemes.sukuon.has_folded("TT"));

    let spec = Spec {
        graphs: Vec::from([("ka", "か")]),
        ..Default::default()
    };
    assert_eq!(spec.get("KA"), Some("か"));
    assert_eq!(spec.get_folded("KA"), None);
    assert_eq!(spec.get_folded("ka"), Some("か"));
}
