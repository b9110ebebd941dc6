use kana::machine::Next;
use kana::states::{Choonpu, LongDigraph, Sukuon};
use kana::table::{Grapheme, Graphemes, KanaTable};

#[test]
fn long_digraph_test_small_word() {
    let current = LongDigraph("テスト");
    let table = KanaTable::default();
    let (result, next) = current.next(&table);

    assert_eq!(result, None);
    assert_eq!(next, Sukuon("テスト", None).into());
}

#[test]
fn long_digraph_test_no_match() {
    let current = LongDigraph("testing");
    let table = KanaTable::default();
    let (result, next) = current.next(&table);

    assert_eq!(result, None);
    assert_eq!(next, Sukuon("testing", None).into());
}

#[test]
fn long_digraph_test_regular_match() {
    let current = LongDigraph("testing");
    let table = KanaTable {
        syllabograms: Vec::from([("test", "@")]),
        ..Default::default()
    };
    let (result, next) = current.next(&table);

    assert_eq!(result, Some("@"));
    assert_eq!(next, LongDigraph("ing").into());
}

#[test]
fn long_digraph_test_match_with_choonpu() {
    let current = LongDigraph("yahoo");
    let table = KanaTable {
        syllabograms: Vec::from([("yaho", "@")]),
        graphemes: Graphemes {
            choonpu: Some(Grapheme {
                matches: Vec::from(["oo"]),
                graph: "!",
            }),
            ..Default::default()
        },
        ..Default::default()
    };
    let (result, next) = current.next(&table);

    assert_eq!(result, Some("@"));
    assert_eq!(next, Choonpu("oo", None, false).into());
}
