use kana::machine::{Next, Previous};
use kana::states::kana_toggle::TYPE;
use kana::states::{Choonpu, Digraph, Monograph, Sukuon, Toggle};
use kana::table::{Grapheme, Graphemes, KanaTable};

#[test]
fn digraph_test_small_word() {
    let current = Digraph("oi", None);
    let table = KanaTable::default();
    let (result, next) = current.next(&table);

    assert_eq!(result, None);
    assert_eq!(next, Monograph("oi", None).into());
}

#[test]
fn digraph_test_no_match() {
    let current = Digraph("alo", None);
    let table = KanaTable::default();
    let (result, next) = current.next(&table);

    assert_eq!(result, None);
    assert_eq!(next, Monograph("alo", None).into());
}

#[test]
fn digraph_test_regular_match() {
    let current = Digraph("foobar", None);
    let table = KanaTable {
        syllabograms: Vec::from([("foo", "@")]),
        ..Default::default()
    };
    let (result, next) = current.next(&table);

    assert_eq!(result, Some("@"));
    assert_eq!(next, Toggle::<TYPE>("bar", None, false).into());
}

#[test]
fn digraph_test_match_with_choonpu() {
    let current = Digraph("olaa", None);
    let table = KanaTable {
        syllabograms: Vec::from([("ola", "@")]),
        graphemes: Graphemes {
            choonpu: Some(Grapheme {
                matches: Vec::from(["aa"]),
                graph: "!",
            }),
            ..Default::default()
        },
        ..Default::default()
    };
    let (result, next) = current.next(&table);

    assert_eq!(result, Some("@"));
    assert_eq!(next, Choonpu("aa", None, false).into());
}

#[test]
fn digraph_test_prev_sukuon() {
    assert_eq!(
        Digraph::prev(Sukuon("testing", None)),
        Digraph("testing", None)
    );
    assert_eq!(
        Digraph::prev(Sukuon("testing", Some('@'))),
        Digraph("testing", Some('@')),
    );
}
