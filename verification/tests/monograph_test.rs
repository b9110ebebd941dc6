use kana::machine::{Next, Previous};
use kana::states::kana_toggle::TYPE;
use kana::states::{Choonpu, Digraph, Monograph, Nasal, Toggle};
use kana::table::{Grapheme, Graphemes, KanaTable};

#[test]
fn monograph_test_small_word() {
    let current = Monograph("あ", None);
    let table = KanaTable::default();
    let (result, next) = current.next(&table);

    assert_eq!(result, None);
    assert_eq!(next, Nasal("あ", None).into());
}

#[test]
fn monograph_test_no_match() {
    let current = Monograph("alo", None);
    let table = KanaTable::default();
    let (result, next) = current.next(&table);

    assert_eq!(result, None);
    assert_eq!(next, Nasal("alo", None).into());
}

#[test]
fn monograph_test_regular_match() {
    let current = Monograph("test", None);
    let table = KanaTable {
        syllabograms: Vec::from([("te", "@")]),
        ..Default::default()
    };
    let (result, next) = current.next(&table);

    assert_eq!(result, Some("@"));
    assert_eq!(next, Toggle::<TYPE>("st", None, false).into());
}

#[test]
fn monograph_test_match_with_choonpu() {
    let current = Monograph("oii", None);
    let table = KanaTable {
        syllabograms: Vec::from([("oi", "@")]),
        graphemes: Graphemes {
            choonpu: Some(Grapheme {
                matches: Vec::from(["ii"]),
                graph: "!",
            }),
            ..Default::default()
        },
        ..Default::default()
    };
    let (result, next) = current.next(&table);

    assert_eq!(result, Some("@"));
    assert_eq!(next, Choonpu("ii", None, false).into());
}

#[test]
fn monograph_test_prev_digraph() {
    assert_eq!(
        Monograph::prev(Digraph("testing", None)),
        Monograph("testing", None),
    );
    assert_eq!(
        Monograph::prev(Digraph("testing", Some('@'))),
        Monograph("testing", Some('@')),
    );
}
