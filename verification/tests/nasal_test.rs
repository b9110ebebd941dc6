use kana::machine::{Next, Previous};
use kana::states::kana_toggle::TYPE;
use kana::states::{Choonpu, Monograph, Nasal, Sukuon, Toggle};
use kana::table::{Grapheme, Graphemes, KanaTable};

#[test]
fn nasal_test_small_word() {
    let current = Nasal("", None);
    let table = KanaTable::default();
    let next = current.next(&table);

    assert_eq!((None, None), next);
}

#[test]
fn nasal_test_no_match() {
    let current = Nasal("a", None);
    let table = KanaTable::default();
    let (result, next) = current.next(&table);

    // This state returns the query itself if nothing is found, since it's essentially the
    // last parsing step, this way preserving untranslatable characters of the word.
    assert_eq!(result, Some("a"));
    assert_eq!(next, Toggle::<TYPE>("", None, false).into());
}

#[test]
fn nasal_test_regular_match() {
    let current = Nasal("abc", None);
    let table = KanaTable {
        syllabograms: Vec::from([("a", "@")]),
        ..Default::default()
    };
    let (result, next) = current.next(&table);

    assert_eq!(result, Some("@"));
    assert_eq!(next, Toggle::<TYPE>("bc", None, false).into());
}

#[test]
fn nasal_test_match_with_choonpu() {
    let current = Nasal("oomen", None);
    let table = KanaTable {
        syllabograms: Vec::from([("o", "@")]),
        graphemes: Graphemes {
            choonpu: Some(Grapheme {
                matches: Vec::from(["oo"]),
                graph: "!",
            }),
            ..Default::default()
        },
        ..Default::default()
    };
    let (result, next) = current.next(&table);

    assert_eq!(result, Some("@"));
    assert_eq!(next, Choonpu("oomen", None, false).into());
}

#[test]
fn nasal_test_prev_monograph() {
    assert_eq!(
        Nasal::prev(Monograph("testing", None)),
        Nasal("testing", None),
    );
    assert_eq!(
        Nasal::prev(Monograph("testing", Some('@'))),
        Nasal("testing", Some('@')),
    );
}

#[test]
fn nasal_test_prev_sukuon() {
    assert_eq!(Nasal::prev(Sukuon("testing", None)), Nasal("testing", None));
    assert_eq!(
        Nasal::prev(Sukuon("testing", Some('@'))),
        Nasal("testing", Some('@')),
    );
}

#[test]
fn nasal_test_prev_choonpu() {
    assert_eq!(
        Nasal::prev(Choonpu("testing", None, false)),
        Nasal("esting", None),
    );
    assert_eq!(
        Nasal::prev(Choonpu("testing", Some('@'), false)),
        Nasal("esting", Some('@')),
    );
}
