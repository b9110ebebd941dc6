use kana::machine::{Next, Previous};
use kana::states::medium::SIZE;
use kana::states::kana_toggle::TYPE;
use kana::states::{Choonpu, Sukuon, Syllabogram, Toggle, SHORT_SIZE};
use kana::table::{Grapheme, Graphemes, KanaTable};

#[test]
fn medium_test_small_word() {
    let current = Syllabogram::<SIZE>("oi", None);
    let table = KanaTable::default();
    let (result, next) = current.next(&table);

    assert_eq!(result, None);
    assert_eq!(next, Syllabogram::<SHORT_SIZE>("oi", None).into());
}

#[test]
fn medium_test_no_match() {
    let current = Syllabogram::<SIZE>("alo", None);
    let table = KanaTable::default();
    let (result, next) = current.next(&table);

    assert_eq!(result, None);
    assert_eq!(next, Syllabogram::<SHORT_SIZE>("alo", None).into());
}

#[test]
fn medium_test_regular_match() {
    let current = Syllabogram::<SIZE>("foobar", None);
    let table = KanaTable {
        syllabograms: Vec::from([("foo", "@")]),
        ..Default::default()
    };
    let (result, next) = current.next(&table);

    assert_eq!(result, Some("@"));
    assert_eq!(next, Toggle::<TYPE>("bar", None, false).into());
}

#[test]
fn medium_test_match_with_choonpu() {
    let current = Syllabogram::<SIZE>("olaa", None);
    let table = KanaTable {
        syllabograms: Vec::from([("ola", "@")]),
        graphemes: Graphemes {
            choonpu: Some(Grapheme {
                matches: Vec::from(["aa"]),
                graph: "!",
            }),
            ..Default::default()
        },
        ..Default::default()
    };
    let (result, next) = current.next(&table);

    assert_eq!(result, Some("@"));
    assert_eq!(next, Choonpu("aa", None, false).into());
}

#[test]
fn medium_test_prev_sukuon() {
    assert_eq!(
        Syllabogram::<SIZE>::prev(Sukuon("testing", None)),
        Syllabogram::<SIZE>("testing", None)
    );
    assert_eq!(
        Syllabogram::<SIZE>::prev(Sukuon("testing", Some('@'))),
        Syllabogram::<SIZE>("testing", Some('@')),
    );
}
