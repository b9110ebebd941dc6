//! The katakana syllabary, its extension for sounds foreign to Japanese, and
//! the small vowels.

use vstd::prelude::*;

verus! {

/// The katakana syllabary, by romaji key.
pub const SYLLABARY: [(&'static str, &'static str); 109] = [
    // Vowels
    ("a", "ア"),
    ("i", "イ"),
    ("u", "ウ"),
    ("e", "エ"),
    ("o", "オ"),
    // The k row
    ("ka", "カ"),
    ("ki", "キ"),
    ("ku", "ク"),
    ("ke", "ケ"),
    ("ko", "コ"),
    ("kya", "キャ"),
    ("kyu", "キュ"),
    ("kyo", "キョ"),
    // The s row
    ("sa", "サ"),
    ("shi", "シ"),
    ("su", "ス"),
    ("se", "セ"),
    ("so", "ソ"),
    ("sha", "シャ"),
    ("shu", "シュ"),
    ("sho", "ショ"),
    // The t row
    ("ta", "タ"),
    ("chi", "チ"),
    ("tsu", "ツ"),
    ("te", "テ"),
    ("to", "ト"),
    ("cha", "チャ"),
    ("chu", "チュ"),
    ("cho", "チョ"),
    // The n row
    ("na", "ナ"),
    ("ni", "ニ"),
    ("nu", "ヌ"),
    ("ne", "ネ"),
    ("no", "ノ"),
    ("nya", "ニャ"),
    ("nyu", "ニュ"),
    ("nyo", "ニョ"),
    // The h row
    ("ha", "ハ"),
    ("hi", "ヒ"),
    ("fu", "フ"),
    ("he", "ヘ"),
    ("ho", "ホ"),
    ("hya", "ヒャ"),
    ("hyu", "ヒュ"),
    ("hyo", "ヒョ"),
    // The m row
    ("ma", "マ"),
    ("mi", "ミ"),
    ("mu", "ム"),
    ("me", "メ"),
    ("mo", "モ"),
    ("mya", "ミャ"),
    ("myu", "ミュ"),
    ("myo", "ミョ"),
    // The y row
    ("ya", "ヤ"),
    ("yu", "ユ"),
    ("yo", "ヨ"),
    // The r row
    ("ra", "ラ"),
    ("ri", "リ"),
    ("ru", "ル"),
    ("re", "レ"),
    ("ro", "ロ"),
    ("rya", "リャ"),
    ("ryu", "リュ"),
    ("ryo", "リョ"),
    // The w row
    ("wa", "ワ"),
    ("wi", "ヰ"),
    ("we", "ヱ"),
    ("wo", "ヲ"),
    // The g row
    ("ga", "ガ"),
    ("gi", "ギ"),
    ("gu", "グ"),
    ("ge", "ゲ"),
    ("go", "ゴ"),
    ("gya", "ギャ"),
    ("gyu", "ギュ"),
    ("gyo", "ギョ"),
    // The z row
    ("za", "ザ"),
    ("ji", "ジ"),
    ("zu", "ズ"),
    ("ze", "ゼ"),
    ("zo", "ゾ"),
    ("ja", "ジャ"),
    ("ju", "ジュ"),
    ("jo", "ジョ"),
    // The d row
    ("da", "ダ"),
    ("dji", "ヂ"),
    ("dzu", "ヅ"),
    ("de", "デ"),
    ("do", "ド"),
    ("dja", "ヂャ"),
    ("dju", "ヂュ"),
    ("djo", "ヂョ"),
    // The b row
    ("ba", "バ"),
    ("bi", "ビ"),
    ("bu", "ブ"),
    ("be", "ベ"),
    ("bo", "ボ"),
    ("bya", "ビャ"),
    ("byu", "ビュ"),
    ("byo", "ビョ"),
    // The p row
    ("pa", "パ"),
    ("pi", "ピ"),
    ("pu", "プ"),
    ("pe", "ペ"),
    ("po", "ポ"),
    ("pya", "ピャ"),
    ("pyu", "ピュ"),
    ("pyo", "ピョ"),
    // The moraic nasal
    ("n", "ン"),
];

/// Syllables that only loanwords use. Where a key stands in both tables, the
/// extended syllabary is the one that counts once it is switched on.
pub const EXTENDED_SYLLABARY: [(&'static str, &'static str); 64] = [
    ("yi", "イィ"),
    ("ye", "イェ"),
    ("wi", "ウィ"),
    ("we", "ウェ"),
    ("wo", "ウォ"),
    ("wu", "ウゥ"),
    ("va", "ヴァ"),
    ("vi", "ヴィ"),
    ("vu", "ヴ"),
    ("ve", "ヴェ"),
    ("vo", "ヴォ"),
    ("vya", "ヴャ"),
    ("vyu", "ヴュ"),
    ("vye", "ヴィェ"),
    ("vyo", "ヴョ"),
    ("kye", "キェ"),
    ("gye", "ギェ"),
    ("kwa", "クァ"),
    ("kwi", "クィ"),
    ("kwe", "クェ"),
    ("kwo", "クォ"),
    ("gwa", "グァ"),
    ("gwi", "グィ"),
    ("gwe", "グェ"),
    ("gwo", "グォ"),
    ("she", "シェ"),
    ("je", "ジェ"),
    ("si", "スィ"),
    ("zi", "ズィ"),
    ("tsa", "ツァ"),
    ("tsi", "ツィ"),
    ("tse", "ツェ"),
    ("tso", "ツォ"),
    ("tsyu", "ツュ"),
    ("ti", "ティ"),
    ("tu", "トゥ"),
    ("tyu", "テュ"),
    ("di", "ディ"),
    ("du", "ドゥ"),
    ("dyu", "デュ"),
    ("nye", "ニェ"),
    ("hye", "ヒェ"),
    ("bye", "ビェ"),
    ("pye", "ピェ"),
    ("fa", "ファ"),
    ("fi", "フィ"),
    ("fe", "フェ"),
    ("fo", "フォ"),
    ("fya", "フャ"),
    ("fyu", "フュ"),
    ("fye", "フィェ"),
    ("fyo", "フョ"),
    ("hu", "ホゥ"),
    ("mye", "ミェ"),
    ("rye", "リェ"),
    ("la", "ラ゜"),
    ("li", "リ゜"),
    ("lu", "ル゜"),
    ("le", "レ゜"),
    ("lo", "ロ゜"),
    ("lya", "リ゜ャ"),
    ("lyu", "リ゜ュ"),
    ("lye", "リ゜ェ"),
    ("lyo", "リ゜ョ"),
];

/// The small form of each vowel.
pub const SMALL_VOWELS: [(&'static str, &'static str); 5] = [
    ("a", "ァ"),
    ("i", "ィ"),
    ("u", "ゥ"),
    ("e", "ェ"),
    ("o", "ォ"),
];

/// The katakana mark for a doubled consonant.
pub const SOKUON_GRAPH: &'static str = "ッ";

} // verus!
