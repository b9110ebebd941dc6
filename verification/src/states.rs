//! The states of the machine over supplied kana tables, one type each.

pub mod choonpu;
pub mod digraph;
pub mod kana_toggle;
pub mod long;
pub mod long_digraph;
pub mod medium;
pub mod monograph;
pub mod nasal;
pub mod short;
pub mod sukuon;
pub mod syllabogram;
pub mod tiny;
pub mod toggle;

pub use choonpu::Choonpu;
pub use choonpu::SIZE as CHOONPU_SIZE;
pub use digraph::Digraph;
pub use kana_toggle::KanaToggle;
pub use long::SIZE as LONG_SIZE;
pub use long_digraph::LongDigraph;
pub use medium::SIZE as MEDIUM_SIZE;
pub use monograph::Monograph;
pub use nasal::Nasal;
pub use short::SIZE as SHORT_SIZE;
pub use sukuon::Sukuon;
pub use sukuon::SIZE as SUKUON_SIZE;
pub use syllabogram::Syllabogram;
pub use tiny::SIZE as TINY_SIZE;
pub use toggle::Toggle;
