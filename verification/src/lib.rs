//! Converts Bengali script text into a Latin phonetic rendering
//! ("Banglish"), close to the conventions of the Avro Phonetic scheme.
//!
//! The library is a pure text transform: `convert_to_phonetic` walks the
//! input's characters once, left to right, testing a few multi-character
//! conjunct patterns before falling back to a single-character phoneme
//! table, passing ASCII whitespace and punctuation through unchanged, and
//! dropping everything else.
//!
//! The whole transform is specified by the spec function
//! [`scanner::phonetic`], and `convert_to_phonetic` is proved to return
//! exactly that sequence of characters. The module [`laws`] states and
//! proves the general guarantees: digit strings render one digit for one,
//! whitespace and punctuation survive in order, and the conjunct and fola
//! rules take precedence over the plain table lookup.

pub mod laws;
pub mod scanner;
pub mod table;

pub use scanner::convert_to_phonetic;
pub use table::letter_map;
