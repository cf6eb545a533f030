//! End-to-end conversions: digits, whole words with conjuncts and folas,
//! and a full sentence with whitespace and punctuation.

use dhoni::convert_to_phonetic;

#[test]
fn numbers() {
    assert_eq!(
        convert_to_phonetic(
            "\u{09E6}\u{09E7}\u{09E8}\u{09E9}\u{09EA}\u{09EB}\u{09EC}\u{09ED}\u{09EE}\u{09EF}"
        ),
        "0123456789"
    );
}

#[test]
fn word() {
    assert_eq!(convert_to_phonetic("\u{0986}\u{09AE}\u{09BF}"), "ami");
    assert_eq!(convert_to_phonetic("\u{098B}\u{09A4}\u{09C1}"), "rritu");
    assert_eq!(convert_to_phonetic("\u{0993}\u{09B7}\u{09C1}\u{09A7}"), "oxudh");
    assert_eq!(
        convert_to_phonetic("\u{09B8}\u{0982}\u{0996}\u{09CD}\u{09AF}\u{09BE}"),
        "sngkhya"
    );
    assert_eq!(
        convert_to_phonetic("\u{0995}\u{09CD}\u{09B7}\u{09C1}\u{09A7}\u{09BE}"),
        "kkhudha"
    );
    assert_eq!(convert_to_phonetic("\u{09AC}\u{09BF}\u{09B6}\u{09CD}\u{09AC}"), "bisw");
    assert_eq!(convert_to_phonetic("\u{09AA}\u{09A6}\u{09CD}\u{09AE}"), "pdm");
    assert_eq!(
        convert_to_phonetic(
            "\u{099C}\u{09BF}\u{09A4}\u{09C7}\u{09A8}\u{09CD}\u{09A6}\u{09CD}\u{09B0}"
        ),
        "jitendr"
    );
    assert_eq!(
        convert_to_phonetic("\u{09AC}\u{09BF}\u{09A6}\u{09CD}\u{09AC}\u{09BE}\u{09A8}"),
        "bidwan"
    );
    assert_eq!(convert_to_phonetic("\u{099A}\u{09BE}\u{0981}\u{09A6}"), "cad");
}

#[test]
fn sentence() {
    assert_eq!(
        convert_to_phonetic(
            "\u{0986}\u{09AE}\u{09BE}\u{09A6}\u{09C7}\u{09B0} \
             \u{09AD}\u{09BE}\u{09B2}\u{09CB}\u{09AC}\u{09BE}\u{09B8}\u{09BE} \
             \u{09B9}\u{09DF}\u{09C7} \u{0997}\u{09C7}\u{09B2} \u{0998}\u{09BE}\u{09B8}, \
             \u{0996}\u{09C7}\u{09DF}\u{09C7} \u{0997}\u{09C7}\u{09B2} \
             \u{0997}\u{09B0}\u{09C1} \u{0986}\u{09B0} \u{09A6}\u{09BF}\u{09DF}\u{09C7} \
             \u{0997}\u{09C7}\u{09B2} \u{09AC}\u{09BE}\u{0981}\u{09B6}"
        ),
        "amader bhalobasa hye gel ghas, kheye gel gru ar diye gel bas"
    );
}
