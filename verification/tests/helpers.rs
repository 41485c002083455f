use cw721::helpers::value_or_empty;

#[test]
fn value_or_empty_names_the_empty_text() {
    assert_eq!(value_or_empty(""), "empty");
    assert_eq!(value_or_empty("ipfs://a"), "ipfs://a");
    assert_eq!(value_or_empty(" "), " ");
}
