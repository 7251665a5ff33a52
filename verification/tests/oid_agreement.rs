use mongodb::bson::oid::ObjectId;
use user_service::parse_object_id;

#[test]
fn identifier_parsing_agrees_with_the_driver() {
    let cases = [
        "000000000000000000000000",
        "507f1f77bcf86cd799439011",
        "ABCDEF0000000000000000AA",
        "ffffffffffffffffffffffff",
        "not-an-id",
        "",
        "00000000000000000000000",
        "0000000000000000000000000",
        "00000000000000000000000g",
    ];
    for s in cases {
        assert_eq!(
            parse_object_id(s).is_some(),
            ObjectId::parse_str(s).is_ok(),
            "disagreement on {:?}",
            s
        );
    }
}

#[test]
fn text_form_agrees_with_the_driver() {
    let s = "507f1f77bcf86cd799439011";
    let ours = parse_object_id(s).unwrap();
    let theirs = ObjectId::parse_str(s).unwrap();
    assert_eq!(ours.to_hex(), theirs.to_hex());
}

#[test]
fn parsed_value_matches_the_driver_bytes() {
    let s = "507f1f77bcf86cd799439011";
    let ours = parse_object_id(s).unwrap();
    let theirs = ObjectId::parse_str(s).unwrap();
    let mut v: u128 = 0;
    for b in theirs.bytes() {
        v = (v << 8) | b as u128;
    }
    assert_eq!(ours.value, v);
}
