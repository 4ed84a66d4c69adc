use crudy::crud_helper::CrudHelper;
use crudy::crudy_error::CrudyError;
use crudy::statement::ClientCall;

const KEY: u128 = 0x936da01f_9abd_4d9d_80c7_02af85c822a8;

#[test]
fn get_by_str_id_refuses_text_that_is_no_uuid() {
    let planned = CrudHelper::new().get_by_str_id("widgets", "not-a-uuid");
    assert!(matches!(planned, Err(CrudyError::ParseUuidError(_))));
}

#[test]
fn get_by_str_id_refuses_empty_text() {
    let planned = CrudHelper::new().get_by_str_id("widgets", "");
    assert!(matches!(planned, Err(CrudyError::ParseUuidError(_))));
}

#[test]
fn get_by_str_id_refuses_a_uuid_with_a_wrong_digit() {
    let planned =
        CrudHelper::new().get_by_str_id("widgets", "936da01f-9abd-4d9d-80c7-02af85c822ag");
    assert!(matches!(planned, Err(CrudyError::ParseUuidError(_))));
}

#[test]
fn get_by_str_id_reads_a_hyphenated_uuid() {
    let (statement, key) = CrudHelper::new()
        .get_by_str_id("widgets", "936da01f-9abd-4d9d-80c7-02af85c822a8")
        .unwrap();
    assert_eq!(key, KEY);
    assert_eq!(statement.sql, "SELECT * FROM \"public\".widgets WHERE id = $1");
    assert_eq!(statement.params, 1);
    assert_eq!(statement.call, ClientCall::QueryOptional);
}

#[test]
fn get_by_str_id_reads_the_other_spellings_of_a_uuid() {
    let helper = CrudHelper::with_schema("shop");
    for text in [
        "936da01f9abd4d9d80c702af85c822a8",
        "936DA01F-9ABD-4D9D-80C7-02AF85C822A8",
        "{936da01f-9abd-4d9d-80c7-02af85c822a8}",
        "urn:uuid:936da01f-9abd-4d9d-80c7-02af85c822a8",
    ] {
        let (statement, key) = helper.get_by_str_id("widgets", text).unwrap();
        assert_eq!(key, KEY);
        assert_eq!(statement.sql, "SELECT * FROM \"shop\".widgets WHERE id = $1");
    }
}

#[test]
fn get_by_str_id_agrees_with_the_uuid_crate() {
    let text = "a1a2a3a4-b1b2-c1c2-d1d2-d3d4d5d6d7d8";
    let (_, key) = CrudHelper::new().get_by_str_id("widgets", text).unwrap();
    assert_eq!(key, 0xa1a2a3a4b1b2c1c2d1d2d3d4d5d6d7d8);
    assert_eq!(uuid::Uuid::from_u128(key), uuid::Uuid::parse_str(text).unwrap());
    assert_eq!(uuid::Uuid::from_u128(key).to_string(), text);
}

#[test]
fn get_by_parsed_id_keeps_the_key_that_was_read() {
    let (statement, key) = CrudHelper::new().get_by_parsed_id("widgets", Ok(7)).unwrap();
    assert_eq!(key, 7);
    assert_eq!(statement.sql, "SELECT * FROM \"public\".widgets WHERE id = $1");
}

#[test]
fn get_by_parsed_id_hands_the_refusal_on() {
    let refusal = uuid::Uuid::parse_str("zz").unwrap_err();
    let shown = refusal.to_string();
    match CrudHelper::new().get_by_parsed_id("widgets", Err(refusal)) {
        Err(CrudyError::ParseUuidError(error)) => assert_eq!(error.to_string(), shown),
        other => panic!("expected a refusal, got {:?}", other),
    }
}
