use crudy::crud_helper::CrudHelper;
use crudy::statement::{ClientCall, Statement};

fn check(statement: Statement, sql: &str, params: usize, call: ClientCall) {
    assert_eq!(statement.sql, sql);
    assert_eq!(statement.params, params);
    assert_eq!(statement.call, call);
}

#[test]
fn get_all_selects_every_row() {
    check(
        CrudHelper::new().get_all("widgets"),
        "SELECT * FROM \"public\".widgets",
        0,
        ClientCall::Query,
    );
}

#[test]
fn get_all_names_the_schema_of_the_helper() {
    check(
        CrudHelper::with_schema("shop").get_all("orders"),
        "SELECT * FROM \"shop\".orders",
        0,
        ClientCall::Query,
    );
}

#[test]
fn get_all_ordered_appends_the_ordering() {
    check(
        CrudHelper::new().get_all_ordered("widgets", "name DESC, id"),
        "SELECT * FROM \"public\".widgets ORDER BY name DESC, id",
        0,
        ClientCall::Query,
    );
}

#[test]
fn get_first_limits_to_one_row() {
    check(
        CrudHelper::new().get_first("widgets"),
        "SELECT * FROM \"public\".widgets LIMIT 1",
        0,
        ClientCall::QueryOptional,
    );
}

#[test]
fn get_by_filters_on_one_field() {
    check(
        CrudHelper::new().get_by("widgets", "name"),
        "SELECT * FROM \"public\".widgets WHERE name = $1",
        1,
        ClientCall::QueryOptional,
    );
}

#[test]
fn get_by_2_joins_two_predicates() {
    check(
        CrudHelper::new().get_by_2("widgets", "name", "colour"),
        "SELECT * FROM \"public\".widgets WHERE name = $1 AND colour = $2",
        2,
        ClientCall::QueryOptional,
    );
}

#[test]
fn get_by_3_joins_three_predicates() {
    check(
        CrudHelper::with_schema("shop").get_by_3("widgets", "name", "colour", "size"),
        "SELECT * FROM \"shop\".widgets WHERE name = $1 AND colour = $2 AND size = $3",
        3,
        ClientCall::QueryOptional,
    );
}

#[test]
fn placeholders_follow_the_order_of_the_fields() {
    let helper = CrudHelper::new();
    assert_eq!(
        helper.get_by_2("t", "b", "a").sql,
        "SELECT * FROM \"public\".t WHERE b = $1 AND a = $2"
    );
    assert_eq!(
        helper.get_by_2("t", "a", "b").sql,
        "SELECT * FROM \"public\".t WHERE a = $1 AND b = $2"
    );
}

#[test]
fn get_is_get_by_on_the_id() {
    let helper = CrudHelper::with_schema("shop");
    let by_id = helper.get_by("widgets", "id");
    check(helper.get("widgets"), &by_id.sql, by_id.params, by_id.call);
    check(
        helper.get("widgets"),
        "SELECT * FROM \"shop\".widgets WHERE id = $1",
        1,
        ClientCall::QueryOptional,
    );
}

#[test]
fn get_specific_fields_puts_the_columns_in_place_of_the_star() {
    check(
        CrudHelper::new().get_specific_fields("widgets", "id, name"),
        "SELECT id, name FROM \"public\".widgets WHERE id = $1",
        1,
        ClientCall::QueryOptional,
    );
}

#[test]
fn get_specific_fields_by_filters_on_the_given_field() {
    check(
        CrudHelper::new().get_specific_fields_by("widgets", "id, name", "name"),
        "SELECT id, name FROM \"public\".widgets WHERE name = $1",
        1,
        ClientCall::QueryOptional,
    );
}

#[test]
fn get_many_by_without_an_ordering_has_no_order_clause() {
    check(
        CrudHelper::new().get_many_by("widgets", "colour", None),
        "SELECT * FROM \"public\".widgets WHERE colour = $1",
        1,
        ClientCall::Query,
    );
}

#[test]
fn get_many_by_with_an_ordering_appends_it() {
    check(
        CrudHelper::new().get_many_by("widgets", "colour", Some("name")),
        "SELECT * FROM \"public\".widgets WHERE colour = $1 ORDER BY name",
        1,
        ClientCall::Query,
    );
}

#[test]
fn get_many_by_2_without_an_ordering_has_no_order_clause() {
    check(
        CrudHelper::new().get_many_by_2("widgets", "colour", "size", None),
        "SELECT * FROM \"public\".widgets WHERE colour = $1 AND size = $2",
        2,
        ClientCall::Query,
    );
}

#[test]
fn get_many_by_2_with_an_ordering_appends_it() {
    check(
        CrudHelper::with_schema("shop").get_many_by_2("widgets", "colour", "size", Some("id DESC")),
        "SELECT * FROM \"shop\".widgets WHERE colour = $1 AND size = $2 ORDER BY id DESC",
        2,
        ClientCall::Query,
    );
}

#[test]
fn delete_removes_by_id() {
    check(
        CrudHelper::new().delete("widgets"),
        "DELETE FROM \"public\".widgets WHERE id = $1",
        1,
        ClientCall::Execute,
    );
}

#[test]
fn names_are_copied_without_any_change() {
    check(
        CrudHelper::with_schema("my \"schema").get_by("Weird Table", "a field"),
        "SELECT * FROM \"my \"schema\".Weird Table WHERE a field = $1",
        1,
        ClientCall::QueryOptional,
    );
}

#[test]
fn empty_names_leave_their_place_empty() {
    check(
        CrudHelper::with_schema("").get_many_by("", "", Some("")),
        "SELECT * FROM \"\". WHERE  = $1 ORDER BY ",
        1,
        ClientCall::Query,
    );
}
