use carparts::db::statement::{like_pattern, SqlParam};
use carparts::models::car::{Car, CarQuery, NewCar};
use carparts::models::part::{NewPart, Part, PartQuery};
use carparts::repositories::car::CarRepositoryImpl;
use carparts::repositories::part::PartRepositoryImpl;

#[test]
fn like_pattern_wraps_name_in_wildcards() {
    assert_eq!(like_pattern("Tesla"), "%Tesla%");
    assert_eq!(like_pattern(""), "%%");
    assert_eq!(like_pattern("Model 3"), "%Model 3%");
    // The name goes in as it is: its own wildcards are not escaped.
    assert_eq!(like_pattern("50%_off"), "%50%_off%");
}

#[test]
fn car_find_all_without_name_lists_every_car() {
    let st = CarRepositoryImpl::find_all_statement(&CarQuery { name: None });
    assert_eq!(st.sql, "SELECT * FROM cars");
    assert!(st.params.is_empty());
}

#[test]
fn car_find_all_with_name_filters_by_pattern() {
    let st = CarRepositoryImpl::find_all_statement(&CarQuery { name: Some("Tesla".to_string()) });
    assert_eq!(st.sql, "SELECT * FROM cars WHERE NAME LIKE $1");
    assert_eq!(st.params, vec![SqlParam::Text("%Tesla%".to_string())]);
}

#[test]
fn car_create_binds_new_data_in_column_order() {
    let car = NewCar { name: "Tesla".to_string(), color: Some("Red".to_string()), year: Some(2020) };
    let st = CarRepositoryImpl::create_statement(&car);
    assert_eq!(
        st.sql,
        "\n            INSERT INTO cars (name, color, year)\n            VALUES ($1, $2, $3)\n            RETURNING id, name, color, year\n            "
    );
    assert_eq!(
        st.params,
        vec![
            SqlParam::Text("Tesla".to_string()),
            SqlParam::OptionalText(Some("Red".to_string())),
            SqlParam::OptionalInt(Some(2020)),
        ]
    );
}

#[test]
fn car_create_binds_null_for_missing_fields() {
    let car = NewCar { name: "Tesla Model S".to_string(), color: None, year: None };
    let st = CarRepositoryImpl::create_statement(&car);
    assert_eq!(
        st.params,
        vec![
            SqlParam::Text("Tesla Model S".to_string()),
            SqlParam::OptionalText(None),
            SqlParam::OptionalInt(None),
        ]
    );
}

#[test]
fn car_update_binds_id_first_then_data() {
    let car = Car { id: 7, name: "Tesla Model 3".to_string(), color: Some("Blue".to_string()), year: Some(2021) };
    let st = CarRepositoryImpl::update_statement(&car);
    assert_eq!(
        st.sql,
        "\n            UPDATE cars\n            SET name = $2, color = $3, year = $4\n            WHERE id = $1\n            RETURNING id, name, color, year\n            "
    );
    assert_eq!(
        st.params,
        vec![
            SqlParam::Int(7),
            SqlParam::Text("Tesla Model 3".to_string()),
            SqlParam::OptionalText(Some("Blue".to_string())),
            SqlParam::OptionalInt(Some(2021)),
        ]
    );
    // The data part is what creating the same car writes.
    let created = CarRepositoryImpl::create_statement(&NewCar {
        name: car.name.clone(),
        color: car.color.clone(),
        year: car.year,
    });
    assert_eq!(st.params[1..].to_vec(), created.params);
}

#[test]
fn car_delete_and_find_by_id_bind_the_id() {
    let del = CarRepositoryImpl::delete_statement(42);
    assert_eq!(del.sql, "DELETE FROM cars WHERE id = $1");
    assert_eq!(del.params, vec![SqlParam::Int(42)]);
    let find = CarRepositoryImpl::find_by_id_statement(42);
    assert_eq!(find.sql, "SELECT * FROM cars WHERE id = $1");
    assert_eq!(find.params, del.params);
}

#[test]
fn part_find_all_statements() {
    let all = PartRepositoryImpl::find_all_statement(&PartQuery { name: None });
    assert_eq!(all.sql, "SELECT * FROM parts");
    assert!(all.params.is_empty());
    let some = PartRepositoryImpl::find_all_statement(&PartQuery { name: Some("wheel".to_string()) });
    assert_eq!(some.sql, "SELECT * FROM parts WHERE NAME LIKE $1");
    assert_eq!(some.params, vec![SqlParam::Text("%wheel%".to_string())]);
}

#[test]
fn part_create_and_update_statements() {
    let created = PartRepositoryImpl::create_statement(&NewPart { name: "wheel".to_string(), car_id: Some(1) });
    assert_eq!(created.sql, "\n            INSERT INTO parts (name, car_id)\n            VALUES ($1, $2)\n            RETURNING id, name, car_id\n            ");
    assert_eq!(created.params, vec![SqlParam::Text("wheel".to_string()), SqlParam::OptionalInt(Some(1))]);
    let updated = PartRepositoryImpl::update_statement(&Part { id: 3, name: "wheel".to_string(), car_id: Some(1) });
    assert_eq!(updated.sql, "\n            UPDATE parts\n            SET name = $2, car_id = $3\n            WHERE id = $1\n            RETURNING id, name, car_id\n            ");
    assert_eq!(
        updated.params,
        vec![SqlParam::Int(3), SqlParam::Text("wheel".to_string()), SqlParam::OptionalInt(Some(1))]
    );
    assert_eq!(updated.params[1..].to_vec(), created.params);
    let unattached = PartRepositoryImpl::create_statement(&NewPart { name: "bolt".to_string(), car_id: None });
    assert_eq!(unattached.params, vec![SqlParam::Text("bolt".to_string()), SqlParam::OptionalInt(None)]);
}

#[test]
fn part_delete_and_find_by_id_bind_the_id() {
    let del = PartRepositoryImpl::delete_statement(-1);
    assert_eq!(del.sql, "DELETE FROM parts WHERE id = $1");
    assert_eq!(del.params, vec![SqlParam::Int(-1)]);
    let find = PartRepositoryImpl::find_by_id_statement(-1);
    assert_eq!(find.sql, "SELECT * FROM parts WHERE id = $1");
    assert_eq!(find.params, del.params);
}

#[test]
fn sql_param_helpers_copy_values() {
    let name = "Tesla".to_string();
    assert_eq!(SqlParam::text(&name), SqlParam::Text("Tesla".to_string()));
    assert_eq!(SqlParam::optional_text(&Some(name)), SqlParam::OptionalText(Some("Tesla".to_string())));
    assert_eq!(SqlParam::optional_text(&None), SqlParam::OptionalText(None));
}
