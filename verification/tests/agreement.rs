use headless_cms::database::statement::{BindValue, UpdateBuilder};
use headless_cms::database::{category_repository, content_statements, tag_repository};
use headless_cms::ident::EntityId;
use headless_cms::model::content::ContentStatus;
use headless_cms::model::field::Field;
use headless_cms::model::field_meta::FieldType;
use headless_cms::repository::category::UpdateCategory;
use headless_cms::repository::content::UpdateContent;
use headless_cms::repository::tag::UpdateTag;

const X: &str = "0192f3a0-1111-7000-8000-000000000001";

/// The text that the query builder of the driver writes for a list of
/// assignments, each bound to the next placeholder, and a last bound
/// value.
fn driver_text(head: &str, columns: &[&str], condition: &str, tail: &str) -> String {
    let mut query_builder = sqlx::QueryBuilder::<sqlx::Postgres>::new(head);
    let mut separated = query_builder.separated(",");
    for column in columns {
        separated.push(format!("{} = ", column));
        separated.push_bind_unseparated(String::from("value"));
    }
    query_builder.push(condition);
    query_builder.push_bind(uuid::Uuid::parse_str(X).unwrap());
    query_builder.push(tail);
    query_builder.sql().to_string()
}

#[test]
fn category_update_reads_as_the_driver_writes_it() {
    for (name, api, description) in [
        (true, false, false),
        (false, true, false),
        (false, false, true),
        (true, true, false),
        (true, false, true),
        (false, true, true),
        (true, true, true),
    ] {
        let pick = |present: bool| if present { Some("value".to_string()) } else { None };
        let data = UpdateCategory::new(X.into(), pick(name), pick(api), pick(description));
        let mut columns = Vec::new();
        if name {
            columns.push("name");
        }
        if api {
            columns.push("api_identifier");
        }
        if description {
            columns.push("description");
        }
        let statement = category_repository::update(data).unwrap();
        assert_eq!(
            statement.sql,
            driver_text("UPDATE category SET ", &columns, " WHERE id = ", " RETURNING *")
        );
        assert_eq!(statement.binds.len(), columns.len() + 1);
    }
}

#[test]
fn tag_update_reads_as_the_driver_writes_it() {
    let data = UpdateTag::new(X.into(), Some("value".into()), Some("value".into()));
    assert_eq!(
        tag_repository::update(data).unwrap().sql,
        driver_text("UPDATE tags SET ", &["name", "description"], " WHERE id = ", " RETURNING *")
    );
}

#[test]
fn content_update_reads_as_the_driver_writes_it() {
    let data = UpdateContent::new(
        X.into(),
        Some("value".into()),
        Some(X.into()),
        Some(vec![Field::new(FieldType::ShortText, "value".into())]),
        None,
        Some(ContentStatus::Draft),
        X.into(),
    );
    let plan = content_statements::update(data).unwrap();
    assert_eq!(
        plan.row.sql,
        driver_text(
            content_statements::UPDATE_HEAD,
            &["title", "category_id", "fields", "status", "updated_by"],
            content_statements::UPDATE_CONDITION,
            content_statements::UPDATE_TAIL
        )
    );
}

#[test]
fn many_assignments_read_as_the_driver_writes_them() {
    let names: Vec<String> = (0..120).map(|n| format!("column_{}", n)).collect();
    let columns: Vec<&str> = names.iter().map(|n| n.as_str()).collect();
    let mut builder = UpdateBuilder::new("UPDATE wide SET ");
    for column in &columns {
        builder = builder.set(column, BindValue::Text("value".into()));
    }
    let statement = builder
        .finish(" WHERE id = ", BindValue::Id(EntityId::parse(X).unwrap()), " RETURNING *")
        .unwrap();
    assert_eq!(
        statement.sql,
        driver_text("UPDATE wide SET ", &columns, " WHERE id = ", " RETURNING *")
    );
    assert!(statement.sql.ends_with(" WHERE id = $121 RETURNING *"));
}
