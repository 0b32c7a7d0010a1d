use headless_cms::database::category_repository;
use headless_cms::database::statement::{BindValue, Statement};
use headless_cms::error::{IdField, RepositoryError, ValidationError};
use headless_cms::ident::EntityId;
use headless_cms::repository::category::{CreateCategory, GetCategoryQuery, UpdateCategory};

const X: &str = "0192f3a0-1111-7000-8000-000000000001";

fn x() -> EntityId {
    EntityId::parse(X).unwrap()
}

fn texts(statement: &Statement) -> Vec<String> {
    statement
        .binds
        .iter()
        .map(|bind| match bind {
            BindValue::Text(text) => format!("text:{}", text),
            BindValue::Id(id) => format!("id:{}", id.to_text()),
            BindValue::Int(n) => format!("int:{}", n),
            BindValue::Json(value) => format!("json:{}", value),
            BindValue::Status(status) => format!("status:{:?}", status),
            BindValue::Ids(ids) => {
                format!("ids:{}", ids.iter().map(|i| i.to_text()).collect::<Vec<_>>().join(","))
            }
        })
        .collect()
}

#[test]
fn category_page_binds_limit_then_offset() {
    let statement = category_repository::get_statement(GetCategoryQuery::default());
    assert_eq!(statement.sql, "SELECT * FROM category ORDER BY id LIMIT $1 OFFSET $2");
    assert_eq!(texts(&statement), vec!["int:100", "int:0"]);
    let statement = category_repository::get_statement(GetCategoryQuery::new(10, 30));
    assert_eq!(texts(&statement), vec!["int:10", "int:30"]);
}

#[test]
fn category_create_binds_every_field() {
    let data = CreateCategory::new(
        "sample1".into(),
        "sample1".into(),
        Some("sample1 content model".into()),
    );
    let statement = category_repository::create_statement(x(), data).unwrap();
    assert_eq!(
        statement.sql,
        "INSERT INTO category (id, name, api_identifier, description) VALUES ($1, $2, $3, $4) RETURNING *"
    );
    assert_eq!(
        texts(&statement),
        vec![
            format!("id:{}", X),
            "text:sample1".to_string(),
            "text:sample1".to_string(),
            "text:sample1 content model".to_string()
        ]
    );
}

#[test]
fn category_create_stores_empty_description_when_absent() {
    let data = CreateCategory::new("n".into(), "a".into(), None);
    let statement = category_repository::create_statement(x(), data).unwrap();
    assert_eq!(texts(&statement)[3], "text:");
}

#[test]
fn category_create_refuses_long_fields_without_a_statement() {
    let long_name = CreateCategory::new("a".repeat(51), "a".into(), None);
    assert_eq!(
        category_repository::create(long_name).unwrap_err(),
        RepositoryError::Validation(ValidationError::NameTooLong)
    );
    let long_api = CreateCategory::new("a".into(), "a".repeat(65), None);
    assert_eq!(
        category_repository::create(long_api).unwrap_err(),
        RepositoryError::Validation(ValidationError::ApiIdentifierTooLong)
    );
    let long_description = CreateCategory::new("a".into(), "a".into(), Some("a".repeat(501)));
    assert_eq!(
        category_repository::create(long_description).unwrap_err(),
        RepositoryError::Validation(ValidationError::DescriptionTooLong)
    );
}

#[test]
fn category_create_uses_a_fresh_identifier() {
    let first = category_repository::create(CreateCategory::new("n".into(), "a".into(), None)).unwrap();
    let second = category_repository::create(CreateCategory::new("n".into(), "a".into(), None)).unwrap();
    assert_ne!(texts(&first)[0], texts(&second)[0]);
    assert_eq!(texts(&first)[1..], texts(&second)[1..]);
}

#[test]
fn category_update_with_one_field() {
    let data = UpdateCategory::new(X.into(), Some("update-test".into()), None, None);
    let statement = category_repository::update(data).unwrap();
    assert_eq!(statement.sql, "UPDATE category SET name = $1 WHERE id = $2 RETURNING *");
    assert_eq!(texts(&statement), vec!["text:update-test".to_string(), format!("id:{}", X)]);
}

#[test]
fn category_update_with_every_field() {
    let data = UpdateCategory::new(
        X.into(),
        Some("new".into()),
        Some("api-new".into()),
        Some("described".into()),
    );
    let statement = category_repository::update(data).unwrap();
    assert_eq!(
        statement.sql,
        "UPDATE category SET name = $1,api_identifier = $2,description = $3 WHERE id = $4 RETURNING *"
    );
    assert_eq!(
        texts(&statement),
        vec![
            "text:new".to_string(),
            "text:api-new".to_string(),
            "text:described".to_string(),
            format!("id:{}", X)
        ]
    );
}

#[test]
fn category_update_skips_absent_fields() {
    let data = UpdateCategory::new(X.into(), None, None, Some("d".into()));
    let statement = category_repository::update(data).unwrap();
    assert_eq!(statement.sql, "UPDATE category SET description = $1 WHERE id = $2 RETURNING *");
    let data = UpdateCategory::new(X.into(), Some("n".into()), None, Some("d".into()));
    let statement = category_repository::update(data).unwrap();
    assert_eq!(
        statement.sql,
        "UPDATE category SET name = $1,description = $2 WHERE id = $3 RETURNING *"
    );
}

#[test]
fn category_update_never_writes_a_value_into_the_text() {
    let data = UpdateCategory::new(X.into(), Some("'; DROP TABLE category; --".into()), None, None);
    let statement = category_repository::update(data).unwrap();
    assert_eq!(statement.sql, "UPDATE category SET name = $1 WHERE id = $2 RETURNING *");
    assert_eq!(texts(&statement)[0], "text:'; DROP TABLE category; --");
}

#[test]
fn category_update_without_fields_is_refused() {
    let data = UpdateCategory::new(X.into(), None, None, None);
    assert_eq!(
        category_repository::update(data).unwrap_err(),
        RepositoryError::Validation(ValidationError::NothingToUpdate)
    );
}

#[test]
fn category_update_with_malformed_identifier_is_refused() {
    let data = UpdateCategory::new("X".into(), Some("new".into()), None, None);
    assert_eq!(
        category_repository::update(data).unwrap_err(),
        RepositoryError::InvalidId(IdField::Id)
    );
}

#[test]
fn category_update_reports_a_broken_rule_before_anything_else() {
    let data = UpdateCategory::new("X".into(), Some("a".repeat(51)), None, None);
    assert_eq!(
        category_repository::update(data).unwrap_err(),
        RepositoryError::Validation(ValidationError::NameTooLong)
    );
    let data = UpdateCategory::new(X.into(), Some("".into()), None, None);
    assert_eq!(
        category_repository::update(data).unwrap_err(),
        RepositoryError::Validation(ValidationError::NameEmpty)
    );
    let data = UpdateCategory::new(X.into(), None, Some("a".repeat(65)), None);
    assert_eq!(
        category_repository::update(data).unwrap_err(),
        RepositoryError::Validation(ValidationError::ApiIdentifierTooLong)
    );
    let data = UpdateCategory::new(X.into(), None, None, Some("a".repeat(501)));
    assert_eq!(
        category_repository::update(data).unwrap_err(),
        RepositoryError::Validation(ValidationError::DescriptionTooLong)
    );
}

#[test]
fn category_delete_binds_the_identifier() {
    let statement = category_repository::delete(X).unwrap();
    assert_eq!(statement.sql, "DELETE FROM category WHERE id = $1");
    assert_eq!(texts(&statement), vec![format!("id:{}", X)]);
    assert_eq!(
        category_repository::delete("nope").unwrap_err(),
        RepositoryError::InvalidId(IdField::Id)
    );
}
