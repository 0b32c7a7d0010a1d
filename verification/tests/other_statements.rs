use headless_cms::database::statement::{BindValue, Statement};
use headless_cms::database::{content_model_repository, tag_repository, user_repository};
use headless_cms::error::{IdField, RepositoryError, ValidationError};
use headless_cms::ident::EntityId;
use headless_cms::repository::content_model::{CreateContentModel, UpdateContentModel};
use headless_cms::repository::tag::{CreateTag, GetTagQuery, UpdateTag};
use headless_cms::repository::user::{CreateUser, GetUserQuery, UpdateUser};

fn id(n: u128) -> EntityId {
    EntityId { value: 0x0192f3a0_0000_7000_8000_000000000000 + n }
}

fn text(n: u128) -> String {
    format!("0192f3a0-0000-7000-8000-{:012x}", n)
}

fn shown(statement: &Statement) -> Vec<String> {
    statement
        .binds
        .iter()
        .map(|bind| match bind {
            BindValue::Text(text) => format!("text:{}", text),
            BindValue::Id(id) => format!("id:{:x}", id.value & 0xffff),
            BindValue::Int(n) => format!("int:{}", n),
            other => format!("{:?}", other),
        })
        .collect()
}

#[test]
fn tag_page_binds_limit_then_offset() {
    let statement = tag_repository::get_statement(GetTagQuery::new(10, 0));
    assert_eq!(statement.sql, "SELECT * FROM tags ORDER BY id LIMIT $1 OFFSET $2");
    assert_eq!(shown(&statement), vec!["int:10", "int:0"]);
    let default = GetTagQuery::default();
    assert_eq!((default.limit, default.offset), (100, 0));
}

#[test]
fn tag_create_binds_every_field() {
    let statement = tag_repository::create_statement(
        id(10),
        CreateTag::new("Rust".into(), Some("Rust tags".into())),
    )
    .unwrap();
    assert_eq!(
        statement.sql,
        "INSERT INTO tags (id, name, description) VALUES ($1, $2, $3) RETURNING *"
    );
    assert_eq!(shown(&statement), vec!["id:a", "text:Rust", "text:Rust tags"]);
    let statement =
        tag_repository::create_statement(id(10), CreateTag::new("Rust".into(), None)).unwrap();
    assert_eq!(shown(&statement), vec!["id:a", "text:Rust", "text:"]);
}

#[test]
fn tag_create_refuses_fields_that_break_a_rule() {
    assert_eq!(
        tag_repository::create(CreateTag::new("".into(), None)).unwrap_err(),
        RepositoryError::Validation(ValidationError::NameEmpty)
    );
    assert_eq!(
        tag_repository::create(CreateTag::new("a".repeat(51), None)).unwrap_err(),
        RepositoryError::Validation(ValidationError::NameTooLong)
    );
    assert_eq!(
        tag_repository::create(CreateTag::new("a".into(), Some("a".repeat(501)))).unwrap_err(),
        RepositoryError::Validation(ValidationError::DescriptionTooLong)
    );
}

#[test]
fn tag_update_assigns_what_is_present() {
    let statement = tag_repository::update(UpdateTag::new(
        text(10),
        Some("NoRust".into()),
        Some("No Rust Tags".into()),
    ))
    .unwrap();
    assert_eq!(
        statement.sql,
        "UPDATE tags SET name = $1,description = $2 WHERE id = $3 RETURNING *"
    );
    assert_eq!(shown(&statement), vec!["text:NoRust", "text:No Rust Tags", "id:a"]);
    let statement =
        tag_repository::update(UpdateTag::new(text(10), None, Some("d".into()))).unwrap();
    assert_eq!(statement.sql, "UPDATE tags SET description = $1 WHERE id = $2 RETURNING *");
}

#[test]
fn tag_update_refusals() {
    assert_eq!(
        tag_repository::update(UpdateTag::new(text(10), None, None)).unwrap_err(),
        RepositoryError::Validation(ValidationError::NothingToUpdate)
    );
    assert_eq!(
        tag_repository::update(UpdateTag::new("10".into(), Some("n".into()), None)).unwrap_err(),
        RepositoryError::InvalidId(IdField::Id)
    );
    assert_eq!(
        tag_repository::update(UpdateTag::new("10".into(), Some("a".repeat(51)), None))
            .unwrap_err(),
        RepositoryError::Validation(ValidationError::NameTooLong)
    );
    assert_eq!(
        tag_repository::delete("10").unwrap_err(),
        RepositoryError::InvalidId(IdField::Id)
    );
    assert_eq!(tag_repository::delete(&text(10)).unwrap().sql, "DELETE FROM tags WHERE id = $1");
}

#[test]
fn content_model_statements() {
    let statement = content_model_repository::get_statement();
    assert_eq!(statement.sql, "SELECT * FROM content_model");
    assert_eq!(statement.binds.len(), 0);
    let statement = content_model_repository::create_statement(
        id(5),
        CreateContentModel::new(
            "sample1".into(),
            "sample1".into(),
            Some("sample1 content model".into()),
        ),
    )
    .unwrap();
    assert!(statement.sql.starts_with(
        "INSERT INTO content_model (content_model_id, name, api_identifier, description) VALUES ($1, $2, $3, $4) RETURNING"
    ));
    assert_eq!(
        shown(&statement),
        vec!["id:5", "text:sample1", "text:sample1", "text:sample1 content model"]
    );
    let statement = content_model_repository::update(UpdateContentModel::new(
        text(5),
        None,
        Some("api".into()),
        None,
    ))
    .unwrap();
    assert!(statement
        .sql
        .starts_with("UPDATE content_model SET api_identifier = $1 WHERE content_model_id = $2 RETURNING"));
    assert_eq!(shown(&statement), vec!["text:api", "id:5"]);
    assert_eq!(
        content_model_repository::delete(&text(5)).unwrap().sql,
        "DELETE FROM content_model WHERE content_model_id = $1"
    );
}

#[test]
fn content_model_refusals() {
    assert_eq!(
        content_model_repository::update(UpdateContentModel::new(text(5), None, None, None))
            .unwrap_err(),
        RepositoryError::Validation(ValidationError::NothingToUpdate)
    );
    assert_eq!(
        content_model_repository::update(UpdateContentModel::new(
            "5".into(),
            Some("n".into()),
            None,
            None
        ))
        .unwrap_err(),
        RepositoryError::InvalidId(IdField::Id)
    );
    assert_eq!(
        content_model_repository::create(CreateContentModel::new(
            "a".repeat(51),
            "a".into(),
            None
        ))
        .unwrap_err(),
        RepositoryError::Validation(ValidationError::NameTooLong)
    );
    assert_eq!(
        content_model_repository::create(CreateContentModel::new(
            "a".into(),
            "a".repeat(65),
            None
        ))
        .unwrap_err(),
        RepositoryError::Validation(ValidationError::ApiIdentifierTooLong)
    );
    assert!(content_model_repository::create(CreateContentModel::new("".into(), "".into(), None))
        .is_ok());
}

#[test]
fn user_statements() {
    let statement = user_repository::get_statement(GetUserQuery::new(1, 0));
    assert!(statement.sql.ends_with("JOIN role ON role.id = users.role LIMIT $1 OFFSET $2"));
    assert_eq!(shown(&statement), vec!["int:1", "int:0"]);
    let statement = user_repository::find(&text(1)).unwrap();
    assert!(statement.sql.ends_with("WHERE users.id = $1"));
    assert_eq!(shown(&statement), vec!["id:1"]);
    let statement = user_repository::create(CreateUser::new(
        "alice".into(),
        "https://example.com/a.png".into(),
        text(7),
    ))
    .unwrap();
    assert!(statement.sql.starts_with(
        "WITH inserted AS (INSERT INTO users (id, name, icon_url, role) VALUES ($1, $2, $3, $4) RETURNING *)"
    ));
    assert_eq!(shown(&statement)[1..], ["text:alice", "text:https://example.com/a.png", "id:7"]);
    assert_eq!(user_repository::delete(&text(1)).unwrap().sql, "DELETE FROM users WHERE id = $1");
}

#[test]
fn user_create_refusals() {
    assert_eq!(
        user_repository::create(CreateUser::new("".into(), "nope".into(), "r".into()))
            .unwrap_err(),
        RepositoryError::Validation(ValidationError::NameEmpty)
    );
    assert_eq!(
        user_repository::create(CreateUser::new("a".into(), "nope".into(), "r".into()))
            .unwrap_err(),
        RepositoryError::Validation(ValidationError::IconUrlInvalid)
    );
    assert_eq!(
        user_repository::create(CreateUser::new(
            "a".into(),
            "https://example.com".into(),
            "r".into()
        ))
        .unwrap_err(),
        RepositoryError::InvalidId(IdField::Role)
    );
}

#[test]
fn user_update_assigns_what_is_present() {
    let statement = user_repository::update(UpdateUser::new(
        text(1),
        Some("bob".into()),
        Some("https://example.com/b.png".into()),
        Some(text(8)),
    ))
    .unwrap();
    assert!(statement.sql.starts_with(
        "WITH updated AS (UPDATE users SET name = $1,icon_url = $2,role = $3 WHERE users.id = $4 RETURNING *)"
    ));
    assert_eq!(
        shown(&statement),
        vec!["text:bob", "text:https://example.com/b.png", "id:8", "id:1"]
    );
    let statement =
        user_repository::update(UpdateUser::new(text(1), None, None, Some(text(8)))).unwrap();
    assert!(statement
        .sql
        .starts_with("WITH updated AS (UPDATE users SET role = $1 WHERE users.id = $2 RETURNING *)"));
}

#[test]
fn user_update_refusals() {
    assert_eq!(
        user_repository::update(UpdateUser::new(text(1), None, None, None)).unwrap_err(),
        RepositoryError::Validation(ValidationError::NothingToUpdate)
    );
    assert_eq!(
        user_repository::update(UpdateUser::new("1".into(), None, Some("nope".into()), None))
            .unwrap_err(),
        RepositoryError::Validation(ValidationError::IconUrlInvalid)
    );
    assert_eq!(
        user_repository::update(UpdateUser::new("1".into(), Some("n".into()), None, Some("r".into())))
            .unwrap_err(),
        RepositoryError::InvalidId(IdField::Id)
    );
    assert_eq!(
        user_repository::update(UpdateUser::new(text(1), Some("n".into()), None, Some("r".into())))
            .unwrap_err(),
        RepositoryError::InvalidId(IdField::Role)
    );
    assert_eq!(
        user_repository::find("1").unwrap_err(),
        RepositoryError::InvalidId(IdField::Id)
    );
}
