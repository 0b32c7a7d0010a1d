use headless_cms::database::content_statements::{
    create, create_plan, delete, delete_tags_statement, get_statement, insert_tags_statement,
    select_tags_statement, update, update_plan,
};
use headless_cms::database::contents_repository::ContentRowStatus;
use headless_cms::database::statement::{BindValue, Statement};
use headless_cms::error::{IdField, RepositoryError, ValidationError};
use headless_cms::ident::{parse_all, without_repetitions, EntityId};
use headless_cms::model::content::ContentStatus;
use headless_cms::model::field::Field;
use headless_cms::model::field_meta::FieldType;
use headless_cms::repository::content::{
    CreateContent, CreateContentIds, GetContentQuery, UpdateContent, UpdateContentIds,
};

fn id(n: u128) -> EntityId {
    EntityId { value: 0x0192f3a0_0000_7000_8000_000000000000 + n }
}

fn text(n: u128) -> String {
    format!("0192f3a0-0000-7000-8000-{:012x}", n)
}

fn shown(statement: &Statement) -> Vec<String> {
    statement
        .binds
        .iter()
        .map(|bind| match bind {
            BindValue::Text(text) => format!("text:{}", text),
            BindValue::Id(id) => format!("id:{:x}", id.value & 0xffff),
            BindValue::Int(n) => format!("int:{}", n),
            BindValue::Json(value) => format!("json:{}", value),
            BindValue::Status(status) => format!("status:{:?}", status),
            BindValue::Ids(ids) => format!(
                "ids:{}",
                ids.iter().map(|i| format!("{:x}", i.value & 0xffff)).collect::<Vec<_>>().join(",")
            ),
        })
        .collect()
}

const UPDATE_TAIL: &str = " RETURNING *) SELECT *, category.name AS category_name, created_by.id AS created_by_id, created_by.name AS created_by_name, updated_by.id AS updated_by_id, updated_by.name AS updated_by_name FROM updated JOIN category ON category.id = updated.category_id JOIN users AS created_by ON created_by.id = updated.created_by JOIN users AS updated_by ON updated_by.id = updated.updated_by";

fn create_command(tag_ids: Vec<String>) -> CreateContent {
    CreateContent::new(
        "title".into(),
        text(4),
        vec![Field::new(FieldType::ShortText, "title".into())],
        tag_ids,
        ContentStatus::Draft,
        text(2),
        text(3),
    )
}

#[test]
fn content_page_binds_limit_then_offset() {
    let statement = get_statement(GetContentQuery::default());
    assert!(statement.sql.starts_with("SELECT contents.*, category.name AS category_name"));
    assert!(statement.sql.ends_with("ORDER BY contents.created_at DESC LIMIT $1 OFFSET $2"));
    assert_eq!(shown(&statement), vec!["int:100", "int:0"]);
}

#[test]
fn content_create_binds_seven_values_in_order() {
    let plan = create_plan(
        id(1),
        create_command(vec![]),
        CreateContentIds {
            category: Some(id(4)),
            created_by: Some(id(2)),
            updated_by: Some(id(3)),
            tags: Some(vec![id(0x21), id(0x22)]),
        },
    )
    .unwrap();
    assert_eq!(plan.content_id, id(1));
    assert!(plan.row.sql.starts_with(
        "WITH inserted AS (INSERT INTO contents (id, title, category_id, fields, status, created_by, updated_by) VALUES ($1, $2, $3, $4, $5, $6, $7) RETURNING *)"
    ));
    assert_eq!(
        shown(&plan.row),
        vec![
            "id:1",
            "text:title",
            "id:4",
            r#"json:[{"field_type":"ShortText","value":"title"}]"#,
            "status:Draft",
            "id:2",
            "id:3"
        ]
    );
    assert_eq!(plan.tags, Some(vec![id(0x21), id(0x22)]));
}

#[test]
fn content_create_reads_the_identifiers_of_the_command() {
    let plan = create(create_command(vec![text(0x21), text(0x22), text(0x21)])).unwrap();
    assert_eq!(shown(&plan.row)[2], "id:4");
    assert_eq!(shown(&plan.row)[5], "id:2");
    assert_eq!(shown(&plan.row)[6], "id:3");
    assert_eq!(plan.tags, Some(vec![id(0x21), id(0x22)]));
    assert_eq!(shown(&plan.row)[0], format!("id:{:x}", plan.content_id.value & 0xffff));
}

#[test]
fn content_create_refuses_in_a_fixed_order() {
    let mut command = create_command(vec!["bad".into()]);
    command.title = "a".repeat(51);
    command.category_id = "bad".into();
    assert_eq!(
        create(command).unwrap_err(),
        RepositoryError::Validation(ValidationError::TitleTooLong)
    );
    let mut command = create_command(vec!["bad".into()]);
    command.title = "".into();
    assert_eq!(
        create(command).unwrap_err(),
        RepositoryError::Validation(ValidationError::TitleEmpty)
    );
    let mut command = create_command(vec!["bad".into()]);
    command.category_id = "bad".into();
    command.created_by_id = "bad".into();
    assert_eq!(create(command).unwrap_err(), RepositoryError::InvalidId(IdField::Category));
    let mut command = create_command(vec!["bad".into()]);
    command.created_by_id = "bad".into();
    command.updated_by_id = "bad".into();
    assert_eq!(create(command).unwrap_err(), RepositoryError::InvalidId(IdField::CreatedBy));
    let mut command = create_command(vec!["bad".into()]);
    command.updated_by_id = "id".into();
    assert_eq!(create(command).unwrap_err(), RepositoryError::InvalidId(IdField::UpdatedBy));
    let command = create_command(vec![text(0x21), "bad".into(), text(0x22)]);
    assert_eq!(create(command).unwrap_err(), RepositoryError::InvalidId(IdField::Tag));
}

#[test]
fn content_update_with_title_and_status() {
    let command = UpdateContent::new(
        text(1),
        Some("changed".into()),
        None,
        None,
        None,
        Some(ContentStatus::Reserved),
        text(3),
    );
    let plan = update(command).unwrap();
    assert_eq!(plan.content_id, id(1));
    assert_eq!(
        plan.row.sql,
        format!(
            "WITH updated AS (UPDATE contents SET title = $1,status = $2,updated_by = $3 WHERE id = $4{}",
            UPDATE_TAIL
        )
    );
    assert_eq!(shown(&plan.row), vec!["text:changed", "status:Reserved", "id:3", "id:1"]);
    assert_eq!(plan.tags, None);
}

#[test]
fn content_update_with_every_field() {
    let command = UpdateContent::new(
        text(1),
        Some("t".into()),
        Some(text(4)),
        Some(vec![Field::new(FieldType::Number, "7".into())]),
        Some(vec![text(0x22)]),
        Some(ContentStatus::Published),
        text(3),
    );
    let plan = update(command).unwrap();
    assert_eq!(
        plan.row.sql,
        format!(
            "WITH updated AS (UPDATE contents SET title = $1,category_id = $2,fields = $3,status = $4,updated_by = $5 WHERE id = $6{}",
            UPDATE_TAIL
        )
    );
    assert_eq!(
        shown(&plan.row),
        vec![
            "text:t",
            "id:4",
            r#"json:[{"field_type":"Number","value":"7"}]"#,
            "status:Published",
            "id:3",
            "id:1"
        ]
    );
    assert_eq!(plan.tags, Some(vec![id(0x22)]));
}

#[test]
fn content_update_without_optional_fields_still_assigns_the_user() {
    let command = UpdateContent::new(text(1), None, None, None, None, None, text(3));
    let plan = update(command).unwrap();
    assert_eq!(
        plan.row.sql,
        format!("WITH updated AS (UPDATE contents SET updated_by = $1 WHERE id = $2{}", UPDATE_TAIL)
    );
    assert_eq!(shown(&plan.row), vec!["id:3", "id:1"]);
    assert_eq!(plan.tags, None);
}

#[test]
fn content_update_with_empty_tag_list_takes_every_tag_off() {
    let command = UpdateContent::new(text(1), None, None, None, Some(vec![]), None, text(3));
    let plan = update(command).unwrap();
    assert_eq!(plan.tags, Some(vec![]));
}

#[test]
fn content_update_places_the_placeholders_past_nine() {
    let statement = headless_cms::database::statement::UpdateBuilder::new("UPDATE t SET ");
    let mut builder = statement;
    for n in 1..=11 {
        builder = builder.set(&format!("c{}", n), BindValue::Int(n));
    }
    let statement = builder.finish(" WHERE id = ", BindValue::Id(id(1)), "").unwrap();
    assert_eq!(
        statement.sql,
        "UPDATE t SET c1 = $1,c2 = $2,c3 = $3,c4 = $4,c5 = $5,c6 = $6,c7 = $7,c8 = $8,c9 = $9,c10 = $10,c11 = $11 WHERE id = $12"
    );
    assert_eq!(statement.binds.len(), 12);
}

#[test]
fn content_update_refuses_in_a_fixed_order() {
    let all_bad = || {
        UpdateContent::new(
            "bad".into(),
            Some("a".repeat(51)),
            Some("bad".into()),
            None,
            Some(vec!["bad".into()]),
            None,
            "bad".into(),
        )
    };
    assert_eq!(
        update(all_bad()).unwrap_err(),
        RepositoryError::Validation(ValidationError::TitleTooLong)
    );
    let mut command = all_bad();
    command.title = None;
    assert_eq!(update(command).unwrap_err(), RepositoryError::InvalidId(IdField::Id));
    let mut command = all_bad();
    command.title = None;
    command.id = text(1);
    assert_eq!(update(command).unwrap_err(), RepositoryError::InvalidId(IdField::Category));
    let mut command = all_bad();
    command.title = None;
    command.id = text(1);
    command.category_id = None;
    assert_eq!(update(command).unwrap_err(), RepositoryError::InvalidId(IdField::UpdatedBy));
    let mut command = all_bad();
    command.title = None;
    command.id = text(1);
    command.category_id = Some(text(4));
    command.updated_by_id = text(3);
    assert_eq!(update(command).unwrap_err(), RepositoryError::InvalidId(IdField::Tag));
}

#[test]
fn content_update_plan_ignores_what_was_read_for_absent_fields() {
    let command = UpdateContent::new(text(1), None, None, None, None, None, text(3));
    let plan = update_plan(
        command,
        UpdateContentIds { id: Some(id(1)), category: None, updated_by: Some(id(3)), tags: None },
    )
    .unwrap();
    assert_eq!(shown(&plan.row), vec!["id:3", "id:1"]);
}

#[test]
fn one_malformed_tag_identifier_fails_them_all() {
    assert_eq!(parse_all(&vec![text(1), text(2)]), Some(vec![id(1), id(2)]));
    assert_eq!(parse_all(&vec![]), Some(vec![]));
    assert_eq!(parse_all(&vec![text(1), "t2".into()]), None);
    assert_eq!(parse_all(&vec!["t1".into(), text(2)]), None);
}

#[test]
fn repeated_tags_collapse_to_their_first_occurrence() {
    assert_eq!(
        without_repetitions(&vec![id(2), id(1), id(2), id(3), id(1), id(2)]),
        vec![id(2), id(1), id(3)]
    );
    assert_eq!(without_repetitions(&vec![]), vec![]);
    assert_eq!(without_repetitions(&vec![id(5), id(5)]), vec![id(5)]);
}

#[test]
fn tag_statements_bind_the_content_item_first() {
    let statement = delete_tags_statement(id(1));
    assert_eq!(statement.sql, "DELETE FROM content_tags WHERE content_id = $1");
    assert_eq!(shown(&statement), vec!["id:1"]);
    let statement = insert_tags_statement(id(1), vec![id(0x21), id(0x22)]);
    assert_eq!(
        statement.sql,
        "INSERT INTO content_tags (content_id, tag_id) SELECT $1, tag_id FROM UNNEST($2) AS tag_id"
    );
    assert_eq!(shown(&statement), vec!["id:1", "ids:21,22"]);
    let statement = select_tags_statement(id(1));
    assert_eq!(
        statement.sql,
        "SELECT tags.id AS id, tags.name AS name FROM content_tags JOIN tags ON tags.id = content_tags.tag_id WHERE content_tags.content_id = $1"
    );
    assert_eq!(shown(&statement), vec!["id:1"]);
}

#[test]
fn content_delete_binds_the_identifier() {
    let statement = delete(&text(1)).unwrap();
    assert_eq!(statement.sql, "DELETE FROM contents WHERE id = $1");
    assert_eq!(shown(&statement), vec!["id:1"]);
    assert_eq!(delete("X").unwrap_err(), RepositoryError::InvalidId(IdField::Id));
}

#[test]
fn status_is_bound_as_the_status_of_the_store() {
    for (model, row) in [
        (ContentStatus::Draft, ContentRowStatus::Draft),
        (ContentStatus::Published, ContentRowStatus::Published),
        (ContentStatus::Reserved, ContentRowStatus::Reserved),
        (ContentStatus::Unpublished, ContentRowStatus::Unpublished),
    ] {
        let command = UpdateContent::new(text(1), None, None, None, None, Some(model), text(3));
        let plan = update(command).unwrap();
        match &plan.row.binds[0] {
            BindValue::Status(status) => assert_eq!(*status, row),
            other => panic!("unexpected bind {:?}", other),
        }
    }
}
