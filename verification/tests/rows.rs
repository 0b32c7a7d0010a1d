use headless_cms::database::category_repository::CategoryRow;
use headless_cms::database::content_model_repository::ContentModelRow;
use headless_cms::database::contents_repository::{
    try_new_content, try_to_contents, ContentRow, ContentRowStatus, ContentsRow, TagRow,
};
use headless_cms::database::json::encode_fields;
use headless_cms::database::tag_repository;
use headless_cms::database::user_repository::UserRow;
use headless_cms::error::{DecodeError, RepositoryError};
use headless_cms::ident::EntityId;
use headless_cms::model::content::{ContentStatus, Timestamp};
use headless_cms::model::field::Field;
use headless_cms::model::field_meta::FieldType;

fn id(n: u128) -> EntityId {
    EntityId { value: 0x0192f3a0_0000_7000_8000_000000000000 + n }
}

fn text(n: u128) -> String {
    format!("0192f3a0-0000-7000-8000-{:012x}", n)
}

fn json(text: &str) -> serde_json::Value {
    serde_json::from_str(text).unwrap()
}

fn content_row(fields: serde_json::Value, published_at: Option<Timestamp>) -> ContentRow {
    ContentRow {
        id: id(1),
        title: "title".into(),
        fields,
        status: ContentRowStatus::Reserved,
        published_at,
        created_by_id: id(2),
        created_by_name: "creator".into(),
        updated_by_id: id(3),
        updated_by_name: "updater".into(),
        created_at: Timestamp { micros: 10 },
        updated_at: Timestamp { micros: 20 },
        category_id: id(4),
        category_name: "news".into(),
    }
}

#[test]
fn category_row_becomes_a_category() {
    let row = CategoryRow {
        id: id(1),
        name: "sample1".into(),
        api_identifier: "sample1".into(),
        description: "sample1 content model".into(),
    };
    let category = row.into_category();
    assert_eq!(category.id, text(1));
    assert_eq!(category.name, "sample1");
    assert_eq!(category.api_identifier, "sample1");
    assert_eq!(category.description, Some("sample1 content model".to_string()));
}

#[test]
fn tag_row_becomes_a_tag() {
    let row = tag_repository::TagRow { id: id(10), name: "Rust".into(), description: "Rust tags".into() };
    let tag = row.into_tag();
    assert_eq!(tag.id, text(10));
    assert_eq!(tag.name, "Rust");
    assert_eq!(tag.description, "Rust tags");
}

#[test]
fn user_row_becomes_a_user_with_its_role() {
    let row = UserRow {
        id: id(1),
        name: "alice".into(),
        icon_url: "https://example.com/a.png".into(),
        role_id: id(7),
        role_name: "admin".into(),
        role_description: None,
        role_is_super_administrator: true,
    };
    let user = row.into_user();
    assert_eq!(user.id, text(1));
    assert_eq!(user.name, "alice");
    assert_eq!(user.icon_url, "https://example.com/a.png");
    assert_eq!(user.role.id, text(7));
    assert_eq!(user.role.name, "admin");
    assert_eq!(user.role.description, None);
    assert_eq!(user.role.is_super_administrator, true);
}

#[test]
fn content_model_row_becomes_a_content_model() {
    let row = ContentModelRow {
        content_model_id: id(5),
        name: "article".into(),
        api_identifier: "article".into(),
        description: "".into(),
        field_metas: json(
            r#"[{"name":"Title","field_id":"title","field_type":"ShortText","is_required":true}]"#,
        ),
    };
    let model = row.try_into_content_model().unwrap();
    assert_eq!(model.id, text(5));
    assert_eq!(model.description, Some("".to_string()));
    assert_eq!(model.field_metas.len(), 1);
    assert_eq!(model.field_metas[0].field_id, "title");
}

#[test]
fn content_model_row_with_bad_field_definitions_fails() {
    let row = ContentModelRow {
        content_model_id: id(5),
        name: "article".into(),
        api_identifier: "article".into(),
        description: "".into(),
        field_metas: json("{}"),
    };
    assert_eq!(
        row.try_into_content_model().unwrap_err(),
        RepositoryError::Decode(DecodeError::NotAnArray)
    );
}

#[test]
fn content_row_and_tag_rows_become_a_content_item() {
    let fields = vec![Field::new(FieldType::ShortText, "title".into())];
    let row = content_row(encode_fields(&fields), None);
    let tags = vec![
        TagRow { id: id(21), name: "t1".into() },
        TagRow { id: id(22), name: "t2".into() },
    ];
    let content = try_new_content(&row, &tags).unwrap();
    assert_eq!(content.id, text(1));
    assert_eq!(content.title, "title");
    assert_eq!(content.category.id, text(4));
    assert_eq!(content.category.name, "news");
    assert_eq!(content.status, ContentStatus::Reserved);
    assert_eq!(content.fields.len(), 1);
    assert_eq!(content.fields[0].field_type, FieldType::ShortText);
    assert_eq!(content.fields[0].value, "title");
    assert_eq!(content.tags.len(), 2);
    assert_eq!(content.tags[0].id, text(21));
    assert_eq!(content.tags[0].name, "t1");
    assert_eq!(content.tags[1].id, text(22));
    assert_eq!(content.created_by.id, text(2));
    assert_eq!(content.created_by.name, "creator");
    assert_eq!(content.updated_by.id, text(3));
    assert_eq!(content.updated_by.name, "updater");
    assert_eq!(content.published_at, None);
    assert_eq!(content.created_at, Timestamp { micros: 10 });
    assert_eq!(content.updated_at, Timestamp { micros: 20 });
}

#[test]
fn time_of_publication_is_kept_where_there_is_one() {
    let row = content_row(json("[]"), Some(Timestamp { micros: 15 }));
    let content = try_new_content(&row, &vec![]).unwrap();
    assert_eq!(content.published_at, Some(Timestamp { micros: 15 }));
    assert_eq!(content.tags.len(), 0);
    assert_eq!(content.fields.len(), 0);
}

#[test]
fn content_row_with_bad_fields_fails() {
    let row = content_row(json(r#"{"body": "Hello World"}"#), None);
    assert_eq!(
        try_new_content(&row, &vec![]).unwrap_err(),
        RepositoryError::Decode(DecodeError::NotAnArray)
    );
}

#[test]
fn every_status_of_the_store_has_its_status_of_the_model() {
    let pairs = [
        (ContentRowStatus::Draft, ContentStatus::Draft),
        (ContentRowStatus::Published, ContentStatus::Published),
        (ContentRowStatus::Reserved, ContentStatus::Reserved),
        (ContentRowStatus::Unpublished, ContentStatus::Unpublished),
    ];
    for (row, model) in pairs {
        assert_eq!(ContentStatus::from(row), model);
        assert_eq!(ContentRowStatus::from(model), row);
        assert_eq!(ContentRowStatus::from(ContentStatus::from(row)), row);
    }
}

#[test]
fn listing_row_becomes_a_content_item_with_its_tags() {
    let fields = vec![Field::new(FieldType::Number, "1".into())];
    let row = ContentsRow {
        content: content_row(encode_fields(&fields), None),
        tags: json(&format!(r#"[{{"id":"{}","name":"t1"}}]"#, text(21))),
    };
    let content = row.try_to_content().unwrap();
    assert_eq!(content.tags.len(), 1);
    assert_eq!(content.tags[0].id, text(21));
    assert_eq!(content.tags[0].name, "t1");
    assert_eq!(content.fields[0].value, "1");
}

#[test]
fn listing_fails_with_the_fault_of_the_first_bad_row() {
    let good = ContentsRow { content: content_row(json("[]"), None), tags: json("[]") };
    let bad_tags = ContentsRow { content: content_row(json("[]"), None), tags: json("{}") };
    let bad_fields = ContentsRow {
        content: content_row(json(r#"[{"field_type":"X","value":"v"}]"#), None),
        tags: json("7"),
    };
    assert_eq!(
        try_to_contents(&vec![good.clone(), bad_tags.clone(), bad_fields.clone()]).unwrap_err(),
        RepositoryError::Decode(DecodeError::NotAnArray)
    );
    assert_eq!(
        try_to_contents(&vec![good.clone(), bad_fields, bad_tags]).unwrap_err(),
        RepositoryError::Decode(DecodeError::UnknownFieldType)
    );
    let contents = try_to_contents(&vec![good.clone(), good]).unwrap();
    assert_eq!(contents.len(), 2);
    assert_eq!(try_to_contents(&vec![]).unwrap().len(), 0);
}
