use headless_cms::database::category_repository::CategoryRow;
use headless_cms::database::tag_repository::TagRow;
use headless_cms::database::user_repository::{RoleRow, UserRow};
use headless_cms::error::{IdField, RepositoryError, StoreFailure, ValidationError};
use headless_cms::ident::EntityId;
use headless_cms::memory::content::MemoryContentRepository;
use headless_cms::memory::user::MemoryUserRepository;
use headless_cms::model::content::{Content, ContentStatus};
use headless_cms::model::field::Field;
use headless_cms::model::field_meta::FieldType;
use headless_cms::repository::content::{
    ContentRepository, CreateContent, GetContentQuery, UpdateContent,
};
use headless_cms::repository::user::{CreateUser, GetUserQuery, UpdateUser, UserRepository};
use headless_cms::usecase::content::ContentUsecase;

fn id(n: u128) -> EntityId {
    EntityId { value: 0x0192f3a0_0000_7000_8000_000000000000 + n }
}

fn text(n: u128) -> String {
    id(n).to_text()
}

const ALICE: u128 = 0x11;
const BOB: u128 = 0x12;
const NEWS: u128 = 0x21;
const BLOG: u128 = 0x22;
const T1: u128 = 0x31;
const T2: u128 = 0x32;
const T3: u128 = 0x33;

fn user(n: u128, name: &str) -> UserRow {
    UserRow {
        id: id(n),
        name: name.into(),
        icon_url: "https://example.com/icon.png".into(),
        role_id: id(1),
        role_name: "admin".into(),
        role_description: None,
        role_is_super_administrator: true,
    }
}

fn store() -> MemoryContentRepository {
    MemoryContentRepository::new(
        vec![
            CategoryRow {
                id: id(NEWS),
                name: "news".into(),
                api_identifier: "news".into(),
                description: "".into(),
            },
            CategoryRow {
                id: id(BLOG),
                name: "blog".into(),
                api_identifier: "blog".into(),
                description: "".into(),
            },
        ],
        vec![user(ALICE, "alice"), user(BOB, "bob")],
        vec![
            TagRow { id: id(T1), name: "t1".into(), description: "".into() },
            TagRow { id: id(T2), name: "t2".into(), description: "".into() },
            TagRow { id: id(T3), name: "t3".into(), description: "".into() },
        ],
    )
}

fn create_command(title: &str, tags: Vec<String>) -> CreateContent {
    CreateContent::new(
        title.into(),
        text(NEWS),
        vec![Field::new(FieldType::ShortText, "title".into())],
        tags,
        ContentStatus::Draft,
        text(ALICE),
        text(ALICE),
    )
}

fn tag_names(content: &Content) -> Vec<String> {
    let mut names: Vec<String> = content.tags.iter().map(|t| t.name.clone()).collect();
    names.sort();
    names
}

/// Everything of a content item but the time of its last change.
fn state(content: &Content) -> String {
    format!(
        "{} {} {}/{} {:?} {:?} {:?} {}/{} {}/{} {:?} {:?}",
        content.id,
        content.title,
        content.category.id,
        content.category.name,
        content.status,
        content.fields.iter().map(|f| (f.field_type, f.value.clone())).collect::<Vec<_>>(),
        content.tags.iter().map(|t| (t.id.clone(), t.name.clone())).collect::<Vec<_>>(),
        content.created_by.id,
        content.created_by.name,
        content.updated_by.id,
        content.updated_by.name,
        content.published_at,
        content.created_at,
    )
}

fn states(repository: &MemoryContentRepository) -> Vec<String> {
    repository.get(GetContentQuery::default()).unwrap().iter().map(state).collect()
}

#[test]
fn content_repository_get_success() {
    let mut repository = store();
    repository.create_with(id(1), create_command("first", vec![])).unwrap();
    repository.create_with(id(2), create_command("second", vec![text(T1)])).unwrap();
    let result = repository.get(GetContentQuery::default());
    assert_eq!(result.is_ok(), true);
    let titles: Vec<String> = result.unwrap().into_iter().map(|c| c.title).collect();
    assert_eq!(titles, vec!["second", "first"]);
    let page = repository.get(GetContentQuery::new(1, 1)).unwrap();
    assert_eq!(page.len(), 1);
    assert_eq!(page[0].title, "first");
}

#[test]
fn contents_are_listed_newest_first_by_the_time_of_creation() {
    let mut repository = store();
    for n in [5u128, 2, 9, 1] {
        repository.create_with(id(n), create_command(&format!("c{}", n), vec![])).unwrap();
    }
    repository
        .update(UpdateContent::new(text(5), Some("c5 changed".into()), None, None, None, None, text(BOB)))
        .unwrap();
    let listed = repository.get(GetContentQuery::default()).unwrap();
    let titles: Vec<String> = listed.iter().map(|c| c.title.clone()).collect();
    assert_eq!(titles, vec!["c1", "c9", "c2", "c5 changed"]);
    assert!(listed.windows(2).all(|pair| pair[0].created_at.micros >= pair[1].created_at.micros));
    let page = repository.get(GetContentQuery::new(2, 1)).unwrap();
    assert_eq!(page.iter().map(|c| c.title.clone()).collect::<Vec<_>>(), vec!["c9", "c2"]);
}

#[test]
fn content_repository_create_success() {
    let mut content_repository = store();
    let result = content_repository.create(create_command("title", vec![text(T1), text(T2), text(T3)]));
    assert_eq!(result.is_ok(), true);
    let content = result.unwrap();
    assert_eq!(content.title, "title");
    assert_eq!(content.category.id, text(NEWS));
    assert_eq!(content.category.name, "news");
    assert_eq!(content.status, ContentStatus::Draft);
    assert_eq!(content.fields.len(), 1);
    assert_eq!(content.fields[0].field_type, FieldType::ShortText);
    assert_eq!(content.fields[0].value, "title");
    assert_eq!(content.created_by.name, "alice");
    assert_eq!(content.updated_by.name, "alice");
    assert_eq!(content.published_at, None);
    assert_eq!(content.created_at, content.updated_at);
    assert_eq!(tag_names(&content), vec!["t1", "t2", "t3"]);
}

#[test]
fn content_repository_update_success() {
    let mut repository = store();
    repository.create_with(id(1), create_command("title", vec![text(T1)])).unwrap();
    let contents = repository.get(GetContentQuery::default()).unwrap();
    let content = contents.get(0).unwrap();
    let update_content = UpdateContent::new(
        content.id.to_string(),
        Some("changed".into()),
        None,
        None,
        None,
        Some(ContentStatus::Reserved),
        text(BOB),
    );
    let result = repository.update(update_content);
    assert_eq!(result.is_ok(), true);
    let updated = result.unwrap();
    assert_eq!(updated.title, "changed");
    assert_eq!(updated.status, ContentStatus::Reserved);
    assert_eq!(updated.category.name, "news");
    assert_eq!(updated.fields[0].value, "title");
    assert_eq!(tag_names(&updated), vec!["t1"]);
    assert_eq!(updated.created_by.name, "alice");
    assert_eq!(updated.updated_by.name, "bob");
    assert_eq!(updated.created_at, content.created_at);
    assert!(updated.updated_at.micros > content.updated_at.micros);
}

#[test]
fn content_repository_delete_success() {
    let mut repository = store();
    repository.create_with(id(1), create_command("title", vec![text(T1)])).unwrap();
    let contents = repository.get(GetContentQuery::default()).unwrap();
    let content = contents.get(0).unwrap();
    let result = repository.delete(content.id.clone());
    assert_eq!(result.is_ok(), true);
    assert_eq!(repository.get(GetContentQuery::default()).unwrap().len(), 0);
    assert_eq!(repository.delete(content.id.clone()), Err(RepositoryError::NotFound));
}

#[test]
fn created_tags_are_the_supplied_set_and_an_update_replaces_them() {
    let mut repository = store();
    let created = repository.create(create_command("title", vec![text(T1), text(T2)])).unwrap();
    assert_eq!(tag_names(&created), vec!["t1", "t2"]);
    let updated = repository
        .update(UpdateContent::new(
            created.id.clone(),
            None,
            None,
            None,
            Some(vec![text(T2)]),
            None,
            text(ALICE),
        ))
        .unwrap();
    assert_eq!(tag_names(&updated), vec!["t2"]);
    assert_eq!(updated.tags[0].id, text(T2));
    let listed = repository.get(GetContentQuery::default()).unwrap();
    assert_eq!(tag_names(&listed[0]), vec!["t2"]);
}

#[test]
fn repeated_tags_are_stored_once() {
    let mut repository = store();
    let created = repository
        .create(create_command("title", vec![text(T2), text(T1), text(T2), text(T2), text(T1)]))
        .unwrap();
    assert_eq!(
        created.tags.iter().map(|t| t.name.clone()).collect::<Vec<_>>(),
        vec!["t2", "t1"]
    );
    let updated = repository
        .update(UpdateContent::new(
            created.id.clone(),
            None,
            None,
            None,
            Some(vec![]),
            None,
            text(ALICE),
        ))
        .unwrap();
    assert_eq!(updated.tags.len(), 0);
}

#[test]
fn update_with_one_unknown_tag_changes_nothing_at_all() {
    let mut repository = store();
    repository.create_with(id(1), create_command("title", vec![text(T1)])).unwrap();
    let before = states(&repository);
    let times: Vec<_> = repository
        .get(GetContentQuery::default())
        .unwrap()
        .iter()
        .map(|c| c.updated_at)
        .collect();
    let result = repository.update(UpdateContent::new(
        text(1),
        Some("changed".into()),
        Some(text(BLOG)),
        Some(vec![Field::new(FieldType::Number, "1".into())]),
        Some(vec![text(T2), text(0x99), text(T3)]),
        Some(ContentStatus::Published),
        text(BOB),
    ));
    assert_eq!(result.unwrap_err(), RepositoryError::Store(StoreFailure::Constraint));
    assert_eq!(states(&repository), before);
    assert_eq!(
        repository
            .get(GetContentQuery::default())
            .unwrap()
            .iter()
            .map(|c| c.updated_at)
            .collect::<Vec<_>>(),
        times
    );
}

#[test]
fn update_with_one_malformed_tag_changes_nothing_at_all() {
    let mut repository = store();
    repository.create_with(id(1), create_command("title", vec![text(T1)])).unwrap();
    let before = states(&repository);
    let result = repository.update(UpdateContent::new(
        text(1),
        Some("changed".into()),
        None,
        None,
        Some(vec![text(T2), "t9".into()]),
        None,
        text(BOB),
    ));
    assert_eq!(result.unwrap_err(), RepositoryError::InvalidId(IdField::Tag));
    assert_eq!(states(&repository), before);
}

#[test]
fn unknown_category_or_user_breaks_a_constraint() {
    let mut repository = store();
    let mut command = create_command("title", vec![]);
    command.category_id = text(0x99);
    assert_eq!(
        repository.create(command).unwrap_err(),
        RepositoryError::Store(StoreFailure::Constraint)
    );
    let mut command = create_command("title", vec![]);
    command.created_by_id = text(0x99);
    assert_eq!(
        repository.create(command).unwrap_err(),
        RepositoryError::Store(StoreFailure::Constraint)
    );
    assert_eq!(
        repository.create(create_command("title", vec![text(0x99)])).unwrap_err(),
        RepositoryError::Store(StoreFailure::Constraint)
    );
    assert_eq!(repository.get(GetContentQuery::default()).unwrap().len(), 0);
    repository.create_with(id(1), create_command("title", vec![])).unwrap();
    assert_eq!(
        repository.create_with(id(1), create_command("again", vec![])).unwrap_err(),
        RepositoryError::Store(StoreFailure::Constraint)
    );
    assert_eq!(
        repository
            .update(UpdateContent::new(text(1), None, None, None, None, None, text(0x99)))
            .unwrap_err(),
        RepositoryError::Store(StoreFailure::Constraint)
    );
    assert_eq!(
        repository
            .update(UpdateContent::new(text(1), None, Some(text(0x99)), None, None, None, text(BOB)))
            .unwrap_err(),
        RepositoryError::Store(StoreFailure::Constraint)
    );
    let listed = repository.get(GetContentQuery::default()).unwrap();
    assert_eq!(listed.len(), 1);
    assert_eq!(listed[0].title, "title");
    assert_eq!(listed[0].updated_by.name, "alice");
}

#[test]
fn refused_content_commands_leave_the_store_as_it_was() {
    let mut repository = store();
    repository.create_with(id(1), create_command("title", vec![text(T1)])).unwrap();
    let before = states(&repository);
    assert_eq!(
        repository.create(create_command(&"a".repeat(51), vec![])).unwrap_err(),
        RepositoryError::Validation(ValidationError::TitleTooLong)
    );
    assert_eq!(
        repository.create(create_command("", vec![])).unwrap_err(),
        RepositoryError::Validation(ValidationError::TitleEmpty)
    );
    assert_eq!(
        repository
            .update(UpdateContent::new(
                text(1),
                Some("a".repeat(51)),
                None,
                None,
                None,
                None,
                text(BOB)
            ))
            .unwrap_err(),
        RepositoryError::Validation(ValidationError::TitleTooLong)
    );
    assert_eq!(
        repository
            .update(UpdateContent::new("X".into(), None, None, None, None, None, text(BOB)))
            .unwrap_err(),
        RepositoryError::InvalidId(IdField::Id)
    );
    assert_eq!(
        repository
            .update(UpdateContent::new(text(2), None, None, None, None, None, text(BOB)))
            .unwrap_err(),
        RepositoryError::NotFound
    );
    assert_eq!(states(&repository), before);
}

#[test]
fn the_same_content_update_twice_changes_only_the_time() {
    let mut repository = store();
    repository.create_with(id(1), create_command("title", vec![text(T1)])).unwrap();
    repository.create_with(id(2), create_command("other", vec![text(T3)])).unwrap();
    let command = || {
        UpdateContent::new(
            text(1),
            Some("changed".into()),
            Some(text(BLOG)),
            Some(vec![Field::new(FieldType::LongText, "body".into())]),
            Some(vec![text(T2), text(T1)]),
            Some(ContentStatus::Published),
            text(BOB),
        )
    };
    let first = repository.update(command()).unwrap();
    let after_first = states(&repository);
    let second = repository.update(command()).unwrap();
    let after_second = states(&repository);
    assert_eq!(state(&first), state(&second));
    assert_eq!(after_first, after_second);
    assert!(second.updated_at.micros > first.updated_at.micros);
    assert_eq!(first.category.name, "blog");
    assert_eq!(first.fields[0].value, "body");
}

#[test]
fn update_without_optional_fields_only_sets_the_user_and_the_time() {
    let mut repository = store();
    let created = repository.create_with(id(1), create_command("title", vec![text(T1)])).unwrap();
    let updated = repository
        .update(UpdateContent::new(text(1), None, None, None, None, None, text(BOB)))
        .unwrap();
    assert_eq!(updated.title, created.title);
    assert_eq!(updated.category.id, created.category.id);
    assert_eq!(updated.status, created.status);
    assert_eq!(updated.fields.len(), 1);
    assert_eq!(tag_names(&updated), vec!["t1"]);
    assert_eq!(updated.updated_by.name, "bob");
}

#[test]
fn content_get_success() {
    let mut repository = store();
    repository.create_with(id(1), create_command("title", vec![])).unwrap();
    let usecase = ContentUsecase::new(repository);
    let result = usecase.get(GetContentQuery::default());
    assert_eq!(result.is_ok(), true);
    assert_eq!(result.unwrap().len(), 1);
}

#[test]
fn content_create_success() {
    let mut usecase = ContentUsecase::new(store());
    let result = usecase.create(create_command("title", vec![]));
    assert_eq!(result.is_ok(), true);
    assert_eq!(result.unwrap().title, "title");
}

#[test]
fn content_update_success() {
    let mut repository = store();
    repository.create_with(id(1), create_command("title", vec![])).unwrap();
    let mut usecase = ContentUsecase::new(repository);
    let result = usecase.update(UpdateContent::new(
        text(1),
        None,
        None,
        Some(vec![Field::new(FieldType::ShortText, "changed".into())]),
        None,
        Some(ContentStatus::Published),
        text(ALICE),
    ));
    assert_eq!(result.is_ok(), true);
    let content = result.unwrap();
    assert_eq!(content.status, ContentStatus::Published);
    assert_eq!(content.fields[0].value, "changed");
}

#[test]
fn content_use_cases_go_through_the_store() {
    let mut usecase = ContentUsecase::new(store());
    let created = usecase.create(create_command("title", vec![text(T1)])).unwrap();
    assert_eq!(usecase.get(GetContentQuery::default()).unwrap().len(), 1);
    let updated = usecase
        .update(UpdateContent::new(
            created.id.clone(),
            Some("changed".into()),
            None,
            None,
            None,
            None,
            text(BOB),
        ))
        .unwrap();
    assert_eq!(updated.title, "changed");
    assert_eq!(usecase.delete(created.id.clone()), Ok(()));
    assert_eq!(usecase.get(GetContentQuery::default()).unwrap().len(), 0);
}

fn roles() -> Vec<RoleRow> {
    vec![
        RoleRow { id: id(1), name: "admin".into(), description: None, is_super_administrator: true },
        RoleRow {
            id: id(2),
            name: "member".into(),
            description: Some("reads".into()),
            is_super_administrator: false,
        },
    ]
}

#[test]
fn users_are_created_with_their_role() {
    let mut repository = MemoryUserRepository::new(roles());
    let user = repository
        .create(CreateUser::new("alice".into(), "https://example.com/a.png".into(), text(2)))
        .unwrap();
    assert_eq!(user.name, "alice");
    assert_eq!(user.role.id, text(2));
    assert_eq!(user.role.name, "member");
    assert_eq!(user.role.description, Some("reads".to_string()));
    assert_eq!(user.permissions().get("contents"), Some("get".to_string()));
    let found = repository.find(user.id.clone()).unwrap();
    assert_eq!(found.name, "alice");
    assert_eq!(repository.get(GetUserQuery::new(1, 0)).unwrap().len(), 1);
    assert_eq!(repository.get(GetUserQuery::default()).unwrap()[0].id, user.id);
}

#[test]
fn users_are_updated_field_by_field() {
    let mut repository = MemoryUserRepository::new(roles());
    repository
        .create_with(
            id(0x11),
            CreateUser::new("alice".into(), "https://example.com/a.png".into(), text(2)),
        )
        .unwrap();
    let user = repository
        .update(UpdateUser::new(text(0x11), Some("alicia".into()), None, None))
        .unwrap();
    assert_eq!(user.name, "alicia");
    assert_eq!(user.icon_url, "https://example.com/a.png");
    assert_eq!(user.role.name, "member");
    let user = repository.update(UpdateUser::new(text(0x11), None, None, Some(text(1)))).unwrap();
    assert_eq!(user.name, "alicia");
    assert_eq!(user.role.name, "admin");
    assert_eq!(user.role.is_super_administrator, true);
    assert_eq!(
        user.permissions().get("contents"),
        Some("get,find,create,update,delete".to_string())
    );
    assert_eq!(repository.delete(text(0x11)), Ok(()));
    assert_eq!(repository.find(text(0x11)).unwrap_err(), RepositoryError::NotFound);
}

#[test]
fn user_refusals_leave_the_store_as_it_was() {
    let mut repository = MemoryUserRepository::new(roles());
    repository
        .create_with(
            id(0x11),
            CreateUser::new("alice".into(), "https://example.com/a.png".into(), text(2)),
        )
        .unwrap();
    assert_eq!(
        repository
            .create(CreateUser::new("a".repeat(51), "https://example.com".into(), text(2)))
            .unwrap_err(),
        RepositoryError::Validation(ValidationError::NameTooLong)
    );
    assert_eq!(
        repository.create(CreateUser::new("bob".into(), "nope".into(), text(2))).unwrap_err(),
        RepositoryError::Validation(ValidationError::IconUrlInvalid)
    );
    assert_eq!(
        repository
            .create(CreateUser::new("bob".into(), "https://example.com".into(), "role".into()))
            .unwrap_err(),
        RepositoryError::InvalidId(IdField::Role)
    );
    assert_eq!(
        repository
            .create(CreateUser::new("bob".into(), "https://example.com".into(), text(9)))
            .unwrap_err(),
        RepositoryError::Store(StoreFailure::Constraint)
    );
    assert_eq!(
        repository.update(UpdateUser::new(text(0x11), None, None, Some(text(9)))).unwrap_err(),
        RepositoryError::Store(StoreFailure::Constraint)
    );
    assert_eq!(
        repository.update(UpdateUser::new(text(0x11), None, None, None)).unwrap_err(),
        RepositoryError::Validation(ValidationError::NothingToUpdate)
    );
    assert_eq!(
        repository.update(UpdateUser::new(text(0x12), Some("n".into()), None, None)).unwrap_err(),
        RepositoryError::NotFound
    );
    assert_eq!(repository.find("id".into()).unwrap_err(), RepositoryError::InvalidId(IdField::Id));
    let users = repository.get(GetUserQuery::default()).unwrap();
    assert_eq!(users.len(), 1);
    assert_eq!(users[0].name, "alice");
    assert_eq!(users[0].role.name, "member");
}
