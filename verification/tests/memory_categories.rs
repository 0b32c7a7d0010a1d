use headless_cms::error::{IdField, RepositoryError, StoreFailure, ValidationError};
use headless_cms::ident::EntityId;
use headless_cms::memory::category::MemoryCategoryRepository;
use headless_cms::memory::content_model::MemoryContentModelRepository;
use headless_cms::memory::tag::MemoryTagRepository;
use headless_cms::model::category::Category;
use headless_cms::repository::category::{
    CategoryRepository, CreateCategory, GetCategoryQuery, UpdateCategory,
};
use headless_cms::repository::content_model::{
    ContentModelRepository, CreateContentModel, UpdateContentModel,
};
use headless_cms::repository::tag::{CreateTag, GetTagQuery, TagRepository, UpdateTag};
use headless_cms::usecase::category::{
    CategoryUsecase, CreateCategoryInput, GetCategoryInput, UpdateCategoryInput,
};
use headless_cms::usecase::content_model::ContentModelUsecase;

fn id(n: u128) -> EntityId {
    EntityId { value: 0x0192f3a0_0000_7000_8000_000000000000 + n }
}

fn seeded() -> MemoryCategoryRepository {
    let mut repository = MemoryCategoryRepository::new();
    for n in 1..=3 {
        repository
            .create_with(
                id(n),
                CreateCategory::new(format!("name{}", n), format!("api-{}", n), Some("d".into())),
            )
            .unwrap();
    }
    repository
}

fn fields(category: &Category) -> (String, String, String, Option<String>) {
    (
        category.id.clone(),
        category.name.clone(),
        category.api_identifier.clone(),
        category.description.clone(),
    )
}

#[test]
fn category_repository_get_success() {
    let repository = seeded();
    let result = repository.get(GetCategoryQuery::default());
    assert_eq!(result.is_ok(), true);
    let names: Vec<String> = result.unwrap().into_iter().map(|c| c.name).collect();
    assert_eq!(names, vec!["name1", "name2", "name3"]);
}

#[test]
fn category_repository_create_success() {
    let mut repo = MemoryCategoryRepository::new();
    let create_data = CreateCategory::new(
        "sample1".into(),
        "sample1".into(),
        Some("sample1 content model".into()),
    );
    let result = repo.create(create_data);
    assert_eq!(result.is_ok(), true);
    let category = result.unwrap();
    assert_eq!(category.name, "sample1");
    assert_eq!(category.api_identifier, "sample1");
    assert_eq!(category.description, Some("sample1 content model".to_string()));
    let id = EntityId::parse(&category.id).unwrap();
    assert_eq!(id.to_text(), category.id);
    let listed = repo.get(GetCategoryQuery::default()).unwrap();
    assert_eq!(listed.len(), 1);
    assert_eq!(fields(&listed[0]), fields(&category));
}

#[test]
fn category_repository_update_success() {
    let mut repo = seeded();
    let categories = repo.get(GetCategoryQuery::default()).unwrap();
    let category = categories.get(0).unwrap();
    let data = UpdateCategory::new(category.id.to_string(), Some("update-test".into()), None, None);
    let result = repo.update(data);
    assert_eq!(result.is_ok(), true);
    assert_eq!(result.unwrap().name, "update-test");
}

#[test]
fn category_repository_delete_success() {
    let mut repository = seeded();
    let categories = repository.get(GetCategoryQuery::default()).unwrap();
    let category = categories.get(0).unwrap();
    let result = repository.delete(category.id.to_string());
    assert_eq!(result.is_ok(), true);
}

#[test]
fn partial_update_leaves_untouched_fields_as_they_were() {
    let mut repository = MemoryCategoryRepository::new();
    let stored = repository
        .create_with(id(0x58), CreateCategory::new("old".into(), "api-old".into(), Some("d".into())))
        .unwrap();
    let x = stored.id.clone();
    let updated =
        repository.update(UpdateCategory::new(x.clone(), Some("new".into()), None, None)).unwrap();
    assert_eq!(
        fields(&updated),
        (x.clone(), "new".to_string(), "api-old".to_string(), Some("d".to_string()))
    );
    let listed = repository.get(GetCategoryQuery::default()).unwrap();
    assert_eq!(listed.len(), 1);
    assert_eq!(fields(&listed[0]), fields(&updated));
}

#[test]
fn update_keeps_the_place_of_the_row_and_the_other_rows() {
    let mut repository = seeded();
    let second = id(2).to_text();
    repository
        .update(UpdateCategory::new(second.clone(), None, Some("api-new".into()), Some("".into())))
        .unwrap();
    let listed = repository.get(GetCategoryQuery::default()).unwrap();
    let shown: Vec<_> = listed.iter().map(fields).collect();
    assert_eq!(
        shown,
        vec![
            (id(1).to_text(), "name1".into(), "api-1".into(), Some("d".into())),
            (second, "name2".into(), "api-new".into(), Some("".into())),
            (id(3).to_text(), "name3".into(), "api-3".into(), Some("d".into())),
        ]
    );
}

#[test]
fn the_same_update_twice_leaves_the_same_rows() {
    let mut repository = seeded();
    let command =
        || UpdateCategory::new(id(2).to_text(), Some("new".into()), None, Some("x".into()));
    let first = repository.update(command()).unwrap();
    let after_first: Vec<_> =
        repository.get(GetCategoryQuery::default()).unwrap().iter().map(fields).collect();
    let second = repository.update(command()).unwrap();
    let after_second: Vec<_> =
        repository.get(GetCategoryQuery::default()).unwrap().iter().map(fields).collect();
    assert_eq!(fields(&first), fields(&second));
    assert_eq!(after_first, after_second);
}

#[test]
fn deleted_category_is_not_listed_any_more() {
    let mut repository = seeded();
    let x = id(2).to_text();
    assert_eq!(repository.delete(x.clone()), Ok(()));
    let listed = repository.get(GetCategoryQuery::default()).unwrap();
    assert_eq!(listed.len(), 2);
    assert!(listed.iter().all(|c| c.id != x));
    assert_eq!(
        listed.iter().map(|c| c.name.clone()).collect::<Vec<_>>(),
        vec!["name1", "name3"]
    );
    assert_eq!(repository.delete(x.clone()), Err(RepositoryError::NotFound));
    assert_eq!(
        repository.update(UpdateCategory::new(x, Some("n".into()), None, None)).unwrap_err(),
        RepositoryError::NotFound
    );
}

#[test]
fn refused_commands_leave_the_store_as_it_was() {
    let mut repository = seeded();
    let before: Vec<_> =
        repository.get(GetCategoryQuery::default()).unwrap().iter().map(fields).collect();
    assert_eq!(
        repository.create(CreateCategory::new("a".repeat(51), "a".into(), None)).unwrap_err(),
        RepositoryError::Validation(ValidationError::NameTooLong)
    );
    assert_eq!(
        repository.create(CreateCategory::new("a".into(), "a".repeat(65), None)).unwrap_err(),
        RepositoryError::Validation(ValidationError::ApiIdentifierTooLong)
    );
    assert_eq!(
        repository
            .create(CreateCategory::new("a".into(), "a".into(), Some("a".repeat(501))))
            .unwrap_err(),
        RepositoryError::Validation(ValidationError::DescriptionTooLong)
    );
    assert_eq!(
        repository
            .update(UpdateCategory::new(id(1).to_text(), Some("a".repeat(51)), None, None))
            .unwrap_err(),
        RepositoryError::Validation(ValidationError::NameTooLong)
    );
    assert_eq!(
        repository
            .update(UpdateCategory::new(id(1).to_text(), None, Some("a".repeat(65)), None))
            .unwrap_err(),
        RepositoryError::Validation(ValidationError::ApiIdentifierTooLong)
    );
    assert_eq!(
        repository
            .update(UpdateCategory::new(id(1).to_text(), None, None, Some("a".repeat(501))))
            .unwrap_err(),
        RepositoryError::Validation(ValidationError::DescriptionTooLong)
    );
    assert_eq!(
        repository.update(UpdateCategory::new(id(1).to_text(), None, None, None)).unwrap_err(),
        RepositoryError::Validation(ValidationError::NothingToUpdate)
    );
    assert_eq!(
        repository.update(UpdateCategory::new("X".into(), Some("n".into()), None, None)).unwrap_err(),
        RepositoryError::InvalidId(IdField::Id)
    );
    assert_eq!(repository.delete("X".into()), Err(RepositoryError::InvalidId(IdField::Id)));
    assert_eq!(
        repository
            .create_with(id(1), CreateCategory::new("n".into(), "a".into(), None))
            .unwrap_err(),
        RepositoryError::Store(StoreFailure::Constraint)
    );
    let after: Vec<_> =
        repository.get(GetCategoryQuery::default()).unwrap().iter().map(fields).collect();
    assert_eq!(before, after);
}

#[test]
fn pages_skip_the_offset_and_stop_at_the_limit() {
    let repository = seeded();
    let names = |limit, offset| -> Vec<String> {
        repository
            .get(GetCategoryQuery::new(limit, offset))
            .unwrap()
            .into_iter()
            .map(|c| c.name)
            .collect()
    };
    assert_eq!(names(2, 0), vec!["name1", "name2"]);
    assert_eq!(names(2, 1), vec!["name2", "name3"]);
    assert_eq!(names(2, 2), vec!["name3"]);
    assert_eq!(names(2, 3), Vec::<String>::new());
    assert_eq!(names(0, 0), Vec::<String>::new());
    assert_eq!(names(i32::MAX, i32::MAX), Vec::<String>::new());
    assert_eq!(names(i32::MAX, 0).len(), 3);
    assert_eq!(
        repository.get(GetCategoryQuery::new(-1, 0)).unwrap_err(),
        RepositoryError::Store(StoreFailure::Other)
    );
    assert_eq!(
        repository.get(GetCategoryQuery::new(1, -1)).unwrap_err(),
        RepositoryError::Store(StoreFailure::Other)
    );
}

#[test]
fn categories_are_listed_by_identifier_whatever_the_order_of_creation() {
    let mut repository = MemoryCategoryRepository::new();
    for n in [2u128, 1, 5, 3, 4] {
        repository
            .create_with(
                id(n),
                CreateCategory::new(format!("name{}", n), format!("api-{}", n), None),
            )
            .unwrap();
    }
    let names = |limit, offset| -> Vec<String> {
        repository
            .get(GetCategoryQuery::new(limit, offset))
            .unwrap()
            .into_iter()
            .map(|c| c.name)
            .collect()
    };
    assert_eq!(names(100, 0), vec!["name1", "name2", "name3", "name4", "name5"]);
    assert_eq!(names(2, 1), vec!["name2", "name3"]);
    assert_eq!(names(2, 4), vec!["name5"]);
    let listed = repository.get(GetCategoryQuery::default()).unwrap();
    let ids: Vec<EntityId> = listed.iter().map(|c| EntityId::parse(&c.id).unwrap()).collect();
    assert!(ids.windows(2).all(|pair| pair[0].value < pair[1].value));
}

#[test]
fn order_by_identifier_outlasts_updates_and_deletions() {
    let mut repository = MemoryCategoryRepository::new();
    for n in [3u128, 1, 2] {
        repository
            .create_with(id(n), CreateCategory::new(format!("name{}", n), "a".into(), None))
            .unwrap();
    }
    repository
        .update(UpdateCategory::new(id(1).to_text(), Some("zz".into()), None, None))
        .unwrap();
    repository.delete(id(2).to_text()).unwrap();
    repository.create_with(id(0), CreateCategory::new("name0".into(), "a".into(), None)).unwrap();
    let names: Vec<String> = repository
        .get(GetCategoryQuery::default())
        .unwrap()
        .into_iter()
        .map(|c| c.name)
        .collect();
    assert_eq!(names, vec!["name0", "zz", "name3"]);
}

#[test]
fn tags_are_listed_by_identifier_whatever_the_order_of_creation() {
    let mut repository = MemoryTagRepository::new();
    for n in [2u128, 3, 1] {
        repository.create_with(id(n), CreateTag::new(format!("t{}", n), None)).unwrap();
    }
    let names: Vec<String> =
        repository.get(GetTagQuery::default()).unwrap().into_iter().map(|t| t.name).collect();
    assert_eq!(names, vec!["t1", "t2", "t3"]);
    repository.delete(id(1).to_text()).unwrap();
    repository.create_with(id(1), CreateTag::new("again".into(), None)).unwrap();
    let names: Vec<String> =
        repository.get(GetTagQuery::new(2, 0)).unwrap().into_iter().map(|t| t.name).collect();
    assert_eq!(names, vec!["again", "t2"]);
}

#[test]
fn category_get_success() {
    let usecase = CategoryUsecase::new(seeded());
    let result = usecase.get(GetCategoryInput::default());
    assert_eq!(result.is_ok(), true);
    assert_eq!(result.unwrap().len(), 3);
}

#[test]
fn category_create_success() {
    let mut usecase = CategoryUsecase::new(MemoryCategoryRepository::new());
    let result = usecase.create(CreateCategoryInput::new(
        "sample1".into(),
        "sample1".into(),
        Some("sample1 content model".into()),
    ));
    assert_eq!(result.is_ok(), true);
    let created = result.unwrap();
    assert_eq!(created.name, "sample1");
    assert_eq!(created.api_identifier, "sample1");
    assert_eq!(created.description, Some("sample1 content model".to_string()));
}

#[test]
fn category_update_success() {
    let mut usecase = CategoryUsecase::new(seeded());
    let result = usecase.update(UpdateCategoryInput::new(
        id(1).to_text(),
        Some("update-test".into()),
        None,
        None,
    ));
    assert_eq!(result.is_ok(), true);
    assert_eq!(usecase.get(GetCategoryInput::default()).unwrap()[0].name, "update-test");
}

#[test]
fn category_delete_success() {
    let mut usecase = CategoryUsecase::new(seeded());
    let result = usecase.delete(id(1).to_text());
    assert_eq!(result.is_ok(), true);
    assert_eq!(usecase.get(GetCategoryInput::default()).unwrap().len(), 2);
}

#[test]
fn tag_repository_get_success() {
    let mut repository = MemoryTagRepository::new();
    repository.create_with(id(1), CreateTag::new("Rust".into(), None)).unwrap();
    let result = repository.get(GetTagQuery::new(10, 0));
    assert_eq!(result.is_ok(), true);
    assert_eq!(result.unwrap()[0].description, "");
}

#[test]
fn tag_repository_create_success() {
    let mut repository = MemoryTagRepository::new();
    let tag = CreateTag::new("Rust".into(), Some("Rust tags".into()));
    let result = repository.create(tag);
    assert_eq!(result.is_ok(), true);
    let tag = result.unwrap();
    assert_eq!(tag.name, "Rust");
    assert_eq!(tag.description, "Rust tags");
}

#[test]
fn tag_repository_update_success() {
    let mut repository = MemoryTagRepository::new();
    repository.create_with(id(1), CreateTag::new("Rust".into(), Some("Rust tags".into()))).unwrap();
    let rows = repository.get(GetTagQuery::new(10, 0)).unwrap();
    let row = rows.get(0).unwrap();
    let tag = UpdateTag::new(row.id.clone(), Some("NoRust".into()), Some("No Rust Tags".into()));
    let result = repository.update(tag);
    assert_eq!(result.is_ok(), true);
    let tag = result.unwrap();
    assert_eq!((tag.name.as_str(), tag.description.as_str()), ("NoRust", "No Rust Tags"));
    let tag = repository.update(UpdateTag::new(row.id.clone(), None, Some("d".into()))).unwrap();
    assert_eq!((tag.name.as_str(), tag.description.as_str()), ("NoRust", "d"));
}

#[test]
fn tag_repository_delete_success() {
    let mut repository = MemoryTagRepository::new();
    repository.create_with(id(1), CreateTag::new("Rust".into(), None)).unwrap();
    let rows = repository.get(GetTagQuery::new(10, 0)).unwrap();
    let row = rows.get(0).unwrap();
    let result = repository.delete(row.id.clone());
    assert_eq!(result.is_ok(), true);
    assert_eq!(repository.get(GetTagQuery::new(10, 0)).unwrap().len(), 0);
}

#[test]
fn tag_refusals_leave_the_store_as_it_was() {
    let mut repository = MemoryTagRepository::new();
    repository.create_with(id(1), CreateTag::new("Rust".into(), None)).unwrap();
    assert_eq!(
        repository.create(CreateTag::new("a".repeat(51), None)).unwrap_err(),
        RepositoryError::Validation(ValidationError::NameTooLong)
    );
    assert_eq!(
        repository.update(UpdateTag::new(id(1).to_text(), None, Some("a".repeat(501)))).unwrap_err(),
        RepositoryError::Validation(ValidationError::DescriptionTooLong)
    );
    assert_eq!(
        repository.update(UpdateTag::new(id(1).to_text(), None, None)).unwrap_err(),
        RepositoryError::Validation(ValidationError::NothingToUpdate)
    );
    assert_eq!(
        repository.update(UpdateTag::new(id(2).to_text(), Some("n".into()), None)).unwrap_err(),
        RepositoryError::NotFound
    );
    let tags = repository.get(GetTagQuery::default()).unwrap();
    assert_eq!(tags.len(), 1);
    assert_eq!(tags[0].name, "Rust");
}

#[test]
fn content_model_get_success() {
    let mut repository = MemoryContentModelRepository::new();
    repository
        .create_with(id(1), CreateContentModel::new("name".into(), "api_identifier".into(), None))
        .unwrap();
    let usecase = ContentModelUsecase::new(repository);
    let result = usecase.get();
    assert_eq!(result.is_ok(), true);
    let models = result.unwrap();
    assert_eq!(models.len(), 1);
    assert_eq!(models[0].name, "name");
    assert_eq!(models[0].field_metas.len(), 0);
}

#[test]
fn content_model_create_success() {
    let mut usecase = ContentModelUsecase::new(MemoryContentModelRepository::new());
    let result = usecase.create(CreateContentModel::new(
        "sample1".into(),
        "sample1".into(),
        Some("sample1 content model".into()),
    ));
    assert_eq!(result.is_ok(), true);
    let model = result.unwrap();
    assert_eq!(model.name, "sample1");
    assert_eq!(model.description, Some("sample1 content model".to_string()));
}

#[test]
fn content_model_update_success() {
    let mut repository = MemoryContentModelRepository::new();
    repository
        .create_with(id(1), CreateContentModel::new("name".into(), "api_identifier".into(), None))
        .unwrap();
    let mut usecase = ContentModelUsecase::new(repository);
    let result = usecase.update(UpdateContentModel::new(
        id(1).to_text(),
        Some("new_name".into()),
        Some("new_api_identifier".into()),
        None,
    ));
    assert_eq!(result.is_ok(), true);
    let model = result.unwrap();
    assert_eq!(model.name, "new_name");
    assert_eq!(model.api_identifier, "new_api_identifier");
    assert_eq!(model.description, Some("".to_string()));
}

#[test]
fn content_model_delete_success() {
    let mut repository = MemoryContentModelRepository::new();
    repository
        .create_with(id(1), CreateContentModel::new("name".into(), "api_identifier".into(), None))
        .unwrap();
    let mut usecase = ContentModelUsecase::new(repository);
    let result = usecase.delete(id(1).to_text());
    assert_eq!(result.is_ok(), true);
    assert_eq!(usecase.get().unwrap().len(), 0);
    assert_eq!(usecase.delete(id(1).to_text()), Err(RepositoryError::NotFound));
    assert_eq!(
        usecase.repository.delete("id".into()),
        Err(RepositoryError::InvalidId(IdField::Id))
    );
}
