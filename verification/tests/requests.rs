use imagekit::delete;
use imagekit::file_details;
use imagekit::management::list_files::{Operator, Options, SearchQueryBuilder};
use imagekit::upload;
use imagekit::upload::UploadFile;

fn pairs(options: &Options) -> Vec<(String, String)> {
    options
        .query_parameters()
        .into_iter()
        .map(|(name, value)| (name.to_string(), value))
        .collect()
}

fn pair(name: &str, value: &str) -> (String, String) {
    (name.to_string(), value.to_string())
}

#[test]
fn list_options_without_fields_give_no_parameters() {
    assert_eq!(pairs(&Options::new()), vec![]);
    assert_eq!(pairs(&Options::default()), vec![]);
}

#[test]
fn list_options_with_skip_and_limit() {
    let options = Options::new().skip(1).limit(3);
    assert_eq!(pairs(&options), vec![pair("skip", "1"), pair("limit", "3")]);
}

#[test]
fn list_options_parameters_come_in_fixed_order() {
    let query = SearchQueryBuilder::size(Operator::GreaterThan, 100)
        .and(SearchQueryBuilder::tags(Operator::In, &["summer-sale"]).build())
        .build();
    let options = Options::new()
        .limit(4294967295)
        .skip(0)
        .tags("a,b")
        .path("/folder")
        .search_query(query);
    assert_eq!(
        pairs(&options),
        vec![
            pair("searchQuery", "size > 100 and (tags IN [\"summer-sale\"])"),
            pair("path", "/folder"),
            pair("tags", "a,b"),
            pair("skip", "0"),
            pair("limit", "4294967295"),
        ]
    );
}

#[test]
fn list_options_with_raw_query() {
    let query = SearchQueryBuilder::raw_query_string("name=\"default-image.jpg\"").build();
    let options = Options::new().search_query(query);
    assert_eq!(
        pairs(&options),
        vec![pair("searchQuery", "name=\"default-image.jpg\"")]
    );
}

#[test]
fn tags_of_several_values() {
    let none: [&str; 0] = [];
    assert_eq!(
        SearchQueryBuilder::tags(Operator::NotIn, &none)
            .build()
            .to_string(),
        "tags NOT IN []"
    );
    assert_eq!(
        SearchQueryBuilder::tags(Operator::In, &["a", "b", ",c"])
            .build()
            .to_string(),
        "tags IN [\"a\",\"b\",\",c\"]"
    );
}

#[test]
fn predicates_of_each_field() {
    assert_eq!(
        SearchQueryBuilder::created_at(Operator::GreaterThanOrEqualTo, "\"7d\"")
            .build()
            .to_string(),
        "createdAt >= \"7d\""
    );
    assert_eq!(
        SearchQueryBuilder::updated_at(Operator::LessThan, "\"2024-01-01\"")
            .build()
            .to_string(),
        "updatedAt < \"2024-01-01\""
    );
    assert_eq!(
        SearchQueryBuilder::height(Operator::LessThanOrEqualTo, "640")
            .build()
            .to_string(),
        "height <= 640"
    );
    assert_eq!(
        SearchQueryBuilder::width(Operator::NotEqualTo, "640")
            .build()
            .to_string(),
        "width NOT = 640"
    );
    assert_eq!(
        SearchQueryBuilder::name(Operator::Colon, "\"ferris\"")
            .build()
            .to_string(),
        "name : \"ferris\""
    );
    assert_eq!(
        SearchQueryBuilder::size(Operator::EqualTo, 0).build().to_string(),
        "size = 0"
    );
    assert_eq!(
        SearchQueryBuilder::private(false).build().to_string(),
        "private = false"
    );
    assert_eq!(
        SearchQueryBuilder::published(true).build().to_string(),
        "published = true"
    );
    assert_eq!(
        SearchQueryBuilder::transparency(false).build().to_string(),
        "transparency = false"
    );
}

#[test]
fn composition_is_a_left_fold() {
    let a = || SearchQueryBuilder::raw_query_string("A");
    let b = || SearchQueryBuilder::raw_query_string("B");
    let c = || SearchQueryBuilder::raw_query_string("C");
    assert_eq!(a().and(b().build()).build().to_string(), "A and (B)");
    assert_eq!(
        a().and(b().or(c().build()).build()).build().to_string(),
        "A and (B or (C))"
    );
    assert_eq!(
        a().and(b().build()).or(c().build()).build().to_string(),
        "A and (B) or (C)"
    );
}

#[test]
fn delete_goes_to_the_file() {
    assert_eq!(
        delete::endpoint("abc123"),
        "https://api.imagekit.io/v1/files/abc123"
    );
    assert!(delete::is_deleted(204));
    assert!(!delete::is_deleted(200));
    assert!(!delete::is_deleted(404));
}

#[test]
fn details_go_to_the_file() {
    assert_eq!(
        file_details::endpoint("abc123"),
        "https://api.imagekit.io/v1/files/abc123/details"
    );
    assert!(file_details::is_found(200));
    assert!(!file_details::is_found(204));
}

#[test]
fn upload_options_default_to_the_upload_endpoint() {
    let (endpoint, file, file_name) =
        upload::Options::new(UploadFile::from(vec![1u8, 2, 3]), "ferris").into_parts();
    assert_eq!(endpoint, "https://upload.imagekit.io/api/v1/files/upload");
    assert_eq!(endpoint, upload::UPLOAD_ENDPOINT);
    assert!(matches!(file, UploadFile::Bytes(bytes) if bytes == vec![1u8, 2, 3]));
    assert_eq!(file_name, "ferris");
}

#[test]
fn upload_options_take_another_endpoint() {
    let options = upload::Options::new(UploadFile::Bytes(vec![]), "ferris")
        .endpoint("https://example.com/upload");
    let (endpoint, _, file_name) = options.into_parts();
    assert_eq!(endpoint, "https://example.com/upload");
    assert_eq!(file_name, "ferris");
}

#[test]
fn upload_options_by_default_are_untitled_and_empty() {
    let (endpoint, file, file_name) = upload::Options::default().into_parts();
    assert_eq!(endpoint, upload::UPLOAD_ENDPOINT);
    assert!(matches!(file, UploadFile::Bytes(bytes) if bytes.is_empty()));
    assert_eq!(file_name, "untitled");
    assert!(upload::is_uploaded(200));
    assert!(!upload::is_uploaded(201));
}
