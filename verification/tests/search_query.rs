use imagekit::management::list_files::{Operator, SearchQuery, SearchQueryBuilder};

#[test]
fn search_name() {
    let query = SearchQueryBuilder::name(Operator::EqualTo, "\"default-image.jpg\"").build();
    assert_eq!(query.to_string(), "name = \"default-image.jpg\"");
}

#[test]
fn search_size() {
    let query = SearchQueryBuilder::size(Operator::GreaterThan, 200).build();
    assert_eq!(query.to_string(), "size > 200");
}

#[test]
fn search_size_special() {
    let query = SearchQueryBuilder::size_special(Operator::GreaterThan, "1mb").build();
    assert_eq!(query.to_string(), "size > \"1mb\"");
}

#[test]
fn search_advanced_and() {
    let query = SearchQueryBuilder::size(Operator::GreaterThan, 100)
        .and(SearchQueryBuilder::tags(Operator::In, &["summer-sale"]).build())
        .build();
    assert_eq!(
        query.to_string(),
        "size > 100 and (tags IN [\"summer-sale\"])"
    );
}

#[test]
fn search_advanced_and_or() {
    let query = SearchQueryBuilder::private(true)
        .and(
            SearchQueryBuilder::size(Operator::GreaterThan, 200)
                .or(SearchQueryBuilder::tags(Operator::In, &["summer-sale"]).build())
                .build(),
        )
        .build();
    assert_eq!(
        query.to_string(),
        "private = true and (size > 200 or (tags IN [\"summer-sale\"]))"
    );
}

#[test]
fn operators_render_their_tokens() {
    assert_eq!(Operator::EqualTo.to_string(), "=");
    assert_eq!(Operator::NotEqualTo.to_string(), "NOT =");
    assert_eq!(Operator::Colon.to_string(), ":");
    assert_eq!(Operator::In.to_string(), "IN");
    assert_eq!(Operator::NotIn.to_string(), "NOT IN");
    assert_eq!(Operator::GreaterThan.to_string(), ">");
    assert_eq!(Operator::GreaterThanOrEqualTo.to_string(), ">=");
    assert_eq!(Operator::LessThan.to_string(), "<");
    assert_eq!(Operator::LessThanOrEqualTo.to_string(), "<=");
}

#[test]
fn raw_query_string_is_taken_as_it_stands() {
    let query = SearchQueryBuilder::raw_query_string("name=\"default-image.jpg\"").build();
    assert_eq!(query.to_string(), "name=\"default-image.jpg\"");
    let odd = SearchQueryBuilder::raw_query_string(" ( ) and or ").build();
    assert_eq!(odd.to_string(), " ( ) and or ");
}

#[test]
fn search_query_can_be_written_directly() {
    let query = SearchQuery("size > 1".into());
    assert_eq!(query.to_string(), "size > 1");
    let joined = SearchQueryBuilder::raw_query_string("a").or(query).build();
    assert_eq!(joined.to_string(), "a or (size > 1)");
}
