use imagekit::error::UrlError;
use imagekit::url::{generate, Options, QueryParameters, Utils};
use imagekit::{Transformation, TransformationPosition};

const ENDPOINT: &str = "https://ik.imagekit.io/demo";

fn square() -> Transformation {
    Transformation::new().width(200).height(200).aspect_raio("1-1")
}

#[test]
fn transformation_without_fields_fails() {
    assert_eq!(
        Transformation::new().transform(),
        Err(UrlError::EmptyTransformation)
    );
    assert_eq!(
        Transformation::default().transform(),
        Err(UrlError::EmptyTransformation)
    );
}

#[test]
fn transformation_with_width_only_has_no_leading_comma() {
    assert_eq!(
        Transformation::new().width(200).transform(),
        Ok("w-200".to_string())
    );
    assert_eq!(
        Transformation::new().width(0).transform(),
        Ok("w-0".to_string())
    );
    assert_eq!(
        Transformation::new().width(u32::MAX).transform(),
        Ok("w-4294967295".to_string())
    );
}

#[test]
fn transformation_with_height_or_aspect_ratio_only() {
    assert_eq!(
        Transformation::new().height(75).transform(),
        Ok("h-75".to_string())
    );
    assert_eq!(
        Transformation::new().aspect_raio("16-9").transform(),
        Ok("ar-16-9".to_string())
    );
    assert_eq!(
        Transformation::new().aspect_raio("").transform(),
        Ok("ar-".to_string())
    );
}

#[test]
fn transformation_order_is_fixed() {
    assert_eq!(square().transform(), Ok("w-200,h-200,ar-1-1".to_string()));
    let reversed = Transformation::new()
        .aspect_raio("1-1")
        .height(300)
        .width(1000);
    assert_eq!(reversed.transform(), Ok("w-1000,h-300,ar-1-1".to_string()));
    let pair = Transformation::new().aspect_raio("2-1").height(200);
    assert_eq!(pair.transform(), Ok("h-200,ar-2-1".to_string()));
}

#[test]
fn transformation_setting_a_field_twice_keeps_the_last() {
    assert_eq!(
        Transformation::new().width(1).width(20).transform(),
        Ok("w-20".to_string())
    );
}

#[test]
fn transformation_strips_commas_at_the_end() {
    assert_eq!(
        Transformation::new().width(5).aspect_raio("4-3,,").transform(),
        Ok("w-5,ar-4-3".to_string())
    );
    assert_eq!(
        Transformation::new().aspect_raio(",").transform(),
        Ok("ar-".to_string())
    );
    assert_eq!(
        Transformation::new().aspect_raio(",1-1").transform(),
        Ok("ar-,1-1".to_string())
    );
}

#[test]
fn url_with_transformation_in_path() {
    let options = Options::new(square()).path("ferris_x");
    assert_eq!(
        generate(ENDPOINT, options),
        Ok(format!("{ENDPOINT}/tr:w-200,h-200,ar-1-1/ferris_x"))
    );
}

#[test]
fn url_with_transformation_in_query() {
    let options = Options::new(square())
        .path("ferris_x")
        .transformation_position(TransformationPosition::Query);
    assert_eq!(
        generate(ENDPOINT, options),
        Ok(format!("{ENDPOINT}/ferris_x?tr=w-200,h-200,ar-1-1"))
    );
}

#[test]
fn url_for_src_puts_transformation_in_query() {
    let transformation = Transformation::new().width(200);
    let options = Options::new(transformation).src("https://host/ferris");
    assert_eq!(
        generate(ENDPOINT, options),
        Ok("https://host/ferris?tr=w-200".to_string())
    );
}

#[test]
fn url_for_src_ignores_requested_position() {
    let asked_path = Options::new(Transformation::new().width(200))
        .src("https://host/ferris")
        .transformation_position(TransformationPosition::Path);
    let asked_query = Options::new(Transformation::new().width(200))
        .src("https://host/ferris")
        .transformation_position(TransformationPosition::Query);
    assert_eq!(
        asked_path.effective_position(),
        TransformationPosition::Query
    );
    assert_eq!(
        generate(ENDPOINT, asked_path),
        Ok("https://host/ferris?tr=w-200".to_string())
    );
    assert_eq!(
        generate(ENDPOINT, asked_query),
        Ok("https://host/ferris?tr=w-200".to_string())
    );
}

#[test]
fn url_with_path_and_src_is_a_conflict() {
    let options = Options::new(square())
        .path("ferris_x")
        .src("https://host/ferris");
    assert_eq!(
        generate(ENDPOINT, options),
        Err(UrlError::ConflictingInputs)
    );
}

#[test]
fn url_conflict_comes_before_empty_transformation() {
    let options = Options::new(Transformation::new())
        .path("ferris_x")
        .src("https://host/ferris")
        .transformation_position(TransformationPosition::Query);
    assert_eq!(
        generate(ENDPOINT, options),
        Err(UrlError::ConflictingInputs)
    );
}

#[test]
fn url_with_empty_transformation_fails() {
    let by_path = Options::new(Transformation::new()).path("ferris_x");
    assert_eq!(
        generate(ENDPOINT, by_path),
        Err(UrlError::EmptyTransformation)
    );
    let by_src = Options::new(Transformation::new()).src("https://host/ferris");
    assert_eq!(
        generate(ENDPOINT, by_src),
        Err(UrlError::EmptyTransformation)
    );
    let nothing = Options::default();
    assert_eq!(
        generate(ENDPOINT, nothing),
        Err(UrlError::EmptyTransformation)
    );
}

#[test]
fn url_without_path_or_src_misses_a_field() {
    let in_path = Options::new(square());
    assert_eq!(
        generate(ENDPOINT, in_path),
        Err(UrlError::MissingRequiredField)
    );
    let in_query = Options::new(square()).transformation_position(TransformationPosition::Query);
    assert_eq!(
        generate(ENDPOINT, in_query),
        Err(UrlError::MissingRequiredField)
    );
}

#[test]
fn url_path_mode_strips_slashes_around_path() {
    let options = Options::new(Transformation::new().width(10)).path("//folder/ferris.jpg/");
    assert_eq!(
        generate(ENDPOINT, options),
        Ok(format!("{ENDPOINT}/tr:w-10/folder/ferris.jpg"))
    );
    let only_slashes = Options::new(Transformation::new().width(10)).path("///");
    assert_eq!(
        generate(ENDPOINT, only_slashes),
        Ok(format!("{ENDPOINT}/tr:w-10/"))
    );
}

#[test]
fn url_query_mode_keeps_path_as_given() {
    let options = Options::new(Transformation::new().width(10))
        .path("/folder/ferris.jpg/")
        .transformation_position(TransformationPosition::Query);
    assert_eq!(
        generate(ENDPOINT, options),
        Ok(format!("{ENDPOINT}//folder/ferris.jpg/?tr=w-10"))
    );
}

#[test]
fn url_endpoint_of_options_replaces_default() {
    let options = Options::new(Transformation::new().height(7))
        .path("ferris_x")
        .url_endpoint("https://images.example.com");
    assert_eq!(
        generate(ENDPOINT, options),
        Ok("https://images.example.com/tr:h-7/ferris_x".to_string())
    );
}

fn two_parameters() -> QueryParameters {
    let mut parameters = QueryParameters::new();
    assert_eq!(parameters.insert("v".to_string(), "2".to_string()), None);
    assert_eq!(parameters.insert("a".to_string(), "b c".to_string()), None);
    parameters
}

#[test]
fn url_path_mode_appends_parameters_after_question_mark() {
    let options = Options::new(Transformation::new().width(10))
        .path("ferris_x")
        .query_parameters(two_parameters());
    assert_eq!(
        generate(ENDPOINT, options),
        Ok(format!("{ENDPOINT}/tr:w-10/ferris_x?v=2&a=b c"))
    );
}

#[test]
fn url_query_mode_appends_parameters_after_ampersand() {
    let by_path = Options::new(Transformation::new().width(10))
        .path("ferris_x")
        .transformation_position(TransformationPosition::Query)
        .query_parameters(two_parameters());
    assert_eq!(
        generate(ENDPOINT, by_path),
        Ok(format!("{ENDPOINT}/ferris_x?tr=w-10&v=2&a=b c"))
    );
    let by_src = Options::new(Transformation::new().width(10))
        .src("https://host/ferris")
        .query_parameters(two_parameters());
    assert_eq!(
        generate(ENDPOINT, by_src),
        Ok("https://host/ferris?tr=w-10&v=2&a=b c".to_string())
    );
}

#[test]
fn url_with_no_parameters_in_the_map_appends_nothing() {
    let options = Options::new(Transformation::new().width(10))
        .path("ferris_x")
        .query_parameters(QueryParameters::new());
    assert_eq!(
        generate(ENDPOINT, options),
        Ok(format!("{ENDPOINT}/tr:w-10/ferris_x"))
    );
}

#[test]
fn query_parameters_keep_insertion_order() {
    let mut parameters = QueryParameters::new();
    assert_eq!(parameters.len(), 0);
    parameters.insert("zeta".to_string(), "1".to_string());
    parameters.insert("alpha".to_string(), "2".to_string());
    parameters.insert("mid".to_string(), "3".to_string());
    assert_eq!(parameters.len(), 3);
    let options = Options::new(Transformation::new()).query_parameters(parameters);
    assert_eq!(
        Utils::concat_query_parameters(&options),
        "zeta=1&alpha=2&mid=3"
    );
}

#[test]
fn query_parameters_replace_value_in_place() {
    let mut parameters = QueryParameters::new();
    parameters.insert("zeta".to_string(), "1".to_string());
    parameters.insert("alpha".to_string(), "2".to_string());
    assert_eq!(
        parameters.insert("zeta".to_string(), "9".to_string()),
        Some("1".to_string())
    );
    assert_eq!(parameters.len(), 2);
    let options = Options::new(Transformation::new()).query_parameters(parameters);
    assert_eq!(Utils::concat_query_parameters(&options), "zeta=9&alpha=2");
}

#[test]
fn query_parameters_are_not_encoded() {
    let mut parameters = QueryParameters::new();
    parameters.insert("&k".to_string(), "a=b&".to_string());
    parameters.insert("".to_string(), "".to_string());
    let options = Options::new(Transformation::new()).query_parameters(parameters);
    assert_eq!(Utils::concat_query_parameters(&options), "&k=a=b&&=");
}

#[test]
fn query_parameters_absent_give_empty_text() {
    let options = Options::new(Transformation::new());
    assert_eq!(Utils::concat_query_parameters(&options), "");
}

#[test]
fn transformation_position_defaults_to_path() {
    assert_eq!(
        TransformationPosition::default(),
        TransformationPosition::Path
    );
    let options = Options::new(square()).path("x");
    assert_eq!(options.effective_position(), TransformationPosition::Path);
}
