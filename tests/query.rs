use polyhaven::data::asset::AssetType;
use polyhaven::request::{assets, author, categories, files, info};
use polyhaven::text::{decimal, join};

#[test]
fn no_filters_give_an_empty_query() {
    let p = assets::Params { asset_type: None, categories: vec![], author: None };
    assert_eq!(p.as_query_params(), "");
    assert_eq!(p.url(), "https://api.polyhaven.com/assets?");
}

#[test]
fn categories_are_comma_joined() {
    let p = assets::Params {
        asset_type: None,
        categories: vec!["outdoor".to_string(), "sunny".to_string()],
        author: None,
    };
    assert_eq!(p.as_query_params(), "categories=outdoor,sunny");
}

#[test]
fn all_filters_are_joined() {
    let p = assets::Params {
        asset_type: Some(AssetType::Texture),
        categories: vec!["wood".to_string()],
        author: Some("Rob Tuytel".to_string()),
    };
    assert_eq!(p.as_query_params(), "categories=wood&type=textures&author=Rob Tuytel");
    let q = assets::Params { asset_type: Some(AssetType::HDRI), categories: vec![], author: None };
    assert_eq!(q.url(), "https://api.polyhaven.com/assets?type=hdris");
    let r = assets::Params { asset_type: Some(AssetType::Model), categories: vec![], author: None };
    assert_eq!(r.as_query_params(), "type=models");
}

#[test]
fn category_listing_query() {
    let p = categories::Params { asset_type: AssetType::HDRI, in_categories: vec![] };
    assert_eq!(p.as_query_params(), "");
    assert_eq!(p.url(), "https://api.polyhaven.com/categories/hdris?");
    let q = categories::Params {
        asset_type: AssetType::Model,
        in_categories: vec!["props".to_string(), "furniture".to_string()],
    };
    assert_eq!(q.as_query_params(), "in=props,furniture");
    assert_eq!(q.url(), "https://api.polyhaven.com/categories/models?in=props,furniture");
}

#[test]
fn document_addresses() {
    assert_eq!(info::url("rock_01"), "https://api.polyhaven.com/info/rock_01");
    assert_eq!(files::url("rock_01"), "https://api.polyhaven.com/files/rock_01");
    assert_eq!(author::url("Jane"), "https://api.polyhaven.com/author/Jane");
}

#[test]
fn decimal_numerals() {
    assert_eq!(decimal(0), "0");
    assert_eq!(decimal(7), "7");
    assert_eq!(decimal(1024), "1024");
    assert_eq!(decimal(u64::MAX), "18446744073709551615");
}

#[test]
fn joining_parts() {
    assert_eq!(join(&vec![], ","), "");
    assert_eq!(join(&vec!["a".to_string()], ","), "a");
    assert_eq!(join(&vec!["a".to_string(), "".to_string(), "c".to_string()], "&"), "a&&c");
}

#[test]
fn empty_author_adds_nothing() {
    let p = assets::Params { asset_type: None, categories: vec![], author: Some(String::new()) };
    assert_eq!(p.as_query_params(), "");
    let q = assets::Params {
        asset_type: Some(AssetType::HDRI),
        categories: vec!["skies".to_string()],
        author: Some(String::new()),
    };
    assert_eq!(q.as_query_params(), "categories=skies&type=hdris");
}
