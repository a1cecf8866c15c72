use polyhaven::data::asset::{Asset, AssetType, HDRIAsset, ModelAsset, TextureAsset};
use polyhaven::data::author;
use polyhaven::error::Error;
use polyhaven::json::asset::AssetInfo;
use polyhaven::json::author::Author;
use polyhaven::response::asset;

fn wire_info(code: i32) -> AssetInfo {
    AssetInfo {
        id: "abandoned_garage".to_string(),
        asset_type: code,
        name: "Abandoned Garage".to_string(),
        date_published: 1_600_000_000,
        download_count: 42,
        authors: vec![("Jane Doe".to_string(), "All".to_string())],
        donated: None,
        categories: vec!["indoor".to_string()],
        tags: vec!["garage".to_string(), "dark".to_string()],
        whitebalance: Some(5600),
        backplates: None,
        evs_cap: None,
        coords: Some((1.5f32.to_bits(), (-2.25f32).to_bits())),
        dimensions: None,
    }
}

#[test]
fn absent_donated_and_evs_cap_take_defaults() {
    let info = asset::AssetInfo::from_json(wire_info(0));
    assert!(!info.donated);
    assert_eq!(
        info.asset,
        Asset::HDRI(HDRIAsset {
            whitebalance: Some(5600),
            backplates: false,
            evs_cap: 0,
            coords: Some((1.5f32.to_bits(), (-2.25f32).to_bits())),
        })
    );
}

#[test]
fn present_fields_are_kept() {
    let mut w = wire_info(0);
    w.donated = Some(true);
    w.evs_cap = Some(18);
    w.backplates = Some(true);
    let info = asset::AssetInfo::from_json(w);
    assert!(info.donated);
    match info.asset {
        Asset::HDRI(h) => {
            assert_eq!(h.evs_cap, 18);
            assert!(h.backplates);
        },
        _ => panic!("code 0 is an HDRI"),
    }
}

#[test]
fn unknown_code_is_unparsed_with_other_fields_intact() {
    let info = asset::AssetInfo::from_json(wire_info(3));
    assert_eq!(info.asset, Asset::Unparsed);
    assert_eq!(info.id, "abandoned_garage");
    assert_eq!(info.name, "Abandoned Garage");
    assert_eq!(info.date_published, 1_600_000_000);
    assert_eq!(info.download_count, 42);
    assert_eq!(info.authors, vec![("Jane Doe".to_string(), "All".to_string())]);
    assert_eq!(info.categories, vec!["indoor".to_string()]);
    assert_eq!(info.tags, vec!["garage".to_string(), "dark".to_string()]);
}

#[test]
fn unknown_code_selects_no_file_shape() {
    assert_eq!(AssetType::for_files(3), Err(Error::UnknownAssetType(3)));
    assert_eq!(AssetType::for_files(-1), Err(Error::UnknownAssetType(-1)));
    assert_eq!(AssetType::for_files(0), Ok(AssetType::HDRI));
    assert_eq!(AssetType::for_files(1), Ok(AssetType::Texture));
    assert_eq!(AssetType::for_files(2), Ok(AssetType::Model));
}

#[test]
fn texture_and_model_codes() {
    let mut w = wire_info(1);
    w.dimensions = Some((2.0f32.to_bits(), 3.0f32.to_bits()));
    let t = asset::AssetInfo::from_json(w);
    assert_eq!(
        t.asset,
        Asset::Texture(TextureAsset { dimensions: (2.0f32.to_bits(), 3.0f32.to_bits()) })
    );
    let bare = asset::AssetInfo::from_json(wire_info(1));
    assert_eq!(bare.asset, Asset::Texture(TextureAsset { dimensions: (0, 0) }));
    let m = asset::AssetInfo::from_json(wire_info(2));
    assert_eq!(m.asset, Asset::Model(ModelAsset));
}

#[test]
fn thumbnail_address() {
    let info = asset::AssetInfo::from_json(wire_info(0));
    assert_eq!(
        info.thumbnail(256),
        "https://cdn.polyhaven.com/asset_img/thumbs/abandoned_garage.png?height=256"
    );
    assert_eq!(
        info.thumbnail(0),
        "https://cdn.polyhaven.com/asset_img/thumbs/abandoned_garage.png?height=0"
    );
    assert_eq!(
        info.thumbnail(u32::MAX),
        "https://cdn.polyhaven.com/asset_img/thumbs/abandoned_garage.png?height=4294967295"
    );
}

#[test]
fn author_fields_are_kept() {
    let a = author::Author::from_json(Author {
        name: "Jane Doe".to_string(),
        link: Some("https://example.org".to_string()),
        email: None,
        donate: Some("https://donate.example".to_string()),
    });
    assert_eq!(a.name, "Jane Doe");
    assert_eq!(a.link.as_deref(), Some("https://example.org"));
    assert_eq!(a.email, None);
    assert_eq!(a.donate.as_deref(), Some("https://donate.example"));
}

#[test]
fn repeated_author_id_keeps_the_later_role() {
    let mut w = wire_info(2);
    w.authors = vec![
        ("Jane Doe".to_string(), "Photography".to_string()),
        ("Sam Roe".to_string(), "Modelling".to_string()),
        ("Jane Doe".to_string(), "All".to_string()),
    ];
    let info = asset::AssetInfo::from_json(w);
    assert_eq!(
        info.authors,
        vec![
            ("Jane Doe".to_string(), "All".to_string()),
            ("Sam Roe".to_string(), "Modelling".to_string()),
        ]
    );
}
