use polyhaven::data::files;
use polyhaven::data::files::{HDRIBackplateFormat, HDRIFormat, TextureFormat, TextureMap};
use polyhaven::json::files::{FileData, Files, HDRIFiles, ModelFiles, TextureFiles, TextureMaps};

fn wire_file(md5: &str, size: u64) -> FileData {
    FileData {
        url: Some(format!("https://dl.example/{}", md5)),
        md5: md5.to_string(),
        size,
        included: None,
    }
}

fn no_maps() -> TextureMaps {
    TextureMaps {
        ao: None,
        arm: None,
        bump: None,
        diffuse: None,
        displacement: None,
        metal: None,
        nor_gl: None,
        rough: None,
        spec: None,
    }
}

fn one_map(res: &str, format: &str, md5: &str) -> Vec<(String, Vec<(String, FileData)>)> {
    vec![(res.to_string(), vec![(format.to_string(), wire_file(md5, 1))])]
}

fn hdri_doc() -> HDRIFiles {
    HDRIFiles {
        hdri: vec![
            ("4k".to_string(), vec![("hdr".to_string(), wire_file("a", 10))]),
            ("bad".to_string(), vec![("exr".to_string(), wire_file("b", 20))]),
        ],
        backplates: None,
        colorchart: None,
        tonemapped: None,
    }
}

#[test]
fn unreadable_resolution_is_dropped() {
    let out = files::HDRIFiles::from_json(&hdri_doc());
    assert_eq!(out.hdri.len(), 1);
    assert_eq!(out.hdri[0].0, 4096);
    assert_eq!(out.hdri[0].1.len(), 1);
    assert_eq!(out.hdri[0].1[0].0, HDRIFormat::Hdr);
    assert_eq!(out.hdri[0].1[0].1.md5, "a");
    assert_eq!(out.hdri[0].1[0].1.size, 10);
    assert!(out.backplates.is_empty());
    assert!(out.colorchart.is_none());
}

#[test]
fn fixed_fields_become_map_kinds() {
    let mut maps = no_maps();
    maps.diffuse = Some(one_map("1k", "jpg", "d"));
    maps.nor_gl = Some(one_map("2k", "png", "n"));
    let doc = TextureFiles { blend: vec![], gltf: vec![], maps };
    let out = files::TextureFiles::from_json(&doc);
    let kinds: Vec<&TextureMap> = out.maps.iter().map(|(k, _)| k).collect();
    assert_eq!(kinds, vec![&TextureMap::Diffuse, &TextureMap::NorGL]);
    assert_eq!(out.maps[0].1[0].0, 1024);
    assert_eq!(out.maps[0].1[0].1[0].0, TextureFormat::Jpg);
    assert_eq!(out.maps[1].1[0].0, 2048);
    assert_eq!(out.maps[1].1[0].1[0].0, TextureFormat::Png);
}

#[test]
fn every_fixed_field_has_its_kind() {
    let maps = TextureMaps {
        ao: Some(one_map("1k", "jpg", "1")),
        arm: Some(one_map("1k", "jpg", "2")),
        bump: Some(one_map("1k", "jpg", "3")),
        diffuse: Some(one_map("1k", "jpg", "4")),
        displacement: Some(one_map("1k", "jpg", "5")),
        metal: Some(one_map("1k", "jpg", "6")),
        nor_gl: Some(one_map("1k", "jpg", "7")),
        rough: Some(one_map("1k", "jpg", "8")),
        spec: Some(one_map("1k", "jpg", "9")),
    };
    let out = maps.to_maps();
    let kinds: Vec<TextureMap> = out.into_iter().map(|(k, _)| k).collect();
    assert_eq!(
        kinds,
        vec![
            TextureMap::AO,
            TextureMap::ARM,
            TextureMap::Bump,
            TextureMap::Diffuse,
            TextureMap::Displacement,
            TextureMap::Metal,
            TextureMap::NorGL,
            TextureMap::Rough,
            TextureMap::Spec,
        ]
    );
}

#[test]
fn normalising_twice_gives_equal_values() {
    let doc = Files::HDRI(hdri_doc());
    let a = files::Files::from_json(&doc);
    let b = files::Files::from_json(&doc);
    assert_eq!(a, b);
}

#[test]
fn bundled_files_are_normalised_recursively() {
    let inner = FileData {
        url: None,
        md5: "inner".to_string(),
        size: 3,
        included: Some(vec![("deep/x.png".to_string(), wire_file("deep", 1))]),
    };
    let outer = FileData {
        url: Some("https://dl.example/model.gltf".to_string()),
        md5: "outer".to_string(),
        size: 7,
        included: Some(vec![("textures/a.png".to_string(), inner)]),
    };
    let out = files::FileData::from_json(&outer);
    assert_eq!(out.url.as_deref(), Some("https://dl.example/model.gltf"));
    assert_eq!(out.md5, "outer");
    assert_eq!(out.size, 7);
    assert_eq!(out.included.len(), 1);
    assert_eq!(out.included[0].0, "textures/a.png");
    let a = &out.included[0].1;
    assert_eq!(a.url, None);
    assert_eq!(a.md5, "inner");
    assert_eq!(a.included.len(), 1);
    assert_eq!(a.included[0].0, "deep/x.png");
    assert_eq!(a.included[0].1.md5, "deep");
    assert!(a.included[0].1.included.is_empty());
}

#[test]
fn absent_bundle_is_empty() {
    let out = files::FileData::from_json(&wire_file("x", 5));
    assert!(out.included.is_empty());
    assert_eq!(out.url.as_deref(), Some("https://dl.example/x"));
}

#[test]
fn backplates_and_extras_are_kept() {
    let doc = HDRIFiles {
        hdri: vec![("8K".to_string(), vec![("EXR".to_string(), wire_file("e", 1))])],
        backplates: Some(vec![(
            "plate_1".to_string(),
            vec![
                ("jpg_pretty".to_string(), wire_file("p", 2)),
                ("tiff".to_string(), wire_file("t", 3)),
            ],
        )]),
        colorchart: Some(wire_file("c", 4)),
        tonemapped: Some(wire_file("m", 5)),
    };
    let out = files::HDRIFiles::from_json(&doc);
    assert_eq!(out.hdri[0].0, 8192);
    assert_eq!(out.hdri[0].1[0].0, HDRIFormat::Exr);
    assert_eq!(out.backplates.len(), 1);
    assert_eq!(out.backplates[0].0, "plate_1");
    assert_eq!(out.backplates[0].1[0].0, HDRIBackplateFormat::JpgPretty);
    assert_eq!(out.backplates[0].1[1].0, HDRIBackplateFormat::Unparsed("tiff".to_string()));
    assert_eq!(out.colorchart.unwrap().md5, "c");
    assert_eq!(out.tonemapped.unwrap().size, 5);
}

#[test]
fn model_files_by_resolution() {
    let doc = ModelFiles {
        blend: vec![("1k".to_string(), wire_file("b", 1)), ("huge".to_string(), wire_file("h", 1))],
        gltf: vec![("2048".to_string(), wire_file("g", 2))],
        fbx: vec![],
        maps: no_maps(),
    };
    let out = files::Files::from_json(&Files::Model(doc));
    match out {
        files::Files::Model(m) => {
            assert_eq!(m.blend.len(), 1);
            assert_eq!(m.blend[0].0, 1024);
            assert_eq!(m.gltf[0].0, 2048);
            assert!(m.fbx.is_empty());
            assert!(m.maps.is_empty());
        },
        _ => panic!("a model manifest must stay a model manifest"),
    }
}

#[test]
fn texture_manifest_keeps_its_family() {
    let doc = TextureFiles {
        blend: vec![("4k".to_string(), wire_file("b", 1))],
        gltf: vec![],
        maps: no_maps(),
    };
    match files::Files::from_json(&Files::Texture(doc)) {
        files::Files::Texture(t) => {
            assert_eq!(t.blend[0].0, 4096);
            assert!(t.gltf.is_empty());
        },
        _ => panic!("a texture manifest must stay a texture manifest"),
    }
}

#[test]
fn tokens_naming_one_key_keep_the_later_entry() {
    let doc = HDRIFiles {
        hdri: vec![
            (
                "4k".to_string(),
                vec![("hdr".to_string(), wire_file("first", 1)), ("HDR".to_string(), wire_file("upper", 2))],
            ),
            ("4096".to_string(), vec![("exr".to_string(), wire_file("second", 3))]),
        ],
        backplates: None,
        colorchart: None,
        tonemapped: None,
    };
    let out = files::HDRIFiles::from_json(&doc);
    assert_eq!(out.hdri.len(), 1);
    assert_eq!(out.hdri[0].0, 4096);
    assert_eq!(out.hdri[0].1.len(), 1);
    assert_eq!(out.hdri[0].1[0].0, HDRIFormat::Exr);
    assert_eq!(out.hdri[0].1[0].1.md5, "second");
    let first = files::HDRIFiles::from_json(&HDRIFiles {
        hdri: vec![(
            "4k".to_string(),
            vec![("hdr".to_string(), wire_file("first", 1)), ("HDR".to_string(), wire_file("upper", 2))],
        )],
        backplates: None,
        colorchart: None,
        tonemapped: None,
    });
    assert_eq!(first.hdri[0].1.len(), 1);
    assert_eq!(first.hdri[0].1[0].0, HDRIFormat::Hdr);
    assert_eq!(first.hdri[0].1[0].1.md5, "upper");
}

#[test]
fn repeated_bundle_path_keeps_the_later_entry() {
    let outer = FileData {
        url: None,
        md5: "outer".to_string(),
        size: 1,
        included: Some(vec![
            ("a.png".to_string(), wire_file("first", 1)),
            ("b.png".to_string(), wire_file("other", 2)),
            ("a.png".to_string(), wire_file("second", 3)),
        ]),
    };
    let out = files::FileData::from_json(&outer);
    assert_eq!(out.included.len(), 2);
    assert_eq!(out.included[0].0, "a.png");
    assert_eq!(out.included[0].1.md5, "second");
    assert_eq!(out.included[1].0, "b.png");
    assert_eq!(out.included[1].1.md5, "other");
}

#[test]
fn from_str_on_backplate_tokens() {
    let a: HDRIBackplateFormat = "JPG_PRETTY".parse().unwrap();
    assert_eq!(a, HDRIBackplateFormat::JpgPretty);
    let b: HDRIBackplateFormat = "Weird_Future".parse().unwrap();
    assert_eq!(b, HDRIBackplateFormat::Unparsed("Weird_Future".to_string()));
    let c: TextureFormat = "PNG".parse().unwrap();
    assert_eq!(c, TextureFormat::Png);
}
