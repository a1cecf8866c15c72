use polyhaven::data::files::{HDRIBackplateFormat, HDRIFormat, TextureFormat, TextureMap};

#[test]
fn backplate_token_lower_case() {
    assert_eq!(HDRIBackplateFormat::from_token("jpg_pretty"), HDRIBackplateFormat::JpgPretty);
}

#[test]
fn backplate_token_upper_case() {
    assert_eq!(HDRIBackplateFormat::from_token("JPG_PRETTY"), HDRIBackplateFormat::JpgPretty);
    assert_eq!(HDRIBackplateFormat::from_token("Jpg_Plain"), HDRIBackplateFormat::JpgPlain);
    assert_eq!(HDRIBackplateFormat::from_token("RAW"), HDRIBackplateFormat::Raw);
}

#[test]
fn unknown_token_keeps_its_casing() {
    assert_eq!(
        HDRIBackplateFormat::from_token("weird_future_format"),
        HDRIBackplateFormat::Unparsed("weird_future_format".to_string())
    );
    assert_eq!(
        TextureFormat::from_token("WebP"),
        TextureFormat::Unparsed("WebP".to_string())
    );
}

#[test]
fn hdri_format_tokens() {
    assert_eq!(HDRIFormat::from_token("hdr"), HDRIFormat::Hdr);
    assert_eq!(HDRIFormat::from_token("HDR"), HDRIFormat::Hdr);
    assert_eq!(HDRIFormat::from_token("Exr"), HDRIFormat::Exr);
    assert_eq!(HDRIFormat::from_token("tif"), HDRIFormat::Unparsed("tif".to_string()));
}

#[test]
fn texture_map_tokens() {
    assert_eq!(TextureMap::from_token("AO"), TextureMap::AO);
    assert_eq!(TextureMap::from_token("arm"), TextureMap::ARM);
    assert_eq!(TextureMap::from_token("Bump"), TextureMap::Bump);
    assert_eq!(TextureMap::from_token("Diffuse"), TextureMap::Diffuse);
    assert_eq!(TextureMap::from_token("Displacement"), TextureMap::Displacement);
    assert_eq!(TextureMap::from_token("Metal"), TextureMap::Metal);
    assert_eq!(TextureMap::from_token("NOR_GL"), TextureMap::NorGL);
    assert_eq!(TextureMap::from_token("Rough"), TextureMap::Rough);
    assert_eq!(TextureMap::from_token("spec"), TextureMap::Spec);
    assert_eq!(TextureMap::from_token("nor_dx"), TextureMap::Unparsed("nor_dx".to_string()));
}

#[test]
fn texture_format_tokens() {
    assert_eq!(TextureFormat::from_token("EXR"), TextureFormat::Exr);
    assert_eq!(TextureFormat::from_token("jpg"), TextureFormat::Jpg);
    assert_eq!(TextureFormat::from_token("Png"), TextureFormat::Png);
}

#[test]
fn from_lowered_matches_the_lower_form_only() {
    let lower = "jpg_plain".to_string();
    assert_eq!(HDRIBackplateFormat::from_lowered(&lower, "JPG_PLAIN"), HDRIBackplateFormat::JpgPlain);
    let upper = "JPG_PLAIN".to_string();
    assert_eq!(
        HDRIBackplateFormat::from_lowered(&upper, "JPG_PLAIN"),
        HDRIBackplateFormat::Unparsed("JPG_PLAIN".to_string())
    );
}

#[test]
fn from_str_never_fails() {
    let f: HDRIFormat = "EXR".parse().unwrap();
    assert_eq!(f, HDRIFormat::Exr);
    let m: TextureMap = "whatever".parse().unwrap();
    assert_eq!(m, TextureMap::Unparsed("whatever".to_string()));
}
