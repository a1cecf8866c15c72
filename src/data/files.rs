//! File manifests, the open enums of their tokens, and their models.

use vstd::prelude::*;

use crate::assoc::{entries_map, keys_distinct, SameKey};

verus! {

/// What `str::to_lowercase` makes of a string.
pub uninterp spec fn lower_of(s: Seq<char>) -> Seq<char>;

/// Relies on `str::to_lowercase`: the lower-case form of `s`, which depends
/// on the characters of `s` alone.
#[verifier::external_body]
pub(crate) fn lowercase(s: &str) -> (r: String)
    ensures
        r@ == lower_of(s@),
{
    s.to_lowercase()
}

/// `l` holds exactly the characters of `lit`.
fn is_token(l: &String, lit: &str) -> (r: bool)
    ensures
        r == (l@ == lit@),
{
    *l == String::from_str(lit)
}

/// A downloadable file, with the files that it bundles keyed by their
/// relative path.
#[derive(Debug, PartialEq, Eq)]
pub struct FileData {
    pub url: Option<String>,
    pub md5: String,
    pub size: u64,
    /// Bundled files by relative path, each path once.
    pub included: Vec<(String, FileData)>,
}

/// The mathematical content of a [`FileData`].
pub struct FileModel {
    pub url: Option<Seq<char>>,
    pub md5: Seq<char>,
    pub size: u64,
    pub included: Map<Seq<char>, FileModel>,
}

/// The characters of an optional string.
pub open spec fn opt_chars(s: Option<String>) -> Option<Seq<char>> {
    match s {
        Some(t) => Some(t@),
        None => None,
    }
}

/// The model of a file: its own fields, and its bundled files as a map.
pub open spec fn file_model(f: FileData) -> FileModel
    decreases f,
{
    FileModel {
        url: opt_chars(f.url),
        md5: f.md5@,
        size: f.size,
        included: bundle_model(f.included@),
    }
}

/// The map that a list of bundled files stands for (a later path overrides
/// an earlier equal one).
pub open spec fn bundle_model(s: Seq<(String, FileData)>) -> Map<Seq<char>, FileModel>
    decreases s,
{
    if s.len() == 0 {
        Map::empty()
    } else {
        let last = s[s.len() - 1];
        bundle_model(s.subrange(0, s.len() - 1)).insert(last.0@, file_model(last.1))
    }
}

/// Each list of bundled files, at every depth, holds each path once.
pub open spec fn file_wf(f: FileData) -> bool
    decreases f,
{
    keys_distinct(f.included@) && forall|i: int|
        0 <= i < f.included@.len() ==> #[trigger] file_wf(f.included@[i].1)
}

/// The list of bundled files seen as a map is the map of its pairs.
pub proof fn lemma_bundle_model_entries(s: Seq<(String, FileData)>)
    ensures
        bundle_model(s) == entries_map(s, file_fn()),
    decreases s.len(),
{
    if s.len() > 0 {
        lemma_bundle_model_entries(s.subrange(0, s.len() - 1));
        assert(s.drop_last() == s.subrange(0, s.len() - 1));
    }
}

impl View for FileData {
    type V = FileModel;

    open spec fn view(&self) -> FileModel {
        file_model(*self)
    }
}

/// Resolution (a pixel count) to what is offered at it.
pub type FileResolution = u64;

/// The file manifest of one asset, in the shape of its family.
#[derive(Debug, PartialEq, Eq)]
pub enum Files {
    HDRI(HDRIFiles),
    Texture(TextureFiles),
    Model(ModelFiles),
}

/// The files of an HDRI environment.
#[derive(Debug, PartialEq, Eq)]
pub struct HDRIFiles {
    pub hdri: Vec<(FileResolution, Vec<(HDRIFormat, FileData)>)>,
    pub backplates: Vec<(String, Vec<(HDRIBackplateFormat, FileData)>)>,
    pub colorchart: Option<FileData>,
    pub tonemapped: Option<FileData>,
}

/// The format of an HDRI image.
#[derive(Debug, Clone, PartialEq, Eq, Hash)]
pub enum HDRIFormat {
    Hdr,
    Exr,
    Unparsed(String),
}

/// The mathematical content of an [`HDRIFormat`].
pub enum HDRIFormatView {
    Hdr,
    Exr,
    Unparsed(Seq<char>),
}

impl View for HDRIFormat {
    type V = HDRIFormatView;

    open spec fn view(&self) -> HDRIFormatView {
        match self {
            HDRIFormat::Hdr => HDRIFormatView::Hdr,
            HDRIFormat::Exr => HDRIFormatView::Exr,
            HDRIFormat::Unparsed(s) => HDRIFormatView::Unparsed(s@),
        }
    }
}

/// The HDRI format that a token names, given its lower-case form `lower`;
/// an unknown token is kept as it was written.
pub open spec fn hdri_format_token(lower: Seq<char>, original: Seq<char>) -> HDRIFormatView {
    if lower == "hdr"@ {
        HDRIFormatView::Hdr
    } else if lower == "exr"@ {
        HDRIFormatView::Exr
    } else {
        HDRIFormatView::Unparsed(original)
    }
}

impl HDRIFormat {
    /// Maps the token `original`, whose lower-case form is `lower`.
    pub fn from_lowered(lower: &String, original: &str) -> (r: Self)
        ensures
            r@ == hdri_format_token(lower@, original@),
    {
        if is_token(lower, "hdr") {
            HDRIFormat::Hdr
        } else if is_token(lower, "exr") {
            HDRIFormat::Exr
        } else {
            HDRIFormat::Unparsed(String::from_str(original))
        }
    }

    /// Maps a format token, ignoring case; never fails.
    pub fn from_token(s: &str) -> (r: Self)
        ensures
            r@ == hdri_format_token(lower_of(s@), s@),
    {
        let lower = lowercase(s);
        Self::from_lowered(&lower, s)
    }
}

impl std::str::FromStr for HDRIFormat {
    type Err = std::convert::Infallible;

    /// Maps a token, ignoring case; never fails.
    fn from_str(s: &str) -> (r: Result<Self, Self::Err>)
        ensures
            r matches Ok(m) && m@ == hdri_format_token(lower_of(s@), s@),
    {
        Ok(Self::from_token(s))
    }
}


/// The format of an HDRI backplate image.
#[derive(Debug, Clone, PartialEq, Eq, Hash)]
pub enum HDRIBackplateFormat {
    JpgPretty,
    JpgPlain,
    Raw,
    Unparsed(String),
}

/// The mathematical content of an [`HDRIBackplateFormat`].
pub enum HDRIBackplateFormatView {
    JpgPretty,
    JpgPlain,
    Raw,
    Unparsed(Seq<char>),
}

impl View for HDRIBackplateFormat {
    type V = HDRIBackplateFormatView;

    open spec fn view(&self) -> HDRIBackplateFormatView {
        match self {
            HDRIBackplateFormat::JpgPretty => HDRIBackplateFormatView::JpgPretty,
            HDRIBackplateFormat::JpgPlain => HDRIBackplateFormatView::JpgPlain,
            HDRIBackplateFormat::Raw => HDRIBackplateFormatView::Raw,
            HDRIBackplateFormat::Unparsed(s) => HDRIBackplateFormatView::Unparsed(s@),
        }
    }
}

/// The backplate format that a token names, given its lower-case form
/// `lower`; an unknown token is kept as it was written.
pub open spec fn backplate_format_token(
    lower: Seq<char>,
    original: Seq<char>,
) -> HDRIBackplateFormatView {
    if lower == "jpg_pretty"@ {
        HDRIBackplateFormatView::JpgPretty
    } else if lower == "jpg_plain"@ {
        HDRIBackplateFormatView::JpgPlain
    } else if lower == "raw"@ {
        HDRIBackplateFormatView::Raw
    } else {
        HDRIBackplateFormatView::Unparsed(original)
    }
}

impl HDRIBackplateFormat {
    /// Maps the token `original`, whose lower-case form is `lower`.
    pub fn from_lowered(lower: &String, original: &str) -> (r: Self)
        ensures
            r@ == backplate_format_token(lower@, original@),
    {
        if is_token(lower, "jpg_pretty") {
            HDRIBackplateFormat::JpgPretty
        } else if is_token(lower, "jpg_plain") {
            HDRIBackplateFormat::JpgPlain
        } else if is_token(lower, "raw") {
            HDRIBackplateFormat::Raw
        } else {
            HDRIBackplateFormat::Unparsed(String::from_str(original))
        }
    }

    /// Maps a backplate format token, ignoring case; never fails.
    pub fn from_token(s: &str) -> (r: Self)
        ensures
            r@ == backplate_format_token(lower_of(s@), s@),
    {
        let lower = lowercase(s);
        Self::from_lowered(&lower, s)
    }
}

impl std::str::FromStr for HDRIBackplateFormat {
    type Err = std::convert::Infallible;

    /// Maps a token, ignoring case; never fails.
    fn from_str(s: &str) -> (r: Result<Self, Self::Err>)
        ensures
            r matches Ok(m) && m@ == backplate_format_token(lower_of(s@), s@),
    {
        Ok(Self::from_token(s))
    }
}

/// The files of a PBR texture set.
#[derive(Debug, PartialEq, Eq)]
pub struct TextureFiles {
    pub blend: Vec<(FileResolution, FileData)>,
    pub gltf: Vec<(FileResolution, FileData)>,
    pub maps: Vec<(TextureMap, Vec<(FileResolution, Vec<(TextureFormat, FileData)>)>)>,
}

/// The kind of an image map of a texture set.
#[derive(Debug, Clone, PartialEq, Eq, Hash)]
pub enum TextureMap {
    AO,
    ARM,
    Bump,
    Diffuse,
    Displacement,
    Metal,
    NorGL,
    Rough,
    Spec,
    Unparsed(String),
}

/// The mathematical content of a [`TextureMap`].
pub enum TextureMapView {
    AO,
    ARM,
    Bump,
    Diffuse,
    Displacement,
    Metal,
    NorGL,
    Rough,
    Spec,
    Unparsed(Seq<char>),
}

impl View for TextureMap {
    type V = TextureMapView;

    open spec fn view(&self) -> TextureMapView {
        match self {
            TextureMap::AO => TextureMapView::AO,
            TextureMap::ARM => TextureMapView::ARM,
            TextureMap::Bump => TextureMapView::Bump,
            TextureMap::Diffuse => TextureMapView::Diffuse,
            TextureMap::Displacement => TextureMapView::Displacement,
            TextureMap::Metal => TextureMapView::Metal,
            TextureMap::NorGL => TextureMapView::NorGL,
            TextureMap::Rough => TextureMapView::Rough,
            TextureMap::Spec => TextureMapView::Spec,
            TextureMap::Unparsed(s) => TextureMapView::Unparsed(s@),
        }
    }
}

/// The map kind that a token names, given its lower-case form `lower`; an
/// unknown token is kept as it was written.
pub open spec fn texture_map_token(lower: Seq<char>, original: Seq<char>) -> TextureMapView {
    if lower == "ao"@ {
        TextureMapView::AO
    } else if lower == "arm"@ {
        TextureMapView::ARM
    } else if lower == "bump"@ {
        TextureMapView::Bump
    } else if lower == "diffuse"@ {
        TextureMapView::Diffuse
    } else if lower == "displacement"@ {
        TextureMapView::Displacement
    } else if lower == "metal"@ {
        TextureMapView::Metal
    } else if lower == "nor_gl"@ {
        TextureMapView::NorGL
    } else if lower == "rough"@ {
        TextureMapView::Rough
    } else if lower == "spec"@ {
        TextureMapView::Spec
    } else {
        TextureMapView::Unparsed(original)
    }
}

impl TextureMap {
    /// Maps the token `original`, whose lower-case form is `lower`.
    pub fn from_lowered(lower: &String, original: &str) -> (r: Self)
        ensures
            r@ == texture_map_token(lower@, original@),
    {
        if is_token(lower, "ao") {
            TextureMap::AO
        } else if is_token(lower, "arm") {
            TextureMap::ARM
        } else if is_token(lower, "bump") {
            TextureMap::Bump
        } else if is_token(lower, "diffuse") {
            TextureMap::Diffuse
        } else if is_token(lower, "displacement") {
            TextureMap::Displacement
        } else if is_token(lower, "metal") {
            TextureMap::Metal
        } else if is_token(lower, "nor_gl") {
            TextureMap::NorGL
        } else if is_token(lower, "rough") {
            TextureMap::Rough
        } else if is_token(lower, "spec") {
            TextureMap::Spec
        } else {
            TextureMap::Unparsed(String::from_str(original))
        }
    }

    /// Maps a map-kind token, ignoring case; never fails.
    pub fn from_token(s: &str) -> (r: Self)
        ensures
            r@ == texture_map_token(lower_of(s@), s@),
    {
        let lower = lowercase(s);
        Self::from_lowered(&lower, s)
    }
}

impl std::str::FromStr for TextureMap {
    type Err = std::convert::Infallible;

    /// Maps a token, ignoring case; never fails.
    fn from_str(s: &str) -> (r: Result<Self, Self::Err>)
        ensures
            r matches Ok(m) && m@ == texture_map_token(lower_of(s@), s@),
    {
        Ok(Self::from_token(s))
    }
}

/// The format of a texture image.
#[derive(Debug, Clone, PartialEq, Eq, Hash)]
pub enum TextureFormat {
    Exr,
    Jpg,
    Png,
    Unparsed(String),
}

/// The mathematical content of a [`TextureFormat`].
pub enum TextureFormatView {
    Exr,
    Jpg,
    Png,
    Unparsed(Seq<char>),
}

impl View for TextureFormat {
    type V = TextureFormatView;

    open spec fn view(&self) -> TextureFormatView {
        match self {
            TextureFormat::Exr => TextureFormatView::Exr,
            TextureFormat::Jpg => TextureFormatView::Jpg,
            TextureFormat::Png => TextureFormatView::Png,
            TextureFormat::Unparsed(s) => TextureFormatView::Unparsed(s@),
        }
    }
}

/// The texture format that a token names, given its lower-case form
/// `lower`; an unknown token is kept as it was written.
pub open spec fn texture_format_token(lower: Seq<char>, original: Seq<char>) -> TextureFormatView {
    if lower == "exr"@ {
        TextureFormatView::Exr
    } else if lower == "jpg"@ {
        TextureFormatView::Jpg
    } else if lower == "png"@ {
        TextureFormatView::Png
    } else {
        TextureFormatView::Unparsed(original)
    }
}

impl TextureFormat {
    /// Maps the token `original`, whose lower-case form is `lower`.
    pub fn from_lowered(lower: &String, original: &str) -> (r: Self)
        ensures
            r@ == texture_format_token(lower@, original@),
    {
        if is_token(lower, "exr") {
            TextureFormat::Exr
        } else if is_token(lower, "jpg") {
            TextureFormat::Jpg
        } else if is_token(lower, "png") {
            TextureFormat::Png
        } else {
            TextureFormat::Unparsed(String::from_str(original))
        }
    }

    /// Maps a texture format token, ignoring case; never fails.
    pub fn from_token(s: &str) -> (r: Self)
        ensures
            r@ == texture_format_token(lower_of(s@), s@),
    {
        let lower = lowercase(s);
        Self::from_lowered(&lower, s)
    }
}

impl std::str::FromStr for TextureFormat {
    type Err = std::convert::Infallible;

    /// Maps a token, ignoring case; never fails.
    fn from_str(s: &str) -> (r: Result<Self, Self::Err>)
        ensures
            r matches Ok(m) && m@ == texture_format_token(lower_of(s@), s@),
    {
        Ok(Self::from_token(s))
    }
}

/// The files of a 3D model.
#[derive(Debug, PartialEq, Eq)]
pub struct ModelFiles {
    pub blend: Vec<(FileResolution, FileData)>,
    pub gltf: Vec<(FileResolution, FileData)>,
    pub fbx: Vec<(FileResolution, FileData)>,
    pub maps: Vec<(TextureMap, Vec<(FileResolution, Vec<(TextureFormat, FileData)>)>)>,
}


/// A file seen through its model.
pub open spec fn file_fn() -> spec_fn(FileData) -> FileModel {
    |f: FileData| f@
}

/// Files by resolution, as a map.
pub open spec fn by_resolution_model(v: Seq<(FileResolution, FileData)>) -> Map<u64, FileModel> {
    entries_map(v, file_fn())
}

/// HDRI images by format, as a map.
pub open spec fn hdri_formats_model(v: Seq<(HDRIFormat, FileData)>) -> Map<
    HDRIFormatView,
    FileModel,
> {
    entries_map(v, file_fn())
}

/// A list of HDRI images by format, seen as a map.
pub open spec fn hdri_formats_fn() -> spec_fn(Vec<(HDRIFormat, FileData)>) -> Map<
    HDRIFormatView,
    FileModel,
> {
    |fs: Vec<(HDRIFormat, FileData)>| hdri_formats_model(fs@)
}

/// HDRI images by resolution and format, as a map.
pub open spec fn hdri_model(v: Seq<(FileResolution, Vec<(HDRIFormat, FileData)>)>) -> Map<
    u64,
    Map<HDRIFormatView, FileModel>,
> {
    entries_map(v, hdri_formats_fn())
}

/// Backplate images by format, as a map.
pub open spec fn backplate_formats_model(v: Seq<(HDRIBackplateFormat, FileData)>) -> Map<
    HDRIBackplateFormatView,
    FileModel,
> {
    entries_map(v, file_fn())
}

/// A list of backplate images by format, seen as a map.
pub open spec fn backplate_formats_fn() -> spec_fn(Vec<(HDRIBackplateFormat, FileData)>) -> Map<
    HDRIBackplateFormatView,
    FileModel,
> {
    |fs: Vec<(HDRIBackplateFormat, FileData)>| backplate_formats_model(fs@)
}

/// Backplates by name and format, as a map.
pub open spec fn backplates_model(v: Seq<(String, Vec<(HDRIBackplateFormat, FileData)>)>) -> Map<
    Seq<char>,
    Map<HDRIBackplateFormatView, FileModel>,
> {
    entries_map(v, backplate_formats_fn())
}

/// Texture images by format, as a map.
pub open spec fn texture_formats_model(v: Seq<(TextureFormat, FileData)>) -> Map<
    TextureFormatView,
    FileModel,
> {
    entries_map(v, file_fn())
}

/// A list of texture images by format, seen as a map.
pub open spec fn texture_formats_fn() -> spec_fn(Vec<(TextureFormat, FileData)>) -> Map<
    TextureFormatView,
    FileModel,
> {
    |fs: Vec<(TextureFormat, FileData)>| texture_formats_model(fs@)
}

/// Texture images by resolution and format, as a map.
pub open spec fn texture_res_model(v: Seq<(FileResolution, Vec<(TextureFormat, FileData)>)>) -> Map<
    u64,
    Map<TextureFormatView, FileModel>,
> {
    entries_map(v, texture_formats_fn())
}

/// A list of texture images by resolution and format, seen as a map.
pub open spec fn texture_res_fn() -> spec_fn(Vec<(FileResolution, Vec<(TextureFormat, FileData)>)>) -> Map<
    u64,
    Map<TextureFormatView, FileModel>,
> {
    |rs: Vec<(FileResolution, Vec<(TextureFormat, FileData)>)>| texture_res_model(rs@)
}

/// The image maps of a texture set, by kind, resolution and format.
pub open spec fn maps_model(
    v: Seq<(TextureMap, Vec<(FileResolution, Vec<(TextureFormat, FileData)>)>)>,
) -> Map<TextureMapView, Map<u64, Map<TextureFormatView, FileModel>>> {
    entries_map(v, texture_res_fn())
}

/// The keys of `s` are distinct and each file is well formed.
pub open spec fn files_wf<K: View>(s: Seq<(K, FileData)>) -> bool {
    keys_distinct(s) && forall|i: int| 0 <= i < s.len() ==> #[trigger] file_wf(s[i].1)
}

/// The keys of `s` are distinct, and each inner list is well formed.
pub open spec fn nested_wf<K: View, K2: View>(s: Seq<(K, Vec<(K2, FileData)>)>) -> bool {
    keys_distinct(s) && forall|i: int| 0 <= i < s.len() ==> files_wf(#[trigger] s[i].1@)
}

/// The image-map list is well formed at every level.
pub open spec fn maps_wf(
    s: Seq<(TextureMap, Vec<(FileResolution, Vec<(TextureFormat, FileData)>)>)>,
) -> bool {
    keys_distinct(s) && forall|i: int| 0 <= i < s.len() ==> nested_wf(#[trigger] s[i].1@)
}

/// An optional file is well formed where present.
pub open spec fn opt_file_wf(f: Option<FileData>) -> bool {
    match f {
        Some(g) => file_wf(g),
        None => true,
    }
}

impl HDRIFiles {
    /// Each list, at every depth, holds each key once.
    pub open spec fn wf(&self) -> bool {
        nested_wf(self.hdri@) && nested_wf(self.backplates@) && opt_file_wf(self.colorchart)
            && opt_file_wf(self.tonemapped)
    }
}

impl TextureFiles {
    /// Each list, at every depth, holds each key once.
    pub open spec fn wf(&self) -> bool {
        files_wf(self.blend@) && files_wf(self.gltf@) && maps_wf(self.maps@)
    }
}

impl ModelFiles {
    /// Each list, at every depth, holds each key once.
    pub open spec fn wf(&self) -> bool {
        files_wf(self.blend@) && files_wf(self.gltf@) && files_wf(self.fbx@) && maps_wf(
            self.maps@,
        )
    }
}

impl Files {
    /// Each list, at every depth, holds each key once.
    pub open spec fn wf(&self) -> bool {
        match self {
            Files::HDRI(f) => f.wf(),
            Files::Texture(f) => f.wf(),
            Files::Model(f) => f.wf(),
        }
    }
}

impl SameKey for HDRIFormat {
    fn same_key(&self, other: &Self) -> (r: bool) {
        match (self, other) {
            (HDRIFormat::Hdr, HDRIFormat::Hdr) => true,
            (HDRIFormat::Exr, HDRIFormat::Exr) => true,
            (HDRIFormat::Unparsed(a), HDRIFormat::Unparsed(b)) => *a == *b,
            _ => false,
        }
    }
}

impl SameKey for HDRIBackplateFormat {
    fn same_key(&self, other: &Self) -> (r: bool) {
        match (self, other) {
            (HDRIBackplateFormat::JpgPretty, HDRIBackplateFormat::JpgPretty) => true,
            (HDRIBackplateFormat::JpgPlain, HDRIBackplateFormat::JpgPlain) => true,
            (HDRIBackplateFormat::Raw, HDRIBackplateFormat::Raw) => true,
            (HDRIBackplateFormat::Unparsed(a), HDRIBackplateFormat::Unparsed(b)) => *a == *b,
            _ => false,
        }
    }
}

impl SameKey for TextureMap {
    fn same_key(&self, other: &Self) -> (r: bool) {
        match (self, other) {
            (TextureMap::AO, TextureMap::AO) => true,
            (TextureMap::ARM, TextureMap::ARM) => true,
            (TextureMap::Bump, TextureMap::Bump) => true,
            (TextureMap::Diffuse, TextureMap::Diffuse) => true,
            (TextureMap::Displacement, TextureMap::Displacement) => true,
            (TextureMap::Metal, TextureMap::Metal) => true,
            (TextureMap::NorGL, TextureMap::NorGL) => true,
            (TextureMap::Rough, TextureMap::Rough) => true,
            (TextureMap::Spec, TextureMap::Spec) => true,
            (TextureMap::Unparsed(a), TextureMap::Unparsed(b)) => *a == *b,
            _ => false,
        }
    }
}

impl SameKey for TextureFormat {
    fn same_key(&self, other: &Self) -> (r: bool) {
        match (self, other) {
            (TextureFormat::Exr, TextureFormat::Exr) => true,
            (TextureFormat::Jpg, TextureFormat::Jpg) => true,
            (TextureFormat::Png, TextureFormat::Png) => true,
            (TextureFormat::Unparsed(a), TextureFormat::Unparsed(b)) => *a == *b,
            _ => false,
        }
    }
}

/// The model of an optional file.
pub open spec fn opt_file_model(f: Option<FileData>) -> Option<FileModel> {
    match f {
        Some(g) => Some(g@),
        None => None,
    }
}

/// The mathematical content of [`HDRIFiles`].
pub struct HDRIFilesModel {
    pub hdri: Map<u64, Map<HDRIFormatView, FileModel>>,
    pub backplates: Map<Seq<char>, Map<HDRIBackplateFormatView, FileModel>>,
    pub colorchart: Option<FileModel>,
    pub tonemapped: Option<FileModel>,
}

impl View for HDRIFiles {
    type V = HDRIFilesModel;

    open spec fn view(&self) -> HDRIFilesModel {
        HDRIFilesModel {
            hdri: hdri_model(self.hdri@),
            backplates: backplates_model(self.backplates@),
            colorchart: opt_file_model(self.colorchart),
            tonemapped: opt_file_model(self.tonemapped),
        }
    }
}

/// The mathematical content of [`TextureFiles`].
pub struct TextureFilesModel {
    pub blend: Map<u64, FileModel>,
    pub gltf: Map<u64, FileModel>,
    pub maps: Map<TextureMapView, Map<u64, Map<TextureFormatView, FileModel>>>,
}

impl View for TextureFiles {
    type V = TextureFilesModel;

    open spec fn view(&self) -> TextureFilesModel {
        TextureFilesModel {
            blend: by_resolution_model(self.blend@),
            gltf: by_resolution_model(self.gltf@),
            maps: maps_model(self.maps@),
        }
    }
}

/// The mathematical content of [`ModelFiles`].
pub struct ModelFilesModel {
    pub blend: Map<u64, FileModel>,
    pub gltf: Map<u64, FileModel>,
    pub fbx: Map<u64, FileModel>,
    pub maps: Map<TextureMapView, Map<u64, Map<TextureFormatView, FileModel>>>,
}

impl View for ModelFiles {
    type V = ModelFilesModel;

    open spec fn view(&self) -> ModelFilesModel {
        ModelFilesModel {
            blend: by_resolution_model(self.blend@),
            gltf: by_resolution_model(self.gltf@),
            fbx: by_resolution_model(self.fbx@),
            maps: maps_model(self.maps@),
        }
    }
}

/// The mathematical content of [`Files`].
pub enum FilesModel {
    HDRI(HDRIFilesModel),
    Texture(TextureFilesModel),
    Model(ModelFilesModel),
}

impl View for Files {
    type V = FilesModel;

    open spec fn view(&self) -> FilesModel {
        match self {
            Files::HDRI(f) => FilesModel::HDRI(f@),
            Files::Texture(f) => FilesModel::Texture(f@),
            Files::Model(f) => FilesModel::Model(f@),
        }
    }
}


/// Token mapping is total and ignores case on the known tokens: what a
/// known token maps to depends on its lower-case form `lower` alone, and an
/// unknown token is kept exactly as it was written.
pub proof fn token_mapping_ignores_case(lower: Seq<char>, a: Seq<char>, b: Seq<char>)
    ensures
        hdri_format_token(lower, a) is Unparsed || hdri_format_token(lower, a)
            == hdri_format_token(lower, b),
        hdri_format_token(lower, a) is Unparsed ==> hdri_format_token(lower, a)
            == HDRIFormatView::Unparsed(a),
        backplate_format_token(lower, a) is Unparsed || backplate_format_token(lower, a)
            == backplate_format_token(lower, b),
        backplate_format_token(lower, a) is Unparsed ==> backplate_format_token(lower, a)
            == HDRIBackplateFormatView::Unparsed(a),
        texture_map_token(lower, a) is Unparsed || texture_map_token(lower, a)
            == texture_map_token(lower, b),
        texture_map_token(lower, a) is Unparsed ==> texture_map_token(lower, a)
            == TextureMapView::Unparsed(a),
        texture_format_token(lower, a) is Unparsed || texture_format_token(lower, a)
            == texture_format_token(lower, b),
        texture_format_token(lower, a) is Unparsed ==> texture_format_token(lower, a)
            == TextureFormatView::Unparsed(a),
{
}

} // verus!
