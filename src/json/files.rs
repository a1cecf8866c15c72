//! File manifests as served, and the normaliser that turns them into the
//! domain model: resolution tokens become pixel counts (unreadable ones drop
//! their entry), format tokens become open enums, the fixed map-kind fields
//! become one map, and bundled files are normalised recursively.

use vstd::prelude::*;

use crate::assoc::{pairs_map, upsert};
use crate::data::files;
use crate::error::Error;

verus! {

/// `c` is an ASCII decimal digit.
pub open spec fn is_digit(c: char) -> bool {
    '0' <= c && c <= '9'
}

/// `s` is a non-empty run of decimal digits.
pub open spec fn is_decimal(s: Seq<char>) -> bool {
    s.len() > 0 && forall|i: int| 0 <= i < s.len() ==> is_digit(#[trigger] s[i])
}

/// The number that the digits `s` write in base ten.
pub open spec fn decimal_value(s: Seq<char>) -> nat
    decreases s.len(),
{
    if s.len() == 0 {
        0
    } else {
        decimal_value(s.drop_last()) * 10 + (s.last() as nat - '0' as nat) as nat
    }
}

/// `s` ends in the kilo suffix `k` or `K`.
pub open spec fn has_kilo_suffix(s: Seq<char>) -> bool {
    s.len() > 0 && (s.last() == 'k' || s.last() == 'K')
}

/// The pixel count that a resolution token writes: a decimal number, or a
/// decimal number followed by `k`/`K`, which multiplies it by 1024. A token of
/// any other shape, or one whose value does not fit in 64 bits, has none.
pub open spec fn resolution_of(s: Seq<char>) -> Option<u64> {
    if has_kilo_suffix(s) {
        let p = s.drop_last();
        if is_decimal(p) && decimal_value(p) * 1024 <= u64::MAX {
            Some((decimal_value(p) * 1024) as u64)
        } else {
            None
        }
    } else if is_decimal(s) && decimal_value(s) <= u64::MAX {
        Some(decimal_value(s) as u64)
    } else {
        None
    }
}

/// Reads the digits `s[0..end]` as a decimal number.
fn parse_decimal(s: &str, end: usize) -> (r: Option<u64>)
    requires
        end <= s@.len(),
    ensures
        r == (if is_decimal(s@.subrange(0, end as int))
            && decimal_value(s@.subrange(0, end as int)) <= u64::MAX {
            Some(decimal_value(s@.subrange(0, end as int)) as u64)
        } else {
            None
        }),
{
    if end == 0 {
        return None;
    }
    let ghost t = s@.subrange(0, end as int);
    let mut acc: u64 = 0;
    let mut fits = true;
    let mut i: usize = 0;
    while i < end
        invariant
            i <= end <= s@.len(),
            t == s@.subrange(0, end as int),
            forall|j: int| 0 <= j < i ==> is_digit(#[trigger] t[j]),
            fits ==> acc == decimal_value(t.subrange(0, i as int)),
            !fits ==> decimal_value(t.subrange(0, i as int)) > u64::MAX,
        decreases end - i,
    {
        let c = s.get_char(i);
        if !('0' <= c && c <= '9') {
            assert(!is_digit(t[i as int]));
            return None;
        }
        let ghost prev = t.subrange(0, i as int);
        assert(t.subrange(0, i + 1).drop_last() == prev);
        let d = (c as u32 - '0' as u32) as u64;
        if fits {
            if acc <= (u64::MAX - d) / 10 {
                acc = acc * 10 + d;
            } else {
                fits = false;
            }
        } else {
            assert(decimal_value(t.subrange(0, i + 1)) >= decimal_value(prev));
        }
        i = i + 1;
    }
    assert(t.subrange(0, end as int) == t);
    if fits {
        Some(acc)
    } else {
        None
    }
}

/// Reads a resolution token: `"4k"` is 4096, `"8K"` is 8192 and `"1337"` is
/// 1337. Anything else (an empty token, a sign, a second suffix, a value that
/// does not fit in 64 bits) is refused.
pub fn parse_resolution(res_str: &str) -> (r: Result<u64, Error>)
    ensures
        r == match resolution_of(res_str@) {
            Some(n) => Ok(n),
            None => Err(Error::InvalidResolution),
        },
{
    let len = res_str.unicode_len();
    if len > 0 && (res_str.get_char(len - 1) == 'k' || res_str.get_char(len - 1) == 'K') {
        assert(res_str@.subrange(0, len - 1) == res_str@.drop_last());
        match parse_decimal(res_str, len - 1) {
            Some(n) => {
                if n <= u64::MAX / 1024 {
                    Ok(n * 1024)
                } else {
                    Err(Error::InvalidResolution)
                }
            },
            None => Err(Error::InvalidResolution),
        }
    } else {
        assert(res_str@.subrange(0, len as int) == res_str@);
        match parse_decimal(res_str, len) {
            Some(n) => Ok(n),
            None => Err(Error::InvalidResolution),
        }
    }
}

/// The files that a list of wire entries keyed by resolution tokens yields,
/// each value seen through `vf`: an entry whose token is not a resolution is
/// dropped, and a later entry overrides an earlier one with the same
/// resolution.
pub open spec fn resolution_map<W, VM>(s: Seq<(String, W)>, vf: spec_fn(W) -> VM) -> Map<u64, VM>
    decreases s.len(),
{
    if s.len() == 0 {
        Map::empty()
    } else {
        let m = resolution_map(s.drop_last(), vf);
        match resolution_of(s.last().0@) {
            Some(r) => m.insert(r, vf(s.last().1)),
            None => m,
        }
    }
}

/// A file as the catalogue serves it.
#[derive(Debug, PartialEq, Eq)]
pub struct FileData {
    pub url: Option<String>,
    pub md5: String,
    pub size: u64,
    pub included: Option<Vec<(String, FileData)>>,
}

/// The domain model of a wire file: its own fields, and its bundled files
/// (none where the field is absent), each normalised the same way.
pub open spec fn normalized_file(w: FileData) -> files::FileModel
    decreases w,
{
    files::FileModel {
        url: files::opt_chars(w.url),
        md5: w.md5@,
        size: w.size,
        included: match w.included {
            Some(v) => normalized_bundle(v@),
            None => Map::empty(),
        },
    }
}

/// The domain model of a list of bundled wire files, keyed by path.
pub open spec fn normalized_bundle(s: Seq<(String, FileData)>) -> Map<Seq<char>, files::FileModel>
    decreases s,
{
    if s.len() == 0 {
        Map::empty()
    } else {
        let last = s[s.len() - 1];
        normalized_bundle(s.subrange(0, s.len() - 1)).insert(last.0@, normalized_file(last.1))
    }
}

fn clone_opt(s: &Option<String>) -> (r: Option<String>)
    ensures
        files::opt_chars(r) == files::opt_chars(*s),
{
    match s {
        Some(t) => Some(t.clone()),
        None => None,
    }
}

impl files::FileData {
    /// Normalises a wire file and, recursively, the files it bundles.
    pub fn from_json(json: &FileData) -> (r: Self)
        ensures
            r@ == normalized_file(*json),
            files::file_wf(r),
        decreases json,
    {
        let mut included: Vec<(String, files::FileData)> = Vec::new();
        match &json.included {
            Some(v) => {
                let mut i: usize = 0;
                while i < v.len()
                    invariant
                        i <= v.len(),
                        json.included == Some(*v),
                        files::files_wf(included@),
                        files::bundle_model(included@) == normalized_bundle(v@.subrange(0, i as int)),
                    decreases v.len() - i,
                {
                    let path = v[i].0.clone();
                    proof {
                        let inner = json.included->Some_0;
                        assert(decreases_to!(*json => json.included));
                        assert(decreases_to!(json.included => inner));
                        assert(decreases_to!(inner => inner[i as int]));
                        assert(decreases_to!(inner[i as int] => inner[i as int].1));
                    }
                    let file = files::FileData::from_json(&v[i].1);
                    proof {
                        files::lemma_bundle_model_entries(included@);
                    }
                    upsert::<_, _, files::FileModel>(
                        &mut included,
                        path,
                        file,
                        Ghost(files::file_fn()),
                    );
                    proof {
                        files::lemma_bundle_model_entries(included@);
                        assert(v@.subrange(0, i + 1).subrange(0, i as int) == v@.subrange(0, i as int));
                    }
                    i = i + 1;
                }
                assert(v@.subrange(0, v.len() as int) == v@);
            },
            None => {},
        }
        let r = files::FileData {
            url: clone_opt(&json.url),
            md5: json.md5.clone(),
            size: json.size,
            included,
        };
        assert(forall|i: int|
            0 <= i < r.included@.len() ==> files::file_wf(#[trigger] r.included@[i].1));
        r
    }
}


/// A resolution token as the catalogue writes it (`"4k"`).
pub type FileResolution = String;

/// An HDRI format token as the catalogue writes it.
pub type HDRIFormat = String;

/// A backplate format token as the catalogue writes it.
pub type HDRIBackplateFormat = String;

/// A texture format token as the catalogue writes it.
pub type TextureFormat = String;

/// Files keyed by resolution token, then by format token.
pub type ByResolutionAndFormat = Vec<(FileResolution, Vec<(String, FileData)>)>;

/// Files keyed by resolution token, as a map.
pub open spec fn normalized_by_resolution(s: Seq<(FileResolution, FileData)>) -> Map<
    u64,
    files::FileModel,
> {
    resolution_map(s, |w: FileData| normalized_file(w))
}

/// HDRI images keyed by format token, as a map.
pub open spec fn normalized_hdri_formats(s: Seq<(HDRIFormat, FileData)>) -> Map<
    files::HDRIFormatView,
    files::FileModel,
> {
    pairs_map(
        s,
        |k: String| files::hdri_format_token(files::lower_of(k@), k@),
        |w: FileData| normalized_file(w),
    )
}

/// HDRI images keyed by resolution token and format token, as a map.
pub open spec fn normalized_hdri_res(s: Seq<(FileResolution, Vec<(HDRIFormat, FileData)>)>) -> Map<
    u64,
    Map<files::HDRIFormatView, files::FileModel>,
> {
    resolution_map(s, |fs: Vec<(HDRIFormat, FileData)>| normalized_hdri_formats(fs@))
}

/// Backplate images keyed by format token, as a map.
pub open spec fn normalized_backplate_formats(s: Seq<(HDRIBackplateFormat, FileData)>) -> Map<
    files::HDRIBackplateFormatView,
    files::FileModel,
> {
    pairs_map(
        s,
        |k: String| files::backplate_format_token(files::lower_of(k@), k@),
        |w: FileData| normalized_file(w),
    )
}

/// Backplates keyed by name and format token, as a map.
pub open spec fn normalized_backplates(s: Seq<(String, Vec<(HDRIBackplateFormat, FileData)>)>) -> Map<
    Seq<char>,
    Map<files::HDRIBackplateFormatView, files::FileModel>,
> {
    pairs_map(
        s,
        |k: String| k@,
        |fs: Vec<(HDRIBackplateFormat, FileData)>| normalized_backplate_formats(fs@),
    )
}

/// Texture images keyed by format token, as a map.
pub open spec fn normalized_texture_formats(s: Seq<(TextureFormat, FileData)>) -> Map<
    files::TextureFormatView,
    files::FileModel,
> {
    pairs_map(
        s,
        |k: String| files::texture_format_token(files::lower_of(k@), k@),
        |w: FileData| normalized_file(w),
    )
}

/// Texture images keyed by resolution token and format token, as a map.
pub open spec fn normalized_texture_res(s: Seq<(FileResolution, Vec<(TextureFormat, FileData)>)>) -> Map<
    u64,
    Map<files::TextureFormatView, files::FileModel>,
> {
    resolution_map(s, |fs: Vec<(TextureFormat, FileData)>| normalized_texture_formats(fs@))
}

/// The domain model of an optional wire file.
pub open spec fn normalized_opt_file(w: Option<FileData>) -> Option<files::FileModel> {
    match w {
        Some(f) => Some(normalized_file(f)),
        None => None,
    }
}

/// Normalises files keyed by resolution token, dropping each entry whose
/// token is not a resolution.
fn files_by_resolution(s: &Vec<(FileResolution, FileData)>) -> (r: Vec<(u64, files::FileData)>)
    ensures
        files::by_resolution_model(r@) == normalized_by_resolution(s@),
        files::files_wf(r@),
{
    let mut out: Vec<(u64, files::FileData)> = Vec::new();
    let mut i: usize = 0;
    while i < s.len()
        invariant
            i <= s.len(),
            files::files_wf(out@),
            files::by_resolution_model(out@) == normalized_by_resolution(s@.subrange(0, i as int)),
        decreases s.len() - i,
    {
        proof {
            assert(s@.subrange(0, i + 1).drop_last() == s@.subrange(0, i as int));
        }
        match parse_resolution(s[i].0.as_str()) {
            Ok(res) => {
                let file = files::FileData::from_json(&s[i].1);
                upsert::<_, _, files::FileModel>(&mut out, res, file, Ghost(files::file_fn()));
            },
            Err(_) => {},
        }
        i = i + 1;
    }
    assert(s@.subrange(0, s.len() as int) == s@);
    out
}

/// Normalises HDRI images keyed by format token.
fn hdri_formats(s: &Vec<(HDRIFormat, FileData)>) -> (r: Vec<(files::HDRIFormat, files::FileData)>)
    ensures
        files::hdri_formats_model(r@) == normalized_hdri_formats(s@),
        files::files_wf(r@),
{
    let mut out: Vec<(files::HDRIFormat, files::FileData)> = Vec::new();
    let mut i: usize = 0;
    while i < s.len()
        invariant
            i <= s.len(),
            files::files_wf(out@),
            files::hdri_formats_model(out@) == normalized_hdri_formats(s@.subrange(0, i as int)),
        decreases s.len() - i,
    {
        let format = files::HDRIFormat::from_token(s[i].0.as_str());
        let file = files::FileData::from_json(&s[i].1);
        upsert::<_, _, files::FileModel>(&mut out, format, file, Ghost(files::file_fn()));
        proof {
            assert(s@.subrange(0, i + 1).drop_last() == s@.subrange(0, i as int));
        }
        i = i + 1;
    }
    assert(s@.subrange(0, s.len() as int) == s@);
    out
}

/// Normalises HDRI images keyed by resolution token and format token,
/// dropping each entry whose resolution token is not a resolution.
fn hdri_by_resolution(s: &Vec<(FileResolution, Vec<(HDRIFormat, FileData)>)>) -> (r: Vec<
    (u64, Vec<(files::HDRIFormat, files::FileData)>),
>)
    ensures
        files::hdri_model(r@) == normalized_hdri_res(s@),
        files::nested_wf(r@),
{
    let mut out: Vec<(u64, Vec<(files::HDRIFormat, files::FileData)>)> = Vec::new();
    let mut i: usize = 0;
    while i < s.len()
        invariant
            i <= s.len(),
            files::nested_wf(out@),
            files::hdri_model(out@) == normalized_hdri_res(s@.subrange(0, i as int)),
        decreases s.len() - i,
    {
        proof {
            assert(s@.subrange(0, i + 1).drop_last() == s@.subrange(0, i as int));
        }
        match parse_resolution(s[i].0.as_str()) {
            Ok(res) => {
                let formats = hdri_formats(&s[i].1);
                upsert::<_, _, Map<files::HDRIFormatView, files::FileModel>>(
                    &mut out,
                    res,
                    formats,
                    Ghost(files::hdri_formats_fn()),
                );
            },
            Err(_) => {},
        }
        i = i + 1;
    }
    assert(s@.subrange(0, s.len() as int) == s@);
    out
}

/// Normalises backplate images keyed by format token.
fn backplate_formats(s: &Vec<(HDRIBackplateFormat, FileData)>) -> (r: Vec<
    (files::HDRIBackplateFormat, files::FileData),
>)
    ensures
        files::backplate_formats_model(r@) == normalized_backplate_formats(s@),
        files::files_wf(r@),
{
    let mut out: Vec<(files::HDRIBackplateFormat, files::FileData)> = Vec::new();
    let mut i: usize = 0;
    while i < s.len()
        invariant
            i <= s.len(),
            files::files_wf(out@),
            files::backplate_formats_model(out@) == normalized_backplate_formats(
                s@.subrange(0, i as int),
            ),
        decreases s.len() - i,
    {
        let format = files::HDRIBackplateFormat::from_token(s[i].0.as_str());
        let file = files::FileData::from_json(&s[i].1);
        upsert::<_, _, files::FileModel>(&mut out, format, file, Ghost(files::file_fn()));
        proof {
            assert(s@.subrange(0, i + 1).drop_last() == s@.subrange(0, i as int));
        }
        i = i + 1;
    }
    assert(s@.subrange(0, s.len() as int) == s@);
    out
}

/// Normalises backplates keyed by name and format token.
fn backplates(s: &Vec<(String, Vec<(HDRIBackplateFormat, FileData)>)>) -> (r: Vec<
    (String, Vec<(files::HDRIBackplateFormat, files::FileData)>),
>)
    ensures
        files::backplates_model(r@) == normalized_backplates(s@),
        files::nested_wf(r@),
{
    let mut out: Vec<(String, Vec<(files::HDRIBackplateFormat, files::FileData)>)> = Vec::new();
    let mut i: usize = 0;
    while i < s.len()
        invariant
            i <= s.len(),
            files::nested_wf(out@),
            files::backplates_model(out@) == normalized_backplates(s@.subrange(0, i as int)),
        decreases s.len() - i,
    {
        let name = s[i].0.clone();
        let formats = backplate_formats(&s[i].1);
        upsert::<_, _, Map<files::HDRIBackplateFormatView, files::FileModel>>(
            &mut out,
            name,
            formats,
            Ghost(files::backplate_formats_fn()),
        );
        proof {
            assert(s@.subrange(0, i + 1).drop_last() == s@.subrange(0, i as int));
        }
        i = i + 1;
    }
    assert(s@.subrange(0, s.len() as int) == s@);
    out
}

/// Normalises texture images keyed by format token.
fn texture_formats(s: &Vec<(TextureFormat, FileData)>) -> (r: Vec<
    (files::TextureFormat, files::FileData),
>)
    ensures
        files::texture_formats_model(r@) == normalized_texture_formats(s@),
        files::files_wf(r@),
{
    let mut out: Vec<(files::TextureFormat, files::FileData)> = Vec::new();
    let mut i: usize = 0;
    while i < s.len()
        invariant
            i <= s.len(),
            files::files_wf(out@),
            files::texture_formats_model(out@) == normalized_texture_formats(
                s@.subrange(0, i as int),
            ),
        decreases s.len() - i,
    {
        let format = files::TextureFormat::from_token(s[i].0.as_str());
        let file = files::FileData::from_json(&s[i].1);
        upsert::<_, _, files::FileModel>(&mut out, format, file, Ghost(files::file_fn()));
        proof {
            assert(s@.subrange(0, i + 1).drop_last() == s@.subrange(0, i as int));
        }
        i = i + 1;
    }
    assert(s@.subrange(0, s.len() as int) == s@);
    out
}

/// Normalises texture images keyed by resolution token and format token,
/// dropping each entry whose resolution token is not a resolution.
fn texture_by_resolution(s: &Vec<(FileResolution, Vec<(TextureFormat, FileData)>)>) -> (r: Vec<
    (u64, Vec<(files::TextureFormat, files::FileData)>),
>)
    ensures
        files::texture_res_model(r@) == normalized_texture_res(s@),
        files::nested_wf(r@),
{
    let mut out: Vec<(u64, Vec<(files::TextureFormat, files::FileData)>)> = Vec::new();
    let mut i: usize = 0;
    while i < s.len()
        invariant
            i <= s.len(),
            files::nested_wf(out@),
            files::texture_res_model(out@) == normalized_texture_res(s@.subrange(0, i as int)),
        decreases s.len() - i,
    {
        proof {
            assert(s@.subrange(0, i + 1).drop_last() == s@.subrange(0, i as int));
        }
        match parse_resolution(s[i].0.as_str()) {
            Ok(res) => {
                let formats = texture_formats(&s[i].1);
                upsert::<_, _, Map<files::TextureFormatView, files::FileModel>>(
                    &mut out,
                    res,
                    formats,
                    Ghost(files::texture_formats_fn()),
                );
            },
            Err(_) => {},
        }
        i = i + 1;
    }
    assert(s@.subrange(0, s.len() as int) == s@);
    out
}

fn opt_file(w: &Option<FileData>) -> (r: Option<files::FileData>)
    ensures
        files::opt_file_model(r) == normalized_opt_file(*w),
        files::opt_file_wf(r),
{
    match w {
        Some(f) => Some(files::FileData::from_json(f)),
        None => None,
    }
}


/// An HDRI environment's files as the catalogue serves them.
#[derive(Debug, PartialEq, Eq)]
pub struct HDRIFiles {
    pub hdri: Vec<(FileResolution, Vec<(HDRIFormat, FileData)>)>,
    pub backplates: Option<Vec<(String, Vec<(HDRIBackplateFormat, FileData)>)>>,
    pub colorchart: Option<FileData>,
    pub tonemapped: Option<FileData>,
}

/// The domain model of an HDRI environment's wire files.
pub open spec fn normalized_hdri_files(w: HDRIFiles) -> files::HDRIFilesModel {
    files::HDRIFilesModel {
        hdri: normalized_hdri_res(w.hdri@),
        backplates: match w.backplates {
            Some(b) => normalized_backplates(b@),
            None => Map::empty(),
        },
        colorchart: normalized_opt_file(w.colorchart),
        tonemapped: normalized_opt_file(w.tonemapped),
    }
}

impl files::HDRIFiles {
    /// Normalises an HDRI environment's wire files.
    pub fn from_json(json: &HDRIFiles) -> (r: Self)
        ensures
            r.wf(),
            r@ == normalized_hdri_files(*json),
    {
        let backplates = match &json.backplates {
            Some(b) => backplates(b),
            None => Vec::new(),
        };
        files::HDRIFiles {
            hdri: hdri_by_resolution(&json.hdri),
            backplates,
            colorchart: opt_file(&json.colorchart),
            tonemapped: opt_file(&json.tonemapped),
        }
    }
}

/// The image maps of a texture set or model as the catalogue serves them:
/// one optional field per map kind.
#[derive(Debug, PartialEq, Eq)]
pub struct TextureMaps {
    pub ao: Option<ByResolutionAndFormat>,
    pub arm: Option<ByResolutionAndFormat>,
    pub bump: Option<ByResolutionAndFormat>,
    pub diffuse: Option<ByResolutionAndFormat>,
    pub displacement: Option<ByResolutionAndFormat>,
    pub metal: Option<ByResolutionAndFormat>,
    pub nor_gl: Option<ByResolutionAndFormat>,
    pub rough: Option<ByResolutionAndFormat>,
    pub spec: Option<ByResolutionAndFormat>,
}

/// Image maps by kind, resolution and format.
pub type MapsModel = Map<
    files::TextureMapView,
    Map<u64, Map<files::TextureFormatView, files::FileModel>>,
>;

/// `m` with the wire field `field` added under `kind` where it is present.
pub open spec fn with_map(
    m: MapsModel,
    kind: files::TextureMapView,
    field: Option<ByResolutionAndFormat>,
) -> MapsModel {
    match field {
        Some(v) => m.insert(kind, normalized_texture_res(v@)),
        None => m,
    }
}

/// The image maps of the fixed wire fields, each present field under its
/// map kind.
pub open spec fn normalized_maps(w: TextureMaps) -> MapsModel {
    let m = with_map(Map::empty(), files::TextureMapView::AO, w.ao);
    let m = with_map(m, files::TextureMapView::ARM, w.arm);
    let m = with_map(m, files::TextureMapView::Bump, w.bump);
    let m = with_map(m, files::TextureMapView::Diffuse, w.diffuse);
    let m = with_map(m, files::TextureMapView::Displacement, w.displacement);
    let m = with_map(m, files::TextureMapView::Metal, w.metal);
    let m = with_map(m, files::TextureMapView::NorGL, w.nor_gl);
    let m = with_map(m, files::TextureMapView::Rough, w.rough);
    with_map(m, files::TextureMapView::Spec, w.spec)
}

/// Image maps by kind, as the domain model keeps them.
pub type Maps = Vec<(files::TextureMap, Vec<(u64, Vec<(files::TextureFormat, files::FileData)>)>)>;

fn add_map(out: &mut Maps, kind: files::TextureMap, field: &Option<ByResolutionAndFormat>)
    requires
        files::maps_wf(old(out)@),
    ensures
        files::maps_wf(final(out)@),
        files::maps_model(final(out)@) == with_map(files::maps_model(old(out)@), kind@, *field),
{
    match field {
        Some(v) => {
            let by_res = texture_by_resolution(v);
            upsert::<_, _, Map<u64, Map<files::TextureFormatView, files::FileModel>>>(
                out,
                kind,
                by_res,
                Ghost(files::texture_res_fn()),
            );
        },
        None => {},
    }
}

impl TextureMaps {
    /// Gathers the present map fields into one list keyed by map kind.
    pub fn to_maps(&self) -> (r: Maps)
        ensures
            files::maps_wf(r@),
            files::maps_model(r@) == normalized_maps(*self),
    {
        let mut out: Maps = Vec::new();
        add_map(&mut out, files::TextureMap::AO, &self.ao);
        add_map(&mut out, files::TextureMap::ARM, &self.arm);
        add_map(&mut out, files::TextureMap::Bump, &self.bump);
        add_map(&mut out, files::TextureMap::Diffuse, &self.diffuse);
        add_map(&mut out, files::TextureMap::Displacement, &self.displacement);
        add_map(&mut out, files::TextureMap::Metal, &self.metal);
        add_map(&mut out, files::TextureMap::NorGL, &self.nor_gl);
        add_map(&mut out, files::TextureMap::Rough, &self.rough);
        add_map(&mut out, files::TextureMap::Spec, &self.spec);
        out
    }
}

/// A texture set's files as the catalogue serves them.
#[derive(Debug, PartialEq, Eq)]
pub struct TextureFiles {
    pub blend: Vec<(FileResolution, FileData)>,
    pub gltf: Vec<(FileResolution, FileData)>,
    pub maps: TextureMaps,
}

/// The domain model of a texture set's wire files.
pub open spec fn normalized_texture_files(w: TextureFiles) -> files::TextureFilesModel {
    files::TextureFilesModel {
        blend: normalized_by_resolution(w.blend@),
        gltf: normalized_by_resolution(w.gltf@),
        maps: normalized_maps(w.maps),
    }
}

impl files::TextureFiles {
    /// Normalises a texture set's wire files.
    pub fn from_json(json: &TextureFiles) -> (r: Self)
        ensures
            r.wf(),
            r@ == normalized_texture_files(*json),
    {
        files::TextureFiles {
            blend: files_by_resolution(&json.blend),
            gltf: files_by_resolution(&json.gltf),
            maps: json.maps.to_maps(),
        }
    }
}

/// A model's files as the catalogue serves them.
#[derive(Debug, PartialEq, Eq)]
pub struct ModelFiles {
    pub blend: Vec<(FileResolution, FileData)>,
    pub gltf: Vec<(FileResolution, FileData)>,
    pub fbx: Vec<(FileResolution, FileData)>,
    pub maps: TextureMaps,
}

/// The domain model of a model's wire files.
pub open spec fn normalized_model_files(w: ModelFiles) -> files::ModelFilesModel {
    files::ModelFilesModel {
        blend: normalized_by_resolution(w.blend@),
        gltf: normalized_by_resolution(w.gltf@),
        fbx: normalized_by_resolution(w.fbx@),
        maps: normalized_maps(w.maps),
    }
}

impl files::ModelFiles {
    /// Normalises a model's wire files.
    pub fn from_json(json: &ModelFiles) -> (r: Self)
        ensures
            r.wf(),
            r@ == normalized_model_files(*json),
    {
        files::ModelFiles {
            blend: files_by_resolution(&json.blend),
            gltf: files_by_resolution(&json.gltf),
            fbx: files_by_resolution(&json.fbx),
            maps: json.maps.to_maps(),
        }
    }
}

/// A file manifest as the catalogue serves it, in the shape of its family.
#[derive(Debug, PartialEq, Eq)]
pub enum Files {
    HDRI(HDRIFiles),
    Texture(TextureFiles),
    Model(ModelFiles),
}

/// The domain model of a wire file manifest.
pub open spec fn normalized_files(w: Files) -> files::FilesModel {
    match w {
        Files::HDRI(f) => files::FilesModel::HDRI(normalized_hdri_files(f)),
        Files::Texture(f) => files::FilesModel::Texture(normalized_texture_files(f)),
        Files::Model(f) => files::FilesModel::Model(normalized_model_files(f)),
    }
}

impl files::Files {
    /// Normalises a wire file manifest, keeping its family.
    pub fn from_json(json: &Files) -> (r: Self)
        ensures
            r.wf(),
            r@ == normalized_files(*json),
    {
        match json {
            Files::HDRI(f) => files::Files::HDRI(files::HDRIFiles::from_json(f)),
            Files::Texture(f) => files::Files::Texture(files::TextureFiles::from_json(f)),
            Files::Model(f) => files::Files::Model(files::ModelFiles::from_json(f)),
        }
    }
}


/// A token of decimal digits reads as the number it writes, and one followed
/// by `k` or `K` as 1024 times the number its digits write, wherever the
/// result fits in 64 bits.
pub proof fn resolution_tokens_read_as_numbers(s: Seq<char>)
    ensures
        is_decimal(s) && decimal_value(s) <= u64::MAX ==> resolution_of(s) == Some(
            decimal_value(s) as u64,
        ),
        has_kilo_suffix(s) && is_decimal(s.drop_last()) && decimal_value(s.drop_last()) * 1024
            <= u64::MAX ==> resolution_of(s) == Some((decimal_value(s.drop_last()) * 1024) as u64),
{
    if is_decimal(s) {
        assert(is_digit(s[s.len() - 1]));
    }
}

/// An entry survives normalisation exactly where its token is a resolution:
/// the resolutions in the result are those that some entry's token reads as,
/// and an entry with an unreadable token is dropped without affecting the
/// others.
pub proof fn unreadable_resolutions_are_dropped<W, VM>(s: Seq<(String, W)>, vf: spec_fn(W) -> VM)
    ensures
        forall|r: u64|
            resolution_map(s, vf).contains_key(r) <==> exists|i: int|
                0 <= i < s.len() && resolution_of(#[trigger] s[i].0@) == Some(r),
        forall|p: (String, W)|
            resolution_of(p.0@) is None ==> resolution_map(#[trigger] s.push(p), vf)
                == resolution_map(s, vf),
    decreases s.len(),
{
    assert forall|p: (String, W)| resolution_of(p.0@) is None implies resolution_map(
        #[trigger] s.push(p),
        vf,
    ) == resolution_map(s, vf) by {
        assert(s.push(p).drop_last() == s);
    }
    if s.len() > 0 {
        let d = s.drop_last();
        unreadable_resolutions_are_dropped(d, vf);
        assert forall|r: u64|
            resolution_map(s, vf).contains_key(r) <==> exists|i: int|
                0 <= i < s.len() && resolution_of(#[trigger] s[i].0@) == Some(r) by {
            let m = resolution_map(d, vf);
            assert(resolution_map(s, vf) == match resolution_of(s.last().0@) {
                Some(x) => m.insert(x, vf(s.last().1)),
                None => m,
            });
            if resolution_map(s, vf).contains_key(r) {
                if resolution_of(s.last().0@) == Some(r) {
                    assert(resolution_of(s[s.len() - 1].0@) == Some(r));
                } else {
                    assert(m.contains_key(r));
                    let i = choose|i: int|
                        0 <= i < d.len() && resolution_of(#[trigger] d[i].0@) == Some(r);
                    assert(resolution_of(s[i].0@) == Some(r));
                }
            }
            if exists|i: int| 0 <= i < s.len() && resolution_of(#[trigger] s[i].0@) == Some(r) {
                let i = choose|i: int|
                    0 <= i < s.len() && resolution_of(#[trigger] s[i].0@) == Some(r);
                if i < s.len() - 1 {
                    assert(resolution_of(d[i].0@) == Some(r));
                    assert(m.contains_key(r));
                }
            }
        }
    }
}

/// The map kinds of the reshaped image maps are exactly those whose fixed
/// wire field is present.
pub proof fn maps_hold_the_present_fields(w: TextureMaps)
    ensures
        forall|k: files::TextureMapView|
            #[trigger] normalized_maps(w).contains_key(k) <==> {
                ||| k == files::TextureMapView::AO && w.ao is Some
                ||| k == files::TextureMapView::ARM && w.arm is Some
                ||| k == files::TextureMapView::Bump && w.bump is Some
                ||| k == files::TextureMapView::Diffuse && w.diffuse is Some
                ||| k == files::TextureMapView::Displacement && w.displacement is Some
                ||| k == files::TextureMapView::Metal && w.metal is Some
                ||| k == files::TextureMapView::NorGL && w.nor_gl is Some
                ||| k == files::TextureMapView::Rough && w.rough is Some
                ||| k == files::TextureMapView::Spec && w.spec is Some
            },
{
}

/// Normalising one wire manifest twice gives equal domain values: the
/// result depends on the wire value alone.
pub proof fn normalisation_is_deterministic(w: Files, a: files::Files, b: files::Files)
    requires
        a@ == normalized_files(w),
        b@ == normalized_files(w),
    ensures
        a@ == b@,
{
}

} // verus!
