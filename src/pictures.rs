//! Picture records, and the rules that ingest a directory of pictures.

use vstd::prelude::*;
use crate::articles::{EventKind, FsEvent, PathFacts};
use crate::catalog::{Catalog, ingested, lemma_ingest_idempotent, pictures_unique, registered};
use crate::error::{Error, Reason};
use crate::manifest::{MANIFEST_FILE, MANIFEST_MARKER, attributes_of, is_confirmed, picture_attributes};
use crate::paths::{extension, file_name, parent, file_name_of, parent_of, extension_of};
use crate::text::{chars_of, contains, copy_opt, find_from, first_index, opt_view};

verus! {

/// A picture as the catalog holds it.
///
/// `hash` is the digest of the stored file; `hash_old` is the digest of the
/// original file when the stored one was recompressed, so that either finds it.
#[derive(Debug)]
pub struct PhotographyPicture {
    pub hash_old: Option<String>,
    pub hash: String,
    pub path: String,
    pub selected: bool,
    pub title: String,
    pub article_link: Option<String>,
    pub params: String,
    pub date: String,
    pub camera: String,
    pub direction: String,
}

/// The content of a picture record.
pub struct PictureRow {
    pub hash_old: Option<Seq<char>>,
    pub hash: Seq<char>,
    pub path: Seq<char>,
    pub selected: bool,
    pub title: Seq<char>,
    pub article_link: Option<Seq<char>>,
    pub params: Seq<char>,
    pub date: Seq<char>,
    pub camera: Seq<char>,
    pub direction: Seq<char>,
}

impl View for PhotographyPicture {
    type V = PictureRow;

    open spec fn view(&self) -> PictureRow {
        PictureRow {
            hash_old: opt_view(self.hash_old),
            hash: self.hash@,
            path: self.path@,
            selected: self.selected,
            title: self.title@,
            article_link: opt_view(self.article_link),
            params: self.params@,
            date: self.date@,
            camera: self.camera@,
            direction: self.direction@,
        }
    }
}

impl PhotographyPicture {
    /// A copy of this record.
    pub fn duplicate(&self) -> (r: Self)
        ensures
            r@ == self@,
    {
        PhotographyPicture {
            hash_old: copy_opt(&self.hash_old),
            hash: self.hash.clone(),
            path: self.path.clone(),
            selected: self.selected,
            title: self.title.clone(),
            article_link: copy_opt(&self.article_link),
            params: self.params.clone(),
            date: self.date.clone(),
            camera: self.camera.clone(),
            direction: self.direction.clone(),
        }
    }
}

/// The digest of a byte string: SHA-256, written as lowercase hexadecimal.
pub uninterp spec fn sha256_hex(b: Seq<u8>) -> Seq<char>;

/// Relies on `sha256::digest` on a byte slice: the hexadecimal SHA-256 digest of
/// the bytes (64 characters), which depends on the bytes alone.
#[verifier::external_body]
fn digest_hex(bytes: &[u8]) -> (r: String)
    ensures
        r@ == sha256_hex(bytes@),
        r@.len() == 64,
{
    sha256::digest(bytes)
}

/// The width and height that an image's header gives, if it can be read.
pub uninterp spec fn dimensions_of(b: Seq<u8>) -> Option<(u64, u64)>;

/// Relies on `imagesize::blob_size`: the dimensions read from the header of the
/// image held in the bytes, or an error when they cannot be read.
#[verifier::external_body]
fn image_dimensions(bytes: &[u8]) -> (r: Option<(u64, u64)>)
    ensures
        r == dimensions_of(bytes@),
{
    match imagesize::blob_size(bytes) {
        Ok(s) => Some((s.width as u64, s.height as u64)),
        Err(_) => None,
    }
}

/// The EXIF fields that the catalog keeps.
#[derive(Clone, Copy, Debug, PartialEq, Eq, Structural)]
pub enum ExifTag {
    DateTimeOriginal,
    ExposureTime,
    FocalLengthIn35mmFilm,
    FNumber,
    PhotographicSensitivity,
    Model,
}

/// The displayed value (with its unit) of an EXIF field of the primary image.
pub uninterp spec fn exif_text_of(b: Seq<u8>, tag: ExifTag) -> Option<Seq<char>>;

/// Relies on `exif::Reader::read_from_container` and `Field::display_value`:
/// the value of the field, displayed with its unit, when the bytes hold EXIF
/// data with that field.
#[verifier::external_body]
fn exif_text(bytes: &[u8], tag: ExifTag) -> (r: Option<String>)
    ensures
        opt_view(r) == exif_text_of(bytes@, tag),
{
    let exif = match exif::Reader::new().read_from_container(&mut std::io::Cursor::new(bytes)) {
        Ok(e) => e,
        Err(_) => return None,
    };
    let t = match tag {
        ExifTag::DateTimeOriginal => exif::Tag::DateTimeOriginal,
        ExifTag::ExposureTime => exif::Tag::ExposureTime,
        ExifTag::FocalLengthIn35mmFilm => exif::Tag::FocalLengthIn35mmFilm,
        ExifTag::FNumber => exif::Tag::FNumber,
        ExifTag::PhotographicSensitivity => exif::Tag::PhotographicSensitivity,
        ExifTag::Model => exif::Tag::Model,
    };
    let field = exif.get_field(t, exif::In::PRIMARY)?;
    Some(field.display_value().with_unit(&exif).to_string())
}

/// The longest side of a recompressed picture.
pub const MAX_SIDE: u32 = 1920;

/// The image held in the bytes, scaled to fit a square of `side` and encoded
/// in the format its extension names.
pub uninterp spec fn shrunk_of(b: Seq<u8>, ext: Seq<char>, side: u32) -> Seq<u8>;

/// Relies on `image::load_from_memory`, `DynamicImage::resize` (nearest
/// neighbour, keeping the aspect ratio) and `DynamicImage::write_to`: the
/// encoded image, or the decoder's or encoder's message.
#[verifier::external_body]
fn shrink_image(bytes: &[u8], ext: &str, side: u32) -> (r: Result<Vec<u8>, String>)
    ensures
        r matches Ok(v) ==> v@ == shrunk_of(bytes@, ext@, side),
{
    let img = match image::load_from_memory(bytes) {
        Ok(i) => i,
        Err(e) => return Err(e.to_string()),
    };
    let format = match image::ImageFormat::from_extension(ext) {
        Some(f) => f,
        None => return Err(String::from(ext)),
    };
    let mut out = std::io::Cursor::new(Vec::new());
    match img.resize(side, side, image::imageops::FilterType::Nearest).write_to(&mut out, format) {
        Ok(()) => Ok(out.into_inner()),
        Err(e) => Err(e.to_string()),
    }
}

/// A picture extension.
pub open spec fn picture_ext(e: Seq<char>) -> bool {
    e == "jpg"@ || e == "jpeg"@ || e == "png"@ || e == "JPG"@ || e == "PNG"@ || e == "JPEG"@
}

/// A picture file: a regular file with a picture extension.
pub open spec fn picture_file(path: Seq<char>, is_file: bool) -> bool {
    is_file && match extension(file_name(path)) {
        Some(e) => picture_ext(e),
        None => false,
    }
}

/// A manifest: a regular file with the manifest's name.
pub open spec fn manifest_file(path: Seq<char>, is_file: bool) -> bool {
    is_file && file_name(path) == MANIFEST_FILE@
}

/// Whether a file is a picture.
pub fn is_pic(path: &str, is_file: bool) -> (r: bool)
    ensures
        r == picture_file(path@, is_file),
{
    if !is_file {
        return false;
    }
    let name = file_name_of(path);
    match extension_of(name.as_str()) {
        Some(e) => {
            e == String::from_str("jpg") || e == String::from_str("jpeg") || e == String::from_str("png")
                || e == String::from_str("JPG") || e == String::from_str("PNG") || e == String::from_str("JPEG")
        },
        None => false,
    }
}

/// Whether a file is a manifest.
pub fn is_deploy_file(path: &str, is_file: bool) -> (r: bool)
    ensures
        r == manifest_file(path@, is_file),
{
    is_file && file_name_of(path) == String::from_str(MANIFEST_FILE)
}

/// The directory an event asks to scan: the one of a manifest that was created
/// or modified and holds the marker.
pub open spec fn scan_dir(kind: EventKind, paths: Seq<Seq<char>>, facts: Seq<(bool, Seq<char>)>) -> Option<Seq<char>> {
    if (kind == EventKind::CreateFile || kind == EventKind::Modify) && paths.len() >= 1
        && manifest_file(paths[0], facts[0].0) && contains(facts[0].1, MANIFEST_MARKER@) {
        Some(parent(paths[0]))
    } else {
        None
    }
}

/// The directory to scan after an event in a picture folder, if any.
pub fn scan_target(event: &FsEvent, facts: &Vec<PathFacts>) -> (r: Option<String>)
    requires
        facts@.len() == event.paths@.len(),
    ensures
        opt_view(r) == scan_dir(
            event.kind,
            event.paths@.map_values(|s: String| s@),
            facts@.map_values(|f: PathFacts| (f.is_file, f.text@)),
        ),
{
    if event.kind != EventKind::CreateFile && event.kind != EventKind::Modify {
        return None;
    }
    if event.paths.len() == 0 {
        return None;
    }
    let p = event.paths[0].as_str();
    if is_deploy_file(p, facts[0].is_file) && is_confirmed(facts[0].text.as_str()) {
        Some(parent_of(p))
    } else {
        None
    }
}

/// The shape of a picture.
#[derive(Clone, Copy, Debug, PartialEq, Eq, Structural)]
pub enum Orientation {
    Square,
    Landscape,
    Portrait,
}

/// The shape of a picture of the given width and height.
pub open spec fn orientation(w: u64, h: u64) -> Orientation {
    if w == h {
        Orientation::Square
    } else if w > h {
        Orientation::Landscape
    } else {
        Orientation::Portrait
    }
}

/// The name of a shape.
pub open spec fn orientation_name(o: Orientation) -> Seq<char> {
    match o {
        Orientation::Square => "Square"@,
        Orientation::Landscape => "Landscape"@,
        Orientation::Portrait => "Portrait"@,
    }
}

/// The shape of a picture of the given width and height.
pub fn orientation_of(w: u64, h: u64) -> (r: Orientation)
    ensures
        r == orientation(w, h),
{
    if w == h {
        Orientation::Square
    } else if w > h {
        Orientation::Landscape
    } else {
        Orientation::Portrait
    }
}

impl Orientation {
    /// The name of this shape.
    pub fn name(&self) -> (r: String)
        ensures
            r@ == orientation_name(*self),
    {
        match self {
            Orientation::Square => String::from_str("Square"),
            Orientation::Landscape => String::from_str("Landscape"),
            Orientation::Portrait => String::from_str("Portrait"),
        }
    }
}

/// A field's text followed by two spaces, or nothing.
pub open spec fn param_part(o: Option<Seq<char>>) -> Seq<char> {
    match o {
        Some(s) => s + "  "@,
        None => Seq::empty(),
    }
}

/// The shooting parameters: exposure, focal length and aperture, each followed
/// by two spaces, then `iso` and the sensitivity.
pub open spec fn params_text(
    exposure: Option<Seq<char>>,
    focal: Option<Seq<char>>,
    fnumber: Option<Seq<char>>,
    iso: Option<Seq<char>>,
) -> Seq<char> {
    param_part(exposure) + param_part(focal) + param_part(fnumber) + match iso {
        Some(s) => "iso"@ + s,
        None => Seq::empty(),
    }
}

/// Writes the shooting parameters.
pub fn compose_params(exposure: Option<String>, focal: Option<String>, fnumber: Option<String>, iso: Option<String>) -> (r: String)
    ensures
        r@ == params_text(opt_view(exposure), opt_view(focal), opt_view(fnumber), opt_view(iso)),
{
    let mut r = String::new();
    if let Some(s) = &exposure {
        r.append(s.as_str());
        r.append("  ");
    }
    assert(r@ =~= param_part(opt_view(exposure)));
    if let Some(s) = &focal {
        r.append(s.as_str());
        r.append("  ");
    }
    assert(r@ =~= param_part(opt_view(exposure)) + param_part(opt_view(focal)));
    if let Some(s) = &fnumber {
        r.append(s.as_str());
        r.append("  ");
    }
    assert(r@ =~= param_part(opt_view(exposure)) + param_part(opt_view(focal)) + param_part(opt_view(fnumber)));
    if let Some(s) = &iso {
        r.append("iso");
        r.append(s.as_str());
    }
    assert(r@ =~= params_text(opt_view(exposure), opt_view(focal), opt_view(fnumber), opt_view(iso)));
    r
}

/// The text without its first two double quotes.
pub open spec fn strip_quotes(s: Seq<char>) -> Seq<char> {
    match first_index(s, seq!['"'], 0) {
        Some(i) => match first_index(s, seq!['"'], i + 1) {
            Some(j) => s.subrange(0, i) + s.subrange(i + 1, j) + s.subrange(j + 1, s.len() as int),
            None => s.subrange(0, i) + s.subrange(i + 1, s.len() as int),
        },
        None => s,
    }
}

/// Removes the first two double quotes of a camera model.
pub fn clean_camera(model: &str) -> (r: String)
    ensures
        r@ == strip_quotes(model@),
{
    let v = chars_of(model);
    let n = v.len();
    let q = vec!['"'];
    assert(q@ =~= seq!['"']);
    match find_from(&v, &q, 0) {
        Some(i) => {
            let mut r = crate::paths::slice_string(model, 0, i);
            match find_from(&v, &q, i + 1) {
                Some(j) => {
                    r.append(model.substring_char(i + 1, j));
                    r.append(model.substring_char(j + 1, n));
                },
                None => {
                    r.append(model.substring_char(i + 1, n));
                },
            }
            r
        },
        None => String::from_str(model),
    }
}

/// What is read of a picture: when it was taken, its shooting parameters,
/// its camera and its shape.
#[derive(Debug)]
pub struct Metadata {
    pub date: String,
    pub params: String,
    pub camera: String,
    pub direction: String,
}

/// The text of an optional field, empty when it is absent.
pub open spec fn or_empty(o: Option<Seq<char>>) -> Seq<char> {
    match o {
        Some(s) => s,
        None => Seq::empty(),
    }
}

/// The metadata of the picture held in the bytes. When its dimensions cannot
/// be read, every field is empty; otherwise the shape comes from them and the
/// other fields from EXIF, each empty when its field is absent.
pub open spec fn metadata_of(b: Seq<u8>) -> (Seq<char>, Seq<char>, Seq<char>, Seq<char>) {
    match dimensions_of(b) {
        None => (Seq::empty(), Seq::empty(), Seq::empty(), Seq::empty()),
        Some((w, h)) => (
            or_empty(exif_text_of(b, ExifTag::DateTimeOriginal)),
            params_text(
                exif_text_of(b, ExifTag::ExposureTime),
                exif_text_of(b, ExifTag::FocalLengthIn35mmFilm),
                exif_text_of(b, ExifTag::FNumber),
                exif_text_of(b, ExifTag::PhotographicSensitivity),
            ),
            match exif_text_of(b, ExifTag::Model) {
                Some(m) => strip_quotes(m),
                None => Seq::empty(),
            },
            orientation_name(orientation(w, h)),
        ),
    }
}

impl Metadata {
    pub open spec fn view(&self) -> (Seq<char>, Seq<char>, Seq<char>, Seq<char>) {
        (self.date@, self.params@, self.camera@, self.direction@)
    }
}

/// Reads the metadata of the picture held in the bytes; what cannot be read is left empty.
pub fn read_info(bytes: &[u8]) -> (r: Metadata)
    ensures
        r.view() == metadata_of(bytes@),
{
    let (w, h) = match image_dimensions(bytes) {
        Some(d) => d,
        None => {
            return Metadata { date: String::new(), params: String::new(), camera: String::new(), direction: String::new() };
        },
    };
    let direction = orientation_of(w, h).name();
    let date = match exif_text(bytes, ExifTag::DateTimeOriginal) {
        Some(d) => d,
        None => String::new(),
    };
    let params = compose_params(
        exif_text(bytes, ExifTag::ExposureTime),
        exif_text(bytes, ExifTag::FocalLengthIn35mmFilm),
        exif_text(bytes, ExifTag::FNumber),
        exif_text(bytes, ExifTag::PhotographicSensitivity),
    );
    let camera = match exif_text(bytes, ExifTag::Model) {
        Some(m) => clean_camera(m.as_str()),
        None => String::new(),
    };
    Metadata { date, params, camera, direction }
}

/// A step of committing a picture to the store and the catalog.
#[derive(Debug)]
pub enum StoreOp {
    /// Write the bytes under a name in the staging area.
    Stage { name: String, bytes: Vec<u8> },
    /// Rename a staged file, in one step, to its path in the store.
    Publish { staged: String, stored: String },
    /// Offer the record to the catalog.
    Record(PhotographyPicture),
}

/// The content of a store step.
pub enum StoreStep {
    Stage(Seq<char>, Seq<u8>),
    Publish(Seq<char>, Seq<char>),
    Record(PictureRow),
}

impl View for StoreOp {
    type V = StoreStep;

    open spec fn view(&self) -> StoreStep {
        match self {
            StoreOp::Stage { name, bytes } => StoreStep::Stage(name@, bytes@),
            StoreOp::Publish { staged, stored } => StoreStep::Publish(staged@, stored@),
            StoreOp::Record(p) => StoreStep::Record(p@),
        }
    }
}

/// The path in the store of content with digest `hash`: `dir/hash.ext`.
pub open spec fn stored_path(dir: Seq<char>, hash: Seq<char>, ext: Seq<char>) -> Seq<char> {
    dir + "/"@ + hash + "."@ + ext
}

/// The staging name of content with digest `hash`.
pub open spec fn staged_name(hash: Seq<char>, ext: Seq<char>) -> Seq<char> {
    hash + "."@ + ext
}

/// Stage the content, publish it under its digest, then record it.
pub open spec fn commit_steps(dir: Seq<char>, ext: Seq<char>, content: Seq<u8>, record: PictureRow) -> Seq<StoreStep> {
    let h = sha256_hex(content);
    seq![
        StoreStep::Stage(staged_name(h, ext), content),
        StoreStep::Publish(staged_name(h, ext), stored_path(dir, h, ext)),
        StoreStep::Record(record),
    ]
}

/// What is stored of a picture: the bytes themselves up to the threshold,
/// otherwise the recompressed image.
pub open spec fn stored_content(bytes: Seq<u8>, ext: Seq<char>, threshold: u64) -> Seq<u8> {
    if bytes.len() <= threshold {
        bytes
    } else {
        shrunk_of(bytes, ext, MAX_SIDE)
    }
}

/// The record of a picture that is stored.
pub open spec fn planned_row(settings: Seq<char>, path: Seq<char>, bytes: Seq<u8>, dir: Seq<char>, threshold: u64) -> PictureRow {
    let name = file_name(path);
    let ext = extension(name).unwrap();
    let attrs = attributes_of(settings, name).unwrap();
    let content = stored_content(bytes, ext, threshold);
    let h = sha256_hex(content);
    let meta = metadata_of(bytes);
    PictureRow {
        hash_old: if bytes.len() <= threshold { None } else { Some(sha256_hex(bytes)) },
        hash: h,
        path: stored_path(dir, h, ext),
        selected: attrs.0,
        title: attrs.2,
        article_link: attrs.1,
        params: meta.1,
        date: meta.0,
        camera: meta.2,
        direction: meta.3,
    }
}

/// The steps that commit a picture that is stored.
pub open spec fn planned_steps(settings: Seq<char>, path: Seq<char>, bytes: Seq<u8>, dir: Seq<char>, threshold: u64) -> Seq<StoreStep> {
    let ext = extension(file_name(path)).unwrap();
    commit_steps(dir, ext, stored_content(bytes, ext, threshold), planned_row(settings, path, bytes, dir, threshold))
}

/// What became of one file of a scanned directory.
#[derive(Debug)]
pub enum ScanOutcome {
    /// It is not a picture.
    NotPicture,
    /// The manifest ignores it.
    Ignored,
    /// A record answers to its digest already.
    Known,
    /// It could not be recompressed.
    Failed(Error),
    /// It is to be committed by these steps, in order.
    Store(Vec<StoreOp>),
}

/// A copy of a byte slice.
fn bytes_vec(b: &[u8]) -> (r: Vec<u8>)
    ensures
        r@ == b@,
{
    vstd::slice::slice_to_vec(b)
}

/// `dir/hash.ext`.
fn join_stored(dir: &str, hash: &str, ext: &str) -> (r: String)
    ensures
        r@ == stored_path(dir@, hash@, ext@),
{
    let mut r = String::from_str(dir);
    r.append("/");
    r.append(hash);
    r.append(".");
    r.append(ext);
    r
}

/// `hash.ext`.
fn join_staged(hash: &str, ext: &str) -> (r: String)
    ensures
        r@ == staged_name(hash@, ext@),
{
    let mut r = String::from_str(hash);
    r.append(".");
    r.append(ext);
    r
}

/// Decides what to do with the file at `path` while its directory is scanned,
/// given the manifest's text `settings`, the file's bytes, the store's
/// directory and the size above which pictures are recompressed.
pub fn scan_picture(
    catalog: &Catalog,
    settings: &str,
    path: &str,
    is_file: bool,
    bytes: &[u8],
    store_dir: &str,
    threshold: u64,
) -> (r: ScanOutcome)
    ensures
        match r {
            ScanOutcome::NotPicture => !picture_file(path@, is_file),
            ScanOutcome::Ignored => picture_file(path@, is_file)
                && attributes_of(settings@, file_name(path@)) is None,
            ScanOutcome::Known => picture_file(path@, is_file)
                && attributes_of(settings@, file_name(path@)) is Some
                && registered(catalog.picture_rows(), sha256_hex(bytes@)),
            ScanOutcome::Failed(e) => picture_file(path@, is_file)
                && attributes_of(settings@, file_name(path@)) is Some
                && !registered(catalog.picture_rows(), sha256_hex(bytes@))
                && bytes@.len() > threshold
                && e.reason == Reason::PictureProcess,
            ScanOutcome::Store(ops) => picture_file(path@, is_file)
                && attributes_of(settings@, file_name(path@)) is Some
                && !registered(catalog.picture_rows(), sha256_hex(bytes@))
                && ops@.map_values(|o: StoreOp| o@) == planned_steps(settings@, path@, bytes@, store_dir@, threshold),
        },
{
    if !is_pic(path, is_file) {
        return ScanOutcome::NotPicture;
    }
    let name = file_name_of(path);
    let attrs = match picture_attributes(settings, name.as_str()) {
        Some(a) => a,
        None => return ScanOutcome::Ignored,
    };
    let original = digest_hex(bytes);
    if catalog.is_registered(original.as_str()) {
        return ScanOutcome::Known;
    }
    let ext = match extension_of(name.as_str()) {
        Some(e) => e,
        None => return ScanOutcome::NotPicture,
    };
    let (content, hash, hash_old) = if (bytes.len() as u64) <= threshold {
        (bytes_vec(bytes), original, None)
    } else {
        match shrink_image(bytes, ext.as_str(), MAX_SIDE) {
            Ok(v) => {
                let h = digest_hex(v.as_slice());
                (v, h, Some(original))
            },
            Err(m) => return ScanOutcome::Failed(Error::new(Reason::PictureProcess, m)),
        }
    };
    let meta = read_info(bytes);
    let stored = join_stored(store_dir, hash.as_str(), ext.as_str());
    let staged = join_staged(hash.as_str(), ext.as_str());
    let record = PhotographyPicture {
        hash_old,
        hash,
        path: stored.clone(),
        selected: attrs.selected,
        title: attrs.title,
        article_link: attrs.article_link,
        params: meta.params,
        date: meta.date,
        camera: meta.camera,
        direction: meta.direction,
    };
    let ghost row = record@;
    let ops = vec![
        StoreOp::Stage { name: staged.clone(), bytes: content },
        StoreOp::Publish { staged, stored },
        StoreOp::Record(record),
    ];
    assert(row == planned_row(settings@, path@, bytes@, store_dir@, threshold));
    assert(ops@.map_values(|o: StoreOp| o@) =~= planned_steps(settings@, path@, bytes@, store_dir@, threshold));
    ScanOutcome::Store(ops)
}

/// Scanning a directory again, even under a changed manifest, changes no
/// picture record that the first scan left: the picture's bytes decide its
/// digests, and a record answers to them.
pub proof fn lemma_rescan_idempotent(
    rows: Seq<PictureRow>,
    settings: Seq<char>,
    changed: Seq<char>,
    path: Seq<char>,
    bytes: Seq<u8>,
    dir: Seq<char>,
    threshold: u64,
)
    requires
        pictures_unique(rows),
    ensures
        ingested(
            ingested(rows, sha256_hex(bytes), planned_row(settings, path, bytes, dir, threshold)),
            sha256_hex(bytes),
            planned_row(changed, path, bytes, dir, threshold),
        ) == ingested(rows, sha256_hex(bytes), planned_row(settings, path, bytes, dir, threshold)),
        pictures_unique(ingested(rows, sha256_hex(bytes), planned_row(settings, path, bytes, dir, threshold))),
{
    lemma_ingest_idempotent(
        rows,
        sha256_hex(bytes),
        planned_row(settings, path, bytes, dir, threshold),
        planned_row(changed, path, bytes, dir, threshold),
    );
}

impl PhotographyPicture {
    /// A picture found at `path`, with its digest taken from its bytes and its
    /// attributes from the manifest; the rest is empty until it is stored.
    pub fn from_dir(path: String, bytes: &[u8], selected: bool, article_link: Option<String>, title: String) -> (r: Self)
        ensures
            r.path == path,
            r.hash@ == sha256_hex(bytes@),
            r.hash_old is None,
            r.selected == selected,
            r.article_link == article_link,
            r.title == title,
            r.params@.len() == 0 && r.date@.len() == 0 && r.camera@.len() == 0 && r.direction@.len() == 0,
    {
        PhotographyPicture {
            hash_old: None,
            hash: digest_hex(bytes),
            path,
            selected,
            title,
            article_link,
            params: String::new(),
            date: String::new(),
            camera: String::new(),
            direction: String::new(),
        }
    }

    /// Whether a record of the catalog answers to this picture's digest.
    pub fn is_registered(&self, catalog: &Catalog) -> (r: bool)
        ensures
            r == registered(catalog.picture_rows(), self.hash@),
    {
        catalog.is_registered(self.hash.as_str())
    }
}

/// A picture, by its digests and its path.
#[derive(Debug)]
pub struct Picture {
    pub hash_old: Option<String>,
    pub hash: String,
    pub path: String,
}

impl Picture {
    /// The picture at `path`, with its digest taken from its bytes.
    pub fn from_dir(p: String, bytes: &[u8]) -> (r: Self)
        ensures
            r.path == p,
            r.hash@ == sha256_hex(bytes@),
            r.hash_old is None,
    {
        Picture { hash_old: None, hash: digest_hex(bytes), path: p }
    }
}

impl From<PhotographyPicture> for Picture {
    fn from(p: PhotographyPicture) -> (r: Self) {
        Picture { hash_old: p.hash_old, hash: p.hash, path: p.path }
    }
}

impl vstd::std_specs::convert::FromSpecImpl<PhotographyPicture> for Picture {
    open spec fn obeys_from_spec() -> bool {
        true
    }

    open spec fn from_spec(p: PhotographyPicture) -> Self {
        Picture { hash_old: p.hash_old, hash: p.hash, path: p.path }
    }
}

/// A picture as the gallery shows it.
#[derive(Debug)]
pub struct PhotographyPictureBrief {
    pub selected: bool,
    pub title: String,
    pub linked: bool,
    pub article_link: String,
    pub url: String,
    pub params: String,
    pub date: String,
    pub camera: String,
    pub direction: String,
}

impl PhotographyPictureBrief {
    /// The gallery's view of a record: linked when it has a link (empty
    /// otherwise), and its address the name of its stored file.
    pub fn from_picture(p: PhotographyPicture) -> (r: Self)
        ensures
            r.selected == p.selected,
            r.title == p.title,
            r.linked == (p.article_link is Some),
            r.article_link@ == crate::pictures::or_empty(opt_view(p.article_link)),
            r.url@ == file_name(p.path@),
            r.params == p.params,
            r.date == p.date,
            r.camera == p.camera,
            r.direction == p.direction,
    {
        let url = file_name_of(p.path.as_str());
        let linked = p.article_link.is_some();
        let article_link = match p.article_link {
            Some(l) => l,
            None => String::new(),
        };
        PhotographyPictureBrief {
            selected: p.selected,
            title: p.title,
            linked,
            article_link,
            url,
            params: p.params,
            date: p.date,
            camera: p.camera,
            direction: p.direction,
        }
    }
}

} // verus!
