use arce::catalog::Catalog;
use exif::{Field, In, Rational, Tag, Value};
use arce::error::Reason;
use arce::folders::{ArticleFolder, PictureFolder};
use arce::articles::{EventKind, FsEvent, PathFacts};
use arce::pictures::{
    clean_camera, compose_params, is_deploy_file, is_pic, orientation_of, read_info, scan_picture, scan_target,
    Orientation, PhotographyPicture, PhotographyPictureBrief, Picture, ScanOutcome, StoreOp,
};

const HELLO_DIGEST: &str = "2cf24dba5fb0a30e26e83b2ac5b9e29e1b161e5c1fa7425e73043362938b9824";

fn record(hash: &str, old: Option<&str>, path: &str) -> PhotographyPicture {
    PhotographyPicture {
        hash_old: old.map(String::from),
        hash: String::from(hash),
        path: String::from(path),
        selected: false,
        title: String::new(),
        article_link: None,
        params: String::new(),
        date: String::new(),
        camera: String::new(),
        direction: String::new(),
    }
}

fn commit(catalog: &mut Catalog, ops: Vec<StoreOp>) {
    for op in ops {
        if let StoreOp::Record(p) = op {
            catalog.insert_photography_picture(p);
        }
    }
}

fn png(width: u32, height: u32) -> Vec<u8> {
    let img = image::DynamicImage::ImageRgb8(image::RgbImage::new(width, height));
    let mut out = std::io::Cursor::new(Vec::new());
    img.write_to(&mut out, image::ImageFormat::Png).unwrap();
    out.into_inner()
}

#[test]
fn digest_of_bytes() {
    let p = PhotographyPicture::from_dir(String::from("/p/a.jpg"), b"hello", true, None, String::from("a"));
    assert_eq!(p.hash, HELLO_DIGEST);
    assert!(p.hash_old.is_none());
    let q = Picture::from_dir(String::from("/p/a.jpg"), b"hello");
    assert_eq!(q.hash, HELLO_DIGEST);
}

#[test]
fn duplicate_folders_are_refused() {
    let mut c = Catalog::new();
    let f = || ArticleFolder { path: String::from("/notes"), deploy: String::from("blog"), need_confirm: false };
    assert!(c.add_article_folder(f()).is_ok());
    assert_eq!(c.add_article_folder(f()).unwrap_err().reason, Reason::DuplicateFolder);
    assert!(c.add_picture_folder(PictureFolder { path: String::from("/notes") }).is_ok());
    assert!(c.add_picture_folder(PictureFolder { path: String::from("/notes") }).is_err());
    assert_eq!(c.article_folders().len(), 1);
    assert_eq!(c.picture_folders().len(), 1);
}

#[test]
fn either_digest_finds_recompressed_picture() {
    let mut c = Catalog::new();
    let path = c.insert_photography_picture(record("h2", Some("h1"), "/store/h2.jpg"));
    assert_eq!(path, "/store/h2.jpg");
    assert_eq!(c.find_picture("h1"), Some(String::from("/store/h2.jpg")));
    assert_eq!(c.find_picture("h2"), Some(String::from("/store/h2.jpg")));
    assert_eq!(c.find_picture("h3"), None);
    assert!(c.is_registered("h1"));
}

#[test]
fn offering_a_known_digest_keeps_the_first_record() {
    let mut c = Catalog::new();
    c.insert_photography_picture(record("h2", Some("h1"), "/store/h2.jpg"));
    assert_eq!(c.insert_photography_picture(record("h1", None, "/store/h1.jpg")), "/store/h2.jpg");
    assert_eq!(c.insert_photography_picture(record("h4", Some("h2"), "/store/h4.jpg")), "/store/h2.jpg");
    assert_eq!(c.pictures().len(), 1);
}

#[test]
fn scanning_twice_stores_once() {
    let mut c = Catalog::new();
    let manifest = "SELECTED[a.jpg]\nDEPLOY";
    let first = scan_picture(&c, manifest, "/pics/a.jpg", true, b"hello", "/store", 1000);
    let ops = match first {
        ScanOutcome::Store(ops) => ops,
        _ => panic!("the first scan stores the picture"),
    };
    assert_eq!(ops.len(), 3);
    match &ops[0] {
        StoreOp::Stage { name, bytes } => {
            assert_eq!(name, &format!("{}.jpg", HELLO_DIGEST));
            assert_eq!(bytes, &b"hello".to_vec());
        }
        _ => panic!("staging comes first"),
    }
    match &ops[1] {
        StoreOp::Publish { staged, stored } => {
            assert_eq!(staged, &format!("{}.jpg", HELLO_DIGEST));
            assert_eq!(stored, &format!("/store/{}.jpg", HELLO_DIGEST));
        }
        _ => panic!("publishing comes second"),
    }
    match &ops[2] {
        StoreOp::Record(p) => {
            assert_eq!(p.hash, HELLO_DIGEST);
            assert!(p.hash_old.is_none());
            assert!(p.selected);
            assert_eq!(p.title, "a");
            assert_eq!(p.direction, "");
        }
        _ => panic!("recording comes last"),
    }
    commit(&mut c, ops);
    assert_eq!(c.pictures().len(), 1);
    let second = scan_picture(&c, manifest, "/pics/a.jpg", true, b"hello", "/store", 1000);
    assert!(matches!(second, ScanOutcome::Known));
    assert_eq!(c.pictures().len(), 1);
}

#[test]
fn large_picture_is_recompressed_and_keeps_both_digests() {
    let bytes = png(3000, 2000);
    let mut c = Catalog::new();
    let ops = match scan_picture(&c, "DEPLOY", "/pics/big.png", true, &bytes, "/store", 10) {
        ScanOutcome::Store(ops) => ops,
        _ => panic!("the picture is stored"),
    };
    let (stored_bytes, rec) = match (&ops[0], &ops[2]) {
        (StoreOp::Stage { bytes, .. }, StoreOp::Record(p)) => (bytes.clone(), p.duplicate()),
        _ => panic!("stage, publish, record"),
    };
    assert_ne!(stored_bytes, bytes);
    let shrunk = image::load_from_memory(&stored_bytes).unwrap();
    assert_eq!((image::GenericImageView::width(&shrunk), image::GenericImageView::height(&shrunk)), (1920, 1280));
    let original = Picture::from_dir(String::from("/pics/big.png"), &bytes).hash;
    assert_eq!(rec.hash_old, Some(original.clone()));
    assert_ne!(rec.hash, original);
    assert_eq!(rec.path, format!("/store/{}.png", rec.hash));
    assert_eq!(rec.direction, "Landscape");
    commit(&mut c, ops);
    assert_eq!(c.find_picture(&original), Some(rec.path.clone()));
    assert_eq!(c.find_picture(&rec.hash), Some(rec.path.clone()));
    assert!(matches!(scan_picture(&c, "DEPLOY", "/pics/big.png", true, &bytes, "/store", 10), ScanOutcome::Known));
}

#[test]
fn undecodable_large_picture_fails() {
    let c = Catalog::new();
    match scan_picture(&c, "DEPLOY", "/pics/bad.png", true, b"not an image", "/store", 3) {
        ScanOutcome::Failed(e) => assert_eq!(e.reason, Reason::PictureProcess),
        _ => panic!("an undecodable picture over the threshold fails"),
    }
}

#[test]
fn non_pictures_and_ignored_files_are_skipped() {
    let c = Catalog::new();
    assert!(matches!(scan_picture(&c, "DEPLOY", "/pics/DEPLOY", true, b"x", "/s", 9), ScanOutcome::NotPicture));
    assert!(matches!(scan_picture(&c, "DEPLOY", "/pics/a.jpg", false, b"x", "/s", 9), ScanOutcome::NotPicture));
    assert!(matches!(scan_picture(&c, "IGNORE[a.jpg] DEPLOY", "/pics/a.jpg", true, b"x", "/s", 9), ScanOutcome::Ignored));
}

#[test]
fn picture_and_manifest_names() {
    assert!(is_pic("/p/a.JPEG", true));
    assert!(is_pic("/p/a.png", true));
    assert!(!is_pic("/p/a.gif", true));
    assert!(!is_pic("/p/a.png", false));
    assert!(is_deploy_file("/p/DEPLOY", true));
    assert!(!is_deploy_file("/p/DEPLOY.txt", true));
}

#[test]
fn manifest_events_pick_the_directory() {
    let ev = FsEvent { kind: EventKind::Modify, paths: vec![String::from("/pics/trip/DEPLOY")] };
    let yes = vec![PathFacts { is_file: true, text: String::from("DEPLOY") }];
    let no = vec![PathFacts { is_file: true, text: String::from("SELECTED[a.jpg]") }];
    assert_eq!(scan_target(&ev, &yes), Some(String::from("/pics/trip")));
    assert_eq!(scan_target(&ev, &no), None);
    let removed = FsEvent { kind: EventKind::RemoveFile, paths: vec![String::from("/pics/trip/DEPLOY")] };
    assert_eq!(scan_target(&removed, &yes), None);
    let picture = FsEvent { kind: EventKind::CreateFile, paths: vec![String::from("/pics/trip/a.jpg")] };
    assert_eq!(scan_target(&picture, &yes), None);
}

#[test]
fn shapes_and_parameters() {
    assert_eq!(orientation_of(5, 5), Orientation::Square);
    assert_eq!(orientation_of(6, 5), Orientation::Landscape);
    assert_eq!(orientation_of(5, 6), Orientation::Portrait);
    assert_eq!(Orientation::Portrait.name(), "Portrait");
    let p = compose_params(Some(String::from("1/200 s")), None, Some(String::from("f/2.8")), Some(String::from("400")));
    assert_eq!(p, "1/200 s  f/2.8  iso400");
    assert_eq!(compose_params(None, None, None, None), "");
    assert_eq!(clean_camera("\"X-T3\""), "X-T3");
    assert_eq!(clean_camera("\"A\" \"B\""), "A \"B\"");
    assert_eq!(clean_camera("plain"), "plain");
}

#[test]
fn metadata_of_plain_png() {
    let m = read_info(&png(10, 20));
    assert_eq!(m.direction, "Portrait");
    assert_eq!(m.date, "");
    assert_eq!(m.params, "");
    let none = read_info(b"not an image");
    assert_eq!(none.direction, "");
}

#[test]
fn gallery_view_of_a_record() {
    let mut p = record("h", None, "/store/h.jpg");
    p.article_link = Some(String::from("/a.html"));
    let b = PhotographyPictureBrief::from_picture(p);
    assert!(b.linked);
    assert_eq!(b.article_link, "/a.html");
    assert_eq!(b.url, "h.jpg");
    let b = PhotographyPictureBrief::from_picture(record("h", None, "/store/h.jpg"));
    assert!(!b.linked);
    assert_eq!(b.article_link, "");
    let q: Picture = record("h2", Some("h1"), "/s/h2.jpg").into();
    assert_eq!(q.hash_old, Some(String::from("h1")));
}

fn tiff_with_exif() -> Vec<u8> {
    let width = Field { tag: Tag::ImageWidth, ifd_num: In::PRIMARY, value: Value::Short(vec![4]) };
    let height = Field { tag: Tag::ImageLength, ifd_num: In::PRIMARY, value: Value::Short(vec![2]) };
    let model = Field { tag: Tag::Model, ifd_num: In::PRIMARY, value: Value::Ascii(vec![b"X-T3".to_vec()]) };
    let taken = Field {
        tag: Tag::DateTimeOriginal,
        ifd_num: In::PRIMARY,
        value: Value::Ascii(vec![b"2020:01:02 03:04:05".to_vec()]),
    };
    let exposure = Field {
        tag: Tag::ExposureTime,
        ifd_num: In::PRIMARY,
        value: Value::Rational(vec![Rational { num: 1, denom: 200 }]),
    };
    let iso = Field { tag: Tag::PhotographicSensitivity, ifd_num: In::PRIMARY, value: Value::Short(vec![400]) };
    let mut w = exif::experimental::Writer::new();
    for f in [&width, &height, &model, &taken, &exposure, &iso] {
        w.push_field(f);
    }
    let mut out = std::io::Cursor::new(Vec::new());
    w.write(&mut out, false).unwrap();
    out.into_inner()
}

#[test]
fn metadata_from_exif_fields() {
    let m = read_info(&tiff_with_exif());
    assert_eq!(m.direction, "Landscape");
    assert_eq!(m.camera, "X-T3");
    assert!(m.date.starts_with("2020-01-02"), "date was {:?}", m.date);
    assert!(m.params.starts_with("1/200 s  "), "params were {:?}", m.params);
    assert!(m.params.ends_with("iso400"), "params were {:?}", m.params);
}
