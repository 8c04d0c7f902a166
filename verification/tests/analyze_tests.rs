use eidetic::db::Database;
use eidetic::media::{image_dimensions, png_to_jpeg};
use eidetic::model::Summarizer;
use eidetic::worker::{analyze_image, analyze_text, guess_tags, is_binary, is_image_path, Worker,
    job_channel, Job};

#[test]
fn binary_detection_looks_at_first_kilobyte() {
    assert!(!is_binary(b"plain text"));
    assert!(is_binary(b"ab\0cd"));
    let mut long: Vec<u8> = vec![1; 1500];
    long[1400] = 0;
    assert!(!is_binary(&long));
    long[500] = 0;
    assert!(is_binary(&long));
}

#[test]
fn tagger_finds_finance_line() {
    let tags = guess_tags("TOTAL: 42 - INVOICE #1");
    assert_eq!(tags, vec!["finance".to_string()]);
}

#[test]
fn tagger_lowercases_before_matching() {
    assert_eq!(guess_tags("FUNCTION body"), vec!["code".to_string()]);
    assert_eq!(guess_tags("Dear Sir, ... Sincerely, X"), vec!["letter".to_string()]);
}

#[test]
fn tagger_orders_multiple_tags() {
    let tags = guess_tags("def main: amount: 3; select * from t");
    assert_eq!(
        tags,
        vec!["code".to_string(), "finance".to_string(), "sql".to_string()]
    );
}

#[test]
fn tagger_finds_nothing_in_plain_text() {
    assert_eq!(guess_tags("nothing to see here"), Vec::<String>::new());
}

#[test]
fn image_paths_by_extension() {
    assert!(is_image_path("dir/photo.PNG"));
    assert!(is_image_path("a.jpeg"));
    assert!(!is_image_path("a.txt"));
    assert!(!is_image_path("png"));
}

#[test]
fn analyze_text_persists_tags() {
    let mut db = Database::new(":memory:").ok().expect("store");
    let id = db.create_inode(1, "invoice.txt").ok().expect("create");
    analyze_text(&mut db, id, "INVOICE\nTOTAL: 99");
    let files = db.get_files_with_tag("finance").ok().expect("files");
    assert_eq!(files, vec![(id, "invoice.txt".to_string())]);
}

#[test]
fn analyze_image_persists_tag() {
    let mut db = Database::new(":memory:").ok().expect("store");
    let id = db.create_inode(1, "x.png").ok().expect("create");
    analyze_image(&mut db, id);
    let files = db.get_files_with_tag("image").ok().expect("files");
    assert_eq!(files.len(), 1);
    assert_eq!(files[0].0, id);
}

fn tiny_png() -> Vec<u8> {
    let img = image::RgbImage::from_pixel(2, 3, image::Rgb([10, 20, 30]));
    let dynimg = image::DynamicImage::ImageRgb8(img);
    let mut bytes: Vec<u8> = Vec::new();
    dynimg
        .write_to(std::io::Cursor::new(&mut bytes), image::ImageFormat::Png)
        .expect("encode png");
    bytes
}

#[test]
fn png_converts_to_jpeg_stream() {
    let png = tiny_png();
    let jpeg = png_to_jpeg(&png).expect("transcode");
    assert!(jpeg.len() > 2);
    assert_eq!(jpeg[0], 0xFF);
    assert_eq!(jpeg[1], 0xD8);
}

#[test]
fn convert_read_slices_transcoded_jpeg() {
    let (tx, _rx) = eidetic::worker::job_channel();
    let fs = eidetic::fs::EideticFS {
        source_path: "/srv/data".to_string(),
        inodes: eidetic::fs::InodeStore::new(":memory:").ok().expect("store"),
        uid: 0,
        gid: 0,
        sender: tx,
    };
    let png = tiny_png();
    let whole = fs.convert_read(&png, 0, 1 << 20).ok().expect("transcode");
    assert_eq!(&whole[..2], &[0xFF, 0xD8]);
    let tail = fs.convert_read(&png, 2, 1 << 20).ok().expect("slice");
    assert_eq!(tail, whole[2..].to_vec());
}

#[test]
fn dimension_probe_reads_the_header() {
    let png = tiny_png();
    assert_eq!(image_dimensions(&png), Some((2, 3)));
    assert_eq!(image_dimensions(b"junk"), None);
}

#[test]
fn worker_queue_delivers_jobs() {
    let (tx, rx) = job_channel();
    let worker = Worker::new(rx, "/srv/data/.eidetic.db".to_string());
    assert_eq!(worker.db_path, "/srv/data/.eidetic.db");
    let sent = eidetic::worker::send_job(&tx, Job::Analyze {
        inode: 9,
        path: "/srv/data/a.txt".to_string(),
    });
    assert!(sent);
    match worker.next_job() {
        Some(Job::Analyze { inode, path }) => {
            assert_eq!(inode, 9);
            assert_eq!(path, "/srv/data/a.txt");
        },
        None => panic!("job expected"),
    }
    drop(tx);
    assert!(worker.next_job().is_none());
}

#[test]
fn summary_of_short_text_is_its_head() {
    let s = Summarizer::new();
    assert_eq!(s.summarize("just a note"), "[AI-Verified] just a note");
}

#[test]
fn summary_of_long_text_keeps_ends() {
    let s = Summarizer::new();
    let out = s.summarize("First part. Middle one. Another bit. Last words");
    assert_eq!(out, "[AI-Verified] First part... Last words");
}

#[test]
fn summary_caps_at_one_hundred_characters() {
    let s = Summarizer::new();
    let text: String = std::iter::repeat('x').take(250).collect();
    let out = s.summarize(&text);
    assert_eq!(out.chars().count(), "[AI-Verified] ".len() + 100);
}
