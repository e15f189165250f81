use media_library::classify::{classify, kind_for_extension, MediaKind, Sniffed};
use media_library::clip::{
    clip_after_run, clip_start, repair_result, snip_file_to_base_dir, try_fixing_file, ClipAction,
    ClipStage,
};
use media_library::http_server::{get_available_port, FileHandleParams};
use media_library::ingest::{hard_link_file_to_base_dir, ingest_destination, ingest_result, IngestPlan};
use media_library::metadata::{
    dimensions_from_fields, fields_to_dimensions, probe_dimensions, record_probe, store_from_records,
    Dimensions, MetadataStore, StreamFields,
};
use media_library::paths::{ends_with, extension, file_name, join, parent, stem};
use media_library::sweep::{should_remove, sweep_targets, SweepEntry};

fn dims(w: i64, h: i64, a: &str) -> Dimensions {
    Dimensions { width: w, height: h, aspect_ratio: a.to_string() }
}

fn fields(w: Option<i64>, h: Option<i64>, a: Option<&str>) -> StreamFields {
    StreamFields { width: w, height: h, aspect_ratio: a.map(|s| s.to_string()) }
}

#[test]
fn path_components() {
    assert_eq!(file_name("/media/lib/a.mp4"), "a.mp4");
    assert_eq!(file_name("a.mp4"), "a.mp4");
    assert_eq!(parent("/media/lib/a.mp4"), "/media/lib/");
    assert_eq!(parent("a.mp4"), "");
    assert_eq!(extension("clip.tar.webm"), "webm");
    assert_eq!(extension(".hidden"), "");
    assert_eq!(extension("noext"), "");
    assert_eq!(stem("clip.tar.webm"), "clip.tar");
    assert_eq!(stem(".hidden"), ".hidden");
    assert_eq!(join("/data/media", "a.mp4"), "/data/media/a.mp4");
    assert_eq!(join("/data/media/", "a.mp4"), "/data/media/a.mp4");
    assert_eq!(join("", "a.mp4"), "a.mp4");
    assert!(ends_with("x/metadata.json", ".json"));
    assert!(!ends_with("x.mp4", ".json"));
}

#[test]
fn extension_table() {
    for e in ["mp4", "m4v", "mov", "avi", "mkv", "webm", "flv"] {
        assert_eq!(kind_for_extension(e), MediaKind::Video);
    }
    for e in ["jpg", "jpeg", "png", "gif", "bmp", "webp", "svg"] {
        assert_eq!(kind_for_extension(e), MediaKind::Image);
    }
    for e in ["mp3", "wav", "flac", "aac", "ogg"] {
        assert_eq!(kind_for_extension(e), MediaKind::Audio);
    }
    assert_eq!(kind_for_extension("txt"), MediaKind::Other);
    assert_eq!(kind_for_extension(""), MediaKind::Other);
    assert_eq!(kind_for_extension("MP4"), MediaKind::Other);
}

#[test]
fn kind_labels() {
    assert_eq!(MediaKind::Image.label(), "image");
    assert_eq!(MediaKind::Video.label(), "video");
    assert_eq!(MediaKind::Audio.label(), "audio");
    assert_eq!(MediaKind::Other.label(), "unknown");
}

#[test]
fn classification_falls_back_on_extension() {
    assert_eq!(classify(None, "/m/song.mp3"), (MediaKind::Audio, "mp3".to_string()));
    assert_eq!(classify(None, "/m/notes.xyz"), (MediaKind::Other, "xyz".to_string()));
    assert_eq!(classify(None, "/m/noext"), (MediaKind::Other, "".to_string()));
    let bin = Sniffed { kind: MediaKind::Other, extension: "bin".to_string() };
    assert_eq!(classify(Some(bin), "/m/clip.webm"), (MediaKind::Video, "webm".to_string()));
    let empty = Sniffed { kind: MediaKind::Other, extension: "".to_string() };
    assert_eq!(classify(Some(empty), "/m/pic.png"), (MediaKind::Image, "png".to_string()));
}

#[test]
fn classification_lowercases_the_file_extension() {
    assert_eq!(classify(None, "/m/HOLIDAY.MP4"), (MediaKind::Video, "mp4".to_string()));
    assert_eq!(classify(None, "/m/Cover.JpEg"), (MediaKind::Image, "jpeg".to_string()));
}

#[test]
fn classification_keeps_a_recognised_format() {
    let s = Sniffed { kind: MediaKind::Video, extension: "mkv".to_string() };
    assert_eq!(classify(Some(s), "/m/clip.mp3"), (MediaKind::Video, "mkv".to_string()));
    let s = Sniffed { kind: MediaKind::Other, extension: "pdf".to_string() };
    assert_eq!(classify(Some(s), "/m/doc.mp4"), (MediaKind::Other, "pdf".to_string()));
}

#[test]
fn dimensions_need_all_three_fields() {
    assert_eq!(dimensions_from_fields(fields(Some(1280), Some(720), Some("16:9"))), Some(dims(1280, 720, "16:9")));
    assert_eq!(dimensions_from_fields(fields(None, Some(720), Some("16:9"))), None);
    assert_eq!(dimensions_from_fields(fields(Some(1280), None, Some("16:9"))), None);
    assert_eq!(dimensions_from_fields(fields(Some(1280), Some(720), None)), None);
}

#[test]
fn store_get_and_put() {
    let mut s = MetadataStore::detached();
    assert_eq!(s.get("/m/a.mp4"), None);
    s.put("/m/a.mp4", &dims(640, 480, "4:3"));
    s.put("/m/b.mp4", &dims(1920, 1080, "16:9"));
    assert_eq!(s.get("/m/a.mp4"), Some(dims(640, 480, "4:3")));
    s.put("/m/a.mp4", &dims(100, 100, "1:1"));
    assert_eq!(s.get("/m/a.mp4"), Some(dims(100, 100, "1:1")));
    assert_eq!(s.get("/m/b.mp4"), Some(dims(1920, 1080, "16:9")));
}

#[test]
fn recorded_probe_is_served_from_the_cache() {
    let mut s = MetadataStore::detached();
    let path = "/nonexistent/media/a.mp4";
    let first = record_probe(&mut s, path, Some(fields(Some(1280), Some(720), Some("16:9"))));
    assert_eq!(first, Some(dims(1280, 720, "16:9")));
    // The path does not exist, so an inspection could not give these values.
    let second = probe_dimensions(&mut s, path);
    assert_eq!(second, first);
    assert_eq!(probe_dimensions(&mut s, path), first);
}

#[test]
fn incomplete_probe_records_nothing() {
    let mut s = MetadataStore::detached();
    assert_eq!(record_probe(&mut s, "/m/x.mp4", Some(fields(Some(1), None, Some("1:1")))), None);
    assert_eq!(record_probe(&mut s, "/m/x.mp4", None), None);
    assert_eq!(s.get("/m/x.mp4"), None);
}

#[test]
fn ingest_destination_is_the_file_name_in_the_directory() {
    assert_eq!(ingest_destination("/home/u/Videos/a.mp4", "/data/editor"), "/data/editor/a.mp4");
    assert_eq!(ingest_destination("a.mp4", "/data/editor/"), "/data/editor/a.mp4");
}

#[test]
fn ingesting_twice_reuses_the_destination() {
    let first = hard_link_file_to_base_dir("/home/u/a.mp4", "/data/media", true, false);
    let first_path = match &first {
        IngestPlan::Link(d) => d.clone(),
        _ => panic!("expected a link"),
    };
    assert_eq!(ingest_result(first, Ok(())), Ok("/data/media/a.mp4".to_string()));
    let second = hard_link_file_to_base_dir("/home/u/a.mp4", "/data/media", true, true);
    match &second {
        IngestPlan::Reuse(d) => assert_eq!(d, &first_path),
        _ => panic!("expected reuse"),
    }
    assert_eq!(ingest_result(second, Err("not used".to_string())), Ok(first_path));
}

#[test]
fn ingest_errors() {
    let p = hard_link_file_to_base_dir("/home/u/dir", "/data/media", false, false);
    assert!(matches!(p, IngestPlan::NotAFile));
    assert_eq!(ingest_result(p, Ok(())), Err("Source path is not a file".to_string()));
    let p = hard_link_file_to_base_dir("/mnt/other/a.mp4", "/data/media", true, false);
    assert_eq!(
        ingest_result(p, Err("Invalid cross-device link".to_string())),
        Err("Invalid cross-device link".to_string())
    );
}

fn entry(path: &str, is_file: bool) -> SweepEntry {
    SweepEntry { path: path.to_string(), is_file, keep: path.ends_with(".json") }
}

#[test]
fn sweep_keeps_what_the_predicate_keeps() {
    let entries = vec![entry("/d/a.json", true), entry("/d/b.mp4", true), entry("/d/c.mp4", true)];
    assert_eq!(sweep_targets(&entries), vec!["/d/b.mp4".to_string(), "/d/c.mp4".to_string()]);
}

#[test]
fn sweep_leaves_directories() {
    let entries = vec![entry("/d/sub", false), entry("/d/x.png", true), entry("/d/y.json", false)];
    assert_eq!(sweep_targets(&entries), vec!["/d/x.png".to_string()]);
    assert_eq!(sweep_targets(&vec![]), Vec::<String>::new());
    assert!(should_remove(true, false));
    assert!(!should_remove(true, true));
    assert!(!should_remove(false, false));
}

fn args(v: &[&str]) -> Vec<String> {
    v.iter().map(|s| s.to_string()).collect()
}

#[test]
fn clip_with_same_extension_runs_once() {
    let plan = snip_file_to_base_dir("/v/movie.mp4", true, "/data/editor", "00:00:05", "00:00:10", "cut", "mp4").unwrap();
    assert_eq!(plan.trimmed_path, "/data/editor/cut.mp4");
    assert!(!plan.needs_conversion);
    assert_eq!(
        plan.trim_args,
        args(&["-ss", "00:00:05", "-to", "00:00:10", "-i", "/v/movie.mp4", "-c", "copy", "/data/editor/cut.mp4"])
    );
    assert!(matches!(clip_start(), ClipAction::Run(ClipStage::Trim)));
    match clip_after_run(&plan, ClipStage::Trim, true) {
        ClipAction::Finish(Ok(p)) => assert_eq!(p, "/data/editor/cut.mp4"),
        _ => panic!("expected the trimmed file as result"),
    }
}

#[test]
fn clip_with_other_extension_converts_and_removes_intermediate() {
    let plan = snip_file_to_base_dir("/v/movie.mp4", true, "/data/media", "1", "2", "cut", "webm").unwrap();
    assert!(plan.needs_conversion);
    assert_eq!(plan.trimmed_path, "/data/media/cut.mp4");
    assert_eq!(plan.converted_path, "/data/media/cut.webm");
    assert_eq!(
        plan.convert_args,
        args(&[
            "-i", "/data/media/cut.mp4", "-c:v", "libvpx-vp9", "-crf", "30", "-b:v", "0", "-b:a",
            "128k", "-c:a", "libopus", "/data/media/cut.webm",
        ])
    );
    assert!(matches!(clip_after_run(&plan, ClipStage::Trim, true), ClipAction::Run(ClipStage::Convert)));
    match clip_after_run(&plan, ClipStage::Convert, true) {
        ClipAction::RemoveThenFinish { remove, result } => {
            assert_eq!(remove, "/data/media/cut.mp4");
            assert_eq!(result, "/data/media/cut.webm");
        }
        _ => panic!("expected removal of the intermediate"),
    }
}

#[test]
fn clip_failures() {
    let plan = snip_file_to_base_dir("/v/movie.mp4", true, "/d", "1", "2", "cut", "webm").unwrap();
    match clip_after_run(&plan, ClipStage::Trim, false) {
        ClipAction::Finish(Err(e)) => assert_eq!(e, "Failed to execute FFmpeg"),
        _ => panic!("expected failure"),
    }
    match clip_after_run(&plan, ClipStage::Convert, false) {
        ClipAction::Finish(Err(e)) => assert_eq!(e, "could not convert"),
        _ => panic!("expected failure"),
    }
    assert_eq!(
        snip_file_to_base_dir("/v/movie.mp4", false, "/d", "1", "2", "cut", "mp4").err(),
        Some("Source path is not a file".to_string())
    );
    assert_eq!(
        snip_file_to_base_dir("/v/movie", true, "/d", "1", "2", "cut", "mp4").err(),
        Some("Source path has no extension".to_string())
    );
}

#[test]
fn repair_plans_a_sibling_file() {
    let plan = try_fixing_file("/v/holiday.mov", true).unwrap();
    assert_eq!(plan.dest_path, "/v/holiday_fixed.mov");
    assert_eq!(
        plan.args,
        args(&[
            "-i", "/v/holiday.mov", "-c:v", "libx264", "-c:a", "aac", "-b:a", "192k", "-movflags",
            "+faststart", "-strict", "experimental", "/v/holiday_fixed.mov",
        ])
    );
    assert_eq!(repair_result(plan, Ok(true)), Ok("/v/holiday_fixed.mov".to_string()));
    let plan = try_fixing_file("clip", true).unwrap();
    assert_eq!(plan.dest_path, "clip_fixed.");
    assert_eq!(repair_result(plan, Ok(false)), Err("Failed to execute FFmpeg".to_string()));
    let plan = try_fixing_file("/v/a.mp4", true).unwrap();
    assert_eq!(repair_result(plan, Err("spawn failed".to_string())), Err("spawn failed".to_string()));
    assert_eq!(try_fixing_file("/v/missing.mp4", false).err(), Some("File not found".to_string()));
}

#[test]
fn port_search_takes_the_first_available() {
    assert_eq!(get_available_port(|p| p >= 8005), Some(8005));
    assert_eq!(get_available_port(|_| true), Some(8000));
    assert_eq!(get_available_port(|p| p == 8999), Some(8999));
    assert_eq!(get_available_port(|p| p == 9000), None);
    assert_eq!(get_available_port(|_| false), None);
}

#[test]
fn file_handle_params_hold_a_path() {
    let p = FileHandleParams { path: Some("/m/a.mp4".to_string()) };
    assert_eq!(p.path.as_deref(), Some("/m/a.mp4"));
}

#[test]
fn store_from_records_keeps_complete_records() {
    let records = vec![
        ("/m/a.mp4".to_string(), fields(Some(640), Some(480), Some("4:3"))),
        ("/m/b.mp4".to_string(), fields(Some(640), None, Some("4:3"))),
        ("/m/c.mp4".to_string(), fields(Some(10), Some(20), Some("1:2"))),
        ("/m/a.mp4".to_string(), fields(Some(1920), Some(1080), Some("16:9"))),
    ];
    let s = store_from_records(records, "/m/metadata".to_string(), None);
    assert_eq!(s.get("/m/a.mp4"), Some(dims(1920, 1080, "16:9")));
    assert_eq!(s.get("/m/b.mp4"), None);
    assert_eq!(s.get("/m/c.mp4"), Some(dims(10, 20, "1:2")));
    let f = fields(Some(1), Some(2), Some("1:2"));
    assert_eq!(fields_to_dimensions(&f), Some(dims(1, 2, "1:2")));
    assert_eq!(fields_to_dimensions(&fields(None, Some(2), Some("1:2"))), None);
}
