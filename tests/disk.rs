use media_library::classify::{classify_file, MediaKind};
use media_library::library::{
    build_local_file, is_store_file, load_file, load_file_batch, load_local_files_from_base_dir,
    load_local_files_shuffled,
};
use media_library::metadata::{get_local_file_metadata_store, get_media_dimensions_from_path, Dimensions};

const BASE: &str = "/tmp";

fn hd() -> Dimensions {
    Dimensions { width: 1280, height: 720, aspect_ratio: "16:9".to_string() }
}

#[test]
fn unreadable_content_is_classified_by_extension() {
    assert_eq!(classify_file("/nonexistent/media_library/track.mp3"), (MediaKind::Audio, "mp3".to_string()));
    assert_eq!(classify_file("/nonexistent/media_library/blob.qqq"), (MediaKind::Other, "qqq".to_string()));
    assert_eq!(classify_file("/nonexistent/media_library/Clip.WEBM"), (MediaKind::Video, "webm".to_string()));
}

#[test]
fn store_persists_between_openings() {
    let key = "/nonexistent/media_library/persist/a.mp4";
    let mut s = get_local_file_metadata_store(BASE);
    s.put(key, &hd());
    let again = get_local_file_metadata_store(BASE);
    assert_eq!(again.get(key), Some(hd()));
    assert_eq!(get_media_dimensions_from_path(key, BASE), Some(hd()));
}

#[test]
fn probe_of_an_unreadable_file_gives_no_dimensions() {
    assert_eq!(get_media_dimensions_from_path("/nonexistent/media_library/never-probed.mp4", BASE), None);
}

#[test]
fn loading_without_a_base_directory_is_empty() {
    assert!(load_local_files_from_base_dir(None, vec!["/x/a.mp4".to_string()]).is_empty());
    assert!(load_local_files_shuffled(None, vec!["/x/a.mp4".to_string()]).is_empty());
}

#[test]
fn end_to_end_load_lists_the_video_and_skips_the_store() {
    let video = "/nonexistent/media_library/load/a.mp4".to_string();
    get_local_file_metadata_store(BASE).put(&video, &hd());
    let entries = vec![format!("{}/metadata.json", BASE), video.clone()];
    let files = load_local_files_from_base_dir(Some(BASE), entries);
    assert_eq!(files.len(), 1);
    let f = &files[0];
    assert_eq!(f.name, video);
    assert_eq!(f.kind, MediaKind::Video);
    assert_eq!(f.extension, "mp4");
    assert!(f.lazy);
    assert_eq!(f.data, None);
    assert_eq!(f.dimensions, Some(hd()));
}

#[test]
fn shuffled_load_lists_the_same_files() {
    let mut entries: Vec<String> = (0..6).map(|i| format!("/nonexistent/media_library/s/f{}.png", i)).collect();
    entries.push("/nonexistent/media_library/s/metadata.json".to_string());
    let mut names: Vec<String> = load_local_files_shuffled(Some(BASE), entries.clone())
        .into_iter()
        .map(|f| f.name)
        .collect();
    names.sort();
    let mut expected: Vec<String> = entries.into_iter().filter(|e| !e.ends_with(".json")).collect();
    expected.sort();
    assert_eq!(names, expected);
}

#[test]
fn eager_load_carries_the_encoded_contents() {
    let f = load_file("/nonexistent/media_library/x.png", Some(b"hello".to_vec())).ok().unwrap();
    assert_eq!(f.name, "/nonexistent/media_library/x.png");
    assert!(!f.lazy);
    assert_eq!(f.data, Some("aGVsbG8=".to_string()));
    assert_eq!(f.kind, MediaKind::Image);
    assert_eq!(f.extension, "png");
    assert_eq!(f.dimensions, None);
    let empty = load_file("/nonexistent/media_library/e.mp3", Some(vec![])).ok().unwrap();
    assert_eq!(empty.data, Some("".to_string()));
    assert!(load_file("/nonexistent/media_library/x.png", None).is_err());
    assert_eq!(load_file("/x.png", None).err().map(|_| ()), Some(()));
}

#[test]
fn eager_batch_fails_as_a_whole() {
    let ok = load_file_batch(vec![
        ("/nonexistent/a.mp4".to_string(), Some(vec![1, 2, 3])),
        ("/nonexistent/b.wav".to_string(), Some(vec![255])),
    ])
    .ok()
    .unwrap();
    assert_eq!(ok.len(), 2);
    assert_eq!(ok[0].data, Some("AQID".to_string()));
    assert_eq!(ok[1].data, Some("/w==".to_string()));
    assert_eq!(ok[1].kind, MediaKind::Audio);
    let failed = load_file_batch(vec![
        ("/nonexistent/a.mp4".to_string(), Some(vec![1])),
        ("/nonexistent/missing.mp4".to_string(), None),
    ]);
    assert_eq!(failed.err(), Some("file not found".to_string()));
    assert_eq!(load_file_batch(vec![]).ok().map(|v| v.len()), Some(0));
}

#[test]
fn store_that_cannot_be_opened_degrades_to_no_cache() {
    let mut s = get_local_file_metadata_store("/nonexistent/media_library/no/such/dir");
    assert_eq!(s.get("/a.mp4"), None);
    s.put("/a.mp4", &hd());
    assert_eq!(s.get("/a.mp4"), Some(hd()));
    let reopened = get_local_file_metadata_store("/nonexistent/media_library/no/such/dir");
    assert_eq!(reopened.get("/a.mp4"), None);
}

#[test]
fn store_entries_and_lazy_records() {
    assert!(is_store_file("/d/metadata.json"));
    assert!(is_store_file(".json"));
    assert!(!is_store_file("/d/json"));
    assert!(!is_store_file("/d/a.json.mp4"));
    let f = build_local_file("/d/a.gif".to_string(), MediaKind::Image, "gif".to_string(), Some(hd()));
    assert!(f.lazy);
    assert_eq!(f.data, None);
    assert_eq!(f.name, "/d/a.gif");
    assert_eq!(f.dimensions, Some(hd()));
}
