use nebula_tunes::chart::{
    bga_file_type, key_to_lane, map_layer, resolve_asset, BgaFileType, ChartBgaLayer, Key,
};
use nebula_tunes::filesystem::{choose_paths_by_ext, FileEntry, StemIndex};
use nebula_tunes::loops::BgaLayer;
use nebula_tunes::text::{eq_ignore_ascii_case, same_text};

fn entry(stem: &str, ext: &str, path: &str) -> FileEntry {
    FileEntry {
        stem: stem.to_string(),
        ext: ext.to_string(),
        path: path.to_string(),
    }
}

#[test]
fn keys_map_to_their_lanes() {
    assert_eq!(key_to_lane(Key::Scratch(1)), Some(0));
    assert_eq!(key_to_lane(Key::Scratch(2)), Some(0));
    for n in 1u8..=7 {
        assert_eq!(key_to_lane(Key::Key(n)), Some(n as usize));
    }
    assert_eq!(key_to_lane(Key::Key(0)), None);
    assert_eq!(key_to_lane(Key::Key(8)), None);
    assert_eq!(key_to_lane(Key::FootPedal), None);
    assert_eq!(key_to_lane(Key::FreeZone), None);
}

#[test]
fn chart_layers_map_to_render_layers() {
    assert_eq!(map_layer(ChartBgaLayer::Base), BgaLayer::Bga);
    assert_eq!(map_layer(ChartBgaLayer::Overlay), BgaLayer::Layer);
    assert_eq!(map_layer(ChartBgaLayer::Overlay2), BgaLayer::Layer2);
    assert_eq!(map_layer(ChartBgaLayer::Poor), BgaLayer::Poor);
}

#[test]
fn videos_are_told_by_their_extension() {
    for ext in ["mp4", "avi", "mpeg", "webm", "mkv", "wmv", "MP4", "WebM"] {
        assert_eq!(bga_file_type(Some(ext)), BgaFileType::Video);
    }
    for ext in ["bmp", "png", "jpg", "jpeg", "", "mp", "mp44"] {
        assert_eq!(bga_file_type(Some(ext)), BgaFileType::Image);
    }
    assert_eq!(bga_file_type(None), BgaFileType::Image);
}

#[test]
fn texts_compare_with_and_without_case() {
    assert!(eq_ignore_ascii_case("WAV", "wav"));
    assert!(eq_ignore_ascii_case("", ""));
    assert!(eq_ignore_ascii_case("oGg", "OgG"));
    assert!(!eq_ignore_ascii_case("wav", "wave"));
    assert!(!eq_ignore_ascii_case("wav", "wax"));
    assert!(!eq_ignore_ascii_case("@", "`"));
    assert!(!eq_ignore_ascii_case("[", "{"));
    assert!(same_text("LR2", "LR2"));
    assert!(!same_text("LR2", "lr2"));
    assert!(!same_text("LR2", "LR"));
}

#[test]
fn first_file_with_an_allowed_extension_wins() {
    let entries = vec![
        entry("kick", "txt", "dir/kick.txt"),
        entry("kick", "OGG", "dir/kick.OGG"),
        entry("kick", "wav", "dir/kick.wav"),
        entry("snare", "wav", "dir/snare.wav"),
    ];
    let exts = vec!["wav".to_string(), "ogg".to_string()];
    let index = choose_paths_by_ext(&entries, &exts);
    assert_eq!(index.len(), 2);
    assert_eq!(index.get(&"kick".to_string()), Some("dir/kick.OGG".to_string()));
    assert_eq!(index.get(&"snare".to_string()), Some("dir/snare.wav".to_string()));
    assert_eq!(index.get(&"hat".to_string()), None);
    assert_eq!(index.get(&"Kick".to_string()), None);
}

#[test]
fn empty_listing_gives_an_empty_index() {
    let index = choose_paths_by_ext(&Vec::new(), &vec!["wav".to_string()]);
    assert_eq!(index.len(), 0);
    let index = choose_paths_by_ext(&vec![entry("a", "wav", "a.wav")], &Vec::new());
    assert_eq!(index.len(), 0);
    assert_eq!(StemIndex::new().len(), 0);
}

#[test]
fn asset_falls_back_to_the_named_path() {
    let entries = vec![entry("bg", "png", "dir/bg.png")];
    let index = choose_paths_by_ext(&entries, &vec!["png".to_string()]);
    let stem = "bg".to_string();
    assert_eq!(
        resolve_asset(&index, Some(&stem), "dir/bg.bmp".to_string()),
        "dir/bg.png"
    );
    let stem = "other".to_string();
    assert_eq!(
        resolve_asset(&index, Some(&stem), "dir/other.bmp".to_string()),
        "dir/other.bmp"
    );
    assert_eq!(resolve_asset(&index, None, "dir/x".to_string()), "dir/x");
}
