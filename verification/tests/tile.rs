use canvas_server::model::ServerMsg;
use canvas_server::tile::{dimensions_fit, tile_patch, ApplyError, Snapshot, Tile, MAX_TILE_WIDTH};

fn decode_png(bytes: &[u8]) -> (u32, u32, Vec<u8>) {
    let decoder = png::Decoder::new(std::io::Cursor::new(bytes.to_vec()));
    let mut reader = decoder.read_info().unwrap();
    let mut buf = vec![0u8; reader.output_buffer_size().unwrap()];
    let info = reader.next_frame(&mut buf).unwrap();
    buf.truncate(info.buffer_size());
    (info.width, info.height, buf)
}

fn unbase64(text: &str) -> Vec<u8> {
    base64::Engine::decode(&base64::engine::general_purpose::STANDARD, text).unwrap()
}

#[test]
fn dimensions_need_positive_sides() {
    assert!(!dimensions_fit(0, 0));
    assert!(!dimensions_fit(0, 5));
    assert!(!dimensions_fit(5, 0));
    assert!(dimensions_fit(1, 1));
}

#[test]
fn observed_sizes_fit() {
    assert!(dimensions_fit(800, 800));
    assert!(dimensions_fit(1024, 1024));
}

#[test]
fn width_is_bounded() {
    assert_eq!(MAX_TILE_WIDTH, (i32::MAX / 4) as u32);
    assert!(!dimensions_fit(MAX_TILE_WIDTH + 1, 1));
    assert!(!dimensions_fit(u32::MAX, 1));
    assert!(!dimensions_fit(u32::MAX, u32::MAX));
}

#[test]
fn dimensions_agree_with_the_rasteriser() {
    for (w, h) in [(1u32, 1u32), (800, 800), (3, 7), (0, 1), (1, 0), (MAX_TILE_WIDTH + 1, 1)] {
        assert_eq!(dimensions_fit(w, h), tiny_skia::Pixmap::new(w, h).is_some());
    }
}

#[test]
fn new_tile_is_blank_at_version_zero() {
    let t = Tile::new(3, 2);
    assert_eq!(t.width(), 3);
    assert_eq!(t.height(), 2);
    assert_eq!(t.version(), 0);
    assert_eq!(t.pixels(), &[0u8; 24]);
}

#[test]
fn room_sized_tile_has_four_bytes_per_pixel() {
    let t = Tile::new(800, 800);
    assert_eq!(t.pixels().len(), 800 * 800 * 4);
    assert!(t.pixels().iter().all(|b| *b == 0));
}

#[test]
fn apply_installs_the_canvas_and_bumps_the_version() {
    let mut t = Tile::new(2, 1);
    assert_eq!(t.apply(vec![1, 2, 3, 4, 5, 6, 7, 8]), Ok(1));
    assert_eq!(t.version(), 1);
    assert_eq!(t.pixels(), &[1, 2, 3, 4, 5, 6, 7, 8]);
    assert_eq!((t.width(), t.height()), (2, 1));
}

#[test]
fn each_apply_adds_exactly_one() {
    let mut t = Tile::new(1, 1);
    for k in 1..=50u64 {
        let before = t.version();
        assert_eq!(t.apply(vec![k as u8; 4]), Ok(before + 1));
        assert_eq!(t.version(), k);
    }
}

#[test]
fn an_unchanged_canvas_still_counts() {
    let mut t = Tile::new(1, 1);
    assert_eq!(t.apply(vec![0; 4]), Ok(1));
    assert_eq!(t.apply(vec![0; 4]), Ok(2));
}

#[test]
fn canvas_of_the_wrong_size_is_refused() {
    let mut t = Tile::new(2, 2);
    assert_eq!(t.apply(vec![9; 16]), Ok(1));
    for len in [0usize, 3, 5, 16, 64] {
        let mut small = Tile::new(1, 1);
        assert_eq!(small.apply(vec![9; len]), Err(ApplyError::SizeMismatch));
        assert_eq!(small.version(), 0);
        assert_eq!(small.pixels(), &[0u8; 4]);
    }
    assert_eq!(t.apply(vec![1; 15]), Err(ApplyError::SizeMismatch));
    assert_eq!(t.apply(vec![1; 17]), Err(ApplyError::SizeMismatch));
    assert_eq!(t.version(), 1);
    assert_eq!(t.pixels(), &[9u8; 16]);
}

#[test]
fn snapshot_of_a_blank_tile() {
    let t = Tile::new(4, 3);
    let s = t.snapshot().unwrap();
    assert_eq!(s.version, 0);
    let (w, h, data) = decode_png(&s.png);
    assert_eq!((w, h), (4, 3));
    assert_eq!(data, vec![0u8; 48]);
}

#[test]
fn snapshot_version_matches_its_pixels() {
    let mut t = Tile::new(2, 2);
    let mut seen = Vec::new();
    for k in 1..=5u8 {
        t.apply(vec![k; 16]).unwrap();
        seen.push(t.snapshot().unwrap());
    }
    for (i, s) in seen.iter().enumerate() {
        let k = i as u8 + 1;
        assert_eq!(s.version, k as u64);
        assert_eq!(decode_png(&s.png).2, vec![k; 16]);
    }
}

#[test]
fn snapshot_does_not_change_the_tile() {
    let mut t = Tile::new(2, 2);
    t.apply(vec![3; 16]).unwrap();
    let a = t.snapshot().unwrap();
    let b = t.snapshot().unwrap();
    assert_eq!(a, b);
    assert_eq!(t.version(), 1);
    assert_eq!(t.pixels(), &[3u8; 16]);
}

#[test]
fn tile_patch_wraps_the_snapshot_in_base64() {
    let snapshot = Snapshot { version: 42, png: vec![0xfb, 0xff, 0x00, 0x10] };
    assert_eq!(
        tile_patch(snapshot),
        Ok(ServerMsg::TilePatch {
            tx: 0,
            ty: 0,
            version: 42,
            png_base64: "+/8AEA==".to_string(),
        })
    );
}

#[test]
fn tile_patch_of_an_empty_image_has_empty_text() {
    assert_eq!(
        tile_patch(Snapshot { version: 0, png: Vec::new() }),
        Ok(ServerMsg::TilePatch { tx: 0, ty: 0, version: 0, png_base64: String::new() })
    );
}

#[test]
fn patch_carries_version_and_image() {
    let mut t = Tile::new(3, 3);
    t.apply((0..36).collect()).unwrap();
    t.apply((100..136).collect()).unwrap();
    match t.patch().unwrap() {
        ServerMsg::TilePatch { tx, ty, version, png_base64 } => {
            assert_eq!((tx, ty), (0, 0));
            assert_eq!(version, 2);
            let file = unbase64(&png_base64);
            assert_eq!(file, t.snapshot().unwrap().png);
            let (w, h, data) = decode_png(&file);
            assert_eq!((w, h), (3, 3));
            assert_eq!(data, (100..136).collect::<Vec<u8>>());
        }
        other => panic!("unexpected message {:?}", other),
    }
}
