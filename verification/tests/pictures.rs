use channel_watch::decode::LoadError;
use channel_watch::images::{ImageFetcher, ImageKind, ImageLoader, Images, PreviewImage};
use channel_watch::jpeg::find_frame;

/// A picture two pixels wide and one high.
const PNG: &[u8] = &[
    0x89, 0x50, 0x4e, 0x47, 0x0d, 0x0a, 0x1a, 0x0a, 0x00, 0x00, 0x00, 0x0d,
    0x49, 0x48, 0x44, 0x52, 0x00, 0x00, 0x00, 0x02, 0x00, 0x00, 0x00, 0x01,
    0x08, 0x02, 0x00, 0x00, 0x00, 0x7b, 0x40, 0xe8, 0xdd, 0x00, 0x00, 0x00,
    0x0f, 0x49, 0x44, 0x41, 0x54, 0x78, 0x9c, 0x63, 0xf8, 0xcf, 0xc0, 0xc0,
    0xf0, 0x9f, 0x01, 0x00, 0x07, 0xff, 0x01, 0xff, 0x01, 0x7f, 0x89, 0xa7,
    0x00, 0x00, 0x00, 0x00, 0x49, 0x45, 0x4e, 0x44, 0xae, 0x42, 0x60, 0x82,
];

/// A JPEG file with one frame of the kind `marker`, whose samples are all alike. It has a
/// component with the sampling factors `factors[k]` for each `k`, and for each of `scans` a
/// scan of these components, which leaves `low` bits for another one.
fn jpeg_of(
    marker: u8,
    precision: u8,
    size: (u16, u16),
    factors: &[u8],
    scans: &[&[u8]],
    low: u8,
) -> Vec<u8> {
    let (lines, columns) = size;
    let count = |list: &[u8]| u8::try_from(list.len()).unwrap();
    let mut data = vec![0xff, 0xd8];
    // A quantization table of ones.
    data.extend([0xff, 0xdb, 0x00, 0x43, 0x00]);
    data.extend([1; 64]);
    data.extend([0xff, marker, 0x00, 8 + 3 * count(factors), precision]);
    data.extend(lines.to_be_bytes());
    data.extend(columns.to_be_bytes());
    data.push(count(factors));
    for (id, factor) in (0..).zip(factors) {
        data.extend([id, *factor, 0x00]);
    }
    // Two tables with one code of one bit, for the symbol zero.
    for class in [0x00, 0x10] {
        data.extend([0xff, 0xc4, 0x00, 0x14, class, 1]);
        data.extend([0; 16]);
    }
    for scan in scans {
        data.extend([0xff, 0xda, 0x00, 6 + 2 * count(scan), count(scan)]);
        for id in *scan {
            data.extend([*id, 0x00]);
        }
        data.extend(match marker {
            0xc2 => [0, 0, low],
            0xc3 => [1, 0, low],
            _ => [0, 63, low],
        });
        // Enough zeros for every sample or block.
        let unit = if marker == 0xc3 { 1 } else { 8 };
        let parts = (usize::from(lines) / unit + 4) * (usize::from(columns) / unit + 4);
        data.extend(vec![0; parts * scan.len()]);
    }
    data.extend([0xff, 0xd9]);
    data
}

/// A JPEG file with one scan of `components` components.
fn jpeg(marker: u8, precision: u8, lines: u16, columns: u16, components: u8) -> Vec<u8> {
    let factors = vec![0x11; usize::from(components)];
    let scan: Vec<u8> = (0..components).collect();
    jpeg_of(marker, precision, (lines, columns), &factors, &[&scan], 0)
}

/// A chunk of a PNG file.
fn chunk(kind: &[u8; 4], content: &[u8]) -> Vec<u8> {
    let mut sum = u32::MAX;
    for byte in kind.iter().chain(content) {
        sum ^= u32::from(*byte);
        for _ in 0..8 {
            sum = if sum & 1 == 1 { sum >> 1 ^ 0xedb88320 } else { sum >> 1 };
        }
    }
    let mut data = u32::try_from(content.len()).unwrap().to_be_bytes().to_vec();
    data.extend(kind);
    data.extend(content);
    data.extend((!sum).to_be_bytes());
    data
}

/// The header of a picture of one pixel.
fn png_header(colour: u8) -> Vec<u8> {
    chunk(b"IHDR", &[0, 0, 0, 1, 0, 0, 0, 1, 8, colour, 0, 0, 0])
}

/// The one pixel, which is zero in all of its `samples`.
fn png_pixel(samples: u8) -> Vec<u8> {
    let size = samples + 1;
    let mut content = vec![0x78, 0x01, 0x01, size, 0, !size, 0xff];
    content.extend(vec![0; usize::from(size)]);
    content.extend([0, 0, 0, 1]);
    chunk(b"IDAT", &content)
}

/// A PNG file of these chunks.
fn png(chunks: &[Vec<u8>]) -> Vec<u8> {
    let mut data = PNG[..8].to_vec();
    data.extend(chunks.concat());
    data.extend(chunk(b"IEND", &[]));
    data
}

const MINUTE: u128 = 60_000_000_000;

#[test]
fn previews_last_a_minute() {
    let preview = PreviewImage { last: 1_000, image: () };
    assert!(!preview.should_update(0));
    assert!(!preview.should_update(1_000));
    assert!(!preview.should_update(1_000 + MINUTE - 1));
    assert!(preview.should_update(1_000 + MINUTE));
    assert!(preview.should_update(u128::MAX));
}

#[test]
fn missing_pictures_are_asked_for() {
    let images = Images::<u8>::default();
    let request = |kind| Some(("u".to_string(), kind));
    assert_eq!(images.get_static("u"), (None, request(ImageKind::Static)));
    assert_eq!(images.get_preview("u", 0), (None, request(ImageKind::Preview)));
    assert_eq!(images.get_static(""), (None, None));
    assert_eq!(images.get_preview("", 0), (None, None));
}

#[test]
fn kept_pictures_are_not_asked_for() {
    let mut images = Images::<u8>::default();
    images.add_static("u".to_string(), 1);
    images.add_preview("u".to_string(), 2, 5);
    assert_eq!(images.get_static("u"), (Some(&1), None));
    assert_eq!(images.get_preview("u", 5 + MINUTE - 1), (Some(&2), None));
    let refresh = Some(("u".to_string(), ImageKind::Refresh));
    assert_eq!(images.get_preview("u", 5 + MINUTE), (Some(&2), refresh));
    images.remove("u", "u");
    assert_eq!(images.get_static("u").0, None);
    assert_eq!(images.get_preview("u", 5).0, None);
}

#[test]
fn arrivals_are_kept_by_their_kind() {
    let mut images = Images::<u8>::default();
    let arrivals = vec![
        ("s".to_string(), ImageKind::Static, 1, 10),
        ("p".to_string(), ImageKind::Preview, 2, 20),
        ("p".to_string(), ImageKind::Refresh, 3, 30),
    ];
    ImageLoader::poll(arrivals, &mut images);
    assert_eq!(images.get_static("s").0, Some(&1));
    assert_eq!(images.get_static("p").0, None);
    assert_eq!(images.get_preview("s", 0).0, None);
    assert_eq!(images.get_preview("p", 30 + MINUTE - 1), (Some(&3), None));
}

#[test]
fn pictures_are_fetched_once() {
    let mut fetcher = ImageFetcher::new();
    assert!(fetcher.begin("u".to_string()));
    assert!(!fetcher.begin("u".to_string()));
    let loaded = fetcher.finish("u".to_string(), ImageKind::Static, Some(vec![1]));
    assert_eq!(loaded, Some(("u".to_string(), ImageKind::Static, vec![1])));
    assert!(!fetcher.begin("u".to_string()));
}

#[test]
fn previews_are_fetched_again() {
    for kind in [ImageKind::Preview, ImageKind::Refresh] {
        let mut fetcher = ImageFetcher::new();
        assert!(fetcher.begin("u".to_string()));
        assert!(!fetcher.begin("u".to_string()));
        assert!(fetcher.finish("u".to_string(), kind, Some(vec![])).is_some());
        assert!(fetcher.begin("u".to_string()));
    }
}

#[test]
fn failed_fetches_are_not_tried_again() {
    for kind in [ImageKind::Static, ImageKind::Preview, ImageKind::Refresh] {
        let mut fetcher = ImageFetcher::new();
        assert!(fetcher.begin("u".to_string()));
        assert_eq!(fetcher.finish("u".to_string(), kind, None), None);
        assert!(!fetcher.begin("u".to_string()));
    }
}

#[test]
fn addresses_are_held_back_until_a_preview_comes() {
    let mut fetcher = ImageFetcher::new();
    assert!(fetcher.begin("u".to_string()));
    assert!(fetcher.begin("v".to_string()));
    assert!(fetcher.finish("v".to_string(), ImageKind::Preview, Some(vec![1])).is_some());
    assert!(fetcher.finish("u".to_string(), ImageKind::Preview, None).is_none());
    assert!(fetcher.finish("u".to_string(), ImageKind::Static, Some(vec![1])).is_some());
    assert!(!fetcher.begin("u".to_string()));
    assert!(fetcher.begin("v".to_string()));
    assert!(fetcher.finish("u".to_string(), ImageKind::Refresh, Some(vec![1])).is_some());
    assert!(fetcher.begin("u".to_string()));
}

#[test]
fn nothing_is_fetched_from_an_empty_address() {
    assert_eq!(ImageFetcher::fetch(ImageKind::Static, ""), None);
    assert_eq!(
        ImageFetcher::fetch(ImageKind::Refresh, "u"),
        Some(("u".to_string(), ImageKind::Refresh))
    );
}

fn load_error(data: &[u8]) -> LoadError {
    match ImageLoader::load_image("u".to_string(), ImageKind::Static, data.to_vec()) {
        Ok(_) => panic!("a picture"),
        Err(error) => error,
    }
}

#[test]
fn a_png_is_loaded() {
    match ImageLoader::load_image("u".to_string(), ImageKind::Preview, PNG.to_vec()) {
        Ok((url, kind, image)) => {
            assert_eq!(url, "u");
            assert_eq!(kind, ImageKind::Preview);
            assert_eq!(image.debug_name(), "u");
            assert_eq!(image.size(), [2, 1]);
        }
        Err(error) => panic!("{error:?}"),
    }
}

/// Loads the picture in `data` and gives its lines and columns.
fn size_of(data: Vec<u8>) -> (usize, usize) {
    assert!(ImageLoader::can_decode(&data));
    match ImageLoader::load_image("u".to_string(), ImageKind::Static, data) {
        Ok((url, kind, image)) => {
            assert_eq!(url, "u");
            assert_eq!(kind, ImageKind::Static);
            assert_eq!(image.debug_name(), "u");
            let [columns, lines] = image.size();
            (lines, columns)
        }
        Err(error) => panic!("{error:?}"),
    }
}

#[test]
fn jpegs_are_loaded() {
    // The kind of frame, the bits of a sample, the lines, the columns and the components.
    let frames = [
        (0xc0, 8, 8, 16, 1),
        (0xc0, 8, 9, 7, 3),
        (0xc1, 8, 1, 1, 4),
        (0xc3, 8, 2, 3, 1),
        (0xc3, 9, 2, 3, 1),
        (0xc3, 16, 2, 3, 1),
        (0xc3, 8, 2, 3, 3),
        (0xc3, 8, 2, 3, 4),
    ];
    for (marker, precision, lines, columns, components) in frames {
        let data = jpeg(marker, precision, lines, columns, components);
        assert_eq!(size_of(data), (usize::from(lines), usize::from(columns)));
    }
}

#[test]
fn lossless_frames_that_the_decoder_cannot_cope_with() {
    let frames = [(2, 1), (7, 1), (2, 3), (7, 3), (9, 3), (12, 3), (7, 4), (16, 4)];
    for (precision, components) in frames {
        let data = jpeg(0xc3, precision, 2, 3, components);
        assert!(!ImageLoader::can_decode(&data));
        // Without the signature it is no picture at all.
        assert!(ImageLoader::can_decode(&data[1..]));
    }
}

#[test]
fn refused_frames_can_be_decoded() {
    let frames = [
        (0xc3, 1, 2, 3, 1),
        (0xc3, 17, 2, 3, 3),
        (0xc3, 12, 2, 3, 2),
        (0xc0, 12, 65535, 8, 1),
        (0xc7, 4, 2, 3, 1),
        (0xcb, 4, 2, 3, 1),
        (0xc9, 8, 65535, 8, 1),
    ];
    for (marker, precision, lines, columns, components) in frames {
        let data = jpeg(marker, precision, lines, columns, components);
        assert!(ImageLoader::can_decode(&data));
        assert!(matches!(load_error(&data), LoadError::Broken(_)));
    }
}

/// The components of a frame in one scan, or in a scan of its own for each.
const TOGETHER: &[&[u8]] = &[&[0, 1, 2]];
const APART: &[&[u8]] = &[&[0], &[1], &[2]];

#[test]
fn jpegs_with_a_long_side_are_loaded() {
    let (tall, wide) = ((65535, 8), (8, 65535));
    // The size, the sampling factors and the scans.
    let frames: [((u16, u16), &[u8], &[&[u8]]); 9] = [
        ((65528, 8), &[0x13], &[&[0]]),
        (tall, &[0x11; 3], TOGETHER),
        (tall, &[0x22, 0x11, 0x11], TOGETHER),
        (tall, &[0x12, 0x12, 0x11], &[&[0, 1], &[2]]),
        (wide, &[0x11; 3], TOGETHER),
        (wide, &[0x11], &[&[0]]),
        (wide, &[0x41], &[&[0]]),
        (wide, &[0x22, 0x11, 0x11], APART),
        (wide, &[0x31, 0x11, 0x11], &[&[0, 1], &[2]]),
    ];
    for (size, factors, scans) in frames {
        let (lines, columns) = (usize::from(size.0), usize::from(size.1));
        assert_eq!(size_of(jpeg_of(0xc0, 8, size, factors, scans, 0)), (lines, columns));
    }
    // A progressive frame of which more could come.
    for low in [0, 1] {
        assert_eq!(size_of(jpeg_of(0xc2, 8, tall, &[0x11], &[&[0]], low)), (65535, 8));
    }
}

#[test]
fn scans_in_which_the_decoder_overflows() {
    let (tall, wide) = ((65529, 8), (8, 65529));
    let frames: [(u8, (u16, u16), &[u8], &[&[u8]], u8); 8] = [
        (0xc0, tall, &[0x11], &[&[0]], 0),
        (0xc1, tall, &[0x14], &[&[0]], 0),
        (0xc0, tall, &[0x11; 3], APART, 0),
        (0xc0, tall, &[0x12, 0x12, 0x11], &[&[1, 2], &[0]], 0),
        (0xc0, wide, &[0x31], &[&[0]], 0),
        (0xc2, wide, &[0x31, 0x11, 0x11], APART, 1),
        (0xc2, tall, &[0x13], &[&[0]], 1),
        (0xc0, (65535, 65535), &[0x33, 0x11, 0x11], APART, 0),
    ];
    for (marker, size, factors, scans, low) in frames {
        // The samples do not matter here.
        let mut data = jpeg_of(marker, 8, (1, 1), factors, scans, low);
        let frame = find_frame(&data).unwrap();
        data[frame + 5..frame + 7].copy_from_slice(&u16::to_be_bytes(size.0));
        data[frame + 7..frame + 9].copy_from_slice(&u16::to_be_bytes(size.1));
        assert!(!ImageLoader::can_decode(&data));
    }
}

#[test]
fn the_last_scan_of_a_component_is_found() {
    // A tall progressive frame of one component, and scans with the first and the last
    // coefficient and the bits that are left of them.
    let file = |scans: &[(u8, u8, u8)]| {
        let mut data = vec![0xff, 0xd8];
        data.extend([0xff, 0xc2, 0, 11, 8, 0xff, 0xff, 0, 8, 1, 7, 0x11, 0]);
        for (first, last, low) in scans {
            data.extend([0xff, 0xda, 0, 8, 1, 7, 0, *first, *last, *low]);
            // Samples, with a stuffed byte and a marker for a restart.
            data.extend([1, 2, 0xff, 0, 3, 0xff, 0xd0, 4]);
        }
        data.extend([0xff, 0xd9]);
        data
    };
    assert!(ImageLoader::can_decode(&file(&[])));
    assert!(ImageLoader::can_decode(&file(&[(0, 0, 0)])));
    assert!(ImageLoader::can_decode(&file(&[(0, 0, 0), (1, 62, 0)])));
    assert!(ImageLoader::can_decode(&file(&[(0, 0, 1), (1, 63, 0)])));
    assert!(ImageLoader::can_decode(&file(&[(0, 0, 0), (1, 63, 1)])));
    assert!(!ImageLoader::can_decode(&file(&[(0, 0, 0), (1, 63, 0)])));
    assert!(!ImageLoader::can_decode(&file(&[(1, 63, 1), (1, 5, 0), (0, 0, 0), (6, 63, 0)])));
    // What comes behind the end is not read.
    let mut data = file(&[(0, 0, 0)]);
    data.extend(&file(&[(1, 63, 0)])[15..]);
    assert!(ImageLoader::can_decode(&data));
}

#[test]
fn the_frame_is_found() {
    let frame = |marker| [0xff, marker, 0, 11, 8, 1, 2, 3, 4, 1, 1, 0x11, 0];
    let file = |before: &[u8], marker: u8| {
        let mut data = vec![0xff, 0xd8];
        data.extend(before);
        data.extend(frame(marker));
        data
    };
    for marker in 0xc0..=0xcf {
        let found = find_frame(&file(&[], marker));
        match marker {
            0xc4 | 0xc8 | 0xcc => assert_eq!(found, None),
            _ => assert_eq!(found, Some(2)),
        }
    }
    let found = [
        // Bytes between segments, a zero behind `ff`, and fill bytes.
        &[1, 2, 3][..],
        &[0xff, 0],
        &[0xff, 0xff],
        // Segments, in which a marker means nothing.
        &[0xff, 0xe0, 0, 2],
        &[0xff, 0xef, 0, 4, 0xff, 0xc3],
        &[0xff, 0xfe, 0, 3, 0xff, 0xff, 0xdb, 0, 2],
        &[0xff, 0xdd, 0, 4, 0, 0, 0xff, 0xc4, 0, 3, 0],
    ];
    for before in found {
        assert_eq!(find_frame(&file(before, 0xc3)), Some(2 + before.len()));
    }
    let missed = [
        &[0xff, 0xd9][..],
        &[0xff, 0xda, 0, 2],
        &[0xff, 0xd0],
        &[0xff, 0xe0, 0, 1],
        &[0xff, 0xe0, 1, 0],
    ];
    for before in missed {
        assert_eq!(find_frame(&file(before, 0xc3)), None);
    }
    let mut data = file(&[], 0xc0);
    assert_eq!(find_frame(&data[..14]), None);
    data[11] = 2;
    assert_eq!(find_frame(&data), None);
    assert_eq!(find_frame(&[]), None);
}

#[test]
fn pngs_with_a_palette_are_loaded() {
    let palette = |size| chunk(b"PLTE", &vec![1; size]);
    let files = [
        png(&[png_header(3), palette(3), png_pixel(1)]),
        png(&[png_header(3), palette(768), png_pixel(1)]),
        // A palette that is not used need not be one.
        png(&[png_header(2), palette(4), png_pixel(3)]),
        png(&[png_header(3), palette(3), png_pixel(1), palette(4)]),
        // Empty chunks mean nothing.
        png(&[chunk(b"IHDR", &[]), png_header(3), palette(0), palette(6), png_pixel(1)]),
    ];
    for data in files {
        assert_eq!(size_of(data), (1, 1));
    }
    assert_eq!(size_of(PNG.to_vec()), (1, 2));
}

#[test]
fn palettes_that_the_decoder_cannot_cope_with() {
    let palette = |size| chunk(b"PLTE", &vec![1; size]);
    for size in [1, 2, 4, 5, 767, 769, 770, 771, 1536] {
        assert!(!ImageLoader::can_decode(&png(&[png_header(3), palette(size), png_pixel(1)])));
    }
    let gamma = chunk(b"gAMA", &[0, 0, 0, 1]);
    let files = [
        png(&[chunk(b"IHDR", &[]), png_header(3), palette(0), palette(4), png_pixel(1)]),
        png(&[png_header(3), gamma.clone(), palette(4), gamma, png_pixel(1)]),
        png(&[png_header(3), palette(4), chunk(b"fdAT", &[])]),
    ];
    for data in files {
        assert!(!ImageLoader::can_decode(&data));
        assert!(ImageLoader::can_decode(&data[1..]));
    }
}

#[test]
fn refused_palettes_can_be_decoded() {
    let palette = |size| chunk(b"PLTE", &vec![1; size]);
    let cut = |left: usize| {
        let data = png(&[png_header(3), palette(4), png_pixel(1)]);
        data[..left].to_vec()
    };
    let files = [
        png(&[png_header(3), png_pixel(1)]),
        png(&[png_header(3), palette(3), palette(4), png_pixel(1)]),
        png(&[png_header(3), palette(4)]),
        cut(8),
        cut(33),
        cut(45),
        cut(56),
    ];
    for data in files {
        assert!(ImageLoader::can_decode(&data));
        assert!(matches!(load_error(&data), LoadError::Broken(_)));
    }
}

#[test]
fn other_data_can_be_decoded() {
    for data in [&[][..], &[0xff, 0xd8, 0xff], &[0x89], &PNG[..8], b"GIF89a"] {
        assert!(ImageLoader::can_decode(data));
    }
}

#[test]
fn unknown_formats_are_refused() {
    let error = load_error(b"nothing that is known");
    assert!(matches!(error, LoadError::Unknown(_)));
    assert!(error.message("u").starts_with("unknown format for u: "));
    let error = load_error(&[0x89]);
    assert!(matches!(error, LoadError::Unknown(_)));
}

#[test]
fn unsupported_formats_are_refused() {
    assert_eq!(load_error(b"GIF89a rest"), LoadError::Unsupported("Gif".to_string()));
    assert_eq!(load_error(b"BM"), LoadError::Unsupported("Bmp".to_string()));
    assert_eq!(
        load_error(b"RIFF").message("https://x/y"),
        "unsupported format for https://x/y: WebP"
    );
}

#[test]
fn broken_pictures_are_refused() {
    let error = load_error(&PNG[..20]);
    assert!(matches!(error, LoadError::Broken(_)));
    assert!(error.message("u").starts_with("cannot load 'u': "));
    assert!(matches!(load_error(&[0xff, 0xd8, 0xff]), LoadError::Broken(_)));
}

#[test]
fn formats_that_pictures_come_in() {
    let ok = |format: &str| ImageLoader::check_format(Ok(format.to_string()));
    assert_eq!(ok("Png"), Ok(()));
    assert_eq!(ok("Jpeg"), Ok(()));
    assert_eq!(ok("png"), Err(LoadError::Unsupported("png".to_string())));
    assert_eq!(
        ImageLoader::check_format(Err("why".to_string())),
        Err(LoadError::Unknown("why".to_string()))
    );
}
