use bikeshare_server::gbfs::StationInfoObj;
use bikeshare_server::thumbnailer::{
    cache_file_name, find_subsequence, make_thumbnail, supports_attribution, CacheAction,
    CacheError, CacheEvent, Invocation, StationDirectory, ThumbnailRequest, ThumbnailResponse,
};
use std::collections::HashMap;

fn info(station_id: u16, external_id: u128, lat: f32, lon: f32) -> StationInfoObj<String> {
    StationInfoObj {
        station_id,
        external_id,
        name: format!("station {station_id}"),
        short_name: format!("{station_id}"),
        lat: lat.to_bits(),
        lon: lon.to_bits(),
        capacity: 10,
        has_kiosk: false,
    }
}

fn directory() -> StationDirectory {
    StationDirectory::new(vec![
        info(1, 0xa1, 45.5, -73.6),
        info(2, 0xa2, 45.25, -73.75),
        info(3, 0xa1, 1.0, 2.0),
    ])
}

#[test]
fn find_subsequence_finds_the_first_occurrence() {
    assert_eq!(find_subsequence(b"abcabc", b"abc"), Some(0));
    assert_eq!(find_subsequence(b"abcabc", b"bc"), Some(1));
    assert_eq!(find_subsequence(b"abcabc", b"cab"), Some(2));
    assert_eq!(find_subsequence(b"aaab", b"ab"), Some(2));
    assert_eq!(find_subsequence(b"abc", b"c"), Some(2));
    assert_eq!(find_subsequence(b"abc", b"abc"), Some(0));
}

#[test]
fn find_subsequence_finds_nothing_where_there_is_nothing() {
    assert_eq!(find_subsequence(b"abcabc", b"abd"), None);
    assert_eq!(find_subsequence(b"ab", b"abc"), None);
    assert_eq!(find_subsequence(b"", b"a"), None);
    assert_eq!(find_subsequence(b"abcab", b"cabc"), None);
}

#[test]
fn find_subsequence_works_on_any_elements() {
    let haystack = ["to", "be", "or", "not", "to", "be"];
    assert_eq!(find_subsequence(&haystack, &["to", "be"]), Some(0));
    assert_eq!(find_subsequence(&haystack, &["not", "to"]), Some(3));
    assert_eq!(find_subsequence(&haystack, &["be", "not"]), None);
    assert_eq!(find_subsequence(&[1u64, 2, 3, 2, 3, 4], &[2, 3, 4]), Some(3));
}

#[test]
fn find_subsequence_agrees_with_a_search_over_windows() {
    let haystack = b"usage: create-static-map [--attribution TEXT] [--width N]";
    for needle in [&b"--attribution"[..], b"--width", b"usage", b"N]", b"--height", b"]", b"-"] {
        let expected = haystack.windows(needle.len()).position(|window| window == needle);
        assert_eq!(find_subsequence(haystack, needle), expected);
    }
}

#[test]
fn supports_attribution_looks_for_the_option_in_the_help_text() {
    assert!(supports_attribution(b"  -a, --attribution TEXT  attribution line\n"));
    assert!(supports_attribution(b"--attribution"));
    assert!(supports_attribution(b"x--attribution--attribution"));
    assert!(!supports_attribution(b""));
    assert!(!supports_attribution(b"--attributio"));
    assert!(!supports_attribution(b"--ATTRIBUTION"));
    assert!(!supports_attribution(b"-attribution --attribute --attr ibution"));
}

#[test]
fn cache_file_name_is_the_two_texts_with_a_comma_and_the_extension() {
    assert_eq!(cache_file_name("45.5", "-73.6"), "45.5,-73.6.png");
    assert_eq!(cache_file_name("0", "0"), "0,0.png");
    assert_eq!(cache_file_name("", ""), ",.png");
    let lat: f32 = 45.50171;
    let lon: f32 = -73.5707;
    assert_eq!(cache_file_name(&lat.to_string(), &lon.to_string()), format!("{lat},{lon}.png"));
}

#[test]
fn coordinates_that_are_written_alike_share_a_file() {
    let a: f32 = 45.1;
    let b: f32 = 45.100_000_1;
    assert_eq!(a.to_string(), b.to_string());
    assert_eq!(cache_file_name(&a.to_string(), "1"), cache_file_name(&b.to_string(), "1"));
    assert_ne!(cache_file_name("45.1", "1"), cache_file_name("45.10", "1"));
}

fn strings(texts: &[&str]) -> Vec<String> {
    texts.iter().map(|t| t.to_string()).collect()
}

#[test]
fn make_thumbnail_renders_then_crops() {
    let pipeline = make_thumbnail("45.5", "-73.6", "./thumbnails/45.5,-73.6.png");
    assert_eq!(
        pipeline.render,
        Invocation {
            program: "create-static-map".to_string(),
            args: strings(&[
                "-m",
                "45.5,-73.6",
                "-z",
                "16",
                "--width",
                "256",
                "--height",
                "256",
                "--attribution",
                "",
                "--output",
                "/dev/stdout",
            ]),
        }
    );
    assert_eq!(
        pipeline.crop,
        Invocation {
            program: "convert".to_string(),
            args: strings(&[
                "png:-",
                "-gravity",
                "center",
                "-crop",
                "128x128+0+0",
                "+repage",
                "./thumbnails/45.5,-73.6.png",
            ]),
        }
    );
}

#[test]
fn directory_finds_the_first_station_with_the_id() {
    let directory = directory();
    assert_eq!(directory.coordinates_of(0xa2), Some((45.25f32.to_bits(), (-73.75f32).to_bits())));
    assert_eq!(directory.coordinates_of(0xa1), Some((45.5f32.to_bits(), (-73.6f32).to_bits())));
    assert_eq!(directory.coordinates_of(0xa3), None);
    assert_eq!(StationDirectory::new(Vec::new()).coordinates_of(0), None);
}

#[test]
fn an_unregistered_id_is_not_found_and_nothing_is_rendered() {
    let (request, action) = ThumbnailRequest::new(&directory(), 0xdead);
    assert_eq!(action, CacheAction::Respond(ThumbnailResponse::NotFound));
    for event in [
        CacheEvent::Found(vec![1]),
        CacheEvent::Missing,
        CacheEvent::ReadFailed,
        CacheEvent::Rendered,
        CacheEvent::RenderFailed,
    ] {
        assert!(!request.accepts(&event));
    }
}

#[test]
fn a_cached_thumbnail_is_served_without_rendering() {
    let (mut request, action) = ThumbnailRequest::new(&directory(), 0xa2);
    let (lat, lon) = (45.25f32.to_bits(), (-73.75f32).to_bits());
    assert_eq!(action, CacheAction::Check { lat, lon });
    assert_eq!(
        request.step(CacheEvent::Found(vec![0x89, 0x50, 0x4e, 0x47])),
        CacheAction::Respond(ThumbnailResponse::Png(vec![0x89, 0x50, 0x4e, 0x47]))
    );
    assert!(!request.accepts(&CacheEvent::Missing));
}

#[test]
fn a_missing_thumbnail_is_rendered_and_read_back() {
    let (mut request, action) = ThumbnailRequest::new(&directory(), 0xa2);
    let (lat, lon) = (45.25f32.to_bits(), (-73.75f32).to_bits());
    assert_eq!(action, CacheAction::Check { lat, lon });
    assert_eq!(request.step(CacheEvent::Missing), CacheAction::Render { lat, lon });
    assert!(!request.accepts(&CacheEvent::Missing));
    assert_eq!(request.step(CacheEvent::Rendered), CacheAction::ReadBack { lat, lon });
    assert!(request.accepts(&CacheEvent::Found(vec![])));
    assert!(!request.accepts(&CacheEvent::Missing));
    assert!(request.accepts(&CacheEvent::ReadFailed));
    assert!(!request.accepts(&CacheEvent::Rendered));
    assert!(!request.accepts(&CacheEvent::RenderFailed));
    assert_eq!(
        request.step(CacheEvent::Found(vec![7, 7])),
        CacheAction::Respond(ThumbnailResponse::Png(vec![7, 7]))
    );
}

#[test]
fn a_read_that_fails_after_the_rendering_is_answered_with_an_error() {
    let (mut request, action) = ThumbnailRequest::new(&directory(), 0xa2);
    let (lat, lon) = (45.25f32.to_bits(), (-73.75f32).to_bits());
    assert_eq!(action, CacheAction::Check { lat, lon });
    assert_eq!(request.step(CacheEvent::Missing), CacheAction::Render { lat, lon });
    assert_eq!(request.step(CacheEvent::Rendered), CacheAction::ReadBack { lat, lon });
    assert!(request.accepts(&CacheEvent::ReadFailed));
    assert_eq!(
        request.step(CacheEvent::ReadFailed),
        CacheAction::Respond(ThumbnailResponse::Failed(CacheError::Filesystem))
    );
    for event in [
        CacheEvent::Found(vec![1]),
        CacheEvent::Missing,
        CacheEvent::ReadFailed,
        CacheEvent::Rendered,
        CacheEvent::RenderFailed,
    ] {
        assert!(!request.accepts(&event));
    }
}

#[test]
fn a_failed_request_leaves_the_next_one_alone() {
    let (mut failed, _) = ThumbnailRequest::new(&directory(), 0xa2);
    failed.step(CacheEvent::Missing);
    failed.step(CacheEvent::Rendered);
    failed.step(CacheEvent::ReadFailed);
    let (mut next, action) = ThumbnailRequest::new(&directory(), 0xa2);
    let (lat, lon) = (45.25f32.to_bits(), (-73.75f32).to_bits());
    assert_eq!(action, CacheAction::Check { lat, lon });
    assert_eq!(
        next.step(CacheEvent::Found(vec![3])),
        CacheAction::Respond(ThumbnailResponse::Png(vec![3]))
    );
}

#[test]
fn failures_are_answered_with_their_kind() {
    let (mut request, _) = ThumbnailRequest::new(&directory(), 0xa2);
    assert_eq!(
        request.step(CacheEvent::ReadFailed),
        CacheAction::Respond(ThumbnailResponse::Failed(CacheError::Filesystem))
    );
    let (mut request, _) = ThumbnailRequest::new(&directory(), 0xa2);
    request.step(CacheEvent::Missing);
    assert_eq!(
        request.step(CacheEvent::RenderFailed),
        CacheAction::Respond(ThumbnailResponse::Failed(CacheError::RenderPipeline))
    );
    assert!(!request.accepts(&CacheEvent::Rendered));
}

/// Serves one request against files kept in memory; `renders` counts the
/// runs of the pipeline, which writes `image`.
fn serve(
    files: &mut HashMap<String, Vec<u8>>,
    renders: &mut usize,
    id: u128,
    image: &[u8],
) -> ThumbnailResponse {
    let (mut request, mut action) = ThumbnailRequest::new(&directory(), id);
    loop {
        let event = match action {
            CacheAction::Respond(response) => return response,
            CacheAction::Check { lat, lon } | CacheAction::ReadBack { lat, lon } => {
                let name = cache_file_name(
                    &f32::from_bits(lat).to_string(),
                    &f32::from_bits(lon).to_string(),
                );
                match files.get(&name) {
                    Some(bytes) => CacheEvent::Found(bytes.clone()),
                    None => CacheEvent::Missing,
                }
            }
            CacheAction::Render { lat, lon } => {
                let name = cache_file_name(
                    &f32::from_bits(lat).to_string(),
                    &f32::from_bits(lon).to_string(),
                );
                *renders += 1;
                files.insert(name, image.to_vec());
                CacheEvent::Rendered
            }
        };
        assert!(request.accepts(&event));
        action = request.step(event);
    }
}

#[test]
fn the_second_request_for_the_same_coordinates_is_served_from_the_cache() {
    let mut files = HashMap::new();
    let mut renders = 0;
    let first = serve(&mut files, &mut renders, 0xa2, b"first image");
    assert_eq!(first, ThumbnailResponse::Png(b"first image".to_vec()));
    assert_eq!(renders, 1);
    assert_eq!(files.len(), 1);
    assert!(files.contains_key("45.25,-73.75.png"));
    let second = serve(&mut files, &mut renders, 0xa2, b"another image");
    assert_eq!(second, ThumbnailResponse::Png(b"first image".to_vec()));
    assert_eq!(renders, 1);
    let other = serve(&mut files, &mut renders, 0xa1, b"third image");
    assert_eq!(other, ThumbnailResponse::Png(b"third image".to_vec()));
    assert_eq!(renders, 2);
    let unknown = serve(&mut files, &mut renders, 0xa9, b"never");
    assert_eq!(unknown, ThumbnailResponse::NotFound);
    assert_eq!(renders, 2);
    assert_eq!(files.len(), 2);
}
