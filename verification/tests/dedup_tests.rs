use slide_extractor::dedup::{
    handle_identify_unique_slides, FrameDedupMetadata, IdentifyUniqueSlidesCommand,
    SelectionStrategy, SlidePreserved, SlideSelector,
};
use slide_extractor::ids::{Id, VideoFrame, YouTubeVideo};
use slide_extractor::similarity::Threshold;

fn frame(number: u32, timestamp: u64, hash: &str, path: &str) -> FrameDedupMetadata {
    FrameDedupMetadata {
        frame_id: Id::<VideoFrame>::new(),
        frame_number: number,
        timestamp,
        hash: hash.to_string(),
        frame_path: path.to_string(),
    }
}

fn command(
    frames: Vec<FrameDedupMetadata>,
    strategy: SelectionStrategy,
) -> IdentifyUniqueSlidesCommand {
    IdentifyUniqueSlidesCommand {
        video_id: Id::<YouTubeVideo>::new(),
        frames,
        slides_dir: "/tmp/slides".to_string(),
        similarity_threshold: Threshold::new(95, 100).unwrap(),
        selection_strategy: strategy,
    }
}

#[test]
fn test_handle_identify_unique_slides_success() {
    let frames = vec![
        frame(1, 0, "ffff", "path1"),
        frame(2, 5, "ffff", "path2"), // Similar
        frame(3, 10, "0000", "path3"), // Different
    ];
    let result = handle_identify_unique_slides(command(frames, SelectionStrategy::First)).unwrap();
    assert_eq!(result.0.slide_count, 2);
    assert_eq!(result.1.len(), 2);
    assert_eq!(result.1[0].slide_index, 1);
    assert_eq!(result.1[1].slide_index, 2);
}

#[test]
fn test_handle_identify_unique_slides_empty() {
    let result = handle_identify_unique_slides(command(vec![], SelectionStrategy::First));
    assert!(result.is_err());
}

#[test]
fn test_handle_identify_unique_slides_single_frame() {
    let frames = vec![frame(1, 0, "ffff", "path1")];
    let result = handle_identify_unique_slides(command(frames, SelectionStrategy::First)).unwrap();
    assert_eq!(result.0.slide_count, 1);
    assert_eq!(result.1.len(), 1);
}

// Every frame similar to the first one: a single cluster comes out.
#[test]
fn test_all_similar_single_cluster() {
    let frames = vec![
        frame(1, 0, "ffff", "p1"),
        frame(2, 5, "ffff", "p2"),
        frame(3, 10, "ffff", "p3"),
        frame(4, 15, "ffff", "p4"),
    ];
    let result = handle_identify_unique_slides(command(frames, SelectionStrategy::First)).unwrap();
    assert_eq!(result.0.slide_count, 1);
}

// Alternating maximally dissimilar fingerprints: one cluster per frame.
#[test]
fn test_alternating_dissimilar_one_cluster_each() {
    let frames = vec![
        frame(1, 0, "ffff", "p1"),
        frame(2, 5, "0000", "p2"),
        frame(3, 10, "ffff", "p3"),
        frame(4, 15, "0000", "p4"),
    ];
    let result = handle_identify_unique_slides(command(frames, SelectionStrategy::First)).unwrap();
    assert_eq!(result.0.slide_count, 4);
}

// Representative selection on a cluster of three frames: First picks the
// first, Last the last, Middle the element at half the length.
#[test]
fn test_representative_selection() {
    let f1 = frame(1, 0, "ffff", "p1");
    let f2 = frame(2, 5, "ffff", "p2");
    let f3 = frame(3, 10, "ffff", "p3");
    let ids = (f1.frame_id, f2.frame_id, f3.frame_id);

    let first = handle_identify_unique_slides(command(
        vec![f1.clone(), f2.clone(), f3.clone()],
        SelectionStrategy::First,
    ))
    .unwrap();
    assert_eq!(first.1[0].frame_id, ids.0);

    let middle = handle_identify_unique_slides(command(
        vec![f1.clone(), f2.clone(), f3.clone()],
        SelectionStrategy::Middle,
    ))
    .unwrap();
    assert_eq!(middle.1[0].frame_id, ids.1);

    let last = handle_identify_unique_slides(command(
        vec![f1, f2, f3],
        SelectionStrategy::Last,
    ))
    .unwrap();
    assert_eq!(last.1[0].frame_id, ids.2);
}

// For an even-length cluster, Middle picks the element just past center.
#[test]
fn test_representative_middle_even() {
    let f1 = frame(1, 0, "ffff", "p1");
    let f2 = frame(2, 5, "ffff", "p2");
    let f3 = frame(3, 10, "ffff", "p3");
    let f4 = frame(4, 15, "ffff", "p4");
    let expected = f3.frame_id;
    let result = handle_identify_unique_slides(command(
        vec![f1, f2, f3, f4],
        SelectionStrategy::Middle,
    ))
    .unwrap();
    assert_eq!(result.1[0].frame_id, expected);
}

// Slide paths are derived from the slides directory and the one-based
// slide index, zero-padded to four places.
#[test]
fn test_slide_paths() {
    let frames = vec![frame(1, 0, "ffff", "p1"), frame(2, 5, "0000", "p2")];
    let result = handle_identify_unique_slides(command(frames, SelectionStrategy::First)).unwrap();
    assert_eq!(result.1[0].slide_path, "/tmp/slides/slide_0001.jpg");
    assert_eq!(result.1[1].slide_path, "/tmp/slides/slide_0002.jpg");
}

#[test]
fn test_pair_slides_success() {
    let f1 = frame(1, 0, "ffff", "/frames/f1.jpg");
    let event = SlidePreserved {
        video_id: Id::<YouTubeVideo>::new(),
        frame_id: f1.frame_id,
        slide_index: 1,
        slide_path: "/slides/slide_0001.jpg".to_string(),
    };
    let pairs = SlideSelector::pair_slides(&vec![event], &vec![f1]).unwrap();
    assert_eq!(pairs.len(), 1);
    assert_eq!(pairs[0].0, "/frames/f1.jpg");
    assert_eq!(pairs[0].1, "/slides/slide_0001.jpg");
}

#[test]
fn test_pair_slides_missing_frame() {
    let f1 = frame(1, 0, "ffff", "/frames/f1.jpg");
    let event = SlidePreserved {
        video_id: Id::<YouTubeVideo>::new(),
        frame_id: Id::<VideoFrame>::new(),
        slide_index: 1,
        slide_path: "/slides/slide_0001.jpg".to_string(),
    };
    let result = SlideSelector::pair_slides(&vec![event], &vec![f1]);
    assert!(result.is_err());
}

// A frame exactly at the threshold still joins the anchor's cluster: the
// comparison is inclusive.
#[test]
fn test_threshold_boundary_is_inclusive() {
    // "ffff" and "fffe" differ in one of sixteen bits: similarity 0.9375.
    let mut cmd = command(
        vec![frame(1, 0, "ffff", "p1"), frame(2, 5, "fffe", "p2")],
        SelectionStrategy::First,
    );
    cmd.similarity_threshold = Threshold::new(9375, 10000).unwrap();
    let result = handle_identify_unique_slides(cmd).unwrap();
    assert_eq!(result.0.slide_count, 1);

    let mut cmd = command(
        vec![frame(1, 0, "ffff", "p1"), frame(2, 5, "fffe", "p2")],
        SelectionStrategy::First,
    );
    cmd.similarity_threshold = Threshold::new(9376, 10000).unwrap();
    let result = handle_identify_unique_slides(cmd).unwrap();
    assert_eq!(result.0.slide_count, 2);
}
