//! Grouping of fingerprinted frames into runs of near-duplicates.
//!
//! The engine walks the time-ordered frame sequence once.  Each cluster is
//! anchored at its first frame: a new frame joins the open cluster exactly
//! when its fingerprint is similar enough to the anchor's, and otherwise
//! closes the cluster and opens a new one.  One representative per cluster
//! is then selected by the configured strategy.

use vstd::prelude::*;
use crate::comparer::HashComparer;
use crate::decimal::{dec_digits_pad4, u64_to_dec_pad4};
use crate::error::{DomainResult, ExtractionError};
use crate::ids::{Id, VideoFrame, YouTubeVideo};
use crate::similarity::{spec_similarity, Threshold};

verus! {

/// How the representative frame of a cluster is chosen.
#[derive(Debug, Clone, Copy, PartialEq, Eq, Structural)]
pub enum SelectionStrategy {
    /// The cluster's first frame.
    First,
    /// The frame at half the cluster length, rounded down.
    Middle,
    /// The cluster's final frame.
    Last,
}

/// One sampled frame as the deduplication engine sees it.
#[derive(Debug)]
pub struct FrameDedupMetadata {
    /// Identifier of the frame.
    pub frame_id: Id<VideoFrame>,
    /// One-based position in sampling order.
    pub frame_number: u32,
    /// Seconds from video start at which the frame was sampled.
    pub timestamp: u64,
    /// The frame's perceptual fingerprint, in hexadecimal digits.
    pub hash: String,
    /// Where the frame image lies on disk.
    pub frame_path: String,
}

impl Clone for FrameDedupMetadata {
    fn clone(&self) -> (r: Self)
        ensures
            r == *self,
    {
        FrameDedupMetadata {
            frame_id: self.frame_id.clone(),
            frame_number: self.frame_number,
            timestamp: self.timestamp,
            hash: self.hash.clone(),
            frame_path: self.frame_path.clone(),
        }
    }
}

/// Request to group a time-ordered frame sequence into unique slides.
#[derive(Debug)]
pub struct IdentifyUniqueSlidesCommand {
    /// The video the frames came from.
    pub video_id: Id<YouTubeVideo>,
    /// The fingerprinted frames, in sampling order.
    pub frames: Vec<FrameDedupMetadata>,
    /// Directory that will hold the preserved slide images.
    pub slides_dir: String,
    /// Frames at least this similar to the open cluster's anchor join it.
    pub similarity_threshold: Threshold,
    /// How each cluster's representative is chosen.
    pub selection_strategy: SelectionStrategy,
}

/// Summary of one grouping run.
#[derive(Debug, Clone)]
pub struct UniqueSlidesIdentified {
    /// The video the slides belong to.
    pub video_id: Id<YouTubeVideo>,
    /// How many unique slides were found.
    pub slide_count: u32,
    /// Directory that holds the preserved slide images.
    pub slides_dir: String,
}

/// One slide chosen for preservation.
#[derive(Debug, Clone)]
pub struct SlidePreserved {
    /// The video the slide belongs to.
    pub video_id: Id<YouTubeVideo>,
    /// The representative frame standing in for the cluster.
    pub frame_id: Id<VideoFrame>,
    /// One-based position of the slide in emission order.
    pub slide_index: u32,
    /// Destination path of the preserved image.
    pub slide_path: String,
}

/// Whether frame `b` is similar enough to anchor `a` to share a cluster.
pub open spec fn similar(a: FrameDedupMetadata, b: FrameDedupMetadata, t: Threshold) -> bool {
    let s = spec_similarity(a.hash@, b.hash@);
    s.0 * t.den >= t.num * s.1
}

/// Index just past the cluster that `frames[0]` anchors, scanning from
/// position `j`: the first position at or after `j` whose frame is not
/// similar to the anchor, or the end of the sequence.
pub open spec fn cluster_extent(frames: Seq<FrameDedupMetadata>, t: Threshold, j: int) -> int
    recommends
        1 <= j <= frames.len(),
    decreases frames.len() - j,
{
    if j >= frames.len() {
        j
    } else if !similar(frames[0], frames[j], t) {
        j
    } else {
        cluster_extent(frames, t, j + 1)
    }
}

/// The clusters that the single forward pass produces, in order.
pub open spec fn spec_clusters(frames: Seq<FrameDedupMetadata>, t: Threshold) -> Seq<
    Seq<FrameDedupMetadata>,
>
    decreases frames.len()
    via spec_clusters_decreases
{
    if frames.len() == 0 {
        Seq::empty()
    } else {
        let k = cluster_extent(frames, t, 1);
        seq![frames.subrange(0, k)] + spec_clusters(
            frames.subrange(k, frames.len() as int),
            t,
        )
    }
}

#[via_fn]
proof fn spec_clusters_decreases(frames: Seq<FrameDedupMetadata>, t: Threshold) {
    if frames.len() > 0 {
        lemma_extent_bounds(frames, t, 1);
    }
}

/// The anchor of the most recently opened cluster.
pub open spec fn last_anchor(frames: Seq<FrameDedupMetadata>, t: Threshold) -> FrameDedupMetadata
    recommends
        frames.len() > 0,
{
    spec_clusters(frames, t).last()[0]
}

/// The representative that a strategy picks from a cluster.
pub open spec fn spec_representative(
    cluster: Seq<FrameDedupMetadata>,
    strategy: SelectionStrategy,
) -> FrameDedupMetadata
    recommends
        cluster.len() > 0,
{
    match strategy {
        SelectionStrategy::First => cluster[0],
        SelectionStrategy::Middle => cluster[cluster.len() as int / 2],
        SelectionStrategy::Last => cluster[cluster.len() - 1],
    }
}

/// The destination path of slide `n`: `{dir}/slide_{n:04}.jpg`.
pub open spec fn spec_slide_path(dir: Seq<char>, n: nat) -> Seq<char> {
    dir + "/slide_"@ + dec_digits_pad4(n) + ".jpg"@
}

/// One unfolding of the cluster recursion, for use at call sites.
proof fn lemma_clusters_unfold(frames: Seq<FrameDedupMetadata>, t: Threshold)
    ensures
        frames.len() == 0 ==> spec_clusters(frames, t) == Seq::<Seq<FrameDedupMetadata>>::empty(),
        frames.len() > 0 ==> spec_clusters(frames, t) == seq![
            frames.subrange(0, cluster_extent(frames, t, 1)),
        ] + spec_clusters(
            frames.subrange(cluster_extent(frames, t, 1), frames.len() as int),
            t,
        ),
{
}

/// The scan index stays within the sequence.
pub proof fn lemma_extent_bounds(frames: Seq<FrameDedupMetadata>, t: Threshold, j: int)
    requires
        1 <= j <= frames.len(),
    ensures
        j <= cluster_extent(frames, t, j) <= frames.len(),
    decreases frames.len() - j,
{
    if j < frames.len() && similar(frames[0], frames[j], t) {
        lemma_extent_bounds(frames, t, j + 1);
    }
}

/// Appending a frame does not move a cluster boundary that closed before
/// the end, and extends or closes the final cluster by the anchor rule.
proof fn lemma_extent_push(
    frames: Seq<FrameDedupMetadata>,
    t: Threshold,
    x: FrameDedupMetadata,
    j: int,
)
    requires
        frames.len() > 0,
        1 <= j <= frames.len(),
    ensures
        cluster_extent(frames, t, j) < frames.len() ==> cluster_extent(frames.push(x), t, j)
            == cluster_extent(frames, t, j),
        cluster_extent(frames, t, j) == frames.len() ==> cluster_extent(frames.push(x), t, j) == (
        if similar(frames[0], x, t) {
            frames.len() as int + 1
        } else {
            frames.len() as int
        }),
    decreases frames.len() - j,
{
    lemma_extent_bounds(frames, t, j);
    let sp = frames.push(x);
    assert(sp[0] == frames[0]);
    if j == frames.len() {
        assert(sp[j] == x);
        if similar(frames[0], x, t) {
            assert(cluster_extent(sp, t, j + 1) == j + 1);
        }
    } else {
        assert(sp[j] == frames[j]);
        if similar(frames[0], frames[j], t) {
            lemma_extent_push(frames, t, x, j + 1);
        }
    }
}

/// A non-empty sequence yields at least one cluster, every cluster is
/// non-empty, and the first cluster starts with the first frame.
pub proof fn lemma_clusters_shape(frames: Seq<FrameDedupMetadata>, t: Threshold)
    ensures
        frames.len() == 0 ==> spec_clusters(frames, t).len() == 0,
        frames.len() > 0 ==> spec_clusters(frames, t).len() > 0,
        forall|k: int|
            0 <= k < spec_clusters(frames, t).len() ==> #[trigger] spec_clusters(frames, t)[k].len()
                > 0,
    decreases frames.len(),
{
    if frames.len() > 0 {
        let k = cluster_extent(frames, t, 1);
        lemma_extent_bounds(frames, t, 1);
        lemma_clusters_shape(frames.subrange(k, frames.len() as int), t);
    }
}

/// How the clusters change when one frame is appended: the very first frame
/// opens the first cluster; a frame similar to the open cluster's anchor
/// extends that cluster; any other frame opens a new cluster of its own.
pub proof fn lemma_clusters_push(
    frames: Seq<FrameDedupMetadata>,
    t: Threshold,
    x: FrameDedupMetadata,
)
    ensures
        frames.len() == 0 ==> spec_clusters(frames.push(x), t) == seq![seq![x]],
        frames.len() > 0 && similar(last_anchor(frames, t), x, t) ==> spec_clusters(
            frames.push(x),
            t,
        ) == spec_clusters(frames, t).update(
            spec_clusters(frames, t).len() - 1,
            spec_clusters(frames, t).last().push(x),
        ),
        frames.len() > 0 && !similar(last_anchor(frames, t), x, t) ==> spec_clusters(
            frames.push(x),
            t,
        ) == spec_clusters(frames, t).push(seq![x]),
    decreases frames.len(),
{
    let sp = frames.push(x);
    if frames.len() == 0 {
        assert(cluster_extent(sp, t, 1) == 1);
        assert(sp.subrange(0, 1) =~= seq![x]);
        assert(sp.subrange(1, 1) =~= Seq::<FrameDedupMetadata>::empty());
        assert(spec_clusters(sp, t) == seq![sp.subrange(0, 1)] + spec_clusters(
            sp.subrange(1, 1),
            t,
        ));
        assert(spec_clusters(sp.subrange(1, 1), t) == Seq::<Seq<FrameDedupMetadata>>::empty());
        assert(spec_clusters(sp, t) =~~= seq![seq![x]]);
    } else {
        let n = frames.len() as int;
        let k = cluster_extent(frames, t, 1);
        lemma_extent_bounds(frames, t, 1);
        lemma_extent_push(frames, t, x, 1);
        if k == n {
            // The whole sequence is one open cluster anchored at frames[0].
            assert(frames.subrange(0, k) =~= frames);
            assert(frames.subrange(k, n) =~= Seq::<FrameDedupMetadata>::empty());
            lemma_clusters_unfold(frames, t);
            lemma_clusters_unfold(frames.subrange(k, n), t);
            assert(spec_clusters(frames, t) =~~= seq![frames]);
            assert(last_anchor(frames, t) == frames[0]);
            if similar(frames[0], x, t) {
                assert(cluster_extent(sp, t, 1) == n + 1);
                assert(sp.subrange(0, n + 1) =~= sp);
                assert(sp.subrange(n + 1, n + 1) =~= Seq::<FrameDedupMetadata>::empty());
                lemma_clusters_unfold(sp, t);
                lemma_clusters_unfold(sp.subrange(n + 1, n + 1), t);
                assert(spec_clusters(sp, t) =~~= seq![sp]);
                assert(seq![frames].update(0, frames.push(x)) =~~= seq![sp]);
            } else {
                assert(cluster_extent(sp, t, 1) == n);
                assert(sp.subrange(0, n) =~= frames);
                lemma_clusters_push(Seq::empty(), t, x);
                assert(sp.subrange(n, n + 1) =~= Seq::<FrameDedupMetadata>::empty().push(x));
                lemma_clusters_unfold(sp, t);
                assert(spec_clusters(sp, t) =~~= seq![frames].push(seq![x]));
                assert(spec_clusters(frames, t).push(seq![x]) =~~= seq![frames].push(seq![x]));
            }
        } else {
            // The first cluster closed at k; recurse on the tail.
            let tail = frames.subrange(k, n);
            let head = frames.subrange(0, k);
            assert(tail.len() > 0);
            lemma_clusters_shape(tail, t);
            lemma_clusters_push(tail, t, x);
            assert(cluster_extent(sp, t, 1) == k);
            assert(sp.subrange(0, k) =~= head);
            assert(sp.subrange(k, n + 1) =~= tail.push(x));
            lemma_clusters_unfold(sp, t);
            lemma_clusters_unfold(frames, t);
            assert(spec_clusters(sp, t) == seq![head] + spec_clusters(tail.push(x), t));
            let ct = spec_clusters(tail, t);
            assert(spec_clusters(frames, t) == seq![head] + ct);
            assert(spec_clusters(frames, t).last() == ct.last());
            assert(last_anchor(frames, t) == last_anchor(tail, t));
            if similar(last_anchor(frames, t), x, t) {
                assert(spec_clusters(sp, t) =~~= (seq![head] + ct).update(
                    (seq![head] + ct).len() - 1,
                    ct.last().push(x),
                ));
            } else {
                assert(spec_clusters(sp, t) =~~= (seq![head] + ct).push(seq![x]));
            }
        }
    }
}

/// Groups a time-ordered, fingerprinted frame sequence into clusters of
/// near-duplicates and emits one slide per cluster.
///
/// An empty input is a failure, not an empty result: a pipeline run must
/// produce at least one slide to be useful.
pub fn handle_identify_unique_slides(command: IdentifyUniqueSlidesCommand) -> (r: DomainResult<
    (UniqueSlidesIdentified, Vec<SlidePreserved>),
>)
    requires
        command.similarity_threshold.wf(),
    ensures
        r is Err <==> command.frames@.len() == 0,
        r is Err ==> r->Err_0 is NoUniqueSlidesFound,
        r is Ok ==> ({
            let clusters = spec_clusters(command.frames@, command.similarity_threshold);
            let summary = r->Ok_0.0;
            let events = r->Ok_0.1;
            &&& summary.video_id == command.video_id
            &&& summary.slide_count == clusters.len() as u32
            &&& summary.slides_dir == command.slides_dir
            &&& events@.len() == clusters.len()
            &&& forall|k: int|
                0 <= k < events@.len() ==> {
                    let e = #[trigger] events@[k];
                    &&& e.video_id == command.video_id
                    &&& e.frame_id == spec_representative(
                        clusters[k],
                        command.selection_strategy,
                    ).frame_id
                    &&& e.slide_index == (k + 1) as u32
                    &&& e.slide_path@ == spec_slide_path(command.slides_dir@, (k + 1) as nat)
                }
        }),
{
    let t = command.similarity_threshold;
    let ghost all_frames = command.frames@;
    if command.frames.len() == 0 {
        return Err(ExtractionError::NoUniqueSlidesFound);
    }

    let mut groups: Vec<Vec<FrameDedupMetadata>> = Vec::new();
    let mut current: Vec<FrameDedupMetadata> = Vec::new();
    let mut i: usize = 0;
    while i < command.frames.len()
        invariant
            t == command.similarity_threshold,
            t.wf(),
            all_frames == command.frames@,
            0 <= i <= all_frames.len(),
            i == 0 ==> groups@.len() == 0 && current@.len() == 0,
            i > 0 ==> current@.len() > 0 && groups@.map_values(|g: Vec<FrameDedupMetadata>| g@).push(
                current@,
            ) == spec_clusters(all_frames.subrange(0, i as int), t),
        decreases all_frames.len() - i,
    {
        let ghost prefix = all_frames.subrange(0, i as int);
        let ghost gmap = groups@.map_values(|g: Vec<FrameDedupMetadata>| g@);
        proof {
            assert(all_frames.subrange(0, i + 1) =~= prefix.push(all_frames[i as int]));
            lemma_clusters_push(prefix, t, all_frames[i as int]);
            if i > 0 {
                lemma_clusters_shape(prefix, t);
                assert(spec_clusters(prefix, t).last() == current@);
                assert(last_anchor(prefix, t) == current@[0]);
            }
        }
        let frame = &command.frames[i];
        if current.len() == 0 {
            current.push(frame.clone());
            proof {
                assert(prefix.len() == 0);
                assert(groups@.map_values(|g: Vec<FrameDedupMetadata>| g@).push(current@) =~~= seq![
                    seq![all_frames[i as int]],
                ]);
            }
        } else {
            let sim = HashComparer::calculate_similarity(
                current[0].hash.as_str(),
                frame.hash.as_str(),
            );
            if sim.at_least(&t) {
                current.push(frame.clone());
                proof {
                    assert(groups@.map_values(|g: Vec<FrameDedupMetadata>| g@).push(current@)
                        =~~= spec_clusters(prefix, t).update(
                        spec_clusters(prefix, t).len() - 1,
                        spec_clusters(prefix, t).last().push(all_frames[i as int]),
                    ));
                }
            } else {
                groups.push(current);
                current = Vec::new();
                current.push(frame.clone());
                proof {
                    assert(groups@.map_values(|g: Vec<FrameDedupMetadata>| g@) =~~= gmap.push(
                        spec_clusters(prefix, t).last(),
                    ));
                    assert(groups@.map_values(|g: Vec<FrameDedupMetadata>| g@).push(current@)
                        =~~= spec_clusters(prefix, t).push(seq![all_frames[i as int]]));
                }
            }
        }
        i = i + 1;
    }
    proof {
        assert(all_frames.subrange(0, all_frames.len() as int) =~= all_frames);
    }
    groups.push(current);

    let ghost clusters = spec_clusters(all_frames, t);
    proof {
        assert(groups@.map_values(|g: Vec<FrameDedupMetadata>| g@) =~~= clusters);
        lemma_clusters_shape(all_frames, t);
    }

    let mut events: Vec<SlidePreserved> = Vec::new();
    let mut k: usize = 0;
    while k < groups.len()
        invariant
            groups@.map_values(|g: Vec<FrameDedupMetadata>| g@) == clusters,
            forall|j: int| 0 <= j < clusters.len() ==> #[trigger] clusters[j].len() > 0,
            0 <= k <= clusters.len(),
            events@.len() == k,
            forall|j: int|
                0 <= j < k ==> {
                    let e = #[trigger] events@[j];
                    &&& e.video_id == command.video_id
                    &&& e.frame_id == spec_representative(
                        clusters[j],
                        command.selection_strategy,
                    ).frame_id
                    &&& e.slide_index == (j + 1) as u32
                    &&& e.slide_path@ == spec_slide_path(command.slides_dir@, (j + 1) as nat)
                },
        decreases clusters.len() - k,
    {
        let group = &groups[k];
        proof {
            assert(group@ == clusters[k as int]);
        }
        let representative = match command.selection_strategy {
            SelectionStrategy::First => &group[0],
            SelectionStrategy::Middle => &group[group.len() / 2],
            SelectionStrategy::Last => &group[group.len() - 1],
        };
        let mut path = String::new();
        path.append(command.slides_dir.as_str());
        path.append("/slide_");
        let number = u64_to_dec_pad4((k as u64) + 1);
        path.append(number.as_str());
        path.append(".jpg");
        proof {
            assert(path@ =~= spec_slide_path(command.slides_dir@, (k + 1) as nat));
        }
        let event = SlidePreserved {
            video_id: command.video_id,
            frame_id: representative.frame_id,
            slide_index: #[verifier::truncate] ((k as u64 + 1) as u32),
            slide_path: path,
        };
        events.push(event);
        k = k + 1;
    }

    let summary = UniqueSlidesIdentified {
        video_id: command.video_id,
        slide_count: #[verifier::truncate] (groups.len() as u32),
        slides_dir: command.slides_dir,
    };
    Ok((summary, events))
}

/// Position of the first frame carrying the given identifier, or minus
/// one.
pub open spec fn spec_frame_index(
    frames: Seq<FrameDedupMetadata>,
    id: Id<VideoFrame>,
    i: int,
) -> int
    decreases frames.len() - i,
    when 0 <= i
{
    if i >= frames.len() {
        -1
    } else if frames[i].frame_id.spec_value() == id.spec_value() {
        i
    } else {
        spec_frame_index(frames, id, i + 1)
    }
}

/// Pairs preserved slides with their source frames for the copy that
/// follows outside this library.
pub struct SlideSelector;

impl SlideSelector {
    /// For each preserved slide, the path of its representative frame and
    /// the destination path of its image, in emission order.  A slide
    /// whose frame is missing from the metadata is an internal error.
    pub fn pair_slides(events: &Vec<SlidePreserved>, frames: &Vec<FrameDedupMetadata>) -> (r:
        DomainResult<Vec<(String, String)>>)
        ensures
            r is Ok <==> (forall|k: int|
                0 <= k < events@.len() ==> spec_frame_index(
                    frames@,
                    #[trigger] events@[k].frame_id,
                    0,
                ) != -1),
            r is Err ==> r->Err_0 is InternalError,
            r is Ok ==> ({
                let pairs = r->Ok_0;
                &&& pairs@.len() == events@.len()
                &&& forall|k: int|
                    0 <= k < events@.len() ==> (#[trigger] pairs@[k]).0 == frames@[spec_frame_index(
                        frames@,
                        events@[k].frame_id,
                        0,
                    )].frame_path && pairs@[k].1 == events@[k].slide_path
            }),
    {
        let mut pairs: Vec<(String, String)> = Vec::new();
        let mut k: usize = 0;
        while k < events.len()
            invariant
                0 <= k <= events@.len(),
                pairs@.len() == k,
                forall|j: int|
                    0 <= j < k ==> spec_frame_index(frames@, #[trigger] events@[j].frame_id, 0)
                        != -1,
                forall|j: int|
                    0 <= j < k ==> (#[trigger] pairs@[j]).0 == frames@[spec_frame_index(
                        frames@,
                        events@[j].frame_id,
                        0,
                    )].frame_path && pairs@[j].1 == events@[j].slide_path,
            decreases events@.len() - k,
        {
            let event = &events[k];
            let mut found: bool = false;
            let mut at: usize = 0;
            let mut i: usize = 0;
            while i < frames.len() && !found
                invariant
                    0 <= i <= frames@.len(),
                    !found ==> spec_frame_index(frames@, event.frame_id, 0) == spec_frame_index(
                        frames@,
                        event.frame_id,
                        i as int,
                    ),
                    found ==> at < frames@.len() && at == spec_frame_index(
                        frames@,
                        event.frame_id,
                        0,
                    ),
                decreases frames@.len() - i, (if found {
                    0int
                } else {
                    1int
                }),
            {
                if frames[i].frame_id.as_value() == event.frame_id.as_value() {
                    found = true;
                    at = i;
                } else {
                    i = i + 1;
                }
            }
            if !found {
                return Err(
                    ExtractionError::InternalError(
                        String::from_str("Frame ID not found in metadata"),
                    ),
                );
            }
            pairs.push((frames[at].frame_path.clone(), event.slide_path.clone()));
            k = k + 1;
        }
        Ok(pairs)
    }
}

/// A single frame always forms exactly one cluster, holding that frame.
pub proof fn lemma_group_single(frames: Seq<FrameDedupMetadata>, t: Threshold)
    requires
        frames.len() == 1,
    ensures
        spec_clusters(frames, t) == seq![frames],
{
    assert(cluster_extent(frames, t, 1) == 1);
    assert(frames.subrange(0, 1) =~= frames);
    assert(frames.subrange(1, 1) =~= Seq::<FrameDedupMetadata>::empty());
    lemma_clusters_unfold(frames, t);
    lemma_clusters_unfold(frames.subrange(1, 1), t);
    assert(spec_clusters(frames, t) =~~= seq![frames]);
}

/// When every frame is similar to the first one, the whole sequence is one
/// cluster.
pub proof fn lemma_group_all_similar(frames: Seq<FrameDedupMetadata>, t: Threshold)
    requires
        frames.len() > 0,
        forall|j: int| 1 <= j < frames.len() ==> similar(frames[0], #[trigger] frames[j], t),
    ensures
        spec_clusters(frames, t) == seq![frames],
{
    lemma_extent_all_similar(frames, t, 1);
    let n = frames.len() as int;
    assert(frames.subrange(0, n) =~= frames);
    assert(frames.subrange(n, n) =~= Seq::<FrameDedupMetadata>::empty());
    lemma_clusters_unfold(frames, t);
    lemma_clusters_unfold(frames.subrange(n, n), t);
    assert(spec_clusters(frames, t) =~~= seq![frames]);
}

proof fn lemma_extent_all_similar(frames: Seq<FrameDedupMetadata>, t: Threshold, j: int)
    requires
        1 <= j <= frames.len(),
        forall|i: int| 1 <= i < frames.len() ==> similar(frames[0], #[trigger] frames[i], t),
    ensures
        cluster_extent(frames, t, j) == frames.len(),
    decreases frames.len() - j,
{
    if j < frames.len() {
        lemma_extent_all_similar(frames, t, j + 1);
    }
}

/// When no two distinct frames are similar, every frame forms a cluster of
/// its own: one cluster per frame, in order.
pub proof fn lemma_group_none_similar(frames: Seq<FrameDedupMetadata>, t: Threshold)
    requires
        forall|i: int, j: int|
            0 <= i < j < frames.len() ==> !similar(#[trigger] frames[i], #[trigger] frames[j], t),
    ensures
        spec_clusters(frames, t).len() == frames.len(),
        forall|k: int|
            0 <= k < frames.len() ==> #[trigger] spec_clusters(frames, t)[k] == seq![frames[k]],
    decreases frames.len(),
{
    if frames.len() > 0 {
        let n = frames.len() as int;
        if frames.len() == 1 {
            lemma_group_single(frames, t);
        } else {
            assert(!similar(frames[0], frames[1], t));
            assert(cluster_extent(frames, t, 1) == 1);
            let tail = frames.subrange(1, n);
            lemma_group_none_similar(tail, t);
            assert(frames.subrange(0, 1) =~= seq![frames[0]]);
            assert(spec_clusters(frames, t) == seq![seq![frames[0]]] + spec_clusters(tail, t));
            assert forall|k: int| 0 <= k < frames.len() implies #[trigger] spec_clusters(
                frames,
                t,
            )[k] == seq![frames[k]] by {
                if k > 0 {
                    assert(spec_clusters(frames, t)[k] == spec_clusters(tail, t)[k - 1]);
                    assert(tail[k - 1] == frames[k]);
                }
            }
        }
    }
}

/// What each strategy selects from a cluster `[f1 .. fn]`: `First` returns
/// `f1`, `Last` returns `fn`, and `Middle` returns the element at index
/// `n / 2` (integer division).
pub proof fn lemma_representative_selection(
    cluster: Seq<FrameDedupMetadata>,
    strategy: SelectionStrategy,
)
    requires
        cluster.len() > 0,
    ensures
        strategy is First ==> spec_representative(cluster, strategy) == cluster[0],
        strategy is Middle ==> spec_representative(cluster, strategy) == cluster[cluster.len()
            as int / 2],
        strategy is Last ==> spec_representative(cluster, strategy) == cluster[cluster.len() - 1],
{
}

} // verus!
