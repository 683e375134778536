//! Draw-call batching: consecutive draws that share a batch key are
//! merged into one GPU submission.

use vstd::prelude::*;
use crate::vertex::Vertex;

verus! {

/// The GPU state a draw call depends on. Two draw calls may share one
/// GPU submission iff their keys are equal and they are adjacent in
/// submission order.
#[derive(Clone, Copy, Debug, PartialEq, Eq, Hash, Structural)]
pub struct BatchKey {
    /// Identifier of the texture bound for the draw.
    pub texture_id: u64,
    /// Identifier of the shader bound for the draw.
    pub shader_id: u64,
}

impl BatchKey {
    /// The key for the given texture and shader identifiers.
    pub fn new(texture_id: u64, shader_id: u64) -> (k: BatchKey)
        ensures
            k == (BatchKey { texture_id, shader_id }),
    {
        BatchKey { texture_id, shader_id }
    }
}

/// One GPU submission: the vertex and index data of a maximal run of
/// equal-keyed draw calls. Index values are offsets into `vertices`.
#[derive(Debug, PartialEq)]
pub struct Submission {
    pub key: BatchKey,
    pub vertices: Vec<Vertex>,
    pub indices: Vec<usize>,
}

/// Mathematical image of a [`Submission`].
#[verifier::ext_equal]
pub ghost struct SubmissionView {
    pub key: BatchKey,
    pub vertices: Seq<Vertex>,
    pub indices: Seq<usize>,
}

impl View for Submission {
    type V = SubmissionView;

    closed spec fn view(&self) -> SubmissionView {
        SubmissionView { key: self.key, vertices: self.vertices@, indices: self.indices@ }
    }
}

/// Mathematical image of a [`StreamRenderBuffer`]: the open batch, if
/// any, and the submissions issued so far in this frame, in order.
#[verifier::ext_equal]
pub ghost struct BatcherView {
    pub open_key: Option<BatchKey>,
    pub open_vertices: Seq<Vertex>,
    pub open_indices: Seq<usize>,
    pub submissions: Seq<SubmissionView>,
}

/// The batcher state at the start of a frame: no open batch, no
/// submissions.
pub open spec fn empty_batcher() -> BatcherView {
    BatcherView {
        open_key: None,
        open_vertices: Seq::empty(),
        open_indices: Seq::empty(),
        submissions: Seq::empty(),
    }
}

/// `indices`, each raised by `offset` — how index data is rebased when
/// it is appended behind vertices already in the open batch.
pub open spec fn offset_indices(indices: Seq<usize>, offset: nat) -> Seq<usize> {
    indices.map_values(|i: usize| ((i + offset) as usize))
}

/// What [`StreamRenderBuffer::flush`] does: an open batch becomes one
/// more submission; with no open batch nothing changes.
pub open spec fn flush_step(b: BatcherView) -> BatcherView {
    match b.open_key {
        None => b,
        Some(key) => BatcherView {
            open_key: None,
            open_vertices: Seq::empty(),
            open_indices: Seq::empty(),
            submissions: b.submissions.push(
                SubmissionView { key, vertices: b.open_vertices, indices: b.open_indices },
            ),
        },
    }
}

/// What [`StreamRenderBuffer::stream_render`] does: a draw whose key
/// matches the open batch is appended to it, with its indices rebased
/// past the vertices already there; any other draw first flushes the
/// open batch and then opens a new one under its own key.
pub open spec fn stream_step(
    b: BatcherView,
    key: BatchKey,
    vertices: Seq<Vertex>,
    indices: Seq<usize>,
) -> BatcherView {
    let base = if b.open_key == Some(key) {
        b
    } else {
        flush_step(b)
    };
    BatcherView {
        open_key: Some(key),
        open_vertices: base.open_vertices + vertices,
        open_indices: base.open_indices + offset_indices(indices, base.open_vertices.len()),
        submissions: base.submissions,
    }
}

/// Accumulates vertex and index data across consecutive draw calls
/// that share a [`BatchKey`], and turns each maximal run of equal keys
/// into exactly one GPU submission.
///
/// The backing vectors are rewritten each frame and are never shrunk
/// between frames, so their capacity grows to the high-water mark of
/// a frame's draw data and stays there.
pub struct StreamRenderBuffer {
    open_key: Option<BatchKey>,
    vertices: Vec<Vertex>,
    indices: Vec<usize>,
    submissions: Vec<Submission>,
}

impl View for StreamRenderBuffer {
    type V = BatcherView;

    closed spec fn view(&self) -> BatcherView {
        BatcherView {
            open_key: self.open_key,
            open_vertices: self.vertices@,
            open_indices: self.indices@,
            submissions: self.submissions@.map_values(|s: Submission| s@),
        }
    }
}

impl StreamRenderBuffer {
    /// A batcher with no open batch and no submissions.
    pub fn new() -> (b: StreamRenderBuffer)
        ensures
            b@ == empty_batcher(),
    {
        let b = StreamRenderBuffer {
            open_key: None,
            vertices: Vec::new(),
            indices: Vec::new(),
            submissions: Vec::new(),
        };
        proof {
            assert(b@ =~~= empty_batcher());
        }
        b
    }

    /// Drops all open data and submissions, keeping the allocated
    /// capacity. A new frame begins with no open batch, so batches
    /// never span frame boundaries.
    pub fn begin_frame(&mut self)
        ensures
            final(self)@ == empty_batcher(),
    {
        self.open_key = None;
        self.vertices.clear();
        self.indices.clear();
        self.submissions.clear();
        proof {
            assert(self@ =~~= empty_batcher());
        }
    }

    /// Submits one draw call.
    ///
    /// If the open batch has the same key, the draw's vertices are
    /// appended and its indices are appended rebased by the number of
    /// vertices already in the batch, so they keep addressing the same
    /// vertices. Otherwise the open batch (if any) is flushed first
    /// and a new batch opens under `key`.
    ///
    /// Every index must address one of the draw's own vertices.
    pub fn stream_render(
        &mut self,
        key: BatchKey,
        vertices: &Vec<Vertex>,
        indices: &Vec<usize>,
    )
        requires
            forall|i: int| 0 <= i < indices@.len() ==> indices@[i] < vertices@.len(),
        ensures
            final(self)@ == stream_step(old(self)@, key, vertices@, indices@),
    {
        let mut same = false;
        match &self.open_key {
            Some(k) => {
                if k.texture_id == key.texture_id && k.shader_id == key.shader_id {
                    same = true;
                }
            }
            None => {}
        }
        if !same {
            self.flush();
            self.open_key = Some(key);
        }
        let ghost base = self@;
        let offset = self.vertices.len();
        let mut i: usize = 0;
        while i < vertices.len()
            invariant
                i <= vertices@.len(),
                offset == base.open_vertices.len(),
                self.vertices@ == base.open_vertices + vertices@.take(i as int),
                self.open_key == base.open_key,
                self.indices@ == base.open_indices,
                self.submissions@.map_values(|s: Submission| s@) == base.submissions,
            decreases vertices@.len() - i,
        {
            self.vertices.push(vertices[i]);
            proof {
                assert(self.vertices@ =~= base.open_vertices + vertices@.take(i + 1));
            }
            i = i + 1;
        }
        proof {
            assert(vertices@.take(vertices@.len() as int) =~= vertices@);
        }
        let mut j: usize = 0;
        while j < indices.len()
            invariant
                j <= indices@.len(),
                offset == base.open_vertices.len(),
                forall|k: int| 0 <= k < indices@.len() ==> indices@[k] < vertices@.len(),
                self.vertices@ == base.open_vertices + vertices@,
                self.open_key == base.open_key,
                self.indices@ == base.open_indices + offset_indices(indices@.take(j as int), offset as nat),
                self.submissions@.map_values(|s: Submission| s@) == base.submissions,
            decreases indices@.len() - j,
        {
            let idx = indices[j];
            let total = self.vertices.len();
            assert(idx + offset < total);
            self.indices.push(idx + offset);
            proof {
                assert(offset_indices(indices@.take(j + 1), offset as nat)
                    =~= offset_indices(indices@.take(j as int), offset as nat).push(
                        ((indices@[j as int] + offset) as usize),
                    ));
                assert(self.indices@ =~= base.open_indices + offset_indices(
                    indices@.take(j + 1),
                    offset as nat,
                ));
            }
            j = j + 1;
        }
        proof {
            assert(indices@.take(indices@.len() as int) =~= indices@);
            assert(self@ =~~= stream_step(old(self)@, key, vertices@, indices@));
        }
    }

    /// Forces submission of the open batch, if any. Flushing with no
    /// open batch is a no-op, not an error. Called once at the end of
    /// every render pass before presentation.
    pub fn flush(&mut self)
        ensures
            final(self)@ == flush_step(old(self)@),
    {
        match self.open_key {
            None => {}
            Some(key) => {
                let mut batch_vertices: Vec<Vertex> = Vec::new();
                let mut batch_indices: Vec<usize> = Vec::new();
                core::mem::swap(&mut batch_vertices, &mut self.vertices);
                core::mem::swap(&mut batch_indices, &mut self.indices);
                self.open_key = None;
                self.submissions.push(Submission {
                    key,
                    vertices: batch_vertices,
                    indices: batch_indices,
                });
                proof {
                    assert(self@ =~~= flush_step(old(self)@));
                }
            }
        }
    }

    /// Hands out the submissions issued so far in this frame, leaving
    /// none behind. The open batch, if any, is untouched: callers
    /// flush first.
    pub fn take_submissions(&mut self) -> (out: Vec<Submission>)
        ensures
            out@.map_values(|s: Submission| s@) == old(self)@.submissions,
            final(self)@ == (BatcherView { submissions: Seq::empty(), ..old(self)@ }),
    {
        let mut out: Vec<Submission> = Vec::new();
        core::mem::swap(&mut out, &mut self.submissions);
        proof {
            assert(self@ =~~= (BatcherView { submissions: Seq::empty(), ..old(self)@ }));
        }
        out
    }

    /// The number of submissions issued so far in this frame.
    pub fn submission_count(&self) -> (n: usize)
        ensures
            n == self@.submissions.len(),
    {
        self.submissions.len()
    }
}

/// Whether every index of a submission addresses one of its vertices.
pub open spec fn submission_indices_wf(s: SubmissionView) -> bool {
    forall|i: int| 0 <= i < s.indices.len() ==> s.indices[i] < s.vertices.len()
}

/// Whether every index in the batcher — in the open batch and in
/// every submission — addresses a vertex of its own batch.
pub open spec fn batcher_indices_wf(b: BatcherView) -> bool {
    &&& forall|i: int| 0 <= i < b.open_indices.len() ==> b.open_indices[i]
        < b.open_vertices.len()
    &&& forall|j: int| 0 <= j < b.submissions.len() ==> submission_indices_wf(
        #[trigger] b.submissions[j],
    )
}

/// Index-rebasing law: offsetting a draw's indices by the vertices
/// already in the batch preserves their validity, through both
/// batching and flushing, for every batcher state a machine can hold.
pub proof fn lemma_offsets_preserve_index_validity(
    b: BatcherView,
    key: BatchKey,
    vertices: Seq<Vertex>,
    indices: Seq<usize>,
)
    requires
        batcher_indices_wf(b),
        forall|i: int| 0 <= i < indices.len() ==> indices[i] < vertices.len(),
        b.open_vertices.len() + vertices.len() <= usize::MAX,
    ensures
        batcher_indices_wf(flush_step(b)),
        batcher_indices_wf(stream_step(b, key, vertices, indices)),
{
    let stepped = stream_step(b, key, vertices, indices);
    let base = if b.open_key == Some(key) {
        b
    } else {
        flush_step(b)
    };
    assert forall|i: int| 0 <= i < stepped.open_indices.len() implies stepped.open_indices[i]
        < stepped.open_vertices.len() by {
        if i >= base.open_indices.len() {
            let j = i - base.open_indices.len();
            assert(stepped.open_indices[i] == offset_indices(
                indices,
                base.open_vertices.len(),
            )[j]);
        }
    }
}

/// One draw call, as the batching laws see it.
#[verifier::ext_equal]
pub ghost struct DrawView {
    pub key: BatchKey,
    pub vertices: Seq<Vertex>,
    pub indices: Seq<usize>,
}

/// The batcher state after submitting `draws` in order, starting
/// from `b`.
pub open spec fn stream_all(b: BatcherView, draws: Seq<DrawView>) -> BatcherView
    decreases draws.len(),
{
    if draws.len() == 0 {
        b
    } else {
        let prev = stream_all(b, draws.drop_last());
        stream_step(prev, draws.last().key, draws.last().vertices, draws.last().indices)
    }
}

/// The number of maximal runs of adjacent equal keys in `keys`: one
/// more than the number of adjacent-key transitions, or zero for no
/// keys at all.
pub open spec fn run_count(keys: Seq<BatchKey>) -> nat
    decreases keys.len(),
{
    if keys.len() == 0 {
        0
    } else if keys.len() == 1 {
        1
    } else {
        run_count(keys.drop_last()) + if keys[keys.len() - 1] == keys[keys.len() - 2] {
            0nat
        } else {
            1nat
        }
    }
}

/// Shape of the batcher state reached from a fresh frame: while draws
/// have been submitted, the open batch carries the key of the latest
/// draw, and the submissions issued so far cover every earlier run of
/// equal keys — one fewer than the total number of runs.
proof fn lemma_stream_all_shape(draws: Seq<DrawView>)
    ensures
        draws.len() == 0 ==> stream_all(empty_batcher(), draws) == empty_batcher(),
        draws.len() > 0 ==> stream_all(empty_batcher(), draws).open_key == Some(
            draws.last().key,
        ),
        draws.len() > 0 ==> stream_all(empty_batcher(), draws).submissions.len() + 1
            == run_count(draws.map_values(|d: DrawView| d.key)),
    decreases draws.len(),
{
    let keys = draws.map_values(|d: DrawView| d.key);
    if draws.len() == 0 {
    } else {
        lemma_stream_all_shape(draws.drop_last());
        let prev = stream_all(empty_batcher(), draws.drop_last());
        assert(keys.drop_last() =~= draws.drop_last().map_values(|d: DrawView| d.key));
        if draws.len() == 1 {
            assert(prev == empty_batcher());
            assert(run_count(keys) == 1);
        } else {
            assert(prev.open_key == Some(draws.drop_last().last().key));
            assert(draws.drop_last().last() == draws[draws.len() - 2]);
            assert(keys[keys.len() - 1] == draws.last().key);
            assert(keys[keys.len() - 2] == draws[draws.len() - 2].key);
        }
    }
}

/// The vertex data of `draws`, concatenated in call order.
pub open spec fn draws_vertices(draws: Seq<DrawView>) -> Seq<Vertex>
    decreases draws.len(),
{
    if draws.len() == 0 {
        Seq::empty()
    } else {
        draws_vertices(draws.drop_last()) + draws.last().vertices
    }
}

/// The vertex data of `subs`, concatenated in submission order.
pub open spec fn submissions_vertices(subs: Seq<SubmissionView>) -> Seq<Vertex>
    decreases subs.len(),
{
    if subs.len() == 0 {
        Seq::empty()
    } else {
        submissions_vertices(subs.drop_last()) + subs.last().vertices
    }
}

/// The submitted and still-open vertex data of a batcher state, in
/// order.
pub open spec fn batcher_vertices(b: BatcherView) -> Seq<Vertex> {
    submissions_vertices(b.submissions) + b.open_vertices
}

/// Flushing moves the open vertices behind the submitted ones and
/// loses nothing. (A state with no open batch holds no open vertices;
/// every state reachable from a fresh frame is like that.)
proof fn lemma_flush_keeps_vertices(b: BatcherView)
    requires
        b.open_key is None ==> b.open_vertices.len() == 0,
    ensures
        submissions_vertices(flush_step(b).submissions) == batcher_vertices(b),
{
    match b.open_key {
        None => {
            assert(submissions_vertices(b.submissions) + b.open_vertices =~= submissions_vertices(
                b.submissions,
            ));
        }
        Some(key) => {
            let sub = SubmissionView { key, vertices: b.open_vertices, indices: b.open_indices };
            assert(b.submissions.push(sub).drop_last() =~= b.submissions);
        }
    }
}

/// Ordering law: within one frame, draws are batched and submitted in
/// the order they were streamed. After the final flush, the
/// submissions' vertex data, concatenated in submission order, is
/// exactly the draws' vertex data concatenated in call order — nothing
/// reordered, dropped or duplicated.
pub proof fn lemma_draw_order_preserved(draws: Seq<DrawView>)
    ensures
        submissions_vertices(flush_step(stream_all(empty_batcher(), draws)).submissions)
            == draws_vertices(draws),
    decreases draws.len(),
{
    lemma_stream_order(draws);
    lemma_stream_all_shape(draws);
    lemma_flush_keeps_vertices(stream_all(empty_batcher(), draws));
}

/// Streaming keeps vertex data in call order across the submitted and
/// open batches.
proof fn lemma_stream_order(draws: Seq<DrawView>)
    ensures
        batcher_vertices(stream_all(empty_batcher(), draws)) == draws_vertices(draws),
    decreases draws.len(),
{
    if draws.len() == 0 {
        assert(batcher_vertices(empty_batcher()) =~= draws_vertices(draws));
    } else {
        lemma_stream_order(draws.drop_last());
        let prev = stream_all(empty_batcher(), draws.drop_last());
        let d = draws.last();
        let stepped = stream_step(prev, d.key, d.vertices, d.indices);
        if prev.open_key == Some(d.key) {
            assert(batcher_vertices(stepped) =~= batcher_vertices(prev) + d.vertices);
        } else {
            lemma_stream_all_shape(draws.drop_last());
            lemma_flush_keeps_vertices(prev);
            assert(flush_step(prev).open_vertices + d.vertices =~= d.vertices);
            assert(batcher_vertices(stepped) =~= batcher_vertices(prev) + d.vertices);
        }
    }
}

/// Batching law: over any sequence of draw calls into a fresh frame,
/// the batcher issues exactly one GPU submission per maximal run of
/// equal batch keys. The number of submissions after the final flush
/// equals the number of adjacent-key transitions plus one, and is zero
/// when nothing was drawn.
pub proof fn lemma_one_submission_per_run(draws: Seq<DrawView>)
    ensures
        flush_step(stream_all(empty_batcher(), draws)).submissions.len() == run_count(
            draws.map_values(|d: DrawView| d.key),
        ),
{
    lemma_stream_all_shape(draws);
    if draws.len() == 0 {
        assert(draws.map_values(|d: DrawView| d.key).len() == 0);
    }
}

} // verus!
