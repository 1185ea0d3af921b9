use vstd::prelude::*;

use std::collections::VecDeque;

use crate::buffer::{ensure_spec, GrowableBuffer, MIN_CAPACITY};
use crate::bytes::{le_bytes, lemma_le_bytes_append, push_words_le, read_words_le};

verus! {

/// Threads per compute workgroup.
pub const WORKGROUP_SIZE: usize = 64;

/// Bytes per result record in the results and readback buffers.
pub const RESULT_SIZE: usize = 4;

/// A normalized 2-D query point, each coordinate held as its
/// single-precision bit pattern.
#[derive(Clone, Copy, Debug, PartialEq, Eq, Structural)]
pub struct Vec2Bits {
    pub x: u32,
    pub y: u32,
}

/// A batch of points whose signed distance a caller wants, under an id that
/// ties the reply to the caller's reply channel.
#[derive(Clone, Debug)]
pub struct SdfEvaluationRequest {
    pub points: Vec<Vec2Bits>,
    pub id: u64,
}

/// The signed distance at one point, as a single-precision bit pattern.
#[derive(Clone, Copy, Debug, PartialEq, Eq, Structural)]
pub struct SdfResult {
    pub distance: u32,
}

/// The answer to one request: one result per point, in the order of the
/// points, or no result at all when the readback failed.
#[derive(Clone, Debug)]
pub struct SdfEvaluationResponse {
    pub results: Vec<SdfResult>,
    pub id: u64,
}

/// What became of a submitted request.
#[derive(Clone, Copy, Debug, PartialEq, Eq, Structural)]
pub enum Submission {
    /// A request without points is dropped: no GPU work and no reply.
    Dropped,
    /// Queued behind the requests accepted before it.
    Queued,
}

/// The GPU work of one frame for the request at the head of the queue:
/// recreate the query, results and readback buffers with `grow_to` points
/// when it is set, upload the points at offset 0, dispatch the compute pass,
/// copy the results to the readback buffer, then ask for the readback
/// mapping.
#[derive(Clone, Debug)]
pub struct Dispatch {
    pub id: u64,
    pub grow_to: Option<usize>,
    pub point_count: usize,
    pub upload: Vec<u8>,
    pub workgroups: usize,
    pub copy_bytes: usize,
}

/// The words of a point in the query buffer.
pub open spec fn points_words(ps: Seq<Vec2Bits>) -> Seq<u32>
    decreases ps.len(),
{
    if ps.len() == 0 {
        Seq::empty()
    } else {
        points_words(ps.drop_last()) + seq![ps.last().x, ps.last().y]
    }
}

/// The distance words of a sequence of results.
pub open spec fn result_words(rs: Seq<SdfResult>) -> Seq<u32> {
    rs.map_values(|r: SdfResult| r.distance)
}

/// Ids of the requests in a queue, front first.
pub open spec fn queue_ids(q: Seq<SdfEvaluationRequest>) -> Seq<u64> {
    q.map_values(|r: SdfEvaluationRequest| r.id)
}

/// The largest point count among `q` (0 for none).
pub open spec fn max_points(q: Seq<SdfEvaluationRequest>) -> nat
    decreases q.len(),
{
    if q.len() == 0 {
        0
    } else {
        let m = max_points(q.drop_last());
        let c = q.last().points@.len();
        if c > m {
            c
        } else {
            m
        }
    }
}

/// Largest point count a request may hold: a `Vec` of 8-byte points never
/// holds more.
pub open spec fn max_request_points() -> nat {
    (usize::MAX / 8) as nat
}

/// The bytes of the query-points buffer for these points.
pub fn encode_points(ps: &Vec<Vec2Bits>) -> (r: Vec<u8>)
    ensures
        r@ == le_bytes(points_words(ps@)),
{
    let mut out: Vec<u8> = Vec::new();
    let mut i: usize = 0;
    while i < ps.len()
        invariant
            0 <= i <= ps@.len(),
            out@ == le_bytes(points_words(ps@.take(i as int))),
        decreases ps@.len() - i,
    {
        let p = ps[i];
        let mut w: Vec<u32> = Vec::new();
        w.push(p.x);
        w.push(p.y);
        proof {
            assert(w@ =~= seq![p.x, p.y]);
            assert(ps@.take(i as int + 1).drop_last() =~= ps@.take(i as int));
            lemma_le_bytes_append(points_words(ps@.take(i as int)), seq![p.x, p.y]);
        }
        push_words_le(&mut out, w.as_slice());
        i = i + 1;
    }
    proof {
        assert(ps@.take(i as int) =~= ps@);
    }
    out
}

/// Decodes the first `count` result records of a mapped readback buffer.
/// Returns no result at all when the buffer is too short to hold them.
pub fn decode_results(mapped: &[u8], count: usize) -> (r: Vec<SdfResult>)
    ensures
        count <= mapped@.len() / 4 ==> {
            &&& r@.len() == count
            &&& le_bytes(result_words(r@)) == mapped@.subrange(0, 4 * count as int)
        },
        count > mapped@.len() / 4 ==> r@.len() == 0,
{
    if count > mapped.len() / RESULT_SIZE {
        return Vec::new();
    }
    let words = read_words_le(mapped, count);
    let mut out: Vec<SdfResult> = Vec::new();
    let mut k: usize = 0;
    while k < words.len()
        invariant
            0 <= k <= words@.len(),
            out@.len() == k,
            forall|j: int| 0 <= j < k ==> #[trigger] out@[j].distance == words@[j],
        decreases words@.len() - k,
    {
        out.push(SdfResult { distance: words[k] });
        k = k + 1;
    }
    assert(result_words(out@) =~= words@);
    out
}

/// The asynchronous point-evaluation pipeline: a FIFO of requests waiting
/// for the GPU, and a single slot for the request whose readback mapping is
/// outstanding. At most one mapping is ever outstanding, and requests are
/// served in the order they were accepted.
pub struct EvaluationPipeline {
    pub queue: VecDeque<SdfEvaluationRequest>,
    pub in_flight: Option<SdfEvaluationRequest>,
    /// Capacity of the query, results and readback buffers, in points.
    pub capacity: GrowableBuffer,
    /// Ids of the accepted requests, in order of acceptance.
    pub accepted: Ghost<Seq<u64>>,
    /// Ids of the requests sent to the GPU, in order of dispatch.
    pub started: Ghost<Seq<u64>>,
    /// Ids of the requests answered, in order of reply.
    pub delivered: Ghost<Seq<u64>>,
}

impl EvaluationPipeline {
    /// A request the queue may hold: it has points, and no more than memory
    /// can hold.
    pub open spec fn request_ok(r: SdfEvaluationRequest) -> bool {
        0 < r.points@.len() <= max_request_points()
    }

    /// The buffers are allocated and hold the request in flight; every
    /// held request has points; the ids accepted are those sent to the GPU
    /// followed by those still queued; the ids answered are those sent,
    /// but for the one whose mapping is outstanding.
    pub open spec fn wf(&self) -> bool {
        &&& self.capacity.wf()
        &&& self.capacity.allocated
        &&& self.capacity.capacity <= usize::MAX / 4
        &&& forall|i: int| 0 <= i < self.queue@.len() ==> Self::request_ok(#[trigger] self.queue@[i])
        &&& self.in_flight matches Some(r) ==> {
            &&& Self::request_ok(r)
            &&& r.points@.len() <= self.capacity.capacity
            &&& self.started@ == self.delivered@.push(r.id)
        }
        &&& self.in_flight is None ==> self.started@ == self.delivered@
        &&& self.accepted@ == self.started@ + queue_ids(self.queue@)
    }

    /// An idle pipeline whose buffers hold `MIN_CAPACITY` points.
    pub fn new() -> (r: EvaluationPipeline)
        ensures
            r.wf(),
            r.queue@.len() == 0,
            r.in_flight is None,
            r.capacity.capacity == MIN_CAPACITY,
            r.accepted@.len() == 0,
    {
        let r = EvaluationPipeline {
            queue: VecDeque::new(),
            in_flight: None,
            capacity: GrowableBuffer::with_capacity(MIN_CAPACITY),
            accepted: Ghost(Seq::empty()),
            started: Ghost(Seq::empty()),
            delivered: Ghost(Seq::empty()),
        };
        assert(r.accepted@ =~= r.started@ + queue_ids(r.queue@));
        r
    }

    /// Accepts a request from the intake queue. A request without points is
    /// dropped; any other joins the back of the queue.
    pub fn submit(&mut self, request: SdfEvaluationRequest) -> (r: Submission)
        requires
            old(self).wf(),
            request.points@.len() <= max_request_points(),
        ensures
            final(self).wf(),
            final(self).in_flight == old(self).in_flight,
            final(self).started == old(self).started,
            final(self).delivered == old(self).delivered,
            final(self).capacity == old(self).capacity,
            request.points@.len() == 0 ==> r == Submission::Dropped && *final(self) == *old(self),
            request.points@.len() > 0 ==> {
                &&& r == Submission::Queued
                &&& final(self).queue@ == old(self).queue@.push(request)
                &&& final(self).accepted@ == old(self).accepted@.push(request.id)
            },
    {
        if request.points.len() == 0 {
            return Submission::Dropped;
        }
        let ghost old_queue = self.queue@;
        let ghost id = request.id;
        self.queue.push_back(request);
        self.accepted = Ghost(self.accepted@.push(id));
        proof {
            assert(queue_ids(self.queue@) =~= queue_ids(old_queue).push(id));
            assert(self.accepted@ =~= self.started@ + queue_ids(self.queue@));
            assert forall|i: int| 0 <= i < self.queue@.len() implies Self::request_ok(
                #[trigger] self.queue@[i],
            ) by {
                if i < old_queue.len() {
                    assert(self.queue@[i] == old_queue[i]);
                }
            }
        }
        Submission::Queued
    }

    /// Whether a readback mapping is outstanding.
    pub fn has_outstanding_mapping(&self) -> (r: bool)
        ensures
            r == self.in_flight is Some,
    {
        self.in_flight.is_some()
    }

    /// Number of requests waiting for the GPU.
    pub fn pending_count(&self) -> (r: usize)
        ensures
            r == self.queue@.len(),
    {
        self.queue.len()
    }

    fn max_pending_points(&self) -> (r: usize)
        requires
            self.wf(),
        ensures
            r == max_points(self.queue@),
            r <= max_request_points(),
    {
        let mut m: usize = 0;
        let mut i: usize = 0;
        while i < self.queue.len()
            invariant
                self.wf(),
                0 <= i <= self.queue@.len(),
                m == max_points(self.queue@.take(i as int)),
                m <= max_request_points(),
            decreases self.queue@.len() - i,
        {
            let c = self.queue[i].points.len();
            proof {
                assert(self.queue@.take(i as int + 1).drop_last() =~= self.queue@.take(i as int));
                assert(Self::request_ok(self.queue@[i as int]));
            }
            if c > m {
                m = c;
            }
            i = i + 1;
        }
        proof {
            assert(self.queue@.take(i as int) =~= self.queue@);
        }
        m
    }

    /// The GPU work of this frame. Only when no mapping is outstanding and a
    /// request waits: the head of the queue leaves it, the buffers grow when
    /// they cannot hold its points (no GPU work uses them at that moment),
    /// its points are uploaded, and the dispatch covers the largest request
    /// among those pending. While a mapping is outstanding nothing is
    /// uploaded, so the query buffer keeps the points of the request being
    /// read back.
    pub fn begin_dispatch(&mut self) -> (r: Option<Dispatch>)
        requires
            old(self).wf(),
        ensures
            final(self).wf(),
            final(self).accepted == old(self).accepted,
            final(self).delivered == old(self).delivered,
            (old(self).in_flight is Some || old(self).queue@.len() == 0) ==> r is None && *final(self) == *old(self),
            (old(self).in_flight is None && old(self).queue@.len() > 0) ==> {
                let head = old(self).queue@[0];
                &&& final(self).capacity == ensure_spec(old(self).capacity, head.points@.len())
                &&& r matches Some(d) && {
                    &&& d.id == head.id
                    &&& (d.grow_to is Some <==> head.points@.len() > old(self).capacity.capacity)
                    &&& d.grow_to matches Some(c) ==> c == final(self).capacity.capacity
                    &&& d.point_count == head.points@.len()
                    &&& d.upload@ == le_bytes(points_words(head.points@))
                    &&& d.workgroups as int == (max_points(old(self).queue@) + 63) / 64
                    &&& d.copy_bytes == 4 * final(self).capacity.capacity
                }
                &&& final(self).in_flight == Some(head)
                &&& final(self).queue@ == old(self).queue@.subrange(1, old(self).queue@.len() as int)
                &&& final(self).started@ == old(self).started@.push(head.id)
            },
    {
        if self.in_flight.is_some() || self.queue.len() == 0 {
            return None;
        }
        let max = self.max_pending_points();
        let ghost old_queue = self.queue@;
        let head = match self.queue.pop_front() {
            Some(h) => h,
            None => {
                return None;
            },
        };
        proof {
            assert(Self::request_ok(old_queue[0]));
        }
        let grow_to = self.capacity.ensure_capacity(head.points.len());
        let upload = encode_points(&head.points);
        let d = Dispatch {
            id: head.id,
            grow_to,
            point_count: head.points.len(),
            upload,
            workgroups: (max + 63) / WORKGROUP_SIZE,
            copy_bytes: RESULT_SIZE * self.capacity.capacity,
        };
        proof {
            assert(queue_ids(old_queue) =~= seq![head.id] + queue_ids(self.queue@));
            assert forall|i: int| 0 <= i < self.queue@.len() implies Self::request_ok(
                #[trigger] self.queue@[i],
            ) by {
                assert(self.queue@[i] == old_queue[i + 1]);
            }
        }
        self.started = Ghost(self.started@.push(head.id));
        self.in_flight = Some(head);
        proof {
            assert(self.accepted@ =~= self.started@ + queue_ids(self.queue@));
        }
        Some(d)
    }

    /// The outstanding mapping has completed. `mapped` holds the mapped
    /// readback buffer, or `None` when the mapping failed. The request in
    /// flight gets its reply: one result per point, in the order of its
    /// points, when the buffer holds them all, and no result otherwise.
    /// The slot is then free for the next request. Without an outstanding
    /// mapping nothing happens.
    pub fn complete_mapping(&mut self, mapped: Option<&[u8]>) -> (r: Option<SdfEvaluationResponse>)
        requires
            old(self).wf(),
        ensures
            final(self).wf(),
            final(self).queue@ == old(self).queue@,
            final(self).capacity == old(self).capacity,
            final(self).accepted == old(self).accepted,
            final(self).started == old(self).started,
            final(self).delivered == final(self).started,
            final(self).in_flight is None,
            old(self).in_flight is None ==> r is None && *final(self) == *old(self),
            old(self).in_flight matches Some(req) ==> final(self).delivered@ == old(self).delivered@.push(req.id),
            old(self).in_flight matches Some(req) ==> r matches Some(resp) && {
                &&& resp.id == req.id
                &&& match mapped {
                    Some(bytes) => if req.points@.len() <= bytes@.len() / 4 {
                        &&& resp.results@.len() == req.points@.len()
                        &&& le_bytes(result_words(resp.results@)) == bytes@.subrange(0, 4 * req.points@.len() as int)
                    } else {
                        resp.results@.len() == 0
                    },
                    None => resp.results@.len() == 0,
                }
            },
    {
        let req = match self.in_flight.take() {
            None => {
                return None;
            },
            Some(req) => req,
        };
        self.delivered = Ghost(self.delivered@.push(req.id));
        let results = match mapped {
            Some(bytes) => decode_results(bytes, req.points.len()),
            None => Vec::new(),
        };
        Some(SdfEvaluationResponse { results, id: req.id })
    }
}

/// Requests are served strictly in the order they were accepted, one at a
/// time: the ids answered so far are the first ids accepted, in the same
/// order; the ids sent to the GPU are those plus at most one more, the
/// request whose mapping is outstanding.
pub proof fn lemma_served_in_submission_order(p: &EvaluationPipeline)
    requires
        p.wf(),
    ensures
        p.delivered@.len() <= p.started@.len() <= p.accepted@.len(),
        p.accepted@.subrange(0, p.delivered@.len() as int) == p.delivered@,
        p.accepted@.subrange(0, p.started@.len() as int) == p.started@,
        p.in_flight is None ==> p.started@ == p.delivered@,
        p.in_flight matches Some(r) ==> p.started@ == p.delivered@.push(r.id),
{
    assert(p.accepted@.subrange(0, p.started@.len() as int) =~= p.started@);
    assert(p.accepted@.subrange(0, p.delivered@.len() as int) =~= p.delivered@);
}

/// Round trip: the request in flight always fits the readback buffer, so a
/// completed mapping of the whole buffer (the `copy_bytes` of its dispatch)
/// holds one result for each of its points; and the request has at least
/// one point, since requests without points are dropped on submission.
pub proof fn lemma_readback_covers_request(p: &EvaluationPipeline, mapped: Seq<u8>)
    requires
        p.wf(),
        p.in_flight is Some,
        mapped.len() == 4 * p.capacity.capacity,
    ensures
        0 < p.in_flight->Some_0.points@.len() <= mapped.len() / 4,
{
}

} // verus!
