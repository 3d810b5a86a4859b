//! Rate limits and the schedule of a batch of fetches.

use vstd::prelude::*;

verus! {

/// A span of time, in whole seconds and nanoseconds.
#[derive(Clone, Copy, Debug, PartialEq, Eq, Structural)]
pub struct Interval {
    pub secs: u64,
    pub nanos: u32,
}

impl Interval {
    /// A span of `secs` seconds.
    pub fn from_secs(secs: u64) -> (interval: Self)
        ensures
            interval == (Interval { secs, nanos: 0 }),
    {
        Interval { secs, nanos: 0 }
    }
}

/// At most `max_items` fetches per `window`.
#[derive(Clone, Copy, Debug)]
pub struct RateLimit {
    max_items: usize,
    window: Interval,
}

/// The mathematical value of a [`RateLimit`].
pub struct RateLimitView {
    pub max_items: nat,
    pub window: Interval,
}

impl View for RateLimit {
    type V = RateLimitView;

    closed spec fn view(&self) -> RateLimitView {
        RateLimitView { max_items: self.max_items as nat, window: self.window }
    }
}

impl RateLimit {
    /// A rate limit lets at least one fetch through per window.
    #[verifier::type_invariant]
    spec fn well_formed(&self) -> bool {
        self.max_items > 0
    }

    /// A limit of `max_items` fetches per `window`.
    pub fn new(max_items: usize, window: Interval) -> (limit: Self)
        requires
            max_items > 0,
        ensures
            limit@ == (RateLimitView { max_items: max_items as nat, window }),
    {
        RateLimit { max_items, window }
    }

    /// How many fetches may run in one window; never zero.
    pub fn max_items(&self) -> (n: usize)
        ensures
            n == self@.max_items,
            n > 0,
    {
        proof {
            use_type_invariant(self);
        }
        self.max_items
    }

    /// The time between the end of one chunk and the start of the next.
    pub fn window(&self) -> (window: Interval)
        ensures
            window == self@.window,
    {
        self.window
    }
}

/// The value of an optional rate limit.
pub open spec fn limit_view(limit: Option<RateLimit>) -> Option<RateLimitView> {
    match limit {
        Some(l) => Some(l@),
        None => None,
    }
}

/// One wave of a batch: the descriptors from `start` up to `end`, which run
/// together, and whether the batch pauses for a window after the wave.
#[derive(Clone, Copy, Debug, PartialEq, Eq, Structural)]
pub struct Chunk {
    pub start: usize,
    pub end: usize,
    pub pause: bool,
}

/// The mathematical value of a [`Chunk`].
pub struct ChunkView {
    pub start: nat,
    pub end: nat,
    pub pause: bool,
}

impl View for Chunk {
    type V = ChunkView;

    open spec fn view(&self) -> ChunkView {
        ChunkView { start: self.start as nat, end: self.end as nat, pause: self.pause }
    }
}

/// The values of a sequence of chunks.
pub open spec fn chunk_views(chunks: Seq<Chunk>) -> Seq<ChunkView> {
    Seq::new(chunks.len(), |i: int| chunks[i]@)
}

/// The number of chunks of at most `size` that `total` descriptors fall
/// into: `total / size`, rounded up.
pub open spec fn chunk_count(total: nat, size: nat) -> nat
    recommends
        size > 0,
{
    ((total + size - 1) / (size as int)) as nat
}

/// The `k`-th chunk of `total` descriptors in chunks of `size`: `size`
/// descriptors from `k * size` on, or as many as are left; a pause follows
/// every chunk but the last.
pub open spec fn chunk_at(total: nat, size: nat, k: int) -> ChunkView {
    ChunkView {
        start: (k * size) as nat,
        end: if (k + 1) * size <= total {
            ((k + 1) * size) as nat
        } else {
            total
        },
        pause: k + 1 < chunk_count(total, size),
    }
}

/// The schedule of a batch of `total` descriptors. Without a limit one wave
/// holds them all. With a limit of N per window they run in consecutive
/// chunks of N, each chunk after the one before it has ended, with a pause
/// of one window between two chunks and none after the last.
pub open spec fn schedule(total: nat, limit: Option<RateLimitView>) -> Seq<ChunkView> {
    match limit {
        None => seq![ChunkView { start: 0, end: total, pause: false }],
        Some(l) => Seq::new(chunk_count(total, l.max_items), |k: int| chunk_at(total, l.max_items, k)),
    }
}

/// The number of pauses in a schedule.
pub open spec fn pause_count(chunks: Seq<ChunkView>) -> nat
    decreases chunks.len(),
{
    if chunks.len() == 0 {
        0
    } else {
        pause_count(chunks.drop_last()) + if chunks.last().pause {
            1nat
        } else {
            0nat
        }
    }
}

proof fn lemma_chunk_count(total: nat, size: nat, k: nat)
    requires
        size > 0,
        k * size >= total,
        k > 0 ==> (k - 1) * size < total,
    ensures
        chunk_count(total, size) == k,
{
    let q = (total + size - 1) / (size as int);
    vstd::arithmetic::div_mod::lemma_fundamental_div_mod((total + size - 1) as int, size as int);
    vstd::arithmetic::div_mod::lemma_mod_bound((total + size - 1) as int, size as int);
    let r = (total + size - 1) % (size as int);
    assert(total + size - 1 == size * q + r);
    assert(q == k) by (nonlinear_arith)
        requires
            total + size - 1 == size * q + r,
            0 <= r < size,
            size > 0,
            k * size >= total,
            k > 0 ==> (k - 1) * size < total,
            total >= 0,
            k >= 0,
    ;
}

/// Lays out the schedule of a batch of `total` descriptors.
pub fn plan_chunks(total: usize, limit: Option<RateLimit>) -> (chunks: Vec<Chunk>)
    ensures
        chunk_views(chunks@) == schedule(total as nat, limit_view(limit)),
{
    let mut chunks: Vec<Chunk> = Vec::new();
    match limit {
        None => {
            chunks.push(Chunk { start: 0, end: total, pause: false });
            assert(chunk_views(chunks@) =~= schedule(total as nat, None));
        },
        Some(l) => {
            let size = l.max_items();
            let mut start: usize = 0;
            assert(chunks.len() * size == 0) by (nonlinear_arith)
                requires
                    chunks.len() == 0,
            ;
            while start < total
                invariant
                    size > 0,
                    size == l@.max_items,
                    start <= total,
                    start == total || start == chunks.len() * size,
                    chunks.len() * size >= start,
                    chunks.len() > 0 ==> (chunks.len() - 1) * size < total,
                    forall|k: int|
                        0 <= k < chunks.len() ==> (#[trigger] chunks@[k])@.start == k * size
                            && chunks@[k]@.end == (if (k + 1) * size <= total {
                            (k + 1) * size
                        } else {
                            total as int
                        }) && chunks@[k].pause == ((k + 1) * size < total),
                decreases total - start,
            {
                let ghost k = chunks.len() as int;
                assert((k + 1) * size == k * size + size) by (nonlinear_arith);
                let end: usize = if total - start <= size {
                    total
                } else {
                    start + size
                };
                chunks.push(Chunk { start, end, pause: end < total });
                start = end;
            }
            proof {
                let n = chunks.len() as nat;
                lemma_chunk_count(total as nat, size as nat, n);
                assert forall|k: int| 0 <= k < n implies chunks@[k]@ == chunk_at(
                    total as nat,
                    size as nat,
                    k,
                ) by {
                    lemma_chunk_exists(total as nat, size as nat, k + 1);
                }
                assert(chunk_views(chunks@) =~= schedule(total as nat, Some(l@)));
            }
        },
    }
    chunks
}

/// There is a `k`-th chunk exactly where more than `k * size` descriptors
/// are to be fetched.
pub proof fn lemma_chunk_exists(total: nat, size: nat, k: int)
    requires
        size > 0,
        0 <= k,
    ensures
        (k < chunk_count(total, size)) == (k * size < total),
{
    let q = (total + size - 1) / (size as int);
    vstd::arithmetic::div_mod::lemma_fundamental_div_mod((total + size - 1) as int, size as int);
    vstd::arithmetic::div_mod::lemma_mod_bound((total + size - 1) as int, size as int);
    let r = (total + size - 1) % (size as int);
    assert((k < q) == (k * size < total)) by (nonlinear_arith)
        requires
            total + size - 1 == size * q + r,
            0 <= r < size,
            size > 0,
            0 <= k,
    ;
}

/// Under a rate limit the chunks of a schedule follow one another without
/// gap or overlap from the first descriptor to the last, none is empty and
/// none holds more than the limit allows.
pub proof fn lemma_schedule_partitions(total: nat, limit: RateLimitView)
    requires
        limit.max_items > 0,
    ensures
        ({
            let s = schedule(total, Some(limit));
            &&& s.len() == chunk_count(total, limit.max_items)
            &&& (s.len() == 0) == (total == 0)
            &&& s.len() > 0 ==> s[0].start == 0 && s.last().end == total
            &&& forall|k: int|
                0 <= k < s.len() ==> (#[trigger] s[k]).start < s[k].end <= total && s[k].end
                    - s[k].start <= limit.max_items
            &&& forall|k: int| 0 < k < s.len() ==> (#[trigger] s[k]).start == s[k - 1].end
        }),
{
    let size = limit.max_items;
    let s = schedule(total, Some(limit));
    lemma_chunk_exists(total, size, 0);
    assert(0 * size == 0) by (nonlinear_arith);
    assert forall|k: int| 0 <= k < s.len() implies (#[trigger] s[k]).start < s[k].end <= total
        && s[k].end - s[k].start <= size by {
        lemma_chunk_exists(total, size, k);
        assert((k + 1) * size == k * size + size) by (nonlinear_arith);
    }
    assert forall|k: int| 0 < k < s.len() implies (#[trigger] s[k]).start == s[k - 1].end by {
        lemma_chunk_exists(total, size, k);
        assert((k - 1 + 1) * size == k * size);
    }
    if s.len() > 0 {
        let last = s.len() - 1;
        lemma_chunk_exists(total, size, last + 1);
        assert((last + 1) * size == last * size + size) by (nonlinear_arith);
    }
}

/// A schedule pauses after every chunk but the last: once less than it has
/// chunks, and never without a rate limit.
pub proof fn lemma_schedule_pauses(total: nat, limit: Option<RateLimitView>)
    requires
        limit matches Some(l) ==> l.max_items > 0,
    ensures
        ({
            let s = schedule(total, limit);
            &&& forall|k: int| 0 <= k < s.len() ==> (#[trigger] s[k]).pause == (k + 1 < s.len())
            &&& pause_count(s) == if s.len() == 0 {
                0
            } else {
                s.len() - 1
            }
        }),
{
    let s = schedule(total, limit);
    lemma_pauses_of_prefix(s, s.len());
    assert(s.take(s.len() as int) =~= s);
}

proof fn lemma_pauses_of_prefix(s: Seq<ChunkView>, n: nat)
    requires
        n <= s.len(),
        forall|k: int| 0 <= k < s.len() ==> (#[trigger] s[k]).pause == (k + 1 < s.len()),
    ensures
        pause_count(s.take(n as int)) == if n == s.len() && n > 0 {
            n - 1
        } else {
            n as int
        },
    decreases n,
{
    if n > 0 {
        lemma_pauses_of_prefix(s, (n - 1) as nat);
        assert(s.take(n as int).drop_last() =~= s.take(n - 1));
    }
}

} // verus!
