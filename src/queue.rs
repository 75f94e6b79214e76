use vstd::prelude::*;

verus! {

/// `VK_QUEUE_GRAPHICS_BIT`.
pub const QUEUE_GRAPHICS: u32 = 1;

/// `VK_QUEUE_COMPUTE_BIT`.
pub const QUEUE_COMPUTE: u32 = 2;

/// `VK_QUEUE_TRANSFER_BIT`.
pub const QUEUE_TRANSFER: u32 = 4;

/// `VK_QUEUE_SPARSE_BINDING_BIT`.
pub const QUEUE_SPARSE_BINDING: u32 = 8;

/// Maps to VkQueueFlagBits.
#[derive(Clone, Copy, Debug, PartialEq, Eq, Structural)]
pub enum QueueCapability {
    Graphics,
    Compute,
    Transfer,
    SparseBinding,
}

/// What a physical device reports of one of its queue families.
#[derive(Clone, Copy, Debug, PartialEq, Eq, Structural)]
pub struct QueueFamilyInfo {
    /// Index of the family within its physical device.
    pub id: u32,
    /// Number of queues the family offers.
    pub queues_count: usize,
    /// The family's `VkQueueFlags`.
    pub queue_flags: u32,
}

impl QueueFamilyInfo {
    pub open spec fn has_flag(self, flag: u32) -> bool {
        self.queue_flags & flag != 0
    }

    /// A pipeline stage is supported when the family has any of the queue
    /// flags that the stage requires.
    pub open spec fn spec_supports_stage(self, required_flags: u32) -> bool {
        self.queue_flags & required_flags != 0
    }

    pub fn supports_graphics(&self) -> (r: bool)
        ensures
            r == self.has_flag(QUEUE_GRAPHICS),
    {
        self.queue_flags & QUEUE_GRAPHICS != 0
    }

    pub fn supports_compute(&self) -> (r: bool)
        ensures
            r == self.has_flag(QUEUE_COMPUTE),
    {
        self.queue_flags & QUEUE_COMPUTE != 0
    }

    pub fn explicitly_supports_transfers(&self) -> (r: bool)
        ensures
            r == self.has_flag(QUEUE_TRANSFER),
    {
        self.queue_flags & QUEUE_TRANSFER != 0
    }

    pub fn supports_sparse_binding(&self) -> (r: bool)
        ensures
            r == self.has_flag(QUEUE_SPARSE_BINDING),
    {
        self.queue_flags & QUEUE_SPARSE_BINDING != 0
    }

    /// Whether the family can run a pipeline stage, given the queue flags the
    /// stage requires.
    pub fn supports_stage(&self, required_flags: u32) -> (r: bool)
        ensures
            r == self.spec_supports_stage(required_flags),
    {
        self.queue_flags & required_flags != 0
    }
}

/// A request for queues of one capability, similar to VkDeviceQueueCreateInfo.
/// Each priority asks for one queue; the priorities themselves stay with the
/// caller, this request only counts them.
#[derive(Clone, Debug)]
pub struct QueueCreateRequest {
    pub cap: QueueCapability,
    /// For each pipeline stage the queues must run, the queue flags it requires.
    pub stage_flags: Vec<u32>,
    /// Number of priorities, that is of queues asked for.
    pub n_priorities: usize,
}

/// One queue to create: the request it serves, the family it comes from and
/// the index of its priority within the request.
#[derive(Clone, Copy, Debug, PartialEq, Eq, Structural)]
pub struct QueueSlot {
    pub request: usize,
    pub family: u32,
    pub priority: usize,
}

/// The family can serve the request.
pub open spec fn family_serves(req: QueueCreateRequest, qf: QueueFamilyInfo) -> bool {
    match req.cap {
        QueueCapability::Graphics => qf.has_flag(QUEUE_GRAPHICS) && forall|i: int|
            0 <= i < req.stage_flags@.len() ==> #[trigger] qf.spec_supports_stage(
                req.stage_flags@[i],
            ),
        QueueCapability::Compute => qf.has_flag(QUEUE_COMPUTE),
        QueueCapability::Transfer => qf.has_flag(QUEUE_TRANSFER),
        QueueCapability::SparseBinding => qf.has_flag(QUEUE_SPARSE_BINDING),
    }
}

/// Index of the first family at or after `start` that serves the request,
/// or the number of families when none does.
pub open spec fn first_serving(
    req: QueueCreateRequest,
    families: Seq<QueueFamilyInfo>,
    start: int,
) -> int
    decreases families.len() - start,
{
    if start < 0 || start >= families.len() {
        families.len() as int
    } else if family_serves(req, families[start]) {
        start
    } else {
        first_serving(req, families, start + 1)
    }
}

pub open spec fn min_nat(a: nat, b: nat) -> nat {
    if a <= b {
        a
    } else {
        b
    }
}

/// The queues granted to a request: from the first family that serves it, one
/// per priority, as many as the family has queues. Each entry pairs the
/// family's id with the priority's index.
pub open spec fn granted_queues(req: QueueCreateRequest, families: Seq<QueueFamilyInfo>) -> Seq<
    (u32, usize),
> {
    let k = first_serving(req, families, 0);
    if k < families.len() {
        let qf = families[k];
        Seq::new(
            min_nat(req.n_priorities as nat, qf.queues_count as nat),
            |j: int| (qf.id, j as usize),
        )
    } else {
        Seq::empty()
    }
}

/// The queues granted to request number `request`, as slots.
pub open spec fn slots_of(request: usize, granted: Seq<(u32, usize)>) -> Seq<QueueSlot> {
    granted.map_values(|e: (u32, usize)| QueueSlot { request, family: e.0, priority: e.1 })
}

/// The queues granted to every request, request by request, in order.
pub open spec fn all_granted(reqs: Seq<QueueCreateRequest>, families: Seq<QueueFamilyInfo>) -> Seq<
    QueueSlot,
>
    decreases reqs.len(),
{
    if reqs.len() == 0 {
        Seq::empty()
    } else {
        all_granted(reqs.drop_last(), families) + slots_of(
            (reqs.len() - 1) as usize,
            granted_queues(reqs.last(), families),
        )
    }
}

impl QueueCreateRequest {
    /// A single graphics queue, with no particular pipeline stage.
    pub fn graphics() -> (r: QueueCreateRequest)
        ensures
            r.cap == QueueCapability::Graphics,
            r.stage_flags@.len() == 0,
            r.n_priorities == 1,
    {
        QueueCreateRequest { cap: QueueCapability::Graphics, stage_flags: Vec::new(), n_priorities: 1 }
    }
}

fn all_stages_supported(qf: &QueueFamilyInfo, stage_flags: &Vec<u32>) -> (r: bool)
    ensures
        r == forall|i: int|
            0 <= i < stage_flags@.len() ==> #[trigger] qf.spec_supports_stage(stage_flags@[i]),
{
    let mut i: usize = 0;
    while i < stage_flags.len()
        invariant
            i <= stage_flags@.len(),
            forall|j: int| 0 <= j < i ==> #[trigger] qf.spec_supports_stage(stage_flags@[j]),
        decreases stage_flags@.len() - i,
    {
        if !qf.supports_stage(stage_flags[i]) {
            return false;
        }
        i = i + 1;
    }
    true
}

fn serves(req: &QueueCreateRequest, qf: &QueueFamilyInfo) -> (r: bool)
    ensures
        r == family_serves(*req, *qf),
{
    match req.cap {
        QueueCapability::Graphics => qf.supports_graphics() && all_stages_supported(
            qf,
            &req.stage_flags,
        ),
        QueueCapability::Compute => qf.supports_compute(),
        QueueCapability::Transfer => qf.explicitly_supports_transfers(),
        QueueCapability::SparseBinding => qf.supports_sparse_binding(),
    }
}

/// Queues for one request: taken from the first family that serves it, one per
/// priority up to the family's queue count, as (family id, priority index).
/// Empty when no family serves the request.
pub fn make_queue_request(req: &QueueCreateRequest, families: &Vec<QueueFamilyInfo>) -> (r: Vec<
    (u32, usize),
>)
    ensures
        r@ == granted_queues(*req, families@),
{
    let mut i: usize = 0;
    while i < families.len()
        invariant
            i <= families@.len(),
            first_serving(*req, families@, 0) == first_serving(*req, families@, i as int),
        decreases families@.len() - i,
    {
        let qf = &families[i];
        if serves(req, qf) {
            let n: usize = if req.n_priorities <= qf.queues_count {
                req.n_priorities
            } else {
                qf.queues_count
            };
            let mut out: Vec<(u32, usize)> = Vec::new();
            let mut j: usize = 0;
            while j < n
                invariant
                    j <= n,
                    out@ =~= Seq::new(j as nat, |p: int| (qf.id, p as usize)),
                decreases n - j,
            {
                out.push((qf.id, j));
                j = j + 1;
            }
            assert(out@ =~= granted_queues(*req, families@));
            return out;
        }
        i = i + 1;
    }
    assert(granted_queues(*req, families@) =~= Seq::empty());
    Vec::new()
}

/// The queues that a device is created with: each request's grant from
/// [make_queue_request], one after the other.
pub fn queue_requests(reqs: &Vec<QueueCreateRequest>, families: &Vec<QueueFamilyInfo>) -> (r: Vec<
    QueueSlot,
>)
    ensures
        r@ == all_granted(reqs@, families@),
{
    let mut out: Vec<QueueSlot> = Vec::new();
    let mut k: usize = 0;
    while k < reqs.len()
        invariant
            k <= reqs@.len(),
            out@ == all_granted(reqs@.subrange(0, k as int), families@),
        decreases reqs@.len() - k,
    {
        let granted = make_queue_request(&reqs[k], families);
        let ghost before = out@;
        let mut j: usize = 0;
        while j < granted.len()
            invariant
                j <= granted@.len(),
                out@ =~= before + slots_of(k, granted@.subrange(0, j as int)),
            decreases granted@.len() - j,
        {
            let (family, priority) = granted[j];
            out.push(QueueSlot { request: k, family, priority });
            j = j + 1;
        }
        assert(granted@.subrange(0, granted@.len() as int) =~= granted@);
        assert(reqs@.subrange(0, k + 1).drop_last() =~= reqs@.subrange(0, k as int));
        k = k + 1;
    }
    assert(reqs@.subrange(0, reqs@.len() as int) =~= reqs@);
    out
}

} // verus!
