use vstd::prelude::*;

use crate::process::Process;

verus! {

/// State marker of committed storage (the host's `MEM_COMMIT`).
pub const MEM_COMMIT: u32 = 0x1000;

/// State marker of reserved but uncommitted address space (`MEM_RESERVE`).
pub const MEM_RESERVE: u32 = 0x2000;

/// State marker of free address space (`MEM_FREE`).
pub const MEM_FREE: u32 = 0x10000;

/// One contiguous range of a target's virtual address space with uniform
/// protection and state, as the operating system's memory query reports it:
/// base address, size in bytes, protection flags, and the state marker.
/// Plain value data: a region outlives the handle that produced it.
#[derive(Clone, Copy, Debug, PartialEq, Eq, Structural)]
pub struct MemoryRegion {
    pub base: usize,
    pub size: usize,
    pub protect: u32,
    pub state: u32,
}

impl MemoryRegion {
    /// The first address past the region.
    pub open spec fn end(self) -> int {
        self.base + self.size
    }

    /// Whether the region is committed storage, the only kind whose bytes
    /// can be read.
    pub fn is_committed(&self) -> (r: bool)
        ensures
            r == (self.state == MEM_COMMIT),
    {
        self.state == MEM_COMMIT
    }
}

/// What the operating system answered to one query-virtual-memory call: a
/// region descriptor, or no information. `End` stands for an answer of zero
/// bytes written as well as for an explicitly failed call: both mean the
/// queried address is past anything the system can describe, so both close
/// the walk normally instead of raising an error.
#[derive(Clone, Copy, Debug, PartialEq, Eq, Structural)]
pub enum QueryResponse {
    End,
    Region { region: MemoryRegion },
}

/// A finite walk over a target's virtual-memory regions.
///
/// The walk starts at address zero and advances past each reported region.
/// The original flaw this type exists to rule out is a walk that never
/// stops: here every accepted region strictly raises the cursor (regions are
/// nonempty and start at or after it), and every other answer — end of
/// range, a failed query, a zero-sized region, or a descriptor that would
/// run backwards or past the top of the address space — closes the walk.
/// The cursor can only climb toward the top of the address space, so the
/// walk ends in finitely many steps.
pub struct RegionWalk {
    base: usize,
    done: bool,
    regions: Vec<MemoryRegion>,
}

impl RegionWalk {
    /// The address the next query should ask about.
    pub closed spec fn spec_base(self) -> usize {
        self.base
    }

    /// Whether the walk has closed.
    pub closed spec fn spec_done(self) -> bool {
        self.done
    }

    /// The regions collected so far, in the order they were reported.
    pub closed spec fn spec_regions(self) -> Seq<MemoryRegion> {
        self.regions@
    }

    /// How much address space is left above the cursor. Every step of a
    /// still-open walk strictly shrinks it, which is why the walk is finite.
    pub open spec fn fuel(self) -> int {
        usize::MAX - self.spec_base()
    }

    #[verifier::type_invariant]
    spec fn inv(self) -> bool {
        &&& forall|i: int|
            0 <= i < self.regions@.len() ==> (#[trigger] self.regions@[i]).size > 0
        &&& forall|i: int|
            0 <= i < self.regions@.len() ==> (#[trigger] self.regions@[i]).end() <= self.base
        &&& forall|i: int, j: int|
            0 <= i < j < self.regions@.len() ==> (#[trigger] self.regions@[i]).end()
                <= (#[trigger] self.regions@[j]).base
        &&& self.regions@.len() > 0 ==> self.regions@.last().end() == self.base
    }

    /// Starts a walk at address zero with nothing collected yet.
    pub fn new() -> (r: RegionWalk)
        ensures
            r.spec_base() == 0,
            !r.spec_done(),
            r.spec_regions().len() == 0,
    {
        RegionWalk { base: 0, done: false, regions: Vec::new() }
    }

    /// Whether the walk has closed. Once it answers `true`, no further
    /// query is needed and `feed` changes nothing.
    pub fn done(&self) -> (r: bool)
        ensures
            r == self.spec_done(),
    {
        self.done
    }

    /// The address the next query should ask about.
    pub fn next_addr(&self) -> (r: usize)
        ensures
            r == self.spec_base(),
    {
        self.base
    }

    /// Whether a still-open walk takes this answer as one more region:
    /// the answer is a descriptor of nonzero size that starts at or after
    /// the cursor and ends within the address space.
    pub open spec fn accepts(self, resp: QueryResponse) -> bool {
        &&& !self.spec_done()
        &&& resp is Region
        &&& resp->region.size > 0
        &&& resp->region.base >= self.spec_base()
        &&& resp->region.end() <= usize::MAX
    }

    /// Takes one operating-system answer. An accepted descriptor is
    /// appended and the cursor moves just past it — strictly upward, so the
    /// walk's fuel shrinks and the walk is finite. Every other answer on an
    /// open walk closes it with the regions kept as they are: the end of
    /// the addressable range, a failed query, a zero-sized region (the end
    /// marker, which is never recorded, let alone followed by more), and a
    /// descriptor that would run backwards or past the top of the address
    /// space. A closed walk swallows every answer unchanged.
    pub fn feed(&mut self, resp: QueryResponse)
        ensures
            old(self).spec_done() ==> *final(self) == *old(self),
            !old(self).spec_done() && !old(self).accepts(resp) ==> final(self).spec_done()
                && final(self).spec_regions() == old(self).spec_regions()
                && final(self).spec_base() == old(self).spec_base(),
            old(self).accepts(resp) ==> !final(self).spec_done() && final(self).spec_regions()
                == old(self).spec_regions().push(resp->region) && final(self).spec_base()
                == resp->region.end(),
            old(self).accepts(resp) ==> final(self).fuel() < old(self).fuel(),
    {
        proof {
            use_type_invariant(&*self);
        }
        if self.done {
            return ;
        }
        match resp {
            QueryResponse::End => {
                self.done = true;
            },
            QueryResponse::Region { region } => {
                if region.size == 0 {
                    self.done = true;
                } else if region.base < self.base {
                    self.done = true;
                } else if region.size > usize::MAX - region.base {
                    self.done = true;
                } else {
                    let mut collected: Vec<MemoryRegion> = Vec::new();
                    std::mem::swap(&mut collected, &mut self.regions);
                    collected.push(region);
                    self.base = region.base + region.size;
                    std::mem::swap(&mut collected, &mut self.regions);
                }
            },
        }
    }

    /// The regions collected so far, borrowed, with the shape every walk
    /// keeps: no zero-sized region is ever recorded; bases strictly ascend
    /// and regions never overlap; every region ends at or under the cursor,
    /// and the last one reaches it exactly, so the last region observed has
    /// the greatest end address of them all.
    pub fn regions(&self) -> (r: &Vec<MemoryRegion>)
        ensures
            r@ == self.spec_regions(),
            forall|i: int| 0 <= i < r@.len() ==> (#[trigger] r@[i]).size > 0,
            forall|i: int, j: int|
                0 <= i < j < r@.len() ==> (#[trigger] r@[i]).end() <= (#[trigger] r@[j]).base,
            forall|i: int, j: int| 0 <= i < j < r@.len() ==> r@[i].base < r@[j].base,
            forall|i: int| 0 <= i < r@.len() ==> (#[trigger] r@[i]).end() <= self.spec_base(),
            r@.len() > 0 ==> r@.last().end() == self.spec_base(),
            forall|i: int| 0 <= i < r@.len() ==> (#[trigger] r@[i]).end() <= r@.last().end(),
    {
        proof {
            use_type_invariant(self);
            assert forall|i: int, j: int| 0 <= i < j < self.regions@.len() implies self.regions@[i].base
                < self.regions@[j].base by {
                assert(self.regions@[i].end() <= self.regions@[j].base);
            }
        }
        &self.regions
    }

    /// Takes the walk apart, yielding the collected regions. The shape is
    /// the same as [`RegionWalk::regions`] states.
    pub fn into_regions(self) -> (r: Vec<MemoryRegion>)
        ensures
            r@ == self.spec_regions(),
            forall|i: int| 0 <= i < r@.len() ==> (#[trigger] r@[i]).size > 0,
            forall|i: int, j: int|
                0 <= i < j < r@.len() ==> (#[trigger] r@[i]).end() <= (#[trigger] r@[j]).base,
            forall|i: int, j: int| 0 <= i < j < r@.len() ==> r@[i].base < r@[j].base,
            r@.len() > 0 ==> (forall|i: int|
                0 <= i < r@.len() ==> (#[trigger] r@[i]).end() <= r@.last().end()),
    {
        proof {
            use_type_invariant(&self);
            assert forall|i: int, j: int| 0 <= i < j < self.regions@.len() implies self.regions@[i].base
                < self.regions@[j].base by {
                assert(self.regions@[i].end() <= self.regions@[j].base);
            }
        }
        self.regions
    }
}

impl Process {
    /// Begins a walk over this process's virtual-memory regions, at address
    /// zero with nothing collected yet. The front end repeatedly asks the
    /// operating system about [`RegionWalk::next_addr`] and feeds each
    /// answer back until [`RegionWalk::done`] holds.
    pub fn memory_regions(&self) -> (r: RegionWalk)
        ensures
            r.spec_base() == 0,
            !r.spec_done(),
            r.spec_regions().len() == 0,
    {
        RegionWalk::new()
    }
}

} // verus!
