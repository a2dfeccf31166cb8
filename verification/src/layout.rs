//! Geometry of a child's stack: one private mapping whose lowest pages are
//! made inaccessible, so that a stack growing down from the top faults on
//! the guard before it reaches memory below the mapping.

use vstd::prelude::*;

verus! {

/// Bytes in one page of memory.
pub const PAGE_SIZE: usize = 4 * 1024;

/// Bytes at the low end of every stack mapping that are made inaccessible.
pub const GUARD_SIZE: usize = PAGE_SIZE;

/// Bytes mapped for a child's stack when the caller has no wish of its own.
pub const STACK_SIZE: usize = 500 * 1024;

/// A stack size is accepted when it is a whole number of pages and leaves
/// room above the guard. Any other size is rejected, never rounded.
pub open spec fn valid_stack_size(size: int) -> bool {
    size % (PAGE_SIZE as int) == 0 && size > GUARD_SIZE
}

/// A mapping of `len` bytes at `base` can hold a guarded stack: `base` is on
/// a page boundary, `len` is a valid stack size, and the address one past
/// the mapping is still a machine address.
pub open spec fn region_fits(base: int, len: int) -> bool {
    &&& 0 <= base
    &&& base % (PAGE_SIZE as int) == 0
    &&& valid_stack_size(len)
    &&& base + len <= usize::MAX
}

/// The mathematical picture of a guarded stack: the addresses
/// `base .. base + len`, of which `base .. base + guard_len` are the guard.
pub struct StackLayout {
    pub base: int,
    pub len: int,
    pub guard_len: int,
}

impl StackLayout {
    /// The guard is a page-aligned, non-empty, strict prefix of the mapping.
    pub open spec fn wf(self) -> bool {
        &&& 0 <= self.base
        &&& self.base % (PAGE_SIZE as int) == 0
        &&& self.guard_len % (PAGE_SIZE as int) == 0
        &&& 0 < self.guard_len < self.len
    }

    /// The layout that a mapping of `len` bytes at `base` gets.
    pub open spec fn of(base: int, len: int) -> StackLayout {
        StackLayout { base, len, guard_len: GUARD_SIZE as int }
    }

    /// One past the highest address: where a downward-growing stack starts.
    pub open spec fn top(self) -> int {
        self.base + self.len
    }

    /// One past the highest guarded address: the lowest usable address.
    pub open spec fn guard_end(self) -> int {
        self.base + self.guard_len
    }

    /// Bytes between the guard and the top.
    pub open spec fn usable_len(self) -> int {
        self.len - self.guard_len
    }

    /// `addr` lies in the mapping.
    pub open spec fn contains(self, addr: int) -> bool {
        self.base <= addr < self.top()
    }

    /// `addr` lies in the guard.
    pub open spec fn in_guard(self, addr: int) -> bool {
        self.base <= addr < self.guard_end()
    }

    /// `addr` lies in the part that the child may use.
    pub open spec fn in_stack(self, addr: int) -> bool {
        self.guard_end() <= addr < self.top()
    }
}

/// A guarded stack that has been mapped: where it lies, how long it is, and
/// how much of its low end is the guard. A value of this type always
/// describes a mapping whose guard is a page-aligned strict prefix and whose
/// top is a machine address.
#[derive(Debug, PartialEq, Eq)]
pub struct StackRegion {
    base: usize,
    len: usize,
    guard_len: usize,
}

impl View for StackRegion {
    type V = StackLayout;

    closed spec fn view(&self) -> StackLayout {
        StackLayout {
            base: self.base as int,
            len: self.len as int,
            guard_len: self.guard_len as int,
        }
    }
}

impl StackRegion {
    #[verifier::type_invariant]
    spec fn inv(self) -> bool {
        self@.wf() && self@.top() <= usize::MAX
    }

    /// Describes the mapping of `len` bytes at `base`, guarded at its low end.
    pub(crate) fn from_mapping(base: usize, len: usize) -> (region: StackRegion)
        requires
            region_fits(base as int, len as int),
        ensures
            region@ == StackLayout::of(base as int, len as int),
    {
        StackRegion { base, len, guard_len: GUARD_SIZE }
    }

    /// The lowest address of the mapping, which is also where the guard starts.
    pub fn base(&self) -> (addr: usize)
        ensures
            addr == self@.base,
            self@.wf(),
    {
        proof {
            use_type_invariant(self);
        }
        self.base
    }

    /// The length of the whole mapping in bytes, guard included.
    pub fn len(&self) -> (bytes: usize)
        ensures
            bytes == self@.len,
            self@.wf(),
    {
        proof {
            use_type_invariant(self);
        }
        self.len
    }

    /// The length of the guard in bytes.
    pub fn guard_len(&self) -> (bytes: usize)
        ensures
            bytes == self@.guard_len,
            self@.wf(),
    {
        proof {
            use_type_invariant(self);
        }
        self.guard_len
    }

    /// The initial stack pointer of the child: one past the highest address.
    pub fn top(&self) -> (addr: usize)
        ensures
            addr == self@.top(),
            self@.wf(),
    {
        proof {
            use_type_invariant(self);
        }
        self.base + self.len
    }

    /// The lowest address that the child may touch.
    pub fn guard_end(&self) -> (addr: usize)
        ensures
            addr == self@.guard_end(),
            self@.wf(),
    {
        proof {
            use_type_invariant(self);
        }
        self.base + self.guard_len
    }

    /// The bytes that the child's stack may grow to.
    pub fn usable_len(&self) -> (bytes: usize)
        ensures
            bytes == self@.usable_len(),
            self@.wf(),
    {
        proof {
            use_type_invariant(self);
        }
        self.len - self.guard_len
    }

    /// Tells whether an access at `addr` would hit the guard.
    pub fn in_guard(&self, addr: usize) -> (hit: bool)
        ensures
            hit == self@.in_guard(addr as int),
    {
        proof {
            use_type_invariant(self);
        }
        self.base <= addr && addr - self.base < self.guard_len
    }

    /// Tells whether `addr` lies in the part that the child may use.
    pub fn in_stack(&self, addr: usize) -> (inside: bool)
        ensures
            inside == self@.in_stack(addr as int),
    {
        proof {
            use_type_invariant(self);
        }
        self.base <= addr && self.guard_len <= addr - self.base && addr - self.base < self.len
    }
}

/// Decides whether `size` is accepted as a stack size.
pub fn is_valid_stack_size(size: usize) -> (ok: bool)
    ensures
        ok == valid_stack_size(size as int),
{
    size % PAGE_SIZE == 0 && size > GUARD_SIZE
}

/// Decides whether a mapping of `len` bytes at `base` can hold a guarded
/// stack.
pub fn fits_region(base: usize, len: usize) -> (ok: bool)
    ensures
        ok == region_fits(base as int, len as int),
{
    base % PAGE_SIZE == 0 && is_valid_stack_size(len) && len <= usize::MAX - base
}

/// The guard of a fitted mapping is a page-aligned, non-empty, strict prefix
/// of it: it starts at the base, ends on a page boundary below the top, and
/// every address of the mapping is either guarded or usable, never both.
pub proof fn lemma_guard_is_strict_aligned_prefix(base: int, len: int)
    requires
        region_fits(base, len),
    ensures
        ({
            let stack = StackLayout::of(base, len);
            &&& stack.wf()
            &&& stack.base == base
            &&& stack.len == len
            &&& stack.guard_len == GUARD_SIZE
            &&& 0 < stack.guard_len < stack.len
            &&& stack.guard_len % (PAGE_SIZE as int) == 0
            &&& stack.guard_end() % (PAGE_SIZE as int) == 0
            &&& stack.guard_end() < stack.top()
            &&& stack.usable_len() > 0
            &&& stack.usable_len() % (PAGE_SIZE as int) == 0
            &&& forall|addr: int|
                stack.contains(addr) <==> (stack.in_guard(addr) || stack.in_stack(addr))
            &&& forall|addr: int| !(stack.in_guard(addr) && stack.in_stack(addr))
        }),
{
}

/// A stack that grows down from the top of a well-formed layout reaches the
/// guard before it leaves the mapping: the address just below the usable part
/// is guarded, and no usable address lies below a guarded one.
pub proof fn lemma_overflow_meets_guard(layout: StackLayout)
    requires
        layout.wf(),
    ensures
        layout.in_guard(layout.guard_end() - 1),
        layout.in_stack(layout.top() - 1),
        forall|low: int, high: int|
            layout.in_guard(low) && layout.in_stack(high) ==> low < high,
{
}

} // verus!
