//! Shared virtual memory: allocating and freeing it, and the commands that
//! copy, fill, map and migrate it.

use vstd::prelude::*;
use vstd::slice::slice_to_vec;
use crate::command::{
    Submission, SvmFreeCB, Work, CL_COMMAND_SVM_FREE, CL_COMMAND_SVM_FREE_ARM, CL_COMMAND_SVM_MAP,
    CL_COMMAND_SVM_MAP_ARM, CL_COMMAND_SVM_MEMCPY, CL_COMMAND_SVM_MEMCPY_ARM,
    CL_COMMAND_SVM_MEMFILL, CL_COMMAND_SVM_MEMFILL_ARM, CL_COMMAND_SVM_MIGRATE_MEM,
    CL_COMMAND_SVM_UNMAP, CL_COMMAND_SVM_UNMAP_ARM,
};
use crate::context::{spec_find, Context, ContextState, Queue};
use crate::device::{any_has, min_cap_of, Cap, Feature};
use crate::error::{CLResult, ClError};
use crate::flags::{
    bit_check, has_bit, map_flags_valid, validate_map_flags_common, CL_MEM_SVM_ATOMICS,
    CL_MEM_SVM_FINE_GRAIN_BUFFER, CL_MIGRATE_MEM_OBJECT_CONTENT_UNDEFINED,
    CL_MIGRATE_MEM_OBJECT_HOST,
};
use crate::svm::{
    based_at, containing, lemma_find_after_alloc, range_free, tracker_wf, SvmAllocation,
};
use crate::transfer::{pattern_size_valid, valid_pattern_size};
use crate::util::{check_cl_bool, is_aligned_to, opt_seq, ranges_overlap, spec_cl_bool};

verus! {
/// The alignment of an allocation that asks for none: the size of the
/// largest vector type, sixteen values of eight bytes.
pub const DEFAULT_SVM_ALIGNMENT: usize = 128;

/// The alignment that an allocation gets: the one it asks for, or the
/// default where it asks for none.
pub open spec fn svm_alignment(alignment: u32) -> usize {
    if alignment == 0 {
        DEFAULT_SVM_ALIGNMENT
    } else {
        alignment as usize
    }
}

/// Why shared virtual memory cannot be allocated as asked; none where it
/// can. In this order: the size is not zero; some device of the context
/// supports shared virtual memory; atomics are asked for only together
/// with fine-grained sharing; the size is not above what every device can
/// allocate. So a request for no bytes is refused as a value, whatever the
/// context.
pub open spec fn svm_request_error(ctx: ContextState, flags: u64, size: usize) -> Option<ClError> {
    if size == 0 {
        Some(ClError::InvalidValue)
    } else if !any_has(ctx.devs, Feature::Svm) {
        Some(ClError::InvalidOperation)
    } else if !has_bit(flags, CL_MEM_SVM_FINE_GRAIN_BUFFER) && has_bit(flags, CL_MEM_SVM_ATOMICS) {
        Some(ClError::InvalidValue)
    } else if size > min_cap_of(ctx.devs, Cap::MaxMemAlloc) {
        Some(ClError::InvalidValue)
    } else {
        None
    }
}

/// Checks a request for shared virtual memory, and says how many bytes of
/// which alignment are to be had for it.
pub fn svm_layout(c: &Context, flags: u64, size: usize, alignment: u32) -> (r: CLResult<
    SvmAllocation,
>)
    requires
        c.wf(),
    ensures
        match r {
            Ok(a) => svm_request_error(c@, flags, size) is None && a == (SvmAllocation {
                base: 0,
                size,
                align: svm_alignment(alignment),
            }),
            Err(e) => svm_request_error(c@, flags, size) == Some(e),
        },
{
    if size == 0 {
        return Err(ClError::InvalidValue);
    }
    if !c.has_svm_devs() {
        return Err(ClError::InvalidOperation);
    }
    if !bit_check(flags, CL_MEM_SVM_FINE_GRAIN_BUFFER) && bit_check(flags, CL_MEM_SVM_ATOMICS) {
        return Err(ClError::InvalidValue);
    }
    let align: usize = if alignment == 0 {
        DEFAULT_SVM_ALIGNMENT
    } else {
        alignment as usize
    };
    if size as u64 > c.max_mem_alloc() {
        return Err(ClError::InvalidValue);
    }
    Ok(SvmAllocation { base: 0, size, align })
}

/// Why shared virtual memory cannot be allocated at `memory`; none where
/// it can: the request is valid, and the memory is there, is aligned as
/// the request asks, ends within the address space and is free of every
/// live allocation.
pub open spec fn svm_alloc_error(
    ctx: ContextState,
    flags: u64,
    size: usize,
    alignment: u32,
    memory: usize,
) -> Option<ClError> {
    if svm_request_error(ctx, flags, size) is Some {
        svm_request_error(ctx, flags, size)
    } else if memory as int % svm_alignment(alignment) as int != 0 || !range_free(
        ctx.svm,
        memory,
        size,
    ) {
        Some(ClError::OutOfHostMemory)
    } else {
        None
    }
}

/// Allocates `size` bytes of shared virtual memory in the context.
/// `memory` is the address of the bytes that the host has for the request,
/// or 0 where it has none. On success the allocation is live and its base
/// is returned: the base is a multiple of the alignment, and from then on
/// every address in the allocation resolves to it. A request that is
/// refused changes nothing.
pub fn svm_alloc(c: &mut Context, flags: u64, size: usize, alignment: u32, memory: usize) -> (r:
    CLResult<usize>)
    requires
        old(c).wf(),
    ensures
        final(c).wf(),
        match r {
            Ok(base) => svm_alloc_error(old(c)@, flags, size, alignment, memory) is None && base
                == memory && final(c)@ == (ContextState {
                svm: old(c)@.svm.push(
                    SvmAllocation { base: memory, size, align: svm_alignment(alignment) },
                ),
                ..old(c)@
            }),
            Err(e) => svm_alloc_error(old(c)@, flags, size, alignment, memory) == Some(e)
                && final(c)@ == old(c)@,
        },
        size == 0 ==> r == Err::<usize, ClError>(ClError::InvalidValue),
        r matches Ok(base) ==> base as int % svm_alignment(alignment) as int == 0,
        r is Ok ==> forall|ptr: usize|
            memory <= ptr < memory + size ==> #[trigger] spec_find(final(c)@.svm, ptr) == Some(
                (memory, size),
            ),
{
    let layout: SvmAllocation = svm_layout(c, flags, size, alignment)?;
    if !is_aligned_to(memory, layout.align) || !c.svm_range_free(memory, size) {
        return Err(ClError::OutOfHostMemory);
    }
    let a: SvmAllocation = SvmAllocation { base: memory, size, align: layout.align };
    proof {
        assert forall|ptr: usize| memory <= ptr < memory + size implies #[trigger] spec_find(
            c@.svm.push(a),
            ptr,
        ) == Some((memory, size)) by {
            lemma_find_after_alloc(c@.svm, a, ptr);
        }
    }
    c.add_svm_ptr(a);
    Ok(memory)
}

/// Frees the shared virtual memory that begins at the address, and returns
/// the allocation that it was. An address at which no allocation begins is
/// passed over.
pub fn svm_free(c: &mut Context, svm_pointer: usize) -> (r: CLResult<Option<SvmAllocation>>)
    requires
        old(c).wf(),
    ensures
        final(c).wf(),
        r is Ok,
        match based_at(old(c)@.svm, svm_pointer) {
            Some(i) => r->Ok_0 == Some(old(c)@.svm[i]) && final(c)@ == (ContextState {
                svm: old(c)@.svm.remove(i),
                ..old(c)@
            }),
            None => r->Ok_0 is None && final(c)@ == old(c)@,
        },
{
    let removed: Option<SvmAllocation> = c.remove_svm_ptr(svm_pointer);
    Ok(removed)
}

/// The allocations that are left when those that begin at the first
/// `upto` of the addresses have been forgotten, one address after the
/// other.
pub open spec fn without_all(allocs: Seq<SvmAllocation>, pointers: Seq<usize>, upto: int) -> Seq<
    SvmAllocation,
>
    decreases upto,
{
    if upto <= 0 {
        allocs
    } else {
        without(without_all(allocs, pointers, upto - 1), pointers[upto - 1])
    }
}

/// The allocations that are forgotten on the way, in the order of the
/// addresses.
pub open spec fn freed_all(allocs: Seq<SvmAllocation>, pointers: Seq<usize>, upto: int) -> Seq<
    SvmAllocation,
>
    decreases upto,
{
    if upto <= 0 {
        Seq::empty()
    } else {
        let left = without_all(allocs, pointers, upto - 1);
        let freed = freed_all(allocs, pointers, upto - 1);
        match based_at(left, pointers[upto - 1]) {
            Some(i) => freed.push(left[i]),
            None => freed,
        }
    }
}

/// Frees every allocation that begins at one of the addresses, in their
/// order, and returns those that were live. Afterwards no allocation
/// begins at one of the addresses.
pub fn run_svm_free(c: &mut Context, pointers: &Vec<usize>) -> (freed: Vec<SvmAllocation>)
    requires
        old(c).wf(),
    ensures
        final(c).wf(),
        final(c)@ == (ContextState {
            svm: without_all(old(c)@.svm, pointers@, pointers@.len() as int),
            ..old(c)@
        }),
        freed@ == freed_all(old(c)@.svm, pointers@, pointers@.len() as int),
        forall|i: int|
            0 <= i < pointers@.len() ==> based_at(final(c)@.svm, #[trigger] pointers@[i]) is None,
{
    let mut freed: Vec<SvmAllocation> = Vec::new();
    let mut i: usize = 0;
    while i < pointers.len()
        invariant
            i <= pointers.len(),
            c.wf(),
            c@ == (ContextState { svm: without_all(old(c)@.svm, pointers@, i as int), ..old(c)@ }),
            freed@ == freed_all(old(c)@.svm, pointers@, i as int),
            forall|j: int| 0 <= j < i ==> based_at(c@.svm, #[trigger] pointers@[j]) is None,
        decreases pointers.len() - i,
    {
        let removed: Option<SvmAllocation> = c.remove_svm_ptr(pointers[i]);
        if let Some(a) = removed {
            freed.push(a);
        }
        i = i + 1;
    }
    freed
}

/// The allocations that are left when the one that begins at `base` is
/// forgotten.
pub open spec fn without(allocs: Seq<SvmAllocation>, base: usize) -> Seq<SvmAllocation> {
    match based_at(allocs, base) {
        Some(i) => allocs.remove(i),
        None => allocs,
    }
}

/// The first `n` of the words, or none where there are fewer.
fn take_first(words: &[usize], n: usize) -> (r: Option<Vec<usize>>)
    ensures
        match r {
            Some(v) => n <= words@.len() && v@ == words@.take(n as int),
            None => n > words@.len(),
        },
{
    if n > words.len() {
        return None;
    }
    let mut out: Vec<usize> = Vec::new();
    let mut i: usize = 0;
    while i < n
        invariant
            i <= n <= words.len(),
            out@ == words@.take(i as int),
        decreases n - i,
    {
        out.push(words[i]);
        i = i + 1;
    }
    Some(out)
}

/// The addresses that a request to free shared virtual memory names: the
/// first `num_svm_pointers` of those given, none where none are given. A
/// count without addresses, addresses without a count, and fewer addresses
/// than the count are refused.
pub open spec fn named_pointers(num_svm_pointers: u32, svm_pointers: Option<Seq<usize>>) -> Option<
    Seq<usize>,
> {
    match svm_pointers {
        None => if num_svm_pointers == 0 {
            Some(Seq::empty())
        } else {
            None
        },
        Some(p) => if num_svm_pointers == 0 || num_svm_pointers > p.len() {
            None
        } else {
            Some(p.take(num_svm_pointers as int))
        },
    }
}

/// Why shared virtual memory cannot be freed by a command; none where it
/// can: count and addresses agree, and the device of the queue supports
/// shared virtual memory.
pub open spec fn svm_free_error(
    q: Queue,
    num_svm_pointers: u32,
    svm_pointers: Option<Seq<usize>>,
) -> Option<ClError> {
    if (num_svm_pointers == 0) != (svm_pointers is None) {
        Some(ClError::InvalidValue)
    } else if !q.device.svm {
        Some(ClError::InvalidOperation)
    } else if named_pointers(num_svm_pointers, svm_pointers) is None {
        Some(ClError::InvalidValue)
    } else {
        None
    }
}

/// Accepts a command that frees shared virtual memory. The addresses are
/// copied, so the caller may let go of them. Where a function is given
/// (`pfn_free_func` is not 0) the engine calls it with the addresses in
/// place of freeing them.
pub fn enqueue_svm_free_impl(
    q: &Queue,
    num_svm_pointers: u32,
    svm_pointers: Option<&[usize]>,
    pfn_free_func: usize,
    user_data: usize,
    cmd_type: u32,
) -> (r: CLResult<Submission>)
    ensures
        match r {
            Ok(s) => svm_free_error(
                *q,
                num_svm_pointers,
                opt_seq(svm_pointers),
            ) is None && s.cmd_type == cmd_type && !s.blocking && (
            s.work matches Work::SvmFree { pointers, callback } && Some(pointers@)
                == named_pointers(
                num_svm_pointers,
                opt_seq(svm_pointers),
            ) && callback == (if pfn_free_func != 0 {
                Some(SvmFreeCB { func: pfn_free_func, user_data })
            } else {
                None
            })),
            Err(e) => svm_free_error(*q, num_svm_pointers, opt_seq(svm_pointers)) == Some(e),
        },
{
    if num_svm_pointers == 0 && svm_pointers.is_some() || num_svm_pointers != 0
        && svm_pointers.is_none() {
        return Err(ClError::InvalidValue);
    }
    if !q.device.svm {
        return Err(ClError::InvalidOperation);
    }
    let pointers: Vec<usize> = match svm_pointers {
        Some(p) => match take_first(p, num_svm_pointers as usize) {
            Some(v) => v,
            None => {
                return Err(ClError::InvalidValue);
            },
        },
        None => Vec::new(),
    };
    let callback: Option<SvmFreeCB> = if pfn_free_func != 0 {
        Some(SvmFreeCB { func: pfn_free_func, user_data })
    } else {
        None
    };
    Ok(Submission { cmd_type, blocking: false, work: Work::SvmFree { pointers, callback } })
}

/// What a copy of `size` bytes of shared virtual memory comes to. In this
/// order: the blocking flag is a boolean; the device of the queue supports
/// shared virtual memory; both addresses are given; and the bytes read and
/// the bytes written do not overlap.
pub open spec fn svm_memcpy_checked(
    q: Queue,
    blocking_copy: u32,
    dst_ptr: usize,
    src_ptr: usize,
    size: usize,
    cmd_type: u32,
) -> Result<Submission, ClError> {
    if spec_cl_bool(blocking_copy) is None {
        Err(ClError::InvalidValue)
    } else if !q.device.svm {
        Err(ClError::InvalidOperation)
    } else if src_ptr == 0 || dst_ptr == 0 {
        Err(ClError::InvalidValue)
    } else if ranges_overlap(src_ptr as int, dst_ptr as int, size as int) {
        Err(ClError::MemCopyOverlap)
    } else {
        Ok(
            Submission {
                cmd_type,
                blocking: spec_cl_bool(blocking_copy)->0,
                work: Work::SvmMemcpy { src: src_ptr, dst: dst_ptr, size },
            },
        )
    }
}

/// Accepts a copy of `size` bytes within shared virtual memory.
pub fn enqueue_svm_memcpy_impl(
    q: &Queue,
    blocking_copy: u32,
    dst_ptr: usize,
    src_ptr: usize,
    size: usize,
    cmd_type: u32,
) -> (r: CLResult<Submission>)
    ensures
        r == svm_memcpy_checked(*q, blocking_copy, dst_ptr, src_ptr, size, cmd_type),
{
    let block: bool = match check_cl_bool(blocking_copy) {
        Some(v) => v,
        None => {
            return Err(ClError::InvalidValue);
        },
    };
    if !q.device.svm {
        return Err(ClError::InvalidOperation);
    }
    if src_ptr == 0 || dst_ptr == 0 {
        return Err(ClError::InvalidValue);
    }
    if (src_ptr <= dst_ptr && dst_ptr - src_ptr < size) || (dst_ptr <= src_ptr && src_ptr - dst_ptr
        < size) {
        return Err(ClError::MemCopyOverlap);
    }
    Ok(
        Submission {
            cmd_type,
            blocking: block,
            work: Work::SvmMemcpy { src: src_ptr, dst: dst_ptr, size },
        },
    )
}

/// Why shared virtual memory cannot be filled as asked; none where it can:
/// the device of the queue supports shared virtual memory; the address and
/// the pattern are given; the pattern is of a valid length; and the address
/// and the size are multiples of that length.
pub open spec fn svm_mem_fill_error(
    q: Queue,
    svm_ptr: usize,
    pattern: Option<Seq<u8>>,
    size: usize,
) -> Option<ClError> {
    if !q.device.svm {
        Some(ClError::InvalidOperation)
    } else if svm_ptr == 0 || pattern is None || !pattern_size_valid(pattern->0.len() as usize) {
        Some(ClError::InvalidValue)
    } else if svm_ptr as int % pattern->0.len() as int != 0 || size as int % pattern->0.len() as int
        != 0 {
        Some(ClError::InvalidValue)
    } else {
        None
    }
}

/// Accepts a fill of `size` bytes of shared virtual memory with copies of
/// a pattern. The pattern is copied, so the caller may let go of it.
pub fn enqueue_svm_mem_fill_impl(
    q: &Queue,
    svm_ptr: usize,
    pattern: Option<&[u8]>,
    size: usize,
    cmd_type: u32,
) -> (r: CLResult<Submission>)
    ensures
        match r {
            Ok(s) => svm_mem_fill_error(
                *q,
                svm_ptr,
                opt_seq(pattern),
                size,
            ) is None && s.cmd_type == cmd_type && !s.blocking && (
            s.work matches Work::SvmMemFill { ptr, size: n, pattern: copy } && ptr == svm_ptr && n
                == size && copy@ == pattern->0@),
            Err(e) => svm_mem_fill_error(*q, svm_ptr, opt_seq(pattern), size) == Some(e),
        },
{
    if !q.device.svm {
        return Err(ClError::InvalidOperation);
    }
    if svm_ptr == 0 {
        return Err(ClError::InvalidValue);
    }
    let pattern: &[u8] = match pattern {
        Some(p) => p,
        None => {
            return Err(ClError::InvalidValue);
        },
    };
    let pattern_size: usize = pattern.len();
    if !valid_pattern_size(pattern_size) {
        return Err(ClError::InvalidValue);
    }
    if !is_aligned_to(svm_ptr, pattern_size) {
        return Err(ClError::InvalidValue);
    }
    if size % pattern_size != 0 {
        return Err(ClError::InvalidValue);
    }
    let copy: Vec<u8> = slice_to_vec(pattern);
    Ok(
        Submission {
            cmd_type,
            blocking: false,
            work: Work::SvmMemFill { ptr: svm_ptr, size, pattern: copy },
        },
    )
}

/// What a map of shared virtual memory comes to. In this order: the
/// blocking flag is a boolean; the device of the queue supports shared
/// virtual memory; the address is given; the size is not zero; and the map
/// flags are valid.
pub open spec fn svm_map_checked(
    q: Queue,
    blocking_map: u32,
    flags: u64,
    svm_ptr: usize,
    size: usize,
    cmd_type: u32,
) -> Result<Submission, ClError> {
    if spec_cl_bool(blocking_map) is None {
        Err(ClError::InvalidValue)
    } else if !q.device.svm {
        Err(ClError::InvalidOperation)
    } else if svm_ptr == 0 || size == 0 || !map_flags_valid(flags) {
        Err(ClError::InvalidValue)
    } else {
        Ok(
            Submission {
                cmd_type,
                blocking: spec_cl_bool(blocking_map)->0,
                work: Work::SvmMap { ptr: svm_ptr, flags },
            },
        )
    }
}

/// Accepts a map of `size` bytes of shared virtual memory.
pub fn enqueue_svm_map_impl(
    q: &Queue,
    blocking_map: u32,
    flags: u64,
    svm_ptr: usize,
    size: usize,
    cmd_type: u32,
) -> (r: CLResult<Submission>)
    ensures
        r == svm_map_checked(*q, blocking_map, flags, svm_ptr, size, cmd_type),
{
    let block: bool = match check_cl_bool(blocking_map) {
        Some(v) => v,
        None => {
            return Err(ClError::InvalidValue);
        },
    };
    if !q.device.svm {
        return Err(ClError::InvalidOperation);
    }
    if svm_ptr == 0 {
        return Err(ClError::InvalidValue);
    }
    if size == 0 {
        return Err(ClError::InvalidValue);
    }
    validate_map_flags_common(flags)?;
    Ok(Submission { cmd_type, blocking: block, work: Work::SvmMap { ptr: svm_ptr, flags } })
}

/// What an unmap of shared virtual memory comes to: the device of the
/// queue supports shared virtual memory, and the address is given. Nothing
/// needs to be done for it.
pub open spec fn svm_unmap_checked(q: Queue, svm_ptr: usize, cmd_type: u32) -> Result<
    Submission,
    ClError,
> {
    if !q.device.svm {
        Err(ClError::InvalidOperation)
    } else if svm_ptr == 0 {
        Err(ClError::InvalidValue)
    } else {
        Ok(Submission { cmd_type, blocking: false, work: Work::Nothing })
    }
}

/// Accepts an unmap of shared virtual memory.
pub fn enqueue_svm_unmap_impl(q: &Queue, svm_ptr: usize, cmd_type: u32) -> (r: CLResult<Submission>)
    ensures
        r == svm_unmap_checked(*q, svm_ptr, cmd_type),
{
    if !q.device.svm {
        return Err(ClError::InvalidOperation);
    }
    if svm_ptr == 0 {
        return Err(ClError::InvalidValue);
    }
    Ok(Submission { cmd_type, blocking: false, work: Work::Nothing })
}

/// A run of bytes of shared virtual memory.
#[derive(Clone, Copy, Debug, PartialEq, Eq, Structural)]
pub struct SvmRange {
    pub ptr: usize,
    pub size: usize,
}

/// The bytes that a request to migrate `size` bytes at `ptr` names: the
/// bytes themselves where they lie within one live allocation, the whole
/// allocation that holds `ptr` where the size is zero, and none where no
/// allocation holds them.
pub open spec fn migrate_range(svm: Seq<SvmAllocation>, ptr: usize, size: usize) -> Option<
    SvmRange,
> {
    match containing(svm, ptr) {
        Some(a) => if (ptr - a.base) + size <= a.size {
            if size == 0 {
                Some(SvmRange { ptr: a.base, size: a.size })
            } else {
                Some(SvmRange { ptr, size })
            }
        } else {
            None
        },
        None => None,
    }
}

/// A request to migrate no bytes at an address that lies in a live
/// allocation names the whole allocation.
pub proof fn lemma_migrate_whole_allocation(svm: Seq<SvmAllocation>, i: int, ptr: usize)
    requires
        tracker_wf(svm),
        0 <= i < svm.len(),
        svm[i].spans(ptr),
    ensures
        migrate_range(svm, ptr, 0) == Some(SvmRange { ptr: svm[i].base, size: svm[i].size }),
{
    crate::svm::lemma_containing_unique(svm, i, ptr);
}

/// The size that goes with the `i`-th address: the `i`-th of the sizes, or
/// zero where no sizes are given.
pub open spec fn size_at(sizes: Option<Seq<usize>>, i: int) -> usize {
    match sizes {
        Some(s) => s[i],
        None => 0,
    }
}

/// Why shared virtual memory cannot be migrated as asked; none where it
/// can. In this order: the context is that of the queue; the device of the
/// queue supports shared virtual memory; there is an address; as many
/// addresses are given as are counted, and as many sizes where sizes are
/// given; and each run of bytes lies within a live allocation.
pub open spec fn svm_migrate_error(
    q: Queue,
    ctx: ContextState,
    num_svm_pointers: u32,
    svm_pointers: Option<Seq<usize>>,
    sizes: Option<Seq<usize>>,
) -> Option<ClError> {
    if ctx.id != q.context {
        Some(ClError::InvalidContext)
    } else if !q.device.svm {
        Some(ClError::InvalidOperation)
    } else if num_svm_pointers == 0 {
        Some(ClError::InvalidValue)
    } else if svm_pointers is None || svm_pointers->0.len() < num_svm_pointers {
        Some(ClError::InvalidValue)
    } else if sizes is Some && sizes->0.len() < num_svm_pointers {
        Some(ClError::InvalidValue)
    } else if exists|i: int|
        0 <= i < num_svm_pointers && #[trigger] migrate_range(
            ctx.svm,
            svm_pointers->0[i],
            size_at(sizes, i),
        ) is None {
        Some(ClError::InvalidValue)
    } else {
        None
    }
}

/// Accepts a migration of runs of shared virtual memory. `c` is the
/// context of the queue. A run of size zero, and every run where no sizes
/// are given, stands for the whole allocation that holds its address.
pub fn enqueue_svm_migrate_mem(
    q: &Queue,
    c: &Context,
    num_svm_pointers: u32,
    svm_pointers: Option<&[usize]>,
    sizes: Option<&[usize]>,
    flags: u64,
) -> (r: CLResult<Submission>)
    requires
        c.wf(),
    ensures
        match r {
            Ok(s) => {
                &&& svm_migrate_error(
                    *q,
                    c@,
                    num_svm_pointers,
                    opt_seq(svm_pointers),
                    opt_seq(sizes),
                ) is None
                &&& s.cmd_type == CL_COMMAND_SVM_MIGRATE_MEM
                &&& !s.blocking
                &&& s.work matches Work::SvmMigrate {
                    pointers,
                    sizes: lengths,
                    to_device,
                    content_undefined,
                } && pointers@.len() == num_svm_pointers && lengths@.len() == num_svm_pointers
                    && to_device == !has_bit(flags, CL_MIGRATE_MEM_OBJECT_HOST)
                    && content_undefined == has_bit(flags, CL_MIGRATE_MEM_OBJECT_CONTENT_UNDEFINED)
                    && forall|i: int|
                    0 <= i < num_svm_pointers ==> #[trigger] migrate_range(
                        c@.svm,
                        svm_pointers->0@[i],
                        size_at(opt_seq(sizes), i),
                    ) == Some(SvmRange { ptr: pointers@[i], size: lengths@[i] })
            },
            Err(e) => svm_migrate_error(
                *q,
                c@,
                num_svm_pointers,
                opt_seq(svm_pointers),
                opt_seq(sizes),
            ) == Some(e),
        },
{
    let ghost in_sizes: Option<Seq<usize>> = opt_seq(sizes);
    if c.id() != q.context {
        return Err(ClError::InvalidContext);
    }
    if !q.device.svm {
        return Err(ClError::InvalidOperation);
    }
    if num_svm_pointers == 0 {
        return Err(ClError::InvalidValue);
    }
    let n: usize = num_svm_pointers as usize;
    let given: &[usize] = match svm_pointers {
        Some(p) => p,
        None => {
            return Err(ClError::InvalidValue);
        },
    };
    if given.len() < n {
        return Err(ClError::InvalidValue);
    }
    if let Some(s) = sizes {
        if s.len() < n {
            return Err(ClError::InvalidValue);
        }
    }
    let mut pointers: Vec<usize> = Vec::new();
    let mut lengths: Vec<usize> = Vec::new();
    let mut i: usize = 0;
    while i < n
        invariant
            i <= n,
            n == num_svm_pointers,
            n <= given@.len(),
            num_svm_pointers != 0,
            svm_pointers == Some(given),
            c@.id == q.context,
            q.device.svm,
            c.wf(),
            in_sizes == opt_seq(sizes),
            sizes matches Some(s) ==> n <= s@.len(),
            pointers@.len() == i,
            lengths@.len() == i,
            forall|j: int|
                0 <= j < i ==> #[trigger] migrate_range(c@.svm, given@[j], size_at(in_sizes, j))
                    == Some(SvmRange { ptr: pointers@[j], size: lengths@[j] }),
        decreases n - i,
    {
        let ptr: usize = given[i];
        let size: usize = match sizes {
            Some(s) => s[i],
            None => 0,
        };
        let range: Option<SvmRange> = resolve_migrate_range(c, ptr, size);
        match range {
            Some(r) => {
                pointers.push(r.ptr);
                lengths.push(r.size);
            },
            None => {
                proof {
                    assert(migrate_range(c@.svm, given@[i as int], size_at(in_sizes, i as int))
                        is None);
                }
                return Err(ClError::InvalidValue);
            },
        }
        i = i + 1;
    }
    let to_device: bool = !bit_check(flags, CL_MIGRATE_MEM_OBJECT_HOST);
    let content_undefined: bool = bit_check(flags, CL_MIGRATE_MEM_OBJECT_CONTENT_UNDEFINED);
    Ok(
        Submission {
            cmd_type: CL_COMMAND_SVM_MIGRATE_MEM,
            blocking: false,
            work: Work::SvmMigrate { pointers, sizes: lengths, to_device, content_undefined },
        },
    )
}

/// The bytes that a request to migrate `size` bytes at `ptr` names.
pub fn resolve_migrate_range(c: &Context, ptr: usize, size: usize) -> (r: Option<SvmRange>)
    requires
        c.wf(),
    ensures
        r == migrate_range(c@.svm, ptr, size),
{
    match c.find_svm_alloc(ptr) {
        Some((alloc, alloc_size)) => {
            let offset: usize = ptr - alloc;
            if size <= alloc_size - offset {
                if size == 0 {
                    Some(SvmRange { ptr: alloc, size: alloc_size })
                } else {
                    Some(SvmRange { ptr, size })
                }
            } else {
                None
            }
        },
        None => None,
    }
}

/// Accepts a command that frees shared virtual memory.
pub fn enqueue_svm_free(
    q: &Queue,
    num_svm_pointers: u32,
    svm_pointers: Option<&[usize]>,
    pfn_free_func: usize,
    user_data: usize,
) -> (r: CLResult<Submission>)
    ensures
        match r {
            Ok(s) => svm_free_error(
                *q,
                num_svm_pointers,
                opt_seq(svm_pointers),
            ) is None && s.cmd_type == CL_COMMAND_SVM_FREE && !s.blocking && (
            s.work matches Work::SvmFree { pointers, callback } && Some(pointers@)
                == named_pointers(
                num_svm_pointers,
                opt_seq(svm_pointers),
            ) && callback == (if pfn_free_func != 0 {
                Some(SvmFreeCB { func: pfn_free_func, user_data })
            } else {
                None
            })),
            Err(e) => svm_free_error(*q, num_svm_pointers, opt_seq(svm_pointers)) == Some(e),
        },
{
    enqueue_svm_free_impl(
        q,
        num_svm_pointers,
        svm_pointers,
        pfn_free_func,
        user_data,
        CL_COMMAND_SVM_FREE,
    )
}

/// Accepts a command that frees shared virtual memory, under the name that
/// the vendor extension gives it.
pub fn enqueue_svm_free_arm(
    q: &Queue,
    num_svm_pointers: u32,
    svm_pointers: Option<&[usize]>,
    pfn_free_func: usize,
    user_data: usize,
) -> (r: CLResult<Submission>)
    ensures
        match r {
            Ok(s) => svm_free_error(
                *q,
                num_svm_pointers,
                opt_seq(svm_pointers),
            ) is None && s.cmd_type == CL_COMMAND_SVM_FREE_ARM && !s.blocking && (
            s.work matches Work::SvmFree { pointers, callback } && Some(pointers@)
                == named_pointers(
                num_svm_pointers,
                opt_seq(svm_pointers),
            ) && callback == (if pfn_free_func != 0 {
                Some(SvmFreeCB { func: pfn_free_func, user_data })
            } else {
                None
            })),
            Err(e) => svm_free_error(*q, num_svm_pointers, opt_seq(svm_pointers)) == Some(e),
        },
{
    enqueue_svm_free_impl(
        q,
        num_svm_pointers,
        svm_pointers,
        pfn_free_func,
        user_data,
        CL_COMMAND_SVM_FREE_ARM,
    )
}

/// Accepts a copy of `size` bytes within shared virtual memory.
pub fn enqueue_svm_memcpy(
    q: &Queue,
    blocking_copy: u32,
    dst_ptr: usize,
    src_ptr: usize,
    size: usize,
) -> (r: CLResult<Submission>)
    ensures
        r == svm_memcpy_checked(*q, blocking_copy, dst_ptr, src_ptr, size, CL_COMMAND_SVM_MEMCPY),
{
    enqueue_svm_memcpy_impl(q, blocking_copy, dst_ptr, src_ptr, size, CL_COMMAND_SVM_MEMCPY)
}

/// Accepts a copy within shared virtual memory, under the name that the
/// vendor extension gives it.
pub fn enqueue_svm_memcpy_arm(
    q: &Queue,
    blocking_copy: u32,
    dst_ptr: usize,
    src_ptr: usize,
    size: usize,
) -> (r: CLResult<Submission>)
    ensures
        r == svm_memcpy_checked(
            *q,
            blocking_copy,
            dst_ptr,
            src_ptr,
            size,
            CL_COMMAND_SVM_MEMCPY_ARM,
        ),
{
    enqueue_svm_memcpy_impl(q, blocking_copy, dst_ptr, src_ptr, size, CL_COMMAND_SVM_MEMCPY_ARM)
}

/// Accepts a fill of shared virtual memory with copies of a pattern.
pub fn enqueue_svm_mem_fill(q: &Queue, svm_ptr: usize, pattern: Option<&[u8]>, size: usize) -> (r:
    CLResult<Submission>)
    ensures
        match r {
            Ok(s) => svm_mem_fill_error(
                *q,
                svm_ptr,
                opt_seq(pattern),
                size,
            ) is None && s.cmd_type == CL_COMMAND_SVM_MEMFILL && !s.blocking && (
            s.work matches Work::SvmMemFill { ptr, size: n, pattern: copy } && ptr == svm_ptr && n
                == size && copy@ == pattern->0@),
            Err(e) => svm_mem_fill_error(*q, svm_ptr, opt_seq(pattern), size) == Some(e),
        },
{
    enqueue_svm_mem_fill_impl(q, svm_ptr, pattern, size, CL_COMMAND_SVM_MEMFILL)
}

/// Accepts a fill of shared virtual memory, under the name that the vendor
/// extension gives it.
pub fn enqueue_svm_mem_fill_arm(q: &Queue, svm_ptr: usize, pattern: Option<&[u8]>, size: usize) -> (r:
    CLResult<Submission>)
    ensures
        match r {
            Ok(s) => svm_mem_fill_error(
                *q,
                svm_ptr,
                opt_seq(pattern),
                size,
            ) is None && s.cmd_type == CL_COMMAND_SVM_MEMFILL_ARM && !s.blocking && (
            s.work matches Work::SvmMemFill { ptr, size: n, pattern: copy } && ptr == svm_ptr && n
                == size && copy@ == pattern->0@),
            Err(e) => svm_mem_fill_error(*q, svm_ptr, opt_seq(pattern), size) == Some(e),
        },
{
    enqueue_svm_mem_fill_impl(q, svm_ptr, pattern, size, CL_COMMAND_SVM_MEMFILL_ARM)
}

/// Accepts a map of shared virtual memory.
pub fn enqueue_svm_map(q: &Queue, blocking_map: u32, flags: u64, svm_ptr: usize, size: usize) -> (r:
    CLResult<Submission>)
    ensures
        r == svm_map_checked(*q, blocking_map, flags, svm_ptr, size, CL_COMMAND_SVM_MAP),
{
    enqueue_svm_map_impl(q, blocking_map, flags, svm_ptr, size, CL_COMMAND_SVM_MAP)
}

/// Accepts a map of shared virtual memory, under the name that the vendor
/// extension gives it.
pub fn enqueue_svm_map_arm(q: &Queue, blocking_map: u32, flags: u64, svm_ptr: usize, size: usize) -> (r:
    CLResult<Submission>)
    ensures
        r == svm_map_checked(*q, blocking_map, flags, svm_ptr, size, CL_COMMAND_SVM_MAP_ARM),
{
    enqueue_svm_map_impl(q, blocking_map, flags, svm_ptr, size, CL_COMMAND_SVM_MAP_ARM)
}

/// Accepts an unmap of shared virtual memory.
pub fn enqueue_svm_unmap(q: &Queue, svm_ptr: usize) -> (r: CLResult<Submission>)
    ensures
        r == svm_unmap_checked(*q, svm_ptr, CL_COMMAND_SVM_UNMAP),
{
    enqueue_svm_unmap_impl(q, svm_ptr, CL_COMMAND_SVM_UNMAP)
}

/// Accepts an unmap of shared virtual memory, under the name that the
/// vendor extension gives it.
pub fn enqueue_svm_unmap_arm(q: &Queue, svm_ptr: usize) -> (r: CLResult<Submission>)
    ensures
        r == svm_unmap_checked(*q, svm_ptr, CL_COMMAND_SVM_UNMAP_ARM),
{
    enqueue_svm_unmap_impl(q, svm_ptr, CL_COMMAND_SVM_UNMAP_ARM)
}

} // verus!
