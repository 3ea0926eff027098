use clmem::command::{
    SvmFreeCB, Work, CL_COMMAND_SVM_FREE, CL_COMMAND_SVM_FREE_ARM, CL_COMMAND_SVM_MAP,
    CL_COMMAND_SVM_MAP_ARM, CL_COMMAND_SVM_MEMCPY, CL_COMMAND_SVM_MEMCPY_ARM,
    CL_COMMAND_SVM_MEMFILL, CL_COMMAND_SVM_MEMFILL_ARM, CL_COMMAND_SVM_MIGRATE_MEM,
    CL_COMMAND_SVM_UNMAP, CL_COMMAND_SVM_UNMAP_ARM,
};
use clmem::context::{Context, Queue};
use clmem::device::Device;
use clmem::error::ClError;
use clmem::flags::{
    CL_MAP_READ, CL_MAP_WRITE_INVALIDATE_REGION, CL_MEM_SVM_ATOMICS, CL_MEM_SVM_FINE_GRAIN_BUFFER,
    CL_MIGRATE_MEM_OBJECT_CONTENT_UNDEFINED, CL_MIGRATE_MEM_OBJECT_HOST,
};
use clmem::svm::{SvmAllocation, SvmTracker};
use clmem::svm_ops::{
    enqueue_svm_free, enqueue_svm_free_arm, enqueue_svm_map, enqueue_svm_map_arm,
    enqueue_svm_mem_fill, enqueue_svm_mem_fill_arm, enqueue_svm_memcpy, enqueue_svm_memcpy_arm,
    enqueue_svm_migrate_mem, enqueue_svm_unmap, enqueue_svm_unmap_arm, resolve_migrate_range,
    run_svm_free, svm_alloc, svm_free, svm_layout, SvmRange,
};

fn svm_device(svm: bool) -> Device {
    Device {
        max_mem_alloc: 4096,
        image_2d_size: 1024,
        image_3d_size: 256,
        image_buffer_size: 65536,
        image_array_size: 64,
        image_pitch_alignment: 1,
        image_base_address_alignment: 1,
        has_images: true,
        image2d_from_buffer: true,
        svm,
        bda: false,
        formats: Vec::new(),
    }
}

fn svm_context() -> Context {
    Context::new(3, vec![svm_device(false), svm_device(true)], false).unwrap()
}

fn svm_queue(svm: bool) -> Queue {
    Queue { context: 3, device: svm_device(svm) }
}

#[test]
fn alloc_of_nothing_is_refused() {
    let mut c = svm_context();
    assert_eq!(svm_alloc(&mut c, 0, 0, 0, 0x1000), Err(ClError::InvalidValue));
    assert_eq!(svm_alloc(&mut c, CL_MEM_SVM_FINE_GRAIN_BUFFER, 0, 16, 0x1000), Err(ClError::InvalidValue));
    assert_eq!(c.svm_len(), 0);
}

#[test]
fn alloc_is_validated() {
    let mut c = svm_context();
    assert_eq!(svm_alloc(&mut c, CL_MEM_SVM_ATOMICS, 16, 0, 0x1000), Err(ClError::InvalidValue));
    assert_eq!(svm_alloc(&mut c, 0, 4097, 0, 0x1000), Err(ClError::InvalidValue));
    assert_eq!(svm_alloc(&mut c, 0, 16, 0, 0), Err(ClError::OutOfHostMemory));
    assert_eq!(svm_alloc(&mut c, 0, 16, 0, usize::MAX - 4), Err(ClError::OutOfHostMemory));
    assert_eq!(
        svm_alloc(&mut c, CL_MEM_SVM_ATOMICS | CL_MEM_SVM_FINE_GRAIN_BUFFER, 4096, 0, 0x1000),
        Ok(0x1000)
    );
    let mut none = Context::new(4, vec![svm_device(false)], false).unwrap();
    assert_eq!(svm_alloc(&mut none, 0, 16, 0, 0x1000), Err(ClError::InvalidOperation));
    // no bytes are an invalid value whatever the context
    assert_eq!(svm_alloc(&mut none, 0, 0, 0, 0x1000), Err(ClError::InvalidValue));
    assert_eq!(svm_alloc(&mut none, CL_MEM_SVM_ATOMICS, 0, 0, 0), Err(ClError::InvalidValue));
    assert_eq!(svm_layout(&none, 0, 0, 0), Err(ClError::InvalidValue));
    assert_eq!(svm_layout(&none, 0, 16, 0), Err(ClError::InvalidOperation));
    assert_eq!(none.svm_len(), 0);
}

#[test]
fn layout_of_a_request() {
    let c = svm_context();
    assert_eq!(svm_layout(&c, 0, 100, 0), Ok(SvmAllocation { base: 0, size: 100, align: 128 }));
    assert_eq!(svm_layout(&c, 0, 100, 64), Ok(SvmAllocation { base: 0, size: 100, align: 64 }));
    assert_eq!(svm_layout(&c, 0, 0, 64), Err(ClError::InvalidValue));
}

#[test]
fn find_resolves_every_address_inside() {
    let mut c = svm_context();
    assert_eq!(svm_alloc(&mut c, 0, 256, 0, 0x1000), Ok(0x1000));
    assert_eq!(svm_alloc(&mut c, 0, 16, 32, 0x2000), Ok(0x2000));
    assert_eq!(c.svm_alloc_at(0), SvmAllocation { base: 0x1000, size: 256, align: 128 });
    assert_eq!(c.svm_alloc_at(1), SvmAllocation { base: 0x2000, size: 16, align: 32 });
    for ptr in 0x1000..0x1100 {
        assert_eq!(c.find_svm_alloc(ptr), Some((0x1000, 256)));
    }
    assert_eq!(c.find_svm_alloc(0xfff), None);
    assert_eq!(c.find_svm_alloc(0x1100), None);
    assert_eq!(c.find_svm_alloc(0x200f), Some((0x2000, 16)));
    assert_eq!(c.find_svm_alloc(0x2010), None);
    assert_eq!(c.find_svm_alloc(0), None);
}

#[test]
fn overlapping_memory_is_refused() {
    let mut c = svm_context();
    assert_eq!(svm_alloc(&mut c, 0, 256, 0, 0x1000), Ok(0x1000));
    assert_eq!(svm_alloc(&mut c, 0, 16, 1, 0x10ff), Err(ClError::OutOfHostMemory));
    assert_eq!(svm_alloc(&mut c, 0, 16, 1, 0xff1), Err(ClError::OutOfHostMemory));
    assert_eq!(svm_alloc(&mut c, 0, 16, 16, 0xff0), Ok(0xff0));
    assert_eq!(svm_alloc(&mut c, 0, 16, 0, 0x1100), Ok(0x1100));
}

#[test]
fn free_forgets_the_allocation() {
    let mut c = svm_context();
    assert_eq!(svm_alloc(&mut c, 0, 256, 0, 0x1000), Ok(0x1000));
    assert_eq!(svm_free(&mut c, 0x1001), Ok(None));
    assert_eq!(c.find_svm_alloc(0x1001), Some((0x1000, 256)));
    assert_eq!(svm_free(&mut c, 0x1000), Ok(Some(SvmAllocation { base: 0x1000, size: 256, align: 128 })));
    assert_eq!(c.find_svm_alloc(0x1001), None);
    assert_eq!(svm_free(&mut c, 0x1000), Ok(None));
}

#[test]
fn run_free_frees_each() {
    let mut c = svm_context();
    assert_eq!(svm_alloc(&mut c, 0, 16, 0, 0x1000), Ok(0x1000));
    assert_eq!(svm_alloc(&mut c, 0, 16, 0, 0x2000), Ok(0x2000));
    assert_eq!(svm_alloc(&mut c, 0, 16, 0, 0x3000), Ok(0x3000));
    let freed = run_svm_free(&mut c, &vec![0x3000, 0x4000, 0x1000]);
    assert_eq!(freed.len(), 2);
    assert_eq!(freed[0].base, 0x3000);
    assert_eq!(freed[1].base, 0x1000);
    assert_eq!(c.svm_len(), 1);
    assert_eq!(c.find_svm_alloc(0x2000), Some((0x2000, 16)));
}

#[test]
fn tracker_alone() {
    let mut t = SvmTracker::new();
    assert!(t.is_free(0x10, 0x10));
    assert!(!t.is_free(0, 0x10));
    assert!(!t.is_free(0x10, 0));
    t.insert(SvmAllocation { base: 0x10, size: 0x10, align: 1 });
    assert!(!t.is_free(0x1f, 1));
    assert!(t.is_free(0x20, 1));
    assert_eq!(t.find_alloc(0x1f), Some(SvmAllocation { base: 0x10, size: 0x10, align: 1 }));
    assert_eq!(t.find_alloc(0x20), None);
    assert_eq!(t.len(), 1);
    assert_eq!(t.remove(0x11), None);
    assert_eq!(t.remove(0x10), Some(SvmAllocation { base: 0x10, size: 0x10, align: 1 }));
    assert_eq!(t.len(), 0);
}

#[test]
fn migrate_normalizes_zero_size() {
    let mut c = svm_context();
    assert_eq!(svm_alloc(&mut c, 0, 256, 0, 0x1000), Ok(0x1000));
    assert_eq!(resolve_migrate_range(&c, 0x1010, 0), Some(SvmRange { ptr: 0x1000, size: 256 }));
    assert_eq!(resolve_migrate_range(&c, 0x1010, 16), Some(SvmRange { ptr: 0x1010, size: 16 }));
    assert_eq!(resolve_migrate_range(&c, 0x1010, 240), Some(SvmRange { ptr: 0x1010, size: 240 }));
    assert_eq!(resolve_migrate_range(&c, 0x1010, 241), None);
    assert_eq!(resolve_migrate_range(&c, 0x1010, usize::MAX), None);
    assert_eq!(resolve_migrate_range(&c, 0x900, 0), None);
}

#[test]
fn migrate_command() {
    let mut c = svm_context();
    assert_eq!(svm_alloc(&mut c, 0, 256, 0, 0x1000), Ok(0x1000));
    assert_eq!(svm_alloc(&mut c, 0, 64, 0, 0x2000), Ok(0x2000));
    let q = svm_queue(true);
    let s = enqueue_svm_migrate_mem(&q, &c, 2, Some(&[0x1010, 0x2004]), Some(&[0, 8]), CL_MIGRATE_MEM_OBJECT_HOST).unwrap();
    assert_eq!(s.cmd_type, CL_COMMAND_SVM_MIGRATE_MEM);
    assert!(!s.blocking);
    assert_eq!(
        s.work,
        Work::SvmMigrate {
            pointers: vec![0x1000, 0x2004],
            sizes: vec![256, 8],
            to_device: false,
            content_undefined: false
        }
    );
    let s = enqueue_svm_migrate_mem(&q, &c, 2, Some(&[0x1010, 0x2004]), None, CL_MIGRATE_MEM_OBJECT_CONTENT_UNDEFINED).unwrap();
    assert_eq!(
        s.work,
        Work::SvmMigrate {
            pointers: vec![0x1000, 0x2000],
            sizes: vec![256, 64],
            to_device: true,
            content_undefined: true
        }
    );
}

#[test]
fn migrate_is_validated() {
    let mut c = svm_context();
    assert_eq!(svm_alloc(&mut c, 0, 256, 0, 0x1000), Ok(0x1000));
    let q = svm_queue(true);
    let e = |r: Result<_, ClError>| r.err();
    assert_eq!(e(enqueue_svm_migrate_mem(&svm_queue(false), &c, 1, Some(&[0x1000]), None, 0)), Some(ClError::InvalidOperation));
    assert_eq!(e(enqueue_svm_migrate_mem(&q, &c, 0, Some(&[0x1000]), None, 0)), Some(ClError::InvalidValue));
    assert_eq!(e(enqueue_svm_migrate_mem(&q, &c, 1, None, None, 0)), Some(ClError::InvalidValue));
    assert_eq!(e(enqueue_svm_migrate_mem(&q, &c, 2, Some(&[0x1000]), None, 0)), Some(ClError::InvalidValue));
    assert_eq!(e(enqueue_svm_migrate_mem(&q, &c, 1, Some(&[0x1000]), Some(&[]), 0)), Some(ClError::InvalidValue));
    assert_eq!(e(enqueue_svm_migrate_mem(&q, &c, 1, Some(&[0x1000]), Some(&[257]), 0)), Some(ClError::InvalidValue));
    assert_eq!(e(enqueue_svm_migrate_mem(&q, &c, 2, Some(&[0x1000, 0x5000]), None, 0)), Some(ClError::InvalidValue));
    let other = Queue { context: 99, device: svm_device(true) };
    assert_eq!(e(enqueue_svm_migrate_mem(&other, &c, 1, Some(&[0x1000]), None, 0)), Some(ClError::InvalidContext));
}

#[test]
fn free_command() {
    let q = svm_queue(true);
    let s = enqueue_svm_free(&q, 2, Some(&[0x1000, 0x2000, 0x3000]), 0, 0).unwrap();
    assert_eq!(s.cmd_type, CL_COMMAND_SVM_FREE);
    assert_eq!(s.work, Work::SvmFree { pointers: vec![0x1000, 0x2000], callback: None });
    let s = enqueue_svm_free_arm(&q, 1, Some(&[0x1000]), 0x77, 5).unwrap();
    assert_eq!(s.cmd_type, CL_COMMAND_SVM_FREE_ARM);
    assert_eq!(
        s.work,
        Work::SvmFree { pointers: vec![0x1000], callback: Some(SvmFreeCB { func: 0x77, user_data: 5 }) }
    );
    let s = enqueue_svm_free(&q, 0, None, 0, 0).unwrap();
    assert_eq!(s.work, Work::SvmFree { pointers: vec![], callback: None });
    assert_eq!(enqueue_svm_free(&q, 0, Some(&[0x1000]), 0, 0).err(), Some(ClError::InvalidValue));
    assert_eq!(enqueue_svm_free(&q, 1, None, 0, 0).err(), Some(ClError::InvalidValue));
    assert_eq!(enqueue_svm_free(&q, 2, Some(&[0x1000]), 0, 0).err(), Some(ClError::InvalidValue));
    assert_eq!(enqueue_svm_free(&svm_queue(false), 1, Some(&[0x1000]), 0, 0).err(), Some(ClError::InvalidOperation));
}

#[test]
fn memcpy_command() {
    let q = svm_queue(true);
    let s = enqueue_svm_memcpy(&q, 1, 0x2000, 0x1000, 16).unwrap();
    assert_eq!(s.cmd_type, CL_COMMAND_SVM_MEMCPY);
    assert!(s.blocking);
    assert_eq!(s.work, Work::SvmMemcpy { src: 0x1000, dst: 0x2000, size: 16 });
    assert_eq!(enqueue_svm_memcpy_arm(&q, 0, 0x2000, 0x1000, 16).unwrap().cmd_type, CL_COMMAND_SVM_MEMCPY_ARM);
    assert_eq!(enqueue_svm_memcpy(&q, 2, 0x2000, 0x1000, 16).err(), Some(ClError::InvalidValue));
    assert_eq!(enqueue_svm_memcpy(&q, 0, 0, 0x1000, 16).err(), Some(ClError::InvalidValue));
    assert_eq!(enqueue_svm_memcpy(&q, 0, 0x2000, 0, 16).err(), Some(ClError::InvalidValue));
    assert_eq!(enqueue_svm_memcpy(&q, 0, 0x1008, 0x1000, 16).err(), Some(ClError::MemCopyOverlap));
    assert_eq!(enqueue_svm_memcpy(&q, 0, 0x1000, 0x1008, 16).err(), Some(ClError::MemCopyOverlap));
    assert!(enqueue_svm_memcpy(&q, 0, 0x1010, 0x1000, 16).is_ok());
    assert!(enqueue_svm_memcpy(&q, 0, 0x1000, 0x1000, 0).is_ok());
    assert_eq!(enqueue_svm_memcpy(&q, 0, usize::MAX, usize::MAX - 1, usize::MAX).err(), Some(ClError::MemCopyOverlap));
    assert_eq!(enqueue_svm_memcpy(&svm_queue(false), 0, 0x2000, 0x1000, 16).err(), Some(ClError::InvalidOperation));
}

#[test]
fn mem_fill_command() {
    let q = svm_queue(true);
    let s = enqueue_svm_mem_fill(&q, 0x1000, Some(&[1, 2, 3, 4]), 16).unwrap();
    assert_eq!(s.cmd_type, CL_COMMAND_SVM_MEMFILL);
    assert_eq!(s.work, Work::SvmMemFill { ptr: 0x1000, size: 16, pattern: vec![1, 2, 3, 4] });
    assert_eq!(enqueue_svm_mem_fill_arm(&q, 0x1000, Some(&[1]), 3).unwrap().cmd_type, CL_COMMAND_SVM_MEMFILL_ARM);
    let e = Some(ClError::InvalidValue);
    assert_eq!(enqueue_svm_mem_fill(&q, 0, Some(&[1, 2, 3, 4]), 16).err(), e);
    assert_eq!(enqueue_svm_mem_fill(&q, 0x1002, Some(&[1, 2, 3, 4]), 16).err(), e);
    assert_eq!(enqueue_svm_mem_fill(&q, 0x1000, None, 16).err(), e);
    assert_eq!(enqueue_svm_mem_fill(&q, 0x1000, Some(&[1, 2, 3, 4]), 18).err(), e);
    assert_eq!(enqueue_svm_mem_fill(&q, 0x1000, Some(&[1, 2, 3]), 18).err(), e);
    assert_eq!(enqueue_svm_mem_fill(&q, 0x1000, Some(&[]), 0).err(), e);
    assert_eq!(enqueue_svm_mem_fill(&q, 0x1000, Some(&[0; 256]), 256).err(), e);
    assert!(enqueue_svm_mem_fill(&q, 0x1000, Some(&[0; 128]), 256).is_ok());
    assert_eq!(enqueue_svm_mem_fill(&svm_queue(false), 0x1000, Some(&[1]), 16).err(), Some(ClError::InvalidOperation));
}

#[test]
fn map_and_unmap_commands() {
    let q = svm_queue(true);
    let s = enqueue_svm_map(&q, 0, CL_MAP_READ, 0x1000, 16).unwrap();
    assert_eq!(s.cmd_type, CL_COMMAND_SVM_MAP);
    assert_eq!(s.work, Work::SvmMap { ptr: 0x1000, flags: CL_MAP_READ });
    assert_eq!(enqueue_svm_map_arm(&q, 1, 0, 0x1000, 16).unwrap().cmd_type, CL_COMMAND_SVM_MAP_ARM);
    assert_eq!(enqueue_svm_map(&q, 3, CL_MAP_READ, 0x1000, 16).err(), Some(ClError::InvalidValue));
    assert_eq!(enqueue_svm_map(&q, 0, CL_MAP_READ, 0, 16).err(), Some(ClError::InvalidValue));
    assert_eq!(enqueue_svm_map(&q, 0, CL_MAP_READ, 0x1000, 0).err(), Some(ClError::InvalidValue));
    assert_eq!(
        enqueue_svm_map(&q, 0, CL_MAP_READ | CL_MAP_WRITE_INVALIDATE_REGION, 0x1000, 16).err(),
        Some(ClError::InvalidValue)
    );
    assert_eq!(enqueue_svm_map(&svm_queue(false), 0, CL_MAP_READ, 0x1000, 16).err(), Some(ClError::InvalidOperation));
    let s = enqueue_svm_unmap(&q, 0x1000).unwrap();
    assert_eq!(s.cmd_type, CL_COMMAND_SVM_UNMAP);
    assert_eq!(s.work, Work::Nothing);
    assert_eq!(enqueue_svm_unmap_arm(&q, 0x1000).unwrap().cmd_type, CL_COMMAND_SVM_UNMAP_ARM);
    assert_eq!(enqueue_svm_unmap(&q, 0).err(), Some(ClError::InvalidValue));
    assert_eq!(enqueue_svm_unmap(&svm_queue(false), 0x1000).err(), Some(ClError::InvalidOperation));
}

#[test]
fn base_is_aligned() {
    let mut c = svm_context();
    // the default alignment is 128
    assert_eq!(svm_alloc(&mut c, 0, 64, 0, 129), Err(ClError::OutOfHostMemory));
    assert_eq!(svm_alloc(&mut c, 0, 64, 0, 0x1040), Err(ClError::OutOfHostMemory));
    assert_eq!(c.svm_len(), 0);
    assert_eq!(svm_alloc(&mut c, 0, 64, 0, 0x1080), Ok(0x1080));
    assert_eq!(svm_alloc(&mut c, 0, 64, 64, 0x2040), Ok(0x2040));
    assert_eq!(svm_alloc(&mut c, 0, 64, 64, 0x3020), Err(ClError::OutOfHostMemory));
    assert_eq!(svm_alloc(&mut c, 0, 64, 1, 0x3021), Ok(0x3021));
    assert_eq!(svm_alloc(&mut c, 0, 6, 3, 0x3000), Ok(0x3000));
    assert_eq!(svm_alloc(&mut c, 0, 6, 3, 0x4000), Err(ClError::OutOfHostMemory));
    assert_eq!(c.svm_len(), 4);
}
