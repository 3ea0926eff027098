use clmem::buffer::{create_buffer, create_sub_buffer, BufferRegion, CL_BUFFER_CREATE_TYPE_REGION};
use clmem::command::{
    Layout, Submission, Work, CL_COMMAND_COPY_BUFFER, CL_COMMAND_COPY_BUFFER_RECT,
    CL_COMMAND_FILL_BUFFER, CL_COMMAND_MIGRATE_MEM_OBJECTS, CL_COMMAND_READ_BUFFER,
    CL_COMMAND_READ_BUFFER_RECT, CL_COMMAND_WRITE_BUFFER, CL_COMMAND_WRITE_BUFFER_RECT,
};
use clmem::context::{Context, Queue};
use clmem::device::Device;
use clmem::error::ClError;
use clmem::flags::{
    CL_MEM_HOST_NO_ACCESS, CL_MEM_HOST_READ_ONLY, CL_MEM_HOST_WRITE_ONLY,
    CL_MIGRATE_MEM_OBJECT_HOST,
};
use clmem::mem::MemObject;
use clmem::transfer::{
    enqueue_copy_buffer, enqueue_copy_buffer_rect, enqueue_fill_buffer,
    enqueue_migrate_mem_objects, enqueue_read_buffer, enqueue_read_buffer_rect,
    enqueue_write_buffer, enqueue_write_buffer_rect, normalize_pitches, valid_pattern_size,
    Pitches,
};
use clmem::util::CLVec;

fn transfer_device() -> Device {
    Device {
        max_mem_alloc: 1 << 20,
        image_2d_size: 1024,
        image_3d_size: 256,
        image_buffer_size: 65536,
        image_array_size: 64,
        image_pitch_alignment: 1,
        image_base_address_alignment: 1,
        has_images: true,
        image2d_from_buffer: true,
        svm: true,
        bda: false,
        formats: Vec::new(),
    }
}

fn transfer_context() -> Context {
    Context::new(5, vec![transfer_device()], false).unwrap()
}

fn queue_of(context: usize) -> Queue {
    Queue { context, device: transfer_device() }
}

fn buffer(c: &mut Context, flags: u64, size: usize) -> MemObject {
    create_buffer(c, flags, size, 0).unwrap()
}

fn v(vals: [usize; 3]) -> Option<CLVec> {
    Some(CLVec::new(vals))
}

#[test]
fn read_buffer() {
    let mut c = transfer_context();
    let b = buffer(&mut c, 0, 64);
    let q = queue_of(5);
    assert_eq!(
        enqueue_read_buffer(&q, &b, 1, 8, 16, 0x1000),
        Ok(Submission {
            cmd_type: CL_COMMAND_READ_BUFFER,
            blocking: true,
            work: Work::ReadBuffer { buffer: b.handle(), offset: 8, ptr: 0x1000, size: 16 }
        })
    );
    assert!(enqueue_read_buffer(&q, &b, 0, 0, 64, 0x1000).is_ok());
    assert_eq!(enqueue_read_buffer(&q, &b, 0, 1, 64, 0x1000), Err(ClError::InvalidValue));
    assert_eq!(enqueue_read_buffer(&q, &b, 0, usize::MAX, 2, 0x1000), Err(ClError::InvalidValue));
    assert_eq!(enqueue_read_buffer(&q, &b, 0, 0, 64, 0), Err(ClError::InvalidValue));
    assert_eq!(enqueue_read_buffer(&q, &b, 7, 0, 64, 0x1000), Err(ClError::InvalidValue));
    assert_eq!(enqueue_read_buffer(&queue_of(6), &b, 0, 0, 64, 0x1000), Err(ClError::InvalidContext));
    let wo = buffer(&mut c, CL_MEM_HOST_WRITE_ONLY, 64);
    assert_eq!(enqueue_read_buffer(&q, &wo, 0, 0, 64, 0x1000), Err(ClError::InvalidOperation));
    let na = buffer(&mut c, CL_MEM_HOST_NO_ACCESS, 64);
    assert_eq!(enqueue_read_buffer(&q, &na, 0, 0, 64, 0x1000), Err(ClError::InvalidOperation));
}

#[test]
fn write_buffer() {
    let mut c = transfer_context();
    let b = buffer(&mut c, CL_MEM_HOST_WRITE_ONLY, 64);
    let q = queue_of(5);
    assert_eq!(
        enqueue_write_buffer(&q, &b, 0, 8, 16, 0x1000),
        Ok(Submission {
            cmd_type: CL_COMMAND_WRITE_BUFFER,
            blocking: false,
            work: Work::WriteBuffer { buffer: b.handle(), offset: 8, ptr: 0x1000, size: 16 }
        })
    );
    assert_eq!(enqueue_write_buffer(&q, &b, 0, 60, 5, 0x1000), Err(ClError::InvalidValue));
    assert_eq!(enqueue_write_buffer(&q, &b, 0, 0, 5, 0), Err(ClError::InvalidValue));
    assert_eq!(enqueue_write_buffer(&queue_of(6), &b, 0, 0, 5, 0x1000), Err(ClError::InvalidContext));
    let ro = buffer(&mut c, CL_MEM_HOST_READ_ONLY, 64);
    assert_eq!(enqueue_write_buffer(&q, &ro, 0, 0, 5, 0x1000), Err(ClError::InvalidOperation));
}

#[test]
fn copy_within_one_buffer() {
    let mut c = transfer_context();
    let b = buffer(&mut c, 0, 64);
    let q = queue_of(5);
    assert_eq!(enqueue_copy_buffer(&q, &b, &b, 0, 5, 10), Err(ClError::MemCopyOverlap));
    assert_eq!(
        enqueue_copy_buffer(&q, &b, &b, 0, 10, 10),
        Ok(Submission {
            cmd_type: CL_COMMAND_COPY_BUFFER,
            blocking: false,
            work: Work::CopyBuffer { src: 1, dst: 1, src_offset: 0, dst_offset: 10, size: 10 }
        })
    );
    assert_eq!(enqueue_copy_buffer(&q, &b, &b, 5, 0, 10), Err(ClError::MemCopyOverlap));
    assert_eq!(enqueue_copy_buffer(&q, &b, &b, 3, 3, 1), Err(ClError::MemCopyOverlap));
    assert!(enqueue_copy_buffer(&q, &b, &b, 3, 3, 0).is_ok());
}

#[test]
fn copy_between_buffers() {
    let mut c = transfer_context();
    let a = buffer(&mut c, 0, 64);
    let b = buffer(&mut c, 0, 32);
    let q = queue_of(5);
    assert!(enqueue_copy_buffer(&q, &a, &b, 0, 0, 32).is_ok());
    assert_eq!(enqueue_copy_buffer(&q, &a, &b, 0, 0, 33), Err(ClError::InvalidValue));
    assert_eq!(enqueue_copy_buffer(&q, &a, &b, 60, 0, 5), Err(ClError::InvalidValue));
    assert_eq!(enqueue_copy_buffer(&queue_of(6), &a, &b, 0, 0, 5), Err(ClError::InvalidContext));
}

#[test]
fn copy_between_sub_buffers() {
    let mut c = transfer_context();
    let parent = buffer(&mut c, 0, 64);
    let t = CL_BUFFER_CREATE_TYPE_REGION;
    let low = create_sub_buffer(&mut c, &parent, 0, t, Some(BufferRegion { origin: 0, size: 32 })).unwrap();
    let mid = create_sub_buffer(&mut c, &parent, 0, t, Some(BufferRegion { origin: 16, size: 32 })).unwrap();
    let q = queue_of(5);
    // bytes 16..32 of the parent are read and bytes 16..32 written
    assert_eq!(enqueue_copy_buffer(&q, &low, &mid, 16, 0, 16), Err(ClError::MemCopyOverlap));
    // bytes 0..16 read, bytes 16..32 written
    assert!(enqueue_copy_buffer(&q, &low, &mid, 0, 0, 16).is_ok());
    assert_eq!(enqueue_copy_buffer(&q, &parent, &mid, 20, 0, 8), Err(ClError::MemCopyOverlap));
    assert!(enqueue_copy_buffer(&q, &parent, &mid, 0, 0, 16).is_ok());
}

#[test]
fn pitches_are_normalized() {
    let r = CLVec::new([4, 3, 2]);
    assert_eq!(normalize_pitches(&r, 0, 0), Some(Pitches { row: 4, slice: 12 }));
    assert_eq!(normalize_pitches(&r, 10, 0), Some(Pitches { row: 10, slice: 30 }));
    assert_eq!(normalize_pitches(&r, 10, 40), Some(Pitches { row: 10, slice: 40 }));
    assert_eq!(normalize_pitches(&r, 3, 0), None);
    assert_eq!(normalize_pitches(&r, 10, 20), None);
    assert_eq!(normalize_pitches(&r, 10, 35), None);
    assert_eq!(normalize_pitches(&CLVec::new([0, 1, 1]), 0, 0), None);
    assert_eq!(normalize_pitches(&CLVec::new([4, usize::MAX, 1]), 0, 0), None);
}

#[test]
fn read_buffer_rect() {
    let mut c = transfer_context();
    let b = buffer(&mut c, 0, 64);
    let q = queue_of(5);
    let got = enqueue_read_buffer_rect(&q, &b, 1, v([0, 0, 0]), v([1, 1, 0]), v([4, 4, 1]), 16, 0, 0, 0, 0x1000);
    assert_eq!(
        got,
        Ok(Submission {
            cmd_type: CL_COMMAND_READ_BUFFER_RECT,
            blocking: true,
            work: Work::ReadBufferRect {
                buffer: 1,
                ptr: 0x1000,
                region: CLVec::new([4, 4, 1]),
                buffer_layout: Layout { origin: CLVec::new([0, 0, 0]), row_pitch: 16, slice_pitch: 64 },
                host_layout: Layout { origin: CLVec::new([1, 1, 0]), row_pitch: 4, slice_pitch: 16 },
            }
        })
    );
    // 4 + 3 * 16 = 52 bytes are needed
    let small = buffer(&mut c, 0, 51);
    let e = Err(ClError::InvalidValue);
    assert_eq!(enqueue_read_buffer_rect(&q, &small, 0, v([0, 0, 0]), v([0, 0, 0]), v([4, 4, 1]), 16, 0, 0, 0, 0x1000), e);
    let enough = buffer(&mut c, 0, 52);
    assert!(enqueue_read_buffer_rect(&q, &enough, 0, v([0, 0, 0]), v([0, 0, 0]), v([4, 4, 1]), 16, 0, 0, 0, 0x1000).is_ok());
    assert_eq!(enqueue_read_buffer_rect(&q, &b, 0, None, v([0, 0, 0]), v([4, 4, 1]), 0, 0, 0, 0, 0x1000), e);
    assert_eq!(enqueue_read_buffer_rect(&q, &b, 0, v([0, 0, 0]), None, v([4, 4, 1]), 0, 0, 0, 0, 0x1000), e);
    assert_eq!(enqueue_read_buffer_rect(&q, &b, 0, v([0, 0, 0]), v([0, 0, 0]), None, 0, 0, 0, 0, 0x1000), e);
    assert_eq!(enqueue_read_buffer_rect(&q, &b, 0, v([0, 0, 0]), v([0, 0, 0]), v([4, 4, 1]), 0, 0, 0, 0, 0), e);
    assert_eq!(enqueue_read_buffer_rect(&q, &b, 0, v([0, 0, 0]), v([0, 0, 0]), v([4, 0, 1]), 0, 0, 0, 0, 0x1000), e);
    assert_eq!(enqueue_read_buffer_rect(&q, &b, 0, v([0, 0, 0]), v([0, 0, 0]), v([4, 4, 1]), 3, 0, 0, 0, 0x1000), e);
    assert_eq!(enqueue_read_buffer_rect(&q, &b, 0, v([0, 0, 0]), v([0, 0, 0]), v([4, 4, 1]), 0, 0, 3, 0, 0x1000), e);
    assert_eq!(enqueue_read_buffer_rect(&q, &b, 0, v([0, 0, 0]), v([0, 0, 0]), v([4, 4, 1]), 4, 15, 0, 0, 0x1000), e);
    assert_eq!(enqueue_read_buffer_rect(&q, &b, 0, v([0, 0, 0]), v([0, 0, 0]), v([4, 4, 1]), 4, 18, 0, 0, 0x1000), e);
    assert_eq!(enqueue_read_buffer_rect(&q, &b, 0, v([0, 0, 0]), v([0, 0, 0]), v([4, 4, 1]), 0, 0, 4, 18, 0x1000), e);
    assert_eq!(enqueue_read_buffer_rect(&q, &b, 9, v([0, 0, 0]), v([0, 0, 0]), v([4, 4, 1]), 0, 0, 0, 0, 0x1000), e);
    assert_eq!(
        enqueue_read_buffer_rect(&queue_of(6), &b, 0, v([0, 0, 0]), v([0, 0, 0]), v([4, 4, 1]), 0, 0, 0, 0, 0x1000),
        Err(ClError::InvalidContext)
    );
    let wo = buffer(&mut c, CL_MEM_HOST_WRITE_ONLY, 64);
    assert_eq!(
        enqueue_read_buffer_rect(&q, &wo, 0, v([0, 0, 0]), v([0, 0, 0]), v([4, 4, 1]), 0, 0, 0, 0, 0x1000),
        Err(ClError::InvalidOperation)
    );
}

#[test]
fn rect_checks_in_order() {
    let mut c = transfer_context();
    let wo = buffer(&mut c, CL_MEM_HOST_WRITE_ONLY, 64);
    let ro = buffer(&mut c, CL_MEM_HOST_READ_ONLY, 64);
    let q = queue_of(5);
    let far = queue_of(6);
    let iv = Err(ClError::InvalidValue);
    // what is missing comes before the context and before the access
    assert_eq!(enqueue_read_buffer_rect(&far, &wo, 0, None, None, None, 0, 0, 0, 0, 0), iv);
    assert_eq!(enqueue_read_buffer_rect(&q, &wo, 0, None, None, None, 0, 0, 0, 0, 0), iv);
    assert_eq!(
        enqueue_read_buffer_rect(&q, &wo, 0, v([0, 0, 0]), v([0, 0, 0]), v([4, 0, 1]), 0, 0, 0, 0, 0x1000),
        iv
    );
    assert_eq!(enqueue_write_buffer_rect(&far, &ro, 0, v([0, 0, 0]), None, v([4, 4, 1]), 0, 0, 0, 0, 0x1000), iv);
    // the context comes before the access
    assert_eq!(
        enqueue_read_buffer_rect(&far, &wo, 0, v([0, 0, 0]), v([0, 0, 0]), v([4, 4, 1]), 0, 0, 0, 0, 0x1000),
        Err(ClError::InvalidContext)
    );
    assert_eq!(
        enqueue_write_buffer_rect(&far, &ro, 0, v([0, 0, 0]), v([0, 0, 0]), v([4, 4, 1]), 0, 0, 0, 0, 0x1000),
        Err(ClError::InvalidContext)
    );
    // the access comes before the pitches and the bounds
    assert_eq!(
        enqueue_read_buffer_rect(&q, &wo, 0, v([0, 0, 0]), v([0, 0, 0]), v([4, 4, 1]), 3, 0, 0, 0, 0x1000),
        Err(ClError::InvalidOperation)
    );
    assert_eq!(
        enqueue_write_buffer_rect(&q, &ro, 0, v([0, 60, 0]), v([0, 0, 0]), v([4, 4, 1]), 0, 0, 0, 0, 0x1000),
        Err(ClError::InvalidOperation)
    );
    // the context comes before the pitches, the bounds and the overlap of a copy
    let a = buffer(&mut c, 0, 64);
    assert_eq!(
        enqueue_copy_buffer_rect(&far, &a, &a, v([0, 0, 0]), v([0, 0, 0]), v([4, 4, 1]), 3, 0, 8, 0),
        Err(ClError::InvalidContext)
    );
    assert_eq!(enqueue_copy_buffer_rect(&far, &a, &a, None, v([0, 0, 0]), v([4, 4, 1]), 8, 0, 8, 0), iv);
}

#[test]
fn write_buffer_rect() {
    let mut c = transfer_context();
    let b = buffer(&mut c, 0, 64);
    let q = queue_of(5);
    let got = enqueue_write_buffer_rect(&q, &b, 0, v([4, 1, 0]), v([0, 0, 0]), v([4, 2, 1]), 8, 16, 0, 0, 0x1000);
    assert_eq!(
        got,
        Ok(Submission {
            cmd_type: CL_COMMAND_WRITE_BUFFER_RECT,
            blocking: false,
            work: Work::WriteBufferRect {
                buffer: 1,
                ptr: 0x1000,
                region: CLVec::new([4, 2, 1]),
                buffer_layout: Layout { origin: CLVec::new([4, 1, 0]), row_pitch: 8, slice_pitch: 16 },
                host_layout: Layout { origin: CLVec::new([0, 0, 0]), row_pitch: 4, slice_pitch: 8 },
            }
        })
    );
    let ro = buffer(&mut c, CL_MEM_HOST_READ_ONLY, 64);
    assert_eq!(
        enqueue_write_buffer_rect(&q, &ro, 0, v([0, 0, 0]), v([0, 0, 0]), v([4, 2, 1]), 0, 0, 0, 0, 0x1000),
        Err(ClError::InvalidOperation)
    );
    assert_eq!(
        enqueue_write_buffer_rect(&q, &b, 0, v([0, 0, 0]), v([0, 0, 0]), v([4, 2, 9]), 0, 0, 0, 0, 0x1000),
        Err(ClError::InvalidValue)
    );
    assert_eq!(
        enqueue_write_buffer_rect(&queue_of(6), &b, 0, v([0, 0, 0]), v([0, 0, 0]), v([4, 2, 1]), 0, 0, 0, 0, 0x1000),
        Err(ClError::InvalidContext)
    );
}

#[test]
fn copy_buffer_rect() {
    let mut c = transfer_context();
    let a = buffer(&mut c, 0, 64);
    let b = buffer(&mut c, 0, 64);
    let q = queue_of(5);
    let got = enqueue_copy_buffer_rect(&q, &a, &b, v([0, 0, 0]), v([4, 0, 0]), v([4, 4, 1]), 16, 0, 8, 0);
    assert_eq!(
        got,
        Ok(Submission {
            cmd_type: CL_COMMAND_COPY_BUFFER_RECT,
            blocking: false,
            work: Work::CopyBufferRect {
                src: 1,
                dst: 2,
                region: CLVec::new([4, 4, 1]),
                src_layout: Layout { origin: CLVec::new([0, 0, 0]), row_pitch: 16, slice_pitch: 64 },
                dst_layout: Layout { origin: CLVec::new([4, 0, 0]), row_pitch: 8, slice_pitch: 32 },
            }
        })
    );
    let e = Err(ClError::InvalidValue);
    assert_eq!(enqueue_copy_buffer_rect(&q, &a, &b, None, v([0, 0, 0]), v([4, 4, 1]), 0, 0, 0, 0), e);
    assert_eq!(enqueue_copy_buffer_rect(&q, &a, &b, v([0, 0, 0]), v([0, 0, 0]), v([4, 4, 0]), 0, 0, 0, 0), e);
    assert_eq!(enqueue_copy_buffer_rect(&q, &a, &b, v([0, 0, 0]), v([0, 0, 0]), v([4, 4, 1]), 3, 0, 0, 0), e);
    assert_eq!(enqueue_copy_buffer_rect(&q, &a, &b, v([0, 0, 0]), v([0, 0, 0]), v([4, 4, 1]), 4, 15, 0, 0), e);
    assert_eq!(enqueue_copy_buffer_rect(&q, &a, &b, v([0, 0, 0]), v([0, 0, 0]), v([4, 4, 1]), 4, 18, 0, 0), e);
    assert_eq!(enqueue_copy_buffer_rect(&q, &a, &b, v([0, 0, 0]), v([0, 0, 0]), v([4, 4, 1]), 0, 0, 4, 18), e);
    assert_eq!(enqueue_copy_buffer_rect(&q, &a, &b, v([0, 13, 0]), v([0, 0, 0]), v([4, 4, 1]), 0, 0, 0, 0), e);
    assert_eq!(enqueue_copy_buffer_rect(&q, &a, &b, v([0, 0, 0]), v([0, 13, 0]), v([4, 4, 1]), 0, 0, 0, 0), e);
    assert_eq!(enqueue_copy_buffer_rect(&queue_of(6), &a, &b, v([0, 0, 0]), v([0, 0, 0]), v([4, 4, 1]), 0, 0, 0, 0), Err(ClError::InvalidContext));
}

#[test]
fn copy_buffer_rect_within_one_buffer() {
    let mut c = transfer_context();
    let a = buffer(&mut c, 0, 64);
    let q = queue_of(5);
    // the left and the right half of a surface 8 bytes wide
    assert!(enqueue_copy_buffer_rect(&q, &a, &a, v([0, 0, 0]), v([4, 0, 0]), v([4, 4, 1]), 8, 0, 8, 0).is_ok());
    assert_eq!(
        enqueue_copy_buffer_rect(&q, &a, &a, v([0, 0, 0]), v([3, 0, 0]), v([4, 4, 1]), 8, 0, 8, 0),
        Err(ClError::MemCopyOverlap)
    );
    assert_eq!(
        enqueue_copy_buffer_rect(&q, &a, &a, v([0, 0, 0]), v([0, 0, 0]), v([4, 4, 1]), 8, 0, 8, 0),
        Err(ClError::MemCopyOverlap)
    );
    // both pitches differ within one buffer
    assert_eq!(
        enqueue_copy_buffer_rect(&q, &a, &a, v([0, 0, 0]), v([4, 0, 0]), v([4, 2, 1]), 8, 16, 16, 32),
        Err(ClError::InvalidValue)
    );
    // the context is looked at before the overlap
    assert_eq!(
        enqueue_copy_buffer_rect(&queue_of(6), &a, &a, v([0, 0, 0]), v([0, 0, 0]), v([4, 4, 1]), 8, 0, 8, 0),
        Err(ClError::InvalidContext)
    );
}

#[test]
fn fill_buffer() {
    let mut c = transfer_context();
    let b = buffer(&mut c, 0, 64);
    let q = queue_of(5);
    let s = enqueue_fill_buffer(&q, &b, Some(&[1, 2, 3, 4]), 8, 16).unwrap();
    assert_eq!(s.cmd_type, CL_COMMAND_FILL_BUFFER);
    assert!(!s.blocking);
    assert_eq!(s.work, Work::FillBuffer { buffer: 1, pattern: vec![1, 2, 3, 4], offset: 8, size: 16 });
    let e = Some(ClError::InvalidValue);
    assert_eq!(enqueue_fill_buffer(&q, &b, Some(&[1, 2, 3, 4]), 56, 12).err(), e);
    assert_eq!(enqueue_fill_buffer(&q, &b, None, 8, 16).err(), e);
    assert_eq!(enqueue_fill_buffer(&q, &b, Some(&[]), 8, 16).err(), e);
    assert_eq!(enqueue_fill_buffer(&q, &b, Some(&[1, 2, 3]), 0, 12).err(), e);
    assert_eq!(enqueue_fill_buffer(&q, &b, Some(&[1, 2, 3, 4]), 2, 16).err(), e);
    assert_eq!(enqueue_fill_buffer(&q, &b, Some(&[1, 2, 3, 4]), 8, 18).err(), e);
    assert_eq!(enqueue_fill_buffer(&queue_of(6), &b, Some(&[1, 2, 3, 4]), 8, 16).err(), Some(ClError::InvalidContext));
    for n in [1usize, 2, 4, 8, 16, 32, 64, 128] {
        assert!(valid_pattern_size(n));
    }
    for n in [0usize, 3, 5, 24, 129, 256] {
        assert!(!valid_pattern_size(n));
    }
}

#[test]
fn migrate_mem_objects() {
    let mut c = transfer_context();
    let a = buffer(&mut c, 0, 64);
    let b = buffer(&mut c, 0, 64);
    let mut other = Context::new(6, vec![transfer_device()], false).unwrap();
    let foreign = buffer(&mut other, 0, 64);
    let q = queue_of(5);
    assert_eq!(
        enqueue_migrate_mem_objects(&q, &[&a, &b], CL_MIGRATE_MEM_OBJECT_HOST),
        Ok(Submission { cmd_type: CL_COMMAND_MIGRATE_MEM_OBJECTS, blocking: false, work: Work::Nothing })
    );
    assert!(enqueue_migrate_mem_objects(&q, &[&a], 0).is_ok());
    assert_eq!(enqueue_migrate_mem_objects(&q, &[], 0), Err(ClError::InvalidValue));
    assert_eq!(enqueue_migrate_mem_objects(&q, &[&a, &foreign], 0), Err(ClError::InvalidContext));
    assert_eq!(enqueue_migrate_mem_objects(&q, &[&a], 4), Err(ClError::InvalidValue));
    assert_eq!(enqueue_migrate_mem_objects(&q, &[&foreign], 4), Err(ClError::InvalidValue));
}
