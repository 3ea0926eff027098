use clmem::buffer::create_buffer;
use clmem::command::{
    Submission, Work, CL_COMMAND_COPY_BUFFER_TO_IMAGE, CL_COMMAND_COPY_IMAGE,
    CL_COMMAND_COPY_IMAGE_TO_BUFFER, CL_COMMAND_FILL_BUFFER, CL_COMMAND_READ_IMAGE,
    CL_COMMAND_WRITE_BUFFER_RECT,
};
use clmem::context::{Context, Queue};
use clmem::desc::{
    ImageDesc, CL_MEM_OBJECT_IMAGE1D, CL_MEM_OBJECT_IMAGE1D_BUFFER, CL_MEM_OBJECT_IMAGE2D,
    CL_MEM_OBJECT_IMAGE2D_ARRAY, CL_MEM_OBJECT_IMAGE3D,
};
use clmem::device::{Device, FormatSupport, TypeSupport};
use clmem::error::ClError;
use clmem::flags::{
    CL_MEM_HOST_NO_ACCESS, CL_MEM_HOST_READ_ONLY, CL_MEM_HOST_WRITE_ONLY, CL_MEM_READ_ONLY,
    CL_MEM_READ_WRITE, CL_MEM_USE_HOST_PTR, CL_MEM_WRITE_ONLY,
};
use clmem::format::{
    ImageFormat, CL_BGRA, CL_DEPTH, CL_FLOAT, CL_R, CL_RGBA, CL_SBGRA, CL_SRGBA, CL_UNORM_INT8,
    CL_UNSIGNED_INT8,
};
use clmem::image::{
    create_image, create_image_2d, create_image_3d, create_image_with_properties,
    get_supported_image_formats, validate_buffer, validate_image_bounds,
};
use clmem::image_transfer::{
    enqueue_copy_buffer_to_image, enqueue_copy_image, enqueue_copy_image_to_buffer,
    enqueue_fill_image, enqueue_read_image, enqueue_write_image,
};
use clmem::mem::MemObject;
use clmem::util::CLVec;

const ALL_TYPES: [u32; 6] = [
    CL_MEM_OBJECT_IMAGE1D,
    CL_MEM_OBJECT_IMAGE1D_BUFFER,
    CL_MEM_OBJECT_IMAGE2D,
    CL_MEM_OBJECT_IMAGE2D_ARRAY,
    CL_MEM_OBJECT_IMAGE3D,
    0x10F5,
];

fn fmt(order: u32, data_type: u32) -> ImageFormat {
    ImageFormat { image_channel_order: order, image_channel_data_type: data_type }
}

fn support(format: ImageFormat, flags: u64) -> FormatSupport {
    FormatSupport {
        format,
        types: ALL_TYPES.iter().map(|t| TypeSupport { image_type: *t, flags }).collect(),
    }
}

fn image_device(formats: Vec<FormatSupport>) -> Device {
    Device {
        max_mem_alloc: 1 << 20,
        image_2d_size: 1024,
        image_3d_size: 256,
        image_buffer_size: 65536,
        image_array_size: 64,
        image_pitch_alignment: 1,
        image_base_address_alignment: 16,
        has_images: true,
        image2d_from_buffer: true,
        svm: true,
        bda: false,
        formats,
    }
}

fn rw() -> u64 {
    CL_MEM_READ_WRITE | CL_MEM_READ_ONLY | CL_MEM_WRITE_ONLY
}

fn image_context() -> Context {
    let formats = vec![
        support(fmt(CL_RGBA, CL_UNORM_INT8), rw()),
        support(fmt(CL_SRGBA, CL_UNORM_INT8), CL_MEM_READ_ONLY),
        support(fmt(CL_BGRA, CL_UNORM_INT8), rw()),
        support(fmt(CL_SBGRA, CL_UNORM_INT8), rw()),
        support(fmt(CL_R, CL_FLOAT), rw()),
        support(fmt(CL_DEPTH, CL_FLOAT), rw()),
    ];
    Context::new(8, vec![image_device(formats)], false).unwrap()
}

fn image_queue(context: usize) -> Queue {
    Queue { context, device: image_device(Vec::new()) }
}

fn desc(image_type: u32, w: usize, h: usize, d: usize) -> ImageDesc {
    ImageDesc {
        image_type,
        image_width: w,
        image_height: h,
        image_depth: d,
        image_array_size: 0,
        image_row_pitch: 0,
        image_slice_pitch: 0,
        num_mip_levels: 0,
        num_samples: 0,
    }
}

fn image_8x8(c: &mut Context, flags: u64) -> MemObject {
    create_image_2d(c, flags, Some(&fmt(CL_RGBA, CL_UNORM_INT8)), 8, 8, 0, 0).unwrap()
}

fn v(vals: [usize; 3]) -> Option<CLVec> {
    Some(CLVec::new(vals))
}

#[test]
fn image_is_made() {
    let mut c = image_context();
    let i = create_image_2d(&mut c, 0, Some(&fmt(CL_RGBA, CL_UNORM_INT8)), 4, 2, 0, 0).unwrap();
    assert_eq!(i.handle(), 1);
    assert_eq!(i.mem_type(), CL_MEM_OBJECT_IMAGE2D);
    assert_eq!(i.flags(), CL_MEM_READ_WRITE);
    assert_eq!(i.size(), 32);
    assert!(!i.is_buffer());
    let info = i.image().unwrap();
    assert_eq!(info.elem_size, 4);
    assert_eq!(info.desc.image_row_pitch, 16);
    assert_eq!(info.desc.image_slice_pitch, 32);
    assert_eq!(info.format, fmt(CL_RGBA, CL_UNORM_INT8));
    let vol = create_image_3d(&mut c, CL_MEM_READ_ONLY, Some(&fmt(CL_R, CL_FLOAT)), 4, 3, 2, 0, 0, 0).unwrap();
    assert_eq!(vol.size(), 96);
    assert_eq!(vol.image().unwrap().desc.image_slice_pitch, 48);
    assert_eq!(vol.handle(), 2);
}

#[test]
fn image_request_is_validated_in_order() {
    let mut c = image_context();
    let f = fmt(CL_RGBA, CL_UNORM_INT8);
    let d = Some(desc(CL_MEM_OBJECT_IMAGE2D, 4, 4, 0));
    assert_eq!(create_image(&mut c, 0, None, d, None, 0).err(), Some(ClError::InvalidImageFormatDescriptor));
    assert_eq!(create_image(&mut c, 0, Some(&f), None, None, 0).err(), Some(ClError::InvalidImageDescriptor));
    assert_eq!(create_image(&mut c, 0, Some(&f), d, None, 0x1000).err(), Some(ClError::InvalidHostPtr));
    assert_eq!(create_image(&mut c, CL_MEM_USE_HOST_PTR, Some(&f), d, None, 0).err(), Some(ClError::InvalidHostPtr));
    assert_eq!(
        create_image(&mut c, CL_MEM_READ_ONLY | CL_MEM_WRITE_ONLY, Some(&f), d, None, 0).err(),
        Some(ClError::InvalidValue)
    );
    assert_eq!(
        create_image(&mut c, 0, Some(&fmt(CL_RGBA, CL_UNSIGNED_INT8)), d, None, 0).err(),
        Some(ClError::ImageFormatNotSupported)
    );
    assert_eq!(
        create_image(&mut c, CL_MEM_WRITE_ONLY, Some(&fmt(CL_SRGBA, CL_UNORM_INT8)), d, None, 0).err(),
        Some(ClError::ImageFormatNotSupported)
    );
    assert!(create_image(&mut c, CL_MEM_READ_ONLY, Some(&fmt(CL_SRGBA, CL_UNORM_INT8)), d, None, 0).is_ok());
    assert_eq!(
        create_image(&mut c, 0, Some(&f), Some(desc(CL_MEM_OBJECT_IMAGE1D_BUFFER, 4, 0, 0)), None, 0).err(),
        Some(ClError::InvalidImageDescriptor)
    );
    assert_eq!(
        create_image_with_properties(&mut c, Some(&[1, 2, 0]), 0, Some(&f), d, None, 0).err(),
        Some(ClError::InvalidProperty)
    );
    assert_eq!(
        create_image_with_properties(&mut c, Some(&[1, 2]), 0, Some(&f), d, None, 0).err(),
        Some(ClError::InvalidProperty)
    );
    assert!(create_image_with_properties(&mut c, Some(&[0]), 0, Some(&f), d, None, 0).is_ok());
    let mut blind = image_device(Vec::new());
    blind.has_images = false;
    let mut none = Context::new(9, vec![blind], false).unwrap();
    assert_eq!(create_image(&mut none, 0, None, None, None, 0).err(), Some(ClError::InvalidOperation));
}

#[test]
fn image_with_host_memory() {
    let mut c = image_context();
    let f = fmt(CL_RGBA, CL_UNORM_INT8);
    let i = create_image_2d(&mut c, CL_MEM_USE_HOST_PTR, Some(&f), 4, 4, 32, 0x4000).unwrap();
    assert_eq!(i.host_ptr(), 0x4000);
    assert_eq!(i.image().unwrap().desc.image_row_pitch, 32);
    assert_eq!(
        create_image_2d(&mut c, CL_MEM_USE_HOST_PTR, Some(&f), 4, 4, 30, 0x4000).err(),
        Some(ClError::InvalidImageDescriptor)
    );
    assert_eq!(
        create_image_2d(&mut c, CL_MEM_USE_HOST_PTR, Some(&f), 4, 4, 0, usize::MAX - 8).err(),
        Some(ClError::InvalidHostPtr)
    );
}

#[test]
fn image_from_a_buffer() {
    let mut c = image_context();
    let f = fmt(CL_RGBA, CL_UNORM_INT8);
    let b = create_buffer(&mut c, CL_MEM_READ_ONLY | CL_MEM_HOST_NO_ACCESS, 64, 0).unwrap();
    let i = create_image(&mut c, 0, Some(&f), Some(desc(CL_MEM_OBJECT_IMAGE1D_BUFFER, 16, 0, 0)), Some(&b), 0).unwrap();
    assert_eq!(i.flags(), CL_MEM_READ_ONLY | CL_MEM_HOST_NO_ACCESS);
    assert_eq!(i.parent(), Some(b.handle()));
    assert!(i.backing_memory_eq(&b));
    assert_eq!(i.size(), 64);
    assert_eq!(
        create_image(&mut c, 0, Some(&f), Some(desc(CL_MEM_OBJECT_IMAGE1D_BUFFER, 17, 0, 0)), Some(&b), 0).err(),
        Some(ClError::InvalidImageDescriptor)
    );
    assert_eq!(
        create_image(&mut c, CL_MEM_WRITE_ONLY, Some(&f), Some(desc(CL_MEM_OBJECT_IMAGE1D_BUFFER, 16, 0, 0)), Some(&b), 0).err(),
        Some(ClError::InvalidValue)
    );
    assert!(create_image(&mut c, 0, Some(&f), Some(desc(CL_MEM_OBJECT_IMAGE2D, 4, 4, 0)), Some(&b), 0).is_ok());
    assert_eq!(
        create_image(&mut c, 0, Some(&f), Some(desc(CL_MEM_OBJECT_IMAGE2D, 4, 5, 0)), Some(&b), 0).err(),
        Some(ClError::InvalidImageDescriptor)
    );
    assert_eq!(
        create_image(&mut c, 0, Some(&f), Some(desc(CL_MEM_OBJECT_IMAGE3D, 4, 2, 2)), Some(&b), 0).err(),
        Some(ClError::InvalidOperation)
    );
}

#[test]
fn image_from_an_image() {
    let mut c = image_context();
    let parent = create_image_2d(&mut c, 0, Some(&fmt(CL_BGRA, CL_UNORM_INT8)), 4, 4, 0, 0).unwrap();
    assert_eq!(parent.image().unwrap().desc.image_row_pitch, 16);
    // the pitches are left to be computed; given, they would be refused
    let d = desc(CL_MEM_OBJECT_IMAGE2D, 4, 4, 0);
    assert_eq!(
        create_image(&mut c, 0, Some(&fmt(CL_SBGRA, CL_UNORM_INT8)), Some(parent.image().unwrap().desc), Some(&parent), 0).err(),
        Some(ClError::InvalidImageDescriptor)
    );
    let view = create_image(&mut c, 0, Some(&fmt(CL_SBGRA, CL_UNORM_INT8)), Some(d), Some(&parent), 0).unwrap();
    assert_eq!(view.parent(), Some(parent.handle()));
    assert_eq!(view.image().unwrap().format, fmt(CL_SBGRA, CL_UNORM_INT8));
    assert_eq!(
        create_image(&mut c, 0, Some(&fmt(CL_RGBA, CL_UNORM_INT8)), Some(d), Some(&parent), 0).err(),
        Some(ClError::InvalidImageFormatDescriptor)
    );
    let mut other = d;
    other.image_width = 2;
    other.image_row_pitch = 0;
    other.image_slice_pitch = 0;
    assert_eq!(
        create_image(&mut c, 0, Some(&fmt(CL_BGRA, CL_UNORM_INT8)), Some(other), Some(&parent), 0).err(),
        Some(ClError::InvalidImageDescriptor)
    );
}

#[test]
fn parent_checks_alone() {
    let mut c = image_context();
    let f = fmt(CL_DEPTH, CL_FLOAT);
    let devs = vec![image_device(Vec::new())];
    let d2 = {
        let mut d = desc(CL_MEM_OBJECT_IMAGE2D, 4, 4, 0);
        d.image_row_pitch = 16;
        d.image_slice_pitch = 64;
        d
    };
    assert_eq!(validate_buffer(&d2, CL_MEM_READ_ONLY, &f, 0, 4, None, &devs), Ok(CL_MEM_READ_ONLY));
    let hosted = create_buffer(&mut c, CL_MEM_USE_HOST_PTR, 64, 0x4000).unwrap();
    assert_eq!(
        validate_buffer(&d2, 0, &f, 0x4000, 4, Some(&hosted), &devs),
        Ok(CL_MEM_USE_HOST_PTR)
    );
    assert_eq!(
        validate_buffer(&d2, 0, &f, 0x4004, 4, Some(&hosted), &devs),
        Err(ClError::InvalidImageDescriptor)
    );
    let mut unaligned = image_device(Vec::new());
    unaligned.image_base_address_alignment = 0;
    assert_eq!(
        validate_buffer(&d2, 0, &f, 0x4000, 4, Some(&hosted), &vec![unaligned]),
        Err(ClError::InvalidOperation)
    );
    // a depth image can be made from a red one, not the other way round
    let red = create_image_2d(&mut c, 0, Some(&fmt(CL_R, CL_FLOAT)), 4, 4, 0, 0).unwrap();
    assert_eq!(validate_buffer(&d2, 0, &f, 0, 4, Some(&red), &devs), Ok(CL_MEM_READ_WRITE));
    let depth = create_image_2d(&mut c, 0, Some(&f), 4, 4, 0, 0).unwrap();
    assert_eq!(
        validate_buffer(&d2, 0, &fmt(CL_R, CL_FLOAT), 0, 4, Some(&depth), &devs),
        Err(ClError::InvalidImageFormatDescriptor)
    );
    assert_eq!(
        validate_buffer(&d2, 0, &fmt(CL_DEPTH, CL_UNORM_INT8), 0, 4, Some(&red), &devs),
        Err(ClError::InvalidImageFormatDescriptor)
    );
    let vol = create_image_3d(&mut c, 0, Some(&fmt(CL_R, CL_FLOAT)), 4, 4, 2, 0, 0, 0).unwrap();
    assert_eq!(
        validate_buffer(&d2, 0, &fmt(CL_R, CL_FLOAT), 0, 4, Some(&vol), &devs),
        Err(ClError::InvalidImageDescriptor)
    );
}

#[test]
fn bounds_of_an_image() {
    let mut c = image_context();
    let i = image_8x8(&mut c, 0);
    assert_eq!(validate_image_bounds(&i, CLVec::new([6, 6, 0]), CLVec::new([2, 2, 1])), Ok(()));
    assert_eq!(
        validate_image_bounds(&i, CLVec::new([6, 6, 0]), CLVec::new([3, 2, 1])),
        Err(ClError::InvalidValue)
    );
    let b = create_buffer(&mut c, 0, 64, 0).unwrap();
    assert_eq!(
        validate_image_bounds(&b, CLVec::new([0, 0, 0]), CLVec::new([1, 1, 1])),
        Err(ClError::InvalidMemObject)
    );
}

#[test]
fn supported_formats_sorted_once() {
    let one = image_device(vec![
        support(fmt(CL_RGBA, CL_UNORM_INT8), rw()),
        support(fmt(CL_R, CL_FLOAT), CL_MEM_READ_ONLY),
        FormatSupport { format: fmt(CL_BGRA, CL_UNORM_INT8), types: Vec::new() },
    ]);
    let two = image_device(vec![
        support(fmt(CL_R, CL_UNORM_INT8), rw()),
        support(fmt(CL_RGBA, CL_UNORM_INT8), rw()),
    ]);
    let c = Context::new(8, vec![one, two], false).unwrap();
    let all = get_supported_image_formats(&c, CL_MEM_READ_ONLY, CL_MEM_OBJECT_IMAGE2D, 10, true).unwrap();
    assert_eq!(all.count, 3);
    assert_eq!(
        all.formats,
        vec![fmt(CL_R, CL_UNORM_INT8), fmt(CL_R, CL_FLOAT), fmt(CL_RGBA, CL_UNORM_INT8)]
    );
    let writable = get_supported_image_formats(&c, CL_MEM_WRITE_ONLY, CL_MEM_OBJECT_IMAGE2D, 1, true).unwrap();
    assert_eq!(writable.count, 2);
    assert_eq!(writable.formats, vec![fmt(CL_R, CL_UNORM_INT8)]);
    // without access every format of the tables is listed, also one without types
    let any = get_supported_image_formats(&c, 0, CL_MEM_OBJECT_IMAGE2D, 0, false).unwrap();
    assert_eq!(any.count, 4);
    assert_eq!(any.formats, Vec::new());
    assert_eq!(
        get_supported_image_formats(&c, 0, CL_MEM_OBJECT_IMAGE2D, 0, true).err(),
        Some(ClError::InvalidValue)
    );
    assert_eq!(get_supported_image_formats(&c, 0, 0x10F0, 1, true).err(), Some(ClError::InvalidValue));
    assert_eq!(
        get_supported_image_formats(&c, CL_MEM_USE_HOST_PTR, CL_MEM_OBJECT_IMAGE2D, 1, true).err(),
        Some(ClError::InvalidValue)
    );
    assert!(get_supported_image_formats(&c, CL_MEM_HOST_NO_ACCESS, CL_MEM_OBJECT_IMAGE2D, 1, true).is_ok());
}

#[test]
fn read_image() {
    let mut c = image_context();
    let i = image_8x8(&mut c, 0);
    let q = image_queue(8);
    assert_eq!(
        enqueue_read_image(&q, &i, 1, v([6, 6, 0]), v([2, 2, 1]), 0, 0, 0x1000),
        Ok(Submission {
            cmd_type: CL_COMMAND_READ_IMAGE,
            blocking: true,
            work: Work::ReadImage {
                image: i.handle(),
                ptr: 0x1000,
                origin: CLVec::new([6, 6, 0]),
                region: CLVec::new([2, 2, 1]),
                row_pitch: 8,
                slice_pitch: 16,
            }
        })
    );
    let e = Err(ClError::InvalidValue);
    assert_eq!(enqueue_read_image(&q, &i, 0, v([6, 6, 0]), v([3, 2, 1]), 0, 0, 0x1000), e);
    assert_eq!(enqueue_read_image(&q, &i, 0, None, v([2, 2, 1]), 0, 0, 0x1000), e);
    assert_eq!(enqueue_read_image(&q, &i, 0, v([0, 0, 0]), None, 0, 0, 0x1000), e);
    assert_eq!(enqueue_read_image(&q, &i, 0, v([0, 0, 0]), v([2, 2, 1]), 0, 0, 0), e);
    assert_eq!(enqueue_read_image(&q, &i, 0, v([0, 0, 0]), v([2, 2, 1]), 0, 64, 0x1000), e);
    assert_eq!(enqueue_read_image(&q, &i, 5, v([0, 0, 0]), v([2, 2, 1]), 0, 0, 0x1000), e);
    assert_eq!(
        enqueue_read_image(&image_queue(1), &i, 0, v([0, 0, 0]), v([2, 2, 1]), 0, 0, 0x1000),
        Err(ClError::InvalidContext)
    );
    let hidden = image_8x8(&mut c, CL_MEM_HOST_WRITE_ONLY);
    assert_eq!(
        enqueue_read_image(&q, &hidden, 0, v([0, 0, 0]), v([2, 2, 1]), 0, 0, 0x1000),
        Err(ClError::InvalidOperation)
    );
    let b = create_buffer(&mut c, 0, 64, 0).unwrap();
    assert_eq!(
        enqueue_read_image(&q, &b, 0, v([0, 0, 0]), v([2, 2, 1]), 0, 0, 0x1000),
        Err(ClError::InvalidMemObject)
    );
    let vol = create_image_3d(&mut c, 0, Some(&fmt(CL_RGBA, CL_UNORM_INT8)), 4, 4, 4, 0, 0, 0).unwrap();
    let s = enqueue_read_image(&q, &vol, 0, v([0, 0, 0]), v([2, 2, 2]), 12, 48, 0x1000).unwrap();
    assert_eq!(
        s.work,
        Work::ReadImage {
            image: vol.handle(),
            ptr: 0x1000,
            origin: CLVec::new([0, 0, 0]),
            region: CLVec::new([2, 2, 2]),
            row_pitch: 12,
            slice_pitch: 48
        }
    );
}

#[test]
fn write_image() {
    let mut c = image_context();
    let i = image_8x8(&mut c, 0);
    let q = image_queue(8);
    assert_eq!(
        enqueue_write_image(&q, &i, 0, v([0, 0, 0]), v([8, 8, 1]), 40, 0, 0x1000),
        Ok(Submission {
            cmd_type: CL_COMMAND_WRITE_BUFFER_RECT,
            blocking: false,
            work: Work::WriteImage {
                image: i.handle(),
                ptr: 0x1000,
                origin: CLVec::new([0, 0, 0]),
                region: CLVec::new([8, 8, 1]),
                row_pitch: 40,
                slice_pitch: 320,
            }
        })
    );
    let ro = image_8x8(&mut c, CL_MEM_HOST_READ_ONLY);
    assert_eq!(
        enqueue_write_image(&q, &ro, 0, v([0, 0, 0]), v([8, 8, 1]), 0, 0, 0x1000),
        Err(ClError::InvalidOperation)
    );
    assert_eq!(
        enqueue_write_image(&q, &i, 0, v([0, 0, 0]), v([9, 8, 1]), 0, 0, 0x1000),
        Err(ClError::InvalidValue)
    );
}

#[test]
fn copy_image() {
    let mut c = image_context();
    let a = image_8x8(&mut c, 0);
    let b = create_image_2d(&mut c, 0, Some(&fmt(CL_RGBA, CL_UNORM_INT8)), 4, 4, 0, 0).unwrap();
    let q = image_queue(8);
    assert_eq!(
        enqueue_copy_image(&q, &a, &b, v([4, 4, 0]), v([0, 0, 0]), v([4, 4, 1])),
        Ok(Submission {
            cmd_type: CL_COMMAND_COPY_IMAGE,
            blocking: false,
            work: Work::CopyImage {
                src: a.handle(),
                dst: b.handle(),
                src_origin: CLVec::new([4, 4, 0]),
                dst_origin: CLVec::new([0, 0, 0]),
                region: CLVec::new([4, 4, 1]),
            }
        })
    );
    let e = Err(ClError::InvalidValue);
    assert_eq!(enqueue_copy_image(&q, &a, &b, v([5, 4, 0]), v([0, 0, 0]), v([4, 4, 1])), e);
    assert_eq!(enqueue_copy_image(&q, &a, &b, v([0, 0, 0]), v([1, 0, 0]), v([4, 4, 1])), e);
    assert_eq!(enqueue_copy_image(&q, &a, &b, None, v([0, 0, 0]), v([4, 4, 1])), e);
    let other = create_image_2d(&mut c, 0, Some(&fmt(CL_BGRA, CL_UNORM_INT8)), 4, 4, 0, 0).unwrap();
    assert_eq!(
        enqueue_copy_image(&q, &a, &other, v([0, 0, 0]), v([0, 0, 0]), v([4, 4, 1])),
        Err(ClError::ImageFormatMismatch)
    );
    assert_eq!(
        enqueue_copy_image(&image_queue(1), &a, &b, v([0, 0, 0]), v([0, 0, 0]), v([4, 4, 1])),
        Err(ClError::InvalidContext)
    );
}

#[test]
fn fill_image() {
    let mut c = image_context();
    let i = image_8x8(&mut c, 0);
    let q = image_queue(8);
    assert_eq!(
        enqueue_fill_image(&q, &i, Some([1, 2, 3, 4]), v([0, 0, 0]), v([8, 8, 1])),
        Ok(Submission {
            cmd_type: CL_COMMAND_FILL_BUFFER,
            blocking: false,
            work: Work::FillImage {
                image: i.handle(),
                fill_color: (1, 2, 3, 4),
                origin: CLVec::new([0, 0, 0]),
                region: CLVec::new([8, 8, 1]),
            }
        })
    );
    let depth = create_image_2d(&mut c, 0, Some(&fmt(CL_DEPTH, CL_FLOAT)), 8, 8, 0, 0).unwrap();
    let s = enqueue_fill_image(&q, &depth, Some([7, 2, 3, 4]), v([0, 0, 0]), v([8, 8, 1])).unwrap();
    assert_eq!(
        s.work,
        Work::FillImage {
            image: depth.handle(),
            fill_color: (7, 0, 0, 0),
            origin: CLVec::new([0, 0, 0]),
            region: CLVec::new([8, 8, 1])
        }
    );
    assert_eq!(enqueue_fill_image(&q, &i, None, v([0, 0, 0]), v([8, 8, 1])), Err(ClError::InvalidValue));
    assert_eq!(enqueue_fill_image(&q, &i, Some([0; 4]), v([0, 0, 0]), v([8, 9, 1])), Err(ClError::InvalidValue));
    assert_eq!(
        enqueue_fill_image(&image_queue(1), &i, Some([0; 4]), v([0, 0, 0]), v([8, 8, 1])),
        Err(ClError::InvalidContext)
    );
}

#[test]
fn copies_between_buffer_and_image() {
    let mut c = image_context();
    let i = image_8x8(&mut c, 0);
    let b = create_buffer(&mut c, 0, 256, 0).unwrap();
    let q = image_queue(8);
    assert_eq!(
        enqueue_copy_buffer_to_image(&q, &b, &i, 16, v([0, 0, 0]), v([8, 8, 1])),
        Ok(Submission {
            cmd_type: CL_COMMAND_COPY_BUFFER_TO_IMAGE,
            blocking: false,
            work: Work::CopyBufferToImage {
                src: b.handle(),
                dst: i.handle(),
                src_offset: 16,
                dst_origin: CLVec::new([0, 0, 0]),
                region: CLVec::new([8, 8, 1]),
            }
        })
    );
    assert_eq!(
        enqueue_copy_image_to_buffer(&q, &i, &b, v([0, 0, 0]), v([8, 8, 1]), 16),
        Ok(Submission {
            cmd_type: CL_COMMAND_COPY_IMAGE_TO_BUFFER,
            blocking: false,
            work: Work::CopyImageToBuffer {
                src: i.handle(),
                dst: b.handle(),
                src_origin: CLVec::new([0, 0, 0]),
                dst_offset: 16,
                region: CLVec::new([8, 8, 1]),
            }
        })
    );
    assert_eq!(enqueue_copy_buffer_to_image(&q, &i, &i, 0, v([0, 0, 0]), v([8, 8, 1])), Err(ClError::InvalidMemObject));
    assert_eq!(enqueue_copy_buffer_to_image(&q, &b, &b, 0, v([0, 0, 0]), v([8, 8, 1])), Err(ClError::InvalidMemObject));
    assert_eq!(enqueue_copy_image_to_buffer(&q, &b, &b, v([0, 0, 0]), v([8, 8, 1]), 0), Err(ClError::InvalidMemObject));
    assert_eq!(enqueue_copy_buffer_to_image(&q, &b, &i, 0, None, v([8, 8, 1])), Err(ClError::InvalidValue));
    assert_eq!(enqueue_copy_buffer_to_image(&q, &b, &i, 0, v([1, 0, 0]), v([8, 8, 1])), Err(ClError::InvalidValue));
    assert_eq!(enqueue_copy_image_to_buffer(&q, &i, &b, v([0, 0, 0]), None, 0), Err(ClError::InvalidValue));
    assert_eq!(enqueue_copy_image_to_buffer(&q, &i, &b, v([0, 1, 0]), v([8, 8, 1]), 0), Err(ClError::InvalidValue));
    assert_eq!(
        enqueue_copy_image_to_buffer(&image_queue(1), &i, &b, v([0, 0, 0]), v([8, 8, 1]), 0),
        Err(ClError::InvalidContext)
    );
}

#[test]
fn image_beyond_the_address_space() {
    let mut huge = image_device(vec![support(fmt(CL_RGBA, CL_UNORM_INT8), rw())]);
    huge.image_3d_size = u64::MAX;
    let mut c = Context::new(8, vec![huge], false).unwrap();
    let side = 1usize << (usize::BITS / 4);
    let deep = 1usize << (usize::BITS / 2);
    let f = fmt(CL_RGBA, CL_UNORM_INT8);
    assert_eq!(
        create_image_3d(&mut c, 0, Some(&f), side, side, deep, 0, 0, 0).err(),
        Some(ClError::MemObjectAllocationFailure)
    );
    assert_eq!(
        create_image_3d(&mut c, 0, Some(&f), deep, deep, 1, 0, 0, 0).err(),
        Some(ClError::InvalidImageDescriptor)
    );
}

#[test]
fn image_checks_in_order() {
    let mut c = image_context();
    let hidden = image_8x8(&mut c, CL_MEM_HOST_NO_ACCESS);
    let i = image_8x8(&mut c, 0);
    let other = create_image_2d(&mut c, 0, Some(&fmt(CL_BGRA, CL_UNORM_INT8)), 8, 8, 0, 0).unwrap();
    let b = create_buffer(&mut c, 0, 256, 0).unwrap();
    let q = image_queue(8);
    let far = image_queue(1);
    let iv = Err(ClError::InvalidValue);
    // what is missing comes before the context and before the access
    assert_eq!(enqueue_read_image(&far, &hidden, 0, None, v([2, 2, 1]), 0, 0, 0x1000), iv);
    assert_eq!(enqueue_write_image(&far, &hidden, 0, v([0, 0, 0]), v([2, 2, 1]), 0, 0, 0), iv);
    assert_eq!(enqueue_copy_image(&far, &i, &other, None, v([0, 0, 0]), v([4, 4, 1])), iv);
    assert_eq!(enqueue_fill_image(&far, &i, None, v([0, 0, 0]), v([4, 4, 1])), iv);
    assert_eq!(enqueue_copy_buffer_to_image(&far, &b, &i, 0, None, v([4, 4, 1])), iv);
    assert_eq!(enqueue_copy_image_to_buffer(&far, &i, &b, v([0, 0, 0]), None, 0), iv);
    // the context comes before the access and the format
    assert_eq!(
        enqueue_read_image(&far, &hidden, 0, v([0, 0, 0]), v([2, 2, 1]), 0, 0, 0x1000),
        Err(ClError::InvalidContext)
    );
    assert_eq!(
        enqueue_copy_image(&far, &i, &other, v([0, 0, 0]), v([0, 0, 0]), v([4, 4, 1])),
        Err(ClError::InvalidContext)
    );
    // the access comes before the pitches and the bounds
    assert_eq!(
        enqueue_read_image(&q, &hidden, 0, v([0, 0, 0]), v([9, 9, 1]), 0, 64, 0x1000),
        Err(ClError::InvalidOperation)
    );
    assert_eq!(
        enqueue_write_image(&q, &hidden, 0, v([0, 0, 0]), v([9, 9, 1]), 0, 0, 0x1000),
        Err(ClError::InvalidOperation)
    );
    assert_eq!(
        enqueue_copy_image(&q, &i, &other, v([0, 0, 0]), v([0, 0, 0]), v([9, 9, 1])),
        Err(ClError::ImageFormatMismatch)
    );
}

#[test]
fn supported_formats_with_host_access() {
    let c = image_context();
    let found = get_supported_image_formats(
        &c,
        CL_MEM_READ_ONLY | CL_MEM_HOST_READ_ONLY,
        CL_MEM_OBJECT_IMAGE2D,
        16,
        true,
    )
    .unwrap();
    assert_eq!(found.count, 6);
    assert_eq!(
        get_supported_image_formats(&c, 0x1000, CL_MEM_OBJECT_IMAGE2D, 16, true).err(),
        Some(ClError::InvalidValue)
    );
}
