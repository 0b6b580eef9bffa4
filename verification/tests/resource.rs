use ash::vk;
use gpu_alloc::UsageFlags;
use vulkanite::buffer::{buffer_size, Buffer, BufferInitInfo};
use vulkanite::device::{Device, DeviceError};
use vulkanite::flags::{BufferUsages, TextureAspects, TextureUsages};
use vulkanite::format::TextureFormat;
use vulkanite::memory::{
    alloc_usage, memory_request, Creation, Deallocate, Event, MemoryBlock, MemoryRequest, Stage,
    Step,
};
use vulkanite::native;
use vulkanite::texture::Texture;
use vulkanite::types::{
    Extent3D, ImageSubresourceRange, SharingMode, TextureDimension, TextureInfo,
    TextureViewDimension, TextureViewInfo, COPY_BUFFER_ALIGNMENT,
};

fn device() -> Device<()> {
    Device::new()
}

fn usage(bits: u32) -> BufferUsages {
    BufferUsages::from_bits(bits).unwrap()
}

fn requirements() -> native::MemoryRequirements {
    native::MemoryRequirements { size: 64, alignment: 16, memory_type_bits: 0b1011 }
}

fn block() -> MemoryBlock {
    MemoryBlock { memory: 900, offset: 128, size: 64 }
}

#[test]
fn buffer_size_is_the_least_multiple_of_four() {
    assert_eq!(COPY_BUFFER_ALIGNMENT, 4);
    assert_eq!(buffer_size(0), 4);
    assert_eq!(buffer_size(1), 4);
    assert_eq!(buffer_size(3), 4);
    assert_eq!(buffer_size(4), 4);
    assert_eq!(buffer_size(5), 8);
    assert_eq!(buffer_size(8), 8);
    assert_eq!(buffer_size(1023), 1024);
    assert_eq!(buffer_size(u64::MAX - 3), u64::MAX - 3);
    for len in 0..200u64 {
        let size = buffer_size(len);
        assert_eq!(size % 4, 0);
        assert!(size >= len && size >= 4);
        assert!(size < len + 4 || len == 0);
    }
}

#[test]
fn alloc_usage_matches_the_allocator_flags() {
    assert_eq!(native::ALLOC_USAGE_FAST_DEVICE_ACCESS, UsageFlags::FAST_DEVICE_ACCESS.bits());
    assert_eq!(native::ALLOC_USAGE_HOST_ACCESS, UsageFlags::HOST_ACCESS.bits());
    assert_eq!(native::ALLOC_USAGE_DOWNLOAD, UsageFlags::DOWNLOAD.bits());
    assert_eq!(native::ALLOC_USAGE_UPLOAD, UsageFlags::UPLOAD.bits());
    assert_eq!(
        alloc_usage(usage(BufferUsages::VERTEX)),
        UsageFlags::FAST_DEVICE_ACCESS.bits()
    );
    assert_eq!(alloc_usage(BufferUsages::empty()), UsageFlags::FAST_DEVICE_ACCESS.bits());
    assert_eq!(
        alloc_usage(usage(BufferUsages::VERTEX | BufferUsages::MAP_WRITE)),
        (UsageFlags::HOST_ACCESS | UsageFlags::UPLOAD).bits()
    );
    assert_eq!(
        alloc_usage(usage(BufferUsages::MAP_READ | BufferUsages::COPY_DST)),
        (UsageFlags::HOST_ACCESS | UsageFlags::DOWNLOAD).bits()
    );
    assert_eq!(
        alloc_usage(usage(BufferUsages::MAP_READ | BufferUsages::MAP_WRITE)),
        (UsageFlags::HOST_ACCESS | UsageFlags::DOWNLOAD | UsageFlags::UPLOAD).bits()
    );
}

#[test]
fn memory_request_follows_the_requirements() {
    assert_eq!(
        memory_request(requirements(), 0x0a),
        MemoryRequest { size: 64, align_mask: 15, usage: 0x0a, memory_types: 0b1011 }
    );
    let byte_aligned = native::MemoryRequirements { size: 3, alignment: 1, memory_type_bits: 1 };
    assert_eq!(
        memory_request(byte_aligned, 1),
        MemoryRequest { size: 3, align_mask: 0, usage: 1, memory_types: 1 }
    );
}

#[test]
fn vertex_buffer_with_three_bytes() {
    let contents = [1u8, 2, 3];
    let info = BufferInitInfo {
        label: Some("vertices"),
        contents: &contents,
        usage: usage(BufferUsages::VERTEX | BufferUsages::MAP_WRITE),
        sharing: SharingMode::Exclusive,
    };
    assert!(info.is_well_formed());
    let (native_info, mut creation) = device().create_buffer_init(&info);
    assert_eq!(
        native_info,
        native::BufferCreateInfo {
            size: 4,
            usage: vk::BufferUsageFlags::VERTEX_BUFFER.as_raw(),
            sharing_mode: vk::SharingMode::EXCLUSIVE.as_raw(),
        }
    );
    assert_eq!(creation.stage, Stage::Start);
    assert!(creation.is_expected(&Event::Begin));
    assert!(matches!(creation.advance(Event::Begin), Step::Create));
    assert!(matches!(creation.advance(Event::Created(Ok(55))), Step::Query { object: 55 }));
    let request = match creation.advance(Event::Requirements(requirements())) {
        Step::Allocate(request) => request,
        other => panic!("{:?}", other),
    };
    assert_eq!(
        request,
        MemoryRequest {
            size: 64,
            align_mask: 15,
            usage: (gpu_alloc::UsageFlags::HOST_ACCESS | gpu_alloc::UsageFlags::UPLOAD).bits(),
            memory_types: 0b1011,
        }
    );
    match creation.advance(Event::Allocated(Ok(block()))) {
        Step::Write { block: target, offset, bytes } => {
            assert_eq!(target, block());
            assert_eq!(offset, 0);
            assert_eq!(bytes, [1, 2, 3]);
            let mut memory = [0u8; 4];
            memory[offset as usize..offset as usize + bytes.len()].copy_from_slice(bytes);
            assert_eq!(memory, [1, 2, 3, 0]);
        }
        other => panic!("{:?}", other),
    }
    assert!(matches!(
        creation.advance(Event::Written(Ok(()))),
        Step::Bind { object: 55, memory: 900, offset: 128 }
    ));
    match creation.advance(Event::Bound(Ok(()))) {
        Step::Done { object, block: owned } => {
            let buffer = Buffer { handle: object, block: owned };
            assert_eq!(buffer, Buffer { handle: 55, block: block() });
            assert_eq!(
                device().free_buffer(buffer),
                (native::DestroyBuffer { buffer: 55 }, Deallocate { block: block() })
            );
        }
        other => panic!("{:?}", other),
    }
    assert_eq!(creation.stage, Stage::Finished);
    assert!(!creation.is_expected(&Event::Begin));
}

#[test]
fn empty_buffer_has_one_alignment_unit_and_nothing_to_write() {
    let info = BufferInitInfo {
        label: None,
        contents: &[],
        usage: usage(BufferUsages::UNIFORM | BufferUsages::COPY_DST),
        sharing: SharingMode::Concurrent,
    };
    let (native_info, mut creation) = device().create_buffer_init(&info);
    assert_eq!(
        native_info,
        native::BufferCreateInfo {
            size: 4,
            usage: (vk::BufferUsageFlags::UNIFORM_BUFFER | vk::BufferUsageFlags::TRANSFER_DST)
                .as_raw(),
            sharing_mode: vk::SharingMode::CONCURRENT.as_raw(),
        }
    );
    creation.advance(Event::Begin);
    creation.advance(Event::Created(Ok(1)));
    creation.advance(Event::Requirements(requirements()));
    assert!(matches!(
        creation.advance(Event::Allocated(Ok(block()))),
        Step::Bind { object: 1, memory: 900, offset: 128 }
    ));
    assert_eq!(creation.stage, Stage::Binding);
}

#[test]
fn failed_creation_releases_nothing() {
    let mut creation = Creation::new(1, &[7, 8, 9]);
    creation.advance(Event::Begin);
    match creation.advance(Event::Created(Err(vk::Result::ERROR_OUT_OF_HOST_MEMORY))) {
        Step::Fail { error, free, destroy } => {
            assert!(matches!(error, DeviceError::Other(vk::Result::ERROR_OUT_OF_HOST_MEMORY)));
            assert_eq!(free, None);
            assert_eq!(destroy, None);
        }
        other => panic!("{:?}", other),
    }
    assert_eq!(creation.stage, Stage::Finished);
}

#[test]
fn failed_allocation_destroys_the_object() {
    let mut creation = Creation::new(1, &[7, 8, 9]);
    creation.advance(Event::Begin);
    creation.advance(Event::Created(Ok(55)));
    creation.advance(Event::Requirements(requirements()));
    match creation.advance(Event::Allocated(Err(vk::Result::ERROR_OUT_OF_DEVICE_MEMORY))) {
        Step::Fail { error, free, destroy } => {
            assert!(matches!(error, DeviceError::Other(vk::Result::ERROR_OUT_OF_DEVICE_MEMORY)));
            assert_eq!(free, None);
            assert_eq!(destroy, Some(55));
        }
        other => panic!("{:?}", other),
    }
}

#[test]
fn failed_write_or_bind_frees_the_block_and_destroys_the_object() {
    let mut creation = Creation::new(1, &[7, 8, 9]);
    creation.advance(Event::Begin);
    creation.advance(Event::Created(Ok(55)));
    creation.advance(Event::Requirements(requirements()));
    creation.advance(Event::Allocated(Ok(block())));
    let mut at_bind = creation;
    match creation.advance(Event::Written(Err(vk::Result::ERROR_MEMORY_MAP_FAILED))) {
        Step::Fail { error, free, destroy } => {
            assert!(matches!(error, DeviceError::Other(vk::Result::ERROR_MEMORY_MAP_FAILED)));
            assert_eq!(free, Some(block()));
            assert_eq!(destroy, Some(55));
        }
        other => panic!("{:?}", other),
    }
    at_bind.advance(Event::Written(Ok(())));
    match at_bind.advance(Event::Bound(Err(vk::Result::ERROR_UNKNOWN))) {
        Step::Fail { error, free, destroy } => {
            assert!(matches!(error, DeviceError::Other(vk::Result::ERROR_UNKNOWN)));
            assert_eq!(free, Some(block()));
            assert_eq!(destroy, Some(55));
        }
        other => panic!("{:?}", other),
    }
    assert_eq!(at_bind.stage, Stage::Finished);
}

#[test]
fn answers_out_of_turn_are_not_expected() {
    let creation = Creation::new(1, &[]);
    assert!(creation.is_expected(&Event::Begin));
    assert!(!creation.is_expected(&Event::Created(Ok(1))));
    assert!(!creation.is_expected(&Event::Bound(Ok(()))));
    let mut creation = creation;
    creation.advance(Event::Begin);
    creation.advance(Event::Created(Ok(1)));
    assert!(creation.is_expected(&Event::Requirements(requirements())));
    let unaligned = native::MemoryRequirements { size: 1, alignment: 0, memory_type_bits: 1 };
    assert!(!creation.is_expected(&Event::Requirements(unaligned)));
    assert!(!creation.is_expected(&Event::Allocated(Ok(block()))));
}

fn texture_info() -> TextureInfo {
    TextureInfo {
        dimension: TextureDimension::D2,
        format: TextureFormat::D32Sfloat,
        size: Extent3D { width: 1080, height: 720, depth: 1 },
        mip_levels: 1,
        samples: 1,
        usage: TextureUsages { bits: TextureUsages::DEPTH_STENCIL_ATTACHMENT },
        sharing: SharingMode::Exclusive,
    }
}

#[test]
fn texture_becomes_an_optimally_tiled_image() {
    let info = texture_info();
    assert_eq!(
        device().create_texture(&info).0,
        native::ImageCreateInfo {
            image_type: vk::ImageType::TYPE_2D.as_raw(),
            format: vk::Format::D32_SFLOAT.as_raw(),
            extent: native::Extent3D { width: 1080, height: 720, depth: 1 },
            mip_levels: 1,
            array_layers: 1,
            samples: vk::SampleCountFlags::TYPE_1.as_raw(),
            tiling: vk::ImageTiling::OPTIMAL.as_raw(),
            usage: vk::ImageUsageFlags::DEPTH_STENCIL_ATTACHMENT.as_raw(),
            sharing_mode: vk::SharingMode::EXCLUSIVE.as_raw(),
            initial_layout: vk::ImageLayout::UNDEFINED.as_raw(),
        }
    );
}

#[test]
fn texture_memory_is_device_local_and_never_written() {
    let info = texture_info();
    let (_, mut creation) = device().create_texture(&info);
    assert!(matches!(creation.advance(Event::Begin), Step::Create));
    assert!(matches!(creation.advance(Event::Created(Ok(31))), Step::Query { object: 31 }));
    match creation.advance(Event::Requirements(requirements())) {
        Step::Allocate(request) => assert_eq!(
            request,
            MemoryRequest {
                size: 64,
                align_mask: 15,
                usage: gpu_alloc::UsageFlags::FAST_DEVICE_ACCESS.bits(),
                memory_types: 0b1011,
            }
        ),
        other => panic!("{:?}", other),
    }
    assert!(matches!(
        creation.advance(Event::Allocated(Ok(block()))),
        Step::Bind { object: 31, memory: 900, offset: 128 }
    ));
    match creation.advance(Event::Bound(Ok(()))) {
        Step::Done { object, block: owned } => {
            let texture = Texture::new(&info, object, owned);
            assert_eq!(
                texture,
                Texture { handle: 31, usage: info.usage, block: Some(block()) }
            );
            assert_eq!(device().free_texture(texture), Some(Deallocate { block: block() }));
        }
        other => panic!("{:?}", other),
    }
    let borrowed = Texture { handle: 1, usage: info.usage, block: None };
    assert_eq!(device().free_texture(borrowed), None);
}

#[test]
fn texture_view_names_the_image_and_the_range() {
    let texture = Texture { handle: 31, usage: TextureUsages::empty(), block: None };
    let info = TextureViewInfo {
        dimension: TextureViewDimension::Array2D,
        format: TextureFormat::R8G8B8A8Unorm,
        range: ImageSubresourceRange {
            aspects: TextureAspects { bits: TextureAspects::COLOR },
            base_mip_level: 0,
            mip_level_count: 3,
            base_array_layer: 2,
            array_layer_count: 4,
        },
    };
    assert_eq!(
        device().create_texture_view(&info, &texture),
        native::ImageViewCreateInfo {
            flags: 0,
            image: 31,
            view_type: vk::ImageViewType::TYPE_2D_ARRAY.as_raw(),
            format: vk::Format::R8G8B8A8_UNORM.as_raw(),
            subresource_range: native::ImageSubresourceRange {
                aspect_mask: vk::ImageAspectFlags::COLOR.as_raw(),
                base_mip_level: 0,
                level_count: 3,
                base_array_layer: 2,
                layer_count: 4,
            },
        }
    );
}
