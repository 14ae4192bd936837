use image_api::{
    ExternalImageData, ExternalImageId, ExternalImageType, IdNamespace, ImageData,
    ImageDescriptor, ImageFormat, ImageKey,
};
use std::collections::HashSet;
use std::sync::Arc;

fn external(image_type: ExternalImageType) -> ImageData {
    ImageData::External(ExternalImageData { id: ExternalImageId(7), channel_index: 0, image_type })
}

#[test]
fn key_keeps_its_parts() {
    let key = ImageKey::new(IdNamespace(3), 41);
    assert_eq!(key.0, IdNamespace(3));
    assert_eq!(key.1, 41);
    assert_eq!(key, ImageKey(IdNamespace(3), 41));
}

#[test]
fn dummy_key_is_namespace_zero_id_zero() {
    assert_eq!(ImageKey::dummy(), ImageKey(IdNamespace(0), 0));
    assert_eq!(ImageKey::dummy(), ImageKey::new(IdNamespace(0), 0));
}

#[test]
fn dummy_key_differs_from_real_keys() {
    assert_ne!(ImageKey::dummy(), ImageKey::new(IdNamespace(0), 1));
    assert_ne!(ImageKey::dummy(), ImageKey::new(IdNamespace(1), 0));
    assert_ne!(ImageKey::dummy(), ImageKey::new(IdNamespace(1), 1));
    assert_ne!(ImageKey::dummy(), ImageKey::new(IdNamespace(u32::MAX), u32::MAX));
}

#[test]
fn key_equality_and_hash_are_structural() {
    let a = ImageKey::new(IdNamespace(2), 9);
    let b = ImageKey::new(IdNamespace(2), 9);
    let c = ImageKey::new(IdNamespace(9), 2);
    assert_eq!(a, b);
    assert_ne!(a, c);
    let mut keys = HashSet::new();
    assert!(keys.insert(a));
    assert!(!keys.insert(b));
    assert!(keys.insert(c));
    assert_eq!(keys.len(), 2);
}

#[test]
fn key_is_copied_not_moved() {
    let a = ImageKey::new(IdNamespace(1), 2);
    let b = a;
    assert_eq!(a, b);
    assert_eq!(format!("{:?}", a), "ImageKey(IdNamespace(1), 2)");
}

#[test]
fn external_image_id_compares_by_value() {
    assert_eq!(ExternalImageId(5), ExternalImageId(5));
    assert_ne!(ExternalImageId(5), ExternalImageId(6));
    assert_eq!(ExternalImageId(u64::MAX).0, u64::MAX);
}

#[test]
fn bytes_per_pixel_of_each_format() {
    assert_eq!(ImageFormat::R8.bytes_per_pixel(), 1);
    assert_eq!(ImageFormat::BGRA8.bytes_per_pixel(), 4);
    assert_eq!(ImageFormat::RGBAF32.bytes_per_pixel(), 16);
    assert_eq!(ImageFormat::RG8.bytes_per_pixel(), 2);
}

#[test]
fn bytes_per_pixel_is_never_zero() {
    let formats = [ImageFormat::R8, ImageFormat::BGRA8, ImageFormat::RGBAF32, ImageFormat::RG8];
    for format in formats {
        let bytes = format.bytes_per_pixel();
        assert!(bytes == 1 || bytes == 2 || bytes == 4 || bytes == 16);
    }
}

#[test]
fn new_descriptor_has_no_stride_and_no_offset() {
    let descriptor = ImageDescriptor::new(640, 480, ImageFormat::BGRA8, true);
    assert_eq!(descriptor.width, 640);
    assert_eq!(descriptor.height, 480);
    assert_eq!(descriptor.format, ImageFormat::BGRA8);
    assert_eq!(descriptor.stride, None);
    assert_eq!(descriptor.offset, 0);
    assert!(descriptor.is_opaque);
    assert!(!ImageDescriptor::new(1, 1, ImageFormat::R8, false).is_opaque);
}

#[test]
fn stride_defaults_to_width_times_pixel_size() {
    assert_eq!(ImageDescriptor::new(640, 480, ImageFormat::R8, false).compute_stride(), 640);
    assert_eq!(ImageDescriptor::new(640, 480, ImageFormat::RG8, false).compute_stride(), 1280);
    assert_eq!(ImageDescriptor::new(640, 480, ImageFormat::BGRA8, false).compute_stride(), 2560);
    assert_eq!(ImageDescriptor::new(640, 480, ImageFormat::RGBAF32, false).compute_stride(), 10240);
}

#[test]
fn stride_does_not_depend_on_height_or_opacity() {
    let a = ImageDescriptor::new(17, 1, ImageFormat::BGRA8, false);
    let b = ImageDescriptor::new(17, 9000, ImageFormat::BGRA8, true);
    assert_eq!(a.compute_stride(), 68);
    assert_eq!(b.compute_stride(), 68);
}

#[test]
fn stride_of_empty_and_of_widest_rows() {
    assert_eq!(ImageDescriptor::new(0, 10, ImageFormat::RGBAF32, false).compute_stride(), 0);
    assert_eq!(ImageDescriptor::new(u32::MAX, 1, ImageFormat::R8, false).compute_stride(), u32::MAX);
    assert_eq!(
        ImageDescriptor::new(u32::MAX / 4, 1, ImageFormat::BGRA8, false).compute_stride(),
        4294967292
    );
    assert_eq!(
        ImageDescriptor::new(u32::MAX / 16, 1, ImageFormat::RGBAF32, false).compute_stride(),
        4294967280
    );
}

#[test]
fn explicit_stride_wins() {
    let mut descriptor = ImageDescriptor::new(100, 100, ImageFormat::BGRA8, false);
    descriptor.stride = Some(512);
    assert_eq!(descriptor.compute_stride(), 512);
    descriptor.stride = Some(0);
    assert_eq!(descriptor.compute_stride(), 0);
}

#[test]
fn explicit_stride_wins_even_where_the_tight_row_would_not_fit() {
    let mut descriptor = ImageDescriptor::new(u32::MAX, 1, ImageFormat::RGBAF32, false);
    descriptor.stride = Some(64);
    assert_eq!(descriptor.compute_stride(), 64);
}

#[test]
fn descriptors_compare_field_by_field() {
    let a = ImageDescriptor::new(4, 4, ImageFormat::RG8, false);
    let mut b = a;
    assert!(a == b);
    b.offset = 8;
    assert!(a != b);
}

#[test]
fn raw_data_reads_back_byte_for_byte() {
    let bytes: Vec<u8> = vec![0, 1, 2, 253, 254, 255];
    match ImageData::new(bytes.clone()) {
        ImageData::Raw(held) => assert_eq!(*held, bytes),
        _ => panic!("raw data expected"),
    }
    match ImageData::new(Vec::new()) {
        ImageData::Raw(held) => assert!(held.is_empty()),
        _ => panic!("raw data expected"),
    }
}

#[test]
fn shared_data_is_shared_not_copied() {
    let buffer = Arc::new(vec![9u8, 8, 7]);
    let first = ImageData::new_shared(buffer.clone());
    let second = ImageData::new_shared(buffer.clone());
    match (&first, &second) {
        (ImageData::Raw(a), ImageData::Raw(b)) => {
            assert_eq!(**a, vec![9u8, 8, 7]);
            assert_eq!(**a, **b);
            assert!(Arc::ptr_eq(a, b));
            assert!(Arc::ptr_eq(a, &buffer));
        }
        _ => panic!("raw data expected"),
    }
    assert_eq!(Arc::strong_count(&buffer), 3);
}

#[test]
fn owned_and_shared_raw_data_agree() {
    let bytes = vec![1u8, 2, 3, 4];
    let owned = ImageData::new(bytes.clone());
    let shared = ImageData::new_shared(Arc::new(bytes));
    match (owned, shared) {
        (ImageData::Raw(a), ImageData::Raw(b)) => assert_eq!(*a, *b),
        _ => panic!("raw data expected"),
    }
}

#[test]
fn cloned_raw_data_shares_its_buffer() {
    let data = ImageData::new(vec![5u8; 16]);
    let copy = data.clone();
    match (&data, &copy) {
        (ImageData::Raw(a), ImageData::Raw(b)) => assert!(Arc::ptr_eq(a, b)),
        _ => panic!("raw data expected"),
    }
}

#[test]
fn blob_image_keeps_its_commands() {
    match ImageData::new_blob_image(vec![10, 20, 30]) {
        ImageData::Blob(commands) => assert_eq!(commands, vec![10, 20, 30]),
        _ => panic!("blob expected"),
    }
}

#[test]
fn only_blobs_are_blobs() {
    assert!(ImageData::new_blob_image(vec![1]).is_blob());
    assert!(ImageData::new_blob_image(Vec::new()).is_blob());
    assert!(!ImageData::new(vec![1]).is_blob());
    assert!(!ImageData::new_shared(Arc::new(vec![1])).is_blob());
    assert!(!external(ExternalImageType::ExternalBuffer).is_blob());
    assert!(!external(ExternalImageType::Texture2DHandle).is_blob());
}

#[test]
fn raw_and_blob_data_use_the_texture_cache() {
    assert!(ImageData::new(vec![1, 2, 3]).uses_texture_cache());
    assert!(ImageData::new(Vec::new()).uses_texture_cache());
    assert!(ImageData::new_shared(Arc::new(vec![1])).uses_texture_cache());
    assert!(ImageData::new_blob_image(vec![1, 2, 3]).uses_texture_cache());
}

#[test]
fn texture_handles_bypass_the_texture_cache() {
    assert!(!external(ExternalImageType::Texture2DHandle).uses_texture_cache());
    assert!(!external(ExternalImageType::Texture2DArrayHandle).uses_texture_cache());
    assert!(!external(ExternalImageType::TextureRectHandle).uses_texture_cache());
    assert!(!external(ExternalImageType::TextureExternalHandle).uses_texture_cache());
}

#[test]
fn external_buffers_use_the_texture_cache() {
    assert!(external(ExternalImageType::ExternalBuffer).uses_texture_cache());
    let other = ImageData::External(ExternalImageData {
        id: ExternalImageId(u64::MAX),
        channel_index: 255,
        image_type: ExternalImageType::ExternalBuffer,
    });
    assert!(other.uses_texture_cache());
}

#[test]
fn external_image_data_compares_by_all_fields() {
    let a = ExternalImageData {
        id: ExternalImageId(1),
        channel_index: 0,
        image_type: ExternalImageType::Texture2DHandle,
    };
    let mut b = a;
    assert_eq!(a, b);
    b.channel_index = 1;
    assert_ne!(a, b);
}
