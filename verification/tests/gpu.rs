//! Tests for the VirtIO GPU protocol records.

use devices::gpu::{
    Box3D, CtrlHeader, CtxCreate, DisplayOne, GpuConfig, MemEntry, Rect, Resource2D, Resource3D,
    ResourceCreate3D, Transfer3D, VirglContext, VIRTIO_GPU_CMD_CTX_CREATE,
    VIRTIO_GPU_CMD_RESOURCE_CREATE_3D, VIRTIO_GPU_CMD_TRANSFER_TO_HOST_3D,
    VIRTIO_GPU_FORMAT_A8B8G8R8_UNORM, VIRTIO_GPU_FORMAT_A8R8G8B8_UNORM,
    VIRTIO_GPU_FORMAT_B8G8R8A8_UNORM, VIRTIO_GPU_FORMAT_B8G8R8X8_UNORM,
    VIRTIO_GPU_FORMAT_R8G8B8A8_UNORM, VIRTIO_GPU_FORMAT_X8B8G8R8_UNORM,
    VIRTIO_GPU_FORMAT_X8R8G8B8_UNORM, VIRTIO_GPU_RESP_OK_NODATA,
};

#[test]
fn test_gpu_config() {
    let config = GpuConfig::default();
    assert_eq!(config.num_scanouts, 1);
}

#[test]
fn test_resource_creation() {
    let resource = Resource2D::new(800, 600, VIRTIO_GPU_FORMAT_B8G8R8A8_UNORM).unwrap();
    assert_eq!(resource.width, 800);
    assert_eq!(resource.height, 600);
    assert_eq!(resource.format, VIRTIO_GPU_FORMAT_B8G8R8A8_UNORM);
    assert_eq!(resource.data.len(), 800 * 600 * 4);
}

#[test]
fn test_resource_invalid_format() {
    let result = Resource2D::new(800, 600, 999);
    assert!(result.is_err());
}

#[test]
fn test_ctrl_header() {
    let header = CtrlHeader {
        hdr_type: VIRTIO_GPU_RESP_OK_NODATA,
        flags: 0,
        fence_id: 0,
        ctx_id: 0,
        padding: 0,
    };
    assert_eq!(header.hdr_type, VIRTIO_GPU_RESP_OK_NODATA);
}

#[test]
fn test_create_response_header() {
    let header = CtrlHeader::response(VIRTIO_GPU_RESP_OK_NODATA);
    assert_eq!(header.hdr_type, VIRTIO_GPU_RESP_OK_NODATA);
    assert_eq!(header.flags, 0);
    assert_eq!(header.fence_id, 0);
}

#[test]
fn test_rect() {
    let rect = Rect { x: 10, y: 20, width: 100, height: 200 };
    assert_eq!(rect.x, 10);
    assert_eq!(rect.y, 20);
    assert_eq!(rect.width, 100);
    assert_eq!(rect.height, 200);
}

#[test]
fn test_display_one() {
    let display = DisplayOne {
        r: Rect { x: 0, y: 0, width: 1920, height: 1080 },
        enabled: 1,
        flags: 0,
    };
    assert!(display.enabled == 1);
}

#[test]
fn test_resource_backing() {
    let mut resource = Resource2D::new(100, 100, VIRTIO_GPU_FORMAT_B8G8R8A8_UNORM).unwrap();

    // Add backing storage
    let entry = MemEntry { addr: 0x1000, length: 100 * 100 * 4, padding: 0 };
    resource.backing.push(entry);

    assert_eq!(resource.backing.len(), 1);
    assert_eq!(resource.backing[0].addr, 0x1000);
}

#[test]
fn test_all_pixel_formats() {
    // Every supported pixel format is accepted
    let formats = [
        VIRTIO_GPU_FORMAT_B8G8R8A8_UNORM,
        VIRTIO_GPU_FORMAT_B8G8R8X8_UNORM,
        VIRTIO_GPU_FORMAT_A8R8G8B8_UNORM,
        VIRTIO_GPU_FORMAT_X8R8G8B8_UNORM,
        VIRTIO_GPU_FORMAT_R8G8B8A8_UNORM,
        VIRTIO_GPU_FORMAT_X8B8G8R8_UNORM,
        VIRTIO_GPU_FORMAT_A8B8G8R8_UNORM,
    ];

    for &format in &formats {
        let resource = Resource2D::new(64, 64, format);
        assert!(resource.is_ok(), "Failed to create resource for format {}", format);
        let resource = resource.unwrap();
        assert_eq!(resource.data.len(), 64 * 64 * 4);
    }
}

#[test]
fn test_virgl_context_creation() {
    let context = VirglContext::new(1, "test_context".to_string());
    assert_eq!(context.id, 1);
    assert_eq!(context.name, "test_context");
    assert!(context.resources.is_empty());
}

#[test]
fn test_resource_3d_creation() {
    let resource = Resource3D::new(
        1,      // id
        256,    // width
        256,    // height
        1,      // depth
        67,     // format (R8G8B8A8)
        2,      // target (TEXTURE_2D)
        1,      // bind
        0,      // nr_samples
        0,      // flags
    );
    assert_eq!(resource.id, 1);
    assert_eq!(resource.width, 256);
    assert_eq!(resource.height, 256);
    assert_eq!(resource.depth, 1);
    assert_eq!(resource.data.len(), 256 * 256 * 1 * 4);
}

#[test]
fn test_box_3d() {
    let box3d = Box3D { x: 0, y: 0, z: 0, w: 100, h: 100, d: 1 };
    assert_eq!(box3d.x, 0);
    assert_eq!(box3d.w, 100);
    assert_eq!(box3d.h, 100);
    assert_eq!(box3d.d, 1);
}

#[test]
fn test_ctx_create_struct() {
    let header = CtrlHeader {
        hdr_type: VIRTIO_GPU_CMD_CTX_CREATE,
        flags: 0,
        fence_id: 0,
        ctx_id: 1,
        padding: 0,
    };
    let mut name = [0u8; 64];
    let name_str = "test";
    name[..name_str.len()].copy_from_slice(name_str.as_bytes());

    let cmd = CtxCreate { header, nctx: name_str.len() as u32, context_name: name };
    assert_eq!(cmd.header.ctx_id, 1);
    assert_eq!(cmd.nctx, 4);
}

#[test]
fn test_resource_create_3d_struct() {
    let header = CtrlHeader {
        hdr_type: VIRTIO_GPU_CMD_RESOURCE_CREATE_3D,
        flags: 0,
        fence_id: 0,
        ctx_id: 0,
        padding: 0,
    };

    let cmd = ResourceCreate3D {
        header,
        resource_id: 1,
        format: 67,
        width: 512,
        height: 512,
        depth: 1,
        target: 2,
        bind: 1,
        nr_samples: 0,
        flags: 0,
        padding: 0,
    };
    assert_eq!(cmd.resource_id, 1);
    assert_eq!(cmd.width, 512);
    assert_eq!(cmd.height, 512);
}

#[test]
fn test_transfer_3d_struct() {
    let header = CtrlHeader {
        hdr_type: VIRTIO_GPU_CMD_TRANSFER_TO_HOST_3D,
        flags: 0,
        fence_id: 0,
        ctx_id: 0,
        padding: 0,
    };

    let box3d = Box3D { x: 0, y: 0, z: 0, w: 64, h: 64, d: 1 };

    let cmd = Transfer3D {
        header,
        resource_id: 1,
        level: 0,
        stride: 64 * 4,
        layer_stride: 64 * 64 * 4,
        box_: box3d,
        offset: 0,
    };
    assert_eq!(cmd.resource_id, 1);
    assert_eq!(cmd.box_.w, 64);
    assert_eq!(cmd.box_.h, 64);
}
