//! VirtIO GPU protocol records: the control headers, 2D and 3D resource
//! commands, and the resource and context bookkeeping the device keeps.

use vstd::prelude::*;

verus! {

/// EDID feature bit.
pub const VIRTIO_GPU_F_EDID: u64 = 1;

/// VIRGL 3D feature bit.
pub const VIRTIO_GPU_F_VIRGL: u64 = 2;

/// Command: get display info.
pub const VIRTIO_GPU_CMD_GET_DISPLAY_INFO: u32 = 0x0100;

/// Command: create a 2D resource.
pub const VIRTIO_GPU_CMD_RESOURCE_CREATE_2D: u32 = 0x0101;

/// Command: unreference a resource.
pub const VIRTIO_GPU_CMD_RESOURCE_UNREF: u32 = 0x0102;

/// Command: set the scanout.
pub const VIRTIO_GPU_CMD_SET_SCANOUT: u32 = 0x0103;

/// Command: flush a resource.
pub const VIRTIO_GPU_CMD_RESOURCE_FLUSH: u32 = 0x0104;

/// Command: transfer to host (2D).
pub const VIRTIO_GPU_CMD_TRANSFER_TO_HOST_2D: u32 = 0x0105;

/// Command: attach backing storage.
pub const VIRTIO_GPU_CMD_RESOURCE_ATTACH_BACKING: u32 = 0x0106;

/// Command: detach backing storage.
pub const VIRTIO_GPU_CMD_RESOURCE_DETACH_BACKING: u32 = 0x0107;

/// Command: create a VIRGL context.
pub const VIRTIO_GPU_CMD_CTX_CREATE: u32 = 0x0200;

/// Command: destroy a VIRGL context.
pub const VIRTIO_GPU_CMD_CTX_DESTROY: u32 = 0x0201;

/// Command: attach a resource to a context.
pub const VIRTIO_GPU_CMD_CTX_ATTACH_RESOURCE: u32 = 0x0202;

/// Command: detach a resource from a context.
pub const VIRTIO_GPU_CMD_CTX_DETACH_RESOURCE: u32 = 0x0203;

/// Command: create a 3D resource.
pub const VIRTIO_GPU_CMD_RESOURCE_CREATE_3D: u32 = 0x0204;

/// Command: transfer to host (3D).
pub const VIRTIO_GPU_CMD_TRANSFER_TO_HOST_3D: u32 = 0x0205;

/// Command: transfer from host (3D).
pub const VIRTIO_GPU_CMD_TRANSFER_FROM_HOST_3D: u32 = 0x0206;

/// Command: submit a 3D command buffer.
pub const VIRTIO_GPU_CMD_SUBMIT_3D: u32 = 0x0207;

/// Response: OK, no data.
pub const VIRTIO_GPU_RESP_OK_NODATA: u32 = 0x1100;

/// Response: OK, display info follows.
pub const VIRTIO_GPU_RESP_OK_DISPLAY_INFO: u32 = 0x1101;

/// Response: unspecified error.
pub const VIRTIO_GPU_RESP_ERR_UNSPEC: u32 = 0x1200;

/// Response: out of memory.
pub const VIRTIO_GPU_RESP_ERR_OUT_OF_MEMORY: u32 = 0x1201;

/// Response: invalid resource id.
pub const VIRTIO_GPU_RESP_ERR_INVALID_RESOURCE_ID: u32 = 0x1202;

/// Response: invalid scanout id.
pub const VIRTIO_GPU_RESP_ERR_INVALID_SCANOUT_ID: u32 = 0x1203;

/// Response flag: fence present.
pub const VIRTIO_GPU_FLAG_FENCE: u32 = 1;

/// Pixel format: B8G8R8A8.
pub const VIRTIO_GPU_FORMAT_B8G8R8A8_UNORM: u32 = 1;

/// Pixel format: B8G8R8X8.
pub const VIRTIO_GPU_FORMAT_B8G8R8X8_UNORM: u32 = 2;

/// Pixel format: A8R8G8B8.
pub const VIRTIO_GPU_FORMAT_A8R8G8B8_UNORM: u32 = 3;

/// Pixel format: X8R8G8B8.
pub const VIRTIO_GPU_FORMAT_X8R8G8B8_UNORM: u32 = 4;

/// Pixel format: R8G8B8A8.
pub const VIRTIO_GPU_FORMAT_R8G8B8A8_UNORM: u32 = 67;

/// Pixel format: X8B8G8R8.
pub const VIRTIO_GPU_FORMAT_X8B8G8R8_UNORM: u32 = 68;

/// Pixel format: A8B8G8R8.
pub const VIRTIO_GPU_FORMAT_A8B8G8R8_UNORM: u32 = 69;

/// Whether a pixel format is one of the supported 4-byte formats.
pub open spec fn gpu_format_supported(format: u32) -> bool {
    format == VIRTIO_GPU_FORMAT_B8G8R8A8_UNORM || format == VIRTIO_GPU_FORMAT_B8G8R8X8_UNORM
        || format == VIRTIO_GPU_FORMAT_A8R8G8B8_UNORM || format == VIRTIO_GPU_FORMAT_X8R8G8B8_UNORM
        || format == VIRTIO_GPU_FORMAT_R8G8B8A8_UNORM || format == VIRTIO_GPU_FORMAT_X8B8G8R8_UNORM
        || format == VIRTIO_GPU_FORMAT_A8B8G8R8_UNORM
}

/// GPU protocol errors the request parser reports.
#[derive(Debug, Clone, Copy, PartialEq, Eq, Structural)]
pub enum GpuError {
    /// The guest handed over bad memory addresses
    GuestMemory,
    /// A write-only descriptor where the protocol reads
    UnexpectedWriteOnlyDescriptor,
    /// The guest sent an invalid request
    InvalidRequest,
    /// The descriptor chain is too short
    DescriptorChainTooShort,
    /// Invalid resource id
    InvalidResourceId,
    /// Invalid scanout id
    InvalidScanoutId,
    /// Resource not found
    ResourceNotFound,
    /// Invalid pixel format
    InvalidFormat,
}

/// Command header at the front of every GPU request and response.
#[derive(Debug, Clone, Copy, PartialEq, Eq, Structural)]
pub struct CtrlHeader {
    /// Command or response type
    pub hdr_type: u32,
    /// Flags
    pub flags: u32,
    /// Fence id, when the fence flag is set
    pub fence_id: u64,
    /// Context id
    pub ctx_id: u32,
    /// Padding word
    pub padding: u32,
}

impl CtrlHeader {
    /// The response header for a plain response type: no flags, no fence,
    /// no context.
    pub fn response(hdr_type: u32) -> (r: Self)
        ensures
            r == (CtrlHeader { hdr_type, flags: 0, fence_id: 0, ctx_id: 0, padding: 0 }),
    {
        CtrlHeader { hdr_type, flags: 0, fence_id: 0, ctx_id: 0, padding: 0 }
    }
}

/// A rectangle.
#[derive(Debug, Clone, Copy, PartialEq, Eq, Structural)]
pub struct Rect {
    /// X origin
    pub x: u32,
    /// Y origin
    pub y: u32,
    /// Width
    pub width: u32,
    /// Height
    pub height: u32,
}

/// Display info for one scanout.
#[derive(Debug, Clone, Copy, PartialEq, Eq, Structural)]
pub struct DisplayOne {
    /// The scanout rectangle
    pub r: Rect,
    /// Whether the scanout is enabled
    pub enabled: u32,
    /// Flags
    pub flags: u32,
}

/// Create-2D-resource command body.
#[derive(Debug, Clone, Copy, PartialEq, Eq, Structural)]
pub struct ResourceCreate2D {
    /// Command header
    pub header: CtrlHeader,
    /// Resource id
    pub resource_id: u32,
    /// Pixel format
    pub format: u32,
    /// Width
    pub width: u32,
    /// Height
    pub height: u32,
}

/// Unreference-resource command body.
#[derive(Debug, Clone, Copy, PartialEq, Eq, Structural)]
pub struct ResourceUnref {
    /// Command header
    pub header: CtrlHeader,
    /// Resource id
    pub resource_id: u32,
    /// Padding word
    pub padding: u32,
}

/// Set-scanout command body.
#[derive(Debug, Clone, Copy, PartialEq, Eq, Structural)]
pub struct SetScanout {
    /// Command header
    pub header: CtrlHeader,
    /// The scanout rectangle
    pub r: Rect,
    /// Scanout id
    pub scanout_id: u32,
    /// Resource id
    pub resource_id: u32,
}

/// Transfer-to-host-2D command body.
#[derive(Debug, Clone, Copy, PartialEq, Eq, Structural)]
pub struct TransferToHost2D {
    /// Command header
    pub header: CtrlHeader,
    /// The transfer rectangle
    pub r: Rect,
    /// Source offset
    pub offset: u64,
    /// Resource id
    pub resource_id: u32,
    /// Padding word
    pub padding: u32,
}

/// Flush-resource command body.
#[derive(Debug, Clone, Copy, PartialEq, Eq, Structural)]
pub struct ResourceFlush {
    /// Command header
    pub header: CtrlHeader,
    /// The flush rectangle
    pub r: Rect,
    /// Resource id
    pub resource_id: u32,
    /// Padding word
    pub padding: u32,
}

/// Attach-backing command body.
#[derive(Debug, Clone, Copy, PartialEq, Eq, Structural)]
pub struct ResourceAttachBacking {
    /// Command header
    pub header: CtrlHeader,
    /// Resource id
    pub resource_id: u32,
    /// Number of memory entries that follow
    pub nr_entries: u32,
}

/// One backing-storage memory entry.
#[derive(Debug, Clone, Copy, PartialEq, Eq, Structural)]
pub struct MemEntry {
    /// Guest physical address
    pub addr: u64,
    /// Length in bytes
    pub length: u32,
    /// Padding word
    pub padding: u32,
}

impl Default for MemEntry {
    /// A default memory entry is all zero.
    fn default() -> (r: Self)
        ensures
            r == (MemEntry { addr: 0, length: 0, padding: 0 }),
    {
        MemEntry { addr: 0, length: 0, padding: 0 }
    }
}

/// A box for 3D transfers.
#[derive(Debug, Clone, Copy, PartialEq, Eq, Structural)]
pub struct Box3D {
    /// X origin
    pub x: u32,
    /// Y origin
    pub y: u32,
    /// Z origin
    pub z: u32,
    /// Width
    pub w: u32,
    /// Height
    pub h: u32,
    /// Depth
    pub d: u32,
}

/// Create-VIRGL-context command body.
#[derive(Debug, Clone, Copy)]
pub struct CtxCreate {
    /// Command header
    pub header: CtrlHeader,
    /// Context name length
    pub nctx: u32,
    /// Context name bytes
    pub context_name: [u8; 64],
}

/// Destroy-VIRGL-context command body.
#[derive(Debug, Clone, Copy, PartialEq, Eq, Structural)]
pub struct CtxDestroy {
    /// Command header
    pub header: CtrlHeader,
    /// Padding word
    pub padding: u32,
}

/// Attach-resource-to-context command body.
#[derive(Debug, Clone, Copy, PartialEq, Eq, Structural)]
pub struct CtxAttachResource {
    /// Command header
    pub header: CtrlHeader,
    /// Resource id
    pub resource_id: u32,
    /// Padding word
    pub padding: u32,
}

/// Detach-resource-from-context command body.
#[derive(Debug, Clone, Copy, PartialEq, Eq, Structural)]
pub struct CtxDetachResource {
    /// Command header
    pub header: CtrlHeader,
    /// Resource id
    pub resource_id: u32,
    /// Padding word
    pub padding: u32,
}

/// Create-3D-resource command body.
#[derive(Debug, Clone, Copy, PartialEq, Eq, Structural)]
pub struct ResourceCreate3D {
    /// Command header
    pub header: CtrlHeader,
    /// Resource id
    pub resource_id: u32,
    /// Pixel format
    pub format: u32,
    /// Width
    pub width: u32,
    /// Height
    pub height: u32,
    /// Depth
    pub depth: u32,
    /// Target (TEXTURE_2D and the like)
    pub target: u32,
    /// Bind flags
    pub bind: u32,
    /// Number of samples
    pub nr_samples: u32,
    /// Flags
    pub flags: u32,
    /// Padding word
    pub padding: u32,
}

/// 3D transfer command body.
#[derive(Debug, Clone, Copy, PartialEq, Eq, Structural)]
pub struct Transfer3D {
    /// Command header
    pub header: CtrlHeader,
    /// Resource id
    pub resource_id: u32,
    /// Mipmap level
    pub level: u32,
    /// Row stride
    pub stride: u32,
    /// Layer stride
    pub layer_stride: u32,
    /// The transfer box
    pub box_: Box3D,
    /// Source offset
    pub offset: u64,
}

/// Submit-3D command header.
#[derive(Debug, Clone, Copy, PartialEq, Eq, Structural)]
pub struct Submit3D {
    /// Command header
    pub header: CtrlHeader,
    /// Size of the command buffer in bytes
    pub size: u32,
}

/// A 2D resource: geometry, format, backing entries and a software pixel
/// buffer.
#[derive(Debug, Clone)]
pub struct Resource2D {
    /// Width in pixels
    pub width: u32,
    /// Height in pixels
    pub height: u32,
    /// Pixel format
    pub format: u32,
    /// Backing storage entries
    pub backing: Vec<MemEntry>,
    /// Pixel buffer for basic software rendering
    pub data: Vec<u8>,
}

impl Resource2D {
    /// Create a 2D resource: only the 4-byte formats are accepted, and
    /// the pixel buffer is zeroed at width * height * 4 bytes.
    pub fn new(width: u32, height: u32, format: u32) -> (r: Result<Self, GpuError>)
        requires
            width * height * 4 <= usize::MAX,
        ensures
            r is Ok <==> gpu_format_supported(format),
            r is Ok ==> {
                let res = r->Ok_0;
                &&& res.width == width
                &&& res.height == height
                &&& res.format == format
                &&& res.backing@.len() == 0
                &&& res.data@.len() == width * height * 4
                &&& forall|i: int| 0 <= i < res.data@.len() ==> res.data@[i] == 0u8
            },
    {
        let supported = format == VIRTIO_GPU_FORMAT_B8G8R8A8_UNORM || format
            == VIRTIO_GPU_FORMAT_B8G8R8X8_UNORM || format == VIRTIO_GPU_FORMAT_A8R8G8B8_UNORM
            || format == VIRTIO_GPU_FORMAT_X8R8G8B8_UNORM || format
            == VIRTIO_GPU_FORMAT_R8G8B8A8_UNORM || format == VIRTIO_GPU_FORMAT_X8B8G8R8_UNORM
            || format == VIRTIO_GPU_FORMAT_A8B8G8R8_UNORM;
        if !supported {
            return Err(GpuError::InvalidFormat);
        }
        proof {
            assert(width as int * height as int <= width as int * height as int * 4)
                by (nonlinear_arith);
        }
        let size: usize = (width as usize) * (height as usize) * 4;
        let data = zeroed_bytes(size);
        Ok(Self { width, height, format, backing: Vec::new(), data })
    }
}

/// A zeroed byte buffer of the given size.
fn zeroed_bytes(size: usize) -> (r: Vec<u8>)
    ensures
        r@.len() == size,
        forall|i: int| 0 <= i < size ==> r@[i] == 0u8,
{
    let mut v: Vec<u8> = Vec::new();
    let mut i: usize = 0;
    while i < size
        invariant
            i <= size,
            v@.len() == i as int,
            forall|j: int| 0 <= j < i ==> v@[j] == 0u8,
        decreases size - i,
    {
        v.push(0);
        i = i + 1;
    }
    v
}

/// A VIRGL 3D context: id, name and attached resources.
#[derive(Debug, Clone)]
pub struct VirglContext {
    /// Context id
    pub id: u32,
    /// Context name
    pub name: String,
    /// Attached resource ids
    pub resources: Vec<u32>,
}

impl VirglContext {
    /// Create a context with no attached resources.
    pub fn new(id: u32, name: String) -> (r: Self)
        ensures
            r.id == id,
            r.name@ == name@,
            r.resources@.len() == 0,
    {
        Self { id, name, resources: Vec::new() }
    }
}

/// A 3D (VIRGL) resource.
#[derive(Debug, Clone)]
pub struct Resource3D {
    /// Resource id
    pub id: u32,
    /// Width
    pub width: u32,
    /// Height
    pub height: u32,
    /// Depth
    pub depth: u32,
    /// Format
    pub format: u32,
    /// Target (TEXTURE_2D and the like)
    pub target: u32,
    /// Bind flags
    pub bind: u32,
    /// Number of samples
    pub nr_samples: u32,
    /// Flags
    pub flags: u32,
    /// Data buffer
    pub data: Vec<u8>,
}

impl Resource3D {
    /// Create a 3D resource with a zeroed buffer of width * height *
    /// depth * 4 bytes (4 bytes per pixel, simplified).
    pub fn new(
        id: u32,
        width: u32,
        height: u32,
        depth: u32,
        format: u32,
        target: u32,
        bind: u32,
        nr_samples: u32,
        flags: u32,
    ) -> (r: Self)
        requires
            width * height * depth * 4 <= usize::MAX,
        ensures
            r.id == id,
            r.width == width,
            r.height == height,
            r.depth == depth,
            r.format == format,
            r.target == target,
            r.bind == bind,
            r.nr_samples == nr_samples,
            r.flags == flags,
            r.data@.len() == width * height * depth * 4,
    {
        proof {
            assert(width as int * height as int <= width as int * height as int * depth as int * 4
                || depth == 0) by (nonlinear_arith);
            assert(width as int * height as int * depth as int <= width as int * height as int
                * depth as int * 4) by (nonlinear_arith);
            assert(depth == 0 ==> width as int * height as int * depth as int * 4 == 0)
                by (nonlinear_arith);
        }
        let size: usize = if depth == 0 {
            0
        } else {
            proof {
                assert(depth >= 1 ==> width as int * height as int <= width as int * height as int
                    * depth as int) by (nonlinear_arith);
            }
            (width as usize) * (height as usize) * (depth as usize) * 4
        };
        proof {
            assert(depth == 0 ==> size == width as int * height as int * depth as int * 4)
                by (nonlinear_arith)
                requires
                    depth == 0 ==> size == 0,
            ;
        }
        let data = zeroed_bytes(size);
        Self { id, width, height, depth, format, target, bind, nr_samples, flags, data }
    }
}

/// GPU configuration record, as exposed in the device's config space.
#[derive(Debug, Clone, Copy, PartialEq, Eq, Structural)]
pub struct GpuConfig {
    /// Number of scanouts
    pub num_scanouts: u32,
    /// Reserved word
    pub reserved: u32,
}

impl Default for GpuConfig {
    /// The default configuration exposes one scanout.
    fn default() -> (r: Self)
        ensures
            r == (GpuConfig { num_scanouts: 1, reserved: 0 }),
    {
        GpuConfig { num_scanouts: 1, reserved: 0 }
    }
}

} // verus!
