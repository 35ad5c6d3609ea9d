//! Calls into the driver libraries, as plain values.
//!
//! The library decides which call comes next and what its result means. Making the call is left
//! to whoever holds the driver: it receives a [`Call`] and hands back a [`Reply`].

use vstd::prelude::*;

use crate::error::Error;
use crate::sys::Guid;

verus! {

/// One of the driver libraries.
#[derive(Debug, Clone, Copy, PartialEq, Eq, Structural)]
pub enum Library {
    /// The CUDA driver.
    Cuda,
    /// NVCUVID, for decoding.
    Nvcuvid,
    /// NVENC, for encoding.
    Nvenc,
}

/// A function exported by a driver library.
#[derive(Debug, Clone, Copy, PartialEq, Eq)]
pub struct Symbol {
    pub library: Library,
    pub name: &'static str,
}

/// A compressed packet for the parser. The payload itself is what the caller has in hand.
#[derive(Debug, Clone, Copy, PartialEq, Eq)]
pub struct Packet {
    pub flags: u64,
    pub payload_size: u64,
    pub timestamp: i64,
}

/// What a decoder is created for.
#[derive(Debug, Clone, Copy, PartialEq, Eq)]
pub struct DecoderCreateInfo {
    pub codec_type: u32,
    pub chroma_format: u32,
    pub output_format: u32,
    pub bit_depth_minus8: u64,
    pub deinterlace_mode: u32,
    pub num_output_surfaces: u64,
    pub creation_flags: u64,
    pub num_decode_surfaces: u64,
    pub width: u64,
    pub height: u64,
    pub max_width: u64,
    pub max_height: u64,
    pub target_width: u64,
    pub target_height: u64,
    pub vid_lock: u64,
}

/// How a decoded picture is post-processed when it is mapped.
#[derive(Debug, Clone, Copy, PartialEq, Eq)]
pub struct ProcParams {
    pub progressive_frame: i32,
    pub second_field: i32,
    pub top_field_first: i32,
    pub output_stream: u64,
}

/// A two-dimensional copy between two pitched memory areas.
#[derive(Debug, Clone, Copy, PartialEq, Eq)]
pub struct Copy2D {
    pub src_memory_type: u32,
    pub src_host: u64,
    pub src_device: u64,
    pub src_pitch: usize,
    pub dst_memory_type: u32,
    pub dst_host: u64,
    pub dst_device: u64,
    pub dst_pitch: usize,
    pub width_in_bytes: usize,
    pub height: usize,
}

/// A copy of one plane of a mapped picture into a host frame.
///
/// `height` rows of `width_in_bytes` bytes each are taken from the device memory at
/// `src_device`, starting in row `src_y` at byte `src_x_in_bytes`. They go to the plane of the
/// host frame that starts at `dst_offset` and spans `dst_len` bytes.
#[derive(Debug, Clone, Copy, PartialEq, Eq)]
pub struct PlaneCopy {
    pub src_device: u64,
    pub src_pitch: usize,
    pub src_x_in_bytes: usize,
    pub src_y: usize,
    pub dst_offset: usize,
    pub dst_len: usize,
    pub dst_pitch: usize,
    pub width_in_bytes: usize,
    pub height: usize,
}

/// A capability of an encoder that can be asked for.
#[derive(Debug, Clone, Copy, PartialEq, Eq, Structural)]
pub enum EncoderCapability {
    SupportedRateControlModes,
    SupportYuv444Encode,
    SupportYuv422Encode,
    SupportMeOnlyMode,
    WidthMax,
    HeightMax,
    WidthMin,
    HeightMin,
    NumMaxBFrames,
    Support10BitEncode,
    SupportLosslessEncode,
    SupportLookahead,
    SupportTemporalAq,
}

/// The part of an NVENC configuration that this library sets. Whatever else a preset holds
/// stays as the preset has it.
#[derive(Debug, Clone, Copy, PartialEq, Eq)]
pub struct EncodeConfig {
    pub profile_guid: Guid,
    pub gop_length: u32,
    pub frame_interval_p: i32,
    pub rate_control_mode: u32,
    pub average_bitrate: u32,
    pub max_bitrate: u32,
    pub idr_period: u32,
}

/// Initialization parameters of an encoder.
#[derive(Debug, Clone, Copy, PartialEq, Eq)]
pub struct InitializeParams {
    pub encode_guid: Guid,
    pub preset_guid: Guid,
    pub encode_width: u32,
    pub encode_height: u32,
    pub dar_width: u32,
    pub dar_height: u32,
    pub frame_rate_num: u32,
    pub frame_rate_den: u32,
    pub enable_ptd: u32,
    pub max_encode_width: u32,
    pub max_encode_height: u32,
    pub tuning_info: u32,
}

/// An input image in device memory that is to be registered with an encoder.
#[derive(Debug, Clone, Copy, PartialEq, Eq)]
pub struct InputImage {
    pub device_ptr: u64,
    pub width: u32,
    pub height: u32,
    pub pitch: u32,
    pub buffer_format: u32,
}

/// A picture to encode.
#[derive(Debug, Clone, Copy, PartialEq, Eq)]
pub struct PictureParams {
    pub input_width: u32,
    pub input_height: u32,
    pub input_pitch: u32,
    pub input_buffer: u64,
    pub output_bitstream: u64,
    pub buffer_format: u32,
    pub picture_struct: u32,
    pub input_timestamp: u64,
    pub encode_pic_flags: u32,
}

/// A call into a driver library. Handles are the driver's own, 0 being the null handle.
#[derive(Debug, Clone, Copy, PartialEq, Eq)]
pub enum Call {
    /// Make sure that the driver libraries are loaded.
    LoadLibraries,
    CtxCreate { flags: u32, device: i32 },
    CtxDestroy { ctx: u64 },
    CtxPushCurrent { ctx: u64 },
    CtxPopCurrent,
    CtxSynchronize,
    MemAlloc { size: usize },
    MemFree { device_ptr: u64 },
    /// Copy the frame in hand to device memory.
    MemcpyHtoD { device_ptr: u64, size: usize },
    DeviceGetCount,
    DeviceGet { ordinal: i32 },
    DeviceGetName { device: i32 },
    MemAllocPitch { width_in_bytes: usize, height: usize, element_size_bytes: u32 },
    Memcpy2D { copy: Copy2D },
    /// Copy a plane of a mapped picture to the host and hand back the bytes of that plane.
    CopyPlane { plane: PlaneCopy },
    StreamCreate { flags: u32 },
    StreamSynchronize { stream: u64 },
    StreamDestroy { stream: u64 },
    GetDecoderCaps { codec_type: u32, chroma_format: u32, bit_depth_minus8: u32 },
    CtxLockCreate { ctx: u64 },
    CtxLockDestroy { lock: u64 },
    CreateVideoParser { codec_type: u32, max_num_decode_surfaces: u32, max_display_delay: u32 },
    DestroyVideoParser { parser: u64 },
    ParseVideoData { parser: u64, packet: Packet },
    CreateDecoder { info: DecoderCreateInfo },
    DestroyDecoder { decoder: u64 },
    /// Decode the picture that the parser has announced.
    DecodePicture { decoder: u64 },
    MapVideoFrame { decoder: u64, picture_index: i32, proc_params: ProcParams },
    UnmapVideoFrame { decoder: u64, device_ptr: u64 },
    CreateApiInstance,
    OpenEncodeSession { ctx: u64 },
    DestroyEncoder { session: u64 },
    GetEncodeCaps { session: u64, codec: Guid, capability: EncoderCapability },
    GetEncodePresetConfig { session: u64, codec: Guid, preset: Guid, tuning_info: u32 },
    InitializeEncoder { session: u64, params: InitializeParams, config: EncodeConfig },
    ReconfigureEncoder { session: u64, params: InitializeParams, config: EncodeConfig },
    RegisterResource { session: u64, image: InputImage },
    UnregisterResource { session: u64, resource: u64 },
    MapInputResource { session: u64, resource: u64 },
    UnmapInputResource { session: u64, mapped: u64 },
    CreateBitstreamBuffer { session: u64 },
    DestroyBitstreamBuffer { session: u64, buffer: u64 },
    EncodePicture { session: u64, picture: PictureParams },
    LockBitstream { session: u64, buffer: u64 },
    UnlockBitstream { session: u64, buffer: u64 },
    GetSequenceParams { session: u64, buffer_size: u32 },
}

impl Call {
    /// Name of the function that the call goes to, as it appears in an error.
    pub open spec fn function_spec(self) -> &'static str {
        match self {
            Call::LoadLibraries => "CudaLibrary::load",
            Call::CtxCreate { .. } => "cuCtxCreate_v2",
            Call::CtxDestroy { .. } => "cuCtxDestroy_v2",
            Call::CtxPushCurrent { .. } => "cuCtxPushCurrent_v2",
            Call::CtxPopCurrent => "cuCtxPopCurrent_v2",
            Call::CtxSynchronize => "cuCtxSynchronize",
            Call::MemAlloc { .. } => "cuMemAlloc_v2",
            Call::MemFree { .. } => "cuMemFree_v2",
            Call::MemcpyHtoD { .. } => "cuMemcpyHtoD_v2",
            Call::DeviceGetCount => "cuDeviceGetCount",
            Call::DeviceGet { .. } => "cuDeviceGet",
            Call::DeviceGetName { .. } => "cuDeviceGetName",
            Call::MemAllocPitch { .. } => "cuMemAllocPitch_v2",
            Call::Memcpy2D { .. } => "cuMemcpy2D_v2",
            Call::CopyPlane { .. } => "cuMemcpy2D_v2",
            Call::StreamCreate { .. } => "cuStreamCreate",
            Call::StreamSynchronize { .. } => "cuStreamSynchronize",
            Call::StreamDestroy { .. } => "cuStreamDestroy_v2",
            Call::GetDecoderCaps { .. } => "cuvidGetDecoderCaps",
            Call::CtxLockCreate { .. } => "cuvidCtxLockCreate",
            Call::CtxLockDestroy { .. } => "cuvidCtxLockDestroy",
            Call::CreateVideoParser { .. } => "cuvidCreateVideoParser",
            Call::DestroyVideoParser { .. } => "cuvidDestroyVideoParser",
            Call::ParseVideoData { .. } => "cuvidParseVideoData",
            Call::CreateDecoder { .. } => "cuvidCreateDecoder",
            Call::DestroyDecoder { .. } => "cuvidDestroyDecoder",
            Call::DecodePicture { .. } => "cuvidDecodePicture",
            Call::MapVideoFrame { .. } => "cuvidMapVideoFrame64",
            Call::UnmapVideoFrame { .. } => "cuvidUnmapVideoFrame64",
            Call::CreateApiInstance => "NvEncodeAPICreateInstance",
            Call::OpenEncodeSession { .. } => "nvEncOpenEncodeSessionEx",
            Call::DestroyEncoder { .. } => "nvEncDestroyEncoder",
            Call::GetEncodeCaps { .. } => "nvEncGetEncodeCaps",
            Call::GetEncodePresetConfig { .. } => "nvEncGetEncodePresetConfigEx",
            Call::InitializeEncoder { .. } => "nvEncInitializeEncoder",
            Call::ReconfigureEncoder { .. } => "nvEncReconfigureEncoder",
            Call::RegisterResource { .. } => "nvEncRegisterResource",
            Call::UnregisterResource { .. } => "nvEncUnregisterResource",
            Call::MapInputResource { .. } => "nvEncMapInputResource",
            Call::UnmapInputResource { .. } => "nvEncUnmapInputResource",
            Call::CreateBitstreamBuffer { .. } => "nvEncCreateBitstreamBuffer",
            Call::DestroyBitstreamBuffer { .. } => "nvEncDestroyBitstreamBuffer",
            Call::EncodePicture { .. } => "nvEncEncodePicture",
            Call::LockBitstream { .. } => "nvEncLockBitstream",
            Call::UnlockBitstream { .. } => "nvEncUnlockBitstream",
            Call::GetSequenceParams { .. } => "nvEncGetSequenceParams",
        }
    }

    /// Name of the function that the call goes to, as it appears in an error.
    pub fn function(&self) -> (name: &'static str)
        ensures
            name == self.function_spec(),
    {
        match *self {
            Call::LoadLibraries => "CudaLibrary::load",
            Call::CtxCreate { .. } => "cuCtxCreate_v2",
            Call::CtxDestroy { .. } => "cuCtxDestroy_v2",
            Call::CtxPushCurrent { .. } => "cuCtxPushCurrent_v2",
            Call::CtxPopCurrent => "cuCtxPopCurrent_v2",
            Call::CtxSynchronize => "cuCtxSynchronize",
            Call::MemAlloc { .. } => "cuMemAlloc_v2",
            Call::MemFree { .. } => "cuMemFree_v2",
            Call::MemcpyHtoD { .. } => "cuMemcpyHtoD_v2",
            Call::DeviceGetCount => "cuDeviceGetCount",
            Call::DeviceGet { .. } => "cuDeviceGet",
            Call::DeviceGetName { .. } => "cuDeviceGetName",
            Call::MemAllocPitch { .. } => "cuMemAllocPitch_v2",
            Call::Memcpy2D { .. } => "cuMemcpy2D_v2",
            Call::CopyPlane { .. } => "cuMemcpy2D_v2",
            Call::StreamCreate { .. } => "cuStreamCreate",
            Call::StreamSynchronize { .. } => "cuStreamSynchronize",
            Call::StreamDestroy { .. } => "cuStreamDestroy_v2",
            Call::GetDecoderCaps { .. } => "cuvidGetDecoderCaps",
            Call::CtxLockCreate { .. } => "cuvidCtxLockCreate",
            Call::CtxLockDestroy { .. } => "cuvidCtxLockDestroy",
            Call::CreateVideoParser { .. } => "cuvidCreateVideoParser",
            Call::DestroyVideoParser { .. } => "cuvidDestroyVideoParser",
            Call::ParseVideoData { .. } => "cuvidParseVideoData",
            Call::CreateDecoder { .. } => "cuvidCreateDecoder",
            Call::DestroyDecoder { .. } => "cuvidDestroyDecoder",
            Call::DecodePicture { .. } => "cuvidDecodePicture",
            Call::MapVideoFrame { .. } => "cuvidMapVideoFrame64",
            Call::UnmapVideoFrame { .. } => "cuvidUnmapVideoFrame64",
            Call::CreateApiInstance => "NvEncodeAPICreateInstance",
            Call::OpenEncodeSession { .. } => "nvEncOpenEncodeSessionEx",
            Call::DestroyEncoder { .. } => "nvEncDestroyEncoder",
            Call::GetEncodeCaps { .. } => "nvEncGetEncodeCaps",
            Call::GetEncodePresetConfig { .. } => "nvEncGetEncodePresetConfigEx",
            Call::InitializeEncoder { .. } => "nvEncInitializeEncoder",
            Call::ReconfigureEncoder { .. } => "nvEncReconfigureEncoder",
            Call::RegisterResource { .. } => "nvEncRegisterResource",
            Call::UnregisterResource { .. } => "nvEncUnregisterResource",
            Call::MapInputResource { .. } => "nvEncMapInputResource",
            Call::UnmapInputResource { .. } => "nvEncUnmapInputResource",
            Call::CreateBitstreamBuffer { .. } => "nvEncCreateBitstreamBuffer",
            Call::DestroyBitstreamBuffer { .. } => "nvEncDestroyBitstreamBuffer",
            Call::EncodePicture { .. } => "nvEncEncodePicture",
            Call::LockBitstream { .. } => "nvEncLockBitstream",
            Call::UnlockBitstream { .. } => "nvEncUnlockBitstream",
            Call::GetSequenceParams { .. } => "nvEncGetSequenceParams",
        }
    }

    /// The library that answers the call.
    pub open spec fn library_spec(self) -> Library {
        match self {
            Call::GetDecoderCaps { .. }
            | Call::CtxLockCreate { .. }
            | Call::CtxLockDestroy { .. }
            | Call::CreateVideoParser { .. }
            | Call::DestroyVideoParser { .. }
            | Call::ParseVideoData { .. }
            | Call::CreateDecoder { .. }
            | Call::DestroyDecoder { .. }
            | Call::DecodePicture { .. }
            | Call::MapVideoFrame { .. }
            | Call::UnmapVideoFrame { .. } => Library::Nvcuvid,
            Call::CreateApiInstance
            | Call::OpenEncodeSession { .. }
            | Call::DestroyEncoder { .. }
            | Call::GetEncodeCaps { .. }
            | Call::GetEncodePresetConfig { .. }
            | Call::InitializeEncoder { .. }
            | Call::ReconfigureEncoder { .. }
            | Call::RegisterResource { .. }
            | Call::UnregisterResource { .. }
            | Call::MapInputResource { .. }
            | Call::UnmapInputResource { .. }
            | Call::CreateBitstreamBuffer { .. }
            | Call::DestroyBitstreamBuffer { .. }
            | Call::EncodePicture { .. }
            | Call::LockBitstream { .. }
            | Call::UnlockBitstream { .. }
            | Call::GetSequenceParams { .. } => Library::Nvenc,
            _ => Library::Cuda,
        }
    }

    /// The library that answers the call.
    pub fn library(&self) -> (library: Library)
        ensures
            library == self.library_spec(),
    {
        match *self {
            Call::GetDecoderCaps { .. }
            | Call::CtxLockCreate { .. }
            | Call::CtxLockDestroy { .. }
            | Call::CreateVideoParser { .. }
            | Call::DestroyVideoParser { .. }
            | Call::ParseVideoData { .. }
            | Call::CreateDecoder { .. }
            | Call::DestroyDecoder { .. }
            | Call::DecodePicture { .. }
            | Call::MapVideoFrame { .. }
            | Call::UnmapVideoFrame { .. } => Library::Nvcuvid,
            Call::CreateApiInstance
            | Call::OpenEncodeSession { .. }
            | Call::DestroyEncoder { .. }
            | Call::GetEncodeCaps { .. }
            | Call::GetEncodePresetConfig { .. }
            | Call::InitializeEncoder { .. }
            | Call::ReconfigureEncoder { .. }
            | Call::RegisterResource { .. }
            | Call::UnregisterResource { .. }
            | Call::MapInputResource { .. }
            | Call::UnmapInputResource { .. }
            | Call::CreateBitstreamBuffer { .. }
            | Call::DestroyBitstreamBuffer { .. }
            | Call::EncodePicture { .. }
            | Call::LockBitstream { .. }
            | Call::UnlockBitstream { .. }
            | Call::GetSequenceParams { .. } => Library::Nvenc,
            _ => Library::Cuda,
        }
    }

    /// The exported function that the call goes to. The functions of an encode session are not
    /// exported: they come from the table that `NvEncodeAPICreateInstance` fills in.
    pub open spec fn symbol_spec(self) -> Option<Symbol> {
        if self is LoadLibraries {
            None
        } else if self.library_spec() == Library::Nvenc && !(self is CreateApiInstance) {
            None
        } else {
            Some(Symbol { library: self.library_spec(), name: self.function_spec() })
        }
    }

    /// The exported function that the call goes to, if it goes to one.
    pub fn symbol(&self) -> (symbol: Option<Symbol>)
        ensures
            symbol == self.symbol_spec(),
    {
        if let Call::LoadLibraries = *self {
            return None;
        }
        let exported = match *self {
            Call::CreateApiInstance => true,
            _ => self.library() != Library::Nvenc,
        };
        if exported {
            Some(Symbol { library: self.library(), name: self.function() })
        } else {
            None
        }
    }

    /// The reply to a call that returned `status` and left `output` behind.
    pub open spec fn concluded(
        self,
        status: u32,
        name: Option<String>,
        message: Option<String>,
        output: Output,
    ) -> Reply {
        let outcome = if self.library_spec() == Library::Nvenc {
            crate::error::nvenc_outcome(status, self.function_spec())
        } else {
            crate::error::cuda_outcome(status, self.function_spec(), name, message)
        };
        match outcome {
            Ok(()) => Ok(output),
            Err(error) => Err(error),
        }
    }

    /// Turns the status that a call returned into the reply to it. `name` and `message` are what
    /// the CUDA driver says of the status; NVENC has texts of its own.
    pub fn conclude(
        &self,
        status: u32,
        name: Option<String>,
        message: Option<String>,
        output: Output,
    ) -> (reply: Reply)
        ensures
            reply == self.concluded(status, name, message, output),
    {
        let outcome = match self.library() {
            Library::Nvenc => Error::check_nvenc(status, self.function()),
            _ => Error::check_cuda(status, self.function(), name, message),
        };
        match outcome {
            Ok(()) => Ok(output),
            Err(error) => Err(error),
        }
    }
}

/// Decoding capabilities as the driver reports them.
#[derive(Debug, Clone, Copy, PartialEq, Eq)]
pub struct RawDecoderCaps {
    pub is_supported: u8,
    pub max_width: u32,
    pub max_height: u32,
    pub max_mb_count: u32,
    pub min_width: u16,
    pub min_height: u16,
}

/// What a call has left behind besides its status.
#[derive(Debug)]
pub enum Output {
    Nothing,
    /// A handle or a device pointer.
    Handle(u64),
    Integer(i32),
    Name(String),
    Pitched { device_ptr: u64, allocated_pitch: usize },
    Mapped { device_ptr: u64, pitch: u32 },
    DecoderCaps(RawDecoderCaps),
    Preset(EncodeConfig),
    /// The bytes of a plane that was copied to the host.
    Plane(Vec<u8>),
    /// A locked bitstream; `data` is what it holds, `null` whether its pointer is null.
    Bitstream { null: bool, data: Vec<u8>, timestamp: u64, picture_type: u32 },
    /// A sequence header: the buffer that was handed in, and how much of it was written.
    SequenceHeader { buffer: Vec<u8>, size: u32 },
}

/// The answer to a call.
pub type Reply = Result<Output, Error>;

/// What a reply says of whether the call succeeded.
pub open spec fn result_of(reply: Reply) -> Result<(), Error> {
    match reply {
        Ok(_) => Ok(()),
        Err(error) => Err(error),
    }
}

// An output parameter starts out as zero, and a call that does not set it leaves it so.

impl Output {
    pub open spec fn handle_spec(self) -> u64 {
        match self {
            Output::Handle(handle) => handle,
            _ => 0,
        }
    }

    /// The handle that the call has set.
    pub fn handle(&self) -> (handle: u64)
        ensures
            handle == self.handle_spec(),
    {
        match self {
            Output::Handle(handle) => *handle,
            _ => 0,
        }
    }

    pub open spec fn integer_spec(self) -> i32 {
        match self {
            Output::Integer(value) => value,
            _ => 0,
        }
    }

    /// The integer that the call has set.
    pub fn integer(&self) -> (value: i32)
        ensures
            value == self.integer_spec(),
    {
        match self {
            Output::Integer(value) => *value,
            _ => 0,
        }
    }

    pub open spec fn name_spec(self) -> Seq<char> {
        match self {
            Output::Name(name) => name@,
            _ => Seq::empty(),
        }
    }

    /// The name that the call has written.
    pub fn into_name(self) -> (name: String)
        ensures
            name@ == self.name_spec(),
    {
        match self {
            Output::Name(name) => name,
            _ => String::new(),
        }
    }

    pub open spec fn pitched_spec(self) -> (u64, usize) {
        match self {
            Output::Pitched { device_ptr, allocated_pitch } => (device_ptr, allocated_pitch),
            _ => (0, 0),
        }
    }

    /// Address and pitch of the memory that the call has allocated.
    pub fn pitched(&self) -> (area: (u64, usize))
        ensures
            area == self.pitched_spec(),
    {
        match self {
            Output::Pitched { device_ptr, allocated_pitch } => (*device_ptr, *allocated_pitch),
            _ => (0, 0),
        }
    }

    pub open spec fn mapped_spec(self) -> (u64, u32) {
        match self {
            Output::Mapped { device_ptr, pitch } => (device_ptr, pitch),
            _ => (0, 0),
        }
    }

    /// Address and pitch of the picture that the call has mapped.
    pub fn mapped(&self) -> (area: (u64, u32))
        ensures
            area == self.mapped_spec(),
    {
        match self {
            Output::Mapped { device_ptr, pitch } => (*device_ptr, *pitch),
            _ => (0, 0),
        }
    }

    pub open spec fn decoder_caps_spec(self) -> RawDecoderCaps {
        match self {
            Output::DecoderCaps(caps) => caps,
            _ => RawDecoderCaps {
                is_supported: 0,
                max_width: 0,
                max_height: 0,
                max_mb_count: 0,
                min_width: 0,
                min_height: 0,
            },
        }
    }

    /// The capabilities that the call has reported.
    pub fn decoder_caps(&self) -> (caps: RawDecoderCaps)
        ensures
            caps == self.decoder_caps_spec(),
    {
        match self {
            Output::DecoderCaps(caps) => *caps,
            _ => RawDecoderCaps {
                is_supported: 0,
                max_width: 0,
                max_height: 0,
                max_mb_count: 0,
                min_width: 0,
                min_height: 0,
            },
        }
    }

    pub open spec fn preset_spec(self) -> EncodeConfig {
        match self {
            Output::Preset(config) => config,
            _ => EncodeConfig {
                profile_guid: 0,
                gop_length: 0,
                frame_interval_p: 0,
                rate_control_mode: 0,
                average_bitrate: 0,
                max_bitrate: 0,
                idr_period: 0,
            },
        }
    }

    /// The configuration that the call has read from a preset.
    pub fn preset(&self) -> (config: EncodeConfig)
        ensures
            config == self.preset_spec(),
    {
        match self {
            Output::Preset(config) => *config,
            _ => EncodeConfig {
                profile_guid: 0,
                gop_length: 0,
                frame_interval_p: 0,
                rate_control_mode: 0,
                average_bitrate: 0,
                max_bitrate: 0,
                idr_period: 0,
            },
        }
    }

    pub open spec fn plane_spec(self) -> Seq<u8> {
        match self {
            Output::Plane(bytes) => bytes@,
            _ => Seq::empty(),
        }
    }

    /// The bytes that the call has copied.
    pub fn into_plane(self) -> (bytes: Vec<u8>)
        ensures
            bytes@ == self.plane_spec(),
    {
        match self {
            Output::Plane(bytes) => bytes,
            _ => Vec::new(),
        }
    }

    pub open spec fn bitstream_spec(self) -> Option<(Seq<u8>, u64, u32)> {
        match self {
            Output::Bitstream { null, data, timestamp, picture_type } => if null {
                None
            } else {
                Some((data@, timestamp, picture_type))
            },
            _ => None,
        }
    }

    /// Data, timestamp and picture type of a locked bitstream; `None` if its pointer is null.
    pub fn into_bitstream(self) -> (bitstream: Option<(Vec<u8>, u64, u32)>)
        ensures
            match bitstream {
                Some((data, timestamp, picture_type)) => self.bitstream_spec() == Some(
                    (data@, timestamp, picture_type),
                ),
                None => self.bitstream_spec() is None,
            },
    {
        match self {
            Output::Bitstream { null, data, timestamp, picture_type } => {
                if null {
                    None
                } else {
                    Some((data, timestamp, picture_type))
                }
            },
            _ => None,
        }
    }

    pub open spec fn sequence_header_spec(self) -> Seq<u8> {
        match self {
            Output::SequenceHeader { buffer, size } => if size <= buffer@.len() {
                buffer@.take(size as int)
            } else {
                buffer@
            },
            _ => Seq::empty(),
        }
    }

    /// The part of a sequence header buffer that the call has written.
    pub fn into_sequence_header(self) -> (header: Vec<u8>)
        ensures
            header@ == self.sequence_header_spec(),
    {
        match self {
            Output::SequenceHeader { buffer, size } => {
                let mut header = buffer;
                header.truncate(size as usize);
                header
            },
            _ => Vec::new(),
        }
    }
}

/// A call goes to the driver function that does what it says.
pub proof fn calls_go_to_their_functions(call: Call)
    ensures
        match call {
            Call::LoadLibraries => call.function_spec() == "CudaLibrary::load",
            Call::CtxCreate { .. } => call.function_spec() == "cuCtxCreate_v2",
            Call::CtxDestroy { .. } => call.function_spec() == "cuCtxDestroy_v2",
            Call::CtxPushCurrent { .. } => call.function_spec() == "cuCtxPushCurrent_v2",
            Call::CtxPopCurrent => call.function_spec() == "cuCtxPopCurrent_v2",
            Call::CtxSynchronize => call.function_spec() == "cuCtxSynchronize",
            Call::MemAlloc { .. } => call.function_spec() == "cuMemAlloc_v2",
            Call::MemFree { .. } => call.function_spec() == "cuMemFree_v2",
            Call::MemcpyHtoD { .. } => call.function_spec() == "cuMemcpyHtoD_v2",
            Call::DeviceGetCount => call.function_spec() == "cuDeviceGetCount",
            Call::DeviceGet { .. } => call.function_spec() == "cuDeviceGet",
            Call::DeviceGetName { .. } => call.function_spec() == "cuDeviceGetName",
            Call::MemAllocPitch { .. } => call.function_spec() == "cuMemAllocPitch_v2",
            Call::Memcpy2D { .. } => call.function_spec() == "cuMemcpy2D_v2",
            Call::CopyPlane { .. } => call.function_spec() == "cuMemcpy2D_v2",
            Call::StreamCreate { .. } => call.function_spec() == "cuStreamCreate",
            Call::StreamSynchronize { .. } => call.function_spec() == "cuStreamSynchronize",
            Call::StreamDestroy { .. } => call.function_spec() == "cuStreamDestroy_v2",
            Call::GetDecoderCaps { .. } => call.function_spec() == "cuvidGetDecoderCaps",
            Call::CtxLockCreate { .. } => call.function_spec() == "cuvidCtxLockCreate",
            Call::CtxLockDestroy { .. } => call.function_spec() == "cuvidCtxLockDestroy",
            Call::CreateVideoParser { .. } => call.function_spec() == "cuvidCreateVideoParser",
            Call::DestroyVideoParser { .. } => call.function_spec() == "cuvidDestroyVideoParser",
            Call::ParseVideoData { .. } => call.function_spec() == "cuvidParseVideoData",
            Call::CreateDecoder { .. } => call.function_spec() == "cuvidCreateDecoder",
            Call::DestroyDecoder { .. } => call.function_spec() == "cuvidDestroyDecoder",
            Call::DecodePicture { .. } => call.function_spec() == "cuvidDecodePicture",
            Call::MapVideoFrame { .. } => call.function_spec() == "cuvidMapVideoFrame64",
            Call::UnmapVideoFrame { .. } => call.function_spec() == "cuvidUnmapVideoFrame64",
            Call::CreateApiInstance => call.function_spec() == "NvEncodeAPICreateInstance",
            Call::OpenEncodeSession { .. } => call.function_spec() == "nvEncOpenEncodeSessionEx",
            Call::DestroyEncoder { .. } => call.function_spec() == "nvEncDestroyEncoder",
            Call::GetEncodeCaps { .. } => call.function_spec() == "nvEncGetEncodeCaps",
            Call::GetEncodePresetConfig { .. } => call.function_spec() == "nvEncGetEncodePresetConfigEx",
            Call::InitializeEncoder { .. } => call.function_spec() == "nvEncInitializeEncoder",
            Call::ReconfigureEncoder { .. } => call.function_spec() == "nvEncReconfigureEncoder",
            Call::RegisterResource { .. } => call.function_spec() == "nvEncRegisterResource",
            Call::UnregisterResource { .. } => call.function_spec() == "nvEncUnregisterResource",
            Call::MapInputResource { .. } => call.function_spec() == "nvEncMapInputResource",
            Call::UnmapInputResource { .. } => call.function_spec() == "nvEncUnmapInputResource",
            Call::CreateBitstreamBuffer { .. } => call.function_spec() == "nvEncCreateBitstreamBuffer",
            Call::DestroyBitstreamBuffer { .. } => call.function_spec() == "nvEncDestroyBitstreamBuffer",
            Call::EncodePicture { .. } => call.function_spec() == "nvEncEncodePicture",
            Call::LockBitstream { .. } => call.function_spec() == "nvEncLockBitstream",
            Call::UnlockBitstream { .. } => call.function_spec() == "nvEncUnlockBitstream",
            Call::GetSequenceParams { .. } => call.function_spec() == "nvEncGetSequenceParams",
        },
{
}

/// A call is answered by the library whose function it goes to: those of NVCUVID begin with
/// `cuvid`, those of NVENC with `nvEnc` or `NvEnc`, and all others belong to CUDA. A function that
/// is looked up by name is looked up in that library, under that name.
pub proof fn calls_go_to_their_libraries(call: Call)
    ensures
        ({
            let name = call.function_spec()@;
            &&& call.library_spec() is Nvenc <==> name[0] == 'n' || name[0] == 'N'
            &&& call.library_spec() is Nvcuvid <==> name[0] == 'c' && name[2] == 'v'
        }),
        call.symbol_spec() matches Some(symbol) ==> symbol.library == call.library_spec()
            && symbol.name == call.function_spec(),
        call.symbol_spec() is None <==> call is LoadLibraries || (call.library_spec() is Nvenc
            && !(call is CreateApiInstance)),
{
    reveal_strlit("CudaLibrary::load");
    reveal_strlit("cuCtxCreate_v2");
    reveal_strlit("cuCtxDestroy_v2");
    reveal_strlit("cuCtxPushCurrent_v2");
    reveal_strlit("cuCtxPopCurrent_v2");
    reveal_strlit("cuCtxSynchronize");
    reveal_strlit("cuMemAlloc_v2");
    reveal_strlit("cuMemFree_v2");
    reveal_strlit("cuMemcpyHtoD_v2");
    reveal_strlit("cuDeviceGetCount");
    reveal_strlit("cuDeviceGet");
    reveal_strlit("cuDeviceGetName");
    reveal_strlit("cuMemAllocPitch_v2");
    reveal_strlit("cuMemcpy2D_v2");
    reveal_strlit("cuStreamCreate");
    reveal_strlit("cuStreamSynchronize");
    reveal_strlit("cuStreamDestroy_v2");
    reveal_strlit("cuvidGetDecoderCaps");
    reveal_strlit("cuvidCtxLockCreate");
    reveal_strlit("cuvidCtxLockDestroy");
    reveal_strlit("cuvidCreateVideoParser");
    reveal_strlit("cuvidDestroyVideoParser");
    reveal_strlit("cuvidParseVideoData");
    reveal_strlit("cuvidCreateDecoder");
    reveal_strlit("cuvidDestroyDecoder");
    reveal_strlit("cuvidDecodePicture");
    reveal_strlit("cuvidMapVideoFrame64");
    reveal_strlit("cuvidUnmapVideoFrame64");
    reveal_strlit("NvEncodeAPICreateInstance");
    reveal_strlit("nvEncOpenEncodeSessionEx");
    reveal_strlit("nvEncDestroyEncoder");
    reveal_strlit("nvEncGetEncodeCaps");
    reveal_strlit("nvEncGetEncodePresetConfigEx");
    reveal_strlit("nvEncInitializeEncoder");
    reveal_strlit("nvEncReconfigureEncoder");
    reveal_strlit("nvEncRegisterResource");
    reveal_strlit("nvEncUnregisterResource");
    reveal_strlit("nvEncMapInputResource");
    reveal_strlit("nvEncUnmapInputResource");
    reveal_strlit("nvEncCreateBitstreamBuffer");
    reveal_strlit("nvEncDestroyBitstreamBuffer");
    reveal_strlit("nvEncEncodePicture");
    reveal_strlit("nvEncLockBitstream");
    reveal_strlit("nvEncUnlockBitstream");
    reveal_strlit("nvEncGetSequenceParams");
}

/// A call has succeeded just where its status is 0, and then what it has left behind is the reply.
/// Otherwise the reply is an error that names the function and the status. What the CUDA driver
/// says of the status goes into it; for NVENC, what NVENC's own list says.
pub proof fn replies_follow_the_status(
    call: Call,
    status: u32,
    name: Option<String>,
    message: Option<String>,
    output: Output,
)
    ensures
        match call.concluded(status, name, message, output) {
            Ok(left) => status == 0 && left == output,
            Err(error) => {
                &&& status != 0
                &&& error.function == call.function_spec()
                &&& error.status_code == Some(status)
                &&& call.library_spec() is Nvenc ==> {
                    &&& error.status_name is Some <==> 1 <= status <= 26
                    &&& error.status_message is Some <==> 1 <= status <= 26
                }
                &&& !(call.library_spec() is Nvenc) ==> {
                    &&& error.status_name is Some <==> name is Some
                    &&& name is Some ==> error@.status_name == Some(name->0@)
                    &&& error.status_message is Some <==> message is Some
                    &&& message is Some ==> error@.status_message == Some(message->0@)
                }
            },
        },
{
}

/// What a call has left behind is what is read from it.
pub proof fn outputs_are_read_as_they_were_left(
    handle: u64,
    integer: i32,
    name: String,
    size: usize,
    pitch: u32,
    raw: RawDecoderCaps,
    preset: EncodeConfig,
    bytes: Vec<u8>,
    timestamp: u64,
    written: u32,
)
    ensures
        Output::Handle(handle).handle_spec() == handle,
        Output::Integer(integer).integer_spec() == integer,
        Output::Name(name).name_spec() == name@,
        (Output::Pitched { device_ptr: handle, allocated_pitch: size }).pitched_spec() == (
            handle,
            size,
        ),
        (Output::Mapped { device_ptr: handle, pitch }).mapped_spec() == (handle, pitch),
        Output::DecoderCaps(raw).decoder_caps_spec() == raw,
        Output::Preset(preset).preset_spec() == preset,
        Output::Plane(bytes).plane_spec() == bytes@,
        (Output::Bitstream { null: false, data: bytes, timestamp, picture_type: pitch }).bitstream_spec()
            == Some((bytes@, timestamp, pitch)),
        (Output::Bitstream { null: true, data: bytes, timestamp, picture_type: pitch }).bitstream_spec()
            is None,
        (Output::SequenceHeader { buffer: bytes, size: written }).sequence_header_spec()
            == bytes@.take(if written <= bytes@.len() { written as int } else { bytes@.len() as int }),
        Output::Nothing.handle_spec() == 0,
        Output::Nothing.integer_spec() == 0,
{
    assert(bytes@.take(bytes@.len() as int) =~= bytes@);
}

} // verus!
