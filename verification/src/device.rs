//! Devices, device memory and streams.

use vstd::prelude::*;

use crate::driver::Call;
use crate::driver::Copy2D;
use crate::driver::Reply;
use crate::operation::Next;
use crate::operation::Progress;
use crate::operation::Release;
use crate::operation::SingleCall;
use crate::operation::Stage;
use crate::operation::Turn;
use crate::sys;

verus! {

/// The stages of counting the CUDA devices.
pub enum CountDevices {
    Load,
    Count,
}

impl Stage for CountDevices {
    type Context = ();

    type Output = i32;

    open spec fn admits(self, context: (), reply: Reply) -> bool {
        true
    }

    open spec fn moves(self, before: (), reply: Reply, after: (), progress: Progress<
        Self,
        i32,
    >) -> bool {
        match (self, reply) {
            (CountDevices::Load, Ok(_)) => progress.is(
                Seq::empty(),
                Next::Call { stage: CountDevices::Count, call: Call::DeviceGetCount },
            ),
            (CountDevices::Count, Ok(output)) => progress.is(
                Seq::empty(),
                Next::Succeed(output.integer_spec()),
            ),
            (_, Err(error)) => progress.is(Seq::empty(), Next::Fail(error)),
        }
    }

    fn advance(self, context: &mut (), reply: Reply) -> (progress: Progress<Self, i32>) {
        match (self, reply) {
            (CountDevices::Load, Ok(_)) => Progress::call(
                CountDevices::Count,
                Call::DeviceGetCount,
            ),
            (CountDevices::Count, Ok(output)) => Progress::succeed(output.integer()),
            (_, Err(error)) => Progress::fail(error),
        }
    }
}

/// Starts to count the CUDA devices.
pub fn device_count() -> (turn: Turn<CountDevices>)
    ensures
        turn@ == crate::operation::forward(CountDevices::Load, Call::LoadLibraries, Seq::empty()),
{
    Turn::start(CountDevices::Load, Call::LoadLibraries)
}

/// The stages of asking for the name of a device.
pub enum NameDevice {
    Load { device_id: i32 },
    Get,
    Name,
}

impl Stage for NameDevice {
    type Context = ();

    type Output = String;

    open spec fn admits(self, context: (), reply: Reply) -> bool {
        true
    }

    open spec fn moves(self, before: (), reply: Reply, after: (), progress: Progress<
        Self,
        String,
    >) -> bool {
        match (self, reply) {
            (NameDevice::Load { device_id }, Ok(_)) => progress.is(
                Seq::empty(),
                Next::Call {
                    stage: NameDevice::Get,
                    call: Call::DeviceGet { ordinal: device_id },
                },
            ),
            (NameDevice::Get, Ok(output)) => progress.is(
                Seq::empty(),
                Next::Call {
                    stage: NameDevice::Name,
                    call: Call::DeviceGetName { device: output.integer_spec() },
                },
            ),
            (NameDevice::Name, Ok(output)) => {
                &&& progress.acquired@ == Seq::<Release>::empty()
                &&& progress.next matches Next::Succeed(name)
                &&& name@ == output.name_spec()
            },
            (_, Err(error)) => progress.is(Seq::empty(), Next::Fail(error)),
        }
    }

    fn advance(self, context: &mut (), reply: Reply) -> (progress: Progress<Self, String>) {
        match (self, reply) {
            (NameDevice::Load { device_id }, Ok(_)) => Progress::call(
                NameDevice::Get,
                Call::DeviceGet { ordinal: device_id },
            ),
            (NameDevice::Get, Ok(output)) => Progress::call(
                NameDevice::Name,
                Call::DeviceGetName { device: output.integer() },
            ),
            (NameDevice::Name, Ok(output)) => Progress::succeed(output.into_name()),
            (_, Err(error)) => Progress::fail(error),
        }
    }
}

/// Starts to ask for the name of a CUDA device.
pub fn device_name(device_id: i32) -> (turn: Turn<NameDevice>)
    ensures
        turn@ == crate::operation::forward(
            NameDevice::Load { device_id },
            Call::LoadLibraries,
            Seq::empty(),
        ),
{
    Turn::start(NameDevice::Load { device_id }, Call::LoadLibraries)
}

/// Where memory lies.
#[derive(Debug, Clone, Copy, PartialEq, Eq, Structural)]
pub enum MemoryType {
    Host,
    Device,
}

impl MemoryType {
    pub open spec fn code(self) -> u32 {
        match self {
            MemoryType::Host => sys::CU_MEMORYTYPE_HOST,
            MemoryType::Device => sys::CU_MEMORYTYPE_DEVICE,
        }
    }

    /// The memory type as CUDA numbers it.
    pub fn to_sys(self) -> (code: u32)
        ensures
            code == self.code(),
    {
        match self {
            MemoryType::Host => sys::CU_MEMORYTYPE_HOST,
            MemoryType::Device => sys::CU_MEMORYTYPE_DEVICE,
        }
    }
}

/// A two-dimensional copy. Host memory is given by its address.
#[derive(Debug, Clone, Copy)]
pub struct Memcpy2DParams {
    pub src_memory_type: MemoryType,
    pub src_host: u64,
    pub src_device: u64,
    /// Pitch of the source in bytes.
    pub src_pitch: usize,
    pub dst_memory_type: MemoryType,
    pub dst_host: u64,
    pub dst_device: u64,
    /// Pitch of the destination in bytes.
    pub dst_pitch: usize,
    /// Bytes to copy per row.
    pub width_in_bytes: usize,
    /// Number of rows.
    pub height: usize,
}

/// The copy that the driver is asked for.
pub open spec fn driver_copy(params: Memcpy2DParams) -> Copy2D {
    Copy2D {
        src_memory_type: params.src_memory_type.code(),
        src_host: params.src_host,
        src_device: params.src_device,
        src_pitch: params.src_pitch,
        dst_memory_type: params.dst_memory_type.code(),
        dst_host: params.dst_host,
        dst_device: params.dst_device,
        dst_pitch: params.dst_pitch,
        width_in_bytes: params.width_in_bytes,
        height: params.height,
    }
}

/// The stages of a two-dimensional copy.
pub enum CopyMemory {
    Load { copy: Copy2D },
    Copy,
}

impl Stage for CopyMemory {
    type Context = ();

    type Output = ();

    open spec fn admits(self, context: (), reply: Reply) -> bool {
        true
    }

    open spec fn moves(self, before: (), reply: Reply, after: (), progress: Progress<
        Self,
        (),
    >) -> bool {
        match (self, reply) {
            (CopyMemory::Load { copy }, Ok(_)) => progress.is(
                Seq::empty(),
                Next::Call { stage: CopyMemory::Copy, call: Call::Memcpy2D { copy } },
            ),
            (CopyMemory::Copy, Ok(_)) => progress.is(Seq::empty(), Next::Succeed(())),
            (_, Err(error)) => progress.is(Seq::empty(), Next::Fail(error)),
        }
    }

    fn advance(self, context: &mut (), reply: Reply) -> (progress: Progress<Self, ()>) {
        match (self, reply) {
            (CopyMemory::Load { copy }, Ok(_)) => Progress::call(
                CopyMemory::Copy,
                Call::Memcpy2D { copy },
            ),
            (CopyMemory::Copy, Ok(_)) => Progress::succeed(()),
            (_, Err(error)) => Progress::fail(error),
        }
    }
}

/// Starts a two-dimensional copy, between memory areas whose pitches may differ.
pub fn memcpy_2d(params: &Memcpy2DParams) -> (turn: Turn<CopyMemory>)
    ensures
        turn@ == crate::operation::forward(
            CopyMemory::Load { copy: driver_copy(*params) },
            Call::LoadLibraries,
            Seq::empty(),
        ),
{
    let copy = Copy2D {
        src_memory_type: params.src_memory_type.to_sys(),
        src_host: params.src_host,
        src_device: params.src_device,
        src_pitch: params.src_pitch,
        dst_memory_type: params.dst_memory_type.to_sys(),
        dst_host: params.dst_host,
        dst_device: params.dst_device,
        dst_pitch: params.dst_pitch,
        width_in_bytes: params.width_in_bytes,
        height: params.height,
    };
    Turn::start(CopyMemory::Load { copy }, Call::LoadLibraries)
}

/// The stages of allocating pitched device memory.
pub enum AllocatePitched {
    Load { width_in_bytes: usize, height: usize, element_size_bytes: u32 },
    Allocate,
}

impl Stage for AllocatePitched {
    type Context = ();

    type Output = (u64, usize);

    open spec fn admits(self, context: (), reply: Reply) -> bool {
        true
    }

    open spec fn moves(self, before: (), reply: Reply, after: (), progress: Progress<
        Self,
        (u64, usize),
    >) -> bool {
        match (self, reply) {
            (
                AllocatePitched::Load { width_in_bytes, height, element_size_bytes },
                Ok(_),
            ) => progress.is(
                Seq::empty(),
                Next::Call {
                    stage: AllocatePitched::Allocate,
                    call: Call::MemAllocPitch { width_in_bytes, height, element_size_bytes },
                },
            ),
            (AllocatePitched::Allocate, Ok(output)) => progress.is(
                Seq::empty(),
                Next::Succeed(output.pitched_spec()),
            ),
            (_, Err(error)) => progress.is(Seq::empty(), Next::Fail(error)),
        }
    }

    fn advance(self, context: &mut (), reply: Reply) -> (progress: Progress<Self, (u64, usize)>) {
        match (self, reply) {
            (
                AllocatePitched::Load { width_in_bytes, height, element_size_bytes },
                Ok(_),
            ) => Progress::call(
                AllocatePitched::Allocate,
                Call::MemAllocPitch { width_in_bytes, height, element_size_bytes },
            ),
            (AllocatePitched::Allocate, Ok(output)) => Progress::succeed(output.pitched()),
            (_, Err(error)) => Progress::fail(error),
        }
    }
}

/// Starts to allocate device memory with a pitch that suits the GPU.
///
/// The result is the device pointer and the pitch.
pub fn mem_alloc_pitch(width_in_bytes: usize, height: usize, element_size_bytes: u32) -> (turn:
    Turn<AllocatePitched>)
    ensures
        turn@ == crate::operation::forward(
            AllocatePitched::Load { width_in_bytes, height, element_size_bytes },
            Call::LoadLibraries,
            Seq::empty(),
        ),
{
    Turn::start(
        AllocatePitched::Load { width_in_bytes, height, element_size_bytes },
        Call::LoadLibraries,
    )
}

/// A CUDA stream: a queue of asynchronous GPU operations.
#[derive(Debug)]
pub struct CudaStream {
    stream: u64,
}

impl View for CudaStream {
    type V = u64;

    /// The handle of the stream.
    closed spec fn view(&self) -> u64 {
        self.stream
    }
}

/// The stages of creating a stream.
pub enum CreateStream {
    Load,
    Create,
}

impl Stage for CreateStream {
    type Context = ();

    type Output = CudaStream;

    open spec fn admits(self, context: (), reply: Reply) -> bool {
        true
    }

    open spec fn moves(self, before: (), reply: Reply, after: (), progress: Progress<
        Self,
        CudaStream,
    >) -> bool {
        match (self, reply) {
            (CreateStream::Load, Ok(_)) => progress.is(
                Seq::empty(),
                Next::Call { stage: CreateStream::Create, call: Call::StreamCreate { flags: 0 } },
            ),
            (CreateStream::Create, Ok(output)) => {
                &&& progress.acquired@ == Seq::<Release>::empty()
                &&& progress.next matches Next::Succeed(stream)
                &&& stream@ == output.handle_spec()
            },
            (_, Err(error)) => progress.is(Seq::empty(), Next::Fail(error)),
        }
    }

    fn advance(self, context: &mut (), reply: Reply) -> (progress: Progress<Self, CudaStream>) {
        match (self, reply) {
            (CreateStream::Load, Ok(_)) => Progress::call(
                CreateStream::Create,
                Call::StreamCreate { flags: 0 },
            ),
            (CreateStream::Create, Ok(output)) => Progress::succeed(
                CudaStream { stream: output.handle() },
            ),
            (_, Err(error)) => Progress::fail(error),
        }
    }
}

/// What is to be released when a stream is taken down.
pub open spec fn closing_releases(stream: u64) -> Seq<Release> {
    if stream != sys::NULL {
        seq![Release::Always(Call::StreamDestroy { stream })]
    } else {
        Seq::empty()
    }
}

impl CudaStream {
    /// Starts to create a stream.
    pub fn new() -> (turn: Turn<CreateStream>)
        ensures
            turn@ == crate::operation::forward(
                CreateStream::Load,
                Call::LoadLibraries,
                Seq::empty(),
            ),
    {
        Turn::start(CreateStream::Load, Call::LoadLibraries)
    }

    /// Starts to wait until everything in the stream is done.
    pub fn synchronize(&self) -> (turn: Turn<SingleCall>)
        ensures
            turn@ == crate::operation::forward(
                SingleCall,
                Call::StreamSynchronize { stream: self@ },
                Seq::empty(),
            ),
    {
        Turn::start(SingleCall, Call::StreamSynchronize { stream: self.stream })
    }

    /// The handle of the stream.
    pub fn as_raw(&self) -> (handle: u64)
        ensures
            handle == self@,
    {
        self.stream
    }

    /// Starts to take the stream down.
    pub fn close(self) -> (turn: Turn<SingleCall>)
        ensures
            turn@ == crate::operation::unwound::<SingleCall>(Ok(()), closing_releases(self@)),
            turn@ == crate::operation::unwound::<SingleCall>(
                Ok(()),
                if self@ != sys::NULL {
                    seq![Release::Always(Call::StreamDestroy { stream: self@ })]
                } else {
                    Seq::empty()
                },
            ),
    {
        let mut releases: Vec<Release> = Vec::new();
        if self.stream != sys::NULL {
            releases.push(Release::Always(Call::StreamDestroy { stream: self.stream }));
            assert(releases@ =~= seq![Release::Always(Call::StreamDestroy { stream: self@ })]);
        }
        Turn::release((), releases)
    }
}

/// A copy is what was asked for: from where to where, with which pitches, and how much. Host memory
/// is what CUDA numbers 1, device memory what it numbers 2.
pub proof fn copies_are_what_was_asked_for(params: Memcpy2DParams)
    ensures
        ({
            let copy = driver_copy(params);
            &&& copy.src_memory_type == 1 <==> params.src_memory_type is Host
            &&& copy.src_memory_type == 2 <==> params.src_memory_type is Device
            &&& copy.src_host == params.src_host
            &&& copy.src_device == params.src_device
            &&& copy.src_pitch == params.src_pitch
            &&& copy.dst_memory_type == 1 <==> params.dst_memory_type is Host
            &&& copy.dst_memory_type == 2 <==> params.dst_memory_type is Device
            &&& copy.dst_host == params.dst_host
            &&& copy.dst_device == params.dst_device
            &&& copy.dst_pitch == params.dst_pitch
            &&& copy.width_in_bytes == params.width_in_bytes
            &&& copy.height == params.height
        }),
{
}

/// A stream that is there is destroyed when it is taken down, and a null stream is left alone.
pub proof fn a_stream_is_destroyed_once(stream: u64)
    ensures
        stream > 0 ==> closing_releases(stream) == seq![
            Release::Always(Call::StreamDestroy { stream }),
        ],
        stream == 0 ==> closing_releases(stream).len() == 0,
{
}

} // verus!
