//! Loading of the driver libraries.

use vstd::prelude::*;

use crate::driver::Call;
use crate::driver::Library;
use crate::driver::Symbol;
use crate::error::Error;

verus! {

/// Something to do while the driver libraries are loaded.
#[derive(Debug, Clone, Copy, PartialEq, Eq)]
pub enum LoadCall {
    /// Open a library.
    Open { library: Library, path: &'static str },
    /// Look up a function in a library that was opened.
    Find { symbol: Symbol },
    /// Initialize the CUDA driver with `cuInit`.
    Init { flags: u32 },
}

/// An item of the loading plan.
#[derive(Debug, Clone, Copy, PartialEq, Eq)]
pub struct LoadItem {
    pub call: LoadCall,
    /// The message if a library or a function is not there.
    pub missing: &'static str,
}

pub open spec fn open_item(
    library: Library,
    path: &'static str,
    missing: &'static str,
) -> LoadItem {
    LoadItem { call: LoadCall::Open { library, path }, missing }
}

pub open spec fn find_item(
    library: Library,
    name: &'static str,
    missing: &'static str,
) -> LoadItem {
    LoadItem { call: LoadCall::Find { symbol: Symbol { library, name } }, missing }
}

pub open spec fn init_item() -> LoadItem {
    LoadItem { call: LoadCall::Init { flags: 0 }, missing: "" }
}

/// Number of items in the loading plan.
pub const PLAN_LENGTH: usize = 36;

/// All that is done to load the driver libraries, in order: open the CUDA driver and initialize
/// it, open the other libraries, and make sure that every function that is ever called is there.
pub open spec fn plan() -> Seq<LoadItem> {
    seq![
        open_item(Library::Cuda, "libcuda.so.1", "failed to load CUDA library (libcuda.so.1 not found)"),
        find_item(Library::Cuda, "cuInit", "cuInit not found"),
        init_item(),
        open_item(Library::Nvcuvid, "libnvcuvid.so.1", "failed to load NVCUVID library (libnvcuvid.so.1 not found)"),
        open_item(Library::Nvenc, "libnvidia-encode.so.1", "failed to load NVENC library (libnvidia-encode.so.1 not found)"),
        find_item(Library::Cuda, "cuGetErrorName", "cuGetErrorName not found"),
        find_item(Library::Cuda, "cuGetErrorString", "cuGetErrorString not found"),
        find_item(Library::Cuda, "cuCtxCreate_v2", "cuCtxCreate_v2 not found"),
        find_item(Library::Cuda, "cuCtxDestroy_v2", "cuCtxDestroy_v2 not found"),
        find_item(Library::Cuda, "cuCtxPushCurrent_v2", "cuCtxPushCurrent_v2 not found"),
        find_item(Library::Cuda, "cuCtxPopCurrent_v2", "cuCtxPopCurrent_v2 not found"),
        find_item(Library::Cuda, "cuCtxSynchronize", "cuCtxSynchronize not found"),
        find_item(Library::Cuda, "cuMemAlloc_v2", "cuMemAlloc_v2 not found"),
        find_item(Library::Cuda, "cuMemFree_v2", "cuMemFree_v2 not found"),
        find_item(Library::Cuda, "cuMemcpyHtoD_v2", "cuMemcpyHtoD_v2 not found"),
        find_item(Library::Cuda, "cuMemcpyDtoH_v2", "cuMemcpyDtoH_v2 not found"),
        find_item(Library::Cuda, "cuDeviceGetCount", "cuDeviceGetCount not found"),
        find_item(Library::Cuda, "cuDeviceGet", "cuDeviceGet not found"),
        find_item(Library::Cuda, "cuDeviceGetName", "cuDeviceGetName not found"),
        find_item(Library::Cuda, "cuMemAllocPitch_v2", "cuMemAllocPitch_v2 not found"),
        find_item(Library::Cuda, "cuMemcpy2D_v2", "cuMemcpy2D_v2 not found"),
        find_item(Library::Cuda, "cuStreamCreate", "cuStreamCreate not found"),
        find_item(Library::Cuda, "cuStreamSynchronize", "cuStreamSynchronize not found"),
        find_item(Library::Cuda, "cuStreamDestroy_v2", "cuStreamDestroy_v2 not found"),
        find_item(Library::Nvcuvid, "cuvidGetDecoderCaps", "cuvidGetDecoderCaps not found"),
        find_item(Library::Nvcuvid, "cuvidCtxLockCreate", "cuvidCtxLockCreate not found"),
        find_item(Library::Nvcuvid, "cuvidCtxLockDestroy", "cuvidCtxLockDestroy not found"),
        find_item(Library::Nvcuvid, "cuvidCreateVideoParser", "cuvidCreateVideoParser not found"),
        find_item(Library::Nvcuvid, "cuvidDestroyVideoParser", "cuvidDestroyVideoParser not found"),
        find_item(Library::Nvcuvid, "cuvidParseVideoData", "cuvidParseVideoData not found"),
        find_item(Library::Nvcuvid, "cuvidCreateDecoder", "cuvidCreateDecoder not found"),
        find_item(Library::Nvcuvid, "cuvidDestroyDecoder", "cuvidDestroyDecoder not found"),
        find_item(Library::Nvcuvid, "cuvidDecodePicture", "cuvidDecodePicture not found"),
        find_item(Library::Nvcuvid, "cuvidMapVideoFrame64", "cuvidMapVideoFrame64 not found"),
        find_item(Library::Nvcuvid, "cuvidUnmapVideoFrame64", "cuvidUnmapVideoFrame64 not found"),
        find_item(Library::Nvenc, "NvEncodeAPICreateInstance", "NvEncodeAPICreateInstance not found"),
    ]
}

fn plan_item(position: usize) -> (item: LoadItem)
    requires
        position < PLAN_LENGTH,
    ensures
        item == plan()[position as int],
{
    match position {
        0 => LoadItem { call: LoadCall::Open { library: Library::Cuda, path: "libcuda.so.1" }, missing: "failed to load CUDA library (libcuda.so.1 not found)" },
        1 => LoadItem { call: LoadCall::Find { symbol: Symbol { library: Library::Cuda, name: "cuInit" } }, missing: "cuInit not found" },
        2 => LoadItem { call: LoadCall::Init { flags: 0 }, missing: "" },
        3 => LoadItem { call: LoadCall::Open { library: Library::Nvcuvid, path: "libnvcuvid.so.1" }, missing: "failed to load NVCUVID library (libnvcuvid.so.1 not found)" },
        4 => LoadItem { call: LoadCall::Open { library: Library::Nvenc, path: "libnvidia-encode.so.1" }, missing: "failed to load NVENC library (libnvidia-encode.so.1 not found)" },
        5 => LoadItem { call: LoadCall::Find { symbol: Symbol { library: Library::Cuda, name: "cuGetErrorName" } }, missing: "cuGetErrorName not found" },
        6 => LoadItem { call: LoadCall::Find { symbol: Symbol { library: Library::Cuda, name: "cuGetErrorString" } }, missing: "cuGetErrorString not found" },
        7 => LoadItem { call: LoadCall::Find { symbol: Symbol { library: Library::Cuda, name: "cuCtxCreate_v2" } }, missing: "cuCtxCreate_v2 not found" },
        8 => LoadItem { call: LoadCall::Find { symbol: Symbol { library: Library::Cuda, name: "cuCtxDestroy_v2" } }, missing: "cuCtxDestroy_v2 not found" },
        9 => LoadItem { call: LoadCall::Find { symbol: Symbol { library: Library::Cuda, name: "cuCtxPushCurrent_v2" } }, missing: "cuCtxPushCurrent_v2 not found" },
        10 => LoadItem { call: LoadCall::Find { symbol: Symbol { library: Library::Cuda, name: "cuCtxPopCurrent_v2" } }, missing: "cuCtxPopCurrent_v2 not found" },
        11 => LoadItem { call: LoadCall::Find { symbol: Symbol { library: Library::Cuda, name: "cuCtxSynchronize" } }, missing: "cuCtxSynchronize not found" },
        12 => LoadItem { call: LoadCall::Find { symbol: Symbol { library: Library::Cuda, name: "cuMemAlloc_v2" } }, missing: "cuMemAlloc_v2 not found" },
        13 => LoadItem { call: LoadCall::Find { symbol: Symbol { library: Library::Cuda, name: "cuMemFree_v2" } }, missing: "cuMemFree_v2 not found" },
        14 => LoadItem { call: LoadCall::Find { symbol: Symbol { library: Library::Cuda, name: "cuMemcpyHtoD_v2" } }, missing: "cuMemcpyHtoD_v2 not found" },
        15 => LoadItem { call: LoadCall::Find { symbol: Symbol { library: Library::Cuda, name: "cuMemcpyDtoH_v2" } }, missing: "cuMemcpyDtoH_v2 not found" },
        16 => LoadItem { call: LoadCall::Find { symbol: Symbol { library: Library::Cuda, name: "cuDeviceGetCount" } }, missing: "cuDeviceGetCount not found" },
        17 => LoadItem { call: LoadCall::Find { symbol: Symbol { library: Library::Cuda, name: "cuDeviceGet" } }, missing: "cuDeviceGet not found" },
        18 => LoadItem { call: LoadCall::Find { symbol: Symbol { library: Library::Cuda, name: "cuDeviceGetName" } }, missing: "cuDeviceGetName not found" },
        19 => LoadItem { call: LoadCall::Find { symbol: Symbol { library: Library::Cuda, name: "cuMemAllocPitch_v2" } }, missing: "cuMemAllocPitch_v2 not found" },
        20 => LoadItem { call: LoadCall::Find { symbol: Symbol { library: Library::Cuda, name: "cuMemcpy2D_v2" } }, missing: "cuMemcpy2D_v2 not found" },
        21 => LoadItem { call: LoadCall::Find { symbol: Symbol { library: Library::Cuda, name: "cuStreamCreate" } }, missing: "cuStreamCreate not found" },
        22 => LoadItem { call: LoadCall::Find { symbol: Symbol { library: Library::Cuda, name: "cuStreamSynchronize" } }, missing: "cuStreamSynchronize not found" },
        23 => LoadItem { call: LoadCall::Find { symbol: Symbol { library: Library::Cuda, name: "cuStreamDestroy_v2" } }, missing: "cuStreamDestroy_v2 not found" },
        24 => LoadItem { call: LoadCall::Find { symbol: Symbol { library: Library::Nvcuvid, name: "cuvidGetDecoderCaps" } }, missing: "cuvidGetDecoderCaps not found" },
        25 => LoadItem { call: LoadCall::Find { symbol: Symbol { library: Library::Nvcuvid, name: "cuvidCtxLockCreate" } }, missing: "cuvidCtxLockCreate not found" },
        26 => LoadItem { call: LoadCall::Find { symbol: Symbol { library: Library::Nvcuvid, name: "cuvidCtxLockDestroy" } }, missing: "cuvidCtxLockDestroy not found" },
        27 => LoadItem { call: LoadCall::Find { symbol: Symbol { library: Library::Nvcuvid, name: "cuvidCreateVideoParser" } }, missing: "cuvidCreateVideoParser not found" },
        28 => LoadItem { call: LoadCall::Find { symbol: Symbol { library: Library::Nvcuvid, name: "cuvidDestroyVideoParser" } }, missing: "cuvidDestroyVideoParser not found" },
        29 => LoadItem { call: LoadCall::Find { symbol: Symbol { library: Library::Nvcuvid, name: "cuvidParseVideoData" } }, missing: "cuvidParseVideoData not found" },
        30 => LoadItem { call: LoadCall::Find { symbol: Symbol { library: Library::Nvcuvid, name: "cuvidCreateDecoder" } }, missing: "cuvidCreateDecoder not found" },
        31 => LoadItem { call: LoadCall::Find { symbol: Symbol { library: Library::Nvcuvid, name: "cuvidDestroyDecoder" } }, missing: "cuvidDestroyDecoder not found" },
        32 => LoadItem { call: LoadCall::Find { symbol: Symbol { library: Library::Nvcuvid, name: "cuvidDecodePicture" } }, missing: "cuvidDecodePicture not found" },
        33 => LoadItem { call: LoadCall::Find { symbol: Symbol { library: Library::Nvcuvid, name: "cuvidMapVideoFrame64" } }, missing: "cuvidMapVideoFrame64 not found" },
        34 => LoadItem { call: LoadCall::Find { symbol: Symbol { library: Library::Nvcuvid, name: "cuvidUnmapVideoFrame64" } }, missing: "cuvidUnmapVideoFrame64 not found" },
        _ => LoadItem { call: LoadCall::Find { symbol: Symbol { library: Library::Nvenc, name: "NvEncodeAPICreateInstance" } }, missing: "NvEncodeAPICreateInstance not found" },
    }
}

/// What is wanted next in order to load the driver libraries.
#[derive(Debug)]
pub enum LoadStep {
    /// Do this, and go on with how it went.
    Call(LoadCall),
    /// Nothing: this is how the loading has gone.
    Done(Result<(), Error>),
}

/// The error if an item of the plan fails; `error` is what the CUDA driver says of its
/// initialization.
pub open spec fn failure(item: LoadItem, error: Error) -> Error {
    if item.call is Init {
        error
    } else {
        crate::error::custom("CudaLibrary::load", item.missing)
    }
}

/// The driver libraries. They are loaded once: how that went is kept for good.
#[derive(Debug)]
pub struct CudaLibrary {
    position: usize,
    outcome: Option<Result<(), Error>>,
}

/// The state of a [`CudaLibrary`].
pub struct CudaLibraryView {
    /// How much of the plan is done.
    pub position: nat,
    /// How the loading has gone, once it is over.
    pub outcome: Option<Result<(), Error>>,
}

impl View for CudaLibrary {
    type V = CudaLibraryView;

    closed spec fn view(&self) -> CudaLibraryView {
        CudaLibraryView { position: self.position as nat, outcome: self.outcome }
    }
}

/// The state of libraries that are being loaded, after the next call of the plan.
pub open spec fn advanced(
    library: CudaLibraryView,
    result: Result<(), Error>,
) -> CudaLibraryView {
    match result {
        Ok(()) => if library.position + 1 < PLAN_LENGTH {
            CudaLibraryView { position: library.position + 1, outcome: None }
        } else {
            CudaLibraryView { position: library.position, outcome: Some(Ok(())) }
        },
        Err(error) => CudaLibraryView {
            position: library.position,
            outcome: Some(Err(failure(plan()[library.position as int], error))),
        },
    }
}

/// Whether two outcomes of loading say the same.
pub open spec fn same_outcome(a: Result<(), Error>, b: Result<(), Error>) -> bool {
    match (a, b) {
        (Ok(()), Ok(())) => true,
        (Err(a), Err(b)) => a@ == b@,
        _ => false,
    }
}

impl CudaLibrary {
    #[verifier::type_invariant]
    spec fn position_is_in_plan(self) -> bool {
        self.position < PLAN_LENGTH
    }

    /// Libraries that have not been loaded.
    pub fn new() -> (library: Self)
        ensures
            library@ == (CudaLibraryView { position: 0, outcome: None }),
    {
        CudaLibrary { position: 0, outcome: None }
    }

    /// Loads the libraries, or goes on doing so. Once that is over, says how it went.
    pub fn load(&self) -> (step: LoadStep)
        ensures
            match self@.outcome {
                None => self@.position < PLAN_LENGTH && step == LoadStep::Call(
                    plan()[self@.position as int].call,
                ),
                Some(outcome) => step matches LoadStep::Done(told) && same_outcome(told, outcome),
            },
    {
        proof {
            use_type_invariant(self);
        }
        match &self.outcome {
            None => LoadStep::Call(plan_item(self.position).call),
            Some(Ok(())) => LoadStep::Done(Ok(())),
            Some(Err(error)) => LoadStep::Done(Err(error.clone())),
        }
    }

    /// Goes on with how the latest call of the plan went.
    pub fn resume(&mut self, result: Result<(), Error>)
        requires
            old(self)@.outcome is None,
        ensures
            final(self)@ == advanced(old(self)@, result),
    {
        proof {
            use_type_invariant(&*self);
        }
        match result {
            Ok(()) => {
                if self.position + 1 < PLAN_LENGTH {
                    self.position = self.position + 1;
                } else {
                    self.outcome = Some(Ok(()));
                }
            },
            Err(error) => {
                let item = plan_item(self.position);
                let error = match item.call {
                    LoadCall::Init { .. } => error,
                    _ => Error::new_custom("CudaLibrary::load", item.missing),
                };
                self.outcome = Some(Err(error));
            },
        }
    }
}

/// Whether the CUDA driver library can be loaded, given how opening it went.
///
/// This says nothing of whether CUDA works.
pub fn is_cuda_library_available(opened: &Result<(), Error>) -> (available: bool)
    ensures
        available == (opened is Ok),
{
    opened.is_ok()
}

/// Every exported function that a call goes to is among those that loading makes sure of.
pub proof fn every_call_is_resolved_by_loading(call: Call)
    requires
        call.symbol_spec() is Some,
    ensures
        exists|i: int|
            0 <= i < plan().len() && (#[trigger] plan()[i]).call == (LoadCall::Find {
                symbol: call.symbol_spec()->0,
            }),
{
    let i: int = match call {
        Call::CtxCreate { .. } => 7,
        Call::CtxDestroy { .. } => 8,
        Call::CtxPushCurrent { .. } => 9,
        Call::CtxPopCurrent => 10,
        Call::CtxSynchronize => 11,
        Call::MemAlloc { .. } => 12,
        Call::MemFree { .. } => 13,
        Call::MemcpyHtoD { .. } => 14,
        Call::DeviceGetCount => 16,
        Call::DeviceGet { .. } => 17,
        Call::DeviceGetName { .. } => 18,
        Call::MemAllocPitch { .. } => 19,
        Call::Memcpy2D { .. } | Call::CopyPlane { .. } => 20,
        Call::StreamCreate { .. } => 21,
        Call::StreamSynchronize { .. } => 22,
        Call::StreamDestroy { .. } => 23,
        Call::GetDecoderCaps { .. } => 24,
        Call::CtxLockCreate { .. } => 25,
        Call::CtxLockDestroy { .. } => 26,
        Call::CreateVideoParser { .. } => 27,
        Call::DestroyVideoParser { .. } => 28,
        Call::ParseVideoData { .. } => 29,
        Call::CreateDecoder { .. } => 30,
        Call::DestroyDecoder { .. } => 31,
        Call::DecodePicture { .. } => 32,
        Call::MapVideoFrame { .. } => 33,
        Call::UnmapVideoFrame { .. } => 34,
        _ => 35,
    };
    assert(plan()[i].call == (LoadCall::Find { symbol: call.symbol_spec()->0 }));
}

/// The state of the libraries after the first calls of the plan, given how each went.
pub open spec fn loaded(results: Seq<Result<(), Error>>) -> CudaLibraryView
    decreases results.len(),
{
    if results.len() == 0 {
        CudaLibraryView { position: 0, outcome: None }
    } else {
        let earlier = loaded(results.drop_last());
        if earlier.outcome is Some {
            earlier
        } else {
            advanced(earlier, results.last())
        }
    }
}

/// The libraries are loaded just when every call of the plan has gone well. The first that goes
/// wrong decides what the error is, and nothing is done after it.
pub proof fn loading_follows_the_plan(results: Seq<Result<(), Error>>)
    requires
        results.len() <= PLAN_LENGTH,
    ensures
        (forall|i: int| 0 <= i < results.len() ==> (#[trigger] results[i]) is Ok) ==> {
            if results.len() < PLAN_LENGTH {
                loaded(results).outcome is None && loaded(results).position == results.len()
            } else {
                loaded(results).outcome == Some(Ok::<(), Error>(()))
            }
        },
        forall|k: int|
            0 <= k < results.len() && (forall|i: int| 0 <= i < k ==> (#[trigger] results[i]) is Ok)
                && (#[trigger] results[k]) is Err ==> loaded(results).outcome == Some(
                Err::<(), Error>(failure(plan()[k], results[k]->Err_0)),
            ),
    decreases results.len(),
{
    if results.len() > 0 {
        let earlier = results.drop_last();
        let last = results.len() - 1;
        loading_follows_the_plan(earlier);
        if forall|i: int| 0 <= i < results.len() ==> (#[trigger] results[i]) is Ok {
            assert forall|i: int| 0 <= i < earlier.len() implies (#[trigger] earlier[i]) is Ok by {
                assert(results[i] is Ok);
            }
            assert(results[last] is Ok);
        }
        assert forall|k: int|
            0 <= k < results.len() && (forall|i: int|
                0 <= i < k ==> (#[trigger] results[i]) is Ok) && (
            #[trigger] results[k]) is Err implies loaded(results).outcome == Some(
            Err::<(), Error>(failure(plan()[k], results[k]->Err_0)),
        ) by {
            assert forall|i: int| 0 <= i < k implies (#[trigger] earlier[i]) is Ok by {
                assert(results[i] is Ok);
            }
            if k < last {
                assert(earlier[k] is Err);
            }
        }
    }
}

/// A library is opened before anything is looked up in it; and the CUDA driver is initialized right
/// after its own initialization function was found, before any other library is opened.
pub proof fn libraries_are_opened_before_they_are_searched(i: int)
    requires
        0 <= i < plan().len(),
    ensures
        plan().len() == PLAN_LENGTH,
        plan()[i].call matches LoadCall::Find { symbol } ==> exists|k: int|
            0 <= k < i && (#[trigger] plan()[k]).call is Open && plan()[k].call->Open_library
                == symbol.library,
        plan()[i].call matches LoadCall::Init { flags } ==> flags == 0 && i > 0 && plan()[i
            - 1].call == (LoadCall::Find {
            symbol: Symbol { library: Library::Cuda, name: "cuInit" },
        }),
        plan()[i].call is Open && plan()[i].call->Open_library != Library::Cuda ==> exists|k: int|
            0 <= k < i && (#[trigger] plan()[k]).call is Init,
        plan()[i].call matches LoadCall::Open { library, path } ==> match library {
            Library::Cuda => path == "libcuda.so.1",
            Library::Nvcuvid => path == "libnvcuvid.so.1",
            Library::Nvenc => path == "libnvidia-encode.so.1",
        },
{
    assert(plan()[0].call is Open);
    assert(plan()[2].call is Init);
    assert(plan()[3].call is Open);
    assert(plan()[4].call is Open);
}

/// If something cannot be loaded, the error says what: a function by its name, a library by the
/// name of its file, and the initialization of the driver as the driver says.
pub proof fn loading_says_what_is_missing(i: int, error: Error)
    requires
        0 <= i < plan().len(),
    ensures
        plan()[i].call is Init ==> failure(plan()[i], error) == error,
        !(plan()[i].call is Init) ==> failure(plan()[i], error).function == "CudaLibrary::load",
        plan()[i].call matches LoadCall::Find { symbol } ==> failure(
            plan()[i],
            error,
        )@.status_message == Some(symbol.name@ + " not found"@),
        plan()[i].call matches LoadCall::Open { library, .. } ==> failure(
            plan()[i],
            error,
        )@.status_message == Some(
            match library {
                Library::Cuda => "failed to load CUDA library (libcuda.so.1 not found)"@,
                Library::Nvcuvid => "failed to load NVCUVID library (libnvcuvid.so.1 not found)"@,
                Library::Nvenc => "failed to load NVENC library (libnvidia-encode.so.1 not found)"@,
            },
        ),
{
    missing_functions_are_named();
}

proof fn missing_functions_are_named()
    ensures
        forall|i: int|
            0 <= i < plan().len() && (#[trigger] plan()[i]).call is Find ==> plan()[i].missing@
                == plan()[i].call->Find_symbol.name@ + " not found"@,
{
    reveal_strlit(" not found");
    reveal_strlit("cuInit");
    reveal_strlit("cuInit not found");
    assert("cuInit not found"@ =~= "cuInit"@ + " not found"@);
    reveal_strlit("cuGetErrorName");
    reveal_strlit("cuGetErrorName not found");
    assert("cuGetErrorName not found"@ =~= "cuGetErrorName"@ + " not found"@);
    reveal_strlit("cuGetErrorString");
    reveal_strlit("cuGetErrorString not found");
    assert("cuGetErrorString not found"@ =~= "cuGetErrorString"@ + " not found"@);
    reveal_strlit("cuCtxCreate_v2");
    reveal_strlit("cuCtxCreate_v2 not found");
    assert("cuCtxCreate_v2 not found"@ =~= "cuCtxCreate_v2"@ + " not found"@);
    reveal_strlit("cuCtxDestroy_v2");
    reveal_strlit("cuCtxDestroy_v2 not found");
    assert("cuCtxDestroy_v2 not found"@ =~= "cuCtxDestroy_v2"@ + " not found"@);
    reveal_strlit("cuCtxPushCurrent_v2");
    reveal_strlit("cuCtxPushCurrent_v2 not found");
    assert("cuCtxPushCurrent_v2 not found"@ =~= "cuCtxPushCurrent_v2"@ + " not found"@);
    reveal_strlit("cuCtxPopCurrent_v2");
    reveal_strlit("cuCtxPopCurrent_v2 not found");
    assert("cuCtxPopCurrent_v2 not found"@ =~= "cuCtxPopCurrent_v2"@ + " not found"@);
    reveal_strlit("cuCtxSynchronize");
    reveal_strlit("cuCtxSynchronize not found");
    assert("cuCtxSynchronize not found"@ =~= "cuCtxSynchronize"@ + " not found"@);
    reveal_strlit("cuMemAlloc_v2");
    reveal_strlit("cuMemAlloc_v2 not found");
    assert("cuMemAlloc_v2 not found"@ =~= "cuMemAlloc_v2"@ + " not found"@);
    reveal_strlit("cuMemFree_v2");
    reveal_strlit("cuMemFree_v2 not found");
    assert("cuMemFree_v2 not found"@ =~= "cuMemFree_v2"@ + " not found"@);
    reveal_strlit("cuMemcpyHtoD_v2");
    reveal_strlit("cuMemcpyHtoD_v2 not found");
    assert("cuMemcpyHtoD_v2 not found"@ =~= "cuMemcpyHtoD_v2"@ + " not found"@);
    reveal_strlit("cuMemcpyDtoH_v2");
    reveal_strlit("cuMemcpyDtoH_v2 not found");
    assert("cuMemcpyDtoH_v2 not found"@ =~= "cuMemcpyDtoH_v2"@ + " not found"@);
    reveal_strlit("cuDeviceGetCount");
    reveal_strlit("cuDeviceGetCount not found");
    assert("cuDeviceGetCount not found"@ =~= "cuDeviceGetCount"@ + " not found"@);
    reveal_strlit("cuDeviceGet");
    reveal_strlit("cuDeviceGet not found");
    assert("cuDeviceGet not found"@ =~= "cuDeviceGet"@ + " not found"@);
    reveal_strlit("cuDeviceGetName");
    reveal_strlit("cuDeviceGetName not found");
    assert("cuDeviceGetName not found"@ =~= "cuDeviceGetName"@ + " not found"@);
    reveal_strlit("cuMemAllocPitch_v2");
    reveal_strlit("cuMemAllocPitch_v2 not found");
    assert("cuMemAllocPitch_v2 not found"@ =~= "cuMemAllocPitch_v2"@ + " not found"@);
    reveal_strlit("cuMemcpy2D_v2");
    reveal_strlit("cuMemcpy2D_v2 not found");
    assert("cuMemcpy2D_v2 not found"@ =~= "cuMemcpy2D_v2"@ + " not found"@);
    reveal_strlit("cuStreamCreate");
    reveal_strlit("cuStreamCreate not found");
    assert("cuStreamCreate not found"@ =~= "cuStreamCreate"@ + " not found"@);
    reveal_strlit("cuStreamSynchronize");
    reveal_strlit("cuStreamSynchronize not found");
    assert("cuStreamSynchronize not found"@ =~= "cuStreamSynchronize"@ + " not found"@);
    reveal_strlit("cuStreamDestroy_v2");
    reveal_strlit("cuStreamDestroy_v2 not found");
    assert("cuStreamDestroy_v2 not found"@ =~= "cuStreamDestroy_v2"@ + " not found"@);
    reveal_strlit("cuvidGetDecoderCaps");
    reveal_strlit("cuvidGetDecoderCaps not found");
    assert("cuvidGetDecoderCaps not found"@ =~= "cuvidGetDecoderCaps"@ + " not found"@);
    reveal_strlit("cuvidCtxLockCreate");
    reveal_strlit("cuvidCtxLockCreate not found");
    assert("cuvidCtxLockCreate not found"@ =~= "cuvidCtxLockCreate"@ + " not found"@);
    reveal_strlit("cuvidCtxLockDestroy");
    reveal_strlit("cuvidCtxLockDestroy not found");
    assert("cuvidCtxLockDestroy not found"@ =~= "cuvidCtxLockDestroy"@ + " not found"@);
    reveal_strlit("cuvidCreateVideoParser");
    reveal_strlit("cuvidCreateVideoParser not found");
    assert("cuvidCreateVideoParser not found"@ =~= "cuvidCreateVideoParser"@ + " not found"@);
    reveal_strlit("cuvidDestroyVideoParser");
    reveal_strlit("cuvidDestroyVideoParser not found");
    assert("cuvidDestroyVideoParser not found"@ =~= "cuvidDestroyVideoParser"@ + " not found"@);
    reveal_strlit("cuvidParseVideoData");
    reveal_strlit("cuvidParseVideoData not found");
    assert("cuvidParseVideoData not found"@ =~= "cuvidParseVideoData"@ + " not found"@);
    reveal_strlit("cuvidCreateDecoder");
    reveal_strlit("cuvidCreateDecoder not found");
    assert("cuvidCreateDecoder not found"@ =~= "cuvidCreateDecoder"@ + " not found"@);
    reveal_strlit("cuvidDestroyDecoder");
    reveal_strlit("cuvidDestroyDecoder not found");
    assert("cuvidDestroyDecoder not found"@ =~= "cuvidDestroyDecoder"@ + " not found"@);
    reveal_strlit("cuvidDecodePicture");
    reveal_strlit("cuvidDecodePicture not found");
    assert("cuvidDecodePicture not found"@ =~= "cuvidDecodePicture"@ + " not found"@);
    reveal_strlit("cuvidMapVideoFrame64");
    reveal_strlit("cuvidMapVideoFrame64 not found");
    assert("cuvidMapVideoFrame64 not found"@ =~= "cuvidMapVideoFrame64"@ + " not found"@);
    reveal_strlit("cuvidUnmapVideoFrame64");
    reveal_strlit("cuvidUnmapVideoFrame64 not found");
    assert("cuvidUnmapVideoFrame64 not found"@ =~= "cuvidUnmapVideoFrame64"@ + " not found"@);
    reveal_strlit("NvEncodeAPICreateInstance");
    reveal_strlit("NvEncodeAPICreateInstance not found");
    assert("NvEncodeAPICreateInstance not found"@ =~= "NvEncodeAPICreateInstance"@ + " not found"@);
}

} // verus!
