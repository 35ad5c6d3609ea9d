use shiguredo_nvcodec::codec_info::{probe_decoding, probe_encoding, profiles_for_codec};
use shiguredo_nvcodec::driver::{Call, Library, Output, RawDecoderCaps, Reply};
use shiguredo_nvcodec::library::{LoadCall, LoadStep, PLAN_LENGTH};
use shiguredo_nvcodec::operation::Stage;
use shiguredo_nvcodec::{
    device_count, device_name, is_cuda_library_available, mem_alloc_pitch, memcpy_2d,
    query_decoder_caps, query_encoder_caps, supported_codecs, Av1EncodingProfile, CudaLibrary, CudaStream, DecoderCodec, EncoderCodec,
    EncodingProfiles, Error, H264EncodingProfile, HevcEncodingProfile, Memcpy2DParams, MemoryType,
    Step, Turn, VideoCodecType,
};

/// Makes every call that an operation asks for.
fn complete<S: Stage<Context = ()>>(
    answer: &mut dyn FnMut(&Call) -> Reply,
    turn: Turn<S>,
) -> Result<S::Output, Error> {
    let mut turn = turn;
    loop {
        match turn.step {
            Step::Done(outcome) => return outcome,
            Step::Call(call) => turn = turn.operation.resume(&mut (), answer(&call)),
        }
    }
}

fn failure(call: &Call) -> Reply {
    call.conclude(3, Some("CUDA_ERROR_NOT_INITIALIZED".to_owned()), None, Output::Nothing)
}

#[test]
fn devices_are_counted() {
    let mut log = Vec::new();
    let count = complete(
        &mut |call| {
            log.push(*call);
            Ok(Output::Integer(2))
        },
        device_count(),
    );
    assert_eq!(count.unwrap(), 2);
    assert_eq!(log, [Call::LoadLibraries, Call::DeviceGetCount]);

    let error = complete(
        &mut |call| match call {
            Call::DeviceGetCount => failure(call),
            _ => Ok(Output::Nothing),
        },
        device_count(),
    )
    .unwrap_err();
    assert_eq!(
        error.to_string(),
        "cuDeviceGetCount() failed[status=3] (CUDA_ERROR_NOT_INITIALIZED)"
    );
}

#[test]
fn devices_have_names() {
    let mut log = Vec::new();
    let name = complete(
        &mut |call| {
            log.push(*call);
            match call {
                Call::DeviceGet { ordinal } => Ok(Output::Integer(ordinal + 40)),
                Call::DeviceGetName { .. } => Ok(Output::Name("NVIDIA L4".to_owned())),
                _ => Ok(Output::Nothing),
            }
        },
        device_name(1),
    );
    assert_eq!(name.unwrap(), "NVIDIA L4");
    assert_eq!(
        log,
        [
            Call::LoadLibraries,
            Call::DeviceGet { ordinal: 1 },
            Call::DeviceGetName { device: 41 },
        ]
    );
    for failing in 0..3 {
        let mut calls = 0;
        let result = complete(
            &mut |call| {
                calls += 1;
                if calls > failing {
                    failure(call)
                } else {
                    Ok(Output::Integer(0))
                }
            },
            device_name(1),
        );
        assert_eq!(result.unwrap_err().function, log[failing].function());
        assert_eq!(calls, failing + 1);
    }
}

#[test]
fn memory_is_copied_between_pitches() {
    let params = Memcpy2DParams {
        src_memory_type: MemoryType::Host,
        src_host: 0x1000,
        src_device: 0,
        src_pitch: 640,
        dst_memory_type: MemoryType::Device,
        dst_host: 0,
        dst_device: 0x2000,
        dst_pitch: 768,
        width_in_bytes: 639,
        height: 480,
    };
    let mut log = Vec::new();
    let result = complete(
        &mut |call| {
            log.push(*call);
            Ok(Output::Nothing)
        },
        memcpy_2d(&params),
    );
    assert!(result.is_ok());
    let [Call::LoadLibraries, Call::Memcpy2D { copy }] = log[..] else { panic!("{log:?}") };
    assert_eq!((copy.src_memory_type, copy.dst_memory_type), (1, 2));
    assert_eq!((copy.src_host, copy.src_device, copy.src_pitch), (0x1000, 0, 640));
    assert_eq!((copy.dst_host, copy.dst_device, copy.dst_pitch), (0, 0x2000, 768));
    assert_eq!((copy.width_in_bytes, copy.height), (639, 480));
    assert_eq!(
        complete(&mut failure, memcpy_2d(&params)).unwrap_err().function,
        "CudaLibrary::load"
    );
}

#[test]
fn memory_is_allocated_with_a_pitch() {
    let mut log = Vec::new();
    let area = complete(
        &mut |call| {
            log.push(*call);
            Ok(Output::Pitched { device_ptr: 0x3000, allocated_pitch: 1024 })
        },
        mem_alloc_pitch(1000, 20, 4),
    );
    assert_eq!(area.unwrap(), (0x3000, 1024));
    assert_eq!(
        log,
        [
            Call::LoadLibraries,
            Call::MemAllocPitch { width_in_bytes: 1000, height: 20, element_size_bytes: 4 },
        ]
    );
}

#[test]
fn streams_are_created_and_destroyed() {
    let mut log = Vec::new();
    let mut answer = |call: &Call| {
        log.push(*call);
        Ok(Output::Handle(77))
    };
    let stream = complete(&mut answer, CudaStream::new()).unwrap();
    assert_eq!(stream.as_raw(), 77);
    complete(&mut answer, stream.synchronize()).unwrap();
    complete(&mut answer, stream.close()).unwrap();
    assert_eq!(
        log,
        [
            Call::LoadLibraries,
            Call::StreamCreate { flags: 0 },
            Call::StreamSynchronize { stream: 77 },
            Call::StreamDestroy { stream: 77 },
        ]
    );

    // A null stream is not destroyed. A stream that cannot be destroyed is no error.
    let null = complete(&mut |_| Ok(Output::Handle(0)), CudaStream::new()).unwrap();
    assert!(complete(&mut |_| unreachable!(), null.close()).is_ok());
    let stream = complete(&mut |_| Ok(Output::Handle(5)), CudaStream::new()).unwrap();
    assert_eq!(
        complete(&mut failure, stream.synchronize()).unwrap_err().function,
        "cuStreamSynchronize"
    );
    assert!(complete(&mut failure, stream.close()).is_ok());
}

/// Loads the libraries while the call at `failing` fails. Returns the calls and the outcome.
fn load(failing: usize) -> (Vec<LoadCall>, Result<(), Error>) {
    let mut library = CudaLibrary::new();
    let mut calls = Vec::new();
    loop {
        match library.load() {
            LoadStep::Done(outcome) => {
                // How it went is kept.
                let LoadStep::Done(again) = library.load() else { panic!("not done") };
                assert_eq!(format!("{outcome:?}"), format!("{again:?}"));
                return (calls, outcome);
            }
            LoadStep::Call(call) => {
                let result = if calls.len() == failing {
                    Err(Error::check_cuda(
                        100,
                        "cuInit",
                        Some("CUDA_ERROR_NO_DEVICE".to_owned()),
                        Some("no CUDA-capable device is detected".to_owned()),
                    )
                    .unwrap_err())
                } else {
                    Ok(())
                };
                calls.push(call);
                library.resume(result);
            }
        }
    }
}

#[test]
fn libraries_are_loaded_step_by_step() {
    let (calls, outcome) = load(PLAN_LENGTH);
    assert!(outcome.is_ok());
    assert_eq!(calls.len(), PLAN_LENGTH);
    assert_eq!(calls[0], LoadCall::Open { library: Library::Cuda, path: "libcuda.so.1" });
    assert_eq!(calls[2], LoadCall::Init { flags: 0 });
    assert_eq!(calls[3], LoadCall::Open { library: Library::Nvcuvid, path: "libnvcuvid.so.1" });
    assert_eq!(
        calls[4],
        LoadCall::Open { library: Library::Nvenc, path: "libnvidia-encode.so.1" }
    );

    let messages = [
        (0, "CudaLibrary::load() failed: failed to load CUDA library (libcuda.so.1 not found)"),
        (1, "CudaLibrary::load() failed: cuInit not found"),
        (
            2,
            "cuInit() failed[status=100]: no CUDA-capable device is detected (CUDA_ERROR_NO_DEVICE)",
        ),
        (3, "CudaLibrary::load() failed: failed to load NVCUVID library (libnvcuvid.so.1 not found)"),
        (
            4,
            "CudaLibrary::load() failed: failed to load NVENC library (libnvidia-encode.so.1 not found)",
        ),
        (20, "CudaLibrary::load() failed: cuMemcpy2D_v2 not found"),
        (35, "CudaLibrary::load() failed: NvEncodeAPICreateInstance not found"),
    ];
    for (failing, message) in messages {
        let (calls, outcome) = load(failing);
        assert_eq!(calls.len(), failing + 1);
        assert_eq!(outcome.unwrap_err().to_string(), message);
    }
}

#[test]
fn exported_functions_are_looked_up_before_they_are_called() {
    let (calls, _) = load(PLAN_LENGTH);
    for call in [
        Call::CtxSynchronize,
        Call::MemcpyHtoD { device_ptr: 0, size: 0 },
        Call::StreamDestroy { stream: 0 },
        Call::UnmapVideoFrame { decoder: 0, device_ptr: 0 },
        Call::CreateApiInstance,
    ] {
        let symbol = call.symbol().unwrap();
        assert!(calls.contains(&LoadCall::Find { symbol }), "{symbol:?}");
    }
}

#[test]
fn the_library_is_there_or_not() {
    assert!(is_cuda_library_available(&Ok(())));
    assert!(!is_cuda_library_available(&Err(Error::new_custom("dlopen", "not found"))));
}

/// A GPU that decodes H.264, HEVC and JPEG, and encodes H.264 and AV1.
fn survey_answer(call: &Call) -> Reply {
    match *call {
        Call::GetDecoderCaps { codec_type, .. } => {
            let is_supported = matches!(codec_type, 4 | 5 | 8) as u8;
            Ok(Output::DecoderCaps(RawDecoderCaps {
                is_supported,
                max_width: 8192,
                max_height: 4320,
                max_mb_count: 9,
                min_width: 48,
                min_height: 17,
            }))
        }
        Call::GetEncodeCaps { codec, .. } => {
            if codec == EncoderCodec::Hevc.to_sys() {
                call.conclude(8, None, None, Output::Nothing)
            } else {
                Ok(Output::Integer(3))
            }
        }
        _ => Ok(Output::Handle(6)),
    }
}

#[test]
fn every_codec_is_surveyed() {
    let infos = complete(&mut survey_answer, supported_codecs(0)).unwrap();
    let codecs: Vec<VideoCodecType> = infos.iter().map(|info| info.codec).collect();
    assert_eq!(codecs, VideoCodecType::all());
    let decoding: Vec<bool> = infos.iter().map(|info| info.decoding.supported).collect();
    assert_eq!(decoding, [true, true, false, false, false, true]);
    let encoding: Vec<bool> = infos.iter().map(|info| info.encoding.supported).collect();
    assert_eq!(encoding, [true, false, true, false, false, false]);
    for info in &infos {
        assert_eq!(info.decoding.hardware_accelerated, info.decoding.supported);
        assert_eq!(info.encoding.hardware_accelerated, info.encoding.supported);
    }

    let h264 = infos[0].clone();
    assert_eq!((h264.decoding.max_width, h264.decoding.max_height), (8192, 4320));
    assert_eq!((h264.decoding.min_width, h264.decoding.min_height), (48, 17));
    assert_eq!(h264.decoding.max_mb_count, 9);
    assert_eq!((h264.encoding.max_width, h264.encoding.num_max_bframes), (3, 3));
    assert!(h264.encoding.supports_10bit && h264.encoding.supports_lossless);
    assert_eq!(h264.encoding.profiles, profiles_for_codec(VideoCodecType::H264));
    assert_eq!(infos[1].encoding.profiles, EncodingProfiles::Unsupported);
    assert_eq!(infos[1].encoding.max_width, 0);
    assert_eq!(
        infos[2].encoding.profiles,
        EncodingProfiles::Av1(vec![Av1EncodingProfile::Main])
    );
}

#[test]
fn a_survey_is_made_of_the_queries_about_each_codec() {
    let mut surveyed = Vec::new();
    let infos = complete(
        &mut |call| {
            surveyed.push(*call);
            survey_answer(call)
        },
        supported_codecs(2),
    )
    .unwrap();

    let mut asked = vec![Call::LoadLibraries];
    for (codec, info) in VideoCodecType::all().into_iter().zip(infos) {
        let mut ask = |call: &Call| {
            asked.push(*call);
            survey_answer(call)
        };
        let caps = complete(&mut ask, query_decoder_caps(codec.to_decoder_codec(), 2));
        let decoding = probe_decoding(caps);
        assert_eq!(info.codec, codec);
        assert_eq!(info.decoding.supported, decoding.supported);
        assert_eq!(info.decoding.max_width, decoding.max_width);
        let caps = codec
            .to_encoder_codec()
            .map(|codec| complete(&mut ask, query_encoder_caps(codec, 2)));
        let encoding = probe_encoding(codec, caps);
        assert_eq!(info.encoding.supported, encoding.supported);
        assert_eq!(info.encoding.max_height, encoding.max_height);
        assert_eq!(info.encoding.profiles, encoding.profiles);
    }
    assert_eq!(surveyed, asked);
}

#[test]
fn a_survey_gives_everything_back() {
    // Each call fails in turn, but for those that give something back.
    for failing in 1..200 {
        let mut calls = 0;
        let mut contexts = 0;
        let mut entered = 0;
        let mut sessions = 0;
        let survey = complete(
            &mut |call| {
                calls += 1;
                let fails = calls == failing;
                match *call {
                    Call::CtxDestroy { .. } => contexts -= 1,
                    Call::CtxPopCurrent => entered -= 1,
                    Call::DestroyEncoder { .. } => sessions -= 1,
                    _ if fails => {}
                    Call::CtxCreate { .. } => contexts += 1,
                    Call::CtxPushCurrent { .. } => entered += 1,
                    Call::OpenEncodeSession { .. } => sessions += 1,
                    _ => {}
                }
                if fails {
                    failure(call)
                } else {
                    survey_answer(call)
                }
            },
            supported_codecs(0),
        );
        assert_eq!(survey.is_err(), failing == 1);
        assert_eq!((contexts, entered, sessions), (0, 0, 0), "call {failing}");
    }
}

#[test]
fn a_survey_without_libraries_is_an_error() {
    let mut calls = 0;
    let error = complete(
        &mut |call| {
            calls += 1;
            failure(call)
        },
        supported_codecs(0),
    )
    .unwrap_err();
    assert_eq!(error.function, "CudaLibrary::load");
    assert_eq!(calls, 1);

    // Later failures only count against the codec that is asked for.
    let mut calls = 0;
    let infos = complete(
        &mut |call| {
            calls += 1;
            if calls == 1 {
                Ok(Output::Nothing)
            } else {
                failure(call)
            }
        },
        supported_codecs(0),
    )
    .unwrap();
    assert_eq!(infos.len(), 6);
    assert!(infos.iter().all(|info| !info.decoding.supported && !info.encoding.supported));
}

#[test]
fn codecs_are_mapped() {
    let decoders: Vec<DecoderCodec> =
        VideoCodecType::all().into_iter().map(|codec| codec.to_decoder_codec()).collect();
    assert_eq!(
        decoders,
        [
            DecoderCodec::H264,
            DecoderCodec::Hevc,
            DecoderCodec::Av1,
            DecoderCodec::Vp8,
            DecoderCodec::Vp9,
            DecoderCodec::Jpeg,
        ]
    );
    let encoders: Vec<Option<EncoderCodec>> =
        VideoCodecType::all().into_iter().map(|codec| codec.to_encoder_codec()).collect();
    assert_eq!(
        encoders,
        [
            Some(EncoderCodec::H264),
            Some(EncoderCodec::Hevc),
            Some(EncoderCodec::Av1),
            None,
            None,
            None,
        ]
    );
}

#[test]
fn codecs_have_profiles() {
    let EncodingProfiles::H264(profiles) = profiles_for_codec(VideoCodecType::H264) else {
        panic!("not H.264")
    };
    assert_eq!(profiles.len(), 9);
    assert_eq!(profiles[0], H264EncodingProfile::Baseline);
    assert_eq!(profiles[8], H264EncodingProfile::ConstrainedHigh);
    assert_eq!(
        profiles_for_codec(VideoCodecType::Hevc).clone(),
        EncodingProfiles::Hevc(vec![
            HevcEncodingProfile::Main,
            HevcEncodingProfile::Main10,
            HevcEncodingProfile::Frext,
        ])
    );
    for codec in [VideoCodecType::Vp8, VideoCodecType::Vp9, VideoCodecType::Jpeg] {
        assert_eq!(profiles_for_codec(codec), EncodingProfiles::Unsupported);
    }
}

#[test]
fn a_codec_that_cannot_be_probed_is_not_supported() {
    let decoding = probe_decoding(Err(Error::new_custom("f", "g")));
    assert!(!decoding.supported && !decoding.hardware_accelerated);
    assert_eq!((decoding.max_width, decoding.max_mb_count), (0, 0));
    let encoding = probe_encoding(VideoCodecType::Hevc, Some(Err(Error::new_custom("f", "g"))));
    assert!(!encoding.supported);
    assert_eq!(encoding.profiles, EncodingProfiles::Unsupported);
    let encoding = probe_encoding(VideoCodecType::Vp8, None);
    assert!(!encoding.supported);
}
