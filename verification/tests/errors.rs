use shiguredo_nvcodec::driver::{Call, Library, Output};
use shiguredo_nvcodec::error::{Error, Text};
use shiguredo_nvcodec::sys;

#[test]
fn error_of_the_library_itself() {
    let error = Error::new_custom("encode", "invalid frame data size");
    assert_eq!(error.to_string(), "encode() failed: invalid frame data size");
    assert_eq!(error.status_code, None);
}

#[test]
fn error_of_cuda() {
    let error = Error::check_cuda(
        2,
        "cuMemAlloc_v2",
        Some("CUDA_ERROR_OUT_OF_MEMORY".to_owned()),
        Some("out of memory".to_owned()),
    )
    .unwrap_err();
    assert_eq!(
        error.to_string(),
        "cuMemAlloc_v2() failed[status=2]: out of memory (CUDA_ERROR_OUT_OF_MEMORY)"
    );
}

#[test]
fn error_of_nvenc() {
    let error = Error::check_nvenc(8, "nvEncEncodePicture").unwrap_err();
    assert_eq!(
        error.to_string(),
        "nvEncEncodePicture() failed[status=8]: One or more of the parameter passed to the API call is invalid (NV_ENC_ERR_INVALID_PARAM)"
    );
}

#[test]
fn success_is_no_error() {
    assert!(Error::check_cuda(0, "cuInit", None, None).is_ok());
    assert!(Error::check_nvenc(0, "nvEncLockBitstream").is_ok());
}

#[test]
fn unknown_status_has_no_text() {
    let error = Error::check_nvenc(4096, "nvEncLockBitstream").unwrap_err();
    assert_eq!(error.to_string(), "nvEncLockBitstream() failed[status=4096]");
    let error = Error::check_cuda(999, "cuInit", None, None).unwrap_err();
    assert_eq!(error.to_string(), "cuInit() failed[status=999]");
}

#[test]
fn numbers_are_written_in_decimal() {
    let error = Error {
        function: "f",
        status_code: Some(u32::MAX),
        status_name: None,
        status_message: Some(Text::SurfaceLimit { min: 9, max: 10 }),
    };
    assert_eq!(
        error.to_string(),
        "f() failed[status=4294967295]: min_num_decode_surfaces (9) exceeds max_num_decode_surfaces (10)"
    );
    let error = Error { function: "f", status_code: Some(0), status_name: None, status_message: None };
    assert_eq!(error.to_string(), "f() failed[status=0]");
}

#[test]
fn a_cloned_error_reads_the_same() {
    let error = Error::check_cuda(
        700,
        "cuCtxSynchronize",
        Some("CUDA_ERROR_ILLEGAL_ADDRESS".to_owned()),
        Some("an illegal memory access was encountered".to_owned()),
    )
    .unwrap_err();
    let copy = error.clone();
    assert_eq!(copy.to_string(), error.to_string());
}

#[test]
fn every_nvenc_status_has_a_name() {
    for status in 1..=26 {
        let line = Error::check_nvenc(status, "f").unwrap_err().to_string();
        assert!(line.contains("(NV_ENC_ERR_"), "{line}");
    }
    assert!(Error::check_nvenc(27, "f").unwrap_err().status_name.is_none());
}

#[test]
fn calls_know_their_function_and_library() {
    let call = Call::CtxPopCurrent;
    assert_eq!(call.function(), "cuCtxPopCurrent_v2");
    assert_eq!(call.library(), Library::Cuda);
    assert_eq!(call.symbol().unwrap().name, "cuCtxPopCurrent_v2");

    let call = Call::DestroyDecoder { decoder: 3 };
    assert_eq!(call.library(), Library::Nvcuvid);
    assert_eq!(call.symbol().unwrap().name, "cuvidDestroyDecoder");

    let call = Call::CreateApiInstance;
    assert_eq!(call.library(), Library::Nvenc);
    assert_eq!(call.symbol().unwrap().name, "NvEncodeAPICreateInstance");

    // The functions of a session come from a table, not from the library.
    let call = Call::CreateBitstreamBuffer { session: 3 };
    assert_eq!(call.library(), Library::Nvenc);
    assert!(call.symbol().is_none());
    assert!(Call::LoadLibraries.symbol().is_none());
}

#[test]
fn a_status_becomes_a_reply() {
    let reply = Call::MemAlloc { size: 4 }.conclude(0, None, None, Output::Handle(17));
    assert_eq!(reply.unwrap().handle(), 17);

    let reply = Call::MemAlloc { size: 4 }.conclude(
        1,
        Some("CUDA_ERROR_INVALID_VALUE".to_owned()),
        Some("invalid argument".to_owned()),
        Output::Handle(17),
    );
    assert_eq!(
        reply.unwrap_err().to_string(),
        "cuMemAlloc_v2() failed[status=1]: invalid argument (CUDA_ERROR_INVALID_VALUE)"
    );

    // NVENC statuses are not explained by the CUDA driver.
    let reply = Call::LockBitstream { session: 1, buffer: 2 }.conclude(
        sys::NV_ENC_ERR_INVALID_PTR,
        Some("CUDA_ERROR_ECC_UNCORRECTABLE".to_owned()),
        None,
        Output::Nothing,
    );
    let line = reply.unwrap_err().to_string();
    assert!(line.starts_with("nvEncLockBitstream() failed[status=6]: "), "{line}");
    assert!(line.ends_with(" (NV_ENC_ERR_INVALID_PTR)"), "{line}");
}

#[test]
fn outputs_that_were_not_set_are_zero() {
    assert_eq!(Output::Nothing.handle(), 0);
    assert_eq!(Output::Handle(5).integer(), 0);
    assert_eq!(Output::Integer(-5).integer(), -5);
    assert_eq!(Output::Nothing.mapped(), (0, 0));
    assert_eq!(Output::Nothing.pitched(), (0, 0));
    assert_eq!(Output::Nothing.into_name(), "");
    assert!(Output::Nothing.into_plane().is_empty());
    assert!(Output::Nothing.into_bitstream().is_none());
    assert!(Output::Nothing.into_sequence_header().is_empty());
    assert_eq!(Output::Nothing.decoder_caps().max_width, 0);
    assert_eq!(Output::Nothing.preset().gop_length, 0);
    let header = Output::SequenceHeader { buffer: vec![1, 2, 3, 4], size: 3 };
    assert_eq!(header.into_sequence_header(), vec![1, 2, 3]);
    let header = Output::SequenceHeader { buffer: vec![1, 2], size: 9 };
    assert_eq!(header.into_sequence_header(), vec![1, 2]);
}
