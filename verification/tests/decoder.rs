use shiguredo_nvcodec::decoder::{DisplayArea, DisplayInfo, VideoFormat};
use shiguredo_nvcodec::driver::{Call, Output, RawDecoderCaps, Reply};
use shiguredo_nvcodec::geometry::{Geometry, PictureLayout};
use shiguredo_nvcodec::operation::Stage;
use shiguredo_nvcodec::sys;
use shiguredo_nvcodec::worker::{Job, Sequel, Work};
use shiguredo_nvcodec::{
    query_decoder_caps, DecodeWorker, DecodedFrame, Decoder, DecoderCodec, DecoderConfig,
    DecoderState, Error, Step, SurfaceFormat, Turn,
};

/// A driver that keeps account of what it was asked for.
struct Gpu {
    last_handle: u64,
    /// Handles that were given out and not given back.
    live: Vec<u64>,
    /// Handles that were given back without being live.
    strays: Vec<u64>,
    /// Contexts that were entered and not left.
    stack: Vec<u64>,
    log: Vec<Call>,
    /// The function that fails, and how many calls of it succeed before.
    failing: Option<(&'static str, usize)>,
}

impl Gpu {
    fn new() -> Self {
        Gpu {
            last_handle: 0,
            live: Vec::new(),
            strays: Vec::new(),
            stack: Vec::new(),
            log: Vec::new(),
            failing: None,
        }
    }

    fn failing(function: &'static str) -> Self {
        let mut gpu = Gpu::new();
        gpu.failing = Some((function, 0));
        gpu
    }

    fn open(&mut self) -> Output {
        self.last_handle += 1;
        self.live.push(self.last_handle);
        Output::Handle(self.last_handle)
    }

    fn close(&mut self, handle: u64) -> Output {
        match self.live.iter().position(|live| *live == handle) {
            Some(position) => {
                self.live.remove(position);
            }
            None => self.strays.push(handle),
        }
        Output::Nothing
    }

    fn count(&self, function: &str) -> usize {
        self.log.iter().filter(|call| call.function() == function).count()
    }

    fn functions(&self) -> Vec<&'static str> {
        self.log.iter().map(|call| call.function()).collect()
    }

    fn is_clean(&self) -> bool {
        self.live.is_empty() && self.strays.is_empty() && self.stack.is_empty()
    }

    fn reply(&mut self, call: &Call) -> Reply {
        let earlier = self.count(call.function());
        self.log.push(*call);
        if self.failing == Some((call.function(), earlier)) {
            let name = "CUDA_ERROR_INVALID_VALUE".to_owned();
            let message = "invalid argument".to_owned();
            return call.conclude(8, Some(name), Some(message), Output::Nothing);
        }
        let output = self.perform(call);
        call.conclude(0, None, None, output)
    }

    fn perform(&mut self, call: &Call) -> Output {
        match *call {
            Call::CtxCreate { .. }
            | Call::CtxLockCreate { .. }
            | Call::CreateVideoParser { .. }
            | Call::CreateDecoder { .. } => self.open(),
            Call::CtxDestroy { ctx } => self.close(ctx),
            Call::CtxLockDestroy { lock } => self.close(lock),
            Call::DestroyVideoParser { parser } => self.close(parser),
            Call::DestroyDecoder { decoder } => self.close(decoder),
            Call::CtxPushCurrent { ctx } => {
                self.stack.push(ctx);
                Output::Nothing
            }
            Call::CtxPopCurrent => {
                self.stack.pop().expect("no context to leave");
                Output::Nothing
            }
            Call::GetDecoderCaps { .. } => Output::DecoderCaps(RawDecoderCaps {
                is_supported: 1,
                max_width: 4096,
                max_height: 4096,
                max_mb_count: 65536,
                min_width: 48,
                min_height: 16,
            }),
            Call::MapVideoFrame { .. } => {
                let pitch = PITCH;
                Output::Mapped { device_ptr: self.open().handle(), pitch }
            }
            Call::UnmapVideoFrame { device_ptr, .. } => self.close(device_ptr),
            Call::CopyPlane { plane } => {
                // A black picture.
                let value = if plane.dst_offset == 0 { 16 } else { 128 };
                let mut bytes = vec![0; plane.dst_len];
                for row in 0..plane.height {
                    let start = row * plane.dst_pitch;
                    bytes[start..start + plane.width_in_bytes].fill(value);
                }
                Output::Plane(bytes)
            }
            Call::LoadLibraries
            | Call::CtxSynchronize
            | Call::DecodePicture { .. }
            | Call::ParseVideoData { .. } => Output::Nothing,
            _ => panic!("unexpected call: {call:?}"),
        }
    }
}

const PITCH: u32 = 768;

/// Makes every call that an operation asks for.
fn complete<S: Stage>(
    gpu: &mut Gpu,
    context: &mut S::Context,
    turn: Turn<S>,
) -> Result<S::Output, Error> {
    let mut turn = turn;
    loop {
        match turn.step {
            Step::Done(outcome) => return outcome,
            Step::Call(call) => {
                let reply = gpu.reply(&call);
                turn = turn.operation.resume(context, reply);
            }
        }
    }
}

/// What a parser finds in a packet.
#[derive(Clone, Copy)]
enum Unit {
    Header(VideoFormat),
    Picture,
}

/// A decoder with its worker, both in one thread.
struct Player<T> {
    gpu: Gpu,
    decoder: Decoder,
    worker: DecodeWorker<T>,
    /// How packets are read.
    read: fn(&[u8]) -> Vec<Unit>,
    announced: Option<VideoFormat>,
    started: Option<VideoFormat>,
    /// Pictures that are displayed only at the end of the stream.
    delay: bool,
    delayed: usize,
    notices: Vec<Result<DecodedFrame<T>, Error>>,
}

impl<T> Player<T> {
    fn open(config: DecoderConfig, read: fn(&[u8]) -> Vec<Unit>, gpu: Gpu) -> Result<Self, Error> {
        let mut gpu = gpu;
        let state = complete(&mut gpu, &mut (), Decoder::new(config))?;
        Ok(Player {
            gpu,
            decoder: Decoder::start(true)?,
            worker: DecodeWorker::new(state),
            read,
            announced: None,
            started: None,
            delay: false,
            delayed: 0,
            notices: Vec::new(),
        })
    }

    fn decode(&mut self, data: &[u8], user_data: T) -> Result<(), Error> {
        self.decoder.decode(true)?;
        let sequel = self.process(Some(Job::Decode { data: data.to_vec(), user_data }));
        assert_eq!(sequel, Sequel::Continue);
        Ok(())
    }

    fn flush(&mut self) -> Result<(), Error> {
        let sequel = self.process(Some(Job::Flush));
        Decoder::flush(true, sequel == Sequel::Flushed)
    }

    /// Stops the worker and takes the decoder down. Returns the driver and what the handler heard.
    fn close(self) -> (Gpu, Vec<Result<DecodedFrame<T>, Error>>) {
        let mut player = self;
        assert_eq!(player.process(Some(Job::Terminate)), Sequel::Stop);
        let turn = player.worker.into_state().close();
        let mut gpu = player.gpu;
        complete(&mut gpu, &mut (), turn).expect("taking down a decoder cannot fail");
        (gpu, player.notices)
    }

    fn process(&mut self, job: Option<Job<T>>) -> Sequel {
        let outcome = match self.worker.work(&job) {
            Work::Nothing => None,
            Work::Decode => {
                let Some(Job::Decode { data, .. }) = &job else { unreachable!() };
                let turn = self.worker.state().decode(data);
                let units = (self.read)(data);
                Some(self.feed(turn, &units))
            }
            Work::EndStream => {
                let turn = self.worker.state().send_eos();
                Some(self.feed(turn, &[]))
            }
        };
        let (notices, sequel) = self.worker.run(job, outcome);
        self.notices.extend(notices);
        self.decoder.observe(self.worker.state().stats());
        sequel
    }

    fn feed<S: Stage<Context = DecoderState, Output = ()>>(
        &mut self,
        turn: Turn<S>,
        units: &[Unit],
    ) -> Result<(), Error> {
        let mut turn = turn;
        loop {
            match turn.step {
                Step::Done(outcome) => return outcome,
                Step::Call(call) => {
                    let parsed = match call {
                        Call::ParseVideoData { packet, .. } => self.parse(packet.flags, units),
                        _ => true,
                    };
                    let reply = if parsed {
                        self.gpu.reply(&call)
                    } else {
                        call.conclude(999, Some("CUDA_ERROR_UNKNOWN".to_owned()), None, Output::Nothing)
                    };
                    turn = turn.operation.resume(self.worker.state_mut(), reply);
                }
            }
        }
    }

    fn parse(&mut self, flags: u64, units: &[Unit]) -> bool {
        for unit in units {
            match *unit {
                Unit::Header(format) => self.announced = Some(format),
                Unit::Picture => {
                    if self.announced != self.started {
                        let format = self.announced.expect("a picture without a header");
                        if !self.sequence(&format) {
                            return false;
                        }
                        self.started = Some(format);
                    }
                    if !self.picture() {
                        return false;
                    }
                    self.delayed += 1;
                    if !self.delay && !self.display() {
                        return false;
                    }
                }
            }
        }
        if flags == sys::CUVID_PKT_ENDOFSTREAM {
            while self.delayed > 0 {
                if !self.display() {
                    return false;
                }
            }
        }
        true
    }

    fn sequence(&mut self, format: &VideoFormat) -> bool {
        let state = self.worker.state_mut();
        let turn = state.handle_video_sequence(format);
        let outcome = complete(&mut self.gpu, state, turn);
        state.sequence_callback_result(outcome) != 0
    }

    fn picture(&mut self) -> bool {
        let state = self.worker.state_mut();
        let turn = state.handle_picture_decode();
        let outcome = complete(&mut self.gpu, &mut (), turn);
        state.picture_callback_result(outcome) != 0
    }

    fn display(&mut self) -> bool {
        self.delayed -= 1;
        let info = DisplayInfo {
            picture_index: 3,
            progressive_frame: 1,
            top_field_first: 0,
            repeat_first_field: 0,
        };
        let state = self.worker.state_mut();
        let turn = state.handle_picture_display(&info);
        let outcome = complete(&mut self.gpu, state, turn);
        state.picture_callback_result(outcome) != 0
    }
}

fn test_decoder_config(codec: DecoderCodec) -> DecoderConfig {
    DecoderConfig {
        codec,
        device_id: 0,
        max_num_decode_surfaces: 20,
        max_display_delay: 0,
        surface_format: SurfaceFormat::Nv12,
    }
}

fn format_of(width: u32, height: u32) -> VideoFormat {
    VideoFormat {
        codec: sys::CUDA_VIDEO_CODEC_H264,
        chroma_format: sys::CUDA_VIDEO_CHROMA_FORMAT_420,
        progressive_sequence: 1,
        bit_depth_luma_minus8: 0,
        min_num_decode_surfaces: 4,
        coded_width: width,
        coded_height: height,
        display_area: DisplayArea { left: 0, top: 0, right: width as i32, bottom: height as i32 },
    }
}

/// A packet with one picture of 640x480, whatever is in it.
fn one_vga_picture(_data: &[u8]) -> Vec<Unit> {
    vec![Unit::Header(format_of(640, 480)), Unit::Picture]
}

fn no_units(_data: &[u8]) -> Vec<Unit> {
    Vec::new()
}

fn assert_black_picture(codec: DecoderCodec, data: &[u8]) {
    let config = test_decoder_config(codec);
    let mut player =
        Player::open(config, one_vga_picture, Gpu::new()).expect("Failed to create decoder");
    player.decode(data, ()).expect("Failed to decode data");
    player.flush().expect("flush failed");
    let (gpu, notices) = player.close();
    assert_eq!(notices.len(), 1);
    let frame = notices.into_iter().next().unwrap().expect("Decoding error occurred");
    assert_black_frame(&frame, 640, 480);
    assert!(gpu.is_clean());
}

fn assert_black_frame(frame: &DecodedFrame<()>, expected_width: usize, expected_height: usize) {
    assert_eq!(frame.width(), expected_width);
    assert_eq!(frame.height(), expected_height);

    assert_eq!(frame.y_plane().len(), frame.y_stride() * frame.height());
    assert_eq!(
        frame.uv_plane().len(),
        frame.uv_stride() * frame.height().div_ceil(2)
    );

    assert!(frame.y_stride() >= frame.width());
    assert!(frame.uv_stride() >= frame.width());

    let y_data = frame.y_plane();
    let uv_data = frame.uv_plane();

    let y_avg = y_data.iter().map(|&x| x as u32).sum::<u32>() / y_data.len() as u32;
    assert!(
        (10..=30).contains(&y_avg),
        "Y average should be around 16 for black, got {}",
        y_avg
    );

    let uv_avg = uv_data.iter().map(|&x| x as u32).sum::<u32>() / uv_data.len() as u32;
    assert!(
        (70..=140).contains(&uv_avg),
        "UV average should be in reasonable range, got {}",
        uv_avg
    );
}

fn h264_black_frame_data() -> Vec<u8> {
    let sps = vec![
        103, 100, 0, 30, 172, 217, 64, 160, 61, 176, 17, 0, 0, 3, 0, 1, 0, 0, 3, 0, 50, 15, 22,
        45, 150,
    ];
    let pps = vec![104, 235, 227, 203, 34, 192];
    let frame_data = vec![
        101, 136, 132, 0, 43, 255, 254, 246, 115, 124, 10, 107, 109, 176, 149, 46, 5, 118, 247,
        102, 163, 229, 208, 146, 229, 251, 16, 96, 250, 208, 0, 0, 3, 0, 0, 3, 0, 0, 16, 15,
        210, 222, 245, 204, 98, 91, 229, 32, 0, 0, 9, 216, 2, 56, 13, 16, 118, 133, 116, 69,
        196, 32, 71, 6, 120, 150, 16, 161, 210, 50, 128, 0, 0, 3, 0, 0, 3, 0, 0, 3, 0, 0, 3, 0,
        0, 3, 0, 0, 3, 0, 0, 3, 0, 0, 3, 0, 0, 3, 0, 37, 225,
    ];

    let mut h264_data = Vec::new();
    let start_code = [0u8, 0, 0, 1];

    h264_data.extend_from_slice(&start_code);
    h264_data.extend_from_slice(&sps);
    h264_data.extend_from_slice(&start_code);
    h264_data.extend_from_slice(&pps);
    h264_data.extend_from_slice(&start_code);
    h264_data.extend_from_slice(&frame_data);

    h264_data
}

fn split_annexb_frames(data: &[u8], is_vcl: fn(u8) -> bool) -> Vec<&[u8]> {
    let mut nal_starts = Vec::new();
    let mut i = 0;
    while i + 3 < data.len() {
        if data[i] == 0 && data[i + 1] == 0 && data[i + 2] == 1 {
            if i > 0 && data[i - 1] == 0 {
                nal_starts.push(i - 1);
            } else {
                nal_starts.push(i);
            }
            i += 3;
        } else {
            i += 1;
        }
    }
    let vcl_starts: Vec<usize> = nal_starts
        .iter()
        .copied()
        .filter(|&s| {
            let header =
                if s + 4 < data.len() && data[s] == 0 && data[s + 1] == 0 && data[s + 2] == 0 {
                    data[s + 4]
                } else {
                    data[s + 3]
                };
            is_vcl(header)
        })
        .collect();
    let mut frames = Vec::new();
    for (i, &start) in vcl_starts.iter().enumerate() {
        let start = if i == 0 { 0 } else { start };
        let end = vcl_starts.get(i + 1).copied().unwrap_or(data.len());
        frames.push(&data[start..end]);
    }
    frames
}

fn split_ivf_frames(data: &[u8]) -> Vec<&[u8]> {
    let mut offset = 32;
    let mut frames = Vec::new();
    while offset + 12 <= data.len() {
        let size = u32::from_le_bytes(
            data[offset..offset + 4]
                .try_into()
                .expect("four bytes"),
        ) as usize;
        offset += 12;
        frames.push(&data[offset..offset + size]);
        offset += size;
    }
    frames
}

#[test]
fn determine_num_decode_surfaces_boundaries() {
    assert_eq!(
        DecoderState::determine_num_decode_surfaces(1, 1).expect("1 and 1 must be valid"),
        1
    );
    assert_eq!(
        DecoderState::determine_num_decode_surfaces(1, 2).expect("1 and 2 must be valid"),
        2
    );
    assert_eq!(
        DecoderState::determine_num_decode_surfaces(1, 20).expect("1 and 20 must be valid"),
        2
    );
    assert_eq!(
        DecoderState::determine_num_decode_surfaces(2, 2).expect("2 and 2 must be valid"),
        2
    );
    assert_eq!(
        DecoderState::determine_num_decode_surfaces(8, 20).expect("8 and 20 must be valid"),
        8
    );
    assert!(DecoderState::determine_num_decode_surfaces(9, 8).is_err());
    assert!(DecoderState::determine_num_decode_surfaces(1, 0).is_err());
    assert!(DecoderState::determine_num_decode_surfaces(0, 20).is_err());
    assert!(DecoderState::determine_num_decode_surfaces(0, 0).is_err());
}

#[test]
fn decoder_rejects_zero_max_num_decode_surfaces() {
    let mut config = test_decoder_config(DecoderCodec::H264);
    config.max_num_decode_surfaces = 0;
    let mut gpu = Gpu::new();
    let error = complete(&mut gpu, &mut (), Decoder::new(config))
        .expect_err("max_num_decode_surfaces == 0 must be rejected");
    assert!(error
        .to_string()
        .contains("max_num_decode_surfaces must be greater than 0"));
    // Nothing is loaded for it.
    assert!(gpu.log.is_empty());
}

fn assert_decoder_opens(codec: DecoderCodec, code: u32) {
    let player: Player<()> = Player::open(test_decoder_config(codec), no_units, Gpu::new())
        .expect("Failed to initialize decoder");
    assert!(matches!(
        player.gpu.log.last(),
        Some(Call::CreateVideoParser { codec_type, max_num_decode_surfaces: 1, max_display_delay: 0 })
            if *codec_type == code
    ));
    assert_eq!(player.gpu.live.len(), 3);
    let (gpu, notices) = player.close();
    assert!(gpu.is_clean());
    assert!(notices.is_empty());
}

#[test]
fn init_h264_decoder() {
    assert_decoder_opens(DecoderCodec::H264, sys::CUDA_VIDEO_CODEC_H264);
}

#[test]
fn init_h265_decoder() {
    assert_decoder_opens(DecoderCodec::Hevc, sys::CUDA_VIDEO_CODEC_HEVC);
}

#[test]
fn init_av1_decoder() {
    assert_decoder_opens(DecoderCodec::Av1, sys::CUDA_VIDEO_CODEC_AV1);
}

#[test]
fn init_vp8_decoder() {
    assert_decoder_opens(DecoderCodec::Vp8, sys::CUDA_VIDEO_CODEC_VP8);
}

#[test]
fn init_vp9_decoder() {
    assert_decoder_opens(DecoderCodec::Vp9, sys::CUDA_VIDEO_CODEC_VP9);
}

#[test]
fn init_jpeg_decoder() {
    assert_decoder_opens(DecoderCodec::Jpeg, sys::CUDA_VIDEO_CODEC_JPEG);
}

#[test]
fn test_multiple_decoders() {
    let config = test_decoder_config(DecoderCodec::Hevc);
    let mut gpu = Gpu::new();
    let first = complete(&mut gpu, &mut (), Decoder::new(config.clone()))
        .expect("Failed to initialize first h265 decoder");
    let second = complete(&mut gpu, &mut (), Decoder::new(config))
        .expect("Failed to initialize second h265 decoder");
    complete(&mut gpu, &mut (), first.close()).unwrap();
    assert_eq!(gpu.live.len(), 3);
    complete(&mut gpu, &mut (), second.close()).unwrap();
    assert!(gpu.is_clean());
}

#[test]
fn test_decode_after_worker_terminated() {
    let mut decoder = Decoder::start(true).unwrap();
    let result = decoder.decode(false);
    assert_eq!(
        result.unwrap_err().to_string(),
        "decode() failed: decoder worker thread has terminated"
    );
    assert_eq!(decoder.stats().total_decode_count.get(), 0);
}

#[test]
fn test_flush_after_decoder_worker_terminated() {
    let result = Decoder::flush(false, false);
    assert_eq!(
        result.unwrap_err().to_string(),
        "flush() failed: send failed"
    );
}

#[test]
fn test_query_decoder_caps_h264() {
    let mut gpu = Gpu::new();
    let caps = complete(&mut gpu, &mut (), query_decoder_caps(DecoderCodec::H264, 0))
        .expect("query_decoder_caps for H264 should succeed");
    assert!(
        caps.max_width > 0,
        "max_width should be positive: {}",
        caps.max_width
    );
    assert!(
        caps.max_height > 0,
        "max_height should be positive: {}",
        caps.max_height
    );
    assert!(caps.is_supported);
    assert_eq!((caps.max_width, caps.max_height, caps.max_mb_count), (4096, 4096, 65536));
    assert_eq!((caps.min_width, caps.min_height), (48, 16));
    assert!(gpu.is_clean());
}

#[test]
fn test_decoder_stats_counters() {
    let config = test_decoder_config(DecoderCodec::H264);
    let mut player = Player::open(config, one_vga_picture, Gpu::new()).unwrap();

    assert_eq!(player.decoder.stats().total_create_decoder_count.get(), 0);
    assert_eq!(player.decoder.stats().total_decode_count.get(), 0);
    assert_eq!(player.decoder.stats().total_sequence_callback_count.get(), 0);
    assert_eq!(player.decoder.stats().total_decode_callback_count.get(), 0);
    assert_eq!(player.decoder.stats().total_output_frame_count.get(), 0);

    player.decode(&h264_black_frame_data(), ()).unwrap();
    player.flush().unwrap();

    assert_eq!(player.decoder.stats().total_create_decoder_count.get(), 1);
    assert_eq!(player.decoder.stats().total_decode_count.get(), 1);
    assert_eq!(player.decoder.stats().total_sequence_callback_count.get(), 1);
    assert_eq!(player.decoder.stats().total_decode_callback_count.get(), 1);
    assert_eq!(player.decoder.stats().total_output_frame_count.get(), 1);
    assert_eq!(player.decoder.stats().in_flight_frames(), 0);
    assert_eq!(player.decoder.stats().total_reconfigure_decoder_count.get(), 0);
    assert_eq!(player.decoder.stats().total_reconfigure_failure_count.get(), 0);
}

#[test]
fn test_decode_h265_black_frame() {
    let vps = vec![
        64, 1, 12, 1, 255, 255, 1, 96, 0, 0, 3, 0, 144, 0, 0, 3, 0, 0, 3, 0, 90, 149, 152, 9,
    ];
    let sps = vec![
        66, 1, 1, 1, 96, 0, 0, 3, 0, 144, 0, 0, 3, 0, 0, 3, 0, 90, 160, 5, 2, 1, 225, 101, 149,
        154, 73, 50, 188, 5, 160, 32, 0, 0, 3, 0, 32, 0, 0, 3, 3, 33,
    ];
    let pps = vec![68, 1, 193, 114, 180, 98, 64];
    let frame_data = vec![
        40, 1, 175, 29, 16, 90, 181, 140, 90, 213, 247, 1, 91, 255, 242, 78, 254, 199, 0, 31,
        209, 50, 148, 21, 162, 38, 146, 0, 0, 3, 1, 203, 169, 113, 202, 5, 24, 129, 39, 128, 0,
        0, 3, 0, 7, 204, 147, 13, 148, 32, 0, 0, 3, 0, 0, 3, 0, 12, 24, 135, 0, 0, 3, 0, 0, 3,
        0, 0, 3, 0, 28, 240, 0, 0, 3, 0, 0, 3, 0, 0, 3, 0, 8, 104, 0, 0, 3, 0, 0, 3, 0, 0, 3,
        0, 104, 192, 0, 0, 3, 0, 0, 3, 0, 0, 3, 1, 223, 0, 0, 3, 0, 9, 248,
    ];

    let mut h265_data = Vec::new();
    let start_code = [0u8, 0, 0, 1];

    h265_data.extend_from_slice(&start_code);
    h265_data.extend_from_slice(&vps);

    h265_data.extend_from_slice(&start_code);
    h265_data.extend_from_slice(&sps);

    h265_data.extend_from_slice(&start_code);
    h265_data.extend_from_slice(&pps);

    h265_data.extend_from_slice(&start_code);
    h265_data.extend_from_slice(&frame_data);

    assert_black_picture(DecoderCodec::Hevc, &h265_data);
}

#[test]
fn test_decode_h264_black_frame() {
    let sps = vec![
        103, 100, 0, 30, 172, 217, 64, 160, 61, 176, 17, 0, 0, 3, 0, 1, 0, 0, 3, 0, 50, 15, 22,
        45, 150,
    ];
    let pps = vec![104, 235, 227, 203, 34, 192];
    let frame_data = vec![
        101, 136, 132, 0, 43, 255, 254, 246, 115, 124, 10, 107, 109, 176, 149, 46, 5, 118, 247,
        102, 163, 229, 208, 146, 229, 251, 16, 96, 250, 208, 0, 0, 3, 0, 0, 3, 0, 0, 16, 15,
        210, 222, 245, 204, 98, 91, 229, 32, 0, 0, 9, 216, 2, 56, 13, 16, 118, 133, 116, 69,
        196, 32, 71, 6, 120, 150, 16, 161, 210, 50, 128, 0, 0, 3, 0, 0, 3, 0, 0, 3, 0, 0, 3, 0,
        0, 3, 0, 0, 3, 0, 0, 3, 0, 0, 3, 0, 0, 3, 0, 37, 225,
    ];

    let mut h264_data = Vec::new();
    let start_code = [0u8, 0, 0, 1];

    h264_data.extend_from_slice(&start_code);
    h264_data.extend_from_slice(&sps);

    h264_data.extend_from_slice(&start_code);
    h264_data.extend_from_slice(&pps);

    h264_data.extend_from_slice(&start_code);
    h264_data.extend_from_slice(&frame_data);

    assert_black_picture(DecoderCodec::H264, &h264_data);
}

#[test]
fn test_decode_av1_black_frame() {
    let av1_data = vec![
        10, 11, 0, 0, 0, 36, 196, 255, 223, 63, 254, 96, 16, // TYPE=6 (Frame OBU)
        50, 35, 16, 0, 144, 0, 0, 0, 160, 0, 0, 128, 1, 197, 120, 80, 103, 179, 239, 241, 100,
        76, 173, 116, 93, 183, 31, 101, 221, 87, 90, 233, 219, 28, 199, 243, 128,
    ];

    assert_black_picture(DecoderCodec::Av1, &av1_data);
}

#[test]
fn test_decode_vp8_black_frame() {
    let vp8_data = vec![
        80, 66, 0, 157, 1, 42, 128, 2, 224, 1, 2, 199, 8, 133, 133, 136, 153, 132, 136, 15, 2,
        0, 6, 22, 4, 247, 6, 129, 100, 159, 107, 219, 155, 39, 56, 123, 39, 56, 123, 39, 56,
        123, 39, 56, 123, 39, 56, 123, 39, 56, 123, 39, 56, 123, 39, 56, 123, 39, 56, 123, 39,
        56, 123, 39, 56, 123, 39, 56, 123, 39, 56, 123, 39, 56, 123, 39, 56, 123, 39, 56, 123,
        39, 56, 123, 39, 56, 123, 39, 56, 123, 39, 56, 123, 39, 56, 123, 39, 56, 123, 39, 56,
        123, 39, 56, 123, 39, 56, 123, 39, 56, 123, 39, 56, 123, 39, 56, 123, 39, 56, 123, 39,
        56, 123, 39, 56, 123, 39, 56, 123, 39, 56, 123, 39, 56, 123, 39, 56, 123, 39, 56, 123,
        39, 56, 123, 39, 56, 123, 39, 56, 123, 39, 56, 123, 39, 56, 123, 39, 56, 123, 39, 56,
        123, 39, 56, 123, 39, 56, 123, 39, 56, 123, 39, 56, 123, 39, 56, 123, 39, 56, 123, 39,
        56, 123, 39, 56, 123, 39, 56, 123, 39, 56, 123, 39, 56, 123, 39, 56, 123, 39, 56, 123,
        39, 56, 123, 39, 56, 123, 39, 56, 123, 39, 56, 123, 39, 56, 123, 39, 56, 123, 39, 56,
        123, 39, 56, 123, 39, 56, 123, 39, 56, 123, 39, 56, 123, 39, 56, 123, 39, 56, 123, 39,
        56, 123, 39, 56, 123, 39, 56, 123, 39, 56, 123, 39, 56, 123, 39, 56, 123, 39, 56, 123,
        39, 56, 123, 39, 56, 123, 39, 56, 123, 39, 56, 123, 39, 56, 123, 39, 56, 123, 39, 56,
        123, 39, 56, 123, 39, 56, 123, 39, 56, 123, 39, 56, 123, 39, 56, 123, 39, 56, 123, 39,
        56, 123, 39, 56, 123, 39, 56, 123, 39, 56, 123, 39, 56, 123, 39, 56, 123, 39, 56, 123,
        39, 56, 123, 39, 56, 123, 39, 56, 123, 39, 56, 123, 39, 56, 123, 39, 56, 123, 39, 56,
        123, 39, 56, 123, 39, 56, 123, 39, 56, 123, 39, 56, 123, 39, 56, 123, 39, 56, 123, 39,
        56, 123, 39, 56, 123, 39, 56, 123, 39, 56, 123, 39, 56, 123, 39, 56, 123, 39, 56, 123,
        39, 56, 123, 39, 56, 123, 39, 56, 123, 39, 56, 123, 39, 56, 123, 39, 56, 123, 39, 56,
        123, 39, 56, 123, 39, 56, 123, 39, 56, 123, 39, 56, 123, 39, 56, 123, 39, 56, 123, 39,
        56, 123, 39, 56, 123, 39, 56, 123, 39, 56, 123, 39, 56, 123, 39, 56, 123, 39, 56, 123,
        39, 56, 123, 39, 56, 123, 39, 56, 123, 39, 56, 123, 39, 56, 123, 39, 56, 123, 39, 56,
        123, 39, 56, 123, 39, 56, 123, 39, 56, 123, 39, 56, 123, 39, 56, 123, 39, 56, 123, 39,
        56, 123, 39, 56, 123, 39, 56, 123, 39, 56, 123, 39, 56, 123, 39, 56, 123, 39, 56, 123,
        39, 56, 123, 39, 56, 123, 39, 56, 123, 39, 56, 123, 39, 56, 123, 39, 56, 123, 39, 56,
        123, 39, 56, 123, 39, 56, 123, 39, 56, 123, 39, 56, 123, 39, 56, 123, 39, 55, 128, 254,
        250, 215, 128,
    ];

    assert_black_picture(DecoderCodec::Vp8, &vp8_data);
}

#[test]
fn test_decode_vp9_black_frame() {
    let vp9_data = vec![
        130, 73, 131, 66, 0, 39, 240, 29, 246, 0, 56, 36, 28, 24, 74, 16, 0, 80, 97, 246, 58,
        246, 128, 92, 209, 238, 0, 0, 0, 0, 0, 20, 103, 26, 154, 224, 98, 35, 126, 68, 120,
        240, 227, 199, 143, 30, 28, 238, 113, 218, 24, 0, 103, 26, 154, 224, 98, 35, 126, 68,
        120, 240, 227, 199, 143, 30, 28, 238, 113, 218, 24, 0,
    ];

    assert_black_picture(DecoderCodec::Vp9, &vp9_data);
}

/// Three segments of fifteen pictures each: 320x240, 256x160, 320x240.
const SEGMENTS: [(u8, u8); 3] = [(20, 15), (16, 10), (20, 15)];

/// An H.264 stream whose sequence headers hold width and height in macroblocks.
fn h264_stream() -> Vec<u8> {
    let mut data = Vec::new();
    for (width, height) in SEGMENTS {
        data.extend_from_slice(&[0, 0, 0, 1, 0x67, width, height]);
        data.extend_from_slice(&[0, 0, 0, 1, 0x68, 0xee]);
        for i in 0..15 {
            let header = if i == 0 { 0x65 } else { 0x41 };
            data.extend_from_slice(&[0, 0, 1, header, 0x88, 0x84]);
        }
    }
    data
}

/// An H.265 stream whose sequence headers hold width and height in macroblocks.
fn h265_stream() -> Vec<u8> {
    let mut data = Vec::new();
    for (width, height) in SEGMENTS {
        data.extend_from_slice(&[0, 0, 0, 1, 0x40, 1, 0x0c]);
        data.extend_from_slice(&[0, 0, 0, 1, 0x42, width, height]);
        data.extend_from_slice(&[0, 0, 0, 1, 0x44, 1, 0xc1]);
        for i in 0..15 {
            let header = if i == 0 { 0x26 } else { 0x02 };
            data.extend_from_slice(&[0, 0, 1, header, 1, 0xaf]);
        }
    }
    data
}

/// An IVF stream whose key frames hold width and height in macroblocks.
fn ivf_stream() -> Vec<u8> {
    let mut data = vec![0; 32];
    for (width, height) in SEGMENTS {
        for i in 0..15 {
            let payload: &[u8] = if i == 0 { &[1, width, height] } else { &[0] };
            data.extend_from_slice(&(payload.len() as u32).to_le_bytes());
            data.extend_from_slice(&[0; 8]);
            data.extend_from_slice(payload);
        }
    }
    data
}

fn header_of(macroblocks: &[u8]) -> Unit {
    Unit::Header(format_of(macroblocks[0] as u32 * 16, macroblocks[1] as u32 * 16))
}

fn read_annexb(data: &[u8], sps: u8, is_vcl: fn(u8) -> bool) -> Vec<Unit> {
    let mut units = Vec::new();
    for start in 0..data.len().saturating_sub(3) {
        if data[start..start + 3] == [0, 0, 1] {
            let header = data[start + 3];
            if header == sps {
                units.push(header_of(&data[start + 4..]));
            } else if is_vcl(header) {
                units.push(Unit::Picture);
            }
        }
    }
    units
}

fn is_h264_vcl(nal: u8) -> bool {
    (nal & 0x1f) == 1 || (nal & 0x1f) == 5
}

fn is_h265_vcl(nal: u8) -> bool {
    nal >> 1 <= 31
}

fn read_h264(data: &[u8]) -> Vec<Unit> {
    read_annexb(data, 0x67, is_h264_vcl)
}

fn read_h265(data: &[u8]) -> Vec<Unit> {
    read_annexb(data, 0x42, is_h265_vcl)
}

fn read_ivf_frame(data: &[u8]) -> Vec<Unit> {
    if data[0] == 1 {
        vec![header_of(&data[1..]), Unit::Picture]
    } else {
        vec![Unit::Picture]
    }
}

fn assert_resolution_change_frames_destroy_and_recreate(
    codec: DecoderCodec,
    read: fn(&[u8]) -> Vec<Unit>,
    frames: &[&[u8]],
) {
    let mut player = Player::open(test_decoder_config(codec), read, Gpu::new()).unwrap();
    for frame in frames {
        let _ = player.decode(frame, ());
    }
    let _ = player.flush();
    let create_count = player.decoder.stats().total_create_decoder_count.get();
    assert_eq!(player.decoder.stats().in_flight_frames(), 0);

    let (gpu, notices) = player.close();
    let mut decoded_frames = Vec::new();
    let mut errors = Vec::new();
    for notice in notices {
        match notice {
            Ok(frame) => decoded_frames.push(frame),
            Err(error) => errors.push(error),
        }
    }
    assert!(errors.is_empty(), "{errors:?}");
    assert!(create_count >= 2, "codec: {codec:?}: {create_count}");
    assert_eq!(decoded_frames.len(), frames.len(), "codec: {codec:?}");

    let mut size_counts = std::collections::HashMap::new();
    for frame in &decoded_frames {
        size_counts
            .entry((frame.width(), frame.height()))
            .and_modify(|c| *c += 1)
            .or_insert(1);
    }
    assert_eq!(size_counts.get(&(320, 240)), Some(&30), "codec: {codec:?}");
    assert_eq!(size_counts.get(&(256, 160)), Some(&15), "codec: {codec:?}");
    assert_eq!(size_counts.len(), 2, "codec: {codec:?}");
    assert!(gpu.is_clean());
    // Each decoder but the last makes room for the next.
    assert_eq!(gpu.count("cuvidCreateDecoder"), gpu.count("cuvidDestroyDecoder"));
}

#[test]
fn test_split_annexb_frames_h264() {
    let data = h264_stream();
    let frames = split_annexb_frames(&data, |nal| (nal & 0x1f) == 1 || (nal & 0x1f) == 5);
    assert_eq!(frames.len(), 45);
    assert!(frames[0]
        .windows(4)
        .any(|w| w[..3] == [0, 0, 1] && (w[3] & 0x1f) == 7));
}

#[test]
fn test_split_annexb_frames_h265() {
    let data = h265_stream();
    let frames = split_annexb_frames(&data, |nal| nal >> 1 <= 31);
    assert_eq!(frames.len(), 45);
    assert!(frames[0].windows(4).any(|w| w == [0, 0, 1, 0x40]));
}

#[test]
fn test_split_ivf_frames() {
    let data = ivf_stream();
    assert_eq!(split_ivf_frames(&data).len(), 45, "vp8");
    assert_eq!(split_ivf_frames(&data).len(), 45, "vp9");
    assert_eq!(split_ivf_frames(&data).len(), 45, "av1");
}

#[test]
fn test_decode_h264_resolution_change_without_max_coded_width_height() {
    let data = h264_stream();
    let frames = split_annexb_frames(&data, |nal| (nal & 0x1f) == 1 || (nal & 0x1f) == 5);
    assert_eq!(frames.len(), 45);
    assert_resolution_change_frames_destroy_and_recreate(DecoderCodec::H264, read_h264, &frames);
}

#[test]
fn test_decode_h265_resolution_change_without_max_coded_width_height() {
    let data = h265_stream();
    let frames = split_annexb_frames(&data, |nal| nal >> 1 <= 31);
    assert_eq!(frames.len(), 45);
    assert_resolution_change_frames_destroy_and_recreate(DecoderCodec::Hevc, read_h265, &frames);
}

#[test]
fn test_decode_vp8_resolution_change_without_max_coded_width_height() {
    let data = ivf_stream();
    let frames = split_ivf_frames(&data);
    assert_eq!(frames.len(), 45);
    assert_resolution_change_frames_destroy_and_recreate(
        DecoderCodec::Vp8,
        read_ivf_frame,
        &frames,
    );
}

#[test]
fn test_decode_vp9_resolution_change_without_max_coded_width_height() {
    let data = ivf_stream();
    let frames = split_ivf_frames(&data);
    assert_eq!(frames.len(), 45);
    assert_resolution_change_frames_destroy_and_recreate(
        DecoderCodec::Vp9,
        read_ivf_frame,
        &frames,
    );
}

#[test]
fn test_decode_av1_resolution_change_without_max_coded_width_height() {
    let data = ivf_stream();
    let frames = split_ivf_frames(&data);
    assert_eq!(frames.len(), 45);
    assert_resolution_change_frames_destroy_and_recreate(
        DecoderCodec::Av1,
        read_ivf_frame,
        &frames,
    );
}

/// The error that a format leads to, after a picture of another format.
fn refusal(change: fn(&mut VideoFormat)) -> String {
    let config = test_decoder_config(DecoderCodec::Hevc);
    let mut player = Player::open(config, one_vga_picture, Gpu::new()).unwrap();
    player.decode(&[], ()).unwrap();
    let before = player.gpu.log.len();

    let mut format = format_of(640, 480);
    change(&mut format);
    let turn = player.worker.state_mut().handle_video_sequence(&format);
    let error = complete(&mut player.gpu, player.worker.state_mut(), turn).unwrap_err();
    // It is refused before anything is done.
    assert_eq!(player.gpu.log.len(), before);
    assert_eq!(player.worker.state().stats().total_sequence_callback_count.get(), 2);
    error.to_string()
}

#[test]
fn formats_that_cannot_be_decoded_are_refused() {
    let invalid = "handle_video_sequence() failed: invalid display_area in video format";
    assert_eq!(refusal(|format| format.display_area.left = -1), invalid);
    assert_eq!(refusal(|format| format.display_area.top = -1), invalid);
    assert_eq!(refusal(|format| format.display_area.right = 0), invalid);
    assert_eq!(refusal(|format| format.display_area.bottom = 0), invalid);
    assert_eq!(refusal(|format| format.display_area.right = 641), invalid);
    assert_eq!(refusal(|format| format.display_area.bottom = 481), invalid);

    let odd = "handle_video_sequence() failed: display_area must start at even coordinates";
    assert_eq!(refusal(|format| format.display_area.left = 1), odd);
    assert_eq!(refusal(|format| format.display_area.top = 3), odd);

    assert_eq!(
        refusal(|format| format.min_num_decode_surfaces = 0),
        "determine_num_decode_surfaces() failed: min_num_decode_surfaces must be greater than 0"
    );
    assert_eq!(
        refusal(|format| format.min_num_decode_surfaces = 21),
        "determine_num_decode_surfaces() failed: min_num_decode_surfaces (21) exceeds max_num_decode_surfaces (20)"
    );
    assert_eq!(
        refusal(|format| format.bit_depth_luma_minus8 = 2),
        "handle_video_sequence() failed: only 8-bit video is supported"
    );
}

fn one_10bit_picture(_data: &[u8]) -> Vec<Unit> {
    let format = VideoFormat { bit_depth_luma_minus8: 2, ..format_of(320, 240) };
    vec![Unit::Header(format), Unit::Picture]
}

#[test]
fn test_decode_h265_10bit_rejected() {
    let config = test_decoder_config(DecoderCodec::Hevc);
    let mut player = Player::open(config, one_10bit_picture, Gpu::new()).unwrap();
    player.decode(&[], ()).unwrap();
    player.decode(&[], ()).unwrap();
    player.flush().unwrap();
    assert_eq!(player.decoder.stats().total_create_decoder_count.get(), 0);
    let (gpu, notices) = player.close();
    let lines: Vec<String> =
        notices.into_iter().map(|notice| notice.unwrap_err().to_string()).collect();
    assert_eq!(
        lines,
        [
            "handle_video_sequence() failed: only 8-bit video is supported",
            "decode() failed: decoder has already failed",
        ]
    );
    assert!(gpu.is_clean());
}

fn one_odd_picture(_data: &[u8]) -> Vec<Unit> {
    let mut format = format_of(80, 80);
    format.display_area = DisplayArea { left: 0, top: 0, right: 65, bottom: 65 };
    vec![Unit::Header(format), Unit::Picture]
}

#[test]
fn test_decode_jpeg_odd_width_uv_row_bytes() {
    let config = test_decoder_config(DecoderCodec::Jpeg);
    let mut player = Player::open(config, one_odd_picture, Gpu::new()).unwrap();
    player.decode(&[], ()).unwrap();
    player.flush().unwrap();
    let (_, notices) = player.close();
    let frame = notices.into_iter().next().unwrap().unwrap();
    assert_eq!((frame.width(), frame.height()), (65, 65));
    assert_eq!(frame.y_plane().len(), frame.y_stride() * 65);
    assert_eq!(frame.uv_plane().len(), frame.uv_stride() * 33);
    for row in 0..33 {
        let row = &frame.uv_plane()[row * frame.uv_stride()..][..67];
        assert_eq!(row[..66], [128; 66]);
        assert_eq!(row[66], 0);
    }
    for row in 0..65 {
        let row = &frame.y_plane()[row * frame.y_stride()..][..66];
        assert_eq!(row[..65], [16; 65]);
        assert_eq!(row[65], 0);
    }
}

fn one_cropped_picture(_data: &[u8]) -> Vec<Unit> {
    let mut format = format_of(640, 481);
    format.display_area = DisplayArea { left: 8, top: 6, right: 108, bottom: 57 };
    vec![Unit::Header(format), Unit::Picture]
}

#[test]
fn only_the_display_area_is_copied() {
    let config = test_decoder_config(DecoderCodec::H264);
    let mut player = Player::open(config, one_cropped_picture, Gpu::new()).unwrap();
    player.decode(&[], ()).unwrap();
    let copies: Vec<_> = player
        .gpu
        .log
        .iter()
        .filter_map(|call| match *call {
            Call::CopyPlane { plane } => Some(plane),
            _ => None,
        })
        .collect();
    assert_eq!(copies.len(), 2);
    let pitch = PITCH as usize;
    let luma = copies[0];
    assert_eq!((luma.src_x_in_bytes, luma.src_y), (8, 6));
    assert_eq!((luma.width_in_bytes, luma.height), (100, 51));
    assert_eq!((luma.dst_offset, luma.dst_len), (0, 51 * pitch));
    // The chroma rows follow an even number of luma rows, and there is one to every two of them.
    let chroma = copies[1];
    assert_eq!((chroma.src_x_in_bytes, chroma.src_y), (8, 482 + 3));
    assert_eq!((chroma.width_in_bytes, chroma.height), (100, 26));
    assert_eq!((chroma.dst_offset, chroma.dst_len), (51 * pitch, 26 * pitch));
    assert_eq!((chroma.src_pitch, chroma.dst_pitch), (pitch, pitch));
    assert_eq!(chroma.src_device, luma.src_device);
}

#[test]
fn the_calls_for_a_picture() {
    let config = test_decoder_config(DecoderCodec::H264);
    let mut player = Player::open(config, one_vga_picture, Gpu::new()).unwrap();
    let opened = player.gpu.log.len();
    player.decode(&[1, 2, 3], ()).unwrap();
    assert_eq!(
        player.gpu.functions()[opened..],
        [
            "cuCtxPushCurrent_v2",
            "cuvidCreateDecoder",
            "cuCtxPopCurrent_v2",
            "cuCtxPushCurrent_v2",
            "cuvidDecodePicture",
            "cuCtxPopCurrent_v2",
            "cuCtxPushCurrent_v2",
            "cuvidMapVideoFrame64",
            "cuMemcpy2D_v2",
            "cuMemcpy2D_v2",
            "cuvidUnmapVideoFrame64",
            "cuCtxPopCurrent_v2",
            "cuvidParseVideoData",
        ]
    );
    let Some(Call::CreateDecoder { info }) = player.gpu.log.get(opened + 1) else {
        panic!("no decoder")
    };
    assert_eq!(info.num_decode_surfaces, 4);
    assert_eq!(info.num_output_surfaces, 2);
    assert_eq!(info.creation_flags, 4);
    assert_eq!((info.width, info.height), (640, 480));
    assert_eq!((info.max_width, info.target_height), (640, 480));
    assert_eq!(info.deinterlace_mode, sys::CUDA_VIDEO_DEINTERLACE_MODE_WEAVE);
    let Some(Call::MapVideoFrame { picture_index, proc_params, .. }) =
        player.gpu.log.get(opened + 7)
    else {
        panic!("no picture")
    };
    assert_eq!(*picture_index, 3);
    assert_eq!(proc_params.second_field, 1);
    let Some(Call::ParseVideoData { packet, .. }) = player.gpu.log.last() else {
        panic!("no packet")
    };
    assert_eq!((packet.flags, packet.payload_size), (sys::CUVID_PKT_ENDOFPICTURE, 3));

    let before_flush = player.gpu.log.len();
    player.flush().unwrap();
    assert_eq!(
        player.gpu.functions()[before_flush..],
        [
            "cuvidParseVideoData",
            "cuCtxPushCurrent_v2",
            "cuCtxSynchronize",
            "cuCtxPopCurrent_v2",
        ]
    );

    let before_close = player.gpu.log.len() + 4;
    let (gpu, _) = player.close();
    assert_eq!(
        gpu.functions()[before_close..],
        [
            "cuvidDestroyVideoParser",
            "cuCtxPushCurrent_v2",
            "cuvidDestroyDecoder",
            "cuCtxPopCurrent_v2",
            "cuvidCtxLockDestroy",
            "cuCtxDestroy_v2",
        ]
    );
}

#[test]
fn a_new_sequence_replaces_the_decoder() {
    let config = test_decoder_config(DecoderCodec::H264);
    let mut player: Player<()> = Player::open(config, one_vga_picture, Gpu::new()).unwrap();
    assert!(player.sequence(&format_of(640, 480)));
    let before = player.gpu.log.len();
    let mut interlaced = format_of(320, 240);
    interlaced.progressive_sequence = 0;
    let turn = player.worker.state_mut().handle_video_sequence(&interlaced);
    let surfaces = complete(&mut player.gpu, player.worker.state_mut(), turn).unwrap();
    // What the parser is told is what the decoder has.
    assert_eq!(surfaces, 4);
    assert_eq!(
        player.gpu.functions()[before..],
        [
            "cuCtxPushCurrent_v2",
            "cuvidDestroyDecoder",
            "cuCtxPopCurrent_v2",
            "cuCtxPushCurrent_v2",
            "cuvidCreateDecoder",
            "cuCtxPopCurrent_v2",
        ]
    );
    let Some(Call::CreateDecoder { info }) = player.gpu.log.get(before + 4) else {
        panic!("no decoder")
    };
    assert_eq!(info.num_decode_surfaces, 4);
    assert_eq!(info.deinterlace_mode, sys::CUDA_VIDEO_DEINTERLACE_MODE_ADAPTIVE);
    assert_eq!(player.worker.state().stats().total_create_decoder_count.get(), 2);
}

/// Decodes a picture while a function fails. Returns what the handler heard.
fn failing_picture(function: &'static str) -> Vec<String> {
    let config = test_decoder_config(DecoderCodec::H264);
    let mut player = Player::open(config, one_vga_picture, Gpu::new()).unwrap();
    player.gpu.failing = Some((function, player.gpu.count(function)));
    player.decode(&[], ()).unwrap();
    let (gpu, notices) = player.close();
    assert!(gpu.is_clean(), "{function}");
    notices.into_iter().map(|notice| notice.unwrap_err().to_string()).collect()
}

#[test]
fn the_failure_of_a_callback_is_what_the_handler_hears() {
    for function in [
        "cuvidCreateDecoder",
        "cuvidDecodePicture",
        "cuvidMapVideoFrame64",
        "cuMemcpy2D_v2",
        "cuvidParseVideoData",
        "cuCtxPushCurrent_v2",
    ] {
        assert_eq!(
            failing_picture(function),
            [format!("{function}() failed[status=8]: invalid argument (CUDA_ERROR_INVALID_VALUE)")]
        );
    }
}

#[test]
fn a_decoder_that_fails_to_open_leaves_nothing_behind() {
    for function in ["CudaLibrary::load", "cuCtxCreate_v2", "cuvidCtxLockCreate"] {
        let mut gpu = Gpu::failing(function);
        let config = test_decoder_config(DecoderCodec::H264);
        let error = complete(&mut gpu, &mut (), Decoder::new(config)).unwrap_err();
        assert_eq!(error.function, function);
        assert!(gpu.is_clean(), "{function}");
    }
}

#[test]
fn a_decoder_without_a_parser_is_taken_down_and_unwound() {
    let mut gpu = Gpu::failing("cuvidCreateVideoParser");
    let config = test_decoder_config(DecoderCodec::H264);
    let error = complete(&mut gpu, &mut (), Decoder::new(config)).unwrap_err();
    assert_eq!(error.function, "cuvidCreateVideoParser");
    assert!(gpu.live.is_empty());
    assert_eq!(
        gpu.functions()[4..],
        ["cuvidCtxLockDestroy", "cuCtxDestroy_v2", "cuvidCtxLockDestroy", "cuCtxDestroy_v2"]
    );
}

#[test]
fn capabilities_are_asked_for_in_a_context_of_their_own() {
    let mut gpu = Gpu::new();
    complete(&mut gpu, &mut (), query_decoder_caps(DecoderCodec::Av1, 2)).unwrap();
    assert_eq!(
        gpu.functions(),
        [
            "CudaLibrary::load",
            "cuCtxCreate_v2",
            "cuCtxPushCurrent_v2",
            "cuvidGetDecoderCaps",
            "cuCtxPopCurrent_v2",
            "cuCtxDestroy_v2",
        ]
    );
    assert_eq!(gpu.log[1], Call::CtxCreate { flags: 0, device: 2 });

    for function in [
        "CudaLibrary::load",
        "cuCtxCreate_v2",
        "cuCtxPushCurrent_v2",
        "cuvidGetDecoderCaps",
    ] {
        let mut gpu = Gpu::failing(function);
        let turn = query_decoder_caps(DecoderCodec::Av1, 2);
        let error = complete(&mut gpu, &mut (), turn).unwrap_err();
        assert_eq!(error.function, function);
        assert!(gpu.is_clean(), "{function}");
    }

    // A context that cannot be destroyed is an error, too.
    let mut gpu = Gpu::failing("cuCtxDestroy_v2");
    let error =
        complete(&mut gpu, &mut (), query_decoder_caps(DecoderCodec::Av1, 2)).unwrap_err();
    assert_eq!(error.function, "cuCtxDestroy_v2");
}

#[test]
fn pictures_need_a_decoder() {
    let config = test_decoder_config(DecoderCodec::H264);
    let mut player: Player<()> = Player::open(config, no_units, Gpu::new()).unwrap();
    let state = player.worker.state_mut();
    let turn = state.handle_picture_decode();
    let error = complete(&mut player.gpu, &mut (), turn).unwrap_err();
    assert_eq!(error.to_string(), "handle_picture_decode() failed: decoder not initialized");
    let info = DisplayInfo {
        picture_index: 0,
        progressive_frame: 1,
        top_field_first: 0,
        repeat_first_field: 0,
    };
    let turn = state.handle_picture_display(&info);
    let error = complete(&mut player.gpu, state, turn).unwrap_err();
    assert_eq!(error.to_string(), "handle_picture_display() failed: decoder not initialized");
}

#[test]
fn the_first_failure_of_a_callback_is_kept() {
    let mut gpu = Gpu::new();
    let config = test_decoder_config(DecoderCodec::H264);
    let mut state = complete(&mut gpu, &mut (), DecoderState::new(config)).unwrap();
    assert_eq!(state.sequence_callback_result(Ok(7)), 7);
    assert_eq!(state.picture_callback_result(Ok(())), 1);
    assert_eq!(state.sequence_callback_result(Err(Error::new_custom("first", "one"))), 0);
    assert_eq!(state.picture_callback_result(Err(Error::new_custom("second", "two"))), 0);
    let result: Result<(), Error> = state.prefer_callback_error(Ok(()));
    assert_eq!(result.unwrap_err().to_string(), "first() failed: one");
    let result: Result<u8, Error> = state.prefer_callback_error(Ok(5));
    assert_eq!(result.unwrap(), 5);
    state.store_callback_error(Error::new_custom("third", "three"));
    let result: Result<(), Error> =
        state.prefer_callback_error(Err(Error::new_custom("parse", "four")));
    assert_eq!(result.unwrap_err().to_string(), "third() failed: three");
    assert!(state.next_frame().is_none());
}

#[test]
fn user_data_comes_back_with_its_frame() {
    let config = test_decoder_config(DecoderCodec::H264);
    let mut player = Player::open(config, one_vga_picture, Gpu::new()).unwrap();
    player.delay = true;
    for i in 0..5 {
        player.decode(&[], i).unwrap();
    }
    assert!(player.notices.is_empty());
    assert_eq!(player.decoder.stats().in_flight_frames(), 5);
    player.flush().unwrap();
    assert_eq!(player.decoder.stats().in_flight_frames(), 0);
    player.decode(&[], 5).unwrap();
    let (_, notices) = player.close();
    let user_data: Vec<i32> =
        notices.into_iter().map(|notice| notice.unwrap().into_parts().1).collect();
    assert_eq!(user_data, [0, 1, 2, 3, 4, 5]);
}

fn two_pictures(_data: &[u8]) -> Vec<Unit> {
    vec![Unit::Header(format_of(640, 480)), Unit::Picture, Unit::Picture]
}

#[test]
fn a_frame_without_a_packet_ends_the_decoding() {
    let config = test_decoder_config(DecoderCodec::H264);
    let mut player = Player::open(config, two_pictures, Gpu::new()).unwrap();
    player.decode(&[], 'a').unwrap();
    player.decode(&[], 'b').unwrap();
    let (_, notices) = player.close();
    let lines: Vec<String> = notices
        .into_iter()
        .map(|notice| match notice {
            Ok(frame) => frame.user_data().to_string(),
            Err(error) => error.to_string(),
        })
        .collect();
    assert_eq!(
        lines,
        [
            "a",
            "drain_frames() failed: missing user data",
            "decode() failed: decoder has already failed",
        ]
    );
}

#[test]
fn nothing_is_decoded_after_a_failure() {
    let config = test_decoder_config(DecoderCodec::H264);
    let mut player = Player::open(config, one_vga_picture, Gpu::new()).unwrap();
    player.delay = true;
    player.decode(&[], ()).unwrap();
    player.gpu.failing = Some(("cuvidDecodePicture", 1));
    player.decode(&[], ()).unwrap();
    let calls = player.gpu.log.len();
    player.decode(&[], ()).unwrap();
    player.flush().unwrap();
    assert_eq!(player.process(Some(Job::Terminate)), Sequel::Stop);
    assert_eq!(player.process(None), Sequel::Stop);
    assert_eq!(player.gpu.log.len(), calls);
    // One packet is told of the failure, and one that it came too late.
    assert_eq!(player.notices.len(), 2);
    assert_eq!(
        player.notices[1].as_ref().unwrap_err().to_string(),
        "decode() failed: decoder has already failed"
    );
}

#[test]
fn a_flush_that_fails_is_told() {
    let config = test_decoder_config(DecoderCodec::H264);
    let mut player = Player::open(config, one_vga_picture, Gpu::new()).unwrap();
    player.delay = true;
    player.decode(&[], ()).unwrap();
    player.gpu.failing = Some(("cuCtxSynchronize", 0));
    player.flush().unwrap();
    let (gpu, notices) = player.close();
    assert_eq!(notices.len(), 1);
    assert_eq!(notices[0].as_ref().unwrap_err().function, "cuCtxSynchronize");
    assert!(gpu.is_clean());
}

#[test]
fn frames_under_way_come_out_at_the_end() {
    let config = test_decoder_config(DecoderCodec::H264);
    let mut player = Player::open(config, one_vga_picture, Gpu::new()).unwrap();
    player.delay = true;
    player.decode(&[], ()).unwrap();
    let (_, notices) = player.close();
    assert_eq!(notices.len(), 1);
    assert!(notices[0].is_ok());
}

#[test]
fn a_picture_that_cannot_be_unmapped_is_put_out_all_the_same() {
    let config = test_decoder_config(DecoderCodec::H264);
    let mut player = Player::open(config, one_vga_picture, Gpu::new()).unwrap();
    player.gpu.failing = Some(("cuvidUnmapVideoFrame64", 0));
    player.decode(&[], ()).unwrap();
    player.flush().unwrap();
    assert_eq!(player.notices.len(), 1);
    assert!(player.notices[0].is_ok());
    assert_eq!(player.decoder.stats().total_output_frame_count.get(), 1);
}

#[test]
fn a_flush_leaves_nothing_waiting() {
    let config = test_decoder_config(DecoderCodec::H264);
    let mut player = Player::open(config, one_vga_picture, Gpu::new()).unwrap();
    player.delay = true;
    for round in 0..3 {
        player.decode(&[], 2 * round).unwrap();
        player.decode(&[], 2 * round + 1).unwrap();
        assert_eq!(player.notices.len(), 2 * round);
        player.flush().unwrap();
        assert_eq!(player.notices.len(), 2 * round + 2);
    }
    for (i, notice) in player.notices.iter().enumerate() {
        assert_eq!(*notice.as_ref().unwrap().user_data(), i);
    }
}

#[test]
fn pixels_are_those_of_the_display_area() {
    let config = test_decoder_config(DecoderCodec::H264);
    let mut player = Player::open(config, one_cropped_picture, Gpu::new()).unwrap();
    player.decode(&[], ()).unwrap();
    let frame = player.notices.pop().unwrap().unwrap();
    assert!(frame.y_stride() >= frame.width());
    assert_eq!(frame.uv_stride(), frame.y_stride());
    for y in 0..frame.height() {
        for x in 0..frame.width() {
            assert_eq!(frame.y_plane()[y * frame.y_stride() + x], 16);
        }
    }
    for y in 0..frame.height().div_ceil(2) {
        for x in 0..frame.width() {
            assert_eq!(frame.uv_plane()[y * frame.uv_stride() + x], 128);
        }
    }
}

#[test]
fn the_submitter_is_told_what_went_wrong() {
    assert_eq!(
        Decoder::start(false).unwrap_err().to_string(),
        "Decoder::new() failed: failed to spawn decoder thread"
    );
    assert_eq!(
        Decoder::flush(true, false).unwrap_err().to_string(),
        "flush() failed: recv failed"
    );
    assert!(Decoder::flush(true, true).is_ok());
}

#[test]
fn frames_can_be_cloned_and_taken_apart() {
    let config = test_decoder_config(DecoderCodec::H264);
    let mut player = Player::open(config, one_odd_picture, Gpu::new()).unwrap();
    player.decode(&[], 41).unwrap();
    let frame = player.notices.pop().unwrap().unwrap();
    let copy = frame.clone();
    assert_eq!(copy.y_plane(), frame.y_plane());
    assert_eq!(copy.uv_plane(), frame.uv_plane());
    assert_eq!((copy.width(), copy.height(), *copy.user_data()), (65, 65, 41));
    let planes = [frame.y_plane(), frame.uv_plane()].concat();
    let (data, user_data) = frame.into_parts();
    assert_eq!(data, planes);
    assert_eq!(user_data, 41);
}

#[test]
fn nothing_is_put_out_beside_the_display_area() {
    let geometry =
        Geometry { width: 3, height: 3, left: 2, top: 0, surface_width: 6, surface_height: 4 };
    let layout = PictureLayout::new(geometry, 8);
    let luma = layout.luma_copy(1);
    let chroma = layout.chroma_copy(1);
    assert_eq!((luma.width_in_bytes, luma.height, luma.dst_len), (3, 3, 24));
    assert_eq!((chroma.width_in_bytes, chroma.height, chroma.dst_len), (4, 2, 16));

    // What the copies have left beside the rows of the display area does not come out.
    let frame = layout.frame(vec![7; 24], vec![9; 16]).with_user_data(());
    assert_eq!(frame.y_plane(), [7, 7, 7, 0, 0, 0, 0, 0].repeat(3));
    assert_eq!(frame.uv_plane(), [9, 9, 9, 9, 0, 0, 0, 0].repeat(2));

    // What was not copied is 0, and what is beyond the plane is dropped.
    let frame = PictureLayout::new(geometry, 8).frame(vec![7; 9], vec![9; 99]).with_user_data(());
    assert_eq!(frame.y_plane()[..16], [7, 7, 7, 0, 0, 0, 0, 0, 7, 0, 0, 0, 0, 0, 0, 0]);
    assert_eq!(frame.y_plane()[16..], [0; 8]);
    assert_eq!(frame.uv_plane(), [9, 9, 9, 9, 0, 0, 0, 0].repeat(2));
}

#[test]
fn the_parser_is_given_the_packet() {
    let config = test_decoder_config(DecoderCodec::H264);
    let player: Player<()> = Player::open(config, no_units, Gpu::new()).unwrap();
    let packet = [0, 0, 1, 0x65, 0x88];
    let turn = player.worker.state().decode(&packet);
    assert_eq!(turn.operation.payload(), Some(&packet[..]));
    let Step::Call(Call::ParseVideoData { packet: parsed, .. }) = turn.step else {
        panic!("not parsed")
    };
    assert_eq!(parsed.payload_size, 5);

    let turn = player.worker.state().decode(&[]);
    assert_eq!(turn.operation.payload(), Some(&[][..]));
}
