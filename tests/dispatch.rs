use hwcodec::catalog::{Api, DataFormat, InnerDecodeContext, InnerEncodeContext};
use hwcodec::dispatch::{
    open_and_close_decoder, open_and_close_encoder, retune_and_encode, DecodeBackend,
    DecodeConfig, EncodeBackend, EncodeConfig,
};
use hwcodec::recording::{RecordingDecoder, RecordingEncoder};
use hwcodec::render::Render;

fn config() -> EncodeConfig {
    EncodeConfig {
        ctx: InnerEncodeContext { api: Api::Vulkan, format: DataFormat::H265 },
        width: 1920,
        height: 1080,
        kbitrate: 4000,
        framerate: 30,
        qp: 26,
    }
}

#[test]
fn construct_then_destroy_leaks_nothing() {
    let mut enc = RecordingEncoder::new();
    assert_eq!(open_and_close_encoder(&mut enc, &config()), Ok(()));
    assert_eq!(enc.live_sessions(), 0);

    let mut dec = RecordingDecoder::new();
    let cfg = DecodeConfig {
        ctx: InnerDecodeContext { api: Api::Dx11, data_format: DataFormat::H264 },
        device: 9,
    };
    assert_eq!(open_and_close_decoder(&mut dec, &cfg), Ok(()));
    assert_eq!(dec.live_sessions(), 0);
}

#[test]
fn sessions_are_counted_until_destroyed() {
    let mut enc = RecordingEncoder::new();
    let a = enc.new_encoder(&config()).unwrap();
    let b = enc.new_encoder(&config()).unwrap();
    assert_eq!(enc.live_sessions(), 2);
    enc.destroy(a);
    assert_eq!(enc.live_sessions(), 1);
    enc.destroy(b);
    assert_eq!(enc.live_sessions(), 0);
}

#[test]
fn bitrate_set_before_a_step_applies_to_it_and_later_steps() {
    let mut enc = RecordingEncoder::new();
    let mut s = enc.new_encoder(&config()).unwrap();
    let first = enc.encode(&mut s, &vec![1, 2, 3]).unwrap();
    assert!(first.iter().all(|p| p.kbitrate == 4000));
    let out = retune_and_encode(&mut enc, &mut s, 1500, &vec![4, 5]).unwrap();
    assert_eq!(out.len(), 1);
    assert!(out.iter().all(|p| p.kbitrate == 1500));
    let later = enc.encode(&mut s, &vec![6]).unwrap();
    assert!(later.iter().all(|p| p.kbitrate == 1500));
    assert_eq!(s.kbitrate(), 1500);
    enc.destroy(s);
    assert_eq!(enc.live_sessions(), 0);
}

#[test]
fn recording_encoder_echoes_frames_and_marks_the_first_key() {
    let mut enc = RecordingEncoder::new();
    let mut s = enc.new_encoder(&config()).unwrap();
    let a = enc.encode(&mut s, &vec![7, 8]).unwrap();
    let b = enc.encode(&mut s, &vec![9]).unwrap();
    assert_eq!(a.len(), 1);
    assert_eq!(b.len(), 1);
    assert_eq!(a[0].data, vec![7, 8]);
    assert!(a[0].key);
    assert!(!b[0].key);
    assert!(enc.set_qp(&mut s, 30).is_ok());
    assert!(enc.set_framerate(&mut s, 60).is_ok());
    assert!(enc.test(&config().ctx));
    enc.destroy(s);
}

#[test]
fn decoded_textures_render_on_the_surface_they_were_allocated_for() {
    let mut surface = Render::new(0x10, 0x20).unwrap();
    let mut dec = RecordingDecoder::new();
    let cfg = DecodeConfig {
        ctx: InnerDecodeContext { api: Api::Dx11, data_format: DataFormat::H264 },
        device: surface.device(),
    };
    let mut s = dec.new_decoder(&cfg).unwrap();
    let t0 = dec.decode(&mut s, &vec![0, 0, 1]).unwrap();
    let t1 = dec.decode(&mut s, &vec![0, 0, 1]).unwrap();
    assert_eq!(t0.len(), 1);
    assert_eq!(t0[0].handle, 0);
    assert_eq!(t1[0].handle, 1);
    assert_eq!(surface.render(&t0[0], 0), Ok(()));
    dec.destroy(s);
    assert_eq!(dec.live_sessions(), 0);
}
