use rustdesk_ohos::audio::{
    check, BuildStep, AudioCall, OH_AudioData_Callback_Result, OH_AudioStream_EncodingType,
    OH_AudioStream_Result, OH_AudioStream_SampleFormat, OH_AudioStream_Type,
    OH_AudioStream_Usage, OhosAudioRenderer, ReleaseCall,
};
use rustdesk_ohos::error::OhosError;

fn renderer(sample_rate: u32, channels: u16) -> OhosAudioRenderer {
    match OhosAudioRenderer::new(sample_rate, channels) {
        Ok(r) => r,
        Err(e) => panic!("unexpected error: {}", e.message()),
    }
}

#[test]
fn new_rejects_zero_channels() {
    let r = OhosAudioRenderer::new(48000, 0);
    assert!(matches!(r, Err(OhosError::InvalidChannelCount(0))));
}

#[test]
fn new_rejects_nine_channels_with_message() {
    match OhosAudioRenderer::new(48000, 9) {
        Err(e) => {
            assert_eq!(e, OhosError::InvalidChannelCount(9));
            assert_eq!(e.message(), "invalid channel count 9");
        }
        Ok(_) => panic!("nine channels accepted"),
    }
}

#[test]
fn new_accepts_one_and_eight_channels() {
    let r = renderer(44100, 1);
    assert_eq!(r.sample_rate(), 44100);
    assert_eq!(r.channels(), 1);
    let r = renderer(48000, 8);
    assert_eq!(r.channels(), 8);
}

#[test]
fn builder_calls_in_order() {
    let r = renderer(48000, 2);
    let calls = r.builder_calls();
    assert_eq!(
        calls,
        vec![
            AudioCall::BuilderCreate(OH_AudioStream_Type::Renderer),
            AudioCall::SetSamplingRate(48000),
            AudioCall::SetChannelCount(2),
            AudioCall::SetSampleFormat(OH_AudioStream_SampleFormat::F32Le),
            AudioCall::SetEncodingType(OH_AudioStream_EncodingType::Raw),
            AudioCall::SetRendererInfo(OH_AudioStream_Usage::Music),
            AudioCall::SetRendererWriteDataCallback,
            AudioCall::GenerateRenderer,
        ]
    );
}

#[test]
fn check_success_and_failure() {
    assert_eq!(check(0, AudioCall::GenerateRenderer), Ok(()));
    let e = check(3, AudioCall::SetSamplingRate(44100)).unwrap_err();
    assert_eq!(e, OhosError::AudioCallFailed(AudioCall::SetSamplingRate(44100), 3));
    assert_eq!(e.message(), "SetSamplingRate failed: 3");
}

#[test]
fn failure_message_for_negative_and_extreme_codes() {
    let e = check(-1, AudioCall::BuilderCreate(OH_AudioStream_Type::Renderer)).unwrap_err();
    assert_eq!(e.message(), "AudioStreamBuilder_Create failed: -1");
    let e = check(i32::MIN, AudioCall::SetRendererWriteDataCallback).unwrap_err();
    assert_eq!(e.message(), "SetRendererWriteDataCallback failed: -2147483648");
    let e = check(1234567890, AudioCall::RendererStart).unwrap_err();
    assert_eq!(e.message(), "Renderer_Start failed: 1234567890");
}

#[test]
fn enum_codes_match_system_values() {
    assert_eq!(OH_AudioStream_Type::Renderer.code(), 1);
    assert_eq!(OH_AudioStream_Type::Capturer.code(), 2);
    assert_eq!(OH_AudioStream_EncodingType::Raw.code(), 0);
    assert_eq!(OH_AudioStream_EncodingType::EAc3.code(), 2);
    assert_eq!(OH_AudioStream_SampleFormat::F32Le.code(), 4);
    assert_eq!(OH_AudioStream_SampleFormat::U8.code(), 0);
    assert_eq!(OH_AudioStream_Usage::Music.code(), 1);
    assert_eq!(OH_AudioStream_Usage::Movie.code(), 10);
    assert_eq!(OH_AudioStream_Usage::VideoCommunication.code(), 17);
    assert_eq!(OH_AudioStream_Result::Success.code(), 0);
    assert_eq!(OH_AudioStream_Result::ErrorSystem.code(), 3);
    assert_eq!(OH_AudioData_Callback_Result::Invalid.code(), -1);
    assert_eq!(OH_AudioData_Callback_Result::Valid.code(), 0);
}

#[test]
fn write_buffer_takes_oldest_then_silence() {
    // 1000 Hz mono: the ring holds 1500 samples.
    let mut r = renderer(1000, 1);
    r.append_pcm(&[1, 2, 3]);
    let (first, status) = r.on_write_data(8);
    assert_eq!(first, vec![1, 2]);
    assert_eq!(status, OH_AudioData_Callback_Result::Valid);
    let (second, _) = r.on_write_data(16);
    assert_eq!(second, vec![3, 0, 0, 0]);
    let (third, _) = r.on_write_data(4);
    assert_eq!(third, vec![0]);
}

#[test]
fn write_buffer_of_partial_sample_rounds_down() {
    let mut r = renderer(1000, 1);
    r.append_pcm(&[7, 8]);
    let (out, _) = r.on_write_data(7);
    assert_eq!(out, vec![7]);
    let (out, _) = r.on_write_data(0);
    assert!(out.is_empty());
    let (out, _) = r.on_write_data(4);
    assert_eq!(out, vec![8]);
}

#[test]
fn append_overwrites_oldest_when_full() {
    // 2 Hz mono: the ring holds 3 samples.
    let mut r = renderer(2, 1);
    r.append_pcm(&[1, 2]);
    r.append_pcm(&[3, 4]);
    let (out, _) = r.on_write_data(16);
    assert_eq!(out, vec![2, 3, 4, 0]);
}

#[test]
fn append_when_exactly_full_skips_one() {
    let mut r = renderer(2, 1);
    r.append_pcm(&[1, 2, 3]);
    r.append_pcm(&[4]);
    let (out, _) = r.on_write_data(12);
    assert_eq!(out, vec![2, 3, 4]);
}

#[test]
fn append_longer_than_ring_keeps_its_tail() {
    let mut r = renderer(2, 1);
    r.append_pcm(&[1]);
    r.append_pcm(&[5, 6, 7, 8, 9]);
    let (out, _) = r.on_write_data(12);
    assert_eq!(out, vec![7, 8, 9]);
}

#[test]
fn float_samples_round_trip_through_their_bits() {
    let mut r = renderer(1000, 2);
    let samples = [0.5f32, -0.25f32, 1.0f32];
    let bits: Vec<u32> = samples.iter().map(|x| x.to_bits()).collect();
    r.append_pcm(&bits);
    let (out, _) = r.on_write_data(16);
    let back: Vec<f32> = out.iter().map(|b| f32::from_bits(*b)).collect();
    assert_eq!(back, vec![0.5f32, -0.25f32, 1.0f32, 0.0f32]);
}

#[test]
fn first_in_first_out_law_example() {
    let mut r = renderer(4, 1); // 6 samples
    r.append_pcm(&[10, 11]);
    r.append_pcm(&[12, 13, 14]);
    let (out, _) = r.on_write_data(28);
    assert_eq!(out, vec![10, 11, 12, 13, 14, 0, 0]);
    let (out, _) = r.on_write_data(8);
    assert_eq!(out, vec![0, 0]);
}

#[test]
fn start_calls_the_system_once() {
    let mut r = renderer(48000, 2);
    assert_eq!(r.start(|| 0), Ok(()));
    let again = r.start(|| -> i32 { panic!("started twice") });
    assert_eq!(again, Ok(()));
}

#[test]
fn failed_start_can_be_retried() {
    let mut r = renderer(48000, 2);
    let e = r.start(|| 2).unwrap_err();
    assert_eq!(e, OhosError::AudioCallFailed(AudioCall::RendererStart, 2));
    assert_eq!(e.message(), "Renderer_Start failed: 2");
    assert_eq!(r.start(|| 0), Ok(()));
    assert_eq!(r.release_calls(true, true, true)[0], ReleaseCall::RendererStop);
}

#[test]
fn release_calls_follow_what_exists() {
    let mut r = renderer(48000, 2);
    assert_eq!(
        r.release_calls(true, true, true),
        vec![
            ReleaseCall::RendererRelease,
            ReleaseCall::BuilderDestroy,
            ReleaseCall::FreeCallbackContext
        ]
    );
    assert_eq!(r.release_calls(false, true, false), vec![ReleaseCall::BuilderDestroy]);
    r.start(|| 0).unwrap();
    assert_eq!(
        r.release_calls(true, false, true),
        vec![
            ReleaseCall::RendererStop,
            ReleaseCall::RendererRelease,
            ReleaseCall::FreeCallbackContext
        ]
    );
    assert!(r.release_calls(false, false, false) == vec![ReleaseCall::RendererStop]);
}

#[test]
fn call_names() {
    assert_eq!(AudioCall::SetChannelCount(2).name(), "SetChannelCount");
    assert_eq!(AudioCall::SetSampleFormat(OH_AudioStream_SampleFormat::F32Le).name(), "SetSampleFormat");
    assert_eq!(AudioCall::SetEncodingType(OH_AudioStream_EncodingType::Raw).name(), "SetEncodingType");
    assert_eq!(AudioCall::SetRendererInfo(OH_AudioStream_Usage::Music).name(), "SetRendererInfo");
    assert_eq!(AudioCall::GenerateRenderer.name(), "GenerateRenderer");
}

#[test]
fn appending_twice_equals_appending_once() {
    let mut twice = renderer(2, 1); // 3 samples
    twice.append_pcm(&[1, 2]);
    twice.append_pcm(&[3, 4]);
    let mut once = renderer(2, 1);
    once.append_pcm(&[1, 2, 3, 4]);
    assert_eq!(twice.on_write_data(12).0, once.on_write_data(12).0);
}

#[test]
fn start_on_started_renderer_makes_no_call() {
    let mut r = renderer(48000, 1);
    let calls = std::cell::Cell::new(0);
    assert_eq!(r.start(|| { calls.set(calls.get() + 1); 0 }), Ok(()));
    assert_eq!(r.start(|| { calls.set(calls.get() + 1); 0 }), Ok(()));
    assert_eq!(calls.get(), 1);
}

#[test]
fn builder_steps_walk_the_calls_then_finish() {
    let r = renderer(44100, 2);
    let calls = r.builder_calls();
    for done in 0..7 {
        match r.builder_step(done, 0) {
            BuildStep::Call(next) => assert_eq!(next, calls[done + 1]),
            _ => panic!("building stopped early at {}", done),
        }
    }
    assert!(matches!(r.builder_step(7, 0), BuildStep::Built));
}

#[test]
fn failed_builder_call_stops_with_owed_releases() {
    let r = renderer(44100, 2);
    match r.builder_step(0, 1) {
        BuildStep::Failed(e, releases) => {
            assert_eq!(e.message(), "AudioStreamBuilder_Create failed: 1");
            assert!(releases.is_empty());
        }
        _ => panic!("not stopped"),
    }
    match r.builder_step(3, 2) {
        BuildStep::Failed(e, releases) => {
            assert_eq!(e.message(), "SetSampleFormat failed: 2");
            assert_eq!(releases, vec![ReleaseCall::BuilderDestroy]);
        }
        _ => panic!("not stopped"),
    }
    for done in 6..8 {
        match r.builder_step(done, -3) {
            BuildStep::Failed(e, releases) => {
                assert_eq!(e, OhosError::AudioCallFailed(r.builder_calls()[done], -3));
                assert_eq!(
                    releases,
                    vec![ReleaseCall::BuilderDestroy, ReleaseCall::FreeCallbackContext]
                );
            }
            _ => panic!("not stopped"),
        }
    }
    match r.builder_step(7, 3) {
        BuildStep::Failed(e, _) => assert_eq!(e.message(), "GenerateRenderer failed: 3"),
        _ => panic!("not stopped"),
    }
}
