//! Remote audio playback through the OpenHarmony audio renderer.
//!
//! The system library is driven from outside the library: this module decides
//! which calls are made, with which arguments and in which order, judges each
//! result, and owns the sample ring that the write-data callback drains.

use vstd::prelude::*;
use crate::error::OhosError;
use crate::ring::{
    PcmRing, newest, ring_capacity, ring_capacity_of, ring_items, ring_len, ring_new,
    ring_pop_into, ring_push_overwrite, ring_skip,
};

verus! {

/// How long a stretch of audio the ring holds, in milliseconds.
const RING_MS: usize = 1500;

/// The kind of stream a builder makes.
#[allow(non_camel_case_types)]
#[derive(Clone, Copy, PartialEq, Eq, Structural, Debug)]
pub enum OH_AudioStream_Type {
    Renderer,
    Capturer,
}

impl OH_AudioStream_Type {
    /// The value the system library knows this kind by.
    pub fn code(&self) -> (c: i32)
        ensures
            c == (match *self {
                OH_AudioStream_Type::Renderer => 1i32,
                OH_AudioStream_Type::Capturer => 2i32,
            }),
    {
        match self {
            OH_AudioStream_Type::Renderer => 1,
            OH_AudioStream_Type::Capturer => 2,
        }
    }
}

/// How the stream's samples are encoded.
#[allow(non_camel_case_types)]
#[derive(Clone, Copy, PartialEq, Eq, Structural, Debug)]
pub enum OH_AudioStream_EncodingType {
    Raw,
    AudioVivid,
    EAc3,
}

impl OH_AudioStream_EncodingType {
    /// The value the system library knows this encoding by.
    pub fn code(&self) -> (c: i32)
        ensures
            c == (match *self {
                OH_AudioStream_EncodingType::Raw => 0i32,
                OH_AudioStream_EncodingType::AudioVivid => 1i32,
                OH_AudioStream_EncodingType::EAc3 => 2i32,
            }),
    {
        match self {
            OH_AudioStream_EncodingType::Raw => 0,
            OH_AudioStream_EncodingType::AudioVivid => 1,
            OH_AudioStream_EncodingType::EAc3 => 2,
        }
    }
}

/// The format of one sample.
#[allow(non_camel_case_types)]
#[derive(Clone, Copy, PartialEq, Eq, Structural, Debug)]
pub enum OH_AudioStream_SampleFormat {
    U8,
    S16Le,
    S24Le,
    S32Le,
    F32Le,
}

impl OH_AudioStream_SampleFormat {
    /// The value the system library knows this format by.
    pub fn code(&self) -> (c: i32)
        ensures
            c == (match *self {
                OH_AudioStream_SampleFormat::U8 => 0i32,
                OH_AudioStream_SampleFormat::S16Le => 1i32,
                OH_AudioStream_SampleFormat::S24Le => 2i32,
                OH_AudioStream_SampleFormat::S32Le => 3i32,
                OH_AudioStream_SampleFormat::F32Le => 4i32,
            }),
    {
        match self {
            OH_AudioStream_SampleFormat::U8 => 0,
            OH_AudioStream_SampleFormat::S16Le => 1,
            OH_AudioStream_SampleFormat::S24Le => 2,
            OH_AudioStream_SampleFormat::S32Le => 3,
            OH_AudioStream_SampleFormat::F32Le => 4,
        }
    }
}

/// What the rendered audio is used for.
#[allow(non_camel_case_types)]
#[derive(Clone, Copy, PartialEq, Eq, Structural, Debug)]
pub enum OH_AudioStream_Usage {
    Unknown,
    Music,
    VoiceCommunication,
    Movie,
    Game,
    VideoCommunication,
}

impl OH_AudioStream_Usage {
    /// The value the system library knows this usage by.
    pub fn code(&self) -> (c: i32)
        ensures
            c == (match *self {
                OH_AudioStream_Usage::Unknown => 0i32,
                OH_AudioStream_Usage::Music => 1i32,
                OH_AudioStream_Usage::VoiceCommunication => 2i32,
                OH_AudioStream_Usage::Movie => 10i32,
                OH_AudioStream_Usage::Game => 11i32,
                OH_AudioStream_Usage::VideoCommunication => 17i32,
            }),
    {
        match self {
            OH_AudioStream_Usage::Unknown => 0,
            OH_AudioStream_Usage::Music => 1,
            OH_AudioStream_Usage::VoiceCommunication => 2,
            OH_AudioStream_Usage::Movie => 10,
            OH_AudioStream_Usage::Game => 11,
            OH_AudioStream_Usage::VideoCommunication => 17,
        }
    }
}

/// The result of a call into the system audio library.
#[allow(non_camel_case_types)]
#[derive(Clone, Copy, PartialEq, Eq, Structural, Debug)]
pub enum OH_AudioStream_Result {
    Success,
    ErrorInvalidParam,
    ErrorIllegalState,
    ErrorSystem,
}

impl OH_AudioStream_Result {
    /// The value the system library returns for this result.
    pub fn code(&self) -> (c: i32)
        ensures
            c == (match *self {
                OH_AudioStream_Result::Success => 0i32,
                OH_AudioStream_Result::ErrorInvalidParam => 1i32,
                OH_AudioStream_Result::ErrorIllegalState => 2i32,
                OH_AudioStream_Result::ErrorSystem => 3i32,
            }),
    {
        match self {
            OH_AudioStream_Result::Success => 0,
            OH_AudioStream_Result::ErrorInvalidParam => 1,
            OH_AudioStream_Result::ErrorIllegalState => 2,
            OH_AudioStream_Result::ErrorSystem => 3,
        }
    }
}

/// What the write-data callback tells the system about the buffer it filled.
#[allow(non_camel_case_types)]
#[derive(Clone, Copy, PartialEq, Eq, Structural, Debug)]
pub enum OH_AudioData_Callback_Result {
    Invalid,
    Valid,
}

impl OH_AudioData_Callback_Result {
    /// The value the system library knows this result by.
    pub fn code(&self) -> (c: i32)
        ensures
            c == (match *self {
                OH_AudioData_Callback_Result::Invalid => -1i32,
                OH_AudioData_Callback_Result::Valid => 0i32,
            }),
    {
        match self {
            OH_AudioData_Callback_Result::Invalid => -1,
            OH_AudioData_Callback_Result::Valid => 0,
        }
    }
}

/// A call into the system audio library that a renderer makes, with its arguments.
#[derive(Clone, Copy, PartialEq, Eq, Structural, Debug)]
pub enum AudioCall {
    /// `OH_AudioStreamBuilder_Create`
    BuilderCreate(OH_AudioStream_Type),
    /// `OH_AudioStreamBuilder_SetSamplingRate`
    SetSamplingRate(i32),
    /// `OH_AudioStreamBuilder_SetChannelCount`
    SetChannelCount(i32),
    /// `OH_AudioStreamBuilder_SetSampleFormat`
    SetSampleFormat(OH_AudioStream_SampleFormat),
    /// `OH_AudioStreamBuilder_SetEncodingType`
    SetEncodingType(OH_AudioStream_EncodingType),
    /// `OH_AudioStreamBuilder_SetRendererInfo`
    SetRendererInfo(OH_AudioStream_Usage),
    /// `OH_AudioStreamBuilder_SetRendererWriteDataCallback`, with the renderer's write-data callback
    SetRendererWriteDataCallback,
    /// `OH_AudioStreamBuilder_GenerateRenderer`
    GenerateRenderer,
    /// `OH_AudioRenderer_Start`
    RendererStart,
}

/// The name a failed call is reported under.
pub open spec fn call_name(call: AudioCall) -> Seq<char> {
    match call {
        AudioCall::BuilderCreate(_) => "AudioStreamBuilder_Create"@,
        AudioCall::SetSamplingRate(_) => "SetSamplingRate"@,
        AudioCall::SetChannelCount(_) => "SetChannelCount"@,
        AudioCall::SetSampleFormat(_) => "SetSampleFormat"@,
        AudioCall::SetEncodingType(_) => "SetEncodingType"@,
        AudioCall::SetRendererInfo(_) => "SetRendererInfo"@,
        AudioCall::SetRendererWriteDataCallback => "SetRendererWriteDataCallback"@,
        AudioCall::GenerateRenderer => "GenerateRenderer"@,
        AudioCall::RendererStart => "Renderer_Start"@,
    }
}

impl AudioCall {
    /// The name a failed call is reported under.
    pub fn name(&self) -> (s: &'static str)
        ensures
            s@ == call_name(*self),
    {
        match self {
            AudioCall::BuilderCreate(_) => "AudioStreamBuilder_Create",
            AudioCall::SetSamplingRate(_) => "SetSamplingRate",
            AudioCall::SetChannelCount(_) => "SetChannelCount",
            AudioCall::SetSampleFormat(_) => "SetSampleFormat",
            AudioCall::SetEncodingType(_) => "SetEncodingType",
            AudioCall::SetRendererInfo(_) => "SetRendererInfo",
            AudioCall::SetRendererWriteDataCallback => "SetRendererWriteDataCallback",
            AudioCall::GenerateRenderer => "GenerateRenderer",
            AudioCall::RendererStart => "Renderer_Start",
        }
    }
}

/// A call that releases what a renderer holds.
#[derive(Clone, Copy, PartialEq, Eq, Structural, Debug)]
pub enum ReleaseCall {
    /// `OH_AudioRenderer_Stop`
    RendererStop,
    /// `OH_AudioRenderer_Release`
    RendererRelease,
    /// `OH_AudioStreamBuilder_Destroy`
    BuilderDestroy,
    /// Freeing the context handed to the write-data callback.
    FreeCallbackContext,
}

/// Judges the result of a call: success is `Ok`, anything else names the call and the code.
pub fn check(result: i32, call: AudioCall) -> (r: Result<(), OhosError>)
    ensures
        result == 0 ==> r == Ok::<(), OhosError>(()),
        result != 0 ==> r == Err::<(), OhosError>(OhosError::AudioCallFailed(call, result)),
{
    if result == OH_AudioStream_Result::Success.code() {
        Ok(())
    } else {
        Err(OhosError::AudioCallFailed(call, result))
    }
}

/// How many samples the ring of a renderer holds: `RING_MS` milliseconds of all channels.
pub open spec fn ring_size(sample_rate: u32, channels: u16) -> nat {
    (sample_rate * channels * 1500 / 1000) as nat
}

/// `n` samples of silence.
pub open spec fn silence(n: nat) -> Seq<u32> {
    Seq::new(n, |_i: int| 0u32)
}

/// How many queued samples a write buffer of `n` samples takes from `samples`.
pub open spec fn drained_count(samples: Seq<u32>, n: nat) -> nat {
    if samples.len() < n {
        samples.len()
    } else {
        n
    }
}

/// The `n` samples a write buffer is filled with: the oldest queued ones, then silence.
pub open spec fn write_buffer(samples: Seq<u32>, n: nat) -> Seq<u32> {
    let k = drained_count(samples, n);
    samples.take(k as int) + silence((n - k) as nat)
}

/// The calls that build the system renderer of a renderer `v`, in order.
pub open spec fn builder_call_seq(v: RendererView) -> Seq<AudioCall> {
    seq![
        AudioCall::BuilderCreate(OH_AudioStream_Type::Renderer),
        AudioCall::SetSamplingRate(v.sample_rate as i32),
        AudioCall::SetChannelCount(v.channels as i32),
        AudioCall::SetSampleFormat(OH_AudioStream_SampleFormat::F32Le),
        AudioCall::SetEncodingType(OH_AudioStream_EncodingType::Raw),
        AudioCall::SetRendererInfo(OH_AudioStream_Usage::Music),
        AudioCall::SetRendererWriteDataCallback,
        AudioCall::GenerateRenderer,
    ]
}

/// The releases owed when building stops after the call at index `failed` of
/// `builder_call_seq` fails: the builder exists once its creation succeeded, and the
/// callback context once it was made for `SetRendererWriteDataCallback`.
pub open spec fn failed_build_releases(failed: nat) -> Seq<ReleaseCall> {
    (if failed >= 1 {
        seq![ReleaseCall::BuilderDestroy]
    } else {
        Seq::<ReleaseCall>::empty()
    }) + (if failed >= 6 {
        seq![ReleaseCall::FreeCallbackContext]
    } else {
        Seq::<ReleaseCall>::empty()
    })
}

/// What follows a builder call.
pub enum BuildStep {
    /// Make this call next.
    Call(AudioCall),
    /// Every call succeeded: the system renderer is built.
    Built,
    /// Building stops with this error; release these, in order, and make no other call.
    Failed(OhosError, Vec<ReleaseCall>),
}

/// What a renderer is, seen from outside.
pub struct RendererView {
    pub sample_rate: u32,
    pub channels: u16,
    pub started: bool,
    pub capacity: nat,
    /// The queued samples (their bit patterns), oldest first.
    pub samples: Seq<u32>,
}

/// A renderer for remote audio: its stream parameters, whether it has been
/// started, and the ring of samples waiting to be played.
pub struct OhosAudioRenderer {
    sample_rate: u32,
    channels: u16,
    ring: PcmRing,
    started: bool,
}

impl View for OhosAudioRenderer {
    type V = RendererView;

    closed spec fn view(&self) -> RendererView {
        RendererView {
            sample_rate: self.sample_rate,
            channels: self.channels,
            started: self.started,
            capacity: ring_capacity(self.ring),
            samples: ring_items(self.ring),
        }
    }
}

impl OhosAudioRenderer {
    /// A renderer as `new` makes it and every operation keeps it.
    pub open spec fn wf(&self) -> bool {
        &&& 1 <= self@.channels <= 8
        &&& self@.sample_rate > 0
        &&& self@.sample_rate * self@.channels * 1500 <= usize::MAX
        &&& self@.capacity == ring_size(self@.sample_rate, self@.channels)
        &&& self@.samples.len() <= self@.capacity
    }

    /// Makes a renderer for `channels` interleaved channels at `sample_rate`,
    /// with an empty ring of 1.5 s of audio. Refuses a channel count outside `1..=8`.
    pub fn new(sample_rate: u32, channels: u16) -> (r: Result<OhosAudioRenderer, OhosError>)
        requires
            1 <= channels <= 8 ==> sample_rate > 0,
            1 <= channels <= 8 ==> sample_rate * channels * 1500 <= usize::MAX,
            1 <= channels <= 8 ==> 4 * ring_size(sample_rate, channels) <= isize::MAX,
        ensures
            r is Err <==> (channels == 0 || channels > 8),
            r matches Err(e) ==> e == OhosError::InvalidChannelCount(channels),
            r matches Ok(x) ==> {
                &&& x.wf()
                &&& x@.sample_rate == sample_rate
                &&& x@.channels == channels
                &&& !x@.started
                &&& x@.samples == Seq::<u32>::empty()
            },
    {
        if channels == 0 || channels > 8 {
            return Err(OhosError::InvalidChannelCount(channels));
        }
        assert(sample_rate * channels <= sample_rate * channels * 1500) by (nonlinear_arith)
            requires
                sample_rate > 0,
                channels > 0,
        ;
        assert(sample_rate * channels * 1500 / 1000 > 0) by (nonlinear_arith)
            requires
                sample_rate > 0,
                channels > 0,
        ;
        let capacity = (sample_rate as usize) * (channels as usize) * RING_MS / 1000;
        let ring = ring_new(capacity);
        Ok(OhosAudioRenderer { sample_rate, channels, ring, started: false })
    }

    /// The calls that build the system renderer, in order, with their arguments.
    pub fn builder_calls(&self) -> (calls: Vec<AudioCall>)
        ensures
            calls@ == builder_call_seq(self@),
    {
        let mut calls: Vec<AudioCall> = Vec::new();
        calls.push(AudioCall::BuilderCreate(OH_AudioStream_Type::Renderer));
        calls.push(AudioCall::SetSamplingRate(self.sample_rate as i32));
        calls.push(AudioCall::SetChannelCount(self.channels as i32));
        calls.push(AudioCall::SetSampleFormat(OH_AudioStream_SampleFormat::F32Le));
        calls.push(AudioCall::SetEncodingType(OH_AudioStream_EncodingType::Raw));
        calls.push(AudioCall::SetRendererInfo(OH_AudioStream_Usage::Music));
        calls.push(AudioCall::SetRendererWriteDataCallback);
        calls.push(AudioCall::GenerateRenderer);
        calls
    }

    /// Decides what follows the builder call at index `done` of `builder_calls`,
    /// which returned `code`: the next call or the end of building when it
    /// succeeded; otherwise building stops at once with the failed call's error and
    /// the releases it leaves owed.
    pub fn builder_step(&self, done: usize, code: i32) -> (step: BuildStep)
        requires
            done < 8,
        ensures
            code == 0 && done + 1 < 8 ==> step == BuildStep::Call(
                builder_call_seq(self@)[done + 1],
            ),
            code == 0 && done + 1 == 8 ==> step is Built,
            code != 0 ==> (step matches BuildStep::Failed(e, releases) && e
                == OhosError::AudioCallFailed(builder_call_seq(self@)[done as int], code)
                && releases@ == failed_build_releases(done as nat)),
    {
        let calls = self.builder_calls();
        if code == 0 {
            if done + 1 < calls.len() {
                BuildStep::Call(calls[done + 1])
            } else {
                BuildStep::Built
            }
        } else {
            let mut releases: Vec<ReleaseCall> = Vec::new();
            if done >= 1 {
                releases.push(ReleaseCall::BuilderDestroy);
            }
            if done >= 6 {
                releases.push(ReleaseCall::FreeCallbackContext);
            }
            assert(releases@ =~= failed_build_releases(done as nat));
            BuildStep::Failed(OhosError::AudioCallFailed(calls[done], code), releases)
        }
    }

    /// Starts the renderer once: when it has already started nothing is called and
    /// the answer is `Ok`; otherwise `renderer_start` is called, and the renderer
    /// counts as started exactly when that call succeeds.
    pub fn start<F: FnOnce() -> i32>(&mut self, renderer_start: F) -> (r: Result<(), OhosError>)
        requires
            old(self).wf(),
            !old(self)@.started ==> renderer_start.requires(()),
        ensures
            final(self).wf(),
            final(self)@.sample_rate == old(self)@.sample_rate,
            final(self)@.channels == old(self)@.channels,
            final(self)@.capacity == old(self)@.capacity,
            final(self)@.samples == old(self)@.samples,
            old(self)@.started ==> r is Ok && final(self)@.started,
            !old(self)@.started ==> exists|code: i32|
                {
                    &&& renderer_start.ensures((), code)
                    &&& (code == 0 ==> r is Ok && final(self)@.started)
                    &&& (code != 0 ==> r == Err::<(), OhosError>(
                        OhosError::AudioCallFailed(AudioCall::RendererStart, code),
                    ) && !final(self)@.started)
                },
    {
        if self.started {
            return Ok(());
        }
        let code = renderer_start();
        check(code, AudioCall::RendererStart)?;
        self.started = true;
        Ok(())
    }

    /// The sample rate the renderer was made for.
    pub fn sample_rate(&self) -> (rate: u32)
        ensures
            rate == self@.sample_rate,
    {
        self.sample_rate
    }

    /// The channel count the renderer was made for.
    pub fn channels(&self) -> (n: u16)
        ensures
            n == self@.channels,
    {
        self.channels
    }

    /// Queues samples for playback. When the ring cannot hold them all, the oldest
    /// samples are dropped: the ring keeps the newest `capacity` samples of what it
    /// held followed by `buffer`.
    pub fn append_pcm(&mut self, buffer: &[u32])
        requires
            old(self).wf(),
        ensures
            final(self).wf(),
            final(self)@.samples == newest(old(self)@.samples + buffer@, old(self)@.capacity),
            final(self)@.sample_rate == old(self)@.sample_rate,
            final(self)@.channels == old(self)@.channels,
            final(self)@.started == old(self)@.started,
            final(self)@.capacity == old(self)@.capacity,
    {
        let cap = ring_capacity_of(&self.ring);
        if buffer.len() > cap {
            ring_push_overwrite(&mut self.ring, buffer);
            return;
        }
        let held = ring_len(&self.ring);
        let want = held + buffer.len();
        let ghost before = ring_items(self.ring);
        if want > cap {
            ring_skip(&mut self.ring, want - cap);
            assert(ring_items(self.ring) + buffer@ =~= (before + buffer@).skip(want - cap));
        }
        ring_push_overwrite(&mut self.ring, buffer);
    }

    /// Fills the system's write buffer of `audio_data_size` bytes: as many queued
    /// samples as fit, oldest first, then silence. The samples handed out leave the
    /// ring, and the buffer is always reported valid.
    pub fn on_write_data(&mut self, audio_data_size: i32) -> (r: (
        Vec<u32>,
        OH_AudioData_Callback_Result,
    ))
        requires
            old(self).wf(),
            audio_data_size >= 0,
        ensures
            final(self).wf(),
            r.0@ == write_buffer(old(self)@.samples, (audio_data_size / 4) as nat),
            final(self)@.samples == old(self)@.samples.skip(
                drained_count(old(self)@.samples, (audio_data_size / 4) as nat) as int,
            ),
            r.1 == OH_AudioData_Callback_Result::Valid,
            final(self)@.sample_rate == old(self)@.sample_rate,
            final(self)@.channels == old(self)@.channels,
            final(self)@.started == old(self)@.started,
            final(self)@.capacity == old(self)@.capacity,
    {
        let nf32: usize = (audio_data_size as usize) / 4;
        let held = ring_len(&self.ring);
        let take: usize = if held < nf32 {
            held
        } else {
            nf32
        };
        let ghost before = ring_items(self.ring);
        let mut out: Vec<u32> = Vec::new();
        let mut i: usize = 0;
        while i < take
            invariant
                i <= take,
                out@.len() == i,
            decreases take - i,
        {
            out.push(0u32);
            i += 1;
        }
        if take > 0 {
            ring_pop_into(&mut self.ring, &mut out);
        } else {
            assert(out@ =~= before.take(0));
        }
        let mut j: usize = take;
        while j < nf32
            invariant
                take <= j <= nf32,
                out@ =~= before.take(take as int) + silence((j - take) as nat),
            decreases nf32 - j,
        {
            out.push(0u32);
            j += 1;
        }
        (out, OH_AudioData_Callback_Result::Valid)
    }

    /// The calls that release the renderer, in order: stop it when it was started,
    /// then release the system renderer, destroy the builder and free the callback
    /// context, each only when it exists.
    pub fn release_calls(&self, renderer_live: bool, builder_live: bool, context_live: bool) -> (calls:
        Vec<ReleaseCall>)
        ensures
            calls@ == (if self@.started {
                seq![ReleaseCall::RendererStop]
            } else {
                Seq::<ReleaseCall>::empty()
            }) + (if renderer_live {
                seq![ReleaseCall::RendererRelease]
            } else {
                Seq::<ReleaseCall>::empty()
            }) + (if builder_live {
                seq![ReleaseCall::BuilderDestroy]
            } else {
                Seq::<ReleaseCall>::empty()
            }) + (if context_live {
                seq![ReleaseCall::FreeCallbackContext]
            } else {
                Seq::<ReleaseCall>::empty()
            }),
    {
        let mut calls: Vec<ReleaseCall> = Vec::new();
        if self.started {
            calls.push(ReleaseCall::RendererStop);
        }
        if renderer_live {
            calls.push(ReleaseCall::RendererRelease);
        }
        if builder_live {
            calls.push(ReleaseCall::BuilderDestroy);
        }
        if context_live {
            calls.push(ReleaseCall::FreeCallbackContext);
        }
        assert(calls@ =~= (if self@.started {
            seq![ReleaseCall::RendererStop]
        } else {
            Seq::<ReleaseCall>::empty()
        }) + (if renderer_live {
            seq![ReleaseCall::RendererRelease]
        } else {
            Seq::<ReleaseCall>::empty()
        }) + (if builder_live {
            seq![ReleaseCall::BuilderDestroy]
        } else {
            Seq::<ReleaseCall>::empty()
        }) + (if context_live {
            seq![ReleaseCall::FreeCallbackContext]
        } else {
            Seq::<ReleaseCall>::empty()
        }));
        calls
    }
}

/// The ring never holds more than its capacity: after an append it holds exactly
/// the last `min(len, capacity)` samples of what it held followed by what was appended.
pub proof fn law_append_bounded(s: Seq<u32>, cap: nat)
    ensures
        newest(s, cap).len() == if s.len() <= cap { s.len() } else { cap },
        newest(s, cap) == s.skip(s.len() - newest(s, cap).len()),
{
    if s.len() <= cap {
        assert(s.skip(0) =~= s);
    }
}

/// While there is room, appending loses nothing: the ring holds what it held
/// followed by the new samples.
pub proof fn law_append_keeps_all_that_fits(held: Seq<u32>, buffer: Seq<u32>, cap: nat)
    requires
        held.len() + buffer.len() <= cap,
    ensures
        newest(held + buffer, cap) == held + buffer,
{
}

/// When the ring overflows, the oldest samples are overwritten: the appended
/// samples are all kept when they fit in the ring, and only their newest
/// `capacity` are kept when they do not.
pub proof fn law_append_overwrites_oldest(held: Seq<u32>, buffer: Seq<u32>, cap: nat)
    requires
        held.len() <= cap,
        held.len() + buffer.len() > cap,
    ensures
        newest(held + buffer, cap).len() == cap,
        buffer.len() <= cap ==> newest(held + buffer, cap) == held.skip(
            held.len() + buffer.len() - cap,
        ) + buffer,
        buffer.len() >= cap ==> newest(held + buffer, cap) == buffer.skip(buffer.len() - cap),
{
    let all = held + buffer;
    let k = all.len() - cap;
    if buffer.len() <= cap {
        assert(all.skip(k) =~= held.skip(k) + buffer);
    }
    if buffer.len() >= cap {
        assert(all.skip(k) =~= buffer.skip(buffer.len() - cap));
    }
}

/// Appending `a` and then `b` leaves the ring as appending `a` followed by `b` at once.
pub proof fn law_append_twice(held: Seq<u32>, a: Seq<u32>, b: Seq<u32>, cap: nat)
    ensures
        newest(newest(held + a, cap) + b, cap) == newest(held + a + b, cap),
{
    let x = held + a;
    let y = newest(x, cap) + b;
    let all = x + b;
    assert(all =~= held + a + b);
    if x.len() <= cap {
        assert(y =~= all);
    } else {
        let k = x.len() - cap;
        assert(y =~= all.skip(k));
        if y.len() > cap {
            assert(y.skip(y.len() - cap) =~= all.skip(all.len() - cap));
        }
    }
}

/// A write buffer always has the size the system asked for.
pub proof fn law_write_buffer_size(samples: Seq<u32>, n: nat)
    ensures
        write_buffer(samples, n).len() == n,
{
}

/// Filling a write buffer loses no sample: the samples it took, followed by the
/// samples left in the ring, are what the ring held.
pub proof fn law_drain_conserves(samples: Seq<u32>, n: nat)
    ensures
        write_buffer(samples, n).take(drained_count(samples, n) as int) + samples.skip(
            drained_count(samples, n) as int,
        ) == samples,
{
    let k = drained_count(samples, n) as int;
    assert(write_buffer(samples, n).take(k) =~= samples.take(k));
    assert(samples.take(k) + samples.skip(k) =~= samples);
}

/// Samples come out in the order they went in: when everything appended fits in the
/// ring and in the write buffer, the buffer holds what was queued and then what was
/// appended, padded with silence, and the ring is left empty.
pub proof fn law_first_in_first_out(held: Seq<u32>, buffer: Seq<u32>, cap: nat, n: nat)
    requires
        held.len() + buffer.len() <= cap,
        held.len() + buffer.len() <= n,
    ensures
        write_buffer(newest(held + buffer, cap), n) == held + buffer + silence(
            (n - held.len() - buffer.len()) as nat,
        ),
        newest(held + buffer, cap).skip(
            drained_count(newest(held + buffer, cap), n) as int,
        ) == Seq::<u32>::empty(),
{
    let all = held + buffer;
    assert(newest(all, cap) == all);
    assert(all.take(all.len() as int) =~= all);
    assert(all.skip(all.len() as int) =~= Seq::<u32>::empty());
}

/// A write buffer of `n` samples takes `min(queued, n)` samples: all of the queue when
/// it fits, otherwise exactly the `n` oldest samples and no silence.
pub proof fn law_write_buffer_takes_all_it_can(samples: Seq<u32>, n: nat)
    ensures
        drained_count(samples, n) <= n,
        drained_count(samples, n) <= samples.len(),
        drained_count(samples, n) == n || drained_count(samples, n) == samples.len(),
        samples.len() >= n ==> write_buffer(samples, n) == samples.take(n as int),
        samples.len() < n ==> write_buffer(samples, n) == samples + silence(
            (n - samples.len()) as nat,
        ),
{
    if samples.len() >= n {
        assert(write_buffer(samples, n) =~= samples.take(n as int));
    } else {
        assert(samples.take(samples.len() as int) =~= samples);
    }
}

/// The system renderer is built for the renderer's own stream: every sampling-rate
/// call carries its sample rate and every channel-count call its channel count, each
/// is made exactly once, and both come after the builder is created.
pub proof fn law_builder_calls_carry_stream_parameters(v: RendererView)
    ensures
        builder_call_seq(v).len() == 8,
        builder_call_seq(v)[0] == AudioCall::BuilderCreate(OH_AudioStream_Type::Renderer),
        exists|i: int| 0 < i < 8 && builder_call_seq(v)[i] == AudioCall::SetSamplingRate(v.sample_rate as i32),
        exists|i: int| 0 < i < 8 && builder_call_seq(v)[i] == AudioCall::SetChannelCount(v.channels as i32),
        forall|i: int|
            0 <= i < 8 && (#[trigger] builder_call_seq(v)[i]) is SetSamplingRate ==> builder_call_seq(v)[i]
                == AudioCall::SetSamplingRate(v.sample_rate as i32),
        forall|i: int|
            0 <= i < 8 && (#[trigger] builder_call_seq(v)[i]) is SetChannelCount ==> builder_call_seq(v)[i]
                == AudioCall::SetChannelCount(v.channels as i32),
{
    assert(builder_call_seq(v)[1] == AudioCall::SetSamplingRate(v.sample_rate as i32));
    assert(builder_call_seq(v)[2] == AudioCall::SetChannelCount(v.channels as i32));
}

/// Renderers made for different sample rates (within the range the system library
/// takes) or different channel counts build different system renderers.
pub proof fn law_builder_calls_tell_streams_apart(v: RendererView, w: RendererView)
    requires
        v.sample_rate <= i32::MAX,
        w.sample_rate <= i32::MAX,
        v.sample_rate != w.sample_rate || v.channels != w.channels,
    ensures
        builder_call_seq(v) != builder_call_seq(w),
{
    law_builder_calls_carry_stream_parameters(v);
    law_builder_calls_carry_stream_parameters(w);
    if v.sample_rate != w.sample_rate {
        assert(builder_call_seq(v)[1] != builder_call_seq(w)[1]);
    } else {
        assert(builder_call_seq(v)[2] != builder_call_seq(w)[2]);
    }
}

/// After the builder call at index `k` fails, the builder is destroyed exactly when an
/// earlier call created it, the callback context is freed exactly when it was made for
/// a `SetRendererWriteDataCallback` call at or before the failed one, nothing else is
/// released, nothing twice, and the builder goes before the context it holds.
pub proof fn law_failed_build_releases_what_exists(v: RendererView, k: nat)
    requires
        k < 8,
    ensures
        failed_build_releases(k).contains(ReleaseCall::BuilderDestroy) <==> exists|j: int|
            0 <= j < k && (#[trigger] builder_call_seq(v)[j]) is BuilderCreate,
        failed_build_releases(k).contains(ReleaseCall::FreeCallbackContext) <==> exists|j: int|
            0 <= j <= k && (#[trigger] builder_call_seq(v)[j]) is SetRendererWriteDataCallback,
        !failed_build_releases(k).contains(ReleaseCall::RendererStop),
        !failed_build_releases(k).contains(ReleaseCall::RendererRelease),
        failed_build_releases(k).no_duplicates(),
        forall|a: int, b: int|
            0 <= a < failed_build_releases(k).len() && 0 <= b < failed_build_releases(k).len()
                && failed_build_releases(k)[a] == ReleaseCall::BuilderDestroy
                && failed_build_releases(k)[b] == ReleaseCall::FreeCallbackContext ==> a < b,
{
    let calls = builder_call_seq(v);
    let r = failed_build_releases(k);
    if k >= 1 {
        assert(calls[0] is BuilderCreate);
    } else {
        assert forall|j: int| 0 <= j < k implies !(#[trigger] calls[j] is BuilderCreate) by {}
    }
    if k >= 6 {
        assert(calls[6] is SetRendererWriteDataCallback);
    } else {
        assert forall|j: int| 0 <= j <= k implies !(#[trigger] calls[j] is SetRendererWriteDataCallback) by {
            assert(j <= 5);
        }
    }
    if k >= 1 && k >= 6 {
        assert(r =~= seq![ReleaseCall::BuilderDestroy, ReleaseCall::FreeCallbackContext]);
    } else if k >= 1 {
        assert(r =~= seq![ReleaseCall::BuilderDestroy]);
    } else {
        assert(r =~= Seq::<ReleaseCall>::empty());
    }
}

} // verus!
