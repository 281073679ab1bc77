# rustdesk_ohos

The OpenHarmony platform layer of a remote-desktop client, as a Verus-verified
library (`src/`) with a thin unverified edge (`app/`).

- `audio`: the remote-audio renderer. It validates the stream parameters, lists the
  system calls that build, start and release the system renderer, judges their
  results, and owns the sample ring (`ring`, a `ringbuf` heap ring of sample bit
  patterns) that playback appends to and the system's write-data callback drains.
- `capture`: the single virtual display and pixel buffers (capture is unsupported).
- `keyboard`, `message`: key events sent to the remote machine.
- `platform`, `ui_cm_interface`, `kcp_stream`: facts and operations of a client that
  only controls other machines.
- `error`, `text`: the library's errors and their decimal-number texts.

`app/` holds the `libohaudio` foreign calls, the mutex shared with the audio
callback, `f32` conversion, and async entry points of the KCP transport.
