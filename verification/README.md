# servo_media_mpv

The decisions of an mpv backend for Servo's media library, verified with Verus.

mpv, EGL, threads, locks and channels are on the other side of a narrow line. On this side
every component is a value with operations that take what happened and say what to do next,
and each operation states exactly what it does.

| Module | What it decides |
| --- | --- |
| `stream`, `stream_laws` | the bytes between a client and mpv's demuxer: pushing, reading, trimming, seeking |
| `address`, `registry` | the `servo://` addresses under which mpv opens streams, and the streams behind them |
| `player` | what a player's requests ask of mpv, and what the client learns of the outcome |
| `events` | what the client is told about mpv's events, and in which order |
| `render`, `gl_setup`, `gl_render`, `sw_render` | how a player renders, and the two render loops |
| `instances` | the table of live media instances, by client context |
| `media` | audio processing, capture and peer connections, which mpv does not have |

`app/` holds what surrounds them: the render and event threads, the calls of mpv, EGL and GL,
and the implementations of Servo's traits.
