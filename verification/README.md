# rust_embedded_wgpu

A minimal wgpu renderer that targets Linux DRM/KMS directly, without X11 or Wayland. It
prefers a Vulkan surface on the display itself. Where none can be had, it renders offscreen to
an RGBA8 texture, reads the image back, converts it to XRGB8888 while copying it into one of
two dumb buffers, and shows that buffer with a page flip at the vertical blank.

## Layout

`src/` is the library: what is decided about displays, buffers and frames, and in which order
the program acts. Verus proves each function against its contract.

| module          | what it decides                                                          |
|-----------------|--------------------------------------------------------------------------|
| `backend`       | which backends a value of `WGPU_BACKEND` allows                          |
| `errors`        | how a failed device operation is reported                                |
| `examples_api`  | the output size that an example is created with                          |
| `input`         | when the ESC listener reads which device, and when it reports            |
| `kms::pacing`   | a loop without a timer: when a frame is due, and what is done for it     |
| `kms::pick`     | which card, connector and mode are used                                  |
| `kms::ppm`      | how a frame is saved as an image                                         |
| `kms::present`  | how a frame is ended: copy, flip, wait for the flip, swap the buffers    |
| `kms::scanout`  | how long the rows of the buffers are, and which byte is copied where     |
| `kms::setup`    | how a presenter is set up, step by step                                  |
| `run`           | the course of the program, from picking a display to the render loop     |
| `select`        | the first wanted entry of a list, or the first of all                    |
| `surface`       | how a surface is configured, and how a frame is acquired from it         |
| `text`          | ASCII lower-casing and substring search                                  |

Where decisions alternate with work on a device, the module holds a state, a function that
names the next action, and a function that takes what came of it. `app/` carries the actions
out: it opens the card, talks to wgpu, sleeps, and reads the environment. The pipeline and the
shader of the renderer are there too.

Two functions are taken on trust, with the contracts stated at them: the test of a flag in
`drm` (`kms::pick`) and the kind of an input event in `evdev` (`input`).

## Environment

- `WGPU_BACKEND`: `gl`, `vulkan` (or `vk`); without it Vulkan is tried first, then GL.
- `DUMP_FRAME`: a path to save the first frame to, as a PPM image.
- `RUST_LOG=info` shows which adapter and which presenter are used.
