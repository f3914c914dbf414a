# rust_virtual_camera

A virtual camera for Windows 11 that sends a test pattern, a single colour, a
still image or a live region of the desktop to applications, either through a
Media Foundation virtual camera (a shared memory block read by the camera
service) or through a DirectShow filter.

`src/` is the verified library (Verus):

- `config`, `color`: the camera configuration, its validation rules and
  `#RRGGBB` parsing;
- `pixels`, `frames`, `mirror`: BGRA frame layout and the frames themselves
  (solid colour, test pattern, images, left-right mirroring, BGR and RGBA
  conversions);
- `bytes`, `shared`: little-endian fields and the shared frame block with its
  odd/even sequence counter;
- `capture`, `preview`: the computing parts of desktop capture, scaling and
  JPEG/base64 previews (the `image` and `base64` crates behind wrappers);
- `driver`, `stream`, `runtime`: component locations and registry checks,
  stream start decisions, and the status shown to the user;
- `text`: string comparisons on UTF-8 bytes.

`app/` is the Tauri application around it: commands, settings files, the
tray, Windows API calls (GDI capture, elevation, registry queries), memory
mapping, the DirectShow library, threads and frame pacing.
