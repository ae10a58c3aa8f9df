# ma5_native

Bindings for a user-supplied MA-5 software emulator DLL pair
(`M5_EmuSmw5.dll`, which loads `M5_EmuHw.dll`), written in Verus.

The verified library (`src/`) holds every decision that does not need the DLL:

- `protocol` — the call protocol as a state machine over `RenderState`:
  `EmuInitialize`, `Initialize`, `Create`, `Load`, `Open`, `Standby`,
  `Start`, the `Generate` calls, and the release of what was acquired in
  reverse order. Its invariant is proved to hold at every step, every step is
  proved to bring the render closer to its end, and a finished render's
  transcript is proved to have the shape of that lifecycle.
- `session` — `Render`, the executable machine that asks for one call at a
  time and takes back what the DLL returned, and `Runtime`, the process-wide
  initialisation flags with the calls that shut them down.
- `pcm` — `RenderedPcm`, its frame count, peak, and little-endian bytes.
- `api` — the exports, their names and lookup order, and the checks of
  their return codes.
- `error`, `text` — the error type and its messages.
- `cli` — the `ma5-render` command line.

`app/` loads the DLL with `libloading`, performs each call that a `Render`
asks for, and holds the `ma5-render` program.

The DLL is a 32-bit Windows library; only an `i686-pc-windows` build can load it.
