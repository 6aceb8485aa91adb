# iron_rainbow

Verified core of the iron rainbow simulator, written in Verus.

`src/` is the library; every function in it carries a contract that Verus
proves:

- `canvas` – the 2D renderer's pixel canvas (an `image` RGB buffer): plotting,
  Bresenham lines, filled discs and clipped rectangles, each stated as the exact
  set of pixels it paints.
- `line` – the digital line as a mathematical object, with its laws (endpoints,
  length, 8-connected steps, distinct pixels).
- `font` – the 5x7 bitmap font and the cells each glyph fills.
- `controls` – the 3D viewer's key and window-event handling as a state machine.
- `path_trace` – event kinds and event records of traced ray paths.
- `gpu` – workgroup counts and buffer sizes of the compute passes.
- `particles` – the seeded generator behind droplet positions.
- `lut` – LUT output settings and normalisation mode.

`app/` holds the programs around it (the 3D viewer and the LUT generator), the
GPU passes and all floating-point physics and geometry, which the library does
not model.
