# png_common

The common types of a PNG codec (colour types, bit depths, animation
control, image information, compression settings and parameter errors),
written in Verus with their contracts proved.

- `src/color.rs`: colour types, bit depths and the row-size arithmetic
  (`raw_row_bytes`), with the laws that relate the checked and unchecked
  row-length computations.
- `src/info.rs`: `Info` and the pixel, row and image sizes derived from it.
- `src/animation.rs`: APNG frame and animation control.
- `src/compression.rs`: compression settings and the `deflate` encoder
  profiles they select.
- `src/error.rs`: parameter errors and their messages.
- `src/filter.rs`: scanline filter types.
- `app/`: the floating-point conversions of `ScaledFloat`, the
  `Transformations` flags (defined with `bitflags`), and the hand-over of
  encoder options to `deflate`.
