# openfx_playground

A set of OpenFX image-effect plugins (basic machinery, invert, gain,
saturation, circle, and an inspector of host information) and the tool that
builds and bundles them, with their logic verified by Verus.

## Layout

- `src/` — the verified library:
  - `status.rs`: OpenFX status codes and the status/result conversions.
  - `action.rs`: action names, which actions each plugin handles, and the
    status the main entry reports.
  - `lifecycle.rs`: registering the host once, loading and unloading the
    shared data, and what is learnt of the host's API version.
  - `describe.rs`: the properties and clips each plugin describes.
  - `image.rs`, `layout.rs`: what the host reports of an image, and where
    each pixel's components lie in a slice.
  - `invert.rs`: the invert filter on byte and 16-bit images.
  - `render.rs`: the render decisions around the pixel work.
  - `circle.rs`: when the circle plugin grows the output's region of
    definition.
  - `helpers.rs`: handles on the host's suites.
  - `bundle.rs`: build targets, cargo arguments, the bundle layout and the
    macOS `Info.plist`.
- `tests/` — tests of the library.
- `app/` — the C interface, the calls into the host's suites, one module per
  plugin, the float pixel work, and the bundling command line.
