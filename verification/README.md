# swiftlet

A media library for low-latency audio and Vulkan graphics, with its data formats and
decisions verified with Verus.

- `src/` is the verified library:
  - `audio`: Ogg pages and Opus streams (`opus`), PCM wave files (`raw`), the codes of the
    CoreAudio interface (`coreaudio`), and how audio streams meet their callbacks;
  - `binaural`: head-related impulse responses (`hrtf`) and interaural level difference
    filters (`ild`) read from 3DTI data;
  - `graphics`: SPIR-V shader modules (`vulkan::spirv`), the choices made from what the
    Vulkan driver reports (`vulkan`), keys of window input (`keycode`), window loop
    decisions (`window`), the font face table (`font`), icon font code point files
    (`icons`), glyph ids and segment offsets (`glyph`) and sRGB channels (`color`);
  - `byte_order`: the machine's byte order, found once and applied to every value of a
    conversion.
- `app/` holds what works on floats, reads files or shapes text with `rustybuzz` and
  `nalgebra`, around the library.
- `tests/` holds the tests.
