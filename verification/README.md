# imgui core, verified

The parts of a dear imgui binding that compute, written in Verus and proved
against their contracts:

- `src/flags.rs`: the configuration, backend and font atlas flag sets.
- `src/raw.rs`: a plain-value model of the C structures the wrappers read
  (`ImGuiIO`, `ImFontConfig`, `ImFontAtlas`); floats are carried by their bit
  patterns.
- `src/io.rs`: the IO block, its accessors, and the UTF-8 buffer that queues a
  character of text input.
- `src/fonts/`: font identifiers, glyph ranges, font lookup in the atlas, font configuration
  and the raw configurations that adding fonts hands to the atlas.
- `src/clipboard.rs`: the clipboard backend trait and the conversions between
  Rust text and the C strings dear imgui exchanges.

`app/` holds the floating-point arithmetic (updating the frame time from a
`Duration`). `tests/` runs the library on concrete values.
