# grisui

The verified core of a small 2D game engine and its shape editor, written in Verus.

- `src/` is the library. Input state (keys, mouse buttons, scroll, typed text), the
  routing of platform events to systems and subscribers, the engine's systems and
  messages, identifier realms, the text formats of shapes and scenes, the editor's
  command line and key bindings, font atlas packing, debug text layout, the cloth's
  spring layout and resource checks all carry contracts that Verus proves.
  `src/laws.rs` states properties that span several operations.
- `tests/` runs the library on concrete values.
- `app/` is the program around it: the window and OpenGL context (SDL2), sound
  (OpenAL), FreeType rendering of glyphs, file access, and the parts that compute
  on floating point (physics, colors, cameras, shape geometry).
