# kcshot

A screenshot tool for Linux: it captures the screen under X11 or Wayland, opens an
editor over the capture (crop, shapes, arrows, text, numbered bubbles, blur, pixelation,
a pencil), then saves the result, copies it to the clipboard and records it in a history.

The decisions and computations of the tool are a library verified with Verus; the
program around it does the input and output.

## Layout

- `src/` — the verified library.
  - `tool.rs`: the editor's tools, their icons, tooltips and keyboard shortcuts.
  - `operations.rs`, `stack.rs`: the operations a user draws and the undoable history of
    them, with the crop selection of the "crop-first" and "crop-last" modes and what
    drawing the history shows.
  - `editor.rs`: how the editor reacts to keys, clicks and drags, and where its toolbar goes.
  - `colour.rs`, `geometry.rs`: colours as bytes and packed integers; points and rectangles.
  - `pixelops.rs`: blurring (through `stackblur-iter`) and pixelating pixel buffers.
  - `cursor.rs`: drawing the mouse cursor into an X11 capture.
  - `screenshot.rs`: recognising the display server and window manager, window frames,
    the monitor under the cursor, Hyprland's windows.
  - `markup.rs`, `text.rs`: Markdown to Pango markup (through `pulldown-cmark`,
    `pulldown-cmark-escape` and `regex`), and string helpers.
  - `cli.rs`, `postcapture.rs`, `history.rs`: the command line, the post capture actions
    and the paging of the history.
- `tests/` — tests of the library.
- `app/` — the GTK program: windows, cairo drawing, xcb and the desktop portal, the
  SQLite history, settings and the tray icon.
