# Color picker windows

The windows of a desktop colour picker: a live preview beside the pointer, a
magnifier over a frozen snapshot, a result window that copies a colour in several
notations, and a settings editor. What these windows decide and compute is a
verified library. Around it stands a layer that calls the desktop, measures texts,
runs the library's plans in order and computes what takes floating point: the HSL
notation and the contrast of the caption buttons.

## Layout

- `src/` is the library, verified with Verus.
  - Pixels and colours: `pixel_effects`, `frost`, `color`, `format`, `sample`.
  - Geometry: `geometry`, `placement`, `zoom`, `layout`, `scrolling`.
  - Overlays: `drawing`, `preview`, `magnifier`, `magnifier_window`, `footer`.
  - Result window: `result`, `result_layout`, `result_controls`, `result_copy`,
    `result_work`, `caption`.
  - Settings window: `config`, `hotkey`, `key_set`, `settings`, `settings_layout`,
    `settings_controls`, `settings_keys`, `settings_work`, `settings_preview`.
  - Shared by the windows: `window_lifetime`, `messages`, `controls`, `theme`,
    `text`, `i18n`, `arith`.
- `tests/` runs the library on concrete values.
- `app/` drives the library. `sheet`, `result`, `settings` and `overlay` carry its
  plans out through traits that name what a window needs of its desktop; `native`
  implements those for Windows.

## How a window works

Native callbacks never act. They hand a message to the window's state, which answers
it and queues at most one intention. The owner is woken once, takes everything that
waits in one go and carries it out. State is never borrowed across a native call, so
messages that arrive in the middle of one only queue further work.

Drawing is planned as a list of steps (fills, clipped texts, stretched pixels, a
blurred backdrop) that the native side paints in order.

Every public function states its result exactly. Properties of the library as a
whole, such as that a preview never covers the sampled pixel or that a click picks
the pixel that is highlighted, are public proof functions in the module they
concern.
