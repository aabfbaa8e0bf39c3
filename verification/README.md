# ui_events

Cross-platform input event vocabulary modeled after W3C UI Events, together
with the mapping rules that platform adapters use to build it from raw
platform values, verified with Verus.

## Layout

- `src/` — the verified library.
  - `pointer` — pointer buttons and button sets, pointer types, pointer and
    device ids (never zero; the value 1 is the primary pointer).
  - `keyboard` — modifier flags, key codes, named keys, key locations.
  - `text` — text-input events and the conversion of document ranges given
    in UTF-8 bytes, UTF-16 code units or code points into UTF-8 byte ranges.
    A text is modeled as its sequence of scalar values; an offset converts
    when some prefix of the text measures exactly that many units.
  - `edit` — semantic editor commands.
  - `apple` — helpers shared by AppKit and UIKit: button indices and masks,
    pointer identities, modifiers, UTF-16 location/length text events.
  - `uikit` — UIKit contacts, `UIKeyModifierFlags` bits, HID usages.
  - `web` — DOM button numbers and masks, pointer and touch identities,
    DOM event type dispatch.
- `app/` — host-side code that reads DOM events through `web-sys` and builds
  the floating-point pointer state (positions, contact sizes, pressure,
  orientation, scroll deltas, timestamps). Button numbering, pointer
  identities, modifiers, click counts, event kinds, touch identities and the
  choice of converter for a DOM event come from the library.
- `tests/` — scenario tests and tests of the library's laws on concrete
  values.
