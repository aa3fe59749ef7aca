# entanglement_webapp

The decisions behind the Entanglement media gallery's web front end, written
in Verus and proved against their contracts:

- `colors`, `coloring`: collection colors, their CSS values and names, and the
  colors users give to collections (which search results can still be colored,
  which dots a media card shows).
- `modal`: the stack of modal dialogs, dialog sizes, side panels, bulk actions.
- `selection`: picking media for bulk edits (toggle, invert, clear).
- `tags`, `progress`, `bulk_run`: what a bulk tag edit does to each medium,
  the run that hands each picked medium out once, and how it is counted and
  reported.
- `dialogs`, `media_detail`, `tasks`: what each dialog shows and does once the
  server has answered, the media details dialog, and the library task
  dialogs (task choice, stop prompt, task history cells).
- `zoom`: the image viewer's zoom steps.
- `forms`, `messages`, `presentation`: form checks, status lines and CSS
  classes.
- `text`, `ids`, `order`: white-space splitting, first lines, decimal numbers,
  route ids, and the order of names (tab names, stable sort of albums).
- `links`, `time`: media addresses, local-storage keys, local times.

`app/` holds what runs only in the browser: local storage, the loop that
drives a bulk tag edit over the network, the serialized form of a color, and
the floating-point parts of the viewer.
