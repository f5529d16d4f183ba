# rubberducky

The core of a terminal chat front end with vim-style editing of the input:
the modes (normal, insert, visual, replace, operator-pending), which commands
each key sends to the text area in each mode and what those commands do to
the text, the cursor and the yank buffer as far as the text area's source
fixes it, the application events that keys ask for, and the screen
layout. It is verified with Verus.

- `src/` is the verified library:
  - `keys`: key presses and application events;
  - `mode`: the modes, their names, colours and cursor styles;
  - `editor`: the text area of `ratatui-textarea`, behind trusted wrappers;
  - `message`: a message, its key handlers and their plans;
  - `app`: the application state and its event handling;
  - `layout`: the screen areas, split by `ratatui`'s layout solver;
  - `title`: the status card of the title bar;
  - `laws`: properties of the mode machine across the handlers;
  - `text_laws`: what the keys do to the text, derived from the handlers.
- `app/` is the terminal program: event loop, key conversion and drawing.
- `tests/` runs the library on concrete keys.
