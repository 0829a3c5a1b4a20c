# wiev

The verified core of a keyboard-driven image viewer.

- `src/` is the library, verified with Verus:
  - `index.rs`: choosing an entry of a cyclic list by position, offset or at
    random, with Euclidean wrapping;
  - `que.rs`: most-recent-first queues without repeats (bookmarks, history,
    cache order);
  - `cache.rs`: the texture cache, bounded in bytes, dropping its oldest
    textures first;
  - `title.rs`: decimal numerals and the window title;
  - `wiever.rs`: the viewer's state and its operations;
  - `keys.rs`: the key bindings;
  - `redraw.rs`: when the display loop draws and when it sleeps;
  - `laws.rs`: properties of the viewer over several operations.
- `app/` is the program around it: the window and event loop (SFML), reading
  images (ImageMagick), and the per-image view, whose pan, zoom and rotation
  are floating point.
- `tests/` exercises the library.
