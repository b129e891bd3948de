# sneck

The rules of Sneck, a snake game, as a library verified with Verus, and the
game itself on top of it.

- `src/` is the verified library:
  - `snake/asset.rs` reads `.snake` skin assets (entries split at top-level
    commas, brackets and quotes tracked, keys `id` and `body`), with every
    result and error stated by spec functions;
  - `snake/` also holds headings, skins and sizes, the follow-the-leader
    movement, steering, path following and path recording, and how each
    segment is drawn (piece, mirroring and turn);
  - `map/` holds the play field and the mini map picture, into which
    objects and snakes are painted;
  - `ui/` holds the menu trail that "back" follows, button and slider
    actions and rounded corners; `utils.rs` the window sizes;
  - `collectables.rs` and `audio.rs` the random choices of food cells and
    hiss sounds, made through `rand`.
- `tests/` runs the library on concrete cases.
- `app/` is the game on bevy: systems that read the world, call the library
  and write the result back, plus what is float arithmetic or rendering.
