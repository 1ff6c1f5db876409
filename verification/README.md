# Animancer

A small real-time strategy game: two teams gather faith, raise shrines and
producers, train workers, priests and warriors, and fight or convert each
other's units.

## Layout

- `src/` is the game's rule book, verified with Verus: selection by box and by
  click, the interface panels that follow a selection, formations and the
  mouse wheel, production queues, construction and generator crews, pursuit
  and target detection, the computer player's scripted instruction sets, the
  battle map and what each unit and structure is spawned with. Every public
  function states what it returns or changes, and the `pub proof fn`s state
  the laws that hold across calls.
- `tests/` runs the rules on concrete values.
- `app/` is the Bevy program around the rules: rendering, input, the
  floating-point movement, timers and energy, path finding and the game loop.
