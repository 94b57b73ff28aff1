# rustvania

The rules of a small networked platformer, verified with Verus.

`src/` is the library:

- `tile` — decoding of map bytes into tiles and entity markers.
- `level` — a room: its tile grid, point and range collision queries on
  tile coordinates, and the spawn points of its entity layer.
- `world` — the session state: the matrix of rooms, room transitions,
  the roster of other players, what each server packet does to it, the
  packets sent each frame, and what a death resets.
- `nemesis`, `network` — the roster entry and the packet type.
- `enemy`, `player` — the decisions of enemies and of the player in a frame.

Game positions are `f32` pixels. The library works on tile coordinates and
on decisions; where a packet or a roster entry carries an `f32`, it holds its
bit pattern.

`app/` is the game itself (macroquad window and input, pixel physics, the
camera, the laminar socket and postcard encoding); it calls the library for
every rule above.
