# spacetime

The game rules of a voxel adventure client and its SpacetimeDB module,
written in Verus and proved against their contracts.

- `src/items/` – stacks, the item catalog, recipes, station slot roles, slot
  logic (insert, pay, furnace step), the `item:count|…` slot codec, and laws
  about them.
- `src/store.rs`, `src/store_laws.rs` – the single-player item store (bag,
  ground loot, stations, crafting, moves) and what it conserves.
- `src/server.rs`, `src/server_laws.rs` – the decisions of the server
  reducers on plain rows, and what they conserve.
- `src/settings.rs`, `src/settings_text.rs` – key bindings and the settings
  file, with the save-then-load law.
- `src/input.rs`, `src/anim.rs`, `src/ui.rs`, `src/item_input.rs`,
  `src/hud.rs` – input edges, animation clip choice, HUD state (cursor,
  debug overlay, the stack in hand), one tick of the inventory controls as
  a list of actions, and what each inventory cell shows.
- `src/pause.rs`, `src/pause_view.rs` – the pause menu: its state and
  clicks, and its buttons, captions, layout and hit-testing in integer
  screen units.
- `src/voxel/`, `src/assets/`, `src/meshes.rs`, `src/scene.rs`,
  `src/world_sync.rs` – blocks and chunks, asset names, the material cache
  with albedo decoding and fitting (through the `image` crate), the
  conversion of model textures to RGBA, which model draws what, and scene
  bookkeeping.
- `app/` – the window loop, reading files (materials, glTF textures),
  terrain noise, positions, the inventory cells' screen layout and hit
  points: everything that does I/O or floating point.
