# cerena

The rules of a mesh-hosted arena game, verified with Verus: its content packs, its skeletal
animation, its asset bundles and the bookkeeping of its client.

## Layout

- `src/scalar.rs`, `src/text.rs`, `src/table.rs`: single-precision values held by their bits and
  ordered without arithmetic, text, and sequences looked up by key.
- `src/content/`: the definitions of a pack (spells, items, affixes, sets, gems, enchantments,
  statuses, materials, mobs, missions, triggers, the tech tree), the starter content and its
  expansion, the registry built from a pack, validation, hot reload, and what an edit changes.
- `src/anim/`: skeletons, poses, clips, procedural motion and the animation state machine.
- `src/assets/`: rigs, skinning, baked bundles and the asset server.
- `src/client/`: input, session, feedback, particles, heads-up display, rendering decisions and
  the hosting of zones over the mesh.
- `tests/`: tests of the library.
- `app/`: floating-point arithmetic, serialisation, the graphics device, sockets and the page.

## Numbers

The library compares, selects and clamps single-precision values but never adds or multiplies
them. Where a rule needs arithmetic, the function takes it as a closure or takes its result as an
argument, and the contract says what is handed over and what is done with what comes back.

## What is trusted

`src/client/json.rs` and `src/content/digest.rs` hold the only calls whose contracts are believed:
`serde_json` for parsing and writing, `str::trim`, and `sha2` for the digest of a pack.
