# Rustcraft core

The verified core of the Rustcraft voxel game.

- `src/` is the library, checked by Verus: the block registry and its state
  ids (`block`), counter formatting (`text`), SPIR-V word decoding (`shader`),
  texture numbering and atlas composition (`textures`), chunk draw lists,
  face indices, culling, block model index lists and the swapchain retry
  (`mesh`), input handling (`input`), the blur pass schedule (`effects`), the render
  texture pool (`buffer_pool`), block distances (`geometry`), memory checks
  (`resources`) and the physics update counter and fixed-rate
  physics schedule (`game`).
- `app/` is the program around it: file output, texture loading, and the
  floating-point parts of the game (collision boxes, movement, the camera).
- `tests/` runs the library on concrete values.
