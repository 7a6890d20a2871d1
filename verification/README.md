# mesher

Turns 16 by 16 by 16 sections of a voxel world into meshes.

`src/` is the library, verified with Verus:

- `chunk` gathers a section and the layer of blocks around it.
- `mesh` finds the faces that show, lays them out as quads and puts the mesh together.
- `occlusion` darkens the corners of faces, `rotation` turns models by quarter turns,
  `uv` decides how textures lie on faces, `face` knows the corners of each face.
- `laws` states what holds of every mesh; the other modules state the laws of their own
  functions.

The library is generic in the type of coordinates and does no arithmetic on them.
`app/` supplies that arithmetic in floating point, runs the library on a worker thread
and copies the chunks of a running world into the library's types.
