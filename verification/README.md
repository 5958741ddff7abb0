# tetra_gl

The OpenGL device of a 2D game framework, split in two.

`src/` is a Verus library that makes every decision the device makes and
proves it correct. It keeps a cache of what the GL context has bound, and
each operation returns the list of GL calls it has decided on
(`gl::GlCommand`) while updating the cache. Every operation's contract states
the exact calls and the new cache, and that running those calls on any
context whose bindings match the cache leaves the two matching again
(`gl::keeps_track`), and that GL's texture filters change only for the
texture whose filter mode the operation sets (`gl::sets_filters`). This holds
for the device's own operations. Dropping a handle in `app/` deletes its GL
object, and the cache is not told: if the object was bound, GL unbinds it
while the cache still holds its name. Building a shader program, where each call depends on
what the context answered to the one before, is a state machine
(`shader::ShaderBuilder`).

- `src/gl.rs`: GL enumerants, the command type, and the model of the
  context's bindings that plans are judged against.
- `src/types.rs`: buffer usage, winding order, filter mode, errors, and
  their GL values.
- `src/handles.rs`: the GL objects the device hands out.
- `src/device.rs`: the device and its operations.
- `src/shader.rs`: the shader build.

`app/` is the same device over a real `glow` context: it makes the planned
calls (all of glow's calls are `unsafe`), answers the shader build's
questions, owns the GL objects, and holds what needs floating point
(clearing, uniforms, the canvas projection).
