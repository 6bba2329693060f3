# endian

Byte-order conversion for integers, verified with Verus.

- `src/conversion.rs`: the `EndianReversible` trait (byte reversal for every
  primitive integer type), conversions between big-endian, little-endian and
  native order, and loads and stores of 16-, 24-, 32- and 64-bit integers in
  byte arrays. Contracts are stated over each value's bytes
  (`to_le_seq` / `from_le_seq`) and the machine's byte order
  (`vstd::endian::endianness()`).
- `src/buffer.rs`: `EndianBuf<E, T>`, a value held in the byte order of the
  encoding `E`, converted explicitly with `get` / `set`.
- `src/arithmetic.rs`: `EndianInt<E, T>`, the same with the operators of the
  native value.
- `src/ffi.rs`: the operations exposed to C++, on byte slices and shared
  buffer records.
- `src/pool.rs`: a fixed-size block pool with a free list threaded through
  block indices.
- `src/bytes.rs`: byte sequences read as base-256 numbers.
- `app/`: the `cxx` bridge, 32-byte-aligned `f32` buffers with AVX kernels,
  and a C allocator over a static memory pool.
