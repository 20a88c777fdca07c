# rel_ptr

Relative pointers, verified with Verus. A relative pointer stores how far away its target is, not
where it is, so an archive that holds such pointers can be moved in memory as a whole and read
without decoding.

- `src/offset.rs`: the distance between two positions, and the types that can store one
- `src/primitive.rs`: integers as bytes, least significant byte first
- `src/raw_rel_ptr.rs`: the untyped pointer
- `src/pointee.rs`, `src/rel_ptr.rs`: the typed pointer, its layout and what it can point to
- `src/laws.rs`: what holds across several operations: an emplaced pointer resolves to its target,
  and stays valid exactly as long as both are moved together
- `app/`: the same pointers laid out in the memory of a program, on top of the library

In the library a pointer is a value that knows the address at which it stands; addresses are plain
`usize` numbers.
