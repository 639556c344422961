# sparkplayer

The platform layers of SparkPlayer, with their logic verified by Verus.

- `src/` is the verified library. The native side publishes audio for external visualizers
  through a shared memory region: `packer` assembles stereo frames, `writer` decides every store
  to the `region`, `stream` states what readers can rely on, `names` and `mapping` open the
  region on Windows and POSIX systems. The web side runs the player in a page: `manifest` reads
  the playlist, `page` and `library` decide on keys, picked files, overlays and settings.
  `text` holds what they need of strings.
- `app/` is ordinary Rust around it: the system calls and volatile stores of the shared memory,
  and the browser's elements, events and requests. The player's core is reached through the
  trait in `app/player.rs`.
- `tests/` exercises the library. The functions that ask the page's JavaScript engine are not
  among them, since tests run without one.

Samples cross the library as the bit patterns of 32-bit floating-point numbers. The writer is a
sequential object, and the laws in `stream` speak of operations that follow one another. `app/`
shares the counters between threads as atomic words, so that the audio callback takes no lock where
the region is shared memory, and lets the library decide each operation from the numbers that it
took.
