# Birdcage

A sandbox for Windows programs. A program is launched in an application container that may do
nothing but what exceptions allow: read, write or execute files and registry keys, see environment
variables, reach the network.

- `src/` is the library, written and verified with Verus. It makes no system calls: adding an
  exception and starting a program are state machines that say which call comes next and go on
  with its result. `guarantees.rs` states what holds of the sandbox as a whole, whatever the
  system replies; `win32.rs` holds the constants that are taken from the `windows` crate.
- `app/` makes the system calls and owns what the system allocates.
- `tests/` runs the library on concrete values.

An exception is granted to the container of the sandbox when it is added, and to the new container
that `spawn` makes for a program. In the container of the program exceptions add up: none takes
another away. The process that calls `spawn` has to be single-threaded, and is not restricted
itself.
