# vvvvvv_hook

Run-time patches for the game VVVVVV, loaded into the game's process: they
skip the preloader, allow symbolic links in the data directory, start a custom
level (optionally from a saved position, with a song) from the command line,
and run registered callbacks around the game's input handling, among them one
that keeps the player in control while a script is held.

- `src/` is the verified library: every decision the patches take, as
  functions from plain values to plain values with contracts, and the laws
  that relate them (`lemma_*` proof functions).
  - `patches/cli.rs`: reading integer arguments, the title screen's action,
    the quickload position.
  - `patches/gamestates.rs`: which registered callbacks run before and after
    input.
  - `gamestates/pdelay.rs`: saving and restoring the script flags around
    input.
  - `args.rs`, `proc.rs`, `text.rs`: the command line from raw arguments or
    from `/proc/self/cmdline`, and splitting text at a separator.
  - `helpers.rs`: recognising the game's executable, and the line printed
    when a symbol is hooked (demangled with `cpp_demangle`).
  - `lua.rs`: how C integer arguments and results cross to Lua.
- `app/` installs the hooks (`detour`, `ctor`, `libloading`), registers the
  callbacks (`inventory`), reads and writes the game's memory, keeps the
  global state and logs (`log`, `cute-log`).
