# icy_dwarf

A model of the thermal, orbital and geochemical evolution of icy moons and dwarf planets.

- `src/` is the verified library (Verus): the configuration selectors and their codes
  and names, the command-line paths, the integer tables and index logic of the
  compression, orbit, cryovolcanism and water-rock models, the output schedule of the
  time loop and the crack-code decisions of the core cracking model. Each public
  function states what it returns in its contract; the proof functions named `lemma_*`
  state the laws that hold across calls.
- `app/` is the program around it: reading the TOML input and data files, the
  floating-point physics, the linear algebra and the calls into R and PHREEQC.
- `tests/` runs the library on concrete values.
