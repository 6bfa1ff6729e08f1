# psc3

Verified drivers for the PSC3 microcontroller (Cortex-M33): SAU, PPC, MXCM33,
EFUSE, flash and the CRYPTOLITE TRNG.

- `src/` is the verified library. Every driver operation is a function from the
  register words read (and the driver's own state) to the exact, ordered list of
  register operations to perform; its contract states that list, and proof
  functions state the properties that span operations (for example, that the
  region `set_region` programs is the one `get_region` reads back).
- `app/` performs the memory-mapped accesses, the polling loops and the calls
  into the boot ROM's flash routines, using the library's decisions.
- `tests/` runs the library on concrete register values.
