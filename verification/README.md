# petzold

The logic of a set of small Windows programs (system metrics viewers,
mouse and keyboard demos, clocks, a hexadecimal calculator, a notepad,
menus, dialogs and drawing demos), written as a verified Verus library.
Each window procedure's decisions are functions from the window's state
and a message to the next state and what to draw or call; their contracts
say exactly what they compute, and proof functions state the laws that
hold across calls.

- `src/` is the library. Text formatting (`fmt`, `text`, `wide`), message
  parameters (`words`, `arith`), and one module per program family:
  `checker`, `blockout`, `connect`, `typer`, `keylog`, `hexcalc`, `clock`,
  `scroll`, `environ`, `dialogs`, `popad`, `menu`, `layout`, `owndraw`,
  `panels`, `fonts`, `randrect`.
- `tests/` runs the library on concrete values.
- `app/` holds the calls into the system that the library decides on, and
  the few computations done in floating point.
