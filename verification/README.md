# baseview

The window logic of a plugin-friendly windowing layer on Windows, written in Verus.

`src/` decides and proves: what a window makes of its messages, how it is opened stage by stage,
how it is sized and placed, and what its handle can do. It holds no system call. Where something
has to be done or found out, it says what, and takes the answer back.

- `message` reads messages, `model` states what each does to a window, `state` does it.
- `open`, `dpi`, `class`, `text` and `placement` bring a window up and size it.
- `slot` holds the state until it is released, also where a message destroys its own window.
- `window` is what a handler sees of its window, `handle` what the opener does.
- `laws` proves what holds over the whole life of a window: events come in order, the mouse is
  captured exactly while a button is held, the handler knows the size, a change of DPI and back
  restores it, tasks keep their order, the state is released once, class names are unique, DPI
  awareness is restored.

`app/` carries it out: `driver` runs the logic against a `System`, and `win32` is the `System` that
calls Windows. Doubles are computed there; the library keeps them as bit patterns.
