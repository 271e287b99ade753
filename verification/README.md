# Rusty Console

A terminal console for the Docker engine: containers, volumes, images and
Compose stacks, with filtering, confirmations for destructive work and a
shell into a container.

## Layout

- `src/` — the library, verified with Verus.
  - `domain/` — containers, images, volumes and stacks with their states and
    the operations each state allows.
  - `application/` — what the screens show (transfer objects) and how they
    are built from the domain.
  - `infrastructure/` — what the engine reports, as plain records, and how
    it becomes domain values: container and stack mapping, volume links,
    statistics samples, the texts of failures, and the calendar (`chrono`).
  - `presentation/` — the console as a state machine: key bindings, list
    selections and filters, presenters, and `app`, which takes a key and
    the current state to the next state and the work to do. `app_laws`
    holds the properties proved of every step.
- `app/` — the program around the library: the engine calls (`bollard`,
  `tokio`), the terminal (`crossterm`, `ratatui`), and the displays that
  need floating point.
- `tests/` — tests of the library on concrete values.
