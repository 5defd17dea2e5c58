# zundalink

The logic of the ZundaLink installer (a desktop tool that fetches an install
set, checks it, and writes it to a freshly formatted USB drive), written in
Verus with its behaviour stated as contracts and proved.

- `src/` is the verified library:
  - `text` – character-level helpers (trimming, searching, lines, numbers)
    with their specifications;
  - `i18n` – interface languages, the translation table and lookup, and the
    choice of language from what the operating system reports;
  - `config` – the installer configuration and the choice of a version;
  - `usb` – reading the output of the system tools into USB drive records,
    and choosing the drive to install to;
  - `format` – the volume label, the commands and scripts that format a
    drive, reading their answers, and where copied files land;
  - `download` – file and range paths, the split of a file into ranges,
    resuming, the order in which mirrors are tried, and the SHA-256 check;
  - `flow` – the installer's screens as a state machine: each user action or
    finished background task gives the next state and the work to start;
  - `render` – the choice between hardware and software rendering.
- `tests/` runs the library on concrete values.
- `app/` is the program around it: the window, the processes, the network
  and the file system.
