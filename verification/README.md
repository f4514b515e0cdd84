# corpusflow

An offline command-line tool for corpus-based granular matching and audio
resynthesis, built around a library verified with Verus.

## Layout

- `src/` — the verified library:
  - `cli` parses the command line and renders the usage text;
  - `config` holds the configuration, its canonical defaults and its
    validation (real-valued settings are held as IEEE-754 bit patterns);
  - `audio` checks buffer layouts and WAV sample formats, chooses the mono
    downmix, and plans linear-interpolation resampling;
  - `corpus` and `index` check corpus requests and plan the grain index;
  - `descriptor` lists the descriptor features and checks extractor input;
  - `matching` gives seek ratios and picks the cheapest candidate;
  - `micro_adaptation` plans carrier-envelope segments;
  - `rendering`, `synthesis`, `target` hold the stage plans and checks;
  - `pipeline` checks runs, renders the progress bar and the messages;
  - `text` holds the string helpers these share.
- `app/` — the program around the library: WAV and file I/O (`hound`), the
  FFT descriptor extractor (`rustfft`), JSON configuration (`serde`,
  `serde_json`), and the floating-point audio arithmetic.
- `tests/` — tests of the library.
