# local_ai_harness

The verified core of a desktop front end for language models that run on the
user's own machine (through Ollama), with image generation through a local
Automatic1111 or ComfyUI server.

- `src/` is the library, checked by Verus:
  - `system`: the memory tier of the machine and its label;
  - `catalog`: the models recommended per tier and the full catalog;
  - `text`: characters, trimming, numerals, joining, cutting at line feeds;
  - `stream`: line-delimited JSON replies that arrive in chunks;
  - `prompts`: the memory of earlier conversations and the prompt of each step;
  - `harness`: the steps of a single run and of a harness run, as a state
    machine that hands out the outside work it needs;
  - `images`: choosing the image server, the ComfyUI job, decoding the image;
  - `endpoints`, `cache`, `clock`: addresses, cache file names, the wall clock.
- `app/` is the Tauri shell: it reads the machine, talks HTTP, keeps files and
  emits events, and leaves every decision to the library. It needs `tauri` and
  `tauri-plugin-opener`, which Cargo.toml leaves out: with them the dependency
  graph is larger than the build here allows, and Tauri's window backend needs
  system GTK/WebKit libraries, so app/ is written against them but cannot be
  type-checked in this setting.
- `tests/` runs the library on concrete values.
