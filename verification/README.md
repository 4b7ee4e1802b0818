# RALF Gesture Studio

Gesture training and recognition for dance: skeleton frames arrive over OSC,
gestures are trained from a few recorded examples, and a recognised gesture
sends a hit message over OSC.

## Layout

- `src/` is the verified library (Verus). It holds the logic that works on
  integers, flags, indices, texts and sequences, each function with a
  contract:
  - `engine::training` — the training session state machine (countdown,
    capture, rest, completion) and its audio cues;
  - `engine::recognizer` — the per-gesture recognition state machine
    (Idle → Building → Peak → Recovery), the frame buffer and matching
    cadence, the distance history and the hit log;
  - `engine::buffer` — timestamped frame buffers and fixed-length recordings;
  - `engine::augmentation` — augmentation settings, deterministic seeds of the
    augmented copies, and the left/right joint exchange of a mirror;
  - `engine::preprocess` — preprocessing settings and joint layouts;
  - `engine::diagnostics` — which diagnostic events are logged and flushed;
  - `engine::sequence` — downsampling;
  - `model::vocabulary` — gestures, identifiers, examples and file versions;
  - `osc` — the state of the OSC receiver and sender, message addresses and
    frame layouts;
  - `gui` — what the interface is shown and the rules its commands follow.
- `tests/` exercises the library.
- `app/` is the program around it: DTW and the other floating-point
  computations, file storage, the OSC network tasks, audio, and the main loop.
