# LunaMate UI

The decisions behind the windows of a desktop pet, written in Verus: the pet window with its
Live2D model, the chat overlay, and the settings pages for models and personas.

Every window is a value. An event moves it to its next state and returns the actions that its
surroundings have to perform, in order; the results of actions come back as further events.
Drawing, files, networks, clocks and threads stay outside. The contracts say for every state
and event what the next state is and which actions are due, and the laws say what holds across
events: outdated results are ignored, a hidden pet lets go of its graphics worker and gets it
back, a deleted persona's identifier is held back until its memory is gone, screenshots need a
permission that still holds.

- `src/desktop_pet/` — the pet window: model generations, the frame loop, the graphics worker,
  visibility, window size, gaze, voice input, shortcuts, outfits, tray and chat input
- `src/agent/` — the chat overlay: questions and images, the reply bubble and its fading,
  configuration, voice and speech, screenshots
- `src/settings/provider/` — the page on which models are set up
- `src/settings/persona/` — the page on which personas, their conversations and their memory
  are managed
- `src/*.rs` — revisions, number texts, paths, identifiers, sets and searches that these share
- `tests/` — scenarios on concrete values
- `app/` — drivers that perform the actions with a host, what the windows draw in the user's
  words, and the arithmetic on screen coordinates
