# zen_rpc

SoundCloud status for Discord: a player that a browser page feeds over a local HTTP
server (the default program) and an older window tracker that reads SoundCloud tab titles
from the browser's windows (`--tracker`). Both show the playing track as a Discord rich
presence, keep a listening history and draw a card with the top artists.

`src/` is the verified library (Verus): everything the programs decide or compute.

- `text`, `decimal`, `clock`: character sequences, decimal numbers, `MM:SS` times.
- `title`: reading track, artist, times and cover out of a tab title; display names.
- `web`: request routing, query strings, percent-encoding (through `urlencoding`), the
  request urls, search answers and command bodies (read through `serde_json`), client ids
  in scripts, cover urls.
- `player`, `presence`: what the player takes from a page report, and the presence loop
  as a step function from state and observation to next state and actions.
- `tracker`, `watch`: browser matching (through `str::to_lowercase`), window choice, the
  tracker's configuration and its loop step.
- `cover`: decoding a downloaded cover to RGBA pixels (through `image`).
- `history`, `settings`, `palette`, `i18n`, `card`, `views`, `lyrics`: listening history
  and artist ranking, configuration updates, themes and their names, texts, report cards,
  small display texts, synced lyrics lines, lyrics answers and settings bodies (read through
  `serde_json`) and the choice among lyrics answers.

`app/` is the program around it: windows, the HTTP server, Discord, audio capture, the
GUI, files, and the parts that compute with floats.
