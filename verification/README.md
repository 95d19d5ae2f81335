# NovaDream

A game launcher for Linux: one library for Epic Games, GOG, Steam, itch.io
and locally added games, with Windows games started through Wine, Proton or
UMU.

The crate is in two parts.

- `src/` is the `novadream` library, verified with Verus. It holds the
  launcher's decisions, each with a contract: the settings and their
  defaults, the game model, reading the store tools' JSON and Steam's
  manifests, how a game is launched (the directories, set-up commands,
  registry edits and the game's own command line and environment, with the
  Game Defaults merged into each game's own settings), the library's state
  (which games are shown: favourites first, hidden ones left out) and what
  each action does to it, the Play button's states, the process tree the
  Stop button kills, the screen size read from `xrandr`, `wlr-randr` or the
  framebuffer, and what each dialog and panel offers and produces. Public
  `law_*` proof functions state what holds across these functions.
- `app/` is the GTK 4 program around it: windows and dialogs, files,
  processes, the tray icon, the network. It asks the library what to do and
  carries it out.

`tests/` runs the library on concrete inputs.
