# primemh

The verified core of the PrimeMH map overlay for Diablo II: Resurrected.

`src/` is a Verus library; every function in it carries a contract that Verus proves:

- `levels` — which level maps are drawn together;
- `buffs` — buff bar icons and their frame colours for the player's states;
- `buff_timers` — the timer lines of the player's states (names, `hh:mm:ss`);
- `hover_info` — the hovered monster's level, hit points and resistances, and the walk of the unit table;
- `hotkeys` — hotkey text (`!^+#` + key name), parsing, printing and key-down tests;
- `keybindings` — the game's key binding tables;
- `localisation` — the game's string tables and NPC name lookup;
- `text` — decimal and hexadecimal printing, text widths;
- `ui` — the per-frame decisions of the overlay (toggles, log level, window style and size, map drawing).

`app/` reads the keyboard and the string table files and drives the library.
`tests/` runs the library on concrete values.
