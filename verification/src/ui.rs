use vstd::prelude::*;
use crate::hotkeys::{HotKey, hotkey_pressed};

verus! {

broadcast use vstd::string::group_string_axioms;

/// One step of a visibility toggle bound to a key: the first frame the key is
/// down flips `visible` and latches; further frames with the key down change
/// nothing; a frame with the key up releases the latch.
/// Returns the new (visible, latched).
pub fn toggle_on_press(visible: bool, latched: bool, pressed: bool) -> (next: (bool, bool))
    ensures
        next == (if pressed {
            if !latched { (!visible, true) } else { (visible, true) }
        } else {
            (visible, false)
        }),
{
    if pressed {
        if !latched {
            (!visible, true)
        } else {
            (visible, latched)
        }
    } else {
        (visible, false)
    }
}

/// Holding a key down flips its toggle once: after a frame with the key down,
/// any number of further frames with it down leave the visibility as it is,
/// and a release followed by a press flips it again.
pub proof fn lemma_toggle_once_per_press(visible: bool, latched: bool)
    ensures
        ({
            let (v1, l1) = if !latched { (!visible, true) } else { (visible, true) };
            let (v2, l2) = if !l1 { (!v1, true) } else { (v1, true) };
            let (v3, l3) = (v2, false);
            let (v4, l4) = if !l3 { (!v3, true) } else { (v3, true) };
            &&& l1 && v2 == v1
            &&& v4 == !v1
        }),
{
}

/// The overlay's panel and map visibility, each with the latch of its hotkey.
#[derive(Debug, Clone, Copy, PartialEq, Eq)]
pub struct UiToggles {
    pub ui_panel_visible: bool,
    pub ui_panel_toggle: bool,
    pub map_overlay_visible: bool,
    pub map_overlay_toggle: bool,
}

fn copy_hotkey(h: &HotKey) -> (c: HotKey)
    ensures
        c@ == h@,
{
    HotKey { alt: h.alt, ctrl: h.ctrl, shift: h.shift, win: h.win, key: h.key.clone() }
}

impl UiToggles {
    /// Applies one frame of keyboard state: the menu hotkey toggles the panel,
    /// the map hotkey toggles the map (each once per press). Returns whether
    /// the exit hotkey is pressed, upon which the program ends.
    pub fn apply_hotkeys(
        &mut self,
        keys: &Vec<String>,
        toggle_menu: &HotKey,
        toggle_map: &HotKey,
        exit: &HotKey,
    ) -> (quit: bool)
        ensures
            (final(self).ui_panel_visible, final(self).ui_panel_toggle) == (if hotkey_pressed(
                toggle_menu@,
                keys@,
            ) {
                if !old(self).ui_panel_toggle {
                    (!old(self).ui_panel_visible, true)
                } else {
                    (old(self).ui_panel_visible, true)
                }
            } else {
                (old(self).ui_panel_visible, false)
            }),
            (final(self).map_overlay_visible, final(self).map_overlay_toggle) == (if hotkey_pressed(
                toggle_map@,
                keys@,
            ) {
                if !old(self).map_overlay_toggle {
                    (!old(self).map_overlay_visible, true)
                } else {
                    (old(self).map_overlay_visible, true)
                }
            } else {
                (old(self).map_overlay_visible, false)
            }),
            quit == hotkey_pressed(exit@, keys@),
    {
        let menu = copy_hotkey(toggle_menu).pressed(keys);
        let (v, t) = toggle_on_press(self.ui_panel_visible, self.ui_panel_toggle, menu);
        self.ui_panel_visible = v;
        self.ui_panel_toggle = t;
        let map = copy_hotkey(toggle_map).pressed(keys);
        let (v, t) = toggle_on_press(self.map_overlay_visible, self.map_overlay_toggle, map);
        self.map_overlay_visible = v;
        self.map_overlay_toggle = t;
        copy_hotkey(exit).pressed(keys)
    }
}

/// The maximum level of log messages that are kept.
#[derive(Debug, Clone, Copy, PartialEq, Eq)]
pub enum LogLevel {
    Off,
    Error,
    Warn,
    Info,
    Debug,
    Trace,
}

/// The log level to switch to this frame, if any: with logging disabled a
/// `Debug` level is turned off; an `Off` level is turned (back) to `Debug`.
pub fn next_log_level(disable_log: bool, current: LogLevel) -> (next: Option<LogLevel>)
    ensures
        next == (if disable_log && current == LogLevel::Debug {
            Some(LogLevel::Off)
        } else if current == LogLevel::Off {
            Some(LogLevel::Debug)
        } else {
            None
        }),
{
    if disable_log && matches!(current, LogLevel::Debug) {
        Some(LogLevel::Off)
    } else if matches!(current, LogLevel::Off) {
        Some(LogLevel::Debug)
    } else {
        None
    }
}

/// How the overlay window takes the mouse.
#[derive(Debug, Clone, Copy, PartialEq, Eq)]
pub enum WindowStyle {
    /// The window takes mouse input (the cursor is over the panel).
    Interactive,
    /// Mouse input passes through the window to the game.
    ClickThrough,
}

/// The window style to set when the cursor's hovering over the panel changes:
/// set only on a change, interactive when the cursor comes over the panel,
/// click-through when it leaves.
pub fn hover_transition(was_hovering: bool, hovering: bool) -> (style: Option<WindowStyle>)
    ensures
        style == (if hovering && !was_hovering {
            Some(WindowStyle::Interactive)
        } else if !hovering && was_hovering {
            Some(WindowStyle::ClickThrough)
        } else {
            None
        }),
{
    if hovering {
        if !was_hovering {
            Some(WindowStyle::Interactive)
        } else {
            None
        }
    } else {
        if was_hovering {
            Some(WindowStyle::ClickThrough)
        } else {
            None
        }
    }
}

/// A window size and position.
#[derive(Debug, Clone, Copy, PartialEq, Eq)]
pub struct WindowGeometry {
    pub width: u32,
    pub height: u32,
    pub x: i32,
    pub y: i32,
}

/// Outside overlay mode, a window still at its initial 10x10 size is given a
/// size of 800x600 at (100, 100); any other size is left alone.
pub fn window_reset(width: u32, height: u32) -> (g: Option<WindowGeometry>)
    ensures
        g == (if width == 10 && height == 10 {
            Some(WindowGeometry { width: 800, height: 600, x: 100, y: 100 })
        } else {
            None
        }),
{
    if width == 10 && height == 10 {
        Some(WindowGeometry { width: 800, height: 600, x: 100, y: 100 })
    } else {
        None
    }
}

/// Whether the map is drawn: the game's automap is open or the map is always
/// shown, unless menus are open and the map is set to hide then.
pub fn should_draw_map(
    automap_visible: bool,
    always_show_map: bool,
    hide_map_menus_open: bool,
    panel_open: bool,
) -> (draw: bool)
    ensures
        draw == ((automap_visible || always_show_map) && !(hide_map_menus_open && panel_open)),
{
    (automap_visible || always_show_map) && !(hide_map_menus_open && panel_open)
}

/// The item log's animation frame counts up and wraps from 20 back to 0.
pub fn next_item_frame(frame: i32) -> (next: i32)
    requires
        frame < i32::MAX,
    ensures
        next == (if frame + 1 > 20 { 0 } else { frame + 1 }),
{
    let next = frame + 1;
    if next > 20 {
        0
    } else {
        next
    }
}

/// The item frame stays within 0..=20 once it is there.
pub proof fn lemma_item_frame_in_range(frame: i32)
    requires
        0 <= frame <= 20,
    ensures
        ({
            let next = if frame + 1 > 20 { 0 } else { frame + 1 };
            0 <= next <= 20
        }),
{
}

/// The label shown in the menus for the last game played, if there was one.
pub fn last_game_label(last_game_name: &str) -> (label: Option<String>)
    ensures
        match label {
            Some(l) => last_game_name@.len() > 0 && l@ == "Last Game: "@ + last_game_name@,
            None => last_game_name@.len() == 0,
        },
{
    if last_game_name.unicode_len() > 0 {
        let mut label = String::from_str("Last Game: ");
        label.append(last_game_name);
        Some(label)
    } else {
        None
    }
}

/// What to do with the game data read in a frame.
#[derive(Debug, Clone, Copy, PartialEq, Eq)]
pub struct GameDataStep {
    /// A new game began: its map data is to be generated.
    pub regenerate_seed_data: bool,
    /// The map seed to remember for the next frame.
    pub last_seed: u32,
    /// No game is running: the item log and the game data are cleared.
    pub clear_game_data: bool,
}

/// The decision on the game data of a frame, given the map seed remembered
/// from before and the map seed of the game read now (none when no game data
/// could be read, as in the menus): a seed other than the remembered one means
/// a new game, whose map data is generated; the seed read is remembered; with
/// no game data, the game data is cleared and the seed kept.
pub fn game_data_step(last_seed: u32, map_seed: Option<u32>) -> (step: GameDataStep)
    ensures
        step == (match map_seed {
            Some(seed) => GameDataStep {
                regenerate_seed_data: seed != last_seed,
                last_seed: seed,
                clear_game_data: false,
            },
            None => GameDataStep {
                regenerate_seed_data: false,
                last_seed: last_seed,
                clear_game_data: true,
            },
        }),
{
    match map_seed {
        Some(seed) => GameDataStep {
            regenerate_seed_data: seed != last_seed,
            last_seed: seed,
            clear_game_data: false,
        },
        None => GameDataStep { regenerate_seed_data: false, last_seed, clear_game_data: true },
    }
}

} // verus!
