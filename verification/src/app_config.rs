use crate::config::{HotkeyConfig, InputConfig};
use vstd::prelude::*;

verus! {

/// How fullscreen is entered.
#[derive(Debug, Clone, Copy, PartialEq, Eq, Structural)]
pub enum FullscreenMode {
    Exclusive,
    Borderless,
}

impl Default for FullscreenMode {
    fn default() -> (r: Self)
        ensures
            r == FullscreenMode::Borderless,
    {
        Self::Borderless
    }
}

/// The settings of the graphical front end.
#[derive(Debug, Clone, PartialEq, Eq)]
pub struct AppConfig {
    pub vsync_enabled: bool,
    pub launch_in_fullscreen: bool,
    pub fullscreen_mode: FullscreenMode,
    pub force_integer_scaling: bool,
    pub audio_enabled: bool,
    pub audio_sync_enabled: bool,
    pub audio_60hz_hack_enabled: bool,
    pub window_width: u32,
    pub window_height: u32,
    pub rom_search_dir: Option<String>,
    pub input: InputConfig,
    pub hotkeys: HotkeyConfig,
}

impl Default for AppConfig {
    /// The settings an empty configuration file gives: VSync, integer scaling and audio (with
    /// audio sync and the 60 Hz hack) on, windowed at 4x scale (640x576), borderless
    /// fullscreen, no ROM directory and the default key bindings.
    fn default() -> (r: Self)
        ensures
            r.vsync_enabled,
            !r.launch_in_fullscreen,
            r.fullscreen_mode == FullscreenMode::Borderless,
            r.force_integer_scaling,
            r.audio_enabled,
            r.audio_sync_enabled,
            r.audio_60hz_hack_enabled,
            r.window_width == 640,
            r.window_height == 576,
            r.rom_search_dir is None,
            r.input.up@ == "Up"@,
            r.input.select@ == "Right Shift"@,
    {
        Self {
            vsync_enabled: true,
            launch_in_fullscreen: false,
            fullscreen_mode: FullscreenMode::default(),
            force_integer_scaling: true,
            audio_enabled: true,
            audio_sync_enabled: true,
            audio_60hz_hack_enabled: true,
            window_width: 4 * 160,
            window_height: 4 * 144,
            rom_search_dir: None,
            input: InputConfig::default(),
            hotkeys: HotkeyConfig::default(),
        }
    }
}

/// A setting of the front end that a key press (or, for the buttons, a controller input) can
/// be bound to: the eight joypad buttons and the hotkeys.
#[derive(Debug, Clone, Copy, PartialEq, Eq, Structural)]
pub enum ConfigurableInput {
    Up,
    Down,
    Left,
    Right,
    A,
    B,
    Start,
    Select,
    HotkeyExit,
    HotkeyToggleFullscreen,
    HotkeySaveState,
    HotkeyLoadState,
}

impl ConfigurableInput {
    /// The label the settings window shows for the setting.
    pub open spec fn spec_label(self) -> Seq<char> {
        match self {
            ConfigurableInput::Up => "Up"@,
            ConfigurableInput::Down => "Down"@,
            ConfigurableInput::Left => "Left"@,
            ConfigurableInput::Right => "Right"@,
            ConfigurableInput::A => "A"@,
            ConfigurableInput::B => "B"@,
            ConfigurableInput::Start => "Start"@,
            ConfigurableInput::Select => "Select"@,
            ConfigurableInput::HotkeyExit => "Exit"@,
            ConfigurableInput::HotkeyToggleFullscreen => "Toggle Fullscreen"@,
            ConfigurableInput::HotkeySaveState => "Save State"@,
            ConfigurableInput::HotkeyLoadState => "Load State"@,
        }
    }

    /// The label the settings window shows for the setting.
    pub fn to_str(self) -> (r: &'static str)
        ensures
            r@ == self.spec_label(),
    {
        match self {
            Self::Up => "Up",
            Self::Down => "Down",
            Self::Left => "Left",
            Self::Right => "Right",
            Self::A => "A",
            Self::B => "B",
            Self::Start => "Start",
            Self::Select => "Select",
            Self::HotkeyExit => "Exit",
            Self::HotkeyToggleFullscreen => "Toggle Fullscreen",
            Self::HotkeySaveState => "Save State",
            Self::HotkeyLoadState => "Load State",
        }
    }
}

/// The settings with the key named `key_name` bound to `button`; a hotkey binding is always set.
pub open spec fn with_key_binding(config: AppConfig, button: ConfigurableInput, key_name: String) -> AppConfig {
    match button {
        ConfigurableInput::Up => AppConfig { input: InputConfig { up: key_name, ..config.input }, ..config },
        ConfigurableInput::Down => AppConfig { input: InputConfig { down: key_name, ..config.input }, ..config },
        ConfigurableInput::Left => AppConfig { input: InputConfig { left: key_name, ..config.input }, ..config },
        ConfigurableInput::Right => AppConfig { input: InputConfig { right: key_name, ..config.input }, ..config },
        ConfigurableInput::A => AppConfig { input: InputConfig { a: key_name, ..config.input }, ..config },
        ConfigurableInput::B => AppConfig { input: InputConfig { b: key_name, ..config.input }, ..config },
        ConfigurableInput::Start => AppConfig { input: InputConfig { start: key_name, ..config.input }, ..config },
        ConfigurableInput::Select => AppConfig { input: InputConfig { select: key_name, ..config.input }, ..config },
        ConfigurableInput::HotkeyExit => AppConfig { hotkeys: HotkeyConfig { exit: Some(key_name), ..config.hotkeys }, ..config },
        ConfigurableInput::HotkeyToggleFullscreen => AppConfig {
            hotkeys: HotkeyConfig { toggle_fullscreen: Some(key_name), ..config.hotkeys },
            ..config
        },
        ConfigurableInput::HotkeySaveState => AppConfig { hotkeys: HotkeyConfig { save_state: Some(key_name), ..config.hotkeys }, ..config },
        ConfigurableInput::HotkeyLoadState => AppConfig { hotkeys: HotkeyConfig { load_state: Some(key_name), ..config.hotkeys }, ..config },
    }
}

/// Bind the key named `key_name` (as the keyboard library names it) to a setting, the way the
/// settings window does once a key has been pressed: the setting's field takes the name and
/// every other setting stays as it was.
pub fn bind_key(config: &mut AppConfig, button: ConfigurableInput, key_name: String)
    ensures
        *final(config) == with_key_binding(*old(config), button, key_name),
{
    match button {
        ConfigurableInput::Up => config.input.up = key_name,
        ConfigurableInput::Down => config.input.down = key_name,
        ConfigurableInput::Left => config.input.left = key_name,
        ConfigurableInput::Right => config.input.right = key_name,
        ConfigurableInput::A => config.input.a = key_name,
        ConfigurableInput::B => config.input.b = key_name,
        ConfigurableInput::Start => config.input.start = key_name,
        ConfigurableInput::Select => config.input.select = key_name,
        ConfigurableInput::HotkeyExit => config.hotkeys.exit = Some(key_name),
        ConfigurableInput::HotkeyToggleFullscreen => config.hotkeys.toggle_fullscreen = Some(key_name),
        ConfigurableInput::HotkeySaveState => config.hotkeys.save_state = Some(key_name),
        ConfigurableInput::HotkeyLoadState => config.hotkeys.load_state = Some(key_name),
    }
}

} // verus!
