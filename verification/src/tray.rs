//! The system tray: its menu, what its events mean, and how its icon and
//! tooltip follow the temperature.

use vstd::prelude::*;
use vstd::string::*;
use crate::canvas::png_encoding;
use crate::error::IconError;
use crate::icon::{icon_image, paint, SIZE};
use crate::text::{same_text, tooltip, tooltip_text};

verus! {

/// One line of the tray menu.
#[derive(Debug, Clone, Copy, PartialEq, Eq)]
pub enum MenuEntry {
    /// A line that can be chosen; `id` comes back in the menu event.
    Item { id: &'static str, label: &'static str, enabled: bool },
    /// A dividing rule.
    Separator,
}

/// A mouse button, as the tray host reports it.
#[derive(Debug, Clone, Copy, PartialEq, Eq, Structural)]
pub enum MouseButton {
    Left,
    Right,
    Middle,
}

/// Something that happened to the tray icon itself.
#[derive(Debug, Clone, Copy, PartialEq, Eq, Structural)]
pub enum TrayIconEvent {
    Click { button: MouseButton },
    DoubleClick { button: MouseButton },
    Enter,
    Move,
    Leave,
}

/// What the application does in answer to a tray event.
#[derive(Debug, Clone, Copy, PartialEq, Eq)]
pub enum TrayAction {
    /// Send `event` with `payload` to every listener.
    Emit { event: &'static str, payload: &'static str },
    /// Send `event`, without payload, to the window `window` if it exists.
    EmitToWindow { window: &'static str, event: &'static str },
    /// Show the window `window` and give it the focus, if it exists.
    ShowWindow { window: &'static str },
    /// End the process with `code`.
    Exit { code: i32 },
    /// Not an event the application answers.
    Nothing,
}

/// The identifier under which the tray host keeps the icon.
pub fn tray_id() -> (id: &'static str)
    ensures
        id@ == "main"@,
{
    "main"
}

/// The tooltip the tray starts with.
pub fn initial_tooltip() -> (text: &'static str)
    ensures
        text@ == "Sunshift - Click to open quick controls"@,
{
    "Sunshift - Click to open quick controls"
}

/// The temperature whose icon the tray starts with.
pub open spec fn initial_temperature() -> u16 {
    6500
}

/// The menu, top to bottom: the three presets, a rule, then the window and
/// quit lines.
pub open spec fn menu_entries() -> Seq<MenuEntry> {
    seq![
        MenuEntry::Item { id: "preset_day", label: "Day (6500K)", enabled: true },
        MenuEntry::Item { id: "preset_evening", label: "Evening (4500K)", enabled: true },
        MenuEntry::Item { id: "preset_night", label: "Night (3000K)", enabled: true },
        MenuEntry::Separator,
        MenuEntry::Item { id: "show", label: "Show Window", enabled: true },
        MenuEntry::Item { id: "quit", label: "Quit", enabled: true },
    ]
}

/// Builds the menu of the tray.
pub fn menu() -> (entries: Vec<MenuEntry>)
    ensures
        entries@ == menu_entries(),
{
    let mut entries: Vec<MenuEntry> = Vec::new();
    entries.push(MenuEntry::Item { id: "preset_day", label: "Day (6500K)", enabled: true });
    entries.push(MenuEntry::Item { id: "preset_evening", label: "Evening (4500K)", enabled: true });
    entries.push(MenuEntry::Item { id: "preset_night", label: "Night (3000K)", enabled: true });
    entries.push(MenuEntry::Separator);
    entries.push(MenuEntry::Item { id: "show", label: "Show Window", enabled: true });
    entries.push(MenuEntry::Item { id: "quit", label: "Quit", enabled: true });
    assert(entries@ =~= menu_entries());
    entries
}

/// What choosing the menu line `id` means. A preset is announced to the
/// listeners under its short name; an identifier that is not in the menu
/// means nothing.
pub open spec fn menu_action(id: Seq<char>) -> TrayAction {
    if id == "preset_day"@ {
        TrayAction::Emit { event: "apply_preset", payload: "day" }
    } else if id == "preset_evening"@ {
        TrayAction::Emit { event: "apply_preset", payload: "evening" }
    } else if id == "preset_night"@ {
        TrayAction::Emit { event: "apply_preset", payload: "night" }
    } else if id == "show"@ {
        TrayAction::ShowWindow { window: "main" }
    } else if id == "quit"@ {
        TrayAction::Exit { code: 0 }
    } else {
        TrayAction::Nothing
    }
}

/// Answers the selection of a menu line with the application's action.
pub fn on_menu_event(id: &str) -> (action: TrayAction)
    ensures
        action == menu_action(id@),
{
    if same_text(id, "preset_day") {
        TrayAction::Emit { event: "apply_preset", payload: "day" }
    } else if same_text(id, "preset_evening") {
        TrayAction::Emit { event: "apply_preset", payload: "evening" }
    } else if same_text(id, "preset_night") {
        TrayAction::Emit { event: "apply_preset", payload: "night" }
    } else if same_text(id, "show") {
        TrayAction::ShowWindow { window: "main" }
    } else if same_text(id, "quit") {
        TrayAction::Exit { code: 0 }
    } else {
        TrayAction::Nothing
    }
}

/// What an event on the icon means: a click with the left button toggles
/// the quick controls of the main window, anything else means nothing.
pub open spec fn icon_action(event: TrayIconEvent) -> TrayAction {
    match event {
        TrayIconEvent::Click { button: MouseButton::Left } => TrayAction::EmitToWindow {
            window: "main",
            event: "toggle_quick_control",
        },
        _ => TrayAction::Nothing,
    }
}

/// Answers an event on the tray icon with the application's action.
pub fn on_tray_icon_event(event: TrayIconEvent) -> (action: TrayAction)
    ensures
        action == icon_action(event),
{
    match event {
        TrayIconEvent::Click { button } => match button {
            MouseButton::Left => TrayAction::EmitToWindow {
                window: "main",
                event: "toggle_quick_control",
            },
            _ => TrayAction::Nothing,
        },
        _ => TrayAction::Nothing,
    }
}

/// One request to the tray host while the icon is brought up to date.
#[derive(Debug, Clone, Copy, PartialEq, Eq, Structural)]
pub enum HostStep {
    /// Replace the icon.
    SetIcon,
    /// Replace the tooltip.
    SetTooltip,
}

/// Where an update of the tray stands.
#[derive(Debug, PartialEq, Eq)]
pub enum HostProgress {
    /// The host is to perform this step next.
    Next(HostStep),
    /// Nothing is left to do; the update ended this way.
    Finished(Result<(), IconError>),
}

/// What the update is refused with where the host knows no tray.
pub open spec fn missing_tray_text() -> Seq<char> {
    "Tray icon not found"@
}

/// Whether `start` is how an update starts, given the tray that the host
/// knows under `tray_id`, if it knows one. With a tray, the icon is set
/// first, on that tray. Without one nothing can reach the host, and the
/// update is refused at once, for the caller to act on or to ignore.
pub open spec fn update_starts<T>(tray: Option<T>, start: Result<(HostStep, T), IconError>) -> bool {
    match tray {
        Some(found) => start == Ok::<(HostStep, T), IconError>((HostStep::SetIcon, found)),
        None => start matches Err(IconError::HostRejected(reason)) && reason@
            == missing_tray_text(),
    }
}

/// How an update goes on once the host has answered `step`. The icon comes
/// first and the tooltip second; the first refusal ends the update and is
/// reported with the host's own words.
pub open spec fn update_next(step: HostStep, answer: Result<(), String>) -> HostProgress {
    match answer {
        Err(reason) => HostProgress::Finished(Err(IconError::HostRejected(reason))),
        Ok(()) => match step {
            HostStep::SetIcon => HostProgress::Next(HostStep::SetTooltip),
            HostStep::SetTooltip => HostProgress::Finished(Ok(())),
        },
    }
}

/// Starts an update of the tray: `tray` is what the host knows under
/// `tray_id`.
pub fn begin_update<T>(tray: Option<T>) -> (start: Result<(HostStep, T), IconError>)
    ensures
        update_starts(tray, start),
{
    match tray {
        Some(found) => Ok((HostStep::SetIcon, found)),
        None => Err(IconError::HostRejected(String::from_str("Tray icon not found"))),
    }
}

/// Continues an update of the tray with the host's answer to `step`.
pub fn continue_update(step: HostStep, answer: Result<(), String>) -> (progress: HostProgress)
    ensures
        progress == update_next(step, answer),
{
    match answer {
        Err(reason) => HostProgress::Finished(Err(IconError::HostRejected(reason))),
        Ok(()) => match step {
            HostStep::SetIcon => HostProgress::Next(HostStep::SetTooltip),
            HostStep::SetTooltip => HostProgress::Finished(Ok(())),
        },
    }
}

/// The icon for a temperature as a PNG file, if the encoder produces one.
pub open spec fn icon_png(temperature: u16) -> Option<Seq<u8>> {
    png_encoding(icon_image(temperature), SIZE as nat, SIZE as nat)
}

/// What the encoder's answer is worth: its bytes pass through unchanged,
/// its error becomes `IconError::Encoding`.
pub open spec fn encoded_icon(outcome: Result<Vec<u8>, image::ImageError>) -> Result<
    Vec<u8>,
    IconError,
> {
    match outcome {
        Ok(bytes) => Ok(bytes),
        Err(_) => Err(IconError::Encoding),
    }
}

/// Turns the encoder's answer into the renderer's.
pub fn icon_from_encoding(outcome: Result<Vec<u8>, image::ImageError>) -> (icon: Result<
    Vec<u8>,
    IconError,
>)
    ensures
        icon == encoded_icon(outcome),
{
    match outcome {
        Ok(bytes) => Ok(bytes),
        Err(_) => Err(IconError::Encoding),
    }
}

/// Whether `icon` is what rendering the icon for `temperature` gives: the
/// bytes of the PNG file, or the encoder's refusal.
pub open spec fn renders(temperature: u16, icon: Result<Vec<u8>, IconError>) -> bool {
    match icon {
        Ok(bytes) => icon_png(temperature) == Some(bytes@),
        Err(error) => error == IconError::Encoding && icon_png(temperature) is None,
    }
}

/// Rendering is deterministic: two renderings for one temperature succeed
/// or fail together, and where they succeed they agree byte for byte.
pub proof fn lemma_rendering_is_deterministic(
    temperature: u16,
    first: Result<Vec<u8>, IconError>,
    second: Result<Vec<u8>, IconError>,
)
    requires
        renders(temperature, first),
        renders(temperature, second),
    ensures
        first is Ok <==> second is Ok,
        first is Ok ==> first->Ok_0@ == second->Ok_0@,
        first is Err ==> first == second,
{
}

/// Renders the tray icon for a temperature: the picture `icon_image`,
/// encoded as a PNG file.
pub fn generate_icon(temperature: u16) -> (icon: Result<Vec<u8>, IconError>)
    ensures
        renders(temperature, icon),
{
    let canvas = paint(temperature);
    icon_from_encoding(canvas.encode_png())
}

/// Everything the tray host needs to set the tray up.
#[derive(Debug, PartialEq, Eq)]
pub struct TrayPlan {
    /// The identifier the tray is registered under.
    pub id: &'static str,
    /// The menu, top to bottom.
    pub menu: Vec<MenuEntry>,
    /// The first icon, a PNG file.
    pub icon: Vec<u8>,
    /// The first tooltip.
    pub tooltip: &'static str,
}

/// Plans the tray: the menu of `menu_entries`, the icon of the initial
/// temperature and the initial tooltip, under the identifier `main`.
/// Events of the tray so built are answered by `on_menu_event` and
/// `on_tray_icon_event`.
pub fn create_tray() -> (plan: Result<TrayPlan, IconError>)
    ensures
        match plan {
            Ok(tray) => {
                &&& tray.id@ == "main"@
                &&& tray.menu@ == menu_entries()
                &&& icon_png(initial_temperature()) == Some(tray.icon@)
                &&& tray.tooltip@ == "Sunshift - Click to open quick controls"@
            },
            Err(error) => error == IconError::Encoding && icon_png(initial_temperature())
                is None,
        },
{
    match generate_icon(6500) {
        Ok(icon) => Ok(TrayPlan { id: tray_id(), menu: menu(), icon, tooltip: initial_tooltip() }),
        Err(error) => Err(error),
    }
}

/// What the tray is to show for a temperature.
#[derive(Debug, PartialEq, Eq)]
pub struct TrayUpdate {
    /// The identifier of the tray to bring up to date.
    pub id: &'static str,
    /// The new icon, a PNG file.
    pub icon: Vec<u8>,
    /// The new tooltip.
    pub tooltip: String,
}

/// Prepares the tray for a temperature: its icon, and a tooltip that names
/// the application and the temperature. The host applies both in the order
/// that `begin_update` and `continue_update` give.
pub fn update_tray_icon(temperature: u16) -> (update: Result<TrayUpdate, IconError>)
    ensures
        match update {
            Ok(tray) => {
                &&& tray.id@ == "main"@
                &&& icon_png(temperature) == Some(tray.icon@)
                &&& tray.tooltip@ == tooltip_text(temperature)
            },
            Err(error) => error == IconError::Encoding && icon_png(temperature) is None,
        },
{
    match generate_icon(temperature) {
        Ok(icon) => Ok(TrayUpdate { id: tray_id(), icon, tooltip: tooltip(temperature) }),
        Err(error) => Err(error),
    }
}

} // verus!
