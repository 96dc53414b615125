use vstd::prelude::*;

verus! {

/// Window background, as a Windows `COLORREF` (`0x00BBGGRR`).
pub const BACKGROUND: u32 = 0x001a1a1a;
/// Window border while counting down.
pub const BORDER_NORMAL: u32 = 0x00444444;
/// Window border while the alarm sounds.
pub const BORDER_ALARM: u32 = 0x004444ff;
/// Reset button face.
pub const BUTTON_NORMAL: u32 = 0x00c86428;
/// Confirm button face, light blink phase.
pub const BUTTON_ALARM_LIGHT: u32 = 0x004444ff;
/// Confirm button face, dark blink phase.
pub const BUTTON_ALARM_DARK: u32 = 0x001e1eb4;
/// Face of the highlight after a confirmation.
pub const BUTTON_FLASH: u32 = 0x007878ff;
/// Text on every button.
pub const BUTTON_TEXT: u32 = 0x00ffffff;
/// Caption text while counting down.
pub const CAPTION_NORMAL_TEXT: u32 = 0x00999999;
/// Time text while counting down.
pub const TIME_NORMAL_TEXT: u32 = 0x00e0e0e0;
/// Caption and time text while the alarm sounds.
pub const ALARM_TEXT: u32 = 0x004444ff;

/// The colour of the window's double border: red while an alarm is active.
pub fn border_color(alarm_active: bool) -> (c: u32)
    ensures
        c == (if alarm_active { BORDER_ALARM } else { BORDER_NORMAL }),
{
    if alarm_active { BORDER_ALARM } else { BORDER_NORMAL }
}

/// The face of the confirm button in a blink phase.
pub fn alarm_button_color(blink_dark: bool) -> (c: u32)
    ensures
        c == (if blink_dark { BUTTON_ALARM_DARK } else { BUTTON_ALARM_LIGHT }),
{
    if blink_dark { BUTTON_ALARM_DARK } else { BUTTON_ALARM_LIGHT }
}

} // verus!
