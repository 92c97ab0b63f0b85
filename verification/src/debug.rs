use vstd::prelude::*;

verus! {

/// Which debug overlays are switched on.
#[derive(Debug, Clone, Copy, PartialEq, Eq, Structural)]
pub struct DebugState {
    pub allow_missing_sprites: bool,
    pub buttons: bool,
    pub cursor_pos: bool,
    pub cursor_tile: bool,
    pub enabled: bool,
    pub invert_text_color: bool,
    pub tiles: bool,
}

impl Default for DebugState {
    /// The starting debug configuration: missing sprites tolerated and the
    /// cursor overlays preselected, with the whole overlay switched off.
    fn default() -> (r: Self)
        ensures
            r == (DebugState {
                allow_missing_sprites: true,
                buttons: false,
                cursor_pos: true,
                cursor_tile: true,
                enabled: false,
                invert_text_color: false,
                tiles: false,
            }),
    {
        DebugState {
            allow_missing_sprites: true,
            buttons: false,
            cursor_pos: true,
            cursor_tile: true,
            enabled: false,
            invert_text_color: false,
            tiles: false,
        }
    }
}

} // verus!
