use vstd::prelude::*;

verus! {

/// What one print call should do. It is read, never changed, while printing.
#[derive(Clone, Copy, Debug)]
pub struct Config {
    /// Resize the image to the cells it is printed in before drawing it with blocks.
    pub resize: bool,
    /// Leave fully transparent pixels undrawn instead of drawing a checkerboard.
    pub transparent: bool,
    /// Place the image at `x`, `y` from the top left corner of the terminal; otherwise the
    /// offsets are relative to the cursor.
    pub absolute_offset: bool,
    /// Horizontal offset, in cells.
    pub x: u16,
    /// Vertical offset, in cells. It can be negative only when `absolute_offset` is false.
    pub y: i16,
    /// Save the cursor position before printing and restore it afterwards.
    pub restore_cursor: bool,
    /// Width to print the image in, in cells.
    pub width: Option<u32>,
    /// Height to print the image in, in cells.
    pub height: Option<u32>,
    /// Keep the image's aspect ratio even when both `width` and `height` are given.
    pub preserve_aspect_ratio: bool,
    /// Draw blocks in 24-bit color rather than with the 256-color palette.
    pub truecolor: bool,
    /// Use the Kitty graphics protocol when the terminal supports it.
    pub use_kitty: bool,
    /// Use the iTerm inline image protocol when the terminal supports it.
    pub use_iterm: bool,
    /// Use sixels when the terminal supports them.
    pub use_sixel: bool,
    /// Ask Kitty to delete images that overlap the cursor before printing.
    pub kitty_delete: bool,
}

impl Default for Config {
    fn default() -> (r: Self)
        ensures
            r == (Config {
                resize: true,
                transparent: false,
                absolute_offset: true,
                x: 0,
                y: 0,
                restore_cursor: false,
                width: None,
                height: None,
                preserve_aspect_ratio: false,
                truecolor: true,
                use_kitty: true,
                use_iterm: true,
                use_sixel: true,
                kitty_delete: false,
            }),
    {
        Config {
            resize: true,
            transparent: false,
            absolute_offset: true,
            x: 0,
            y: 0,
            restore_cursor: false,
            width: None,
            height: None,
            preserve_aspect_ratio: false,
            truecolor: true,
            use_kitty: true,
            use_iterm: true,
            use_sixel: true,
            kitty_delete: false,
        }
    }
}

} // verus!
