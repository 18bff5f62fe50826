//! Displays images in a terminal.
//!
//! Images are drawn with the Kitty or iTerm graphics protocols, as sixels, or with colored
//! half blocks where no graphics protocol is available. Everything here computes bytes and
//! decisions; reading the terminal and writing to it is left to the caller.

pub mod block;
pub mod config;
pub mod error;
pub mod escape;
pub mod geometry;
pub mod iterm;
pub mod keys;
pub mod kitty;
pub mod masks;
pub mod raster;
pub mod sixel;
pub mod support;
pub mod text;

pub use block::{
    print_to_writecolor, write_colored_character, write_custom_colored_character, BlockPrinter,
    Color, ColorSpec,
};
pub use config::Config;
pub use error::{ViuError, ViuResult};
pub use escape::adjust_offset;
pub use geometry::{find_best_fit, fit_dimensions};
pub use iterm::{
    check_iterm_support, has_iterm_support_capabilities, has_iterm_support_reportcellsize,
    is_iterm_environment, iTermPrinter, iterm_probe_next, ItermProbe,
};
pub use keys::{Key, ReplyCollector, ReplyEnd, TestKeys};
pub use kitty::{
    check_kitty_support, has_local_support, has_remote_support, kitty_probe_next, print_newline,
    wait_for_dsr, KittyPrinter, KittyProbe, KittySupport,
};
pub use masks::{get_all_masks, get_mask_for_char, CharMasker, Mask, Masker};
pub use raster::{resize, Image};
pub use sixel::{check_device_attrs, IcySixelPrinter, SixelPrinter};
pub use support::{
    choose_printer, choose_printer_step, colorterm_supports_truecolor, get_kitty_support, is_iterm_supported,
    is_sixel_supported, terminal_size, PrinterStep, PrinterType, Protocol, SupportCell,
};
