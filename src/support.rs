use vstd::prelude::*;

use crate::config::Config;
use crate::kitty::KittySupport;
use crate::text::{chars_of, contains_str, seq_contains};

verus! {

/// A fact about the terminal that is found out once, by a probe, and then remembered: probing
/// again would only cost a round trip and could leave stray output on the screen.
pub struct SupportCell<T> {
    value: Option<T>,
    probes: u64,
}

/// What one call of `SupportCell::get_or_probe` does to the remembered value and the number
/// of probes made, when a probe would give `outcome`.
pub open spec fn probe_step<T>(state: (Option<T>, nat), outcome: T) -> (Option<T>, nat) {
    match state.0 {
        Some(_) => state,
        None => (Some(outcome), state.1 + 1),
    }
}

/// The state after one call for each of `outcomes`, the values a probe would give at each
/// call.
pub open spec fn after_calls<T>(state: (Option<T>, nat), outcomes: Seq<T>) -> (Option<T>, nat)
    decreases outcomes.len(),
{
    if outcomes.len() == 0 {
        state
    } else {
        probe_step(after_calls(state, outcomes.drop_last()), outcomes.last())
    }
}

/// However many times the value is asked for, starting from an empty cell, exactly one probe
/// is made, and every call after the first answers what that probe found.
pub proof fn lemma_probe_once<T>(outcomes: Seq<T>)
    requires
        outcomes.len() >= 1,
    ensures
        after_calls((None, 0), outcomes) == (Some(outcomes[0]), 1nat),
    decreases outcomes.len(),
{
    let init: (Option<T>, nat) = (None, 0);
    if outcomes.len() > 1 {
        lemma_probe_once(outcomes.drop_last());
        assert(outcomes.drop_last()[0] == outcomes[0]);
    } else {
        assert(outcomes.drop_last() =~= Seq::<T>::empty());
        assert(after_calls(init, outcomes.drop_last()) == init);
    }
}

impl<T: Copy> SupportCell<T> {
    /// The value found, if a probe has been made or a value was given.
    pub closed spec fn value(&self) -> Option<T> {
        self.value
    }

    /// How many probes this cell has made.
    pub closed spec fn probes(&self) -> nat {
        self.probes as nat
    }

    pub closed spec fn wf(&self) -> bool {
        &&& self.probes <= 1
        &&& self.value is None ==> self.probes == 0
    }

    /// A cell that has not probed yet.
    pub fn new() -> (c: SupportCell<T>)
        ensures
            c.wf(),
            c.value() is None,
            c.probes() == 0,
    {
        SupportCell { value: None, probes: 0 }
    }

    /// A cell that already knows `value`, so that it never probes.
    pub fn with_value(value: T) -> (c: SupportCell<T>)
        ensures
            c.wf(),
            c.value() == Some(value),
            c.probes() == 0,
    {
        SupportCell { value: Some(value), probes: 0 }
    }

    /// The value found so far.
    pub fn cached(&self) -> (r: Option<T>)
        ensures
            r == self.value(),
    {
        self.value
    }

    /// How many probes this cell has made.
    pub fn probe_count(&self) -> (r: u64)
        ensures
            r == self.probes(),
    {
        self.probes
    }

    /// The remembered value; the first call without one runs `probe` and remembers what it
    /// found.
    pub fn get_or_probe<F: FnOnce() -> T>(&mut self, probe: F) -> (r: T)
        requires
            old(self).wf(),
            old(self).value() is None ==> probe.requires(()),
        ensures
            final(self).wf(),
            (final(self).value(), final(self).probes()) == probe_step(
                (old(self).value(), old(self).probes()),
                r,
            ),
            old(self).value() matches Some(v) ==> r == v,
            old(self).value() is None ==> probe.ensures((), r),
    {
        match self.value {
            Some(v) => v,
            None => {
                let v = probe();
                self.value = Some(v);
                self.probes = 1;
                v
            },
        }
    }
}

/// The terminal's support for the Kitty graphics protocol, probed on the first call only.
pub fn get_kitty_support<F: FnOnce() -> KittySupport>(
    cell: &mut SupportCell<KittySupport>,
    probe: F,
) -> (r: KittySupport)
    requires
        old(cell).wf(),
        old(cell).value() is None ==> probe.requires(()),
    ensures
        final(cell).wf(),
        (final(cell).value(), final(cell).probes()) == probe_step(
            (old(cell).value(), old(cell).probes()),
            r,
        ),
        old(cell).value() matches Some(v) ==> r == v,
        old(cell).value() is None ==> probe.ensures((), r),
{
    cell.get_or_probe(probe)
}

/// Whether the terminal shows iTerm inline images, probed on the first call only.
pub fn is_iterm_supported<F: FnOnce() -> bool>(cell: &mut SupportCell<bool>, probe: F) -> (r: bool)
    requires
        old(cell).wf(),
        old(cell).value() is None ==> probe.requires(()),
    ensures
        final(cell).wf(),
        (final(cell).value(), final(cell).probes()) == probe_step(
            (old(cell).value(), old(cell).probes()),
            r,
        ),
        old(cell).value() matches Some(v) ==> r == v,
        old(cell).value() is None ==> probe.ensures((), r),
{
    cell.get_or_probe(probe)
}

/// Whether the terminal shows sixels, probed on the first call only.
pub fn is_sixel_supported<F: FnOnce() -> bool>(cell: &mut SupportCell<bool>, probe: F) -> (r: bool)
    requires
        old(cell).wf(),
        old(cell).value() is None ==> probe.requires(()),
    ensures
        final(cell).wf(),
        (final(cell).value(), final(cell).probes()) == probe_step(
            (old(cell).value(), old(cell).probes()),
            r,
        ),
        old(cell).value() matches Some(v) ==> r == v,
        old(cell).value() is None ==> probe.ensures((), r),
{
    cell.get_or_probe(probe)
}

/// The ways an image can be printed.
#[allow(non_camel_case_types)]
#[derive(Clone, Copy, Debug, PartialEq, Eq, Structural)]
pub enum PrinterType {
    Block,
    Kitty,
    iTerm,
    Sixel,
}

/// The printer used: the first of sixel, iTerm and Kitty that is both enabled and supported,
/// in that order, else blocks.
pub open spec fn chosen_printer(
    config: Config,
    sixel: bool,
    iterm: bool,
    kitty: KittySupport,
) -> PrinterType {
    if config.use_sixel && sixel {
        PrinterType::Sixel
    } else if config.use_iterm && iterm {
        PrinterType::iTerm
    } else if config.use_kitty && kitty != KittySupport::Unsupported {
        PrinterType::Kitty
    } else {
        PrinterType::Block
    }
}

/// Chooses the printer from the configuration and what the terminal supports; see
/// `chosen_printer`.
pub fn choose_printer(
    config: &Config,
    sixel_supported: bool,
    iterm_supported: bool,
    kitty_support: KittySupport,
) -> (p: PrinterType)
    ensures
        p == chosen_printer(*config, sixel_supported, iterm_supported, kitty_support),
{
    if config.use_sixel && sixel_supported {
        PrinterType::Sixel
    } else if config.use_iterm && iterm_supported {
        PrinterType::iTerm
    } else if config.use_kitty && kitty_support != KittySupport::Unsupported {
        PrinterType::Kitty
    } else {
        PrinterType::Block
    }
}

/// A protocol whose support is found out by probing the terminal.
#[derive(Clone, Copy, Debug, PartialEq, Eq, Structural)]
pub enum Protocol {
    Sixel,
    Iterm,
    Kitty,
}

/// What the dispatcher needs next: the support of a protocol, or nothing more.
#[derive(Clone, Copy, Debug, PartialEq, Eq, Structural)]
pub enum PrinterStep {
    /// Probe this protocol and ask again with its answer.
    Probe(Protocol),
    /// Print with this printer.
    Use(PrinterType),
}

/// The dispatcher's next step, given what is known so far of each protocol's support
/// (`None` where it has not been probed). Protocols are considered in the order sixel,
/// iTerm, Kitty; a disabled one is skipped, an unknown one is probed, a supported one is
/// used. Without any, blocks are used.
pub open spec fn printer_step(
    config: Config,
    sixel: Option<bool>,
    iterm: Option<bool>,
    kitty: Option<KittySupport>,
) -> PrinterStep {
    if config.use_sixel && sixel is None {
        PrinterStep::Probe(Protocol::Sixel)
    } else if config.use_sixel && sixel == Some(true) {
        PrinterStep::Use(PrinterType::Sixel)
    } else if config.use_iterm && iterm is None {
        PrinterStep::Probe(Protocol::Iterm)
    } else if config.use_iterm && iterm == Some(true) {
        PrinterStep::Use(PrinterType::iTerm)
    } else if config.use_kitty && kitty is None {
        PrinterStep::Probe(Protocol::Kitty)
    } else if config.use_kitty && kitty != Some(KittySupport::Unsupported) {
        PrinterStep::Use(PrinterType::Kitty)
    } else {
        PrinterStep::Use(PrinterType::Block)
    }
}

/// The dispatcher's next step; see `printer_step`. A protocol is only probed when it is
/// enabled, not yet known, and every protocol before it is disabled or unsupported.
pub fn choose_printer_step(
    config: &Config,
    sixel: Option<bool>,
    iterm: Option<bool>,
    kitty: Option<KittySupport>,
) -> (r: PrinterStep)
    ensures
        r == printer_step(*config, sixel, iterm, kitty),
        r == PrinterStep::Probe(Protocol::Sixel) ==> config.use_sixel && sixel is None,
        r == PrinterStep::Probe(Protocol::Iterm) ==> config.use_iterm && iterm is None && (
        !config.use_sixel || sixel == Some(false)),
        r == PrinterStep::Probe(Protocol::Kitty) ==> config.use_kitty && kitty is None && (
        !config.use_sixel || sixel == Some(false)) && (!config.use_iterm || iterm == Some(
            false,
        )),
{
    let sixel_off = match sixel {
        Some(s) => !s,
        None => false,
    };
    let iterm_off = match iterm {
        Some(s) => !s,
        None => false,
    };
    if config.use_sixel && sixel.is_none() {
        PrinterStep::Probe(Protocol::Sixel)
    } else if config.use_sixel && !sixel_off {
        PrinterStep::Use(PrinterType::Sixel)
    } else if config.use_iterm && iterm.is_none() {
        PrinterStep::Probe(Protocol::Iterm)
    } else if config.use_iterm && !iterm_off {
        PrinterStep::Use(PrinterType::iTerm)
    } else if config.use_kitty && kitty.is_none() {
        PrinterStep::Probe(Protocol::Kitty)
    } else if config.use_kitty && kitty != Some(KittySupport::Unsupported) {
        PrinterStep::Use(PrinterType::Kitty)
    } else {
        PrinterStep::Use(PrinterType::Block)
    }
}

/// Once every protocol is known, the step is the choice of `choose_printer`.
pub proof fn lemma_step_agrees_with_choice(
    config: Config,
    sixel: bool,
    iterm: bool,
    kitty: KittySupport,
)
    ensures
        printer_step(config, Some(sixel), Some(iterm), Some(kitty)) == PrinterStep::Use(
            chosen_printer(config, sixel, iterm, kitty),
        ),
{
}

/// Columns assumed when the terminal size cannot be found out.
pub const DEFAULT_TERM_COLUMNS: u16 = 80;

/// Rows assumed when the terminal size cannot be found out.
pub const DEFAULT_TERM_ROWS: u16 = 24;

/// Relies on `crossterm::terminal::size`: the columns and rows of the terminal when the
/// system can tell them, which depends on the terminal attached.
#[verifier::external_body]
fn query_terminal_size() -> (r: Option<(u16, u16)>) {
    crossterm::terminal::size().ok()
}

/// The terminal size found, or 80 × 24 when there is none.
pub fn size_or_default(size: Option<(u16, u16)>) -> (r: (u16, u16))
    ensures
        r == (match size {
            Some(s) => s,
            None => (DEFAULT_TERM_COLUMNS, DEFAULT_TERM_ROWS),
        }),
{
    match size {
        Some(s) => s,
        None => (DEFAULT_TERM_COLUMNS, DEFAULT_TERM_ROWS),
    }
}

/// The terminal's columns and rows, or 80 × 24 when they cannot be found out (output that
/// is not a terminal, for example).
pub fn terminal_size() -> (u16, u16) {
    size_or_default(query_terminal_size())
}

/// Whether a `COLORTERM` value announces 24-bit color.
pub fn colorterm_supports_truecolor(value: &str) -> (r: bool)
    ensures
        r == (seq_contains(value@, "truecolor"@) || seq_contains(value@, "24bit"@)),
{
    let v = chars_of(value);
    contains_str(v.as_slice(), "truecolor") || contains_str(v.as_slice(), "24bit")
}

} // verus!
