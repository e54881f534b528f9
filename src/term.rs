use vstd::prelude::*;
use crate::error::Error;

verus! {

/// The sequence that shows (`yes`) or hides the cursor.
pub open spec fn cursor_code(yes: bool) -> Seq<char> {
    if yes {
        seq!['\x1b', '[', '?', '2', '5', 'h']
    } else {
        seq!['\x1b', '[', '?', '2', '5', 'l']
    }
}

/// The sequence that informs the terminal whether the cursor is to be shown.
pub fn show_cursor(yes: bool) -> (r: &'static str)
    ensures
        r@ == cursor_code(yes),
{
    if yes {
        let s = "\x1b[?25h";
        proof {
            reveal_strlit("\x1b[?25h");
        }
        assert(s@ =~= cursor_code(yes));
        s
    } else {
        let s = "\x1b[?25l";
        proof {
            reveal_strlit("\x1b[?25l");
        }
        assert(s@ =~= cursor_code(yes));
        s
    }
}

/// The byte read, from the outcome of a one-byte read into `buf`: the byte
/// when exactly one was read, `None` when none was, the error unchanged.
pub fn read_u8(got: Result<usize, Error>, buf: [u8; 1]) -> (r: Result<Option<u8>, Error>)
    ensures
        match got {
            Err(e) => r == Err::<Option<u8>, Error>(e),
            Ok(n) => r == Ok::<Option<u8>, Error>(if n == 1 { Some(buf[0]) } else { None }),
        },
{
    match got {
        Err(e) => Err(e),
        Ok(n) => if n == 1 {
            Ok(Some(buf[0]))
        } else {
            Ok(None)
        },
    }
}

/// The message of the error on a byte outside ASCII.
pub open spec fn non_ascii_message() -> Seq<char> {
    seq![
        'D', 'o', 'n', '\'', 't', ' ', 's', 'u', 'p', 'p', 'o', 'r', 't', ' ', 'U', 'T', 'F', '8',
        ' ', 'y', 'e', 't', '.',
    ]
}

/// The character read, from the outcome of a byte read: an ASCII byte is its
/// character; any other byte is an error, as multi-byte input is not decoded.
pub fn read_char(got: Result<Option<u8>, Error>) -> (r: Result<Option<char>, Error>)
    ensures
        match got {
            Err(e) => r == Err::<Option<char>, Error>(e),
            Ok(None) => r == Ok::<Option<char>, Error>(None),
            Ok(Some(b)) => if b < 128 {
                r == Ok::<Option<char>, Error>(Some(b as char))
            } else {
                r is Err && r->Err_0.0@ == non_ascii_message()
            },
        },
{
    match got {
        Err(e) => Err(e),
        Ok(None) => Ok(None),
        Ok(Some(b)) => if b < 128 {
            Ok(Some(b as char))
        } else {
            let m = "Don't support UTF8 yet.";
            proof {
                reveal_strlit("Don't support UTF8 yet.");
            }
            assert(m@ =~= non_ascii_message());
            Err(Error(m.to_string()))
        },
    }
}

/// Output reaches the terminal at each write, so there is nothing to wait for.
pub fn sync() -> (r: Result<(), Error>)
    ensures
        r is Ok,
{
    Ok(())
}

/// A terminal driver configuration, field for field as the driver reports it.
#[derive(Copy, Clone, Debug)]
pub struct TermConfig {
    pub iflag: u32,
    pub oflag: u32,
    pub cflag: u32,
    pub lflag: u32,
    pub line: u8,
    pub cc: [u8; 32],
    pub ispeed: u32,
    pub ospeed: u32,
}

/// `c` with the local-mode bits in `mask` cleared.
pub open spec fn without_bits(c: TermConfig, mask: u32) -> TermConfig {
    TermConfig { lflag: c.lflag & !mask, ..c }
}

/// What the driver is to be told after a toggle: the configuration to apply,
/// if any, and whether the exit hook that restores the saved configuration
/// is to be registered now.
#[derive(Copy, Clone, Debug)]
pub struct RawAction {
    pub apply: Option<TermConfig>,
    pub register_exit: bool,
}

/// The action that changes nothing.
pub open spec fn no_action() -> RawAction {
    RawAction { apply: None, register_exit: false }
}

/// The transition of the raw-mode state machine: from the saved configuration
/// (none before raw mode was first entered), the request, and the driver's
/// current configuration (needed only on the first entry), to the new saved
/// configuration and the action.
pub open spec fn raw_step(saved: Option<TermConfig>, mask: u32, yes: bool, current: Option<
    TermConfig,
>) -> (Option<TermConfig>, RawAction) {
    match saved {
        Some(s) => if yes {
            (saved, RawAction { apply: Some(without_bits(s, mask)), register_exit: false })
        } else {
            (saved, RawAction { apply: Some(s), register_exit: false })
        },
        None => if yes && current is Some {
            (
                current,
                RawAction {
                    apply: Some(without_bits(current->Some_0, mask)),
                    register_exit: true,
                },
            )
        } else {
            (None, no_action())
        },
    }
}

/// The raw-mode controller: the configuration captured when raw mode was
/// first entered, and the local-mode bits that raw mode clears. One value
/// lives for the whole process.
pub struct RawMode {
    saved: Option<TermConfig>,
    mask: u32,
}

impl RawMode {
    /// The configuration to restore; none before raw mode was first entered.
    pub closed spec fn saved(&self) -> Option<TermConfig> {
        self.saved
    }

    /// The local-mode bits that raw mode clears.
    pub closed spec fn mask(&self) -> u32 {
        self.mask
    }

    /// A controller that has never entered raw mode. Raw mode clears the
    /// driver's canonical-input bit `canonical` and echo bit `echo`, whose
    /// values the platform defines.
    pub fn new(canonical: u32, echo: u32) -> (r: Self)
        ensures
            r.saved() is None,
            r.mask() == canonical | echo,
    {
        RawMode { saved: None, mask: canonical | echo }
    }

    /// Whether a toggle to `yes` needs the driver's current configuration:
    /// only when raw mode is entered for the first time.
    pub fn needs_capture(&self, yes: bool) -> (r: bool)
        ensures
            r == (yes && self.saved() is None),
    {
        yes && self.saved.is_none()
    }

    /// Toggles raw mode (`yes`) or back to the saved configuration. On the
    /// first entry `current` is captured as the configuration to restore and
    /// the exit hook is to be registered; without it nothing happens. Leaving
    /// raw mode before it was ever entered does nothing.
    pub fn set_raw_input(&mut self, yes: bool, current: Option<TermConfig>) -> (r: RawAction)
        ensures
            (final(self).saved(), r) == raw_step(old(self).saved(), old(self).mask(), yes, current),
            final(self).mask() == old(self).mask(),
    {
        match self.saved {
            Some(s) => if yes {
                RawAction { apply: Some(TermConfig { lflag: s.lflag & !self.mask, ..s }), register_exit: false }
            } else {
                RawAction { apply: Some(s), register_exit: false }
            },
            None => match current {
                Some(c) => if yes {
                    self.saved = Some(c);
                    RawAction { apply: Some(TermConfig { lflag: c.lflag & !self.mask, ..c }), register_exit: true }
                } else {
                    RawAction { apply: None, register_exit: false }
                },
                None => RawAction { apply: None, register_exit: false },
            },
        }
    }
}

/// Entering raw mode for the first time and then leaving it applies exactly
/// the configuration captured before the first entry.
pub proof fn lemma_on_then_off_restores(mask: u32, current: TermConfig)
    ensures
        ({
            let (saved, _) = raw_step(None, mask, true, Some(current));
            raw_step(saved, mask, false, None).1.apply == Some(current)
        }),
{
}

/// Leaving raw mode before it was ever entered changes no configuration and
/// registers nothing.
pub proof fn lemma_off_before_on_is_inert(mask: u32, current: Option<TermConfig>)
    ensures
        raw_step(None, mask, false, current) == (None::<TermConfig>, no_action()),
{
}

/// The exit hook is registered at most once: once a configuration is saved,
/// no later toggle registers it again, and the saved configuration stays.
pub proof fn lemma_exit_hook_once(s: TermConfig, mask: u32, yes: bool, current: Option<
    TermConfig,
>)
    ensures
        !raw_step(Some(s), mask, yes, current).1.register_exit,
        raw_step(Some(s), mask, yes, current).0 == Some(s),
{
}

} // verus!
