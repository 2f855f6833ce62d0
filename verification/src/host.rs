//! What a host program decides between steps: which key of the keyboard is
//! which key of the keypad, when a timer tick is due, and what an input
//! asks for.

use vstd::prelude::*;

verus! {

/// The page of memory that the memory panel shows moves in steps of this
/// many bytes.
pub const PAGE_SIZE: usize = 0x100;

/// The offset of the last page.
pub const LAST_PAGE: usize = 0xF00;

/// The keypad key of a keyboard character. The four rows `1234`, `qwer`,
/// `asdf`, `zxcv` of the keyboard stand for the rows `123C`, `456D`, `789E`,
/// `A0BF` of the keypad.
pub open spec fn keypad_key(c: char) -> Option<u8> {
    match c {
        '1' => Some(0x1u8),
        '2' => Some(0x2u8),
        '3' => Some(0x3u8),
        '4' => Some(0xCu8),
        'q' => Some(0x4u8),
        'w' => Some(0x5u8),
        'e' => Some(0x6u8),
        'r' => Some(0xDu8),
        'a' => Some(0x7u8),
        's' => Some(0x8u8),
        'd' => Some(0x9u8),
        'f' => Some(0xEu8),
        'z' => Some(0xAu8),
        'x' => Some(0x0u8),
        'c' => Some(0xBu8),
        'v' => Some(0xFu8),
        _ => None,
    }
}

/// The keypad key of a keyboard character, if it has one.
pub fn key_for(c: char) -> (key: Option<u8>)
    ensures
        key == keypad_key(c),
        key matches Some(k) ==> k < 16,
{
    match c {
        '1' => Some(0x1),
        '2' => Some(0x2),
        '3' => Some(0x3),
        '4' => Some(0xC),
        'q' => Some(0x4),
        'w' => Some(0x5),
        'e' => Some(0x6),
        'r' => Some(0xD),
        'a' => Some(0x7),
        's' => Some(0x8),
        'd' => Some(0x9),
        'f' => Some(0xE),
        'z' => Some(0xA),
        'x' => Some(0x0),
        'c' => Some(0xB),
        'v' => Some(0xF),
        _ => None,
    }
}

/// What the window reports.
#[derive(Clone, Copy, Debug, PartialEq, Eq, Structural)]
pub enum Input {
    /// The window was closed, or the quit key pressed.
    Quit,
    /// The key that asks for a dump was released.
    Dump,
    /// The key that shows and hides the debug panels was released.
    ToggleDebug,
    /// The key that moves the memory panel one page on was released.
    PageDown,
    /// The key that moves the memory panel one page back was released.
    PageUp,
    /// A key with this character went down.
    KeyDown(char),
    /// A key with this character came up.
    KeyUp(char),
    /// Anything else.
    Other,
}

/// What the host is to do about an input.
#[derive(Clone, Copy, Debug, PartialEq, Eq, Structural)]
pub enum Command {
    /// Leave the main loop.
    Exit,
    /// Print a dump of the machine.
    Dump,
    /// Tell the machine that this keypad key went down (`true`) or came up.
    Key(u8, bool),
    /// Hand the input to the panels.
    Forward,
    /// Nothing.
    Ignore,
}

/// The host's own state, as a mathematical value.
pub struct HostState {
    /// Whether the debug panels show.
    pub show_debug: bool,
    /// The offset of the page that the memory panel shows.
    pub mem_offset: int,
    /// Nanoseconds gone by that no timer tick has accounted for.
    pub pending_ns: int,
}

impl HostState {
    /// The state in which a host starts.
    pub open spec fn initial() -> HostState {
        HostState { show_debug: true, mem_offset: 0, pending_ns: 0 }
    }

    /// The state after `input`.
    pub open spec fn after(self, input: Input) -> HostState {
        match input {
            Input::ToggleDebug => HostState { show_debug: !self.show_debug, ..self },
            Input::PageDown => if self.mem_offset < 0xF00 {
                HostState { mem_offset: self.mem_offset + 0x100, ..self }
            } else {
                self
            },
            Input::PageUp => if self.mem_offset > 0 {
                HostState { mem_offset: self.mem_offset - 0x100, ..self }
            } else {
                self
            },
            _ => self,
        }
    }

    /// What `input` asks for. A key that is no keypad key asks for
    /// nothing.
    pub open spec fn command(input: Input) -> Command {
        match input {
            Input::Quit => Command::Exit,
            Input::Dump => Command::Dump,
            Input::KeyDown(c) => match keypad_key(c) {
                Some(key) => Command::Key(key, true),
                None => Command::Ignore,
            },
            Input::KeyUp(c) => match keypad_key(c) {
                Some(key) => Command::Key(key, false),
                None => Command::Ignore,
            },
            Input::Other => Command::Forward,
            _ => Command::Ignore,
        }
    }

    /// The time not yet accounted for once `elapsed_ns` more nanoseconds
    /// have gone by: the sum, or the largest value there is if the sum is
    /// above it.
    pub open spec fn gathered(self, elapsed_ns: int) -> int {
        if self.pending_ns + elapsed_ns > u64::MAX {
            u64::MAX as int
        } else {
            self.pending_ns + elapsed_ns
        }
    }

    /// Whether a timer tick is due once `elapsed_ns` more nanoseconds have
    /// gone by, where a tick is due every `period_ns`.
    pub open spec fn tick_due(self, elapsed_ns: int, period_ns: int) -> bool {
        self.gathered(elapsed_ns) >= period_ns
    }

    /// The state after `elapsed_ns` more nanoseconds: a tick that is due
    /// takes its period out of the time not yet accounted for. At most one
    /// tick is due at a time.
    pub open spec fn elapsed(self, elapsed_ns: int, period_ns: int) -> HostState {
        HostState {
            pending_ns: if self.tick_due(elapsed_ns, period_ns) {
                self.gathered(elapsed_ns) - period_ns
            } else {
                self.gathered(elapsed_ns)
            },
            ..self
        }
    }
}

/// The host's own state: which panels show, and the time that the timers
/// are owed.
pub struct Host {
    show_debug: bool,
    mem_offset: usize,
    pending_ns: u64,
}

impl View for Host {
    type V = HostState;

    closed spec fn view(&self) -> HostState {
        HostState {
            show_debug: self.show_debug,
            mem_offset: self.mem_offset as int,
            pending_ns: self.pending_ns as int,
        }
    }
}

impl Host {
    /// The memory panel shows a whole page, and none beyond the last.
    #[verifier::type_invariant]
    spec fn inv(&self) -> bool {
        self.mem_offset <= 0xF00 && self.mem_offset % 0x100 == 0
    }

    pub fn new() -> (host: Self)
        ensures
            host@ == HostState::initial(),
    {
        Host { show_debug: true, mem_offset: 0, pending_ns: 0 }
    }

    /// Whether the debug panels show.
    pub fn show_debug(&self) -> (show: bool)
        ensures
            show == self@.show_debug,
    {
        self.show_debug
    }

    /// The offset of the page that the memory panel shows. The page lies
    /// inside memory.
    pub fn mem_offset(&self) -> (offset: usize)
        ensures
            offset == self@.mem_offset,
            offset % 0x100 == 0,
            offset + 0x100 <= 4096,
    {
        proof {
            use_type_invariant(self);
        }
        self.mem_offset
    }

    /// Takes note of `input` and says what the host is to do about it.
    pub fn handle(&mut self, input: Input) -> (command: Command)
        ensures
            final(self)@ == old(self)@.after(input),
            command == HostState::command(input),
    {
        proof {
            use_type_invariant(&*self);
        }
        match input {
            Input::Quit => Command::Exit,
            Input::Dump => Command::Dump,
            Input::ToggleDebug => {
                self.show_debug = !self.show_debug;
                Command::Ignore
            },
            Input::PageDown => {
                if self.mem_offset < LAST_PAGE {
                    self.mem_offset += PAGE_SIZE;
                }
                Command::Ignore
            },
            Input::PageUp => {
                if self.mem_offset > 0 {
                    self.mem_offset -= PAGE_SIZE;
                }
                Command::Ignore
            },
            Input::KeyDown(c) => match key_for(c) {
                Some(key) => Command::Key(key, true),
                None => Command::Ignore,
            },
            Input::KeyUp(c) => match key_for(c) {
                Some(key) => Command::Key(key, false),
                None => Command::Ignore,
            },
            Input::Other => Command::Forward,
        }
    }

    /// Takes note that `elapsed_ns` nanoseconds have gone by and says
    /// whether a timer tick, due every `period_ns`, is due now.
    pub fn elapse(&mut self, elapsed_ns: u64, period_ns: u64) -> (tick: bool)
        ensures
            final(self)@ == old(self)@.elapsed(elapsed_ns as int, period_ns as int),
            tick == old(self)@.tick_due(elapsed_ns as int, period_ns as int),
    {
        proof {
            use_type_invariant(&*self);
        }
        let total = self.pending_ns.saturating_add(elapsed_ns);
        if total >= period_ns {
            self.pending_ns = total - period_ns;
            true
        } else {
            self.pending_ns = total;
            false
        }
    }
}

} // verus!
