//! The I/O device: text buffers, a game pad, and a text screen.

use vstd::prelude::*;

verus! {

/// The rows of the text screen.
pub const SCREEN_ROWS: usize = 25;

/// The columns of the text screen.
pub const SCREEN_COLUMNS: usize = 80;

/// Which buttons of the game pad are held down.
#[derive(Debug, Clone, Copy)]
pub struct ButtonState {
    pub up: bool,
    pub down: bool,
    pub left: bool,
    pub right: bool,
    pub circle: bool,
    pub triangle: bool,
    pub square: bool,
    pub cross: bool,
}

impl ButtonState {
    /// Whether no button is held down.
    pub open spec fn released(self) -> bool {
        !self.up && !self.down && !self.left && !self.right && !self.circle && !self.triangle
            && !self.square && !self.cross
    }

    /// A game pad with no button held down.
    pub fn new() -> (b: Self)
        ensures
            b.released(),
    {
        Self {
            up: false,
            down: false,
            left: false,
            right: false,
            circle: false,
            triangle: false,
            square: false,
            cross: false,
        }
    }
}

/// The I/O device of the computer.
#[derive(Debug)]
pub struct IoDevice {
    /// Text written by the program.
    pub output_buffer: String,
    /// Text waiting to be read by the program.
    pub input_buffer: String,
    /// The game pad.
    pub button_state: ButtonState,
    /// The text screen, row by row.
    pub text_matrix: Vec<Vec<u8>>,
    /// Whether an input interrupt is waiting.
    pub input_interrupt_pending: bool,
    /// Whether an output interrupt is waiting.
    pub output_interrupt_pending: bool,
}

/// Whether a screen is `rows` rows of `columns` blanks.
pub open spec fn blank_screen(m: Seq<Vec<u8>>, rows: nat, columns: nat) -> bool {
    &&& m.len() == rows
    &&& forall|i: int| 0 <= i < rows ==> #[trigger] m[i]@ == Seq::new(columns, |j: int| 0x20u8)
}

impl IoDevice {
    /// A device with empty buffers, no button held, a blank 25 by 80
    /// screen, and no interrupt waiting.
    pub fn new() -> (d: Self)
        ensures
            d.output_buffer@ == Seq::<char>::empty(),
            d.input_buffer@ == Seq::<char>::empty(),
            d.button_state.released(),
            blank_screen(d.text_matrix@, SCREEN_ROWS as nat, SCREEN_COLUMNS as nat),
            !d.input_interrupt_pending,
            !d.output_interrupt_pending,
    {
        let mut text_matrix: Vec<Vec<u8>> = Vec::new();
        let mut i: usize = 0;
        while i < SCREEN_ROWS
            invariant
                i <= SCREEN_ROWS,
                blank_screen(text_matrix@, i as nat, SCREEN_COLUMNS as nat),
            decreases SCREEN_ROWS - i,
        {
            let row = vec![0x20u8; SCREEN_COLUMNS];
            assert(row@ =~= Seq::new(SCREEN_COLUMNS as nat, |j: int| 0x20u8));
            text_matrix.push(row);
            i = i + 1;
        }
        Self {
            output_buffer: String::new(),
            input_buffer: String::new(),
            button_state: ButtonState::new(),
            text_matrix,
            input_interrupt_pending: false,
            output_interrupt_pending: false,
        }
    }
}

} // verus!
