//! The frame as text, two pixel rows to a line of half-block characters.

use super::Gpu;
use crate::text::push_char;
use vstd::prelude::*;

verus! {

/// Both pixels on.
pub const FULL: char = '\u{2588}';

/// The upper pixel on.
pub const UPPER_HALF: char = '\u{2580}';

/// The lower pixel on.
pub const LOWER_HALF: char = '\u{2584}';

/// Both pixels off.
pub const EMPTY: char = ' ';

/// Character cells in the dump: sixteen lines of sixty-four.
pub const DUMP_CELLS: usize = 1024;

/// The character that shows a pixel and the pixel below it.
pub open spec fn half_block(top: bool, bottom: bool) -> char {
    if top && bottom {
        '\u{2588}'
    } else if top {
        '\u{2580}'
    } else if bottom {
        '\u{2584}'
    } else {
        ' '
    }
}

/// The character of cell `cell`. Cells are counted along the lines; cell
/// `cell` shows column `cell % 64` of pixel rows `2 * (cell / 64)` and
/// `2 * (cell / 64) + 1`.
pub open spec fn cell_char(screen: Seq<bool>, cell: int) -> char {
    half_block(
        screen[128 * (cell / 64) + cell % 64],
        screen[128 * (cell / 64) + 64 + cell % 64],
    )
}

/// The text of the first `n` cells, each line of sixty-four closed by a
/// line feed.
pub open spec fn cells_text(screen: Seq<bool>, n: int) -> Seq<char>
    decreases n,
{
    if n <= 0 {
        Seq::empty()
    } else if (n - 1) % 64 == 63 {
        cells_text(screen, n - 1).push(cell_char(screen, n - 1)).push('\n')
    } else {
        cells_text(screen, n - 1).push(cell_char(screen, n - 1))
    }
}

/// The text of the whole frame: sixteen lines.
pub open spec fn frame_text(screen: Seq<bool>) -> Seq<char> {
    cells_text(screen, 1024)
}

impl Gpu {
    /// The frame as sixteen lines of sixty-four half-block characters.
    pub fn dump(&self) -> (text: String)
        ensures
            text@ == frame_text(self@),
    {
        let screen = self.screen();
        let mut text = String::new();
        let mut cell: usize = 0;
        proof {
            self.lemma_size();
        }
        while cell < DUMP_CELLS
            invariant
                cell <= 1024,
                screen@.len() == 2048,
                text@ == cells_text(screen@, cell as int),
            decreases 1024 - cell,
        {
            let col = cell % 64;
            let top_idx = 128 * (cell / 64) + col;
            let top_val = screen[top_idx];
            let bot_val = screen[top_idx + 64];
            let chr = if top_val && bot_val {
                FULL
            } else if top_val {
                UPPER_HALF
            } else if bot_val {
                LOWER_HALF
            } else {
                EMPTY
            };
            push_char(&mut text, chr);
            if col == 63 {
                push_char(&mut text, '\n');
            }
            cell += 1;
        }
        text
    }
}

} // verus!
