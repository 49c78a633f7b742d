//! Where the bubble was last left, and where to put it next.

use vstd::prelude::*;

use crate::text::same_text;
use crate::xdg::{join, path_join};

verus! {

/// A window position in **logical** coordinates, tied to the output it was on.
///
/// Outputs come and go and their resolution or scale can change, so a position
/// is a hint to be validated on restore rather than a promise.
#[derive(Debug, Clone, PartialEq, Eq)]
pub struct Position {
    /// Connector name, e.g. `DP-1`.
    pub output: String,
    pub x: i32,
    pub y: i32,
}

/// The size of an output, in logical pixels.
#[derive(Debug, Clone, Copy, PartialEq, Eq)]
pub struct Screen {
    pub width: i32,
    pub height: i32,
}

/// The distance kept from the edges of the screen.
pub const MARGIN: i32 = 24;

/// The name of the file the position is kept in, under the state directory.
pub const STATE_FILE: &'static str = "window.json";

/// Where the position is kept, under the state directory `state_dir`.
pub fn state_path(state_dir: &str) -> (res: String)
    ensures
        res@ == path_join(state_dir@, STATE_FILE@),
{
    join(state_dir, STATE_FILE)
}

/// The larger of `a` and `b`.
pub open spec fn max(a: int, b: int) -> int {
    if a >= b {
        a
    } else {
        b
    }
}

/// `v` brought into `[lo, hi]`, for `lo <= hi`.
pub open spec fn clamp(v: int, lo: int, hi: int) -> int {
    if v < lo {
        lo
    } else if v > hi {
        hi
    } else {
        v
    }
}

/// `a / 2` rounded toward zero, as integer division does.
pub open spec fn half(a: int) -> int {
    if a >= 0 {
        a / 2
    } else {
        -((-a) / 2)
    }
}

/// The right-most and bottom-most positions that keep a window of `size` a
/// margin away from the edges of `screen`, but never closer to the top left
/// than the margin itself.
pub open spec fn limits(screen: Screen, size: Screen) -> (int, int) {
    (
        max(screen.width - size.width - MARGIN, MARGIN as int),
        max(screen.height - size.height - MARGIN, MARGIN as int),
    )
}

/// Where a window of `size` goes on `screen`, given what was stored.
pub open spec fn placement(stored: Option<Position>, output: Seq<char>, screen: Screen, size: Screen) -> (
    int,
    int,
) {
    let (max_x, max_y) = limits(screen, size);
    if stored is Some && stored->0.output@ == output {
        (clamp(stored->0.x as int, MARGIN as int, max_x), clamp(stored->0.y as int, MARGIN as int, max_y))
    } else {
        (max_x, max(half(screen.height - size.height), MARGIN as int))
    }
}

/// A position stored for another output is ignored altogether: the window
/// goes where it would with nothing stored, at the right edge and vertically
/// centred, and none of the stored coordinates carries over.
pub proof fn another_output_is_ignored(stored: Position, output: Seq<char>, screen: Screen, size: Screen)
    requires
        stored.output@ != output,
    ensures
        placement(Some(stored), output, screen, size) == placement(None, output, screen, size),
        placement(Some(stored), output, screen, size) == (
            limits(screen, size).0,
            max(half(screen.height - size.height), MARGIN as int),
        ),
{
}

/// Places a window of `size` on `screen`, honouring `stored` when it was left
/// on the same output, pulled back into view if it no longer fits.
///
/// Falls back to the right edge, vertically centred: a fixed spot the muscle
/// memory can rely on, and out of the way of most content.
pub fn place(stored: Option<&Position>, output: &str, screen: Screen, size: Screen) -> (res: (i32, i32))
    requires
        i32::MIN <= screen.width - size.width - MARGIN,
        screen.width - size.width <= i32::MAX,
        i32::MIN <= screen.height - size.height - MARGIN,
        screen.height - size.height <= i32::MAX,
    ensures
        (res.0 as int, res.1 as int) == placement(
            match stored {
                Some(p) => Some(*p),
                None => None,
            },
            output@,
            screen,
            size,
        ),
        stored is Some && stored->0.output@ != output@ ==> (res.0 as int, res.1 as int)
            == placement(None, output@, screen, size),
        stored is None || stored->0.output@ != output@ ==> res.0 == limits(screen, size).0,
        MARGIN <= res.0 <= limits(screen, size).0,
        MARGIN <= res.1 <= limits(screen, size).1,
{
    let margin = MARGIN;
    let wide = screen.width - size.width - margin;
    let max_x = if wide > margin {
        wide
    } else {
        margin
    };
    let tall = screen.height - size.height - margin;
    let max_y = if tall > margin {
        tall
    } else {
        margin
    };
    match stored {
        Some(p) if same_text(p.output.as_str(), output) => {
            let x = if p.x < margin {
                margin
            } else if p.x > max_x {
                max_x
            } else {
                p.x
            };
            let y = if p.y < margin {
                margin
            } else if p.y > max_y {
                max_y
            } else {
                p.y
            };
            (x, y)
        },
        _ => {
            let centred = (screen.height - size.height) / 2;
            let y = if centred > margin {
                centred
            } else {
                margin
            };
            proof {
                assert(centred == half(screen.height - size.height));
            }
            (max_x, y)
        },
    }
}

} // verus!
