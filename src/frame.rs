//! Frames handed to an update: which inputs are read, and their shape.
use vstd::prelude::*;
use vstd::arithmetic::div_mod::{lemma_add_mod_noop, lemma_fundamental_div_mod_converse, lemma_small_mod};
use crate::kind::PluginType;

verus! {

/// Why the frames of an update were refused.
#[derive(Debug, Clone, Copy, PartialEq, Eq, Structural)]
pub enum FrameError {
    /// The output frame does not hold one pixel for each of width * height.
    OutputLength,
    /// An input that the kind reads is absent; the input's position, from 0.
    MissingInput(usize),
    /// An input that the kind reads has the wrong length; its position.
    InputLength(usize),
}

/// Whether an update of `kind` reads the input frame at position `k`: exactly
/// the first `input_count` of them.
pub open spec fn spec_reads_input(kind: PluginType, k: int) -> bool {
    0 <= k < kind.spec_input_count()
}

pub fn reads_input(kind: PluginType, k: usize) -> (r: bool)
    ensures
        r == spec_reads_input(kind, k as int),
{
    k < kind.input_count()
}

/// The input at position `k` as an update of `kind` is handed it: the
/// frame where the kind reads that position, `None` where it does not.
pub open spec fn pick_input<'a>(kind: PluginType, k: int, f: Option<&'a [u32]>) -> Option<&'a [u32]> {
    if spec_reads_input(kind, k) {
        f
    } else {
        None
    }
}

/// The input frames that an update of `kind` is handed: each one that the
/// kind reads, and `None` in place of each one that it does not.
pub fn kind_inputs<'a>(
    kind: PluginType,
    in1: Option<&'a [u32]>,
    in2: Option<&'a [u32]>,
    in3: Option<&'a [u32]>,
) -> (r: (Option<&'a [u32]>, Option<&'a [u32]>, Option<&'a [u32]>))
    ensures
        r.0 == pick_input(kind, 0, in1),
        r.1 == pick_input(kind, 1, in2),
        r.2 == pick_input(kind, 2, in3),
{
    let a = if reads_input(kind, 0) {
        in1
    } else {
        None
    };
    let b = if reads_input(kind, 1) {
        in2
    } else {
        None
    };
    let c = if reads_input(kind, 2) {
        in3
    } else {
        None
    };
    (a, b, c)
}

/// The length of a frame, or `None` where it is absent.
pub open spec fn frame_len(f: Option<&[u32]>) -> Option<nat> {
    match f {
        Some(s) => Some(s@.len()),
        None => None,
    }
}

/// Whether the input at position `k`, of length `len` if present, is fit to
/// be read as a frame of `n` pixels.
pub open spec fn spec_input_status(len: Option<nat>, n: nat, k: usize) -> Result<(), FrameError> {
    match len {
        None => Err(FrameError::MissingInput(k)),
        Some(l) => if l == n {
            Ok(())
        } else {
            Err(FrameError::InputLength(k))
        },
    }
}

/// The verdict on the frames of an update of `kind` on frames of `n` pixels:
/// the output first, then each input that the kind reads, in order. Inputs
/// that the kind does not read play no part.
pub open spec fn spec_check_frames(
    kind: PluginType,
    n: nat,
    inputs: Seq<Option<nat>>,
    out_len: nat,
) -> Result<(), FrameError> {
    if out_len != n {
        Err(FrameError::OutputLength)
    } else if spec_reads_input(kind, 0) && spec_input_status(inputs[0], n, 0) is Err {
        spec_input_status(inputs[0], n, 0)
    } else if spec_reads_input(kind, 1) && spec_input_status(inputs[1], n, 1) is Err {
        spec_input_status(inputs[1], n, 1)
    } else if spec_reads_input(kind, 2) && spec_input_status(inputs[2], n, 2) is Err {
        spec_input_status(inputs[2], n, 2)
    } else {
        Ok(())
    }
}

fn input_status(f: Option<&[u32]>, n: usize, k: usize) -> (r: Result<(), FrameError>)
    ensures
        r == spec_input_status(frame_len(f), n as nat, k),
{
    match f {
        None => Err(FrameError::MissingInput(k)),
        Some(s) => if s.len() == n {
            Ok(())
        } else {
            Err(FrameError::InputLength(k))
        },
    }
}

/// Checks the frames of an update of `kind` on frames of `n` pixels.
pub fn check_frames(
    kind: PluginType,
    n: usize,
    in1: Option<&[u32]>,
    in2: Option<&[u32]>,
    in3: Option<&[u32]>,
    out_len: usize,
) -> (r: Result<(), FrameError>)
    ensures
        r == spec_check_frames(
            kind,
            n as nat,
            seq![frame_len(in1), frame_len(in2), frame_len(in3)],
            out_len as nat,
        ),
{
    let ghost inputs = seq![frame_len(in1), frame_len(in2), frame_len(in3)];
    assert(inputs[0] == frame_len(in1) && inputs[1] == frame_len(in2) && inputs[2] == frame_len(in3));
    if out_len != n {
        return Err(FrameError::OutputLength);
    }
    if reads_input(kind, 0) {
        let s = input_status(in1, n, 0);
        if s.is_err() {
            return s;
        }
    }
    if reads_input(kind, 1) {
        let s = input_status(in2, n, 1);
        if s.is_err() {
            return s;
        }
    }
    if reads_input(kind, 2) {
        let s = input_status(in3, n, 2);
        if s.is_err() {
            return s;
        }
    }
    Ok(())
}

/// Position, in a `width` by `height` frame, of the pixel that lands at
/// position `i` when the frame is shifted by `xshift` columns and `yshift`
/// rows, wrapping round at the edges.
pub open spec fn spec_shift_source(width: nat, height: nat, xshift: nat, yshift: nat, i: int) -> int {
    ((i / width as int + yshift) % height as int) * width + (i % width as int + xshift) % width as int
}

proof fn lemma_cell_in_frame(width: nat, height: nat, x: int, y: int)
    requires
        0 <= x < width,
        0 <= y < height,
    ensures
        0 <= y * width + x < width * height,
{
    assert(0 <= y * width + x < width * height) by (nonlinear_arith)
        requires
            0 <= x < width,
            0 <= y < height,
    ;
}

/// Fills `outframe` with `inframe` shifted by `xshift` columns and `yshift`
/// rows: the pixel at column x, row y is read from column
/// (x + xshift) mod width, row (y + yshift) mod height.
pub fn shift_wrap(
    width: usize,
    height: usize,
    xshift: usize,
    yshift: usize,
    inframe: &[u32],
    outframe: &mut [u32],
)
    requires
        width > 0,
        height > 0,
        inframe@.len() == width * height,
        old(outframe)@.len() == width * height,
    ensures
        final(outframe)@.len() == width * height,
        forall|x: int, y: int|
            0 <= x < width && 0 <= y < height ==> #[trigger] final(outframe)@[y * width + x]
                == inframe@[((y + yshift) % height as int) * width + (x + xshift) % width as int],
{
    let n = outframe.len();
    let xs = xshift % width;
    let ys = yshift % height;
    let mut i: usize = 0;
    let mut x: usize = 0;
    let mut y: usize = 0;
    while i < n
        invariant
            n == width * height,
            n == outframe@.len(),
            inframe@.len() == n,
            width > 0,
            height > 0,
            xs < width,
            ys < height,
            i <= n,
            x < width,
            i == y * width + x,
            forall|j: int|
                0 <= j < i ==> #[trigger] outframe@[j] == inframe@[spec_shift_source(
                    width as nat,
                    height as nat,
                    xs as nat,
                    ys as nat,
                    j,
                )],
        decreases n - i,
    {
        proof {
            lemma_fundamental_div_mod_converse(i as int, width as int, y as int, x as int);
            assert(y < height) by (nonlinear_arith)
                requires
                    i == y * width + x,
                    i < n,
                    n == width * height,
                    x < width,
            ;
        }
        let sx = if x >= width - xs {
            x - (width - xs)
        } else {
            x + xs
        };
        let sy = if y >= height - ys {
            y - (height - ys)
        } else {
            y + ys
        };
        proof {
            if x >= width - xs {
                lemma_fundamental_div_mod_converse((x + xs) as int, width as int, 1, sx as int);
            } else {
                lemma_small_mod((x + xs) as nat, width as nat);
            }
            if y >= height - ys {
                lemma_fundamental_div_mod_converse((y + ys) as int, height as int, 1, sy as int);
            } else {
                lemma_small_mod((y + ys) as nat, height as nat);
            }
            lemma_cell_in_frame(width as nat, height as nat, sx as int, sy as int);
        }
        outframe[i] = inframe[sy * width + sx];
        i = i + 1;
        if x + 1 == width {
            proof {
                assert(i == (y + 1) * width) by (nonlinear_arith)
                    requires
                        i == y * width + x + 1,
                        x + 1 == width,
                ;
            }
            x = 0;
            y = y + 1;
        } else {
            x = x + 1;
        }
    }
    assert forall|px: int, py: int| 0 <= px < width && 0 <= py < height implies #[trigger] outframe@[py
        * width + px] == inframe@[((py + yshift) % height as int) * width + (px + xshift)
        % width as int] by {
        lemma_cell_in_frame(width as nat, height as nat, px, py);
        lemma_fundamental_div_mod_converse(py * width + px, width as int, py, px);
        lemma_small_mod(px as nat, width as nat);
        lemma_small_mod(py as nat, height as nat);
        lemma_add_mod_noop(px, xshift as int, width as int);
        lemma_add_mod_noop(py, yshift as int, height as int);
    }
}

} // verus!
