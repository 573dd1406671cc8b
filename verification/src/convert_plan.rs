//! How a decoded frame reaches the packed RGBA the window draws.
//!
//! The colour conversion itself is libswscale's. What is decided here is
//! where it may write: swscale overruns the last row it is handed on some of
//! its converters, writes short of the row on others, and the window's buffer
//! ends exactly at the last row. Which write a format and size needs is
//! measured on its first frame: the picture is converted twice into a buffer
//! with room to spare, filled with a different byte each time, and the
//! buffers are read back. A byte that holds the filling after both runs was
//! left alone.
//!
//! The measuring is `reach` and `unwritten`; the verdict is `verdict` and
//! `split_verdict`; the writes themselves are `splice_tail` and `unpad_rows`.

use vstd::prelude::*;
use crate::text::owned;

verus! {

/// Slack on the end of a padded row, in bytes: the room swscale needs to
/// fill a row it would otherwise leave short.
pub const ROW_SLACK: usize = 64;

/// Room past the last row of a scratch buffer for swscale to overrun into.
pub const SLACK: usize = 4096;

/// The two fillings a probe converts over.
pub const CANARIES: [u8; 2] = [0xAA, 0x55];

/// Where swscale is allowed to write.
#[derive(Debug, Clone, Copy, PartialEq, Eq, Structural)]
pub enum Write {
    /// Straight into the window's buffer: the converter writes nothing past
    /// the picture.
    Direct,
    /// All but the tail rows straight in, the tail through a buffer of its
    /// own and copied in.
    Tail,
    /// The whole picture through a scratch buffer and copied in.
    Scratch,
    /// The whole picture through a scratch buffer with rows wider than the
    /// picture, and copied in a row at a time.
    Padded,
}

/// The sizes a frame's conversion works in, all in bytes but the rows.
#[derive(Debug, Clone, Copy, PartialEq, Eq, Structural)]
pub struct Geometry {
    pub width: u32,
    pub height: u32,
    /// Four bytes a pixel.
    pub row_bytes: usize,
    /// The whole picture.
    pub needed: usize,
    /// The first row of the tail: the last row at which a chroma row begins.
    pub tail_start: u32,
    pub tail_rows: u32,
    pub tail_bytes: usize,
}

/// What `geometry` gives for a frame of this size whose chroma planes hold
/// one row per `1 << chroma_shift` rows of the picture.
pub open spec fn geometry_spec(width: u32, height: u32, chroma_shift: u32) -> Geometry {
    let tail_start = (((height - 1) as u32) >> chroma_shift) << chroma_shift;
    Geometry {
        width,
        height,
        row_bytes: (width * 4) as usize,
        needed: (width * 4 * height) as usize,
        tail_start: tail_start as u32,
        tail_rows: (height - tail_start) as u32,
        tail_bytes: ((height - tail_start) * (width * 4)) as usize,
    }
}

/// Whether the picture's size in bytes fits in memory's own numbers.
pub open spec fn geometry_fits(width: u32, height: u32) -> bool {
    width * 4 * height <= usize::MAX
}

/// The sizes to convert a `width` × `height` frame in; a frame of no size is
/// refused.
pub fn geometry(width: u32, height: u32, chroma_shift: u32) -> (r: Result<Geometry, String>)
    requires
        geometry_fits(width, height),
        chroma_shift < 32,
    ensures
        match r {
            Ok(g) => width != 0 && height != 0 && g == geometry_spec(width, height, chroma_shift),
            Err(m) => (width == 0 || height == 0) && m@ == "Decoded frame has zero size"@,
        },
        r matches Ok(g) ==> {
            &&& g.tail_start < g.height
            &&& 1 <= g.tail_rows <= g.height
            &&& g.tail_start * g.row_bytes + g.tail_bytes == g.needed
            &&& g.needed == g.height * g.row_bytes
        },
{
    if width == 0 || height == 0 {
        return Err(owned("Decoded frame has zero size"));
    }
    assert(width * 4 <= width * 4 * height) by (nonlinear_arith)
        requires height >= 1;
    let row_bytes = width as usize * 4;
    assert(row_bytes * height == height * row_bytes && row_bytes * height == width * 4 * height) by (nonlinear_arith)
        requires row_bytes == width * 4;
    let needed = row_bytes * height as usize;
    let last = height - 1;
    let tail_start = (last >> chroma_shift) << chroma_shift;
    assert(((last >> chroma_shift) << chroma_shift) <= last) by (bit_vector)
        requires chroma_shift < 32;
    let tail_rows = height - tail_start;
    assert(tail_rows * row_bytes <= height * row_bytes) by (nonlinear_arith)
        requires tail_rows <= height, row_bytes >= 0;
    assert((height - tail_start) * (width * 4) == tail_rows * row_bytes) by (nonlinear_arith)
        requires tail_rows == height - tail_start, row_bytes == width * 4;
    assert(tail_start * row_bytes + tail_rows * row_bytes == height * row_bytes) by (nonlinear_arith)
        requires tail_start + tail_rows == height;
    let tail_bytes = tail_rows as usize * row_bytes;
    Ok(Geometry { width, height, row_bytes, needed, tail_start, tail_rows, tail_bytes })
}

/// How far past `from` a conversion wrote into `buf`: one past the last byte
/// at or after `from` that does not hold `canary`, counted from `from`, and
/// nothing when all of them do.
pub open spec fn reach_spec(buf: Seq<u8>, from: int, canary: u8) -> int
    decreases buf.len(),
{
    if buf.len() == 0 || buf.len() <= from {
        0
    } else if buf.last() != canary {
        buf.len() - from
    } else {
        reach_spec(buf.drop_last(), from, canary)
    }
}

/// See `reach_spec`: how many bytes past the picture a run wrote, the
/// picture being the first `needed` bytes of `buf`.
pub fn reach(buf: &[u8], needed: usize, canary: u8) -> (n: usize)
    requires
        needed <= buf@.len(),
    ensures
        n == reach_spec(buf@, needed as int, canary),
        n <= buf@.len() - needed,
{
    let mut i = buf.len();
    assert(buf@.subrange(0, i as int) =~= buf@);
    while i > needed
        invariant
            needed <= i <= buf.len(),
            reach_spec(buf@, needed as int, canary) == reach_spec(buf@.subrange(0, i as int), needed as int, canary),
        decreases i,
    {
        assert(buf@.subrange(0, i as int).drop_last() =~= buf@.subrange(0, i - 1));
        if buf[i - 1] != canary {
            return i - needed;
        }
        i = i - 1;
    }
    0
}

/// The positions in `start .. end` of `buf` that hold `canary`, in order.
pub open spec fn holding(buf: Seq<u8>, start: int, end: int, canary: u8) -> Seq<usize>
    decreases end - start,
{
    if end <= start {
        Seq::empty()
    } else if buf[end - 1] == canary {
        holding(buf, start, end - 1, canary).push((end - 1) as usize)
    } else {
        holding(buf, start, end - 1, canary)
    }
}

/// The positions of `first` at which `buf` still holds `canary`, in order.
pub open spec fn still_holding(first: Seq<usize>, buf: Seq<u8>, canary: u8) -> Seq<usize>
    decreases first.len(),
{
    if first.len() == 0 {
        Seq::empty()
    } else if buf[first.last() as int] == canary {
        still_holding(first.drop_last(), buf, canary).push(first.last())
    } else {
        still_holding(first.drop_last(), buf, canary)
    }
}

/// The positions in `start .. end` holding `canary`, appended to `out`.
fn push_holding(out: &mut Vec<usize>, buf: &[u8], start: usize, end: usize, canary: u8)
    requires
        start <= end <= buf@.len(),
    ensures
        final(out)@ == old(out)@ + holding(buf@, start as int, end as int, canary),
{
    let ghost base = out@;
    let mut at = start;
    assert(holding(buf@, start as int, start as int, canary) =~= Seq::<usize>::empty());
    assert(base + Seq::<usize>::empty() =~= base);
    while at < end
        invariant
            start <= at <= end <= buf@.len(),
            out@ == base + holding(buf@, start as int, at as int, canary),
        decreases end - at,
    {
        if buf[at] == canary {
            out.push(at);
            assert(base + holding(buf@, start as int, at + 1, canary)
                =~= (base + holding(buf@, start as int, at as int, canary)).push(at));
        }
        at = at + 1;
    }
}

/// The bytes of the picture a run left alone: on the first run, every
/// position in the picture that holds the filling; on a later one, those of
/// the earlier runs' positions that hold this run's filling too. A byte the
/// converter wrote can match one filling but not both.
pub fn unwritten(earlier: Option<Vec<usize>>, buf: &[u8], needed: usize, canary: u8) -> (r: Vec<usize>)
    requires
        needed <= buf@.len(),
        earlier matches Some(e) ==> forall|i: int| 0 <= i < e@.len() ==> e@[i] < buf@.len(),
    ensures
        r@ == match earlier {
            None => holding(buf@, 0, needed as int, canary),
            Some(e) => still_holding(e@, buf@, canary),
        },
{
    match earlier {
        None => {
            let mut out: Vec<usize> = Vec::new();
            push_holding(&mut out, buf, 0, needed, canary);
            assert(out@ =~= holding(buf@, 0, needed as int, canary));
            out
        },
        Some(e) => {
            let mut out: Vec<usize> = Vec::new();
            let mut i: usize = 0;
            while i < e.len()
                invariant
                    i <= e@.len(),
                    forall|k: int| 0 <= k < e@.len() ==> e@[k] < buf@.len(),
                    out@ == still_holding(e@.subrange(0, i as int), buf@, canary),
                decreases e.len() - i,
            {
                assert(e@.subrange(0, i + 1).drop_last() =~= e@.subrange(0, i as int));
                let at = e[i];
                if buf[at] == canary {
                    out.push(at);
                }
                i = i + 1;
            }
            assert(e@.subrange(0, e@.len() as int) =~= e@);
            out
        },
    }
}

/// The positions holding `canary` in the picture part of the first `rows`
/// rows of a buffer whose rows are `padded` bytes apart.
pub open spec fn holding_in_rows(buf: Seq<u8>, rows: int, row_bytes: int, padded: int, canary: u8) -> Seq<usize>
    decreases rows,
{
    if rows <= 0 {
        Seq::empty()
    } else {
        holding_in_rows(buf, rows - 1, row_bytes, padded, canary)
            + holding(buf, (rows - 1) * padded, (rows - 1) * padded + row_bytes, canary)
    }
}

proof fn lemma_row_in_bounds(row: int, rows: int, row_bytes: int, padded: int)
    requires
        0 <= row < rows,
        0 <= row_bytes <= padded,
    ensures
        0 <= row * padded,
        row * padded + row_bytes <= rows * padded,
{
    assert(row * padded + row_bytes <= rows * padded) by (nonlinear_arith)
        requires 0 <= row < rows, 0 <= row_bytes <= padded;
    assert(0 <= row * padded) by (nonlinear_arith)
        requires 0 <= row, 0 <= padded;
}

/// `unwritten` for a picture converted at a wider row than itself: only the
/// picture part of each row counts.
pub fn unwritten_in_rows(
    earlier: Option<Vec<usize>>,
    buf: &[u8],
    rows: usize,
    row_bytes: usize,
    padded: usize,
    canary: u8,
) -> (r: Vec<usize>)
    requires
        row_bytes <= padded,
        rows * padded <= buf.len(),
        earlier matches Some(e) ==> forall|i: int| 0 <= i < e@.len() ==> e@[i] < buf@.len(),
    ensures
        r@ == match earlier {
            None => holding_in_rows(buf@, rows as int, row_bytes as int, padded as int, canary),
            Some(e) => still_holding(e@, buf@, canary),
        },
{
    match earlier {
        None => {
            let mut out: Vec<usize> = Vec::new();
            let mut row: usize = 0;
            while row < rows
                invariant
                    row <= rows,
                    row_bytes <= padded,
                    rows * padded <= buf.len(),
                    out@ == holding_in_rows(buf@, row as int, row_bytes as int, padded as int, canary),
                decreases rows - row,
            {
                proof {
                    lemma_row_in_bounds(row as int, rows as int, row_bytes as int, padded as int);
                }
                let start = row * padded;
                push_holding(&mut out, buf, start, start + row_bytes, canary);
                row = row + 1;
            }
            out
        },
        Some(e) => unwritten(Some(e), buf, 0, canary),
    }
}

/// One probe run folded in: the farthest any run reached past the picture,
/// and what every run so far left alone.
pub fn probe_step(past: usize, earlier: Option<Vec<usize>>, buf: &[u8], needed: usize, canary: u8) -> (r: (usize, Vec<usize>))
    requires
        needed <= buf@.len(),
        earlier matches Some(e) ==> forall|i: int| 0 <= i < e@.len() ==> e@[i] < buf@.len(),
    ensures
        r.0 == (if past >= reach_spec(buf@, needed as int, canary) { past as int } else { reach_spec(buf@, needed as int, canary) }),
        r.1@ == match earlier {
            None => holding(buf@, 0, needed as int, canary),
            Some(e) => still_holding(e@, buf@, canary),
        },
{
    let reached = reach(buf, needed, canary);
    let past = if past >= reached { past } else { reached };
    (past, unwritten(earlier, buf, needed, canary))
}

/// The verdict of the two runs, where they settle it: a converter that
/// writes short of the row needs the padded write whatever else it does;
/// one that writes nothing past the picture can write straight in. Anything
/// else overruns, and `split_verdict` decides between the other two.
pub open spec fn verdict_spec(unwritten: Seq<usize>, past: int) -> Option<Write> {
    if unwritten.len() > 0 {
        Some(Write::Padded)
    } else if past == 0 {
        Some(Write::Direct)
    } else {
        None
    }
}

/// See `verdict_spec`.
pub fn verdict(unwritten: &Vec<usize>, past: usize) -> (w: Option<Write>)
    ensures
        w == verdict_spec(unwritten@, past as int),
{
    if unwritten.len() > 0 {
        Some(Write::Padded)
    } else if past == 0 {
        Some(Write::Direct)
    } else {
        None
    }
}

/// For a converter that overruns: the tail can go through a buffer of its
/// own only if converting it on its own draws the same picture as converting
/// the whole in one go.
pub fn split_verdict(split: &[u8], whole: &[u8], needed: usize) -> (w: Write)
    requires
        needed <= whole@.len(),
    ensures
        w == (if split@ == whole@.subrange(0, needed as int) { Write::Tail } else { Write::Scratch }),
{
    if split.len() != needed {
        return Write::Scratch;
    }
    let mut i: usize = 0;
    while i < needed
        invariant
            i <= needed == split@.len(),
            needed <= whole@.len(),
            forall|k: int| 0 <= k < i ==> split@[k] == whole@[k],
        decreases needed - i,
    {
        if split[i] != whole[i] {
            assert(split@[i as int] != whole@.subrange(0, needed as int)[i as int]);
            return Write::Scratch;
        }
        i = i + 1;
    }
    assert(split@ =~= whole@.subrange(0, needed as int));
    Write::Tail
}

/// Put the separately converted tail into the picture: everything above
/// the tail stays as it is, the tail rows come from `tail_buf`.
pub fn splice_tail(picture: &mut Vec<u8>, tail_buf: &[u8], g: &Geometry)
    requires
        old(picture)@.len() == g.needed,
        g.tail_start * g.row_bytes + g.tail_bytes == g.needed,
        g.tail_bytes <= tail_buf@.len(),
    ensures
        final(picture)@ == old(picture)@.subrange(0, g.tail_start * g.row_bytes)
            + tail_buf@.subrange(0, g.tail_bytes as int),
{
    let off = g.tail_start as usize * g.row_bytes;
    let ghost before = picture@;
    let mut k: usize = 0;
    while k < g.tail_bytes
        invariant
            off + g.tail_bytes == g.needed == before.len() == picture@.len(),
            off == g.tail_start * g.row_bytes,
            g.tail_bytes <= tail_buf@.len(),
            k <= g.tail_bytes,
            picture@ == before.subrange(0, off as int) + tail_buf@.subrange(0, k as int)
                + before.subrange(off + k, before.len() as int),
        decreases g.tail_bytes - k,
    {
        picture.set(off + k, tail_buf[k]);
        assert(picture@ =~= before.subrange(0, off as int) + tail_buf@.subrange(0, k + 1)
            + before.subrange(off + k + 1, before.len() as int));
        k = k + 1;
    }
    assert(picture@ =~= before.subrange(0, off as int) + tail_buf@.subrange(0, g.tail_bytes as int));
}

/// The picture held in the first `rows` rows of a buffer whose rows are
/// `padded` bytes apart, each `row_bytes` of picture.
pub open spec fn unpadded(buf: Seq<u8>, rows: int, row_bytes: int, padded: int) -> Seq<u8>
    decreases rows,
{
    if rows <= 0 {
        Seq::empty()
    } else {
        unpadded(buf, rows - 1, row_bytes, padded)
            + buf.subrange((rows - 1) * padded, (rows - 1) * padded + row_bytes)
    }
}

/// With no slack on the row, the padded write copies out exactly what the
/// scratch write does: the first `rows` rows, back to back.
pub proof fn unpadding_without_slack_is_a_copy(buf: Seq<u8>, rows: nat, row_bytes: nat)
    requires
        rows * row_bytes <= buf.len(),
    ensures
        unpadded(buf, rows as int, row_bytes as int, row_bytes as int) == buf.subrange(0, (rows * row_bytes) as int),
    decreases rows,
{
    if rows > 0 {
        let r = (rows - 1) as nat;
        let rb = row_bytes as int;
        let head = (r * row_bytes) as int;
        let all = (rows * row_bytes) as int;
        assert(head + rb == all) by (nonlinear_arith)
            requires r == rows - 1, head == r * row_bytes, all == rows * row_bytes, rb == row_bytes;
        assert(r * row_bytes <= rows * row_bytes) by (nonlinear_arith)
            requires r == rows - 1;
        assert(head == (rows as int - 1) * rb) by (nonlinear_arith)
            requires r == rows - 1, head == r * row_bytes, rb == row_bytes;
        unpadding_without_slack_is_a_copy(buf, r, row_bytes);
        assert(unpadded(buf, rows as int, rb, rb) == unpadded(buf, r as int, rb, rb)
            + buf.subrange(head, head + rb));
        assert(buf.subrange(0, head) + buf.subrange(head, head + rb) =~= buf.subrange(0, all));
    } else {
        assert(rows * row_bytes == 0) by (nonlinear_arith)
            requires rows == 0;
        assert(buf.subrange(0, 0) =~= Seq::<u8>::empty());
    }
}

/// See `unpadded`: the padded write's copy into the window's buffer.
pub fn unpad_rows(buf: &[u8], rows: usize, row_bytes: usize, padded: usize) -> (r: Vec<u8>)
    requires
        row_bytes <= padded,
        rows * padded <= buf.len(),
    ensures
        r@ == unpadded(buf@, rows as int, row_bytes as int, padded as int),
{
    let mut out: Vec<u8> = Vec::new();
    let mut row: usize = 0;
    while row < rows
        invariant
            row <= rows,
            row_bytes <= padded,
            rows * padded <= buf.len(),
            out@ == unpadded(buf@, row as int, row_bytes as int, padded as int),
        decreases rows - row,
    {
        proof {
            lemma_row_in_bounds(row as int, rows as int, row_bytes as int, padded as int);
        }
        let start = row * padded;
        let ghost base = out@;
        let mut k: usize = 0;
        while k < row_bytes
            invariant
                k <= row_bytes,
                start + row_bytes <= buf.len(),
                out@ == base + buf@.subrange(start as int, start + k),
            decreases row_bytes - k,
        {
            out.push(buf[start + k]);
            assert(base + buf@.subrange(start as int, start + k + 1)
                =~= (base + buf@.subrange(start as int, start + k)).push(buf@[start + k]));
            k = k + 1;
        }
        row = row + 1;
    }
    out
}


/// A converter that leaves picture bytes unwritten is never trusted with the
/// direct write: whatever it does past the picture, the verdict is the
/// padded write. One that writes the whole picture and nothing past it
/// writes straight in, and one that writes the whole picture and past it is
/// left to the split verdict.
pub proof fn a_short_write_is_always_padded(unwritten: Seq<usize>, past: int)
    ensures
        unwritten.len() > 0 ==> verdict_spec(unwritten, past) == Some(Write::Padded),
        unwritten.len() == 0 && past == 0 ==> verdict_spec(unwritten, past) == Some(Write::Direct),
        unwritten.len() == 0 && past != 0 ==> verdict_spec(unwritten, past) is None,
{
}

} // verus!
