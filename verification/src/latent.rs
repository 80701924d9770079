//! The shape rule for the latent observed at each denoising step.
//!
//! A latent must be a 2-D `[seq_len, dim]` grid (batch = 1, the MMDiT token
//! stream); any other shape is refused with a message that shows the shape
//! that came.
use vstd::prelude::*;

verus! {

/// A latent whose shape is not `[seq_len, dim]`.
#[derive(Debug, Clone, PartialEq, Eq)]
pub struct LatentShapeError {
    /// The shape that was observed, one entry per axis.
    pub dims: Vec<usize>,
}

/// The decimal digit `d` (below 10) as a character.
pub open spec fn digit_char(d: nat) -> char {
    if d == 0 { '0' }
    else if d == 1 { '1' }
    else if d == 2 { '2' }
    else if d == 3 { '3' }
    else if d == 4 { '4' }
    else if d == 5 { '5' }
    else if d == 6 { '6' }
    else if d == 7 { '7' }
    else if d == 8 { '8' }
    else { '9' }
}

/// The decimal numeral of `n`, without leading zeros.
pub open spec fn decimal(n: nat) -> Seq<char>
    decreases n,
{
    if n < 10 {
        seq![digit_char(n)]
    } else {
        decimal(n / 10) + seq![digit_char(n % 10)]
    }
}

/// The entries of `dims` as decimal numerals separated by `", "`.
pub open spec fn joined_dims(dims: Seq<usize>) -> Seq<char>
    decreases dims.len(),
{
    if dims.len() == 0 {
        Seq::empty()
    } else if dims.len() == 1 {
        decimal(dims[0] as nat)
    } else {
        joined_dims(dims.drop_last()) + ", "@ + decimal(dims.last() as nat)
    }
}

/// `dims` written as a bracketed list, as in `[2, 16, 8]`.
pub open spec fn dims_text(dims: Seq<usize>) -> Seq<char> {
    "["@ + joined_dims(dims) + "]"@
}

impl LatentShapeError {
    /// The message that names the expected shape and the one that came.
    pub open spec fn message_text(self) -> Seq<char> {
        "expected a 2-D [seq_len, dim] latent tensor, got shape "@ + dims_text(self.dims@)
    }

    /// The message: `"expected a 2-D [seq_len, dim] latent tensor, got shape [..]"`.
    pub fn message(&self) -> (msg: String)
        ensures
            msg@ == self.message_text(),
    {
        let mut msg = String::from_str("expected a 2-D [seq_len, dim] latent tensor, got shape ");
        append_dims(&mut msg, &self.dims);
        msg
    }
}

/// Splits a latent's shape into `(seq_len, dim)`; refuses every shape that
/// does not have exactly two axes, carrying that shape in the error.
pub fn latent_grid_dims(dims: &[usize]) -> (r: Result<(usize, usize), LatentShapeError>)
    ensures
        r is Ok <==> dims@.len() == 2,
        r matches Ok((seq_len, dim)) ==> seq_len == dims@[0] && dim == dims@[1],
        r matches Err(e) ==> e.dims@ == dims@,
{
    if dims.len() == 2 {
        Ok((dims[0], dims[1]))
    } else {
        let mut v: Vec<usize> = Vec::new();
        let mut i: usize = 0;
        while i < dims.len()
            invariant
                i <= dims@.len(),
                v@ == dims@.take(i as int),
            decreases dims@.len() - i,
        {
            v.push(dims[i]);
            i = i + 1;
            assert(v@ == dims@.take(i as int));
        }
        assert(dims@.take(dims@.len() as int) == dims@);
        Err(LatentShapeError { dims: v })
    }
}

/// The digit `d` as a one-character string.
fn digit_str(d: usize) -> (s: &'static str)
    requires
        d < 10,
    ensures
        s@ == seq![digit_char(d as nat)],
{
    if d == 0 {
        proof { reveal_strlit("0"); }
        "0"
    } else if d == 1 {
        proof { reveal_strlit("1"); }
        "1"
    } else if d == 2 {
        proof { reveal_strlit("2"); }
        "2"
    } else if d == 3 {
        proof { reveal_strlit("3"); }
        "3"
    } else if d == 4 {
        proof { reveal_strlit("4"); }
        "4"
    } else if d == 5 {
        proof { reveal_strlit("5"); }
        "5"
    } else if d == 6 {
        proof { reveal_strlit("6"); }
        "6"
    } else if d == 7 {
        proof { reveal_strlit("7"); }
        "7"
    } else if d == 8 {
        proof { reveal_strlit("8"); }
        "8"
    } else {
        proof { reveal_strlit("9"); }
        "9"
    }
}

/// Appends the decimal numeral of `n` to `out`.
fn append_decimal(out: &mut String, n: usize)
    ensures
        final(out)@ == old(out)@ + decimal(n as nat),
    decreases n,
{
    if n >= 10 {
        append_decimal(out, n / 10);
        out.append(digit_str(n % 10));
    } else {
        out.append(digit_str(n));
    }
}

/// Appends `dims` to `out` as a bracketed, comma-separated list.
fn append_dims(out: &mut String, dims: &Vec<usize>)
    ensures
        final(out)@ == old(out)@ + dims_text(dims@),
{
    let ghost start = out@;
    out.append("[");
    let mut i: usize = 0;
    while i < dims.len()
        invariant
            i <= dims@.len(),
            out@ == start + "["@ + joined_dims(dims@.take(i as int)),
        decreases dims@.len() - i,
    {
        let ghost before = out@;
        if i > 0 {
            out.append(", ");
        }
        append_decimal(out, dims[i]);
        proof {
            let t = dims@.take(i + 1);
            assert(t.drop_last() == dims@.take(i as int));
            assert(t.last() == dims@[i as int]);
            if i == 0 {
                assert(joined_dims(dims@.take(0)) == Seq::<char>::empty());
                assert(joined_dims(t) == decimal(dims@[0] as nat));
            }
        }
        i = i + 1;
    }
    assert(dims@.take(dims@.len() as int) == dims@);
    out.append("]");
}

} // verus!
