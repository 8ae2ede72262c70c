use vstd::prelude::*;
use vstd::string::StringExecFns;

use crate::depth::{DepthUpdate, PriceLevel};
use crate::digits::{dec_str, u64_to_dec};

verus! {

/// The report line for the ask level at zero-based rank `rank`:
/// `<rank>. ask: <price>, size: <size>`.
pub open spec fn render_line(rank: nat, price: Seq<char>, size: Seq<char>) -> Seq<char> {
    dec_str(rank) + ". ask: "@ + price + ", size: "@ + size
}

/// Render one ask line.
fn render_ask_line(rank: u64, level: &PriceLevel) -> (s: String)
    ensures
        s@ == render_line(rank as nat, level@.price, level@.size),
{
    let mut s = u64_to_dec(rank);
    s.append(". ask: ");
    s.append(level.price.as_str());
    s.append(", size: ");
    s.append(level.size.as_str());
    proof {
        assert(s@ =~= render_line(rank as nat, level@.price, level@.size));
    }
    s
}

/// Render the ask side of one depth update: exactly one line per ask level,
/// ranked `0..n-1`, in the exact order the asks arrived, with the price and
/// size strings unchanged.  An empty ask side renders zero lines.
pub fn render_asks(update: &DepthUpdate) -> (lines: Vec<String>)
    ensures
        lines@.len() == update@.asks.len(),
        forall|i: int|
            0 <= i < lines@.len() ==> lines@[i]@ == render_line(
                i as nat,
                update@.asks[i].price,
                update@.asks[i].size,
            ),
{
    let n = update.asks.len();
    let mut lines: Vec<String> = Vec::new();
    let mut i: usize = 0;
    while i < n
        invariant
            0 <= i <= n,
            n == update.asks@.len(),
            lines@.len() == i,
            forall|j: int|
                0 <= j < i ==> lines@[j]@ == render_line(
                    j as nat,
                    update.asks@[j]@.price,
                    update.asks@[j]@.size,
                ),
        decreases n - i,
    {
        let line = render_ask_line(i as u64, &update.asks[i]);
        lines.push(line);
        i = i + 1;
    }
    lines
}

/// Law: any decimal string accepted as price or size reappears unchanged,
/// character for character, in the rendered line: the price directly after
/// the rank's `. ask: ` prefix, the size as the line's tail.
pub proof fn lemma_price_size_round_trip(rank: nat, price: Seq<char>, size: Seq<char>)
    ensures
        ({
            let line = render_line(rank, price, size);
            let p0 = dec_str(rank).len() as int + 7;
            &&& line.subrange(p0 as int, p0 + price.len()) == price
            &&& line.subrange(line.len() - size.len(), line.len() as int) == size
        }),
{
    reveal_strlit(". ask: ");
    reveal_strlit(", size: ");
    let line = render_line(rank, price, size);
    let p0 = dec_str(rank).len() as int + 7;
    assert(line.subrange(p0 as int, p0 + price.len()) =~= price);
    assert(line.subrange(line.len() - size.len(), line.len() as int) =~= size);
}

} // verus!
