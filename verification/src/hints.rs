//! Short key labels for link hints: the keys a user types to follow a link.
use vstd::prelude::*;
use crate::text::from_chars;

verus! {

/// Easily distinguishable characters (no `i`, `l`, `o`, which look like digits).
pub open spec fn hint_chars() -> Seq<char> {
    seq!['a', 'b', 'c', 'd', 'e', 'f', 'g', 'h', 'j', 'k', 'm', 'n', 'p', 'q', 'r', 's', 't', 'u', 'v', 'w', 'x', 'y', 'z']
}

/// The `i`-th label: the single characters first, then every pair of characters in order.
pub open spec fn hint_label(i: int) -> Seq<char> {
    if i < 23 {
        seq![hint_chars()[i]]
    } else {
        seq![hint_chars()[(i - 23) / 23], hint_chars()[(i - 23) % 23]]
    }
}

/// How many labels `count` asks for are made: all of them, up to the 23 single characters
/// and 529 pairs there are.
pub open spec fn hint_count(count: nat) -> nat {
    if count <= 23 {
        count
    } else if count - 23 <= 529 {
        count
    } else {
        23 + 529
    }
}

/// The labels for `count` links (`hint_label` of `0 .. hint_count(count)`).
pub fn generate_key_combinations(count: usize) -> (r: Vec<String>)
    ensures
        r@.len() == hint_count(count as nat),
        forall|i: int| 0 <= i < r@.len() ==> #[trigger] r@[i]@ == hint_label(i),
{
    let chars: Vec<char> = vec!['a', 'b', 'c', 'd', 'e', 'f', 'g', 'h', 'j', 'k', 'm', 'n', 'p', 'q', 'r', 's', 't', 'u', 'v', 'w', 'x', 'y', 'z'];
    assert(chars@ =~= hint_chars());
    let n = chars.len();
    let mut keys: Vec<String> = Vec::new();
    let singles = if count < n { count } else { n };
    let mut i: usize = 0;
    while i < singles
        invariant
            chars@ == hint_chars(),
            n == 23,
            singles <= n,
            i <= singles,
            keys@.len() == i,
            forall|k: int| 0 <= k < keys@.len() ==> #[trigger] keys@[k]@ == hint_label(k),
        decreases singles - i,
    {
        let one = vec![chars[i]];
        keys.push(from_chars(one.as_slice()));
        assert(one@ =~= hint_label(i as int));
        i = i + 1;
    }
    if count > n {
        let remaining = count - n;
        let mut added: usize = 0;
        let mut c1: usize = 0;
        while c1 < n && added < remaining
            invariant
                chars@ == hint_chars(),
                n == 23,
                remaining == count - 23,
                c1 <= n,
                added == c1 * 23 || (added < c1 * 23 && added == remaining),
                added <= remaining,
                keys@.len() == 23 + added,
                forall|k: int| 0 <= k < keys@.len() ==> #[trigger] keys@[k]@ == hint_label(k),
            decreases n - c1,
        {
            let mut c2: usize = 0;
            while c2 < n && added < remaining
                invariant
                    chars@ == hint_chars(),
                    n == 23,
                    remaining == count - 23,
                    c1 < n,
                    c2 <= n,
                    added == c1 * 23 + c2,
                    added <= remaining,
                    keys@.len() == 23 + added,
                    forall|k: int| 0 <= k < keys@.len() ==> #[trigger] keys@[k]@ == hint_label(k),
                decreases n - c2,
            {
                let two = vec![chars[c1], chars[c2]];
                assert((added as int) / 23 == c1 && (added as int) % 23 == c2) by (nonlinear_arith)
                    requires
                        added == c1 * 23 + c2,
                        c2 < 23,
                ;
                assert(two@ =~= hint_label(23 + added));
                keys.push(from_chars(two.as_slice()));
                added = added + 1;
                c2 = c2 + 1;
            }
            c1 = c1 + 1;
        }
        assert(added == remaining || added == 529) by (nonlinear_arith)
            requires
                added == c1 * 23 || (added < c1 * 23 && added == remaining),
                !(c1 < 23 && added < remaining),
                c1 <= 23,
                added <= remaining,
        ;
    }
    keys
}

/// The hint characters are in increasing order, so no two are the same.
proof fn lemma_hint_chars_increasing(i: int, j: int)
    requires
        0 <= i < j < 23,
    ensures
        (hint_chars()[i] as u32) < (hint_chars()[j] as u32),
    decreases j - i,
{
    let c = hint_chars();
    assert(c[0] == 'a' && c[1] == 'b' && c[2] == 'c' && c[3] == 'd' && c[4] == 'e' && c[5] == 'f');
    assert(c[6] == 'g' && c[7] == 'h' && c[8] == 'j' && c[9] == 'k' && c[10] == 'm' && c[11] == 'n');
    assert(c[12] == 'p' && c[13] == 'q' && c[14] == 'r' && c[15] == 's' && c[16] == 't');
    assert(c[17] == 'u' && c[18] == 'v' && c[19] == 'w' && c[20] == 'x' && c[21] == 'y' && c[22] == 'z');
    if j > i + 1 {
        lemma_hint_chars_increasing(i, j - 1);
        lemma_hint_chars_increasing(j - 1, j);
    }
}

/// No two links get the same label.
pub proof fn lemma_hint_labels_distinct(i: int, j: int)
    requires
        0 <= i < j < 23 + 529,
    ensures
        hint_label(i) != hint_label(j),
{
    if j < 23 {
        lemma_hint_chars_increasing(i, j);
        assert(hint_label(i)[0] != hint_label(j)[0]);
    } else if i < 23 {
        assert(hint_label(i).len() != hint_label(j).len());
    } else {
        let (a, b) = ((i - 23) / 23, (i - 23) % 23);
        let (c, d) = ((j - 23) / 23, (j - 23) % 23);
        assert(0 <= a < 23 && 0 <= b < 23 && 0 <= c < 23 && 0 <= d < 23);
        if a != c {
            if a < c {
                lemma_hint_chars_increasing(a, c);
            } else {
                lemma_hint_chars_increasing(c, a);
            }
            assert(hint_label(i)[0] != hint_label(j)[0]);
        } else {
            assert(b != d);
            if b < d {
                lemma_hint_chars_increasing(b, d);
            } else {
                lemma_hint_chars_increasing(d, b);
            }
            assert(hint_label(i)[1] != hint_label(j)[1]);
        }
    }
}

} // verus!
