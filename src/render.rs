use vstd::prelude::*;

use crate::board::{CELLS, SIDE};

verus! {

/// The character of the decimal digit `d`.
pub open spec fn digit_char(d: int) -> char {
    if d == 0 {
        '0'
    } else if d == 1 {
        '1'
    } else if d == 2 {
        '2'
    } else if d == 3 {
        '3'
    } else if d == 4 {
        '4'
    } else if d == 5 {
        '5'
    } else if d == 6 {
        '6'
    } else if d == 7 {
        '7'
    } else if d == 8 {
        '8'
    } else {
        '9'
    }
}

/// The decimal notation of `n`, without leading zeros.
pub open spec fn decimal(n: nat) -> Seq<char>
    decreases n,
{
    if n < 10 {
        seq![digit_char(n as int)]
    } else {
        decimal(n / 10).push(digit_char((n % 10) as int))
    }
}

/// The text of the first `k` cells: each cell's marker in decimal, and a
/// space after each complete row.
pub open spec fn rendered_cells(board: Seq<u8>, k: nat) -> Seq<char>
    decreases k,
{
    if k == 0 {
        Seq::empty()
    } else {
        let sep: Seq<char> = if k % 5 == 0 {
            seq![' ']
        } else {
            Seq::empty()
        };
        rendered_cells(board, (k - 1) as nat) + decimal(board[k - 1] as nat) + sep
    }
}

/// The text of a whole board: "Map: " and then its cells, row by row.
pub open spec fn rendered(board: Seq<u8>) -> Seq<char> {
    seq!['M', 'a', 'p', ':', ' '] + rendered_cells(board, 25)
}

fn digit(d: u8) -> (c: char)
    requires
        d < 10,
    ensures
        c == digit_char(d as int),
{
    if d == 0 {
        '0'
    } else if d == 1 {
        '1'
    } else if d == 2 {
        '2'
    } else if d == 3 {
        '3'
    } else if d == 4 {
        '4'
    } else if d == 5 {
        '5'
    } else if d == 6 {
        '6'
    } else if d == 7 {
        '7'
    } else if d == 8 {
        '8'
    } else {
        '9'
    }
}

fn push_decimal(out: &mut Vec<char>, n: u8)
    ensures
        final(out)@ == old(out)@ + decimal(n as nat),
{
    let ghost start = out@;
    if n >= 100 {
        out.push(digit(n / 100));
    }
    if n >= 10 {
        out.push(digit((n / 10) % 10));
    }
    out.push(digit(n % 10));
    proof {
        reveal_with_fuel(decimal, 3);
        if n >= 100 {
            assert(decimal((n / 10) as nat) == seq![digit_char((n / 100) as int)].push(
                digit_char(((n / 10) % 10) as int),
            ));
        }
        assert(out@ =~= start + decimal(n as nat));
    }
}

/// Relies on std's `FromIterator<char>` for `String`: the string holds the
/// characters in order.
#[verifier::external_body]
fn collect_chars(chars: &Vec<char>) -> (s: String)
    ensures
        s@ == chars@,
{
    chars.iter().collect()
}

/// Renders a board of 25 cells as text.
pub fn render(board: &Vec<u8>) -> (s: String)
    requires
        board@.len() == CELLS,
    ensures
        s@ == rendered(board@),
{
    let mut out: Vec<char> = Vec::new();
    out.push('M');
    out.push('a');
    out.push('p');
    out.push(':');
    out.push(' ');
    let ghost head = out@;
    assert(head =~= seq!['M', 'a', 'p', ':', ' ']);
    let mut k: usize = 0;
    assert(out@ =~= head + rendered_cells(board@, 0));
    while k < CELLS
        invariant
            k <= CELLS,
            board@.len() == CELLS,
            head == seq!['M', 'a', 'p', ':', ' '],
            out@ == head + rendered_cells(board@, k as nat),
        decreases CELLS - k,
    {
        let ghost before = out@;
        push_decimal(&mut out, board[k]);
        if (k + 1) % SIDE == 0 {
            out.push(' ');
        }
        proof {
            let kk = (k + 1) as nat;
            assert(rendered_cells(board@, kk) == rendered_cells(board@, k as nat) + decimal(board@[k as int] as nat) + (if kk % 5 == 0 {
                seq![' ']
            } else {
                Seq::<char>::empty()
            }));
            assert(out@ =~= head + rendered_cells(board@, kk));
        }
        k += 1;
    }
    collect_chars(&out)
}

} // verus!
