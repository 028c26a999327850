use vstd::prelude::*;

use crate::account::AccountId;
use crate::board::{cell, has_line, row_full};
use crate::session::GameState;
use crate::MIN_STAKE;

verus! {

/// The state after the registration attempts `calls`, in order; each call
/// is (caller, stake, declared marker).
pub open spec fn join_all(g: GameState, calls: Seq<(AccountId, u128, u8)>) -> GameState
    decreases calls.len(),
{
    if calls.len() == 0 {
        g
    } else {
        let c = calls.last();
        join_all(g, calls.drop_last()).after_join(c.0, c.1, c.2)
    }
}

/// The marker that `who` declared in its latest call among `calls`.
pub open spec fn last_declared(calls: Seq<(AccountId, u128, u8)>, who: AccountId) -> Option<u8>
    decreases calls.len(),
{
    if calls.len() == 0 {
        None
    } else if calls.last().0 == who {
        Some(calls.last().2)
    } else {
        last_declared(calls.drop_last(), who)
    }
}

/// During registration, registrations that each carry at least the minimum
/// stake all succeed: the list of players grows by one per call, in call
/// order, and each caller's marker is the one it declared last.
pub proof fn lemma_registrations_accumulate(g: GameState, calls: Seq<(AccountId, u128, u8)>)
    requires
        g.registering(),
        forall|i: int| 0 <= i < calls.len() ==> (#[trigger] calls[i]).1 >= MIN_STAKE,
    ensures
        join_all(g, calls).registering(),
        join_all(g, calls).players.len() == g.players.len() + calls.len(),
        join_all(g, calls).players == g.players + calls.map_values(|c: (AccountId, u128, u8)| c.0),
        join_all(g, calls).board == g.board,
        forall|who: AccountId|
            #![trigger last_declared(calls, who)]
            match last_declared(calls, who) {
                Some(n) => join_all(g, calls).markers.contains_key(who) && join_all(g, calls).markers[who] == n,
                None => join_all(g, calls).markers.contains_key(who) == g.markers.contains_key(who)
                    && join_all(g, calls).markers[who] == g.markers[who],
            },
    decreases calls.len(),
{
    if calls.len() > 0 {
        let rest = calls.drop_last();
        assert forall|i: int| 0 <= i < rest.len() implies (#[trigger] rest[i]).1 >= MIN_STAKE by {
            assert(rest[i] == calls[i]);
        }
        lemma_registrations_accumulate(g, rest);
        let c = calls.last();
        assert(calls[calls.len() - 1].1 >= MIN_STAKE);
        assert(calls.map_values(|c: (AccountId, u128, u8)| c.0) =~= rest.map_values(
            |c: (AccountId, u128, u8)| c.0,
        ).push(c.0));
        assert forall|who: AccountId|
            #![trigger last_declared(calls, who)]
            match last_declared(calls, who) {
                Some(n) => join_all(g, calls).markers.contains_key(who) && join_all(g, calls).markers[who] == n,
                None => join_all(g, calls).markers.contains_key(who) == g.markers.contains_key(who)
                    && join_all(g, calls).markers[who] == g.markers[who],
            } by {
            // Brings in the induction hypothesis for this account.
            assert(last_declared(rest, who) == last_declared(rest, who));
        }
    }
}

/// Activation depends on the number of registrations alone, whatever the
/// phase, and doing it twice is the same as doing it once.
pub proof fn lemma_start_repeatable(g: GameState)
    ensures
        g.start_outcome() is Ok <==> g.players.len() >= 2,
        g.after_start().start_outcome() == g.start_outcome(),
        g.after_start().after_start() == g.after_start(),
{
}

/// An accepted move puts the mover's marker in the target cell, whatever the
/// cell held, and leaves every other cell as it was.
pub proof fn lemma_move_overwrites(g: GameState, who: AccountId, x: u32, y: u32)
    requires
        g.valid(),
        g.active(),
        g.markers.contains_key(who),
        x < 5,
        y < 5,
    ensures
        g.move_outcome(who, x, y) == Ok::<bool, crate::session::Fault>(true),
        cell(g.after_move(who, x, y).board, x as int, y as int) == g.markers[who],
        forall|r: int, c: int|
            0 <= r < 5 && 0 <= c < 5 && (r != x || c != y) ==> #[trigger] cell(g.after_move(who, x, y).board, r, c)
                == cell(g.board, r, c),
{
    assert forall|r: int, c: int|
        0 <= r < 5 && 0 <= c < 5 && (r != x || c != y) implies #[trigger] cell(g.after_move(who, x, y).board, r, c)
            == cell(g.board, r, c) by {
        assert(r * 5 + c != x * 5 + y);
    }
}

/// When the marker of `players[i]` fills a row and no account registered
/// before it owns a line, `players[i]` is the winner that is reported.
pub proof fn lemma_first_full_row_wins(g: GameState, i: int, r: int)
    requires
        g.valid(),
        0 <= i < g.players.len(),
        0 <= r < 5,
        row_full(g.board, r, g.markers[g.players[i]]),
        forall|j: int| 0 <= j < i ==> !#[trigger] g.wins(g.players[j]),
    ensures
        g.first_winner_at(i),
{
    assert(g.markers.contains_key(g.players[i]));
}

/// A marker that holds the main diagonal and no other cell owns no line: a
/// full diagonal is not a win.
pub proof fn lemma_diagonal_is_no_line(board: Seq<u8>, m: u8)
    requires
        board.len() == 25,
        forall|r: int, c: int| 0 <= r < 5 && 0 <= c < 5 ==> (#[trigger] cell(board, r, c) == m <==> r == c),
    ensures
        !has_line(board, m),
{
    assert forall|r: int| 0 <= r < 5 implies !#[trigger] row_full(board, r, m) by {
        let c = if r == 0 { 1int } else { 0int };
        assert(cell(board, r, c) != m);
    }
    assert forall|c: int| 0 <= c < 5 implies !#[trigger] crate::board::col_full(board, c, m) by {
        let r = if c == 0 { 1int } else { 0int };
        assert(cell(board, r, c) != m);
    }
}

/// The latched winner is paid the whole balance, so a second claim on what
/// is left pays nothing more; a claim by anyone else pays nothing.
pub proof fn lemma_reward_paid_once(g: GameState, who: AccountId, balance: u128)
    ensures
        who == g.winner ==> g.reward(who, balance) == Some(balance) && g.reward(who, (balance - balance) as u128)
            == Some(0u128),
        who != g.winner ==> g.reward(who, balance) is None,
{
}

} // verus!
