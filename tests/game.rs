use tictactoe::{AccountId, Error, Fault, TicTacToe, MIN_STAKE};

fn acct(n: u128) -> AccountId {
    AccountId::from_halves(0, n)
}

fn two_player_game(a: AccountId, b: AccountId) -> TicTacToe {
    let mut t = TicTacToe::new();
    assert_eq!(t.join(a, MIN_STAKE, 1), Ok(()));
    assert_eq!(t.join(b, MIN_STAKE, 2), Ok(()));
    assert_eq!(t.start(), Ok(()));
    t
}

#[test]
fn row_win_then_reward_goes_to_winner_only() {
    let a = acct(1);
    let b = acct(2);
    let mut t = TicTacToe::new();
    let mut balance: u128 = 0;
    assert_eq!(t.join(a, 1500, 1), Ok(()));
    balance += 1500;
    assert_eq!(t.join(b, 2000, 2), Ok(()));
    balance += 2000;
    assert_eq!(t.start(), Ok(()));
    for y in 0..5u32 {
        assert_eq!(t.make_move(a, 0, y), Ok(true));
    }
    assert_eq!(t.has_won(), Ok(a));
    assert_eq!(t.get_winner(), a);
    assert_eq!(t.claim_reward(b, balance), None);
    assert_eq!(balance, 3500);
    let paid = t.claim_reward(a, balance).unwrap();
    assert_eq!(paid, 3500);
    balance -= paid;
    assert_eq!(balance, 0);
    assert_eq!(t.claim_reward(a, balance), Some(0));
}

#[test]
fn registrations_accumulate_and_marker_is_replaced() {
    let a = acct(1);
    let b = acct(2);
    let mut t = TicTacToe::new();
    assert_eq!(t.join(a, MIN_STAKE, 1), Ok(()));
    assert_eq!(t.get_number(a), Ok(1));
    assert_eq!(t.start(), Err(Error::NotStarted));
    assert_eq!(t.join(a, MIN_STAKE + 5, 7), Ok(()));
    assert_eq!(t.get_number(a), Ok(7));
    assert_eq!(t.get_number(b), Err(Fault::NotRegistered));
    // Two registrations of one account are enough to activate.
    assert_eq!(t.start(), Ok(()));
}

#[test]
fn stake_below_minimum_is_refused() {
    let mut t = TicTacToe::new();
    assert_eq!(t.join(acct(1), MIN_STAKE - 1, 1), Err(Error::NotEnoughMoney));
    assert_eq!(t.join(acct(1), 0, 1), Err(Error::NotEnoughMoney));
    assert_eq!(t.get_number(acct(1)), Err(Fault::NotRegistered));
}

#[test]
fn join_after_start_is_refused() {
    let mut t = two_player_game(acct(1), acct(2));
    assert_eq!(t.join(acct(3), MIN_STAKE, 3), Err(Error::AlreadyStarted));
    assert_eq!(t.join(acct(3), 0, 3), Err(Error::AlreadyStarted));
}

#[test]
fn start_needs_two_and_can_be_repeated() {
    let mut t = TicTacToe::new();
    assert_eq!(t.start(), Err(Error::NotStarted));
    assert_eq!(t.join(acct(1), MIN_STAKE, 1), Ok(()));
    assert_eq!(t.start(), Err(Error::NotStarted));
    assert_eq!(t.join(acct(2), MIN_STAKE, 2), Ok(()));
    assert_eq!(t.start(), Ok(()));
    assert_eq!(t.start(), Ok(()));
    assert_eq!(t.make_move(acct(1), 2, 2), Ok(true));
}

#[test]
fn move_before_start_does_nothing() {
    let mut t = TicTacToe::new();
    assert_eq!(t.join(acct(1), MIN_STAKE, 1), Ok(()));
    assert_eq!(t.make_move(acct(1), 0, 0), Ok(false));
    assert_eq!(t.get_map(), "Map: 00000 00000 00000 00000 00000 ");
}

#[test]
fn move_overwrites_any_cell() {
    let a = acct(1);
    let b = acct(2);
    let mut t = two_player_game(a, b);
    assert_eq!(t.make_move(a, 1, 3), Ok(true));
    assert_eq!(t.make_move(a, 1, 3), Ok(true));
    assert_eq!(t.make_move(b, 1, 3), Ok(true));
    assert_eq!(t.get_map(), "Map: 00000 00020 00000 00000 00000 ");
    assert_eq!(t.make_move(a, 4, 0), Ok(true));
    assert_eq!(t.get_map(), "Map: 00000 00020 00000 00000 10000 ");
}

#[test]
fn move_outside_board_fails() {
    let a = acct(1);
    let mut t = two_player_game(a, acct(2));
    assert_eq!(t.make_move(a, 5, 0), Err(Fault::OutOfBounds));
    assert_eq!(t.make_move(a, 0, 5), Err(Fault::OutOfBounds));
    assert_eq!(t.make_move(a, u32::MAX, u32::MAX), Err(Fault::OutOfBounds));
    assert_eq!(t.get_map(), "Map: 00000 00000 00000 00000 00000 ");
}

#[test]
fn move_by_stranger_fails() {
    let mut t = two_player_game(acct(1), acct(2));
    assert_eq!(t.make_move(acct(9), 0, 0), Err(Fault::NotRegistered));
}

#[test]
fn no_winner_on_fresh_board() {
    let mut t = two_player_game(acct(1), acct(2));
    assert_eq!(t.has_won(), Err(Error::NotStarted));
    assert_eq!(t.get_winner(), AccountId::zero());
    assert_eq!(t.claim_reward(acct(1), 2000), None);
    // Moves are still accepted: the game has not ended.
    assert_eq!(t.make_move(acct(1), 0, 0), Ok(true));
}

#[test]
fn column_win_is_found() {
    let a = acct(1);
    let b = acct(2);
    let mut t = two_player_game(a, b);
    for x in 0..5u32 {
        assert_eq!(t.make_move(b, x, 3), Ok(true));
    }
    assert_eq!(t.has_won(), Ok(b));
    assert_eq!(t.get_winner(), b);
    // The game has ended: further moves are ignored.
    assert_eq!(t.make_move(a, 0, 0), Ok(false));
    assert_eq!(t.claim_reward(b, 2000), Some(2000));
}

#[test]
fn diagonal_is_not_a_win() {
    let a = acct(1);
    let mut t = two_player_game(a, acct(2));
    for k in 0..5u32 {
        assert_eq!(t.make_move(a, k, k), Ok(true));
    }
    assert_eq!(t.has_won(), Err(Error::NotStarted));
    for k in 0..5u32 {
        assert_eq!(t.make_move(a, k, 4 - k), Ok(true));
    }
    assert_eq!(t.has_won(), Err(Error::NotStarted));
    assert_eq!(t.get_map(), "Map: 10001 01010 00100 01010 10001 ");
}

#[test]
fn earlier_registrant_wins_ties() {
    let a = acct(1);
    let b = acct(2);
    let mut t = two_player_game(a, b);
    for k in 0..5u32 {
        assert_eq!(t.make_move(b, 4, k), Ok(true));
        assert_eq!(t.make_move(a, k, 0), Ok(true));
    }
    // B owns row 4 but for cell (4, 0), which A took last; A owns column 0.
    assert_eq!(t.has_won(), Ok(a));
}

#[test]
fn first_registered_owner_of_a_line_wins() {
    let a = acct(1);
    let b = acct(2);
    let mut t = two_player_game(a, b);
    for k in 0..5u32 {
        assert_eq!(t.make_move(b, 2, k), Ok(true));
        assert_eq!(t.make_move(a, k, 4), Ok(true));
    }
    for k in 0..5u32 {
        assert_eq!(t.make_move(b, 0, k), Ok(true));
    }
    // B owns row 0; A's column 4 lost (0, 4) and (2, 4) to B.
    assert_eq!(t.has_won(), Ok(b));
}

#[test]
fn shared_marker_goes_to_first_registrant() {
    let a = acct(1);
    let b = acct(2);
    let mut t = TicTacToe::new();
    assert_eq!(t.join(a, MIN_STAKE, 3), Ok(()));
    assert_eq!(t.join(b, MIN_STAKE, 3), Ok(()));
    assert_eq!(t.start(), Ok(()));
    for k in 0..5u32 {
        assert_eq!(t.make_move(b, k, 1), Ok(true));
    }
    assert_eq!(t.has_won(), Ok(a));
}

#[test]
fn zero_marker_owns_the_empty_board() {
    let a = acct(1);
    let mut t = TicTacToe::new();
    assert_eq!(t.join(a, MIN_STAKE, 0), Ok(()));
    assert_eq!(t.has_won(), Ok(a));
    // The game ended during registration.
    assert_eq!(t.join(acct(2), MIN_STAKE, 2), Err(Error::AlreadyStarted));
}

#[test]
fn map_renders_multi_digit_markers() {
    let a = acct(1);
    let b = acct(2);
    let mut t = TicTacToe::new();
    assert_eq!(t.join(a, MIN_STAKE, 12), Ok(()));
    assert_eq!(t.join(b, MIN_STAKE, 255), Ok(()));
    assert_eq!(t.start(), Ok(()));
    assert_eq!(t.make_move(a, 0, 1), Ok(true));
    assert_eq!(t.make_move(b, 4, 4), Ok(true));
    assert_eq!(t.get_map(), "Map: 012000 00000 00000 00000 0000255 ");
}

#[test]
fn fresh_session_renders_empty_board() {
    let t = TicTacToe::new();
    assert_eq!(t.get_map(), "Map: 00000 00000 00000 00000 00000 ");
    assert_eq!(t.get_winner(), AccountId::zero());
}

#[test]
fn account_halves_are_kept() {
    let id = AccountId::from_halves(7, 9);
    assert_eq!(id.hi, 7);
    assert_eq!(id.lo, 9);
    assert_ne!(id, AccountId::zero());
}
