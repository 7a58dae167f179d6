//! The history of the scores reached at the end of each game.
use vstd::prelude::*;

verus! {

/// Every score reached so far, oldest first.
#[derive(Debug)]
pub struct Score {
    pub history: Vec<usize>,
}

/// A score board with no history yet.
pub fn setup_score() -> (s: Score)
    ensures
        s.history@ == Seq::<usize>::empty(),
{
    Score { history: Vec::new() }
}

/// Appends the scores of the game-over events, in order, to the one score
/// board. With no board, or more than one, nothing changes.
pub fn add_score(boards: &mut Vec<Score>, game_overs: &Vec<usize>)
    ensures
        old(boards).len() == 1 ==> final(boards).len() == 1 && final(boards)[0].history@
            == old(boards)[0].history@ + game_overs@,
        old(boards).len() != 1 ==> final(boards)@ == old(boards)@,
{
    if boards.len() == 1 {
        let mut board = boards.pop().unwrap();
        let ghost start = board.history@;
        let mut i: usize = 0;
        while i < game_overs.len()
            invariant
                i <= game_overs.len(),
                board.history@ == start + game_overs@.subrange(0, i as int),
            decreases game_overs.len() - i,
        {
            board.history.push(game_overs[i]);
            i = i + 1;
            assert(board.history@ =~= start + game_overs@.subrange(0, i as int));
        }
        assert(game_overs@.subrange(0, i as int) =~= game_overs@);
        boards.push(board);
    }
}

} // verus!
