//! Question sets as written in a game file.
use vstd::prelude::*;

use crate::game::{Category, Question};

verus! {

/// One clue of a game file.
pub struct GameFileClue {
    pub value: u32,
    pub clue: String,
    pub solution: String,
}

/// One category of a game file.
pub struct GameFileCategory {
    pub category: String,
    pub clues: Vec<GameFileClue>,
}

/// The single round of a game file.
pub struct GameFileGame {
    pub single: Vec<GameFileCategory>,
}

/// A game file.
pub struct GameFile {
    pub game: GameFileGame,
}

/// The question a clue becomes: same text, answer and value, unanswered.
pub open spec fn question_of(c: GameFileClue) -> Question {
    Question { question: c.clue, answer: c.solution, value: c.value, answered: false }
}

impl Category {
    /// The category a game-file category becomes, clue by clue.
    pub fn from_game_file(gfc: GameFileCategory) -> (r: Category)
        ensures
            r.title == gfc.category,
            r.questions@ == gfc.clues@.map_values(|c: GameFileClue| question_of(c)),
    {
        let mut questions: Vec<Question> = Vec::new();
        let mut i: usize = 0;
        while i < gfc.clues.len()
            invariant
                0 <= i <= gfc.clues@.len(),
                questions@ == gfc.clues@.subrange(0, i as int).map_values(|c: GameFileClue| question_of(c)),
            decreases gfc.clues@.len() - i,
        {
            let c = &gfc.clues[i];
            questions.push(
                Question {
                    question: c.clue.clone(),
                    answer: c.solution.clone(),
                    value: c.value,
                    answered: false,
                },
            );
            i += 1;
            assert(questions@ =~= gfc.clues@.subrange(0, i as int).map_values(
                |c: GameFileClue| question_of(c),
            ));
        }
        assert(gfc.clues@.subrange(0, i as int) =~= gfc.clues@);
        Category { title: gfc.category, questions }
    }
}

} // verus!
