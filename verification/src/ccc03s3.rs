//! The question "Floor Plan" of the 2003 senior paper.

use crate::question::{Question, QuestionType};
use vstd::prelude::*;
use vstd::string::*;

verus! {

/// The title of the question.
pub const FLOOR_PLAN_TITLE: &'static str = "Floor Plan";

/// The text of the question.
pub const FLOOR_PLAN_TEXT: &'static str = " \
The floor plan of a house shows rooms separated by walls. This floor plan can \
be transferred to a grid using the character I for walls and . for room space. \
Doorways are not shown. Each I or . character occupies one square metre. \
 \
Sample 1: \
105 \
14 \
16 \
 IIIIIIIIIIIIIIII\
 I......I.......I\
 I......III.....I\
 I........I.....I\
 I........IIIIIII\
 IIIIIIIIII.....I\
 I.I......I.....I\
 III..III.I.....I\
 I....I.IIIII...I\
 I....I.....III.I\
 I....I.......I.I\
 I....I.....III.I\
 I....I.....I...I\
 IIIIIIIIIIIIIIII\
 In this diagram, there are six rooms.\
\
 You have been given the floor plan of a house and a supply of hardwood flooring.\
 You are to determine how many rooms will have the flooring installed if you\
 start installing the floor in the largest room first and move to the next largest room,\
 and so on. You may not skip over any room, and you must stop when you do not\
 have enough wood for the next room. Output the number of rooms that can have\
 hardwood installed, and how many square metres of flooring are left over.\
 No room will be larger than square metres.\
\
 The first line contains the number of square metres of flooring you have. The second line contains an integer in range\
 that represents the number of rows in the grid. The third line contains an integer\
 in that represents the number of columns in the grid. The remaining lines contain characters of grid data.";

/// The question: number 3 of the senior paper of 2003, with its title and text.
pub fn get_question() -> (q: Question)
    ensures
        q.year == 2003,
        q.level == QuestionType::Senior,
        q.num == 3,
        q.title@ == FLOOR_PLAN_TITLE@,
        q.description@ == FLOOR_PLAN_TEXT@,
{
    Question {
        year: 2003,
        level: QuestionType::Senior,
        num: 3,
        title: String::from_str(FLOOR_PLAN_TITLE),
        description: String::from_str(FLOOR_PLAN_TEXT),
    }
}

} // verus!
