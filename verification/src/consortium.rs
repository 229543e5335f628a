//! The weighted-voting consortium example.
//!
//! Members carry a voting weight; answers to a question collect weighted
//! votes; the tally picks the first answer with the highest vote count. The
//! host runtime owns account allocation, deadline and signer checks; the
//! record transitions and the tally itself are verified here.

use vstd::prelude::*;

verus! {

/// The consortium record: its chairperson and how many questions exist.
pub struct Consortium {
    pub chairperson: [u8; 32],
    pub question_count: u32,
}

/// One member: its identity, voting weight, and whether it may propose
/// answers.
pub struct Member {
    pub key: [u8; 32],
    pub weight: u8,
    pub propose_answers: bool,
}

/// A marker record whose existence shows that a member has voted.
pub struct Voted {}

/// One question: its text, how many answers it has, its deadline, and the
/// winning answer once selected.
pub struct Question {
    pub question: String,
    pub ans_counter: u8,
    pub deadline: i64,
    pub winner_idx: u8,
    pub winner_selected: bool,
}

/// One proposed answer and its weighted vote count.
pub struct Answer {
    pub text: String,
    pub votes: u32,
}

/// Sets the chairperson of a freshly allocated consortium record.
pub fn initialise_consortium(consortium: &mut Consortium, chairperson: [u8; 32])
    ensures
        final(consortium).chairperson == chairperson,
        final(consortium).question_count == old(consortium).question_count,
{
    consortium.chairperson = chairperson;
}

/// Fills in a freshly allocated member record.
pub fn add_member(member: &mut Member, weight: u8, propose_answers: bool, member_acc: [u8; 32])
    ensures
        final(member).weight == weight,
        final(member).key == member_acc,
        final(member).propose_answers == propose_answers,
{
    member.weight = weight;
    member.key = member_acc;
    member.propose_answers = propose_answers;
}

/// Fills in a freshly allocated question record and counts it.
pub fn add_question(
    question: &mut Question,
    consortium: &mut Consortium,
    question_question: String,
    question_deadline: i64,
)
    requires
        old(consortium).question_count < u32::MAX,
    ensures
        final(question).question == question_question,
        final(question).deadline == question_deadline,
        final(question).ans_counter == old(question).ans_counter,
        final(question).winner_idx == old(question).winner_idx,
        final(question).winner_selected == old(question).winner_selected,
        final(consortium).question_count == old(consortium).question_count + 1,
        final(consortium).chairperson == old(consortium).chairperson,
{
    question.question = question_question;
    question.deadline = question_deadline;
    consortium.question_count = consortium.question_count + 1;
}

/// Fills in a freshly allocated answer record and counts it on its
/// question.
pub fn add_answer(question: &mut Question, answer: &mut Answer, text: String)
    requires
        old(question).ans_counter < u8::MAX,
    ensures
        final(question).ans_counter == old(question).ans_counter + 1,
        final(question).question == old(question).question,
        final(question).deadline == old(question).deadline,
        final(question).winner_idx == old(question).winner_idx,
        final(question).winner_selected == old(question).winner_selected,
        final(answer).text == text,
        final(answer).votes == old(answer).votes,
{
    question.ans_counter = question.ans_counter + 1;
    answer.text = text;
}

/// Casts a member's weighted vote onto an answer.
pub fn vote(answer: &mut Answer, member: &Member)
    requires
        old(answer).votes + member.weight <= u32::MAX,
    ensures
        final(answer).votes == old(answer).votes + member.weight,
        final(answer).text == old(answer).text,
{
    answer.votes = answer.votes + member.weight as u32;
}

/// The largest vote count among the first `n` entries, or zero when there
/// are none.
pub open spec fn prefix_max(votes: Seq<u32>, n: int) -> u32
    decreases n,
{
    if n <= 0 {
        0
    } else {
        let m = prefix_max(votes, n - 1);
        if votes[n - 1] > m {
            votes[n - 1]
        } else {
            m
        }
    }
}

/// Selects the winning answer: the first index whose vote count equals the
/// maximum, or index zero when every count is zero. The caller passes the
/// vote count of each answer, in answer order; the host runtime has already
/// checked that the answer accounts are genuine.
pub fn tally(question: &mut Question, votes: &Vec<u32>) -> (winner_votes: u32)
    requires
        votes.len() == old(question).ans_counter as int,
    ensures
        final(question).winner_selected == true,
        final(question).question == old(question).question,
        final(question).ans_counter == old(question).ans_counter,
        final(question).deadline == old(question).deadline,
        winner_votes == prefix_max(votes@, votes@.len() as int),
        forall|j: int| 0 <= j < votes@.len() ==> votes@[j] <= winner_votes,
        winner_votes == 0 ==> final(question).winner_idx == 0u8,
        winner_votes > 0 ==> {
            &&& (final(question).winner_idx as int) < votes@.len()
            &&& votes@[final(question).winner_idx as int] == winner_votes
            &&& forall|j: int| 0 <= j < final(question).winner_idx as int ==> votes@[j]
                < winner_votes
        },
{
    let mut best_votes: u32 = 0;
    let mut best_idx: u8 = 0;
    let mut idx: usize = 0;
    while idx < votes.len()
        invariant
            idx <= votes.len(),
            votes.len() == question.ans_counter as int,
            best_votes == prefix_max(votes@, idx as int),
            forall|j: int| 0 <= j < idx ==> votes@[j] <= best_votes,
            best_votes == 0 ==> best_idx == 0u8,
            best_votes > 0 ==> {
                &&& (best_idx as int) < idx
                &&& votes@[best_idx as int] == best_votes
                &&& forall|j: int| 0 <= j < best_idx as int ==> votes@[j] < best_votes
            },
        decreases votes.len() - idx,
    {
        if votes[idx] > best_votes {
            best_votes = votes[idx];
            best_idx = idx as u8;
        }
        idx = idx + 1;
    }
    question.winner_idx = best_idx;
    question.winner_selected = true;
    best_votes
}

} // verus!
