use commit_reveal::consortium::{
    add_answer, add_member, add_question, initialise_consortium, tally, vote, Answer, Consortium,
    Member, Question,
};
use commit_reveal::lottery::{
    buy_ticket, initialise_lottery, pay_out_winner, pick_winner, Lottery, Ticket,
};

const ADMIN: [u8; 32] = [3u8; 32];
const ORACLE: [u8; 32] = [4u8; 32];
const PLAYER: [u8; 32] = [5u8; 32];
const CHAIR: [u8; 32] = [6u8; 32];

fn blank_lottery() -> Lottery {
    Lottery {
        authority: [0u8; 32],
        oracle: [0u8; 32],
        winner: [0u8; 32],
        winner_index: 0,
        count: 0,
        ticket_price: 0,
    }
}

fn blank_question() -> Question {
    Question {
        question: String::new(),
        ans_counter: 0,
        deadline: 0,
        winner_idx: 0,
        winner_selected: false,
    }
}

#[test]
fn lottery_lifecycle_counts_tickets() {
    let mut lottery = blank_lottery();
    initialise_lottery(&mut lottery, ADMIN, 100, ORACLE);
    assert_eq!(lottery.authority, ADMIN);
    assert_eq!(lottery.oracle, ORACLE);
    assert_eq!(lottery.ticket_price, 100);
    assert_eq!(lottery.count, 0);

    let mut ticket = Ticket { submitter: [0u8; 32], idx: 0 };
    buy_ticket(&mut lottery, &mut ticket, PLAYER);
    assert_eq!(ticket.submitter, PLAYER);
    assert_eq!(ticket.idx, 0);
    assert_eq!(lottery.count, 1);

    let mut second = Ticket { submitter: [0u8; 32], idx: 0 };
    buy_ticket(&mut lottery, &mut second, ORACLE);
    assert_eq!(second.idx, 1);
    assert_eq!(lottery.count, 2);

    pick_winner(&mut lottery, 1);
    assert_eq!(lottery.winner_index, 1);
    assert_eq!(lottery.count, 2);
}

#[test]
fn payout_moves_the_whole_balance() {
    assert_eq!(pay_out_winner(700, 25), (0, 725));
    assert_eq!(pay_out_winner(0, 25), (0, 25));
}

#[test]
fn consortium_records_fill_in() {
    let mut consortium = Consortium { chairperson: [0u8; 32], question_count: 0 };
    initialise_consortium(&mut consortium, CHAIR);
    assert_eq!(consortium.chairperson, CHAIR);

    let mut member = Member { key: [0u8; 32], weight: 0, propose_answers: false };
    add_member(&mut member, 3, true, PLAYER);
    assert_eq!(member.key, PLAYER);
    assert_eq!(member.weight, 3);
    assert!(member.propose_answers);

    let mut question = blank_question();
    add_question(&mut question, &mut consortium, String::from("upgrade?"), 99);
    assert_eq!(question.question, "upgrade?");
    assert_eq!(question.deadline, 99);
    assert_eq!(consortium.question_count, 1);

    let mut answer = Answer { text: String::new(), votes: 0 };
    add_answer(&mut question, &mut answer, String::from("yes"));
    assert_eq!(question.ans_counter, 1);
    assert_eq!(answer.text, "yes");
    assert_eq!(answer.votes, 0);

    vote(&mut answer, &member);
    assert_eq!(answer.votes, 3);
    vote(&mut answer, &member);
    assert_eq!(answer.votes, 6);
}

#[test]
fn tally_picks_the_first_highest_answer() {
    let mut question = blank_question();
    question.ans_counter = 3;
    let best = tally(&mut question, &vec![3, 5, 5]);
    assert_eq!(best, 5);
    assert_eq!(question.winner_idx, 1);
    assert!(question.winner_selected);
}

#[test]
fn tally_with_no_votes_keeps_index_zero() {
    let mut question = blank_question();
    question.ans_counter = 3;
    let best = tally(&mut question, &vec![0, 0, 0]);
    assert_eq!(best, 0);
    assert_eq!(question.winner_idx, 0);
    assert!(question.winner_selected);

    let mut empty = blank_question();
    let best = tally(&mut empty, &Vec::new());
    assert_eq!(best, 0);
    assert_eq!(empty.winner_idx, 0);
    assert!(empty.winner_selected);
}
