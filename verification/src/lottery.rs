//! The lottery example: ticket sale bookkeeping and the payout transfer.
//!
//! The host runtime owns account allocation, the lamport transfer that pays
//! for a ticket, and the signer checks; the state transitions on the lottery
//! and ticket records are verified here.

use vstd::prelude::*;

verus! {

/// The lottery account: who runs it, who may pick the winner, and how many
/// tickets were sold.
pub struct Lottery {
    pub authority: [u8; 32],
    pub oracle: [u8; 32],
    pub winner: [u8; 32],
    pub winner_index: u32,
    pub count: u32,
    pub ticket_price: u64,
}

/// One sold ticket: its buyer and its running index.
pub struct Ticket {
    pub submitter: [u8; 32],
    pub idx: u32,
}

/// Sets up a fresh lottery: the admin becomes its authority, the counter
/// starts at zero, and the price and oracle are fixed.
pub fn initialise_lottery(
    lottery: &mut Lottery,
    admin: [u8; 32],
    ticket_price: u64,
    oracle_pubkey: [u8; 32],
)
    ensures
        final(lottery).authority == admin,
        final(lottery).count == 0u32,
        final(lottery).ticket_price == ticket_price,
        final(lottery).oracle == oracle_pubkey,
        final(lottery).winner == old(lottery).winner,
        final(lottery).winner_index == old(lottery).winner_index,
{
    lottery.authority = admin;
    lottery.count = 0;
    lottery.ticket_price = ticket_price;
    lottery.oracle = oracle_pubkey;
}

/// Records a ticket purchase: the ticket takes the buyer and the current
/// counter as its index, and the counter moves on. The lamport transfer that
/// pays for the ticket is the runtime's work.
pub fn buy_ticket(lottery: &mut Lottery, ticket: &mut Ticket, player: [u8; 32])
    requires
        old(lottery).count < u32::MAX,
    ensures
        final(ticket).submitter == player,
        final(ticket).idx == old(lottery).count,
        final(lottery).count == old(lottery).count + 1,
        final(lottery).authority == old(lottery).authority,
        final(lottery).oracle == old(lottery).oracle,
        final(lottery).winner == old(lottery).winner,
        final(lottery).winner_index == old(lottery).winner_index,
        final(lottery).ticket_price == old(lottery).ticket_price,
{
    ticket.submitter = player;
    ticket.idx = lottery.count;
    lottery.count = lottery.count + 1;
}

/// The oracle's choice: stores the winning ticket index.
pub fn pick_winner(lottery: &mut Lottery, winner: u32)
    ensures
        final(lottery).winner_index == winner,
        final(lottery).authority == old(lottery).authority,
        final(lottery).oracle == old(lottery).oracle,
        final(lottery).winner == old(lottery).winner,
        final(lottery).count == old(lottery).count,
        final(lottery).ticket_price == old(lottery).ticket_price,
{
    lottery.winner_index = winner;
}

/// The payout transfer: the lottery's whole balance moves to the winner.
/// Returns the two balances after the transfer, lottery first.
pub fn pay_out_winner(lottery_lamports: u64, winner_lamports: u64) -> (r: (u64, u64))
    requires
        lottery_lamports + winner_lamports <= u64::MAX,
    ensures
        r.0 == 0u64,
        r.1 == lottery_lamports + winner_lamports,
{
    (0, winner_lamports + lottery_lamports)
}

} // verus!
