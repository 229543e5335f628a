//! The commit-reveal rock-paper-scissors engine.
//!
//! A session holds two fixed party identities. Each party may submit a
//! 32-byte commitment digest for its slot, then reveal a payload; the reveal
//! is accepted only when the payload's hash equals the stored digest
//! byte-for-byte. Once both slots have revealed, the outcome is computed in
//! the same call and never changes again.

use vstd::prelude::*;

verus! {

broadcast use vstd::array::group_array_axioms;

/// The three possible plays.
#[derive(Debug, Clone, Copy, PartialEq, Eq, Structural)]
pub enum Hand {
    Rock,
    Paper,
    Scissors,
}

impl Hand {
    /// Parses the play encoded by a leading token character.
    pub fn new(hand: char) -> (r: Result<Hand, SErrors>)
        ensures
            r == char_play_result(hand),
    {
        match hand {
            '0' => Ok(Hand::Rock),
            '1' => Ok(Hand::Paper),
            '2' => Ok(Hand::Scissors),
            _ => Err(SErrors::WrongHandChar),
        }
    }
}

impl Default for Hand {
    /// The placeholder play an unrevealed slot shows; `hand_submitted` is
    /// the sole source of truth for whether a slot has really revealed.
    fn default() -> (r: Self)
        ensures
            r == Hand::Scissors,
    {
        Hand::Scissors
    }
}

/// The play a token character stands for: `'0'` is Rock, `'1'` is Paper,
/// `'2'` is Scissors; anything else is rejected.
pub open spec fn char_play_result(hand: char) -> Result<Hand, SErrors> {
    if hand == '0' {
        Ok(Hand::Rock)
    } else if hand == '1' {
        Ok(Hand::Paper)
    } else if hand == '2' {
        Ok(Hand::Scissors)
    } else {
        Err(SErrors::WrongHandChar)
    }
}

/// The play encoded by a payload's leading byte, if any.
pub open spec fn payload_play(payload: Seq<u8>) -> Option<Hand> {
    if payload.len() == 0 {
        None
    } else if char_play_result(payload[0] as char) is Ok {
        Some(char_play_result(payload[0] as char)->Ok_0)
    } else {
        None
    }
}

/// The cyclic dominance relation: each play beats exactly one other play.
pub trait Beats: Sized {
    /// The play that `self` defeats.
    spec fn spec_beats(&self) -> Self;

    /// Returns the play that `self` defeats.
    fn beats(&self) -> (r: Self)
        ensures
            r == self.spec_beats(),
    ;
}

impl Beats for Hand {
    open spec fn spec_beats(&self) -> Hand {
        match *self {
            Hand::Rock => Hand::Scissors,
            Hand::Paper => Hand::Rock,
            Hand::Scissors => Hand::Paper,
        }
    }

    fn beats(&self) -> (r: Hand) {
        match *self {
            Hand::Rock => Hand::Scissors,
            Hand::Paper => Hand::Rock,
            Hand::Scissors => Hand::Paper,
        }
    }
}

/// The outcome of a finished match, seen from slot 0: `Win` means slot 0
/// won, `Lose` means slot 1 won.
#[derive(Debug, Clone, Copy, PartialEq, Eq, Structural)]
pub enum HandResult {
    Win,
    Lose,
    Draw,
}

/// The errors a commit or reveal call can surface.
#[derive(Debug, Clone, Copy, PartialEq, Eq, Structural)]
pub enum SErrors {
    /// The caller matches neither of the session's two identities.
    MissingPlayer,
    /// The payload's leading token is outside the three-symbol alphabet.
    WrongHandChar,
    /// The payload does not hash to the stored commitment.
    WrongHash,
}

/// The pure outcome resolver: slot 0 wins iff its play beats slot 1's play,
/// slot 1 wins iff its play beats slot 0's play, and everything else —
/// in particular equal plays — is a draw.
pub open spec fn resolve(play0: Hand, play1: Hand) -> HandResult {
    if play0.spec_beats() == play1 {
        HandResult::Win
    } else if play1.spec_beats() == play0 {
        HandResult::Lose
    } else {
        HandResult::Draw
    }
}

/// For every pair of plays the resolver follows the cyclic `beats`
/// relation, and it declares a draw exactly on equal plays.
pub proof fn lemma_resolve_properties(play0: Hand, play1: Hand)
    ensures
        resolve(play0, play1) == HandResult::Win <==> play0.spec_beats() == play1,
        resolve(play0, play1) == HandResult::Lose <==> play1.spec_beats() == play0,
        resolve(play0, play1) == HandResult::Draw <==> play0 == play1,
{
    match (play0, play1) {
        (Hand::Rock, Hand::Rock) => {},
        (Hand::Rock, Hand::Paper) => {},
        (Hand::Rock, Hand::Scissors) => {},
        (Hand::Paper, Hand::Rock) => {},
        (Hand::Paper, Hand::Paper) => {},
        (Hand::Paper, Hand::Scissors) => {},
        (Hand::Scissors, Hand::Rock) => {},
        (Hand::Scissors, Hand::Paper) => {},
        (Hand::Scissors, Hand::Scissors) => {},
    }
}

/// The SHA-256 digest of a byte string, as the ledger's hash primitive
/// computes it. The digest is a function of the bytes alone.
pub uninterp spec fn sha256_of(bytes: Seq<u8>) -> Seq<u8>;

/// Relies on `solana_program::hash::hash` (SHA-256): the 32-byte digest
/// depends on the input bytes alone.
#[verifier::external_body]
fn hash_bytes(payload: &Vec<u8>) -> (r: [u8; 32])
    ensures
        r@ == sha256_of(payload@),
{
    solana_program::hash::hash(payload.as_slice()).to_bytes()
}

/// Exact fixed-width comparison of two 32-byte strings; no partial or
/// truncated match.
pub(crate) fn key_eq(a: &[u8; 32], b: &[u8; 32]) -> (r: bool)
    ensures
        r == (*a == *b),
{
    let mut i: usize = 0;
    while i < 32
        invariant
            i <= 32,
            forall|j: int| 0 <= j < i ==> a@[j] == b@[j],
        decreases 32 - i,
    {
        if a[i] != b[i] {
            return false;
        }
        i = i + 1;
    }
    proof {
        assert(a@ =~= b@);
        assert(*a =~= *b);
    }
    true
}

/// One match between two fixed parties: their commitments, reveals, and the
/// final outcome.
pub struct Game {
    /// The two party identities, fixed at creation; position is the slot.
    pub players: [[u8; 32]; 2],
    /// The commitment digest of each slot; all-zero until first submitted.
    pub hashed_hand: [[u8; 32]; 2],
    /// Whether each slot has submitted a commitment.
    pub hash_submitted: [bool; 2],
    /// The revealed play of each slot; a placeholder until revealed.
    pub hand: [Hand; 2],
    /// Whether each slot has submitted a valid reveal.
    pub hand_submitted: [bool; 2],
    /// The outcome, set in the same call that accepts the second reveal and
    /// never changed afterwards.
    pub winner: Option<HandResult>,
}

/// Whether `player` occupies one of the session's two slots.
pub open spec fn is_party(g: Game, player: [u8; 32]) -> bool {
    g.players[0] == player || g.players[1] == player
}

/// The slot `player` resolves to: the first slot whose identity matches.
pub open spec fn slot_of(g: Game, player: [u8; 32]) -> int
    recommends
        is_party(g, player),
{
    if g.players[0] == player {
        0
    } else {
        1
    }
}

/// Both slots have submitted a valid reveal.
pub open spec fn both_revealed(g: Game) -> bool {
    g.hand_submitted[0] && g.hand_submitted[1]
}

/// An outcome exists only once both slots have revealed.
pub open spec fn session_wf(g: Game) -> bool {
    g.winner is Some ==> both_revealed(g)
}

impl Game {
    /// Resolves the caller to slot 0 or slot 1 by exact identity match;
    /// a caller in neither slot is rejected and nothing changes.
    pub fn get_player_index(&mut self, player: [u8; 32]) -> (r: Result<usize, SErrors>)
        ensures
            *final(self) == *old(self),
            is_party(*old(self), player) ==> r == Ok::<usize, SErrors>(
                slot_of(*old(self), player) as usize,
            ),
            !is_party(*old(self), player) ==> r == Err::<usize, SErrors>(SErrors::MissingPlayer),
    {
        if key_eq(&self.players[0], &player) {
            Ok(0)
        } else if key_eq(&self.players[1], &player) {
            Ok(1)
        } else {
            Err(SErrors::MissingPlayer)
        }
    }

    /// Computes the outcome from the two stored plays without touching any
    /// state; a pure, deterministic resolution.
    pub fn pick_winner(&mut self) -> (r: HandResult)
        ensures
            *final(self) == *old(self),
            r == resolve(old(self).hand[0], old(self).hand[1]),
    {
        let player1 = self.hand[0].beats();
        let player2 = self.hand[1].beats();
        if player1 == self.hand[1] {
            HandResult::Win
        } else if player2 == self.hand[0] {
            HandResult::Lose
        } else {
            HandResult::Draw
        }
    }

    /// Stores a commitment digest into the given slot and marks it
    /// committed. Resubmission overwrites the previous digest; this
    /// leniency is deliberate.
    pub fn place_hash(&mut self, hashed_hand: [u8; 32], indx: usize) -> (r: Result<(), SErrors>)
        requires
            indx < 2,
        ensures
            r == Ok::<(), SErrors>(()),
            final(self).hashed_hand@ == old(self).hashed_hand@.update(indx as int, hashed_hand),
            final(self).hash_submitted@ == old(self).hash_submitted@.update(indx as int, true),
            final(self).players == old(self).players,
            final(self).hand == old(self).hand,
            final(self).hand_submitted == old(self).hand_submitted,
            final(self).winner == old(self).winner,
    {
        self.hashed_hand[indx] = hashed_hand;
        self.hash_submitted[indx] = true;
        Ok(())
    }

    /// Validates a reveal payload against the slot's stored commitment.
    /// A payload whose hash differs from the commitment, or whose leading
    /// token is not a play, is rejected with no state change. An accepted
    /// reveal stores the play and marks the slot revealed; if this was the
    /// second reveal, the outcome is computed within the same call.
    pub fn place_hand(&mut self, hand_string: &Vec<u8>, indx: usize) -> (r: Result<(), SErrors>)
        requires
            indx < 2,
        ensures
            sha256_of(hand_string@) != old(self).hashed_hand[indx as int]@ ==> r == Err::<
                (),
                SErrors,
            >(SErrors::WrongHash) && *final(self) == *old(self),
            sha256_of(hand_string@) == old(self).hashed_hand[indx as int]@ && payload_play(
                hand_string@,
            ) is None ==> r == Err::<(), SErrors>(SErrors::WrongHandChar)
                && *final(self) == *old(self),
            sha256_of(hand_string@) == old(self).hashed_hand[indx as int]@ && payload_play(
                hand_string@,
            ) is Some ==> {
                &&& r == Ok::<(), SErrors>(())
                &&& final(self).hand@ == old(self).hand@.update(
                    indx as int,
                    payload_play(hand_string@)->Some_0,
                )
                &&& final(self).hand_submitted@ == old(self).hand_submitted@.update(
                    indx as int,
                    true,
                )
                &&& final(self).players == old(self).players
                &&& final(self).hashed_hand == old(self).hashed_hand
                &&& final(self).hash_submitted == old(self).hash_submitted
            },
            r is Ok && both_revealed(*final(self)) && old(self).winner is None
                ==> final(self).winner == Some(resolve(final(self).hand[0], final(self).hand[1])),
            !(r is Ok && both_revealed(*final(self)) && old(self).winner is None)
                ==> final(self).winner == old(self).winner,
            old(self).winner is Some ==> final(self).winner == old(self).winner,
            session_wf(*old(self)) ==> session_wf(*final(self)),
    {
        let digest = hash_bytes(hand_string);
        proof {
            let c = self.hashed_hand[indx as int];
            if digest@ == c@ {
                assert(digest =~= c);
            }
        }
        if key_eq(&digest, &self.hashed_hand[indx]) {
            if hand_string.len() == 0 {
                return Err(SErrors::WrongHandChar);
            }
            let hand = match Hand::new(hand_string[0] as char) {
                Ok(h) => h,
                Err(e) => {
                    return Err(e);
                },
            };
            self.hand[indx] = hand;
            self.hand_submitted[indx] = true;
            if self.hand_submitted[0] && self.hand_submitted[1] && self.winner.is_none() {
                let result_p1 = self.pick_winner();
                self.winner = Some(result_p1);
            }
            Ok(())
        } else {
            Err(SErrors::WrongHash)
        }
    }
}

/// A commit followed by a reveal of the committed payload always succeeds:
/// once a party has stored the digest of a payload whose leading token is a
/// play — the commit's effect on `hashed_hand`, as `place_hash` states it —
/// the reveal hypotheses of `place_hand` hold for that party's slot, so its
/// contract forces the reveal to be accepted and the slot to be marked
/// revealed.
pub proof fn lemma_commit_enables_reveal(
    g0: Game,
    g1: Game,
    player: [u8; 32],
    digest: [u8; 32],
    payload: Seq<u8>,
)
    requires
        is_party(g0, player),
        digest@ == sha256_of(payload),
        payload_play(payload) is Some,
        g1.players == g0.players,
        g1.hashed_hand@ == g0.hashed_hand@.update(slot_of(g0, player), digest),
    ensures
        is_party(g1, player),
        slot_of(g1, player) == slot_of(g0, player),
        sha256_of(payload) == g1.hashed_hand[slot_of(g1, player)]@,
{
    assert(g1.hashed_hand[slot_of(g0, player)] == digest);
}

/// Creates a session for the two named parties: slots fixed, commitments
/// all-zero, nothing committed or revealed, no outcome.
pub fn new_game(player_one: [u8; 32], player_two: [u8; 32]) -> (g: Game)
    ensures
        g.players[0] == player_one,
        g.players[1] == player_two,
        g.hash_submitted[0] == false,
        g.hash_submitted[1] == false,
        g.hand_submitted[0] == false,
        g.hand_submitted[1] == false,
        g.hand[0] == Hand::Rock,
        g.hand[1] == Hand::Rock,
        forall|s: int, i: int| 0 <= s < 2 && 0 <= i < 32 ==> g.hashed_hand[s]@[i] == 0u8,
        g.winner is None,
        session_wf(g),
{
    Game {
        players: [player_one, player_two],
        hashed_hand: [[0u8; 32], [0u8; 32]],
        hash_submitted: [false, false],
        hand: [Hand::Rock, Hand::Rock],
        hand_submitted: [false, false],
        winner: None,
    }
}

/// Records the caller's commitment: the caller is resolved to its slot, and
/// the digest is stored there. A caller in neither slot is rejected with no
/// state change.
pub fn place_hash(game: &mut Game, player: [u8; 32], hashed_hand: [u8; 32]) -> (r: Result<
    (),
    SErrors,
>)
    ensures
        !is_party(*old(game), player) ==> r == Err::<(), SErrors>(SErrors::MissingPlayer)
            && *final(game) == *old(game),
        is_party(*old(game), player) ==> {
            &&& r == Ok::<(), SErrors>(())
            &&& final(game).hashed_hand@ == old(game).hashed_hand@.update(
                slot_of(*old(game), player),
                hashed_hand,
            )
            &&& final(game).hash_submitted@ == old(game).hash_submitted@.update(
                slot_of(*old(game), player),
                true,
            )
            &&& final(game).players == old(game).players
            &&& final(game).hand == old(game).hand
            &&& final(game).hand_submitted == old(game).hand_submitted
            &&& final(game).winner == old(game).winner
        },
        old(game).winner is Some ==> final(game).winner == old(game).winner,
        session_wf(*old(game)) ==> session_wf(*final(game)),
{
    let indx = match game.get_player_index(player) {
        Ok(i) => i,
        Err(e) => {
            return Err(e);
        },
    };
    game.place_hash(hashed_hand, indx)
}

/// Validates and records the caller's reveal: the caller is resolved to its
/// slot, the payload is hashed and compared byte-for-byte against that
/// slot's commitment, and on a match the leading token is parsed into the
/// play. The second accepted reveal computes the outcome in the same call;
/// an outcome, once set, never changes.
pub fn place_hand(game: &mut Game, player: [u8; 32], hand_string: &Vec<u8>) -> (r: Result<
    (),
    SErrors,
>)
    ensures
        !is_party(*old(game), player) ==> r == Err::<(), SErrors>(SErrors::MissingPlayer)
            && *final(game) == *old(game),
        is_party(*old(game), player) && sha256_of(hand_string@) != old(game).hashed_hand[slot_of(
            *old(game),
            player,
        )]@ ==> r == Err::<(), SErrors>(SErrors::WrongHash) && *final(game) == *old(game),
        is_party(*old(game), player) && sha256_of(hand_string@) == old(game).hashed_hand[slot_of(
            *old(game),
            player,
        )]@ && payload_play(hand_string@) is None ==> r == Err::<(), SErrors>(SErrors::WrongHandChar)
            && *final(game) == *old(game),
        is_party(*old(game), player) && sha256_of(hand_string@) == old(game).hashed_hand[slot_of(
            *old(game),
            player,
        )]@ && payload_play(hand_string@) is Some ==> {
            &&& r == Ok::<(), SErrors>(())
            &&& final(game).hand@ == old(game).hand@.update(
                slot_of(*old(game), player),
                payload_play(hand_string@)->Some_0,
            )
            &&& final(game).hand_submitted@ == old(game).hand_submitted@.update(
                slot_of(*old(game), player),
                true,
            )
            &&& final(game).players == old(game).players
            &&& final(game).hashed_hand == old(game).hashed_hand
            &&& final(game).hash_submitted == old(game).hash_submitted
        },
        r is Ok && both_revealed(*final(game)) && old(game).winner is None
            ==> final(game).winner == Some(resolve(final(game).hand[0], final(game).hand[1])),
        !(r is Ok && both_revealed(*final(game)) && old(game).winner is None)
            ==> final(game).winner == old(game).winner,
        old(game).winner is Some ==> final(game).winner == old(game).winner,
        session_wf(*old(game)) ==> session_wf(*final(game)),
{
    let indx = match game.get_player_index(player) {
        Ok(i) => i,
        Err(e) => {
            return Err(e);
        },
    };
    game.place_hand(hand_string, indx)
}

} // verus!
