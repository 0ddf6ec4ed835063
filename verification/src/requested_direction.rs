//! The players' votes on where the snake goes next.

use vstd::prelude::*;
use crate::roster::{lemma_table_dom, lemma_table_push, lemma_table_update, table, Roster};
use crate::types::Direction;

verus! {

/// The players whose vote in `votes` is `direction`.
pub open spec fn supporters(votes: Map<Seq<char>, Direction>, direction: Direction) -> Set<
    Seq<char>,
> {
    votes.dom().filter(|name: Seq<char>| votes[name] == direction)
}

/// The number of players whose vote in `votes` is `direction`.
pub open spec fn tally(votes: Map<Seq<char>, Direction>, direction: Direction) -> nat {
    supporters(votes, direction).len()
}

/// The direction with the most votes among four counts, none where nobody
/// has voted. Where several directions share the highest count, the first
/// of them in the order north, south, east, west wins.
pub open spec fn first_maximum(north: nat, south: nat, east: nat, west: nat) -> Option<
    Direction,
> {
    if north == 0 && south == 0 && east == 0 && west == 0 {
        None
    } else if north >= south && north >= east && north >= west {
        Some(Direction::North)
    } else if south >= east && south >= west {
        Some(Direction::South)
    } else if east >= west {
        Some(Direction::East)
    } else {
        Some(Direction::West)
    }
}

/// The direction that `votes` choose: the one with the most votes, none
/// where nobody has voted. Ties go to the first direction in the order
/// north, south, east, west.
pub open spec fn leader(votes: Map<Seq<char>, Direction>) -> Option<Direction> {
    first_maximum(
        tally(votes, Direction::North),
        tally(votes, Direction::South),
        tally(votes, Direction::East),
        tally(votes, Direction::West),
    )
}

/// How often `direction` occurs in `choices`.
pub open spec fn occurrences(choices: Seq<Direction>, direction: Direction) -> nat
    decreases choices.len(),
{
    if choices.len() == 0 {
        0
    } else {
        occurrences(choices.drop_last(), direction) + if choices.last() == direction {
            1nat
        } else {
            0nat
        }
    }
}

/// Giving `name` a vote for `choice` adds one supporter to `choice` and
/// takes `name` away from every other direction.
proof fn lemma_supporters_insert(
    votes: Map<Seq<char>, Direction>,
    name: Seq<char>,
    choice: Direction,
    direction: Direction,
)
    ensures
        supporters(votes.insert(name, choice), direction) == if choice == direction {
            supporters(votes, direction).insert(name)
        } else {
            supporters(votes, direction).remove(name)
        },
{
    let after = supporters(votes.insert(name, choice), direction);
    if choice == direction {
        assert(after =~= supporters(votes, direction).insert(name));
    } else {
        assert(after =~= supporters(votes, direction).remove(name));
    }
}

/// Among players listed once each, the number of votes for a direction is
/// the number of times it occurs in the list of their choices.
proof fn lemma_tally_is_occurrences(
    names: Seq<Seq<char>>,
    choices: Seq<Direction>,
    direction: Direction,
)
    requires
        names.no_duplicates(),
        names.len() == choices.len(),
    ensures
        tally(table(names, choices), direction) == occurrences(choices, direction),
    decreases names.len(),
{
    let votes = table(names, choices);
    lemma_table_dom(names, choices);
    if names.len() == 0 {
        assert(supporters(votes, direction) =~= Set::<Seq<char>>::empty());
    } else {
        let fewer = names.drop_last();
        let earlier = choices.drop_last();
        let name = names.last();
        let choice = choices.last();
        assert(names =~= fewer.push(name));
        assert(choices =~= earlier.push(choice));
        assert(!fewer.contains(name)) by {
            if fewer.contains(name) {
                let i = fewer.index_of(name);
                assert(names[i] == names[names.len() - 1]);
            }
        }
        lemma_table_push(fewer, earlier, name, choice);
        lemma_tally_is_occurrences(fewer, earlier, direction);
        let before = table(fewer, earlier);
        lemma_table_dom(fewer, earlier);
        lemma_supporters_insert(before, name, choice, direction);
        before.dom().lemma_len_filter(|n: Seq<char>| before[n] == direction);
        assert(!supporters(before, direction).contains(name));
        if choice != direction {
            assert(supporters(before, direction).remove(name) =~= supporters(before, direction));
        }
    }
}

/// A vote counts once, whatever its player voted before: it counts for the
/// chosen direction, and the player counts for no other direction any more.
pub proof fn lemma_one_vote_per_player(
    votes: Map<Seq<char>, Direction>,
    name: Seq<char>,
    choice: Direction,
    direction: Direction,
)
    requires
        votes.dom().finite(),
    ensures
        tally(votes.insert(name, choice), direction) == tally(votes.remove(name), direction) + if choice
            == direction {
            1nat
        } else {
            0nat
        },
        votes.insert(name, choice).insert(name, choice) == votes.insert(name, choice),
{
    let others = votes.remove(name);
    assert(others.insert(name, choice) =~= votes.insert(name, choice));
    lemma_supporters_insert(others, name, choice, direction);
    others.dom().lemma_len_filter(|n: Seq<char>| others[n] == direction);
    assert(!supporters(others, direction).contains(name));
    if choice != direction {
        assert(supporters(others, direction).remove(name) =~= supporters(others, direction));
    }
    assert(votes.insert(name, choice).insert(name, choice) =~= votes.insert(name, choice));
}

/// The chosen direction has at least one vote and no fewer votes than any
/// other direction.
pub proof fn lemma_leader_has_most_votes(votes: Map<Seq<char>, Direction>, other: Direction)
    requires
        leader(votes) is Some,
    ensures
        tally(votes, leader(votes).unwrap()) > 0,
        tally(votes, leader(votes).unwrap()) >= tally(votes, other),
{
}

/// A direction with more votes than every other direction is the chosen one.
pub proof fn lemma_majority_leads(votes: Map<Seq<char>, Direction>, direction: Direction)
    requires
        forall|other: Direction| other != direction ==> tally(votes, other) < tally(votes, direction),
    ensures
        leader(votes) == Some(direction),
{
    assert(direction != Direction::North ==> tally(votes, Direction::North) < tally(
        votes,
        direction,
    ));
    assert(direction != Direction::South ==> tally(votes, Direction::South) < tally(
        votes,
        direction,
    ));
    assert(direction != Direction::East ==> tally(votes, Direction::East) < tally(
        votes,
        direction,
    ));
    assert(direction != Direction::West ==> tally(votes, Direction::West) < tally(
        votes,
        direction,
    ));
}

/// No direction is chosen exactly if nobody has voted.
pub proof fn lemma_no_leader_without_votes(votes: Map<Seq<char>, Direction>)
    requires
        votes.dom().finite(),
    ensures
        leader(votes) is None <==> votes.dom().is_empty(),
{
    votes.dom().lemma_len_filter(|n: Seq<char>| votes[n] == Direction::North);
    votes.dom().lemma_len_filter(|n: Seq<char>| votes[n] == Direction::South);
    votes.dom().lemma_len_filter(|n: Seq<char>| votes[n] == Direction::East);
    votes.dom().lemma_len_filter(|n: Seq<char>| votes[n] == Direction::West);
    if votes.dom().is_empty() {
        assert(supporters(votes, Direction::North) =~= Set::<Seq<char>>::empty());
        assert(supporters(votes, Direction::South) =~= Set::<Seq<char>>::empty());
        assert(supporters(votes, Direction::East) =~= Set::<Seq<char>>::empty());
        assert(supporters(votes, Direction::West) =~= Set::<Seq<char>>::empty());
    } else {
        let name = votes.dom().choose();
        let choice = votes[name];
        assert(supporters(votes, choice).contains(name));
        assert(supporters(votes, choice).len() > 0) by {
            if supporters(votes, choice).len() == 0 {
                vstd::set_lib::lemma_set_empty_equivalency_len(supporters(votes, choice));
            }
        }
    }
}

/// The latest vote of each player who has voted.
pub struct RequestedDirection {
    voters: Roster,
    choices: Vec<Direction>,
}

impl View for RequestedDirection {
    type V = Map<Seq<char>, Direction>;

    /// The vote of each player who has one.
    closed spec fn view(&self) -> Map<Seq<char>, Direction> {
        table(self.voters.names(), self.choices@)
    }
}

impl RequestedDirection {
    /// Each voter is listed once, with one vote.
    pub closed spec fn wf(&self) -> bool {
        &&& self.voters.wf()
        &&& self.voters.names().len() == self.choices@.len()
    }

    /// Only finitely many players have a vote.
    pub proof fn lemma_finite(&self)
        ensures
            self@.dom().finite(),
    {
        lemma_table_dom(self.voters.names(), self.choices@);
    }

    /// No votes.
    pub fn new() -> (votes: RequestedDirection)
        ensures
            votes.wf(),
            votes@ == Map::<Seq<char>, Direction>::empty(),
    {
        let votes = RequestedDirection { voters: Roster::new(), choices: Vec::new() };
        assert(votes@ =~= Map::<Seq<char>, Direction>::empty());
        votes
    }

    /// Records that `user_id` wants to go in `direction`. This replaces the
    /// player's earlier vote: however often a player votes, only the latest
    /// vote counts.
    pub fn add_direction(&mut self, user_id: &str, direction: Direction)
        requires
            old(self).wf(),
        ensures
            final(self).wf(),
            final(self)@ == old(self)@.insert(user_id@, direction),
    {
        let name = user_id.to_owned();
        match self.voters.position(&name) {
            Some(place) => {
                proof {
                    lemma_table_update(
                        self.voters.names(),
                        self.choices@,
                        place as int,
                        direction,
                    );
                }
                self.choices.set(place, direction);
            },
            None => {
                proof {
                    lemma_table_push(self.voters.names(), self.choices@, name@, direction);
                }
                self.voters.insert(name);
                self.choices.push(direction);
            },
        }
    }

    /// Forgets every vote.
    pub fn clear(&mut self)
        ensures
            final(self).wf(),
            final(self)@ == Map::<Seq<char>, Direction>::empty(),
    {
        self.voters.clear();
        self.choices.clear();
        assert(self@ =~= Map::<Seq<char>, Direction>::empty());
    }

    /// The direction with the most votes, or `None` where nobody has voted.
    /// Where several directions share the highest count, the first of them
    /// in the order north, south, east, west is returned.
    pub fn calculate_direction(&self) -> (winner: Option<Direction>)
        requires
            self.wf(),
        ensures
            winner == leader(self@),
    {
        let mut north: usize = 0;
        let mut south: usize = 0;
        let mut east: usize = 0;
        let mut west: usize = 0;
        let mut index: usize = 0;
        while index < self.choices.len()
            invariant
                index <= self.choices@.len(),
                north <= index,
                south <= index,
                east <= index,
                west <= index,
                north == occurrences(self.choices@.subrange(0, index as int), Direction::North),
                south == occurrences(self.choices@.subrange(0, index as int), Direction::South),
                east == occurrences(self.choices@.subrange(0, index as int), Direction::East),
                west == occurrences(self.choices@.subrange(0, index as int), Direction::West),
            decreases self.choices@.len() - index,
        {
            assert(self.choices@.subrange(0, index + 1).drop_last() == self.choices@.subrange(
                0,
                index as int,
            ));
            match self.choices[index] {
                Direction::North => {
                    north += 1;
                },
                Direction::South => {
                    south += 1;
                },
                Direction::East => {
                    east += 1;
                },
                Direction::West => {
                    west += 1;
                },
            }
            index += 1;
        }
        proof {
            assert(self.choices@.subrange(0, index as int) == self.choices@);
            lemma_tally_is_occurrences(self.voters.names(), self.choices@, Direction::North);
            lemma_tally_is_occurrences(self.voters.names(), self.choices@, Direction::South);
            lemma_tally_is_occurrences(self.voters.names(), self.choices@, Direction::East);
            lemma_tally_is_occurrences(self.voters.names(), self.choices@, Direction::West);
        }
        if north == 0 && south == 0 && east == 0 && west == 0 {
            None
        } else if north >= south && north >= east && north >= west {
            Some(Direction::North)
        } else if south >= east && south >= west {
            Some(Direction::South)
        } else if east >= west {
            Some(Direction::East)
        } else {
            Some(Direction::West)
        }
    }

    /// The number of players who have a vote.
    pub fn len(&self) -> (len: usize)
        requires
            self.wf(),
        ensures
            len == self@.dom().len(),
    {
        proof {
            lemma_table_dom(self.voters.names(), self.choices@);
            self.voters.names().unique_seq_to_set();
        }
        self.voters.len()
    }
}

} // verus!
