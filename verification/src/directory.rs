//! The player directory: which registered bus names are media players.
//!
//! Media players register a bus service whose name carries a fixed namespace
//! prefix. The directory keeps exactly the names with that prefix, in the
//! order the bus reported them.

use vstd::prelude::*;

verus! {

/// The namespace prefix of a media player's bus service name.
pub open spec fn player_prefix() -> Seq<char> {
    "org.mpris.MediaPlayer2."@
}

/// Whether a registered bus name belongs to a media player.
pub open spec fn is_player_name(name: Seq<char>) -> bool {
    &&& name.len() >= player_prefix().len()
    &&& name.take(player_prefix().len() as int) == player_prefix()
}

/// The directory: the player names among the registered names, in bus order.
pub open spec fn directory_of(names: Seq<String>) -> Seq<String>
    decreases names.len(),
{
    if names.len() == 0 {
        Seq::empty()
    } else {
        let rest = directory_of(names.drop_last());
        if is_player_name(names.last()@) {
            rest.push(names.last())
        } else {
            rest
        }
    }
}

/// The first registered name that belongs to a player, if any.
pub open spec fn first_player_of(names: Seq<String>) -> Option<String>
    decreases names.len(),
{
    if names.len() == 0 {
        None
    } else if is_player_name(names[0]@) {
        Some(names[0])
    } else {
        first_player_of(names.drop_first())
    }
}

/// Decides whether a bus name carries the player namespace prefix.
pub fn name_has_player_prefix(name: &str) -> (r: bool)
    ensures
        r == is_player_name(name@),
{
    let prefix = "org.mpris.MediaPlayer2.";
    let prefix_len = prefix.unicode_len();
    if name.unicode_len() < prefix_len {
        return false;
    }
    let mut i: usize = 0;
    while i < prefix_len
        invariant
            i <= prefix_len,
            prefix_len == player_prefix().len(),
            prefix@ == player_prefix(),
            name@.len() >= prefix_len,
            forall|j: int| 0 <= j < i ==> name@[j] == player_prefix()[j],
        decreases prefix_len - i,
    {
        if name.get_char(i) != prefix.get_char(i) {
            assert(name@.take(player_prefix().len() as int)[i as int] != player_prefix()[i as int]);
            return false;
        }
        i += 1;
    }
    proof {
        assert(name@.take(player_prefix().len() as int) =~= player_prefix());
    }
    true
}

/// Keeps exactly the player names, preserving the reported order.
pub fn filter_players(names: &Vec<String>) -> (r: Vec<String>)
    ensures
        r@ == directory_of(names@),
{
    let mut out: Vec<String> = Vec::new();
    let mut i: usize = 0;
    proof {
        assert(names@.take(0) =~= Seq::<String>::empty());
    }
    while i < names.len()
        invariant
            i <= names@.len(),
            out@ == directory_of(names@.take(i as int)),
        decreases names@.len() - i,
    {
        let ghost prev = names@.take(i as int);
        if name_has_player_prefix(names[i].as_str()) {
            out.push(names[i].clone());
        }
        i += 1;
        proof {
            assert(names@.take(i as int).drop_last() =~= prev);
            assert(names@.take(i as int).last() == names@[i - 1]);
        }
    }
    proof {
        assert(names@.take(names@.len() as int) =~= names@);
    }
    out
}

/// Finds the first player name among the registered names, if any.
pub fn first_player(names: &Vec<String>) -> (r: Option<String>)
    ensures
        r == first_player_of(names@),
{
    let mut i: usize = 0;
    proof {
        assert(names@.skip(0) =~= names@);
    }
    while i < names.len()
        invariant
            i <= names@.len(),
            first_player_of(names@) == first_player_of(names@.skip(i as int)),
        decreases names@.len() - i,
    {
        let ghost before = names@.skip(i as int);
        if name_has_player_prefix(names[i].as_str()) {
            proof {
                assert(before[0] == names@[i as int]);
            }
            return Some(names[i].clone());
        }
        i += 1;
        proof {
            assert(before[0] == names@[i - 1]);
            assert(before.drop_first() =~= names@.skip(i as int));
        }
    }
    proof {
        assert(names@.skip(names@.len() as int) =~= Seq::<String>::empty());
    }
    None
}

} // verus!
