//! The chat log tool: who said what.
use vstd::prelude::*;
use crate::players::PlayerStateData;
use crate::types::AccountId;

verus! {

/// Builds the chat logger.
pub struct ChatLoggerBuilder;

impl ChatLoggerBuilder {
    pub fn new() -> (r: ChatLoggerBuilder)
        ensures
            r == ChatLoggerBuilder,
    {
        ChatLoggerBuilder
    }
}

impl Default for ChatLoggerBuilder {
    fn default() -> (r: Self)
        ensures
            r == ChatLoggerBuilder,
    {
        Self::new()
    }
}

/// The user names of the players of a battle, by account id (as the `i32`
/// that chat messages carry). A later entry for an id replaces an earlier
/// one.
pub struct UsernameBook {
    pub entries: Vec<(i32, String)>,
}

/// The name recorded for `id`: the last entry for it.
pub open spec fn book_lookup(entries: Seq<(i32, String)>, id: i32) -> Option<Seq<char>>
    decreases entries.len(),
{
    if entries.len() == 0 {
        None
    } else if entries.last().0 == id {
        Some(entries.last().1@)
    } else {
        book_lookup(entries.drop_last(), id)
    }
}

/// Names recorded later win: a lookup in a book extended by `newer` gives
/// the name that `newer` holds for the id, and only where it holds none the
/// one of the older entries.
pub proof fn lemma_newer_names_win(older: Seq<(i32, String)>, newer: Seq<(i32, String)>, id: i32)
    ensures
        book_lookup(older + newer, id) == match book_lookup(newer, id) {
            Some(n) => Some(n),
            None => book_lookup(older, id),
        },
    decreases newer.len(),
{
    if newer.len() == 0 {
        assert(older + newer =~= older);
    } else {
        assert((older + newer).drop_last() =~= older + newer.drop_last());
        lemma_newer_names_win(older, newer.drop_last(), id);
    }
}

/// The account id of a player as the `i32` that chat messages carry, when
/// it fits.
pub open spec fn chat_id(id: AccountId) -> Option<i32> {
    if id.0 <= i32::MAX {
        Some(id.0 as i32)
    } else {
        None
    }
}

impl UsernameBook {
    pub fn new() -> (r: UsernameBook)
        ensures
            r.entries@.len() == 0,
    {
        UsernameBook { entries: Vec::new() }
    }

    /// Records the names of the players of an arena state; `false`, with the
    /// book unchanged, when a player's account id does not fit an `i32`.
    pub fn record_players(&mut self, players: &Vec<PlayerStateData>) -> (ok: bool)
        ensures
            ok == forall|k: int| 0 <= k < players@.len() ==> #[trigger] chat_id(players@[k].meta_ship_id) is Some,
            !ok ==> final(self).entries@ == old(self).entries@,
            ok ==> final(self).entries@.len() == old(self).entries@.len() + players@.len()
                && final(self).entries@.subrange(0, old(self).entries@.len() as int) == old(self).entries@
                && forall|k: int|
                0 <= k < players@.len() ==> {
                    let e = #[trigger] final(self).entries@[old(self).entries@.len() + k];
                    &&& Some(e.0) == chat_id(players@[k].meta_ship_id)
                    &&& e.1@ == players@[k].username@
                },
    {
        let mut k: usize = 0;
        while k < players.len()
            invariant
                k <= players@.len(),
                forall|j: int| 0 <= j < k ==> #[trigger] chat_id(players@[j].meta_ship_id) is Some,
            decreases players@.len() - k,
        {
            if players[k].meta_ship_id.0 > 0x7fff_ffff {
                assert(chat_id(players@[k as int].meta_ship_id) is None);
                return false;
            }
            k += 1;
        }
        let ghost start = self.entries@;
        let mut k: usize = 0;
        while k < players.len()
            invariant
                k <= players@.len(),
                forall|j: int| 0 <= j < players@.len() ==> #[trigger] chat_id(players@[j].meta_ship_id) is Some,
                self.entries@.len() == start.len() + k,
                self.entries@.subrange(0, start.len() as int) == start,
                forall|j: int|
                    0 <= j < k ==> {
                        let e = #[trigger] self.entries@[start.len() + j];
                        &&& Some(e.0) == chat_id(players@[j].meta_ship_id)
                        &&& e.1@ == players@[j].username@
                    },
            decreases players@.len() - k,
        {
            let id = players[k].meta_ship_id.0 as i32;
            let name = players[k].username.clone();
            assert(chat_id(players@[k as int].meta_ship_id) is Some);
            self.entries.push((id, name));
            assert(self.entries@.subrange(0, start.len() as int) =~= start);
            k += 1;
        }
        true
    }

    /// The name of a sender, `<UNKNOWN_USERNAME>` when it is not recorded.
    pub fn name_of(&self, id: i32) -> (r: String)
        ensures
            r@ == match book_lookup(self.entries@, id) {
                Some(n) => n,
                None => "<UNKNOWN_USERNAME>"@,
            },
    {
        let mut k: usize = self.entries.len();
        assert(self.entries@.subrange(0, k as int) =~= self.entries@);
        while k > 0
            invariant
                k <= self.entries@.len(),
                book_lookup(self.entries@, id) == book_lookup(self.entries@.subrange(0, k as int), id),
            decreases k,
        {
            proof {
                assert(self.entries@.subrange(0, k as int).drop_last() =~= self.entries@.subrange(0, k - 1));
            }
            if self.entries[k - 1].0 == id {
                return self.entries[k - 1].1.clone();
            }
            k -= 1;
        }
        "<UNKNOWN_USERNAME>".to_owned()
    }
}

} // verus!
