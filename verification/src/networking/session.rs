//! Registry of the connected sessions and of the players they logged in as.
use vstd::prelude::*;
use vstd::string::*;
use std::collections::HashMap;
use crate::text::{push_u64, decimal};

verus! {

broadcast use vstd::std_specs::hash::group_hash_axioms;

/// Sessions by id (with the player each logged in as, `None` before login),
/// and the session of each logged-in player.
pub struct SessionTable {
    sessions: HashMap<u64, Option<u64>>,
    player_to_session: HashMap<u64, u64>,
}

/// "Player <id> not found in sessions".
pub open spec fn player_not_found_text(player_id: u64) -> Seq<char> {
    "Player "@ + decimal(player_id as nat) + " not found in sessions"@
}

/// "Session <id> not found".
pub open spec fn session_not_found_text(session_id: u64) -> Seq<char> {
    "Session "@ + decimal(session_id as nat) + " not found"@
}

/// What `session_for_player` answers for a player, given both maps.
pub open spec fn spec_session_for_player(
    sessions: Map<u64, Option<u64>>,
    players: Map<u64, u64>,
    player_id: u64,
) -> Result<u64, Seq<char>> {
    if !players.contains_key(player_id) {
        Err(player_not_found_text(player_id))
    } else if !sessions.contains_key(players[player_id]) {
        Err(session_not_found_text(players[player_id]))
    } else {
        Ok(players[player_id])
    }
}

impl SessionTable {
    /// Sessions by id, with their logged-in player.
    pub closed spec fn sessions_view(&self) -> Map<u64, Option<u64>> {
        self.sessions@
    }

    /// The session of each logged-in player.
    pub closed spec fn players_view(&self) -> Map<u64, u64> {
        self.player_to_session@
    }

    /// No session at all.
    pub fn new() -> (t: SessionTable)
        ensures
            t.sessions_view() == Map::<u64, Option<u64>>::empty(),
            t.players_view() == Map::<u64, u64>::empty(),
    {
        SessionTable { sessions: HashMap::new(), player_to_session: HashMap::new() }
    }

    /// Registers a new session, not yet logged in (replacing any session with
    /// the same id).
    pub fn insert(&mut self, session_id: u64)
        ensures
            final(self).sessions_view() == old(self).sessions_view().insert(session_id, None),
            final(self).players_view() == old(self).players_view(),
    {
        self.sessions.insert(session_id, None);
    }

    /// Marks a session as logged in as `player_id` and maps the player to it.
    /// Does nothing for an unknown session.
    pub fn authenticate_session(&mut self, session_id: u64, player_id: u64)
        ensures
            old(self).sessions_view().contains_key(session_id) ==> final(self).sessions_view()
                == old(self).sessions_view().insert(session_id, Some(player_id))
                && final(self).players_view() == old(self).players_view().insert(
                player_id,
                session_id,
            ),
            !old(self).sessions_view().contains_key(session_id) ==> final(self).sessions_view()
                == old(self).sessions_view() && final(self).players_view() == old(
                self,
            ).players_view(),
    {
        if self.sessions.contains_key(&session_id) {
            self.sessions.insert(session_id, Some(player_id));
            self.player_to_session.insert(player_id, session_id);
        }
    }

    /// Removes a session; if it was logged in, its player's mapping goes too.
    pub fn remove(&mut self, session_id: u64)
        ensures
            final(self).sessions_view() == old(self).sessions_view().remove(session_id),
            (old(self).sessions_view().contains_key(session_id) && old(
                self,
            ).sessions_view()[session_id] is Some) ==> final(self).players_view() == old(
                self,
            ).players_view().remove(old(self).sessions_view()[session_id]->Some_0),
            !(old(self).sessions_view().contains_key(session_id) && old(
                self,
            ).sessions_view()[session_id] is Some) ==> final(self).players_view() == old(
                self,
            ).players_view(),
    {
        match self.sessions.remove(&session_id) {
            Some(Some(player_id)) => {
                self.player_to_session.remove(&player_id);
            },
            _ => {},
        }
    }

    /// Number of sessions.
    pub fn count(&self) -> (n: usize)
        ensures
            n == self.sessions_view().len(),
    {
        self.sessions.len()
    }

    /// The session to send a player's messages to: refused when the player has
    /// no session mapped, or when the mapped session is gone.
    pub fn session_for_player(&self, player_id: u64) -> (r: Result<u64, String>)
        ensures
            match (r, spec_session_for_player(self.sessions_view(), self.players_view(), player_id)) {
                (Ok(s), Ok(t)) => s == t,
                (Err(e), Err(t)) => e@ == t,
                _ => false,
            },
    {
        match self.player_to_session.get(&player_id) {
            None => {
                let mut msg = String::from_str("Player ");
                push_u64(&mut msg, player_id);
                msg.append(" not found in sessions");
                Err(msg)
            },
            Some(session_id) => {
                if self.sessions.contains_key(session_id) {
                    Ok(*session_id)
                } else {
                    let mut msg = String::from_str("Session ");
                    push_u64(&mut msg, *session_id);
                    msg.append(" not found");
                    Err(msg)
                }
            },
        }
    }
}

/// Law: once a known session logs in as a player, the player's messages go to
/// that session.
pub proof fn law_authenticated_player_reaches_session(
    sessions: Map<u64, Option<u64>>,
    players: Map<u64, u64>,
    session_id: u64,
    player_id: u64,
)
    requires
        sessions.contains_key(session_id),
    ensures
        spec_session_for_player(
            sessions.insert(session_id, Some(player_id)),
            players.insert(player_id, session_id),
            player_id,
        ) == Ok::<u64, Seq<char>>(session_id),
{
}

/// Law: once the session a player logged in with is removed, the player can no
/// longer be reached.
pub proof fn law_removed_session_unreachable(
    sessions: Map<u64, Option<u64>>,
    players: Map<u64, u64>,
    session_id: u64,
    player_id: u64,
)
    requires
        sessions.contains_key(session_id),
        sessions[session_id] == Some(player_id),
    ensures
        spec_session_for_player(sessions.remove(session_id), players.remove(player_id), player_id)
            == Err::<u64, Seq<char>>(player_not_found_text(player_id)),
{
}

} // verus!
