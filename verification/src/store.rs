//! The identity store: the durable set of chat-id/game-id links.
//!
//! The store owns every mapping row. All reads and writes go through its
//! lookup and `upsert` operations, and `upsert` keeps both uniqueness
//! invariants: no two rows share a chat id, and no two rows share a game id.

use vstd::prelude::*;

verus! {

/// A persisted link between a chat-platform account (`chat_id`) and a
/// game-platform account (`game_id`, a 128-bit identifier).
#[derive(Clone, Copy, Debug, PartialEq, Eq, Structural)]
pub struct IdentityMapping {
    pub chat_id: u64,
    pub game_id: u128,
}

/// What an `upsert` did, or why it refused.
#[derive(Clone, Copy, Debug, PartialEq, Eq, Structural)]
pub enum UpsertOutcome {
    /// No row for the chat id existed; one was inserted.
    Created,
    /// A row with exactly this chat id and game id already existed; nothing
    /// was written.
    AlreadyLinked,
    /// A row for the chat id existed with a different game id; its game id
    /// was replaced in place.
    Updated,
    /// The game id is already linked to a different chat id; nothing was
    /// written.
    Conflict,
}

/// No two rows share a chat id.
pub open spec fn chat_ids_unique(rows: Seq<IdentityMapping>) -> bool {
    forall|i: int, j: int|
        0 <= i < rows.len() && 0 <= j < rows.len() && i != j ==> rows[i].chat_id != rows[j].chat_id
}

/// No two rows share a game id.
pub open spec fn game_ids_unique(rows: Seq<IdentityMapping>) -> bool {
    forall|i: int, j: int|
        0 <= i < rows.len() && 0 <= j < rows.len() && i != j ==> rows[i].game_id != rows[j].game_id
}

/// The store invariant: both identifiers are unique across rows.
pub open spec fn rows_wf(rows: Seq<IdentityMapping>) -> bool {
    chat_ids_unique(rows) && game_ids_unique(rows)
}

/// Some row carries this chat id.
pub open spec fn has_chat(rows: Seq<IdentityMapping>, chat_id: u64) -> bool {
    exists|i: int| 0 <= i < rows.len() && rows[i].chat_id == chat_id
}

/// Some row carries this game id.
pub open spec fn has_game(rows: Seq<IdentityMapping>, game_id: u128) -> bool {
    exists|i: int| 0 <= i < rows.len() && rows[i].game_id == game_id
}

/// Some row is exactly this pair.
pub open spec fn has_pair(rows: Seq<IdentityMapping>, chat_id: u64, game_id: u128) -> bool {
    exists|i: int| 0 <= i < rows.len() && rows[i].chat_id == chat_id && rows[i].game_id == game_id
}

/// The outcome `upsert` reports for this pair against these rows.
pub open spec fn spec_upsert_outcome(
    rows: Seq<IdentityMapping>,
    chat_id: u64,
    game_id: u128,
) -> UpsertOutcome {
    if has_pair(rows, chat_id, game_id) {
        UpsertOutcome::AlreadyLinked
    } else if has_game(rows, game_id) {
        UpsertOutcome::Conflict
    } else if has_chat(rows, chat_id) {
        UpsertOutcome::Updated
    } else {
        UpsertOutcome::Created
    }
}

/// The rows after `upsert` of this pair: unchanged on `AlreadyLinked` and
/// `Conflict`, the chat id's row rewritten on `Updated`, a new row appended
/// on `Created`.
pub open spec fn spec_upsert_rows(
    rows: Seq<IdentityMapping>,
    chat_id: u64,
    game_id: u128,
) -> Seq<IdentityMapping> {
    match spec_upsert_outcome(rows, chat_id, game_id) {
        UpsertOutcome::AlreadyLinked => rows,
        UpsertOutcome::Conflict => rows,
        UpsertOutcome::Updated => rows.map_values(
            |r: IdentityMapping|
                if r.chat_id == chat_id {
                    IdentityMapping { chat_id, game_id }
                } else {
                    r
                },
        ),
        UpsertOutcome::Created => rows.push(IdentityMapping { chat_id, game_id }),
    }
}

/// The identity store. The row vector is private: callers see it only
/// through the view and the operations below.
pub struct IdentityStore {
    rows: Vec<IdentityMapping>,
}

impl View for IdentityStore {
    type V = Seq<IdentityMapping>;

    closed spec fn view(&self) -> Seq<IdentityMapping> {
        self.rows@
    }
}

impl IdentityStore {
    /// The store invariant, over the view.
    pub open spec fn wf(&self) -> bool {
        rows_wf(self@)
    }

    /// An empty store.
    pub fn new() -> (s: Self)
        ensures
            s@ == Seq::<IdentityMapping>::empty(),
            s.wf(),
    {
        IdentityStore { rows: Vec::new() }
    }

    /// The number of rows.
    pub fn len(&self) -> (n: usize)
        ensures
            n == self@.len(),
    {
        self.rows.len()
    }

    /// The row for this chat id, if any.
    pub fn find_by_chat_id(&self, chat_id: u64) -> (r: Option<IdentityMapping>)
        ensures
            r is Some <==> has_chat(self@, chat_id),
            r matches Some(m) ==> self@.contains(m) && m.chat_id == chat_id,
    {
        let n = self.rows.len();
        let mut i: usize = 0;
        while i < n
            invariant
                n == self@.len(),
                0 <= i <= n,
                forall|j: int| 0 <= j < i ==> self@[j].chat_id != chat_id,
            decreases n - i,
        {
            if self.rows[i].chat_id == chat_id {
                return Some(self.rows[i]);
            }
            i += 1;
        }
        None
    }

    /// The row for this game id, if any. `None` exactly when no persisted
    /// mapping has this game id: the read path's not-found decision.
    pub fn find_by_game_id(&self, game_id: u128) -> (r: Option<IdentityMapping>)
        ensures
            r is Some <==> has_game(self@, game_id),
            r matches Some(m) ==> self@.contains(m) && m.game_id == game_id,
    {
        let n = self.rows.len();
        let mut i: usize = 0;
        while i < n
            invariant
                n == self@.len(),
                0 <= i <= n,
                forall|j: int| 0 <= j < i ==> self@[j].game_id != game_id,
            decreases n - i,
        {
            if self.rows[i].game_id == game_id {
                return Some(self.rows[i]);
            }
            i += 1;
        }
        None
    }

    /// All rows, in storage order.
    pub fn list_all(&self) -> (r: Vec<IdentityMapping>)
        ensures
            r@ == self@,
    {
        let n = self.rows.len();
        let mut out: Vec<IdentityMapping> = Vec::new();
        let mut i: usize = 0;
        while i < n
            invariant
                n == self@.len(),
                0 <= i <= n,
                out@ == self@.subrange(0, i as int),
            decreases n - i,
        {
            out.push(self.rows[i]);
            i += 1;
        }
        assert(self@.subrange(0, n as int) =~= self@);
        out
    }

    /// Insert or update the link for `chat_id`, refusing to steal a game id
    /// already linked to another chat id. Exactly one row for `chat_id`
    /// remains after any outcome other than `Conflict`; on `AlreadyLinked`
    /// and `Conflict` nothing is written.
    pub fn upsert(&mut self, chat_id: u64, game_id: u128) -> (r: UpsertOutcome)
        requires
            old(self).wf(),
        ensures
            final(self).wf(),
            r == spec_upsert_outcome(old(self)@, chat_id, game_id),
            final(self)@ == spec_upsert_rows(old(self)@, chat_id, game_id),
    {
        let n = self.rows.len();
        let mut i: usize = 0;
        let mut chat_idx: Option<usize> = None;
        let mut game_idx: Option<usize> = None;
        while i < n
            invariant
                n == self@.len(),
                0 <= i <= n,
                chat_idx matches Some(ci) ==> ci < i && self@[ci as int].chat_id == chat_id,
                chat_idx is None ==> forall|j: int| 0 <= j < i ==> self@[j].chat_id != chat_id,
                game_idx matches Some(gi) ==> gi < i && self@[gi as int].game_id == game_id,
                game_idx is None ==> forall|j: int| 0 <= j < i ==> self@[j].game_id != game_id,
            decreases n - i,
        {
            if chat_idx.is_none() && self.rows[i].chat_id == chat_id {
                chat_idx = Some(i);
            }
            if game_idx.is_none() && self.rows[i].game_id == game_id {
                game_idx = Some(i);
            }
            i += 1;
        }
        let ghost old_rows = self@;
        match game_idx {
            Some(gi) => {
                if self.rows[gi].chat_id == chat_id {
                    assert(has_pair(old_rows, chat_id, game_id));
                    UpsertOutcome::AlreadyLinked
                } else {
                    assert(has_game(old_rows, game_id));
                    assert(!has_pair(old_rows, chat_id, game_id)) by {
                        assert(forall|k: int|
                            0 <= k < old_rows.len() && old_rows[k].game_id == game_id ==> k
                                == gi as int);
                    }
                    UpsertOutcome::Conflict
                }
            },
            None => {
                assert(!has_game(old_rows, game_id));
                assert(!has_pair(old_rows, chat_id, game_id));
                match chat_idx {
                    Some(ci) => {
                        self.rows.set(ci, IdentityMapping { chat_id, game_id });
                        assert(has_chat(old_rows, chat_id));
                        assert(self@ =~= spec_upsert_rows(old_rows, chat_id, game_id)) by {
                            assert(forall|k: int|
                                0 <= k < old_rows.len() && k != ci as int ==> old_rows[k].chat_id
                                    != chat_id);
                        }
                        assert(self.wf()) by {
                            let new_rows = self@;
                            assert(forall|k: int|
                                0 <= k < new_rows.len() && k != ci as int ==> new_rows[k]
                                    == old_rows[k]);
                        }
                        UpsertOutcome::Updated
                    },
                    None => {
                        self.rows.push(IdentityMapping { chat_id, game_id });
                        assert(!has_chat(old_rows, chat_id));
                        assert(self.wf()) by {
                            let new_rows = self@;
                            assert(forall|k: int|
                                0 <= k < old_rows.len() ==> new_rows[k] == old_rows[k]);
                        }
                        UpsertOutcome::Created
                    },
                }
            },
        }
    }
}

/// Uniqueness is preserved: starting from rows where no two share a chat id
/// and no two share a game id, any upsert leaves rows with the same property.
/// So after any sequence of upserts from an empty store, no two rows share
/// a chat id and no two rows share a game id.
pub proof fn lemma_upsert_preserves_uniqueness(rows: Seq<IdentityMapping>, chat_id: u64, game_id: u128)
    requires
        rows_wf(rows),
    ensures
        rows_wf(spec_upsert_rows(rows, chat_id, game_id)),
{
    let after = spec_upsert_rows(rows, chat_id, game_id);
    match spec_upsert_outcome(rows, chat_id, game_id) {
        UpsertOutcome::AlreadyLinked => {},
        UpsertOutcome::Conflict => {},
        UpsertOutcome::Updated => {
            let ci = choose|i: int| 0 <= i < rows.len() && rows[i].chat_id == chat_id;
            assert(forall|k: int|
                0 <= k < rows.len() && rows[k].chat_id == chat_id ==> k == ci);
            assert(forall|k: int| 0 <= k < rows.len() && k != ci ==> after[k] == rows[k]);
        },
        UpsertOutcome::Created => {
            assert(forall|k: int| 0 <= k < rows.len() ==> after[k] == rows[k]);
        },
    }
}

/// Idempotence: once a link for this pair went through (any outcome but
/// `Conflict`), linking the same pair again reports `AlreadyLinked` and
/// changes no row, however often it is repeated.
pub proof fn lemma_upsert_idempotent(rows: Seq<IdentityMapping>, chat_id: u64, game_id: u128)
    requires
        rows_wf(rows),
        spec_upsert_outcome(rows, chat_id, game_id) != UpsertOutcome::Conflict,
    ensures
        spec_upsert_outcome(spec_upsert_rows(rows, chat_id, game_id), chat_id, game_id)
            == UpsertOutcome::AlreadyLinked,
        spec_upsert_rows(spec_upsert_rows(rows, chat_id, game_id), chat_id, game_id)
            == spec_upsert_rows(rows, chat_id, game_id),
{
    let after = spec_upsert_rows(rows, chat_id, game_id);
    match spec_upsert_outcome(rows, chat_id, game_id) {
        UpsertOutcome::AlreadyLinked => {},
        UpsertOutcome::Conflict => {},
        UpsertOutcome::Updated => {
            let ci = choose|i: int| 0 <= i < rows.len() && rows[i].chat_id == chat_id;
            assert(after[ci] == IdentityMapping { chat_id, game_id });
            assert(has_pair(after, chat_id, game_id));
        },
        UpsertOutcome::Created => {
            assert(after[rows.len() as int] == IdentityMapping { chat_id, game_id });
            assert(has_pair(after, chat_id, game_id));
        },
    }
}

/// Conflict safety: when the game id is already owned by a different chat
/// id, the upsert reports `Conflict` and every row, the owner's included,
/// is left exactly as it was.
pub proof fn lemma_conflict_leaves_rows(
    rows: Seq<IdentityMapping>,
    chat_id: u64,
    game_id: u128,
    owner: int,
)
    requires
        rows_wf(rows),
        0 <= owner < rows.len(),
        rows[owner].game_id == game_id,
        rows[owner].chat_id != chat_id,
    ensures
        spec_upsert_outcome(rows, chat_id, game_id) == UpsertOutcome::Conflict,
        spec_upsert_rows(rows, chat_id, game_id) == rows,
{
    assert(forall|k: int|
        0 <= k < rows.len() && rows[k].game_id == game_id ==> k == owner);
}

/// Race safety: two upserts for the same chat id, serialized in either
/// order at the store, end with exactly one row for that chat id, provided
/// the first one went through. The store never holds two rows for one chat
/// id, whatever interleaving delivered the two commands; and unless the
/// later command hit a conflict, the last writer's game id is the one that
/// remains.
pub proof fn lemma_same_chat_race_single_row(
    rows: Seq<IdentityMapping>,
    chat_id: u64,
    first_game: u128,
    second_game: u128,
)
    requires
        rows_wf(rows),
        spec_upsert_outcome(rows, chat_id, first_game) != UpsertOutcome::Conflict,
    ensures
        ({
            let r2 = spec_upsert_rows(
                spec_upsert_rows(rows, chat_id, first_game),
                chat_id,
                second_game,
            );
            rows_wf(r2) && has_chat(r2, chat_id) && (forall|i: int, j: int|
                0 <= i < r2.len() && 0 <= j < r2.len() && r2[i].chat_id == chat_id
                    && r2[j].chat_id == chat_id ==> i == j)
        }),
        ({
            let r1 = spec_upsert_rows(rows, chat_id, first_game);
            let r2 = spec_upsert_rows(r1, chat_id, second_game);
            spec_upsert_outcome(r1, chat_id, second_game) != UpsertOutcome::Conflict
                ==> (forall|i: int|
                0 <= i < r2.len() && r2[i].chat_id == chat_id ==> r2[i].game_id == second_game)
        }),
{
    let r1 = spec_upsert_rows(rows, chat_id, first_game);
    lemma_upsert_preserves_uniqueness(rows, chat_id, first_game);
    lemma_upsert_preserves_uniqueness(r1, chat_id, second_game);
    let r2 = spec_upsert_rows(r1, chat_id, second_game);
    assert(has_chat(r1, chat_id)) by {
        match spec_upsert_outcome(rows, chat_id, first_game) {
            UpsertOutcome::AlreadyLinked => {
                let i = choose|i: int|
                    0 <= i < rows.len() && rows[i].chat_id == chat_id && rows[i].game_id
                        == first_game;
                assert(r1[i].chat_id == chat_id);
            },
            UpsertOutcome::Conflict => {},
            UpsertOutcome::Updated => {
                let ci = choose|i: int| 0 <= i < rows.len() && rows[i].chat_id == chat_id;
                assert(r1[ci].chat_id == chat_id);
            },
            UpsertOutcome::Created => {
                assert(r1[rows.len() as int].chat_id == chat_id);
            },
        }
    }
    assert(has_chat(r2, chat_id)) by {
        let i = choose|i: int| 0 <= i < r1.len() && r1[i].chat_id == chat_id;
        match spec_upsert_outcome(r1, chat_id, second_game) {
            UpsertOutcome::AlreadyLinked => {
                assert(r2[i].chat_id == chat_id);
            },
            UpsertOutcome::Conflict => {
                assert(r2[i].chat_id == chat_id);
            },
            UpsertOutcome::Updated => {
                let ci = choose|j: int| 0 <= j < r1.len() && r1[j].chat_id == chat_id;
                assert(r2[ci].chat_id == chat_id);
            },
            UpsertOutcome::Created => {
                assert(r2[r1.len() as int].chat_id == chat_id);
            },
        }
    }
    match spec_upsert_outcome(r1, chat_id, second_game) {
        UpsertOutcome::AlreadyLinked => {
            let k = choose|k: int|
                0 <= k < r1.len() && r1[k].chat_id == chat_id && r1[k].game_id == second_game;
            assert(forall|i: int|
                0 <= i < r2.len() && r2[i].chat_id == chat_id ==> i == k && r2[i].game_id
                    == second_game);
        },
        UpsertOutcome::Conflict => {},
        UpsertOutcome::Updated => {},
        UpsertOutcome::Created => {
            assert(forall|i: int|
                0 <= i < r2.len() && r2[i].chat_id == chat_id ==> i == r1.len() as int);
        },
    }
}

} // verus!
