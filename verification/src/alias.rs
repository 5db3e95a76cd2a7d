//! The path alias table: every path that enters the conversation gets a
//! small number, which it keeps for the life of the session.
//!
//! The table is not stored. It is the path lists of all turns, read one after
//! the other; the alias of a path is the place where it first stands.

use vstd::prelude::*;
use crate::agent::Agent;
use crate::exchange::{turns, Exchange, ExchangeView};
use crate::text::texts;

verus! {

/// The path lists of all turns, one after the other.
pub open spec fn all_paths(exchanges: Seq<ExchangeView>) -> Seq<Seq<char>>
    decreases exchanges.len(),
{
    if exchanges.len() == 0 {
        Seq::<Seq<char>>::empty()
    } else {
        all_paths(exchanges.drop_last()) + exchanges.last().paths
    }
}

/// The place where `path` first stands in `paths`, if it stands there at all.
pub open spec fn position(paths: Seq<Seq<char>>, path: Seq<char>) -> Option<int>
    decreases paths.len(),
{
    if paths.len() == 0 {
        None
    } else {
        match position(paths.drop_last(), path) {
            Some(i) => Some(i),
            None => if paths.last() == path {
                Some(paths.len() - 1)
            } else {
                None
            },
        }
    }
}

/// The alias given to `path` by a table that holds `paths`, and the table
/// afterwards: a path that is known keeps its place and the table stays; a new
/// one goes to the end.
pub open spec fn aliased(paths: Seq<Seq<char>>, path: Seq<char>) -> (int, Seq<Seq<char>>) {
    match position(paths, path) {
        Some(i) => (i, paths),
        None => (paths.len() as int, paths.push(path)),
    }
}

/// `position` finds the first place of a path and nothing else.
pub proof fn lemma_position(paths: Seq<Seq<char>>, path: Seq<char>)
    ensures
        match position(paths, path) {
            Some(i) => 0 <= i < paths.len() && paths[i] == path && forall|j: int|
                0 <= j < i ==> paths[j] != path,
            None => forall|j: int| 0 <= j < paths.len() ==> paths[j] != path,
        },
    decreases paths.len(),
{
    if paths.len() > 0 {
        let front = paths.drop_last();
        lemma_position(front, path);
        assert forall|j: int| 0 <= j < front.len() implies front[j] == paths[j] by {}
        match position(front, path) {
            Some(i) => {
                assert(front[i] == paths[i]);
            },
            None => {
                assert forall|j: int| 0 <= j < paths.len() - 1 implies paths[j] != path by {
                    assert(front[j] == paths[j]);
                }
            },
        }
    }
}

/// A place found in a table is still the place after the table has grown.
pub proof fn lemma_position_grows(paths: Seq<Seq<char>>, more: Seq<Seq<char>>, path: Seq<char>)
    ensures
        position(paths, path) is Some ==> position(paths + more, path) == position(paths, path),
    decreases more.len(),
{
    if more.len() == 0 {
        assert(paths + more =~= paths);
    } else {
        lemma_position_grows(paths, more.drop_last(), path);
        assert((paths + more).drop_last() =~= paths + more.drop_last());
    }
}

/// Alias stability. Asking for the alias of a path a second time gives the
/// same number and leaves the table as it is; every alias given before stays;
/// two paths that differ never share a number; and a path that is new gets the
/// number of paths that were there, so that numbers go by first appearance.
pub proof fn lemma_alias_stable(paths: Seq<Seq<char>>, path: Seq<char>, other: Seq<char>)
    ensures
        ({
            let (alias, table) = aliased(paths, path);
            &&& aliased(table, path) == (alias, table)
            &&& 0 <= alias < table.len() && table[alias] == path
            &&& position(paths, path) is None ==> alias == paths.len()
            &&& position(paths, other) is Some ==> position(table, other) == position(paths, other)
            &&& other != path ==> aliased(table, other).0 != alias
        }),
{
    let (alias, table) = aliased(paths, path);
    lemma_position(paths, path);
    lemma_position(table, path);
    lemma_position(table, other);
    lemma_position_grows(paths, seq![path], other);
    assert(paths + seq![path] =~= paths.push(path));
    if position(paths, path) is None {
        assert(table.drop_last() =~= paths);
    }
}

/// The path list of the last turn grown by `path`; the rest as it was.
pub open spec fn with_path(exchanges: Seq<ExchangeView>, path: Seq<char>) -> Seq<ExchangeView>
    recommends
        exchanges.len() > 0,
{
    exchanges.update(
        exchanges.len() - 1,
        ExchangeView { paths: exchanges.last().paths.push(path), ..exchanges.last() },
    )
}

/// Adding a path to the last turn adds it to the end of the table.
pub proof fn lemma_with_path(exchanges: Seq<ExchangeView>, path: Seq<char>)
    requires
        exchanges.len() > 0,
    ensures
        all_paths(with_path(exchanges, path)) == all_paths(exchanges).push(path),
{
    let grown = with_path(exchanges, path);
    assert(grown.drop_last() =~= exchanges.drop_last());
    assert(all_paths(grown) =~= all_paths(exchanges).push(path));
}

/// Looks `path` up in `paths`.
pub fn find_path(paths: &Vec<String>, path: &str) -> (found: Option<usize>)
    ensures
        match found {
            Some(i) => position(texts(paths@), path@) == Some(i as int),
            None => position(texts(paths@), path@) is None,
        },
{
    let wanted = path.to_owned();
    let mut i: usize = 0;
    while i < paths.len()
        invariant
            i <= paths.len(),
            wanted@ == path@,
            position(texts(paths@).take(i as int), path@) is None,
        decreases paths.len() - i,
    {
        assert(texts(paths@).take(i + 1).drop_last() =~= texts(paths@).take(i as int));
        if paths[i] == wanted {
            proof {
                lemma_position_grows(
                    texts(paths@).take(i + 1),
                    texts(paths@).skip(i + 1),
                    path@,
                );
                assert(texts(paths@).take(i + 1) + texts(paths@).skip(i + 1) =~= texts(paths@));
            }
            return Some(i);
        }
        i += 1;
    }
    assert(texts(paths@).take(i as int) =~= texts(paths@));
    None
}

impl Agent {
    /// The paths that have entered the conversation, in the order they did:
    /// the alias table.
    pub fn paths(&self) -> (paths: Vec<String>)
        ensures
            texts(paths@) == all_paths(self@.exchanges),
    {
        let mut paths: Vec<String> = Vec::new();
        let mut i: usize = 0;
        assert(turns(self.exchanges@).take(0) =~= Seq::<ExchangeView>::empty());
        while i < self.exchanges.len()
            invariant
                i <= self.exchanges.len(),
                texts(paths@) == all_paths(turns(self.exchanges@).take(i as int)),
            decreases self.exchanges.len() - i,
        {
            let turn: &Exchange = &self.exchanges[i];
            let ghost before = texts(paths@);
            let mut j: usize = 0;
            while j < turn.paths.len()
                invariant
                    j <= turn.paths.len(),
                    texts(paths@) == before + texts(turn.paths@).take(j as int),
                decreases turn.paths.len() - j,
            {
                let ghost prior = paths@;
                paths.push(turn.paths[j].clone());
                assert(texts(paths@) =~= texts(prior).push(turn.paths@[j as int]@));
                assert(texts(turn.paths@).take(j + 1) =~= texts(turn.paths@).take(j as int).push(
                    turn.paths@[j as int]@,
                ));
                j += 1;
            }
            proof {
                assert(texts(turn.paths@).take(j as int) =~= texts(turn.paths@));
                let upto = turns(self.exchanges@).take(i + 1);
                assert(upto.drop_last() =~= turns(self.exchanges@).take(i as int));
                assert(upto.last() == turn@);
            }
            i += 1;
        }
        assert(turns(self.exchanges@).take(i as int) =~= turns(self.exchanges@));
        paths
    }

    /// The alias of `path`. A path that has an alias keeps it, and the session
    /// stays as it is; a new path is added to the active turn and gets the
    /// number of paths that were there before.
    pub fn get_path_alias(&mut self, path: &str) -> (alias: usize)
        requires
            old(self)@.exchanges.len() > 0,
        ensures
            (alias as int, all_paths(final(self)@.exchanges)) == aliased(
                all_paths(old(self)@.exchanges),
                path@,
            ),
            position(all_paths(old(self)@.exchanges), path@) is Some ==> final(self)@ == old(
                self,
            )@,
            position(all_paths(old(self)@.exchanges), path@) is None ==> final(self)@ == (
            crate::agent::AgentView {
                exchanges: with_path(old(self)@.exchanges, path@),
                ..old(self)@
            }),
    {
        let paths = self.paths();
        match find_path(&paths, path) {
            Some(i) => i,
            None => {
                let alias = paths.len();
                let ghost before = self.exchanges@;
                self.last_exchange_mut().paths.push(path.to_owned());
                proof {
                    assert(texts(self.exchanges@.last().paths@) =~= texts(
                        before.last().paths@,
                    ).push(path@));
                    assert(turns(self.exchanges@) =~= with_path(turns(before), path@));
                    lemma_with_path(turns(before), path@);
                }
                alias
            },
        }
    }
}

} // verus!
