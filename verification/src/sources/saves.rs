//! Save-game snapshot source: an external enumerator reports the save
//! files of installed games; each reported file of a game in an
//! operative state becomes one folder entry.

use vstd::prelude::*;
use vstd::string::*;

use crate::folder::{dup_string_vec, EntryView, FolderEntry, FolderKind, FolderView};
use crate::sources::local::LocalFolder;

verus! {

/// Per-game overrides: extra tags, matched by exact game name.
#[derive(Debug)]
pub struct GameSettings {
    pub name: String,
    pub tags: Vec<String>,
}

/// One game of the enumerator's report: its name, whether its saves are
/// in an operative state, and the reported save file paths.
#[derive(Debug)]
pub struct SaveGameReport {
    pub name: String,
    pub operative: bool,
    pub files: Vec<String>,
}

/// The parsed output of the external save-game enumerator.
#[derive(Debug)]
pub struct JsonOutput {
    pub games: Vec<SaveGameReport>,
}

/// The tags of the first per-game override whose name is `name`, or
/// nothing when no override matches.
pub open spec fn spec_settings_tags_for(games: Seq<GameSettings>, name: Seq<char>) -> Seq<
    Seq<char>,
>
    decreases games.len(),
{
    if games.len() == 0 {
        Seq::empty()
    } else if games[0].name@ == name {
        games[0].tags.deep_view()
    } else {
        spec_settings_tags_for(games.drop_first(), name)
    }
}

/// With the first name match at `i`, the override tags are that entry's.
proof fn lemma_settings_at(games: Seq<GameSettings>, name: Seq<char>, i: int)
    requires
        0 <= i < games.len(),
        games[i].name@ == name,
        forall|j: int| 0 <= j < i ==> games[j].name@ != name,
    ensures
        spec_settings_tags_for(games, name) == games[i].tags.deep_view(),
    decreases i,
{
    if i > 0 {
        let q = games.drop_first();
        assert(forall|j: int| 0 <= j < i - 1 ==> q[j].name@ != name);
        lemma_settings_at(q, name, i - 1);
    }
}

/// With no name match, there are no override tags.
proof fn lemma_settings_none(games: Seq<GameSettings>, name: Seq<char>)
    requires
        forall|j: int| 0 <= j < games.len() ==> games[j].name@ != name,
    ensures
        spec_settings_tags_for(games, name) == Seq::<Seq<char>>::empty(),
    decreases games.len(),
{
    if games.len() > 0 {
        lemma_settings_none(games.drop_first(), name);
    }
}

/// The save-game snapshot source group.
#[derive(Debug)]
pub struct SaveBackup {
    pub games: Vec<GameSettings>,
    pub tags: Vec<String>,
    pub binary: Option<String>,
}

impl SaveBackup {
    /// The tags of an entry of game `name`: the group tags followed by
    /// the matching per-game override tags.
    pub open spec fn spec_tags_for_game(self, name: Seq<char>) -> Seq<Seq<char>> {
        self.tags.deep_view() + spec_settings_tags_for(self.games@, name)
    }

    /// The entries one reported game contributes: one per file when the
    /// game is operative, none otherwise.
    pub open spec fn spec_entries_of_game(self, g: SaveGameReport) -> Seq<EntryView> {
        if g.operative {
            g.files.deep_view().map_values(
                |p: Seq<char>|
                    EntryView {
                        tags: self.spec_tags_for_game(g.name@),
                        options: None,
                        folder: FolderView::Local { path: p },
                    },
            )
        } else {
            Seq::empty()
        }
    }

    /// All entries of a report, in report order.
    pub open spec fn spec_save_entries(self, report: Seq<SaveGameReport>) -> Seq<EntryView>
        decreases report.len(),
    {
        if report.len() == 0 {
            Seq::empty()
        } else {
            self.spec_save_entries(report.drop_last()) + self.spec_entries_of_game(report.last())
        }
    }

    /// The external enumerator command.
    pub open spec fn spec_enumerate_cmd(self) -> Seq<char> {
        (match self.binary {
            Some(b) => b@,
            None => "ludusavi"@,
        }) + " backup --preview --api"@
    }

    pub fn enumerate_cmd(&self) -> (r: String)
        ensures
            r@ == self.spec_enumerate_cmd(),
    {
        let b = match &self.binary {
            Some(b) => b.clone(),
            None => String::from_str("ludusavi"),
        };
        b.concat(" backup --preview --api")
    }

    /// The tags for entries of game `name`.
    fn tags_for_game(&self, name: &String) -> (r: Vec<String>)
        ensures
            r.deep_view() == self.spec_tags_for_game(name@),
    {
        let mut r = dup_string_vec(&self.tags);
        proof {
            assert(r.deep_view() =~= self.tags.deep_view());
        }
        let n = self.games.len();
        let mut i: usize = 0;
        while i < n
            invariant
                0 <= i <= n,
                n == self.games@.len(),
                r.deep_view() == self.tags.deep_view(),
                forall|j: int| 0 <= j < i ==> self.games@[j].name@ != name@,
            decreases n - i,
        {
            if self.games[i].name == *name {
                let mut extra = dup_string_vec(&self.games[i].tags);
                proof {
                    lemma_settings_at(self.games@, name@, i as int);
                }
                let ghost before = r.deep_view();
                r.append(&mut extra);
                proof {
                    assert(r.deep_view() =~= before + self.games@[i as int].tags.deep_view());
                }
                return r;
            }
            i = i + 1;
        }
        proof {
            lemma_settings_none(self.games@, name@);
            assert(r.deep_view() =~= self.spec_tags_for_game(name@));
        }
        r
    }

    /// Enumerate from the given report: one entry per reported file of
    /// each operative game, tagged with the group tags plus any
    /// per-game override tags matched by exact name.
    pub fn get_folders(&self, report: &JsonOutput) -> (r: Vec<FolderEntry<FolderKind>>)
        ensures
            r.deep_view() == self.spec_save_entries(report.games@),
    {
        let mut v: Vec<FolderEntry<FolderKind>> = Vec::new();
        proof {
            assert(v.deep_view() =~= self.spec_save_entries(report.games@.take(0)));
        }
        let gn = report.games.len();
        let mut gi: usize = 0;
        while gi < gn
            invariant
                0 <= gi <= gn,
                gn == report.games@.len(),
                v.deep_view() == self.spec_save_entries(report.games@.take(gi as int)),
            decreases gn - gi,
        {
            let g = &report.games[gi];
            if g.operative {
                let gtags = self.tags_for_game(&g.name);
                let fcount = g.files.len();
                let mut fi: usize = 0;
                while fi < fcount
                    invariant
                        0 <= fi <= fcount,
                        gi < gn,
                        gn == report.games@.len(),
                        *g == report.games@[gi as int],
                        fcount == g.files@.len(),
                        g.operative,
                        gtags.deep_view() == self.spec_tags_for_game(g.name@),
                        v.deep_view() == self.spec_save_entries(report.games@.take(gi as int))
                            + self.spec_entries_of_game(*g).take(fi as int),
                    decreases fcount - fi,
                {
                    let fe = FolderEntry {
                        tags: dup_string_vec(&gtags),
                        options: None,
                        folder: FolderKind::Local(LocalFolder { path: g.files[fi].clone() }),
                    };
                    let ghost before = v.deep_view();
                    let ghost game = *g;
                    v.push(fe);
                    proof {
                        let evs = self.spec_entries_of_game(game);
                        assert(game.files.deep_view()[fi as int] == game.files@[fi as int]@);
                        assert(evs[fi as int] == EntryView {
                            tags: self.spec_tags_for_game(game.name@),
                            options: None,
                            folder: FolderView::Local { path: game.files.deep_view()[fi as int] },
                        });
                        assert(fe.tags.deep_view() =~= gtags.deep_view());
                        assert(fe.deep_view() == evs[fi as int]);
                        assert(v.deep_view() =~= before.push(fe.deep_view()));
                        assert(before.push(evs[fi as int]) =~= self.spec_save_entries(
                            report.games@.take(gi as int),
                        ) + evs.take(fi as int + 1));
                    }
                    fi = fi + 1;
                }
                proof {
                    let game = report.games@[gi as int];
                    assert(self.spec_entries_of_game(game).take(fcount as int)
                        =~= self.spec_entries_of_game(game));
                }
            } else {
                proof {
                    assert(self.spec_entries_of_game(report.games@[gi as int])
                        =~= Seq::<EntryView>::empty());
                    assert(v.deep_view() =~= self.spec_save_entries(report.games@.take(gi as int))
                        + self.spec_entries_of_game(report.games@[gi as int]));
                }
            }
            proof {
                assert(report.games@.take(gi as int + 1).drop_last() =~= report.games@.take(
                    gi as int,
                ));
                assert(self.spec_save_entries(report.games@.take(gi as int + 1))
                    == self.spec_save_entries(report.games@.take(gi as int))
                    + self.spec_entries_of_game(report.games@[gi as int]));
            }
            gi = gi + 1;
        }
        proof {
            assert(report.games@.take(gn as int) =~= report.games@);
        }
        v
    }
}

} // verus!
