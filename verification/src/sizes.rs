//! The size reporter's bookkeeping: a per-group, per-path size table
//! and the per-folder size queries.

use vstd::prelude::*;
use vstd::string::*;

use crate::folder::FolderKind;
use crate::text;

verus! {

/// How one folder's size is obtained: a local directory walk, one
/// remote query command, or a fixed zero for ephemeral dump files.
#[derive(Debug)]
pub enum SizeQuery {
    WalkLocal { path: String },
    RemoteDu { cmd: String },
    Zero,
}

impl FolderKind {
    /// The size query of this folder.
    pub fn size_query(&self) -> (q: SizeQuery)
        ensures
            match *self {
                FolderKind::Local(f) => q matches SizeQuery::WalkLocal { path } && path == f.path,
                FolderKind::Ssh(f) => q matches SizeQuery::RemoteDu { cmd } && cmd@ == "ssh "@
                    + f.target@ + " du -s "@ + f.path@ + " 2>/dev/null | cut -f1"@,
                FolderKind::Dump(_) => q is Zero,
            },
    {
        match self {
            FolderKind::Local(f) => SizeQuery::WalkLocal { path: f.get_path() },
            FolderKind::Ssh(f) => SizeQuery::RemoteDu { cmd: f.du_cmd() },
            FolderKind::Dump(_) => SizeQuery::Zero,
        }
    }
}

/// The sizes of one group's paths, as a table of `(path, bytes)` rows.
pub open spec fn spec_group_map(entries: Seq<(String, u64)>) -> Map<Seq<char>, u64>
    decreases entries.len(),
{
    if entries.len() == 0 {
        Map::empty()
    } else {
        spec_group_map(entries.drop_last()).insert(entries.last().0@, entries.last().1)
    }
}

/// All keys of a row sequence are distinct.
pub open spec fn spec_distinct_keys(entries: Seq<(String, u64)>) -> bool {
    forall|i: int, j: int|
        0 <= i < j < entries.len() ==> (#[trigger] entries[i]).0@ != (#[trigger] entries[j]).0@
}

proof fn lemma_group_map_contains(entries: Seq<(String, u64)>, key: Seq<char>)
    ensures
        spec_group_map(entries).contains_key(key) <==> exists|i: int|
            0 <= i < entries.len() && (#[trigger] entries[i]).0@ == key,
    decreases entries.len(),
{
    if entries.len() > 0 {
        lemma_group_map_contains(entries.drop_last(), key);
        if spec_group_map(entries).contains_key(key) {
            if entries.last().0@ != key {
                let i = choose|i: int|
                    0 <= i < entries.drop_last().len() && (#[trigger] entries.drop_last()[
                        i
                    ]).0@ == key;
                assert(entries[i].0@ == key);
            }
        }
        if exists|i: int| 0 <= i < entries.len() && (#[trigger] entries[i]).0@ == key {
            let i = choose|i: int| 0 <= i < entries.len() && (#[trigger] entries[i]).0@ == key;
            if i < entries.len() - 1 {
                assert(entries.drop_last()[i].0@ == key);
            }
        }
    }
}

/// Updating the row that holds `key` updates just that key's value.
proof fn lemma_group_map_update(entries: Seq<(String, u64)>, k: int, v: u64)
    requires
        spec_distinct_keys(entries),
        0 <= k < entries.len(),
    ensures
        spec_group_map(entries.update(k, (entries[k].0, v))) == spec_group_map(entries).insert(
            entries[k].0@,
            v,
        ),
    decreases entries.len(),
{
    let t = entries.update(k, (entries[k].0, v));
    if k == entries.len() - 1 {
        assert(t.drop_last() =~= entries.drop_last());
        assert(spec_group_map(t) =~= spec_group_map(entries).insert(entries[k].0@, v));
    } else {
        assert(t.drop_last() =~= entries.drop_last().update(k, (entries[k].0, v)));
        lemma_group_map_update(entries.drop_last(), k, v);
        assert(entries.last().0@ != entries[k].0@);
        assert(spec_group_map(t) =~= spec_group_map(entries).insert(entries[k].0@, v));
    }
}

/// The size table: group name to path to byte count.
#[derive(Debug)]
pub struct BackupSize {
    pub sizes: Vec<(String, Vec<(String, u64)>)>,
}

impl BackupSize {
    /// The table as a mathematical map of maps.
    pub open spec fn spec_map(self) -> Map<Seq<char>, Map<Seq<char>, u64>> {
        spec_sizes_map(self.sizes@)
    }

    /// Group names are distinct, and so are the paths within each group.
    pub open spec fn wf(self) -> bool {
        &&& (forall|i: int, j: int|
            0 <= i < j < self.sizes@.len() ==> (#[trigger] self.sizes@[i]).0@ != (
            #[trigger] self.sizes@[j]).0@)
        &&& (forall|i: int|
            0 <= i < self.sizes@.len() ==> spec_distinct_keys((#[trigger] self.sizes@[i]).1@))
    }

    pub fn new() -> (r: BackupSize)
        ensures
            r.wf(),
            r.spec_map() == Map::<Seq<char>, Map<Seq<char>, u64>>::empty(),
            r.sizes@.len() == 0,
    {
        BackupSize { sizes: Vec::new() }
    }

    /// Record `size` for `path` under the group `backup_name`, creating
    /// the group as needed and replacing any earlier size of that path.
    pub fn add_size(&mut self, backup_name: &str, path: &str, size: u64)
        requires
            old(self).wf(),
        ensures
            final(self).wf(),
            final(self).spec_map() == old(self).spec_map().insert(
                backup_name@,
                (if old(self).spec_map().contains_key(backup_name@) {
                    old(self).spec_map()[backup_name@]
                } else {
                    Map::<Seq<char>, u64>::empty()
                }).insert(path@, size),
            ),
    {
        let n = self.sizes.len();
        let mut gi: usize = 0;
        while gi < n
            invariant
                0 <= gi <= n,
                n == self.sizes@.len(),
                *self == *old(self),
                self.wf(),
                forall|j: int| 0 <= j < gi ==> (#[trigger] self.sizes@[j]).0@ != backup_name@,
            decreases n - gi,
        {
            if text::str_eq(self.sizes[gi].0.as_str(), backup_name) {
                proof {
                    assert(spec_distinct_keys((self.sizes@[gi as int]).1@));
                }
                let updated = entries_with(&self.sizes[gi].1, path, size);
                let key = self.sizes[gi].0.clone();
                let ghost old_groups = self.sizes@;
                let ghost updated_v = updated;
                self.sizes.set(gi, (key, updated));
                proof {
                    assert(self.sizes@ =~= old_groups.update(
                        gi as int,
                        (old_groups[gi as int].0, updated_v),
                    ));
                    lemma_sizes_map_update(old_groups, gi as int, updated_v);
                    lemma_sizes_map_at(old_groups, gi as int);
                    lemma_sizes_map_contains(old_groups, backup_name@);
                }
                return ;
            }
            gi = gi + 1;
        }
        let mut row: Vec<(String, u64)> = Vec::new();
        row.push((String::from_str(path), size));
        let ghost rowv = row@;
        let ghost old_groups = self.sizes@;
        self.sizes.push((String::from_str(backup_name), row));
        proof {
            lemma_sizes_map_contains(old_groups, backup_name@);
            assert(self.sizes@.drop_last() =~= old_groups);
            assert(rowv.drop_last() =~= Seq::<(String, u64)>::empty());
            assert(spec_group_map(rowv.drop_last()) =~= Map::<Seq<char>, u64>::empty());
            assert(spec_group_map(rowv) =~= Map::<Seq<char>, u64>::empty().insert(path@, size));
            assert(self.spec_map() =~= old(self).spec_map().insert(
                backup_name@,
                Map::<Seq<char>, u64>::empty().insert(path@, size),
            ));
        }
    }

    /// The total byte count of the group at `gi`.
    pub fn group_total(&self, gi: usize) -> (r: u128)
        requires
            gi < self.sizes@.len(),
        ensures
            r == spec_entries_total(self.sizes@[gi as int].1@),
    {
        let row = &self.sizes[gi].1;
        let n = row.len();
        let mut sum: u128 = 0;
        let mut i: usize = 0;
        while i < n
            invariant
                0 <= i <= n,
                n == row@.len(),
                sum == spec_entries_total(row@.take(i as int)),
                sum <= i * 0xffff_ffff_ffff_ffff,
            decreases n - i,
        {
            proof {
                assert(row@.take(i as int + 1).drop_last() =~= row@.take(i as int));
                assert((i + 1) * 0xffff_ffff_ffff_ffff == i * 0xffff_ffff_ffff_ffff
                    + 0xffff_ffff_ffff_ffff) by (nonlinear_arith);
                assert(i * 0xffff_ffff_ffff_ffff <= 0xffff_ffff_ffff_ffff
                    * 0xffff_ffff_ffff_ffff) by (nonlinear_arith)
                    requires
                        0 <= i <= 0xffff_ffff_ffff_ffff,
                ;
            }
            sum = sum + row[i].1 as u128;
            i = i + 1;
        }
        proof {
            assert(row@.take(n as int) =~= row@);
        }
        sum
    }
}

/// A row sequence's total byte count.
pub open spec fn spec_entries_total(entries: Seq<(String, u64)>) -> int
    decreases entries.len(),
{
    if entries.len() == 0 {
        0
    } else {
        spec_entries_total(entries.drop_last()) + entries.last().1
    }
}

/// The whole table as a map of group maps.
pub open spec fn spec_sizes_map(groups: Seq<(String, Vec<(String, u64)>)>) -> Map<
    Seq<char>,
    Map<Seq<char>, u64>,
>
    decreases groups.len(),
{
    if groups.len() == 0 {
        Map::empty()
    } else {
        spec_sizes_map(groups.drop_last()).insert(
            groups.last().0@,
            spec_group_map(groups.last().1@),
        )
    }
}

proof fn lemma_sizes_map_contains(groups: Seq<(String, Vec<(String, u64)>)>, key: Seq<char>)
    ensures
        spec_sizes_map(groups).contains_key(key) <==> exists|i: int|
            0 <= i < groups.len() && (#[trigger] groups[i]).0@ == key,
    decreases groups.len(),
{
    if groups.len() > 0 {
        lemma_sizes_map_contains(groups.drop_last(), key);
        if spec_sizes_map(groups).contains_key(key) {
            if groups.last().0@ != key {
                let i = choose|i: int|
                    0 <= i < groups.drop_last().len() && (#[trigger] groups.drop_last()[i]).0@
                        == key;
                assert(groups[i].0@ == key);
            }
        }
        if exists|i: int| 0 <= i < groups.len() && (#[trigger] groups[i]).0@ == key {
            let i = choose|i: int| 0 <= i < groups.len() && (#[trigger] groups[i]).0@ == key;
            if i < groups.len() - 1 {
                assert(groups.drop_last()[i].0@ == key);
            }
        }
    }
}

/// With distinct group names, the map's value at a group's name is that
/// group's own table.
proof fn lemma_sizes_map_at(groups: Seq<(String, Vec<(String, u64)>)>, k: int)
    requires
        0 <= k < groups.len(),
        forall|i: int, j: int|
            0 <= i < j < groups.len() ==> (#[trigger] groups[i]).0@ != (#[trigger] groups[j]).0@,
    ensures
        spec_sizes_map(groups).contains_key(groups[k].0@),
        spec_sizes_map(groups)[groups[k].0@] == spec_group_map(groups[k].1@),
    decreases groups.len(),
{
    if k == groups.len() - 1 {
    } else {
        lemma_sizes_map_at(groups.drop_last(), k);
        assert(groups.last().0@ != groups[k].0@);
    }
}

/// Replacing the row table at one group updates just that group's map.
proof fn lemma_sizes_map_update(
    groups: Seq<(String, Vec<(String, u64)>)>,
    k: int,
    row: Vec<(String, u64)>,
)
    requires
        0 <= k < groups.len(),
        forall|i: int, j: int|
            0 <= i < j < groups.len() ==> (#[trigger] groups[i]).0@ != (#[trigger] groups[j]).0@,
    ensures
        spec_sizes_map(groups.update(k, (groups[k].0, row))) == spec_sizes_map(groups).insert(
            groups[k].0@,
            spec_group_map(row@),
        ),
    decreases groups.len(),
{
    let t = groups.update(k, (groups[k].0, row));
    if k == groups.len() - 1 {
        assert(t.drop_last() =~= groups.drop_last());
        assert(spec_sizes_map(t) =~= spec_sizes_map(groups).insert(
            groups[k].0@,
            spec_group_map(row@),
        ));
    } else {
        assert(t.drop_last() =~= groups.drop_last().update(k, (groups[k].0, row)));
        lemma_sizes_map_update(groups.drop_last(), k, row);
        assert(groups.last().0@ != groups[k].0@);
        assert(spec_sizes_map(t) =~= spec_sizes_map(groups).insert(
            groups[k].0@,
            spec_group_map(row@),
        ));
    }
}

/// A fresh copy of `entries` with `path` set to `size`: the matching
/// row replaced in place, or a new row appended.
fn entries_with(entries: &Vec<(String, u64)>, path: &str, size: u64) -> (r: Vec<(String, u64)>)
    requires
        spec_distinct_keys(entries@),
    ensures
        spec_distinct_keys(r@),
        spec_group_map(r@) == spec_group_map(entries@).insert(path@, size),
{
    let n = entries.len();
    let mut k: usize = 0;
    while k < n
        invariant
            0 <= k <= n,
            n == entries@.len(),
            spec_distinct_keys(entries@),
            forall|j: int| 0 <= j < k ==> (#[trigger] entries@[j]).0@ != path@,
        decreases n - k,
    {
        if text::str_eq(entries[k].0.as_str(), path) {
            let mut r: Vec<(String, u64)> = Vec::new();
            let mut i: usize = 0;
            while i < n
                invariant
                    0 <= i <= n,
                    k < n,
                    n == entries@.len(),
                    spec_distinct_keys(entries@),
                    entries@[k as int].0@ == path@,
                    r@.len() == i,
                    forall|j: int|
                        0 <= j < i ==> (#[trigger] r@[j]) == (if j == k {
                            (entries@[k as int].0, size)
                        } else {
                            entries@[j]
                        }),
                decreases n - i,
            {
                if i == k {
                    r.push((entries[i].0.clone(), size));
                } else {
                    r.push((entries[i].0.clone(), entries[i].1));
                }
                i = i + 1;
            }
            proof {
                assert(r@ =~= entries@.update(k as int, (entries@[k as int].0, size)));
                lemma_group_map_update(entries@, k as int, size);
            }
            return r;
        }
        k = k + 1;
    }
    let mut r: Vec<(String, u64)> = Vec::new();
    let mut i: usize = 0;
    while i < n
        invariant
            0 <= i <= n,
            n == entries@.len(),
            spec_distinct_keys(entries@),
            r@.len() == i,
            forall|j: int| 0 <= j < i ==> (#[trigger] r@[j]) == entries@[j],
        decreases n - i,
    {
        r.push((entries[i].0.clone(), entries[i].1));
        i = i + 1;
    }
    r.push((String::from_str(path), size));
    proof {
        assert(r@.drop_last() =~= entries@);
        assert(r@.last() == (r@.last().0, size));
        assert(r@.last().0@ == path@);
    }
    r
}

} // verus!
