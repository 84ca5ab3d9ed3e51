//! The account snapshot store and the switch protocol.
//!
//! One snapshot per named account, each holding copies of the fixed set of
//! managed installation paths; a single marker records the last-active
//! account. The store here is the decision model: each managed path's
//! contents stand as an opaque blob, and every operation's effect on the
//! snapshots, the live installation and the marker is proved. The mirroring
//! of these effects onto the real directory tree is the caller's execution
//! of the corresponding filesystem plan (see `plan`).

use crate::errors::ApiError;
use vstd::prelude::*;
use vstd::slice::slice_to_vec;

verus! {

/// How many managed paths are backed up and restored as a unit.
pub const MANAGED_PATH_COUNT: usize = 3;

/// The contents of one managed path, or nothing when the path is absent.
pub open spec fn leaf_view(l: Option<Vec<u8>>) -> Option<Seq<u8>> {
    match l {
        Some(b) => Some(b@),
        None => None,
    }
}

/// The contents of a row of managed paths.
pub open spec fn leaves_view(v: Seq<Option<Vec<u8>>>) -> Seq<Option<Seq<u8>>> {
    v.map(|i: int, l: Option<Vec<u8>>| leaf_view(l))
}

/// A row with every managed path absent.
pub open spec fn empty_leaves() -> Seq<Option<Seq<u8>>> {
    Seq::new(MANAGED_PATH_COUNT as nat, |i: int| None::<Seq<u8>>)
}

/// Leaf-wise combination: where `top` holds contents they win, elsewhere
/// `base`'s stand. `save` lays the live contents over the prior snapshot;
/// `restore` lays the snapshot over the live installation.
pub open spec fn overlay(base: Seq<Option<Seq<u8>>>, top: Seq<Option<Seq<u8>>>) -> Seq<
    Option<Seq<u8>>,
> {
    Seq::new(base.len(), |i: int| if top[i] is Some { top[i] } else { base[i] })
}

/// The live client installation, by managed path: its contents (an opaque
/// blob standing for the file or directory tree there), or nothing when the
/// path is absent.
pub struct LiveInstallation {
    pub leaves: Vec<Option<Vec<u8>>>,
}

impl LiveInstallation {
    pub open spec fn wf(self) -> bool {
        self.leaves@.len() == MANAGED_PATH_COUNT
    }

    pub open spec fn view_leaves(self) -> Seq<Option<Seq<u8>>> {
        leaves_view(self.leaves@)
    }
}

/// One saved account: the name it was saved under, and a copy of each managed
/// path present at save time.
pub struct AccountSnapshot {
    pub name: String,
    pub leaves: Vec<Option<Vec<u8>>>,
}

/// The snapshot store: one snapshot per account name, and the marker naming
/// the last-active account (absent before the first save or switch).
pub struct SnapshotStore {
    pub accounts: Vec<AccountSnapshot>,
    pub marker: Option<String>,
}

impl SnapshotStore {
    /// Well-formed: account names are unique and every snapshot covers the
    /// managed paths.
    pub open spec fn wf(self) -> bool {
        &&& forall|i: int, j: int|
            0 <= i < j < self.accounts@.len() ==> self.accounts@[i].name@
                != self.accounts@[j].name@
        &&& forall|i: int|
            0 <= i < self.accounts@.len() ==> self.accounts@[i].leaves@.len()
                == MANAGED_PATH_COUNT
    }

    pub open spec fn has_account(self, name: Seq<char>) -> bool {
        exists|i: int| 0 <= i < self.accounts@.len() && self.accounts@[i].name@ == name
    }

    pub open spec fn index_of(self, name: Seq<char>) -> int {
        choose|i: int| 0 <= i < self.accounts@.len() && self.accounts@[i].name@ == name
    }

    /// The saved contents for `name`; meaningful only when `has_account`.
    pub open spec fn snapshot_of(self, name: Seq<char>) -> Seq<Option<Seq<u8>>> {
        leaves_view(self.accounts@[self.index_of(name)].leaves@)
    }

    /// The saved contents for `name`, or an all-absent row when the account
    /// is new. What `save` lays the live contents over.
    pub open spec fn prior_snapshot(self, name: Seq<char>) -> Seq<Option<Seq<u8>>> {
        if self.has_account(name) {
            self.snapshot_of(name)
        } else {
            empty_leaves()
        }
    }

    pub open spec fn marker_view(self) -> Option<Seq<char>> {
        match self.marker {
            Some(m) => Some(m@),
            None => None,
        }
    }

    /// With unique names, the account found at `i` is the account looked up.
    pub proof fn lemma_index_unique(self, i: int, name: Seq<char>)
        requires
            self.wf(),
            0 <= i < self.accounts@.len(),
            self.accounts@[i].name@ == name,
        ensures
            self.has_account(name),
            self.index_of(name) == i,
    {
        assert(self.has_account(name));
        let j = self.index_of(name);
        if j != i {
            if j < i {
                assert(self.accounts@[j].name@ != self.accounts@[i].name@);
            } else {
                assert(self.accounts@[i].name@ != self.accounts@[j].name@);
            }
        }
    }

    fn find_index(&self, name: &String) -> (r: Option<usize>)
        ensures
            match r {
                Some(i) => i < self.accounts@.len() && self.accounts@[i as int].name@ == name@,
                None => !self.has_account(name@),
            },
    {
        let mut i: usize = 0;
        while i < self.accounts.len()
            invariant
                i <= self.accounts@.len(),
                forall|j: int| 0 <= j < i ==> self.accounts@[j].name@ != name@,
            decreases self.accounts@.len() - i,
        {
            if self.accounts[i].name == *name {
                return Some(i);
            }
            i += 1;
        }
        None
    }

    /// Every subdirectory of the store root, i.e. every saved account name,
    /// in storage order.
    pub fn list(&self) -> (r: Vec<String>)
        ensures
            r@.len() == self.accounts@.len(),
            forall|i: int| 0 <= i < r@.len() ==> r@[i]@ == self.accounts@[i].name@,
    {
        let mut r: Vec<String> = Vec::new();
        let mut i: usize = 0;
        while i < self.accounts.len()
            invariant
                i <= self.accounts@.len(),
                r@.len() == i,
                forall|j: int| 0 <= j < i ==> r@[j]@ == self.accounts@[j].name@,
            decreases self.accounts@.len() - i,
        {
            r.push(self.accounts[i].name.clone());
            i += 1;
        }
        r
    }

    /// Saves the live installation under `name`: every managed path present
    /// live replaces the snapshot's copy, paths absent live leave the prior
    /// copy (nothing, for a new account), and the marker records `name` as
    /// the last-active account. Other accounts are untouched.
    pub fn save(&mut self, name: &String, live: &LiveInstallation)
        requires
            old(self).wf(),
            live.wf(),
        ensures
            final(self).wf(),
            final(self).has_account(name@),
            final(self).snapshot_of(name@) =~= overlay(
                old(self).prior_snapshot(name@),
                live.view_leaves(),
            ),
            final(self).marker_view() == Some(name@),
            forall|n: Seq<char>|
                n != name@ ==> (final(self).has_account(n) <==> old(self).has_account(n)),
            forall|n: Seq<char>|
                n != name@ && old(self).has_account(n) ==> final(self).snapshot_of(n) == old(self).snapshot_of(n),
    {
        let ghost pre = *self;
        let ghost mut widx: int = 0;
        match self.find_index(name) {
            Some(i) => {
                proof {
                    pre.lemma_index_unique(i as int, name@);
                    widx = i as int;
                }
                let mut snap = self.accounts.remove(i);
                let merged = merge_leaves(&snap.leaves, &live.leaves);
                snap.leaves = merged;
                self.accounts.insert(i, snap);
                proof {
                    assert(self.accounts@ =~= pre.accounts@.update(i as int, snap));
                }
            },
            None => {
                proof {
                    widx = pre.accounts@.len() as int;
                }
                let leaves = merge_empty(&live.leaves);
                self.accounts.push(AccountSnapshot { name: name.clone(), leaves });
            },
        }
        self.marker = Some(name.clone());
        proof {
            let post = *self;
            assert(post.accounts@[widx].name@ == name@);
            post.lemma_index_unique(widx, name@);
            assert(post.snapshot_of(name@) =~= overlay(
                pre.prior_snapshot(name@),
                live.view_leaves(),
            ));
            assert forall|n: Seq<char>| n != name@ implies (post.has_account(n)
                <==> pre.has_account(n)) by {
                if pre.has_account(n) {
                    let j = pre.index_of(n);
                    assert(post.accounts@[j].name@ == n);
                }
                if post.has_account(n) {
                    let j = post.index_of(n);
                    assert(pre.accounts@[j].name@ == n);
                }
            }
            assert forall|n: Seq<char>| n != name@ && pre.has_account(n) implies post.snapshot_of(
                n,
            ) == pre.snapshot_of(n) by {
                let j = pre.index_of(n);
                pre.lemma_index_unique(j, n);
                post.lemma_index_unique(j, n);
                assert(post.snapshot_of(n) =~= pre.snapshot_of(n));
            }
        }
    }

    /// Restores `name`'s snapshot into the live installation: every managed
    /// path the snapshot holds replaces the live copy, paths the snapshot
    /// lacks are left untouched. Fails with `AccountNotFound`, mutating
    /// nothing, exactly when no snapshot exists for `name`.
    pub fn restore(&self, name: &String, live: &mut LiveInstallation) -> (r: Result<(), ApiError>)
        requires
            self.wf(),
            old(live).wf(),
        ensures
            final(live).wf(),
            match r {
                Ok(_) => self.has_account(name@) && final(live).view_leaves() =~= overlay(
                    old(live).view_leaves(),
                    self.snapshot_of(name@),
                ),
                Err(e) => !self.has_account(name@) && (e matches ApiError::AccountNotFound(n)
                    && n@ == name@) && *final(live) == *old(live),
            },
    {
        let i = match self.find_index(name) {
            Some(i) => i,
            None => {
                return Err(ApiError::AccountNotFound(name.clone()));
            },
        };
        proof {
            self.lemma_index_unique(i as int, name@);
        }
        let snap_leaves = &self.accounts[i].leaves;
        let mut k: usize = 0;
        while k < MANAGED_PATH_COUNT
            invariant
                k <= MANAGED_PATH_COUNT,
                snap_leaves == &self.accounts@[i as int].leaves,
                i < self.accounts@.len(),
                snap_leaves@.len() == MANAGED_PATH_COUNT,
                live.leaves@.len() == MANAGED_PATH_COUNT,
                forall|j: int|
                    0 <= j < k ==> leaf_view(live.leaves@[j]) == (if leaf_view(
                        snap_leaves@[j],
                    ) is Some {
                        leaf_view(snap_leaves@[j])
                    } else {
                        leaf_view(old(live).leaves@[j])
                    }),
                forall|j: int|
                    k <= j < MANAGED_PATH_COUNT ==> live.leaves@[j] == old(live).leaves@[j],
            decreases MANAGED_PATH_COUNT - k,
        {
            match &snap_leaves[k] {
                Some(b) => {
                    let copy = clone_blob(b);
                    live.leaves.set(k, Some(copy));
                },
                None => {},
            }
            k += 1;
        }
        proof {
            assert(live.view_leaves() =~= overlay(
                old(live).view_leaves(),
                self.snapshot_of(name@),
            ));
        }
        Ok(())
    }

    /// Removes `name`'s snapshot entirely; the marker and the other accounts
    /// are untouched. Fails with `AccountNotFound`, mutating nothing, exactly
    /// when no snapshot exists for `name`.
    pub fn delete(&mut self, name: &String) -> (r: Result<(), ApiError>)
        requires
            old(self).wf(),
        ensures
            final(self).wf(),
            match r {
                Ok(_) => old(self).has_account(name@) && !final(self).has_account(name@)
                    && final(self).accounts@.len() == old(self).accounts@.len() - 1 && final(self).marker_view()
                    == old(self).marker_view() && (forall|n: Seq<char>|
                    n != name@ ==> (final(self).has_account(n) <==> old(self).has_account(n))) && (
                forall|n: Seq<char>|
                    n != name@ && old(self).has_account(n) ==> final(self).snapshot_of(n) == old(self).snapshot_of(n)),
                Err(e) => !old(self).has_account(name@) && (e matches ApiError::AccountNotFound(n)
                    && n@ == name@) && *final(self) == *old(self),
            },
    {
        let ghost pre = *self;
        let i = match self.find_index(name) {
            Some(i) => i,
            None => {
                return Err(ApiError::AccountNotFound(name.clone()));
            },
        };
        proof {
            pre.lemma_index_unique(i as int, name@);
        }
        self.accounts.remove(i);
        proof {
            let post = *self;
            assert forall|n: Seq<char>| post.has_account(n) implies n == name@ || pre.has_account(
                n,
            ) by {
                let j = post.index_of(n);
                if j < i as int {
                    assert(pre.accounts@[j].name@ == n);
                } else {
                    assert(pre.accounts@[j + 1].name@ == n);
                }
            }
            if post.has_account(name@) {
                let j = post.index_of(name@);
                if j < i as int {
                    pre.lemma_index_unique(j, name@);
                } else {
                    pre.lemma_index_unique(j + 1, name@);
                }
            }
            assert forall|n: Seq<char>| n != name@ && pre.has_account(n) implies post.has_account(
                n,
            ) && post.snapshot_of(n) == pre.snapshot_of(n) by {
                let j = pre.index_of(n);
                pre.lemma_index_unique(j, n);
                if j < i as int {
                    assert(post.accounts@[j].name@ == n);
                    post.lemma_index_unique(j, n);
                } else {
                    assert(post.accounts@[j - 1].name@ == n);
                    post.lemma_index_unique(j - 1, n);
                }
                assert(post.snapshot_of(n) =~= pre.snapshot_of(n));
            }
        }
        Ok(())
    }

    /// The switch protocol. Validates that the target snapshot exists; if the
    /// marker names a different, non-empty account, saves that outgoing
    /// account's live state first (and reports it as the saved account);
    /// restores the target snapshot into the live installation; and records
    /// the target as the last-active account.
    pub fn switch(&mut self, name: &String, live: &mut LiveInstallation) -> (r: Result<
        Option<String>,
        ApiError,
    >)
        requires
            old(self).wf(),
            old(live).wf(),
        ensures
            final(self).wf(),
            final(live).wf(),
            match r {
                Err(e) => !old(self).has_account(name@) && (e matches ApiError::AccountNotFound(n)
                    && n@ == name@) && *final(self) == *old(self) && *final(live) == *old(live),
                Ok(saved) => {
                    &&& old(self).has_account(name@)
                    &&& final(self).marker_view() == Some(name@)
                    &&& final(live).view_leaves() =~= overlay(
                        old(live).view_leaves(),
                        old(self).snapshot_of(name@),
                    )
                    &&& match old(self).marker_view() {
                        Some(m) => {
                            if m != name@ && m.len() > 0 {
                                (saved matches Some(s) && s@ == m) && final(self).has_account(m)
                                    && final(self).snapshot_of(m) =~= overlay(
                                    old(self).prior_snapshot(m),
                                    old(live).view_leaves(),
                                ) && (forall|n: Seq<char>|
                                    n != m ==> (final(self).has_account(n) <==> old(self).has_account(n))) && (forall|n: Seq<char>|
                                    n != m && old(self).has_account(n) ==> final(self).snapshot_of(n) == old(self).snapshot_of(n))
                            } else {
                                saved is None && final(self).accounts == old(self).accounts
                            }
                        },
                        None => saved is None && final(self).accounts == old(self).accounts,
                    }
                },
            },
    {
        let ghost pre = *self;
        match self.find_index(name) {
            None => {
                return Err(ApiError::AccountNotFound(name.clone()));
            },
            Some(i0) => {
                proof {
                    pre.lemma_index_unique(i0 as int, name@);
                }
            },
        }
        let outgoing: Option<String> = match &self.marker {
            Some(m) => Some(m.clone()),
            None => None,
        };
        let mut saved: Option<String> = None;
        match outgoing {
            Some(m) => {
                if !(m == *name) && !m.as_str().is_empty() {
                    self.save(&m, live);
                    saved = Some(m);
                }
            },
            None => {},
        }
        let ghost mid = *self;
        let res = self.restore(name, live);
        proof {
            assert(self.has_account(name@));
        }
        match res {
            Ok(_) => {},
            Err(_) => {
                proof {
                    assert(false);
                }
            },
        }
        self.marker = Some(name.clone());
        proof {
            match pre.marker_view() {
                Some(mv) => {
                    if mv != name@ && mv.len() > 0 {
                        let j = mid.index_of(mv);
                        assert(mid.accounts@[j].name@ == mv);
                        assert(self.accounts@[j].name@ == mv);
                        assert(self.has_account(mv));
                    }
                },
                None => {},
            }
        }
        Ok(saved)
    }
}

/// Copies one managed path's contents.
fn clone_blob(b: &Vec<u8>) -> (r: Vec<u8>)
    ensures
        r@ == b@,
{
    slice_to_vec(b.as_slice())
}

/// Lays the live row over the prior row, leaf by leaf: what `save` keeps for
/// an account that already had a snapshot.
fn merge_leaves(prev: &Vec<Option<Vec<u8>>>, live: &Vec<Option<Vec<u8>>>) -> (r: Vec<
    Option<Vec<u8>>,
>)
    requires
        prev@.len() == live@.len(),
    ensures
        r@.len() == live@.len(),
        leaves_view(r@) =~= overlay(leaves_view(prev@), leaves_view(live@)),
{
    let mut r: Vec<Option<Vec<u8>>> = Vec::new();
    let mut i: usize = 0;
    while i < live.len()
        invariant
            prev@.len() == live@.len(),
            i <= live@.len(),
            r@.len() == i,
            forall|j: int|
                0 <= j < i ==> leaf_view(r@[j]) == (if leaf_view(live@[j]) is Some {
                    leaf_view(live@[j])
                } else {
                    leaf_view(prev@[j])
                }),
        decreases live@.len() - i,
    {
        match &live[i] {
            Some(b) => {
                r.push(Some(clone_blob(b)));
            },
            None => {
                match &prev[i] {
                    Some(b) => {
                        r.push(Some(clone_blob(b)));
                    },
                    None => {
                        r.push(None);
                    },
                }
            },
        }
        i += 1;
    }
    r
}

/// Copies the live row as a fresh account's snapshot: only the paths present
/// live are held.
fn merge_empty(live: &Vec<Option<Vec<u8>>>) -> (r: Vec<Option<Vec<u8>>>)
    ensures
        r@.len() == live@.len(),
        forall|j: int| 0 <= j < r@.len() ==> leaf_view(r@[j]) == leaf_view(live@[j]),
{
    let mut r: Vec<Option<Vec<u8>>> = Vec::new();
    let mut i: usize = 0;
    while i < live.len()
        invariant
            i <= live@.len(),
            r@.len() == i,
            forall|j: int| 0 <= j < i ==> leaf_view(r@[j]) == leaf_view(live@[j]),
        decreases live@.len() - i,
    {
        match &live[i] {
            Some(b) => {
                r.push(Some(clone_blob(b)));
            },
            None => {
                r.push(None);
            },
        }
        i += 1;
    }
    r
}

/// Law: saving an account and then restoring it into a cleared live
/// installation reproduces exactly the managed paths present at save time —
/// provided the account's prior snapshot held no path the live installation
/// lacked (a fresh account trivially qualifies). `save` yields the snapshot
/// `overlay(prior, live)` and `restore` into `cleared` yields
/// `overlay(cleared, overlay(prior, live))`, which is the saved row itself.
pub proof fn lemma_save_restore_round_trip(
    prior: Seq<Option<Seq<u8>>>,
    live: Seq<Option<Seq<u8>>>,
    cleared: Seq<Option<Seq<u8>>>,
)
    requires
        prior.len() == live.len(),
        cleared.len() == live.len(),
        forall|i: int| 0 <= i < cleared.len() ==> cleared[i] is None,
        forall|i: int| 0 <= i < prior.len() ==> prior[i] is Some ==> live[i] is Some,
    ensures
        overlay(cleared, overlay(prior, live)) =~= live,
{
}

/// Law: a deleted account is gone. A successful `delete(name)` establishes
/// `!has_account(name)`; in such a store no listed name equals `name` (so the
/// account is absent from `list`'s result), and by `restore`'s contract a
/// subsequent `restore(name)` must return `AccountNotFound` and leave the
/// live installation untouched.
pub proof fn lemma_deleted_account_is_gone(s: SnapshotStore, name: Seq<char>)
    requires
        !s.has_account(name),
    ensures
        forall|i: int| 0 <= i < s.accounts@.len() ==> s.accounts@[i].name@ != name,
{
}

/// Law: restoring a snapshot that holds every managed path makes the live
/// installation equal to that snapshot, whatever was live before.
pub proof fn lemma_full_snapshot_restore(live: Seq<Option<Seq<u8>>>, snap: Seq<Option<Seq<u8>>>)
    requires
        snap.len() == live.len(),
        forall|i: int| 0 <= i < snap.len() ==> snap[i] is Some,
    ensures
        overlay(live, snap) =~= snap,
{
}

} // verus!
