//! The edit store: the durable record of submitted edits.
//!
//! The store is a dumb persistence layer by design: it assigns identities,
//! forces every inserted edit into the `Pending` state, and overwrites states
//! unconditionally on request.  Which transitions are legal is enforced one
//! layer up, by the review state machine.

use crate::models::Edit;
use crate::models::EditState;
use crate::models::EditView;
use crate::models::NewEdit;
use crate::review::ReviewError;
use vstd::prelude::*;

verus! {

/// Whether some stored edit carries the identity `id`.
pub open spec fn contains_id(s: Seq<EditView>, id: u32) -> bool {
    exists|i: int| 0 <= i < s.len() && s[i].id == id
}

/// The position of the edit with identity `id` (unique when the ids are
/// strictly increasing, as the store invariant guarantees).
pub open spec fn index_of_id(s: Seq<EditView>, id: u32) -> int {
    choose|i: int| 0 <= i < s.len() && s[i].id == id
}

/// The stored edit with identity `id`.
pub open spec fn edit_with_id(s: Seq<EditView>, id: u32) -> EditView {
    s[index_of_id(s, id)]
}

/// The store contents after an unconditional state overwrite of edit `id`
/// (unchanged when no edit carries that identity).
pub open spec fn set_state_view(s: Seq<EditView>, id: u32, st: EditState) -> Seq<EditView> {
    if contains_id(s, id) {
        s.update(index_of_id(s, id), EditView { state: st, ..edit_with_id(s, id) })
    } else {
        s
    }
}

/// The views of a sequence of edits.
pub open spec fn edit_views(s: Seq<Edit>) -> Seq<EditView> {
    Seq::new(s.len(), |i: int| s[i]@)
}

/// The edits of `s` whose state is `st`, newest identity first (the store
/// keeps its rows in order of insertion, so newest-first is read off from
/// the back).
pub open spec fn with_state(s: Seq<EditView>, st: EditState) -> Seq<EditView>
    decreases s.len(),
{
    if s.len() == 0 {
        Seq::empty()
    } else if s.last().state == st {
        seq![s.last()] + with_state(s.drop_last(), st)
    } else {
        with_state(s.drop_last(), st)
    }
}

/// In-memory edit store.  Rows sit in insertion order; identities are
/// assigned from a counter starting at 1, so they increase strictly along
/// the row order and are unique.
pub struct EditStore {
    edits: Vec<Edit>,
    next_id: u32,
}

impl View for EditStore {
    type V = Seq<EditView>;

    closed spec fn view(&self) -> Seq<EditView> {
        edit_views(self.edits@)
    }
}

impl EditStore {
    /// The identity the next inserted edit will receive.
    pub closed spec fn spec_next_id(&self) -> u32 {
        self.next_id
    }

    /// Store invariant: identities start at 1, stay below the assignment
    /// counter, and increase strictly along the row order.
    pub closed spec fn wf(&self) -> bool {
        &&& 1 <= self.next_id
        &&& forall|i: int| 0 <= i < self@.len() ==> 1 <= #[trigger] self@[i].id < self.next_id
        &&& forall|i: int, j: int| 0 <= i < j < self@.len() ==> self@[i].id < self@[j].id
    }

    /// An empty store.
    pub fn new() -> (s: EditStore)
        ensures
            s.wf(),
            s@ == Seq::<EditView>::empty(),
            s.spec_next_id() == 1,
    {
        let s = EditStore { edits: Vec::new(), next_id: 1 };
        proof {
            assert(s@ =~= Seq::<EditView>::empty());
        }
        s
    }

    /// Saves a draft.  The store assigns the identity and records the edit
    /// as `Pending` whatever state the draft claimed; the persisted row is
    /// returned.  Insertion is refused only when the identity space is
    /// exhausted.
    pub fn insert_edit(&mut self, draft: NewEdit) -> (r: Result<Edit, ReviewError>)
        requires
            old(self).wf(),
        ensures
            final(self).wf(),
            old(self).spec_next_id() == u32::MAX ==> {
                &&& r matches Err(e) && e == ReviewError::PersistenceFailed
                &&& final(self)@ == old(self)@
                &&& final(self).spec_next_id() == old(self).spec_next_id()
            },
            old(self).spec_next_id() < u32::MAX ==> ({
                let row = EditView {
                    id: old(self).spec_next_id(),
                    wiki: draft.wiki@,
                    text: draft.text@,
                    summary: draft.summary@,
                    baserevid: draft.baserevid,
                    pageid: draft.pageid,
                    pagename: draft.pagename@,
                    state: EditState::Pending,
                };
                &&& r matches Ok(e) && e@ == row
                &&& final(self)@ == old(self)@.push(row)
                &&& final(self).spec_next_id() == old(self).spec_next_id() + 1
            }),
    {
        if self.next_id == u32::MAX {
            return Err(ReviewError::PersistenceFailed);
        }
        let row = Edit {
            id: self.next_id,
            wiki: draft.wiki,
            text: draft.text,
            summary: draft.summary,
            baserevid: draft.baserevid,
            pageid: draft.pageid,
            pagename: draft.pagename,
            state: EditState::Pending,
        };
        let out = row.duplicate();
        self.edits.push(row);
        self.next_id = self.next_id + 1;
        proof {
            assert(self@ =~= old(self)@.push(out@));
        }
        Ok(out)
    }

    /// Fetches the edit with identity `edit_id`, or reports that none
    /// exists.
    pub fn load_edit(&self, edit_id: u32) -> (r: Option<Edit>)
        requires
            self.wf(),
        ensures
            contains_id(self@, edit_id) ==> (r matches Some(e) && e@ == edit_with_id(
                self@,
                edit_id,
            )),
            !contains_id(self@, edit_id) ==> r is None,
    {
        let n = self.edits.len();
        let mut i: usize = 0;
        while i < n
            invariant
                self.wf(),
                i <= n,
                n == self.edits@.len(),
                forall|j: int| 0 <= j < i ==> self@[j].id != edit_id,
            decreases n - i,
        {
            if self.edits[i].id == edit_id {
                let found = self.edits[i].duplicate();
                proof {
                    assert(self@[i as int].id == edit_id);
                    let k = index_of_id(self@, edit_id);
                    assert(0 <= k < self@.len() && self@[k].id == edit_id);
                    if k != i as int {
                        assert(self@[k].id != self@[i as int].id);
                    }
                }
                return Some(found);
            }
            i = i + 1;
        }
        proof {
            assert(!contains_id(self@, edit_id));
        }
        None
    }

    /// Unconditionally overwrites the state of edit `edit_id`.  The store
    /// does not judge whether the transition is legal, and an unknown
    /// identity leaves the store unchanged; neither case is a failure.
    pub fn set_state(&mut self, edit_id: u32, new_state: EditState) -> (r: Result<
        (),
        ReviewError,
    >)
        requires
            old(self).wf(),
        ensures
            final(self).wf(),
            r is Ok,
            final(self)@ == set_state_view(old(self)@, edit_id, new_state),
            final(self).spec_next_id() == old(self).spec_next_id(),
    {
        let n = self.edits.len();
        let mut i: usize = 0;
        while i < n
            invariant
                self.wf(),
                *self == *old(self),
                i <= n,
                n == self.edits@.len(),
                forall|j: int| 0 <= j < i ==> self@[j].id != edit_id,
            decreases n - i,
        {
            if self.edits[i].id == edit_id {
                let mut row = self.edits[i].duplicate();
                row.state = new_state;
                let ghost before = self@;
                self.edits.set(i, row);
                proof {
                    assert(before[i as int].id == edit_id);
                    let k = index_of_id(before, edit_id);
                    assert(0 <= k < before.len() && before[k].id == edit_id);
                    if k != i as int {
                        assert(before[k].id != before[i as int].id);
                    }
                    assert(self@ =~= set_state_view(before, edit_id, new_state));
                }
                return Ok(());
            }
            i = i + 1;
        }
        proof {
            assert(!contains_id(self@, edit_id));
        }
        Ok(())
    }

    /// The conditional variant of [`EditStore::set_state`], the guard that
    /// closes the race between two simultaneous approvals of one edit: the
    /// state is overwritten only while the edit is still `Pending`, so a
    /// terminal state is never silently replaced.  Returns whether the
    /// write happened.
    pub fn set_state_if_pending(&mut self, edit_id: u32, new_state: EditState) -> (r: bool)
        requires
            old(self).wf(),
        ensures
            final(self).wf(),
            final(self).spec_next_id() == old(self).spec_next_id(),
            r == (contains_id(old(self)@, edit_id) && edit_with_id(old(self)@, edit_id).state
                == EditState::Pending),
            r ==> final(self)@ == set_state_view(old(self)@, edit_id, new_state),
            !r ==> final(self)@ == old(self)@,
    {
        let n = self.edits.len();
        let mut i: usize = 0;
        while i < n
            invariant
                self.wf(),
                *self == *old(self),
                i <= n,
                n == self.edits@.len(),
                forall|j: int| 0 <= j < i ==> self@[j].id != edit_id,
            decreases n - i,
        {
            if self.edits[i].id == edit_id {
                proof {
                    assert(self@[i as int].id == edit_id);
                    let k = index_of_id(self@, edit_id);
                    assert(0 <= k < self@.len() && self@[k].id == edit_id);
                    if k != i as int {
                        assert(self@[k].id != self@[i as int].id);
                    }
                }
                if self.edits[i].state != EditState::Pending {
                    return false;
                }
                let mut row = self.edits[i].duplicate();
                row.state = new_state;
                let ghost before = self@;
                self.edits.set(i, row);
                proof {
                    assert(self@ =~= set_state_view(before, edit_id, new_state));
                }
                return true;
            }
            i = i + 1;
        }
        proof {
            assert(!contains_id(self@, edit_id));
        }
        false
    }

    /// All edits with the requested state, newest identity first.
    pub fn load_edits_with_state(&self, edit_state: EditState) -> (r: Vec<Edit>)
        requires
            self.wf(),
        ensures
            edit_views(r@) == with_state(self@, edit_state),
    {
        let n = self.edits.len();
        let mut r: Vec<Edit> = Vec::new();
        let mut i: usize = n;
        while i > 0
            invariant
                self.wf(),
                i <= n,
                n == self.edits@.len(),
                edit_views(r@) == with_state(self@.subrange(i as int, n as int), edit_state),
            decreases i,
        {
            i = i - 1;
            let ghost prev = self@.subrange(i + 1, n as int);
            let ghost cur = self@.subrange(i as int, n as int);
            proof {
                lemma_with_state_prepend(self@[i as int], prev, edit_state);
                assert(cur =~= seq![self@[i as int]] + prev);
            }
            if self.edits[i].state == edit_state {
                r.push(self.edits[i].duplicate());
                proof {
                    assert(edit_views(r@) =~= with_state(cur, edit_state));
                }
            } else {
                proof {
                    assert(edit_views(r@) =~= with_state(cur, edit_state));
                }
            }
        }
        proof {
            assert(self@.subrange(0, n as int) =~= self@);
        }
        r
    }
}

/// A state overwrite never touches an edit's identity-defining fields:
/// every row keeps its identity, wiki, text, summary, base revision, page
/// and name — only the addressed row's state changes.
pub proof fn lemma_set_state_preserves_identity(s: Seq<EditView>, id: u32, st: EditState)
    ensures
        set_state_view(s, id, st).len() == s.len(),
        forall|i: int|
            0 <= i < s.len() ==> {
                let e1 = #[trigger] set_state_view(s, id, st)[i];
                &&& e1.id == s[i].id
                &&& e1.wiki == s[i].wiki
                &&& e1.text == s[i].text
                &&& e1.summary == s[i].summary
                &&& e1.baserevid == s[i].baserevid
                &&& e1.pageid == s[i].pageid
                &&& e1.pagename == s[i].pagename
            },
{
}

/// Extending the suffix under consideration by one older row appends that
/// row (when it matches) to the end of the newest-first selection.
proof fn lemma_with_state_prepend(x: EditView, t: Seq<EditView>, st: EditState)
    ensures
        with_state(seq![x] + t, st) == with_state(t, st) + if x.state == st {
            seq![x]
        } else {
            Seq::<EditView>::empty()
        },
    decreases t.len(),
{
    let u = seq![x] + t;
    let tail: Seq<EditView> = if x.state == st {
        seq![x]
    } else {
        Seq::empty()
    };
    if t.len() == 0 {
        assert(u =~= seq![x]);
        assert(u.last() == x);
        assert(u.drop_last() =~= Seq::<EditView>::empty());
        assert(with_state(u.drop_last(), st) == Seq::<EditView>::empty());
        assert(with_state(t, st) == Seq::<EditView>::empty());
        if x.state == st {
            assert(with_state(u, st) == seq![x] + Seq::<EditView>::empty());
        } else {
            assert(with_state(u, st) == Seq::<EditView>::empty());
        }
        assert(with_state(u, st) =~= with_state(t, st) + tail);
    } else {
        assert(u.last() == t.last());
        assert(u.drop_last() =~= seq![x] + t.drop_last());
        lemma_with_state_prepend(x, t.drop_last(), st);
        assert(with_state(u.drop_last(), st) == with_state(t.drop_last(), st) + tail);
        if t.last().state == st {
            assert(with_state(u, st) == seq![u.last()] + with_state(u.drop_last(), st));
            assert(with_state(t, st) == seq![t.last()] + with_state(t.drop_last(), st));
            assert(seq![t.last()] + (with_state(t.drop_last(), st) + tail) =~= (seq![t.last()]
                + with_state(t.drop_last(), st)) + tail);
            assert(with_state(u, st) =~= with_state(t, st) + tail);
        } else {
            assert(with_state(u, st) == with_state(u.drop_last(), st));
            assert(with_state(t, st) == with_state(t.drop_last(), st));
            assert(with_state(u, st) =~= with_state(t, st) + tail);
        }
    }
}

} // verus!
