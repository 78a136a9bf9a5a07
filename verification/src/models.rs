//! The central data model: proposed edits and their lifecycle state.

use vstd::prelude::*;

verus! {

/// Lifecycle state of a proposed edit.
///
/// Every edit is created `Pending`; the review state machine moves it to
/// exactly one of the terminal states `Published` or `Rejected`, and no
/// transition ever leads back to `Pending`.
#[derive(Clone, Copy, Debug, PartialEq, Eq, Structural)]
pub enum EditState {
    Pending,
    Published,
    Rejected,
}

/// Mathematical model of an [`Edit`]: the same fields with strings and byte
/// buffers replaced by their sequence abstractions.  Contracts throughout the
/// crate speak of this view rather than of the executable representation.
pub ghost struct EditView {
    pub id: u32,
    pub wiki: Seq<char>,
    pub text: Seq<u8>,
    pub summary: Seq<char>,
    pub baserevid: u32,
    pub pageid: u32,
    pub pagename: Seq<char>,
    pub state: EditState,
}

/// A proposed page-text replacement awaiting or having completed review.
///
/// All identity-defining fields (`wiki`, `text`, `summary`, `baserevid`,
/// `pageid`) are fixed at submission time; only `state` ever changes, and
/// only through the review state machine.  `text` is an opaque byte sequence:
/// the store tolerates arbitrary bytes, and only the diff and publish paths
/// insist on valid UTF-8.
#[derive(Debug)]
pub struct Edit {
    /// Store-assigned identity, unique within one store.
    pub id: u32,
    /// Hostname of the target wiki, e.g. `en.wikipedia.org`.
    pub wiki: String,
    /// Full replacement body for the page.
    pub text: Vec<u8>,
    /// Submitter-supplied rationale for the change.
    pub summary: String,
    /// Page revision the proposal was based on; doubles as the edit-conflict
    /// guard at publication time.
    pub baserevid: u32,
    /// Target page identity on the wiki.
    pub pageid: u32,
    /// Human-readable page title, informational only.
    pub pagename: String,
    pub state: EditState,
}

impl View for Edit {
    type V = EditView;

    open spec fn view(&self) -> EditView {
        EditView {
            id: self.id,
            wiki: self.wiki@,
            text: self.text@,
            summary: self.summary@,
            baserevid: self.baserevid,
            pageid: self.pageid,
            pagename: self.pagename@,
            state: self.state,
        }
    }
}

impl Edit {
    /// A field-for-field copy with the same view.
    pub fn duplicate(&self) -> (e: Edit)
        ensures
            e@ == self@,
    {
        Edit {
            id: self.id,
            wiki: self.wiki.clone(),
            text: copy_bytes(&self.text),
            summary: self.summary.clone(),
            baserevid: self.baserevid,
            pageid: self.pageid,
            pagename: self.pagename.clone(),
            state: self.state,
        }
    }
}

/// An element-for-element copy of a byte buffer.
fn copy_bytes(v: &Vec<u8>) -> (r: Vec<u8>)
    ensures
        r@ == v@,
{
    let mut r: Vec<u8> = Vec::new();
    let mut i: usize = 0;
    while i < v.len()
        invariant
            i <= v.len(),
            r@ == v@.subrange(0, i as int),
        decreases v.len() - i,
    {
        r.push(v[i]);
        i = i + 1;
        proof {
            assert(r@ =~= v@.subrange(0, i as int));
        }
    }
    proof {
        assert(r@ =~= v@);
    }
    r
}

/// A draft handed to the store for insertion.
///
/// The draft may carry any `state` value; the store never trusts it and
/// records every inserted edit as `Pending`.
#[derive(Debug)]
pub struct NewEdit {
    pub wiki: String,
    pub text: Vec<u8>,
    pub summary: String,
    pub baserevid: u32,
    pub pageid: u32,
    pub pagename: String,
    pub state: EditState,
}

/// The submission form as the presentation layer hands it over: the proposed
/// text still as a string, and no state field at all.
#[derive(Debug)]
pub struct EditForm {
    pub wiki: String,
    pub text: String,
    pub summary: String,
    pub baserevid: u32,
    pub pageid: u32,
    pub pagename: String,
}

} // verus!
