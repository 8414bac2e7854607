//! The file synchronizer: keeps one note's in-memory body and its backing
//! file convergent, whichever side changed.
//!
//! The engine is the decision half of the synchronizer. The caller performs
//! the outside work — creating the OS watch at `watched`, reading files when
//! change notifications arrive, writing the files of a commit plan — and
//! hands the results back in as plain values. At most one watch exists at a
//! time, and it always targets the open note's path.

use vstd::prelude::*;
use vstd::string::*;
use crate::export::export_html;
use crate::export::html_of;
use crate::textutil::html_sibling;
use crate::textutil::spec_html_sibling;

verus! {

/// One filesystem change notification, as drained from the watch channel: a
/// content modification together with the freshly read file contents (or
/// nothing, when the read failed), or an event of any other kind.
#[derive(Clone, Debug)]
pub enum Notice {
    Modified(Option<String>),
    Other,
}

/// The write-through plan for one committed edit: the raw body goes to
/// `md_path` and the derived fragment `html` to `html_path`. Both writes are
/// best-effort; a failure leaves the edit in memory.
#[derive(Clone, Debug)]
pub struct CommitPlan {
    pub md_path: String,
    pub html_path: String,
    pub html: String,
}

/// The synchronizer's state: which note path the single watch targets, and
/// the exact bytes last self-written there (the anti-feedback guard).
#[derive(Clone, Debug)]
pub struct SyncEngine {
    pub watched: Option<String>,
    pub last_written: Option<String>,
}

/// The contents of the last successfully read content modification in a
/// drain batch: the one reload the batch coalesces to.
pub open spec fn last_reload(ns: Seq<Notice>) -> Option<Seq<char>>
    decreases ns.len(),
{
    if ns.len() == 0 {
        None
    } else {
        match ns.last() {
            Notice::Modified(c) => match c {
                Some(s) => Some(s@),
                None => last_reload(ns.drop_last()),
            },
            Notice::Other => last_reload(ns.drop_last()),
        }
    }
}

/// The in-memory body after one drain cycle: the final reload of the batch
/// replaces the body wholesale, unless the batch holds no reload or the
/// reload carries exactly the bytes last self-written (a self-write echo,
/// which is suppressed).
pub open spec fn drained_body(
    last_written: Option<Seq<char>>,
    body: Seq<char>,
    ns: Seq<Notice>,
) -> Seq<char> {
    match last_reload(ns) {
        Some(c) => if last_written == Some(c) {
            body
        } else {
            c
        },
        None => body,
    }
}

impl SyncEngine {
    pub open spec fn spec_watched(self) -> Option<Seq<char>> {
        match self.watched {
            Some(p) => Some(p@),
            None => None,
        }
    }

    pub open spec fn spec_last_written(self) -> Option<Seq<char>> {
        match self.last_written {
            Some(w) => Some(w@),
            None => None,
        }
    }

    /// A fresh synchronizer: idle, with no watch and no recorded self-write.
    pub fn new() -> (s: SyncEngine)
        ensures
            s.spec_watched() is None,
            s.spec_last_written() is None,
    {
        SyncEngine { watched: None, last_written: None }
    }

    /// Open a note: retarget the single watch at its path. The caller drops
    /// any previous OS watch and creates one at the new path; the self-write
    /// guard of the previous note is cleared.
    pub fn open_note(&mut self, path: &str)
        ensures
            final(self).spec_watched() == Some(path@),
            final(self).spec_last_written() is None,
    {
        self.watched = Some(path.to_owned());
        self.last_written = None;
    }

    /// Close the open note (or switch away from it): drop the watch.
    pub fn close_note(&mut self)
        ensures
            final(self).spec_watched() is None,
            final(self).spec_last_written() is None,
    {
        self.watched = None;
        self.last_written = None;
    }

    /// Commit an in-app edit to the open note's body. Returns the
    /// write-through plan — the raw body to the note's path, the derived
    /// HTML to the sibling path — and records the committed bytes so that
    /// the watch notification caused by our own write is not reloaded.
    /// Without an open note there is nothing to persist.
    pub fn commit_edit(&mut self, body: &str) -> (plan: Option<CommitPlan>)
        ensures
            old(self).spec_watched() is None ==> plan is None && *final(self) == *old(self),
            old(self).spec_watched() matches Some(p) ==> {
                &&& final(self).spec_watched() == old(self).spec_watched()
                &&& final(self).spec_last_written() == Some(body@)
                &&& plan matches Some(pl) && pl.md_path@ == p && pl.html_path@
                    == spec_html_sibling(p) && pl.html@ == html_of(body@)
            },
    {
        let md_path_opt = match self.watched.as_ref() {
            Some(p) => Some(p.clone()),
            None => None,
        };
        match md_path_opt {
            None => None,
            Some(md_path) => {
                let html_path = html_sibling(md_path.as_str());
                let html = export_html(body);
                self.last_written = Some(body.to_owned());
                Some(CommitPlan { md_path, html_path, html })
            },
        }
    }

    /// Drain one batch of watch notifications and apply at most the final
    /// reload to the body: intermediate reloads coalesce away, and a reload
    /// equal to the last self-written bytes is suppressed rather than
    /// applied, so the write-through never echoes back as an external change.
    pub fn apply_drain(&mut self, body: &mut String, notices: &Vec<Notice>)
        ensures
            *final(self) == *old(self),
            final(body)@ == drained_body(old(self).spec_last_written(), old(body)@, notices@),
    {
        let mut cand: Option<String> = None;
        let n = notices.len();
        let mut i: usize = 0;
        proof {
            assert(notices@.take(0) =~= Seq::<Notice>::empty());
        }
        while i < n
            invariant
                i <= n,
                n == notices@.len(),
                *self == *old(self),
                *body == *old(body),
                (match cand {
                    Some(c) => Some(c@),
                    None => None,
                }) == last_reload(notices@.take(i as int)),
            decreases n - i,
        {
            proof {
                assert(notices@.take(i + 1).drop_last() =~= notices@.take(i as int));
                assert(notices@.take(i + 1).last() == notices@[i as int]);
            }
            match &notices[i] {
                Notice::Modified(c_opt) => match c_opt {
                    Some(c) => {
                        cand = Some(c.clone());
                    },
                    None => {},
                },
                Notice::Other => {},
            }
            i = i + 1;
        }
        proof {
            assert(notices@.take(n as int) =~= notices@);
        }
        match cand {
            None => {},
            Some(c) => {
                let suppress = match self.last_written.as_ref() {
                    Some(w) => *w == c,
                    None => false,
                };
                if !suppress {
                    *body = c;
                }
            },
        }
    }
}

/// An external change is applied: when the final reload of a batch carries
/// contents other than the bytes last self-written, the drained body is
/// exactly those contents.
pub proof fn lemma_external_change_applied(
    lw: Option<Seq<char>>,
    body: Seq<char>,
    ns: Seq<Notice>,
    c: Seq<char>,
)
    requires
        ns.len() > 0,
        ns.last() matches Notice::Modified(co) && co matches Some(t) && t@ == c,
        lw != Some(c),
    ensures
        drained_body(lw, body, ns) == c,
{
}

/// A self-write echo is suppressed: when the final reload of a batch carries
/// exactly the bytes last self-written, the drain leaves the body unchanged.
pub proof fn lemma_self_write_suppressed(
    lw: Option<Seq<char>>,
    body: Seq<char>,
    ns: Seq<Notice>,
    c: Seq<char>,
)
    requires
        last_reload(ns) == Some(c),
        lw == Some(c),
    ensures
        drained_body(lw, body, ns) == body,
{
}

} // verus!
