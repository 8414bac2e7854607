//! The note/folder store: the in-memory tree of folders and notes, the
//! selection state machine, and the deterministic naming of created items.
//!
//! Creating an item also needs a directory or an empty file on disk; the
//! store returns that as an [`FsAction`] for the caller to perform
//! (best-effort: a failed write never blocks editing).

use vstd::prelude::*;
use vstd::string::*;
use crate::models::Folder;
use crate::models::Note;
use crate::style::Rgb;
use crate::textutil::dec_str;
use crate::textutil::usize_str;

verus! {

/// One discrete action event from the icon/command bar.
#[derive(Clone, Copy, PartialEq, Eq, Structural, Debug)]
pub enum Msg {
    SelectFolder(usize),
    SelectHome,
    GoBack,
    OpenSettings,
    CreateItem,
}

/// A filesystem action the store asks its caller to perform after a create.
#[derive(Clone, PartialEq, Eq, Debug)]
pub enum FsAction {
    CreateDir(String),
    CreateFile(String),
}

/// The default color a new folder is created with.
pub open spec fn default_folder_color() -> Rgb {
    Rgb { r: 100, g: 100, b: 200 }
}

/// The title of the n-th note created in a folder.
pub open spec fn spec_note_title(n: nat) -> Seq<char> {
    "Nouvelle note "@ + dec_str(n)
}

/// The path of the n-th note created in a folder: `note_<n>.md` inside it.
pub open spec fn spec_note_path(folder_path: Seq<char>, n: nat) -> Seq<char> {
    folder_path + "/note_"@ + dec_str(n) + ".md"@
}

/// The name of the n-th folder created under the root.
pub open spec fn spec_folder_name(n: nat) -> Seq<char> {
    "Nouveau dossier "@ + dec_str(n)
}

/// The directory path of the n-th folder created under the root.
pub open spec fn spec_folder_path(root: Seq<char>, n: nat) -> Seq<char> {
    root + "/"@ + spec_folder_name(n)
}

/// The folder/note tree and the selection state.
pub struct Store {
    pub folders: Vec<Folder>,
    pub selected: Option<usize>,
    pub selected_note: Option<usize>,
    pub show_settings: bool,
    pub working_dir: Option<String>,
}

impl Store {
    /// Selection consistency: exactly one of {nothing, a folder, a note
    /// within the selected folder, the settings view} is active, indices are
    /// in range, and an open note presupposes a selected folder.
    pub open spec fn wf(self) -> bool {
        &&& (self.selected matches Some(f) ==> f < self.folders@.len())
        &&& (self.selected_note is Some ==> self.selected is Some)
        &&& (self.selected_note matches Some(n) ==> (self.selected matches Some(f) ==> n
            < self.folders@[f as int].notes@.len()))
        &&& (self.show_settings ==> self.selected is None && self.selected_note is None)
    }

    /// An empty store: no folders, nothing selected, no root directory yet.
    pub fn new() -> (s: Store)
        ensures
            s.wf(),
            s.folders@.len() == 0,
            s.selected is None,
            s.selected_note is None,
            !s.show_settings,
            s.working_dir is None,
    {
        Store {
            folders: Vec::new(),
            selected: None,
            selected_note: None,
            show_settings: false,
            working_dir: None,
        }
    }

    /// Record the root directory picked at startup.
    pub fn set_working_dir(&mut self, dir: String)
        ensures
            *final(self) == (Store { working_dir: Some(dir), ..*old(self) }),
    {
        self.working_dir = Some(dir);
    }

    /// Open a note of the selected folder, as a click in the notes list
    /// does. Opening a note requires a folder to already be selected.
    pub fn select_note(&mut self, idx: usize)
        requires
            old(self).wf(),
            old(self).selected matches Some(f) && idx < old(self).folders@[f as int].notes@.len(),
        ensures
            final(self).wf(),
            *final(self) == (Store { selected_note: Some(idx), ..*old(self) }),
    {
        self.selected_note = Some(idx);
    }

    /// Consume one command-bar event and step the selection state machine.
    /// Creating an item appends it to the tree under its deterministic name
    /// (`note_<n>.md` with n the next sequence number in the folder) and
    /// returns the filesystem action that backs it; with no folder selected,
    /// a create makes a folder under the root instead, and with no root yet
    /// it does nothing.
    pub fn handle(&mut self, msg: Msg) -> (action: Option<FsAction>)
        requires
            old(self).wf(),
            msg matches Msg::SelectFolder(i) ==> i < old(self).folders@.len(),
            msg is CreateItem && old(self).selected is None ==> old(self).folders@.len()
                < usize::MAX,
            msg is CreateItem ==> (old(self).selected matches Some(f) ==> old(
                self,
            ).folders@[f as int].notes@.len() < usize::MAX),
        ensures
            final(self).wf(),
            final(self).working_dir == old(self).working_dir,
            msg matches Msg::SelectFolder(i) ==> {
                &&& final(self).folders == old(self).folders
                &&& final(self).selected == Some(i)
                &&& final(self).selected_note is None
                &&& !final(self).show_settings
                &&& action is None
            },
            msg is SelectHome ==> {
                &&& final(self).folders == old(self).folders
                &&& final(self).selected is None
                &&& final(self).selected_note is None
                &&& !final(self).show_settings
                &&& action is None
            },
            msg is GoBack ==> {
                &&& final(self).folders == old(self).folders
                &&& final(self).selected_note is None
                &&& (old(self).selected_note is Some ==> final(self).selected == old(
                    self,
                ).selected)
                &&& (old(self).selected_note is None ==> final(self).selected is None)
                &&& !final(self).show_settings
                &&& action is None
            },
            msg is OpenSettings ==> {
                &&& final(self).folders == old(self).folders
                &&& final(self).selected is None
                &&& final(self).selected_note is None
                &&& final(self).show_settings
                &&& action is None
            },
            msg is CreateItem ==> (old(self).selected matches Some(f) ==> {
                let fold = old(self).folders@[f as int];
                let n = fold.notes@.len() + 1;
                &&& final(self).folders@.len() == old(self).folders@.len()
                &&& (forall|k: int|
                    0 <= k < old(self).folders@.len() && k != f ==> final(self).folders@[k] == old(
                        self,
                    ).folders@[k])
                &&& final(self).folders@[f as int].name == fold.name
                &&& final(self).folders@[f as int].color == fold.color
                &&& final(self).folders@[f as int].path == fold.path
                &&& final(self).folders@[f as int].notes@.drop_last() == fold.notes@
                &&& final(self).folders@[f as int].notes@.len() == fold.notes@.len() + 1
                &&& final(self).folders@[f as int].notes@.last().title@ == spec_note_title(n)
                &&& final(self).folders@[f as int].notes@.last().body@ == Seq::<char>::empty()
                &&& final(self).folders@[f as int].notes@.last().path@ == spec_note_path(
                    fold.path@,
                    n,
                )
                &&& final(self).selected == Some(f)
                &&& final(self).selected_note matches Some(j) && j == fold.notes@.len()
                &&& !final(self).show_settings
                &&& action matches Some(a) && a matches FsAction::CreateFile(p) && p@
                    == spec_note_path(fold.path@, n)
            }),
            msg is CreateItem && old(self).selected is None ==> (old(
                self,
            ).working_dir matches Some(root) ==> {
                let m = old(self).folders@.len() + 1;
                &&& final(self).folders@.drop_last() == old(self).folders@
                &&& final(self).folders@.len() == old(self).folders@.len() + 1
                &&& final(self).folders@.last().name@ == spec_folder_name(m)
                &&& final(self).folders@.last().color == default_folder_color()
                &&& final(self).folders@.last().notes@.len() == 0
                &&& final(self).folders@.last().path@ == spec_folder_path(root@, m)
                &&& final(self).selected is None
                &&& final(self).selected_note is None
                &&& final(self).show_settings == old(self).show_settings
                &&& action matches Some(a) && a matches FsAction::CreateDir(p) && p@
                    == spec_folder_path(root@, m)
            }),
            (msg is CreateItem && old(self).selected is None && old(self).working_dir is None) ==> {
                &&& *final(self) == *old(self)
                &&& action is None
            },
    {
        match msg {
            Msg::SelectFolder(i) => {
                self.selected = Some(i);
                self.selected_note = None;
                self.show_settings = false;
                None
            },
            Msg::SelectHome => {
                self.selected = None;
                self.selected_note = None;
                self.show_settings = false;
                None
            },
            Msg::GoBack => {
                if self.selected_note.is_some() {
                    self.selected_note = None;
                } else {
                    self.selected = None;
                }
                self.show_settings = false;
                None
            },
            Msg::OpenSettings => {
                self.show_settings = true;
                self.selected = None;
                self.selected_note = None;
                None
            },
            Msg::CreateItem => {
                match self.selected {
                    Some(f) => {
                        let num = self.folders[f].notes.len() + 1;
                        let num_s = usize_str(num);
                        let mut path = self.folders[f].path.clone();
                        path.append("/note_");
                        path.append(num_s.as_str());
                        path.append(".md");
                        let mut title = "Nouvelle note ".to_owned();
                        title.append(num_s.as_str());
                        let note = Note { title, body: String::new(), path: path.clone() };
                        let folder = &mut self.folders[f];
                        folder.notes.push(note);
                        let new_idx = folder.notes.len() - 1;
                        self.selected_note = Some(new_idx);
                        proof {
                            let fold = old(self).folders@[f as int];
                            assert(self.folders@[f as int].notes@.drop_last() =~= fold.notes@);
                        }
                        Some(FsAction::CreateFile(path))
                    },
                    None => {
                        let root_opt = match self.working_dir.as_ref() {
                            Some(d) => Some(d.clone()),
                            None => None,
                        };
                        match root_opt {
                            None => None,
                            Some(root) => {
                                let m = self.folders.len() + 1;
                                let m_s = usize_str(m);
                                let mut name = "Nouveau dossier ".to_owned();
                                name.append(m_s.as_str());
                                let mut path = root;
                                path.append("/");
                                path.append(name.as_str());
                                let folder = Folder {
                                    name,
                                    color: Rgb::new(100, 100, 200),
                                    notes: Vec::new(),
                                    path: path.clone(),
                                };
                                self.folders.push(folder);
                                proof {
                                    assert(self.folders@.drop_last() =~= old(self).folders@);
                                }
                                Some(FsAction::CreateDir(path))
                            },
                        }
                    },
                }
            },
        }
    }
}

} // verus!
