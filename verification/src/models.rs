//! The note/folder data model: plain values bound to filesystem paths.

use vstd::prelude::*;
use crate::style::Rgb;

verus! {

/// One note. The body is the authoritative markdown source; the note maps to
/// exactly one file at `path`, with a derived HTML artifact at the same stem.
#[derive(Clone, Debug)]
pub struct Note {
    pub title: String,
    pub body: String,
    pub path: String,
}

/// One folder: a named, colored, ordered sequence of notes bound to a
/// directory path. It owns its notes exclusively; they keep insertion order,
/// which is also file-creation order.
#[derive(Clone, Debug)]
pub struct Folder {
    pub name: String,
    pub color: Rgb,
    pub notes: Vec<Note>,
    pub path: String,
}

impl Folder {
    /// A new folder with no notes yet.
    pub fn new(name: &str, color: Rgb, path: String) -> (f: Folder)
        ensures
            f.name@ == name@,
            f.color == color,
            f.notes@.len() == 0,
            f.path == path,
    {
        Folder { name: name.to_owned(), color, notes: Vec::new(), path }
    }
}

} // verus!
