use mdnotes::compiler::compile;
use mdnotes::store::FsAction;
use mdnotes::store::Msg;
use mdnotes::store::Store;
use mdnotes::style::Rgb;
use mdnotes::style::StyleContext;
use mdnotes::sync::Notice;
use mdnotes::sync::SyncEngine;

fn ctx() -> StyleContext {
    StyleContext {
        body_size: 14,
        heading_size: 24,
        mono_size: 12,
        text_color: Rgb { r: 220, g: 220, b: 220 },
        strong_color: Rgb { r: 255, g: 255, b: 255 },
    }
}

#[test]
fn external_change_is_reloaded_after_drain() {
    let mut engine = SyncEngine::new();
    engine.open_note("/tmp/notes/note_1.md");
    let mut body = String::from("old contents");
    // An external process wrote "# Hello" to the watched file; the caller
    // read it back and hands the notification in.
    let notices = vec![Notice::Modified(Some(String::from("# Hello")))];
    engine.apply_drain(&mut body, &notices);
    assert_eq!(body, "# Hello");
    // The compiler renders it as a single heading-level-1 run.
    let c = ctx();
    let runs = compile(&c, &body);
    assert_eq!(runs.len(), 2);
    assert_eq!(runs[0].text, "Hello");
    assert_eq!(runs[0].style.size, 24);
    assert_eq!(runs[1].text, "\n");
}

#[test]
fn drain_coalesces_to_final_reload() {
    let mut engine = SyncEngine::new();
    engine.open_note("/tmp/notes/note_1.md");
    let mut body = String::from("old");
    let notices = vec![
        Notice::Modified(Some(String::from("first"))),
        Notice::Other,
        Notice::Modified(Some(String::from("second"))),
        Notice::Modified(None),
    ];
    engine.apply_drain(&mut body, &notices);
    assert_eq!(body, "second");
}

#[test]
fn drain_without_reload_keeps_body() {
    let mut engine = SyncEngine::new();
    engine.open_note("/tmp/notes/note_1.md");
    let mut body = String::from("kept");
    let notices = vec![Notice::Other, Notice::Modified(None)];
    engine.apply_drain(&mut body, &notices);
    assert_eq!(body, "kept");
}

#[test]
fn self_write_is_suppressed() {
    let mut engine = SyncEngine::new();
    engine.open_note("/tmp/notes/note_1.md");
    let body = String::from("abc");
    let plan = engine.commit_edit(&body).expect("a note is open");
    assert_eq!(plan.md_path, "/tmp/notes/note_1.md");
    assert_eq!(plan.html_path, "/tmp/notes/note_1.html");
    // The write-through triggers a watch notification for our own write;
    // draining it must not revert or duplicate the body.
    let mut body = body;
    let notices = vec![Notice::Modified(Some(String::from("abc")))];
    engine.apply_drain(&mut body, &notices);
    assert_eq!(body, "abc");
}

#[test]
fn later_external_change_still_applies_after_commit() {
    let mut engine = SyncEngine::new();
    engine.open_note("/n.md");
    let plan = engine.commit_edit("abc");
    assert!(plan.is_some());
    let mut body = String::from("abc");
    let notices = vec![Notice::Modified(Some(String::from("external")))];
    engine.apply_drain(&mut body, &notices);
    assert_eq!(body, "external");
}

#[test]
fn commit_without_open_note_is_a_no_op() {
    let mut engine = SyncEngine::new();
    assert!(engine.commit_edit("x").is_none());
}

#[test]
fn commit_exports_html_to_sibling_path() {
    let mut engine = SyncEngine::new();
    engine.open_note("/d/note_2.md");
    let plan = engine.commit_edit("# Head").expect("a note is open");
    assert_eq!(plan.html_path, "/d/note_2.html");
    assert!(plan.html.contains("<h1>"));
    assert!(plan.html.contains("Head"));
}

#[test]
fn switching_notes_retargets_the_watch() {
    let mut engine = SyncEngine::new();
    engine.open_note("/a.md");
    assert_eq!(engine.watched.as_deref(), Some("/a.md"));
    engine.open_note("/b.md");
    assert_eq!(engine.watched.as_deref(), Some("/b.md"));
    engine.close_note();
    assert!(engine.watched.is_none());
}

#[test]
fn three_notes_get_sequential_paths() {
    let mut store = Store::new();
    store.set_working_dir(String::from("/root/dir"));
    // No folder selected: the create action makes a folder first.
    let action = store.handle(Msg::CreateItem);
    assert_eq!(
        action,
        Some(FsAction::CreateDir(String::from("/root/dir/Nouveau dossier 1")))
    );
    assert_eq!(store.folders.len(), 1);
    let a0 = store.handle(Msg::SelectFolder(0));
    assert!(a0.is_none());
    let a1 = store.handle(Msg::CreateItem);
    let a2 = store.handle(Msg::CreateItem);
    let a3 = store.handle(Msg::CreateItem);
    let folder = &store.folders[0];
    assert_eq!(folder.notes.len(), 3);
    assert!(folder.notes[0].path.ends_with("note_1.md"));
    assert!(folder.notes[1].path.ends_with("note_2.md"));
    assert!(folder.notes[2].path.ends_with("note_3.md"));
    assert_eq!(
        a1,
        Some(FsAction::CreateFile(String::from(
            "/root/dir/Nouveau dossier 1/note_1.md"
        )))
    );
    assert_eq!(
        a2,
        Some(FsAction::CreateFile(String::from(
            "/root/dir/Nouveau dossier 1/note_2.md"
        )))
    );
    assert_eq!(
        a3,
        Some(FsAction::CreateFile(String::from(
            "/root/dir/Nouveau dossier 1/note_3.md"
        )))
    );
    // The last created note is opened.
    assert_eq!(store.selected_note, Some(2));
}

#[test]
fn create_with_no_root_does_nothing() {
    let mut store = Store::new();
    let action = store.handle(Msg::CreateItem);
    assert!(action.is_none());
    assert_eq!(store.folders.len(), 0);
}

#[test]
fn selection_state_machine_transitions() {
    let mut store = Store::new();
    store.set_working_dir(String::from("/r"));
    store.handle(Msg::CreateItem);
    store.handle(Msg::SelectFolder(0));
    assert_eq!(store.selected, Some(0));
    store.handle(Msg::CreateItem);
    assert_eq!(store.selected_note, Some(0));
    // Back closes the note first, then the folder.
    store.handle(Msg::GoBack);
    assert_eq!(store.selected, Some(0));
    assert_eq!(store.selected_note, None);
    store.handle(Msg::GoBack);
    assert_eq!(store.selected, None);
    // Settings clears any selection.
    store.handle(Msg::SelectFolder(0));
    store.handle(Msg::OpenSettings);
    assert!(store.show_settings);
    assert_eq!(store.selected, None);
    assert_eq!(store.selected_note, None);
    // Home leaves settings.
    store.handle(Msg::SelectHome);
    assert!(!store.show_settings);
}

#[test]
fn created_note_is_empty_and_titled() {
    let mut store = Store::new();
    store.set_working_dir(String::from("/r"));
    store.handle(Msg::CreateItem);
    store.handle(Msg::SelectFolder(0));
    store.handle(Msg::CreateItem);
    let note = &store.folders[0].notes[0];
    assert_eq!(note.title, "Nouvelle note 1");
    assert_eq!(note.body, "");
}

#[test]
fn select_note_requires_selected_folder_state() {
    let mut store = Store::new();
    store.set_working_dir(String::from("/r"));
    store.handle(Msg::CreateItem);
    store.handle(Msg::SelectFolder(0));
    store.handle(Msg::CreateItem);
    store.handle(Msg::GoBack);
    assert_eq!(store.selected_note, None);
    store.select_note(0);
    assert_eq!(store.selected_note, Some(0));
}
