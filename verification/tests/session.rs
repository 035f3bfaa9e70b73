use kilo_rust::cursor::CursorState;
use kilo_rust::editor::{editor_process_keypress, EditorState, EventLoopState, Key};
use kilo_rust::render::editor_frame;
use kilo_rust::session::editor_run;

fn editor() -> EditorState {
    let contents = vec!["one".to_string(), "two".to_string(), "three".to_string()];
    EditorState::new(CursorState::new(20, 2), contents)
}

fn place(editor: &EditorState) -> (u16, u16, usize) {
    (editor.cursor().display_x() - 1, editor.cursor().display_y() - 1, editor.row_offset())
}

#[test]
fn terminate_key_stops_the_loop_with_one_more_frame() {
    let mut editor = editor();
    let keys = vec![Key::Down, Key::Right, Key::Ctrl('w')];
    let (state, frames) = editor_run(&mut editor, &keys);
    assert_eq!(state, EventLoopState::Terminate);
    assert_eq!(frames.len(), 4);
    assert_eq!(place(&editor), (1, 1, 0));
    assert_eq!(frames[3], editor_frame(&editor));
    assert_eq!(frames[3], frames[2]);
}

#[test]
fn no_key_is_read_after_the_terminate_key() {
    let mut editor = editor();
    let keys = vec![Key::Down, Key::Ctrl('w'), Key::Down, Key::Right, Key::Ctrl('w'), Key::End];
    let (state, frames) = editor_run(&mut editor, &keys);
    assert_eq!(state, EventLoopState::Terminate);
    assert_eq!(frames.len(), 3);
    assert_eq!(place(&editor), (0, 1, 0));
}

#[test]
fn frames_follow_the_keys() {
    let keys = vec![Key::Down, Key::Down, Key::Other, Key::End, Key::Ctrl('w')];
    let mut run = editor();
    let (state, frames) = editor_run(&mut run, &keys);
    assert_eq!(state, EventLoopState::Terminate);

    let mut stepped = editor();
    let mut expected = vec![editor_frame(&stepped)];
    for key in &keys {
        editor_process_keypress(*key, &mut stepped);
        expected.push(editor_frame(&stepped));
    }
    assert_eq!(frames, expected);
    assert_eq!(place(&run), place(&stepped));
    assert_eq!(place(&run), (19, 1, 1));
}

#[test]
fn first_frame_shows_the_viewer_as_it_starts() {
    let mut editor = editor();
    let (_, frames) = editor_run(&mut editor, &vec![Key::Ctrl('w')]);
    let expected = "\x1b[?25l\x1b[1;1H\
        \x1b[2Kone\r\n\
        \x1b[2Ktwo\r\n\
        \x1b[2Kkilo-rust -- [1/20, 1/2, 1/3]\
        \x1b[1;1H\x1b[?25h";
    assert_eq!(frames.len(), 2);
    assert_eq!(frames[0], expected);
    assert_eq!(frames[1], expected);
}

#[test]
fn keys_that_run_out_leave_the_loop_running() {
    let mut editor = editor();
    let keys = vec![Key::Right, Key::Right, Key::Char('w')];
    let (state, frames) = editor_run(&mut editor, &keys);
    assert_eq!(state, EventLoopState::Running);
    assert_eq!(frames.len(), 4);
    assert_eq!(place(&editor), (2, 0, 0));
}

#[test]
fn no_keys_give_one_frame() {
    let mut editor = editor();
    let (state, frames) = editor_run(&mut editor, &Vec::new());
    assert_eq!(state, EventLoopState::Running);
    assert_eq!(frames.len(), 1);
    assert_eq!(frames[0], editor_frame(&editor));
    assert_eq!(place(&editor), (0, 0, 0));
}
