use terminal_input::keys;

#[test]
fn key_codes_match_ncurses() {
    assert_eq!(keys::KEY_DOWN, ncurses::KEY_DOWN);
    assert_eq!(keys::KEY_UP, ncurses::KEY_UP);
    assert_eq!(keys::KEY_LEFT, ncurses::KEY_LEFT);
    assert_eq!(keys::KEY_RIGHT, ncurses::KEY_RIGHT);
    assert_eq!(keys::KEY_HOME, ncurses::KEY_HOME);
    assert_eq!(keys::KEY_BACKSPACE, ncurses::KEY_BACKSPACE);
    assert_eq!(keys::KEY_F0, ncurses::KEY_F0);
    assert_eq!(keys::KEY_DL, ncurses::KEY_DL);
    assert_eq!(keys::KEY_DC, ncurses::KEY_DC);
    assert_eq!(keys::KEY_IC, ncurses::KEY_IC);
    assert_eq!(keys::KEY_EOL, ncurses::KEY_EOL);
    assert_eq!(keys::KEY_SF, ncurses::KEY_SF);
    assert_eq!(keys::KEY_SR, ncurses::KEY_SR);
    assert_eq!(keys::KEY_NPAGE, ncurses::KEY_NPAGE);
    assert_eq!(keys::KEY_PPAGE, ncurses::KEY_PPAGE);
    assert_eq!(keys::KEY_PRINT, ncurses::KEY_PRINT);
    assert_eq!(keys::KEY_BTAB, ncurses::KEY_BTAB);
    assert_eq!(keys::KEY_BEG, ncurses::KEY_BEG);
    assert_eq!(keys::KEY_CANCEL, ncurses::KEY_CANCEL);
    assert_eq!(keys::KEY_COMMAND, ncurses::KEY_COMMAND);
    assert_eq!(keys::KEY_COPY, ncurses::KEY_COPY);
    assert_eq!(keys::KEY_CREATE, ncurses::KEY_CREATE);
    assert_eq!(keys::KEY_END, ncurses::KEY_END);
    assert_eq!(keys::KEY_EXIT, ncurses::KEY_EXIT);
    assert_eq!(keys::KEY_FIND, ncurses::KEY_FIND);
    assert_eq!(keys::KEY_HELP, ncurses::KEY_HELP);
    assert_eq!(keys::KEY_MESSAGE, ncurses::KEY_MESSAGE);
    assert_eq!(keys::KEY_MOVE, ncurses::KEY_MOVE);
    assert_eq!(keys::KEY_NEXT, ncurses::KEY_NEXT);
    assert_eq!(keys::KEY_OPTIONS, ncurses::KEY_OPTIONS);
    assert_eq!(keys::KEY_PREVIOUS, ncurses::KEY_PREVIOUS);
    assert_eq!(keys::KEY_REDO, ncurses::KEY_REDO);
    assert_eq!(keys::KEY_REPLACE, ncurses::KEY_REPLACE);
    assert_eq!(keys::KEY_RESUME, ncurses::KEY_RESUME);
    assert_eq!(keys::KEY_SAVE, ncurses::KEY_SAVE);
    assert_eq!(keys::KEY_SBEG, ncurses::KEY_SBEG);
    assert_eq!(keys::KEY_SCANCEL, ncurses::KEY_SCANCEL);
    assert_eq!(keys::KEY_SCOMMAND, ncurses::KEY_SCOMMAND);
    assert_eq!(keys::KEY_SCOPY, ncurses::KEY_SCOPY);
    assert_eq!(keys::KEY_SCREATE, ncurses::KEY_SCREATE);
    assert_eq!(keys::KEY_SDC, ncurses::KEY_SDC);
    assert_eq!(keys::KEY_SDL, ncurses::KEY_SDL);
    assert_eq!(keys::KEY_SEND, ncurses::KEY_SEND);
    assert_eq!(keys::KEY_SEOL, ncurses::KEY_SEOL);
    assert_eq!(keys::KEY_SEXIT, ncurses::KEY_SEXIT);
    assert_eq!(keys::KEY_SFIND, ncurses::KEY_SFIND);
    assert_eq!(keys::KEY_SHELP, ncurses::KEY_SHELP);
    assert_eq!(keys::KEY_SHOME, ncurses::KEY_SHOME);
    assert_eq!(keys::KEY_SIC, ncurses::KEY_SIC);
    assert_eq!(keys::KEY_SLEFT, ncurses::KEY_SLEFT);
    assert_eq!(keys::KEY_SMESSAGE, ncurses::KEY_SMESSAGE);
    assert_eq!(keys::KEY_SMOVE, ncurses::KEY_SMOVE);
    assert_eq!(keys::KEY_SNEXT, ncurses::KEY_SNEXT);
    assert_eq!(keys::KEY_SOPTIONS, ncurses::KEY_SOPTIONS);
    assert_eq!(keys::KEY_SPREVIOUS, ncurses::KEY_SPREVIOUS);
    assert_eq!(keys::KEY_SPRINT, ncurses::KEY_SPRINT);
    assert_eq!(keys::KEY_SREDO, ncurses::KEY_SREDO);
    assert_eq!(keys::KEY_SREPLACE, ncurses::KEY_SREPLACE);
    assert_eq!(keys::KEY_SRIGHT, ncurses::KEY_SRIGHT);
    assert_eq!(keys::KEY_SRSUME, ncurses::KEY_SRSUME);
    assert_eq!(keys::KEY_SSAVE, ncurses::KEY_SSAVE);
    assert_eq!(keys::KEY_SSUSPEND, ncurses::KEY_SSUSPEND);
    assert_eq!(keys::KEY_SUNDO, ncurses::KEY_SUNDO);
    assert_eq!(keys::KEY_SUSPEND, ncurses::KEY_SUSPEND);
    assert_eq!(keys::KEY_UNDO, ncurses::KEY_UNDO);
    assert_eq!(keys::KEY_MOUSE, ncurses::KEY_MOUSE);
    assert_eq!(keys::KEY_RESIZE, ncurses::KEY_RESIZE);
}

#[test]
fn mouse_flags_match_ncurses() {
    assert_eq!(keys::BUTTON_CTRL, ncurses::BUTTON_CTRL as u32);
    assert_eq!(keys::BUTTON_SHIFT, ncurses::BUTTON_SHIFT as u32);
    assert_eq!(keys::BUTTON_ALT, ncurses::BUTTON_ALT as u32);
}
