//! Special key codes in the terminal backend's numbering (all at least 256).
use vstd::prelude::*;

verus! {

pub const KEY_DOWN: i32 = 258;

pub const KEY_UP: i32 = 259;

pub const KEY_LEFT: i32 = 260;

pub const KEY_RIGHT: i32 = 261;

pub const KEY_HOME: i32 = 262;

pub const KEY_BACKSPACE: i32 = 263;

pub const KEY_F0: i32 = 264;

pub const KEY_DL: i32 = 328;

pub const KEY_DC: i32 = 330;

pub const KEY_IC: i32 = 331;

pub const KEY_EOL: i32 = 335;

pub const KEY_SF: i32 = 336;

pub const KEY_SR: i32 = 337;

pub const KEY_NPAGE: i32 = 338;

pub const KEY_PPAGE: i32 = 339;

pub const KEY_PRINT: i32 = 346;

pub const KEY_BTAB: i32 = 353;

pub const KEY_BEG: i32 = 354;

pub const KEY_CANCEL: i32 = 355;

pub const KEY_COMMAND: i32 = 357;

pub const KEY_COPY: i32 = 358;

pub const KEY_CREATE: i32 = 359;

pub const KEY_END: i32 = 360;

pub const KEY_EXIT: i32 = 361;

pub const KEY_FIND: i32 = 362;

pub const KEY_HELP: i32 = 363;

pub const KEY_MESSAGE: i32 = 365;

pub const KEY_MOVE: i32 = 366;

pub const KEY_NEXT: i32 = 367;

pub const KEY_OPTIONS: i32 = 369;

pub const KEY_PREVIOUS: i32 = 370;

pub const KEY_REDO: i32 = 371;

pub const KEY_REPLACE: i32 = 374;

pub const KEY_RESUME: i32 = 376;

pub const KEY_SAVE: i32 = 377;

pub const KEY_SBEG: i32 = 378;

pub const KEY_SCANCEL: i32 = 379;

pub const KEY_SCOMMAND: i32 = 380;

pub const KEY_SCOPY: i32 = 381;

pub const KEY_SCREATE: i32 = 382;

pub const KEY_SDC: i32 = 383;

pub const KEY_SDL: i32 = 384;

pub const KEY_SEND: i32 = 386;

pub const KEY_SEOL: i32 = 387;

pub const KEY_SEXIT: i32 = 388;

pub const KEY_SFIND: i32 = 389;

pub const KEY_SHELP: i32 = 390;

pub const KEY_SHOME: i32 = 391;

pub const KEY_SIC: i32 = 392;

pub const KEY_SLEFT: i32 = 393;

pub const KEY_SMESSAGE: i32 = 394;

pub const KEY_SMOVE: i32 = 395;

pub const KEY_SNEXT: i32 = 396;

pub const KEY_SOPTIONS: i32 = 397;

pub const KEY_SPREVIOUS: i32 = 398;

pub const KEY_SPRINT: i32 = 399;

pub const KEY_SREDO: i32 = 400;

pub const KEY_SREPLACE: i32 = 401;

pub const KEY_SRIGHT: i32 = 402;

pub const KEY_SRSUME: i32 = 403;

pub const KEY_SSAVE: i32 = 404;

pub const KEY_SSUSPEND: i32 = 405;

pub const KEY_SUNDO: i32 = 406;

pub const KEY_SUSPEND: i32 = 407;

pub const KEY_UNDO: i32 = 408;

pub const KEY_MOUSE: i32 = 409;

pub const KEY_RESIZE: i32 = 410;

/// Mouse button-state flag for a held CTRL key.
pub const BUTTON_CTRL: u32 = 0x2000000;

/// Mouse button-state flag for a held SHIFT key.
pub const BUTTON_SHIFT: u32 = 0x4000000;

/// Mouse button-state flag for a held ALT key.
pub const BUTTON_ALT: u32 = 0x8000000;

} // verus!
