//! Common flags.
//!
//! Follow these flag conventions as close as possible, changing as
//! needed.

use vstd::prelude::*;

verus! {

/// `-a`
pub const ALPHABETICAL: char = 'a';

/// `-b`
pub const BACKUP: char = 'b';

/// `-c`
pub const CONTEXT: char = 'c';

/// `-d`
pub const DECODE: char = 'd';

/// `-e`
pub const ENCODE: char = 'e';

/// `-f`
pub const FORCE: char = 'f';

/// `-g`
pub const GROUPS: char = 'g';

/// `-h`
pub const HIDDEN: char = 'h';

/// `-i`
pub const CASE_INSENSITIVE: char = 'i';

/// `-j`
pub const SYMBOLIC_LINKS: char = 'j';

/// `-k`
pub const LOCKED: char = 'k';

/// `-l`
pub const LIST: char = 'l';

/// `-m`
pub const MACHINE_READABLE: char = 'm';

/// `-n`
pub const DRY_RUN: char = 'n';

/// `-o`
pub const OPEN: char = 'o';

/// `-p`
pub const PRETTY: char = 'p';

/// `-q`
pub const QUIET: char = 'q';

/// `-r`
pub const RECURSIVE: char = 'r';

/// `-s`
pub const SIZES: char = 's';

/// `-t`
pub const TIMES: char = 't';

/// `-u`
pub const UPDATE: char = 'u';

/// `-v`
pub const VERBOSE: char = 'v';

/// `-w`
pub const WORDS: char = 'w';

/// `-x`
pub const ENCRYPTED: char = 'x';

/// `-y`
pub const YES_ALL: char = 'y';

/// `-z`
pub const COMPRESSED: char = 'z';

} // verus!
