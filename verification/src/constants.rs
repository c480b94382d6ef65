use vstd::prelude::*;

verus! {

pub const ROMAJI_BEG: char = '\u{0000}';

pub const ROMAJI_END: char = '\u{007F}';

pub const HIRAGANA_BEG: char = '\u{3040}';

pub const HIRAGANA_END: char = '\u{309F}';

pub const KATAKANA_BEG: char = '\u{30A0}';

pub const KATAKANA_END: char = '\u{30FF}';

pub const KANJI_BEG: char = '\u{4E00}';

pub const KANJI_END: char = '\u{9FAF}';

pub const LATIN_NUM_BEG: char = '\u{0030}';

pub const LATIN_NUM_END: char = '\u{0039}';

pub const ROMAN_BEG: char = '\u{0021}';

pub const ROMAN_END: char = '\u{007E}';

pub const JAPANESE_SPACE: char = '\u{3000}';

pub const SPACE: char = ' ';

} // verus!
