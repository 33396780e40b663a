//! Timed Morse elements back to text.
//!
//! The decoder receives dit/dah pushes and periodic time ticks.  It
//! accumulates a code string for the character being received, flushes
//! it to a character once an inter-character gap of silence has
//! elapsed, and emits a word space after a further, longer silence.
//! Gap timing is measured from the end of an element, not its start:
//! a push projects the element's end time forward, so a dah's own
//! three-dot length is never mistaken for a character gap.

use vstd::prelude::*;

use crate::text::{push_char, str_eq};
use crate::timing::Timing;

verus! {

/// What a keyer reports for one poll.  `Idle` means nothing to report.
#[derive(Debug, Clone, Copy, PartialEq, Eq, Structural)]
pub enum PaddleEvent {
    DitDown,
    DitUp,
    DahDown,
    DahUp,
    Idle,
}

/// `a + b`, stopping at the largest representable instant.
pub open spec fn sat_add(a: u64, b: u64) -> u64 {
    if a + b > u64::MAX {
        u64::MAX
    } else {
        (a + b) as u64
    }
}

/// `a - b`, and zero when `b` lies in the future of `a`.
pub open spec fn sat_sub(a: u64, b: u64) -> u64 {
    if a >= b {
        (a - b) as u64
    } else {
        0
    }
}

/// The character an accumulated `.`/`-` string flushes to: the exact
/// inverse of the encoder's table, entry for entry.  Codes outside the
/// table flush to nothing.
pub open spec fn spec_decode_code(s: Seq<char>) -> Option<char> {
    if s == ".-"@ {
        Some('A')
    } else if s == "-..."@ {
        Some('B')
    } else if s == "-.-."@ {
        Some('C')
    } else if s == "-.."@ {
        Some('D')
    } else if s == "."@ {
        Some('E')
    } else if s == "..-."@ {
        Some('F')
    } else if s == "--."@ {
        Some('G')
    } else if s == "...."@ {
        Some('H')
    } else if s == ".."@ {
        Some('I')
    } else if s == ".---"@ {
        Some('J')
    } else if s == "-.-"@ {
        Some('K')
    } else if s == ".-.."@ {
        Some('L')
    } else if s == "--"@ {
        Some('M')
    } else if s == "-."@ {
        Some('N')
    } else if s == "---"@ {
        Some('O')
    } else if s == ".--."@ {
        Some('P')
    } else if s == "--.-"@ {
        Some('Q')
    } else if s == ".-."@ {
        Some('R')
    } else if s == "..."@ {
        Some('S')
    } else if s == "-"@ {
        Some('T')
    } else if s == "..-"@ {
        Some('U')
    } else if s == "...-"@ {
        Some('V')
    } else if s == ".--"@ {
        Some('W')
    } else if s == "-..-"@ {
        Some('X')
    } else if s == "-.--"@ {
        Some('Y')
    } else if s == "--.."@ {
        Some('Z')
    } else if s == "-----"@ {
        Some('0')
    } else if s == ".----"@ {
        Some('1')
    } else if s == "..---"@ {
        Some('2')
    } else if s == "...--"@ {
        Some('3')
    } else if s == "....-"@ {
        Some('4')
    } else if s == "....."@ {
        Some('5')
    } else if s == "-...."@ {
        Some('6')
    } else if s == "--..."@ {
        Some('7')
    } else if s == "---.."@ {
        Some('8')
    } else if s == "----."@ {
        Some('9')
    } else if s == ".-.-.-"@ {
        Some('.')
    } else if s == "--..--"@ {
        Some(',')
    } else if s == "..--.."@ {
        Some('?')
    } else if s == "-..-."@ {
        Some('/')
    } else if s == ".-.-."@ {
        Some('+')
    } else if s == "-...-"@ {
        Some('=')
    } else if s == "-....-"@ {
        Some('-')
    } else if s == ".--.-."@ {
        Some('@')
    } else if s == "-.--."@ {
        Some('(')
    } else if s == "-.--.-"@ {
        Some(')')
    } else if s == ".----."@ {
        Some('\'')
    } else {
        None
    }
}

/// Reverse lookup from the encoder table.
pub fn decode_code(code: &str) -> (r: Option<char>)
    ensures
        r == spec_decode_code(code@),
{
    if str_eq(code, ".-") {
        Some('A')
    } else if str_eq(code, "-...") {
        Some('B')
    } else if str_eq(code, "-.-.") {
        Some('C')
    } else if str_eq(code, "-..") {
        Some('D')
    } else if str_eq(code, ".") {
        Some('E')
    } else if str_eq(code, "..-.") {
        Some('F')
    } else if str_eq(code, "--.") {
        Some('G')
    } else if str_eq(code, "....") {
        Some('H')
    } else if str_eq(code, "..") {
        Some('I')
    } else if str_eq(code, ".---") {
        Some('J')
    } else if str_eq(code, "-.-") {
        Some('K')
    } else if str_eq(code, ".-..") {
        Some('L')
    } else if str_eq(code, "--") {
        Some('M')
    } else if str_eq(code, "-.") {
        Some('N')
    } else if str_eq(code, "---") {
        Some('O')
    } else if str_eq(code, ".--.") {
        Some('P')
    } else if str_eq(code, "--.-") {
        Some('Q')
    } else if str_eq(code, ".-.") {
        Some('R')
    } else if str_eq(code, "...") {
        Some('S')
    } else if str_eq(code, "-") {
        Some('T')
    } else if str_eq(code, "..-") {
        Some('U')
    } else if str_eq(code, "...-") {
        Some('V')
    } else if str_eq(code, ".--") {
        Some('W')
    } else if str_eq(code, "-..-") {
        Some('X')
    } else if str_eq(code, "-.--") {
        Some('Y')
    } else if str_eq(code, "--..") {
        Some('Z')
    } else if str_eq(code, "-----") {
        Some('0')
    } else if str_eq(code, ".----") {
        Some('1')
    } else if str_eq(code, "..---") {
        Some('2')
    } else if str_eq(code, "...--") {
        Some('3')
    } else if str_eq(code, "....-") {
        Some('4')
    } else if str_eq(code, ".....") {
        Some('5')
    } else if str_eq(code, "-....") {
        Some('6')
    } else if str_eq(code, "--...") {
        Some('7')
    } else if str_eq(code, "---..") {
        Some('8')
    } else if str_eq(code, "----.") {
        Some('9')
    } else if str_eq(code, ".-.-.-") {
        Some('.')
    } else if str_eq(code, "--..--") {
        Some(',')
    } else if str_eq(code, "..--..") {
        Some('?')
    } else if str_eq(code, "-..-.") {
        Some('/')
    } else if str_eq(code, ".-.-.") {
        Some('+')
    } else if str_eq(code, "-...-") {
        Some('=')
    } else if str_eq(code, "-....-") {
        Some('-')
    } else if str_eq(code, ".--.-.") {
        Some('@')
    } else if str_eq(code, "-.--.") {
        Some('(')
    } else if str_eq(code, "-.--.-") {
        Some(')')
    } else if str_eq(code, ".----.") {
        Some('\'')
    } else {
        None
    }
}

/// Ground facts about the code literals of length 1: their length
/// and their pairwise distinctness.
#[verifier::spinoff_prover]
#[verifier::rlimit(100)]
proof fn lemma_code_facts_len1()
    ensures
        "."@.len() == 1,
        "-"@.len() == 1,
        "."@ != "-"@,
{
    reveal_strlit(".");
    reveal_strlit("-");
    assert("."@[0] == '.');
    assert("-"@[0] == '-');
}

/// Ground facts about the code literals of length 2: their length
/// and their pairwise distinctness.
#[verifier::spinoff_prover]
#[verifier::rlimit(100)]
proof fn lemma_code_facts_len2()
    ensures
        ".-"@.len() == 2,
        ".."@.len() == 2,
        "--"@.len() == 2,
        "-."@.len() == 2,
        ".-"@ != ".."@,
        ".-"@ != "--"@,
        ".-"@ != "-."@,
        ".."@ != "--"@,
        ".."@ != "-."@,
        "--"@ != "-."@,
{
    reveal_strlit(".-");
    reveal_strlit("..");
    reveal_strlit("--");
    reveal_strlit("-.");
    assert(".-"@[0] == '.');
    assert(".-"@[1] == '-');
    assert(".."@[0] == '.');
    assert(".."@[1] == '.');
    assert("--"@[0] == '-');
    assert("--"@[1] == '-');
    assert("-."@[0] == '-');
    assert("-."@[1] == '.');
}

/// Ground facts about the code literals of length 3: their length
/// and their pairwise distinctness.
#[verifier::spinoff_prover]
#[verifier::rlimit(100)]
proof fn lemma_code_facts_len3()
    ensures
        "-.."@.len() == 3,
        "--."@.len() == 3,
        "-.-"@.len() == 3,
        "---"@.len() == 3,
        ".-."@.len() == 3,
        "..."@.len() == 3,
        "..-"@.len() == 3,
        ".--"@.len() == 3,
        "-.."@ != "--."@,
        "-.."@ != "-.-"@,
        "-.."@ != "---"@,
        "-.."@ != ".-."@,
        "-.."@ != "..."@,
        "-.."@ != "..-"@,
        "-.."@ != ".--"@,
        "--."@ != "-.-"@,
        "--."@ != "---"@,
        "--."@ != ".-."@,
        "--."@ != "..."@,
        "--."@ != "..-"@,
        "--."@ != ".--"@,
        "-.-"@ != "---"@,
        "-.-"@ != ".-."@,
        "-.-"@ != "..."@,
        "-.-"@ != "..-"@,
        "-.-"@ != ".--"@,
        "---"@ != ".-."@,
        "---"@ != "..."@,
        "---"@ != "..-"@,
        "---"@ != ".--"@,
        ".-."@ != "..."@,
        ".-."@ != "..-"@,
        ".-."@ != ".--"@,
        "..."@ != "..-"@,
        "..."@ != ".--"@,
        "..-"@ != ".--"@,
{
    reveal_strlit("-..");
    reveal_strlit("--.");
    reveal_strlit("-.-");
    reveal_strlit("---");
    reveal_strlit(".-.");
    reveal_strlit("...");
    reveal_strlit("..-");
    reveal_strlit(".--");
    assert("-.."@[0] == '-');
    assert("-.."@[1] == '.');
    assert("-.."@[2] == '.');
    assert("--."@[0] == '-');
    assert("--."@[1] == '-');
    assert("--."@[2] == '.');
    assert("-.-"@[0] == '-');
    assert("-.-"@[1] == '.');
    assert("-.-"@[2] == '-');
    assert("---"@[0] == '-');
    assert("---"@[1] == '-');
    assert("---"@[2] == '-');
    assert(".-."@[0] == '.');
    assert(".-."@[1] == '-');
    assert(".-."@[2] == '.');
    assert("..."@[0] == '.');
    assert("..."@[1] == '.');
    assert("..."@[2] == '.');
    assert("..-"@[0] == '.');
    assert("..-"@[1] == '.');
    assert("..-"@[2] == '-');
    assert(".--"@[0] == '.');
    assert(".--"@[1] == '-');
    assert(".--"@[2] == '-');
}

/// Ground facts about the code literals of length 4: their length
/// and their pairwise distinctness.
#[verifier::spinoff_prover]
#[verifier::rlimit(100)]
proof fn lemma_code_facts_len4()
    ensures
        "-..."@.len() == 4,
        "-.-."@.len() == 4,
        "..-."@.len() == 4,
        "...."@.len() == 4,
        ".---"@.len() == 4,
        ".-.."@.len() == 4,
        ".--."@.len() == 4,
        "--.-"@.len() == 4,
        "...-"@.len() == 4,
        "-..-"@.len() == 4,
        "-.--"@.len() == 4,
        "--.."@.len() == 4,
        "-..."@ != "-.-."@,
        "-..."@ != "..-."@,
        "-..."@ != "...."@,
        "-..."@ != ".---"@,
        "-..."@ != ".-.."@,
        "-..."@ != ".--."@,
        "-..."@ != "--.-"@,
        "-..."@ != "...-"@,
        "-..."@ != "-..-"@,
        "-..."@ != "-.--"@,
        "-..."@ != "--.."@,
        "-.-."@ != "..-."@,
        "-.-."@ != "...."@,
        "-.-."@ != ".---"@,
        "-.-."@ != ".-.."@,
        "-.-."@ != ".--."@,
        "-.-."@ != "--.-"@,
        "-.-."@ != "...-"@,
        "-.-."@ != "-..-"@,
        "-.-."@ != "-.--"@,
        "-.-."@ != "--.."@,
        "..-."@ != "...."@,
        "..-."@ != ".---"@,
        "..-."@ != ".-.."@,
        "..-."@ != ".--."@,
        "..-."@ != "--.-"@,
        "..-."@ != "...-"@,
        "..-."@ != "-..-"@,
        "..-."@ != "-.--"@,
        "..-."@ != "--.."@,
        "...."@ != ".---"@,
        "...."@ != ".-.."@,
        "...."@ != ".--."@,
        "...."@ != "--.-"@,
        "...."@ != "...-"@,
        "...."@ != "-..-"@,
        "...."@ != "-.--"@,
        "...."@ != "--.."@,
        ".---"@ != ".-.."@,
        ".---"@ != ".--."@,
        ".---"@ != "--.-"@,
        ".---"@ != "...-"@,
        ".---"@ != "-..-"@,
        ".---"@ != "-.--"@,
        ".---"@ != "--.."@,
        ".-.."@ != ".--."@,
        ".-.."@ != "--.-"@,
        ".-.."@ != "...-"@,
        ".-.."@ != "-..-"@,
        ".-.."@ != "-.--"@,
        ".-.."@ != "--.."@,
        ".--."@ != "--.-"@,
        ".--."@ != "...-"@,
        ".--."@ != "-..-"@,
        ".--."@ != "-.--"@,
        ".--."@ != "--.."@,
        "--.-"@ != "...-"@,
        "--.-"@ != "-..-"@,
        "--.-"@ != "-.--"@,
        "--.-"@ != "--.."@,
        "...-"@ != "-..-"@,
        "...-"@ != "-.--"@,
        "...-"@ != "--.."@,
        "-..-"@ != "-.--"@,
        "-..-"@ != "--.."@,
        "-.--"@ != "--.."@,
{
    reveal_strlit("-...");
    reveal_strlit("-.-.");
    reveal_strlit("..-.");
    reveal_strlit("....");
    reveal_strlit(".---");
    reveal_strlit(".-..");
    reveal_strlit(".--.");
    reveal_strlit("--.-");
    reveal_strlit("...-");
    reveal_strlit("-..-");
    reveal_strlit("-.--");
    reveal_strlit("--..");
    assert("-..."@[0] == '-');
    assert("-..."@[1] == '.');
    assert("-..."@[2] == '.');
    assert("-..."@[3] == '.');
    assert("-.-."@[0] == '-');
    assert("-.-."@[1] == '.');
    assert("-.-."@[2] == '-');
    assert("-.-."@[3] == '.');
    assert("..-."@[0] == '.');
    assert("..-."@[1] == '.');
    assert("..-."@[2] == '-');
    assert("..-."@[3] == '.');
    assert("...."@[0] == '.');
    assert("...."@[1] == '.');
    assert("...."@[2] == '.');
    assert("...."@[3] == '.');
    assert(".---"@[0] == '.');
    assert(".---"@[1] == '-');
    assert(".---"@[2] == '-');
    assert(".---"@[3] == '-');
    assert(".-.."@[0] == '.');
    assert(".-.."@[1] == '-');
    assert(".-.."@[2] == '.');
    assert(".-.."@[3] == '.');
    assert(".--."@[0] == '.');
    assert(".--."@[1] == '-');
    assert(".--."@[2] == '-');
    assert(".--."@[3] == '.');
    assert("--.-"@[0] == '-');
    assert("--.-"@[1] == '-');
    assert("--.-"@[2] == '.');
    assert("--.-"@[3] == '-');
    assert("...-"@[0] == '.');
    assert("...-"@[1] == '.');
    assert("...-"@[2] == '.');
    assert("...-"@[3] == '-');
    assert("-..-"@[0] == '-');
    assert("-..-"@[1] == '.');
    assert("-..-"@[2] == '.');
    assert("-..-"@[3] == '-');
    assert("-.--"@[0] == '-');
    assert("-.--"@[1] == '.');
    assert("-.--"@[2] == '-');
    assert("-.--"@[3] == '-');
    assert("--.."@[0] == '-');
    assert("--.."@[1] == '-');
    assert("--.."@[2] == '.');
    assert("--.."@[3] == '.');
}

/// Ground facts about the code literals of length 5: their length
/// and their pairwise distinctness.
#[verifier::spinoff_prover]
#[verifier::rlimit(100)]
proof fn lemma_code_facts_len5()
    ensures
        "-----"@.len() == 5,
        ".----"@.len() == 5,
        "..---"@.len() == 5,
        "...--"@.len() == 5,
        "....-"@.len() == 5,
        "....."@.len() == 5,
        "-...."@.len() == 5,
        "--..."@.len() == 5,
        "---.."@.len() == 5,
        "----."@.len() == 5,
        "-..-."@.len() == 5,
        ".-.-."@.len() == 5,
        "-...-"@.len() == 5,
        "-.--."@.len() == 5,
        "-----"@ != ".----"@,
        "-----"@ != "..---"@,
        "-----"@ != "...--"@,
        "-----"@ != "....-"@,
        "-----"@ != "....."@,
        "-----"@ != "-...."@,
        "-----"@ != "--..."@,
        "-----"@ != "---.."@,
        "-----"@ != "----."@,
        "-----"@ != "-..-."@,
        "-----"@ != ".-.-."@,
        "-----"@ != "-...-"@,
        "-----"@ != "-.--."@,
        ".----"@ != "..---"@,
        ".----"@ != "...--"@,
        ".----"@ != "....-"@,
        ".----"@ != "....."@,
        ".----"@ != "-...."@,
        ".----"@ != "--..."@,
        ".----"@ != "---.."@,
        ".----"@ != "----."@,
        ".----"@ != "-..-."@,
        ".----"@ != ".-.-."@,
        ".----"@ != "-...-"@,
        ".----"@ != "-.--."@,
        "..---"@ != "...--"@,
        "..---"@ != "....-"@,
        "..---"@ != "....."@,
        "..---"@ != "-...."@,
        "..---"@ != "--..."@,
        "..---"@ != "---.."@,
        "..---"@ != "----."@,
        "..---"@ != "-..-."@,
        "..---"@ != ".-.-."@,
        "..---"@ != "-...-"@,
        "..---"@ != "-.--."@,
        "...--"@ != "....-"@,
        "...--"@ != "....."@,
        "...--"@ != "-...."@,
        "...--"@ != "--..."@,
        "...--"@ != "---.."@,
        "...--"@ != "----."@,
        "...--"@ != "-..-."@,
        "...--"@ != ".-.-."@,
        "...--"@ != "-...-"@,
        "...--"@ != "-.--."@,
        "....-"@ != "....."@,
        "....-"@ != "-...."@,
        "....-"@ != "--..."@,
        "....-"@ != "---.."@,
        "....-"@ != "----."@,
        "....-"@ != "-..-."@,
        "....-"@ != ".-.-."@,
        "....-"@ != "-...-"@,
        "....-"@ != "-.--."@,
        "....."@ != "-...."@,
        "....."@ != "--..."@,
        "....."@ != "---.."@,
        "....."@ != "----."@,
        "....."@ != "-..-."@,
        "....."@ != ".-.-."@,
        "....."@ != "-...-"@,
        "....."@ != "-.--."@,
        "-...."@ != "--..."@,
        "-...."@ != "---.."@,
        "-...."@ != "----."@,
        "-...."@ != "-..-."@,
        "-...."@ != ".-.-."@,
        "-...."@ != "-...-"@,
        "-...."@ != "-.--."@,
        "--..."@ != "---.."@,
        "--..."@ != "----."@,
        "--..."@ != "-..-."@,
        "--..."@ != ".-.-."@,
        "--..."@ != "-...-"@,
        "--..."@ != "-.--."@,
        "---.."@ != "----."@,
        "---.."@ != "-..-."@,
        "---.."@ != ".-.-."@,
        "---.."@ != "-...-"@,
        "---.."@ != "-.--."@,
        "----."@ != "-..-."@,
        "----."@ != ".-.-."@,
        "----."@ != "-...-"@,
        "----."@ != "-.--."@,
        "-..-."@ != ".-.-."@,
        "-..-."@ != "-...-"@,
        "-..-."@ != "-.--."@,
        ".-.-."@ != "-...-"@,
        ".-.-."@ != "-.--."@,
        "-...-"@ != "-.--."@,
{
    reveal_strlit("-----");
    reveal_strlit(".----");
    reveal_strlit("..---");
    reveal_strlit("...--");
    reveal_strlit("....-");
    reveal_strlit(".....");
    reveal_strlit("-....");
    reveal_strlit("--...");
    reveal_strlit("---..");
    reveal_strlit("----.");
    reveal_strlit("-..-.");
    reveal_strlit(".-.-.");
    reveal_strlit("-...-");
    reveal_strlit("-.--.");
    assert("-----"@[0] == '-');
    assert("-----"@[1] == '-');
    assert("-----"@[2] == '-');
    assert("-----"@[3] == '-');
    assert("-----"@[4] == '-');
    assert(".----"@[0] == '.');
    assert(".----"@[1] == '-');
    assert(".----"@[2] == '-');
    assert(".----"@[3] == '-');
    assert(".----"@[4] == '-');
    assert("..---"@[0] == '.');
    assert("..---"@[1] == '.');
    assert("..---"@[2] == '-');
    assert("..---"@[3] == '-');
    assert("..---"@[4] == '-');
    assert("...--"@[0] == '.');
    assert("...--"@[1] == '.');
    assert("...--"@[2] == '.');
    assert("...--"@[3] == '-');
    assert("...--"@[4] == '-');
    assert("....-"@[0] == '.');
    assert("....-"@[1] == '.');
    assert("....-"@[2] == '.');
    assert("....-"@[3] == '.');
    assert("....-"@[4] == '-');
    assert("....."@[0] == '.');
    assert("....."@[1] == '.');
    assert("....."@[2] == '.');
    assert("....."@[3] == '.');
    assert("....."@[4] == '.');
    assert("-...."@[0] == '-');
    assert("-...."@[1] == '.');
    assert("-...."@[2] == '.');
    assert("-...."@[3] == '.');
    assert("-...."@[4] == '.');
    assert("--..."@[0] == '-');
    assert("--..."@[1] == '-');
    assert("--..."@[2] == '.');
    assert("--..."@[3] == '.');
    assert("--..."@[4] == '.');
    assert("---.."@[0] == '-');
    assert("---.."@[1] == '-');
    assert("---.."@[2] == '-');
    assert("---.."@[3] == '.');
    assert("---.."@[4] == '.');
    assert("----."@[0] == '-');
    assert("----."@[1] == '-');
    assert("----."@[2] == '-');
    assert("----."@[3] == '-');
    assert("----."@[4] == '.');
    assert("-..-."@[0] == '-');
    assert("-..-."@[1] == '.');
    assert("-..-."@[2] == '.');
    assert("-..-."@[3] == '-');
    assert("-..-."@[4] == '.');
    assert(".-.-."@[0] == '.');
    assert(".-.-."@[1] == '-');
    assert(".-.-."@[2] == '.');
    assert(".-.-."@[3] == '-');
    assert(".-.-."@[4] == '.');
    assert("-...-"@[0] == '-');
    assert("-...-"@[1] == '.');
    assert("-...-"@[2] == '.');
    assert("-...-"@[3] == '.');
    assert("-...-"@[4] == '-');
    assert("-.--."@[0] == '-');
    assert("-.--."@[1] == '.');
    assert("-.--."@[2] == '-');
    assert("-.--."@[3] == '-');
    assert("-.--."@[4] == '.');
}

/// Ground facts about the code literals of length 6: their length
/// and their pairwise distinctness.
#[verifier::spinoff_prover]
#[verifier::rlimit(100)]
proof fn lemma_code_facts_len6()
    ensures
        ".-.-.-"@.len() == 6,
        "--..--"@.len() == 6,
        "..--.."@.len() == 6,
        "-....-"@.len() == 6,
        ".--.-."@.len() == 6,
        "-.--.-"@.len() == 6,
        ".----."@.len() == 6,
        ".-.-.-"@ != "--..--"@,
        ".-.-.-"@ != "..--.."@,
        ".-.-.-"@ != "-....-"@,
        ".-.-.-"@ != ".--.-."@,
        ".-.-.-"@ != "-.--.-"@,
        ".-.-.-"@ != ".----."@,
        "--..--"@ != "..--.."@,
        "--..--"@ != "-....-"@,
        "--..--"@ != ".--.-."@,
        "--..--"@ != "-.--.-"@,
        "--..--"@ != ".----."@,
        "..--.."@ != "-....-"@,
        "..--.."@ != ".--.-."@,
        "..--.."@ != "-.--.-"@,
        "..--.."@ != ".----."@,
        "-....-"@ != ".--.-."@,
        "-....-"@ != "-.--.-"@,
        "-....-"@ != ".----."@,
        ".--.-."@ != "-.--.-"@,
        ".--.-."@ != ".----."@,
        "-.--.-"@ != ".----."@,
{
    reveal_strlit(".-.-.-");
    reveal_strlit("--..--");
    reveal_strlit("..--..");
    reveal_strlit("-....-");
    reveal_strlit(".--.-.");
    reveal_strlit("-.--.-");
    reveal_strlit(".----.");
    assert(".-.-.-"@[0] == '.');
    assert(".-.-.-"@[1] == '-');
    assert(".-.-.-"@[2] == '.');
    assert(".-.-.-"@[3] == '-');
    assert(".-.-.-"@[4] == '.');
    assert(".-.-.-"@[5] == '-');
    assert("--..--"@[0] == '-');
    assert("--..--"@[1] == '-');
    assert("--..--"@[2] == '.');
    assert("--..--"@[3] == '.');
    assert("--..--"@[4] == '-');
    assert("--..--"@[5] == '-');
    assert("..--.."@[0] == '.');
    assert("..--.."@[1] == '.');
    assert("..--.."@[2] == '-');
    assert("..--.."@[3] == '-');
    assert("..--.."@[4] == '.');
    assert("..--.."@[5] == '.');
    assert("-....-"@[0] == '-');
    assert("-....-"@[1] == '.');
    assert("-....-"@[2] == '.');
    assert("-....-"@[3] == '.');
    assert("-....-"@[4] == '.');
    assert("-....-"@[5] == '-');
    assert(".--.-."@[0] == '.');
    assert(".--.-."@[1] == '-');
    assert(".--.-."@[2] == '-');
    assert(".--.-."@[3] == '.');
    assert(".--.-."@[4] == '-');
    assert(".--.-."@[5] == '.');
    assert("-.--.-"@[0] == '-');
    assert("-.--.-"@[1] == '.');
    assert("-.--.-"@[2] == '-');
    assert("-.--.-"@[3] == '-');
    assert("-.--.-"@[4] == '.');
    assert("-.--.-"@[5] == '-');
    assert(".----."@[0] == '.');
    assert(".----."@[1] == '-');
    assert(".----."@[2] == '-');
    assert(".----."@[3] == '-');
    assert(".----."@[4] == '-');
    assert(".----."@[5] == '.');
}

/// Law: the reverse table is a strict inverse of the encoder's forward
/// table.  Every code the encoder can emit for a character flushes
/// back to exactly that character, upper-cased.
#[verifier::rlimit(100)]
pub proof fn lemma_table_inverse(c: char, s: Seq<char>)
    requires
        crate::encoder::spec_char_code(c) == Some(s),
    ensures
        spec_decode_code(s) == Some(crate::text::spec_upper(c)),
{
    lemma_code_facts_len1();
    lemma_code_facts_len2();
    lemma_code_facts_len3();
    lemma_code_facts_len4();
    lemma_code_facts_len5();
    lemma_code_facts_len6();
}

/// Law: the reverse table answers only with characters of the forward
/// table, under exactly their own code.
#[verifier::rlimit(60)]
pub proof fn lemma_table_inverse_back(s: Seq<char>, c: char)
    requires
        spec_decode_code(s) == Some(c),
    ensures
        crate::encoder::spec_char_code(c) == Some(s),
        crate::text::spec_upper(c) == c,
{
}

/// The decoder's abstract state: the code being accumulated, the
/// display log, the projected end of the last element, the instant of
/// the last character flush, and the timing in force.
pub struct DecoderModel {
    pub code: Seq<char>,
    pub text: Seq<char>,
    pub last_event: u64,
    pub last_flush: Option<u64>,
    pub timing: Timing,
}

/// Pushing one element appends its mark and projects `last_event` to
/// the element's end, so gaps are measured from where it finishes.
pub open spec fn spec_push(m: DecoderModel, is_dash: bool, el_dur: u64, now: u64) -> DecoderModel {
    DecoderModel {
        code: m.code.push(if is_dash { '-' } else { '.' }),
        last_event: sat_add(now, el_dur),
        ..m
    }
}

/// One tick: what the decoder becomes and what it reports.
///
/// With no code pending, a word gap measured from the last character
/// flush emits the word space once.  With code pending, a word gap of
/// silence flushes it and emits `"<char> "` (just `" "` when the code
/// is unknown); a character gap flushes it and emits the character
/// alone, remembering the flush instant so the word space can follow.
pub open spec fn spec_tick(m: DecoderModel, now: u64) -> (DecoderModel, Option<Seq<char>>) {
    if m.code.len() == 0 {
        match m.last_flush {
            Some(t) => if sat_sub(now, t) >= m.timing.word_gap {
                (DecoderModel { last_flush: None, text: m.text.push(' '), ..m }, Some(" "@))
            } else {
                (m, None)
            },
            None => (m, None),
        }
    } else {
        let elapsed = sat_sub(now, m.last_event);
        if elapsed >= m.timing.word_gap {
            let flushed = DecoderModel {
                code: Seq::empty(),
                last_flush: None,
                text: m.text.push(' '),
                ..m
            };
            match spec_decode_code(m.code) {
                Some(ch) => (flushed, Some(seq![ch, ' '])),
                None => (flushed, Some(" "@)),
            }
        } else if elapsed >= m.timing.char_gap {
            let flushed = DecoderModel { code: Seq::empty(), last_flush: Some(now), ..m };
            match spec_decode_code(m.code) {
                Some(ch) => (flushed, Some(seq![ch])),
                None => (flushed, None),
            }
        } else {
            (m, None)
        }
    }
}

/// State machine: accumulated element string to character lookup.
pub struct Decoder {
    pub current_code: String,
    pub decoded_text: String,
    pub last_event: u64,
    pub last_char_flush: Option<u64>,
    pub timing: Timing,
}

impl View for Decoder {
    type V = DecoderModel;

    open spec fn view(&self) -> DecoderModel {
        DecoderModel {
            code: self.current_code@,
            text: self.decoded_text@,
            last_event: self.last_event,
            last_flush: self.last_char_flush,
            timing: self.timing,
        }
    }
}

impl Decoder {
    /// A fresh decoder: nothing received, nothing pending.
    pub fn new(timing: Timing) -> (d: Decoder)
        ensures
            d@ == (DecoderModel {
                code: Seq::<char>::empty(),
                text: Seq::<char>::empty(),
                last_event: 0,
                last_flush: None,
                timing,
            }),
    {
        let d = Decoder {
            current_code: String::new(),
            decoded_text: String::new(),
            last_event: 0,
            last_char_flush: None,
            timing,
        };
        proof {
            assert(d@ =~= DecoderModel {
                code: Seq::<char>::empty(),
                text: Seq::<char>::empty(),
                last_event: 0,
                last_flush: None,
                timing,
            });
        }
        d
    }

    /// Swap in a new timing; everything else is untouched.
    pub fn update_timing(&mut self, t: Timing)
        ensures
            final(self)@ == (DecoderModel { timing: t, ..old(self)@ }),
    {
        self.timing = t;
    }

    /// Record one element that fired.  `el_dur` is the element's own
    /// length (dot or dash, without the trailing gap); `now_ms` is when
    /// it started, so gap timing runs from its projected end.
    pub fn push_element(&mut self, is_dash: bool, el_dur: u64, now_ms: u64)
        ensures
            final(self)@ == spec_push(old(self)@, is_dash, el_dur, now_ms),
    {
        if is_dash {
            push_char(&mut self.current_code, '-');
        } else {
            push_char(&mut self.current_code, '.');
        }
        self.last_event = now_ms.saturating_add(el_dur);
    }

    /// Call on a steady cadence; reports newly completed characters.
    pub fn tick(&mut self, now_ms: u64) -> (r: Option<String>)
        ensures
            final(self)@ == spec_tick(old(self)@, now_ms).0,
            match r {
                Some(s) => spec_tick(old(self)@, now_ms).1 == Some(s@),
                None => spec_tick(old(self)@, now_ms).1 is None,
            },
    {
        if self.current_code.as_str().is_empty() {
            if let Some(flushed_at) = self.last_char_flush {
                if now_ms.saturating_sub(flushed_at) >= self.timing.word_gap {
                    self.last_char_flush = None;
                    push_char(&mut self.decoded_text, ' ');
                    let out = String::from_str(" ");
                    return Some(out);
                }
            }
            return None;
        }

        let elapsed = now_ms.saturating_sub(self.last_event);

        if elapsed >= self.timing.word_gap {
            let c = self.flush_char();
            self.last_char_flush = None;
            push_char(&mut self.decoded_text, ' ');
            match c {
                Some(ch) => {
                    let mut out = String::new();
                    push_char(&mut out, ch);
                    push_char(&mut out, ' ');
                    proof {
                        assert(out@ =~= seq![ch, ' ']);
                    }
                    return Some(out);
                },
                None => {
                    let out = String::from_str(" ");
                    return Some(out);
                },
            }
        }
        if elapsed >= self.timing.char_gap {
            let c = self.flush_char();
            self.last_char_flush = Some(now_ms);
            match c {
                Some(ch) => {
                    let mut out = String::new();
                    push_char(&mut out, ch);
                    proof {
                        assert(out@ =~= seq![ch]);
                    }
                    return Some(out);
                },
                None => {
                    return None;
                },
            }
        }
        None
    }

    /// Flush the accumulated code to its character, clearing the code.
    pub fn flush_char(&mut self) -> (r: Option<char>)
        ensures
            final(self)@ == (DecoderModel { code: Seq::<char>::empty(), ..old(self)@ }),
            r == spec_decode_code(old(self)@.code),
    {
        let code = self.current_code.clone();
        self.current_code = String::new();
        decode_code(code.as_str())
    }

    /// The display log so far.
    pub fn decoded_text(&self) -> (r: &str)
        ensures
            r@ == self@.text,
    {
        self.decoded_text.as_str()
    }

    /// The `.`/`-` string of the character being received.
    pub fn current_code(&self) -> (r: &str)
        ensures
            r@ == self@.code,
    {
        self.current_code.as_str()
    }
}

/// Law: a tick pushes nothing onto the current code — it only ever
/// keeps it or flushes it empty — and a second tick at the same
/// instant changes nothing and reports nothing.  Ticking without new
/// elements therefore never invents characters.
pub proof fn lemma_tick_idempotent(m: DecoderModel, now: u64)
    requires
        m.timing.wf(),
    ensures
        spec_tick(m, now).0.code == m.code || spec_tick(m, now).0.code == Seq::<char>::empty(),
        ({
            let m1 = spec_tick(m, now).0;
            spec_tick(m1, now) == (m1, Option::<Seq<char>>::None)
        }),
{
    let m1 = spec_tick(m, now).0;
    assert(spec_tick(m1, now).0 =~= m1) by {
        assert(m.timing.word_gap > 0);
    }
}

} // verus!

