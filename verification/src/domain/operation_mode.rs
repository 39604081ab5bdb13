use vstd::prelude::*;
use vstd::string::*;

verus! {

/// The operating mode of the whole trading system.
#[derive(Debug, Clone, Copy, PartialEq, Eq, Hash, Structural)]
pub enum OperationMode {
    Live,
    Paper,
    Readonly,
    Offline,
}

/// The transitions between modes that the orchestrator permits.
pub open spec fn transition_allowed(from: OperationMode, to: OperationMode) -> bool {
    match (from, to) {
        (OperationMode::Offline, OperationMode::Paper) => true,
        (OperationMode::Offline, OperationMode::Readonly) => true,
        (OperationMode::Paper, OperationMode::Live) => true,
        (OperationMode::Paper, OperationMode::Readonly) => true,
        (OperationMode::Paper, OperationMode::Offline) => true,
        (OperationMode::Live, OperationMode::Paper) => true,
        (OperationMode::Live, OperationMode::Readonly) => true,
        (OperationMode::Live, OperationMode::Offline) => true,
        (OperationMode::Readonly, OperationMode::Paper) => true,
        (OperationMode::Readonly, OperationMode::Offline) => true,
        _ => false,
    }
}

/// The lower-case name under which a mode is displayed and parsed.
pub open spec fn mode_name(m: OperationMode) -> Seq<char> {
    match m {
        OperationMode::Live => seq!['l', 'i', 'v', 'e'],
        OperationMode::Paper => seq!['p', 'a', 'p', 'e', 'r'],
        OperationMode::Readonly => seq!['r', 'e', 'a', 'd', 'o', 'n', 'l', 'y'],
        OperationMode::Offline => seq!['o', 'f', 'f', 'l', 'i', 'n', 'e'],
    }
}

/// ASCII lower-casing of one character; every other character is kept.
pub open spec fn ascii_lower_char(c: char) -> char {
    if 'A' <= c <= 'Z' {
        ((c as u32) + 32) as char
    } else {
        c
    }
}

/// ASCII lower-casing of a string.
pub open spec fn ascii_lower(s: Seq<char>) -> Seq<char> {
    s.map_values(|c: char| ascii_lower_char(c))
}

/// The mode a text names, ignoring the case of its letters.
pub open spec fn parse_mode_spec(s: Seq<char>) -> Option<OperationMode> {
    if ascii_lower(s) == mode_name(OperationMode::Live) {
        Some(OperationMode::Live)
    } else if ascii_lower(s) == mode_name(OperationMode::Paper) {
        Some(OperationMode::Paper)
    } else if ascii_lower(s) == mode_name(OperationMode::Readonly) {
        Some(OperationMode::Readonly)
    } else if ascii_lower(s) == mode_name(OperationMode::Offline) {
        Some(OperationMode::Offline)
    } else {
        None
    }
}

fn lower_char(c: char) -> (r: char)
    ensures
        r == ascii_lower_char(c),
{
    if 'A' <= c && c <= 'Z' {
        let u: u8 = c as u8;
        let r: char = (u + 32) as char;
        r
    } else {
        c
    }
}

/// Whether `s`, lower-cased in ASCII, is exactly `word`.
fn matches_ignoring_ascii_case(s: &str, word: &str) -> (b: bool)
    ensures
        b == (ascii_lower(s@) == word@),
{
    let n = s.unicode_len();
    let m = word.unicode_len();
    if n != m {
        proof {
            assert(ascii_lower(s@).len() != word@.len());
        }
        return false;
    }
    let mut i: usize = 0;
    while i < n
        invariant
            n == s@.len(),
            m == word@.len(),
            n == m,
            i <= n,
            forall|j: int| 0 <= j < i ==> ascii_lower_char(#[trigger] s@[j]) == word@[j],
        decreases n - i,
    {
        let c = lower_char(s.get_char(i));
        if c != word.get_char(i) {
            proof {
                assert(ascii_lower(s@)[i as int] != word@[i as int]);
            }
            return false;
        }
        i = i + 1;
    }
    proof {
        assert(ascii_lower(s@) =~= word@);
    }
    true
}

impl OperationMode {
    /// Whether the orchestrator may move from this mode to `target`.
    pub fn can_transition_to(&self, target: &OperationMode) -> (b: bool)
        ensures
            b == transition_allowed(*self, *target),
    {
        match (self, target) {
            (OperationMode::Offline, OperationMode::Paper) => true,
            (OperationMode::Offline, OperationMode::Readonly) => true,
            (OperationMode::Paper, OperationMode::Live) => true,
            (OperationMode::Paper, OperationMode::Readonly) => true,
            (OperationMode::Paper, OperationMode::Offline) => true,
            (OperationMode::Live, OperationMode::Paper) => true,
            (OperationMode::Live, OperationMode::Readonly) => true,
            (OperationMode::Live, OperationMode::Offline) => true,
            (OperationMode::Readonly, OperationMode::Paper) => true,
            (OperationMode::Readonly, OperationMode::Offline) => true,
            _ => false,
        }
    }

    /// The name under which the mode is displayed.
    pub fn as_str(&self) -> (s: &'static str)
        ensures
            s@ == mode_name(*self),
    {
        match self {
            OperationMode::Live => {
                proof {
                    reveal_strlit("live");
                }
                "live"
            },
            OperationMode::Paper => {
                proof {
                    reveal_strlit("paper");
                }
                "paper"
            },
            OperationMode::Readonly => {
                proof {
                    reveal_strlit("readonly");
                }
                "readonly"
            },
            OperationMode::Offline => {
                proof {
                    reveal_strlit("offline");
                }
                "offline"
            },
        }
    }

    /// Parses a mode name, ignoring case; any other text is refused with
    /// the message `Unknown operation mode: <text>`.
    pub fn parse(s: &str) -> (r: Result<OperationMode, String>)
        ensures
            parse_mode_spec(s@) matches Some(m) ==> r == Ok::<OperationMode, String>(m),
            parse_mode_spec(s@) is None ==> (r matches Err(e) && e@ == "Unknown operation mode: "@
                + s@),
    {
        if matches_ignoring_ascii_case(s, OperationMode::Live.as_str()) {
            Ok(OperationMode::Live)
        } else if matches_ignoring_ascii_case(s, OperationMode::Paper.as_str()) {
            Ok(OperationMode::Paper)
        } else if matches_ignoring_ascii_case(s, OperationMode::Readonly.as_str()) {
            Ok(OperationMode::Readonly)
        } else if matches_ignoring_ascii_case(s, OperationMode::Offline.as_str()) {
            Ok(OperationMode::Offline)
        } else {
            let msg = String::from_str("Unknown operation mode: ");
            Err(msg.concat(s))
        }
    }
}

impl std::str::FromStr for OperationMode {
    type Err = String;

    /// Reads a mode name, as `OperationMode::parse` does.
    fn from_str(s: &str) -> (r: Result<OperationMode, String>)
        ensures
            parse_mode_spec(s@) matches Some(m) ==> r == Ok::<OperationMode, String>(m),
            parse_mode_spec(s@) is None ==> (r matches Err(e) && e@ == "Unknown operation mode: "@
                + s@),
    {
        OperationMode::parse(s)
    }
}

/// One completed (or refused) change of operation mode.
#[derive(Debug, Clone)]
pub struct ModeTransitionRecord {
    pub from: OperationMode,
    pub to: OperationMode,
    pub timestamp_ns: u64,
    pub actor: String,
    pub reason: String,
    pub success: bool,
}

/// A mode's name reads back as that mode: `parse` undoes `as_str`.
pub proof fn law_mode_name_parses_back(m: OperationMode)
    ensures
        parse_mode_spec(mode_name(m)) == Some(m),
{
    assert(ascii_lower(mode_name(m)) =~= mode_name(m));
    assert(mode_name(OperationMode::Live)[0] != mode_name(OperationMode::Paper)[0]);
    assert(mode_name(OperationMode::Live)[0] != mode_name(OperationMode::Readonly)[0]);
    assert(mode_name(OperationMode::Live)[0] != mode_name(OperationMode::Offline)[0]);
    assert(mode_name(OperationMode::Paper)[0] != mode_name(OperationMode::Readonly)[0]);
    assert(mode_name(OperationMode::Paper)[0] != mode_name(OperationMode::Offline)[0]);
    assert(mode_name(OperationMode::Readonly)[0] != mode_name(OperationMode::Offline)[0]);
}

} // verus!
