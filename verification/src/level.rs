//! The severity model: ordered log levels, the filter enumeration with its
//! extra "off" rank, the rank table that relates the two, and case-insensitive
//! parsing against the canonical name table.

use vstd::prelude::*;

use crate::errors::ParseLevelError;
use crate::utilities::is_ok;

verus! {

/// Severity of a log event, from least to most verbose.
#[derive(Clone, Copy, PartialEq, Eq, PartialOrd, Ord, Debug, Hash, Structural)]
pub enum Level {
    Prod,
    Debug,
    Trace,
}

/// Maximum severity allowed through, with `Off` below every level.
#[derive(Clone, Copy, PartialEq, Eq, PartialOrd, Ord, Debug, Hash, Structural)]
pub enum LevelFilter {
    Off,
    Prod,
    Debug,
    Trace,
}

/// The four-valued severity the C-compatible boundary speaks: its zero
/// entry carries no severity of its own and degrades to the lowest level.
#[derive(Clone, Copy, PartialEq, Eq, PartialOrd, Ord, Debug, Hash, Structural)]
pub enum LogLevel {
    NoneLevel,
    Prod,
    Debug,
    Trace,
}

impl LogLevel {
    /// The level this boundary severity denotes; the zero entry degrades to
    /// `Prod`.
    pub fn to_level(self) -> (r: Level)
        ensures
            r == (match self {
                LogLevel::NoneLevel => Level::Prod,
                LogLevel::Prod => Level::Prod,
                LogLevel::Debug => Level::Debug,
                LogLevel::Trace => Level::Trace,
            }),
    {
        match self {
            LogLevel::Trace => Level::Trace,
            LogLevel::Debug => Level::Debug,
            LogLevel::Prod => Level::Prod,
            LogLevel::NoneLevel => Level::Prod,
        }
    }
}

/// Rank of a level in the canonical name table. Rank 0 is reserved for the
/// filter's "off" entry, so the lowest level starts at 1.
pub open spec fn level_rank(l: Level) -> int {
    match l {
        Level::Prod => 1,
        Level::Debug => 2,
        Level::Trace => 3,
    }
}

/// Rank of a filter in the canonical name table.
pub open spec fn filter_rank(f: LevelFilter) -> int {
    match f {
        LevelFilter::Off => 0,
        LevelFilter::Prod => 1,
        LevelFilter::Debug => 2,
        LevelFilter::Trace => 3,
    }
}

/// A level passes a filter exactly when its rank is at most the filter's rank.
pub open spec fn level_enabled_under(l: Level, f: LevelFilter) -> bool {
    level_rank(l) <= filter_rank(f)
}

/// Canonical rendering of a level.
pub open spec fn level_name(l: Level) -> Seq<char> {
    match l {
        Level::Prod => "Prod"@,
        Level::Debug => "Debug"@,
        Level::Trace => "Trace"@,
    }
}

/// Canonical rendering of a filter; the zero rank renders as "None".
pub open spec fn filter_name(f: LevelFilter) -> Seq<char> {
    match f {
        LevelFilter::Off => "None"@,
        LevelFilter::Prod => "Prod"@,
        LevelFilter::Debug => "Debug"@,
        LevelFilter::Trace => "Trace"@,
    }
}

/// ASCII lower-casing of one character; every other character is unchanged.
pub open spec fn lower_char(c: char) -> char {
    if 65 <= c as u32 && c as u32 <= 90 {
        ((c as u32 + 32) as u8) as char
    } else {
        c
    }
}

/// ASCII lower-casing of a character sequence.
pub open spec fn lower_seq(s: Seq<char>) -> Seq<char> {
    s.map_values(|c: char| lower_char(c))
}

/// What parsing a level name yields: the level whose canonical name matches
/// the input up to ASCII case, if any. The zero-rank name "None" is not a
/// level and is never accepted here.
pub open spec fn spec_parse_level(s: Seq<char>) -> Option<Level> {
    if lower_seq(s) == lower_seq(level_name(Level::Prod)) {
        Some(Level::Prod)
    } else if lower_seq(s) == lower_seq(level_name(Level::Debug)) {
        Some(Level::Debug)
    } else if lower_seq(s) == lower_seq(level_name(Level::Trace)) {
        Some(Level::Trace)
    } else {
        None
    }
}

/// What parsing a filter name yields; unlike levels, "None" parses to `Off`.
pub open spec fn spec_parse_filter(s: Seq<char>) -> Option<LevelFilter> {
    if lower_seq(s) == lower_seq(filter_name(LevelFilter::Off)) {
        Some(LevelFilter::Off)
    } else if lower_seq(s) == lower_seq(filter_name(LevelFilter::Prod)) {
        Some(LevelFilter::Prod)
    } else if lower_seq(s) == lower_seq(filter_name(LevelFilter::Debug)) {
        Some(LevelFilter::Debug)
    } else if lower_seq(s) == lower_seq(filter_name(LevelFilter::Trace)) {
        Some(LevelFilter::Trace)
    } else {
        None
    }
}

/// Lower-casing is idempotent: a lowered character is no longer upper case.
proof fn lemma_lower_char_idempotent(c: char)
    ensures
        lower_char(lower_char(c)) == lower_char(c),
{
    if 65 <= c as u32 && c as u32 <= 90 {
        let u: int = c as u32 + 32;
        assert((u as u8) as char as u32 == u);
    }
}

/// Lower-casing keeps a sequence's length.
pub proof fn lemma_lower_seq_len(s: Seq<char>)
    ensures
        lower_seq(s).len() == s.len(),
{
}

/// Lower-casing acts pointwise.
pub proof fn lemma_lower_seq_index(s: Seq<char>, i: int)
    requires
        0 <= i < s.len(),
    ensures
        lower_seq(s)[i] == lower_char(s[i]),
{
}

/// Lower-casing a sequence is idempotent.
pub proof fn lemma_lower_seq_idempotent(s: Seq<char>)
    ensures
        lower_seq(lower_seq(s)) == lower_seq(s),
{
    assert forall|i: int| 0 <= i < s.len() implies #[trigger] lower_seq(lower_seq(s))[i]
        == lower_seq(s)[i] by {
        lemma_lower_char_idempotent(s[i]);
    }
    assert(lower_seq(lower_seq(s)) =~= lower_seq(s));
}

/// Parsing a level name is insensitive to ASCII case: the input and its
/// lowered form parse alike.
pub proof fn lemma_parse_level_case_insensitive(s: Seq<char>)
    ensures
        spec_parse_level(lower_seq(s)) == spec_parse_level(s),
{
    lemma_lower_seq_idempotent(s);
}

/// Parsing a filter name is insensitive to ASCII case.
pub proof fn lemma_parse_filter_case_insensitive(s: Seq<char>)
    ensures
        spec_parse_filter(lower_seq(s)) == spec_parse_filter(s),
{
    lemma_lower_seq_idempotent(s);
}

/// Round trip: every declared level parses back from its canonical name.
pub proof fn lemma_level_round_trip(l: Level)
    ensures
        spec_parse_level(level_name(l)) == Some(l),
{
    reveal_strlit("Prod");
    reveal_strlit("Debug");
    reveal_strlit("Trace");
    lemma_lower_seq_len("Prod"@);
    lemma_lower_seq_len("Debug"@);
    lemma_lower_seq_len("Trace"@);
    match l {
        Level::Prod => {},
        Level::Debug => {
            assert(level_name(Level::Debug).len() != level_name(Level::Prod).len());
        },
        Level::Trace => {
            assert(lower_char('T') == 't');
            assert(lower_char('D') == 'd');
            lemma_lower_seq_index("Trace"@, 0);
            lemma_lower_seq_index("Debug"@, 0);
            assert(lower_seq(level_name(Level::Trace))[0] != lower_seq(
                level_name(Level::Debug),
            )[0]);
        },
    }
}

/// Round trip: every declared filter parses back from its canonical name,
/// with the zero-rank name "None" denoting `Off`.
pub proof fn lemma_filter_round_trip(f: LevelFilter)
    ensures
        spec_parse_filter(filter_name(f)) == Some(f),
{
    reveal_strlit("None");
    reveal_strlit("Prod");
    reveal_strlit("Debug");
    reveal_strlit("Trace");
    lemma_lower_seq_len("None"@);
    lemma_lower_seq_len("Prod"@);
    lemma_lower_seq_len("Debug"@);
    lemma_lower_seq_len("Trace"@);
    lemma_lower_seq_index("None"@, 0);
    lemma_lower_seq_index("Prod"@, 0);
    lemma_lower_seq_index("Debug"@, 0);
    lemma_lower_seq_index("Trace"@, 0);
    assert(lower_char('N') == 'n');
    assert(lower_char('P') == 'p');
    assert(lower_char('D') == 'd');
    assert(lower_char('T') == 't');
    match f {
        LevelFilter::Off => {},
        LevelFilter::Prod => {
            assert(lower_seq(filter_name(LevelFilter::Prod))[0] != lower_seq(
                filter_name(LevelFilter::Off),
            )[0]);
        },
        LevelFilter::Debug => {
            assert(filter_name(LevelFilter::Debug).len() != filter_name(
                LevelFilter::Off,
            ).len());
        },
        LevelFilter::Trace => {
            assert(lower_seq(filter_name(LevelFilter::Trace))[0] != lower_seq(
                filter_name(LevelFilter::Debug),
            )[0]);
        },
    }
}

/// ASCII lower-casing of one character.
fn lower_char_exec(c: char) -> (r: char)
    ensures
        r == lower_char(c),
{
    let u = c as u32;
    if 65 <= u && u <= 90 {
        ((u + 32) as u8) as char
    } else {
        c
    }
}

/// Character-wise ASCII-case-insensitive string equality.
pub fn eq_ignore_case(a: &str, b: &str) -> (r: bool)
    ensures
        r == (lower_seq(a@) == lower_seq(b@)),
{
    let a_len = a.unicode_len();
    let b_len = b.unicode_len();
    if a_len != b_len {
        proof {
            assert(lower_seq(a@).len() == a@.len());
            assert(lower_seq(b@).len() == b@.len());
        }
        return false;
    }
    let mut i: usize = 0;
    while i < a_len
        invariant
            a_len == a@.len(),
            b_len == b@.len(),
            a_len == b_len,
            i <= a_len,
            forall|j: int| 0 <= j < i ==> lower_seq(a@)[j] == lower_seq(b@)[j],
        decreases a_len - i,
    {
        let ca = lower_char_exec(a.get_char(i));
        let cb = lower_char_exec(b.get_char(i));
        if ca != cb {
            proof {
                assert(lower_seq(a@)[i as int] != lower_seq(b@)[i as int]);
            }
            return false;
        }
        i += 1;
    }
    proof {
        assert(lower_seq(a@) =~= lower_seq(b@));
    }
    true
}

impl Level {
    /// Maps a rank back to a level; rank 0 and ranks above the table are unmapped.
    pub fn from_usize(u: usize) -> (r: Option<Level>)
        ensures
            r == (if u == 1 {
                Some(Level::Prod)
            } else if u == 2 {
                Some(Level::Debug)
            } else if u == 3 {
                Some(Level::Trace)
            } else {
                None::<Level>
            }),
    {
        match u {
            1 => Some(Level::Prod),
            2 => Some(Level::Debug),
            3 => Some(Level::Trace),
            _ => None,
        }
    }

    /// The most verbose level.
    pub fn max() -> (r: Level)
        ensures
            r == Level::Trace,
            forall|l: Level| #[trigger] level_rank(l) <= level_rank(r),
    {
        Level::Trace
    }

    /// The filter of the same rank, under which this is the highest enabled level.
    pub fn to_level_filter(&self) -> (r: LevelFilter)
        ensures
            filter_rank(r) == level_rank(*self),
    {
        match self {
            Level::Prod => LevelFilter::Prod,
            Level::Debug => LevelFilter::Debug,
            Level::Trace => LevelFilter::Trace,
        }
    }

    /// Canonical name of this level.
    pub fn as_str(&self) -> (r: &'static str)
        ensures
            r@ == level_name(*self),
    {
        match self {
            Level::Prod => "Prod",
            Level::Debug => "Debug",
            Level::Trace => "Trace",
        }
    }

    /// The declared levels in ascending rank.
    pub fn iter() -> (r: Vec<Level>)
        ensures
            r@ == seq![Level::Prod, Level::Debug, Level::Trace],
    {
        let mut v: Vec<Level> = Vec::new();
        v.push(Level::Prod);
        v.push(Level::Debug);
        v.push(Level::Trace);
        proof {
            assert(v@ =~= seq![Level::Prod, Level::Debug, Level::Trace]);
        }
        v
    }

    /// Parses a level name, ignoring ASCII case; the zero-rank name "None"
    /// and every unknown name are rejected.
    pub fn from_str(level: &str) -> (r: Result<Level, ParseLevelError>)
        ensures
            r == (match spec_parse_level(level@) {
                Some(l) => Ok::<Level, ParseLevelError>(l),
                None => Err::<Level, ParseLevelError>(ParseLevelError(())),
            }),
    {
        let found: Option<Level> = if eq_ignore_case(level, "Prod") {
            Some(Level::Prod)
        } else if eq_ignore_case(level, "Debug") {
            Some(Level::Debug)
        } else if eq_ignore_case(level, "Trace") {
            Some(Level::Trace)
        } else {
            None
        };
        is_ok(found, ParseLevelError::new())
    }
}

impl LevelFilter {
    /// Maps a rank back to a filter; rank 0 is the "off" entry.
    pub fn from_usize(u: usize) -> (r: Option<LevelFilter>)
        ensures
            r == (if u == 0 {
                Some(LevelFilter::Off)
            } else if u == 1 {
                Some(LevelFilter::Prod)
            } else if u == 2 {
                Some(LevelFilter::Debug)
            } else if u == 3 {
                Some(LevelFilter::Trace)
            } else {
                None::<LevelFilter>
            }),
    {
        match u {
            0 => Some(LevelFilter::Off),
            1 => Some(LevelFilter::Prod),
            2 => Some(LevelFilter::Debug),
            3 => Some(LevelFilter::Trace),
            _ => None,
        }
    }

    /// The most permissive filter.
    pub fn max() -> (r: LevelFilter)
        ensures
            r == LevelFilter::Trace,
            forall|l: Level| #[trigger] level_enabled_under(l, r),
    {
        LevelFilter::Trace
    }

    /// The level of the same rank, if the filter is not "off".
    pub fn to_level(&self) -> (r: Option<Level>)
        ensures
            r is Some <==> *self != LevelFilter::Off,
            r matches Some(l) ==> level_rank(l) == filter_rank(*self),
    {
        match self {
            LevelFilter::Off => None,
            LevelFilter::Prod => Some(Level::Prod),
            LevelFilter::Debug => Some(Level::Debug),
            LevelFilter::Trace => Some(Level::Trace),
        }
    }

    /// Canonical name of this filter.
    pub fn as_str(&self) -> (r: &'static str)
        ensures
            r@ == filter_name(*self),
    {
        match self {
            LevelFilter::Off => "None",
            LevelFilter::Prod => "Prod",
            LevelFilter::Debug => "Debug",
            LevelFilter::Trace => "Trace",
        }
    }

    /// The declared filters in ascending rank.
    pub fn iter() -> (r: Vec<LevelFilter>)
        ensures
            r@ == seq![
                LevelFilter::Off,
                LevelFilter::Prod,
                LevelFilter::Debug,
                LevelFilter::Trace,
            ],
    {
        let mut v: Vec<LevelFilter> = Vec::new();
        v.push(LevelFilter::Off);
        v.push(LevelFilter::Prod);
        v.push(LevelFilter::Debug);
        v.push(LevelFilter::Trace);
        proof {
            assert(v@ =~= seq![
                LevelFilter::Off,
                LevelFilter::Prod,
                LevelFilter::Debug,
                LevelFilter::Trace,
            ]);
        }
        v
    }

    /// Parses a filter name, ignoring ASCII case; "None" denotes logging off.
    pub fn from_str(level: &str) -> (r: Result<LevelFilter, ParseLevelError>)
        ensures
            r == (match spec_parse_filter(level@) {
                Some(f) => Ok::<LevelFilter, ParseLevelError>(f),
                None => Err::<LevelFilter, ParseLevelError>(ParseLevelError(())),
            }),
    {
        let found: Option<LevelFilter> = if eq_ignore_case(level, "None") {
            Some(LevelFilter::Off)
        } else if eq_ignore_case(level, "Prod") {
            Some(LevelFilter::Prod)
        } else if eq_ignore_case(level, "Debug") {
            Some(LevelFilter::Debug)
        } else if eq_ignore_case(level, "Trace") {
            Some(LevelFilter::Trace)
        } else {
            None
        };
        is_ok(found, ParseLevelError::new())
    }
}

} // verus!
