//! Search configuration: the target content, its placement, the mnemonic
//! language index and the worker count, together with the validation that
//! runs before any worker is spawned.
use vstd::prelude::*;
use vstd::string::{StrSliceExecFns, StringExecFns};
use crate::policy::Placement;

verus! {

/// The alphabet of the address text encoding. Every character of a target
/// content string must come from this set, or no address can ever match.
pub open spec fn spec_charset() -> Seq<char> {
    "qpzry9x8gf2tvdw0s3jn54khce6mua7l"@
}

/// The human-readable part that every encoded address begins with.
pub open spec fn spec_address_prefix() -> Seq<char> {
    "xel"@
}

/// The separator between the human-readable part and the data part.
pub open spec fn spec_separator() -> Seq<char> {
    ":"@
}

/// The address encoder's symbol alphabet, as text.
pub fn charset() -> (s: &'static str)
    ensures
        s@ == spec_charset(),
{
    "qpzry9x8gf2tvdw0s3jn54khce6mua7l"
}

/// Whether `c` is a symbol of the address alphabet.
pub fn char_in_charset(c: char) -> (r: bool)
    ensures
        r == spec_charset().contains(c),
{
    let cs = charset();
    proof {
        reveal_strlit("qpzry9x8gf2tvdw0s3jn54khce6mua7l");
    }
    let len = cs.unicode_len();
    let mut i: usize = 0;
    while i < len
        invariant
            cs@ == spec_charset(),
            len == cs@.len(),
            i <= len,
            forall|k: int| 0 <= k < i ==> cs@[k] != c,
        decreases len - i,
    {
        if cs.get_char(i) == c {
            proof {
                assert(spec_charset()[i as int] == c);
            }
            return true;
        }
        i = i + 1;
    }
    proof {
        assert(!spec_charset().contains(c));
    }
    false
}

/// Why a configuration was rejected before any worker started.
#[derive(Clone, Copy, Debug, PartialEq, Eq, Structural)]
pub enum ConfigError {
    /// The target content string is empty.
    EmptyPattern,
    /// The target content holds a character outside the address alphabet;
    /// the offending character is carried along.
    InvalidCharacter(char),
    /// The resolved worker count is zero.
    InvalidThreadCount,
}

/// A content string is usable when it is non-empty and every character is a
/// symbol of the address alphabet.
pub open spec fn content_ok(content: Seq<char>) -> bool {
    &&& content.len() > 0
    &&& forall|i: int| 0 <= i < content.len() ==> spec_charset().contains(#[trigger] content[i])
}

/// Rejects an empty content string, and a content string whose first
/// character outside the address alphabet is reported in the error.
pub fn validate_content(content: &str) -> (r: Result<(), ConfigError>)
    ensures
        r is Ok <==> content_ok(content@),
        content@.len() == 0 ==> r == Err::<(), ConfigError>(ConfigError::EmptyPattern),
        content@.len() > 0 && !content_ok(content@) ==> exists|i: int|
            {
                &&& 0 <= i < content@.len()
                &&& !spec_charset().contains(content@[i])
                &&& (forall|j: int| 0 <= j < i ==> spec_charset().contains(#[trigger] content@[j]))
                &&& r == Err::<(), ConfigError>(ConfigError::InvalidCharacter(content@[i]))
            },
{
    let len = content.unicode_len();
    if len == 0 {
        return Err(ConfigError::EmptyPattern);
    }
    let mut i: usize = 0;
    while i < len
        invariant
            len == content@.len(),
            i <= len,
            forall|j: int| 0 <= j < i ==> spec_charset().contains(#[trigger] content@[j]),
        decreases len - i,
    {
        let c = content.get_char(i);
        if !char_in_charset(c) {
            return Err(ConfigError::InvalidCharacter(c));
        }
        i = i + 1;
    }
    Ok(())
}

/// The worker count that a request resolves to: an explicit request wins,
/// otherwise the detected hardware parallelism, otherwise one.
pub open spec fn spec_resolved_threads(requested: Option<usize>, detected: Option<usize>) -> usize {
    match requested {
        Some(n) => n,
        None => match detected {
            Some(d) => d,
            None => 1,
        },
    }
}

/// Resolves the worker count from an optional explicit request and the
/// detection hook's result (`None` when detection failed, falling back to
/// a single worker).
pub fn resolve_threads(requested: Option<usize>, detected: Option<usize>) -> (r: usize)
    ensures
        r == spec_resolved_threads(requested, detected),
{
    match requested {
        Some(n) => n,
        None => match detected {
            Some(d) => d,
            None => 1,
        },
    }
}

/// Immutable search parameters, shared by every worker.
pub struct Config {
    /// The content the address must contain.
    pub content: String,
    /// Index of the mnemonic wordlist used to encode a found key.
    pub language: usize,
    /// Explicitly requested worker count; detected when absent.
    pub num_threads: Option<usize>,
    /// Where the content must appear in the address.
    pub placement: Placement,
    /// Display-only: disable colors in the log output.
    pub disable_log_color: bool,
    /// Display-only: disable the interactive status line.
    pub disable_interactive_mode: bool,
    /// When true, a worker stops after its first match; by default every
    /// worker keeps scanning for further matches.
    pub stop_after_match: bool,
}

impl Config {
    /// Validates the configuration against the address alphabet and resolves
    /// the worker count, `detected` being the hardware-parallelism hook's
    /// result. Returns the resolved worker count, or the first applicable
    /// rejection: empty content, then the first character outside the
    /// alphabet, then a zero worker count.
    pub fn validate(&self, detected: Option<usize>) -> (r: Result<usize, ConfigError>)
        ensures
            self.content@.len() == 0 ==> r == Err::<usize, ConfigError>(ConfigError::EmptyPattern),
            self.content@.len() > 0 && !content_ok(self.content@) ==> exists|i: int|
                {
                    &&& 0 <= i < self.content@.len()
                    &&& !spec_charset().contains(self.content@[i])
                    &&& (forall|j: int|
                        0 <= j < i ==> spec_charset().contains(#[trigger] self.content@[j]))
                    &&& r == Err::<usize, ConfigError>(ConfigError::InvalidCharacter(self.content@[i]))
                },
            content_ok(self.content@) ==> r == (if spec_resolved_threads(self.num_threads, detected)
                >= 1 {
                Ok::<usize, ConfigError>(spec_resolved_threads(self.num_threads, detected))
            } else {
                Err::<usize, ConfigError>(ConfigError::InvalidThreadCount)
            }),
            r is Ok <==> content_ok(self.content@) && spec_resolved_threads(
                self.num_threads,
                detected,
            ) >= 1,
    {
        match validate_content(self.content.as_str()) {
            Err(e) => Err(e),
            Ok(()) => {
                let threads = resolve_threads(self.num_threads, detected);
                if threads < 1 {
                    Err(ConfigError::InvalidThreadCount)
                } else {
                    Ok(threads)
                }
            },
        }
    }

    /// The string the match policy tests against: for `Prefix` the content
    /// pre-composed with the network's address prefix and separator, since a
    /// match at the very start of an address must run through its fixed
    /// leading part; for `Suffix` and `Anywhere` the raw content.
    pub open spec fn spec_effective_pattern(&self) -> Seq<char> {
        if self.placement == Placement::Prefix {
            spec_address_prefix() + spec_separator() + self.content@
        } else {
            self.content@
        }
    }

    /// Composes the string the match policy tests against (see
    /// [`Self::spec_effective_pattern`]).
    pub fn effective_pattern(&self) -> (r: String)
        ensures
            r@ == self.spec_effective_pattern(),
    {
        match self.placement {
            Placement::Prefix => {
                let mut s = String::from_str("xel");
                s.append(":");
                s.append(self.content.as_str());
                s
            },
            _ => self.content.clone(),
        }
    }
}

} // verus!
