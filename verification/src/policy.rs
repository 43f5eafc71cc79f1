//! Match policies: classify an encoded address string as matching a target
//! content string when the content appears as a prefix, a suffix, or anywhere
//! inside the address.
use vstd::prelude::*;
use vstd::string::{StrSliceExecFns, StringExecFns};

verus! {

/// Compares two string slices character by character.
pub fn str_eq(a: &str, b: &str) -> (r: bool)
    ensures
        r == (a@ == b@),
{
    let alen = a.unicode_len();
    let blen = b.unicode_len();
    if alen != blen {
        return false;
    }
    let mut i: usize = 0;
    while i < alen
        invariant
            alen == a@.len(),
            alen == b@.len(),
            i <= alen,
            forall|j: int| 0 <= j < i ==> a@[j] == b@[j],
        decreases alen - i,
    {
        if a.get_char(i) != b.get_char(i) {
            return false;
        }
        i = i + 1;
    }
    proof {
        assert(a@ =~= b@);
    }
    true
}

/// Where the target content must appear inside the encoded address.
#[derive(Clone, Copy, Debug, PartialEq, Eq, Structural)]
pub enum Placement {
    Prefix,
    Suffix,
    Anywhere,
}

impl Placement {
    /// Parses a placement from its lower-case name; any other string is
    /// rejected.
    pub fn from_str(s: &str) -> (r: Result<Placement, &'static str>)
        ensures
            s@ == "prefix"@ ==> r == Ok::<Placement, &'static str>(Placement::Prefix),
            s@ == "suffix"@ ==> r == Ok::<Placement, &'static str>(Placement::Suffix),
            s@ == "anywhere"@ ==> r == Ok::<Placement, &'static str>(Placement::Anywhere),
            r is Ok <==> (s@ == "prefix"@ || s@ == "suffix"@ || s@ == "anywhere"@),
    {
        proof {
            reveal_strlit("prefix");
            reveal_strlit("suffix");
            reveal_strlit("anywhere");
            assert("prefix"@ != "suffix"@) by {
                assert("prefix"@[0] == 'p' && "suffix"@[0] == 's');
            }
            assert("prefix"@ != "anywhere"@) by {
                assert("prefix"@.len() == 6 && "anywhere"@.len() == 8);
            }
            assert("suffix"@ != "anywhere"@) by {
                assert("suffix"@.len() == 6 && "anywhere"@.len() == 8);
            }
        }
        if str_eq(s, "prefix") {
            Ok(Placement::Prefix)
        } else if str_eq(s, "suffix") {
            Ok(Placement::Suffix)
        } else if str_eq(s, "anywhere") {
            Ok(Placement::Anywhere)
        } else {
            Err("Unknown placement")
        }
    }

    /// The lower-case name of the placement, as the command line spells it.
    pub fn to_string(&self) -> (r: String)
        ensures
            *self == Placement::Prefix ==> r@ == "prefix"@,
            *self == Placement::Suffix ==> r@ == "suffix"@,
            *self == Placement::Anywhere ==> r@ == "anywhere"@,
    {
        match self {
            Placement::Prefix => String::from_str("prefix"),
            Placement::Suffix => String::from_str("suffix"),
            Placement::Anywhere => String::from_str("anywhere"),
        }
    }
}

/// The pattern occupies positions `at .. at + pat.len()` of `addr`.
pub open spec fn spec_matches_at(addr: Seq<char>, pat: Seq<char>, at: int) -> bool {
    &&& 0 <= at
    &&& at + pat.len() <= addr.len()
    &&& forall|j: int| 0 <= j < pat.len() ==> addr[at + j] == pat[j]
}

/// The pattern occurs somewhere inside `addr`.
pub open spec fn spec_contains(addr: Seq<char>, pat: Seq<char>) -> bool {
    exists|at: int| spec_matches_at(addr, pat, at)
}

/// The defining relation of each placement policy.
pub open spec fn spec_matches(placement: Placement, addr: Seq<char>, pat: Seq<char>) -> bool {
    match placement {
        Placement::Prefix => pat.is_prefix_of(addr),
        Placement::Suffix => pat.is_suffix_of(addr),
        Placement::Anywhere => spec_contains(addr, pat),
    }
}

/// Tests whether `pat` occupies positions `at .. at + pat.len()` of `addr`.
fn matches_at(addr: &str, pat: &str, at: usize, addr_len: usize, pat_len: usize) -> (r: bool)
    requires
        addr_len == addr@.len(),
        pat_len == pat@.len(),
        at + pat_len <= addr_len,
    ensures
        r == spec_matches_at(addr@, pat@, at as int),
{
    let mut j: usize = 0;
    while j < pat_len
        invariant
            addr_len == addr@.len(),
            pat_len == pat@.len(),
            at + pat_len <= addr_len,
            j <= pat_len,
            forall|k: int| 0 <= k < j ==> addr@[at + k] == pat@[k],
        decreases pat_len - j,
    {
        if addr.get_char(at + j) != pat.get_char(j) {
            return false;
        }
        j = j + 1;
    }
    true
}

/// Decides whether the encoded address `addr` matches the target `pat`
/// under `placement`: starts-with for `Prefix`, ends-with for `Suffix`,
/// substring at any position for `Anywhere`.
pub fn matches_placement(placement: Placement, addr: &str, pat: &str) -> (r: bool)
    ensures
        r == spec_matches(placement, addr@, pat@),
{
    let addr_len = addr.unicode_len();
    let pat_len = pat.unicode_len();
    match placement {
        Placement::Prefix => {
            if pat_len > addr_len {
                return false;
            }
            let r = matches_at(addr, pat, 0, addr_len, pat_len);
            proof {
                assert(r == pat@.is_prefix_of(addr@)) by {
                    if spec_matches_at(addr@, pat@, 0) {
                        assert(addr@.subrange(0, pat@.len() as int) =~= pat@);
                    }
                    if pat@.is_prefix_of(addr@) {
                        assert(forall|j: int|
                            0 <= j < pat@.len() ==> addr@[j] == #[trigger] addr@.subrange(
                                0,
                                pat@.len() as int,
                            )[j]);
                    }
                }
            }
            r
        },
        Placement::Suffix => {
            if pat_len > addr_len {
                return false;
            }
            let at = addr_len - pat_len;
            let r = matches_at(addr, pat, at, addr_len, pat_len);
            proof {
                assert(r == pat@.is_suffix_of(addr@)) by {
                    let start = addr@.len() - pat@.len();
                    if spec_matches_at(addr@, pat@, at as int) {
                        assert(addr@.subrange(start, addr@.len() as int) =~= pat@);
                    }
                    if pat@.is_suffix_of(addr@) {
                        assert(forall|j: int|
                            0 <= j < pat@.len() ==> addr@[start + j] == #[trigger] addr@.subrange(
                                start,
                                addr@.len() as int,
                            )[j]);
                    }
                }
            }
            r
        },
        Placement::Anywhere => {
            if pat_len > addr_len {
                proof {
                    assert(!spec_contains(addr@, pat@));
                }
                return false;
            }
            let mut at: usize = 0;
            let end = addr_len - pat_len;
            while at <= end
                invariant
                    placement == Placement::Anywhere,
                    addr_len == addr@.len(),
                    pat_len == pat@.len(),
                    pat_len <= addr_len,
                    end == addr_len - pat_len,
                    at <= end + 1,
                    forall|k: int| 0 <= k < at ==> !spec_matches_at(addr@, pat@, k),
                decreases end + 1 - at,
            {
                if matches_at(addr, pat, at, addr_len, pat_len) {
                    proof {
                        assert(spec_matches_at(addr@, pat@, at as int));
                        assert(spec_contains(addr@, pat@));
                    }
                    return true;
                }
                at = at + 1;
            }
            proof {
                assert(forall|k: int| spec_matches_at(addr@, pat@, k) ==> 0 <= k < at);
            }
            false
        },
    }
}

} // verus!
