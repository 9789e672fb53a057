//! The heuristic that flags a proposed command as possibly not a command.
use vstd::prelude::*;

use crate::text::strings_view;

verus! {

/// Whether a command starts with a character outside ASCII, the case in which
/// it is looked up on the search path.
pub open spec fn needs_path_lookup(s: Seq<char>) -> bool {
    s.len() > 0 && (s[0] as u32) >= 128
}

/// A command is flagged when it is empty, or when it starts with a non-ASCII
/// character and is not found on the search path.
pub open spec fn potentially_invalid(s: Seq<char>, found_on_path: bool) -> bool {
    s.len() == 0 || (needs_path_lookup(s) && !found_on_path)
}

/// Relies on `which::which`: whether the name resolves to an executable on
/// the search path. The answer depends on the environment and the file
/// system, so nothing is promised of it.
#[verifier::external_body]
fn found_on_search_path(name: &str) -> (r: bool) {
    which::which(std::path::Path::new(name)).is_ok()
}

/// Applies the heuristic, given the answer of the search-path lookup.
pub fn is_potentially_invalid_given(s: &str, found_on_path: bool) -> (r: bool)
    ensures
        r == potentially_invalid(s@, found_on_path),
{
    if s.unicode_len() == 0 {
        true
    } else {
        (s.get_char(0) as u32) >= 128 && !found_on_path
    }
}

/// Applies the heuristic, looking the command up on the search path only when
/// it starts with a non-ASCII character.
pub fn is_potentially_invalid_command(s: &str) -> (r: bool)
    ensures
        exists|found: bool| r == potentially_invalid(s@, found),
        !needs_path_lookup(s@) ==> r == potentially_invalid(s@, false),
{
    let lookup = s.unicode_len() > 0 && (s.get_char(0) as u32) >= 128;
    let found = if lookup {
        found_on_search_path(s)
    } else {
        false
    };
    is_potentially_invalid_given(s, found)
}

/// Whether some command of `commands` is flagged, given for each whether it
/// was found on the search path.
pub open spec fn any_potentially_invalid(commands: Seq<Seq<char>>, found: Seq<bool>) -> bool {
    exists|i: int| 0 <= i < commands.len() && potentially_invalid(commands[i], #[trigger] found[i])
}

/// Whether some command is flagged by the heuristic.
pub fn has_potentially_invalid_command(commands: &Vec<String>) -> (r: bool)
    ensures
        exists|found: Seq<bool>|
            found.len() == commands@.len() && r == any_potentially_invalid(strings_view(commands@), found),
        (forall|i: int| 0 <= i < commands@.len() ==> !needs_path_lookup(#[trigger] commands@[i]@))
            ==> r == (exists|i: int| 0 <= i < commands@.len() && #[trigger] commands@[i]@.len() == 0),
{
    let n = commands.len();
    let mut i: usize = 0;
    let ghost mut found: Seq<bool> = Seq::empty();
    while i < n
        invariant
            n == commands@.len(),
            i <= n,
            found.len() == i,
            forall|j: int| 0 <= j < i ==> !potentially_invalid(commands@[j]@, #[trigger] found[j]),
            forall|j: int|
                0 <= j < i && !needs_path_lookup(commands@[j]@) ==> !#[trigger] found[j],
        decreases n - i,
    {
        let flagged = is_potentially_invalid_command(commands[i].as_str());
        let ghost f = choose|f: bool| flagged == potentially_invalid(commands@[i as int]@, f)
            && (!needs_path_lookup(commands@[i as int]@) ==> !f);
        proof {
            if !needs_path_lookup(commands@[i as int]@) {
                assert(flagged == potentially_invalid(commands@[i as int]@, false));
            }
        }
        if flagged {
            proof {
                let full = found.push(f) + Seq::new((n - i - 1) as nat, |k: int| true);
                assert(full[i as int] == f);
                assert(any_potentially_invalid(strings_view(commands@), full));
            }
            return true;
        }
        proof {
            found = found.push(f);
        }
        i = i + 1;
    }
    proof {
        assert(!any_potentially_invalid(strings_view(commands@), found));
        assert forall|j: int| 0 <= j < n implies #[trigger] commands@[j]@.len() != 0 by {
            assert(!potentially_invalid(commands@[j]@, found[j]));
        }
    }
    false
}

} // verus!
