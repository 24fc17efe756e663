//! The prompt-update control: while the display is open, the operator can
//! type a replacement prompt line. The rule decided here: an empty line keeps
//! the current prompts; any other line replaces them with its `'|'`-separated
//! parts, each trimmed, empty parts dropped. What each part means is the
//! inference collaborator's business.

use vstd::prelude::*;
use vstd::string::StrSliceExecFns;
use vstd::string::StringExecFns;

use crate::probe::find_char;
use crate::probe::spec_find;
use crate::probe::spec_trim;
use crate::probe::trim_str;

verus! {

/// The non-empty trimmed parts between the `'|'` separators of `s`.
pub open spec fn spec_prompt_parts(s: Seq<char>) -> Seq<Seq<char>>
    decreases s.len(),
{
    let k = spec_find(s, '|');
    let t = spec_trim(s.subrange(0, k as int));
    let head = if t.len() > 0 {
        seq![t]
    } else {
        Seq::<Seq<char>>::empty()
    };
    if k >= s.len() {
        head
    } else {
        head + spec_prompt_parts(s.skip(k + 1 as int))
    }
}

/// Splits a prompt line at `'|'`, trimming each part and dropping empties.
fn prompt_parts(s: &str) -> (r: Vec<String>)
    ensures
        r.deep_view() == spec_prompt_parts(s@),
    decreases s@.len(),
{
    let n = s.unicode_len();
    let k = find_char(s, '|');
    let head = s.substring_char(0, k);
    assert(head@ =~= s@.subrange(0, k as int));
    let t = trim_str(head);
    let mut r: Vec<String> = Vec::new();
    if t.unicode_len() > 0 {
        r.push(String::from_str(t));
    }
    if k < n {
        let rest = s.substring_char(k + 1, n);
        assert(rest@ =~= s@.skip(k + 1 as int));
        let mut tail = prompt_parts(rest);
        r.append(&mut tail);
    }
    assert(r.deep_view() =~~= spec_prompt_parts(s@));
    r
}

/// What a typed prompt line means: `None` keeps the current prompts (the
/// line trims to nothing), otherwise the replacement parts — possibly none,
/// which the caller rejects as it rejects an empty initial prompt list.
pub fn split_prompt_line(line: &str) -> (r: Option<Vec<String>>)
    ensures
        r is Some <==> spec_trim(line@).len() > 0,
        r matches Some(v) ==> v.deep_view() == spec_prompt_parts(spec_trim(line@)),
{
    let t = trim_str(line);
    if t.unicode_len() == 0 {
        None
    } else {
        Some(prompt_parts(t))
    }
}

} // verus!
