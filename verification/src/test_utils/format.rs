//! Test names, as snapshot files and temporary directories are named after them.
use vstd::prelude::*;
use crate::text::{find, find_from};

verus! {

/// What the name of a function seen from inside a closure ends with.
pub const CLOSURE_SUFFIX: &'static str = "::{{closure}}";

/// `:` becomes `_`; other characters stay.
pub open spec fn underscore_colons(s: Seq<char>) -> Seq<char> {
    s.map_values(|c: char| if c == ':' { '_' } else { c })
}

/// A raw function path cut before its first `::{{closure}}`, with its colons
/// replaced by underscores.
pub open spec fn spec_format_test_name(raw: Seq<char>) -> Seq<char> {
    let kept = match find_from(raw, CLOSURE_SUFFIX@, 0) {
        Some(i) => raw.take(i),
        None => raw,
    };
    underscore_colons(kept)
}

pub fn format_test_name(raw: &str) -> (r: String)
    ensures
        r@ == spec_format_test_name(raw@),
{
    let end = match find(raw, CLOSURE_SUFFIX) {
        Some(i) => i,
        None => raw.unicode_len(),
    };
    proof {
        crate::text::lemma_find_from_bounds(raw@, CLOSURE_SUFFIX@, 0);
        reveal_strlit("_");
    }
    let ghost kept = if find_from(raw@, CLOSURE_SUFFIX@, 0) is Some { raw@.take(end as int) } else { raw@ };
    assert(kept =~= raw@.take(end as int));
    let mut out = String::new();
    let mut i: usize = 0;
    while i < end
        invariant
            end <= raw@.len(),
            kept == raw@.take(end as int),
            i <= end,
            out@ =~= underscore_colons(kept.take(i as int)),
        decreases end - i,
    {
        let c = raw.get_char(i);
        let ghost prev = kept.take(i as int);
        assert(kept.take(i + 1) =~= prev.push(c));
        assert(underscore_colons(prev.push(c)) =~= underscore_colons(prev).push(
            if c == ':' { '_' } else { c },
        ));
        if c == ':' {
            proof {
                reveal_strlit("_");
            }
            out.append("_");
        } else {
            assert(raw@.subrange(i as int, i + 1) =~= seq![c]);
            out.append(raw.substring_char(i, i + 1));
        }
        i = i + 1;
    }
    assert(kept.take(end as int) =~= kept);
    out
}

/// A formatted test name holds no colon, so formatting it again changes nothing.
pub proof fn lemma_format_test_name_idempotent(raw: Seq<char>)
    ensures
        forall|k: int| 0 <= k < spec_format_test_name(raw).len() ==> #[trigger] spec_format_test_name(raw)[k] != ':',
        spec_format_test_name(spec_format_test_name(raw)) == spec_format_test_name(raw),
{
    let r = spec_format_test_name(raw);
    assert forall|k: int| 0 <= k < r.len() implies #[trigger] r[k] != ':' by {}
    reveal_strlit("::{{closure}}");
    crate::text::lemma_find_from_bounds(r, CLOSURE_SUFFIX@, 0);
    if find_from(r, CLOSURE_SUFFIX@, 0) is Some {
        let j = find_from(r, CLOSURE_SUFFIX@, 0)->0;
        assert(r.subrange(j, j + CLOSURE_SUFFIX@.len())[0] == r[j]);
        assert(CLOSURE_SUFFIX@[0] == ':');
    }
    assert(underscore_colons(r) =~= r);
}

} // verus!
