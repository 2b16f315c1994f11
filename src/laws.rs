//! Round trips of the value grammars: a value written out by its formatter
//! is read back by its parser as a value that is written out the same way.
use vstd::prelude::*;

use crate::text::{has_prefix, Grammar, Number};
use crate::values::{is_func_url, url_open, Percentage, Url};

verus! {

/// A number reads back as itself.
pub proof fn lemma_number_round_trip(n: Number)
    requires
        n.spec_wf(),
    ensures
        Number::spec_canonical(n.spec_format()) == Some(n.spec_format()),
{
}

/// A percentage reads back as itself.
pub proof fn lemma_percentage_round_trip(p: Percentage)
    requires
        p.spec_wf(),
    ensures
        Percentage::spec_canonical(p.spec_format()) == Some(p.spec_format()),
{
    let s = p.spec_format();
    assert(s.subrange(s.len() - 1, s.len() as int) =~= seq![37u8]);
    assert(s.subrange(0, s.len() - 1) =~= p.0.spec_format());
}

/// A reference reads back as itself.
pub proof fn lemma_url_round_trip(u: Url)
    ensures
        Url::spec_canonical(u.spec_format()) == Some(u.spec_format()),
{
    let s = u.spec_format();
    match u {
        Url::Url(x) => {
            assert(s.subrange(0, 4) =~= url_open());
            assert(is_func_url(s));
        },
        Url::Id(x) => {
            assert(s.subrange(0, 1) =~= seq![35u8]);
            assert(s[0] == 35u8);
            if s.len() >= 4 {
                assert(s.subrange(0, 4)[0] == s[0]);
                assert(url_open()[0] == 117u8);
            }
            assert(!has_prefix(s, url_open()));
        },
    }
}

/// Text values read back as themselves.
pub proof fn lemma_text_round_trip(v: Vec<u8>)
    ensures
        <Vec<u8> as Grammar>::spec_canonical(v.spec_format()) == Some(v.spec_format()),
{
}

} // verus!
