use vstd::prelude::*;
use crate::parser::{
    ProgramMode,
    mode_of,
    first_terminal_at,
    no_terminal_before,
    has_debug_token,
    is_help_token,
    is_version_token,
    is_debug_token,
    is_terminal_token,
    is_recognized_token,
    lemma_token_kinds_distinct,
};

verus! {

/// Arguments without any recognized flag select a normal run, with debug off
/// and every argument kept in order.
pub proof fn law_unrecognized_only(ts: Seq<Seq<char>>)
    requires
        forall|i: int| 0 <= i < ts.len() ==> !is_recognized_token(#[trigger] ts[i]),
    ensures
        mode_of(ts) == (ProgramMode::Main { args: ts, debug: false }),
{
    assert(forall|i: int| !first_terminal_at(ts, i));
}

/// A help flag with no help or version flag before it selects help.
pub proof fn law_help_first(ts: Seq<Seq<char>>, i: int)
    requires
        0 <= i < ts.len(),
        is_help_token(ts[i]),
        no_terminal_before(ts, i),
    ensures
        mode_of(ts) == ProgramMode::Help,
{
    assert(first_terminal_at(ts, i));
}

/// A version flag with no help or version flag before it selects version.
pub proof fn law_version_first(ts: Seq<Seq<char>>, i: int)
    requires
        0 <= i < ts.len(),
        is_version_token(ts[i]),
        no_terminal_before(ts, i),
    ensures
        mode_of(ts) == ProgramMode::Version,
{
    assert(first_terminal_at(ts, i));
    lemma_token_kinds_distinct(ts[i]);
    lemma_first_terminal_unique(ts, i);
}

/// Arguments with a debug flag and no help or version flag anywhere select a
/// normal run with debug on.
pub proof fn law_debug_without_terminal(ts: Seq<Seq<char>>)
    requires
        has_debug_token(ts),
        forall|i: int| 0 <= i < ts.len() ==> !is_terminal_token(#[trigger] ts[i]),
    ensures
        mode_of(ts) == (ProgramMode::Main { args: ts, debug: true }),
{
    assert(forall|i: int| !first_terminal_at(ts, i));
}

/// One more debug flag, wherever it is inserted into arguments that already
/// hold one, selects the same mode with the same debug setting; a normal run
/// keeps the inserted flag among its arguments.
pub proof fn law_repeated_debug(ts: Seq<Seq<char>>, k: int, d: Seq<char>)
    requires
        has_debug_token(ts),
        is_debug_token(d),
        0 <= k <= ts.len(),
    ensures
        mode_of(ts.insert(k, d)) == (match mode_of(ts) {
            ProgramMode::Main { args, debug } => ProgramMode::Main { args: args.insert(k, d), debug },
            m => m,
        }),
{
    let us = ts.insert(k, d);
    lemma_token_kinds_distinct(d);
    assert(is_debug_token(us[k]));
    if exists|i: int| first_terminal_at(ts, i) {
        let i = choose|i: int| first_terminal_at(ts, i);
        let s = if i < k { i } else { i + 1 };
        assert(us[s] == ts[i]);
        assert forall|j: int| 0 <= j < s && j < us.len() implies !is_terminal_token(#[trigger] us[j]) by {
            if j < k {
                assert(us[j] == ts[j]);
            } else if j > k {
                assert(us[j] == ts[j - 1]);
            }
        }
        assert(first_terminal_at(us, s));
        lemma_first_terminal_unique(ts, i);
        lemma_first_terminal_unique(us, s);
        lemma_token_kinds_distinct(ts[i]);
    } else {
        assert forall|j: int| 0 <= j < ts.len() implies !is_terminal_token(#[trigger] ts[j]) by {
            if is_terminal_token(ts[j]) {
                lemma_first_terminal_exists(ts, j);
            }
        }
        assert forall|j: int| 0 <= j < us.len() implies !is_terminal_token(#[trigger] us[j]) by {
            if j < k {
                assert(us[j] == ts[j]);
            } else if j > k {
                assert(us[j] == ts[j - 1]);
            }
        }
        assert(forall|i: int| !first_terminal_at(us, i));
        assert(has_debug_token(us));
    }
}

/// Where some help or version flag occurs, a first one does.
proof fn lemma_first_terminal_exists(ts: Seq<Seq<char>>, j: int)
    requires
        0 <= j < ts.len(),
        is_terminal_token(ts[j]),
    ensures
        exists|i: int| first_terminal_at(ts, i),
    decreases j,
{
    if no_terminal_before(ts, j) {
        assert(first_terminal_at(ts, j));
    } else {
        let j2 = choose|j2: int| 0 <= j2 < j && j2 < ts.len() && is_terminal_token(#[trigger] ts[j2]);
        lemma_first_terminal_exists(ts, j2);
    }
}

/// Two positions that both hold the first help or version flag are one.
proof fn lemma_first_terminal_unique(ts: Seq<Seq<char>>, i: int)
    requires
        first_terminal_at(ts, i),
    ensures
        forall|k: int| #[trigger] first_terminal_at(ts, k) ==> k == i,
{
    assert forall|k: int| #[trigger] first_terminal_at(ts, k) implies k == i by {
        if k < i {
            assert(!is_terminal_token(ts[k]));
        } else if k > i {
            assert(!is_terminal_token(ts[i]));
        }
    }
}

} // verus!
