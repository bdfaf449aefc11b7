//! The decisions of one run: where the answer comes from, what is done with
//! it, and the exit status that follows.

use vstd::prelude::*;
use vstd::string::StringExecFns;
use crate::cache::{count_of, lemma_store_then_lookup, lookup_in, stored_after, CacheEntry};

verus! {

/// What a run does next to obtain its answer.
#[derive(Debug, Clone, PartialEq, Eq)]
pub enum Step {
    /// Look the query up in the cache.
    LookUp,
    /// Ask the model, and store its answer for the query.
    FetchAndStore,
    /// Use this answer.
    Deliver(String),
}

/// What a run does with its answer.
#[derive(Debug, Clone, PartialEq, Eq)]
pub enum Finish {
    /// Write the answer to the error stream and stop.
    Print(String),
    /// Run the answer as a shell command line.
    Run(String),
}

/// The first step: a forced refresh always asks the model, else the cache is
/// consulted.
pub fn first_step(force_refresh: bool) -> (r: Step)
    ensures
        force_refresh ==> r is FetchAndStore,
        !force_refresh ==> r is LookUp,
{
    if force_refresh {
        Step::FetchAndStore
    } else {
        Step::LookUp
    }
}

/// The step after a lookup: a cached answer is used as it is, a miss asks
/// the model.
pub fn after_lookup(cached: Option<String>) -> (r: Step)
    ensures
        cached is None ==> r is FetchAndStore,
        cached is Some ==> r is Deliver && r->Deliver_0 == cached->0,
{
    match cached {
        Some(a) => Step::Deliver(a),
        None => Step::FetchAndStore,
    }
}

/// What to do with `answer`: print it when nothing is to run, else run it.
pub fn finish(no_run: bool, answer: String) -> (r: Finish)
    ensures
        no_run ==> r is Print && r->Print_0 == answer,
        !no_run ==> r is Run && r->Run_0 == answer,
{
    if no_run {
        Finish::Print(answer)
    } else {
        Finish::Run(answer)
    }
}

/// The line written before a command line is run.
pub fn invoking_notice(answer: &str) -> (r: String)
    ensures
        r@ == "Invoking: "@ + answer@,
{
    let mut r = "Invoking: ".to_owned();
    r.append(answer);
    r
}

/// The status a run ends with once its command has exited: none of its own
/// when the command succeeded, else the command's code, or 1 without one.
pub fn exit_code(success: bool, code: Option<i32>) -> (r: Option<i32>)
    ensures
        success ==> r is None,
        !success && code is Some ==> r == code,
        !success && code is None ==> r == Some(1i32),
{
    if success {
        None
    } else {
        match code {
            Some(c) => Some(c),
            None => Some(1),
        }
    }
}

/// `words` with a single space between each two.
pub open spec fn spaced(words: Seq<String>) -> Seq<char>
    decreases words.len(),
{
    if words.len() == 0 {
        Seq::empty()
    } else if words.len() == 1 {
        words[0]@
    } else {
        spaced(words.drop_last()) + " "@ + words.last()@
    }
}

/// The query phrase made of the words given on the command line.
pub fn join_words(words: &Vec<String>) -> (r: String)
    ensures
        r@ == spaced(words@),
{
    let mut r = String::new();
    let n = words.len();
    let mut i: usize = 0;
    while i < n
        invariant
            n == words@.len(),
            0 <= i <= n,
            r@ == spaced(words@.subrange(0, i as int)),
        decreases n - i,
    {
        assert(words@.subrange(0, i + 1).drop_last() =~= words@.subrange(0, i as int));
        if i > 0 {
            r.append(" ");
        }
        r.append(words[i].as_str());
        i = i + 1;
    }
    assert(words@.subrange(0, n as int) =~= words@);
    r
}

/// A forced refresh asks the model even where the cache already answers the
/// query, and what it stores replaces that answer: the query then has one
/// entry, with the fresh answer.
pub proof fn lemma_force_refresh_replaces(
    before: Seq<CacheEntry>,
    after: Seq<CacheEntry>,
    query: Seq<char>,
    cached: Seq<char>,
    fresh: Seq<char>,
)
    requires
        lookup_in(before, query) == Some(cached),
        stored_after(before, after, query, fresh),
    ensures
        lookup_in(after, query) == Some(fresh),
        count_of(after, query) == 1,
{
    lemma_store_then_lookup(before, after, query, fresh);
}

} // verus!
