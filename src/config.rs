//! Resolving a configuration value from sources tried in order.
use vstd::prelude::*;

verus! {

/// Region used when no source yields one.
pub const DEFAULT_REGION: &'static str = "eu-central-1";

/// Index of the first source that yielded a value, if any.
pub open spec fn first_some(sources: Seq<Option<String>>) -> Option<int>
    decreases sources.len(),
{
    if sources.len() == 0 {
        None
    } else if sources[0] is Some {
        Some(0)
    } else {
        match first_some(sources.drop_first()) {
            Some(k) => Some(k + 1),
            None => None,
        }
    }
}

proof fn lemma_first_some_none(sources: Seq<Option<String>>)
    requires
        forall|j: int| 0 <= j < sources.len() ==> #[trigger] sources[j] is None,
    ensures
        first_some(sources) is None,
    decreases sources.len(),
{
    if sources.len() > 0 {
        lemma_first_some_none(sources.drop_first());
    }
}

proof fn lemma_first_some_at(sources: Seq<Option<String>>, k: int)
    requires
        0 <= k < sources.len(),
        sources[k] is Some,
        forall|j: int| 0 <= j < k ==> #[trigger] sources[j] is None,
    ensures
        first_some(sources) == Some(k),
    decreases k,
{
    if k > 0 {
        lemma_first_some_at(sources.drop_first(), k - 1);
    }
}

/// The value of the first source, in order, that yielded one.
pub fn first_resolved(sources: &Vec<Option<String>>) -> (r: Option<String>)
    ensures
        match first_some(sources@) {
            Some(k) => r is Some && r->Some_0@ == sources@[k]->Some_0@,
            None => r is None,
        },
{
    let mut i: usize = 0;
    while i < sources.len()
        invariant
            i <= sources@.len(),
            forall|j: int| 0 <= j < i ==> #[trigger] sources@[j] is None,
        decreases sources@.len() - i,
    {
        match &sources[i] {
            Some(v) => {
                proof {
                    lemma_first_some_at(sources@, i as int);
                }
                return Some(v.clone());
            },
            None => {},
        }
        i = i + 1;
    }
    proof {
        lemma_first_some_none(sources@);
    }
    None
}

/// The region: from the environment, else from the prompt, else the default.
pub fn resolve_region(from_env: Option<String>, from_prompt: Option<String>) -> (r: String)
    ensures
        r@ == match (from_env, from_prompt) {
            (Some(e), _) => e@,
            (None, Some(p)) => p@,
            (None, None) => DEFAULT_REGION@,
        },
{
    let sources = vec![from_env, from_prompt];
    let chosen = first_resolved(&sources);
    proof {
        if sources@[0] is Some {
            lemma_first_some_at(sources@, 0);
        } else if sources@[1] is Some {
            lemma_first_some_at(sources@, 1);
        } else {
            lemma_first_some_none(sources@);
        }
    }
    match chosen {
        Some(v) => v,
        None => String::from_str(DEFAULT_REGION),
    }
}

} // verus!
