use vstd::prelude::*;
use vstd::string::StringExecFns;

verus! {

/// The environment variable consulted for the gateway's address when the
/// caller names none.
pub open spec fn spec_default_env_var() -> Seq<char> {
    "OLLAMA_API_BASE"@
}

/// The address picked from a listing of environment variables: the value of
/// the last entry whose key equals `name`, or the empty string where no
/// entry matches.
pub open spec fn spec_api_base(vars: Seq<(String, String)>, name: Seq<char>) -> Seq<char>
    decreases vars,
{
    if vars.len() == 0 {
        Seq::empty()
    } else if vars.last().0@ == name {
        vars.last().1@
    } else {
        spec_api_base(vars.drop_last(), name)
    }
}

/// Picks the gateway's address out of a listing of environment variables:
/// the value of the last entry whose key is the requested variable —
/// `OLLAMA_API_BASE` when the caller names none — or the empty string where
/// no entry matches.
pub fn resolve_api_base(vars: &Vec<(String, String)>, env_var_name: Option<&str>) -> (r: String)
    ensures
        r@ == spec_api_base(
            vars@,
            match env_var_name {
                Some(name) => name@,
                None => spec_default_env_var(),
            },
        ),
{
    let name: String = match env_var_name {
        Some(name) => String::from_str(name),
        None => String::from_str("OLLAMA_API_BASE"),
    };
    let mut api_base: String = String::new();
    let n: usize = vars.len();
    proof {
        assert(vars@.take(0) =~= Seq::<(String, String)>::empty());
    }
    for i in 0..n
        invariant
            n == vars@.len(),
            api_base@ == spec_api_base(vars@.take(i as int), name@),
    {
        if vars[i].0 == name {
            api_base = vars[i].1.clone();
        }
        proof {
            assert(vars@.take(i + 1).drop_last() =~= vars@.take(i as int));
            assert(vars@.take(i + 1).last() == vars@[i as int]);
        }
    }
    proof {
        assert(vars@.take(n as int) =~= vars@);
    }
    api_base
}

} // verus!
