use vstd::prelude::*;

use crate::text::{decimal, decimal_digits, push_chars, push_str};

verus! {

/// What came of trying the requested context.
#[derive(Clone, Debug)]
pub enum ContextAttempt {
    /// A client was built for the context.
    Connected,
    /// The context's configuration was built, but every connection strategy failed.
    NoClient,
    /// The context's configuration could not be built, for this reason.
    ConfigFailed(String),
}

/// How a client request ends.
#[derive(Clone, Debug)]
pub enum ClientResolution {
    /// No context was asked for: only the list of contexts is handed back.
    ContextsOnly,
    /// A client for the requested context is ready.
    Connected,
    /// No client could be built; the message lists every error met.
    Failed(String),
}

/// The error line for a failed attempt on `context`.
pub open spec fn attempt_error_text(context: Seq<char>, attempt: ContextAttempt) -> Seq<char> {
    match attempt {
        ContextAttempt::ConfigFailed(e) => "Failed to create configuration for context '"@ +
                context + "': "@ + e@
            + ". Check if the context exists and is properly configured"@,
        _ => "Failed to create client for context '"@ + context + "': All connection strategies failed"@,
    }
}

/// The errors as a bulleted list, one per line.
pub open spec fn bullet_list(errors: Seq<Seq<char>>) -> Seq<char>
    decreases errors.len(),
{
    if errors.len() == 0 {
        Seq::empty()
    } else if errors.len() == 1 {
        "  \u{2022} "@ + errors[0]
    } else {
        bullet_list(errors.drop_last()) + "\n"@ + "  \u{2022} "@ + errors.last()
    }
}

/// The views of `v`'s strings.
pub open spec fn views(v: Seq<String>) -> Seq<Seq<char>> {
    v.map_values(|s: String| s@)
}

/// The composite message for a client that could not be built.
pub open spec fn client_error_text(n_paths: nat, errors: Seq<Seq<char>>) -> Seq<char> {
    "Unable to create Kubernetes client. Tried "@ + decimal(n_paths) +
            " kubeconfig path(s). Errors encountered:\n"@
        + bullet_list(errors)
}

/// The error line for a failed attempt on `context`.
pub fn attempt_error(context: &str, attempt: &ContextAttempt) -> (r: String)
    ensures
        r@ == attempt_error_text(context@, *attempt),
{
    let mut r = String::new();
    match attempt {
        ContextAttempt::ConfigFailed(e) => {
            push_str(&mut r, "Failed to create configuration for context '");
            push_str(&mut r, context);
            push_str(&mut r, "': ");
            push_str(&mut r, e.as_str());
            push_str(&mut r, ". Check if the context exists and is properly configured");
        },
        _ => {
            push_str(&mut r, "Failed to create client for context '");
            push_str(&mut r, context);
            push_str(&mut r, "': All connection strategies failed");
        },
    }
    assert(r@ =~= attempt_error_text(context@, *attempt));
    r
}

/// The composite message naming how many kubeconfig paths were tried and
/// listing every error met.
pub fn client_error_message(n_paths: u64, errors: &Vec<String>) -> (r: String)
    ensures
        r@ == client_error_text(n_paths as nat, views(errors@)),
{
    let mut r = String::new();
    push_str(&mut r, "Unable to create Kubernetes client. Tried ");
    push_chars(&mut r, &decimal_digits(n_paths));
    push_str(&mut r, " kubeconfig path(s). Errors encountered:\n");
    let ghost head = r@;
    let mut i: usize = 0;
    while i < errors.len()
        invariant
            i <= errors.len(),
            r@ == head + bullet_list(views(errors@.subrange(0, i as int))),
        decreases errors.len() - i,
    {
        if i > 0 {
            push_str(&mut r, "\n");
        }
        push_str(&mut r, "  \u{2022} ");
        push_str(&mut r, errors[i].as_str());
        proof {
            let done = views(errors@.subrange(0, i as int));
            let next = views(errors@.subrange(0, i as int + 1));
            assert(next.drop_last() =~= done);
            assert(next.last() == errors@[i as int]@);
            if i == 0 {
                assert(next.len() == 1);
                assert(bullet_list(done) =~= Seq::<char>::empty());
                assert(r@ =~= head + bullet_list(next));
            } else {
                assert(r@ =~= head + bullet_list(next));
            }
        }
        i = i + 1;
    }
    assert(errors@.subrange(0, errors@.len() as int) =~= errors@);
    r
}

/// Decides how a client request ends once the requested context, if any,
/// was tried over `n_paths` kubeconfig paths: without a context only the
/// contexts are handed back; a connected attempt succeeds; any other attempt
/// adds its error line to `errors` and fails with the composite message.
pub fn create_client_with_specific_context(
    context_name: Option<&str>,
    attempt: &ContextAttempt,
    n_paths: u64,
    errors: Vec<String>,
) -> (r: ClientResolution)
    ensures
        context_name is None ==> r is ContextsOnly,
        context_name matches Some(name) ==> match *attempt {
            ContextAttempt::Connected => r is Connected,
            _ => r matches ClientResolution::Failed(m) && m@ == client_error_text(
                n_paths as nat,
                views(errors@).push(attempt_error_text(name@, *attempt)),
            ),
        },
{
    match context_name {
        None => ClientResolution::ContextsOnly,
        Some(name) => match attempt {
            ContextAttempt::Connected => ClientResolution::Connected,
            _ => {
                let mut all = errors;
                let line = attempt_error(name, attempt);
                let ghost before = all@;
                all.push(line);
                proof {
                    assert(views(all@) =~= views(before).push(attempt_error_text(name@, *attempt)));
                }
                ClientResolution::Failed(client_error_message(n_paths, &all))
            },
        },
    }
}

} // verus!
