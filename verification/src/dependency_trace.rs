//! Rendering of a chain of dependencies.
use vstd::prelude::*;
use vstd::string::StringExecFns;

verus! {

/// How a dependency is shown in a trace: the one that failed is wrapped in the terminal
/// codes for bold text, every other one is shown as it is.
pub open spec fn spec_trace_entry(dependency: Seq<char>, err_dependency: Seq<char>) -> Seq<char> {
    if dependency == err_dependency {
        "\x1b[1m"@ + dependency + "\x1b[22m"@
    } else {
        dependency
    }
}

/// The trace of a chain of dependencies: their entries joined by `" -> "`.
pub open spec fn spec_dependency_trace(dependencies: Seq<Seq<char>>, err_dependency: Seq<char>) -> Seq<char>
    decreases dependencies.len(),
{
    if dependencies.len() == 0 {
        Seq::empty()
    } else if dependencies.len() == 1 {
        spec_trace_entry(dependencies[0], err_dependency)
    } else {
        spec_dependency_trace(dependencies.drop_last(), err_dependency) + " -> "@
            + spec_trace_entry(dependencies.last(), err_dependency)
    }
}

/// Only the failing dependency is highlighted: a dependency other than the failing one
/// is shown as its name alone, and so is a chain of that one dependency; the failing
/// dependency is its name wrapped in the codes that turn bold text on and off.
pub proof fn law_only_failing_dependency_is_highlighted(
    dependency: Seq<char>,
    err_dependency: Seq<char>,
)
    ensures
        dependency != err_dependency ==> spec_trace_entry(dependency, err_dependency)
            == dependency,
        dependency != err_dependency ==> spec_dependency_trace(seq![dependency], err_dependency)
            == dependency,
        spec_trace_entry(err_dependency, err_dependency) == "\x1b[1m"@ + err_dependency
            + "\x1b[22m"@,
        spec_dependency_trace(seq![err_dependency], err_dependency) == "\x1b[1m"@
            + err_dependency + "\x1b[22m"@,
{
    assert(seq![dependency][0] == dependency);
    assert(seq![err_dependency][0] == err_dependency);
}

/// A chain of two dependencies, neither of which failed, is shown as their names joined
/// by `" -> "`.
pub proof fn law_trace_without_failing_dependency(
    first: Seq<char>,
    second: Seq<char>,
    err_dependency: Seq<char>,
)
    requires
        first != err_dependency,
        second != err_dependency,
    ensures
        spec_dependency_trace(seq![first, second], err_dependency) == first + " -> "@ + second,
{
    let chain = seq![first, second];
    assert(chain.drop_last() =~= seq![first]);
    assert(chain.last() == second);
    assert(seq![first][0] == first);
    assert(spec_dependency_trace(seq![first], err_dependency) == first);
    assert(spec_dependency_trace(chain, err_dependency) == spec_dependency_trace(
        chain.drop_last(),
        err_dependency,
    ) + " -> "@ + spec_trace_entry(chain.last(), err_dependency));
}

/// Calls `<str as PartialEq>::eq`: two strings are equal when they hold the same
/// characters.
#[verifier::external_body]
fn str_eq(a: &str, b: &str) -> (res: bool)
    ensures
        res == (a@ == b@),
{
    a == b
}

/// Renders the chain of dependencies `dependency_history`, highlighting
/// `err_dependency`.
pub fn create_dependency_trace(dependency_history: &[&'static str], err_dependency: &'static str) -> (trace: String)
    ensures
        trace@ == spec_dependency_trace(
            dependency_history@.map_values(|dependency: &'static str| dependency@),
            err_dependency@,
        ),
{
    let ghost views = dependency_history@.map_values(|dependency: &'static str| dependency@);
    let mut trace = String::new();
    let mut i: usize = 0;
    proof {
        assert(views.take(0) =~= Seq::<Seq<char>>::empty());
    }
    while i < dependency_history.len()
        invariant
            i <= dependency_history@.len(),
            views == dependency_history@.map_values(|dependency: &'static str| dependency@),
            trace@ == spec_dependency_trace(views.take(i as int), err_dependency@),
        decreases dependency_history@.len() - i,
    {
        let dependency: &'static str = dependency_history[i];
        if i != 0 {
            trace.append(" -> ");
        }
        if str_eq(dependency, err_dependency) {
            trace.append("\x1b[1m");
            trace.append(dependency);
            trace.append("\x1b[22m");
        } else {
            trace.append(dependency);
        }
        proof {
            assert(views.take(i + 1).drop_last() =~= views.take(i as int));
            assert(views.take(i + 1).last() == dependency@);
            if i == 0 {
                assert(views.take(1)[0] == dependency@);
            }
        }
        i = i + 1;
    }
    proof {
        assert(views.take(dependency_history@.len() as int) =~= views);
    }
    trace
}

/// A trace highlights the failing dependency and nothing else: the trace of a single
/// dependency that did not fail is its name as it is, that of the failing one is its
/// name in bold, and the trace of two dependencies neither of which failed is their
/// names joined by `" -> "`.
pub proof fn law_trace_highlights_only_failing_dependency(
    dependency_history: &[&'static str],
    err_dependency: &'static str,
    trace: String,
)
    requires
        call_ensures(create_dependency_trace, (dependency_history, err_dependency), trace),
    ensures
        dependency_history@.len() == 1 && dependency_history@[0]@ != err_dependency@
            ==> trace@ == dependency_history@[0]@,
        dependency_history@.len() == 1 && dependency_history@[0]@ == err_dependency@
            ==> trace@ == "\x1b[1m"@ + err_dependency@ + "\x1b[22m"@,
        dependency_history@.len() == 2 && dependency_history@[0]@ != err_dependency@
            && dependency_history@[1]@ != err_dependency@ ==> trace@ == dependency_history@[0]@
            + " -> "@ + dependency_history@[1]@,
{
    let views = dependency_history@.map_values(|dependency: &'static str| dependency@);
    if dependency_history@.len() == 1 {
        assert(views =~= seq![dependency_history@[0]@]);
        law_only_failing_dependency_is_highlighted(dependency_history@[0]@, err_dependency@);
    }
    if dependency_history@.len() == 2 && dependency_history@[0]@ != err_dependency@
        && dependency_history@[1]@ != err_dependency@ {
        assert(views =~= seq![dependency_history@[0]@, dependency_history@[1]@]);
        law_trace_without_failing_dependency(
            dependency_history@[0]@,
            dependency_history@[1]@,
            err_dependency@,
        );
    }
}

} // verus!
