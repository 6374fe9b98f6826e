//! What a rule reports about an unsafe statement.

use vstd::prelude::*;

verus! {

/// How serious a violation is.
#[derive(Debug, Clone, Copy, PartialEq, Eq, Structural)]
pub enum Severity {
    Error,
    Warning,
}

/// One unsafe pattern found in one statement: a stable name for the
/// operation, why it is a problem, and what to do instead.
#[derive(Debug)]
pub struct Violation {
    pub operation: String,
    pub problem: String,
    pub safe_alternative: String,
    pub severity: Severity,
    pub line_number: Option<usize>,
}

/// The mathematical content of a [`Violation`].
pub struct ViolationView {
    pub operation: Seq<char>,
    pub problem: Seq<char>,
    pub safe_alternative: Seq<char>,
    pub severity: Severity,
    pub line_number: Option<usize>,
}

impl View for Violation {
    type V = ViolationView;

    open spec fn view(&self) -> ViolationView {
        ViolationView {
            operation: self.operation@,
            problem: self.problem@,
            safe_alternative: self.safe_alternative@,
            severity: self.severity,
            line_number: self.line_number,
        }
    }
}

/// The violation that [`Violation::new`] builds from three texts: an error
/// that carries no line number.
pub open spec fn violation_of(
    operation: Seq<char>,
    problem: Seq<char>,
    safe_alternative: Seq<char>,
) -> ViolationView {
    ViolationView {
        operation,
        problem,
        safe_alternative,
        severity: Severity::Error,
        line_number: None,
    }
}

/// The contents of a list of violations, in order.
pub open spec fn violation_views(v: Seq<Violation>) -> Seq<ViolationView> {
    Seq::new(v.len(), |i: int| v[i]@)
}

impl Clone for Violation {
    fn clone(&self) -> (v: Violation)
        ensures
            v@ == self@,
    {
        Violation {
            operation: self.operation.clone(),
            problem: self.problem.clone(),
            safe_alternative: self.safe_alternative.clone(),
            severity: self.severity,
            line_number: self.line_number,
        }
    }
}

impl Violation {
    /// A violation of severity `Error` without a line number.
    pub fn new(operation: String, problem: String, safe_alternative: String) -> (v: Violation)
        ensures
            v@ == violation_of(operation@, problem@, safe_alternative@),
    {
        Violation {
            operation,
            problem,
            safe_alternative,
            severity: Severity::Error,
            line_number: None,
        }
    }

    /// The operation and the problem, separated by a colon.
    pub fn to_string(&self) -> (r: String)
        ensures
            r@ == self.operation@ + ": "@ + self.problem@,
    {
        let mut s = self.operation.clone();
        s.append(": ");
        s.append(self.problem.as_str());
        s
    }
}

/// Adding one violation to a list adds its content to the list's contents.
pub proof fn lemma_views_push(v: Seq<Violation>, x: Violation)
    ensures
        violation_views(v.push(x)) == violation_views(v).push(x@),
{
    assert(violation_views(v.push(x)) =~= violation_views(v).push(x@));
}

/// The contents of two lists joined are the contents of each, joined.
pub proof fn lemma_views_add(a: Seq<Violation>, b: Seq<Violation>)
    ensures
        violation_views(a + b) == violation_views(a) + violation_views(b),
{
    assert(violation_views(a + b) =~= violation_views(a) + violation_views(b));
}

/// Moves every violation of `more` to the end of `all`, in order.
pub fn extend_violations(all: &mut Vec<Violation>, more: Vec<Violation>)
    ensures
        violation_views(final(all)@) == violation_views(old(all)@) + violation_views(more@),
{
    let mut more = more;
    let ghost added = more@;
    let ghost before = all@;
    proof {
        lemma_views_add(before, added);
    }
    all.append(&mut more);
}

} // verus!
