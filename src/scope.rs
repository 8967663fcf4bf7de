use vstd::prelude::*;
use crate::ast::ValueType;

verus! {

/// What a declaration promises about a name.
#[derive(Debug, Clone, Copy, PartialEq, Eq, Structural)]
pub struct VariableOptions {
    pub mutable: bool,
    pub typ: ValueType,
}

/// The variables of one scope, in the order they were declared.
pub type Frame = Seq<(Seq<char>, VariableOptions)>;

/// The options declared for `name` in one frame.
pub open spec fn lookup_in(frame: Frame, name: Seq<char>) -> Option<VariableOptions>
    decreases frame.len(),
{
    if frame.len() == 0 {
        None
    } else if frame.last().0 == name {
        Some(frame.last().1)
    } else {
        lookup_in(frame.drop_last(), name)
    }
}

/// The options that a reference to `name` sees: the innermost frame that
/// declares it wins.
pub open spec fn resolve(frames: Seq<Frame>, name: Seq<char>) -> Option<VariableOptions>
    decreases frames.len(),
{
    if frames.len() == 0 {
        None
    } else {
        match lookup_in(frames.last(), name) {
            Some(o) => Some(o),
            None => resolve(frames.drop_last(), name),
        }
    }
}

/// One lexical scope: its variables (names unique) and its function names.
#[derive(Debug, Clone)]
pub struct Scope {
    pub variables: Vec<(String, VariableOptions)>,
    pub functions: Vec<String>,
}

/// The variable frames of a scope stack, outermost first.
pub open spec fn frames_of(scopes: Seq<Scope>) -> Seq<Frame> {
    scopes.map_values(|s: Scope| s.frame())
}

impl Scope {
    pub open spec fn frame(self) -> Frame {
        self.variables@.map_values(|e: (String, VariableOptions)| (e.0@, e.1))
    }

    /// An empty scope.
    pub fn new() -> (r: Scope)
        ensures
            r.variables@.len() == 0,
            r.functions@.len() == 0,
    {
        Scope { variables: Vec::new(), functions: Vec::new() }
    }

    /// The options declared for `name` in this scope, if any.
    pub fn lookup(&self, name: &String) -> (r: Option<VariableOptions>)
        ensures
            r == lookup_in(self.frame(), name@),
    {
        let mut k: usize = self.variables.len();
        assert(self.frame().subrange(0, k as int) =~= self.frame());
        while k > 0
            invariant
                k <= self.variables@.len(),
                lookup_in(self.frame(), name@) == lookup_in(self.frame().subrange(0, k as int), name@),
            decreases k,
        {
            let entry = &self.variables[k - 1];
            assert(self.frame().subrange(0, k as int).drop_last() =~= self.frame().subrange(0, k - 1));
            if entry.0 == *name {
                return Some(entry.1);
            }
            k = k - 1;
        }
        assert(self.frame().subrange(0, 0).len() == 0);
        None
    }

    /// Adds `name` to this scope. Fails, changing nothing, when the scope
    /// already declares it.
    pub fn declare_variable(&mut self, name: String, options: VariableOptions) -> (r: bool)
        ensures
            r == (lookup_in(old(self).frame(), name@) is None),
            r ==> final(self).frame() == old(self).frame().push((name@, options)),
            !r ==> *final(self) == *old(self),
            final(self).functions == old(self).functions,
    {
        if self.lookup(&name).is_some() {
            return false;
        }
        self.variables.push((name, options));
        assert(self.frame() =~= old(self).frame().push((name@, options)));
        true
    }
}

/// Opens a child scope. Lookups fall through to the enclosing scopes, so the
/// child starts empty and its declarations never reach its parent.
pub fn enter_scope(scopes: &mut Vec<Scope>)
    ensures
        final(scopes)@ == old(scopes)@.push(final(scopes)@.last()),
        final(scopes)@.last().variables@.len() == 0,
        final(scopes)@.last().functions@.len() == 0,
{
    scopes.push(Scope::new());
}

/// Closes the innermost scope and drops its declarations. The outermost scope
/// always stays: with one scope or none, nothing changes and false comes back.
pub fn exit_scope(scopes: &mut Vec<Scope>) -> (r: bool)
    ensures
        r == (old(scopes)@.len() > 1),
        r ==> final(scopes)@ == old(scopes)@.drop_last(),
        !r ==> final(scopes)@ == old(scopes)@,
{
    if scopes.len() > 1 {
        scopes.pop();
        true
    } else {
        false
    }
}

/// What a reference to `name` resolves to, searching from the innermost scope.
pub fn resolve_variable(scopes: &Vec<Scope>, name: &String) -> (r: Option<VariableOptions>)
    ensures
        r == resolve(frames_of(scopes@), name@),
{
    let mut k: usize = scopes.len();
    assert(scopes@.subrange(0, k as int) =~= scopes@);
    while k > 0
        invariant
            k <= scopes@.len(),
            resolve(frames_of(scopes@), name@) == resolve(frames_of(scopes@.subrange(0, k as int)), name@),
        decreases k,
    {
        let found = scopes[k - 1].lookup(name);
        assert(scopes@.subrange(0, k - 1) =~= scopes@.subrange(0, k as int).drop_last());
        assert(frames_of(scopes@.subrange(0, k as int)).drop_last() =~= frames_of(scopes@.subrange(0, k - 1)));
        if found.is_some() {
            return found;
        }
        k = k - 1;
    }
    None
}

} // verus!
