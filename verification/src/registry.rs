//! The tool registry: capability descriptions keyed by unique name.
//! Registration refuses a colliding name rather than overwriting, lookup is
//! read-only, and enumeration returns the registered tools in insertion
//! order.

use vstd::prelude::*;

use crate::schema::ToolSchema;

verus! {

/// The read-only projection of one registered tool, as capability discovery
/// reports it.
#[derive(Debug, PartialEq)]
pub struct ToolInfo {
    pub name: String,
    pub description: String,
    pub parameters: ToolSchema,
}

/// Why a registry operation failed.
#[derive(Clone, Copy, Debug, PartialEq, Eq, Structural)]
pub enum ToolError {
    /// `register` was given a name that is already taken.
    DuplicateName,
    /// `lookup` found no tool of the given name.
    NotFound,
}

/// A registry of tools keyed by unique name.
pub struct ToolRegistry {
    entries: Vec<ToolInfo>,
}

/// The registry under its conventional short name.
pub type Registry = ToolRegistry;

/// A second conventional alias for the same registry.
pub type Tools = ToolRegistry;

/// Some tool in `s` is named `n`.
pub open spec fn has_name(s: Seq<ToolInfo>, n: Seq<char>) -> bool {
    exists|i: int| 0 <= i < s.len() && s[i].name@ == n
}

/// The first tool in `s` named `n`, if any.
pub open spec fn spec_lookup(s: Seq<ToolInfo>, n: Seq<char>) -> Option<ToolInfo>
    decreases s.len(),
{
    if s.len() == 0 {
        None
    } else if s[0].name@ == n {
        Some(s[0])
    } else {
        spec_lookup(s.drop_first(), n)
    }
}

/// What registering `t` into `s` returns and leaves behind: a duplicate name
/// is refused and the registry is unchanged; otherwise `t` is appended.
pub open spec fn spec_register(s: Seq<ToolInfo>, t: ToolInfo) -> (Result<(), ToolError>, Seq<
    ToolInfo,
>) {
    if has_name(s, t.name@) {
        (Err(ToolError::DuplicateName), s)
    } else {
        (Ok(()), s.push(t))
    }
}

impl View for ToolRegistry {
    type V = Seq<ToolInfo>;

    closed spec fn view(&self) -> Seq<ToolInfo> {
        self.entries@
    }
}

impl ToolRegistry {
    /// Creates an empty registry.
    pub fn new() -> (r: Self)
        ensures
            r@ == Seq::<ToolInfo>::empty(),
    {
        ToolRegistry { entries: Vec::new() }
    }

    /// Whether some registered tool is named `name`.
    pub fn contains_name(&self, name: &str) -> (b: bool)
        ensures
            b == has_name(self@, name@),
    {
        let n = self.entries.len();
        let mut i: usize = 0;
        #[verifier::loop_isolation(false)]
        while i < n
            invariant
                i <= n,
                forall|j: int| 0 <= j < i ==> self.entries@[j].name@ != name@,
            decreases n - i,
        {
            if crate::text::str_eq(self.entries[i].name.as_str(), name) {
                return true;
            }
            i += 1;
        }
        false
    }

    /// Registers a tool: appends it unless its name is already taken, in
    /// which case the registry is left unchanged and the collision reported.
    pub fn register(&mut self, tool: ToolInfo) -> (r: Result<(), ToolError>)
        ensures
            r == spec_register(old(self)@, tool).0,
            final (self)@ == spec_register(old(self)@, tool).1,
    {
        if self.contains_name(tool.name.as_str()) {
            Err(ToolError::DuplicateName)
        } else {
            self.entries.push(tool);
            Ok(())
        }
    }

    /// Looks a tool up by name.
    pub fn lookup(&self, name: &str) -> (r: Result<&ToolInfo, ToolError>)
        ensures
            match r {
                Ok(t) => spec_lookup(self@, name@) == Some(*t),
                Err(e) => e == ToolError::NotFound && spec_lookup(self@, name@) is None,
            },
    {
        let n = self.entries.len();
        let mut i: usize = 0;
        proof {
            assert(self.entries@.skip(0) =~= self.entries@);
        }
        #[verifier::loop_isolation(false)]
        while i < n
            invariant
                i <= n,
                spec_lookup(self.entries@, name@) == spec_lookup(
                    self.entries@.skip(i as int),
                    name@,
                ),
            decreases n - i,
        {
            proof {
                assert(self.entries@.skip(i as int)[0] == self.entries@[i as int]);
                assert(self.entries@.skip(i as int).drop_first() =~= self.entries@.skip(
                    i as int + 1,
                ));
            }
            if crate::text::str_eq(self.entries[i].name.as_str(), name) {
                proof {
                    assert(spec_lookup(self.entries@.skip(i as int), name@) == Some(
                        self.entries@[i as int],
                    ));
                }
                return Ok(&self.entries[i]);
            }
            i += 1;
        }
        proof {
            assert(self.entries@.skip(n as int).len() == 0);
        }
        Err(ToolError::NotFound)
    }

    /// Enumerates the registered tools in insertion order.
    pub fn list(&self) -> (r: &Vec<ToolInfo>)
        ensures
            r@ == self@,
    {
        &self.entries
    }

    /// The number of registered tools.
    pub fn len(&self) -> (n: usize)
        ensures
            n == self@.len(),
    {
        self.entries.len()
    }
}

/// Enumeration is idempotent: two `list` calls with no registration in
/// between see the same registry value and return the same sequence.
pub proof fn lemma_list_idempotent(r: ToolRegistry, first: Seq<ToolInfo>, second: Seq<ToolInfo>)
    requires
        first == r@,
        second == r@,
    ensures
        first == second,
{
}

/// Appending a tool under a fresh name makes it the one `spec_lookup` finds
/// under that name.
proof fn lemma_lookup_push_fresh(s: Seq<ToolInfo>, t: ToolInfo, n: Seq<char>)
    requires
        !has_name(s, n),
        t.name@ == n,
    ensures
        spec_lookup(s.push(t), n) == Some(t),
    decreases s.len(),
{
    if s.len() == 0 {
        assert(s.push(t) =~= seq![t]);
    } else {
        assert(s[0].name@ != n);
        assert(s.push(t)[0] == s[0]);
        assert(s.push(t).drop_first() =~= s.drop_first().push(t));
        assert(!has_name(s.drop_first(), n)) by {
            assert forall|i: int| 0 <= i < s.drop_first().len() implies s.drop_first()[i].name@
                != n by {
                assert(s.drop_first()[i] == s[i + 1]);
            }
        }
        lemma_lookup_push_fresh(s.drop_first(), t, n);
    }
}

/// Registering two tools with the same name: the first registration succeeds,
/// the second fails with `DuplicateName` and changes nothing, and the first
/// tool remains the one lookup finds under that name.
pub proof fn lemma_duplicate_register(s: Seq<ToolInfo>, a: ToolInfo, b: ToolInfo)
    requires
        !has_name(s, a.name@),
        b.name@ == a.name@,
    ensures
        spec_register(s, a).0 == Ok::<(), ToolError>(()),
        spec_register(spec_register(s, a).1, b).0 == Err::<(), ToolError>(ToolError::DuplicateName),
        spec_register(spec_register(s, a).1, b).1 == spec_register(s, a).1,
        spec_lookup(spec_register(spec_register(s, a).1, b).1, a.name@) == Some(a),
{
    let s1 = s.push(a);
    assert(s1[s.len() as int] == a);
    assert(has_name(s1, b.name@));
    lemma_lookup_push_fresh(s, a, a.name@);
}

} // verus!
