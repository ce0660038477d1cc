//! The table of component types that graphs can be built from.

use crate::component::{one_in_one_out, ComponentComponentPayload};
use crate::components::filereader::FileReaderComponent;
use crate::components::splitlines::SplitLinesComponent;
use crate::components::trim::TrimComponent;
use vstd::prelude::*;

verus! {

/// A component type that the runtime knows how to build.
#[derive(Debug, PartialEq, Eq, Structural, Clone, Copy)]
pub enum ComponentKind {
    FileReader,
    SplitLines,
    Trim,
}

/// The name under which graphs refer to a component type.
pub open spec fn kind_name(k: ComponentKind) -> Seq<char> {
    match k {
        ComponentKind::FileReader => "FileReader"@,
        ComponentKind::SplitLines => "SplitLines"@,
        ComponentKind::Trim => "Trim"@,
    }
}

/// `m` is the descriptor of component type `k`.
pub open spec fn describes(m: ComponentComponentPayload, k: ComponentKind) -> bool {
    match k {
        ComponentKind::FileReader => one_in_one_out(
            m,
            "FileReader"@,
            "Reads the contents of the given files and sends the contents."@,
            "file"@,
            "NAMES"@,
            "filenames, one per IP"@,
            "OUT"@,
            "conents of the given files"@,
        ),
        ComponentKind::SplitLines => one_in_one_out(
            m,
            "SplitLines"@,
            "Splits IP contents by newline (\\n) and forwards the parts in separate IPs."@,
            "cut"@,
            "IN"@,
            "IPs with text to split"@,
            "OUT"@,
            "split lines"@,
        ),
        ComponentKind::Trim => one_in_one_out(
            m,
            "Trim"@,
            "Reads IPs as UTF-8 strings and trims whitespace at beginning and end, forwarding the trimmed string."@,
            "cut"@,
            "IN"@,
            "IPs with strings to trim, one string per IP"@,
            "OUT"@,
            "trimmed strings"@,
        ),
    }
}

impl ComponentKind {
    pub fn name(&self) -> (r: String)
        ensures
            r@ == kind_name(*self),
    {
        match self {
            ComponentKind::FileReader => "FileReader".to_owned(),
            ComponentKind::SplitLines => "SplitLines".to_owned(),
            ComponentKind::Trim => "Trim".to_owned(),
        }
    }

    pub fn metadata(&self) -> (m: ComponentComponentPayload)
        ensures
            describes(m, *self),
    {
        match self {
            ComponentKind::FileReader => FileReaderComponent::<(), ()>::get_metadata(),
            ComponentKind::SplitLines => SplitLinesComponent::<(), ()>::get_metadata(),
            ComponentKind::Trim => TrimComponent::<(), ()>::get_metadata(),
        }
    }
}

/// Registered component types, in the order of registration. Each type is
/// registered at most once.
pub struct Registry {
    kinds: Vec<ComponentKind>,
}

impl View for Registry {
    type V = Seq<ComponentKind>;

    closed spec fn view(&self) -> Seq<ComponentKind> {
        self.kinds@
    }
}

impl Registry {
    /// Each type is registered at most once.
    #[verifier::type_invariant]
    spec fn wf(&self) -> bool {
        self.kinds@.no_duplicates()
    }

    /// The type registered under `name`, if any.
    pub open spec fn find(&self, name: Seq<char>) -> Option<ComponentKind> {
        if exists|i: int| 0 <= i < self@.len() && kind_name(#[trigger] self@[i]) == name {
            Some(choose|k: ComponentKind| self@.contains(k) && kind_name(k) == name)
        } else {
            None
        }
    }

    /// An empty registry.
    pub fn new() -> (r: Registry)
        ensures
            r@.len() == 0,
    {
        Registry { kinds: Vec::new() }
    }

    /// The registry with every built-in component type.
    pub fn with_builtins() -> (r: Registry)
        ensures
            r@ == seq![ComponentKind::FileReader, ComponentKind::SplitLines, ComponentKind::Trim],
    {
        let mut r = Registry::new();
        r.register(ComponentKind::FileReader);
        r.register(ComponentKind::SplitLines);
        r.register(ComponentKind::Trim);
        r
    }

    pub fn len(&self) -> (n: usize)
        ensures
            n == self@.len(),
    {
        self.kinds.len()
    }

    /// Adds a component type at the end; a type that is there already is
    /// left where it is. Returns whether it was added.
    pub fn register(&mut self, k: ComponentKind) -> (added: bool)
        ensures
            final(self)@.no_duplicates(),
            added == !old(self)@.contains(k),
            final(self)@ == if added {
                old(self)@.push(k)
            } else {
                old(self)@
            },
    {
        let mut i: usize = 0;
        proof {
            use_type_invariant(&*self);
        }
        while i < self.kinds.len()
            invariant
                0 <= i <= self@.len(),
                self@ == old(self)@,
                self@.no_duplicates(),
                forall|j: int| 0 <= j < i ==> self@[j] != k,
            decreases self@.len() - i,
        {
            if self.kinds[i] == k {
                return false;
            }
            i = i + 1;
        }
        proof {
            use_type_invariant(&*self);
            let grown = self@.push(k);
            assert forall|a: int, b: int|
                0 <= a < grown.len() && 0 <= b < grown.len() && a != b implies grown[a]
                != grown[b] by {
                if a < self@.len() && b < self@.len() {
                    assert(self@[a] != self@[b]);
                }
            }
        }
        let mut taken = Registry { kinds: Vec::new() };
        std::mem::swap(self, &mut taken);
        let mut kinds = taken.kinds;
        kinds.push(k);
        *self = Registry { kinds };
        true
    }

    /// The component type that graphs call `name`.
    pub fn lookup(&self, name: &str) -> (r: Option<ComponentKind>)
        ensures
            r == self.find(name@),
            r matches Some(k) ==> self@.contains(k) && kind_name(k) == name@,
    {
        let key = name.to_owned();
        let mut i: usize = 0;
        while i < self.kinds.len()
            invariant
                0 <= i <= self@.len(),
                forall|j: int| 0 <= j < i ==> kind_name(#[trigger] self@[j]) != name@,
                key@ == name@,
            decreases self@.len() - i,
        {
            let k = self.kinds[i];
            let kn = k.name();
            if kn == key {
                proof {
                    assert(self@.contains(k));
                    lemma_names_distinct();
                }
                return Some(k);
            }
            i = i + 1;
        }
        None
    }

    /// The number of registered types, which is small.
    pub fn count(&self) -> (n: u32)
        ensures
            n == self@.len(),
            self@.no_duplicates(),
    {
        proof {
            use_type_invariant(self);
            lemma_registry_small(self@);
        }
        self.kinds.len() as u32
    }

    /// The type registered in position `i`.
    pub fn kind_at(&self, i: usize) -> (k: ComponentKind)
        requires
            i < self@.len(),
        ensures
            k == self@[i as int],
    {
        self.kinds[i]
    }

    /// The descriptors of every registered type, in order of registration.
    pub fn list(&self) -> (r: Vec<ComponentComponentPayload>)
        ensures
            r@.len() == self@.len(),
            forall|i: int| 0 <= i < self@.len() ==> describes(#[trigger] r@[i], self@[i]),
    {
        let mut r: Vec<ComponentComponentPayload> = Vec::new();
        let mut i: usize = 0;
        while i < self.kinds.len()
            invariant
                0 <= i <= self@.len(),
                r@.len() == i,
                forall|j: int| 0 <= j < i ==> describes(#[trigger] r@[j], self@[j]),
            decreases self@.len() - i,
        {
            r.push(self.kinds[i].metadata());
            i = i + 1;
        }
        r
    }
}

/// A registry holds each of the few component types at most once.
proof fn lemma_registry_small(s: Seq<ComponentKind>)
    requires
        s.no_duplicates(),
    ensures
        s.len() <= 3,
{
    if s.len() > 3 {
        assert(s[0] != s[1] && s[0] != s[2] && s[0] != s[3]);
        assert(s[1] != s[2] && s[1] != s[3] && s[2] != s[3]);
    }
}

/// Different component types have different names.
proof fn lemma_names_distinct()
    ensures
        forall|a: ComponentKind, b: ComponentKind| kind_name(a) == kind_name(b) ==> a == b,
{
    reveal_strlit("FileReader");
    reveal_strlit("SplitLines");
    reveal_strlit("Trim");
    assert("FileReader"@[0] != "SplitLines"@[0]);
    assert("FileReader"@[0] != "Trim"@[0]);
    assert("SplitLines"@[0] != "Trim"@[0]);
}

} // verus!
