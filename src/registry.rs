//! The table through which the host finds an operation by name. It is built
//! once at startup and never changed afterwards.
use vstd::prelude::*;
use vstd::string::StringExecFns;
use crate::spawn::{
    SpawnRequest,
    echo_request,
    echo_program,
    echo_message,
    reply_view,
    invocation_reply,
    test_process_spawn,
};

verus! {

/// The operations that the bridge can register.
#[derive(Clone, Copy, Debug, PartialEq, Eq, Structural)]
pub enum Operation {
    TestProcessSpawn,
}

impl Operation {
    /// The name under which the host calls the operation.
    pub open spec fn name_spec(&self) -> Seq<char> {
        match self {
            Operation::TestProcessSpawn => "test_process_spawn"@,
        }
    }

    pub fn name(&self) -> (r: String)
        ensures
            r@ == self.name_spec(),
    {
        match self {
            Operation::TestProcessSpawn => String::from_str("test_process_spawn"),
        }
    }

    /// The process that the operation launches.
    pub fn request(&self) -> (r: SpawnRequest)
        ensures
            r.program@ == echo_program(),
            r.args_view() == seq![echo_message()],
    {
        match self {
            Operation::TestProcessSpawn => echo_request(),
        }
    }

    /// The reply of the operation, given the outcome of launching its request.
    pub fn complete(&self, launched: Result<String, String>) -> (r: Result<String, String>)
        ensures
            reply_view(r) == invocation_reply(reply_view(launched)),
    {
        match self {
            Operation::TestProcessSpawn => test_process_spawn(launched),
        }
    }
}

/// A fixed mapping from operation names to operations.
pub struct Registry {
    entries: Vec<(String, Operation)>,
}

impl Registry {
    /// The registered entries, names as text, in registration order.
    pub closed spec fn entries_view(&self) -> Seq<(Seq<char>, Operation)> {
        self.entries@.map_values(|e: (String, Operation)| (e.0@, e.1))
    }

    /// No name is registered twice.
    #[verifier::type_invariant]
    pub closed spec fn wf(&self) -> bool {
        forall|i: int, j: int|
            0 <= i < self.entries_view().len() && 0 <= j < self.entries_view().len() && i != j
                ==> #[trigger] self.entries_view()[i].0 != #[trigger] self.entries_view()[j].0
    }

    /// Whether `name` is registered.
    pub open spec fn has_name(&self, name: Seq<char>) -> bool {
        exists|i: int| 0 <= i < self.entries_view().len() && #[trigger] self.entries_view()[i].0 == name
    }

    /// The operation registered under `name`, if any.
    pub open spec fn lookup_spec(&self, name: Seq<char>) -> Option<Operation> {
        if self.has_name(name) {
            let i = choose|i: int|
                0 <= i < self.entries_view().len() && #[trigger] self.entries_view()[i].0 == name;
            Some(self.entries_view()[i].1)
        } else {
            None
        }
    }

    /// The bridge's table: the spawn operation under its name, nothing else.
    pub fn new() -> (r: Registry)
        ensures
            r.entries_view() == seq![(Operation::TestProcessSpawn.name_spec(), Operation::TestProcessSpawn)],
            forall|name: Seq<char>|
                #[trigger] r.lookup_spec(name) == if name == Operation::TestProcessSpawn.name_spec() {
                    Some(Operation::TestProcessSpawn)
                } else {
                    None
                },
    {
        let op = Operation::TestProcessSpawn;
        let mut entries: Vec<(String, Operation)> = Vec::new();
        entries.push((op.name(), op));
        let r = Registry { entries };
        assert(r.entries_view() =~= seq![(op.name_spec(), op)]);
        assert forall|name: Seq<char>|
            #[trigger] r.lookup_spec(name) == if name == op.name_spec() {
                Some(op)
            } else {
                None
            } by {
            if name == op.name_spec() {
                assert(r.entries_view()[0].0 == name);
            }
        }
        r
    }

    /// Finds the operation registered under `name`.
    pub fn lookup(&self, name: &str) -> (r: Option<Operation>)
        ensures
            r == self.lookup_spec(name@),
    {
        proof {
            use_type_invariant(self);
        }
        let wanted = String::from_str(name);
        let mut i: usize = 0;
        while i < self.entries.len()
            invariant
                0 <= i <= self.entries@.len(),
                wanted@ == name@,
                self.entries_view().len() == self.entries@.len(),
                forall|k: int| 0 <= k < i ==> #[trigger] self.entries_view()[k].0 != name@,
            decreases self.entries@.len() - i,
        {
            let entry = &self.entries[i];
            if entry.0 == wanted {
                assert(self.entries_view()[i as int].0 == name@);
                assert(self.has_name(name@));
                return Some(entry.1);
            }
            i = i + 1;
        }
        None
    }
}

} // verus!
