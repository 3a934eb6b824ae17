//! The command registry: a mapping from command name to native handler.
//!
//! The registry is built once during startup and is read-only afterwards;
//! `invoke` takes it by shared reference, so lookups can never mutate it.
//! Registration rejects duplicate names instead of overwriting: a duplicate
//! is a configuration mistake and aborts startup.
//!
//! The registry's mathematical model is a finite map from name (a character
//! sequence) to handler; `register` and `invoke` are specified against that
//! map.

use crate::errors::DuplicateCommandError;
use crate::errors::InvokeError;
use crate::handler::Handler;
use crate::handler::option_view;
use crate::handler::run_handler;
use crate::handler::spec_run_handler;
use vstd::prelude::*;

verus! {

/// A registered command: a unique name bound to the native handler that runs
/// when the name is invoked. Commands are immutable once registered.
struct Command {
    name: String,
    handler: Handler,
}

/// The set of invokable operations, keyed by exact name.
pub struct Registry {
    entries: Vec<Command>,
}

/// The map that a sequence of registered commands denotes.
spec fn entries_map(s: Seq<Command>) -> Map<Seq<char>, Handler>
    decreases s.len(),
{
    if s.len() == 0 {
        Map::empty()
    } else {
        entries_map(s.drop_last()).insert(s.last().name@, s.last().handler)
    }
}

impl View for Registry {
    type V = Map<Seq<char>, Handler>;

    closed spec fn view(&self) -> Map<Seq<char>, Handler> {
        entries_map(self.entries@)
    }
}

/// A name stands in the denoted map exactly when some command carries it.
proof fn lemma_entries_map_contains(s: Seq<Command>, k: Seq<char>)
    ensures
        entries_map(s).contains_key(k) <==> (exists|i: int|
            0 <= i < s.len() && s[i].name@ == k),
    decreases s.len(),
{
    if s.len() > 0 {
        lemma_entries_map_contains(s.drop_last(), k);
        if s.last().name@ == k {
            assert(s[s.len() - 1].name@ == k);
        } else {
            if exists|i: int| 0 <= i < s.len() && s[i].name@ == k {
                let i = choose|i: int| 0 <= i < s.len() && s[i].name@ == k;
                assert(s.drop_last()[i] == s[i]);
            }
        }
    }
}

/// When no later command reuses a command's name, the denoted map sends that
/// name to that command's handler.
proof fn lemma_entries_map_value(s: Seq<Command>, i: int)
    requires
        0 <= i < s.len(),
        forall|j: int| i < j < s.len() ==> s[j].name@ != s[i].name@,
    ensures
        entries_map(s).contains_key(s[i].name@),
        entries_map(s)[s[i].name@] == s[i].handler,
    decreases s.len(),
{
    if i < s.len() - 1 {
        assert(s.drop_last()[i] == s[i]);
        lemma_entries_map_value(s.drop_last(), i);
    }
}

/// With all names distinct, the denoted map has exactly one key per command.
proof fn lemma_entries_map_dom_len(s: Seq<Command>)
    requires
        forall|i: int, j: int| 0 <= i < j < s.len() ==> s[i].name@ != s[j].name@,
    ensures
        entries_map(s).dom().finite(),
        entries_map(s).dom().len() == s.len(),
    decreases s.len(),
{
    if s.len() > 0 {
        lemma_entries_map_dom_len(s.drop_last());
        lemma_entries_map_contains(s.drop_last(), s.last().name@);
        assert(!entries_map(s.drop_last()).contains_key(s.last().name@));
        assert(entries_map(s).dom() =~= entries_map(s.drop_last()).dom().insert(
            s.last().name@,
        ));
    }
}

/// Whether registering `name` against the mapping `m` is accepted: exactly
/// when the name is still free.
pub open spec fn spec_register_accepts(m: Map<Seq<char>, Handler>, name: Seq<char>) -> bool {
    !m.contains_key(name)
}

/// The mapping after a registration: extended by the one new association
/// when the name was free, unchanged when the registration was rejected.
pub open spec fn spec_register_map(
    m: Map<Seq<char>, Handler>,
    name: Seq<char>,
    handler: Handler,
) -> Map<Seq<char>, Handler> {
    if spec_register_accepts(m, name) {
        m.insert(name, handler)
    } else {
        m
    }
}

/// Law: registering a name and then registering the same name again fails,
/// and the failed second registration leaves the mapping unchanged — it
/// still contains exactly the first registration, and exactly one more name
/// than before the first.
pub proof fn lemma_duplicate_registration_rejected(
    m: Map<Seq<char>, Handler>,
    name: Seq<char>,
    first: Handler,
    second: Handler,
)
    requires
        spec_register_accepts(m, name),
    ensures
        ({
            let m1 = spec_register_map(m, name, first);
            &&& !spec_register_accepts(m1, name)
            &&& spec_register_map(m1, name, second) == m1
            &&& m1[name] == first
            &&& m1.dom() =~= m.dom().insert(name)
        }),
{
}

/// Law: registration order does not affect behavior — two accepted
/// registrations of distinct names yield the same mapping in either order,
/// so lookups cannot tell how the registry was built.
pub proof fn lemma_registration_order_irrelevant(
    m: Map<Seq<char>, Handler>,
    name_a: Seq<char>,
    handler_a: Handler,
    name_b: Seq<char>,
    handler_b: Handler,
)
    requires
        name_a != name_b,
        spec_register_accepts(m, name_a),
        spec_register_accepts(m, name_b),
    ensures
        spec_register_map(spec_register_map(m, name_a, handler_a), name_b, handler_b)
            =~= spec_register_map(spec_register_map(m, name_b, handler_b), name_a, handler_a),
{
}

impl Registry {
    /// Well-formedness: no two registered commands share a name.
    ///
    /// Constructors establish it and every method preserves it.
    pub closed spec fn wf(&self) -> bool {
        forall|i: int, j: int|
            0 <= i < j < self.entries@.len() ==> self.entries@[i].name@
                != self.entries@[j].name@
    }

    /// An empty registry: no name is invokable yet.
    pub fn new() -> (r: Registry)
        ensures
            r@ == Map::<Seq<char>, Handler>::empty(),
            r.wf(),
    {
        Registry { entries: Vec::new() }
    }

    /// Whether `name` is registered.
    pub fn contains(&self, name: &String) -> (b: bool)
        ensures
            b == self@.contains_key(name@),
    {
        let n = self.entries.len();
        let mut i: usize = 0;
        while i < n
            invariant
                n == self.entries@.len(),
                0 <= i <= n,
                forall|j: int| 0 <= j < i ==> self.entries@[j].name@ != name@,
            decreases n - i,
        {
            let e: &Command = &self.entries[i];
            if e.name == *name {
                proof {
                    lemma_entries_map_contains(self.entries@, name@);
                    assert(self.entries@[i as int].name@ == name@);
                }
                return true;
            }
            i += 1;
        }
        proof {
            lemma_entries_map_contains(self.entries@, name@);
        }
        false
    }

    /// How many commands are registered.
    pub fn len(&self) -> (n: usize)
        requires
            self.wf(),
        ensures
            n == self@.dom().len(),
    {
        proof {
            lemma_entries_map_dom_len(self.entries@);
        }
        self.entries.len()
    }

    /// Associates `name` with `handler`.
    ///
    /// Fails with a `DuplicateCommandError` carrying the name if `name` is
    /// already registered, and then leaves the registry exactly as it was;
    /// otherwise the mapping gains exactly the one new association.
    pub fn register(&mut self, name: String, handler: Handler) -> (r: Result<
        (),
        DuplicateCommandError,
    >)
        requires
            old(self).wf(),
        ensures
            final(self).wf(),
            final(self)@ == spec_register_map(old(self)@, name@, handler),
            r is Ok <==> spec_register_accepts(old(self)@, name@),
            r matches Err(e) ==> e.name@ == name@ && *final(self) == *old(self),
    {
        if self.contains(&name) {
            Err(DuplicateCommandError { name })
        } else {
            proof {
                lemma_entries_map_contains(self.entries@, name@);
            }
            self.entries.push(
                Command { name, handler },
            );
            proof {
                assert(self.entries@.drop_last() =~= old(self).entries@);
            }
            Ok(())
        }
    }

    /// Looks `name` up and runs its handler on `input`.
    ///
    /// Fails with `UnknownCommand` carrying the requested name exactly when
    /// the name was never registered; otherwise returns the handler's output,
    /// or wraps the handler's own failure report in `CommandExecution`. The
    /// registry itself is never mutated by an invocation.
    pub fn invoke(&self, name: &String, input: &Option<String>) -> (r: Result<
        String,
        InvokeError,
    >)
        requires
            self.wf(),
        ensures
            !self@.contains_key(name@) ==> (r matches Err(InvokeError::UnknownCommand {
                name: n,
            }) && n@ == name@),
            self@.contains_key(name@) && spec_run_handler(self@[name@], option_view(*input))
                is Ok ==> (r matches Ok(v) && v@ == spec_run_handler(
                self@[name@],
                option_view(*input),
            )->Ok_0),
            self@.contains_key(name@) && spec_run_handler(self@[name@], option_view(*input))
                is Err ==> (r matches Err(InvokeError::CommandExecution { message: m }) && m@
                == spec_run_handler(self@[name@], option_view(*input))->Err_0),
    {
        let n = self.entries.len();
        let mut i: usize = 0;
        while i < n
            invariant
                self.wf(),
                n == self.entries@.len(),
                0 <= i <= n,
                forall|j: int| 0 <= j < i ==> self.entries@[j].name@ != name@,
            decreases n - i,
        {
            let e: &Command = &self.entries[i];
            if e.name == *name {
                proof {
                    lemma_entries_map_value(self.entries@, i as int);
                    assert(self@[name@] == self.entries@[i as int].handler);
                }
                let out = run_handler(&e.handler, input);
                return match out {
                    Ok(v) => Ok(v),
                    Err(m) => Err(InvokeError::CommandExecution { message: m }),
                };
            }
            i += 1;
        }
        proof {
            lemma_entries_map_contains(self.entries@, name@);
        }
        Err(InvokeError::UnknownCommand { name: name.clone() })
    }
}

} // verus!
