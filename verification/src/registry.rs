//! The registry of a service: which methods it offers and who handles them.
//!
//! A registry is filled once, through a `ServiceBuilder`, before serving
//! begins. The `ServiceRegistration` that `build` returns can only be read.

use vstd::prelude::*;
use crate::error::RpcError;
use crate::shape::{CallSignature, MethodDescriptor, Shape};

verus! {

/// A reference to a handler that the hosting side keeps: its call signature
/// and the slot under which the host finds it.
#[derive(Clone, Copy, Debug, PartialEq, Eq, Structural)]
pub struct Handler {
    /// Which sides of the call the handler treats as streams.
    pub signature: CallSignature,
    /// The host's own index of the handler.
    pub slot: usize,
}

/// One registered method with its handler.
#[derive(Debug, PartialEq, Eq)]
pub struct Registration {
    /// The method.
    pub descriptor: MethodDescriptor,
    /// Who handles it.
    pub handler: Handler,
}

/// What a registry knows of one method name.
pub ghost struct Entry {
    /// The shape of the method.
    pub shape: Shape,
    /// Who handles it.
    pub handler: Handler,
}

/// The content of a registry: what is known of each registered name.
pub type Table = Map<Seq<char>, Entry>;

/// The first registration under `name`, if there is one.
pub open spec fn lookup(entries: Seq<Registration>, name: Seq<char>) -> Option<Registration>
    decreases entries.len(),
{
    if entries.len() == 0 {
        None
    } else if entries.first().descriptor.name@ == name {
        Some(entries.first())
    } else {
        lookup(entries.drop_first(), name)
    }
}

/// The table that a list of registrations stands for.
pub open spec fn table_of(entries: Seq<Registration>) -> Table {
    Map::new(
        |name: Seq<char>| lookup(entries, name) is Some,
        |name: Seq<char>|
            Entry {
                shape: lookup(entries, name)->Some_0.descriptor.shape,
                handler: lookup(entries, name)->Some_0.handler,
            },
    )
}

/// Whether registering a method of this name and shape with this handler
/// succeeds on `table`, and why not where it does not.
pub open spec fn register_outcome(table: Table, name: Seq<char>, shape: Shape, handler: Handler)
    -> Result<(), RpcError> {
    if table.contains_key(name) {
        Err(RpcError::DuplicateMethod)
    } else if handler.signature != shape.spec_signature() {
        Err(RpcError::ShapeMismatch)
    } else {
        Ok(())
    }
}

/// The table after an attempt to register: extended where the attempt
/// succeeds, untouched where it fails.
pub open spec fn register_table(table: Table, name: Seq<char>, shape: Shape, handler: Handler)
    -> Table {
    if register_outcome(table, name, shape, handler) is Ok {
        table.insert(name, Entry { shape, handler })
    } else {
        table
    }
}

/// Appending a registration changes the lookup of no name that was already
/// registered, and adds the new name where it was not.
proof fn lemma_lookup_push(entries: Seq<Registration>, added: Registration, name: Seq<char>)
    ensures
        lookup(entries.push(added), name) == match lookup(entries, name) {
            Some(found) => Some(found),
            None => if added.descriptor.name@ == name {
                Some(added)
            } else {
                None
            },
        },
    decreases entries.len(),
{
    if entries.len() == 0 {
        assert(entries.push(added).drop_first() =~= entries);
    } else {
        assert(entries.push(added).drop_first() =~= entries.drop_first().push(added));
        if entries.first().descriptor.name@ != name {
            lemma_lookup_push(entries.drop_first(), added, name);
        }
    }
}

/// The position of the first registration under `name`.
fn find(entries: &Vec<Registration>, name: &String) -> (r: Option<usize>)
    ensures
        match r {
            Some(i) => i < entries@.len() && lookup(entries@, name@) == Some(entries@[i as int]),
            None => lookup(entries@, name@) is None,
        },
{
    let count: usize = entries.len();
    let mut i: usize = 0;
    assert(entries@.skip(0) =~= entries@);
    while i < count
        invariant
            count == entries@.len(),
            i <= count,
            lookup(entries@, name@) == lookup(entries@.skip(i as int), name@),
        decreases count - i,
    {
        proof {
            assert(entries@.skip(i as int).first() == entries@[i as int]);
            assert(entries@.skip(i as int).drop_first() =~= entries@.skip(i + 1));
        }
        if entries[i].descriptor.name == *name {
            return Some(i);
        }
        i += 1;
    }
    None
}

/// Collects the registrations of a service before serving begins.
pub struct ServiceBuilder {
    entries: Vec<Registration>,
}

impl View for ServiceBuilder {
    type V = Table;

    closed spec fn view(&self) -> Table {
        table_of(self.entries@)
    }
}

impl ServiceBuilder {
    /// A builder with nothing registered.
    pub fn new() -> (r: ServiceBuilder)
        ensures
            r@ == Map::<Seq<char>, Entry>::empty(),
    {
        let r = ServiceBuilder { entries: Vec::new() };
        assert(r@ =~= Map::<Seq<char>, Entry>::empty());
        r
    }

    /// Registers the method of `descriptor` with `handler`.
    ///
    /// Fails with `DuplicateMethod` where the name is already registered,
    /// else with `ShapeMismatch` where the handler's call signature is not
    /// the one the method's shape asks for. A failed attempt changes nothing:
    /// what was registered first stays registered.
    pub fn register(&mut self, descriptor: MethodDescriptor, handler: Handler) -> (r: Result<
        (),
        RpcError,
    >)
        ensures
            r == register_outcome(old(self)@, descriptor.name@, descriptor.shape, handler),
            final(self)@ == register_table(
                old(self)@,
                descriptor.name@,
                descriptor.shape,
                handler,
            ),
    {
        if find(&self.entries, &descriptor.name).is_some() {
            return Err(RpcError::DuplicateMethod);
        }
        if handler.signature != descriptor.shape.signature() {
            return Err(RpcError::ShapeMismatch);
        }
        let ghost before = self.entries@;
        let ghost added = Registration { descriptor, handler };
        self.entries.push(Registration { descriptor, handler });
        proof {
            assert forall|name: Seq<char>|
                lookup(before.push(added), name) == match lookup(before, name) {
                    Some(found) => Some(found),
                    None => if added.descriptor.name@ == name {
                        Some(added)
                    } else {
                        None
                    },
                } by {
                lemma_lookup_push(before, added, name);
            }
            assert(self@ =~= old(self)@.insert(
                descriptor.name@,
                Entry { shape: descriptor.shape, handler },
            ));
        }
        Ok(())
    }

    /// Ends registration: the result can be read but not extended.
    pub fn build(self) -> (r: ServiceRegistration)
        ensures
            r@ == self@,
    {
        ServiceRegistration { entries: self.entries }
    }
}

/// The methods of a service, fixed for as long as it serves.
pub struct ServiceRegistration {
    entries: Vec<Registration>,
}

impl View for ServiceRegistration {
    type V = Table;

    closed spec fn view(&self) -> Table {
        table_of(self.entries@)
    }
}

impl ServiceRegistration {
    /// The registration under `name`, or `None` where the service has no
    /// such method.
    pub fn resolve(&self, name: &str) -> (r: Option<&Registration>)
        ensures
            match r {
                Some(found) => {
                    &&& self@.contains_key(name@)
                    &&& found.descriptor.name@ == name@
                    &&& found.descriptor.shape == self@[name@].shape
                    &&& found.handler == self@[name@].handler
                },
                None => !self@.contains_key(name@),
            },
    {
        let key = name.to_owned();
        match find(&self.entries, &key) {
            Some(i) => {
                proof {
                    lemma_lookup_names(self.entries@, name@);
                }
                Some(&self.entries[i])
            },
            None => None,
        }
    }
}

/// What a lookup finds is registered under the name that was looked up.
proof fn lemma_lookup_names(entries: Seq<Registration>, name: Seq<char>)
    ensures
        lookup(entries, name) matches Some(found) ==> found.descriptor.name@ == name,
    decreases entries.len(),
{
    if entries.len() > 0 && entries.first().descriptor.name@ != name {
        lemma_lookup_names(entries.drop_first(), name);
    }
}

/// Registering a second method under a name that is taken fails with
/// `DuplicateMethod`, whatever its shape and handler, and the first
/// registration stays as it was.
pub proof fn lemma_first_registration_stays(
    table: Table,
    name: Seq<char>,
    first_shape: Shape,
    first_handler: Handler,
    second_shape: Shape,
    second_handler: Handler,
)
    requires
        register_outcome(table, name, first_shape, first_handler) is Ok,
    ensures
        ({
            let after_first = register_table(table, name, first_shape, first_handler);
            let after_second = register_table(after_first, name, second_shape, second_handler);
            &&& register_outcome(after_first, name, second_shape, second_handler) == Err::<
                (),
                RpcError,
            >(RpcError::DuplicateMethod)
            &&& after_second == after_first
            &&& after_second[name] == Entry { shape: first_shape, handler: first_handler }
        }),
{
}

/// Registering one name leaves what is known of every other name as it was.
pub proof fn lemma_registration_is_local(
    table: Table,
    name: Seq<char>,
    shape: Shape,
    handler: Handler,
    other: Seq<char>,
)
    requires
        other != name,
    ensures
        register_table(table, name, shape, handler).contains_key(other) == table.contains_key(
            other,
        ),
        table.contains_key(other) ==> register_table(table, name, shape, handler)[other]
            == table[other],
{
}

} // verus!
