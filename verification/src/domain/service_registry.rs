use vstd::prelude::*;
use crate::keyed::{KeyedVec, lookup, seq_insert, seq_keys, seq_remove_key};

verus! {

/// The name under which a service is registered.
#[derive(Debug, PartialEq, Eq, Hash)]
pub struct ServiceId(pub String);

impl Clone for ServiceId {
    fn clone(&self) -> (r: Self)
        ensures
            r == *self,
    {
        ServiceId(self.0.clone())
    }
}

impl ServiceId {
    /// The id `id`.
    pub fn new(id: &str) -> (r: Self)
        ensures
            r.0@ == id@,
    {
        ServiceId(id.to_string())
    }

    /// The id as text.
    pub fn as_str(&self) -> (s: &str)
        ensures
            s@ == self.0@,
    {
        self.0.as_str()
    }
}

/// What the orchestrator knows of a registered service. Metadata values are
/// JSON documents, held as their text.
#[derive(Debug)]
pub struct ServiceDescriptor {
    pub id: ServiceId,
    pub name: String,
    pub version: String,
    pub endpoint: Option<String>,
    pub capabilities: Vec<String>,
    pub metadata: KeyedVec<String>,
}

/// The registered services, keyed by id.
#[derive(Debug)]
pub struct ServiceRegistry {
    pub services: KeyedVec<ServiceDescriptor>,
}

impl ServiceRegistry {
    /// No services.
    pub fn new() -> (r: Self)
        ensures
            r.services@.len() == 0,
    {
        ServiceRegistry { services: KeyedVec::new() }
    }

    /// Registers `descriptor` under its id, replacing an earlier one.
    pub fn register(&mut self, descriptor: ServiceDescriptor)
        ensures
            final(self).services@ == seq_insert(old(self).services@, descriptor.id.0@, descriptor),
    {
        let id = descriptor.id.0.clone();
        self.services.insert(id, descriptor);
    }

    /// Removes the service `service_id`; returns its descriptor.
    pub fn deregister(&mut self, service_id: &str) -> (r: Option<ServiceDescriptor>)
        ensures
            final(self).services@ == seq_remove_key(old(self).services@, service_id@),
            r == lookup(old(self).services@, service_id@),
    {
        self.services.remove(service_id)
    }

    /// The descriptor of `service_id`.
    pub fn get(&self, service_id: &str) -> (r: Option<&ServiceDescriptor>)
        ensures
            r is Some <==> lookup(self.services@, service_id@) is Some,
            r matches Some(d) ==> lookup(self.services@, service_id@) == Some(*d),
    {
        self.services.get(service_id)
    }

    /// The ids of all registered services.
    pub fn all_ids(&self) -> (r: Vec<&str>)
        ensures
            r@.map_values(|s: &str| s@) == seq_keys(self.services@),
    {
        let n = self.services.len();
        let mut r: Vec<&str> = Vec::new();
        let mut i: usize = 0;
        while i < n
            invariant
                n == self.services@.len(),
                i <= n,
                r@.len() == i,
                forall|j: int| 0 <= j < i ==> #[trigger] r@[j]@ == self.services@[j].0,
            decreases n - i,
        {
            r.push(self.services.key_at(i).as_str());
            i = i + 1;
        }
        assert(r@.map_values(|s: &str| s@) =~= seq_keys(self.services@));
        r
    }
}

/// A registered service is found under its id until it is deregistered;
/// the other services are untouched by either.
pub proof fn law_registry_read_after_write(
    services: Seq<(Seq<char>, ServiceDescriptor)>,
    descriptor: ServiceDescriptor,
    id: Seq<char>,
)
    requires
        crate::keyed::keys_unique(services),
    ensures
        lookup(seq_insert(services, descriptor.id.0@, descriptor), id) == (if id
            == descriptor.id.0@ {
            Some(descriptor)
        } else {
            lookup(services, id)
        }),
        lookup(seq_remove_key(services, descriptor.id.0@), id) == (if id == descriptor.id.0@ {
            None
        } else {
            lookup(services, id)
        }),
{
    crate::keyed::lemma_lookup_insert(services, descriptor.id.0@, descriptor, id);
    crate::keyed::lemma_lookup_remove(services, descriptor.id.0@, id);
}

} // verus!
