//! Extractors of message bus backings by the name of their Python type.

use vstd::prelude::*;

use crate::index::{empty_index, index_contents, index_get, index_insert, index_new};

verus! {

/// Why a registry refuses.
#[derive(Debug, Clone, Copy, PartialEq, Eq, Structural)]
pub enum RegistryError {
    /// Another extractor is registered for the type.
    AlreadyRegistered,
    /// No extractor is registered for the type.
    NotRegistered,
}

/// Extractors by the name of the Python type that they extract from.
#[derive(Debug)]
pub struct MessageBusFactoryRegistry {
    label: &'static str,
    inner: ahash::AHashMap<String, u64, ahash::RandomState>,
}

impl View for MessageBusFactoryRegistry {
    type V = Map<Seq<char>, u64>;

    closed spec fn view(&self) -> Map<Seq<char>, u64> {
        index_contents(self.inner)
    }
}

impl MessageBusFactoryRegistry {
    /// What the registry holds extractors of.
    pub closed spec fn label_text(&self) -> Seq<char> {
        self.label@
    }

    /// An empty registry.
    pub fn new() -> (r: Self)
        ensures
            r@ == empty_index(),
            r.label_text() == "message bus factory"@,
    {
        MessageBusFactoryRegistry { label: "message bus factory", inner: index_new() }
    }

    /// Registers an extractor for a type. One that is registered already may be registered again;
    /// another one is refused and changes nothing.
    pub fn register(&mut self, factory_type: &str, extractor: u64) -> (r: Result<(), RegistryError>)
        ensures
            if old(self)@.dom().contains(factory_type@) && old(self)@[factory_type@] != extractor {
                r == Err::<(), RegistryError>(RegistryError::AlreadyRegistered) && final(self)@
                    == old(self)@
            } else {
                r is Ok && final(self)@ == old(self)@.insert(factory_type@, extractor)
            },
            final(self).label_text() == old(self).label_text(),
    {
        match index_get(&self.inner, factory_type) {
            Some(registered) => {
                if registered != extractor {
                    return Err(RegistryError::AlreadyRegistered);
                }
            },
            None => {},
        }
        index_insert(&mut self.inner, factory_type, extractor);
        Ok(())
    }

    /// The extractor for a type.
    pub fn extract(&self, factory_type: &str) -> (r: Result<u64, RegistryError>)
        ensures
            r == (if self@.dom().contains(factory_type@) {
                Ok::<u64, RegistryError>(self@[factory_type@])
            } else {
                Err(RegistryError::NotRegistered)
            }),
    {
        match index_get(&self.inner, factory_type) {
            Some(extractor) => Ok(extractor),
            None => Err(RegistryError::NotRegistered),
        }
    }
}

impl Default for MessageBusFactoryRegistry {
    fn default() -> (r: Self)
        ensures
            r@ == empty_index(),
            r.label_text() == "message bus factory"@,
    {
        MessageBusFactoryRegistry::new()
    }
}

} // verus!
