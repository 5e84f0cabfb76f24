//! The table of installed models: one record per key, where a model's key is
//! its alias if it has one and its name otherwise.

use crate::error::{is_model_not_found, Error};
use crate::table::KeyedTable;
use vstd::prelude::*;
use vstd::string::*;

verus! {

/// What is known of one installed model.
#[derive(Debug)]
pub struct ModelInfo {
    /// The name the model goes by.
    pub name: String,
    /// The remote repository it was fetched from.
    pub hf_repo_id: String,
    /// A shorter name chosen by the user, if any.
    pub alias: Option<String>,
    /// The directory that holds its files.
    pub model_path: String,
    /// The width of its embedding vectors, once known.
    pub embedding_dim: Option<usize>,
    /// When it was fetched, as an RFC 3339 timestamp.
    pub downloaded_at: String,
}

/// A model record as plain mathematical values.
pub struct ModelInfoView {
    pub name: Seq<char>,
    pub hf_repo_id: Seq<char>,
    pub alias: Option<Seq<char>>,
    pub model_path: Seq<char>,
    pub embedding_dim: Option<usize>,
    pub downloaded_at: Seq<char>,
}

impl View for ModelInfo {
    type V = ModelInfoView;

    open spec fn view(&self) -> ModelInfoView {
        ModelInfoView {
            name: self.name@,
            hf_repo_id: self.hf_repo_id@,
            alias: match self.alias {
                Some(a) => Some(a@),
                None => None,
            },
            model_path: self.model_path@,
            embedding_dim: self.embedding_dim,
            downloaded_at: self.downloaded_at@,
        }
    }
}

impl ModelInfoView {
    /// The key under which the registry files this record: the alias where
    /// there is one, the name otherwise.
    pub open spec fn key(self) -> Seq<char> {
        match self.alias {
            Some(a) => a,
            None => self.name,
        }
    }
}

impl Clone for ModelInfo {
    fn clone(&self) -> (copy: Self)
        ensures
            copy@ == self@,
    {
        ModelInfo {
            name: self.name.clone(),
            hf_repo_id: self.hf_repo_id.clone(),
            alias: match &self.alias {
                Some(a) => Some(a.clone()),
                None => None,
            },
            model_path: self.model_path.clone(),
            embedding_dim: self.embedding_dim,
            downloaded_at: self.downloaded_at.clone(),
        }
    }
}

impl ModelInfo {
    /// The key under which the registry files this record.
    pub fn registry_key(&self) -> (key: String)
        ensures
            key@ == self@.key(),
    {
        match &self.alias {
            Some(a) => a.clone(),
            None => self.name.clone(),
        }
    }
}

/// The table of installed models, keyed by alias or name. No key occurs twice.
pub struct ModelRegistry {
    models: KeyedTable<ModelInfo>,
}

impl View for ModelRegistry {
    type V = Map<Seq<char>, ModelInfoView>;

    closed spec fn view(&self) -> Map<Seq<char>, ModelInfoView> {
        self.models@.map_values(|m: ModelInfo| m@)
    }
}

impl ModelRegistry {
    /// The records in the order in which their keys first came in.
    pub closed spec fn listing(&self) -> Seq<ModelInfoView> {
        self.models.values().map_values(|m: ModelInfo| m@)
    }

    /// The keys in the order in which they first came in.
    pub closed spec fn keys(&self) -> Seq<Seq<char>> {
        self.models.keys()
    }

    /// The keys and the listing are two readings of the map: every key of the
    /// map comes once among the keys, and the record listed at a position is
    /// the one the map holds under the key at that position.
    pub open spec fn listing_agrees(&self) -> bool {
        &&& self@.dom().finite()
        &&& self.keys().no_duplicates()
        &&& self.keys().to_set() == self@.dom()
        &&& self.keys().len() == self@.dom().len()
        &&& self.listing().len() == self.keys().len()
        &&& forall|i: int|
            0 <= i < self.keys().len() ==> self.listing()[i] == self@[#[trigger] self.keys()[i]]
    }

    proof fn lemma_listing_agrees(&self)
        requires
            self.models.keys_are_distinct(),
        ensures
            self.listing_agrees(),
    {
        self.models.lemma_listing();
        assert(self@.dom() =~= self.models@.dom());
        assert(self.keys().to_set() =~= self@.dom()) by {
            assert forall|k: Seq<char>| self.keys().to_set().contains(k) <==> self@.dom().contains(
                k,
            ) by {
                if self.keys().to_set().contains(k) {
                    let i = choose|i: int| 0 <= i < self.keys().len() && self.keys()[i] == k;
                    assert(self@.dom().contains(self.keys()[i]));
                }
                if self@.dom().contains(k) {
                    let i = choose|i: int|
                        0 <= i < self.keys().len() && #[trigger] self.keys()[i] == k;
                    assert(self.keys().contains(k));
                }
            }
        }
    }

    /// A table with no record.
    pub fn new() -> (registry: ModelRegistry)
        ensures
            registry@ == Map::<Seq<char>, ModelInfoView>::empty(),
            registry.listing().len() == 0,
            registry.listing_agrees(),
    {
        let registry = ModelRegistry { models: KeyedTable::new() };
        assert(registry@ =~= Map::<Seq<char>, ModelInfoView>::empty());
        proof {
            use_type_invariant(&registry.models);
            registry.lemma_listing_agrees();
        }
        registry
    }

    /// Files a record under a key, replacing the record that the key had.
    pub fn insert(&mut self, key: String, model: ModelInfo)
        ensures
            final(self)@ == old(self)@.insert(key@, model@),
            final(self).listing_agrees(),
    {
        self.models.insert(key, model);
        assert(self@ =~= old(self)@.insert(key@, model@));
        proof {
            use_type_invariant(&self.models);
            self.lemma_listing_agrees();
        }
    }

    /// Files a model under its alias, or under its name where it has none.
    /// A record already filed under that key is replaced.
    pub fn add_model(&mut self, model: ModelInfo)
        ensures
            final(self)@ == old(self)@.insert(model@.key(), model@),
            final(self).listing_agrees(),
    {
        let key = model.registry_key();
        self.insert(key, model);
    }

    /// The record filed under `name`. Fails with `ModelNotFound`, naming
    /// `name`, exactly when no record is filed under it.
    pub fn get_model(&self, name: &str) -> (found: Result<&ModelInfo, Error>)
        ensures
            match found {
                Ok(info) => self@.dom().contains(name@) && info@ == self@[name@],
                Err(e) => !self@.dom().contains(name@) && is_model_not_found(e, name@),
            },
    {
        match self.models.get(name) {
            Some(info) => Ok(info),
            None => Err(Error::ModelNotFound(String::from_str(name))),
        }
    }

    /// Whether a record is filed under `name`.
    pub fn contains(&self, name: &str) -> (present: bool)
        ensures
            present == self@.dom().contains(name@),
    {
        self.models.get(name).is_some()
    }

    /// Every record, one per key of the map, in the order in which the keys
    /// came in.
    pub fn list_models(&self) -> (models: Vec<&ModelInfo>)
        ensures
            self.listing_agrees(),
            models@.len() == self@.dom().len(),
            models@.len() == self.keys().len(),
            forall|i: int|
                0 <= i < models@.len() ==> (#[trigger] models@[i])@ == self@[self.keys()[i]],
    {
        proof {
            use_type_invariant(&self.models);
            self.lemma_listing_agrees();
        }
        let n = self.models.len();
        let mut models: Vec<&ModelInfo> = Vec::new();
        let mut i: usize = 0;
        while i < n
            invariant
                i <= n,
                n == self.models.values().len(),
                models@.len() == i,
                forall|j: int|
                    0 <= j < i ==> (#[trigger] models@[j])@ == self.models.values()[j]@,
            decreases n - i,
        {
            models.push(self.models.value_at(i));
            i += 1;
        }
        proof {
            assert forall|j: int| 0 <= j < models@.len() implies (#[trigger] models@[j])@
                == self@[self.keys()[j]] by {
                assert(self.listing()[j] == self.models.values()[j]@);
            }
        }
        models
    }

    /// The number of records: the number of keys of the map.
    pub fn len(&self) -> (n: usize)
        ensures
            self.listing_agrees(),
            n == self@.dom().len(),
    {
        proof {
            use_type_invariant(&self.models);
            self.lemma_listing_agrees();
        }
        self.models.len()
    }

    /// Every key of the map with its record, in the order in which the keys
    /// came in.
    pub fn entries(&self) -> (rows: Vec<(String, ModelInfo)>)
        ensures
            self.listing_agrees(),
            rows@.len() == self.keys().len(),
            forall|i: int|
                0 <= i < rows@.len() ==> (#[trigger] rows@[i]).0@ == self.keys()[i] && rows@[i].1@
                    == self@[self.keys()[i]],
    {
        proof {
            use_type_invariant(&self.models);
            self.lemma_listing_agrees();
        }
        let n = self.models.len();
        let mut rows: Vec<(String, ModelInfo)> = Vec::new();
        let mut i: usize = 0;
        while i < n
            invariant
                i <= n,
                n == self.models.values().len(),
                n == self.models.keys().len(),
                rows@.len() == i,
                forall|j: int|
                    0 <= j < i ==> (#[trigger] rows@[j]).0@ == self.models.keys()[j] && rows@[j].1@
                        == self.models.values()[j]@,
            decreases n - i,
        {
            let key = String::from_str(self.models.key_at(i));
            let info = self.models.value_at(i).clone();
            rows.push((key, info));
            i += 1;
        }
        proof {
            assert forall|j: int| 0 <= j < rows@.len() implies (#[trigger] rows@[j]).0@
                == self.keys()[j] && rows@[j].1@ == self@[self.keys()[j]] by {
                assert(self.listing()[j] == self.models.values()[j]@);
            }
        }
        rows
    }
}

impl Default for ModelRegistry {
    fn default() -> (registry: ModelRegistry)
        ensures
            registry@ == Map::<Seq<char>, ModelInfoView>::empty(),
            registry.listing_agrees(),
    {
        ModelRegistry::new()
    }
}

} // verus!
