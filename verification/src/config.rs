//! A builder for Terraform configuration in JSON syntax (`.tf.json`).
//!
//! Terraform accepts JSON configuration alongside HCL. This module builds
//! such a configuration entry by entry; blocks with the same name replace
//! each other, as the keys of a JSON object do.
use vstd::prelude::*;
use serde_json::Value;

use crate::keyed::{
    distinct_keys, entries, group_of, group_upsert, groups_distinct, groups_map, has_key, key_pos,
    lemma_group_upsert, lemma_upsert_is_insert, pairs_map, set_deep, set_entry, upsert,
};

verus! {

/// A provider requirement in the `required_providers` block.
#[derive(Debug, Clone)]
pub struct ProviderRequirement {
    /// Where the provider comes from, e.g. `hashicorp/aws`.
    pub source: String,
    /// The version constraint, e.g. `~> 5.0`.
    pub version: String,
}

impl DeepView for ProviderRequirement {
    type V = (Seq<char>, Seq<char>);

    open spec fn deep_view(&self) -> (Seq<char>, Seq<char>) {
        (self.source@, self.version@)
    }
}

/// The `terraform` block (required providers, backend).
#[derive(Debug)]
pub struct TerraformBlock {
    /// Required providers, by local name, with distinct names.
    pub required_providers: Vec<(String, ProviderRequirement)>,
    /// The backend as its type and its settings, if set.
    pub backend: Option<(String, Value)>,
}

/// A [`TerraformBlock`] as plain values.
pub struct BlockModel {
    pub required_providers: Seq<(Seq<char>, (Seq<char>, Seq<char>))>,
    pub backend: Option<(Seq<char>, Value)>,
}

impl TerraformBlock {
    /// This block as plain values.
    pub open spec fn model(&self) -> BlockModel {
        BlockModel {
            required_providers: self.required_providers.deep_view(),
            backend: match self.backend {
                Some(b) => Some((b.0@, b.1)),
                None => None,
            },
        }
    }
}

impl BlockModel {
    /// A block with nothing in it.
    pub open spec fn empty() -> Self {
        BlockModel { required_providers: seq![], backend: None }
    }
}

/// The block that a configuration's `terraform` entry holds, an empty one
/// where there is none yet.
pub open spec fn block_or_empty(block: Option<BlockModel>) -> BlockModel {
    match block {
        Some(b) => b,
        None => BlockModel::empty(),
    }
}

/// The groups of a list of named groups, with keys taken by view.
pub open spec fn group_entries(m: Seq<(String, Vec<(String, Value)>)>) -> Seq<(Seq<char>, Seq<(Seq<char>, Value)>)> {
    m.map_values(|p: (String, Vec<(String, Value)>)| (p.0@, entries(p.1@)))
}

/// A [`TerraformConfig`] as plain values: each section a list of named
/// entries with distinct names.
pub struct ConfigModel {
    pub terraform: Option<BlockModel>,
    pub provider: Seq<(Seq<char>, Value)>,
    pub resource: Seq<(Seq<char>, Seq<(Seq<char>, Value)>)>,
    pub data: Seq<(Seq<char>, Seq<(Seq<char>, Value)>)>,
    pub variable: Seq<(Seq<char>, Value)>,
    pub output: Seq<(Seq<char>, Value)>,
    pub locals: Seq<(Seq<char>, Value)>,
}

impl ConfigModel {
    /// A configuration with nothing in it.
    pub open spec fn empty() -> Self {
        ConfigModel {
            terraform: None,
            provider: seq![],
            resource: seq![],
            data: seq![],
            variable: seq![],
            output: seq![],
            locals: seq![],
        }
    }

    /// Names are distinct in every section and group.
    pub open spec fn wf(self) -> bool {
        &&& distinct_keys(block_or_empty(self.terraform).required_providers)
        &&& distinct_keys(self.provider)
        &&& groups_distinct(self.resource)
        &&& groups_distinct(self.data)
        &&& distinct_keys(self.variable)
        &&& distinct_keys(self.output)
        &&& distinct_keys(self.locals)
    }
}

/// Builder for constructing Terraform JSON configuration.
///
/// Produces the content of a `.tf.json` file that Terraform processes like
/// an HCL `.tf` file.
#[derive(Debug)]
pub struct TerraformConfig {
    terraform: Option<TerraformBlock>,
    provider: Vec<(String, Value)>,
    resource: Vec<(String, Vec<(String, Value)>)>,
    data: Vec<(String, Vec<(String, Value)>)>,
    variable: Vec<(String, Value)>,
    output: Vec<(String, Value)>,
    locals: Vec<(String, Value)>,
}

impl View for TerraformConfig {
    type V = ConfigModel;

    closed spec fn view(&self) -> ConfigModel {
        ConfigModel {
            terraform: match self.terraform {
                Some(b) => Some(b.model()),
                None => None,
            },
            provider: entries(self.provider@),
            resource: group_entries(self.resource@),
            data: group_entries(self.data@),
            variable: entries(self.variable@),
            output: entries(self.output@),
            locals: entries(self.locals@),
        }
    }
}

/// Sets `key` to `value` in the group `group`, creating the group where it
/// does not exist yet.
fn set_in_group(groups: &mut Vec<(String, Vec<(String, Value)>)>, group: String, key: String, value: Value)
    requires
        groups_distinct(group_entries(old(groups)@)),
    ensures
        group_entries(final(groups)@) == group_upsert(group_entries(old(groups)@), group@, key@, value),
        groups_distinct(group_entries(final(groups)@)),
{
    let ghost start = group_entries(groups@);
    proof { lemma_group_upsert(start, group@, key@, value); }
    let mut i: usize = 0;
    while i < groups.len()
        invariant
            i <= groups.len(),
            group_entries(groups@) == start,
            start == group_entries(old(groups)@),
            groups_distinct(start),
            forall|j: int| 0 <= j < i ==> #[trigger] start[j].0 != group@,
        decreases groups.len() - i,
    {
        if groups[i].0 == group {
            assert(start[i as int].0 == group@);
            assert(has_key(start, group@));
            let ghost p = key_pos(start, group@);
            assert(start[p].0 == group@);
            assert(p == i);
            let (name, mut inner) = groups.remove(i);
            assert(entries(inner@) == start[i as int].1);
            assert(distinct_keys(start[i as int].1));
            set_entry(&mut inner, key, value);
            let ghost g = name@;
            let ghost new_inner = entries(inner@);
            groups.insert(i, (name, inner));
            assert(group_entries(groups@) =~= start.update(i as int, (g, new_inner)));
            return;
        }
        i += 1;
    }
    assert(!has_key(start, group@));
    let mut inner: Vec<(String, Value)> = Vec::new();
    assert(entries(inner@) =~= Seq::<(Seq<char>, Value)>::empty());
    set_entry(&mut inner, key, value);
    assert(entries(inner@) == upsert(group_of(start, group@), key@, value));
    let ghost g = group@;
    let ghost new_inner = entries(inner@);
    groups.push((group, inner));
    assert(group_entries(groups@) =~= start.push((g, new_inner)));
}

impl Default for TerraformConfig {
    fn default() -> (r: Self)
        ensures
            r@ == ConfigModel::empty(),
    {
        TerraformConfig::new()
    }
}

impl TerraformConfig {
    #[verifier::type_invariant]
    spec fn names_distinct(self) -> bool {
        self@.wf()
    }

    /// Create a new empty configuration.
    pub fn new() -> (r: Self)
        ensures
            r@ == ConfigModel::empty(),
    {
        let r = TerraformConfig {
            terraform: None,
            provider: Vec::new(),
            resource: Vec::new(),
            data: Vec::new(),
            variable: Vec::new(),
            output: Vec::new(),
            locals: Vec::new(),
        };
        assert(r@.provider =~= Seq::<(Seq<char>, Value)>::empty());
        assert(r@.resource =~= Seq::<(Seq<char>, Seq<(Seq<char>, Value)>)>::empty());
        assert(r@.data =~= Seq::<(Seq<char>, Seq<(Seq<char>, Value)>)>::empty());
        assert(r@.variable =~= Seq::<(Seq<char>, Value)>::empty());
        assert(r@.output =~= Seq::<(Seq<char>, Value)>::empty());
        assert(r@.locals =~= Seq::<(Seq<char>, Value)>::empty());
        r
    }

    /// Add a required provider (replacing one of the same name).
    pub fn required_provider(self, name: &str, source: &str, version: &str) -> (r: Self)
        ensures
            r@ == (ConfigModel {
                terraform: Some(BlockModel {
                    required_providers: upsert(block_or_empty(self@.terraform).required_providers, name@, (source@, version@)),
                    ..block_or_empty(self@.terraform)
                }),
                ..self@
            }),
            pairs_map(block_or_empty(r@.terraform).required_providers)
                == pairs_map(block_or_empty(self@.terraform).required_providers).insert(name@, (source@, version@)),
    {
        proof { use_type_invariant(&self); }
        let TerraformConfig { terraform, provider, resource, data, variable, output, locals } = self;
        let mut block = match terraform {
            Some(b) => b,
            None => {
                let b = TerraformBlock { required_providers: Vec::new(), backend: None };
                assert(b.model().required_providers =~= Seq::<(Seq<char>, (Seq<char>, Seq<char>))>::empty());
                b
            },
        };
        proof { lemma_upsert_is_insert(block.model().required_providers, name@, (source@, version@)); }
        let requirement = ProviderRequirement { source: String::from_str(source), version: String::from_str(version) };
        set_deep(&mut block.required_providers, String::from_str(name), requirement);
        TerraformConfig { terraform: Some(block), provider, resource, data, variable, output, locals }
    }

    /// Configure a backend for remote state storage (replacing any backend
    /// set before).
    pub fn backend(self, backend_type: &str, config: Value) -> (r: Self)
        ensures
            r@ == (ConfigModel {
                terraform: Some(BlockModel {
                    backend: Some((backend_type@, config)),
                    ..block_or_empty(self@.terraform)
                }),
                ..self@
            }),
    {
        proof { use_type_invariant(&self); }
        let TerraformConfig { terraform, provider, resource, data, variable, output, locals } = self;
        let mut block = match terraform {
            Some(b) => b,
            None => {
                let b = TerraformBlock { required_providers: Vec::new(), backend: None };
                assert(b.model().required_providers =~= Seq::<(Seq<char>, (Seq<char>, Seq<char>))>::empty());
                b
            },
        };
        block.backend = Some((String::from_str(backend_type), config));
        TerraformConfig { terraform: Some(block), provider, resource, data, variable, output, locals }
    }

    /// Configure a provider (replacing one of the same name).
    pub fn provider(self, name: &str, config: Value) -> (r: Self)
        ensures
            r@ == (ConfigModel { provider: upsert(self@.provider, name@, config), ..self@ }),
            pairs_map(r@.provider) == pairs_map(self@.provider).insert(name@, config),
    {
        proof { use_type_invariant(&self); }
        let TerraformConfig { terraform, mut provider, resource, data, variable, output, locals } = self;
        proof { lemma_upsert_is_insert(entries(provider@), name@, config); }
        set_entry(&mut provider, String::from_str(name), config);
        TerraformConfig { terraform, provider, resource, data, variable, output, locals }
    }

    /// Add a managed resource (replacing one of the same type and name).
    pub fn resource(self, resource_type: &str, name: &str, config: Value) -> (r: Self)
        ensures
            r@ == (ConfigModel { resource: group_upsert(self@.resource, resource_type@, name@, config), ..self@ }),
            groups_map(r@.resource) == groups_map(self@.resource).insert(
                resource_type@,
                (if groups_map(self@.resource).dom().contains(resource_type@) {
                    groups_map(self@.resource)[resource_type@]
                } else {
                    Map::empty()
                }).insert(name@, config),
            ),
    {
        proof { use_type_invariant(&self); }
        let TerraformConfig { terraform, provider, mut resource, data, variable, output, locals } = self;
        proof { lemma_group_upsert(group_entries(resource@), resource_type@, name@, config); }
        set_in_group(&mut resource, String::from_str(resource_type), String::from_str(name), config);
        TerraformConfig { terraform, provider, resource, data, variable, output, locals }
    }

    /// Add a data source (replacing one of the same type and name).
    pub fn data(self, data_type: &str, name: &str, config: Value) -> (r: Self)
        ensures
            r@ == (ConfigModel { data: group_upsert(self@.data, data_type@, name@, config), ..self@ }),
            groups_map(r@.data) == groups_map(self@.data).insert(
                data_type@,
                (if groups_map(self@.data).dom().contains(data_type@) {
                    groups_map(self@.data)[data_type@]
                } else {
                    Map::empty()
                }).insert(name@, config),
            ),
    {
        proof { use_type_invariant(&self); }
        let TerraformConfig { terraform, provider, resource, mut data, variable, output, locals } = self;
        proof { lemma_group_upsert(group_entries(data@), data_type@, name@, config); }
        set_in_group(&mut data, String::from_str(data_type), String::from_str(name), config);
        TerraformConfig { terraform, provider, resource, data, variable, output, locals }
    }

    /// Add a variable (replacing one of the same name).
    pub fn variable(self, name: &str, config: Value) -> (r: Self)
        ensures
            r@ == (ConfigModel { variable: upsert(self@.variable, name@, config), ..self@ }),
            pairs_map(r@.variable) == pairs_map(self@.variable).insert(name@, config),
    {
        proof { use_type_invariant(&self); }
        let TerraformConfig { terraform, provider, resource, data, mut variable, output, locals } = self;
        proof { lemma_upsert_is_insert(entries(variable@), name@, config); }
        set_entry(&mut variable, String::from_str(name), config);
        TerraformConfig { terraform, provider, resource, data, variable, output, locals }
    }

    /// Add an output (replacing one of the same name).
    pub fn output(self, name: &str, config: Value) -> (r: Self)
        ensures
            r@ == (ConfigModel { output: upsert(self@.output, name@, config), ..self@ }),
            pairs_map(r@.output) == pairs_map(self@.output).insert(name@, config),
    {
        proof { use_type_invariant(&self); }
        let TerraformConfig { terraform, provider, resource, data, variable, mut output, locals } = self;
        proof { lemma_upsert_is_insert(entries(output@), name@, config); }
        set_entry(&mut output, String::from_str(name), config);
        TerraformConfig { terraform, provider, resource, data, variable, output, locals }
    }

    /// Add a local value (replacing one of the same name).
    pub fn local(self, name: &str, value: Value) -> (r: Self)
        ensures
            r@ == (ConfigModel { locals: upsert(self@.locals, name@, value), ..self@ }),
            pairs_map(r@.locals) == pairs_map(self@.locals).insert(name@, value),
    {
        proof { use_type_invariant(&self); }
        let TerraformConfig { terraform, provider, resource, data, variable, output, mut locals } = self;
        proof { lemma_upsert_is_insert(entries(locals@), name@, value); }
        set_entry(&mut locals, String::from_str(name), value);
        TerraformConfig { terraform, provider, resource, data, variable, output, locals }
    }

    /// The `terraform` block, if one was started.
    pub fn terraform_block(&self) -> (r: Option<&TerraformBlock>)
        ensures
            match r {
                Some(b) => self@.terraform == Some(b.model()),
                None => self@.terraform is None,
            },
    {
        match &self.terraform {
            Some(b) => Some(b),
            None => None,
        }
    }

    /// The provider configurations, by name.
    pub fn providers(&self) -> (r: &Vec<(String, Value)>)
        ensures
            entries(r@) == self@.provider,
    {
        &self.provider
    }

    /// The managed resources, by type and then by name.
    pub fn resources(&self) -> (r: &Vec<(String, Vec<(String, Value)>)>)
        ensures
            group_entries(r@) == self@.resource,
    {
        &self.resource
    }

    /// The data sources, by type and then by name.
    pub fn data_sources(&self) -> (r: &Vec<(String, Vec<(String, Value)>)>)
        ensures
            group_entries(r@) == self@.data,
    {
        &self.data
    }

    /// The variables, by name.
    pub fn variables(&self) -> (r: &Vec<(String, Value)>)
        ensures
            entries(r@) == self@.variable,
    {
        &self.variable
    }

    /// The outputs, by name.
    pub fn outputs(&self) -> (r: &Vec<(String, Value)>)
        ensures
            entries(r@) == self@.output,
    {
        &self.output
    }

    /// The local values, by name.
    pub fn local_values(&self) -> (r: &Vec<(String, Value)>)
        ensures
            entries(r@) == self@.locals,
    {
        &self.locals
    }
}

} // verus!
