use vstd::prelude::*;
use vstd::string::StringExecFns;

use crate::mtp::depth::MtpDraftDepth;
use crate::text::{contains_subsequence, str_contains};

verus! {

/// Bounded artifact reason that keeps optional MTP target-only.
#[derive(Clone, Debug, PartialEq, Eq)]
pub enum Qwen3_5MtpTargetOnlyReason {
    NoTensorInventory,
    UnsupportedStoredLayerCount,
    IncompleteTensorInventory,
    UnexpectedTensorInventory,
    SidecarUnavailable,
    CanonicalTensorCollision,
    TensorValidationFailed,
    /// The declared MTP sidecar could not be validated; the contained diagnostic is the
    /// human-readable cause (missing tensor, dtype/shape mismatch, target collision).
    SidecarValidationFailed(String),
    ContractMalformed,
    ContractRuntimeDocumentTooLarge,
    ContractFieldDisagreement,
    ContractIncompatible,
}

/// Human-readable text of a target-only reason.
pub open spec fn target_only_reason_text(reason: Qwen3_5MtpTargetOnlyReason) -> Seq<char> {
    match reason {
        Qwen3_5MtpTargetOnlyReason::NoTensorInventory => "model has no MTP tensor inventory"@,
        Qwen3_5MtpTargetOnlyReason::UnsupportedStoredLayerCount => "model does not contain exactly one supported MTP layer"@,
        Qwen3_5MtpTargetOnlyReason::IncompleteTensorInventory => "MTP tensor inventory is incomplete"@,
        Qwen3_5MtpTargetOnlyReason::UnexpectedTensorInventory => "MTP tensor inventory contains unsupported tensors"@,
        Qwen3_5MtpTargetOnlyReason::SidecarUnavailable => "declared MTP sidecar is unavailable"@,
        Qwen3_5MtpTargetOnlyReason::CanonicalTensorCollision => "MTP tensors have conflicting canonical ownership"@,
        Qwen3_5MtpTargetOnlyReason::TensorValidationFailed => "MTP tensor validation failed"@,
        Qwen3_5MtpTargetOnlyReason::SidecarValidationFailed(diagnostic) => diagnostic@,
        Qwen3_5MtpTargetOnlyReason::ContractMalformed => "optional MTP contract is malformed"@,
        Qwen3_5MtpTargetOnlyReason::ContractRuntimeDocumentTooLarge => "optional MTP runtime metadata exceeds 64 KB"@,
        Qwen3_5MtpTargetOnlyReason::ContractFieldDisagreement => "duplicated optional MTP contract fields disagree"@,
        Qwen3_5MtpTargetOnlyReason::ContractIncompatible => "optional MTP contract uses unsupported execution semantics"@,
    }
}

impl Qwen3_5MtpTargetOnlyReason {
    /// The human-readable text shown in status reports.
    pub fn description(&self) -> (text: String)
        ensures
            text@ == target_only_reason_text(*self),
    {
        match self {
            Qwen3_5MtpTargetOnlyReason::NoTensorInventory => String::from_str("model has no MTP tensor inventory"),
            Qwen3_5MtpTargetOnlyReason::UnsupportedStoredLayerCount => String::from_str(
                "model does not contain exactly one supported MTP layer",
            ),
            Qwen3_5MtpTargetOnlyReason::IncompleteTensorInventory => String::from_str("MTP tensor inventory is incomplete"),
            Qwen3_5MtpTargetOnlyReason::UnexpectedTensorInventory => String::from_str(
                "MTP tensor inventory contains unsupported tensors",
            ),
            Qwen3_5MtpTargetOnlyReason::SidecarUnavailable => String::from_str("declared MTP sidecar is unavailable"),
            Qwen3_5MtpTargetOnlyReason::CanonicalTensorCollision => String::from_str(
                "MTP tensors have conflicting canonical ownership",
            ),
            Qwen3_5MtpTargetOnlyReason::TensorValidationFailed => String::from_str("MTP tensor validation failed"),
            Qwen3_5MtpTargetOnlyReason::SidecarValidationFailed(diagnostic) => diagnostic.clone(),
            Qwen3_5MtpTargetOnlyReason::ContractMalformed => String::from_str("optional MTP contract is malformed"),
            Qwen3_5MtpTargetOnlyReason::ContractRuntimeDocumentTooLarge => String::from_str(
                "optional MTP runtime metadata exceeds 64 KB",
            ),
            Qwen3_5MtpTargetOnlyReason::ContractFieldDisagreement => String::from_str(
                "duplicated optional MTP contract fields disagree",
            ),
            Qwen3_5MtpTargetOnlyReason::ContractIncompatible => String::from_str(
                "optional MTP contract uses unsupported execution semantics",
            ),
        }
    }

    /// An equal copy of this reason.
    pub fn duplicate(&self) -> (copy: Self)
        ensures
            copy == *self,
    {
        match self {
            Qwen3_5MtpTargetOnlyReason::NoTensorInventory => Qwen3_5MtpTargetOnlyReason::NoTensorInventory,
            Qwen3_5MtpTargetOnlyReason::UnsupportedStoredLayerCount => Qwen3_5MtpTargetOnlyReason::UnsupportedStoredLayerCount,
            Qwen3_5MtpTargetOnlyReason::IncompleteTensorInventory => Qwen3_5MtpTargetOnlyReason::IncompleteTensorInventory,
            Qwen3_5MtpTargetOnlyReason::UnexpectedTensorInventory => Qwen3_5MtpTargetOnlyReason::UnexpectedTensorInventory,
            Qwen3_5MtpTargetOnlyReason::SidecarUnavailable => Qwen3_5MtpTargetOnlyReason::SidecarUnavailable,
            Qwen3_5MtpTargetOnlyReason::CanonicalTensorCollision => Qwen3_5MtpTargetOnlyReason::CanonicalTensorCollision,
            Qwen3_5MtpTargetOnlyReason::TensorValidationFailed => Qwen3_5MtpTargetOnlyReason::TensorValidationFailed,
            Qwen3_5MtpTargetOnlyReason::SidecarValidationFailed(diagnostic) => Qwen3_5MtpTargetOnlyReason::SidecarValidationFailed(
                diagnostic.clone(),
            ),
            Qwen3_5MtpTargetOnlyReason::ContractMalformed => Qwen3_5MtpTargetOnlyReason::ContractMalformed,
            Qwen3_5MtpTargetOnlyReason::ContractRuntimeDocumentTooLarge => Qwen3_5MtpTargetOnlyReason::ContractRuntimeDocumentTooLarge,
            Qwen3_5MtpTargetOnlyReason::ContractFieldDisagreement => Qwen3_5MtpTargetOnlyReason::ContractFieldDisagreement,
            Qwen3_5MtpTargetOnlyReason::ContractIncompatible => Qwen3_5MtpTargetOnlyReason::ContractIncompatible,
        }
    }
}

/// How the artifact physically stores the MTP head's routed experts.
#[derive(Clone, Copy, Debug, PartialEq, Eq, Structural)]
pub enum Qwen3_5MtpExpertsLayout {
    /// Routed experts packed as `switch_mlp.{gate,up,down}_proj` tensors inside target
    /// shards; the shared expert pager owns them.
    PackedSwitchMlp,
    /// Routed experts stored per-expert as one fused `mlp.experts.gate_up_proj` plus one
    /// `mlp.experts.down_proj` inside the architecture sidecar.
    SidecarFusedPerExpert,
}

/// Depths an optional MTP contract declares for the artifact.
#[derive(Clone, Copy, Debug, PartialEq, Eq, Structural)]
pub struct Qwen3_5MtpContractDepths {
    pub artifact_maximum_depth: Option<MtpDraftDepth>,
    pub artifact_default_depth: Option<MtpDraftDepth>,
}

/// Set of canonical tensor names; no name occurs twice.
#[derive(Debug)]
pub struct TensorNameSet {
    names: Vec<String>,
}

/// The character views of a list of names.
pub open spec fn name_views(names: Seq<String>) -> Seq<Seq<char>> {
    names.map_values(|name: String| name@)
}

impl View for TensorNameSet {
    type V = Set<Seq<char>>;

    closed spec fn view(&self) -> Set<Seq<char>> {
        name_views(self.names@).to_set()
    }
}

impl TensorNameSet {
    #[verifier::type_invariant]
    spec fn names_are_distinct(self) -> bool {
        name_views(self.names@).no_duplicates()
    }

    /// The empty set.
    pub fn new() -> (set: Self)
        ensures
            set@ == Set::<Seq<char>>::empty(),
    {
        let set = TensorNameSet { names: Vec::new() };
        assert(name_views(set.names@).to_set() =~= Set::<Seq<char>>::empty());
        set
    }

    /// Whether `name` is in the set.
    pub fn contains(&self, name: &str) -> (found: bool)
        ensures
            found == self@.contains(name@),
    {
        let target = name.to_owned();
        let mut index: usize = 0;
        while index < self.names.len()
            invariant
                index <= self.names@.len(),
                target@ == name@,
                forall|j: int| 0 <= j < index ==> self.names@[j]@ != name@,
            decreases self.names.len() - index,
        {
            if self.names[index] == target {
                assert(name_views(self.names@)[index as int] == name@);
                return true;
            }
            index += 1;
        }
        assert(!name_views(self.names@).contains(name@));
        false
    }

    /// Inserts `name`; returns whether it was not yet present.
    pub fn insert(&mut self, name: String) -> (inserted: bool)
        ensures
            final(self)@ == old(self)@.insert(name@),
            inserted == !old(self)@.contains(name@),
    {
        proof {
            use_type_invariant(&*self);
        }
        if self.contains(name.as_str()) {
            assert(old(self)@.insert(name@) =~= old(self)@);
            return false;
        }
        let ghost old_views = name_views(self.names@);
        let mut names = Vec::new();
        std::mem::swap(&mut names, &mut self.names);
        names.push(name);
        proof {
            let new_views = name_views(names@);
            assert(new_views =~= old_views.push(name@));
            assert(!old_views.contains(name@));
            assert forall|a: Seq<char>| new_views.contains(a) <==> (old_views.contains(a) || a == name@) by {
                if new_views.contains(a) {
                    let j = choose|j: int| 0 <= j < new_views.len() && new_views[j] == a;
                    if j < old_views.len() {
                        assert(old_views[j] == a);
                    }
                }
                if old_views.contains(a) {
                    let j = choose|j: int| 0 <= j < old_views.len() && old_views[j] == a;
                    assert(new_views[j] == a);
                }
                if a == name@ {
                    assert(new_views[old_views.len() as int] == a);
                }
            }
            assert(new_views.to_set() =~= old_views.to_set().insert(name@));
            assert(new_views.no_duplicates());
        }
        self.names = names;
        true
    }

    /// Number of distinct names.
    pub fn len(&self) -> (count: usize)
        ensures
            count == self@.len(),
    {
        proof {
            use_type_invariant(self);
            name_views(self.names@).unique_seq_to_set();
        }
        self.names.len()
    }

    /// Whether the set holds no name.
    pub fn is_empty(&self) -> (empty: bool)
        ensures
            empty == (self@.len() == 0),
    {
        self.len() == 0
    }

    /// Whether some name in the set contains `pattern`.
    fn any_contains(&self, pattern: &str) -> (found: bool)
        ensures
            found == exists|name: Seq<char>| self@.contains(name) && contains_subsequence(name, pattern@),
    {
        let mut index: usize = 0;
        while index < self.names.len()
            invariant
                index <= self.names@.len(),
                forall|j: int| 0 <= j < index ==> !contains_subsequence(#[trigger] name_views(self.names@)[j], pattern@),
            decreases self.names.len() - index,
        {
            if str_contains(self.names[index].as_str(), pattern) {
                assert(self@.contains(name_views(self.names@)[index as int]));
                return true;
            }
            index += 1;
        }
        assert forall|name: Seq<char>| self@.contains(name) implies !contains_subsequence(name, pattern@) by {
            let j = choose|j: int| 0 <= j < name_views(self.names@).len() && name_views(self.names@)[j] == name;
        }
        false
    }
}

/// Canonical sidecar tensor name of the fused per-expert gate/up matrix.
pub open spec fn sidecar_fused_gate_up_tensor_name() -> Seq<char> {
    "language_model.mtp.layers.0.mlp.experts.gate_up_proj"@
}

/// Canonical sidecar tensor name of the fused per-expert down projection.
pub open spec fn sidecar_fused_down_tensor_name() -> Seq<char> {
    "language_model.mtp.layers.0.mlp.experts.down_proj"@
}

/// Marker of tensors in the packed `switch_mlp` expert namespace.
pub open spec fn packed_switch_mlp_marker() -> Seq<char> {
    ".mlp.switch_mlp."@
}

/// Whether the actual inventory proves the sidecar's fused per-expert layout: it holds
/// the fused gate/up matrix and no packed `switch_mlp` tensor.
pub open spec fn inventory_uses_fused_layout(actual: Set<Seq<char>>) -> bool {
    actual.contains(sidecar_fused_gate_up_tensor_name()) && !(exists|name: Seq<char>|
        actual.contains(name) && contains_subsequence(name, packed_switch_mlp_marker()))
}

/// Tensor names the layout requires: the packed inventory, or (fused layout) the packed
/// inventory without `switch_mlp` tensors plus the two fused expert tensors.
pub open spec fn expected_mtp_tensor_names(packed: Set<Seq<char>>, fused: bool) -> Set<Seq<char>> {
    if fused {
        packed.filter(|name: Seq<char>| !contains_subsequence(name, packed_switch_mlp_marker())).insert(
            sidecar_fused_gate_up_tensor_name(),
        ).insert(sidecar_fused_down_tensor_name())
    } else {
        packed
    }
}

pub open spec fn depth_views(depth: Option<MtpDraftDepth>) -> Option<u8> {
    match depth {
        Some(d) => Some(d@),
        None => None,
    }
}

/// The contract's default depth, dropped when it exceeds the contract's maximum.
pub open spec fn admissible_default_depth(maximum: Option<u8>, default: Option<u8>) -> Option<u8> {
    match default {
        Some(d) => match maximum {
            Some(m) => if d <= m {
                Some(d)
            } else {
                None
            },
            None => Some(d),
        },
        None => None,
    }
}

/// Data-driven MTP capability discovered from the validated artifact inventory.
#[derive(Clone, Debug, PartialEq, Eq)]
pub enum Qwen3_5MtpArtifactCapability {
    TargetOnly { reason: Qwen3_5MtpTargetOnlyReason },
    MtpCapable {
        stored_mtp_layer_count: usize,
        artifact_maximum_draft_depth: Option<MtpDraftDepth>,
        artifact_default_draft_depth: Option<MtpDraftDepth>,
        mtp_tensor_count: usize,
        mtp_experts_layout: Qwen3_5MtpExpertsLayout,
    },
}

/// Exact classification of an MTP tensor inventory.
pub open spec fn classification_is(
    capability: Qwen3_5MtpArtifactCapability,
    mtp_layer_count: u32,
    packed: Set<Seq<char>>,
    actual: Set<Seq<char>>,
    contract: Option<Qwen3_5MtpContractDepths>,
) -> bool {
    let fused = inventory_uses_fused_layout(actual);
    let expected = expected_mtp_tensor_names(packed, fused);
    let maximum = match contract {
        Some(c) => depth_views(c.artifact_maximum_depth),
        None => None,
    };
    let default = match contract {
        Some(c) => depth_views(c.artifact_default_depth),
        None => None,
    };
    if actual.len() == 0 {
        capability == Qwen3_5MtpArtifactCapability::TargetOnly {
            reason: Qwen3_5MtpTargetOnlyReason::NoTensorInventory,
        }
    } else if mtp_layer_count != 1 {
        capability == Qwen3_5MtpArtifactCapability::TargetOnly {
            reason: Qwen3_5MtpTargetOnlyReason::UnsupportedStoredLayerCount,
        }
    } else if !actual.subset_of(expected) {
        capability == Qwen3_5MtpArtifactCapability::TargetOnly {
            reason: Qwen3_5MtpTargetOnlyReason::UnexpectedTensorInventory,
        }
    } else if !expected.subset_of(actual) {
        capability == Qwen3_5MtpArtifactCapability::TargetOnly {
            reason: Qwen3_5MtpTargetOnlyReason::IncompleteTensorInventory,
        }
    } else {
        capability matches Qwen3_5MtpArtifactCapability::MtpCapable {
            stored_mtp_layer_count,
            artifact_maximum_draft_depth,
            artifact_default_draft_depth,
            mtp_tensor_count,
            mtp_experts_layout,
        } && stored_mtp_layer_count == 1 && depth_views(artifact_maximum_draft_depth) == maximum
            && depth_views(artifact_default_draft_depth) == admissible_default_depth(maximum, default)
            && mtp_tensor_count == actual.len() && mtp_experts_layout == (if fused {
            Qwen3_5MtpExpertsLayout::SidecarFusedPerExpert
        } else {
            Qwen3_5MtpExpertsLayout::PackedSwitchMlp
        })
    }
}


proof fn lemma_expected_membership(packed: Set<Seq<char>>, fused: bool, name: Seq<char>)
    ensures
        expected_mtp_tensor_names(packed, fused).contains(name) == (if fused {
            name == sidecar_fused_gate_up_tensor_name() || name == sidecar_fused_down_tensor_name() || (
            packed.contains(name) && !contains_subsequence(name, packed_switch_mlp_marker()))
        } else {
            packed.contains(name)
        }),
{
}

/// Whether `name` is one of `names`.
fn names_contain(names: &[String], name: &String) -> (found: bool)
    ensures
        found == name_views(names@).to_set().contains(name@),
{
    let mut index: usize = 0;
    while index < names.len()
        invariant
            index <= names@.len(),
            forall|j: int| 0 <= j < index ==> names@[j]@ != name@,
        decreases names.len() - index,
    {
        if names[index] == *name {
            assert(name_views(names@)[index as int] == name@);
            return true;
        }
        index += 1;
    }
    assert(!name_views(names@).contains(name@));
    false
}

pub open spec fn optional_contract_view(contract: Option<&Qwen3_5MtpContractDepths>) -> Option<Qwen3_5MtpContractDepths> {
    match contract {
        Some(c) => Some(*c),
        None => None,
    }
}

impl Qwen3_5MtpArtifactCapability {
    /// A target-only capability for `reason`.
    pub fn target_only(reason: Qwen3_5MtpTargetOnlyReason) -> (capability: Self)
        ensures
            capability == (Qwen3_5MtpArtifactCapability::TargetOnly { reason }),
    {
        Qwen3_5MtpArtifactCapability::TargetOnly { reason }
    }

    /// Classifies MTP capability from the shard index's MTP tensor inventory only,
    /// without an optional contract.
    pub fn from_shard_index(
        mtp_layer_count: u32,
        expected_packed_mtp_tensor_names: &[String],
        shard_index_mtp_tensor_names: &[String],
    ) -> (capability: Self)
        ensures
            classification_is(
                capability,
                mtp_layer_count,
                name_views(expected_packed_mtp_tensor_names@).to_set(),
                name_views(shard_index_mtp_tensor_names@).to_set(),
                None,
            ),
    {
        let mut actual_mtp_tensor_names = TensorNameSet::new();
        let mut index: usize = 0;
        while index < shard_index_mtp_tensor_names.len()
            invariant
                index <= shard_index_mtp_tensor_names@.len(),
                actual_mtp_tensor_names@ == name_views(shard_index_mtp_tensor_names@.subrange(0, index as int)).to_set(),
            decreases shard_index_mtp_tensor_names.len() - index,
        {
            let ghost before = actual_mtp_tensor_names@;
            actual_mtp_tensor_names.insert(shard_index_mtp_tensor_names[index].clone());
            proof {
                let prefix = name_views(shard_index_mtp_tensor_names@.subrange(0, index as int));
                let extended = name_views(shard_index_mtp_tensor_names@.subrange(0, index + 1));
                assert(extended =~= prefix.push(shard_index_mtp_tensor_names@[index as int]@));
                assert forall|a: Seq<char>| extended.contains(a) <==> (prefix.contains(a) || a
                    == shard_index_mtp_tensor_names@[index as int]@) by {
                    if extended.contains(a) {
                        let j = choose|j: int| 0 <= j < extended.len() && extended[j] == a;
                        if j < prefix.len() {
                            assert(prefix[j] == a);
                        }
                    }
                    if prefix.contains(a) {
                        let j = choose|j: int| 0 <= j < prefix.len() && prefix[j] == a;
                        assert(extended[j] == a);
                    }
                    if a == shard_index_mtp_tensor_names@[index as int]@ {
                        assert(extended[index as int] == a);
                    }
                }
                assert(actual_mtp_tensor_names@ =~= extended.to_set());
            }
            index += 1;
        }
        assert(shard_index_mtp_tensor_names@.subrange(0, index as int) =~= shard_index_mtp_tensor_names@);
        Self::from_canonical_tensor_names(
            mtp_layer_count,
            expected_packed_mtp_tensor_names,
            &actual_mtp_tensor_names,
            None,
        )
    }

    /// Classifies capability from canonical names independent of physical storage.
    ///
    /// The inventory must be exactly the expected names of the layout it proves: the
    /// packed `switch_mlp` inventory, or the sidecar's fused per-expert inventory.
    pub fn from_canonical_tensor_names(
        mtp_layer_count: u32,
        expected_packed_mtp_tensor_names: &[String],
        actual_mtp_tensor_names: &TensorNameSet,
        optional_contract: Option<&Qwen3_5MtpContractDepths>,
    ) -> (capability: Self)
        ensures
            classification_is(
                capability,
                mtp_layer_count,
                name_views(expected_packed_mtp_tensor_names@).to_set(),
                actual_mtp_tensor_names@,
                optional_contract_view(optional_contract),
            ),
    {
        let ghost packed = name_views(expected_packed_mtp_tensor_names@).to_set();
        let ghost actual = actual_mtp_tensor_names@;
        if actual_mtp_tensor_names.is_empty() {
            return Self::target_only(Qwen3_5MtpTargetOnlyReason::NoTensorInventory);
        }
        if mtp_layer_count != 1 {
            return Self::target_only(Qwen3_5MtpTargetOnlyReason::UnsupportedStoredLayerCount);
        }
        let gate_up_name = String::from_str("language_model.mtp.layers.0.mlp.experts.gate_up_proj");
        let down_name = String::from_str("language_model.mtp.layers.0.mlp.experts.down_proj");
        let fused = actual_mtp_tensor_names.contains(gate_up_name.as_str())
            && !actual_mtp_tensor_names.any_contains(".mlp.switch_mlp.");
        assert(fused == inventory_uses_fused_layout(actual));
        let ghost expected = expected_mtp_tensor_names(packed, fused);

        // Every actual name must be expected.
        let names = &actual_mtp_tensor_names.names;
        let mut index: usize = 0;
        while index < names.len()
            invariant
                index <= names@.len(),
                actual.len() != 0,
                mtp_layer_count == 1,
                fused == inventory_uses_fused_layout(actual),
                actual == actual_mtp_tensor_names@,
                actual == name_views(names@).to_set(),
                packed == name_views(expected_packed_mtp_tensor_names@).to_set(),
                expected == expected_mtp_tensor_names(packed, fused),
                gate_up_name@ == sidecar_fused_gate_up_tensor_name(),
                down_name@ == sidecar_fused_down_tensor_name(),
                forall|j: int| 0 <= j < index ==> expected.contains(#[trigger] name_views(names@)[j]),
            decreases names.len() - index,
        {
            let name = &names[index];
            let is_expected = if fused {
                *name == gate_up_name || *name == down_name || (names_contain(
                    expected_packed_mtp_tensor_names,
                    name,
                ) && !str_contains(name.as_str(), ".mlp.switch_mlp."))
            } else {
                names_contain(expected_packed_mtp_tensor_names, name)
            };
            assert(name_views(names@)[index as int] == name@);
            proof {
                lemma_expected_membership(packed, fused, name@);
            }
            assert(is_expected == expected.contains(name@));
            if !is_expected {
                assert(actual.contains(name@));
                assert(!actual.subset_of(expected));
                return Self::target_only(Qwen3_5MtpTargetOnlyReason::UnexpectedTensorInventory);
            }
            index += 1;
        }
        assert(actual.subset_of(expected)) by {
            assert forall|a: Seq<char>| actual.contains(a) implies expected.contains(a) by {
                let j = choose|j: int| 0 <= j < name_views(names@).len() && name_views(names@)[j] == a;
            }
        }

        // Every expected name must be present.
        if fused && !actual_mtp_tensor_names.contains(down_name.as_str()) {
            assert(expected.contains(sidecar_fused_down_tensor_name()));
            return Self::target_only(Qwen3_5MtpTargetOnlyReason::IncompleteTensorInventory);
        }
        let mut index: usize = 0;
        while index < expected_packed_mtp_tensor_names.len()
            invariant
                index <= expected_packed_mtp_tensor_names@.len(),
                actual.len() != 0,
                mtp_layer_count == 1,
                fused == inventory_uses_fused_layout(actual),
                actual.subset_of(expected),
                fused ==> actual.contains(sidecar_fused_gate_up_tensor_name()) && actual.contains(
                    sidecar_fused_down_tensor_name(),
                ),
                actual == actual_mtp_tensor_names@,
                packed == name_views(expected_packed_mtp_tensor_names@).to_set(),
                expected == expected_mtp_tensor_names(packed, fused),
                forall|j: int|
                    0 <= j < index && expected.contains(#[trigger] name_views(expected_packed_mtp_tensor_names@)[j])
                        ==> actual.contains(name_views(expected_packed_mtp_tensor_names@)[j]),
            decreases expected_packed_mtp_tensor_names.len() - index,
        {
            let name = &expected_packed_mtp_tensor_names[index];
            let is_required = !fused || !str_contains(name.as_str(), ".mlp.switch_mlp.");
            assert(name_views(expected_packed_mtp_tensor_names@)[index as int] == name@);
            assert(packed.contains(name@));
            proof {
                lemma_expected_membership(packed, fused, name@);
            }
            if is_required && !actual_mtp_tensor_names.contains(name.as_str()) {
                assert(expected.contains(name@));
                assert(!expected.subset_of(actual));
                return Self::target_only(Qwen3_5MtpTargetOnlyReason::IncompleteTensorInventory);
            }
            assert(expected.contains(name@) ==> actual.contains(name@));
            index += 1;
        }
        assert(expected.subset_of(actual)) by {
            assert forall|a: Seq<char>| expected.contains(a) implies actual.contains(a) by {
                lemma_expected_membership(packed, fused, a);
                if packed.contains(a) && (!fused || !contains_subsequence(a, packed_switch_mlp_marker())) {
                    let j = choose|j: int|
                        0 <= j < name_views(expected_packed_mtp_tensor_names@).len() && name_views(
                            expected_packed_mtp_tensor_names@,
                        )[j] == a;
                }
            }
        }

        let (artifact_maximum_draft_depth, contract_default_depth) = match optional_contract {
            Some(contract) => (contract.artifact_maximum_depth, contract.artifact_default_depth),
            None => (None, None),
        };
        let artifact_default_draft_depth = match contract_default_depth {
            Some(default_depth) => match artifact_maximum_draft_depth {
                Some(maximum_depth) => if default_depth.get() <= maximum_depth.get() {
                    Some(default_depth)
                } else {
                    None
                },
                None => Some(default_depth),
            },
            None => None,
        };
        Qwen3_5MtpArtifactCapability::MtpCapable {
            stored_mtp_layer_count: 1,
            artifact_maximum_draft_depth,
            artifact_default_draft_depth,
            mtp_tensor_count: actual_mtp_tensor_names.len(),
            mtp_experts_layout: if fused {
                Qwen3_5MtpExpertsLayout::SidecarFusedPerExpert
            } else {
                Qwen3_5MtpExpertsLayout::PackedSwitchMlp
            },
        }
    }

    pub fn is_mtp_capable(&self) -> (capable: bool)
        ensures
            capable == (*self is MtpCapable),
    {
        match self {
            Qwen3_5MtpArtifactCapability::MtpCapable { .. } => true,
            Qwen3_5MtpArtifactCapability::TargetOnly { .. } => false,
        }
    }

    pub fn target_only_reason(&self) -> (reason: Option<Qwen3_5MtpTargetOnlyReason>)
        ensures
            *self is TargetOnly ==> reason == Some(self->reason),
            *self is MtpCapable ==> reason is None,
    {
        match self {
            Qwen3_5MtpArtifactCapability::TargetOnly { reason } => Some(reason.duplicate()),
            Qwen3_5MtpArtifactCapability::MtpCapable { .. } => None,
        }
    }

    pub fn artifact_maximum_draft_depth(&self) -> (depth: Option<MtpDraftDepth>)
        ensures
            *self is MtpCapable ==> depth == self->artifact_maximum_draft_depth,
            *self is TargetOnly ==> depth is None,
    {
        match self {
            Qwen3_5MtpArtifactCapability::MtpCapable { artifact_maximum_draft_depth, .. } => *artifact_maximum_draft_depth,
            Qwen3_5MtpArtifactCapability::TargetOnly { .. } => None,
        }
    }

    pub fn artifact_default_draft_depth(&self) -> (depth: Option<MtpDraftDepth>)
        ensures
            *self is MtpCapable ==> depth == self->artifact_default_draft_depth,
            *self is TargetOnly ==> depth is None,
    {
        match self {
            Qwen3_5MtpArtifactCapability::MtpCapable { artifact_default_draft_depth, .. } => *artifact_default_draft_depth,
            Qwen3_5MtpArtifactCapability::TargetOnly { .. } => None,
        }
    }

    /// Returns how the artifact stores the MTP head's routed experts.
    pub fn mtp_experts_layout(&self) -> (layout: Option<Qwen3_5MtpExpertsLayout>)
        ensures
            *self is MtpCapable ==> layout == Some(self->mtp_experts_layout),
            *self is TargetOnly ==> layout is None,
    {
        match self {
            Qwen3_5MtpArtifactCapability::MtpCapable { mtp_experts_layout, .. } => Some(*mtp_experts_layout),
            Qwen3_5MtpArtifactCapability::TargetOnly { .. } => None,
        }
    }
}

/// Capability law: an inventory is MTP-capable exactly when it is non-empty, stores one
/// MTP layer, and holds exactly the tensors its layout requires. A capable artifact
/// reports the contract's maximum depth and the contract's default depth unless that
/// default exceeds the maximum (then it reports none), so a reported default never
/// exceeds a reported maximum; it counts every inventory tensor.
pub proof fn lemma_capable_artifact_reports_an_admissible_default(
    capability: Qwen3_5MtpArtifactCapability,
    mtp_layer_count: u32,
    packed: Set<Seq<char>>,
    actual: Set<Seq<char>>,
    contract: Option<Qwen3_5MtpContractDepths>,
)
    requires
        classification_is(capability, mtp_layer_count, packed, actual, contract),
    ensures
        (capability is MtpCapable) <==> (actual.len() > 0 && mtp_layer_count == 1 && actual
            == expected_mtp_tensor_names(packed, inventory_uses_fused_layout(actual))),
        capability matches Qwen3_5MtpArtifactCapability::MtpCapable {
            stored_mtp_layer_count,
            artifact_maximum_draft_depth,
            artifact_default_draft_depth,
            mtp_tensor_count,
            ..
        } ==> {
            &&& stored_mtp_layer_count == 1
            &&& mtp_tensor_count == actual.len()
            &&& contract is None ==> artifact_maximum_draft_depth is None && artifact_default_draft_depth is None
            &&& contract matches Some(c) ==> {
                &&& depth_views(artifact_maximum_draft_depth) == depth_views(c.artifact_maximum_depth)
                &&& depth_views(c.artifact_default_depth) matches Some(d) ==> (depth_views(
                    c.artifact_maximum_depth,
                ) matches Some(m) && d > m ==> artifact_default_draft_depth is None)
                &&& depth_views(c.artifact_default_depth) matches Some(d) ==> ((depth_views(
                    c.artifact_maximum_depth,
                ) is None || d <= depth_views(c.artifact_maximum_depth)->0) ==> depth_views(
                    artifact_default_draft_depth,
                ) == Some(d))
                &&& c.artifact_default_depth is None ==> artifact_default_draft_depth is None
            }
            &&& depth_views(artifact_default_draft_depth) matches Some(d) ==> (depth_views(
                artifact_maximum_draft_depth,
            ) matches Some(m) ==> d <= m)
        },
{
    let expected = expected_mtp_tensor_names(packed, inventory_uses_fused_layout(actual));
    if actual.subset_of(expected) && expected.subset_of(actual) {
        assert(actual =~= expected);
    }
}

} // verus!
