//! Multi-token prediction runtime-state reporting and depth resolution.

use vstd::prelude::*;
use vstd::string::StringExecFns;

use crate::mtp::artifact::{Qwen3_5MtpArtifactCapability, target_only_reason_text};
use crate::mtp::depth::MtpDraftDepth;

verus! {

/// Runtime execution state of native MTP, distinct from the user preference.
#[derive(Clone, Copy, Debug, PartialEq, Eq, Structural)]
pub enum Qwen3_5MtpRuntimeState {
    /// The user preference is disabled.
    Disabled,
    /// The preference is enabled but the artifact has no compatible inventory.
    TargetOnly,
    /// The compatible head was loaded and native MTP is available.
    Active,
    /// The artifact advertised MTP but optional initialization failed.
    Unavailable,
}

/// Bounded reason why MTP is unavailable for one request.
#[derive(Clone, Copy, Debug, PartialEq, Eq, Structural)]
pub enum Qwen3_5MtpUnavailableReason {
    /// The model has no compatible MTP head.
    NoCompatibleHead,
}

impl Qwen3_5MtpUnavailableReason {
    /// The human-readable text shown in status reports.
    pub fn description(&self) -> (text: String)
        ensures
            text@ == "no compatible MTP head"@,
    {
        String::from_str("no compatible MTP head")
    }
}

/// Why the resolved depth differs from automatic guidance.
#[derive(Clone, Copy, Debug, PartialEq, Eq, Structural)]
pub enum MtpDepthResolutionReason {
    /// The requested depth exceeded the artifact maximum and was clamped.
    ConfiguredDepthClampedToArtifactMaximum,
    /// A configured depth above one was kept without artifact guidance.
    ConfiguredDepthExceedsAutomaticGuidance,
}

/// Configured, artifact, requested, capped and executable MTP depths.
#[derive(Clone, Copy, Debug, PartialEq, Eq, Structural)]
pub struct MtpDepthStatus {
    pub configured_draft_depth: Option<u8>,
    pub artifact_maximum_draft_depth: Option<u8>,
    pub artifact_default_draft_depth: Option<u8>,
    pub resolved_requested_draft_depth: Option<u8>,
    pub capped_draft_depth: Option<u8>,
    pub effective_execution_draft_depth: Option<u8>,
    pub resolution_reason: Option<MtpDepthResolutionReason>,
}

pub open spec fn depth_value(depth: Option<MtpDraftDepth>) -> Option<u8> {
    match depth {
        Some(d) => Some(d@),
        None => None,
    }
}

/// Requested depth: the configured depth, else the artifact default, else one.
pub open spec fn resolved_depth(configured: Option<u8>, artifact_default: Option<u8>) -> u8 {
    match configured {
        Some(c) => c,
        None => match artifact_default {
            Some(d) => d,
            None => 1,
        },
    }
}

/// The requested depth capped by the artifact maximum.
pub open spec fn capped_depth(resolved: u8, artifact_maximum: Option<u8>) -> u8 {
    match artifact_maximum {
        Some(m) => if m < resolved {
            m
        } else {
            resolved
        },
        None => resolved,
    }
}

/// The depth status reported for the given inputs.
pub open spec fn depth_status_for(
    mtp_enabled: bool,
    configured: Option<u8>,
    capability: Qwen3_5MtpArtifactCapability,
    model_has_mtp_weights: bool,
) -> MtpDepthStatus {
    let (maximum, default) = match capability {
        Qwen3_5MtpArtifactCapability::MtpCapable {
            artifact_maximum_draft_depth,
            artifact_default_draft_depth,
            ..
        } => (depth_value(artifact_maximum_draft_depth), depth_value(artifact_default_draft_depth)),
        Qwen3_5MtpArtifactCapability::TargetOnly { .. } => (None, None),
    };
    let base = MtpDepthStatus {
        configured_draft_depth: configured,
        artifact_maximum_draft_depth: maximum,
        artifact_default_draft_depth: default,
        resolved_requested_draft_depth: None,
        capped_draft_depth: None,
        effective_execution_draft_depth: None,
        resolution_reason: None,
    };
    if !mtp_enabled || capability is TargetOnly {
        base
    } else {
        let resolved = resolved_depth(configured, default);
        let capped = capped_depth(resolved, maximum);
        let reason = if capped < resolved {
            Some(MtpDepthResolutionReason::ConfiguredDepthClampedToArtifactMaximum)
        } else if configured is Some && maximum is None && resolved > 1 {
            Some(MtpDepthResolutionReason::ConfiguredDepthExceedsAutomaticGuidance)
        } else {
            None
        };
        MtpDepthStatus {
            resolved_requested_draft_depth: Some(resolved),
            capped_draft_depth: Some(capped),
            effective_execution_draft_depth: if model_has_mtp_weights {
                Some(capped)
            } else {
                None
            },
            resolution_reason: reason,
            ..base
        }
    }
}

/// The runtime state reported for the given inputs.
pub open spec fn runtime_state_for(
    mtp_enabled: bool,
    capability: Qwen3_5MtpArtifactCapability,
    model_has_mtp_weights: bool,
) -> Qwen3_5MtpRuntimeState {
    if !mtp_enabled {
        Qwen3_5MtpRuntimeState::Disabled
    } else if capability is TargetOnly {
        Qwen3_5MtpRuntimeState::TargetOnly
    } else if !model_has_mtp_weights {
        Qwen3_5MtpRuntimeState::Unavailable
    } else {
        Qwen3_5MtpRuntimeState::Active
    }
}

/// The unavailability text reported for the given inputs.
pub open spec fn unavailable_reason_for(
    mtp_enabled: bool,
    capability: Qwen3_5MtpArtifactCapability,
    model_has_mtp_weights: bool,
) -> Option<Seq<char>> {
    if !mtp_enabled {
        None
    } else if capability is TargetOnly {
        Some(target_only_reason_text(capability->reason))
    } else if !model_has_mtp_weights {
        Some("no compatible MTP head"@)
    } else {
        None
    }
}

pub open spec fn text_view(text: Option<String>) -> Option<Seq<char>> {
    match text {
        Some(t) => Some(t@),
        None => None,
    }
}

/// Resolves configured, artifact, requested, and currently executable MTP depth.
pub fn qwen3_5_mtp_runtime_configuration_after_load(
    mtp_enabled: bool,
    configured_draft_depth: Option<MtpDraftDepth>,
    mtp_artifact_capability: &Qwen3_5MtpArtifactCapability,
    model_has_mtp_weights: bool,
) -> (result: (Qwen3_5MtpRuntimeState, Option<String>, MtpDepthStatus))
    ensures
        result.0 == runtime_state_for(mtp_enabled, *mtp_artifact_capability, model_has_mtp_weights),
        text_view(result.1) == unavailable_reason_for(mtp_enabled, *mtp_artifact_capability, model_has_mtp_weights),
        result.2 == depth_status_for(
            mtp_enabled,
            depth_value(configured_draft_depth),
            *mtp_artifact_capability,
            model_has_mtp_weights,
        ),
{
    let artifact_maximum_draft_depth = mtp_artifact_capability.artifact_maximum_draft_depth();
    let artifact_default_draft_depth = mtp_artifact_capability.artifact_default_draft_depth();
    let configured = match configured_draft_depth {
        Some(depth) => Some(depth.get()),
        None => None,
    };
    let maximum = match artifact_maximum_draft_depth {
        Some(depth) => Some(depth.get()),
        None => None,
    };
    let default = match artifact_default_draft_depth {
        Some(depth) => Some(depth.get()),
        None => None,
    };
    let mut depth_status = MtpDepthStatus {
        configured_draft_depth: configured,
        artifact_maximum_draft_depth: maximum,
        artifact_default_draft_depth: default,
        resolved_requested_draft_depth: None,
        capped_draft_depth: None,
        effective_execution_draft_depth: None,
        resolution_reason: None,
    };
    if !mtp_enabled {
        return (Qwen3_5MtpRuntimeState::Disabled, None, depth_status);
    }
    match mtp_artifact_capability {
        Qwen3_5MtpArtifactCapability::TargetOnly { reason } => {
            (Qwen3_5MtpRuntimeState::TargetOnly, Some(reason.description()), depth_status)
        },
        Qwen3_5MtpArtifactCapability::MtpCapable { .. } => {
            // Artifact maximum expresses compatibility, not a measured optimum. Depth one
            // remains the automatic production baseline until metadata explicitly selects a
            // deeper depth.
            let resolved: u8 = match configured {
                Some(depth) => depth,
                None => match default {
                    Some(depth) => depth,
                    None => 1,
                },
            };
            depth_status.resolved_requested_draft_depth = Some(resolved);
            let capped: u8 = match maximum {
                Some(maximum_depth) => if maximum_depth < resolved {
                    maximum_depth
                } else {
                    resolved
                },
                None => resolved,
            };
            depth_status.capped_draft_depth = Some(capped);
            depth_status.resolution_reason = if capped < resolved {
                Some(MtpDepthResolutionReason::ConfiguredDepthClampedToArtifactMaximum)
            } else if configured.is_some() && maximum.is_none() && resolved > 1 {
                Some(MtpDepthResolutionReason::ConfiguredDepthExceedsAutomaticGuidance)
            } else {
                None
            };
            if !model_has_mtp_weights {
                return (
                    Qwen3_5MtpRuntimeState::Unavailable,
                    Some(Qwen3_5MtpUnavailableReason::NoCompatibleHead.description()),
                    depth_status,
                );
            }
            depth_status.effective_execution_draft_depth = Some(capped);
            (Qwen3_5MtpRuntimeState::Active, None, depth_status)
        },
    }
}

/// Derives the public MTP state after optional head initialization.
pub fn qwen3_5_mtp_runtime_state_after_load(
    mtp_enabled: bool,
    mtp_artifact_capability: &Qwen3_5MtpArtifactCapability,
    model_has_mtp_weights: bool,
) -> (result: (Qwen3_5MtpRuntimeState, Option<String>))
    ensures
        result.0 == runtime_state_for(mtp_enabled, *mtp_artifact_capability, model_has_mtp_weights),
        text_view(result.1) == unavailable_reason_for(mtp_enabled, *mtp_artifact_capability, model_has_mtp_weights),
{
    let (runtime_state, unavailable_reason, _) = qwen3_5_mtp_runtime_configuration_after_load(
        mtp_enabled,
        None,
        mtp_artifact_capability,
        model_has_mtp_weights,
    );
    (runtime_state, unavailable_reason)
}

/// Runtime-state law: native MTP is disabled exactly when the preference is off (and
/// then no depth is resolved); an enabled preference over an artifact without a
/// compatible inventory runs target-only with the artifact's reason and no resolved
/// depth; a capable artifact whose head failed to load is unavailable with "no
/// compatible MTP head"; and only a capable artifact with a loaded head is active,
/// with no unavailability text.
pub proof fn lemma_runtime_state_follows_preference_artifact_and_head(
    mtp_enabled: bool,
    configured: Option<u8>,
    capability: Qwen3_5MtpArtifactCapability,
    model_has_mtp_weights: bool,
)
    ensures
        ({
            let state = runtime_state_for(mtp_enabled, capability, model_has_mtp_weights);
            let text = unavailable_reason_for(mtp_enabled, capability, model_has_mtp_weights);
            let status = depth_status_for(mtp_enabled, configured, capability, model_has_mtp_weights);
            &&& !mtp_enabled ==> state == Qwen3_5MtpRuntimeState::Disabled && text is None
                && status.resolved_requested_draft_depth is None && status.capped_draft_depth is None
                && status.effective_execution_draft_depth is None && status.resolution_reason is None
            &&& (mtp_enabled && capability is TargetOnly) ==> state == Qwen3_5MtpRuntimeState::TargetOnly
                && text == Some(target_only_reason_text(capability->reason))
                && status.resolved_requested_draft_depth is None && status.effective_execution_draft_depth is None
            &&& (mtp_enabled && capability is MtpCapable && !model_has_mtp_weights) ==> state
                == Qwen3_5MtpRuntimeState::Unavailable && text == Some("no compatible MTP head"@)
                && status.resolved_requested_draft_depth is Some
            &&& (mtp_enabled && capability is MtpCapable && model_has_mtp_weights) ==> state
                == Qwen3_5MtpRuntimeState::Active && text is None
        }),
{
}

/// Requested-depth law: for an enabled, capable artifact the requested depth is the
/// configured depth when there is one, else the artifact's default depth, else one;
/// the artifact maximum never raises it and only caps it, and the loaded head runs the
/// capped depth. A clamp to the maximum is reported as such; a configured depth above
/// one with no artifact maximum to check it against is reported as exceeding automatic
/// guidance; otherwise no reason is given.
pub proof fn lemma_requested_depth_is_configured_then_default_then_one(
    configured: Option<u8>,
    capability: Qwen3_5MtpArtifactCapability,
    model_has_mtp_weights: bool,
)
    requires
        capability is MtpCapable,
    ensures
        ({
            let status = depth_status_for(true, configured, capability, model_has_mtp_weights);
            let maximum = depth_value(capability->artifact_maximum_draft_depth);
            let default = depth_value(capability->artifact_default_draft_depth);
            &&& configured matches Some(c) ==> status.resolved_requested_draft_depth == Some(c)
            &&& configured is None ==> (default matches Some(d) ==> status.resolved_requested_draft_depth
                == Some(d))
            &&& (configured is None && default is None) ==> status.resolved_requested_draft_depth == Some(1u8)
            &&& status.resolved_requested_draft_depth matches Some(requested) && status.capped_draft_depth
                matches Some(capped) && (maximum matches Some(m) ==> capped == (if m < requested {
                m
            } else {
                requested
            })) && (maximum is None ==> capped == requested)
            &&& model_has_mtp_weights ==> status.effective_execution_draft_depth == status.capped_draft_depth
            &&& !model_has_mtp_weights ==> status.effective_execution_draft_depth is None
            &&& status.resolved_requested_draft_depth matches Some(requested) && status.capped_draft_depth
                matches Some(capped) && {
                &&& capped < requested ==> status.resolution_reason == Some(
                    MtpDepthResolutionReason::ConfiguredDepthClampedToArtifactMaximum,
                )
                &&& (capped == requested && configured is Some && maximum is None && requested > 1)
                    ==> status.resolution_reason == Some(
                    MtpDepthResolutionReason::ConfiguredDepthExceedsAutomaticGuidance,
                )
                &&& (capped == requested && !(configured is Some && maximum is None && requested > 1))
                    ==> status.resolution_reason is None
            }
            &&& status.configured_draft_depth == configured
            &&& status.artifact_maximum_draft_depth == maximum
            &&& status.artifact_default_draft_depth == default
        }),
{
}

/// Depth-resolution law: native MTP executes exactly when it is enabled, the artifact
/// is capable and the head was loaded; the executed depth never exceeds the artifact
/// maximum nor the requested depth, and is at least one.
pub proof fn lemma_executed_depth_is_bounded(
    mtp_enabled: bool,
    configured: Option<u8>,
    capability: Qwen3_5MtpArtifactCapability,
    model_has_mtp_weights: bool,
)
    requires
        configured matches Some(c) ==> c >= 1,
        capability matches Qwen3_5MtpArtifactCapability::MtpCapable {
            artifact_maximum_draft_depth,
            artifact_default_draft_depth,
            ..
        } ==> (depth_value(artifact_maximum_draft_depth) matches Some(m) ==> m >= 1) && (depth_value(
            artifact_default_draft_depth,
        ) matches Some(d) ==> d >= 1),
    ensures
        ({
            let status = depth_status_for(mtp_enabled, configured, capability, model_has_mtp_weights);
            &&& (status.effective_execution_draft_depth is Some) <==> (runtime_state_for(
                mtp_enabled,
                capability,
                model_has_mtp_weights,
            ) == Qwen3_5MtpRuntimeState::Active)
            &&& status.effective_execution_draft_depth matches Some(d) ==> {
                &&& 1 <= d
                &&& status.resolved_requested_draft_depth matches Some(r) && d <= r
                &&& status.artifact_maximum_draft_depth matches Some(m) ==> d <= m
            }
        }),
{
}

} // verus!
