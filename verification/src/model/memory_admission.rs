//! Arithmetic and decisions of context memory admission and adaptive RAM growth.

use vstd::prelude::*;

verus! {

/// Why a generation context was refused.
#[derive(Clone, Copy, Debug, PartialEq, Eq, Structural)]
pub enum ContextAdmissionRejection {
    /// The per-token reservation times the token count overflows.
    ContextReservationOverflow,
    /// The maximum expert page reservation exceeds the platform range.
    ExpertPageReservationExceedsPlatformRange,
    /// The target and additional expert page reservations overflow together.
    CombinedExpertPageReservationOverflow,
    /// The context needs complete expert demotion before paged admission.
    RequiresCompleteExpertDemotion,
    /// The context exceeds available GPU wired memory.
    ExceedsAvailableMemory,
}

/// What a context rejection tells the user.
pub open spec fn rejection_text(value: ContextAdmissionRejection) -> Seq<char> {
    match value {
        ContextAdmissionRejection::ContextReservationOverflow => "generation context memory reservation overflowed"@,
        ContextAdmissionRejection::ExpertPageReservationExceedsPlatformRange => "maximum expert page reservation exceeds the platform range"@,
        ContextAdmissionRejection::CombinedExpertPageReservationOverflow => "combined expert page reservation overflowed"@,
        ContextAdmissionRejection::RequiresCompleteExpertDemotion => "generation context requires complete expert demotion before paged admission"@,
        ContextAdmissionRejection::ExceedsAvailableMemory => "generation context exceeds available GPU wired memory"@,
    }
}

impl ContextAdmissionRejection {
    /// The reason reported to the user.
    pub fn reason(&self) -> (text: &'static str)
        ensures
            text@ == rejection_text(*self),
    {
        match self {
            ContextAdmissionRejection::ContextReservationOverflow => "generation context memory reservation overflowed",
            ContextAdmissionRejection::ExpertPageReservationExceedsPlatformRange => "maximum expert page reservation exceeds the platform range",
            ContextAdmissionRejection::CombinedExpertPageReservationOverflow => "combined expert page reservation overflowed",
            ContextAdmissionRejection::RequiresCompleteExpertDemotion => "generation context requires complete expert demotion before paged admission",
            ContextAdmissionRejection::ExceedsAvailableMemory => "generation context exceeds available GPU wired memory",
        }
    }
}

/// Bytes a context admission reserves.
#[derive(Clone, Copy, Debug, PartialEq, Eq, Structural)]
pub struct ContextMemoryReservation {
    /// Context growth: reserved bytes per token times tokens requiring reservation.
    pub context_reservation_bytes: usize,
    /// One largest target expert page (paged forwards only) plus the additional reserve.
    pub maximum_expert_page_reservation_bytes: usize,
}

/// Computes the reservation of a context admission. Resident forwards need no route
/// reserve because all expert arrays already contribute to active memory; paged forwards
/// reserve one largest top-K page (`maximum_target_expert_page_bytes`, absent without a
/// pager).
pub fn context_memory_reservation(
    context_memory_reservation_bytes_per_token: usize,
    context_token_count_requiring_reservation: usize,
    sparse_experts_are_paged: bool,
    maximum_target_expert_page_bytes: Option<u64>,
    additional_maximum_expert_page_reservation_bytes: usize,
) -> (result: Result<ContextMemoryReservation, ContextAdmissionRejection>)
    ensures
        ({
            let context = context_token_count_requiring_reservation * context_memory_reservation_bytes_per_token;
            let target_page = if sparse_experts_are_paged {
                match maximum_target_expert_page_bytes {
                    Some(bytes) => bytes as int,
                    None => 0,
                }
            } else {
                0
            };
            &&& context > usize::MAX ==> result == Err::<ContextMemoryReservation, ContextAdmissionRejection>(
                ContextAdmissionRejection::ContextReservationOverflow,
            )
            &&& context <= usize::MAX && target_page > usize::MAX ==> result == Err::<
                ContextMemoryReservation,
                ContextAdmissionRejection,
            >(ContextAdmissionRejection::ExpertPageReservationExceedsPlatformRange)
            &&& context <= usize::MAX && target_page <= usize::MAX && target_page
                + additional_maximum_expert_page_reservation_bytes > usize::MAX ==> result == Err::<
                ContextMemoryReservation,
                ContextAdmissionRejection,
            >(ContextAdmissionRejection::CombinedExpertPageReservationOverflow)
            &&& context <= usize::MAX && target_page + additional_maximum_expert_page_reservation_bytes
                <= usize::MAX ==> result == Ok::<ContextMemoryReservation, ContextAdmissionRejection>(
                ContextMemoryReservation {
                    context_reservation_bytes: context as usize,
                    maximum_expert_page_reservation_bytes: (target_page
                        + additional_maximum_expert_page_reservation_bytes) as usize,
                },
            )
        }),
{
    let context_reservation_bytes = match context_token_count_requiring_reservation.checked_mul(
        context_memory_reservation_bytes_per_token,
    ) {
        Some(bytes) => bytes,
        None => {
            return Err(ContextAdmissionRejection::ContextReservationOverflow);
        },
    };
    let maximum_target_expert_page_reservation_bytes: u64 = if sparse_experts_are_paged {
        match maximum_target_expert_page_bytes {
            Some(bytes) => bytes,
            None => 0,
        }
    } else {
        0
    };
    if maximum_target_expert_page_reservation_bytes > usize::MAX as u64 {
        return Err(ContextAdmissionRejection::ExpertPageReservationExceedsPlatformRange);
    }
    let maximum_expert_page_reservation_bytes = match (maximum_target_expert_page_reservation_bytes as usize).checked_add(
        additional_maximum_expert_page_reservation_bytes,
    ) {
        Some(bytes) => bytes,
        None => {
            return Err(ContextAdmissionRejection::CombinedExpertPageReservationOverflow);
        },
    };
    Ok(ContextMemoryReservation { context_reservation_bytes, maximum_expert_page_reservation_bytes })
}

/// Admission verdict of the memory-admission policy for a projected context.
#[derive(Clone, Copy, Debug, PartialEq, Eq, Structural)]
pub enum MemoryAdmissionDecision {
    Admit,
    Reclaim { required_bytes: u64 },
    DemoteCompleteResidency,
    Reject,
}

/// What context admission does next, given the policy's first verdict.
#[derive(Clone, Copy, Debug, PartialEq, Eq, Structural)]
pub enum ContextAdmissionStep {
    Admitted,
    /// Reclaim retained expert pages for this many bytes, then decide again.
    ReclaimRetainedExperts { target_bytes: usize },
    Rejected { rejection: ContextAdmissionRejection },
}

/// Maps the policy's first verdict to the next admission step.
pub fn context_admission_step(decision: MemoryAdmissionDecision) -> (step: ContextAdmissionStep)
    ensures
        step == match decision {
            MemoryAdmissionDecision::Admit => ContextAdmissionStep::Admitted,
            MemoryAdmissionDecision::Reclaim { required_bytes } => ContextAdmissionStep::ReclaimRetainedExperts {
                target_bytes: if required_bytes > usize::MAX {
                    usize::MAX
                } else {
                    required_bytes as usize
                },
            },
            MemoryAdmissionDecision::DemoteCompleteResidency => ContextAdmissionStep::Rejected {
                rejection: ContextAdmissionRejection::RequiresCompleteExpertDemotion,
            },
            MemoryAdmissionDecision::Reject => ContextAdmissionStep::Rejected {
                rejection: ContextAdmissionRejection::ExceedsAvailableMemory,
            },
        },
{
    match decision {
        MemoryAdmissionDecision::Admit => ContextAdmissionStep::Admitted,
        MemoryAdmissionDecision::Reclaim { required_bytes } => {
            let target_bytes = if required_bytes > usize::MAX as u64 {
                usize::MAX
            } else {
                required_bytes as usize
            };
            ContextAdmissionStep::ReclaimRetainedExperts { target_bytes }
        },
        MemoryAdmissionDecision::DemoteCompleteResidency => ContextAdmissionStep::Rejected {
            rejection: ContextAdmissionRejection::RequiresCompleteExpertDemotion,
        },
        MemoryAdmissionDecision::Reject => ContextAdmissionStep::Rejected {
            rejection: ContextAdmissionRejection::ExceedsAvailableMemory,
        },
    }
}

/// Final admission after a reclamation attempt: admitted only when reclamation ran and
/// the unchanged projection then fits.
pub fn context_admission_after_reclamation(
    reclamation_ran: bool,
    decision_after_reclamation: MemoryAdmissionDecision,
) -> (result: Result<(), ContextAdmissionRejection>)
    ensures
        result == if reclamation_ran && decision_after_reclamation == MemoryAdmissionDecision::Admit {
            Ok::<(), ContextAdmissionRejection>(())
        } else {
            Err::<(), ContextAdmissionRejection>(ContextAdmissionRejection::ExceedsAvailableMemory)
        },
{
    if reclamation_ran {
        match decision_after_reclamation {
            MemoryAdmissionDecision::Admit => Ok(()),
            _ => Err(ContextAdmissionRejection::ExceedsAvailableMemory),
        }
    } else {
        Err(ContextAdmissionRejection::ExceedsAvailableMemory)
    }
}

/// Whether paged expert retention resumes after a reclamation attempt: only when the
/// reclamation ran and the context was still rejected afterwards.
pub fn resumes_expert_retention_after_reclamation(
    reclamation_ran: bool,
    decision_after_reclamation: MemoryAdmissionDecision,
) -> (resumes: bool)
    ensures
        resumes == (reclamation_ran && decision_after_reclamation != MemoryAdmissionDecision::Admit),
{
    reclamation_ran && !matches!(decision_after_reclamation, MemoryAdmissionDecision::Admit)
}

/// Expert payload actually reclaimed and the overshoot beyond the reclamation target.
pub fn expert_reclamation_outcome(
    retained_expert_payload_bytes_before: u64,
    retained_expert_payload_bytes_after: u64,
    expert_reclamation_target_bytes: usize,
) -> (outcome: (u64, u64))
    ensures
        outcome.0 == (if retained_expert_payload_bytes_before >= retained_expert_payload_bytes_after {
            retained_expert_payload_bytes_before - retained_expert_payload_bytes_after
        } else {
            0
        }),
        outcome.1 == (if outcome.0 >= expert_reclamation_target_bytes {
            outcome.0 - expert_reclamation_target_bytes
        } else {
            0
        }),
{
    let actual_reclaimed_expert_payload_bytes = retained_expert_payload_bytes_before.saturating_sub(
        retained_expert_payload_bytes_after,
    );
    let target = expert_reclamation_target_bytes as u64;
    let reclamation_overshoot_bytes = actual_reclaimed_expert_payload_bytes.saturating_sub(target);
    (actual_reclaimed_expert_payload_bytes, reclamation_overshoot_bytes)
}

/// Which limits an adaptive RAM growth projection exceeds.
#[derive(Clone, Copy, Debug, PartialEq, Eq, Structural)]
pub struct AdaptiveRamGrowthLimitFlags {
    pub stable_limit_exceeded: bool,
    pub peak_limit_exceeded: bool,
    pub recovery_reserve_exceeded: bool,
    /// Only the recovery reserve triggered the decision.
    pub recovery_reserve_only_trigger: bool,
}

/// Classifies an adaptive RAM growth projection against the ceiling and the allowance.
pub fn adaptive_ram_growth_limit_flags(
    stable_projected_bytes: usize,
    peak_projected_bytes: usize,
    recovery_projected_bytes: usize,
    active_memory_ceiling_bytes: usize,
    allowed_active_memory_bytes: usize,
) -> (flags: AdaptiveRamGrowthLimitFlags)
    ensures
        flags.stable_limit_exceeded == (stable_projected_bytes > active_memory_ceiling_bytes),
        flags.peak_limit_exceeded == (peak_projected_bytes > allowed_active_memory_bytes),
        flags.recovery_reserve_exceeded == (recovery_projected_bytes > allowed_active_memory_bytes),
        flags.recovery_reserve_only_trigger == (!flags.stable_limit_exceeded && !flags.peak_limit_exceeded
            && flags.recovery_reserve_exceeded),
{
    let stable_limit_exceeded = stable_projected_bytes > active_memory_ceiling_bytes;
    let peak_limit_exceeded = peak_projected_bytes > allowed_active_memory_bytes;
    let recovery_reserve_exceeded = recovery_projected_bytes > allowed_active_memory_bytes;
    let recovery_reserve_only_trigger = !stable_limit_exceeded && !peak_limit_exceeded && recovery_reserve_exceeded;
    AdaptiveRamGrowthLimitFlags {
        stable_limit_exceeded,
        peak_limit_exceeded,
        recovery_reserve_exceeded,
        recovery_reserve_only_trigger,
    }
}

} // verus!
