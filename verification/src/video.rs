//! The video descriptor and the ordered validation chain.
//!
//! A video note must be at most 640 pixels wide and high, square, at most 60
//! seconds long, and at most 8 whole mebibytes heavy, where "whole mebibytes"
//! is the byte size divided by 1024*1024 with truncation. The rules are
//! checked in exactly that order and the first one that fails names the
//! rejection; the order is observable (an oversized non-square video is
//! rejected for its resolution, not for its shape).

use vstd::prelude::*;

verus! {

/// Metadata of an uploaded video, as the platform reports it before the
/// update reaches this crate: pixel sizes, duration in seconds, byte size,
/// and the opaque remote file reference used to download the bytes.
pub struct VideoDescriptor {
    pub width: u32,
    pub height: u32,
    pub duration_seconds: u32,
    pub size_bytes: u32,
    pub file_id: String,
}

/// The four reasons a video can fail validation, one per rule.
#[derive(Clone, Copy, Debug, PartialEq, Eq, Structural)]
pub enum RejectionReason {
    ResolutionTooHigh,
    NotSquare,
    TooLong,
    TooHeavy,
}

/// Outcome of the validation chain: accepted, or rejected for exactly one
/// reason.
#[derive(Clone, Copy, Debug, PartialEq, Eq, Structural)]
pub enum ValidationResult {
    Accepted,
    Rejected(RejectionReason),
}

/// The validation chain as a mathematical function: rules in their fixed
/// priority order, first failure wins.
pub open spec fn validate_spec(d: VideoDescriptor) -> ValidationResult {
    if d.width > 640 || d.height > 640 {
        ValidationResult::Rejected(RejectionReason::ResolutionTooHigh)
    } else if d.width != d.height {
        ValidationResult::Rejected(RejectionReason::NotSquare)
    } else if d.duration_seconds > 60 {
        ValidationResult::Rejected(RejectionReason::TooLong)
    } else if d.size_bytes as int / 1024 / 1024 > 8 {
        ValidationResult::Rejected(RejectionReason::TooHeavy)
    } else {
        ValidationResult::Accepted
    }
}

/// Runs the validation chain on a descriptor.
pub fn validate(d: &VideoDescriptor) -> (r: ValidationResult)
    ensures
        r == validate_spec(*d),
{
    if d.width > 640 || d.height > 640 {
        ValidationResult::Rejected(RejectionReason::ResolutionTooHigh)
    } else if d.width != d.height {
        ValidationResult::Rejected(RejectionReason::NotSquare)
    } else if d.duration_seconds > 60 {
        ValidationResult::Rejected(RejectionReason::TooLong)
    } else if d.size_bytes / 1024 / 1024 > 8 {
        ValidationResult::Rejected(RejectionReason::TooHeavy)
    } else {
        ValidationResult::Accepted
    }
}

/// An excessive resolution dominates every other rule: whatever the shape,
/// duration and size, a video wider or taller than 640 pixels is rejected
/// for its resolution.
pub proof fn lemma_resolution_has_priority(d: VideoDescriptor)
    requires
        d.width > 640 || d.height > 640,
    ensures
        validate_spec(d) == ValidationResult::Rejected(RejectionReason::ResolutionTooHigh),
{
}

/// Every conforming video is accepted: square, at most 640 pixels a side,
/// at most 60 seconds, at most 8 mebibytes.
pub proof fn lemma_conforming_is_accepted(d: VideoDescriptor)
    requires
        d.width == d.height,
        d.width <= 640,
        d.duration_seconds <= 60,
        d.size_bytes <= 8 * 1024 * 1024,
    ensures
        validate_spec(d) == ValidationResult::Accepted,
{
}

/// Validation is a pure function of the descriptor: two runs on the same
/// descriptor return the same result.
pub proof fn lemma_validate_deterministic(
    d: VideoDescriptor,
    r1: ValidationResult,
    r2: ValidationResult,
)
    requires
        r1 == validate_spec(d),
        r2 == validate_spec(d),
    ensures
        r1 == r2,
{
}

} // verus!
