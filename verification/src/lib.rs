//! Geometric intersection kernel for a physically-based renderer:
//! axis-aligned bounding volumes, rays, affine transforms with orientation
//! tracking, shapes (sphere, triangle mesh) with ray intersection, and the
//! surface-interaction record produced at a hit point.
//!
//! All geometry is computed over an exact fixed-point scalar (16 fractional
//! bits), so every operation has a precise, machine-checked contract; the
//! two rounding sites (division and square root) return values enclosed by
//! proved bounds instead of carrying unanalyzed floating-point error.

pub mod axis;
pub mod bounds;
pub mod fx;
pub mod interaction;
pub mod ray;
pub mod scalar;
pub mod shape;
pub mod transform;
pub mod vector;
